use robeats_robot::producer::{Producer, TrackData, WindowCache};
use robeats_robot::sampling::{extract_samples, sample_track, Frame, Geometry};

fn frame(width: u32, height: u32) -> Frame {
    let n = (width * height * 4) as usize;
    let pixels: Vec<u8> = (0..n).map(|i| ((i / 4) % 251) as u8).collect();
    Frame { width, height, pixels }
}

fn expected(width: u32, height: u32, num: u32, den: u32, off: i64) -> u8 {
    let row = ((height / den) * num) as i64;
    let pixel = row * width as i64 + (width / 2) as i64 + off;
    (pixel % 251) as u8
}

#[test]
fn reference_geometry_samples_four_tracks() {
    let f = frame(400, 144);
    let g = Geometry::reference();
    let s = extract_samples(&f, &g);
    assert_eq!(s.len(), 4);
    let want: Vec<Option<u8>> = [-143i64, -48, 48, 143]
        .iter()
        .map(|&o| Some(expected(400, 144, 71, 72, o)))
        .collect();
    assert_eq!(s, want);
    // Row 142 of a 400-wide frame, centre column 200, minus 143.
    assert_eq!(s[0], Some(((142 * 400 + 200 - 143) % 251) as u8));
}

#[test]
fn out_of_buffer_sample_is_skipped() {
    let g = Geometry::new(1, 1, vec![0, 1_000_000, -1_000_000]).unwrap();
    let f = frame(10, 10);
    // Row 10 of a 10-row frame lies past the end.
    assert_eq!(extract_samples(&f, &g), vec![None, None, None]);
    let g2 = Geometry::new(1, 2, vec![-1_000_000, 0, 4]).unwrap();
    assert_eq!(extract_samples(&f, &g2), vec![None, Some(expected(10, 10, 1, 2, 0)), Some(expected(10, 10, 1, 2, 4))]);
    let empty = Frame { width: 0, height: 0, pixels: vec![] };
    assert_eq!(sample_track(&empty, &g2, 0), None);
}

#[test]
fn zero_denominator_is_refused() {
    assert!(Geometry::new(3, 0, vec![1]).is_none());
    assert!(Geometry::new(3, 4, vec![1]).is_some());
}

#[test]
fn track_data_starts_zeroed() {
    let d = TrackData::new();
    assert_eq!(d.len(), 4);
    for t in 0..4 {
        assert_eq!(d.get(t), 0);
    }
}

#[test]
fn store_samples_keeps_missing_tracks() {
    let mut d = TrackData::with_tracks(3);
    d.store_samples(&vec![Some(9), None, Some(250)]);
    d.store_samples(&vec![None, Some(4), None]);
    assert_eq!((d.get(0), d.get(1), d.get(2)), (9, 4, 250));
}

#[test]
fn failed_captures_change_nothing() {
    let g = Geometry::reference();
    let f = frame(400, 144);
    let mut p = Producer::new(4);
    p.cycle(Some(&f), &g);
    assert_eq!(p.cycles, 1);
    let before: Vec<u8> = (0..4).map(|t| p.data.get(t)).collect();
    assert_eq!(before[1], expected(400, 144, 71, 72, -48));
    for _ in 0..50 {
        p.cycle(None, &g);
    }
    assert_eq!(p.cycles, 1);
    let after: Vec<u8> = (0..4).map(|t| p.data.get(t)).collect();
    assert_eq!(after, before);
}

#[test]
fn window_cache_refreshes_when_empty_or_stale() {
    let mut c: WindowCache<u32> = WindowCache::new(1000);
    assert!(c.needs_refresh(1000));
    c.refresh(Some(7), 1000);
    assert_eq!(c.window(), Some(&7));
    assert!(!c.needs_refresh(1500));
    assert!(c.needs_refresh(1501));
    assert!(!c.needs_refresh(10));
    c.refresh(None, 1600);
    assert!(c.needs_refresh(1600));
    assert_eq!(c.window(), None);
}
