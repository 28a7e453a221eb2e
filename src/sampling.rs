//! Frames, sampling geometry and the extraction of one intensity per track.
use vstd::prelude::*;

verus! {

/// One captured frame: row-major RGBA bytes, four per pixel.
pub struct Frame {
    pub width: u32,
    pub height: u32,
    pub pixels: Vec<u8>,
}

/// Where the tracks are sampled: a reference row at `row_num / row_den` of the
/// frame height (taken as `(height / row_den) * row_num`), the horizontal
/// centre, and one signed pixel offset per track along the row.
pub struct Geometry {
    pub row_num: u32,
    pub row_den: u32,
    pub offsets: Vec<i32>,
}

impl Geometry {
    pub open spec fn wf(&self) -> bool {
        self.row_den > 0
    }

    /// A geometry from its parts; `None` when the row denominator is zero.
    pub fn new(row_num: u32, row_den: u32, offsets: Vec<i32>) -> (r: Option<Geometry>)
        ensures
            row_den == 0 ==> r.is_none(),
            row_den > 0 ==> (r matches Some(g) && g.wf() && g.row_num == row_num
                && g.row_den == row_den && g.offsets@ == offsets@),
    {
        if row_den == 0 {
            None
        } else {
            Some(Geometry { row_num, row_den, offsets })
        }
    }

    /// The reference layout: row 71/72 of the height, four tracks at
    /// -143, -48, 48 and 143 pixels from the centre.
    pub fn reference() -> (r: Geometry)
        ensures
            r.wf(),
            r.row_num == 71,
            r.row_den == 72,
            r.offsets@ == seq![-143i32, -48i32, 48i32, 143i32],
    {
        Geometry { row_num: 71, row_den: 72, offsets: vec![-143i32, -48i32, 48i32, 143i32] }
    }
}

/// Byte index of the pixel sampled at `offset` in a `height` x `width` frame.
pub open spec fn sample_index(height: u32, width: u32, row_num: u32, row_den: u32, offset: i32) -> int
    recommends
        row_den > 0,
{
    4 * ((height as int / row_den as int) * row_num as int * width as int
        + width as int / 2 + offset as int)
}

/// The sample of one track: the leading byte of the pixel at its index, or
/// nothing when that byte lies outside the buffer.
pub open spec fn sample_at(frame: Frame, geom: Geometry, offset: i32) -> Option<u8> {
    let i = sample_index(frame.height, frame.width, geom.row_num, geom.row_den, offset);
    if 0 <= i < frame.pixels@.len() {
        Some(frame.pixels@[i])
    } else {
        None
    }
}

/// Samples one track of `frame`.
pub fn sample_track(frame: &Frame, geom: &Geometry, offset: i32) -> (r: Option<u8>)
    requires
        geom.wf(),
    ensures
        r == sample_at(*frame, *geom, offset),
{
    let h = frame.height;
    let w = frame.width;
    assert((h / geom.row_den) as int * geom.row_num as int <= 0xffff_ffff * 0xffff_ffff)
        by (nonlinear_arith)
        requires
            (h / geom.row_den) as int <= 0xffff_ffff,
            geom.row_num as int <= 0xffff_ffff,
    ;
    let row: u64 = (h / geom.row_den) as u64 * geom.row_num as u64;
    assert(row as int * w as int <= 0xffff_ffff_ffff_ffff * 0xffff_ffff) by (nonlinear_arith)
        requires
            row as int <= 0xffff_ffff_ffff_ffff,
            w as int <= 0xffff_ffff,
    ;
    let base: i128 = row as i128 * w as i128 + (w / 2) as i128 + offset as i128;
    let idx: i128 = 4 * base;
    assert(idx == sample_index(h, w, geom.row_num, geom.row_den, offset));
    if 0 <= idx && idx < frame.pixels.len() as i128 {
        Some(frame.pixels[idx as usize])
    } else {
        None
    }
}

/// Samples every track of `geom` in `frame`, in the order of its offsets.
pub fn extract_samples(frame: &Frame, geom: &Geometry) -> (r: Vec<Option<u8>>)
    requires
        geom.wf(),
    ensures
        r@.len() == geom.offsets@.len(),
        forall|t: int| 0 <= t < r@.len() ==> r@[t] == sample_at(*frame, *geom, geom.offsets@[t]),
{
    let mut out: Vec<Option<u8>> = Vec::new();
    let mut t: usize = 0;
    while t < geom.offsets.len()
        invariant
            geom.wf(),
            t <= geom.offsets@.len(),
            out@.len() == t,
            forall|u: int| 0 <= u < t ==> out@[u] == sample_at(*frame, *geom, geom.offsets@[u]),
        decreases geom.offsets@.len() - t,
    {
        let s = sample_track(frame, geom, geom.offsets[t]);
        out.push(s);
        t = t + 1;
    }
    out
}

} // verus!
