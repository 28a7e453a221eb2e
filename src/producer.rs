//! The sampling producer's side: the latest sample of each track, the cycle
//! that fills it from a capture, and the cache of the target window handle.
use vstd::prelude::*;
use crate::TRACK_COUNT;
use crate::sampling::{Frame, Geometry, extract_samples, sample_at};

verus! {

/// How long a resolved window handle is trusted before it is looked up again.
pub const WINDOW_CHECK_INTERVAL_MS: u64 = 500;

/// The latest sample of each track.
pub struct TrackData {
    tracks: Vec<u8>,
}

/// Slots after a capture: a track with a sample takes it, the rest keep theirs.
pub open spec fn apply_samples(slots: Seq<u8>, samples: Seq<Option<u8>>) -> Seq<u8> {
    Seq::new(
        slots.len(),
        |t: int|
            match samples[t] {
                Some(v) => v,
                None => slots[t],
            },
    )
}

impl View for TrackData {
    type V = Seq<u8>;

    closed spec fn view(&self) -> Seq<u8> {
        self.tracks@
    }
}

impl TrackData {
    /// One zeroed slot per track of the reference layout.
    pub fn new() -> (r: TrackData)
        ensures
            r@ == Seq::new(TRACK_COUNT as nat, |t: int| 0u8),
    {
        TrackData::with_tracks(TRACK_COUNT)
    }

    /// `n` zeroed slots.
    pub fn with_tracks(n: usize) -> (r: TrackData)
        ensures
            r@ == Seq::new(n as nat, |t: int| 0u8),
    {
        let mut tracks: Vec<u8> = Vec::new();
        let mut i: usize = 0;
        while i < n
            invariant
                i <= n,
                tracks@ == Seq::new(i as nat, |t: int| 0u8),
            decreases n - i,
        {
            tracks.push(0u8);
            i = i + 1;
            assert(tracks@ =~= Seq::new(i as nat, |t: int| 0u8));
        }
        TrackData { tracks }
    }

    pub fn len(&self) -> (r: usize)
        ensures
            r == self@.len(),
    {
        self.tracks.len()
    }

    /// The latest sample of track `t`.
    pub fn get(&self, t: usize) -> (r: u8)
        requires
            t < self@.len(),
        ensures
            r == self@[t as int],
    {
        self.tracks[t]
    }

    /// Writes each sample that is present into its track's slot.
    pub fn store_samples(&mut self, samples: &Vec<Option<u8>>)
        requires
            samples@.len() == old(self)@.len(),
        ensures
            final(self)@ == apply_samples(old(self)@, samples@),
    {
        let ghost start = self@;
        let mut t: usize = 0;
        while t < samples.len()
            invariant
                samples@.len() == start.len(),
                self@.len() == start.len(),
                t <= start.len(),
                forall|u: int| 0 <= u < t ==> self@[u] == apply_samples(start, samples@)[u],
                forall|u: int| t <= u < start.len() ==> self@[u] == start[u],
            decreases start.len() - t,
        {
            match samples[t] {
                Some(v) => {
                    self.tracks.set(t, v);
                },
                None => {},
            }
            t = t + 1;
        }
        assert(self@ =~= apply_samples(start, samples@));
    }
}

/// The producer's own record: the slots it publishes and its cycle count.
pub struct Producer {
    pub data: TrackData,
    pub cycles: u64,
}

impl Producer {
    /// A producer over `n` zeroed tracks that has completed no cycle.
    pub fn new(n: usize) -> (r: Producer)
        ensures
            r.data@ == Seq::new(n as nat, |t: int| 0u8),
            r.cycles == 0,
    {
        Producer { data: TrackData::with_tracks(n), cycles: 0 }
    }

    /// One capture cycle. A failed capture (`None`) changes nothing; a frame
    /// updates every track it yields a sample for and counts one cycle.
    pub fn cycle(&mut self, frame: Option<&Frame>, geom: &Geometry)
        requires
            geom.wf(),
            geom.offsets@.len() == old(self).data@.len(),
        ensures
            frame.is_none() ==> *final(self) == *old(self),
            frame matches Some(f) ==> final(self).data@ == apply_samples(
                old(self).data@,
                Seq::new(
                    geom.offsets@.len(),
                    |t: int| sample_at(*f, *geom, geom.offsets@[t]),
                ),
            ),
            frame is Some ==> final(self).cycles as int == if old(self).cycles == u64::MAX {
                u64::MAX as int
            } else {
                old(self).cycles + 1
            },
    {
        match frame {
            Some(f) => {
                let samples = extract_samples(f, geom);
                assert(samples@ =~= Seq::new(
                    geom.offsets@.len(),
                    |t: int| sample_at(*f, *geom, geom.offsets@[t]),
                ));
                self.data.store_samples(&samples);
                self.cycles = self.cycles.saturating_add(1);
            },
            None => {},
        }
    }
}

/// A cached window handle with the time of its last lookup.
pub struct WindowCache<W> {
    pub window: Option<W>,
    pub last_check_ms: u64,
}

impl<W> WindowCache<W> {
    /// An empty cache, created at `now_ms`.
    pub fn new(now_ms: u64) -> (r: WindowCache<W>)
        ensures
            r.window.is_none(),
            r.last_check_ms == now_ms,
    {
        WindowCache { window: None, last_check_ms: now_ms }
    }

    /// Whether the window must be looked up again at `now_ms`: none is cached,
    /// or the last lookup is more than the check interval ago.
    pub fn needs_refresh(&self, now_ms: u64) -> (r: bool)
        ensures
            r == (self.window.is_none()
                || now_ms as int - self.last_check_ms as int > WINDOW_CHECK_INTERVAL_MS as int),
    {
        self.window.is_none() || (now_ms > self.last_check_ms && now_ms - self.last_check_ms
            > WINDOW_CHECK_INTERVAL_MS)
    }

    /// Records the outcome of a lookup made at `now_ms`.
    pub fn refresh(&mut self, found: Option<W>, now_ms: u64)
        ensures
            final(self).window == found,
            final(self).last_check_ms == now_ms,
    {
        self.window = found;
        self.last_check_ms = now_ms;
    }

    /// The cached handle, if any.
    pub fn window(&self) -> (r: Option<&W>)
        ensures
            r == match self.window {
                Some(w) => Some(&w),
                None => None::<&W>,
            },
    {
        match &self.window {
            Some(w) => Some(w),
            None => None,
        }
    }
}

} // verus!
