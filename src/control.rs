//! The control loop's registers and decisions: the press delay, the stop
//! flag, edge-triggered hotkeys, and the throughput figures it reports.
use vstd::prelude::*;

verus! {

/// Press delay a session starts with, in milliseconds.
pub const INITIAL_DELAY_MS: u64 = 5;

/// Poll period of the control loop, in milliseconds.
pub const CONTROL_POLL_MS: u64 = 10;

/// Period of the status report, in milliseconds.
pub const STATUS_PERIOD_MS: u64 = 1000;

/// The operator's hotkeys.
#[derive(Clone, Copy, Debug, PartialEq, Eq, Structural)]
pub enum Hotkey {
    Increase,
    Decrease,
    Stop,
}

/// Delay after one increase: one more, held at the top of the range.
pub open spec fn increased(d: u64) -> u64 {
    if d == u64::MAX { d } else { (d + 1) as u64 }
}

/// Delay after one decrease: one less, held at zero.
pub open spec fn decreased(d: u64) -> u64 {
    if d == 0 { 0 } else { (d - 1) as u64 }
}

/// The delay register and the shutdown flag, owned by the control loop.
pub struct Metrics {
    pub note_delay: u64,
    pub stop_signal: bool,
}

/// What a poll changes: the delay, and whether a stop key was newly pressed.
pub ghost struct Controls {
    pub delay: u64,
    pub stop: bool,
}

/// Applies the keys of `current` in order; a key counts only when it was not
/// held at the previous poll, and a stop ends the poll.
pub open spec fn apply_keys(start: Controls, previous: Seq<Hotkey>, current: Seq<Hotkey>) -> Controls
    decreases current.len(),
{
    if current.len() == 0 {
        start
    } else {
        let c = apply_keys(start, previous, current.drop_last());
        let k = current.last();
        if c.stop || previous.contains(k) {
            c
        } else {
            match k {
                Hotkey::Increase => Controls { delay: increased(c.delay), stop: false },
                Hotkey::Decrease => Controls { delay: decreased(c.delay), stop: false },
                Hotkey::Stop => Controls { delay: c.delay, stop: true },
            }
        }
    }
}

impl Metrics {
    /// The registers at session start: the initial delay, not stopping.
    pub fn new() -> (r: Metrics)
        ensures
            r.note_delay == INITIAL_DELAY_MS,
            !r.stop_signal,
    {
        Metrics { note_delay: INITIAL_DELAY_MS, stop_signal: false }
    }

    pub fn increase_delay(&mut self)
        ensures
            final(self).note_delay == increased(old(self).note_delay),
            final(self).stop_signal == old(self).stop_signal,
    {
        if self.note_delay < u64::MAX {
            self.note_delay = self.note_delay + 1;
        }
    }

    pub fn decrease_delay(&mut self)
        ensures
            final(self).note_delay == decreased(old(self).note_delay),
            final(self).stop_signal == old(self).stop_signal,
    {
        if self.note_delay > 0 {
            self.note_delay = self.note_delay - 1;
        }
    }

    /// Raises the shutdown flag; it is never lowered again.
    pub fn request_stop(&mut self)
        ensures
            final(self).stop_signal,
            final(self).note_delay == old(self).note_delay,
    {
        self.stop_signal = true;
    }

    pub fn is_stopping(&self) -> (r: bool)
        ensures
            r == self.stop_signal,
    {
        self.stop_signal
    }

    /// Acts on one poll of the held hotkeys, given those of the previous poll.
    pub fn handle_keys(&mut self, previous: &Vec<Hotkey>, current: &Vec<Hotkey>)
        ensures
            final(self).note_delay == apply_keys(
                Controls { delay: old(self).note_delay, stop: false },
                previous@,
                current@,
            ).delay,
            final(self).stop_signal == (old(self).stop_signal || apply_keys(
                Controls { delay: old(self).note_delay, stop: false },
                previous@,
                current@,
            ).stop),
    {
        let ghost start = Controls { delay: self.note_delay, stop: false };
        let ghost was_stopping = self.stop_signal;
        let mut i: usize = 0;
        let mut stopped = false;
        while i < current.len()
            invariant
                i <= current@.len(),
                apply_keys(start, previous@, current@.take(i as int))
                    == (Controls { delay: self.note_delay, stop: stopped }),
                self.stop_signal == (was_stopping || stopped),
            decreases current@.len() - i,
        {
            let k = current[i];
            assert(current@.take(i + 1).drop_last() =~= current@.take(i as int));
            assert(current@.take(i + 1).last() == k);
            if stopped {
            } else if contains_key(previous, k) {
            } else {
                match k {
                    Hotkey::Increase => self.increase_delay(),
                    Hotkey::Decrease => self.decrease_delay(),
                    Hotkey::Stop => {
                        self.request_stop();
                        stopped = true;
                    },
                }
            }
            i = i + 1;
        }
        assert(current@.take(current@.len() as int) =~= current@);
    }
}

/// Whether `k` is among `keys`.
pub fn contains_key(keys: &Vec<Hotkey>, k: Hotkey) -> (r: bool)
    ensures
        r == keys@.contains(k),
{
    let mut i: usize = 0;
    while i < keys.len()
        invariant
            i <= keys@.len(),
            forall|j: int| 0 <= j < i ==> keys@[j] != k,
        decreases keys@.len() - i,
    {
        if keys[i] == k {
            return true;
        }
        i = i + 1;
    }
    false
}

/// Operations per second over `elapsed_secs`, counted as at least one second.
pub fn per_second(count: u64, elapsed_secs: u64) -> (r: u64)
    ensures
        r == count / if elapsed_secs == 0 { 1u64 } else { elapsed_secs },
{
    let secs: u64 = if elapsed_secs == 0 { 1u64 } else { elapsed_secs };
    count / secs
}

/// Whether the status report is due at `elapsed_ms`: during the first poll
/// period of each status period.
pub fn status_due(elapsed_ms: u64) -> (r: bool)
    ensures
        r == (elapsed_ms % STATUS_PERIOD_MS < CONTROL_POLL_MS),
{
    elapsed_ms % STATUS_PERIOD_MS < CONTROL_POLL_MS
}

/// The delay register moves by exactly one step per call: an increase never
/// lowers it, a decrease never raises it nor goes below zero, and a decrease
/// undoes an increase below the top of the range, so no update is lost.
pub proof fn lemma_delay_steps(d: u64)
    ensures
        increased(d) >= d,
        decreased(d) <= d,
        decreased(d) >= 0,
        d < u64::MAX ==> increased(d) == d + 1,
        d > 0 ==> decreased(d) == d - 1,
        decreased(0) == 0,
        d < u64::MAX ==> decreased(increased(d)) == d,
        d > 0 ==> increased(decreased(d)) == d,
{
}

} // verus!
