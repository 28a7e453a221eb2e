//! The per-track press/release state machine, and a model of its timeline
//! in which every tick lasts `TICK_MS` and a press first waits out the delay.
use vstd::prelude::*;

verus! {

/// Length of one polling tick of a track consumer, in milliseconds.
pub const TICK_MS: u64 = 1;

/// State of one track's key. `Arming` is the confirmation wait: the press is
/// decided but not yet sent, so the key is still physically up.
#[derive(Clone, Copy, Debug, PartialEq, Eq, Structural)]
pub enum KeyState {
    Released,
    Arming,
    Pressed,
}

/// What a tick asks of the caller.
#[derive(Clone, Copy, Debug, PartialEq, Eq, Structural)]
pub enum Action {
    /// Nothing to send.
    Idle,
    /// Wait this many milliseconds, then settle the press with `finish_wait`.
    PressAfter(u64),
    /// Send a key release now.
    Release,
}

/// One tick: a lit sample arms a released key with the current delay, a dark
/// sample releases a pressed key at once, and anything else changes nothing.
pub open spec fn step(state: KeyState, sample: u8, threshold: u8, delay_ms: u64) -> (KeyState, Action) {
    match state {
        KeyState::Released => if sample > threshold {
            (KeyState::Arming, Action::PressAfter(delay_ms))
        } else {
            (KeyState::Released, Action::Idle)
        },
        KeyState::Pressed => if sample <= threshold {
            (KeyState::Released, Action::Release)
        } else {
            (KeyState::Pressed, Action::Idle)
        },
        KeyState::Arming => (KeyState::Arming, Action::Idle),
    }
}

/// End of the confirmation wait: the press goes out unless shutdown was seen.
pub open spec fn after_wait(state: KeyState, stopping: bool) -> (KeyState, bool) {
    match state {
        KeyState::Arming => if stopping {
            (KeyState::Released, false)
        } else {
            (KeyState::Pressed, true)
        },
        _ => (state, false),
    }
}

/// Shutdown: every key ends released, with a release sent for a pressed one.
pub open spec fn on_shutdown(state: KeyState) -> (KeyState, bool) {
    (KeyState::Released, state == KeyState::Pressed)
}

/// The consumer of one track.
pub struct TrackConsumer {
    pub state: KeyState,
    pub threshold: u8,
}

impl TrackConsumer {
    /// A consumer whose key starts released.
    pub fn new(threshold: u8) -> (r: TrackConsumer)
        ensures
            r.state == KeyState::Released,
            r.threshold == threshold,
    {
        TrackConsumer { state: KeyState::Released, threshold }
    }

    /// Runs one polling tick on the current sample and delay.
    pub fn tick(&mut self, sample: u8, delay_ms: u64) -> (a: Action)
        ensures
            (final(self).state, a) == step(old(self).state, sample, old(self).threshold, delay_ms),
            final(self).threshold == old(self).threshold,
    {
        match self.state {
            KeyState::Released => {
                if sample > self.threshold {
                    self.state = KeyState::Arming;
                    Action::PressAfter(delay_ms)
                } else {
                    Action::Idle
                }
            },
            KeyState::Pressed => {
                if sample <= self.threshold {
                    self.state = KeyState::Released;
                    Action::Release
                } else {
                    Action::Idle
                }
            },
            KeyState::Arming => Action::Idle,
        }
    }

    /// Settles a press after its wait; true when the press is to be sent.
    pub fn finish_wait(&mut self, stopping: bool) -> (press: bool)
        ensures
            (final(self).state, press) == after_wait(old(self).state, stopping),
            final(self).threshold == old(self).threshold,
    {
        match self.state {
            KeyState::Arming => {
                if stopping {
                    self.state = KeyState::Released;
                    false
                } else {
                    self.state = KeyState::Pressed;
                    true
                }
            },
            _ => false,
        }
    }

    /// Leaves the key released; true when a release is to be sent.
    pub fn shutdown(&mut self) -> (release: bool)
        ensures
            (final(self).state, release) == on_shutdown(old(self).state),
            final(self).threshold == old(self).threshold,
    {
        let release = match self.state {
            KeyState::Pressed => true,
            _ => false,
        };
        self.state = KeyState::Released;
        release
    }

    /// Whether the key is physically held down.
    pub fn is_key_down(&self) -> (r: bool)
        ensures
            r == (self.state == KeyState::Pressed),
    {
        match self.state {
            KeyState::Pressed => true,
            _ => false,
        }
    }
}

} // verus!
