//! A consumer run against a recorded sample stream on a simulated clock:
//! tick `i` reads sample `i`, a tick lasts `TICK_MS`, and a press first waits
//! out the delay. The laws of the state machine are stated over this model.
use vstd::prelude::*;
use crate::consumer::{
    Action, KeyState, TrackConsumer, TICK_MS, step, after_wait, on_shutdown,
};

verus! {

#[derive(Clone, Copy, Debug, PartialEq, Eq, Structural)]
pub enum KeyEventKind {
    Press,
    Release,
}

/// A key event of a run: its kind, the tick that caused it, and its time.
#[derive(Clone, Copy, Debug, PartialEq, Eq, Structural)]
pub struct KeyEvent {
    pub kind: KeyEventKind,
    pub tick: usize,
    pub at_ms: u64,
}

pub ghost struct EventModel {
    pub kind: KeyEventKind,
    pub tick: int,
    pub at_ms: int,
}

impl View for KeyEvent {
    type V = EventModel;

    open spec fn view(&self) -> EventModel {
        EventModel { kind: self.kind, tick: self.tick as int, at_ms: self.at_ms as int }
    }
}

pub open spec fn events_view(events: Seq<KeyEvent>) -> Seq<EventModel> {
    events.map_values(|e: KeyEvent| e@)
}

/// Where a run stands: the key, the clock, and the events so far.
pub ghost struct Run {
    pub state: KeyState,
    pub clock: int,
    pub events: Seq<EventModel>,
}

pub open spec fn start() -> Run {
    Run { state: KeyState::Released, clock: 0, events: seq![] }
}

/// One tick of a run on `sample`, the tick numbered `tick`.
pub open spec fn tick_run(r: Run, sample: u8, tick: int, threshold: u8, delay_ms: u64) -> Run {
    let s = step(r.state, sample, threshold, delay_ms);
    match s.1 {
        Action::PressAfter(d) => Run {
            state: after_wait(s.0, false).0,
            clock: r.clock + d + TICK_MS,
            events: r.events.push(EventModel { kind: KeyEventKind::Press, tick, at_ms: r.clock + d }),
        },
        Action::Release => Run {
            state: s.0,
            clock: r.clock + TICK_MS,
            events: r.events.push(EventModel { kind: KeyEventKind::Release, tick, at_ms: r.clock }),
        },
        Action::Idle => Run { state: s.0, clock: r.clock + TICK_MS, events: r.events },
    }
}

/// The run of a fresh consumer over `samples`.
pub open spec fn run(samples: Seq<u8>, threshold: u8, delay_ms: u64) -> Run
    decreases samples.len(),
{
    if samples.len() == 0 {
        start()
    } else {
        tick_run(
            run(samples.drop_last(), threshold, delay_ms),
            samples.last(),
            samples.len() - 1,
            threshold,
            delay_ms,
        )
    }
}

/// A run followed by shutdown: a release is added for a key still held.
pub open spec fn shut_down(r: Run) -> Run {
    let s = on_shutdown(r.state);
    Run {
        state: s.0,
        clock: r.clock,
        events: if s.1 {
            r.events.push(EventModel { kind: KeyEventKind::Release, tick: -1, at_ms: r.clock })
        } else {
            r.events
        },
    }
}

/// Presses minus releases among `events`: the number of keys held after them.
pub open spec fn held(events: Seq<EventModel>) -> int
    decreases events.len(),
{
    if events.len() == 0 {
        0
    } else {
        held(events.drop_last()) + match events.last().kind {
            KeyEventKind::Press => 1int,
            KeyEventKind::Release => -1int,
        }
    }
}

/// Runs a fresh consumer over `samples` on the simulated clock and returns
/// the key events it sends.
pub fn run_track(samples: &Vec<u8>, threshold: u8, delay_ms: u64) -> (r: Vec<KeyEvent>)
    requires
        samples@.len() * (delay_ms + 1) <= u64::MAX,
    ensures
        events_view(r@) == run(samples@, threshold, delay_ms).events,
{
    let mut consumer = TrackConsumer::new(threshold);
    let mut clock: u64 = 0;
    let mut events: Vec<KeyEvent> = Vec::new();
    let mut i: usize = 0;
    assert(samples@.take(0) =~= Seq::<u8>::empty());
    assert(events_view(events@) =~= Seq::<EventModel>::empty());
    while i < samples.len()
        invariant
            i <= samples@.len(),
            samples@.len() * (delay_ms + 1) <= u64::MAX,
            consumer.threshold == threshold,
            consumer.state == run(samples@.take(i as int), threshold, delay_ms).state,
            clock == run(samples@.take(i as int), threshold, delay_ms).clock,
            events_view(events@) == run(samples@.take(i as int), threshold, delay_ms).events,
            clock <= i * (delay_ms + 1),
        decreases samples@.len() - i,
    {
        let ghost before = run(samples@.take(i as int), threshold, delay_ms);
        assert(samples@.take(i + 1).drop_last() =~= samples@.take(i as int));
        assert(samples@.take(i + 1).last() == samples@[i as int]);
        assert((i + 1) * (delay_ms + 1) == i * (delay_ms + 1) + delay_ms + 1) by (nonlinear_arith);
        assert((i + 1) * (delay_ms + 1) <= samples@.len() * (delay_ms + 1)) by (nonlinear_arith)
            requires
                i + 1 <= samples@.len(),
        ;
        let a = consumer.tick(samples[i], delay_ms);
        match a {
            Action::PressAfter(d) => {
                clock = clock + d;
                let _ = consumer.finish_wait(false);
                let ev = KeyEvent { kind: KeyEventKind::Press, tick: i, at_ms: clock };
                assert(events_view(events@.push(ev)) =~= events_view(events@).push(ev@));
                events.push(ev);
            },
            Action::Release => {
                let ev = KeyEvent { kind: KeyEventKind::Release, tick: i, at_ms: clock };
                assert(events_view(events@.push(ev)) =~= events_view(events@).push(ev@));
                events.push(ev);
            },
            Action::Idle => {},
        }
        clock = clock + TICK_MS;
        i = i + 1;
    }
    assert(samples@.take(samples@.len() as int) =~= samples@);
    events
}

/// A track that is dark for its first `m` ticks and lit from then on yields
/// exactly one press: at tick `m`, which starts at `m` ms, and sent `d` ms
/// later, that is no earlier than the delay after the crossing and within
/// the crossing's own tick of it.
pub proof fn lemma_single_press(samples: Seq<u8>, threshold: u8, delay_ms: u64, m: int)
    requires
        0 <= m < samples.len(),
        forall|i: int| 0 <= i < m ==> samples[i] <= threshold,
        forall|i: int| m <= i < samples.len() ==> samples[i] > threshold,
    ensures
        run(samples.take(m), threshold, delay_ms).clock == m,
        run(samples, threshold, delay_ms).events
            == seq![EventModel { kind: KeyEventKind::Press, tick: m, at_ms: m + delay_ms }],
{
    lemma_single_press_prefix(samples, threshold, delay_ms, m, m);
    lemma_single_press_prefix(samples, threshold, delay_ms, m, samples.len() as int);
    assert(samples.take(samples.len() as int) =~= samples);
}

proof fn lemma_single_press_prefix(samples: Seq<u8>, threshold: u8, delay_ms: u64, m: int, k: int)
    requires
        0 <= m < samples.len(),
        0 <= k <= samples.len(),
        forall|i: int| 0 <= i < m ==> samples[i] <= threshold,
        forall|i: int| m <= i < samples.len() ==> samples[i] > threshold,
    ensures
        k <= m ==> run(samples.take(k), threshold, delay_ms) == (Run {
            state: KeyState::Released,
            clock: k,
            events: Seq::<EventModel>::empty(),
        }),
        k > m ==> run(samples.take(k), threshold, delay_ms) == (Run {
            state: KeyState::Pressed,
            clock: k + delay_ms,
            events: seq![EventModel { kind: KeyEventKind::Press, tick: m, at_ms: m + delay_ms }],
        }),
    decreases k,
{
    if k > 0 {
        lemma_single_press_prefix(samples, threshold, delay_ms, m, k - 1);
        assert(samples.take(k).drop_last() =~= samples.take(k - 1));
        assert(samples.take(k).last() == samples[k - 1]);
        if k - 1 == m {
            assert(Seq::<EventModel>::empty().push(
                EventModel { kind: KeyEventKind::Press, tick: m, at_ms: m + delay_ms },
            ) =~= seq![EventModel { kind: KeyEventKind::Press, tick: m, at_ms: m + delay_ms }]);
        }
    } else {
        assert(samples.take(0) =~= Seq::<u8>::empty());
    }
}

/// A pressed key whose sample drops to the threshold or below is released in
/// that same tick, at the tick's start, whatever the delay.
pub proof fn lemma_release_in_tick(r: Run, sample: u8, tick: int, threshold: u8, delay_ms: u64)
    requires
        r.state == KeyState::Pressed,
        sample <= threshold,
    ensures
        tick_run(r, sample, tick, threshold, delay_ms) == (Run {
            state: KeyState::Released,
            clock: r.clock + TICK_MS,
            events: r.events.push(EventModel { kind: KeyEventKind::Release, tick, at_ms: r.clock }),
        }),
{
}

/// Ticks that keep a pressed key lit, or a released key dark, send nothing
/// and leave the key as it was.
pub proof fn lemma_steady_ticks_silent(samples: Seq<u8>, more: Seq<u8>, threshold: u8, delay_ms: u64)
    requires
        (run(samples, threshold, delay_ms).state == KeyState::Pressed
            && forall|i: int| 0 <= i < more.len() ==> more[i] > threshold)
        || (run(samples, threshold, delay_ms).state == KeyState::Released
            && forall|i: int| 0 <= i < more.len() ==> more[i] <= threshold),
    ensures
        run(samples + more, threshold, delay_ms).events == run(samples, threshold, delay_ms).events,
        run(samples + more, threshold, delay_ms).state == run(samples, threshold, delay_ms).state,
    decreases more.len(),
{
    if more.len() == 0 {
        assert(samples + more =~= samples);
    } else {
        lemma_steady_ticks_silent(samples, more.drop_last(), threshold, delay_ms);
        assert((samples + more).drop_last() =~= samples + more.drop_last());
        assert((samples + more).last() == more[more.len() - 1]);
    }
}

/// Every run leaves at most its last key held, and after shutdown no key is
/// held: each press sent has its release, from any reachable state.
pub proof fn lemma_shutdown_releases_all(samples: Seq<u8>, threshold: u8, delay_ms: u64)
    ensures
        run(samples, threshold, delay_ms).state != KeyState::Arming,
        held(run(samples, threshold, delay_ms).events)
            == if run(samples, threshold, delay_ms).state == KeyState::Pressed { 1int } else { 0int },
        shut_down(run(samples, threshold, delay_ms)).state == KeyState::Released,
        held(shut_down(run(samples, threshold, delay_ms)).events) == 0,
        forall|s: KeyState| #[trigger] on_shutdown(s).0 == KeyState::Released,
        after_wait(KeyState::Arming, true) == (KeyState::Released, false),
    decreases samples.len(),
{
    let r = run(samples, threshold, delay_ms);
    if samples.len() > 0 {
        lemma_shutdown_releases_all(samples.drop_last(), threshold, delay_ms);
        let p = run(samples.drop_last(), threshold, delay_ms);
        if r.events.len() > p.events.len() {
            assert(r.events.drop_last() =~= p.events);
        } else {
            assert(r.events =~= p.events);
        }
    }
    if r.state == KeyState::Pressed {
        let e = shut_down(r).events;
        assert(e.drop_last() =~= r.events);
    }
}

} // verus!
