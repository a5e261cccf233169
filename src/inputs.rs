use vstd::prelude::*;

use crate::command::Command;
use crate::sample_rate::SampleRate;

verus! {

/// Turning direction of the rotary encoder.
#[derive(Clone, Copy, Debug, PartialEq, Eq, Structural)]
pub enum Direction {
    Clockwise,
    CounterClockwise,
}

/// One detent of the volume knob.
pub fn rotary_command(d: Direction) -> (r: Command)
    ensures
        r == match d {
            Direction::Clockwise => Command::VolumeUp,
            Direction::CounterClockwise => Command::VolumeDown,
        },
{
    match d {
        Direction::Clockwise => Command::VolumeUp,
        Direction::CounterClockwise => Command::VolumeDown,
    }
}

/// The external mute line: high mutes, low unmutes.
pub fn mute_pin_command(high: bool) -> (r: Command)
    ensures
        r == if high {
            Command::Mute
        } else {
            Command::Unmute
        },
{
    if high {
        Command::Mute
    } else {
        Command::Unmute
    }
}

/// The update that a freshly read sample rate sends; an unknown rate is never sent.
pub fn rate_command(rate: SampleRate) -> (r: Option<Command>)
    ensures
        r == if rate == SampleRate::Unknown {
            None
        } else {
            Some(Command::UpdateSampleRate(rate))
        },
{
    if rate == SampleRate::Unknown {
        None
    } else {
        Some(Command::UpdateSampleRate(rate))
    }
}

/// How long the debouncer waits for an edge before it samples the line again.
pub const EDGE_POLL_MS: u32 = 100;

/// Where the debouncer is in its wait.
#[derive(Clone, Copy, Debug, PartialEq, Eq, Structural)]
pub enum DebouncePhase {
    /// Waiting for an edge; `level` was sampled before the wait.
    Armed { level: bool },
    /// An edge came; waiting out the settle time. `level` is the level from before the edge.
    Settling { level: bool },
}

/// What happens on the line while the debouncer waits.
#[derive(Clone, Copy, Debug, PartialEq, Eq, Structural)]
pub enum DebounceEvent {
    /// No edge within `EDGE_POLL_MS`; `level` is the line sampled afterwards.
    Timeout { level: bool },
    /// An edge.
    Edge,
    /// The settle time is over; `level` is the line sampled then.
    Settled { level: bool },
}

/// Next phase, and the level reported, if the event completes a debounce.
pub open spec fn debounce_step(p: DebouncePhase, e: DebounceEvent) -> (DebouncePhase, Option<bool>) {
    match (p, e) {
        (DebouncePhase::Armed { .. }, DebounceEvent::Timeout { level }) => (
            DebouncePhase::Armed { level },
            None,
        ),
        (DebouncePhase::Armed { level }, DebounceEvent::Edge) => (
            DebouncePhase::Settling { level },
            None,
        ),
        (DebouncePhase::Settling { level: before }, DebounceEvent::Settled { level }) => (
            DebouncePhase::Armed { level },
            if level != before {
                Some(level)
            } else {
                None
            },
        ),
        _ => (p, None),
    }
}

/// Phase and reported levels after a run of events.
pub open spec fn debounce_run(p: DebouncePhase, events: Seq<DebounceEvent>) -> (DebouncePhase, Seq<bool>)
    decreases events.len(),
{
    if events.len() == 0 {
        (p, seq![])
    } else {
        let (q, o) = debounce_step(p, events[0]);
        let (q2, out) = debounce_run(q, events.drop_first());
        (q2, match o {
            Some(l) => seq![l] + out,
            None => out,
        })
    }
}

/// Settles a raw level line: a change is reported only when the line still differs from
/// its level before the edge once the settle time has passed.
#[derive(Clone, Copy, Debug, PartialEq, Eq, Structural)]
pub struct Debouncer {
    pub settle_ms: u32,
    pub phase: DebouncePhase,
}

impl Debouncer {
    /// Starts watching a line that is at `level` now.
    pub fn new(level: bool, settle_ms: u32) -> (r: Debouncer)
        ensures
            r.settle_ms == settle_ms,
            r.phase == (DebouncePhase::Armed { level }),
    {
        Debouncer { settle_ms, phase: DebouncePhase::Armed { level } }
    }

    /// How long to wait now: for an edge (at most `EDGE_POLL_MS`), or for the settle time.
    pub fn wait_ms(&self) -> (r: u32)
        ensures
            r == match self.phase {
                DebouncePhase::Armed { .. } => EDGE_POLL_MS,
                DebouncePhase::Settling { .. } => self.settle_ms,
            },
    {
        match self.phase {
            DebouncePhase::Armed { .. } => EDGE_POLL_MS,
            DebouncePhase::Settling { .. } => self.settle_ms,
        }
    }

    /// Takes what happened during the wait; returns the settled level when the event
    /// completes a debounce.
    pub fn debounce(&mut self, event: DebounceEvent) -> (r: Option<bool>)
        ensures
            final(self).settle_ms == old(self).settle_ms,
            (final(self).phase, r) == debounce_step(old(self).phase, event),
    {
        match (self.phase, event) {
            (DebouncePhase::Armed { .. }, DebounceEvent::Timeout { level }) => {
                self.phase = DebouncePhase::Armed { level };
                None
            },
            (DebouncePhase::Armed { level }, DebounceEvent::Edge) => {
                self.phase = DebouncePhase::Settling { level };
                None
            },
            (DebouncePhase::Settling { level: before }, DebounceEvent::Settled { level }) => {
                self.phase = DebouncePhase::Armed { level };
                if level != before {
                    Some(level)
                } else {
                    None
                }
            },
            _ => None,
        }
    }
}

pub open spec fn edges(n: nat) -> Seq<DebounceEvent> {
    Seq::new(n, |i: int| DebounceEvent::Edge)
}

proof fn lemma_edges_while_settling(level: bool, n: nat)
    ensures
        debounce_run(DebouncePhase::Settling { level }, edges(n)) == (
            DebouncePhase::Settling { level },
            Seq::<bool>::empty(),
        ),
    decreases n,
{
    if n > 0 {
        assert(edges(n).drop_first() =~= edges((n - 1) as nat));
        lemma_edges_while_settling(level, (n - 1) as nat);
    }
    assert(seq![] =~= Seq::<bool>::empty());
}

proof fn lemma_debounce_run_append(p: DebouncePhase, a: Seq<DebounceEvent>, b: Seq<DebounceEvent>)
    ensures
        ({
            let (q, out1) = debounce_run(p, a);
            let (q2, out2) = debounce_run(q, b);
            debounce_run(p, a + b) == (q2, out1 + out2)
        }),
    decreases a.len(),
{
    if a.len() == 0 {
        assert(a + b =~= b);
        assert(Seq::<bool>::empty() + debounce_run(p, b).1 =~= debounce_run(p, b).1);
    } else {
        let (q, o) = debounce_step(p, a[0]);
        assert((a + b).drop_first() =~= a.drop_first() + b);
        assert((a + b)[0] == a[0]);
        lemma_debounce_run_append(q, a.drop_first(), b);
        let (q1, rest1) = debounce_run(q, a.drop_first());
        let (q2, out2) = debounce_run(q1, b);
        match o {
            Some(l) => {
                assert(seq![l] + (rest1 + out2) =~= (seq![l] + rest1) + out2);
            },
            None => {},
        }
    }
}

/// Bounces are not reported: an edge followed by any number of further edges inside the
/// settle window, with the line back at its old level when the window ends, completes no
/// debounce. A clean change, still there when the window ends, completes exactly one,
/// reporting the new level.
pub proof fn lemma_debounce_suppresses_bounces(level: bool, bounces: nat)
    ensures
        debounce_run(
            DebouncePhase::Armed { level },
            seq![DebounceEvent::Edge] + edges(bounces) + seq![DebounceEvent::Settled { level }],
        ).1 == Seq::<bool>::empty(),
        debounce_run(
            DebouncePhase::Armed { level },
            seq![DebounceEvent::Edge, DebounceEvent::Settled { level: !level }],
        ).1 == seq![!level],
{
    let start = DebouncePhase::Armed { level };
    let settling = DebouncePhase::Settling { level };
    let first = seq![DebounceEvent::Edge];
    let last = seq![DebounceEvent::Settled { level }];
    reveal_with_fuel(debounce_run, 3);
    assert(first.drop_first() =~= Seq::<DebounceEvent>::empty());
    assert(last.drop_first() =~= Seq::<DebounceEvent>::empty());
    lemma_debounce_run_append(start, first, edges(bounces));
    lemma_edges_while_settling(level, bounces);
    lemma_debounce_run_append(start, first + edges(bounces), last);
    assert(Seq::<bool>::empty() + Seq::<bool>::empty() =~= Seq::<bool>::empty());
    let clean = seq![DebounceEvent::Edge, DebounceEvent::Settled { level: !level }];
    assert(clean.drop_first() =~= seq![DebounceEvent::Settled { level: !level }]);
    assert(clean.drop_first().drop_first() =~= Seq::<DebounceEvent>::empty());
    assert(seq![!level] + Seq::<bool>::empty() =~= seq![!level]);
}

/// One settle window of bounces: an edge, `n` further edges, and the line back at `level`.
pub open spec fn bounce_window(level: bool, n: nat) -> Seq<DebounceEvent> {
    seq![DebounceEvent::Edge] + edges(n) + seq![DebounceEvent::Settled { level }]
}

/// Settle windows of bounces one after the other, with the given numbers of extra edges.
pub open spec fn bounce_train(level: bool, counts: Seq<nat>) -> Seq<DebounceEvent>
    decreases counts.len(),
{
    if counts.len() == 0 {
        seq![]
    } else {
        bounce_window(level, counts[0]) + bounce_train(level, counts.drop_first())
    }
}

/// A bounce train over any number of settle windows, each ending with the line back at
/// its old level, completes no debounce and leaves the debouncer armed at that level.
pub proof fn lemma_bounce_train_suppressed(level: bool, counts: Seq<nat>)
    ensures
        debounce_run(DebouncePhase::Armed { level }, bounce_train(level, counts)) == (
            DebouncePhase::Armed { level },
            Seq::<bool>::empty(),
        ),
    decreases counts.len(),
{
    let start = DebouncePhase::Armed { level };
    if counts.len() == 0 {
        assert(seq![] =~= Seq::<bool>::empty());
    } else {
        let w = bounce_window(level, counts[0]);
        let rest = bounce_train(level, counts.drop_first());
        lemma_window_suppressed(level, counts[0]);
        lemma_bounce_train_suppressed(level, counts.drop_first());
        lemma_debounce_run_append(start, w, rest);
        assert(Seq::<bool>::empty() + Seq::<bool>::empty() =~= Seq::<bool>::empty());
    }
}

proof fn lemma_window_suppressed(level: bool, n: nat)
    ensures
        debounce_run(DebouncePhase::Armed { level }, bounce_window(level, n)) == (
            DebouncePhase::Armed { level },
            Seq::<bool>::empty(),
        ),
{
    let start = DebouncePhase::Armed { level };
    let first = seq![DebounceEvent::Edge];
    let last = seq![DebounceEvent::Settled { level }];
    reveal_with_fuel(debounce_run, 2);
    assert(first.drop_first() =~= Seq::<DebounceEvent>::empty());
    assert(last.drop_first() =~= Seq::<DebounceEvent>::empty());
    lemma_debounce_run_append(start, first, edges(n));
    lemma_edges_while_settling(level, n);
    lemma_debounce_run_append(start, first + edges(n), last);
    assert(Seq::<bool>::empty() + Seq::<bool>::empty() =~= Seq::<bool>::empty());
}

/// Hold time after which a press of the knob button toggles playback, in milliseconds.
pub const HOLD_PLAY_MS: u32 = 1000;

/// Hold time after which a press of the knob button toggles power, in milliseconds.
pub const HOLD_POWER_MS: u32 = 5000;

/// Where a press of the knob button is.
#[derive(Clone, Copy, Debug, PartialEq, Eq, Structural)]
pub enum HoldPhase {
    Released,
    Pressed,
    Held,
    LongHeld,
}

/// Long-press detector of the knob button, driven by debounced changes and deadlines that
/// count from the start of the press.
#[derive(Clone, Copy, Debug, PartialEq, Eq, Structural)]
pub struct ButtonHold {
    pub phase: HoldPhase,
}

impl ButtonHold {
    pub fn new() -> (r: ButtonHold)
        ensures
            r.phase == HoldPhase::Released,
    {
        ButtonHold { phase: HoldPhase::Released }
    }

    /// The deadline to race against the next change, counted from the start of the press.
    pub fn deadline_ms(&self) -> (r: Option<u32>)
        ensures
            r == match self.phase {
                HoldPhase::Pressed => Some(HOLD_PLAY_MS),
                HoldPhase::Held => Some(HOLD_POWER_MS),
                _ => None,
            },
    {
        match self.phase {
            HoldPhase::Pressed => Some(HOLD_PLAY_MS),
            HoldPhase::Held => Some(HOLD_POWER_MS),
            _ => None,
        }
    }

    /// A debounced change of the button: it starts a press, or ends one.
    pub fn on_change(&mut self) -> (r: Option<Command>)
        ensures
            r is None,
            final(self).phase == if old(self).phase == HoldPhase::Released {
                HoldPhase::Pressed
            } else {
                HoldPhase::Released
            },
    {
        self.phase = match self.phase {
            HoldPhase::Released => HoldPhase::Pressed,
            _ => HoldPhase::Released,
        };
        None
    }

    /// The deadline of `deadline_ms` passed with the button still down.
    pub fn on_deadline(&mut self) -> (r: Option<Command>)
        ensures
            old(self).phase == HoldPhase::Pressed ==> r == Some(Command::TogglePlay)
                && final(self).phase == HoldPhase::Held,
            old(self).phase == HoldPhase::Held ==> r == Some(Command::TogglePower)
                && final(self).phase == HoldPhase::LongHeld,
            (old(self).phase == HoldPhase::Released || old(self).phase == HoldPhase::LongHeld)
                ==> r is None && final(self).phase == old(self).phase,
    {
        match self.phase {
            HoldPhase::Pressed => {
                self.phase = HoldPhase::Held;
                Some(Command::TogglePlay)
            },
            HoldPhase::Held => {
                self.phase = HoldPhase::LongHeld;
                Some(Command::TogglePower)
            },
            _ => None,
        }
    }
}

} // verus!
