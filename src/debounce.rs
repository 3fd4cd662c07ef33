//! Debouncing of an active-low push-button into single press events.
//!
//! The button task waits for the line to fall, waits out a fixed window,
//! samples the line once, and on a low sample waits for the release; only
//! then is a press confirmed. The task's loop performs the waits; this
//! module decides what to wait for next and when a press is confirmed.
use vstd::prelude::*;

use crate::PinLevel;

verus! {

/// Length of the confirmation window, in milliseconds.
pub const DEBOUNCE_MS: u64 = 50;

/// Where the button task stands within one press.
#[derive(Clone, Copy, Debug, PartialEq, Eq, Structural)]
pub enum DebounceState {
    /// Waiting for the line to go low.
    WaitForLow,
    /// The line went low; waiting out the confirmation window.
    ConfirmWindow,
    /// The press was confirmed low; waiting for the release.
    WaitForRelease,
}

/// What the button task observed when its last wait ended.
#[derive(Clone, Copy, Debug, PartialEq, Eq, Structural)]
pub enum ButtonEvent {
    /// The line reached the pressed (low) level.
    WentLow,
    /// The confirmation window elapsed and the line read this level.
    Sampled(PinLevel),
    /// The line reached the released (high) level.
    WentHigh,
}

/// The wait the button task performs next.
#[derive(Clone, Copy, Debug, PartialEq, Eq, Structural)]
pub enum ButtonWait {
    /// Until the line is low.
    UntilLow,
    /// For this many milliseconds, then sample the line.
    Millis(u64),
    /// Until the line is high.
    UntilHigh,
}

/// One transition: the next state, and whether a press was confirmed.
/// An event that the current state does not wait for changes nothing.
pub open spec fn debounce_step(s: DebounceState, e: ButtonEvent) -> (DebounceState, bool) {
    match (s, e) {
        (DebounceState::WaitForLow, ButtonEvent::WentLow) => (DebounceState::ConfirmWindow, false),
        (DebounceState::ConfirmWindow, ButtonEvent::Sampled(PinLevel::Low)) => (
            DebounceState::WaitForRelease,
            false,
        ),
        (DebounceState::ConfirmWindow, ButtonEvent::Sampled(PinLevel::High)) => (
            DebounceState::WaitForLow,
            false,
        ),
        (DebounceState::WaitForRelease, ButtonEvent::WentHigh) => (DebounceState::WaitForLow, true),
        _ => (s, false),
    }
}

/// The wait that belongs to each state.
pub open spec fn spec_wait(s: DebounceState) -> ButtonWait {
    match s {
        DebounceState::WaitForLow => ButtonWait::UntilLow,
        DebounceState::ConfirmWindow => ButtonWait::Millis(DEBOUNCE_MS),
        DebounceState::WaitForRelease => ButtonWait::UntilHigh,
    }
}

/// The state reached from `s` through the events `evs`, and the number of
/// presses confirmed on the way.
pub open spec fn run_debounce(s: DebounceState, evs: Seq<ButtonEvent>) -> (DebounceState, nat)
    decreases evs.len(),
{
    if evs.len() == 0 {
        (s, 0)
    } else {
        let (s1, pressed) = debounce_step(s, evs[0]);
        let (s2, n) = run_debounce(s1, evs.drop_first());
        (s2, n + if pressed {
            1nat
        } else {
            0nat
        })
    }
}

/// How a low pulse of `low_ms` milliseconds on an idle line reaches the
/// task: the fall, the sample at the end of the window (still low only if
/// the pulse lasts through it), and, for a pulse that does, the release.
pub open spec fn pulse_events(low_ms: nat) -> Seq<ButtonEvent> {
    if low_ms >= DEBOUNCE_MS {
        seq![ButtonEvent::WentLow, ButtonEvent::Sampled(PinLevel::Low), ButtonEvent::WentHigh]
    } else {
        seq![ButtonEvent::WentLow, ButtonEvent::Sampled(PinLevel::High)]
    }
}

/// The debounce state machine of the button task.
#[derive(Clone, Copy, Debug, PartialEq, Eq, Structural)]
pub struct Debouncer {
    state: DebounceState,
}

impl View for Debouncer {
    type V = DebounceState;

    closed spec fn view(&self) -> DebounceState {
        self.state
    }
}

impl Debouncer {
    /// A debouncer waiting for the first press.
    pub fn new() -> (r: Self)
        ensures
            r@ == DebounceState::WaitForLow,
    {
        Debouncer { state: DebounceState::WaitForLow }
    }

    /// The current state.
    pub fn state(&self) -> (r: DebounceState)
        ensures
            r == self@,
    {
        self.state
    }

    /// The wait to perform before the next event.
    pub fn next_wait(&self) -> (r: ButtonWait)
        ensures
            r == spec_wait(self@),
    {
        match self.state {
            DebounceState::WaitForLow => ButtonWait::UntilLow,
            DebounceState::ConfirmWindow => ButtonWait::Millis(DEBOUNCE_MS),
            DebounceState::WaitForRelease => ButtonWait::UntilHigh,
        }
    }

    /// Takes in what the last wait observed; returns whether a press was
    /// confirmed by it.
    pub fn on_event(&mut self, e: ButtonEvent) -> (r: bool)
        ensures
            (final(self)@, r) == debounce_step(old(self)@, e),
    {
        let (next, pressed) = match (self.state, e) {
            (DebounceState::WaitForLow, ButtonEvent::WentLow) => (
                DebounceState::ConfirmWindow,
                false,
            ),
            (DebounceState::ConfirmWindow, ButtonEvent::Sampled(PinLevel::Low)) => (
                DebounceState::WaitForRelease,
                false,
            ),
            (DebounceState::ConfirmWindow, ButtonEvent::Sampled(PinLevel::High)) => (
                DebounceState::WaitForLow,
                false,
            ),
            (DebounceState::WaitForRelease, ButtonEvent::WentHigh) => (
                DebounceState::WaitForLow,
                true,
            ),
            (s, _) => (s, false),
        };
        self.state = next;
        pressed
    }
}

/// Running through `a` and then `b` is running through `a + b`: the presses
/// of the two parts add up.
pub proof fn lemma_run_concat(s: DebounceState, a: Seq<ButtonEvent>, b: Seq<ButtonEvent>)
    ensures
        run_debounce(s, a + b) == (
            run_debounce(run_debounce(s, a).0, b).0,
            run_debounce(s, a).1 + run_debounce(run_debounce(s, a).0, b).1,
        ),
    decreases a.len(),
{
    if a.len() == 0 {
        assert(a + b =~= b);
    } else {
        let s1 = debounce_step(s, a[0]).0;
        assert((a + b).drop_first() =~= a.drop_first() + b);
        lemma_run_concat(s1, a.drop_first(), b);
    }
}

/// A low pulse shorter than the confirmation window confirms no press, and
/// leaves the task waiting for the next one.
pub proof fn lemma_short_pulse_rejected(low_ms: nat)
    requires
        low_ms < DEBOUNCE_MS,
    ensures
        run_debounce(DebounceState::WaitForLow, pulse_events(low_ms)) == (
            DebounceState::WaitForLow,
            0nat,
        ),
{
    let evs = pulse_events(low_ms);
    reveal_with_fuel(run_debounce, 3);
    assert(evs.drop_first().drop_first() =~= Seq::<ButtonEvent>::empty());
}

/// A low level held through the confirmation sample confirms exactly one
/// press once released, whatever the pulse's length beyond the window.
pub proof fn lemma_held_press_accepted(low_ms: nat)
    requires
        low_ms >= DEBOUNCE_MS,
    ensures
        run_debounce(DebounceState::WaitForLow, pulse_events(low_ms)) == (
            DebounceState::WaitForLow,
            1nat,
        ),
{
    let evs = pulse_events(low_ms);
    reveal_with_fuel(run_debounce, 4);
    assert(evs.drop_first().drop_first().drop_first() =~= Seq::<ButtonEvent>::empty());
}

/// Two presses that each hold through the confirmation sample count as two,
/// however close together they come.
pub proof fn lemma_presses_not_coalesced(first_ms: nat, second_ms: nat)
    requires
        first_ms >= DEBOUNCE_MS,
        second_ms >= DEBOUNCE_MS,
    ensures
        run_debounce(DebounceState::WaitForLow, pulse_events(first_ms) + pulse_events(second_ms))
            == (DebounceState::WaitForLow, 2nat),
{
    lemma_held_press_accepted(first_ms);
    lemma_held_press_accepted(second_ms);
    lemma_run_concat(DebounceState::WaitForLow, pulse_events(first_ms), pulse_events(second_ms));
}

} // verus!
