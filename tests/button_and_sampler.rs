use firmware_core::debounce::{ButtonEvent, ButtonWait, DebounceState, Debouncer, DEBOUNCE_MS};
use firmware_core::heartbeat::cycle_duration_ms;
use firmware_core::sampler::{ConversionError, SampleOutcome, Sampler, SAMPLE_PERIOD_MS};
use firmware_core::speed::SpeedIndex;
use firmware_core::PinLevel;

/// Feeds the events to the debouncer and advances the index on each press.
fn feed(d: &mut Debouncer, speed: &mut SpeedIndex, evs: &[ButtonEvent]) -> usize {
    let mut presses = 0;
    for e in evs {
        if d.on_event(*e) {
            *speed = speed.next();
            presses += 1;
        }
    }
    presses
}

fn held_press() -> Vec<ButtonEvent> {
    vec![ButtonEvent::WentLow, ButtonEvent::Sampled(PinLevel::Low), ButtonEvent::WentHigh]
}

fn short_glitch() -> Vec<ButtonEvent> {
    vec![ButtonEvent::WentLow, ButtonEvent::Sampled(PinLevel::High)]
}

#[test]
fn waits_follow_the_states() {
    let mut d = Debouncer::new();
    assert_eq!(d.state(), DebounceState::WaitForLow);
    assert_eq!(d.next_wait(), ButtonWait::UntilLow);
    assert!(!d.on_event(ButtonEvent::WentLow));
    assert_eq!(d.state(), DebounceState::ConfirmWindow);
    assert_eq!(d.next_wait(), ButtonWait::Millis(DEBOUNCE_MS));
    assert_eq!(DEBOUNCE_MS, 50);
    assert!(!d.on_event(ButtonEvent::Sampled(PinLevel::Low)));
    assert_eq!(d.state(), DebounceState::WaitForRelease);
    assert_eq!(d.next_wait(), ButtonWait::UntilHigh);
    assert!(d.on_event(ButtonEvent::WentHigh));
    assert_eq!(d.state(), DebounceState::WaitForLow);
}

#[test]
fn short_pulse_does_not_advance_index() {
    let mut d = Debouncer::new();
    let mut s = SpeedIndex::new();
    assert_eq!(feed(&mut d, &mut s, &short_glitch()), 0);
    assert_eq!(s.raw(), 0);
    assert_eq!(d.state(), DebounceState::WaitForLow);
}

#[test]
fn held_press_advances_index_once() {
    let mut d = Debouncer::new();
    let mut s = SpeedIndex::new();
    assert_eq!(feed(&mut d, &mut s, &held_press()), 1);
    assert_eq!(s.raw(), 1);
    assert_eq!(d.state(), DebounceState::WaitForLow);
}

#[test]
fn events_out_of_turn_are_ignored() {
    let mut d = Debouncer::new();
    let mut s = SpeedIndex::new();
    let evs = vec![
        ButtonEvent::WentHigh,
        ButtonEvent::Sampled(PinLevel::Low),
        ButtonEvent::WentLow,
        ButtonEvent::WentLow,
        ButtonEvent::Sampled(PinLevel::Low),
        ButtonEvent::WentLow,
        ButtonEvent::Sampled(PinLevel::High),
        ButtonEvent::WentHigh,
    ];
    assert_eq!(feed(&mut d, &mut s, &evs), 1);
    assert_eq!(s.raw(), 1);
}

#[test]
fn back_to_back_presses_count_twice() {
    let mut d = Debouncer::new();
    let mut s = SpeedIndex::new();
    let mut evs = held_press();
    evs.extend(held_press());
    assert_eq!(feed(&mut d, &mut s, &evs), 2);
    assert_eq!(s.raw(), 2);
    assert_eq!(s.multiplier(), 4);
}

#[test]
fn glitches_between_presses_are_filtered() {
    let mut d = Debouncer::new();
    let mut s = SpeedIndex::new();
    let mut evs = held_press();
    evs.extend(short_glitch());
    evs.extend(held_press());
    evs.extend(short_glitch());
    evs.extend(held_press());
    assert_eq!(feed(&mut d, &mut s, &evs), 3);
    assert_eq!(s.raw(), 0);
}

#[test]
fn sampler_reports_each_reading() {
    let mut smp = Sampler::new();
    assert_eq!(smp.next_wait(), Some(SAMPLE_PERIOD_MS));
    assert_eq!(SAMPLE_PERIOD_MS, 500);
    assert_eq!(smp.on_reading(Ok(1234)), SampleOutcome::Report(1234));
    assert_eq!(smp.on_reading(Ok(0)), SampleOutcome::Report(0));
    assert!(smp.is_running());
}

#[test]
fn sampler_failure_stops_only_the_sampler() {
    let mut smp = Sampler::new();
    let mut d = Debouncer::new();
    let mut s = SpeedIndex::new();
    assert_eq!(smp.on_reading(Ok(7)), SampleOutcome::Report(7));
    assert_eq!(smp.on_reading(Err(ConversionError)), SampleOutcome::Stop);
    assert!(!smp.is_running());
    assert_eq!(smp.next_wait(), None);
    assert_eq!(smp.on_reading(Ok(8)), SampleOutcome::Stop);
    assert_eq!(smp.next_wait(), None);
    assert_eq!(feed(&mut d, &mut s, &held_press()), 1);
    assert_eq!(s.raw(), 1);
    assert_eq!(cycle_duration_ms(&s), 500);
}
