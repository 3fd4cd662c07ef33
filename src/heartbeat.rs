//! The heartbeat waveform: two short high pulses per cycle, every phase
//! scaled down by the speed multiplier read at the start of the cycle.
use vstd::prelude::*;

use crate::speed::{spec_multiplier, SpeedIndex};
use crate::PinLevel;

verus! {

/// Number of phases in one heartbeat cycle.
pub const PHASE_COUNT: usize = 5;

/// Length of phase `i` at multiplier 1, in milliseconds.
pub open spec fn base_phase_ms(i: int) -> nat {
    if i == 0 {
        500
    } else if i == 1 {
        100
    } else if i == 2 {
        200
    } else {
        100
    }
}

/// Level the LED holds during phase `i`: idle low, high, low, high, low.
pub open spec fn phase_level(i: int) -> PinLevel {
    if i == 1 || i == 3 {
        PinLevel::High
    } else {
        PinLevel::Low
    }
}

/// Total length of one cycle at multiplier `m`: the sum of its phases.
pub open spec fn cycle_total_ms(m: nat) -> nat {
    base_phase_ms(0) / m + base_phase_ms(1) / m + base_phase_ms(2) / m + base_phase_ms(3) / m
        + base_phase_ms(4) / m
}

/// One phase of the waveform: drive the LED to `level`, then wait `wait_ms`.
#[derive(Clone, Copy, Debug, PartialEq, Eq, Structural)]
pub struct HeartbeatStep {
    pub level: PinLevel,
    pub wait_ms: u64,
}

/// The phases of one heartbeat cycle at the given speed, in order.
pub fn heartbeat_cycle(speed: &SpeedIndex) -> (r: Vec<HeartbeatStep>)
    ensures
        r@.len() == PHASE_COUNT,
        forall|i: int|
            0 <= i < PHASE_COUNT ==> (#[trigger] r@[i]).level == phase_level(i) && r@[i].wait_ms
                as nat == base_phase_ms(i) / spec_multiplier(speed@),
{
    let m = speed.multiplier();
    let mut r: Vec<HeartbeatStep> = Vec::new();
    r.push(HeartbeatStep { level: PinLevel::Low, wait_ms: 500 / m });
    r.push(HeartbeatStep { level: PinLevel::High, wait_ms: 100 / m });
    r.push(HeartbeatStep { level: PinLevel::Low, wait_ms: 200 / m });
    r.push(HeartbeatStep { level: PinLevel::High, wait_ms: 100 / m });
    r.push(HeartbeatStep { level: PinLevel::Low, wait_ms: 100 / m });
    r
}

/// Total length of one heartbeat cycle at the given speed, in milliseconds.
pub fn cycle_duration_ms(speed: &SpeedIndex) -> (r: u64)
    ensures
        r as nat == cycle_total_ms(spec_multiplier(speed@)),
        r as nat == 1000nat / spec_multiplier(speed@),
{
    let m = speed.multiplier();
    proof {
        lemma_cycle_total(spec_multiplier(speed@));
    }
    500 / m + 100 / m + 200 / m + 100 / m + 100 / m
}

/// At every allowed multiplier `s` the five phases add up to exactly
/// `(500 + 100 + 200 + 100 + 100) / s` milliseconds.
pub proof fn lemma_cycle_total(s: nat)
    requires
        s == 1 || s == 2 || s == 4,
    ensures
        cycle_total_ms(s) == (500nat + 100 + 200 + 100 + 100) / s,
{
    if s == 1 {
        assert(cycle_total_ms(1) == 1000);
    } else if s == 2 {
        assert(cycle_total_ms(2) == 500);
    } else {
        assert(cycle_total_ms(4) == 250);
    }
}

} // verus!
