//! Decision core of a small cooperative firmware: a heartbeat LED whose
//! speed is cycled by a debounced push-button, and a fail-stop analog
//! sampler. Every function here is a pure step of one task; the task loops
//! that wait on timers and pins hand these functions plain values.
use vstd::prelude::*;

pub mod speed;
pub mod heartbeat;
pub mod debounce;
pub mod sampler;
pub mod frame;

verus! {

/// Logic level of a digital line.
#[derive(Clone, Copy, Debug, PartialEq, Eq, Structural)]
pub enum PinLevel {
    Low,
    High,
}

} // verus!
