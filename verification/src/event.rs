//! The vocabulary shared by producers and the controller.

use vstd::prelude::*;

verus! {

/// Electrical level of a digital line.
#[derive(Clone, Copy, Debug, PartialEq, Eq, Structural)]
pub enum Level {
    Low,
    High,
}

/// A request placed in the mailbox by one of the producers.
#[derive(Clone, Copy, Debug, PartialEq, Eq, Structural)]
pub enum Event {
    /// Manual request to switch the pump on.
    Water,
    /// Manual request to switch the pump off.
    WateringComplete,
    /// Periodic trigger to sample the soil.
    Measure,
    /// Request to capture a dry-soil reading and derive the threshold from it.
    Calibrate,
    /// Threshold override received from outside.
    SetThreshold(u16),
}

/// The two states of the controller.
#[derive(Clone, Copy, Debug, PartialEq, Eq, Structural)]
pub enum SystemState {
    Idle,
    Watering,
}

/// The level the pump line must carry while the controller rests in `state`.
pub open spec fn pump_level_in(state: SystemState) -> Level {
    match state {
        SystemState::Idle => Level::Low,
        SystemState::Watering => Level::High,
    }
}

} // verus!
