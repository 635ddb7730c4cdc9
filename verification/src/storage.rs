//! The records persisted to flash. The flash access itself lives with the
//! caller; this module owns the shape of what is stored.
use vstd::prelude::*;

verus! {

/// Gate position and wind-lock latch, persisted so a power loss doesn't lose
/// track of where the leaves were or whether the wind lock was engaged.
#[derive(Debug, Clone, Copy, PartialEq, Eq, Structural)]
pub struct GateState {
    pub left_position: u8,
    pub right_position: u8,
    pub wind_locked: bool,
}

impl Default for GateState {
    /// Never saved: both leaves closed, wind lock released.
    fn default() -> (s: GateState)
        ensures
            s == (GateState { left_position: 0, right_position: 0, wind_locked: false }),
    {
        GateState { left_position: 0, right_position: 0, wind_locked: false }
    }
}

} // verus!
