//! The phases of a simulated human pointer movement.
use vstd::prelude::*;

verus! {

/// Where a simulated pointer movement stands.
#[derive(Clone, Copy, Debug, PartialEq, Eq, Structural)]
pub enum MotionPhase {
    Approach,
    Targeting,
    Activation,
    Idle,
}

} // verus!
