//! Phases: what extra data the state machine and its states carry at a pass.

use vstd::prelude::*;

verus! {

/// The extra data of one pass, at the machine level and at the state level.
pub trait Phase {
    type StateMachineExtra;
    type StateExtra;
}

/// The phase that carries no extra data.
pub struct NoPhase;

impl Phase for NoPhase {
    type StateMachineExtra = ();
    type StateExtra = ();
}

} // verus!
