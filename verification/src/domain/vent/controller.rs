//! A vent flap driven directly by the gateway.

use vstd::prelude::*;
use crate::domain::vent::vent::VentState;

verus! {

/// Holds the position of a locally driven vent flap.
pub struct VentController {
    state: VentState,
}

impl View for VentController {
    type V = VentState;

    closed spec fn view(&self) -> VentState {
        self.state
    }
}

impl VentController {
    /// A controller whose flap starts closed.
    pub fn new() -> (r: Self)
        ensures
            r@ == VentState::Closed,
    {
        VentController { state: VentState::Closed }
    }

    /// Opens the flap.
    pub fn open(&mut self)
        ensures
            final(self)@ == VentState::Open,
    {
        self.state = VentState::Open;
    }

    /// Closes the flap.
    pub fn close(&mut self)
        ensures
            final(self)@ == VentState::Closed,
    {
        self.state = VentState::Closed;
    }

    /// The position of the flap.
    pub fn status(&self) -> (r: VentState)
        ensures
            r == self@,
    {
        self.state
    }
}

} // verus!
