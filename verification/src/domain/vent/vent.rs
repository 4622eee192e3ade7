//! States of the vent.

use vstd::prelude::*;

verus! {

/// What the gateway knows of the vent device.
#[derive(Clone, Copy, Debug, PartialEq, Eq, Structural)]
pub enum VentStatus {
    Disconnected,
    Connected,
    Open,
    Closed,
}

impl VentStatus {
    /// The name of the status as the API reports it.
    pub open spec fn spec_name(&self) -> Seq<char> {
        match self {
            VentStatus::Disconnected => "Disconnected"@,
            VentStatus::Connected => "Connected"@,
            VentStatus::Open => "Open"@,
            VentStatus::Closed => "Closed"@,
        }
    }

    /// The name of the status as the API reports it.
    pub fn name(&self) -> (r: String)
        ensures
            r@ == self.spec_name(),
    {
        match self {
            VentStatus::Disconnected => String::from_str("Disconnected"),
            VentStatus::Connected => String::from_str("Connected"),
            VentStatus::Open => String::from_str("Open"),
            VentStatus::Closed => String::from_str("Closed"),
        }
    }
}

/// Position of a locally driven vent flap.
#[derive(Clone, Copy, Debug, PartialEq, Eq, Structural)]
pub enum VentState {
    Open,
    Closed,
}

} // verus!
