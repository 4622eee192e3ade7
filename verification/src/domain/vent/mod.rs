//! The vent.

pub mod controller;
pub mod vent;
