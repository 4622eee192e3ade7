//! Decisions and answers of the HTTP API.

pub mod health;
pub mod mqtt;
pub mod vent;
