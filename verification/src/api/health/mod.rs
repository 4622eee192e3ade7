//! The health check endpoint.

pub mod health_controller;
