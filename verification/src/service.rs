//! Shared services handed to the parts of the application.

use vstd::prelude::*;
use std::sync::Arc;

verus! {

/// A service that can be shared between threads.
pub trait Service: Send + Sync {}

/// Writes log lines.
pub struct Logger;

impl Service for Logger {}

/// Runs queries.
pub struct Database;

impl Service for Database {}

/// Holds one shared instance of each service.
pub struct ServiceProvider {
    pub logger: Arc<Logger>,
    pub database: Arc<Database>,
}

impl ServiceProvider {
    pub fn new() -> (r: Self) {
        ServiceProvider { logger: Arc::new(Logger), database: Arc::new(Database) }
    }
}

} // verus!
