//! A backend with no hardware behind it, for tests.

use vstd::prelude::*;

verus! {

/// A Bluetooth backend that has no adapter, discovers nothing and accepts
/// every request.
#[derive(Debug, Clone, Copy, Default)]
pub struct MockBleBackend;

} // verus!
