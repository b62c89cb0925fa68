//! The engine's platform layer: task scheduling and other process-wide
//! services the engine needs before it can run.

use vstd::prelude::*;

verus! {

/// A handle on the engine's platform services. One platform serves the whole
/// process; it is handed to [`crate::v8::V8::initialize_platform`] exactly
/// once.
pub struct Platform {
    default: bool,
}

impl Platform {
    /// Whether this platform was built with the engine's default settings.
    pub closed spec fn is_default(&self) -> bool {
        self.default
    }
}

/// Build the engine's default platform.
pub fn new_default_platform() -> (p: Platform)
    ensures
        p.is_default(),
{
    Platform { default: true }
}

} // verus!
