//! One notification frame fanned out to broadcast subscribers.

use vstd::prelude::*;

use crate::Json::Json;

verus! {

/// A notification observed on the bus.
#[derive(Debug, Clone)]
pub struct Struct {
    /// The side-car it came from (for example `cocoon-main`).
    pub SideCarIdentifier: String,
    /// The notification's method name.
    pub Method: String,
    /// Its JSON payload.
    pub Parameters: Json,
    /// Process-relative nanoseconds at fan-out time.
    pub TimestampNanos: u64,
}

} // verus!
