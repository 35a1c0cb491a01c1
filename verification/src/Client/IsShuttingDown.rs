//! Whether the client has been marked shutting down.

use vstd::prelude::*;

use crate::Client::Shared::{ClientState, ShutdownFlagLoad};

verus! {

/// Whether the client has been marked shutting down.
pub fn Fn<C>(State: &ClientState<C>) -> (r: bool)
    ensures
        r == State@.shutdown,
{
    ShutdownFlagLoad(State)
}

} // verus!
