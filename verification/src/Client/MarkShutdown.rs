//! Marks the client shutting down. Embedders call this just before they stop
//! the side-car, so that calls attempted afterwards return at once instead of
//! failing against a dead connection.

use vstd::prelude::*;

use crate::Client::Shared::{ClientState, ClientStateV, ShutdownFlagStore};

verus! {

/// Sets the shutdown flag; nothing else changes.
pub fn Fn<C>(State: &mut ClientState<C>)
    ensures
        final(State)@ == (ClientStateV { shutdown: true, ..old(State)@ }),
{
    ShutdownFlagStore(State, true);
}

} // verus!
