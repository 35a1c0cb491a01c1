//! `output.create`: create an output channel. Relayed to the renderer as `sky://output/create`.

use vstd::prelude::*;

use crate::Host::{HostAction, actions_view};
use crate::Json::Json;
use crate::Server::Notification::Support::RelayToSky;
use crate::Server::Notification::Support::RelayToSky::relay;

verus! {

/// Handles `output.create` by emitting the parameter unchanged on `sky://output/create`.
pub fn OutputCreate(Parameter: &Json) -> (r: Vec<HostAction>)
    ensures
        actions_view(r@) == relay("sky://output/create"@, Parameter@),
{
    RelayToSky::Fn("sky://output/create", Parameter)
}

} // verus!
