//! `output.show`: show an output channel. Relayed to the renderer as `sky://output/show`.

use vstd::prelude::*;

use crate::Host::{HostAction, actions_view};
use crate::Json::Json;
use crate::Server::Notification::Support::RelayToSky;
use crate::Server::Notification::Support::RelayToSky::relay;

verus! {

/// Handles `output.show` by emitting the parameter unchanged on `sky://output/show`.
pub fn OutputShow(Parameter: &Json) -> (r: Vec<HostAction>)
    ensures
        actions_view(r@) == relay("sky://output/show"@, Parameter@),
{
    RelayToSky::Fn("sky://output/show", Parameter)
}

} // verus!
