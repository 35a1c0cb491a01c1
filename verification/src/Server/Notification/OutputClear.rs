//! `output.clear`: clear an output channel. Relayed to the renderer as `sky://output/clear`.

use vstd::prelude::*;

use crate::Host::{HostAction, actions_view};
use crate::Json::Json;
use crate::Server::Notification::Support::RelayToSky;
use crate::Server::Notification::Support::RelayToSky::relay;

verus! {

/// Handles `output.clear` by emitting the parameter unchanged on `sky://output/clear`.
pub fn OutputClear(Parameter: &Json) -> (r: Vec<HostAction>)
    ensures
        actions_view(r@) == relay("sky://output/clear"@, Parameter@),
{
    RelayToSky::Fn("sky://output/clear", Parameter)
}

} // verus!
