//! `output.dispose`: dispose of an output channel. Relayed to the renderer as `sky://output/dispose`.

use vstd::prelude::*;

use crate::Host::{HostAction, actions_view};
use crate::Json::Json;
use crate::Server::Notification::Support::RelayToSky;
use crate::Server::Notification::Support::RelayToSky::relay;

verus! {

/// Handles `output.dispose` by emitting the parameter unchanged on `sky://output/dispose`.
pub fn OutputDispose(Parameter: &Json) -> (r: Vec<HostAction>)
    ensures
        actions_view(r@) == relay("sky://output/dispose"@, Parameter@),
{
    RelayToSky::Fn("sky://output/dispose", Parameter)
}

} // verus!
