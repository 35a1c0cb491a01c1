//! `tree.refresh`: a tree data provider's contents changed. Relayed to the renderer as `sky://tree-view/refresh`.

use vstd::prelude::*;

use crate::Host::{HostAction, actions_view};
use crate::Json::Json;
use crate::Server::Notification::Support::RelayToSky;
use crate::Server::Notification::Support::RelayToSky::relay;

verus! {

/// Handles `tree.refresh` by emitting the parameter unchanged on `sky://tree-view/refresh`.
pub fn TreeRefresh(Parameter: &Json) -> (r: Vec<HostAction>)
    ensures
        actions_view(r@) == relay("sky://tree-view/refresh"@, Parameter@),
{
    RelayToSky::Fn("sky://tree-view/refresh", Parameter)
}

} // verus!
