//! `ExtensionActivated`: an extension's `activate` export resolved; the Extensions view updates its row without polling. Relayed to the renderer as `cocoon:extensionActivated`.

use vstd::prelude::*;

use crate::Host::{HostAction, actions_view};
use crate::Json::Json;
use crate::Server::Notification::Support::RelayToSky;
use crate::Server::Notification::Support::RelayToSky::relay;

verus! {

/// Handles `ExtensionActivated` by emitting the parameter unchanged on `cocoon:extensionActivated`.
pub fn ExtensionActivated(Parameter: &Json) -> (r: Vec<HostAction>)
    ensures
        actions_view(r@) == relay("cocoon:extensionActivated"@, Parameter@),
{
    RelayToSky::Fn("cocoon:extensionActivated", Parameter)
}

} // verus!
