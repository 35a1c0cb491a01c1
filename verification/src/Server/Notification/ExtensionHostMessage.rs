//! `extensionHostMessage`: an extension-host protocol reply, handed to the workbench bridge that completes the pending call. Relayed to the renderer as `cocoon:extensionHostReply`.

use vstd::prelude::*;

use crate::Host::{HostAction, actions_view};
use crate::Json::Json;
use crate::Server::Notification::Support::RelayToSky;
use crate::Server::Notification::Support::RelayToSky::relay;

verus! {

/// Handles `extensionHostMessage` by emitting the parameter unchanged on `cocoon:extensionHostReply`.
pub fn ExtensionHostMessage(Parameter: &Json) -> (r: Vec<HostAction>)
    ensures
        actions_view(r@) == relay("cocoon:extensionHostReply"@, Parameter@),
{
    RelayToSky::Fn("cocoon:extensionHostReply", Parameter)
}

} // verus!
