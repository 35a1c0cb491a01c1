//! `outputChannel.replace`: replace a channel's whole buffer in one frame. Relayed to the renderer as `sky://output/replace`.

use vstd::prelude::*;

use crate::Host::{HostAction, actions_view};
use crate::Json::Json;
use crate::Server::Notification::Support::RelayToSky;
use crate::Server::Notification::Support::RelayToSky::relay;

verus! {

/// Handles `outputChannel.replace` by emitting the parameter unchanged on `sky://output/replace`.
pub fn OutputChannelReplace(Parameter: &Json) -> (r: Vec<HostAction>)
    ensures
        actions_view(r@) == relay("sky://output/replace"@, Parameter@),
{
    RelayToSky::Fn("sky://output/replace", Parameter)
}

} // verus!
