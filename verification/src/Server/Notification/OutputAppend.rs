//! `output.append`: append text to an output channel. Relayed to the renderer as `sky://output/append`.

use vstd::prelude::*;

use crate::Host::{HostAction, actions_view};
use crate::Json::Json;
use crate::Server::Notification::Support::RelayToSky;
use crate::Server::Notification::Support::RelayToSky::relay;

verus! {

/// Handles `output.append` by emitting the parameter unchanged on `sky://output/append`.
pub fn OutputAppend(Parameter: &Json) -> (r: Vec<HostAction>)
    ensures
        actions_view(r@) == relay("sky://output/append"@, Parameter@),
{
    RelayToSky::Fn("sky://output/append", Parameter)
}

} // verus!
