//! `security.incident`: the side-car's security policy flagged a breach. Relayed to the renderer as `sky://security/incident`.

use vstd::prelude::*;

use crate::Host::{HostAction, actions_view};
use crate::Json::Json;
use crate::Server::Notification::Support::RelayToSky;
use crate::Server::Notification::Support::RelayToSky::relay;

verus! {

/// Handles `security.incident` by emitting the parameter unchanged on `sky://security/incident`.
pub fn SecurityIncident(Parameter: &Json) -> (r: Vec<HostAction>)
    ensures
        actions_view(r@) == relay("sky://security/incident"@, Parameter@),
{
    RelayToSky::Fn("sky://security/incident", Parameter)
}

} // verus!
