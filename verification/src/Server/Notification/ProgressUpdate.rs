//! `progress.update`: one progress tick. Relayed to the renderer as `sky://notification/progress-update`.

use vstd::prelude::*;

use crate::Host::{HostAction, actions_view};
use crate::Json::Json;
use crate::Server::Notification::Support::RelayToSky;
use crate::Server::Notification::Support::RelayToSky::relay;

verus! {

/// Handles `progress.update` by emitting the parameter unchanged on `sky://notification/progress-update`.
pub fn ProgressUpdate(Parameter: &Json) -> (r: Vec<HostAction>)
    ensures
        actions_view(r@) == relay("sky://notification/progress-update"@, Parameter@),
{
    RelayToSky::Fn("sky://notification/progress-update", Parameter)
}

} // verus!
