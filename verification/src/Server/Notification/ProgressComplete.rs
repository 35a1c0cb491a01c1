//! `progress.complete`: a progress task completed. Relayed to the renderer as `sky://progress/complete`.

use vstd::prelude::*;

use crate::Host::{HostAction, actions_view};
use crate::Json::Json;
use crate::Server::Notification::Support::RelayToSky;
use crate::Server::Notification::Support::RelayToSky::relay;

verus! {

/// Handles `progress.complete` by emitting the parameter unchanged on `sky://progress/complete`.
pub fn ProgressComplete(Parameter: &Json) -> (r: Vec<HostAction>)
    ensures
        actions_view(r@) == relay("sky://progress/complete"@, Parameter@),
{
    RelayToSky::Fn("sky://progress/complete", Parameter)
}

} // verus!
