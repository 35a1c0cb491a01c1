//! `debug_configuration` provider unregistration.

use vstd::prelude::*;

use crate::Host::{HostAction, actions_view};
use crate::Json::Json;
use crate::Server::Notification::Support::UnregisterByHandle::{UnregisterByHandle, unregister_effects};

verus! {

/// Unregisters the `debug_configuration` provider that the parameter's `handle` names.
pub fn UnregisterDebugConfigurationProvider(Parameter: &Json) -> (r: Vec<HostAction>)
    ensures
        actions_view(r@) == unregister_effects(Parameter@),
{
    UnregisterByHandle(Parameter, "debug_configuration")
}

} // verus!
