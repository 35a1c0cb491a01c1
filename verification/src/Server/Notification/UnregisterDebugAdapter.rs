//! `debug_adapter` provider unregistration.

use vstd::prelude::*;

use crate::Host::{HostAction, actions_view};
use crate::Json::Json;
use crate::Server::Notification::Support::UnregisterByHandle::{UnregisterByHandle, unregister_effects};

verus! {

/// Unregisters the `debug_adapter` provider that the parameter's `handle` names.
pub fn UnregisterDebugAdapter(Parameter: &Json) -> (r: Vec<HostAction>)
    ensures
        actions_view(r@) == unregister_effects(Parameter@),
{
    UnregisterByHandle(Parameter, "debug_adapter")
}

} // verus!
