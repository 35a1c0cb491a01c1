//! `ExtensionDeactivated`: nothing to relay; the positive half goes through
//! `ExtensionActivated`, and extensions rarely deactivate outside uninstall.

use vstd::prelude::*;

use crate::Host::{HostAction, HostActionV, NoActions, actions_view};
use crate::Json::Json;

verus! {

/// Handles `ExtensionDeactivated`: no effect.
pub fn ExtensionDeactivated(Parameter: &Json) -> (r: Vec<HostAction>)
    ensures
        actions_view(r@) == Seq::<HostActionV>::empty(),
{
    NoActions()
}

} // verus!
