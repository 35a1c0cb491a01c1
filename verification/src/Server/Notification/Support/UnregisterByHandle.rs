//! Provider unregistration shared by every `unregister_*` notification.

use vstd::prelude::*;

use crate::Host::{HostAction, HostActionV, NoActions, One, actions_view};
use crate::Json::{GetEither, Json, JsonV, U64Of, opt_view, or_default, u64_of};

verus! {

/// The provider handle a parameter names: its `handle` member as an unsigned
/// integer cut to 32 bits, or 0.
pub open spec fn provider_handle(p: JsonV) -> u32 {
    or_default(u64_of(p.field("handle"@)), 0u64) as u32
}

/// The effects of unregistering the provider that `p` names: nothing when the
/// handle is 0 (absent), else one unregistration.
pub open spec fn unregister_effects(p: JsonV) -> Seq<HostActionV> {
    if provider_handle(p) == 0 {
        Seq::empty()
    } else {
        seq![HostActionV::UnregisterProvider { handle: provider_handle(p) }]
    }
}

/// Reads the `handle` of `Parameter` and unregisters that provider; a missing
/// or zero handle is skipped. `TypeName` names the provider kind.
pub fn UnregisterByHandle(Parameter: &Json, TypeName: &str) -> (r: Vec<HostAction>)
    ensures
        actions_view(r@) == unregister_effects(Parameter@),
{
    let Handle = match U64Of(Parameter.get("handle")) {
        Some(h) => h as u32,
        None => 0u32,
    };
    if Handle == 0 {
        return NoActions();
    }
    One(HostAction::UnregisterProvider { Handle })
}

} // verus!
