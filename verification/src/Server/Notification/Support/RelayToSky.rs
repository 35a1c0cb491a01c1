//! Handlers that only relay their parameter to a renderer event.

use vstd::prelude::*;

use crate::Host::{Emit, HostAction, HostActionV, One, actions_view, emit_v};
use crate::Json::Json;

verus! {

/// The effects of relaying `p` to the renderer event `event`.
pub open spec fn relay(event: Seq<char>, p: crate::Json::JsonV) -> Seq<HostActionV> {
    seq![emit_v(event, p)]
}

/// Emits `Parameter` unchanged on the renderer event `SkyEvent`.
pub fn Fn(SkyEvent: &str, Parameter: &Json) -> (r: Vec<HostAction>)
    ensures
        actions_view(r@) == relay(SkyEvent@, Parameter@),
{
    One(Emit(SkyEvent, Parameter.deep_copy()))
}

} // verus!
