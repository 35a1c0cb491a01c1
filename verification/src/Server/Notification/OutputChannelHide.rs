//! `outputChannel.hide`: sent to the renderer as `sky://output/show` with
//! `visible: false`, so one handler processes both show and hide.

use vstd::prelude::*;

use crate::Host::{Emit, HostAction, HostActionV, One, actions_view, emit_v};
use crate::Json::{GetFirst3, Json, JsonV, Object2, StrOr, Text, or_default, or_else, str_of};

verus! {

/// The channel named by `channel`, else `name`, else `handle` (the first of
/// them present), when that is text; else empty.
pub open spec fn hidden_channel(p: JsonV) -> Seq<char> {
    or_default(
        str_of(or_else(or_else(p.field("channel"@), p.field("name"@)), p.field("handle"@))),
        Seq::empty(),
    )
}

/// `{ visible: false, channel }` on `sky://output/show`.
pub open spec fn output_channel_hide_effects(p: JsonV) -> Seq<HostActionV> {
    seq![
        emit_v(
            "sky://output/show"@,
            JsonV::Object(seq![("visible"@, JsonV::Bool(false)), ("channel"@, JsonV::Str(hidden_channel(p)))]),
        ),
    ]
}

/// Handles `outputChannel.hide`.
pub fn OutputChannelHide(Parameter: &Json) -> (r: Vec<HostAction>)
    ensures
        actions_view(r@) == output_channel_hide_effects(Parameter@),
{
    proof {
        reveal_strlit("");
    }
    let Channel = StrOr(GetFirst3(Parameter, "channel", "name", "handle"), "");
    assert(Channel@ == hidden_channel(Parameter@));
    One(Emit("sky://output/show", Object2("visible", Json::Bool(false), "channel", Text(Channel))))
}

} // verus!
