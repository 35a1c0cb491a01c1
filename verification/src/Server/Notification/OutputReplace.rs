//! `output.replace`: swap a channel's whole contents, as a clear then an append.

use vstd::prelude::*;

use crate::Host::{Emit, HostAction, HostActionV, Two, actions_view, emit_v};
use crate::Json::{FieldText, Json, JsonV, Object1, Object2, Text, text_field};

verus! {

/// `{ channel }` on `sky://output/clear`, then `{ channel, text }` on `sky://output/append`.
pub open spec fn output_replace_effects(p: JsonV) -> Seq<HostActionV> {
    let channel = JsonV::Str(text_field(p, "channel"@));
    seq![
        emit_v("sky://output/clear"@, JsonV::Object(seq![("channel"@, channel)])),
        emit_v(
            "sky://output/append"@,
            JsonV::Object(seq![("channel"@, channel), ("text"@, JsonV::Str(text_field(p, "text"@)))]),
        ),
    ]
}

/// Handles `output.replace`.
pub fn OutputReplace(Parameter: &Json) -> (r: Vec<HostAction>)
    ensures
        actions_view(r@) == output_replace_effects(Parameter@),
{
    let Channel = FieldText(Parameter, "channel");
    let Text_ = FieldText(Parameter, "text");
    Two(
        Emit("sky://output/clear", Object1("channel", Text(Channel))),
        Emit("sky://output/append", Object2("channel", Text(Channel), "text", Text(Text_))),
    )
}

} // verus!
