//! `statusBar.message`: one-shot status-bar text with an optional auto-hide.

use vstd::prelude::*;

use crate::Host::{Emit, HostAction, HostActionV, One, actions_view, emit_v};
use crate::Json::{FieldText, Json, JsonV, NumberV, Object2, Text, U64Of, text_field, u64_of};

verus! {

/// `{ text, hideAfter }` on `sky://statusbar/set-message`; `hideAfter` is null
/// unless the parameter carries it as an unsigned integer.
pub open spec fn status_bar_message_effects(p: JsonV) -> Seq<HostActionV> {
    let hide = match u64_of(p.field("hideAfter"@)) {
        Some(h) => JsonV::Number(NumberV::PosInt(h)),
        None => JsonV::Null,
    };
    seq![
        emit_v(
            "sky://statusbar/set-message"@,
            JsonV::Object(seq![("text"@, JsonV::Str(text_field(p, "text"@))), ("hideAfter"@, hide)]),
        ),
    ]
}

/// Handles `statusBar.message`.
pub fn StatusBarMessage(Parameter: &Json) -> (r: Vec<HostAction>)
    ensures
        actions_view(r@) == status_bar_message_effects(Parameter@),
{
    let Text_ = FieldText(Parameter, "text");
    let HideAfter = match U64Of(Parameter.get("hideAfter")) {
        Some(h) => Json::Number(crate::Json::JsonNumber::PosInt(h)),
        None => Json::Null,
    };
    One(Emit("sky://statusbar/set-message", Object2("text", Text(Text_), "hideAfter", HideAfter)))
}

} // verus!
