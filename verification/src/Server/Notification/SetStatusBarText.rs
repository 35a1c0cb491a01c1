//! `setStatusBarText`: the text-only fast path of `setStatusBarMessage`.

use vstd::prelude::*;

use crate::Host::{Emit, HostAction, HostActionV, One, actions_view, emit_v};
use crate::Json::{FieldText, Json, JsonV, Object3, Text, text_field};

verus! {

/// `{ id, text, tooltip }` on `sky://statusbar/set-entry`.
pub open spec fn set_status_bar_text_effects(p: JsonV) -> Seq<HostActionV> {
    seq![
        emit_v(
            "sky://statusbar/set-entry"@,
            JsonV::Object(
                seq![
                    ("id"@, JsonV::Str(text_field(p, "id"@))),
                    ("text"@, JsonV::Str(text_field(p, "text"@))),
                    ("tooltip"@, JsonV::Str(text_field(p, "tooltip"@))),
                ],
            ),
        ),
    ]
}

/// Handles `setStatusBarText`.
pub fn SetStatusBarText(Parameter: &Json) -> (r: Vec<HostAction>)
    ensures
        actions_view(r@) == set_status_bar_text_effects(Parameter@),
{
    let Id = FieldText(Parameter, "id");
    let Text_ = FieldText(Parameter, "text");
    let Tooltip = FieldText(Parameter, "tooltip");
    One(
        Emit(
            "sky://statusbar/set-entry",
            Object3("id", Text(Id), "text", Text(Text_), "tooltip", Text(Tooltip)),
        ),
    )
}

} // verus!
