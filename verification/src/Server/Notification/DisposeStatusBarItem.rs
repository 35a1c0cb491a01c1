//! `disposeStatusBarItem`: the renderer removes the status-bar entry.

use vstd::prelude::*;

use crate::Host::{Emit, HostAction, HostActionV, NoActions, One, actions_view, emit_v};
use crate::Json::{FieldText, Json, JsonV, Object1, Text, text_field};

verus! {

/// Nothing when the `id` is empty; else `{ id }` on `sky://statusbar/dispose-entry`.
pub open spec fn dispose_status_bar_item_effects(p: JsonV) -> Seq<HostActionV> {
    let id = text_field(p, "id"@);
    if id.len() == 0 {
        Seq::empty()
    } else {
        seq![emit_v("sky://statusbar/dispose-entry"@, JsonV::Object(seq![("id"@, JsonV::Str(id))]))]
    }
}

/// Handles `disposeStatusBarItem`.
pub fn DisposeStatusBarItem(Parameter: &Json) -> (r: Vec<HostAction>)
    ensures
        actions_view(r@) == dispose_status_bar_item_effects(Parameter@),
{
    let Id = FieldText(Parameter, "id");
    if Id.is_empty() {
        return NoActions();
    }
    One(Emit("sky://statusbar/dispose-entry", Object1("id", Text(Id))))
}

} // verus!
