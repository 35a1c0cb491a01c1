//! `window.applyTextEdits`: an extension edited a document through its editor;
//! the renderer applies the collected edits.

use vstd::prelude::*;

use crate::Host::{Emit, HostAction, HostActionV, NoActions, One, actions_view, emit_v};
use crate::Json::{FieldText, Json, JsonV, lemma_items_view, text_field};

verus! {

/// The number of edits a parameter carries: the length of its `edits` array, or 0.
pub open spec fn edit_count(p: JsonV) -> nat {
    match p.field("edits"@) {
        Some(v) => match v.as_array() {
            Some(a) => a.len(),
            None => 0,
        },
        None => 0,
    }
}

/// Nothing when the `uri` is empty or there are no edits; else the parameter
/// relayed on `sky://editor/apply-text-edits`.
pub open spec fn apply_text_edits_effects(p: JsonV) -> Seq<HostActionV> {
    if text_field(p, "uri"@).len() == 0 || edit_count(p) == 0 {
        Seq::empty()
    } else {
        seq![emit_v("sky://editor/apply-text-edits"@, p)]
    }
}

/// Handles `window.applyTextEdits`.
pub fn ApplyTextEdits(Parameter: &Json) -> (r: Vec<HostAction>)
    ensures
        actions_view(r@) == apply_text_edits_effects(Parameter@),
{
    let Uri = FieldText(Parameter, "uri");
    let EditCount: usize = match Parameter.get("edits") {
        Some(v) => match v.as_array() {
            Some(a) => {
                proof {
                    lemma_items_view(a@);
                }
                a.len()
            },
            None => 0,
        },
        None => 0,
    };
    if Uri.is_empty() || EditCount == 0 {
        return NoActions();
    }
    One(Emit("sky://editor/apply-text-edits", Parameter.deep_copy()))
}

} // verus!
