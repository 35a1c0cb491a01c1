//! `window.setTextEditorDecorations`: extensions send these at scroll rate;
//! payloads are queued and emitted as one renderer event per frame.

use vstd::prelude::*;

use crate::Host::{Emit, HostAction, HostActionV, One, actions_view, emit_v};
use crate::Json::{Json, JsonV, Object1, items_view};

verus! {

/// Handles `window.setTextEditorDecorations`: the parameter is queued.
pub fn SetTextEditorDecorations(Parameter: &Json) -> (r: Vec<HostAction>)
    ensures
        actions_view(r@) == seq![HostActionV::QueueDecoration { parameter: Parameter@ }],
{
    One(HostAction::QueueDecoration { Parameter: Parameter.deep_copy() })
}

/// The renderer event for one frame's queued decoration payloads, in queue order.
pub fn DecorationBatch(Batch: Vec<Json>) -> (r: HostAction)
    ensures
        r@ == emit_v(
            "sky://decoration/set-ranges"@,
            JsonV::Object(seq![("batch"@, JsonV::Array(items_view(Batch@)))]),
        ),
{
    Emit("sky://decoration/set-ranges", Object1("batch", Json::Array(Batch)))
}

} // verus!
