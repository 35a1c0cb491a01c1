//! `progress.end`: a `withProgress` task settled.

use vstd::prelude::*;

use crate::Host::{Emit, HostAction, HostActionV, One, actions_view, emit_v};
use crate::Json::{FieldText, Json, JsonV, Object1, Text, text_field};

verus! {

/// `{ id: handle }` on `sky://notification/progress-end`.
pub open spec fn progress_end_effects(p: JsonV) -> Seq<HostActionV> {
    seq![
        emit_v(
            "sky://notification/progress-end"@,
            JsonV::Object(seq![("id"@, JsonV::Str(text_field(p, "handle"@)))]),
        ),
    ]
}

/// Handles `progress.end`.
pub fn ProgressEnd(Parameter: &Json) -> (r: Vec<HostAction>)
    ensures
        actions_view(r@) == progress_end_effects(Parameter@),
{
    One(Emit("sky://notification/progress-end", Object1("id", Text(FieldText(Parameter, "handle")))))
}

} // verus!
