//! `output.appendLine`: append a line to an output channel. The newline is
//! added here so the renderer keeps a single append path.

use vstd::prelude::*;
use vstd::string::*;

use crate::Host::{Emit, HostAction, HostActionV, One, actions_view, emit_v};
use crate::Json::{FieldText, Json, JsonV, Object2, Text, text_field};

verus! {

/// `{ channel, text: text + "\n" }` on `sky://output/append`.
pub open spec fn output_append_line_effects(p: JsonV) -> Seq<HostActionV> {
    seq![
        emit_v(
            "sky://output/append"@,
            JsonV::Object(
                seq![
                    ("channel"@, JsonV::Str(text_field(p, "channel"@))),
                    ("text"@, JsonV::Str(text_field(p, "text"@) + "\n"@)),
                ],
            ),
        ),
    ]
}

/// Handles `output.appendLine`.
pub fn OutputAppendLine(Parameter: &Json) -> (r: Vec<HostAction>)
    ensures
        actions_view(r@) == output_append_line_effects(Parameter@),
{
    let Channel = FieldText(Parameter, "channel");
    let mut Line = String::from_str(FieldText(Parameter, "text"));
    Line.append("\n");
    One(Emit("sky://output/append", Object2("channel", Text(Channel), "text", Json::String(Line))))
}

} // verus!
