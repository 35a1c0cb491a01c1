//! `unregisterCommand`: an extension disposed of a command. It leaves the
//! dispatch registry, and the renderer's command view is told.

use vstd::prelude::*;
use vstd::string::*;

use crate::Host::{Emit, HostAction, HostActionV, NoActions, Two, actions_view, emit_v};
use crate::Json::{FieldText, Json, JsonV, Object2, Text, text_field};

verus! {

/// Nothing when `commandId` is empty; else its unregistration, then
/// `{ id, commandId }` on `sky://command/unregister`.
pub open spec fn unregister_command_effects(p: JsonV) -> Seq<HostActionV> {
    let id = text_field(p, "commandId"@);
    if id.len() == 0 {
        Seq::empty()
    } else {
        seq![
            HostActionV::UnregisterCommandInRegistry { command_id: id },
            emit_v(
                "sky://command/unregister"@,
                JsonV::Object(seq![("id"@, JsonV::Str(id)), ("commandId"@, JsonV::Str(id))]),
            ),
        ]
    }
}

/// Handles `unregisterCommand`.
pub fn UnregisterCommand(Parameter: &Json) -> (r: Vec<HostAction>)
    ensures
        actions_view(r@) == unregister_command_effects(Parameter@),
{
    let CommandId = FieldText(Parameter, "commandId");
    if CommandId.is_empty() {
        return NoActions();
    }
    Two(
        HostAction::UnregisterCommandInRegistry { CommandId: String::from_str(CommandId) },
        Emit("sky://command/unregister", Object2("id", Text(CommandId), "commandId", Text(CommandId))),
    )
}

} // verus!
