//! `registerCommand`: an extension registered a command.
//!
//! The command goes into the embedder's dispatch registry at once (so that
//! executing it routes back to the side-car), and its descriptor is queued;
//! the queue is emitted as one `sky://command/register` batch per frame.

use vstd::prelude::*;
use vstd::string::*;

use crate::Host::{Emit, HostAction, HostActionV, NoActions, Two, actions_view, emit_v};
use crate::Json::{FieldText, Json, JsonV, Object1, Object3, StrOr, Text, items_view, or_default, str_of, text_field};

verus! {

/// Nothing when `commandId` is empty; else the registration of the command for
/// `cocoon-main`, then its descriptor `{ id, commandId, kind }` queued (the kind
/// defaults to `command`).
pub open spec fn register_command_effects(p: JsonV) -> Seq<HostActionV> {
    let id = text_field(p, "commandId"@);
    let kind = or_default(str_of(p.field("kind"@)), "command"@);
    if id.len() == 0 {
        Seq::empty()
    } else {
        seq![
            HostActionV::RegisterCommandInRegistry { command_id: id, side_car: "cocoon-main"@ },
            HostActionV::QueueCommand {
                descriptor: JsonV::Object(
                    seq![("id"@, JsonV::Str(id)), ("commandId"@, JsonV::Str(id)), ("kind"@, JsonV::Str(kind))],
                ),
            },
        ]
    }
}

/// Handles `registerCommand`.
pub fn RegisterCommand(Parameter: &Json) -> (r: Vec<HostAction>)
    ensures
        actions_view(r@) == register_command_effects(Parameter@),
{
    let CommandId = FieldText(Parameter, "commandId");
    if CommandId.is_empty() {
        return NoActions();
    }
    let Kind = StrOr(Parameter.get("kind"), "command");
    Two(
        HostAction::RegisterCommandInRegistry {
            CommandId: String::from_str(CommandId),
            SideCar: String::from_str("cocoon-main"),
        },
        HostAction::QueueCommand {
            Descriptor: Object3("id", Text(CommandId), "commandId", Text(CommandId), "kind", Text(Kind)),
        },
    )
}

/// The renderer event for one frame's queued command descriptors, in queue order.
pub fn CommandBatch(Commands: Vec<Json>) -> (r: HostAction)
    ensures
        r@ == emit_v(
            "sky://command/register"@,
            JsonV::Object(seq![("commands"@, JsonV::Array(items_view(Commands@)))]),
        ),
{
    Emit("sky://command/register", Object1("commands", Json::Array(Commands)))
}

} // verus!
