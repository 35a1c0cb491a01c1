//! The seam between the notification handlers and the embedder that hosts them.
//!
//! A handler reads the notification's parameter and answers with the list of
//! effects the embedder performs, in order: renderer events, registry updates,
//! terminal and IPC calls. The embedder runs them against its own runtime.

use vstd::prelude::*;
use vstd::string::*;

use crate::Json::{Json, JsonV, json_view};

verus! {

/// Opaque application-state handle exposed to handlers. Embedders say who
/// they are; everything else they expose through their own traits.
pub trait ApplicationStateAccess {
    /// The embedder's name (for example "Mountain" or "Air").
    fn EmbedderName(&self) -> &'static str;
}

/// One effect that a notification handler asks the embedder to perform.
pub enum HostAction {
    /// Emit `Payload` on the renderer channel `Channel`.
    EmitToRenderer { Channel: String, Payload: Json },
    /// Drop the language-feature provider registered under `Handle`.
    UnregisterProvider { Handle: u32 },
    /// Record a source-control provider in the provider table.
    RegisterScmInRegistry { Handle: u32, ScmId: String, Label: String, ExtensionId: String },
    /// Create the source-control state for a provider.
    CreateSourceControl { Data: Json },
    /// Create or update a resource group of the provider `Handle`.
    UpdateSourceControlGroup { Handle: u32, Data: Json },
    /// Route the command `CommandId` to the side-car `SideCar`.
    RegisterCommandInRegistry { CommandId: String, SideCar: String },
    /// Stop routing the command `CommandId`.
    UnregisterCommandInRegistry { CommandId: String },
    /// Send the notification `Method` with `Payload` over the IPC bus to `Target`.
    SendNotification { Target: String, Method: String, Payload: Json },
    /// Write `Text` to the terminal `TerminalId`.
    SpawnSendTextToTerminal { TerminalId: u64, Text: String },
    /// Close the terminal `TerminalId`.
    SpawnDisposeTerminal { TerminalId: u64 },
    /// Register a language-feature provider of kind `TypeName`.
    RegisterLanguageProvider { Handle: u32, TypeName: String, Parameter: Json },
    /// Open `Uri` with the platform's default handler.
    OpenExternal { Uri: String },
    /// Queue a command descriptor for the next batched `sky://command/register`.
    QueueCommand { Descriptor: Json },
    /// Queue a decoration payload for the next batched `sky://decoration/set-ranges`.
    QueueDecoration { Parameter: Json },
    /// Queue a progress report for the next merged `sky://notification/progress-update`.
    QueueProgress { ProgressHandle: String, Message: String },
}

/// The mathematical value of a [`HostAction`].
pub enum HostActionV {
    EmitToRenderer { channel: Seq<char>, payload: JsonV },
    UnregisterProvider { handle: u32 },
    RegisterScmInRegistry { handle: u32, scm_id: Seq<char>, label: Seq<char>, extension_id: Seq<char> },
    CreateSourceControl { data: JsonV },
    UpdateSourceControlGroup { handle: u32, data: JsonV },
    RegisterCommandInRegistry { command_id: Seq<char>, side_car: Seq<char> },
    UnregisterCommandInRegistry { command_id: Seq<char> },
    SendNotification { target: Seq<char>, method: Seq<char>, payload: JsonV },
    SpawnSendTextToTerminal { terminal_id: u64, text: Seq<char> },
    SpawnDisposeTerminal { terminal_id: u64 },
    RegisterLanguageProvider { handle: u32, kind_name: Seq<char>, parameter: JsonV },
    OpenExternal { uri: Seq<char> },
    QueueCommand { descriptor: JsonV },
    QueueDecoration { parameter: JsonV },
    QueueProgress { progress_handle: Seq<char>, message: Seq<char> },
}

impl View for HostAction {
    type V = HostActionV;

    open spec fn view(&self) -> HostActionV {
        match self {
            HostAction::EmitToRenderer { Channel, Payload } => HostActionV::EmitToRenderer {
                channel: Channel@,
                payload: json_view(*Payload),
            },
            HostAction::UnregisterProvider { Handle } => HostActionV::UnregisterProvider {
                handle: *Handle,
            },
            HostAction::RegisterScmInRegistry { Handle, ScmId, Label, ExtensionId } =>
                HostActionV::RegisterScmInRegistry {
                handle: *Handle,
                scm_id: ScmId@,
                label: Label@,
                extension_id: ExtensionId@,
            },
            HostAction::CreateSourceControl { Data } => HostActionV::CreateSourceControl {
                data: json_view(*Data),
            },
            HostAction::UpdateSourceControlGroup { Handle, Data } =>
                HostActionV::UpdateSourceControlGroup { handle: *Handle, data: json_view(*Data) },
            HostAction::RegisterCommandInRegistry { CommandId, SideCar } =>
                HostActionV::RegisterCommandInRegistry { command_id: CommandId@, side_car: SideCar@ },
            HostAction::UnregisterCommandInRegistry { CommandId } =>
                HostActionV::UnregisterCommandInRegistry { command_id: CommandId@ },
            HostAction::SendNotification { Target, Method, Payload } =>
                HostActionV::SendNotification {
                target: Target@,
                method: Method@,
                payload: json_view(*Payload),
            },
            HostAction::SpawnSendTextToTerminal { TerminalId, Text } =>
                HostActionV::SpawnSendTextToTerminal { terminal_id: *TerminalId, text: Text@ },
            HostAction::SpawnDisposeTerminal { TerminalId } => HostActionV::SpawnDisposeTerminal {
                terminal_id: *TerminalId,
            },
            HostAction::RegisterLanguageProvider { Handle, TypeName, Parameter } =>
                HostActionV::RegisterLanguageProvider {
                handle: *Handle,
                kind_name: TypeName@,
                parameter: json_view(*Parameter),
            },
            HostAction::OpenExternal { Uri } => HostActionV::OpenExternal { uri: Uri@ },
            HostAction::QueueCommand { Descriptor } => HostActionV::QueueCommand {
                descriptor: json_view(*Descriptor),
            },
            HostAction::QueueDecoration { Parameter } => HostActionV::QueueDecoration {
                parameter: json_view(*Parameter),
            },
            HostAction::QueueProgress { ProgressHandle, Message } => HostActionV::QueueProgress {
                progress_handle: ProgressHandle@,
                message: Message@,
            },
        }
    }
}

/// The values of a list of effects, in order.
pub open spec fn actions_view(s: Seq<HostAction>) -> Seq<HostActionV> {
    s.map_values(|a: HostAction| a@)
}

/// The single effect "emit `payload` on `channel`".
pub open spec fn emit_v(channel: Seq<char>, payload: JsonV) -> HostActionV {
    HostActionV::EmitToRenderer { channel, payload }
}

/// Builds the effect "emit `Payload` on `Channel`".
pub fn Emit(Channel: &str, Payload: Json) -> (r: HostAction)
    ensures
        r@ == emit_v(Channel@, Payload@),
{
    HostAction::EmitToRenderer { Channel: String::from_str(Channel), Payload }
}

/// An empty list of effects.
pub fn NoActions() -> (r: Vec<HostAction>)
    ensures
        actions_view(r@) == Seq::<HostActionV>::empty(),
{
    let r: Vec<HostAction> = Vec::new();
    assert(actions_view(r@) =~= Seq::<HostActionV>::empty());
    r
}

/// The list holding exactly `a`.
pub fn One(a: HostAction) -> (r: Vec<HostAction>)
    ensures
        actions_view(r@) == seq![a@],
{
    let r = vec![a];
    assert(actions_view(r@) =~= seq![a@]);
    r
}

/// The list holding `a` then `b`.
pub fn Two(a: HostAction, b: HostAction) -> (r: Vec<HostAction>)
    ensures
        actions_view(r@) == seq![a@, b@],
{
    let r = vec![a, b];
    assert(actions_view(r@) =~= seq![a@, b@]);
    r
}

/// The list holding `a`, `b`, then `c`.
pub fn Three(a: HostAction, b: HostAction, c: HostAction) -> (r: Vec<HostAction>)
    ensures
        actions_view(r@) == seq![a@, b@, c@],
{
    let r = vec![a, b, c];
    assert(actions_view(r@) =~= seq![a@, b@, c@]);
    r
}

} // verus!
