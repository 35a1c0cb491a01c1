//! `terminal.sendText` / `terminal.show` / `terminal.hide` / `terminal.dispose`.
//!
//! Every call is relayed on `sky://terminal/<suffix>` for the terminal panel;
//! `sendText` and `dispose` also drive the terminal process itself. The
//! side-car names terminals `terminal:N`; the number is what the process
//! layer expects.

use vstd::prelude::*;
use vstd::string::*;

use crate::Host::{Emit, HostAction, HostActionV, One, Two, actions_view, emit_v};
use crate::Json::{FieldText, Json, JsonV, str_of, text_field};
use crate::Strings::{
    ParseU64, StrEq, TailAfterBytes, TrimStartMatches, parse_u64, tail_after_bytes,
    trim_start_matches,
};

verus! {

/// The terminal number a parameter names: its `handle` text with every leading
/// `terminal:` removed, read as an unsigned integer.
pub open spec fn terminal_id_of(p: JsonV) -> Option<u64> {
    match str_of(p.field("handle"@)) {
        Some(h) => parse_u64(trim_start_matches(h, "terminal:"@)),
        None => None,
    }
}

/// The effects of the terminal notification `method` (at least 9 bytes long).
pub open spec fn terminal_lifecycle_effects(method: &str, p: JsonV) -> Seq<HostActionV> {
    let relay = emit_v("sky://terminal/"@ + tail_after_bytes(method, 9), p);
    match terminal_id_of(p) {
        Some(id) => if method@ == "terminal.sendText"@ {
            seq![relay, HostActionV::SpawnSendTextToTerminal { terminal_id: id, text: text_field(p, "text"@) }]
        } else if method@ == "terminal.dispose"@ {
            seq![relay, HostActionV::SpawnDisposeTerminal { terminal_id: id }]
        } else {
            seq![relay]
        },
        None => seq![relay],
    }
}

/// Only `terminal.dispose` closes a terminal process and only
/// `terminal.sendText` writes to one; every other method (`terminal.show`,
/// `terminal.hide`, ...) is only relayed to the panel. `terminal.dispose` of
/// a parameter naming terminal `N` closes exactly terminal `N`.
pub proof fn lemma_only_dispose_closes_a_terminal(method: &str, p: JsonV)
    ensures
        terminal_lifecycle_effects(method, p).len() >= 1,
        terminal_lifecycle_effects(method, p)[0] matches HostActionV::EmitToRenderer { payload, .. } && payload
            == p,
        method@ != "terminal.dispose"@ ==> forall|i: int|
            0 <= i < terminal_lifecycle_effects(method, p).len() ==> !(
            #[trigger] terminal_lifecycle_effects(method, p)[i] is SpawnDisposeTerminal),
        method@ != "terminal.sendText"@ ==> forall|i: int|
            0 <= i < terminal_lifecycle_effects(method, p).len() ==> !(
            #[trigger] terminal_lifecycle_effects(method, p)[i] is SpawnSendTextToTerminal),
        method@ != "terminal.dispose"@ && method@ != "terminal.sendText"@ ==> terminal_lifecycle_effects(
            method,
            p,
        ).len() == 1,
        method@ == "terminal.dispose"@ ==> match terminal_id_of(p) {
            Some(n) => terminal_lifecycle_effects(method, p).len() == 2 && terminal_lifecycle_effects(method, p)[1]
                == HostActionV::SpawnDisposeTerminal { terminal_id: n },
            None => terminal_lifecycle_effects(method, p).len() == 1,
        },
{
    reveal_strlit("terminal.dispose");
    reveal_strlit("terminal.sendText");
    assert("terminal.dispose"@.len() != "terminal.sendText"@.len());
}

/// The terminal number `Parameter` names (see [`terminal_id_of`]).
pub fn TerminalIdOf(Parameter: &Json) -> (r: Option<u64>)
    ensures
        r == terminal_id_of(Parameter@),
{
    match Parameter.get("handle") {
        Some(v) => match v.as_str() {
            Some(h) => {
                proof {
                    reveal_strlit("terminal:");
                }
                ParseU64(TrimStartMatches(h, "terminal:"))
            },
            None => None,
        },
        None => None,
    }
}

/// Handles a `terminal.*` notification. The method name's first nine bytes
/// (`terminal.`) are cut off to name the renderer event.
pub fn TerminalLifecycle(MethodName: &str, Parameter: &Json) -> (r: Vec<HostAction>)
    requires
        9 <= MethodName.spec_bytes().len(),
        vstd::utf8::is_char_boundary(MethodName.spec_bytes(), 9),
    ensures
        actions_view(r@) == terminal_lifecycle_effects(MethodName, Parameter@),
{
    let mut EventName = String::from_str("sky://terminal/");
    EventName.append(TailAfterBytes(MethodName, 9));
    let Relay = Emit(EventName.as_str(), Parameter.deep_copy());
    match TerminalIdOf(Parameter) {
        Some(TerminalId) => {
            if StrEq(MethodName, "terminal.sendText") {
                let Text_ = String::from_str(FieldText(Parameter, "text"));
                Two(Relay, HostAction::SpawnSendTextToTerminal { TerminalId, Text: Text_ })
            } else if StrEq(MethodName, "terminal.dispose") {
                Two(Relay, HostAction::SpawnDisposeTerminal { TerminalId })
            } else {
                One(Relay)
            }
        },
        None => One(Relay),
    }
}

} // verus!
