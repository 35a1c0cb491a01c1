//! `debug.addBreakpoints` / `debug.removeBreakpoints` / `debug.consoleAppend`.
//!
//! Relayed on `sky://debug/<suffix>`. Breakpoint changes are also sent back to
//! the extension host as `$onDidChangeBreakpoints`, so that other extensions
//! observe them too.

use vstd::prelude::*;
use vstd::string::*;

use crate::Host::{Emit, HostAction, HostActionV, One, Two, actions_view, emit_v};
use crate::Json::{Json, JsonV, Object3, items_view};
use crate::Strings::{StrEq, TailAfterBytes, tail_after_bytes};

verus! {

/// The breakpoints a parameter carries: its `breakpoints` array, or none.
pub open spec fn breakpoints_of(p: JsonV) -> Seq<JsonV> {
    match p.field("breakpoints"@) {
        Some(v) => match v.as_array() {
            Some(a) => a,
            None => Seq::empty(),
        },
        None => Seq::empty(),
    }
}

/// The effects of the debug notification `method` (at least 6 bytes long).
pub open spec fn debug_lifecycle_effects(method: &str, p: JsonV) -> Seq<HostActionV> {
    let relay = emit_v("sky://debug/"@ + tail_after_bytes(method, 6), p);
    let adds = method@ == "debug.addBreakpoints"@;
    let removes = method@ == "debug.removeBreakpoints"@;
    if adds || removes {
        seq![
            relay,
            HostActionV::SendNotification {
                target: "cocoon-main"@,
                method: "$onDidChangeBreakpoints"@,
                payload: JsonV::Object(
                    seq![
                        ("added"@, JsonV::Array(if adds { breakpoints_of(p) } else { Seq::empty() })),
                        ("removed"@, JsonV::Array(if removes { breakpoints_of(p) } else { Seq::empty() })),
                        ("changed"@, JsonV::Array(Seq::empty())),
                    ],
                ),
            },
        ]
    } else {
        seq![relay]
    }
}

/// `[]` as a JSON value.
fn EmptyArray() -> (r: Json)
    ensures
        r@ == JsonV::Array(Seq::empty()),
{
    let v: Vec<Json> = Vec::new();
    assert(items_view(v@) =~= Seq::<JsonV>::empty());
    Json::Array(v)
}

/// A copy of the `breakpoints` array of `p`, or `[]`.
fn BreakpointsOf(p: &Json) -> (r: Json)
    ensures
        r@ == JsonV::Array(breakpoints_of(p@)),
{
    match p.get("breakpoints") {
        Some(v) => match v.as_array() {
            Some(_) => v.deep_copy(),
            None => EmptyArray(),
        },
        None => EmptyArray(),
    }
}

/// Handles a `debug.*` notification. The method name's first six bytes
/// (`debug.`) are cut off to name the renderer event.
pub fn DebugLifecycle(MethodName: &str, Parameter: &Json) -> (r: Vec<HostAction>)
    requires
        6 <= MethodName.spec_bytes().len(),
        vstd::utf8::is_char_boundary(MethodName.spec_bytes(), 6),
    ensures
        actions_view(r@) == debug_lifecycle_effects(MethodName, Parameter@),
{
    let mut EventName = String::from_str("sky://debug/");
    EventName.append(TailAfterBytes(MethodName, 6));
    let Relay = Emit(EventName.as_str(), Parameter.deep_copy());
    let Adds = StrEq(MethodName, "debug.addBreakpoints");
    let Removes = StrEq(MethodName, "debug.removeBreakpoints");
    if Adds || Removes {
        let Added = if Adds {
            BreakpointsOf(Parameter)
        } else {
            EmptyArray()
        };
        let Removed = if Removes {
            BreakpointsOf(Parameter)
        } else {
            EmptyArray()
        };
        let FanBack = HostAction::SendNotification {
            Target: String::from_str("cocoon-main"),
            Method: String::from_str("$onDidChangeBreakpoints"),
            Payload: Object3("added", Added, "removed", Removed, "changed", EmptyArray()),
        };
        Two(Relay, FanBack)
    } else {
        One(Relay)
    }
}

} // verus!
