//! `statusBar.update` / `statusBar.dispose`: relayed on `sky://statusbar/<suffix>`.

use vstd::prelude::*;
use vstd::string::*;

use crate::Host::{Emit, HostAction, HostActionV, One, actions_view, emit_v};
use crate::Json::{Json, JsonV};
use crate::Strings::{TailAfterBytes, tail_after_bytes};

verus! {

/// The parameter on `sky://statusbar/` followed by the method name after its
/// first ten bytes (`statusBar.`).
pub open spec fn status_bar_lifecycle_effects(method: &str, p: JsonV) -> Seq<HostActionV> {
    seq![emit_v("sky://statusbar/"@ + tail_after_bytes(method, 10), p)]
}

/// Handles `statusBar.update` and `statusBar.dispose`.
pub fn StatusBarLifecycle(MethodName: &str, Parameter: &Json) -> (r: Vec<HostAction>)
    requires
        10 <= MethodName.spec_bytes().len(),
        vstd::utf8::is_char_boundary(MethodName.spec_bytes(), 10),
    ensures
        actions_view(r@) == status_bar_lifecycle_effects(MethodName, Parameter@),
{
    let mut EventName = String::from_str("sky://statusbar/");
    EventName.append(TailAfterBytes(MethodName, 10));
    One(Emit(EventName.as_str(), Parameter.deep_copy()))
}

} // verus!
