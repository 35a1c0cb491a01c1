//! `openExternal`: an extension asked to open a URI with the platform's
//! default handler. Fire-and-forget.

use vstd::prelude::*;
use vstd::string::*;

use crate::Host::{HostAction, HostActionV, NoActions, One, actions_view};
use crate::Json::{FieldText, Json, JsonV, text_field};

verus! {

/// Nothing when the `uri` is empty; else opening it.
pub open spec fn open_external_effects(p: JsonV) -> Seq<HostActionV> {
    let uri = text_field(p, "uri"@);
    if uri.len() == 0 {
        Seq::empty()
    } else {
        seq![HostActionV::OpenExternal { uri }]
    }
}

/// Handles `openExternal`.
pub fn OpenExternal(Parameter: &Json) -> (r: Vec<HostAction>)
    ensures
        actions_view(r@) == open_external_effects(Parameter@),
{
    let Uri = FieldText(Parameter, "uri");
    if Uri.is_empty() {
        return NoActions();
    }
    One(HostAction::OpenExternal { Uri: String::from_str(Uri) })
}

} // verus!
