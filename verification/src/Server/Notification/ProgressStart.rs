//! `progress.start`: the top of a `withProgress` call.

use vstd::prelude::*;

use crate::Host::{Emit, HostAction, HostActionV, One, actions_view, emit_v};
use crate::Json::{FieldText, Json, JsonV, Object3, Text, or_default, text_field};

verus! {

/// Whether the parameter's `cancellable` member is `true` (false when absent or not a boolean).
pub open spec fn cancellable_of(p: JsonV) -> bool {
    match p.field("cancellable"@) {
        Some(v) => or_default(v.as_bool(), false),
        None => false,
    }
}

/// `{ id: handle, title, cancellable }` on `sky://notification/progress-begin`.
pub open spec fn progress_start_effects(p: JsonV) -> Seq<HostActionV> {
    seq![
        emit_v(
            "sky://notification/progress-begin"@,
            JsonV::Object(
                seq![
                    ("id"@, JsonV::Str(text_field(p, "handle"@))),
                    ("title"@, JsonV::Str(text_field(p, "title"@))),
                    ("cancellable"@, JsonV::Bool(cancellable_of(p))),
                ],
            ),
        ),
    ]
}

/// The progress-begin event carries the parameter's boolean `cancellable`
/// member as it is, and `false` when that member is absent or not a boolean;
/// its `id` and `title` are the parameter's `handle` and `title` texts.
pub proof fn lemma_progress_begin_cancellable(p: JsonV)
    ensures
        progress_start_effects(p).len() == 1,
        progress_start_effects(p)[0] matches HostActionV::EmitToRenderer { channel, payload } && channel
            == "sky://notification/progress-begin"@ && payload.field("cancellable"@) == Some(
            JsonV::Bool(
                match p.field("cancellable"@) {
                    Some(JsonV::Bool(b)) => b,
                    _ => false,
                },
            ),
        ) && payload.field("id"@) == Some(JsonV::Str(text_field(p, "handle"@))) && payload.field("title"@)
            == Some(JsonV::Str(text_field(p, "title"@))),
{
    reveal_strlit("id");
    reveal_strlit("title");
    reveal_strlit("cancellable");
    let es = seq![
        ("id"@, JsonV::Str(text_field(p, "handle"@))),
        ("title"@, JsonV::Str(text_field(p, "title"@))),
        ("cancellable"@, JsonV::Bool(cancellable_of(p))),
    ];
    assert(es.drop_first().drop_first().drop_first() =~= Seq::<(Seq<char>, JsonV)>::empty());
    assert(es.drop_first().drop_first()[0] == es[2]);
    assert(es.drop_first()[0] == es[1]);
    assert(crate::Json::lookup(es.drop_first().drop_first(), "cancellable"@) == Some(JsonV::Bool(cancellable_of(p))));
    assert(es[0].0 == "id"@);
    assert(es[1].0 == "title"@);
    assert("id"@.len() == 2 && "title"@.len() == 5 && "cancellable"@.len() == 11);
    assert(es[0].0 != "cancellable"@ && es[1].0 != "cancellable"@ && es[0].0 != "title"@);
    assert(crate::Json::lookup(es.drop_first(), "cancellable"@) == Some(JsonV::Bool(cancellable_of(p))));
    assert(crate::Json::lookup(es, "cancellable"@) == Some(JsonV::Bool(cancellable_of(p))));
    assert(crate::Json::lookup(es.drop_first(), "title"@) == Some(JsonV::Str(text_field(p, "title"@))));
    assert(crate::Json::lookup(es, "title"@) == Some(JsonV::Str(text_field(p, "title"@))));
    assert(crate::Json::lookup(es, "id"@) == Some(JsonV::Str(text_field(p, "handle"@))));
}

/// Handles `progress.start`.
pub fn ProgressStart(Parameter: &Json) -> (r: Vec<HostAction>)
    ensures
        actions_view(r@) == progress_start_effects(Parameter@),
{
    let Handle = FieldText(Parameter, "handle");
    let Title = FieldText(Parameter, "title");
    let Cancellable = match Parameter.get("cancellable") {
        Some(v) => match v.as_bool() {
            Some(b) => b,
            None => false,
        },
        None => false,
    };
    One(
        Emit(
            "sky://notification/progress-begin",
            Object3("id", Text(Handle), "title", Text(Title), "cancellable", Json::Bool(Cancellable)),
        ),
    )
}

} // verus!
