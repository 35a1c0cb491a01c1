//! `register_scm_resource_group`: a source-control provider created a
//! resource group (such as "Changes" or "Staged Changes").
//!
//! The group is seeded with no resources, so later updates find it, and the
//! renderer draws its header row.

use vstd::prelude::*;

use crate::Host::{Emit, HostAction, HostActionV, NoActions, Two, actions_view, emit_v};
use crate::Json::{
    GetEither, Json, JsonV, NumberV, Object4, StrOr, Text, U64Of, Unsigned, items_view, or_default,
    or_else, str_of, u64_of,
};

verus! {

pub open spec fn group_scm_handle(p: JsonV) -> u32 {
    or_default(u64_of(or_else(p.field("scmHandle"@), p.field("scm_handle"@))), 0u64) as u32
}

pub open spec fn group_handle_text(p: JsonV) -> Seq<char> {
    or_default(str_of(or_else(p.field("groupHandle"@), p.field("group_handle"@))), Seq::empty())
}

pub open spec fn group_id_of(p: JsonV) -> Seq<char> {
    or_default(str_of(or_else(p.field("groupId"@), p.field("group_id"@))), Seq::empty())
}

pub open spec fn group_label_of(p: JsonV) -> Seq<char> {
    or_default(str_of(p.field("label"@)), group_id_of(p))
}

/// Nothing when the group id is empty; else the group seeded under the
/// provider handle, then its header on `sky://scm/registerGroup`.
pub open spec fn register_scm_resource_group_effects(p: JsonV) -> Seq<HostActionV> {
    let handle = group_scm_handle(p);
    let id = group_id_of(p);
    let label = group_label_of(p);
    if id.len() == 0 {
        Seq::empty()
    } else {
        seq![
            HostActionV::UpdateSourceControlGroup {
                handle,
                data: JsonV::Object(
                    seq![
                        ("providerHandle"@, JsonV::Number(NumberV::PosInt(handle as u64))),
                        ("groupId"@, JsonV::Str(id)),
                        ("label"@, JsonV::Str(label)),
                        ("resourceStates"@, JsonV::Array(Seq::empty())),
                    ],
                ),
            },
            emit_v(
                "sky://scm/registerGroup"@,
                JsonV::Object(
                    seq![
                        ("scmHandle"@, JsonV::Number(NumberV::PosInt(handle as u64))),
                        ("groupHandle"@, JsonV::Str(group_handle_text(p))),
                        ("groupId"@, JsonV::Str(id)),
                        ("label"@, JsonV::Str(label)),
                    ],
                ),
            ),
        ]
    }
}

/// A group names its provider by the handle the provider was registered
/// under: when the side-car sends the same handle with both notifications, the
/// group is seeded under exactly the handle the provider table and its
/// source-control state were keyed by.
pub proof fn lemma_group_keys_under_provider_handle(provider: JsonV, group: JsonV, h: u64)
    requires
        crate::Server::Notification::RegisterScmProvider::scm_id_of(provider).len() > 0,
        u64_of(or_else(or_else(provider.field("handle"@), provider.field("scmHandle"@)), provider.field("scm_handle"@)))
            == Some(h),
        group_id_of(group).len() > 0,
        u64_of(or_else(group.field("scmHandle"@), group.field("scm_handle"@))) == Some(h),
    ensures
        crate::Server::Notification::RegisterScmProvider::register_scm_provider_effects(provider)[0] matches HostActionV::RegisterScmInRegistry {
            handle,
            ..
        } && handle == h as u32,
        register_scm_resource_group_effects(group)[0] matches HostActionV::UpdateSourceControlGroup {
            handle,
            ..
        } && handle == h as u32,
{
}

/// Handles `register_scm_resource_group`.
pub fn RegisterScmResourceGroup(Parameter: &Json) -> (r: Vec<HostAction>)
    ensures
        actions_view(r@) == register_scm_resource_group_effects(Parameter@),
{
    proof {
        reveal_strlit("");
    }
    let ScmHandle = match U64Of(GetEither(Parameter, "scmHandle", "scm_handle")) {
        Some(h) => h as u32,
        None => 0u32,
    };
    let GroupHandle = StrOr(GetEither(Parameter, "groupHandle", "group_handle"), "");
    let GroupId = StrOr(GetEither(Parameter, "groupId", "group_id"), "");
    let Label = StrOr(Parameter.get("label"), GroupId);
    if GroupId.is_empty() {
        return NoActions();
    }
    let NoResources: Vec<Json> = Vec::new();
    assert(items_view(NoResources@) =~= Seq::<JsonV>::empty());
    let Seed = HostAction::UpdateSourceControlGroup {
        Handle: ScmHandle,
        Data: Object4(
            "providerHandle",
            Unsigned(ScmHandle as u64),
            "groupId",
            Text(GroupId),
            "label",
            Text(Label),
            "resourceStates",
            Json::Array(NoResources),
        ),
    };
    let Header = Emit(
        "sky://scm/registerGroup",
        Object4(
            "scmHandle",
            Unsigned(ScmHandle as u64),
            "groupHandle",
            Text(GroupHandle),
            "groupId",
            Text(GroupId),
            "label",
            Text(Label),
        ),
    );
    assert(ScmHandle == group_scm_handle(Parameter@));
    assert(GroupHandle@ == group_handle_text(Parameter@));
    assert(GroupId@ == group_id_of(Parameter@));
    assert(Label@ == group_label_of(Parameter@));
    Two(Seed, Header)
}

} // verus!
