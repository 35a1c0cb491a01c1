//! `register_*` / `register_*_provider`: a language-feature provider was registered.
//!
//! The `register_` prefix and an optional `_provider` suffix are stripped from
//! the method name to get the provider kind (`register_hover_provider` gives
//! `hover`, `register_rename` gives `rename`); the embedder maps the kind to
//! its own provider table and answers whether it knew it.

use vstd::prelude::*;
use vstd::string::*;

use crate::Host::{HostAction, HostActionV, One, actions_view};
use crate::Json::{Json, JsonV, U64Of, or_default, u64_of};
use crate::Strings::{StripPrefix, StripSuffix, has_prefix, has_suffix};

verus! {

/// The provider kind a method name names.
pub open spec fn provider_kind(method: Seq<char>) -> Seq<char> {
    let prefix = "register_"@;
    let suffix = "_provider"@;
    if has_prefix(method, prefix) {
        let rest = method.subrange(prefix.len() as int, method.len() as int);
        if has_suffix(rest, suffix) {
            rest.subrange(0, rest.len() - suffix.len())
        } else {
            rest
        }
    } else {
        Seq::empty()
    }
}

/// One registration of kind [`provider_kind`] under the parameter's `handle`
/// (cut to 32 bits, 0 when absent) with the parameter itself.
pub open spec fn register_language_provider_effects(method: Seq<char>, p: JsonV) -> Seq<HostActionV> {
    seq![
        HostActionV::RegisterLanguageProvider {
            handle: or_default(u64_of(p.field("handle"@)), 0u64) as u32,
            kind_name: provider_kind(method),
            parameter: p,
        },
    ]
}

/// The provider kind `MethodName` names.
pub fn ProviderKind(MethodName: &str) -> (r: &str)
    ensures
        r@ == provider_kind(MethodName@),
{
    proof {
        reveal_strlit("");
    }
    match StripPrefix(MethodName, "register_") {
        Some(Rest) => match StripSuffix(Rest, "_provider") {
            Some(Kind) => Kind,
            None => Rest,
        },
        None => "",
    }
}

/// Handles a provider registration.
pub fn RegisterLanguageProvider(MethodName: &str, Parameter: &Json) -> (r: Vec<HostAction>)
    ensures
        actions_view(r@) == register_language_provider_effects(MethodName@, Parameter@),
{
    let Handle = match U64Of(Parameter.get("handle")) {
        Some(h) => h as u32,
        None => 0u32,
    };
    let Kind = ProviderKind(MethodName);
    One(
        HostAction::RegisterLanguageProvider {
            Handle,
            TypeName: String::from_str(Kind),
            Parameter: Parameter.deep_copy(),
        },
    )
}

} // verus!
