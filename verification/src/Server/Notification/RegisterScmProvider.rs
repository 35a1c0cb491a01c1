//! `register_scm_provider`: a side-car extension created a source-control provider.
//!
//! Three independent effects: record the handle in the provider table, create
//! the source-control state (keyed by the same handle), and emit the simpler
//! `sky://scm/register` event for renderer code that listens for it.
//!
//! The side-car allocates a sequential handle and sends it; later group and
//! update notifications name the same handle. Only when the handle is missing
//! (legacy callers) is it derived from the provider id by a DJB hash.

use vstd::prelude::*;
use vstd::string::*;

use crate::Host::{Emit, HostAction, HostActionV, NoActions, Three, actions_view, emit_v};
use crate::Json::{
    FieldText, GetEither, GetFirst3, Json, JsonV, NumberV, Object4, Object5, StrOr, Text, U64Of,
    Unsigned, opt_view, or_default, or_else, str_of, text_field, u64_of,
};

verus! {

/// The DJB hash of a byte string: start at 5381, then for each byte multiply
/// by 33 and add the byte, with wrapping 32-bit arithmetic.
pub open spec fn scm_hash(b: Seq<u8>) -> u32
    decreases b.len(),
{
    if b.len() == 0 {
        5381u32
    } else {
        scm_hash(b.subrange(0, b.len() - 1)).wrapping_mul(33).wrapping_add(b[b.len() - 1] as u32)
    }
}

/// The URL a `UriComponents` object stands for: `scheme://authority path`, then
/// `?query` and `#fragment` when they are not empty; nothing when the scheme is
/// absent or empty.
pub open spec fn build_url(o: JsonV) -> Option<Seq<char>> {
    match str_of(o.field("scheme"@)) {
        None => None,
        Some(scheme) => if scheme.len() == 0 {
            None
        } else {
            let base = scheme + "://"@ + text_field(o, "authority"@) + text_field(o, "path"@);
            let query = text_field(o, "query"@);
            let fragment = text_field(o, "fragment"@);
            let with_query = if query.len() == 0 {
                base
            } else {
                base + "?"@ + query
            };
            Some(
                if fragment.len() == 0 {
                    with_query
                } else {
                    with_query + "#"@ + fragment
                },
            )
        },
    }
}

/// The provider's root as a URL: a text root as it is; for an object, the URL
/// it spells, else its `external` text, else `file://` before an absolute
/// `path`; `file:///` otherwise.
pub open spec fn root_uri_string(root: JsonV) -> Seq<char> {
    match root {
        JsonV::Str(s) => s,
        JsonV::Object(_) => match build_url(root) {
            Some(u) => u,
            None => match str_of(root.field("external"@)) {
                Some(e) => e,
                None => match str_of(root.field("path"@)) {
                    Some(p) => if p.len() > 0 && p[0] == '/' {
                        "file://"@ + p
                    } else {
                        "file:///"@
                    },
                    None => "file:///"@,
                },
            },
        },
        _ => "file:///"@,
    }
}

pub open spec fn scm_id_of(p: JsonV) -> Seq<char> {
    or_default(str_of(or_else(or_else(p.field("id"@), p.field("scmId"@)), p.field("scm_id"@))), Seq::empty())
}

pub open spec fn scm_label_of(p: JsonV) -> Seq<char> {
    or_default(str_of(p.field("label"@)), scm_id_of(p))
}

pub open spec fn scm_extension_of(p: JsonV) -> Seq<char> {
    or_default(str_of(or_else(p.field("extensionId"@), p.field("extension_id"@))), Seq::empty())
}

pub open spec fn scm_root_of(p: JsonV) -> JsonV {
    or_default(or_else(p.field("rootUri"@), p.field("root_uri"@)), JsonV::Null)
}

/// The provider handle: the one the side-car sent (cut to 32 bits), else the
/// hash of the provider id's UTF-8 bytes.
pub open spec fn scm_handle_of(p: JsonV) -> u32 {
    match u64_of(or_else(or_else(p.field("handle"@), p.field("scmHandle"@)), p.field("scm_handle"@))) {
        Some(h) => h as u32,
        None => scm_hash(vstd::utf8::encode_utf8(scm_id_of(p))),
    }
}

/// The effects of `register_scm_provider` with parameter `p`.
pub open spec fn register_scm_provider_effects(p: JsonV) -> Seq<HostActionV> {
    let id = scm_id_of(p);
    let label = scm_label_of(p);
    let ext = scm_extension_of(p);
    let handle = scm_handle_of(p);
    let root = root_uri_string(scm_root_of(p));
    if id.len() == 0 {
        Seq::empty()
    } else {
        seq![
            HostActionV::RegisterScmInRegistry { handle, scm_id: id, label, extension_id: ext },
            HostActionV::CreateSourceControl {
                data: JsonV::Object(
                    seq![
                        ("handle"@, JsonV::Number(NumberV::PosInt(handle as u64))),
                        ("id"@, JsonV::Str(id)),
                        ("label"@, JsonV::Str(label)),
                        ("rootUri"@, JsonV::Str(root)),
                    ],
                ),
            },
            emit_v(
                "sky://scm/register"@,
                JsonV::Object(
                    seq![
                        ("scmId"@, JsonV::Str(id)),
                        ("label"@, JsonV::Str(label)),
                        ("rootUri"@, JsonV::Str(root)),
                        ("extensionId"@, JsonV::Str(ext)),
                        ("handle"@, JsonV::Number(NumberV::PosInt(handle as u64))),
                    ],
                ),
            ),
        ]
    }
}

/// The provider's root is read from `rootUri`, and from `root_uri` only when
/// `rootUri` is absent: a text root given there reaches both the created
/// source-control state and the `sky://scm/register` event as it is.
pub proof fn lemma_scm_root_uri_is_read(p: JsonV, u: Seq<char>)
    requires
        scm_id_of(p).len() > 0,
        p.field("rootUri"@) == Some(JsonV::Str(u)) || (p.field("rootUri"@) is None && p.field("root_uri"@)
            == Some(JsonV::Str(u))),
    ensures
        register_scm_provider_effects(p).len() == 3,
        register_scm_provider_effects(p)[1] matches HostActionV::CreateSourceControl { data } && data.field(
            "rootUri"@,
        ) == Some(JsonV::Str(u)),
        register_scm_provider_effects(p)[2] matches HostActionV::EmitToRenderer { channel, payload } && channel
            == "sky://scm/register"@ && payload.field("rootUri"@) == Some(JsonV::Str(u)),
{
    reveal_strlit("handle");
    reveal_strlit("id");
    reveal_strlit("label");
    reveal_strlit("rootUri");
    reveal_strlit("scmId");
    let id = scm_id_of(p);
    let label = scm_label_of(p);
    let ext = scm_extension_of(p);
    let handle = scm_handle_of(p);
    let root = root_uri_string(scm_root_of(p));
    assert(root == u);
    let data = seq![
        ("handle"@, JsonV::Number(NumberV::PosInt(handle as u64))),
        ("id"@, JsonV::Str(id)),
        ("label"@, JsonV::Str(label)),
        ("rootUri"@, JsonV::Str(root)),
    ];
    assert(data[0].0 == "handle"@ && data[1].0 == "id"@ && data[2].0 == "label"@ && data[3].0 == "rootUri"@);
    assert("handle"@.len() == 6 && "id"@.len() == 2 && "label"@.len() == 5 && "rootUri"@.len() == 7);
    assert(data[0].0 != "rootUri"@ && data[1].0 != "rootUri"@ && data[2].0 != "rootUri"@);
    crate::Json::lemma_lookup_at(data, "rootUri"@, 3);
    let payload = seq![
        ("scmId"@, JsonV::Str(id)),
        ("label"@, JsonV::Str(label)),
        ("rootUri"@, JsonV::Str(root)),
        ("extensionId"@, JsonV::Str(ext)),
        ("handle"@, JsonV::Number(NumberV::PosInt(handle as u64))),
    ];
    assert(payload[0].0 == "scmId"@ && payload[1].0 == "label"@ && payload[2].0 == "rootUri"@);
    assert("scmId"@.len() == 5);
    assert(payload[0].0 != "rootUri"@ && payload[1].0 != "rootUri"@);
    crate::Json::lemma_lookup_at(payload, "rootUri"@, 2);
}

/// The DJB hash of `Text`'s UTF-8 bytes (see [`scm_hash`]).
pub fn ScmHash(Text: &str) -> (r: u32)
    ensures
        r == scm_hash(Text.spec_bytes()),
{
    let Bytes = Text.as_bytes();
    let mut Acc: u32 = 5381;
    let mut i: usize = 0;
    proof {
        assert(Bytes@.subrange(0, 0) =~= Seq::<u8>::empty());
    }
    while i < Bytes.len()
        invariant
            0 <= i <= Bytes@.len(),
            Bytes@ == Text.spec_bytes(),
            Acc == scm_hash(Bytes@.subrange(0, i as int)),
        decreases Bytes@.len() - i,
    {
        proof {
            assert(Bytes@.subrange(0, i + 1).subrange(0, i as int) =~= Bytes@.subrange(0, i as int));
        }
        Acc = Acc.wrapping_mul(33).wrapping_add(Bytes[i] as u32);
        i += 1;
    }
    proof {
        assert(Bytes@.subrange(0, i as int) =~= Bytes@);
    }
    Acc
}

/// Rebuilds a URL from a `UriComponents` object (`scheme`, `authority`, `path`,
/// `query`, `fragment`); nothing when the scheme is absent or empty.
pub fn BuildUrlFromComponents(O: &Json) -> (r: Option<String>)
    ensures
        match r {
            Some(u) => build_url(O@) == Some(u@),
            None => build_url(O@) is None,
        },
{
    let Scheme = match O.get("scheme") {
        Some(v) => match v.as_str() {
            Some(s) => s,
            None => return None,
        },
        None => return None,
    };
    if Scheme.is_empty() {
        return None;
    }
    let Authority = FieldText(O, "authority");
    let Path = FieldText(O, "path");
    let Query = FieldText(O, "query");
    let Fragment = FieldText(O, "fragment");
    let mut Url = String::from_str(Scheme);
    Url.append("://");
    Url.append(Authority);
    Url.append(Path);
    if !Query.is_empty() {
        Url.append("?");
        Url.append(Query);
    }
    if !Fragment.is_empty() {
        Url.append("#");
        Url.append(Fragment);
    }
    Some(Url)
}

/// The provider's root as a URL (see [`root_uri_string`]).
pub fn RootUriString(Root: &Json) -> (r: String)
    ensures
        r@ == root_uri_string(Root@),
{
    match Root {
        Json::String(s) => s.clone(),
        Json::Object(_) => {
            if let Some(Url) = BuildUrlFromComponents(Root) {
                return Url;
            }
            if let Some(v) = Root.get("external") {
                if let Some(e) = v.as_str() {
                    return String::from_str(e);
                }
            }
            if let Some(v) = Root.get("path") {
                if let Some(p) = v.as_str() {
                    if p.unicode_len() > 0 && p.get_char(0) == '/' {
                        let mut u = String::from_str("file://");
                        u.append(p);
                        return u;
                    }
                }
            }
            String::from_str("file:///")
        },
        _ => String::from_str("file:///"),
    }
}

/// Handles `register_scm_provider` (see the module documentation).
pub fn RegisterScmProvider(Parameter: &Json) -> (r: Vec<HostAction>)
    ensures
        actions_view(r@) == register_scm_provider_effects(Parameter@),
{
    proof {
        reveal_strlit("");
    }
    let ScmId = StrOr(GetFirst3(Parameter, "id", "scmId", "scm_id"), "");
    let Label = StrOr(Parameter.get("label"), ScmId);
    let ExtensionId = StrOr(GetEither(Parameter, "extensionId", "extension_id"), "");
    if ScmId.is_empty() {
        return NoActions();
    }
    let Handle: u32 = match U64Of(GetFirst3(Parameter, "handle", "scmHandle", "scm_handle")) {
        Some(h) => h as u32,
        None => ScmHash(ScmId),
    };
    let RootUri = match GetEither(Parameter, "rootUri", "root_uri") {
        Some(v) => v.deep_copy(),
        None => Json::Null,
    };
    let Root = RootUriString(&RootUri);
    let Register = HostAction::RegisterScmInRegistry {
        Handle,
        ScmId: String::from_str(ScmId),
        Label: String::from_str(Label),
        ExtensionId: String::from_str(ExtensionId),
    };
    let Create = HostAction::CreateSourceControl {
        Data: Object4(
            "handle",
            Unsigned(Handle as u64),
            "id",
            Text(ScmId),
            "label",
            Text(Label),
            "rootUri",
            Json::String(Root.clone()),
        ),
    };
    let Legacy = Emit(
        "sky://scm/register",
        Object5(
            "scmId",
            Text(ScmId),
            "label",
            Text(Label),
            "rootUri",
            Json::String(Root),
            "extensionId",
            Text(ExtensionId),
            "handle",
            Unsigned(Handle as u64),
        ),
    );
    assert(ScmId@ == scm_id_of(Parameter@));
    assert(Label@ == scm_label_of(Parameter@));
    assert(ExtensionId@ == scm_extension_of(Parameter@));
    assert(Handle == scm_handle_of(Parameter@));
    assert(RootUri@ == scm_root_of(Parameter@));
    assert(Register@ == register_scm_provider_effects(Parameter@)[0]);
    assert(Create@ == register_scm_provider_effects(Parameter@)[1]);
    assert(Legacy@ == register_scm_provider_effects(Parameter@)[2]);
    Three(Register, Create, Legacy)
}

} // verus!
