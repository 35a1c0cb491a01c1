//! `outputChannel.append`: twin of `output.append`.
//!
//! Text appends go to the per-channel coalescer first; when the coalescer
//! declines (it is switched off, or the payload has no text `value`), the
//! parameter is relayed on `sky://output/append` as it is. Appends to the
//! source-control channels are logged with their text (cut to about 200
//! bytes); others with their channel only.

use vstd::prelude::*;
use vstd::string::*;

use vstd::utf8::{decode_utf8, encode_utf8, encode_utf8_decode_utf8, encode_utf8_valid_utf8, is_char_boundary};

use crate::DevLog::{EqIgnoreAsciiCase, eq_ignore_ascii_case};
use crate::Host::{Emit, HostAction, HostActionV, One, actions_view, emit_v};
use crate::Json::{GetEither, Json, JsonV, StrOr, or_default, or_else, str_of};
use crate::Strings::Concat;

verus! {

/// What to do with one append: offer `(channel, text)` to the coalescer, and
/// perform `Fallback` only when it was not taken.
pub struct AppendPlan {
    pub Coalesce: Option<(String, String)>,
    pub Fallback: Vec<HostAction>,
}

/// The channel an append names: `channel`, else `name` (the first present), as
/// text; `?` otherwise.
pub open spec fn append_channel(p: JsonV) -> Seq<char> {
    or_default(str_of(or_else(p.field("channel"@), p.field("name"@))), "?"@)
}

/// Handles `outputChannel.append`.
pub fn OutputChannelAppend(Parameter: &Json) -> (r: AppendPlan)
    ensures
        match r.Coalesce {
            Some(pair) => str_of(Parameter@.field("value"@)) == Some(pair.1@) && pair.0@ == append_channel(
                Parameter@,
            ),
            None => str_of(Parameter@.field("value"@)) is None,
        },
        actions_view(r.Fallback@) == seq![emit_v("sky://output/append"@, Parameter@)],
{
    let ChannelName = StrOr(GetEither(Parameter, "channel", "name"), "?");
    let Coalesce = match Parameter.get("value") {
        Some(v) => match v.as_str() {
            Some(Text) => Some((String::from_str(ChannelName), String::from_str(Text))),
            None => None,
        },
        None => None,
    };
    AppendPlan { Coalesce, Fallback: One(Emit("sky://output/append", Parameter.deep_copy())) }
}

/// The last character boundary of `bytes` at or before byte `k`.
pub open spec fn boundary_at_most(bytes: Seq<u8>, k: nat) -> nat
    decreases k,
{
    if k == 0 || is_char_boundary(bytes, k as int) {
        k
    } else {
        boundary_at_most(bytes, (k - 1) as nat)
    }
}

/// The text as logged: when its UTF-8 form is longer than 200 bytes, the
/// characters before the last character boundary at or before byte 200,
/// then `…`; otherwise the text itself.
pub open spec fn log_text(t: Seq<char>) -> Seq<char> {
    let b = encode_utf8(t);
    if b.len() > 200 {
        decode_utf8(b.subrange(0, boundary_at_most(b, 200) as int)) + "…"@
    } else {
        t
    }
}

/// `t.trim_end_matches('\n')`.
pub open spec fn trim_trailing_newlines(t: Seq<char>) -> Seq<char>
    decreases t.len(),
{
    if t.len() > 0 && t.last() == '\n' {
        trim_trailing_newlines(t.drop_last())
    } else {
        t
    }
}

/// Whether appends to the channel are logged with their text: `git`,
/// `source control` and `scm`, in any ASCII case.
pub open spec fn is_source_control_channel(channel: Seq<char>) -> bool {
    eq_ignore_ascii_case(channel, "git"@) || eq_ignore_ascii_case(channel, "source control"@)
        || eq_ignore_ascii_case(channel, "scm"@)
}

/// The log target and line of an append that was not coalesced.
pub open spec fn append_log_line(p: JsonV) -> (Seq<char>, Seq<char>) {
    let channel = append_channel(p);
    if is_source_control_channel(channel) {
        let text = match str_of(p.field("value"@)) {
            Some(v) => log_text(v),
            None => "<no-value>"@,
        };
        ("grpc"@, "[OutputChannel:"@ + channel + "] "@ + trim_trailing_newlines(text))
    } else {
        ("output-verbose"@, "[OutputChannel] append channel="@ + channel)
    }
}

/// The text as logged (see [`log_text`]).
pub fn LogText(Text: &str) -> (r: String)
    ensures
        r@ == log_text(Text@),
{
    let Length = Text.as_bytes().len();
    if Length <= 200 {
        return String::from_str(Text);
    }
    let ghost b = Text.spec_bytes();
    proof {
        encode_utf8_valid_utf8(Text@);
    }
    let mut cut: usize = 200;
    while cut > 0 && !Text.is_char_boundary(cut)
        invariant
            cut <= 200,
            b == Text.spec_bytes(),
            boundary_at_most(b, 200) == boundary_at_most(b, cut as nat),
        decreases cut,
    {
        cut -= 1;
    }
    assert(is_char_boundary(b, 0));
    assert(boundary_at_most(b, cut as nat) == cut);
    let (head, _) = Text.split_at(cut);
    proof {
        encode_utf8_decode_utf8(head@);
    }
    Concat(head, "…")
}

/// The text without its trailing newlines.
pub fn TrimTrailingNewlines(Text: &str) -> (r: &str)
    ensures
        r@ == trim_trailing_newlines(Text@),
{
    let mut k: usize = Text.unicode_len();
    assert(Text@.subrange(0, k as int) =~= Text@);
    while k > 0 && Text.get_char(k - 1) == '\n'
        invariant
            k <= Text@.len(),
            trim_trailing_newlines(Text@) == trim_trailing_newlines(Text@.subrange(0, k as int)),
        decreases k,
    {
        proof {
            assert(Text@.subrange(0, k as int).drop_last() =~= Text@.subrange(0, k - 1));
        }
        k -= 1;
    }
    Text.substring_char(0, k)
}

/// The log target and line of an append that was not coalesced (see
/// [`append_log_line`]).
pub fn AppendLogLine(Parameter: &Json) -> (r: (String, String))
    ensures
        (r.0@, r.1@) == append_log_line(Parameter@),
{
    let Channel = StrOr(GetEither(Parameter, "channel", "name"), "?");
    if EqIgnoreAsciiCase(Channel, "git") || EqIgnoreAsciiCase(Channel, "source control") || EqIgnoreAsciiCase(
        Channel,
        "scm",
    ) {
        let Shown = match Parameter.get("value") {
            Some(v) => match v.as_str() {
                Some(Text) => LogText(Text),
                None => String::from_str("<no-value>"),
            },
            None => String::from_str("<no-value>"),
        };
        let mut Line = Concat("[OutputChannel:", Channel);
        Line.append("] ");
        Line.append(TrimTrailingNewlines(Shown.as_str()));
        (String::from_str("grpc"), Line)
    } else {
        (String::from_str("output-verbose"), Concat("[OutputChannel] append channel=", Channel))
    }
}

} // verus!
