//! The tag filter of the development log.
//!
//! The filter text (read from `LAND_DEV_LOG` by the embedder) enables:
//! - nothing when it is empty;
//! - every tag when it is `all`, `1` or `true`;
//! - otherwise the tags of its comma-separated list, each entry trimmed of
//!   white space and compared to the tag without regard to ASCII case.

use vstd::prelude::*;
use vstd::string::*;

verus! {

/// Unicode's `White_Space` property, which `str::trim` removes.
pub open spec fn is_white_space(c: char) -> bool {
    let x = c as u32;
    (0x09 <= x && x <= 0x0d) || x == 0x20 || x == 0x85 || x == 0xa0 || x == 0x1680 || (0x2000 <= x && x
        <= 0x200a) || x == 0x2028 || x == 0x2029 || x == 0x202f || x == 0x205f || x == 0x3000
}

/// `s.trim_start()`.
pub open spec fn trim_start(s: Seq<char>) -> Seq<char>
    decreases s.len(),
{
    if s.len() > 0 && is_white_space(s[0]) {
        trim_start(s.subrange(1, s.len() as int))
    } else {
        s
    }
}

/// `s.trim_end()`.
pub open spec fn trim_end(s: Seq<char>) -> Seq<char>
    decreases s.len(),
{
    if s.len() > 0 && is_white_space(s[s.len() - 1]) {
        trim_end(s.subrange(0, s.len() - 1))
    } else {
        s
    }
}

/// `s.trim()`.
pub open spec fn trim(s: Seq<char>) -> Seq<char> {
    trim_end(trim_start(s))
}

/// The ASCII lowercase of a character code (other codes unchanged).
pub open spec fn lower_code(x: u32) -> u32 {
    if 65 <= x && x <= 90 {
        (x + 32) as u32
    } else {
        x
    }
}

/// `a.eq_ignore_ascii_case(b)`.
pub open spec fn eq_ignore_ascii_case(a: Seq<char>, b: Seq<char>) -> bool {
    a.len() == b.len() && forall|i: int| 0 <= i < a.len() ==> #[trigger] lower_code(a[i] as u32) == lower_code(b[i] as u32)
}

/// `s[a..b]` is one entry of the comma-separated list `s`.
pub open spec fn is_entry(s: Seq<char>, a: int, b: int) -> bool {
    &&& 0 <= a <= b <= s.len()
    &&& a == 0 || s[a - 1] == ','
    &&& b == s.len() || s[b] == ','
    &&& forall|k: int| a <= k < b ==> s[k] != ','
}

/// Whether the filter text enables the tag (see the module documentation).
pub open spec fn filter_enables(filter: Seq<char>, tag: Seq<char>) -> bool {
    if filter.len() == 0 {
        false
    } else if filter == "all"@ || filter == "1"@ || filter == "true"@ {
        true
    } else {
        exists|a: int, b: int| #[trigger] is_entry(filter, a, b) && eq_ignore_ascii_case(trim(filter.subrange(a, b)), tag)
    }
}

/// `all`, `1` and `true` enable every tag; an empty filter enables none.
pub proof fn lemma_filter_extremes(tag: Seq<char>)
    ensures
        filter_enables("all"@, tag),
        filter_enables("1"@, tag),
        filter_enables("true"@, tag),
        !filter_enables(Seq::<char>::empty(), tag),
{
    reveal_strlit("all");
    reveal_strlit("1");
    reveal_strlit("true");
}

fn IsWhiteSpace(c: char) -> (r: bool)
    ensures
        r == is_white_space(c),
{
    let x = c as u32;
    (0x09 <= x && x <= 0x0d) || x == 0x20 || x == 0x85 || x == 0xa0 || x == 0x1680 || (0x2000 <= x && x
        <= 0x200a) || x == 0x2028 || x == 0x2029 || x == 0x202f || x == 0x205f || x == 0x3000
}

proof fn lemma_trim_start_step(s: Seq<char>, lo: int, b: int)
    requires
        0 <= lo < b <= s.len(),
        is_white_space(s[lo]),
    ensures
        trim_start(s.subrange(lo, b)) == trim_start(s.subrange(lo + 1, b)),
{
    assert(s.subrange(lo, b).subrange(1, b - lo) =~= s.subrange(lo + 1, b));
}

proof fn lemma_trim_end_step(s: Seq<char>, lo: int, hi: int)
    requires
        0 <= lo < hi <= s.len(),
        is_white_space(s[hi - 1]),
    ensures
        trim_end(s.subrange(lo, hi)) == trim_end(s.subrange(lo, hi - 1)),
{
    assert(s.subrange(lo, hi).subrange(0, hi - lo - 1) =~= s.subrange(lo, hi - 1));
}

/// Whether the entry `Filter[a..b]`, trimmed, equals `Tag` ignoring ASCII case.
fn EntryMatches(Filter: &str, a: usize, b: usize, Tag: &str) -> (r: bool)
    requires
        a <= b <= Filter@.len(),
    ensures
        r == eq_ignore_ascii_case(trim(Filter@.subrange(a as int, b as int)), Tag@),
{
    let ghost s = Filter@;
    let mut lo = a;
    while lo < b && IsWhiteSpace(Filter.get_char(lo))
        invariant
            a <= lo <= b <= s.len(),
            s == Filter@,
            trim_start(s.subrange(a as int, b as int)) == trim_start(s.subrange(lo as int, b as int)),
        decreases b - lo,
    {
        proof {
            lemma_trim_start_step(s, lo as int, b as int);
        }
        lo += 1;
    }
    proof {
        if lo < b {
            assert(s.subrange(lo as int, b as int)[0] == s[lo as int]);
        }
        assert(trim_start(s.subrange(lo as int, b as int)) == s.subrange(lo as int, b as int));
    }
    let mut hi = b;
    while hi > lo && IsWhiteSpace(Filter.get_char(hi - 1))
        invariant
            a <= lo <= hi <= b <= s.len(),
            s == Filter@,
            trim_end(s.subrange(lo as int, b as int)) == trim_end(s.subrange(lo as int, hi as int)),
        decreases hi - lo,
    {
        proof {
            lemma_trim_end_step(s, lo as int, hi as int);
        }
        hi -= 1;
    }
    let ghost t = s.subrange(lo as int, hi as int);
    proof {
        if lo < hi {
            assert(t[t.len() - 1] == s[hi - 1]);
        }
        assert(trim_end(t) == t);
        assert(trim(s.subrange(a as int, b as int)) == t);
    }
    let n = Tag.unicode_len();
    if hi - lo != n {
        return false;
    }
    let mut i: usize = 0;
    while i < n
        invariant
            a <= lo <= hi <= b <= s.len(),
            s == Filter@,
            t == s.subrange(lo as int, hi as int),
            trim(s.subrange(a as int, b as int)) == t,
            hi - lo == n,
            n == Tag@.len(),
            0 <= i <= n,
            forall|k: int| 0 <= k < i ==> #[trigger] lower_code(t[k] as u32) == lower_code(Tag@[k] as u32),
        decreases n - i,
    {
        let x = Filter.get_char(lo + i);
        let y = Tag.get_char(i);
        assert(x == t[i as int]);
        assert(y == Tag@[i as int]);
        if LowerCode(x as u32) != LowerCode(y as u32) {
            assert(lower_code(t[i as int] as u32) != lower_code(Tag@[i as int] as u32));
            assert(!eq_ignore_ascii_case(t, Tag@));
            return false;
        }
        i += 1;
    }
    true
}

fn LowerCode(x: u32) -> (r: u32)
    ensures
        r == lower_code(x),
{
    if 65 <= x && x <= 90 {
        x + 32
    } else {
        x
    }
}

/// `a.eq_ignore_ascii_case(b)`.
pub fn EqIgnoreAsciiCase(a: &str, b: &str) -> (r: bool)
    ensures
        r == eq_ignore_ascii_case(a@, b@),
{
    let n = a.unicode_len();
    if b.unicode_len() != n {
        return false;
    }
    let mut i: usize = 0;
    while i < n
        invariant
            n == a@.len(),
            n == b@.len(),
            0 <= i <= n,
            forall|k: int| 0 <= k < i ==> #[trigger] lower_code(a@[k] as u32) == lower_code(b@[k] as u32),
        decreases n - i,
    {
        let x = a.get_char(i);
        let y = b.get_char(i);
        if LowerCode(x as u32) != LowerCode(y as u32) {
            assert(lower_code(a@[i as int] as u32) != lower_code(b@[i as int] as u32));
            return false;
        }
        i += 1;
    }
    true
}

/// Whether the filter text enables the tag (see [`filter_enables`]).
pub fn FilterEnables(Filter: &str, Tag: &str) -> (r: bool)
    ensures
        r == filter_enables(Filter@, Tag@),
{
    let n = Filter.unicode_len();
    if n == 0 {
        return false;
    }
    if crate::Strings::StrEq(Filter, "all") || crate::Strings::StrEq(Filter, "1") || crate::Strings::StrEq(
        Filter,
        "true",
    ) {
        return true;
    }
    let ghost s = Filter@;
    let mut start: usize = 0;
    let mut j: usize = 0;
    while j < n
        invariant
            s == Filter@,
            n == s.len(),
            0 <= start <= j <= n,
            start == 0 || s[start - 1] == ',',
            forall|k: int| start <= k < j ==> s[k] != ',',
            forall|a: int, b: int|
                #[trigger] is_entry(s, a, b) && b < j ==> !eq_ignore_ascii_case(trim(s.subrange(a, b)), Tag@),
            !(s == "all"@ || s == "1"@ || s == "true"@),
        decreases n - j,
    {
        if Filter.get_char(j) == ',' {
            proof {
                assert(is_entry(s, start as int, j as int));
            }
            if EntryMatches(Filter, start, j, Tag) {
                return true;
            }
            proof {
                assert forall|a: int, b: int|
                    #[trigger] is_entry(s, a, b) && b < j + 1 implies !eq_ignore_ascii_case(
                    trim(s.subrange(a, b)),
                    Tag@,
                ) by {
                    if b == j {
                        if a < start {
                            assert(s[start - 1] == ',');
                        } else if a > start {
                            assert(s[a - 1] == ',');
                        }
                    }
                }
            }
            start = j + 1;
        } else {
            proof {
                assert forall|a: int, b: int|
                    #[trigger] is_entry(s, a, b) && b < j + 1 implies !eq_ignore_ascii_case(
                    trim(s.subrange(a, b)),
                    Tag@,
                ) by {
                    if b == j {
                        assert(s[b] != ',');
                    }
                }
            }
        }
        j += 1;
    }
    proof {
        assert(is_entry(s, start as int, n as int));
    }
    let last = EntryMatches(Filter, start, n, Tag);
    proof {
        if !last {
            assert forall|a: int, b: int| #[trigger] is_entry(s, a, b) implies !eq_ignore_ascii_case(
                trim(s.subrange(a, b)),
                Tag@,
            ) by {
                if b == n {
                    if a < start {
                        assert(s[start - 1] == ',');
                    } else if a > start {
                        assert(s[a - 1] == ',');
                    }
                }
            }
        }
    }
    last
}

} // verus!
