//! The JSON value model that every payload of the bus is read from and built into.

use vstd::prelude::*;
use vstd::string::*;

verus! {

/// A JSON number as it appears on the wire: a non-negative integer, a negative
/// integer, or a number with a fraction or exponent kept as its decimal text.
#[derive(Debug)]
pub enum JsonNumber {
    PosInt(u64),
    NegInt(i64),
    Float(String),
}

/// A JSON value. Object members keep the order they were given in; a key that
/// occurs twice is found at its first occurrence.
#[derive(Debug)]
pub enum Json {
    Null,
    Bool(bool),
    Number(JsonNumber),
    String(String),
    Array(Vec<Json>),
    Object(Vec<(String, Json)>),
}

/// The mathematical value of a [`JsonNumber`].
pub enum NumberV {
    PosInt(u64),
    NegInt(i64),
    Float(Seq<char>),
}

/// The mathematical value of a [`Json`].
pub enum JsonV {
    Null,
    Bool(bool),
    Number(NumberV),
    Str(Seq<char>),
    Array(Seq<JsonV>),
    Object(Seq<(Seq<char>, JsonV)>),
}

pub open spec fn number_view(n: JsonNumber) -> NumberV {
    match n {
        JsonNumber::PosInt(u) => NumberV::PosInt(u),
        JsonNumber::NegInt(i) => NumberV::NegInt(i),
        JsonNumber::Float(s) => NumberV::Float(s@),
    }
}

pub open spec fn json_view(j: Json) -> JsonV
    decreases j, 0nat,
{
    match j {
        Json::Null => JsonV::Null,
        Json::Bool(b) => JsonV::Bool(b),
        Json::Number(n) => JsonV::Number(number_view(n)),
        Json::String(s) => JsonV::Str(s@),
        Json::Array(items) => JsonV::Array(items_view(items@)),
        Json::Object(entries) => JsonV::Object(entries_view(entries@)),
    }
}

pub open spec fn items_view(s: Seq<Json>) -> Seq<JsonV>
    decreases s, 1nat,
{
    if s.len() == 0 {
        Seq::empty()
    } else {
        items_view(s.subrange(0, s.len() - 1)).push(json_view(s[s.len() - 1]))
    }
}

pub open spec fn entries_view(s: Seq<(String, Json)>) -> Seq<(Seq<char>, JsonV)>
    decreases s, 1nat,
{
    if s.len() == 0 {
        Seq::empty()
    } else {
        entries_view(s.subrange(0, s.len() - 1)).push(
            (s[s.len() - 1].0@, json_view(s[s.len() - 1].1)),
        )
    }
}

impl View for Json {
    type V = JsonV;

    open spec fn view(&self) -> JsonV {
        json_view(*self)
    }
}


/// The value stored under `key` in the first member that has it, if any.
pub open spec fn lookup(es: Seq<(Seq<char>, JsonV)>, key: Seq<char>) -> Option<JsonV>
    decreases es.len(),
{
    if es.len() == 0 {
        None
    } else if es[0].0 == key {
        Some(es[0].1)
    } else {
        lookup(es.drop_first(), key)
    }
}

impl JsonV {
    /// `value.get(key)`: the member `key` of an object; nothing for any other value.
    pub open spec fn field(self, key: Seq<char>) -> Option<JsonV> {
        match self {
            JsonV::Object(es) => lookup(es, key),
            _ => None,
        }
    }

    pub open spec fn as_str(self) -> Option<Seq<char>> {
        match self {
            JsonV::Str(s) => Some(s),
            _ => None,
        }
    }

    pub open spec fn as_u64(self) -> Option<u64> {
        match self {
            JsonV::Number(NumberV::PosInt(u)) => Some(u),
            _ => None,
        }
    }

    pub open spec fn as_bool(self) -> Option<bool> {
        match self {
            JsonV::Bool(b) => Some(b),
            _ => None,
        }
    }

    pub open spec fn as_array(self) -> Option<Seq<JsonV>> {
        match self {
            JsonV::Array(items) => Some(items),
            _ => None,
        }
    }
}

/// `a.or_else(|| b)` on optional values.
pub open spec fn or_else<A>(a: Option<A>, b: Option<A>) -> Option<A> {
    match a {
        Some(x) => Some(x),
        None => b,
    }
}

/// `o.and_then(Value::as_str)`.
pub open spec fn str_of(o: Option<JsonV>) -> Option<Seq<char>> {
    match o {
        Some(v) => v.as_str(),
        None => None,
    }
}

/// `o.and_then(Value::as_u64)`.
pub open spec fn u64_of(o: Option<JsonV>) -> Option<u64> {
    match o {
        Some(v) => v.as_u64(),
        None => None,
    }
}

/// `o.unwrap_or(d)`.
pub open spec fn or_default<A>(o: Option<A>, d: A) -> A {
    match o {
        Some(x) => x,
        None => d,
    }
}

/// The text member `key` of `v`, or the empty text when it is absent or not text.
pub open spec fn text_field(v: JsonV, key: Seq<char>) -> Seq<char> {
    or_default(str_of(v.field(key)), Seq::empty())
}

pub proof fn lemma_items_view(s: Seq<Json>)
    ensures
        items_view(s).len() == s.len(),
        forall|i: int| 0 <= i < s.len() ==> #[trigger] items_view(s)[i] == json_view(s[i]),
    decreases s.len(),
{
    if s.len() > 0 {
        lemma_items_view(s.subrange(0, s.len() - 1));
    }
}

pub proof fn lemma_entries_view(s: Seq<(String, Json)>)
    ensures
        entries_view(s).len() == s.len(),
        forall|i: int|
            0 <= i < s.len() ==> #[trigger] entries_view(s)[i] == (s[i].0@, json_view(s[i].1)),
    decreases s.len(),
{
    if s.len() > 0 {
        lemma_entries_view(s.subrange(0, s.len() - 1));
    }
}

proof fn lemma_lookup_skip(es: Seq<(Seq<char>, JsonV)>, key: Seq<char>, i: int)
    requires
        0 <= i < es.len(),
        es[i].0 != key,
    ensures
        lookup(es.skip(i), key) == lookup(es.skip(i + 1), key),
{
    assert(es.skip(i).drop_first() =~= es.skip(i + 1));
}

/// A member found at position `i` with no earlier member of that name is what
/// a lookup of the name gives.
pub proof fn lemma_lookup_at(es: Seq<(Seq<char>, JsonV)>, key: Seq<char>, i: int)
    requires
        0 <= i < es.len(),
        es[i].0 == key,
        forall|j: int| 0 <= j < i ==> es[j].0 != key,
    ensures
        lookup(es, key) == Some(es[i].1),
    decreases i,
{
    if i > 0 {
        lemma_lookup_at(es.drop_first(), key, i - 1);
    }
}

proof fn lemma_array_item_decreases(j: Json, i: int)
    requires
        j is Array,
        0 <= i < j->Array_0@.len(),
    ensures
        decreases_to!(j => j->Array_0@[i]),
{
    let v = j->Array_0;
    assert(decreases_to!(v => v@));
    assert(decreases_to!(v@ => v@[i]));
}

proof fn lemma_object_member_decreases(j: Json, i: int)
    requires
        j is Object,
        0 <= i < j->Object_0@.len(),
    ensures
        decreases_to!(j => j->Object_0@[i].1),
{
    let v = j->Object_0;
    assert(decreases_to!(v => v@));
    assert(decreases_to!(v@ => v@[i]));
    assert(decreases_to!(v@[i] => v@[i].1));
}

impl Clone for JsonNumber {
    fn clone(&self) -> (r: Self)
        ensures
            number_view(r) == number_view(*self),
    {
        self.deep_copy()
    }
}

impl Clone for Json {
    fn clone(&self) -> (r: Self)
        ensures
            r@ == self@,
    {
        self.deep_copy()
    }
}

impl JsonNumber {
    /// A copy of the number.
    pub fn deep_copy(&self) -> (r: JsonNumber)
        ensures
            number_view(r) == number_view(*self),
    {
        match self {
            JsonNumber::PosInt(u) => JsonNumber::PosInt(*u),
            JsonNumber::NegInt(i) => JsonNumber::NegInt(*i),
            JsonNumber::Float(s) => JsonNumber::Float(s.clone()),
        }
    }
}

impl Json {
    /// A copy of the value, member for member.
    pub fn deep_copy(&self) -> (r: Json)
        ensures
            r@ == self@,
        decreases self,
    {
        match self {
            Json::Null => Json::Null,
            Json::Bool(b) => Json::Bool(*b),
            Json::Number(n) => Json::Number(n.deep_copy()),
            Json::String(s) => Json::String(s.clone()),
            Json::Array(items) => {
                let mut out: Vec<Json> = Vec::new();
                let mut i: usize = 0;
                while i < items.len()
                    invariant
                        0 <= i <= items.len(),
                        out@.len() == i,
                        *self is Array,
                        (*self)->Array_0 == *items,
                        forall|k: int| 0 <= k < i ==> #[trigger] json_view(out@[k]) == json_view(items@[k]),
                    decreases items.len() - i,
                {
                    proof {
                        lemma_array_item_decreases(*self, i as int);
                    }
                    let c = items[i].deep_copy();
                    out.push(c);
                    i += 1;
                }
                proof {
                    lemma_items_view(out@);
                    lemma_items_view(items@);
                    assert(items_view(out@) =~= items_view(items@));
                }
                Json::Array(out)
            },
            Json::Object(entries) => {
                let mut out: Vec<(String, Json)> = Vec::new();
                let mut i: usize = 0;
                while i < entries.len()
                    invariant
                        0 <= i <= entries.len(),
                        out@.len() == i,
                        *self is Object,
                        (*self)->Object_0 == *entries,
                        forall|k: int|
                            0 <= k < i ==> #[trigger] out@[k].0@ == entries@[k].0@ && json_view(out@[k].1)
                                == json_view(entries@[k].1),
                    decreases entries.len() - i,
                {
                    proof {
                        lemma_object_member_decreases(*self, i as int);
                    }
                    let key = entries[i].0.clone();
                    let c = entries[i].1.deep_copy();
                    out.push((key, c));
                    i += 1;
                }
                proof {
                    lemma_entries_view(out@);
                    lemma_entries_view(entries@);
                    assert(entries_view(out@) =~= entries_view(entries@));
                }
                Json::Object(out)
            },
        }
    }

    /// `value.get(key)`: the first member named `key` of an object.
    pub fn get(&self, key: &str) -> (r: Option<&Json>)
        ensures
            match r {
                Some(v) => self@.field(key@) == Some(v@),
                None => self@.field(key@) is None,
            },
    {
        match self {
            Json::Object(entries) => {
                let k = String::from_str(key);
                let ghost ev = entries_view(entries@);
                proof {
                    lemma_entries_view(entries@);
                    assert(ev.skip(0) =~= ev);
                    assert(self@ == JsonV::Object(ev));
                }
                let mut i: usize = 0;
                while i < entries.len()
                    invariant
                        0 <= i <= entries.len(),
                        k@ == key@,
                        ev == entries_view(entries@),
                        ev.len() == entries@.len(),
                        forall|j: int|
                            0 <= j < entries@.len() ==> #[trigger] ev[j] == (
                                entries@[j].0@,
                                json_view(entries@[j].1),
                            ),
                        lookup(ev, key@) == lookup(ev.skip(i as int), key@),
                        self@ == JsonV::Object(ev),
                    decreases entries.len() - i,
                {
                    if entries[i].0 == k {
                        assert(ev.skip(i as int)[0] == ev[i as int]);
                        assert(ev[i as int].0 == key@);
                        assert(lookup(ev.skip(i as int), key@) == Some(ev[i as int].1));
                        return Some(&entries[i].1);
                    }
                    proof {
                        lemma_lookup_skip(ev, key@, i as int);
                    }
                    i += 1;
                }
                assert(ev.skip(i as int).len() == 0);
                None
            },
            _ => None,
        }
    }

    /// `value.as_str()`.
    pub fn as_str(&self) -> (r: Option<&str>)
        ensures
            match r {
                Some(s) => self@.as_str() == Some(s@),
                None => self@.as_str() is None,
            },
    {
        match self {
            Json::String(s) => Some(s.as_str()),
            _ => None,
        }
    }

    /// `value.as_u64()`.
    pub fn as_u64(&self) -> (r: Option<u64>)
        ensures
            r == self@.as_u64(),
    {
        match self {
            Json::Number(JsonNumber::PosInt(u)) => Some(*u),
            _ => None,
        }
    }

    /// `value.as_bool()`.
    pub fn as_bool(&self) -> (r: Option<bool>)
        ensures
            r == self@.as_bool(),
    {
        match self {
            Json::Bool(b) => Some(*b),
            _ => None,
        }
    }

    /// `value.as_array()`.
    pub fn as_array(&self) -> (r: Option<&Vec<Json>>)
        ensures
            match r {
                Some(v) => self@.as_array() == Some(items_view(v@)),
                None => self@.as_array() is None,
            },
    {
        match self {
            Json::Array(items) => Some(items),
            _ => None,
        }
    }
}


/// The value behind an optional reference.
pub open spec fn opt_view(o: Option<&Json>) -> Option<JsonV> {
    match o {
        Some(v) => Some(json_view(*v)),
        None => None,
    }
}

/// A JSON text value.
pub fn Text(s: &str) -> (r: Json)
    ensures
        r@ == JsonV::Str(s@),
{
    Json::String(String::from_str(s))
}

/// A JSON non-negative integer.
pub fn Unsigned(n: u64) -> (r: Json)
    ensures
        r@ == JsonV::Number(NumberV::PosInt(n)),
{
    Json::Number(JsonNumber::PosInt(n))
}

/// An object with the given members, in order.
pub fn ObjectOf(members: Vec<(String, Json)>) -> (r: Json)
    ensures
        r@ == JsonV::Object(entries_view(members@)),
{
    Json::Object(members)
}

/// An object with one member.
pub fn Object1(k1: &str, v1: Json) -> (r: Json)
    ensures
        r@ == JsonV::Object(seq![(k1@, v1@)]),
{
    let m = vec![(String::from_str(k1), v1)];
    proof {
        lemma_entries_view(m@);
        assert(entries_view(m@) =~= seq![(k1@, v1@)]);
    }
    Json::Object(m)
}

/// An object with two members, in order.
pub fn Object2(k1: &str, v1: Json, k2: &str, v2: Json) -> (r: Json)
    ensures
        r@ == JsonV::Object(seq![(k1@, v1@), (k2@, v2@)]),
{
    let m = vec![(String::from_str(k1), v1), (String::from_str(k2), v2)];
    proof {
        lemma_entries_view(m@);
        assert(entries_view(m@) =~= seq![(k1@, v1@), (k2@, v2@)]);
    }
    Json::Object(m)
}

/// An object with three members, in order.
pub fn Object3(k1: &str, v1: Json, k2: &str, v2: Json, k3: &str, v3: Json) -> (r: Json)
    ensures
        r@ == JsonV::Object(seq![(k1@, v1@), (k2@, v2@), (k3@, v3@)]),
{
    let m = vec![(String::from_str(k1), v1), (String::from_str(k2), v2), (String::from_str(k3), v3)];
    proof {
        lemma_entries_view(m@);
        assert(entries_view(m@) =~= seq![(k1@, v1@), (k2@, v2@), (k3@, v3@)]);
    }
    Json::Object(m)
}

/// An object with four members, in order.
pub fn Object4(k1: &str, v1: Json, k2: &str, v2: Json, k3: &str, v3: Json, k4: &str, v4: Json) -> (r:
    Json)
    ensures
        r@ == JsonV::Object(seq![(k1@, v1@), (k2@, v2@), (k3@, v3@), (k4@, v4@)]),
{
    let m = vec![
        (String::from_str(k1), v1),
        (String::from_str(k2), v2),
        (String::from_str(k3), v3),
        (String::from_str(k4), v4),
    ];
    proof {
        lemma_entries_view(m@);
        assert(entries_view(m@) =~= seq![(k1@, v1@), (k2@, v2@), (k3@, v3@), (k4@, v4@)]);
    }
    Json::Object(m)
}

/// An object with five members, in order.
pub fn Object5(
    k1: &str,
    v1: Json,
    k2: &str,
    v2: Json,
    k3: &str,
    v3: Json,
    k4: &str,
    v4: Json,
    k5: &str,
    v5: Json,
) -> (r: Json)
    ensures
        r@ == JsonV::Object(seq![(k1@, v1@), (k2@, v2@), (k3@, v3@), (k4@, v4@), (k5@, v5@)]),
{
    let m = vec![
        (String::from_str(k1), v1),
        (String::from_str(k2), v2),
        (String::from_str(k3), v3),
        (String::from_str(k4), v4),
        (String::from_str(k5), v5),
    ];
    proof {
        lemma_entries_view(m@);
        assert(entries_view(m@) =~= seq![(k1@, v1@), (k2@, v2@), (k3@, v3@), (k4@, v4@), (k5@, v5@)]);
    }
    Json::Object(m)
}

/// `o.and_then(Value::as_str).unwrap_or(default)`.
pub fn StrOr<'a>(o: Option<&'a Json>, default: &'a str) -> (r: &'a str)
    ensures
        r@ == or_default(str_of(opt_view(o)), default@),
{
    match o {
        Some(v) => match v.as_str() {
            Some(s) => s,
            None => default,
        },
        None => default,
    }
}

/// `o.and_then(Value::as_u64)`.
pub fn U64Of(o: Option<&Json>) -> (r: Option<u64>)
    ensures
        r == u64_of(opt_view(o)),
{
    match o {
        Some(v) => v.as_u64(),
        None => None,
    }
}

/// The text member `key` of `p`, or the empty text.
pub fn FieldText<'a>(p: &'a Json, key: &str) -> (r: &'a str)
    ensures
        r@ == text_field(p@, key@),
{
    proof {
        reveal_strlit("");
    }
    StrOr(p.get(key), "")
}

/// `p.get(k1).or_else(|| p.get(k2))`.
pub fn GetEither<'a>(p: &'a Json, k1: &str, k2: &str) -> (r: Option<&'a Json>)
    ensures
        opt_view(r) == or_else(p@.field(k1@), p@.field(k2@)),
{
    match p.get(k1) {
        Some(v) => Some(v),
        None => p.get(k2),
    }
}

/// `p.get(k1).or_else(|| p.get(k2)).or_else(|| p.get(k3))`.
pub fn GetFirst3<'a>(p: &'a Json, k1: &str, k2: &str, k3: &str) -> (r: Option<&'a Json>)
    ensures
        opt_view(r) == or_else(or_else(p@.field(k1@), p@.field(k2@)), p@.field(k3@)),
{
    match GetEither(p, k1, k2) {
        Some(v) => Some(v),
        None => p.get(k3),
    }
}

} // verus!
