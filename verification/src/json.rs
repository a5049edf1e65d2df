//! A JSON document as plain values, with its mathematical view.

use vstd::prelude::*;
use crate::text::{str_eq, chars_of};

verus! {

/// A JSON value. Numbers are held as their JSON text, so that integers and
/// decimals alike pass through unchanged.
#[derive(Debug)]
pub enum Json {
    Null,
    Bool(bool),
    Number(String),
    String(String),
    Array(Vec<Json>),
    Object(Vec<(String, Json)>),
}

/// The mathematical view of a JSON value.
pub enum JsonV {
    Null,
    Bool(bool),
    Number(Seq<char>),
    String(Seq<char>),
    Array(Seq<JsonV>),
    Object(Seq<(Seq<char>, JsonV)>),
}

/// The view of a JSON value.
pub open spec fn jv(j: Json) -> JsonV
    decreases j,
{
    match j {
        Json::Null => JsonV::Null,
        Json::Bool(b) => JsonV::Bool(b),
        Json::Number(n) => JsonV::Number(n@),
        Json::String(s) => JsonV::String(s@),
        Json::Array(v) => JsonV::Array(jv_seq(v@)),
        Json::Object(es) => JsonV::Object(jv_entries(es@)),
    }
}

/// The views of a sequence of JSON values.
pub open spec fn jv_seq(s: Seq<Json>) -> Seq<JsonV>
    decreases s,
{
    if s.len() == 0 {
        Seq::empty()
    } else {
        jv_seq(s.drop_last()).push(jv(s.last()))
    }
}

/// The views of the entries of a JSON object.
pub open spec fn jv_entries(s: Seq<(String, Json)>) -> Seq<(Seq<char>, JsonV)>
    decreases s,
{
    if s.len() == 0 {
        Seq::empty()
    } else {
        jv_entries(s.drop_last()).push((s.last().0@, jv(s.last().1)))
    }
}

impl View for Json {
    type V = JsonV;

    open spec fn view(&self) -> JsonV {
        jv(*self)
    }
}

/// The index of the first entry of an object whose key is `k`, if any.
pub open spec fn first_key_index(es: Seq<(Seq<char>, JsonV)>, k: Seq<char>) -> Option<int>
    decreases es.len(),
{
    if es.len() == 0 {
        None
    } else {
        match first_key_index(es.drop_last(), k) {
            Some(i) => Some(i),
            None => if es.last().0 == k { Some(es.len() - 1) } else { None },
        }
    }
}

/// The value of the first entry with key `k`, as `serde_json`'s map lookup
/// reads an object whose keys are distinct.
pub open spec fn entries_get(es: Seq<(Seq<char>, JsonV)>, k: Seq<char>) -> Option<JsonV> {
    match first_key_index(es, k) {
        Some(i) => Some(es[i].1),
        None => None,
    }
}

/// `value.get(key)`: the member `key` of an object; nothing for any other value.
pub open spec fn get(v: JsonV, k: Seq<char>) -> Option<JsonV> {
    match v {
        JsonV::Object(es) => entries_get(es, k),
        _ => None,
    }
}

/// `get` followed by `as_str`.
pub open spec fn get_str(v: JsonV, k: Seq<char>) -> Option<Seq<char>> {
    match get(v, k) {
        Some(JsonV::String(s)) => Some(s),
        _ => None,
    }
}

/// `get` followed by `as_array`.
pub open spec fn get_array(v: JsonV, k: Seq<char>) -> Option<Seq<JsonV>> {
    match get(v, k) {
        Some(JsonV::Array(a)) => Some(a),
        _ => None,
    }
}

/// `get` followed by `as_object`.
pub open spec fn get_object(v: JsonV, k: Seq<char>) -> Option<Seq<(Seq<char>, JsonV)>> {
    match get(v, k) {
        Some(JsonV::Object(es)) => Some(es),
        _ => None,
    }
}

/// The element `i` of an array; nothing for any other value or index.
pub open spec fn nth(v: JsonV, i: int) -> Option<JsonV> {
    match v {
        JsonV::Array(a) => if 0 <= i < a.len() { Some(a[i]) } else { None },
        _ => None,
    }
}

/// `get` on what may be absent, as indexing a `serde_json::Value` reads it.
pub open spec fn at_key(v: Option<JsonV>, k: Seq<char>) -> Option<JsonV> {
    match v {
        Some(x) => get(x, k),
        None => None,
    }
}

/// `nth` on what may be absent.
pub open spec fn at_index(v: Option<JsonV>, i: int) -> Option<JsonV> {
    match v {
        Some(x) => nth(x, i),
        None => None,
    }
}

/// The text of what may be a string.
pub open spec fn str_of(v: Option<JsonV>) -> Option<Seq<char>> {
    match v {
        Some(JsonV::String(s)) => Some(s),
        _ => None,
    }
}

/// The value of a run of decimal digits, if `s` is one.
pub open spec fn digits_value(s: Seq<char>) -> Option<nat>
    decreases s.len(),
{
    if s.len() == 0 {
        None
    } else if !('0' <= s.last() && s.last() <= '9') {
        None
    } else if s.len() == 1 {
        Some((s.last() as u32 - '0' as u32) as nat)
    } else {
        match digits_value(s.drop_last()) {
            Some(v) => Some(v * 10 + (s.last() as u32 - '0' as u32) as nat),
            None => None,
        }
    }
}

/// A number read as an `i64`, as `serde_json::Value::as_i64` reads it: an
/// integer, written as digits with an optional minus sign, within range. A
/// negative zero is read by serde_json as a float, and so gives nothing.
pub open spec fn as_i64(v: Option<JsonV>) -> Option<i64> {
    match v {
        Some(JsonV::Number(t)) => if t.len() > 0 && t[0] == '-' {
            match digits_value(t.drop_first()) {
                Some(n) => if 1 <= n <= 0x8000_0000_0000_0000 { Some((-n) as i64) } else { None },
                None => None,
            }
        } else {
            match digits_value(t) {
                Some(n) => if n <= 0x7fff_ffff_ffff_ffff { Some(n as i64) } else { None },
                None => None,
            }
        },
        _ => None,
    }
}

/// A number read as a `u64`, as `serde_json::Value::as_u64` reads it: an
/// integer written as digits, within range.
pub open spec fn as_u64(v: Option<JsonV>) -> Option<u64> {
    match v {
        Some(JsonV::Number(t)) => match digits_value(t) {
            Some(n) => if n <= 0xffff_ffff_ffff_ffff { Some(n as u64) } else { None },
            None => None,
        },
        _ => None,
    }
}

/// An object's entries with member `k` set to `v`, as assigning through
/// `value[k]` does: the first entry with that key takes the new value where
/// there is one; otherwise the member is added at the end.
pub open spec fn with_member(es: Seq<(Seq<char>, JsonV)>, k: Seq<char>, v: JsonV) -> Seq<(Seq<char>, JsonV)> {
    match first_key_index(es, k) {
        Some(i) => es.update(i, (k, v)),
        None => es.push((k, v)),
    }
}

/// Setting a member of an object and reading it back gives the value set;
/// every other member reads as before.
pub proof fn law_set_member_reads_back(es: Seq<(Seq<char>, JsonV)>, k: Seq<char>, v: JsonV, other: Seq<char>)
    ensures
        entries_get(with_member(es, k, v), k) == Some(v),
        other != k ==> entries_get(with_member(es, k, v), other) == entries_get(es, other),
{
    let r = with_member(es, k, v);
    lemma_first_key_index(es, k);
    lemma_first_key_index(es, other);
    lemma_first_key_index(r, k);
    lemma_first_key_index(r, other);
    match first_key_index(es, k) {
        Some(i) => {
            assert(r[i].0 == k);
            match first_key_index(r, k) {
                Some(j) => { assert(j == i); },
                None => {},
            }
            if other != k {
                match first_key_index(es, other) {
                    Some(x) => {
                        assert(r[x] == es[x]);
                        match first_key_index(r, other) {
                            Some(y) => { assert(y == x); },
                            None => {},
                        }
                    },
                    None => {
                        match first_key_index(r, other) {
                            Some(y) => { assert(r[y] == es[y]); },
                            None => {},
                        }
                    },
                }
            }
        },
        None => {
            assert(r[es.len() as int].0 == k);
            match first_key_index(r, k) {
                Some(j) => { assert(j == es.len()); },
                None => {},
            }
            if other != k {
                match first_key_index(es, other) {
                    Some(x) => {
                        assert(r[x] == es[x]);
                        match first_key_index(r, other) {
                            Some(y) => { assert(y == x); },
                            None => {},
                        }
                    },
                    None => {
                        match first_key_index(r, other) {
                            Some(y) => { if y < es.len() { assert(r[y] == es[y]); } },
                            None => {},
                        }
                    },
                }
            }
        },
    }
}

/// The view of an optional reference to a JSON value.
pub open spec fn opt_jv(o: Option<&Json>) -> Option<JsonV> {
    match o {
        Some(j) => Some(j@),
        None => None,
    }
}

pub proof fn lemma_jv_seq_len(s: Seq<Json>)
    ensures
        jv_seq(s).len() == s.len(),
        forall|i: int| 0 <= i < s.len() ==> #[trigger] jv_seq(s)[i] == jv(s[i]),
    decreases s.len(),
{
    if s.len() > 0 {
        lemma_jv_seq_len(s.drop_last());
    }
}

pub proof fn lemma_jv_entries_len(s: Seq<(String, Json)>)
    ensures
        jv_entries(s).len() == s.len(),
        forall|i: int| 0 <= i < s.len() ==> #[trigger] jv_entries(s)[i] == (s[i].0@, jv(s[i].1)),
    decreases s.len(),
{
    if s.len() > 0 {
        lemma_jv_entries_len(s.drop_last());
    }
}

pub proof fn lemma_jv_seq_push(s: Seq<Json>, j: Json)
    ensures
        jv_seq(s.push(j)) == jv_seq(s).push(jv(j)),
{
    assert(s.push(j).drop_last() =~= s);
}

pub proof fn lemma_jv_entries_push(s: Seq<(String, Json)>, e: (String, Json))
    ensures
        jv_entries(s.push(e)) == jv_entries(s).push((e.0@, jv(e.1))),
{
    assert(s.push(e).drop_last() =~= s);
}

pub proof fn lemma_first_key_index(es: Seq<(Seq<char>, JsonV)>, k: Seq<char>)
    ensures
        match first_key_index(es, k) {
            Some(i) => 0 <= i < es.len() && es[i].0 == k
                && forall|j: int| 0 <= j < i ==> es[j].0 != k,
            None => forall|j: int| 0 <= j < es.len() ==> es[j].0 != k,
        },
    decreases es.len(),
{
    if es.len() > 0 {
        lemma_first_key_index(es.drop_last(), k);
        assert forall|j: int| 0 <= j < es.len() - 1 implies es.drop_last()[j] == es[j] by {}
    }
}

/// The value of a run of decimal digits, where it is no larger than `max`.
pub fn read_digits(t: &str, max: u64) -> (r: Option<u64>)
    ensures
        match digits_value(t@) {
            Some(n) => if n <= max { r == Some(n as u64) } else { r is None },
            None => r is None,
        },
{
    let cs = chars_of(t);
    if cs.len() == 0 {
        return None;
    }
    let mut acc: u64 = 0;
    let mut i: usize = 0;
    while i < cs.len()
        invariant
            cs@ == t@,
            cs.len() > 0,
            i <= cs.len(),
            acc <= max,
            i > 0 ==> digits_value(cs@.subrange(0, i as int)) == Some(acc as nat),
            i == 0 ==> acc == 0,
        decreases cs.len() - i,
    {
        let c = cs[i];
        assert(cs@.subrange(0, i + 1).drop_last() =~= cs@.subrange(0, i as int));
        assert(cs@.subrange(0, i + 1).last() == c);
        if !('0' <= c && c <= '9') {
            proof { lemma_digits_none_extends(cs@, (i + 1) as nat); }
            return None;
        }
        let d = (c as u32 - '0' as u32) as u64;
        if d > max || acc > (max - d) / 10 {
            proof { lemma_digits_too_big(cs@, i as nat, acc as nat, d as nat, max as nat); }
            return None;
        }
        acc = acc * 10 + d;
        i = i + 1;
    }
    assert(cs@.subrange(0, cs.len() as int) =~= cs@);
    Some(acc)
}

proof fn lemma_digits_none_extends(s: Seq<char>, k: nat)
    requires
        0 < k <= s.len(),
        digits_value(s.subrange(0, k as int)) is None,
    ensures
        digits_value(s) is None,
    decreases s.len() - k,
{
    if k < s.len() {
        assert(s.subrange(0, (k + 1) as int).drop_last() =~= s.subrange(0, k as int));
        lemma_digits_none_extends(s, k + 1);
    } else {
        assert(s.subrange(0, k as int) =~= s);
    }
}

proof fn lemma_digits_value_grows(s: Seq<char>, k: nat, v: nat)
    requires
        0 < k <= s.len(),
        digits_value(s.subrange(0, k as int)) == Some(v),
    ensures
        match digits_value(s) {
            Some(w) => w >= v,
            None => true,
        },
    decreases s.len() - k,
{
    if k < s.len() {
        assert(s.subrange(0, (k + 1) as int).drop_last() =~= s.subrange(0, k as int));
        match digits_value(s.subrange(0, (k + 1) as int)) {
            Some(w) => { lemma_digits_value_grows(s, k + 1, w); },
            None => { lemma_digits_none_extends(s, k + 1); },
        }
    } else {
        assert(s.subrange(0, k as int) =~= s);
    }
}

proof fn lemma_digits_too_big(s: Seq<char>, i: nat, acc: nat, d: nat, max: nat)
    requires
        i < s.len(),
        d <= 9,
        i > 0 ==> digits_value(s.subrange(0, i as int)) == Some(acc),
        i == 0 ==> acc == 0,
        '0' <= s[i as int] <= '9',
        d == (s[i as int] as u32 - '0' as u32),
        d > max || acc > (max - d) / 10,
    ensures
        match digits_value(s) {
            Some(w) => w > max,
            None => true,
        },
{
    let sub = s.subrange(0, (i + 1) as int);
    assert(sub.drop_last() =~= s.subrange(0, i as int));
    assert(sub.last() == s[i as int]);
    if d <= max {
        assert(acc * 10 + d > max) by (nonlinear_arith)
            requires acc > (max - d) / 10, d <= max;
    }
    if i == 0 {
        assert(sub.len() == 1);
        assert(digits_value(sub) == Some(d));
    } else {
        assert(digits_value(sub) == Some(acc * 10 + d));
    }
    lemma_digits_value_grows(s, i + 1, (acc * 10 + d) as nat);
}

impl Json {
    /// The member `key` of an object, as `serde_json::Value::get` gives it.
    pub fn get(&self, key: &str) -> (r: Option<&Json>)
        ensures
            opt_jv(r) == get(self@, key@),
    {
        match self {
            Json::Object(es) => lookup(es, key),
            _ => None,
        }
    }

    /// The element `i` of an array.
    pub fn nth(&self, i: usize) -> (r: Option<&Json>)
        ensures
            opt_jv(r) == nth(self@, i as int),
    {
        match self {
            Json::Array(v) => {
                proof { lemma_jv_seq_len(v@); }
                if i < v.len() { Some(&v[i]) } else { None }
            },
            _ => None,
        }
    }

    /// A number read as an `i64`.
    pub fn as_i64(&self) -> (r: Option<i64>)
        ensures
            r == as_i64(Some(self@)),
    {
        match self {
            Json::Number(t) => {
                let cs = chars_of(t.as_str());
                if cs.len() > 0 && cs[0] == '-' {
                    let mut rest = String::new();
                    let mut i: usize = 1;
                    while i < cs.len()
                        invariant
                            cs@ == t@,
                            1 <= i <= cs.len(),
                            rest@ == t@.subrange(1, i as int),
                        decreases cs.len() - i,
                    {
                        crate::text::push_char(&mut rest, cs[i]);
                        assert(t@.subrange(1, i + 1) =~= t@.subrange(1, i as int).push(t@[i as int]));
                        i = i + 1;
                    }
                    assert(rest@ =~= t@.drop_first());
                    match read_digits(rest.as_str(), 0x8000_0000_0000_0000) {
                        Some(n) => if n == 0 {
                            None
                        } else {
                            Some((0i128 - n as i128) as i64)
                        },
                        None => None,
                    }
                } else {
                    match read_digits(t.as_str(), 0x7fff_ffff_ffff_ffff) {
                        Some(n) => Some(n as i64),
                        None => None,
                    }
                }
            },
            _ => None,
        }
    }

    /// A number read as a `u64`.
    pub fn as_u64(&self) -> (r: Option<u64>)
        ensures
            r == as_u64(Some(self@)),
    {
        match self {
            Json::Number(t) => read_digits(t.as_str(), 0xffff_ffff_ffff_ffff),
            _ => None,
        }
    }

    /// The text of a string value.
    pub fn as_str(&self) -> (r: Option<&str>)
        ensures
            match self@ {
                JsonV::String(s) => r is Some && r->0@ == s,
                _ => r is None,
            },
    {
        match self {
            Json::String(s) => Some(s.as_str()),
            _ => None,
        }
    }

    /// The elements of an array value.
    pub fn as_array(&self) -> (r: Option<&Vec<Json>>)
        ensures
            match self@ {
                JsonV::Array(a) => r is Some && jv_seq(r->0@) == a,
                _ => r is None,
            },
    {
        match self {
            Json::Array(v) => Some(v),
            _ => None,
        }
    }

    /// The entries of an object value.
    pub fn as_object(&self) -> (r: Option<&Vec<(String, Json)>>)
        ensures
            match self@ {
                JsonV::Object(es) => r is Some && jv_entries(r->0@) == es,
                _ => r is None,
            },
    {
        match self {
            Json::Object(es) => Some(es),
            _ => None,
        }
    }

    /// The value of a boolean.
    pub fn as_bool(&self) -> (r: Option<bool>)
        ensures
            match self@ {
                JsonV::Bool(b) => r == Some(b),
                _ => r is None,
            },
    {
        match self {
            Json::Bool(b) => Some(*b),
            _ => None,
        }
    }

    /// Whether the value is `null`.
    pub fn is_null(&self) -> (r: bool)
        ensures
            r == (self@ is Null),
    {
        match self {
            Json::Null => true,
            _ => false,
        }
    }

    /// A deep copy.
    pub fn deep_clone(&self) -> (r: Json)
        ensures
            r@ == self@,
        decreases self,
    {
        match self {
            Json::Null => Json::Null,
            Json::Bool(b) => Json::Bool(*b),
            Json::Number(n) => Json::Number(n.clone()),
            Json::String(s) => Json::String(s.clone()),
            Json::Array(v) => {
                let mut out: Vec<Json> = Vec::new();
                let mut i: usize = 0;
                while i < v.len()
                    invariant
                        *self == Json::Array(*v),
                        i <= v.len(),
                        jv_seq(out@) == jv_seq(v@.subrange(0, i as int)),
                    decreases v.len() - i,
                {
                    assert(decreases_to!(*self => (*self)->Array_0));
                    assert(decreases_to!(*v => v@));
                    assert(decreases_to!(v@ => v@[i as int]));
                    let c = v[i].deep_clone();
                    proof {
                        lemma_jv_seq_push(out@, c);
                        lemma_jv_seq_push(v@.subrange(0, i as int), v@[i as int]);
                        assert(v@.subrange(0, i as int).push(v@[i as int]) =~= v@.subrange(0, i + 1));
                    }
                    out.push(c);
                    i = i + 1;
                }
                assert(v@.subrange(0, v.len() as int) =~= v@);
                Json::Array(out)
            },
            Json::Object(es) => {
                let mut out: Vec<(String, Json)> = Vec::new();
                let mut i: usize = 0;
                while i < es.len()
                    invariant
                        *self == Json::Object(*es),
                        i <= es.len(),
                        jv_entries(out@) == jv_entries(es@.subrange(0, i as int)),
                    decreases es.len() - i,
                {
                    assert(decreases_to!(*self => (*self)->Object_0));
                    assert(decreases_to!(*es => es@));
                    assert(decreases_to!(es@ => es@[i as int]));
                    assert(decreases_to!(es@[i as int] => es@[i as int].1));
                    let e = (es[i].0.clone(), es[i].1.deep_clone());
                    proof {
                        lemma_jv_entries_push(out@, e);
                        lemma_jv_entries_push(es@.subrange(0, i as int), es@[i as int]);
                        assert(es@.subrange(0, i as int).push(es@[i as int]) =~= es@.subrange(0, i + 1));
                    }
                    out.push(e);
                    i = i + 1;
                }
                assert(es@.subrange(0, es.len() as int) =~= es@);
                Json::Object(out)
            },
        }
    }
}

/// Sets member `key` of an object's entries to `value`.
pub fn set_member(es: &mut Vec<(String, Json)>, key: &str, value: Json)
    ensures
        jv_entries(final(es)@) == with_member(jv_entries(old(es)@), key@, value@),
{
    proof {
        lemma_jv_entries_len(es@);
        lemma_first_key_index(jv_entries(es@), key@);
    }
    let ghost before = jv_entries(es@);
    let mut i: usize = 0;
    while i < es.len()
        invariant
            i <= es.len(),
            es@.len() == before.len(),
            before == jv_entries(es@),
            before == jv_entries(old(es)@),
            forall|j: int| 0 <= j < es.len() ==> #[trigger] before[j] == (es@[j].0@, jv(es@[j].1)),
            forall|j: int| 0 <= j < i ==> before[j].0 != key@,
            match first_key_index(before, key@) {
                Some(x) => 0 <= x < before.len() && before[x].0 == key@
                    && forall|j: int| 0 <= j < x ==> before[j].0 != key@,
                None => forall|j: int| 0 <= j < before.len() ==> before[j].0 != key@,
            },
        decreases es.len() - i,
    {
        if str_eq(es[i].0.as_str(), key) {
            proof {
                assert(before[i as int].0 == key@);
                match first_key_index(before, key@) {
                    Some(x) => {
                        assert(x == i);
                    },
                    None => {},
                }
            }
            let e = (es[i].0.clone(), value);
            es.set(i, e);
            proof {
                lemma_jv_entries_len(es@);
                assert(jv_entries(es@) =~= before.update(i as int, (key@, e.1@)));
            }
            return;
        }
        i = i + 1;
    }
    let e = (crate::text::to_owned(key), value);
    proof { lemma_jv_entries_push(es@, e); }
    es.push(e);
}

/// The value of the first entry with key `key`.
pub fn lookup<'a>(es: &'a Vec<(String, Json)>, key: &str) -> (r: Option<&'a Json>)
    ensures
        opt_jv(r) == entries_get(jv_entries(es@), key@),
{
                proof {
                    lemma_jv_entries_len(es@);
                    lemma_first_key_index(jv_entries(es@), key@);
                }
                let mut i: usize = 0;
                while i < es.len()
                    invariant
                        i <= es.len(),
                        jv_entries(es@).len() == es@.len(),
                        forall|j: int| 0 <= j < es.len() ==> #[trigger] jv_entries(es@)[j] == (es@[j].0@, jv(es@[j].1)),
                        forall|j: int| 0 <= j < i ==> es@[j].0@ != key@,
                        match first_key_index(jv_entries(es@), key@) {
                            Some(x) => 0 <= x < es.len() && jv_entries(es@)[x].0 == key@
                                && forall|j: int| 0 <= j < x ==> jv_entries(es@)[j].0 != key@,
                            None => forall|j: int| 0 <= j < es.len() ==> jv_entries(es@)[j].0 != key@,
                        },
                    decreases es.len() - i,
                {
                    if str_eq(es[i].0.as_str(), key) {
                        assert(jv_entries(es@)[i as int].0 == key@);
                        proof {
                            match first_key_index(jv_entries(es@), key@) {
                                Some(x) => {
                                    if x < i {
                                        assert(jv_entries(es@)[x].0 == es@[x].0@);
                                    }
                                    assert(x == i);
                                },
                                None => {
                                    assert(jv_entries(es@)[i as int].0 != key@);
                                },
                            }
                            assert(entries_get(jv_entries(es@), key@) == Some(jv(es@[i as int].1)));
                        }
                        return Some(&es[i].1);
                    }
                    assert(jv_entries(es@)[i as int].0 != key@);
                    i = i + 1;
                }
                None
}


/// A JSON string holding a copy of `s`.
pub fn jstr(s: &str) -> (r: Json)
    ensures
        r@ == JsonV::String(s@),
{
    Json::String(s.to_string())
}

} // verus!
