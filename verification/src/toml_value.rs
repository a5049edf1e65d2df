//! Model parameters as configured in TOML, as plain values, and their
//! conversion to JSON.

use vstd::prelude::*;
use crate::json::{Json, JsonV, jv, jv_seq, jv_entries, lemma_jv_seq_push, lemma_jv_entries_push};
use crate::text::{decimal, u64_to_decimal, push_str, to_owned};

verus! {

/// A TOML value. Floats are held as the JSON text of the number, and dates
/// as their TOML text.
#[derive(Debug)]
pub enum TomlValue {
    String(String),
    Integer(i64),
    Float(String),
    Boolean(bool),
    Datetime(String),
    Array(Vec<TomlValue>),
    Table(Vec<(String, TomlValue)>),
}

/// The decimal text of a signed integer.
pub open spec fn signed_decimal(n: int) -> Seq<char> {
    if n < 0 {
        seq!['-'] + decimal((-n) as nat)
    } else {
        decimal(n as nat)
    }
}

/// The decimal text of a signed integer, as `to_string` writes it.
pub fn i64_to_decimal(n: i64) -> (s: String)
    ensures
        s@ == signed_decimal(n as int),
{
    if n < 0 {
        let m: i128 = 0i128 - (n as i128);
        let mut s = String::new();
        push_str(&mut s, "-");
        let d = u64_to_decimal(m as u64);
        push_str(&mut s, d.as_str());
        proof { reveal_strlit("-"); }
        assert(s@ =~= seq!['-'] + decimal((-n) as nat));
        s
    } else {
        u64_to_decimal(n as u64)
    }
}

/// The JSON value that a TOML value converts to: tables become objects,
/// arrays arrays, and a date the object that TOML serialisation writes for it.
pub open spec fn toml_json(t: TomlValue) -> JsonV
    decreases t,
{
    match t {
        TomlValue::String(s) => JsonV::String(s@),
        TomlValue::Integer(n) => JsonV::Number(signed_decimal(n as int)),
        TomlValue::Float(f) => JsonV::Number(f@),
        TomlValue::Boolean(b) => JsonV::Bool(b),
        TomlValue::Datetime(d) => JsonV::Object(seq![("$__toml_private_datetime"@, JsonV::String(d@))]),
        TomlValue::Array(a) => JsonV::Array(toml_seq_json(a@)),
        TomlValue::Table(es) => JsonV::Object(toml_entries_json(es@)),
    }
}

pub open spec fn toml_seq_json(s: Seq<TomlValue>) -> Seq<JsonV>
    decreases s,
{
    if s.len() == 0 {
        Seq::empty()
    } else {
        toml_seq_json(s.drop_last()).push(toml_json(s.last()))
    }
}

pub open spec fn toml_entries_json(s: Seq<(String, TomlValue)>) -> Seq<(Seq<char>, JsonV)>
    decreases s,
{
    if s.len() == 0 {
        Seq::empty()
    } else {
        toml_entries_json(s.drop_last()).push((s.last().0@, toml_json(s.last().1)))
    }
}

/// The key of a table entry and its value, looked up as in `toml::Value::get`:
/// the first entry with that key.
pub open spec fn toml_lookup(es: Seq<(String, TomlValue)>, k: Seq<char>) -> Option<TomlValue>
    decreases es.len(),
{
    if es.len() == 0 {
        None
    } else {
        match toml_lookup(es.drop_last(), k) {
            Some(v) => Some(v),
            None => if es.last().0@ == k { Some(es.last().1) } else { None },
        }
    }
}

/// `value.get(key)` on a table; nothing for any other value.
pub open spec fn toml_get(t: TomlValue, k: Seq<char>) -> Option<TomlValue> {
    match t {
        TomlValue::Table(es) => toml_lookup(es@, k),
        _ => None,
    }
}

impl TomlValue {
    /// The JSON value this TOML value converts to.
    pub fn to_json(&self) -> (r: Json)
        ensures
            r@ == toml_json(*self),
        decreases self,
    {
        match self {
            TomlValue::String(s) => Json::String(s.clone()),
            TomlValue::Integer(n) => Json::Number(i64_to_decimal(*n)),
            TomlValue::Float(f) => Json::Number(f.clone()),
            TomlValue::Boolean(b) => Json::Bool(*b),
            TomlValue::Datetime(d) => {
                proof { reveal_strlit("$__toml_private_datetime"); }
                let mut es: Vec<(String, Json)> = Vec::new();
                let e = (to_owned("$__toml_private_datetime"), Json::String(d.clone()));
                proof { lemma_jv_entries_push(es@, e); }
                es.push(e);
                assert(jv_entries(es@) =~= seq![("$__toml_private_datetime"@, JsonV::String(d@))]);
                Json::Object(es)
            },
            TomlValue::Array(a) => {
                let mut out: Vec<Json> = Vec::new();
                let mut i: usize = 0;
                while i < a.len()
                    invariant
                        *self == TomlValue::Array(*a),
                        i <= a.len(),
                        jv_seq(out@) == toml_seq_json(a@.subrange(0, i as int)),
                    decreases a.len() - i,
                {
                    assert(decreases_to!(*self => (*self)->Array_0));
                    assert(decreases_to!((*self)->Array_0 => a@));
                    assert(decreases_to!(a@ => a@[i as int]));
                    let j = a[i].to_json();
                    proof {
                        lemma_jv_seq_push(out@, j);
                        assert(a@.subrange(0, i + 1).drop_last() =~= a@.subrange(0, i as int));
                    }
                    out.push(j);
                    i = i + 1;
                }
                assert(a@.subrange(0, a.len() as int) =~= a@);
                Json::Array(out)
            },
            TomlValue::Table(es) => {
                let mut out: Vec<(String, Json)> = Vec::new();
                let mut i: usize = 0;
                while i < es.len()
                    invariant
                        *self == TomlValue::Table(*es),
                        i <= es.len(),
                        jv_entries(out@) == toml_entries_json(es@.subrange(0, i as int)),
                    decreases es.len() - i,
                {
                    assert(decreases_to!(*self => (*self)->Table_0));
                    assert(decreases_to!((*self)->Table_0 => es@));
                    assert(decreases_to!(es@ => es@[i as int]));
                    assert(decreases_to!(es@[i as int] => es@[i as int].1));
                    let e = (es[i].0.clone(), es[i].1.to_json());
                    proof {
                        lemma_jv_entries_push(out@, e);
                        assert(es@.subrange(0, i + 1).drop_last() =~= es@.subrange(0, i as int));
                    }
                    out.push(e);
                    i = i + 1;
                }
                assert(es@.subrange(0, es.len() as int) =~= es@);
                Json::Object(out)
            },
        }
    }

    /// The member `key` of a table.
    pub fn get(&self, key: &str) -> (r: Option<&TomlValue>)
        ensures
            match r {
                Some(v) => toml_get(*self, key@) == Some(*v),
                None => toml_get(*self, key@) is None,
            },
    {
        match self {
            TomlValue::Table(es) => {
                let mut i: usize = 0;
                let mut found: Option<usize> = None;
                while i < es.len()
                    invariant
                        *self == TomlValue::Table(*es),
                        i <= es.len(),
                        match found {
                            Some(x) => x < i && toml_lookup(es@.subrange(0, i as int), key@) == Some(es@[x as int].1),
                            None => toml_lookup(es@.subrange(0, i as int), key@) is None,
                        },
                    decreases es.len() - i,
                {
                    assert(es@.subrange(0, i + 1).drop_last() =~= es@.subrange(0, i as int));
                    if found.is_none() && crate::text::str_eq(es[i].0.as_str(), key) {
                        found = Some(i);
                    }
                    i = i + 1;
                }
                assert(es@.subrange(0, es.len() as int) =~= es@);
                match found {
                    Some(x) => Some(&es[x].1),
                    None => None,
                }
            },
            _ => None,
        }
    }

    /// The entries of a table.
    pub fn as_table(&self) -> (r: Option<&Vec<(String, TomlValue)>>)
        ensures
            match *self {
                TomlValue::Table(es) => r == Some(&es),
                _ => r is None,
            },
    {
        match self {
            TomlValue::Table(es) => Some(es),
            _ => None,
        }
    }

    /// The JSON text of a float.
    pub fn as_float(&self) -> (r: Option<&String>)
        ensures
            match *self {
                TomlValue::Float(f) => r == Some(&f),
                _ => r is None,
            },
    {
        match self {
            TomlValue::Float(f) => Some(f),
            _ => None,
        }
    }
}

} // verus!
