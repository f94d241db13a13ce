//! A plain-value model of a JSON document, as node configuration and flow
//! payloads carry it. Numbers keep the three shapes a JSON number can take:
//! a non-negative integer, a negative integer, or any other number, held by
//! the bit pattern of its IEEE-754 double.
use vstd::prelude::*;
use crate::text::str_eq;

verus! {

/// A JSON number.
#[derive(Debug, PartialEq, Eq, Structural, Clone, Copy)]
pub enum JsonNumber {
    /// A non-negative integer.
    PosInt(u64),
    /// A negative integer.
    NegInt(i64),
    /// Any other number, by the bits of its double.
    Float(u64),
}

/// A JSON value. An object keeps its entries in order; lookups take the
/// first entry under a key.
#[derive(Debug)]
pub enum Json {
    Null,
    Bool(bool),
    Number(JsonNumber),
    String(String),
    Array(Vec<Json>),
    Object(Vec<(String, Json)>),
}

/// The value of the first entry under `key`.
pub open spec fn lookup(entries: Seq<(String, Json)>, key: Seq<char>) -> Option<Json>
    decreases entries.len(),
{
    if entries.len() == 0 {
        None
    } else if entries[0].0@ == key {
        Some(entries[0].1)
    } else {
        lookup(entries.drop_first(), key)
    }
}

impl Json {
    /// The member under `key`, when this is an object that has one.
    pub open spec fn member(self, key: Seq<char>) -> Option<Json> {
        match self {
            Json::Object(entries) => lookup(entries@, key),
            _ => None,
        }
    }

    /// The text, when this is a string.
    pub open spec fn text(self) -> Option<Seq<char>> {
        match self {
            Json::String(s) => Some(s@),
            _ => None,
        }
    }

    /// The value as an unsigned integer, when it is a non-negative integer.
    pub open spec fn unsigned(self) -> Option<u64> {
        match self {
            Json::Number(JsonNumber::PosInt(n)) => Some(n),
            _ => None,
        }
    }

    /// The value as a signed integer, when it is an integer that fits.
    pub open spec fn signed(self) -> Option<i64> {
        match self {
            Json::Number(JsonNumber::PosInt(n)) => if n <= i64::MAX {
                Some(n as i64)
            } else {
                None
            },
            Json::Number(JsonNumber::NegInt(n)) => Some(n),
            _ => None,
        }
    }

    /// The value as a boolean, when it is one.
    pub open spec fn boolean(self) -> Option<bool> {
        match self {
            Json::Bool(b) => Some(b),
            _ => None,
        }
    }

    /// Whether the value is `null`.
    pub open spec fn spec_is_null(self) -> bool {
        self is Null
    }

    /// Whether the value is an object.
    pub open spec fn spec_is_object(self) -> bool {
        self is Object
    }

    /// The member under `key` (`None` when absent or not an object).
    pub fn get(&self, key: &str) -> (r: Option<&Json>)
        ensures
            r.is_some() == self.member(key@).is_some(),
            r.is_some() ==> *r.unwrap() == self.member(key@).unwrap(),
    {
        match self {
            Json::Object(entries) => {
                let n = entries.len();
                let mut i: usize = 0;
                assert(entries@.skip(0) =~= entries@);
                while i < n
                    invariant
                        n == entries@.len(),
                        i <= n,
                        self.member(key@) == lookup(entries@, key@),
                        lookup(entries@, key@) == lookup(entries@.skip(i as int), key@),
                    decreases n - i,
                {
                    assert(entries@.skip(i as int).drop_first() =~= entries@.skip(i + 1));
                    assert(entries@.skip(i as int)[0] == entries@[i as int]);
                    if str_eq(entries[i].0.as_str(), key) {
                        return Some(&entries[i].1);
                    }
                    i = i + 1;
                }
                None
            },
            _ => None,
        }
    }

    /// The text, when this is a string.
    pub fn as_str(&self) -> (r: Option<&str>)
        ensures
            r.is_some() == self.text().is_some(),
            r.is_some() ==> r.unwrap()@ == self.text().unwrap(),
    {
        match self {
            Json::String(s) => Some(s.as_str()),
            _ => None,
        }
    }

    /// The value as `u64`, when it is a non-negative integer.
    pub fn as_u64(&self) -> (r: Option<u64>)
        ensures
            r == self.unsigned(),
    {
        match self {
            Json::Number(JsonNumber::PosInt(n)) => Some(*n),
            _ => None,
        }
    }

    /// The value as `i64`, when it is an integer in range.
    pub fn as_i64(&self) -> (r: Option<i64>)
        ensures
            r == self.signed(),
    {
        match self {
            Json::Number(JsonNumber::PosInt(n)) => {
                if *n <= 0x7fff_ffff_ffff_ffffu64 {
                    Some(*n as i64)
                } else {
                    None
                }
            },
            Json::Number(JsonNumber::NegInt(n)) => Some(*n),
            _ => None,
        }
    }

    /// The value as `bool`, when it is one.
    pub fn as_bool(&self) -> (r: Option<bool>)
        ensures
            r == self.boolean(),
    {
        match self {
            Json::Bool(b) => Some(*b),
            _ => None,
        }
    }

    /// The elements, when this is an array.
    pub fn as_array(&self) -> (r: Option<&Vec<Json>>)
        ensures
            r.is_some() == (*self is Array),
            r.is_some() ==> r.unwrap()@ == self->Array_0@,
    {
        match self {
            Json::Array(a) => Some(a),
            _ => None,
        }
    }

    /// Whether this is `null`.
    pub fn is_null(&self) -> (r: bool)
        ensures
            r == self.spec_is_null(),
    {
        match self {
            Json::Null => true,
            _ => false,
        }
    }

    /// Whether this is an object.
    pub fn is_object(&self) -> (r: bool)
        ensures
            r == self.spec_is_object(),
    {
        match self {
            Json::Object(_) => true,
            _ => false,
        }
    }
}

} // verus!

verus! {

/// The text under `key`.
pub open spec fn text_member(v: Json, key: Seq<char>) -> Option<Seq<char>> {
    match v.member(key) {
        Some(m) => m.text(),
        None => None,
    }
}

/// The non-negative integer under `key`.
pub open spec fn unsigned_member(v: Json, key: Seq<char>) -> Option<u64> {
    match v.member(key) {
        Some(m) => m.unsigned(),
        None => None,
    }
}

/// The integer under `key`, when it fits in 64 signed bits.
pub open spec fn signed_member(v: Json, key: Seq<char>) -> Option<i64> {
    match v.member(key) {
        Some(m) => m.signed(),
        None => None,
    }
}

/// The boolean under `key`.
pub open spec fn bool_member(v: Json, key: Seq<char>) -> Option<bool> {
    match v.member(key) {
        Some(m) => m.boolean(),
        None => None,
    }
}

/// The text under `key`.
pub fn text_of<'a>(v: &'a Json, key: &str) -> (r: Option<&'a str>)
    ensures
        r.is_some() == text_member(*v, key@).is_some(),
        r.is_some() ==> r.unwrap()@ == text_member(*v, key@).unwrap(),
{
    match v.get(key) {
        Some(m) => m.as_str(),
        None => None,
    }
}

/// The non-negative integer under `key`.
pub fn unsigned_of(v: &Json, key: &str) -> (r: Option<u64>)
    ensures
        r == unsigned_member(*v, key@),
{
    match v.get(key) {
        Some(m) => m.as_u64(),
        None => None,
    }
}

/// The integer under `key`.
pub fn signed_of(v: &Json, key: &str) -> (r: Option<i64>)
    ensures
        r == signed_member(*v, key@),
{
    match v.get(key) {
        Some(m) => m.as_i64(),
        None => None,
    }
}

/// The boolean under `key`.
pub fn bool_of(v: &Json, key: &str) -> (r: Option<bool>)
    ensures
        r == bool_member(*v, key@),
{
    match v.get(key) {
        Some(m) => m.as_bool(),
        None => None,
    }
}

} // verus!
