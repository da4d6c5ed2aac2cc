//! JSON documents as exchanged with the backend.
//!
//! Documents are held as `serde_json::Value`. Verus cannot look inside such a
//! value, so contracts speak of its mathematical content, [`Json`], reached
//! through [`json_of`]. Every function of this module that is marked
//! `external_body` is a thin call into `serde_json` whose contract is taken
//! on trust from that crate's source; nothing else in the crate is trusted
//! about JSON.

use vstd::prelude::*;

verus! {

/// A JSON number.
pub enum Number {
    /// An integer. `serde_json` holds integers from `i64::MIN` to `u64::MAX`.
    Int(int),
    /// A finite binary fraction, named by its IEEE-754 bit pattern.
    Fraction(u64),
}

/// The mathematical content of a JSON document.
pub enum Json {
    Null,
    Bool(bool),
    Number(Number),
    Text(Seq<char>),
    Array(Seq<Json>),
    Object(Map<Seq<char>, Json>),
}

impl Json {
    /// The member `key` of an object. Anything but an object has no members.
    pub open spec fn member(self, key: Seq<char>) -> Option<Json> {
        match self {
            Json::Object(members) => if members.contains_key(key) {
                Some(members[key])
            } else {
                None
            },
            _ => None,
        }
    }

    /// The number as a `u64`: any integer that is not negative.
    pub open spec fn as_u64(self) -> Option<u64> {
        match self {
            Json::Number(Number::Int(i)) => if 0 <= i <= u64::MAX {
                Some(i as u64)
            } else {
                None
            },
            _ => None,
        }
    }

    /// The number as an `i64`: any integer up to `i64::MAX`.
    pub open spec fn as_i64(self) -> Option<i64> {
        match self {
            Json::Number(Number::Int(i)) => if i64::MIN <= i <= i64::MAX {
                Some(i as i64)
            } else {
                None
            },
            _ => None,
        }
    }

    /// The characters of a string.
    pub open spec fn as_text(self) -> Option<Seq<char>> {
        match self {
            Json::Text(t) => Some(t),
            _ => None,
        }
    }

    /// The items of an array.
    pub open spec fn as_items(self) -> Option<Seq<Json>> {
        match self {
            Json::Array(items) => Some(items),
            _ => None,
        }
    }

    /// The member `key` where it is a string.
    pub open spec fn text_member(self, key: Seq<char>) -> Option<Seq<char>> {
        match self.member(key) {
            Some(m) => m.as_text(),
            None => None,
        }
    }

    /// The member `key` where it is an array.
    pub open spec fn items_member(self, key: Seq<char>) -> Option<Seq<Json>> {
        match self.member(key) {
            Some(m) => m.as_items(),
            None => None,
        }
    }

    /// The member `key` where it is an integer that is not negative.
    pub open spec fn u64_member(self, key: Seq<char>) -> Option<u64> {
        match self.member(key) {
            Some(m) => m.as_u64(),
            None => None,
        }
    }

    /// The member `key` where it is an integer up to `i64::MAX`.
    pub open spec fn i64_member(self, key: Seq<char>) -> Option<i64> {
        match self.member(key) {
            Some(m) => m.as_i64(),
            None => None,
        }
    }

    /// The object with `key` set to `value`, whether or not it had such a member.
    /// Anything but an object is left as it is.
    pub open spec fn with_member(self, key: Seq<char>, value: Json) -> Json {
        match self {
            Json::Object(members) => Json::Object(members.insert(key, value)),
            _ => self,
        }
    }
}

/// `serde_json::Value`, which the verifier cannot look into.
#[verifier::external_type_specification]
#[verifier::external_body]
pub struct ExValue(serde_json::Value);

/// `serde_json::Error`, which the verifier cannot look into.
#[verifier::external_type_specification]
#[verifier::external_body]
pub struct ExError(serde_json::Error);

/// The document that a `serde_json::Value` holds.
pub uninterp spec fn json_of(v: serde_json::Value) -> Json;

/// The document that `serde_json::from_slice` reads from `bytes`, `None`
/// where it rejects them.
pub uninterp spec fn parsed(bytes: Seq<u8>) -> Option<Json>;

/// The text that `serde_json::to_string_pretty` writes for a document, `None`
/// where it reports an error.
pub uninterp spec fn pretty(doc: Json) -> Option<Seq<char>>;

/// The documents held by a sequence of values, in order.
pub open spec fn jsons_of(values: Seq<serde_json::Value>) -> Seq<Json> {
    values.map_values(|v: serde_json::Value| json_of(v))
}

/// `serde_json::from_slice::<Value>`. Trusted: the outcome depends on the
/// bytes alone, so it is named by [`parsed`].
#[verifier::external_body]
pub(crate) fn parse(bytes: &[u8]) -> (r: Result<serde_json::Value, serde_json::Error>)
    ensures
        match r {
            Ok(v) => parsed(bytes@) == Some(json_of(v)),
            Err(_) => parsed(bytes@) is None,
        },
{
    serde_json::from_slice(bytes)
}

/// `serde_json::to_string_pretty` on a value. Trusted: the outcome depends on
/// the document alone, so it is named by [`pretty`].
#[verifier::external_body]
pub(crate) fn render(v: &serde_json::Value) -> (r: Result<String, serde_json::Error>)
    ensures
        match r {
            Ok(text) => pretty(json_of(*v)) == Some(text@),
            Err(_) => pretty(json_of(*v)) is None,
        },
{
    serde_json::to_string_pretty(v)
}

/// `Value::get` with a string index. Trusted: it hands out the member of that
/// name where the value is an object that has one, and `None` otherwise.
#[verifier::external_body]
pub(crate) fn member<'a>(v: &'a serde_json::Value, key: &str) -> (r: Option<&'a serde_json::Value>)
    ensures
        match r {
            Some(m) => json_of(*v).member(key@) == Some(json_of(*m)),
            None => json_of(*v).member(key@) is None,
        },
{
    v.get(key)
}

/// `Value::as_u64`. Trusted: `Some` exactly for an integer that is not negative.
#[verifier::external_body]
pub(crate) fn as_u64(v: &serde_json::Value) -> (r: Option<u64>)
    ensures
        r == json_of(*v).as_u64(),
{
    v.as_u64()
}

/// `Value::as_i64`. Trusted: `Some` exactly for an integer up to `i64::MAX`.
#[verifier::external_body]
pub(crate) fn as_i64(v: &serde_json::Value) -> (r: Option<i64>)
    ensures
        r == json_of(*v).as_i64(),
{
    v.as_i64()
}

/// `Value::as_str`. Trusted: `Some` exactly for a string, with its characters.
#[verifier::external_body]
pub(crate) fn as_str<'a>(v: &'a serde_json::Value) -> (r: Option<&'a str>)
    ensures
        match r {
            Some(t) => json_of(*v).as_text() == Some(t@),
            None => json_of(*v).as_text() is None,
        },
{
    v.as_str()
}

/// `Value::as_array`. Trusted: `Some` exactly for an array, with its items in order.
#[verifier::external_body]
pub(crate) fn as_array<'a>(v: &'a serde_json::Value) -> (r: Option<&'a Vec<serde_json::Value>>)
    ensures
        match r {
            Some(items) => json_of(*v).as_items() == Some(jsons_of(items@)),
            None => json_of(*v).as_items() is None,
        },
{
    v.as_array()
}

/// `Value::clone`. Trusted: the copy holds the same document.
#[verifier::external_body]
pub(crate) fn duplicate(v: &serde_json::Value) -> (r: serde_json::Value)
    ensures
        json_of(r) == json_of(*v),
{
    v.clone()
}

/// Assignment through `IndexMut<&str>`. Trusted: on an object it sets the
/// member `key` to `value`, adding it where it is new, and touches nothing
/// else. On other values the outside code may panic; they are left out.
#[verifier::external_body]
pub(crate) fn set_member(v: &mut serde_json::Value, key: &str, value: serde_json::Value)
    requires
        json_of(*old(v)) is Object,
    ensures
        json_of(*final(v)) == json_of(*old(v)).with_member(key@, json_of(value)),
{
    v[key] = value;
}

/// `Value::from` on a string slice. Trusted: a string with the same characters.
#[verifier::external_body]
pub(crate) fn text(s: &str) -> (r: serde_json::Value)
    ensures
        json_of(r) == Json::Text(s@),
{
    serde_json::Value::from(s)
}

/// `Value::from` on a `usize`. Trusted: the integer of that value.
#[verifier::external_body]
pub(crate) fn count(n: usize) -> (r: serde_json::Value)
    ensures
        json_of(r) == Json::Number(Number::Int(n as int)),
{
    serde_json::Value::from(n)
}

/// The variant `Value::Array`. Trusted: an array of the given items, in order.
#[verifier::external_body]
pub(crate) fn array(items: Vec<serde_json::Value>) -> (r: serde_json::Value)
    ensures
        json_of(r) == Json::Array(jsons_of(items@)),
{
    serde_json::Value::Array(items)
}

/// The variant `Value::Null`. Trusted: the document `null`.
#[verifier::external_body]
pub(crate) fn null() -> (r: serde_json::Value)
    ensures
        json_of(r) == Json::Null,
{
    serde_json::Value::Null
}

/// `Value::Object` over `Map::new`. Trusted: an object without members.
#[verifier::external_body]
pub(crate) fn object() -> (r: serde_json::Value)
    ensures
        json_of(r) == Json::Object(Map::empty()),
{
    serde_json::Value::Object(serde_json::Map::new())
}

/// The member `key` of a document where it is a string.
pub fn text_member<'a>(v: &'a serde_json::Value, key: &str) -> (r: Option<&'a str>)
    ensures
        match r {
            Some(t) => json_of(*v).text_member(key@) == Some(t@),
            None => json_of(*v).text_member(key@) is None,
        },
{
    match member(v, key) {
        Some(m) => as_str(m),
        None => None,
    }
}

/// The member `key` of a document where it is an array.
pub fn items_member<'a>(v: &'a serde_json::Value, key: &str) -> (r: Option<
    &'a Vec<serde_json::Value>,
>)
    ensures
        match r {
            Some(items) => json_of(*v).items_member(key@) == Some(jsons_of(items@)),
            None => json_of(*v).items_member(key@) is None,
        },
{
    match member(v, key) {
        Some(m) => as_array(m),
        None => None,
    }
}

/// The member `key` of a document where it is an integer that is not negative.
pub fn u64_member(v: &serde_json::Value, key: &str) -> (r: Option<u64>)
    ensures
        r == json_of(*v).u64_member(key@),
{
    match member(v, key) {
        Some(m) => as_u64(m),
        None => None,
    }
}

/// The member `key` of a document where it is an integer up to `i64::MAX`.
pub fn i64_member(v: &serde_json::Value, key: &str) -> (r: Option<i64>)
    ensures
        r == json_of(*v).i64_member(key@),
{
    match member(v, key) {
        Some(m) => as_i64(m),
        None => None,
    }
}

/// Copies of the given values, in order.
pub fn duplicates(values: &Vec<serde_json::Value>) -> (r: Vec<serde_json::Value>)
    ensures
        jsons_of(r@) == jsons_of(values@),
{
    let mut out: Vec<serde_json::Value> = Vec::new();
    let mut i: usize = 0;
    while i < values.len()
        invariant
            i <= values.len(),
            out@.len() == i,
            forall|k: int| 0 <= k < i ==> json_of(#[trigger] out@[k]) == json_of(values@[k]),
        decreases values.len() - i,
    {
        out.push(duplicate(&values[i]));
        i = i + 1;
    }
    assert(jsons_of(out@) =~= jsons_of(values@));
    out
}

} // verus!
