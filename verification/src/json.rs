//! JSON values, as `serde_json` reads, holds and writes them.
//!
//! A [`serde_json::Value`] is seen through [`json_of`], which gives what it holds as a [`Json`].

use vstd::prelude::*;

use crate::text;

verus! {

/// What a JSON value holds. A number is given by the characters it is written with, an object by
/// its members.
pub enum Json {
    Null,
    Bool(bool),
    Number(Seq<char>),
    Text(Seq<char>),
    Array(Seq<Json>),
    Object(Map<Seq<char>, Json>),
}

impl Json {
    /// The member `key` of an object; nothing where it has none or where this is no object.
    pub open spec fn member(self, key: Seq<char>) -> Option<Json> {
        match self {
            Json::Object(m) => if m.contains_key(key) {
                Some(m[key])
            } else {
                None
            },
            _ => None,
        }
    }

    /// The item of an array at an index; nothing where it has none or where this is no array.
    pub open spec fn item(self, index: int) -> Option<Json> {
        match self {
            Json::Array(s) => if 0 <= index < s.len() {
                Some(s[index])
            } else {
                None
            },
            _ => None,
        }
    }

    /// The characters of a text; nothing for any other value.
    pub open spec fn as_text(self) -> Option<Seq<char>> {
        match self {
            Json::Text(s) => Some(s),
            _ => None,
        }
    }

    /// The truth value of a Boolean; nothing for any other value.
    pub open spec fn as_flag(self) -> Option<bool> {
        match self {
            Json::Bool(b) => Some(b),
            _ => None,
        }
    }

    /// An object all of whose members are texts.
    pub open spec fn texts_only(self) -> bool {
        self matches Json::Object(m) && forall|k: Seq<char>| #[trigger]
            m.contains_key(k) ==> m[k] is Text
    }
}

/// A value of `serde_json`.
#[verifier::external_type_specification]
#[verifier::external_body]
pub struct ExValue(serde_json::Value);

/// The error of `serde_json`.
#[verifier::external_type_specification]
#[verifier::external_body]
pub struct ExError(serde_json::Error);

/// What a value of `serde_json` holds.
pub uninterp spec fn json_of(v: serde_json::Value) -> Json;

/// What `serde_json::from_str` reads from a text; nothing where the text is no JSON.
pub uninterp spec fn json_read(s: Seq<char>) -> Option<Json>;

/// The compact form in which `serde_json` writes a value.
pub uninterp spec fn json_written(j: Json) -> Seq<char>;

/// The members in order, each one replacing an earlier one with the same key.
pub open spec fn collected(members: Seq<(String, serde_json::Value)>) -> Map<Seq<char>, Json>
    decreases members.len(),
{
    if members.len() == 0 {
        Map::empty()
    } else {
        collected(members.drop_last()).insert(members.last().0@, json_of(members.last().1))
    }
}

/// The members of an object of one member.
pub(crate) proof fn lemma_collected_1(s: Seq<(String, serde_json::Value)>)
    requires
        s.len() == 1,
    ensures
        collected(s) == Map::<Seq<char>, Json>::empty()
            .insert(s[0].0@, json_of(s[0].1)),
{
    assert(s.drop_last() =~= Seq::empty());
    assert(collected(s.drop_last()) =~= Map::empty());
}

/// The members of an object of two members.
pub(crate) proof fn lemma_collected_2(s: Seq<(String, serde_json::Value)>)
    requires
        s.len() == 2,
    ensures
        collected(s) == Map::<Seq<char>, Json>::empty()
            .insert(s[0].0@, json_of(s[0].1))
            .insert(s[1].0@, json_of(s[1].1)),
{
    lemma_collected_1(s.drop_last());
}

/// The members of an object of three members.
pub(crate) proof fn lemma_collected_3(s: Seq<(String, serde_json::Value)>)
    requires
        s.len() == 3,
    ensures
        collected(s) == Map::<Seq<char>, Json>::empty()
            .insert(s[0].0@, json_of(s[0].1))
            .insert(s[1].0@, json_of(s[1].1))
            .insert(s[2].0@, json_of(s[2].1)),
{
    lemma_collected_2(s.drop_last());
}

/// The members of an object of four members.
pub(crate) proof fn lemma_collected_4(s: Seq<(String, serde_json::Value)>)
    requires
        s.len() == 4,
    ensures
        collected(s) == Map::<Seq<char>, Json>::empty()
            .insert(s[0].0@, json_of(s[0].1))
            .insert(s[1].0@, json_of(s[1].1))
            .insert(s[2].0@, json_of(s[2].1))
            .insert(s[3].0@, json_of(s[3].1)),
{
    lemma_collected_3(s.drop_last());
}

/// One digit, a decimal point and one digit.
pub open spec fn tenths(s: Seq<char>) -> bool {
    s.len() == 3 && '0' <= s[0] <= '9' && s[1] == '.' && '0' <= s[2] <= '9'
}

/// `serde_json::from_str` reads the value that the text is the JSON of, and fails where it is the
/// JSON of none. A number with one digit before and one behind the point is read, and is written
/// as it was.
#[verifier::external_body]
pub(crate) fn read(s: &str) -> (r: Result<serde_json::Value, serde_json::Error>)
    ensures
        r is Ok <==> json_read(s@) is Some,
        r is Ok ==> json_read(s@) == Some(json_of(r->Ok_0)),
        r is Ok || !tenths(s@),
        r is Ok && tenths(s@) ==> json_of(r->Ok_0) == Json::Number(s@),
{
    serde_json::from_str(s)
}

/// `Display` of `serde_json::Value` writes the value in its compact form, in which no character
/// below the space stands. An object of texts is read back as it was.
#[verifier::external_body]
pub(crate) fn written(v: &serde_json::Value) -> (r: String)
    ensures
        r@ == json_written(json_of(*v)),
        forall|i: int| 0 <= i < r@.len() ==> #[trigger] r@[i] >= ' ',
        json_of(*v).texts_only() ==> json_read(r@) == Some(json_of(*v)),
{
    v.to_string()
}

/// `serde_json::Value::from` makes a text of a string.
#[verifier::external_body]
pub(crate) fn text_value(s: &str) -> (r: serde_json::Value)
    ensures
        json_of(r) == Json::Text(s@),
{
    serde_json::Value::from(s)
}

/// `serde_json::Value::from` makes a Boolean of a truth value.
#[verifier::external_body]
pub(crate) fn flag_value(b: bool) -> (r: serde_json::Value)
    ensures
        json_of(r) == Json::Bool(b),
{
    serde_json::Value::from(b)
}

/// `serde_json::Value::from` makes a number of an unsigned integer, written in decimal digits.
#[verifier::external_body]
pub(crate) fn number_value(n: u32) -> (r: serde_json::Value)
    ensures
        json_of(r) == Json::Number(text::decimal(n as nat)),
{
    serde_json::Value::from(n)
}

/// `serde_json::Value::from` makes an array of the items.
#[verifier::external_body]
pub(crate) fn array_value(items: Vec<serde_json::Value>) -> (r: serde_json::Value)
    ensures
        json_of(r) == Json::Array(items@.map_values(|v: serde_json::Value| json_of(v))),
{
    serde_json::Value::from(items)
}

/// `serde_json::Value::from_iter` collects the members into an object.
#[verifier::external_body]
pub(crate) fn object_value(members: Vec<(String, serde_json::Value)>) -> (r: serde_json::Value)
    ensures
        json_of(r) == Json::Object(collected(members@)),
{
    serde_json::Value::from_iter(members)
}

/// `serde_json::Value::get` with a key gives the member of an object.
#[verifier::external_body]
pub(crate) fn member<'a>(v: &'a serde_json::Value, key: &str) -> (r: Option<&'a serde_json::Value>)
    ensures
        (match r {
            Some(m) => json_of(*v).member(key@) == Some(json_of(*m)),
            None => json_of(*v).member(key@) is None,
        }),
{
    v.get(key)
}

/// `serde_json::Value::get` with an index gives the item of an array.
#[verifier::external_body]
pub(crate) fn item<'a>(v: &'a serde_json::Value, index: usize) -> (r: Option<&'a serde_json::Value>)
    ensures
        (match r {
            Some(m) => json_of(*v).item(index as int) == Some(json_of(*m)),
            None => json_of(*v).item(index as int) is None,
        }),
{
    v.get(index)
}

/// `serde_json::Value::as_str` gives the characters of a text.
pub assume_specification[ serde_json::Value::as_str ](v: &serde_json::Value) -> (r: Option<&str>)
    ensures
        (match r {
            Some(s) => json_of(*v).as_text() == Some(s@),
            None => json_of(*v).as_text() is None,
        }),
;

/// `serde_json::Value::as_bool` gives the truth value of a Boolean.
pub assume_specification[ serde_json::Value::as_bool ](v: &serde_json::Value) -> (r: Option<bool>)
    ensures
        r == json_of(*v).as_flag(),
;

/// The text of the member `key`, where it is one.
pub fn text_member(v: &serde_json::Value, key: &str) -> (r: Option<String>)
    ensures
        (match r {
            Some(s) => json_of(*v).member(key@) == Some(Json::Text(s@)),
            None => !(json_of(*v).member(key@) matches Some(j) && j is Text),
        }),
{
    match member(v, key) {
        Some(m) => match m.as_str() {
            Some(s) => Some(s.to_owned()),
            None => None,
        },
        None => None,
    }
}

/// The truth value of the member `key`, where it is a Boolean.
pub fn flag_member(v: &serde_json::Value, key: &str) -> (r: Option<bool>)
    ensures
        r == (match json_of(*v).member(key@) {
            Some(j) => j.as_flag(),
            None => None,
        }),
{
    match member(v, key) {
        Some(m) => m.as_bool(),
        None => None,
    }
}

} // verus!
