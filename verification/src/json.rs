//! JSON values as the rest of the library sees them.
//!
//! Document bodies and token payloads are `serde_json::Value`s. The library
//! never looks inside one directly: it reads and writes through the few
//! functions of this module. Each of them makes one call into `serde_json`;
//! its contract is stated over the spec functions below and is trusted, not
//! proved. Everything built on top of them is verified.

use vstd::prelude::*;

verus! {

#[verifier::external_type_specification]
#[verifier::external_body]
pub struct ExValue(serde_json::Value);

#[verifier::external_type_specification]
#[verifier::external_body]
pub struct ExJsonError(serde_json::Error);

/// Whether `v` is a JSON object.
pub uninterp spec fn json_is_object(v: serde_json::Value) -> bool;

/// The member stored under `key` when `doc` is a JSON object that has one.
pub uninterp spec fn json_member(doc: serde_json::Value, key: Seq<char>) -> Option<
    serde_json::Value,
>;

/// The characters of `v` when it is a JSON string.
pub uninterp spec fn json_text(v: serde_json::Value) -> Option<Seq<char>>;

/// The number `v` when it is a JSON integer that fits in 64 unsigned bits.
pub uninterp spec fn json_number(v: serde_json::Value) -> Option<u64>;

/// The truth value `v` when it is a JSON boolean.
pub uninterp spec fn json_flag(v: serde_json::Value) -> Option<bool>;

/// The elements of `v` when it is a JSON array.
pub uninterp spec fn json_items(v: serde_json::Value) -> Option<Seq<serde_json::Value>>;

/// The value that JSON bytes stand for, when they are well formed.
pub uninterp spec fn json_of_bytes(bytes: Seq<u8>) -> Option<serde_json::Value>;

/// The compact JSON bytes of `v`.
pub uninterp spec fn json_bytes(v: serde_json::Value) -> Seq<u8>;

/// The value that a JSON text stands for, when it is well formed.
pub uninterp spec fn json_parsed(text: Seq<char>) -> Option<serde_json::Value>;

/// The indented JSON text of `v`.
pub uninterp spec fn json_rendered(v: serde_json::Value) -> Seq<char>;

/// Trusted: `serde_json::Value::get` with a string key returns the member of
/// an object under that key, and `None` for a missing key or for a value that
/// is no object.
#[verifier::external_body]
pub(crate) fn member<'a>(doc: &'a serde_json::Value, key: &str) -> (r: Option<
    &'a serde_json::Value,
>)
    ensures
        match r {
            Some(v) => json_member(*doc, key@) == Some(*v) && json_is_object(*doc),
            None => json_member(*doc, key@) is None,
        },
{
    doc.get(key)
}

/// Trusted: `serde_json::Value::as_str` returns the text of a JSON string and
/// `None` for every other kind of value.
#[verifier::external_body]
pub(crate) fn text<'a>(v: &'a serde_json::Value) -> (r: Option<&'a str>)
    ensures
        match r {
            Some(s) => json_text(*v) == Some(s@),
            None => json_text(*v) is None,
        },
{
    v.as_str()
}

/// Trusted: `serde_json::Value::as_u64` returns a JSON integer that fits in
/// 64 unsigned bits and `None` for every other value.
#[verifier::external_body]
pub(crate) fn number(v: &serde_json::Value) -> (r: Option<u64>)
    ensures
        r == json_number(*v),
{
    v.as_u64()
}

/// Trusted: `serde_json::Value::as_bool` returns a JSON boolean and `None`
/// for every other value.
#[verifier::external_body]
pub(crate) fn flag(v: &serde_json::Value) -> (r: Option<bool>)
    ensures
        r == json_flag(*v),
{
    v.as_bool()
}

/// Trusted: `serde_json::Value::as_array` returns the elements of a JSON
/// array and `None` for every other value.
#[verifier::external_body]
pub(crate) fn items<'a>(v: &'a serde_json::Value) -> (r: Option<&'a Vec<serde_json::Value>>)
    ensures
        match r {
            Some(list) => json_items(*v) == Some(list@),
            None => json_items(*v) is None,
        },
{
    v.as_array()
}

/// Trusted: the JSON value `null` is no object, string, number, boolean or
/// array.
#[verifier::external_body]
pub(crate) fn null() -> (r: serde_json::Value)
    ensures
        !json_is_object(r),
        json_text(r) is None,
        json_number(r) is None,
        json_flag(r) is None,
        json_items(r) is None,
        forall|k: Seq<char>| json_member(r, k) is None,
{
    serde_json::Value::Null
}

/// Trusted: `Value::from` of a string is the JSON string with those
/// characters.
#[verifier::external_body]
pub(crate) fn from_text(s: &str) -> (r: serde_json::Value)
    ensures
        json_text(r) == Some(s@),
{
    serde_json::Value::from(s)
}

/// Trusted: `Value::from` of a `u64` is a JSON number that `as_u64` reads
/// back unchanged.
#[verifier::external_body]
pub(crate) fn from_number(n: u64) -> (r: serde_json::Value)
    ensures
        json_number(r) == Some(n),
{
    serde_json::Value::from(n)
}

/// Trusted: `Value::from` of a `bool` is the JSON boolean with that value.
#[verifier::external_body]
pub(crate) fn from_flag(b: bool) -> (r: serde_json::Value)
    ensures
        json_flag(r) == Some(b),
{
    serde_json::Value::from(b)
}

/// Trusted: the clone of a `Value` is the same value.
pub assume_specification[ <serde_json::Value as Clone>::clone ](v: &serde_json::Value) -> (r:
    serde_json::Value)
    ensures
        r == *v,
;

/// Trusted: `Value::Array` holds exactly the elements it was made of.
#[verifier::external_body]
pub(crate) fn from_items(list: Vec<serde_json::Value>) -> (r: serde_json::Value)
    ensures
        json_items(r) == Some(list@),
{
    serde_json::Value::Array(list)
}

/// Trusted: `Value::Object` of a new `Map` is an object without members.
#[verifier::external_body]
pub(crate) fn object() -> (r: serde_json::Value)
    ensures
        json_is_object(r),
        forall|k: Seq<char>| json_member(r, k) is None,
{
    serde_json::Value::Object(serde_json::Map::new())
}

/// Trusted: assigning through `IndexMut` with a string key on an object
/// stores the value under that key and leaves every other member as it was.
/// On a value that is neither an object nor `null` the assignment panics,
/// which the precondition excludes.
#[verifier::external_body]
pub(crate) fn set_member(doc: &mut serde_json::Value, key: &str, value: serde_json::Value)
    requires
        json_is_object(*old(doc)),
    ensures
        json_is_object(*final(doc)),
        json_member(*final(doc), key@) == Some(value),
        forall|k: Seq<char>| k != key@ ==> json_member(*final(doc), k) == json_member(*old(doc), k),
{
    doc[key] = value;
}

/// Trusted: `serde_json::from_str` gives the value that a text stands for,
/// the same value for the same text, or an error for a malformed text.
#[verifier::external_body]
pub(crate) fn parse(text: &str) -> (r: Result<serde_json::Value, serde_json::Error>)
    ensures
        match r {
            Ok(v) => json_parsed(text@) == Some(v),
            Err(_) => json_parsed(text@) is None,
        },
{
    serde_json::from_str(text)
}

/// Trusted: `serde_json::to_string_pretty` gives the indented text of a
/// value, the same text for the same value. It writes into memory, and a
/// value has nothing in it that cannot be written, so it does not fail.
#[verifier::external_body]
pub(crate) fn render(v: &serde_json::Value) -> (r: Result<String, serde_json::Error>)
    ensures
        r is Ok,
        r matches Ok(s) ==> json_rendered(*v) == s@,
{
    serde_json::to_string_pretty(v)
}

/// Trusted: `serde_json::from_slice` gives the value that JSON bytes stand
/// for, the same value for the same bytes, or an error for malformed bytes.
#[verifier::external_body]
pub(crate) fn from_bytes(bytes: &[u8]) -> (r: Result<serde_json::Value, serde_json::Error>)
    ensures
        match r {
            Ok(v) => json_of_bytes(bytes@) == Some(v),
            Err(_) => json_of_bytes(bytes@) is None,
        },
{
    serde_json::from_slice(bytes)
}

/// Trusted: `serde_json::to_vec` gives the compact JSON bytes of a value, the
/// same bytes for the same value. It writes into memory, and a value has
/// nothing in it that cannot be written, so it does not fail.
#[verifier::external_body]
pub(crate) fn to_bytes(v: &serde_json::Value) -> (r: Result<Vec<u8>, serde_json::Error>)
    ensures
        r is Ok,
        r matches Ok(b) ==> json_bytes(*v) == b@,
{
    serde_json::to_vec(v)
}

/// The message of a `serde_json` error, as its `Display` writes it.
#[verifier::external_body]
pub(crate) fn error_text(e: &serde_json::Error) -> (r: String) {
    e.to_string()
}

/// The text under `key` of an object, if that member is a string.
pub open spec fn text_at(doc: serde_json::Value, key: Seq<char>) -> Option<Seq<char>> {
    match json_member(doc, key) {
        Some(v) => json_text(v),
        None => None,
    }
}

/// The number under `key` of an object, if that member is an unsigned integer.
pub open spec fn number_at(doc: serde_json::Value, key: Seq<char>) -> Option<u64> {
    match json_member(doc, key) {
        Some(v) => json_number(v),
        None => None,
    }
}

/// The boolean under `key` of an object, if that member is one.
pub open spec fn flag_at(doc: serde_json::Value, key: Seq<char>) -> Option<bool> {
    match json_member(doc, key) {
        Some(v) => json_flag(v),
        None => None,
    }
}

/// The elements under `key` of an object, if that member is an array.
pub open spec fn items_at(doc: serde_json::Value, key: Seq<char>) -> Option<
    Seq<serde_json::Value>,
> {
    match json_member(doc, key) {
        Some(v) => json_items(v),
        None => None,
    }
}

/// `after` has the members of `before`, but for the one under `key`.
pub open spec fn members_kept(
    before: serde_json::Value,
    after: serde_json::Value,
    key: Seq<char>,
) -> bool {
    forall|k: Seq<char>| k != key ==> json_member(after, k) == json_member(before, k)
}

/// Stores a text under `key`.
pub fn put_text(doc: &mut serde_json::Value, key: &str, value: &str)
    requires
        json_is_object(*old(doc)),
    ensures
        json_is_object(*final(doc)),
        text_at(*final(doc), key@) == Some(value@),
        members_kept(*old(doc), *final(doc), key@),
{
    set_member(doc, key, from_text(value));
}

/// Stores a text under `key`, or nothing where there is none to store.
pub fn put_opt_text(doc: &mut serde_json::Value, key: &str, value: &Option<String>)
    requires
        json_is_object(*old(doc)),
        json_member(*old(doc), key@) is None,
    ensures
        json_is_object(*final(doc)),
        text_at(*final(doc), key@) == crate::text::opt_view(*value),
        members_kept(*old(doc), *final(doc), key@),
{
    match value {
        Some(s) => {
            set_member(doc, key, from_text(s.as_str()));
        },
        None => {},
    }
}

/// Stores a number under `key`.
pub fn put_number(doc: &mut serde_json::Value, key: &str, value: u64)
    requires
        json_is_object(*old(doc)),
    ensures
        json_is_object(*final(doc)),
        number_at(*final(doc), key@) == Some(value),
        members_kept(*old(doc), *final(doc), key@),
{
    set_member(doc, key, from_number(value));
}

/// Stores a number under `key`, or nothing where there is none to store.
pub fn put_opt_number(doc: &mut serde_json::Value, key: &str, value: Option<u64>)
    requires
        json_is_object(*old(doc)),
        json_member(*old(doc), key@) is None,
    ensures
        json_is_object(*final(doc)),
        number_at(*final(doc), key@) == value,
        members_kept(*old(doc), *final(doc), key@),
{
    match value {
        Some(n) => {
            set_member(doc, key, from_number(n));
        },
        None => {},
    }
}

/// Stores a boolean under `key`.
pub fn put_flag(doc: &mut serde_json::Value, key: &str, value: bool)
    requires
        json_is_object(*old(doc)),
    ensures
        json_is_object(*final(doc)),
        flag_at(*final(doc), key@) == Some(value),
        members_kept(*old(doc), *final(doc), key@),
{
    set_member(doc, key, from_flag(value));
}

/// Stores a boolean under `key`, or nothing where there is none to store.
pub fn put_opt_flag(doc: &mut serde_json::Value, key: &str, value: Option<bool>)
    requires
        json_is_object(*old(doc)),
        json_member(*old(doc), key@) is None,
    ensures
        json_is_object(*final(doc)),
        flag_at(*final(doc), key@) == value,
        members_kept(*old(doc), *final(doc), key@),
{
    match value {
        Some(b) => {
            set_member(doc, key, from_flag(b));
        },
        None => {},
    }
}

/// Reads the string member `key` of `doc`.
pub fn get_text(doc: &serde_json::Value, key: &str) -> (r: Option<String>)
    ensures
        match r {
            Some(s) => text_at(*doc, key@) == Some(s@) && json_is_object(*doc),
            None => text_at(*doc, key@) is None,
        },
{
    match member(doc, key) {
        Some(v) => match text(v) {
            Some(s) => Some(s.to_owned()),
            None => None,
        },
        None => None,
    }
}

/// Reads the unsigned integer member `key` of `doc`.
pub fn get_number(doc: &serde_json::Value, key: &str) -> (r: Option<u64>)
    ensures
        r == number_at(*doc, key@),
{
    match member(doc, key) {
        Some(v) => number(v),
        None => None,
    }
}

/// Reads the boolean member `key` of `doc`.
pub fn get_flag(doc: &serde_json::Value, key: &str) -> (r: Option<bool>)
    ensures
        r == flag_at(*doc, key@),
{
    match member(doc, key) {
        Some(v) => flag(v),
        None => None,
    }
}

/// Reads the array member `key` of `doc`.
pub fn get_items<'a>(doc: &'a serde_json::Value, key: &str) -> (r: Option<
    &'a Vec<serde_json::Value>,
>)
    ensures
        match r {
            Some(list) => items_at(*doc, key@) == Some(list@),
            None => items_at(*doc, key@) is None,
        },
{
    match member(doc, key) {
        Some(v) => items(v),
        None => None,
    }
}

} // verus!
