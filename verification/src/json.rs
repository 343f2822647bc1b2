//! The JSON that the protocol reads and writes. Reading and string escaping
//! are `serde_json`'s; the objects that this kernel sends are composed here.

use crate::text::{chars_of, decimal, join, joined_by, push_chars, push_decimal, string_of, views};
use vstd::prelude::*;

verus! {

/// Whether `serde_json` reads the bytes as one JSON value.
pub uninterp spec fn is_json(bytes: Seq<u8>) -> bool;

/// The text under `field` where the bytes are a JSON object that holds a
/// string there, as `serde_json` reads them.
pub uninterp spec fn text_field(bytes: Seq<u8>, field: Seq<char>) -> Option<Seq<char>>;

/// The truth value under `field` where the bytes are a JSON object that
/// holds a boolean there, as `serde_json` reads them.
pub uninterp spec fn bool_field(bytes: Seq<u8>, field: Seq<char>) -> Option<bool>;

/// The number under `field` where the bytes are a JSON object that holds a
/// non-negative integer below 2^64 there, as `serde_json` reads them.
pub uninterp spec fn number_field(bytes: Seq<u8>, field: Seq<char>) -> Option<u64>;

/// Whether the bytes are a JSON object with a member `field`, as
/// `serde_json` reads them.
pub uninterp spec fn has_field(bytes: Seq<u8>, field: Seq<char>) -> bool;

/// The members of the object under `field`, in `serde_json`'s key order, each
/// with its text where it is a string; empty where there is no such object.
pub uninterp spec fn text_entries(bytes: Seq<u8>, field: Seq<char>) -> Seq<
    (Seq<char>, Option<Seq<char>>),
>;

/// A text as a JSON string literal, quotes and escapes included, as
/// `serde_json` writes it.
pub uninterp spec fn quoted(text: Seq<char>) -> Seq<char>;

/// One member as plain values.
pub open spec fn entry_view(e: (String, Option<String>)) -> (Seq<char>, Option<Seq<char>>) {
    (
        e.0@,
        match e.1 {
            Some(t) => Some(t@),
            None => None,
        },
    )
}

/// The members as plain values.
pub open spec fn entry_views(entries: Seq<(String, Option<String>)>) -> Seq<
    (Seq<char>, Option<Seq<char>>),
> {
    entries.map_values(|e: (String, Option<String>)| entry_view(e))
}

/// Trusted: `serde_json::from_slice` into a `Value`. Says whether the bytes
/// parse; the answer depends on the bytes alone.
#[verifier::external_body]
pub(crate) fn json_is_valid(bytes: &[u8]) -> (r: bool)
    ensures
        r == is_json(bytes@),
{
    serde_json::from_slice::<serde_json::Value>(bytes).is_ok()
}

/// Trusted: `serde_json::from_slice`, `Value::get` and `Value::as_str`.
/// The string under a key of the parsed object, if all three succeed.
#[verifier::external_body]
pub(crate) fn json_text_field(bytes: &[u8], field: &str) -> (r: Option<String>)
    ensures
        match r {
            Some(t) => text_field(bytes@, field@) == Some(t@),
            None => text_field(bytes@, field@).is_none(),
        },
{
    let value = serde_json::from_slice::<serde_json::Value>(bytes).ok()?;
    value.get(field)?.as_str().map(|s| s.to_string())
}

/// Trusted: `serde_json::from_slice`, `Value::get` and `Value::as_bool`.
/// The boolean under a key of the parsed object, if all three succeed.
#[verifier::external_body]
pub(crate) fn json_bool_field(bytes: &[u8], field: &str) -> (r: Option<bool>)
    ensures
        r == bool_field(bytes@, field@),
{
    let value = serde_json::from_slice::<serde_json::Value>(bytes).ok()?;
    value.get(field)?.as_bool()
}

/// Trusted: `serde_json::from_slice`, `Value::get` and `Value::as_u64`.
/// The unsigned integer under a key of the parsed object, if all three
/// succeed.
#[verifier::external_body]
pub(crate) fn json_number_field(bytes: &[u8], field: &str) -> (r: Option<u64>)
    ensures
        r == number_field(bytes@, field@),
{
    let value = serde_json::from_slice::<serde_json::Value>(bytes).ok()?;
    value.get(field)?.as_u64()
}

/// Trusted: `serde_json::from_slice` and `Value::get`. Whether the parsed
/// value has a member under the key.
#[verifier::external_body]
pub(crate) fn json_has_field(bytes: &[u8], field: &str) -> (r: bool)
    ensures
        r == has_field(bytes@, field@),
{
    match serde_json::from_slice::<serde_json::Value>(bytes) {
        Ok(value) => value.get(field).is_some(),
        Err(_) => false,
    }
}

/// Trusted: `serde_json::from_slice`, `Value::get`, `Value::as_object` and
/// `Map::iter`. The members of the object under a key, each value through
/// `Value::as_str`; no members where a step fails.
#[verifier::external_body]
pub(crate) fn json_text_entries(bytes: &[u8], field: &str) -> (r: Vec<(String, Option<String>)>)
    ensures
        entry_views(r@) == text_entries(bytes@, field@),
{
    let value = serde_json::from_slice::<serde_json::Value>(bytes).ok();
    match value.as_ref().and_then(|v| v.get(field)).and_then(|v| v.as_object()) {
        Some(map) => map.iter().map(|(k, v)| (k.clone(), v.as_str().map(|s| s.to_string()))).collect(),
        None => Vec::new(),
    }
}

/// Trusted: `serde_json::to_string` on a string slice, which writes the
/// text between double quotes with JSON's escapes and does not fail.
#[verifier::external_body]
pub(crate) fn json_quote(text: &str) -> (r: String)
    ensures
        r@ == quoted(text@),
{
    serde_json::to_string(text).unwrap_or_default()
}

/// One member of an object: the quoted key, a colon, the value's JSON text.
pub open spec fn member(key: Seq<char>, value: Seq<char>) -> Seq<char> {
    quoted(key) + seq![':'] + value
}

/// A JSON object in compact form: members in the order given, separated by
/// commas; the values are JSON text already.
pub open spec fn object(fields: Seq<(Seq<char>, Seq<char>)>) -> Seq<char> {
    seq!['{'] + joined_by(
        fields.map_values(|f: (Seq<char>, Seq<char>)| member(f.0, f.1)),
        seq![','],
    ) + seq!['}']
}

/// A JSON array in compact form; the items are JSON text already.
pub open spec fn array(items: Seq<Seq<char>>) -> Seq<char> {
    seq!['['] + joined_by(items, seq![',']) + seq![']']
}

/// The JSON text of a truth value.
pub open spec fn boolean(b: bool) -> Seq<char> {
    if b {
        "true"@
    } else {
        "false"@
    }
}

/// One member of an object that is being written: its key, and its value as
/// JSON text.
pub struct Field {
    pub key: Vec<char>,
    pub value: Vec<char>,
}

/// The members as pairs of texts.
pub open spec fn field_views(fields: Seq<Field>) -> Seq<(Seq<char>, Seq<char>)> {
    fields.map_values(|f: Field| (f.key@, f.value@))
}

/// A member from its key and its value's JSON text.
pub fn field(key: &str, value: Vec<char>) -> (f: Field)
    ensures
        f.key@ == key@,
        f.value@ == value@,
{
    Field { key: chars_of(key), value }
}

/// The JSON text of a string.
pub fn text_value(text: &str) -> (out: Vec<char>)
    ensures
        out@ == quoted(text@),
{
    let q = json_quote(text);
    chars_of(q.as_str())
}

/// The JSON text of a truth value.
pub fn bool_value(b: bool) -> (out: Vec<char>)
    ensures
        out@ == boolean(b),
{
    if b {
        chars_of("true")
    } else {
        chars_of("false")
    }
}

/// The JSON text of a number.
pub fn number_value(n: u64) -> (out: Vec<char>)
    ensures
        out@ == decimal(n as nat),
{
    let mut out: Vec<char> = Vec::new();
    push_decimal(&mut out, n);
    assert(out@ =~= decimal(n as nat));
    out
}

/// The JSON text `null`.
pub fn null_value() -> (out: Vec<char>)
    ensures
        out@ == "null"@,
{
    chars_of("null")
}

/// Writes an array of items that are JSON text already.
pub fn write_array(items: &Vec<Vec<char>>) -> (out: Vec<char>)
    ensures
        out@ == array(views(items@)),
{
    let mut sep: Vec<char> = Vec::new();
    sep.push(',');
    assert(sep@ =~= seq![',']);
    let inner = join(items, sep.as_slice());
    let mut out: Vec<char> = Vec::new();
    out.push('[');
    push_chars(&mut out, inner.as_slice());
    out.push(']');
    assert(out@ =~= array(views(items@)));
    out
}

/// Writes an object.
pub fn write_object(fields: &Vec<Field>) -> (out: Vec<char>)
    ensures
        out@ == object(field_views(fields@)),
{
    let ghost wanted = field_views(fields@).map_values(
        |f: (Seq<char>, Seq<char>)| member(f.0, f.1),
    );
    let mut parts: Vec<Vec<char>> = Vec::new();
    let mut i: usize = 0;
    while i < fields.len()
        invariant
            i <= fields.len(),
            wanted == field_views(fields@).map_values(
                |f: (Seq<char>, Seq<char>)| member(f.0, f.1),
            ),
            views(parts@) == wanted.subrange(0, i as int),
        decreases fields.len() - i,
    {
        let ghost before = views(parts@);
        let key = string_of(fields[i].key.as_slice());
        let mut part = text_value(key.as_str());
        part.push(':');
        push_chars(&mut part, fields[i].value.as_slice());
        assert(part@ =~= wanted[i as int]);
        parts.push(part);
        assert(views(parts@) =~= before.push(part@));
        i += 1;
        assert(views(parts@) =~= wanted.subrange(0, i as int));
    }
    assert(wanted.subrange(0, fields@.len() as int) =~= wanted);
    let mut sep: Vec<char> = Vec::new();
    sep.push(',');
    assert(sep@ =~= seq![',']);
    let inner = join(&parts, sep.as_slice());
    let mut out: Vec<char> = Vec::new();
    out.push('{');
    push_chars(&mut out, inner.as_slice());
    out.push('}');
    assert(out@ =~= object(field_views(fields@)));
    out
}

/// The UTF-8 bytes of a text.
pub fn to_bytes(text: &[char]) -> (out: Vec<u8>)
    ensures
        out@ == vstd::utf8::encode_utf8(text@),
{
    let s = string_of(text);
    vstd::slice::slice_to_vec(s.as_str().as_bytes())
}

} // verus!
