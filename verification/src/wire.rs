//! The pieces that JSON documents are written from.
//!
//! A document is written as text, member by member and without white space. Strings are
//! quoted and escaped by `serde_json`; the framing is written here.
use vstd::prelude::*;
use vstd::string::StringExecFns;
use crate::text::{decimal_digits, decimal_string};

verus! {

/// The JSON string literal for a text: the text between double quotes, escaped as
/// `serde_json` escapes it.
pub uninterp spec fn json_string(text: Seq<char>) -> Seq<char>;

/// Trusted: `serde_json`'s `Display` for `Value`, on a `Value::String`. The result is the
/// compact JSON literal of the string, which depends on the string alone.
#[verifier::external_body]
pub(crate) fn quote(text: &str) -> (r: String)
    ensures
        r@ == json_string(text@),
{
    serde_json::Value::String(text.to_owned()).to_string()
}

/// The JSON literal of a truth value.
pub open spec fn json_bool(b: bool) -> Seq<char> {
    if b {
        "true"@
    } else {
        "false"@
    }
}

/// The JSON literal of an optional text: `null` when it is absent.
pub open spec fn json_opt_string(text: Option<Seq<char>>) -> Seq<char> {
    match text {
        Some(t) => json_string(t),
        None => "null"@,
    }
}

/// The JSON literal of an optional number: `null` when it is absent.
pub open spec fn json_opt_number(n: Option<u64>) -> Seq<char> {
    match n {
        Some(v) => decimal_digits(v as nat),
        None => "null"@,
    }
}

/// A member of an object: a comma unless it is the first, the key between double quotes,
/// a colon and the value. Keys are plain identifiers and need no escaping.
pub open spec fn member(first: bool, key: Seq<char>, value: Seq<char>) -> Seq<char> {
    (if first {
        Seq::<char>::empty()
    } else {
        ","@
    }) + "\""@ + key + "\":"@ + value
}

/// A member that is left out when its value is absent. It is never the first of its object.
pub open spec fn optional_member(key: Seq<char>, value: Option<Seq<char>>) -> Seq<char> {
    match value {
        Some(v) => member(false, key, v),
        None => Seq::<char>::empty(),
    }
}

/// The elements of an array, separated by commas.
pub open spec fn joined(items: Seq<Seq<char>>) -> Seq<char>
    decreases items.len(),
{
    if items.len() == 0 {
        Seq::<char>::empty()
    } else if items.len() == 1 {
        items[0]
    } else {
        joined(items.drop_last()) + ","@ + items.last()
    }
}

/// An array of already written elements.
pub open spec fn json_array(items: Seq<Seq<char>>) -> Seq<char> {
    "["@ + joined(items) + "]"@
}

/// Writes a truth value.
pub fn bool_text(b: bool) -> (r: &'static str)
    ensures
        r@ == json_bool(b),
{
    if b {
        "true"
    } else {
        "false"
    }
}

/// Writes an optional text.
pub fn opt_string_text(text: Option<&str>) -> (r: String)
    ensures
        r@ == json_opt_string(text.deep_view()),
{
    match text {
        Some(t) => quote(t),
        None => "null".to_owned(),
    }
}

/// Writes an optional number.
pub fn opt_number_text(n: Option<u64>) -> (r: String)
    ensures
        r@ == json_opt_number(n),
{
    match n {
        Some(v) => decimal_string(v),
        None => "null".to_owned(),
    }
}

/// Appends a member to an object that is being written.
pub fn put_member(out: &mut String, first: bool, key: &str, value: &str)
    ensures
        final(out)@ == old(out)@ + member(first, key@, value@),
{
    if !first {
        out.append(",");
    }
    out.append("\"");
    out.append(key);
    out.append("\":");
    out.append(value);
    assert(out@ =~= old(out)@ + member(first, key@, value@));
}

/// The JSON literal of an optional text that is left out when absent.
pub open spec fn opt_json_string(text: Option<Seq<char>>) -> Option<Seq<char>> {
    match text {
        Some(t) => Some(json_string(t)),
        None => None,
    }
}

/// Appends a string member to an object that is being written, unless the string is absent.
pub fn put_optional_string(out: &mut String, key: &str, value: Option<&str>)
    ensures
        final(out)@ == old(out)@ + optional_member(key@, opt_json_string(value.deep_view())),
{
    match value {
        Some(v) => {
            let literal = quote(v);
            put_member(out, false, key, literal.as_str());
        },
        None => {
            assert(out@ =~= old(out)@ + optional_member(
                key@,
                opt_json_string(value.deep_view()),
            ));
        },
    }
}

/// Borrows an optional owned text as an optional slice.
pub fn opt_str(text: &Option<String>) -> (r: Option<&str>)
    ensures
        r.deep_view() == text.deep_view(),
{
    match text {
        Some(t) => Some(t.as_str()),
        None => None,
    }
}

} // verus!
