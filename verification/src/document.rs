//! Reading JSON documents.
//!
//! Text is parsed by `serde_json`. What a parsed value holds is read through a handful of
//! accessors; the functions here turn what those give into the fields of the protocol,
//! and say which error each malformed field yields.
use vstd::prelude::*;
use serde_json::Value;
use crate::errors::{X402Error, X402Result};
use crate::mime::MimeType;
use crate::network::X402SolanaNetworkInfo;
use crate::scheme::PaymentScheme;
use crate::version::X402Version;

verus! {

/// Trusted: `serde_json::Value`, a parsed JSON value. Nothing is known of what is inside
/// one but through the accessors below.
#[verifier::external_type_specification]
#[verifier::external_body]
pub struct ExValue(Value);

/// The members of a JSON object, by key; the empty map for a value that is no object.
pub uninterp spec fn json_members(value: Value) -> Map<Seq<char>, Value>;

/// The elements of a JSON array, in order; `None` for a value that is no array.
pub uninterp spec fn json_elements(value: Value) -> Option<Seq<Value>>;

/// The text of a JSON string; `None` for a value that is no string.
pub uninterp spec fn json_text(value: Value) -> Option<Seq<char>>;

/// The number that a JSON number holds, where it is a whole number from 0 to `u64::MAX`;
/// `None` for every other value.
pub uninterp spec fn json_number(value: Value) -> Option<u64>;

/// The truth value of a JSON boolean; `None` for a value that is no boolean.
pub uninterp spec fn json_flag(value: Value) -> Option<bool>;

/// Whether a value is the JSON `null`.
pub uninterp spec fn json_is_null(value: Value) -> bool;

/// The value that a text holds as JSON; `None` for a text that is not well-formed JSON.
pub uninterp spec fn json_parsed(text: Seq<char>) -> Option<Value>;

/// Trusted: `serde_json::from_str` at `Value`. Whether a text parses, and as what, depends
/// on the text alone.
#[verifier::external_body]
pub(crate) fn parse_document(text: &str) -> (r: Option<Value>)
    ensures
        r == json_parsed(text@),
{
    serde_json::from_str::<Value>(text).ok()
}

/// Trusted: `Value::get` with a string key. It gives the member under the key where the
/// value is an object that has one, and nothing otherwise.
#[verifier::external_body]
pub(crate) fn member<'a>(value: &'a Value, key: &str) -> (r: Option<&'a Value>)
    ensures
        r.is_some() == json_members(*value).contains_key(key@),
        r matches Some(m) ==> *m == json_members(*value)[key@],
{
    value.get(key)
}

/// Trusted: `Value::as_array`. It gives the elements where the value is an array.
#[verifier::external_body]
pub(crate) fn elements(value: &Value) -> (r: Option<&Vec<Value>>)
    ensures
        r.is_some() == json_elements(*value).is_some(),
        r matches Some(items) ==> json_elements(*value) == Some(items@),
{
    value.as_array()
}

/// Trusted: `Value::as_str`. It gives the text where the value is a string.
#[verifier::external_body]
pub(crate) fn as_text(value: &Value) -> (r: Option<&str>)
    ensures
        r.deep_view() == json_text(*value),
{
    value.as_str()
}

/// Trusted: `Value::as_u64`. It gives the number where the value is a whole number that
/// fits in 64 bits without sign.
#[verifier::external_body]
pub(crate) fn as_number(value: &Value) -> (r: Option<u64>)
    ensures
        r == json_number(*value),
{
    value.as_u64()
}

/// Trusted: `Value::as_bool`. It gives the truth value where the value is a boolean.
#[verifier::external_body]
pub(crate) fn as_flag(value: &Value) -> (r: Option<bool>)
    ensures
        r == json_flag(*value),
{
    value.as_bool()
}

/// Trusted: `Value::is_null`.
#[verifier::external_body]
pub(crate) fn is_null(value: &Value) -> (r: bool)
    ensures
        r == json_is_null(*value),
{
    value.is_null()
}

/// Trusted: `serde_json::Map`, the members of a JSON object.
#[verifier::external_type_specification]
#[verifier::external_body]
#[verifier::reject_recursive_types(K)]
#[verifier::reject_recursive_types(V)]
pub struct ExMembers<K, V>(serde_json::Map<K, V>);

/// The members of a JSON object while it is being built.
pub type Members = serde_json::Map<String, Value>;

/// The members that a `serde_json` map holds, by key.
pub uninterp spec fn object_members(members: Members) -> Map<Seq<char>, Value>;

/// The members of an object that has none.
pub open spec fn no_members() -> Map<Seq<char>, Value> {
    Map::empty()
}

/// Trusted: `Value::from` on a string slice, which makes a `Value::String`: a value that
/// is a string with that text, no number and not `null`.
#[verifier::external_body]
pub(crate) fn text_value(text: &str) -> (r: Value)
    ensures
        json_text(r) == Some(text@),
        json_number(r) == None::<u64>,
        !json_is_null(r),
{
    Value::from(text)
}

/// Trusted: `Value::from` on a `u64`, which makes a `Value::Number` that holds the number.
#[verifier::external_body]
pub(crate) fn number_value(n: u64) -> (r: Value)
    ensures
        json_number(r) == Some(n),
        !json_is_null(r),
{
    Value::from(n)
}

/// Trusted: `Value::from` on a `bool`, which makes a `Value::Bool`.
#[verifier::external_body]
pub(crate) fn flag_value(b: bool) -> (r: Value)
    ensures
        json_flag(r) == Some(b),
        !json_is_null(r),
{
    Value::from(b)
}

/// Trusted: `Value::default`, which is `Value::Null`.
#[verifier::external_body]
pub(crate) fn null_value() -> (r: Value)
    ensures
        json_is_null(r),
{
    Value::default()
}

/// Trusted: `Value::from` on a vector of values, which makes a `Value::Array` of the same
/// elements in the same order.
#[verifier::external_body]
pub(crate) fn array_value(items: Vec<Value>) -> (r: Value)
    ensures
        json_elements(r) == Some(items@),
        !json_is_null(r),
{
    Value::from(items)
}

/// Trusted: `serde_json::Map::new`, which makes a map without members.
#[verifier::external_body]
pub(crate) fn new_members() -> (r: Members)
    ensures
        object_members(r) == no_members(),
{
    serde_json::Map::new()
}

/// Trusted: `serde_json::Map::insert`. The map then holds the value under the key, in
/// place of what it held there, and every other member as before.
#[verifier::external_body]
pub(crate) fn put(members: &mut Members, key: &str, value: Value)
    ensures
        object_members(*final(members)) == object_members(*old(members)).insert(key@, value),
{
    members.insert(key.to_owned(), value);
}

/// Trusted: `Value::from` on a map, which makes a `Value::Object` of the same members.
#[verifier::external_body]
pub(crate) fn object_value(members: Members) -> (r: Value)
    ensures
        json_members(r) == object_members(members),
        !json_is_null(r),
{
    Value::from(members)
}

/// The member of a value under a key, if there is one.
pub open spec fn spec_member(value: Value, key: Seq<char>) -> Option<Value> {
    if json_members(value).contains_key(key) {
        Some(json_members(value)[key])
    } else {
        None
    }
}

/// Whether a member is absent or `null`.
pub open spec fn spec_is_absent(value: Option<Value>) -> bool {
    match value {
        Some(v) => json_is_null(v),
        None => true,
    }
}

/// A required text: the member must be there and be a string.
pub open spec fn spec_read_text(value: Option<Value>) -> Result<Seq<char>, X402Error> {
    match value {
        Some(v) => match json_text(v) {
            Some(t) => Ok(t),
            None => Err(X402Error::InvalidPayload),
        },
        None => Err(X402Error::InvalidPayload),
    }
}

/// An optional text: absent or `null` is no text, a string is its text, anything else is
/// malformed.
pub open spec fn spec_read_optional_text(value: Option<Value>) -> Result<
    Option<Seq<char>>,
    X402Error,
> {
    if spec_is_absent(value) {
        Ok(None)
    } else {
        match spec_read_text(value) {
            Ok(t) => Ok(Some(t)),
            Err(e) => Err(e),
        }
    }
}

/// A required number: the member must be there and be a whole number of 64 bits.
pub open spec fn spec_read_number(value: Option<Value>) -> Result<u64, X402Error> {
    match value {
        Some(v) => match json_number(v) {
            Some(n) => Ok(n),
            None => Err(X402Error::InvalidPayload),
        },
        None => Err(X402Error::InvalidPayload),
    }
}

/// An optional number: absent or `null` is no number.
pub open spec fn spec_read_optional_number(value: Option<Value>) -> Result<
    Option<u64>,
    X402Error,
> {
    if spec_is_absent(value) {
        Ok(None)
    } else {
        match spec_read_number(value) {
            Ok(n) => Ok(Some(n)),
            Err(e) => Err(e),
        }
    }
}

/// A required number of eight bits.
pub open spec fn spec_read_small_number(value: Option<Value>) -> Result<u8, X402Error> {
    match spec_read_number(value) {
        Ok(n) => if n <= u8::MAX {
            Ok(n as u8)
        } else {
            Err(X402Error::InvalidPayload)
        },
        Err(e) => Err(e),
    }
}

/// A required truth value.
pub open spec fn spec_read_flag(value: Option<Value>) -> Result<bool, X402Error> {
    match value {
        Some(v) => match json_flag(v) {
            Some(b) => Ok(b),
            None => Err(X402Error::InvalidPayload),
        },
        None => Err(X402Error::InvalidPayload),
    }
}

/// A protocol version: the number of a version, or a string that holds that number in
/// decimal notation. Everything else is `InvalidX402Version`.
pub open spec fn spec_read_version(value: Option<Value>) -> Result<X402Version, X402Error> {
    match value {
        Some(v) => match json_number(v) {
            Some(n) => if n <= u8::MAX {
                X402Version::spec_parse(n as u8)
            } else {
                Err(X402Error::InvalidX402Version)
            },
            None => match json_text(v) {
                Some(t) => X402Version::spec_parse_text(t),
                None => Err(X402Error::InvalidX402Version),
            },
        },
        None => Err(X402Error::InvalidX402Version),
    }
}

/// A payment scheme: a string that names one. Everything else is `InvalidScheme`.
pub open spec fn spec_read_scheme(value: Option<Value>) -> Result<PaymentScheme, X402Error> {
    match spec_read_text(value) {
        Ok(t) => PaymentScheme::spec_parse(t),
        Err(_) => Err(X402Error::InvalidScheme),
    }
}

/// A network: a string that names one, in any of the three forms. Everything else is
/// `InvalidNetwork`.
pub open spec fn spec_read_network(value: Option<Value>) -> Result<
    X402SolanaNetworkInfo,
    X402Error,
> {
    match spec_read_text(value) {
        Ok(t) => X402SolanaNetworkInfo::spec_parse(t),
        Err(_) => Err(X402Error::InvalidNetwork),
    }
}

/// An optional MIME type: absent or `null` is no type, a MIME string is its type,
/// everything else is `UnsupportedX402MimeType`.
pub open spec fn spec_read_mime(value: Option<Value>) -> Result<Option<MimeType>, X402Error> {
    if spec_is_absent(value) {
        Ok(None)
    } else {
        match spec_read_text(value) {
            Ok(t) => match MimeType::spec_parse(t) {
                Ok(m) => Ok(Some(m)),
                Err(e) => Err(e),
            },
            Err(_) => Err(X402Error::UnsupportedX402MimeType),
        }
    }
}

/// What a borrowed optional value is, as a mathematical value.
pub open spec fn deref_opt(value: Option<&Value>) -> Option<Value> {
    match value {
        Some(v) => Some(*v),
        None => None,
    }
}

/// The member of a value under a key, if there is one.
pub fn get_member<'a>(value: &'a Value, key: &str) -> (r: Option<&'a Value>)
    ensures
        deref_opt(r) == spec_member(*value, key@),
{
    member(value, key)
}

/// Whether a member is absent or `null`.
pub fn is_absent(value: Option<&Value>) -> (r: bool)
    ensures
        r == spec_is_absent(deref_opt(value)),
{
    match value {
        Some(v) => is_null(v),
        None => true,
    }
}

/// Reads a required text.
pub fn read_text(value: Option<&Value>) -> (r: X402Result<String>)
    ensures
        match r {
            Ok(t) => spec_read_text(deref_opt(value)) == Ok::<Seq<char>, X402Error>(t@),
            Err(e) => spec_read_text(deref_opt(value)) == Err::<Seq<char>, X402Error>(e),
        },
{
    match value {
        Some(v) => match as_text(v) {
            Some(t) => Ok(t.to_owned()),
            None => Err(X402Error::InvalidPayload),
        },
        None => Err(X402Error::InvalidPayload),
    }
}

/// Reads an optional text.
pub fn read_optional_text(value: Option<&Value>) -> (r: X402Result<Option<String>>)
    ensures
        match r {
            Ok(t) => spec_read_optional_text(deref_opt(value)) == Ok::<
                Option<Seq<char>>,
                X402Error,
            >(t.deep_view()),
            Err(e) => spec_read_optional_text(deref_opt(value)) == Err::<
                Option<Seq<char>>,
                X402Error,
            >(e),
        },
{
    if is_absent(value) {
        Ok(None)
    } else {
        match read_text(value) {
            Ok(t) => Ok(Some(t)),
            Err(e) => Err(e),
        }
    }
}

/// Reads a required number.
pub fn read_number(value: Option<&Value>) -> (r: X402Result<u64>)
    ensures
        r == spec_read_number(deref_opt(value)),
{
    match value {
        Some(v) => match as_number(v) {
            Some(n) => Ok(n),
            None => Err(X402Error::InvalidPayload),
        },
        None => Err(X402Error::InvalidPayload),
    }
}

/// Reads an optional number.
pub fn read_optional_number(value: Option<&Value>) -> (r: X402Result<Option<u64>>)
    ensures
        r == spec_read_optional_number(deref_opt(value)),
{
    if is_absent(value) {
        Ok(None)
    } else {
        match read_number(value) {
            Ok(n) => Ok(Some(n)),
            Err(e) => Err(e),
        }
    }
}

/// Reads a required number of eight bits.
pub fn read_small_number(value: Option<&Value>) -> (r: X402Result<u8>)
    ensures
        r == spec_read_small_number(deref_opt(value)),
{
    match read_number(value) {
        Ok(n) => if n <= 255 {
            Ok(n as u8)
        } else {
            Err(X402Error::InvalidPayload)
        },
        Err(e) => Err(e),
    }
}

/// Reads a required truth value.
pub fn read_flag(value: Option<&Value>) -> (r: X402Result<bool>)
    ensures
        r == spec_read_flag(deref_opt(value)),
{
    match value {
        Some(v) => match as_flag(v) {
            Some(b) => Ok(b),
            None => Err(X402Error::InvalidPayload),
        },
        None => Err(X402Error::InvalidPayload),
    }
}

/// Reads a protocol version from its number or from a decimal string.
pub fn read_version(value: Option<&Value>) -> (r: X402Result<X402Version>)
    ensures
        r == spec_read_version(deref_opt(value)),
{
    match value {
        Some(v) => match as_number(v) {
            Some(n) => if n <= 255 {
                X402Version::parse(n as u8)
            } else {
                Err(X402Error::InvalidX402Version)
            },
            None => match as_text(v) {
                Some(t) => crate::version::deserialize_x402_version(t),
                None => Err(X402Error::InvalidX402Version),
            },
        },
        None => Err(X402Error::InvalidX402Version),
    }
}

/// Reads a payment scheme from its name.
pub fn read_scheme(value: Option<&Value>) -> (r: X402Result<PaymentScheme>)
    ensures
        r == spec_read_scheme(deref_opt(value)),
{
    match read_text(value) {
        Ok(t) => PaymentScheme::parse(t.as_str()),
        Err(_) => Err(X402Error::InvalidScheme),
    }
}

/// Reads a network from one of its identifiers.
pub fn read_network(value: Option<&Value>) -> (r: X402Result<X402SolanaNetworkInfo>)
    ensures
        r == spec_read_network(deref_opt(value)),
{
    match read_text(value) {
        Ok(t) => X402SolanaNetworkInfo::parse(t.as_str()),
        Err(_) => Err(X402Error::InvalidNetwork),
    }
}

/// Reads an optional MIME type from its MIME string.
pub fn read_mime(value: Option<&Value>) -> (r: X402Result<Option<MimeType>>)
    ensures
        r == spec_read_mime(deref_opt(value)),
{
    if is_absent(value) {
        Ok(None)
    } else {
        match read_text(value) {
            Ok(t) => match MimeType::parse(t.as_str()) {
                Ok(m) => Ok(Some(m)),
                Err(e) => Err(e),
            },
            Err(_) => Err(X402Error::UnsupportedX402MimeType),
        }
    }
}

/// The value of an optional text: `null` when it is absent. It reads back as the text.
pub fn optional_text_value(text: Option<&str>) -> (r: Value)
    ensures
        spec_read_optional_text(Some(r)) == Ok::<Option<Seq<char>>, X402Error>(text.deep_view()),
{
    match text {
        Some(t) => text_value(t),
        None => null_value(),
    }
}

/// The value of an optional number: `null` when it is absent. It reads back as the number.
pub fn optional_number_value(n: Option<u64>) -> (r: Value)
    ensures
        spec_read_optional_number(Some(r)) == Ok::<Option<u64>, X402Error>(n),
{
    match n {
        Some(v) => number_value(v),
        None => null_value(),
    }
}

} // verus!
