//! MIME type of a paid response.
use vstd::prelude::*;
use crate::errors::X402Error;
use crate::text::str_eq;

verus! {

/// The MIME types that a resource may answer with.
#[derive(Debug, PartialEq, Eq, PartialOrd, Ord, Clone, Copy, Hash, Structural)]
pub enum MimeType {
    Json,
    Binary,
}

impl MimeType {
    /// The MIME string of JSON.
    pub const JSON_MIME: &'static str = "application/json";

    /// The MIME string of binary data.
    pub const BINARY_MIME: &'static str = "application/octet-stream";

    /// The MIME string of a type.
    pub open spec fn spec_str(self) -> Seq<char> {
        match self {
            MimeType::Json => "application/json"@,
            MimeType::Binary => "application/octet-stream"@,
        }
    }

    /// The type that a MIME string denotes.
    pub open spec fn spec_parse(name: Seq<char>) -> Result<MimeType, X402Error> {
        if name == "application/json"@ {
            Ok(MimeType::Json)
        } else if name == "application/octet-stream"@ {
            Ok(MimeType::Binary)
        } else {
            Err(X402Error::UnsupportedX402MimeType)
        }
    }

    /// Reads a MIME string, by exact match.
    pub fn parse(name: &str) -> (r: Result<MimeType, X402Error>)
        ensures
            r == MimeType::spec_parse(name@),
    {
        if str_eq(name, "application/json") {
            Ok(MimeType::Json)
        } else if str_eq(name, "application/octet-stream") {
            Ok(MimeType::Binary)
        } else {
            Err(X402Error::UnsupportedX402MimeType)
        }
    }

    /// The MIME string of this type.
    pub fn as_str(&self) -> (r: &'static str)
        ensures
            r@ == self.spec_str(),
    {
        match self {
            MimeType::Json => "application/json",
            MimeType::Binary => "application/octet-stream",
        }
    }
}

impl Default for MimeType {
    fn default() -> (r: Self)
        ensures
            r == MimeType::Json,
    {
        MimeType::Json
    }
}

impl From<MimeType> for &'static str {
    fn from(value: MimeType) -> (r: Self) {
        match value {
            MimeType::Json => "application/json",
            MimeType::Binary => "application/octet-stream",
        }
    }
}

impl vstd::std_specs::convert::FromSpecImpl<MimeType> for &'static str {
    open spec fn obeys_from_spec() -> bool {
        true
    }

    open spec fn from_spec(value: MimeType) -> Self {
        match value {
            MimeType::Json => "application/json",
            MimeType::Binary => "application/octet-stream",
        }
    }
}

impl<'a> TryFrom<&'a str> for MimeType {
    type Error = X402Error;

    fn try_from(value: &'a str) -> (r: Result<Self, X402Error>) {
        MimeType::parse(value)
    }
}

impl<'a> vstd::std_specs::convert::TryFromSpecImpl<&'a str> for MimeType {
    open spec fn obeys_try_from_spec() -> bool {
        true
    }

    open spec fn try_from_spec(value: &'a str) -> Result<Self, X402Error> {
        MimeType::spec_parse(value@)
    }
}

/// What an optional MIME type is written as: its MIME string, or nothing.
pub open spec fn spec_serialize_mime(mime: Option<MimeType>) -> Option<Seq<char>> {
    match mime {
        Some(m) => Some(m.spec_str()),
        None => None,
    }
}

/// What an optional MIME string reads as: nothing reads as no type, a string as the type
/// that it denotes.
pub open spec fn spec_deserialize_mime(text: Option<Seq<char>>) -> Result<
    Option<MimeType>,
    X402Error,
> {
    match text {
        Some(s) => match MimeType::spec_parse(s) {
            Ok(m) => Ok(Some(m)),
            Err(e) => Err(e),
        },
        None => Ok(None),
    }
}

/// The MIME string under which an optional type is written; an absent type is left out.
pub fn serialize_mime(mime: &Option<MimeType>) -> (r: Option<&'static str>)
    ensures
        r.is_some() == mime.is_some(),
        r matches Some(s) ==> spec_serialize_mime(*mime) == Some(s@),
{
    match mime {
        Some(m) => Some(m.as_str()),
        None => None,
    }
}

/// Reads an optional MIME type from an optional MIME string.
pub fn deserialize_mime(text: Option<&str>) -> (r: Result<Option<MimeType>, X402Error>)
    ensures
        r == spec_deserialize_mime(
            match text {
                Some(s) => Some(s@),
                None => None,
            },
        ),
{
    match text {
        Some(s) => match MimeType::parse(s) {
            Ok(m) => Ok(Some(m)),
            Err(e) => Err(e),
        },
        None => Ok(None),
    }
}

/// The MIME string of a type reads back as that type.
pub proof fn lemma_mime_string_parses(m: MimeType)
    ensures
        MimeType::spec_parse(m.spec_str()) == Ok::<MimeType, X402Error>(m),
{
    reveal_strlit("application/json");
    reveal_strlit("application/octet-stream");
    assert("application/json"@.len() == 16);
    assert("application/octet-stream"@.len() == 24);
}

/// An optional MIME type that is written and read again is unchanged.
pub proof fn lemma_mime_round_trip(mime: Option<MimeType>)
    ensures
        spec_deserialize_mime(spec_serialize_mime(mime)) == Ok::<Option<MimeType>, X402Error>(
            mime,
        ),
{
    if let Some(m) = mime {
        lemma_mime_string_parses(m);
    }
}

} // verus!
