//! Protocol version.
use vstd::prelude::*;
use crate::errors::X402Error;
use crate::text::{decimal_digits, decimal_u8, lemma_decimal_u8_round_trip, parse_u8};

verus! {

/// The versions of the protocol; at present there is one.
#[derive(Debug, PartialEq, Eq, PartialOrd, Ord, Hash, Clone, Copy, Structural)]
#[non_exhaustive]
pub enum X402Version {
    V1,
}

impl X402Version {
    /// The number that stands for a version on the wire.
    pub open spec fn spec_number(self) -> u8 {
        match self {
            X402Version::V1 => 1,
        }
    }

    /// The version that a number names.
    pub open spec fn spec_parse(value: u8) -> Result<X402Version, X402Error> {
        if value == 1 {
            Ok(X402Version::V1)
        } else {
            Err(X402Error::InvalidX402Version)
        }
    }

    /// The version that a decimal string names.
    pub open spec fn spec_parse_text(text: Seq<char>) -> Result<X402Version, X402Error> {
        match decimal_u8(text) {
            Some(value) => X402Version::spec_parse(value),
            None => Err(X402Error::InvalidX402Version),
        }
    }

    /// Reads a version from its number: every number but that of a version is
    /// `InvalidX402Version`.
    pub fn parse(value: u8) -> (r: Result<X402Version, X402Error>)
        ensures
            r == X402Version::spec_parse(value),
    {
        match value {
            1 => Ok(X402Version::V1),
            _ => Err(X402Error::InvalidX402Version),
        }
    }

    /// The number that stands for this version on the wire.
    pub fn number(&self) -> (r: u8)
        ensures
            r == self.spec_number(),
    {
        match self {
            X402Version::V1 => 1,
        }
    }
}

impl Default for X402Version {
    fn default() -> (r: Self)
        ensures
            r == X402Version::V1,
    {
        X402Version::V1
    }
}

impl TryFrom<u8> for X402Version {
    type Error = X402Error;

    fn try_from(value: u8) -> (r: Result<Self, X402Error>) {
        X402Version::parse(value)
    }
}

impl vstd::std_specs::convert::TryFromSpecImpl<u8> for X402Version {
    open spec fn obeys_try_from_spec() -> bool {
        true
    }

    open spec fn try_from_spec(value: u8) -> Result<Self, X402Error> {
        X402Version::spec_parse(value)
    }
}

/// The number under which a version is written.
pub fn serialize_x402_version(version: &X402Version) -> (r: u8)
    ensures
        r == version.spec_number(),
{
    version.number()
}

/// Reads a version from a decimal string. A string that is no number, or a number that
/// names no version, is `InvalidX402Version`.
pub fn deserialize_x402_version(text: &str) -> (r: Result<X402Version, X402Error>)
    ensures
        r == X402Version::spec_parse_text(text@),
{
    match parse_u8(text) {
        Some(value) => X402Version::parse(value),
        None => Err(X402Error::InvalidX402Version),
    }
}

/// The number of a version reads back as that version.
pub proof fn lemma_version_number_parses(v: X402Version)
    ensures
        X402Version::spec_parse(v.spec_number()) == Ok::<X402Version, X402Error>(v),
{
}

/// The number of a version, written in decimal notation, reads back as that version.
pub proof fn lemma_version_text_round_trip(v: X402Version)
    ensures
        X402Version::spec_parse_text(decimal_digits(v.spec_number() as nat)) == Ok::<
            X402Version,
            X402Error,
        >(v),
{
    lemma_decimal_u8_round_trip(v.spec_number());
}

} // verus!
