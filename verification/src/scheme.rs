//! Payment scheme.
use vstd::prelude::*;
use crate::errors::X402Error;
use crate::text::str_eq;

verus! {

/// The payment method families; at present there is one, the transfer of an exact amount.
#[derive(Debug, PartialEq, Eq, PartialOrd, Ord, Clone, Copy, Structural)]
pub enum PaymentScheme {
    Exact,
}

impl PaymentScheme {
    /// The lowercase name of a scheme.
    pub open spec fn spec_str(self) -> Seq<char> {
        match self {
            PaymentScheme::Exact => "exact"@,
        }
    }

    /// The scheme that a name denotes.
    pub open spec fn spec_parse(name: Seq<char>) -> Result<PaymentScheme, X402Error> {
        if name == "exact"@ {
            Ok(PaymentScheme::Exact)
        } else {
            Err(X402Error::InvalidScheme)
        }
    }

    /// Reads a scheme name, by exact match.
    pub fn parse(name: &str) -> (r: Result<PaymentScheme, X402Error>)
        ensures
            r == PaymentScheme::spec_parse(name@),
    {
        if str_eq(name, "exact") {
            Ok(PaymentScheme::Exact)
        } else {
            Err(X402Error::InvalidScheme)
        }
    }

    /// The lowercase name of this scheme.
    pub fn as_str(&self) -> (r: &'static str)
        ensures
            r@ == self.spec_str(),
    {
        match self {
            PaymentScheme::Exact => "exact",
        }
    }
}

impl Default for PaymentScheme {
    fn default() -> (r: Self)
        ensures
            r == PaymentScheme::Exact,
    {
        PaymentScheme::Exact
    }
}

impl<'a> TryFrom<&'a str> for PaymentScheme {
    type Error = X402Error;

    fn try_from(value: &'a str) -> (r: Result<Self, X402Error>) {
        PaymentScheme::parse(value)
    }
}

impl<'a> vstd::std_specs::convert::TryFromSpecImpl<&'a str> for PaymentScheme {
    open spec fn obeys_try_from_spec() -> bool {
        true
    }

    open spec fn try_from_spec(value: &'a str) -> Result<Self, X402Error> {
        PaymentScheme::spec_parse(value@)
    }
}

/// The name of a scheme reads back as that scheme.
pub proof fn lemma_scheme_name_parses(s: PaymentScheme)
    ensures
        PaymentScheme::spec_parse(s.spec_str()) == Ok::<PaymentScheme, X402Error>(s),
{
}

} // verus!
