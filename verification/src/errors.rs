//! Error kinds of the protocol, their wire codes and their status classes.
use vstd::prelude::*;
use crate::text::{occurs_in, str_contains, str_eq};

verus! {

/// The result of an operation that fails with an `X402Error`.
pub type X402Result<T> = Result<T, X402Error>;

/// Every failure that the protocol names. Fifteen kinds travel on the wire under a
/// snake-case code; the others arise locally.
#[derive(Debug, PartialEq, Eq, Clone, Copy, Structural)]
pub enum X402Error {
    /// The MIME type is neither JSON nor binary.
    UnsupportedX402MimeType,
    /// The client does not hold enough tokens to complete the payment.
    InsufficientFunds,
    /// The authorization is not valid yet.
    InvalidExactSvmPayloadAuthorizationValidAfter,
    /// The authorization has expired.
    InvalidExactSvmPayloadAuthorizationValidBefore,
    /// The authorized amount does not cover the required payment.
    InvalidExactSvmPayloadAuthorizationValue,
    /// The signature of the authorization is invalid.
    InvalidExactSvmPayloadSignature,
    /// The recipient differs from the one in the payment requirements.
    InvalidExactSvmPayloadRecipientMismatch,
    /// The blockchain network is not a known one.
    InvalidNetwork,
    /// The payment payload is malformed.
    InvalidPayload,
    /// The payment requirements are malformed.
    InvalidPaymentRequirements,
    /// The payment scheme is not a known one.
    InvalidScheme,
    /// The facilitator does not support the payment scheme.
    UnsupportedScheme,
    /// The protocol version is not a known one.
    InvalidX402Version,
    /// The blockchain transaction failed or was rejected.
    InvalidTransactionState,
    /// Verification failed for an unexpected reason.
    UnexpectedVerifyError,
    /// Settlement failed for an unexpected reason.
    UnexpectedSettleError,
    /// A wire code that names no known error.
    UnsupportedX402Error,
    /// The builder was given no amount.
    MaxAmountIsMissing,
    /// The builder was given no asset.
    AssetIsMissing,
    /// The builder was given no recipient.
    PayToIsMissing,
    /// The builder was given no resource.
    ResourceIsMissing,
    /// The builder was given no description.
    DescriptionIsMissing,
    /// No MIME type was given.
    MimeTypeMissing,
    /// The builder was given no timeout.
    MaxTimeoutIsMissing,
    /// The builder was given no scheme-specific extras.
    ExtraIsMissing,
    /// A status description that names no known status class.
    UnsupportedX402StatusCodeError,
}

impl X402Error {
    /// The wire code of an error kind, where it has one.
    pub open spec fn spec_code(self) -> Option<Seq<char>> {
        match self {
            X402Error::InsufficientFunds => Some("insufficient_funds"@),
            X402Error::InvalidExactSvmPayloadAuthorizationValidAfter =>
                Some("invalid_exact_evm_payload_authorization_valid_after"@),
            X402Error::InvalidExactSvmPayloadAuthorizationValidBefore =>
                Some("invalid_exact_evm_payload_authorization_valid_before"@),
            X402Error::InvalidExactSvmPayloadAuthorizationValue =>
                Some("invalid_exact_evm_payload_authorization_value"@),
            X402Error::InvalidExactSvmPayloadSignature =>
                Some("invalid_exact_evm_payload_signature"@),
            X402Error::InvalidExactSvmPayloadRecipientMismatch =>
                Some("invalid_exact_evm_payload_recipient_mismatch"@),
            X402Error::InvalidNetwork => Some("invalid_network"@),
            X402Error::InvalidPayload => Some("invalid_payload"@),
            X402Error::InvalidPaymentRequirements => Some("invalid_payment_requirements"@),
            X402Error::InvalidScheme => Some("invalid_scheme"@),
            X402Error::UnsupportedScheme => Some("unsupported_scheme"@),
            X402Error::InvalidX402Version => Some("invalid_x402_version"@),
            X402Error::InvalidTransactionState => Some("invalid_transaction_state"@),
            X402Error::UnexpectedVerifyError => Some("unexpected_verify_error"@),
            X402Error::UnexpectedSettleError => Some("unexpected_settle_error"@),
            _ => None,
        }
    }

    /// The error kind that a wire code names: `Err(UnsupportedX402Error)` for a string
    /// that is no code.
    pub open spec fn spec_parse(code: Seq<char>) -> Result<X402Error, X402Error> {
        if code == "insufficient_funds"@ {
            Ok(X402Error::InsufficientFunds)
        } else if code == "invalid_exact_evm_payload_authorization_valid_after"@ {
            Ok(X402Error::InvalidExactSvmPayloadAuthorizationValidAfter)
        } else if code == "invalid_exact_evm_payload_authorization_valid_before"@ {
            Ok(X402Error::InvalidExactSvmPayloadAuthorizationValidBefore)
        } else if code == "invalid_exact_evm_payload_authorization_value"@ {
            Ok(X402Error::InvalidExactSvmPayloadAuthorizationValue)
        } else if code == "invalid_exact_evm_payload_signature"@ {
            Ok(X402Error::InvalidExactSvmPayloadSignature)
        } else if code == "invalid_exact_evm_payload_recipient_mismatch"@ {
            Ok(X402Error::InvalidExactSvmPayloadRecipientMismatch)
        } else if code == "invalid_network"@ {
            Ok(X402Error::InvalidNetwork)
        } else if code == "invalid_payload"@ {
            Ok(X402Error::InvalidPayload)
        } else if code == "invalid_payment_requirements"@ {
            Ok(X402Error::InvalidPaymentRequirements)
        } else if code == "invalid_scheme"@ {
            Ok(X402Error::InvalidScheme)
        } else if code == "unsupported_scheme"@ {
            Ok(X402Error::UnsupportedScheme)
        } else if code == "invalid_x402_version"@ {
            Ok(X402Error::InvalidX402Version)
        } else if code == "invalid_transaction_state"@ {
            Ok(X402Error::InvalidTransactionState)
        } else if code == "unexpected_verify_error"@ {
            Ok(X402Error::UnexpectedVerifyError)
        } else if code == "unexpected_settle_error"@ {
            Ok(X402Error::UnexpectedSettleError)
        } else {
            Err(X402Error::UnsupportedX402Error)
        }
    }

    /// The human-readable message of an error kind.
    pub open spec fn spec_message(self) -> Seq<char> {
        match self {
            X402Error::UnsupportedX402MimeType =>
                "The mime type is not supported. Only JSON and Binary"@,
            X402Error::InsufficientFunds =>
                "The client does not have sufficient tokens to complete the transaction"@,
            X402Error::InvalidExactSvmPayloadAuthorizationValidAfter => "Invalid `ValidAfter`"@,
            X402Error::InvalidExactSvmPayloadAuthorizationValidBefore =>
                "Invalid `ValidBefore` value"@,
            X402Error::InvalidExactSvmPayloadAuthorizationValue => "Invalid autorization value"@,
            X402Error::InvalidExactSvmPayloadSignature => "Invalid payload signature"@,
            X402Error::InvalidExactSvmPayloadRecipientMismatch => "Recipient mismatch"@,
            X402Error::InvalidNetwork => "Invalid blockchain network"@,
            X402Error::InvalidPayload => "Invalid payload"@,
            X402Error::InvalidPaymentRequirements => "Invalid payment requirements"@,
            X402Error::InvalidScheme => "Invalid x402 scheme"@,
            X402Error::UnsupportedScheme => "The x402 scheme is not supported"@,
            X402Error::InvalidX402Version => "Invalid x402 version"@,
            X402Error::InvalidTransactionState => "Invalid transaction state"@,
            X402Error::UnexpectedVerifyError => "Payment verification error"@,
            X402Error::UnexpectedSettleError =>
                "`unexpected_settle_error`: Unexpected error occurred during payment settlement"@,
            X402Error::UnsupportedX402Error => "Unsupported error"@,
            X402Error::MaxAmountIsMissing =>
                "The maximum amount required is missing. Unable to build the payment requirements."@,
            X402Error::AssetIsMissing =>
                "The asset required for the transaction is missing. Unable to build the payment requirements."@,
            X402Error::PayToIsMissing =>
                "The recipient of the asset is missing. Unable to build the payment requirements."@,
            X402Error::ResourceIsMissing =>
                "The resource that requires payment is not set. Unable to build the payment requirements."@,
            X402Error::DescriptionIsMissing =>
                "A description of the resource is missing. Unable to build the payment requirements."@,
            X402Error::MimeTypeMissing =>
                "The mime type for the payload is missing. Unable to build the payment requirements."@,
            X402Error::MaxTimeoutIsMissing =>
                "The expiry of the transaction request is missing. Unable to build the payment requirements."@,
            X402Error::ExtraIsMissing =>
                "The extra field is missing. At least the feePayer field is required. Unable to build the payment requirements."@,
            X402Error::UnsupportedX402StatusCodeError =>
                "The status code received after the `settle` API was called is invalid"@,
        }
    }

    /// The wire code of this error kind; `None` for a kind that never travels.
    pub fn code(&self) -> (r: Option<&'static str>)
        ensures
            r.is_some() == self.spec_code().is_some(),
            r matches Some(s) ==> self.spec_code() == Some(s@),
    {
        match self {
            X402Error::InsufficientFunds => Some("insufficient_funds"),
            X402Error::InvalidExactSvmPayloadAuthorizationValidAfter =>
                Some("invalid_exact_evm_payload_authorization_valid_after"),
            X402Error::InvalidExactSvmPayloadAuthorizationValidBefore =>
                Some("invalid_exact_evm_payload_authorization_valid_before"),
            X402Error::InvalidExactSvmPayloadAuthorizationValue =>
                Some("invalid_exact_evm_payload_authorization_value"),
            X402Error::InvalidExactSvmPayloadSignature =>
                Some("invalid_exact_evm_payload_signature"),
            X402Error::InvalidExactSvmPayloadRecipientMismatch =>
                Some("invalid_exact_evm_payload_recipient_mismatch"),
            X402Error::InvalidNetwork => Some("invalid_network"),
            X402Error::InvalidPayload => Some("invalid_payload"),
            X402Error::InvalidPaymentRequirements => Some("invalid_payment_requirements"),
            X402Error::InvalidScheme => Some("invalid_scheme"),
            X402Error::UnsupportedScheme => Some("unsupported_scheme"),
            X402Error::InvalidX402Version => Some("invalid_x402_version"),
            X402Error::InvalidTransactionState => Some("invalid_transaction_state"),
            X402Error::UnexpectedVerifyError => Some("unexpected_verify_error"),
            X402Error::UnexpectedSettleError => Some("unexpected_settle_error"),
            _ => None,
        }
    }

    /// The human-readable message of this error kind.
    pub fn message(&self) -> (r: &'static str)
        ensures
            r@ == self.spec_message(),
    {
        match self {
            X402Error::UnsupportedX402MimeType =>
                "The mime type is not supported. Only JSON and Binary",
            X402Error::InsufficientFunds =>
                "The client does not have sufficient tokens to complete the transaction",
            X402Error::InvalidExactSvmPayloadAuthorizationValidAfter => "Invalid `ValidAfter`",
            X402Error::InvalidExactSvmPayloadAuthorizationValidBefore =>
                "Invalid `ValidBefore` value",
            X402Error::InvalidExactSvmPayloadAuthorizationValue => "Invalid autorization value",
            X402Error::InvalidExactSvmPayloadSignature => "Invalid payload signature",
            X402Error::InvalidExactSvmPayloadRecipientMismatch => "Recipient mismatch",
            X402Error::InvalidNetwork => "Invalid blockchain network",
            X402Error::InvalidPayload => "Invalid payload",
            X402Error::InvalidPaymentRequirements => "Invalid payment requirements",
            X402Error::InvalidScheme => "Invalid x402 scheme",
            X402Error::UnsupportedScheme => "The x402 scheme is not supported",
            X402Error::InvalidX402Version => "Invalid x402 version",
            X402Error::InvalidTransactionState => "Invalid transaction state",
            X402Error::UnexpectedVerifyError => "Payment verification error",
            X402Error::UnexpectedSettleError =>
                "`unexpected_settle_error`: Unexpected error occurred during payment settlement",
            X402Error::UnsupportedX402Error => "Unsupported error",
            X402Error::MaxAmountIsMissing =>
                "The maximum amount required is missing. Unable to build the payment requirements.",
            X402Error::AssetIsMissing =>
                "The asset required for the transaction is missing. Unable to build the payment requirements.",
            X402Error::PayToIsMissing =>
                "The recipient of the asset is missing. Unable to build the payment requirements.",
            X402Error::ResourceIsMissing =>
                "The resource that requires payment is not set. Unable to build the payment requirements.",
            X402Error::DescriptionIsMissing =>
                "A description of the resource is missing. Unable to build the payment requirements.",
            X402Error::MimeTypeMissing =>
                "The mime type for the payload is missing. Unable to build the payment requirements.",
            X402Error::MaxTimeoutIsMissing =>
                "The expiry of the transaction request is missing. Unable to build the payment requirements.",
            X402Error::ExtraIsMissing =>
                "The extra field is missing. At least the feePayer field is required. Unable to build the payment requirements.",
            X402Error::UnsupportedX402StatusCodeError =>
                "The status code received after the `settle` API was called is invalid",
        }
    }

    /// Reads a wire code, by exact match. A string that is no code is
    /// `UnsupportedX402Error`.
    pub fn parse(value: &str) -> (r: Result<X402Error, X402Error>)
        ensures
            r == X402Error::spec_parse(value@),
    {
        if str_eq(value, "insufficient_funds") {
            Ok(X402Error::InsufficientFunds)
        } else if str_eq(value, "invalid_exact_evm_payload_authorization_valid_after") {
            Ok(X402Error::InvalidExactSvmPayloadAuthorizationValidAfter)
        } else if str_eq(value, "invalid_exact_evm_payload_authorization_valid_before") {
            Ok(X402Error::InvalidExactSvmPayloadAuthorizationValidBefore)
        } else if str_eq(value, "invalid_exact_evm_payload_authorization_value") {
            Ok(X402Error::InvalidExactSvmPayloadAuthorizationValue)
        } else if str_eq(value, "invalid_exact_evm_payload_signature") {
            Ok(X402Error::InvalidExactSvmPayloadSignature)
        } else if str_eq(value, "invalid_exact_evm_payload_recipient_mismatch") {
            Ok(X402Error::InvalidExactSvmPayloadRecipientMismatch)
        } else if str_eq(value, "invalid_network") {
            Ok(X402Error::InvalidNetwork)
        } else if str_eq(value, "invalid_payload") {
            Ok(X402Error::InvalidPayload)
        } else if str_eq(value, "invalid_payment_requirements") {
            Ok(X402Error::InvalidPaymentRequirements)
        } else if str_eq(value, "invalid_scheme") {
            Ok(X402Error::InvalidScheme)
        } else if str_eq(value, "unsupported_scheme") {
            Ok(X402Error::UnsupportedScheme)
        } else if str_eq(value, "invalid_x402_version") {
            Ok(X402Error::InvalidX402Version)
        } else if str_eq(value, "invalid_transaction_state") {
            Ok(X402Error::InvalidTransactionState)
        } else if str_eq(value, "unexpected_verify_error") {
            Ok(X402Error::UnexpectedVerifyError)
        } else if str_eq(value, "unexpected_settle_error") {
            Ok(X402Error::UnexpectedSettleError)
        } else {
            Err(X402Error::UnsupportedX402Error)
        }
    }

    /// Reveals what each wire code holds.
    pub(crate) proof fn reveal_codes()
        ensures
            "insufficient_funds"@.len() == 18,
            "invalid_exact_evm_payload_authorization_valid_after"@.len() == 51,
            "invalid_exact_evm_payload_authorization_valid_before"@.len() == 52,
            "invalid_exact_evm_payload_authorization_value"@.len() == 45,
            "invalid_exact_evm_payload_signature"@.len() == 35,
            "invalid_exact_evm_payload_recipient_mismatch"@.len() == 44,
            "invalid_network"@.len() == 15,
            "invalid_payload"@.len() == 15,
            "invalid_payment_requirements"@.len() == 28,
            "invalid_scheme"@.len() == 14,
            "unsupported_scheme"@.len() == 18,
            "invalid_x402_version"@.len() == 20,
            "invalid_transaction_state"@.len() == 25,
            "unexpected_verify_error"@.len() == 23,
            "unexpected_settle_error"@.len() == 23,
            "insufficient_funds"@[0] != "unsupported_scheme"@[0],
            "invalid_network"@[8] != "invalid_payload"@[8],
            "unexpected_verify_error"@[11] != "unexpected_settle_error"@[11],
    {
        reveal_strlit("insufficient_funds");
        reveal_strlit("invalid_exact_evm_payload_authorization_valid_after");
        reveal_strlit("invalid_exact_evm_payload_authorization_valid_before");
        reveal_strlit("invalid_exact_evm_payload_authorization_value");
        reveal_strlit("invalid_exact_evm_payload_signature");
        reveal_strlit("invalid_exact_evm_payload_recipient_mismatch");
        reveal_strlit("invalid_network");
        reveal_strlit("invalid_payload");
        reveal_strlit("invalid_payment_requirements");
        reveal_strlit("invalid_scheme");
        reveal_strlit("unsupported_scheme");
        reveal_strlit("invalid_x402_version");
        reveal_strlit("invalid_transaction_state");
        reveal_strlit("unexpected_verify_error");
        reveal_strlit("unexpected_settle_error");
    }
}

impl<'a> TryFrom<&'a str> for X402Error {
    type Error = X402Error;

    fn try_from(value: &'a str) -> (r: Result<Self, X402Error>) {
        X402Error::parse(value)
    }
}

impl<'a> vstd::std_specs::convert::TryFromSpecImpl<&'a str> for X402Error {
    open spec fn obeys_try_from_spec() -> bool {
        true
    }

    open spec fn try_from_spec(value: &'a str) -> Result<Self, X402Error> {
        X402Error::spec_parse(value@)
    }
}

/// A wire code reads back as the error kind that it belongs to.
pub proof fn lemma_error_code_parses(e: X402Error)
    requires
        e.spec_code().is_some(),
    ensures
        X402Error::spec_parse(e.spec_code().unwrap()) == Ok::<X402Error, X402Error>(e),
{
    X402Error::reveal_codes();
}

/// Reading is the inverse of writing: a string that reads as an error kind is that kind's
/// wire code, and a string that is no wire code reads as `UnsupportedX402Error`.
pub proof fn lemma_error_code_bijection(s: Seq<char>)
    ensures
        match X402Error::spec_parse(s) {
            Ok(e) => e.spec_code() == Some(s),
            Err(e) => e == X402Error::UnsupportedX402Error && forall|k: X402Error|
                k.spec_code() != Some(s),
        },
{
}

/// The status class under which an error is reported to the client.
#[derive(Debug, PartialEq, Eq, PartialOrd, Ord, Clone, Copy, Structural)]
pub enum X402PaymentErrorStatusCode {
    /// Payment is needed to access the resource.
    PaymentRequired,
    /// The payment payload or the requirements are malformed.
    InvalidPayment,
    /// Verification or settlement of the payment failed.
    PaymentFailed,
    /// The server failed while it processed the payment.
    ServerError,
}

impl X402PaymentErrorStatusCode {
    /// The numeric code of a status class.
    pub open spec fn spec_status_code(self) -> u16 {
        match self {
            X402PaymentErrorStatusCode::PaymentRequired => 402,
            X402PaymentErrorStatusCode::InvalidPayment => 400,
            X402PaymentErrorStatusCode::PaymentFailed => 402,
            X402PaymentErrorStatusCode::ServerError => 500,
        }
    }

    /// The canonical description of a status class.
    pub open spec fn spec_description(self) -> Seq<char> {
        match self {
            X402PaymentErrorStatusCode::PaymentRequired => "Payment Required"@,
            X402PaymentErrorStatusCode::InvalidPayment => "Invalid Payment"@,
            X402PaymentErrorStatusCode::PaymentFailed => "Payment Failed"@,
            X402PaymentErrorStatusCode::ServerError => "Server Error"@,
        }
    }

    /// The explanatory sentence of a status class.
    pub open spec fn spec_info(self) -> Seq<char> {
        match self {
            X402PaymentErrorStatusCode::PaymentRequired => "Payment needed to access resource"@,
            X402PaymentErrorStatusCode::InvalidPayment =>
                "Malformed payment payload or requirements"@,
            X402PaymentErrorStatusCode::PaymentFailed =>
                "Payment verification or settlement failed"@,
            X402PaymentErrorStatusCode::ServerError =>
                "Internal server error during payment processing"@,
        }
    }

    /// The status class that a text names: the first of the four, in declaration order,
    /// whose description occurs in the text.
    pub open spec fn spec_parse(text: Seq<char>) -> Result<X402PaymentErrorStatusCode, X402Error> {
        if occurs_in(X402PaymentErrorStatusCode::PaymentRequired.spec_description(), text) {
            Ok(X402PaymentErrorStatusCode::PaymentRequired)
        } else if occurs_in(X402PaymentErrorStatusCode::InvalidPayment.spec_description(), text) {
            Ok(X402PaymentErrorStatusCode::InvalidPayment)
        } else if occurs_in(X402PaymentErrorStatusCode::PaymentFailed.spec_description(), text) {
            Ok(X402PaymentErrorStatusCode::PaymentFailed)
        } else if occurs_in(X402PaymentErrorStatusCode::ServerError.spec_description(), text) {
            Ok(X402PaymentErrorStatusCode::ServerError)
        } else {
            Err(X402Error::UnsupportedX402StatusCodeError)
        }
    }

    /// Finds the status class whose description the text contains.
    pub fn parse(value: &str) -> (r: Result<X402PaymentErrorStatusCode, X402Error>)
        ensures
            r == X402PaymentErrorStatusCode::spec_parse(value@),
    {
        if str_contains(value, X402PaymentErrorStatusCode::PaymentRequired.description()) {
            Ok(X402PaymentErrorStatusCode::PaymentRequired)
        } else if str_contains(value, X402PaymentErrorStatusCode::InvalidPayment.description()) {
            Ok(X402PaymentErrorStatusCode::InvalidPayment)
        } else if str_contains(value, X402PaymentErrorStatusCode::PaymentFailed.description()) {
            Ok(X402PaymentErrorStatusCode::PaymentFailed)
        } else if str_contains(value, X402PaymentErrorStatusCode::ServerError.description()) {
            Ok(X402PaymentErrorStatusCode::ServerError)
        } else {
            Err(X402Error::UnsupportedX402StatusCodeError)
        }
    }

    /// The numeric code of this status class.
    pub fn status_code(&self) -> (r: u16)
        ensures
            r == self.spec_status_code(),
    {
        match self {
            X402PaymentErrorStatusCode::PaymentRequired => 402,
            X402PaymentErrorStatusCode::InvalidPayment => 400,
            X402PaymentErrorStatusCode::PaymentFailed => 402,
            X402PaymentErrorStatusCode::ServerError => 500,
        }
    }

    /// The canonical description of this status class.
    pub fn description(&self) -> (r: &'static str)
        ensures
            r@ == self.spec_description(),
    {
        match self {
            X402PaymentErrorStatusCode::PaymentRequired => "Payment Required",
            X402PaymentErrorStatusCode::InvalidPayment => "Invalid Payment",
            X402PaymentErrorStatusCode::PaymentFailed => "Payment Failed",
            X402PaymentErrorStatusCode::ServerError => "Server Error",
        }
    }

    /// The explanatory sentence of this status class.
    pub fn info(&self) -> (r: &'static str)
        ensures
            r@ == self.spec_info(),
    {
        match self {
            X402PaymentErrorStatusCode::PaymentRequired => "Payment needed to access resource",
            X402PaymentErrorStatusCode::InvalidPayment =>
                "Malformed payment payload or requirements",
            X402PaymentErrorStatusCode::PaymentFailed =>
                "Payment verification or settlement failed",
            X402PaymentErrorStatusCode::ServerError =>
                "Internal server error during payment processing",
        }
    }
}

impl Default for X402PaymentErrorStatusCode {
    fn default() -> (r: Self)
        ensures
            r == X402PaymentErrorStatusCode::PaymentRequired,
    {
        X402PaymentErrorStatusCode::PaymentRequired
    }
}

impl<'a> TryFrom<&'a str> for X402PaymentErrorStatusCode {
    type Error = X402Error;

    fn try_from(value: &'a str) -> (r: Result<Self, X402Error>) {
        X402PaymentErrorStatusCode::parse(value)
    }
}

impl<'a> vstd::std_specs::convert::TryFromSpecImpl<&'a str> for X402PaymentErrorStatusCode {
    open spec fn obeys_try_from_spec() -> bool {
        true
    }

    open spec fn try_from_spec(value: &'a str) -> Result<Self, X402Error> {
        X402PaymentErrorStatusCode::spec_parse(value@)
    }
}

/// The number under which a status class is written.
pub fn serialize_error_status_code(error_status_code: &X402PaymentErrorStatusCode) -> (r: u16)
    ensures
        r == error_status_code.spec_status_code(),
{
    error_status_code.status_code()
}

/// Reads a status class from the text that describes it.
pub fn deserialize_error_status_code(text: &str) -> (r: Result<
    X402PaymentErrorStatusCode,
    X402Error,
>)
    ensures
        r == X402PaymentErrorStatusCode::spec_parse(text@),
{
    X402PaymentErrorStatusCode::parse(text)
}

/// The canonical description of a status class reads back as that class.
pub proof fn lemma_status_description_parses(c: X402PaymentErrorStatusCode)
    ensures
        X402PaymentErrorStatusCode::spec_parse(c.spec_description()) == Ok::<
            X402PaymentErrorStatusCode,
            X402Error,
        >(c),
{
    reveal_strlit("Payment Required");
    reveal_strlit("Invalid Payment");
    reveal_strlit("Payment Failed");
    reveal_strlit("Server Error");
    let d = c.spec_description();
    assert(d.subrange(0, 0 + d.len() as int) == d);
}

} // verus!
