use x402::text::decimal_string;
use x402::{
    deserialize_error_status_code, deserialize_mime, deserialize_network,
    deserialize_x402_version, serialize_error_status_code, serialize_mime, serialize_network,
    serialize_x402_version, BlockchainNetwork, MimeType, PaymentScheme, X402Error,
    X402PaymentErrorStatusCode, X402SolanaNetworkInfo, X402Version,
};

const CODES: [(&str, X402Error); 15] = [
    ("insufficient_funds", X402Error::InsufficientFunds),
    (
        "invalid_exact_evm_payload_authorization_valid_after",
        X402Error::InvalidExactSvmPayloadAuthorizationValidAfter,
    ),
    (
        "invalid_exact_evm_payload_authorization_valid_before",
        X402Error::InvalidExactSvmPayloadAuthorizationValidBefore,
    ),
    (
        "invalid_exact_evm_payload_authorization_value",
        X402Error::InvalidExactSvmPayloadAuthorizationValue,
    ),
    ("invalid_exact_evm_payload_signature", X402Error::InvalidExactSvmPayloadSignature),
    (
        "invalid_exact_evm_payload_recipient_mismatch",
        X402Error::InvalidExactSvmPayloadRecipientMismatch,
    ),
    ("invalid_network", X402Error::InvalidNetwork),
    ("invalid_payload", X402Error::InvalidPayload),
    ("invalid_payment_requirements", X402Error::InvalidPaymentRequirements),
    ("invalid_scheme", X402Error::InvalidScheme),
    ("unsupported_scheme", X402Error::UnsupportedScheme),
    ("invalid_x402_version", X402Error::InvalidX402Version),
    ("invalid_transaction_state", X402Error::InvalidTransactionState),
    ("unexpected_verify_error", X402Error::UnexpectedVerifyError),
    ("unexpected_settle_error", X402Error::UnexpectedSettleError),
];

const NETWORKS: [X402SolanaNetworkInfo; 4] = [
    X402SolanaNetworkInfo::Mainnet,
    X402SolanaNetworkInfo::Testnet,
    X402SolanaNetworkInfo::Devnet,
    X402SolanaNetworkInfo::Localnet,
];

const STATUSES: [X402PaymentErrorStatusCode; 4] = [
    X402PaymentErrorStatusCode::PaymentRequired,
    X402PaymentErrorStatusCode::InvalidPayment,
    X402PaymentErrorStatusCode::PaymentFailed,
    X402PaymentErrorStatusCode::ServerError,
];

#[test]
fn version_one_is_the_only_version() {
    assert_eq!(X402Version::try_from(1u8), Ok(X402Version::V1));
    for other in [0u8, 2, 3, 255] {
        assert_eq!(X402Version::try_from(other), Err(X402Error::InvalidX402Version));
    }
    assert_eq!(X402Version::V1.number(), 1);
    assert_eq!(serialize_x402_version(&X402Version::V1), 1);
    assert_eq!(X402Version::default(), X402Version::V1);
    assert_eq!(X402Version::try_from(X402Version::V1.number()), Ok(X402Version::V1));
}

#[test]
fn version_is_read_from_decimal_text() {
    for text in ["1", "+1", "01", "0001"] {
        assert_eq!(deserialize_x402_version(text), Ok(X402Version::V1));
    }
    for text in ["", "+", "2", "0", "one", "1 ", " 1", "-1", "++1", "1.0", "256", "1000"] {
        assert_eq!(deserialize_x402_version(text), Err(X402Error::InvalidX402Version));
    }
}

#[test]
fn scheme_name_round_trips() {
    assert_eq!(PaymentScheme::Exact.as_str(), "exact");
    assert_eq!(PaymentScheme::try_from("exact"), Ok(PaymentScheme::Exact));
    assert_eq!(PaymentScheme::try_from(PaymentScheme::Exact.as_str()), Ok(PaymentScheme::Exact));
    for text in ["Exact", "EXACT", "", "exact ", "upto"] {
        assert_eq!(PaymentScheme::try_from(text), Err(X402Error::InvalidScheme));
    }
    assert_eq!(PaymentScheme::default(), PaymentScheme::Exact);
}

#[test]
fn mime_string_round_trips() {
    assert_eq!(MimeType::Json.as_str(), "application/json");
    assert_eq!(MimeType::Binary.as_str(), "application/octet-stream");
    assert_eq!(MimeType::JSON_MIME, "application/json");
    assert_eq!(MimeType::BINARY_MIME, "application/octet-stream");
    for mime in [MimeType::Json, MimeType::Binary] {
        assert_eq!(MimeType::try_from(mime.as_str()), Ok(mime));
    }
    for text in ["", "application/JSON", "text/plain", "application/json "] {
        assert_eq!(MimeType::try_from(text), Err(X402Error::UnsupportedX402MimeType));
    }
    assert_eq!(MimeType::default(), MimeType::Json);
}

#[test]
fn optional_mime_is_written_and_read() {
    assert_eq!(serialize_mime(&None), None);
    assert_eq!(serialize_mime(&Some(MimeType::Json)), Some("application/json"));
    assert_eq!(serialize_mime(&Some(MimeType::Binary)), Some("application/octet-stream"));
    assert_eq!(deserialize_mime(None), Ok(None));
    assert_eq!(deserialize_mime(Some("application/json")), Ok(Some(MimeType::Json)));
    assert_eq!(
        deserialize_mime(Some("application/octet-stream")),
        Ok(Some(MimeType::Binary))
    );
    assert_eq!(deserialize_mime(Some("image/png")), Err(X402Error::UnsupportedX402MimeType));
    for mime in [None, Some(MimeType::Json), Some(MimeType::Binary)] {
        assert_eq!(deserialize_mime(serialize_mime(&mime)), Ok(mime));
    }
}

#[test]
fn network_has_three_identifiers() {
    let expected = [
        ("mainnet", "solana:mainnet", "solana-mainnet"),
        ("testnet", "solana:testnet", "solana-testnet"),
        ("devnet", "solana:devnet", "solana-devnet"),
        ("localnet", "solana:localnet", "solana-localnet"),
    ];
    for (network, (short, chain, wire)) in NETWORKS.iter().zip(expected) {
        assert_eq!(network.identifier(), short);
        assert_eq!(network.chain(), chain);
        assert_eq!(network.x402_identifier(), wire);
        assert_eq!(serialize_network(network), wire);
    }
    assert_eq!(X402SolanaNetworkInfo::MAINNET, "mainnet");
    assert_eq!(X402SolanaNetworkInfo::DEVNET_CHAIN, "solana:devnet");
    assert_eq!(X402SolanaNetworkInfo::LOCALNET_X402, "solana-localnet");
    assert_eq!(X402SolanaNetworkInfo::default(), X402SolanaNetworkInfo::Devnet);
}

#[test]
fn network_accepts_each_of_its_three_identifiers() {
    for text in ["solana:mainnet", "mainnet", "solana-mainnet"] {
        assert_eq!(X402SolanaNetworkInfo::try_from(text), Ok(X402SolanaNetworkInfo::Mainnet));
    }
    for network in NETWORKS {
        assert_eq!(X402SolanaNetworkInfo::try_from(network.identifier()), Ok(network));
        assert_eq!(X402SolanaNetworkInfo::try_from(network.chain()), Ok(network));
        assert_eq!(X402SolanaNetworkInfo::try_from(network.x402_identifier()), Ok(network));
        assert_eq!(deserialize_network(serialize_network(&network)), Ok(network));
    }
}

#[test]
fn unknown_network_is_rejected() {
    for text in ["", "Mainnet", "solana_mainnet", "solana-mainnet ", "base-sepolia", "solana"] {
        assert_eq!(X402SolanaNetworkInfo::try_from(text), Err(X402Error::InvalidNetwork));
        assert_eq!(deserialize_network(text), Err(X402Error::InvalidNetwork));
    }
}

#[test]
fn error_codes_round_trip() {
    for (code, kind) in CODES {
        assert_eq!(X402Error::try_from(code), Ok(kind));
        assert_eq!(kind.code(), Some(code));
        assert_eq!(X402Error::try_from(kind.code().unwrap()), Ok(kind));
    }
}

#[test]
fn unknown_error_code_is_unsupported() {
    for text in ["not_a_real_code", "", "Insufficient_Funds", "insufficient_funds "] {
        assert_eq!(X402Error::try_from(text), Err(X402Error::UnsupportedX402Error));
    }
}

#[test]
fn local_error_kinds_have_no_code() {
    for kind in [
        X402Error::UnsupportedX402MimeType,
        X402Error::UnsupportedX402Error,
        X402Error::MaxAmountIsMissing,
        X402Error::AssetIsMissing,
        X402Error::PayToIsMissing,
        X402Error::ResourceIsMissing,
        X402Error::DescriptionIsMissing,
        X402Error::MimeTypeMissing,
        X402Error::MaxTimeoutIsMissing,
        X402Error::ExtraIsMissing,
        X402Error::UnsupportedX402StatusCodeError,
    ] {
        assert_eq!(kind.code(), None);
    }
}

#[test]
fn error_messages_are_the_canonical_ones() {
    assert_eq!(X402Error::InvalidNetwork.message(), "Invalid blockchain network");
    assert_eq!(X402Error::InvalidX402Version.message(), "Invalid x402 version");
    assert_eq!(
        X402Error::MaxAmountIsMissing.message(),
        "The maximum amount required is missing. Unable to build the payment requirements."
    );
    assert_eq!(X402Error::UnsupportedX402Error.message(), "Unsupported error");
}

#[test]
fn status_classes_have_their_numbers_and_texts() {
    let expected = [
        (402u16, "Payment Required", "Payment needed to access resource"),
        (400, "Invalid Payment", "Malformed payment payload or requirements"),
        (402, "Payment Failed", "Payment verification or settlement failed"),
        (500, "Server Error", "Internal server error during payment processing"),
    ];
    for (status, (number, description, info)) in STATUSES.iter().zip(expected) {
        assert_eq!(status.status_code(), number);
        assert_eq!(serialize_error_status_code(status), number);
        assert_eq!(status.description(), description);
        assert_eq!(status.info(), info);
    }
    assert_eq!(X402PaymentErrorStatusCode::default(), X402PaymentErrorStatusCode::PaymentRequired);
}

#[test]
fn status_class_is_found_by_its_description() {
    for status in STATUSES {
        assert_eq!(X402PaymentErrorStatusCode::try_from(status.description()), Ok(status));
        assert_eq!(deserialize_error_status_code(status.description()), Ok(status));
    }
    assert_eq!(
        X402PaymentErrorStatusCode::try_from("HTTP/1.1 500 Server Error, try later"),
        Ok(X402PaymentErrorStatusCode::ServerError)
    );
    assert_eq!(
        X402PaymentErrorStatusCode::try_from("Server Error after Payment Required"),
        Ok(X402PaymentErrorStatusCode::PaymentRequired)
    );
}

#[test]
fn unknown_status_description_is_rejected() {
    for text in ["", "payment required", "Server  Error", "Payment", "402"] {
        assert_eq!(
            X402PaymentErrorStatusCode::try_from(text),
            Err(X402Error::UnsupportedX402StatusCodeError)
        );
    }
}

#[test]
fn numbers_are_written_in_decimal() {
    assert_eq!(decimal_string(0), "0");
    assert_eq!(decimal_string(7), "7");
    assert_eq!(decimal_string(10), "10");
    assert_eq!(decimal_string(1000000), "1000000");
    assert_eq!(decimal_string(u64::MAX), "18446744073709551615");
}

#[test]
fn parse_agrees_with_try_from() {
    assert_eq!(X402Version::parse(1), Ok(X402Version::V1));
    assert_eq!(X402Version::parse(9), Err(X402Error::InvalidX402Version));
    assert_eq!(PaymentScheme::parse("exact"), Ok(PaymentScheme::Exact));
    assert_eq!(PaymentScheme::parse("inexact"), Err(X402Error::InvalidScheme));
    assert_eq!(MimeType::parse("application/octet-stream"), Ok(MimeType::Binary));
    assert_eq!(MimeType::parse("application/xml"), Err(X402Error::UnsupportedX402MimeType));
    assert_eq!(X402SolanaNetworkInfo::parse("solana:localnet"), Ok(X402SolanaNetworkInfo::Localnet));
    assert_eq!(X402SolanaNetworkInfo::parse("localhost"), Err(X402Error::InvalidNetwork));
    assert_eq!(X402Error::parse("invalid_payload"), Ok(X402Error::InvalidPayload));
    assert_eq!(X402Error::parse("not_a_real_code"), Err(X402Error::UnsupportedX402Error));
    assert_eq!(
        X402PaymentErrorStatusCode::parse("402 Payment Failed"),
        Ok(X402PaymentErrorStatusCode::PaymentFailed)
    );
    assert_eq!(
        X402PaymentErrorStatusCode::parse("teapot"),
        Err(X402Error::UnsupportedX402StatusCodeError)
    );
}

#[test]
fn mime_type_converts_into_its_string() {
    let json: &str = MimeType::Json.into();
    let binary: &'static str = MimeType::Binary.into();
    assert_eq!(json, "application/json");
    assert_eq!(binary, "application/octet-stream");
}
