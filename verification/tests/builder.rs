use std::time::Duration;

use x402::{JsonCodec, 
    MimeType, PaymentRequestExtras, PaymentRequirements, PaymentRequirementsBuilder,
    PaymentScheme, X402Error, X402SolanaNetworkInfo,
};

const ASSET: &str = "So11111111111111111111111111111111111111112";

fn complete() -> PaymentRequirementsBuilder {
    let mut builder = PaymentRequirementsBuilder::new();
    builder
        .set_amount(1000000)
        .set_asset(ASSET)
        .set_recipient("Addr1")
        .set_resource("https://api.example.com/data")
        .set_description("dataset access")
        .set_max_timeout_seconds(Duration::from_secs(60))
        .set_extra(PaymentRequestExtras::new("FeeAddr"));
    builder
}

#[test]
fn empty_builder_misses_the_amount() {
    assert_eq!(PaymentRequirementsBuilder::new().build(), Err(X402Error::MaxAmountIsMissing));
    assert_eq!(PaymentRequirementsBuilder::default().build(), Err(X402Error::MaxAmountIsMissing));
}

#[test]
fn missing_fields_are_reported_in_order() {
    let mut builder = PaymentRequirementsBuilder::new();
    assert_eq!(builder.clone().build(), Err(X402Error::MaxAmountIsMissing));
    builder.set_amount(5);
    assert_eq!(builder.clone().build(), Err(X402Error::AssetIsMissing));
    builder.set_asset("asset");
    assert_eq!(builder.clone().build(), Err(X402Error::PayToIsMissing));
    builder.set_recipient("recipient");
    assert_eq!(builder.clone().build(), Err(X402Error::ResourceIsMissing));
    builder.set_resource("resource");
    assert_eq!(builder.clone().build(), Err(X402Error::DescriptionIsMissing));
    builder.set_description("description");
    assert_eq!(builder.clone().build(), Err(X402Error::MaxTimeoutIsMissing));
    builder.set_max_timeout(30);
    assert_eq!(builder.clone().build(), Err(X402Error::ExtraIsMissing));
    builder.set_extra(PaymentRequestExtras::new("payer"));
    assert!(builder.build().is_ok());
}

#[test]
fn the_first_missing_field_wins() {
    let mut builder = PaymentRequirementsBuilder::new();
    builder.set_extra(PaymentRequestExtras::new("payer")).set_description("d").set_amount(1);
    assert_eq!(builder.build(), Err(X402Error::AssetIsMissing));
}

#[test]
fn complete_builder_yields_its_inputs() {
    let built = complete().build().unwrap();
    assert_eq!(built.scheme(), PaymentScheme::Exact);
    assert_eq!(built.network(), X402SolanaNetworkInfo::Devnet);
    assert_eq!(built.max_amount_required(), 1000000);
    assert_eq!(built.asset(), ASSET);
    assert_eq!(built.pay_to(), "Addr1");
    assert_eq!(built.resource(), "https://api.example.com/data");
    assert_eq!(built.description(), "dataset access");
    assert_eq!(built.mime_type(), None);
    assert_eq!(built.output_schema(), None);
    assert_eq!(built.max_timeout_seconds(), 60);
    assert_eq!(built.extra(), &PaymentRequestExtras::new("FeeAddr"));
    assert_eq!(built.extra().fee_payer(), "FeeAddr");
}

#[test]
fn built_requirements_are_written_as_json() {
    let built = complete().build().unwrap();
    let json = built.to_json();
    assert!(json.contains("\"maxAmountRequired\":1000000"));
    assert!(json.contains("\"network\":\"solana-devnet\""));
    assert_eq!(
        json,
        "{\"scheme\":\"exact\",\"network\":\"solana-devnet\",\"maxAmountRequired\":1000000,\
         \"asset\":\"So11111111111111111111111111111111111111112\",\"payTo\":\"Addr1\",\
         \"resource\":\"https://api.example.com/data\",\"description\":\"dataset access\",\
         \"outputSchema\":null,\"maxTimeoutSeconds\":60,\"extra\":{\"name\":null,\
         \"version\":null,\"feePayer\":\"FeeAddr\",\"tokenExtensionsMint\":true,\
         \"decimals\":0,\"authority\":null}}"
    );
}

#[test]
fn written_requirements_read_back() {
    let mut builder = complete();
    builder.use_mainnet().set_mime_as_binary().set_output_schema_text("{\"type\":\"object\"}");
    builder.set_extra(
        PaymentRequestExtras::new("FeeAddr")
            .set_name("USDC")
            .set_version("2")
            .set_decimals(6)
            .set_authority("Auth")
            .set_title("A \"quoted\" title")
            .set_header_image("https://img.example.com/a.png")
            .set_legacy_token_mint(),
    );
    let built = builder.build().unwrap();
    let json = built.to_json();
    assert!(json.contains("\"mimeType\":\"application/octet-stream\""));
    assert!(json.contains("\"outputSchema\":\"{\\\"type\\\":\\\"object\\\"}\""));
    assert!(json.contains("\"title\":\"A \\\"quoted\\\" title\""));
    assert_eq!(PaymentRequirements::from_json(&json), Ok(built));
}

#[test]
fn plain_requirements_read_back() {
    let built = complete().build().unwrap();
    assert_eq!(PaymentRequirements::from_json(&built.to_json()), Ok(built));
}

#[test]
fn requirements_accept_the_chain_form_of_a_network() {
    let json = complete().build().unwrap().to_json().replace("solana-devnet", "solana:testnet");
    let read = PaymentRequirements::from_json(&json).unwrap();
    assert_eq!(read.network(), X402SolanaNetworkInfo::Testnet);
    assert!(read.to_json().contains("\"network\":\"solana-testnet\""));
}

#[test]
fn malformed_requirements_are_rejected() {
    let json = complete().build().unwrap().to_json();
    assert_eq!(PaymentRequirements::from_json("not json"), Err(X402Error::InvalidPayload));
    assert_eq!(PaymentRequirements::from_json("[]"), Err(X402Error::InvalidScheme));
    assert_eq!(
        PaymentRequirements::from_json(&json.replace("\"exact\"", "\"upto\"")),
        Err(X402Error::InvalidScheme)
    );
    assert_eq!(
        PaymentRequirements::from_json(&json.replace("solana-devnet", "base")),
        Err(X402Error::InvalidNetwork)
    );
    assert_eq!(
        PaymentRequirements::from_json(&json.replace("1000000", "\"1000000\"")),
        Err(X402Error::InvalidPayload)
    );
    assert_eq!(
        PaymentRequirements::from_json(&json.replace("\"payTo\"", "\"pay_to\"")),
        Err(X402Error::InvalidPayload)
    );
    assert_eq!(
        PaymentRequirements::from_json(
            &json.replace("\"outputSchema\":null", "\"outputSchema\":null,\"mimeType\":\"x\"")
        ),
        Err(X402Error::UnsupportedX402MimeType)
    );
    assert_eq!(
        PaymentRequirements::from_json(&json.replace("\"decimals\":0", "\"decimals\":256")),
        Err(X402Error::InvalidPayload)
    );
}

#[test]
fn builder_setters_take_the_last_value() {
    let mut builder = complete();
    builder.use_mainnet().use_testnet().use_localhost();
    builder.set_mime_as_binary().set_mime_as_json();
    builder.set_amount(1).set_amount(2);
    let built = builder.build().unwrap();
    assert_eq!(built.network(), X402SolanaNetworkInfo::Localnet);
    assert_eq!(built.mime_type(), Some(MimeType::Json));
    assert_eq!(built.max_amount_required(), 2);
    let mut builder = complete();
    builder.use_mainnet().use_devnet();
    assert_eq!(builder.build().unwrap().network(), X402SolanaNetworkInfo::Devnet);
}

#[test]
fn output_schema_is_the_display_of_a_json_value() {
    let schema = jzon::parse("{ \"type\" : \"object\", \"required\" : [ \"id\" ] }").unwrap();
    let mut builder = complete();
    builder.set_output_schema(schema);
    let built = builder.build().unwrap();
    assert_eq!(built.output_schema(), Some("{\"type\":\"object\",\"required\":[\"id\"]}"));
}

#[test]
fn timeout_is_the_whole_seconds_of_a_duration() {
    let mut builder = complete();
    builder.set_max_timeout_seconds(Duration::from_millis(90_999));
    assert_eq!(builder.build().unwrap().max_timeout_seconds(), 90);
}

#[test]
fn extras_start_from_the_fee_payer() {
    let extras = PaymentRequestExtras::new("FeeAddr");
    assert_eq!(extras.fee_payer(), "FeeAddr");
    assert_eq!(extras.name(), None);
    assert_eq!(extras.version(), None);
    assert!(extras.token_extensions_mint());
    assert_eq!(extras.decimals(), 0);
    assert_eq!(extras.authority(), None);
    assert_eq!(extras.title(), None);
    assert_eq!(extras.header_image(), None);
    assert_eq!(
        extras.to_json(),
        "{\"name\":null,\"version\":null,\"feePayer\":\"FeeAddr\",\"tokenExtensionsMint\":true,\
         \"decimals\":0,\"authority\":null}"
    );
}

#[test]
fn extras_setters_change_one_field_each() {
    let extras = PaymentRequestExtras::new("FeeAddr")
        .set_name("USDC")
        .set_version("2")
        .set_legacy_token_mint()
        .set_authority("Auth")
        .set_decimals(6)
        .set_title("Title")
        .set_header_image("https://img.example.com/a.png");
    assert_eq!(extras.fee_payer(), "FeeAddr");
    assert_eq!(extras.name(), Some("USDC"));
    assert_eq!(extras.version(), Some("2"));
    assert!(!extras.token_extensions_mint());
    assert_eq!(extras.authority(), Some("Auth"));
    assert_eq!(extras.decimals(), 6);
    assert_eq!(extras.title(), Some("Title"));
    assert_eq!(extras.header_image(), Some("https://img.example.com/a.png"));
    assert!(extras.clone().set_token_extensions_mint().token_extensions_mint());
    assert_eq!(
        extras.to_json(),
        "{\"name\":\"USDC\",\"version\":\"2\",\"feePayer\":\"FeeAddr\",\
         \"tokenExtensionsMint\":false,\"decimals\":6,\"authority\":\"Auth\",\
         \"headerImage\":\"https://img.example.com/a.png\",\"title\":\"Title\"}"
    );
    assert_eq!(PaymentRequestExtras::from_json(&extras.to_json()), Ok(extras));
}

#[test]
fn strings_are_escaped_as_json() {
    let extras = PaymentRequestExtras::new("a\"b\\c\nd\te\u{1}f\u{e9}");
    assert_eq!(
        extras.to_json(),
        "{\"name\":null,\"version\":null,\"feePayer\":\"a\\\"b\\\\c\\nd\\te\\u0001f\u{e9}\",\
         \"tokenExtensionsMint\":true,\"decimals\":0,\"authority\":null}"
    );
    assert_eq!(PaymentRequestExtras::from_json(&extras.to_json()), Ok(extras));
}
