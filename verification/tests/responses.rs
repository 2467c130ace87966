use x402::{JsonCodec, 
    Authorization, BlockchainKind, DiscoveryPayload, DiscoveryRequest, PayloadPagination,
    PaymentPayload, PaymentRequestExtras, PaymentRequirements, PaymentRequirementsBuilder,
    PaymentRequirementsResponse, PaymentScheme, ResourceInfo, ResourceInfoMetadata, SchemeKind,
    SchemePayload, SettlementResponse, SettlementResponseError, SupportedBlockchains,
    SupportedSchemes, VerifyPayload, VerifyPayloadResponse, X402Error,
    X402PaymentErrorStatusCode, X402SolanaNetworkInfo, X402Version, XPaymentPayload,
};

fn requirement(amount: u64, recipient: &str) -> PaymentRequirements {
    let mut builder = PaymentRequirementsBuilder::new();
    builder
        .set_amount(amount)
        .set_asset("Asset1")
        .set_recipient(recipient)
        .set_resource("https://api.example.com/data")
        .set_description("dataset access")
        .set_max_timeout(60)
        .set_extra(PaymentRequestExtras::new("FeeAddr"));
    builder.build().unwrap()
}

const REQUIREMENT_A: &str = "{\"scheme\":\"exact\",\"network\":\"solana-devnet\",\
    \"maxAmountRequired\":1,\"asset\":\"Asset1\",\"payTo\":\"A\",\
    \"resource\":\"https://api.example.com/data\",\"description\":\"dataset access\",\
    \"outputSchema\":null,\"maxTimeoutSeconds\":60,\"extra\":{\"name\":null,\"version\":null,\
    \"feePayer\":\"FeeAddr\",\"tokenExtensionsMint\":true,\"decimals\":0,\"authority\":null}}";

#[test]
fn fresh_response_is_empty() {
    let response = PaymentRequirementsResponse::new();
    assert_eq!(response.x402_version(), X402Version::V1);
    assert_eq!(response.error(), "X-PAYMENT header is required");
    assert_eq!(response.error(), PaymentRequirementsResponse::ERROR);
    assert_eq!(response.error_reason(), "X-PAYMENT header is required");
    assert!(response.accepts().is_empty());
    assert_eq!(response, PaymentRequirementsResponse::default());
    assert_eq!(
        response.to_json(),
        "{\"x402Version\":1,\"error\":\"X-PAYMENT header is required\",\"accepts\":[]}"
    );
}

#[test]
fn accepted_requirements_keep_their_order() {
    let a = requirement(1, "A");
    let b = requirement(2, "B");
    let c = requirement(3, "C");
    let mut response = PaymentRequirementsResponse::new();
    response
        .add_payment_requirement(a.clone())
        .add_payment_requirement(b.clone())
        .add_payment_requirement(c.clone());
    assert_eq!(response.accepts(), &[a.clone(), b.clone(), c.clone()]);
    response.add_payment_requirement(a.clone());
    assert_eq!(response.accepts(), &[a.clone(), b, c, a]);
}

#[test]
fn response_is_written_and_read() {
    let mut response = PaymentRequirementsResponse::new();
    response.add_payment_requirement(requirement(1, "A"));
    assert_eq!(
        response.to_json(),
        format!(
            "{{\"x402Version\":1,\"error\":\"X-PAYMENT header is required\",\"accepts\":[{}]}}",
            REQUIREMENT_A
        )
    );
    response.add_payment_requirement(requirement(2, "B")).set_error_reason("pay first");
    let json = response.to_json();
    assert!(json.starts_with("{\"x402Version\":1,\"error\":\"pay first\",\"accepts\":[{"));
    assert!(json.find("\"payTo\":\"A\"").unwrap() < json.find("\"payTo\":\"B\"").unwrap());
    assert_eq!(PaymentRequirementsResponse::from_json(&json), Ok(response));
}

#[test]
fn malformed_responses_are_rejected() {
    let mut response = PaymentRequirementsResponse::new();
    response.add_payment_requirement(requirement(1, "A")).add_payment_requirement(requirement(2, "B"));
    let json = response.to_json();
    assert_eq!(
        PaymentRequirementsResponse::from_json(&json.replace("\"accepts\":[", "\"accepts\":{\"a\":[")),
        Err(X402Error::InvalidPayload)
    );
    assert_eq!(
        PaymentRequirementsResponse::from_json(&json.replace("\"payTo\":\"B\"", "\"payTo\":7")),
        Err(X402Error::InvalidPayload)
    );
    assert_eq!(
        PaymentRequirementsResponse::from_json(
            &json.replace("\"maxAmountRequired\":1,", "\"maxAmountRequired\":-1,")
        ),
        Err(X402Error::InvalidPayload)
    );
    assert_eq!(
        PaymentRequirementsResponse::from_json(&json.replace("\"x402Version\":1", "\"x402Version\":3")),
        Err(X402Error::InvalidX402Version)
    );
}

#[test]
fn settlement_is_configured_by_setters() {
    let mut settlement: SettlementResponse<u64> = SettlementResponse::new(true);
    assert!(settlement.success());
    assert_eq!(settlement.transaction(), None);
    assert_eq!(settlement.network(), X402SolanaNetworkInfo::Devnet);
    assert_eq!(settlement.payer(), "");
    assert_eq!(settlement.timestamp(), "");
    assert_eq!(*settlement.data(), 0);
    settlement
        .set_transaction_signature("5sig")
        .set_data(7)
        .set_timestamp("2024-01-15T10:30:00Z")
        .set_payer("Payer1")
        .set_mainnet();
    assert_eq!(settlement.transaction(), Some("5sig"));
    assert_eq!(*settlement.data(), 7);
    assert_eq!(settlement.timestamp(), "2024-01-15T10:30:00Z");
    assert_eq!(settlement.payer(), "Payer1");
    assert_eq!(settlement.network(), X402SolanaNetworkInfo::Mainnet);
    assert_eq!(settlement.set_testnet().network(), X402SolanaNetworkInfo::Testnet);
    assert_eq!(settlement.set_localnet().network(), X402SolanaNetworkInfo::Localnet);
    assert_eq!(settlement.set_devnet().network(), X402SolanaNetworkInfo::Devnet);
    assert_eq!(
        settlement.to_json_with("7"),
        "{\"success\":true,\"transaction\":\"5sig\",\"network\":\"solana-devnet\",\
         \"payer\":\"Payer1\",\"data\":7,\"timestamp\":\"2024-01-15T10:30:00Z\"}"
    );
    let failed = SettlementResponse::with_data(false, String::from("note"));
    assert!(!failed.success());
    assert_eq!(failed.data(), "note");
    assert_eq!(
        failed.to_json_with("\"note\""),
        "{\"success\":false,\"transaction\":null,\"network\":\"solana-devnet\",\"payer\":\"\",\
         \"data\":\"note\",\"timestamp\":\"\"}"
    );
}

#[test]
fn settlement_error_has_a_status_line() {
    let mut response = PaymentRequirementsResponse::new();
    response.add_payment_requirement(requirement(1, "A"));
    let error = SettlementResponseError::new(response.clone());
    assert_eq!(error.status_code(), 402);
    assert_eq!(error.status_code_description(), "Payment Required");
    assert_eq!(error.error_header(), "402 Payment Required");
    assert_eq!(error.error_reason(), "X-PAYMENT header is required");
    assert_eq!(error.x402_version(), X402Version::V1);
    assert_eq!(error.accepts(), response.accepts());
    assert_eq!(error.inner(), &response);
    let invalid = error.clone().set_status_code(X402PaymentErrorStatusCode::InvalidPayment);
    assert_eq!(invalid.error_header(), "400 Invalid Payment");
    let failed = error.clone().set_status_code(X402PaymentErrorStatusCode::PaymentFailed);
    assert_eq!(failed.error_header(), "402 Payment Failed");
    let server = error.clone().set_status_code(X402PaymentErrorStatusCode::ServerError);
    assert_eq!(server.error_header(), "500 Server Error");
    assert_eq!(server.status_code(), 500);
    let renamed = server.set_error_reason("insufficient_funds");
    assert_eq!(renamed.error_reason(), "insufficient_funds");
    assert_eq!(renamed.status_code(), 500);
    assert_eq!(renamed.accepts(), response.accepts());
    assert_eq!(error.take(), response);
}

#[test]
fn supported_schemes_keep_their_order() {
    let devnet = SchemeKind::default();
    let mainnet = SchemeKind { network: X402SolanaNetworkInfo::Mainnet, ..devnet };
    let testnet = SchemeKind { network: X402SolanaNetworkInfo::Testnet, ..devnet };
    let mut supported = SupportedSchemes::new();
    assert!(supported.kinds().is_empty());
    assert_eq!(supported.to_json(), "{\"kinds\":[]}");
    supported.add_kind(mainnet).add_kinds(&[devnet, testnet]).add_kinds(&[]);
    assert_eq!(supported.kinds(), &[mainnet, devnet, testnet]);
    assert_eq!(
        supported.to_json(),
        "{\"kinds\":[{\"x402Version\":1,\"scheme\":\"exact\",\"network\":\"solana-mainnet\"},\
         {\"x402Version\":1,\"scheme\":\"exact\",\"network\":\"solana-devnet\"},\
         {\"x402Version\":1,\"scheme\":\"exact\",\"network\":\"solana-testnet\"}]}"
    );
    assert_eq!(SupportedSchemes::from_json(&supported.to_json()), Ok(supported));
    assert_eq!(
        SupportedSchemes::from_json("{\"kinds\":[{\"x402Version\":\"1\",\"scheme\":\"exact\",\"network\":\"solana:localnet\"}]}")
            .unwrap()
            .kinds(),
        &[SchemeKind { network: X402SolanaNetworkInfo::Localnet, ..devnet }]
    );
    assert_eq!(SupportedSchemes::from_json("{}"), Err(X402Error::InvalidPayload));
    assert_eq!(
        SupportedSchemes::from_json("{\"kinds\":[{\"x402Version\":1,\"scheme\":\"exact\",\"network\":\"x\"}]}"),
        Err(X402Error::InvalidNetwork)
    );
}

#[test]
fn supported_blockchains_are_written_and_read() {
    let supported = SupportedBlockchains {
        kinds: vec![BlockchainKind {
            x402_version: 1,
            scheme: PaymentScheme::Exact,
            network: String::from("base-sepolia"),
        }],
    };
    assert_eq!(
        supported.to_json(),
        "{\"kinds\":[{\"x402Version\":1,\"scheme\":\"exact\",\"network\":\"base-sepolia\"}]}"
    );
    assert_eq!(SupportedBlockchains::from_json(&supported.to_json()), Ok(supported));
}

#[test]
fn verify_request_and_answer_are_written_and_read() {
    let request = VerifyPayload {
        payment_payload: XPaymentPayload::from_encoded("aGVsbG8="),
        payment_requirements: requirement(1, "A"),
    };
    assert_eq!(
        request.to_json(),
        format!(
            "{{\"paymentPayload\":{{\"transaction\":\"aGVsbG8=\"}},\"paymentRequirements\":{}}}",
            REQUIREMENT_A
        )
    );
    assert_eq!(VerifyPayload::from_json(&request.to_json()), Ok(request));
    let valid = VerifyPayloadResponse {
        is_valid: true,
        invalid_reason: None,
        payer: String::from("Payer1"),
    };
    assert_eq!(valid.to_json(), "{\"isValid\":true,\"invalidReason\":null,\"payer\":\"Payer1\"}");
    assert_eq!(VerifyPayloadResponse::from_json(&valid.to_json()), Ok(valid));
    let invalid = VerifyPayloadResponse {
        is_valid: false,
        invalid_reason: Some(String::from("insufficient_funds")),
        payer: String::from("Payer1"),
    };
    assert_eq!(
        invalid.to_json(),
        "{\"isValid\":false,\"invalidReason\":\"insufficient_funds\",\"payer\":\"Payer1\"}"
    );
    assert_eq!(VerifyPayloadResponse::from_json(&invalid.to_json()), Ok(invalid));
    assert_eq!(
        VerifyPayloadResponse::from_json("{\"isValid\":\"yes\",\"payer\":\"P\"}"),
        Err(X402Error::InvalidPayload)
    );
}

#[test]
fn discovery_page_is_written_and_read() {
    let entry = ResourceInfo {
        resource: String::from("https://api.example.com/data"),
        resource_type: Some(String::from("http")),
        x402_version: 1,
        accepts: vec![requirement(1, "A")],
        last_updated: 1700000000,
        metadata: Some(ResourceInfoMetadata {
            category: String::from("finance"),
            provider: String::from("Example"),
            agent_card: None,
        }),
        header_image: None,
        title: Some(String::from("Data")),
        description: None,
    };
    assert_eq!(
        entry.to_json(),
        format!(
            "{{\"resource\":\"https://api.example.com/data\",\"type\":\"http\",\"x402Version\":1,\
             \"accepts\":[{}],\"lastUpdated\":1700000000,\"metadata\":{{\"category\":\"finance\",\
             \"provider\":\"Example\"}},\"title\":\"Data\",\"description\":null}}",
            REQUIREMENT_A
        )
    );
    let bare = ResourceInfo {
        resource: String::from("r"),
        resource_type: None,
        x402_version: 1,
        accepts: Vec::new(),
        last_updated: 0,
        metadata: None,
        header_image: Some(String::from("https://img.example.com/a.png")),
        title: None,
        description: Some(String::from("d")),
    };
    assert_eq!(
        bare.to_json(),
        "{\"resource\":\"r\",\"type\":null,\"x402Version\":1,\"accepts\":[],\"lastUpdated\":0,\
         \"metadata\":null,\"headerImage\":\"https://img.example.com/a.png\",\
         \"description\":\"d\"}"
    );
    let page = DiscoveryPayload {
        x402_version: 1,
        items: vec![entry, bare],
        pagination: PayloadPagination { limit: Some(20), offset: 0, total: Some(2) },
    };
    let json = page.to_json();
    assert!(json.ends_with("\"pagination\":{\"limit\":20,\"offset\":0,\"total\":2}}"));
    assert_eq!(DiscoveryPayload::from_json(&json), Ok(page));
    assert_eq!(
        PayloadPagination::default().to_json(),
        "{\"limit\":null,\"offset\":0,\"total\":null}"
    );
    assert_eq!(
        PayloadPagination::from_json("{\"offset\":3}"),
        Ok(PayloadPagination { limit: None, offset: 3, total: None })
    );
    let with_card = ResourceInfoMetadata {
        category: String::from("c"),
        provider: String::from("p"),
        agent_card: Some(String::from("https://example.com/agent.json")),
    };
    assert_eq!(
        with_card.to_json(),
        "{\"category\":\"c\",\"provider\":\"p\",\"agentCard\":\"https://example.com/agent.json\"}"
    );
    assert_eq!(ResourceInfoMetadata::from_json(&with_card.to_json()), Ok(with_card));
}

#[test]
fn discovery_request_is_written_and_read() {
    let request = DiscoveryRequest { resource_type: String::from("http"), limit: 10, offset: None };
    assert_eq!(request.to_json(), "{\"type\":\"http\",\"limit\":10,\"offset\":null}");
    assert_eq!(DiscoveryRequest::from_json(&request.to_json()), Ok(request));
    let later = DiscoveryRequest { resource_type: String::from("http"), limit: 10, offset: Some(30) };
    assert_eq!(later.to_json(), "{\"type\":\"http\",\"limit\":10,\"offset\":30}");
    assert_eq!(DiscoveryRequest::from_json(&later.to_json()), Ok(later));
}

#[test]
fn signed_payment_is_written_and_read() {
    let payment = PaymentPayload {
        x402_version: 1,
        scheme: PaymentScheme::Exact,
        network: X402SolanaNetworkInfo::Testnet,
        payload: SchemePayload {
            signature: String::from("0xsig"),
            authorization: Authorization {
                from: String::from("0xfrom"),
                to: String::from("0xto"),
                value: String::from("10000"),
                valid_after: String::from("1740672089"),
                valid_before: String::from("1740672154"),
                nonce: String::from("0xnonce"),
            },
        },
    };
    assert_eq!(
        payment.to_json(),
        "{\"x402Version\":1,\"scheme\":\"exact\",\"network\":\"solana-testnet\",\
         \"payload\":{\"signature\":\"0xsig\",\"authorization\":{\"from\":\"0xfrom\",\
         \"to\":\"0xto\",\"value\":\"10000\",\"validAfter\":\"1740672089\",\
         \"validBefore\":\"1740672154\",\"nonce\":\"0xnonce\"}}}"
    );
    assert_eq!(PaymentPayload::from_json(&payment.to_json()), Ok(payment));
    assert_eq!(
        PaymentPayload::from_json("{\"x402Version\":1,\"scheme\":\"exact\",\"network\":\"devnet\",\"payload\":{\"transaction\":\"Zm9v\"}}"),
        Err(X402Error::InvalidPayload)
    );
}

#[test]
fn settlement_is_built_and_read_as_a_json_value() {
    let mut settlement = SettlementResponse::with_data(true, 7u64);
    settlement.set_transaction_signature("5sig").set_payer("Payer1").set_testnet();
    settlement.set_timestamp("2024-01-15T10:30:00Z");
    let document = settlement.to_document_with(serde_json::Value::from(7u64));
    let text: serde_json::Value = serde_json::from_str(&settlement.to_json_with("7")).unwrap();
    assert_eq!(document, text);
    let data = SettlementResponse::<u64>::data_member(&document).and_then(|v| v.as_u64());
    assert_eq!(data, Some(7));
    assert_eq!(SettlementResponse::from_document_with(&document, 7u64), Ok(settlement));
    let broken: serde_json::Value =
        serde_json::from_str("{\"success\":true,\"network\":\"solana-devnet\"}").unwrap();
    assert_eq!(
        SettlementResponse::from_document_with(&broken, 0u64),
        Err(X402Error::InvalidPayload)
    );
    let no_network: serde_json::Value = serde_json::from_str("{\"success\":false}").unwrap();
    assert_eq!(
        SettlementResponse::from_document_with(&no_network, 0u64),
        Err(X402Error::InvalidNetwork)
    );
}

#[test]
fn built_values_agree_with_written_text() {
    let mut response = PaymentRequirementsResponse::new();
    response.add_payment_requirement(requirement(1, "A")).add_payment_requirement(requirement(2, "B"));
    let parsed: serde_json::Value = serde_json::from_str(&response.to_json()).unwrap();
    assert_eq!(response.to_document(), parsed);
    assert_eq!(PaymentRequirementsResponse::from_document(&response.to_document()), Ok(response));
    let kinds = SupportedSchemes::new();
    let parsed: serde_json::Value = serde_json::from_str(&kinds.to_json()).unwrap();
    assert_eq!(kinds.to_document(), parsed);
    let page = DiscoveryPayload {
        x402_version: 1,
        items: Vec::new(),
        pagination: PayloadPagination { limit: None, offset: 5, total: Some(9) },
    };
    let parsed: serde_json::Value = serde_json::from_str(&page.to_json()).unwrap();
    assert_eq!(page.to_document(), parsed);
    assert_eq!(DiscoveryPayload::from_document(&page.to_document()), Ok(page));
}
