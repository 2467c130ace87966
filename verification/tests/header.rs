use x402::{JsonCodec, 
    PaymentScheme, X402Error, X402SolanaNetworkInfo, X402Version, XPaymentHeader,
    XPaymentPayload, XPaymentResponse,
};

#[test]
fn header_holds_the_transaction_in_base64() {
    let header = XPaymentHeader::new(b"hello");
    assert_eq!(header.payload_transaction(), "aGVsbG8=");
    assert_eq!(header.payload().transaction(), "aGVsbG8=");
    assert_eq!(header.x402_version(), X402Version::V1);
    assert_eq!(header.scheme(), PaymentScheme::Exact);
    assert_eq!(header.network(), X402SolanaNetworkInfo::Devnet);
    assert_eq!(header.transaction_bytes(), Ok(b"hello".to_vec()));
}

#[test]
fn base64_is_the_standard_padded_alphabet() {
    assert_eq!(XPaymentHeader::new(b"").payload_transaction(), "");
    assert_eq!(XPaymentHeader::new(b"f").payload_transaction(), "Zg==");
    assert_eq!(XPaymentHeader::new(b"fo").payload_transaction(), "Zm8=");
    assert_eq!(XPaymentHeader::new(b"foo").payload_transaction(), "Zm9v");
    assert_eq!(XPaymentHeader::new(&[0xfb, 0xff, 0xfe]).payload_transaction(), "+//+");
}

#[test]
fn transaction_bytes_come_back() {
    let bytes: Vec<u8> = (0..=255u8).collect();
    let header = XPaymentHeader::try_new(&bytes).unwrap();
    assert_eq!(header.transaction_bytes(), Ok(bytes));
}

#[test]
fn malformed_base64_is_an_invalid_payload() {
    let header = XPaymentHeader::from_parts(
        X402Version::V1,
        PaymentScheme::Exact,
        X402SolanaNetworkInfo::Mainnet,
        XPaymentPayload::from_encoded("not base64!"),
    );
    assert_eq!(header.payload_transaction(), "not base64!");
    assert_eq!(header.transaction_bytes(), Err(X402Error::InvalidPayload));
}

#[test]
fn header_setters_choose_the_network() {
    let header = XPaymentHeader::new(b"tx");
    assert_eq!(header.clone().use_mainnet().network(), X402SolanaNetworkInfo::Mainnet);
    assert_eq!(header.clone().use_testnet().network(), X402SolanaNetworkInfo::Testnet);
    assert_eq!(header.clone().use_localnet().network(), X402SolanaNetworkInfo::Localnet);
    assert_eq!(header.clone().use_mainnet().use_devnet().network(), X402SolanaNetworkInfo::Devnet);
    let changed = header.clone().use_mainnet().change_x402_version(X402Version::V1);
    assert_eq!(changed.x402_version(), X402Version::V1);
    assert_eq!(changed.payload_transaction(), header.payload_transaction());
}

#[test]
fn header_is_written_as_json() {
    let header = XPaymentHeader::new(b"hello").use_mainnet();
    assert_eq!(
        header.to_json(),
        "{\"x402Version\":1,\"scheme\":\"exact\",\"network\":\"solana-mainnet\",\
         \"payload\":{\"transaction\":\"aGVsbG8=\"}}"
    );
}

#[test]
fn header_is_read_from_json() {
    let transaction: &[u8] = b"signed transaction bytes";
    let encoded = XPaymentHeader::new(transaction).payload_transaction().to_owned();
    let text = format!(
        "{{\"x402Version\":1, \"scheme\":\"exact\", \"network\":\"solana-mainnet\", \
         \"payload\":{{\"transaction\":\"{}\"}}}}",
        encoded
    );
    let header = XPaymentHeader::from_json(&text).unwrap();
    assert_eq!(header.x402_version(), X402Version::V1);
    assert_eq!(header.scheme(), PaymentScheme::Exact);
    assert_eq!(header.network(), X402SolanaNetworkInfo::Mainnet);
    assert_eq!(header.payload_transaction(), encoded);
    assert_eq!(header.transaction_bytes(), Ok(transaction.to_vec()));
}

#[test]
fn written_header_reads_back() {
    for header in [
        XPaymentHeader::new(b"a"),
        XPaymentHeader::new(b"").use_testnet(),
        XPaymentHeader::new(&[1, 2, 3, 4, 5]).use_localnet(),
        XPaymentHeader::default(),
    ] {
        assert_eq!(XPaymentHeader::from_json(&header.to_json()), Ok(header));
    }
}

#[test]
fn header_is_read_from_a_parsed_value() {
    let value: serde_json::Value = serde_json::from_str(
        "{\"payload\":{\"transaction\":\"Zm9v\"},\"network\":\"devnet\",\"scheme\":\"exact\",\
         \"x402Version\":\"1\"}",
    )
    .unwrap();
    let header = XPaymentHeader::from_document(&value).unwrap();
    assert_eq!(header.network(), X402SolanaNetworkInfo::Devnet);
    assert_eq!(header.transaction_bytes(), Ok(b"foo".to_vec()));
}

#[test]
fn malformed_headers_are_rejected() {
    let good = XPaymentHeader::new(b"hello").to_json();
    assert_eq!(XPaymentHeader::from_json(""), Err(X402Error::InvalidPayload));
    assert_eq!(XPaymentHeader::from_json("{"), Err(X402Error::InvalidPayload));
    assert_eq!(XPaymentHeader::from_json("{}"), Err(X402Error::InvalidX402Version));
    assert_eq!(XPaymentHeader::from_json("null"), Err(X402Error::InvalidX402Version));
    assert_eq!(
        XPaymentHeader::from_json(&good.replace("\"x402Version\":1", "\"x402Version\":2")),
        Err(X402Error::InvalidX402Version)
    );
    assert_eq!(
        XPaymentHeader::from_json(&good.replace("\"x402Version\":1", "\"x402Version\":\"v1\"")),
        Err(X402Error::InvalidX402Version)
    );
    assert_eq!(
        XPaymentHeader::from_json(&good.replace("\"x402Version\":1", "\"x402Version\":1.5")),
        Err(X402Error::InvalidX402Version)
    );
    assert_eq!(
        XPaymentHeader::from_json(&good.replace("exact", "Exact")),
        Err(X402Error::InvalidScheme)
    );
    assert_eq!(
        XPaymentHeader::from_json(&good.replace("solana-devnet", "ethereum")),
        Err(X402Error::InvalidNetwork)
    );
    assert_eq!(
        XPaymentHeader::from_json(&good.replace("\"payload\"", "\"body\"")),
        Err(X402Error::InvalidPayload)
    );
    assert_eq!(
        XPaymentHeader::from_json(&good.replace("\"aGVsbG8=\"", "17")),
        Err(X402Error::InvalidPayload)
    );
}

#[test]
fn payment_response_is_configured_by_setters() {
    let fresh = XPaymentResponse::new();
    assert!(!fresh.success());
    assert_eq!(fresh.transaction(), "");
    assert_eq!(fresh.network(), X402SolanaNetworkInfo::Devnet);
    assert_eq!(fresh.fee_payer(), "");
    assert_eq!(fresh, XPaymentResponse::default());
    let response = XPaymentResponse::new()
        .set_success()
        .set_mainnet()
        .set_transaction_signature("5sig")
        .set_payer("Payer1");
    assert!(response.success());
    assert_eq!(response.transaction(), "5sig");
    assert_eq!(response.network(), X402SolanaNetworkInfo::Mainnet);
    assert_eq!(response.fee_payer(), "Payer1");
    assert!(!response.clone().set_failed().success());
    assert_eq!(response.clone().set_testnet().network(), X402SolanaNetworkInfo::Testnet);
    assert_eq!(response.clone().set_devnet().network(), X402SolanaNetworkInfo::Devnet);
    assert_eq!(response.clone().set_localnet().network(), X402SolanaNetworkInfo::Localnet);
    assert_eq!(
        response.to_json(),
        "{\"success\":true,\"transaction\":\"5sig\",\"network\":\"solana-mainnet\",\
         \"payer\":\"Payer1\"}"
    );
    assert_eq!(XPaymentResponse::from_json(&response.to_json()), Ok(response));
}

#[test]
fn header_travels_as_base64_over_its_json() {
    let header = XPaymentHeader::new(b"hello").use_mainnet();
    let value = header.to_header_value().unwrap();
    assert_eq!(
        value,
        "eyJ4NDAyVmVyc2lvbiI6MSwic2NoZW1lIjoiZXhhY3QiLCJuZXR3b3JrIjoic29sYW5hLW1haW5uZXQiLCJwYXlsb2FkIjp7InRyYW5zYWN0aW9uIjoiYUdWc2JHOD0ifX0="
    );
    let read = XPaymentHeader::from_header_value(&value).unwrap();
    assert_eq!(read, header);
    assert_eq!(read.transaction_bytes(), Ok(b"hello".to_vec()));
}

#[test]
fn malformed_header_values_are_rejected() {
    assert_eq!(XPaymentHeader::from_header_value("***"), Err(X402Error::InvalidPayload));
    assert_eq!(XPaymentHeader::from_header_value("/w=="), Err(X402Error::InvalidPayload));
    assert_eq!(XPaymentHeader::from_header_value("aGVsbG8="), Err(X402Error::InvalidPayload));
    assert_eq!(XPaymentHeader::from_header_value("e30="), Err(X402Error::InvalidX402Version));
}
