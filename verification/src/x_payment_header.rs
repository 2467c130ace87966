//! The payment that a client sends in a single request header, and the answer to it.
use vstd::prelude::*;
use vstd::string::StringExecFns;
use vstd::utf8::{
    decode_utf8, encode_utf8, encode_utf8_decode_utf8, encode_utf8_valid_utf8, valid_utf8,
};
use serde_json::Value;
use crate::codec::{read_member, spec_from_json, spec_read_member, JsonCodec};
use crate::document::{
    flag_value, get_member, new_members, number_value, object_value, put, read_flag, read_network,
    read_scheme, read_text, read_version, spec_member, spec_read_flag, spec_read_network,
    spec_read_scheme, spec_read_text, spec_read_version, text_value,
};
use crate::encoding::{base64_bytes, base64_decode, base64_encode, base64_text};
use crate::errors::{X402Error, X402Result};
use crate::network::{lemma_network_round_trip, serialize_network, X402SolanaNetworkInfo};
use crate::scheme::{lemma_scheme_name_parses, PaymentScheme};
use crate::text::{decimal_digits, decimal_string, utf8_text};
use crate::version::X402Version;
use crate::wire::{bool_text, json_bool, json_string, member, put_member, quote};

verus! {

/// The payload of the header transport: a blockchain transaction in Base64.
#[derive(Debug, PartialEq, Eq, PartialOrd, Ord, Clone)]
pub struct XPaymentPayload {
    /// The transaction, as Base64 text.
    transaction: String,
}

/// What a `XPaymentPayload` holds, as mathematical values.
pub struct XPaymentPayloadView {
    pub transaction: Seq<char>,
}

impl View for XPaymentPayload {
    type V = XPaymentPayloadView;

    closed spec fn view(&self) -> XPaymentPayloadView {
        XPaymentPayloadView {
            transaction: self.transaction@,
        }
    }
}

/// The payment as it travels in the request header.
#[derive(Debug, PartialEq, Eq, PartialOrd, Ord, Clone)]
pub struct XPaymentHeader {
    /// Protocol version.
    x402_version: X402Version,
    /// Payment scheme.
    scheme: PaymentScheme,
    /// Blockchain network of the transaction.
    network: X402SolanaNetworkInfo,
    /// The transaction.
    payload: XPaymentPayload,
}

/// What a `XPaymentHeader` holds, as mathematical values.
pub struct XPaymentHeaderView {
    pub x402_version: X402Version,
    pub scheme: PaymentScheme,
    pub network: X402SolanaNetworkInfo,
    pub payload: XPaymentPayloadView,
}

impl View for XPaymentHeader {
    type V = XPaymentHeaderView;

    closed spec fn view(&self) -> XPaymentHeaderView {
        XPaymentHeaderView {
            x402_version: self.x402_version,
            scheme: self.scheme,
            network: self.network,
            payload: self.payload@,
        }
    }
}

/// The outcome of a payment, as it travels back in the response header.
#[derive(Debug, PartialEq, Eq, PartialOrd, Ord, Clone)]
pub struct XPaymentResponse {
    /// Whether the payment was settled.
    success: bool,
    /// Signature of the settled transaction.
    transaction: String,
    /// Blockchain network of the transaction.
    network: X402SolanaNetworkInfo,
    /// Address of the wallet that paid.
    payer: String,
}

/// What a `XPaymentResponse` holds, as mathematical values.
pub struct XPaymentResponseView {
    pub success: bool,
    pub transaction: Seq<char>,
    pub network: X402SolanaNetworkInfo,
    pub payer: Seq<char>,
}

impl View for XPaymentResponse {
    type V = XPaymentResponseView;

    closed spec fn view(&self) -> XPaymentResponseView {
        XPaymentResponseView {
            success: self.success,
            transaction: self.transaction@,
            network: self.network,
            payer: self.payer@,
        }
    }
}

impl XPaymentPayload {
    /// A payload that holds the given Base64 text as it stands.
    pub fn from_encoded(transaction: &str) -> (r: Self)
        ensures
            r@.transaction == transaction@,
    {
        XPaymentPayload { transaction: transaction.to_owned() }
    }

    /// The transaction, as Base64 text.
    pub fn transaction(&self) -> (r: &str)
        ensures
            r@ == self@.transaction,
    {
        self.transaction.as_str()
    }

    /// What tells the keys of the payload apart.
    proof fn reveal_keys()
        ensures
            "transaction"@.len() == 11,
    {
        reveal_strlit("transaction");
    }
}

impl JsonCodec for XPaymentPayload {
    open spec fn spec_json(v: XPaymentPayloadView) -> Seq<char> {
        "{"@
            + member(true, "transaction"@, json_string(v.transaction))
            + "}"@
    }

    open spec fn spec_read(doc: Value) -> Result<XPaymentPayloadView, X402Error> {
        let transaction = spec_read_text(spec_member(doc, "transaction"@));
        if transaction is Err {
            Err(transaction->Err_0)
        } else {
            Ok(
                XPaymentPayloadView {
                    transaction: transaction->Ok_0,
                },
            )
        }
    }

    fn to_json(&self) -> (r: String) {
        let mut out = "{".to_owned();
        let value = quote(self.transaction.as_str());
        put_member(&mut out, true, "transaction", value.as_str());
        out.append("}");
        out
    }

    fn from_document(doc: &Value) -> (r: X402Result<Self>) {
        let transaction = read_text(get_member(doc, "transaction"))?;
        Ok(XPaymentPayload { transaction })
    }

    fn to_document(&self) -> (r: Value) {
        let mut members = new_members();
        put(&mut members, "transaction", text_value(self.transaction.as_str()));
        let r = object_value(members);
        proof {
            XPaymentPayload::reveal_keys();
        }
        r
    }
}

impl Default for XPaymentPayload {
    fn default() -> (r: Self)
        ensures
            r@.transaction == Seq::<char>::empty(),
    {
        XPaymentPayload { transaction: String::new() }
    }
}

impl XPaymentHeader {
    /// A header for the given transaction bytes: first protocol version, exact scheme,
    /// default network, and the bytes in Base64 as payload.
    pub fn new(transaction: &[u8]) -> (r: Self)
        requires
            transaction@.len() <= usize::MAX / 4,
        ensures
            r@ == (XPaymentHeaderView {
                x402_version: X402Version::V1,
                scheme: PaymentScheme::Exact,
                network: X402SolanaNetworkInfo::Devnet,
                payload: XPaymentPayloadView { transaction: base64_text(transaction@) },
            }),
            base64_bytes(r@.payload.transaction) == Some(transaction@),
    {
        let encoded = base64_encode(transaction);
        XPaymentHeader::from_parts(
            X402Version::V1,
            PaymentScheme::Exact,
            X402SolanaNetworkInfo::Devnet,
            XPaymentPayload { transaction: encoded },
        )
    }

    /// A header for the given transaction bytes, or nothing where there are more bytes
    /// than Base64 can take.
    pub fn try_new(transaction: &[u8]) -> (r: Option<Self>)
        ensures
            r.is_some() == (transaction@.len() <= usize::MAX / 4),
            r matches Some(h) ==> h@ == (XPaymentHeaderView {
                x402_version: X402Version::V1,
                scheme: PaymentScheme::Exact,
                network: X402SolanaNetworkInfo::Devnet,
                payload: XPaymentPayloadView { transaction: base64_text(transaction@) },
            }) && base64_bytes(h@.payload.transaction) == Some(transaction@),
    {
        if transaction.len() <= usize::MAX / 4 {
            Some(XPaymentHeader::new(transaction))
        } else {
            None
        }
    }

    /// A header that holds the given parts as they stand.
    pub fn from_parts(
        x402_version: X402Version,
        scheme: PaymentScheme,
        network: X402SolanaNetworkInfo,
        payload: XPaymentPayload,
    ) -> (r: Self)
        ensures
            r@ == (XPaymentHeaderView { x402_version, scheme, network, payload: payload@ }),
    {
        XPaymentHeader { x402_version, scheme, network, payload }
    }

    /// Sets `x402_version`: protocol version.
    pub fn change_x402_version(self, x402_version: X402Version) -> (r: Self)
        ensures
            r@ == (XPaymentHeaderView { x402_version: x402_version, ..self@ }),
    {
        XPaymentHeader { x402_version: x402_version, ..self }
    }

    /// Chooses the network `Mainnet`.
    pub fn use_mainnet(self) -> (r: Self)
        ensures
            r@ == (XPaymentHeaderView { network: X402SolanaNetworkInfo::Mainnet, ..self@ }),
    {
        XPaymentHeader { network: X402SolanaNetworkInfo::Mainnet, ..self }
    }

    /// Chooses the network `Testnet`.
    pub fn use_testnet(self) -> (r: Self)
        ensures
            r@ == (XPaymentHeaderView { network: X402SolanaNetworkInfo::Testnet, ..self@ }),
    {
        XPaymentHeader { network: X402SolanaNetworkInfo::Testnet, ..self }
    }

    /// Chooses the network `Devnet`.
    pub fn use_devnet(self) -> (r: Self)
        ensures
            r@ == (XPaymentHeaderView { network: X402SolanaNetworkInfo::Devnet, ..self@ }),
    {
        XPaymentHeader { network: X402SolanaNetworkInfo::Devnet, ..self }
    }

    /// Chooses the network `Localnet`.
    pub fn use_localnet(self) -> (r: Self)
        ensures
            r@ == (XPaymentHeaderView { network: X402SolanaNetworkInfo::Localnet, ..self@ }),
    {
        XPaymentHeader { network: X402SolanaNetworkInfo::Localnet, ..self }
    }

    /// Protocol version.
    pub fn x402_version(&self) -> (r: X402Version)
        ensures
            r == self@.x402_version,
    {
        self.x402_version
    }

    /// Blockchain network of the transaction.
    pub fn network(&self) -> (r: X402SolanaNetworkInfo)
        ensures
            r == self@.network,
    {
        self.network
    }

    /// Payment scheme.
    pub fn scheme(&self) -> (r: PaymentScheme)
        ensures
            r == self@.scheme,
    {
        self.scheme
    }

    /// The transaction.
    pub fn payload(&self) -> (r: &XPaymentPayload)
        ensures
            r@ == self@.payload,
    {
        &self.payload
    }

    /// The transaction, as Base64 text.
    pub fn payload_transaction(&self) -> (r: &str)
        ensures
            r@ == self@.payload.transaction,
    {
        self.payload.transaction.as_str()
    }

    /// The transaction bytes that the payload holds; `InvalidPayload` where the payload is
    /// not well-formed Base64.
    pub fn transaction_bytes(&self) -> (r: X402Result<Vec<u8>>)
        ensures
            match r {
                Ok(bytes) => base64_bytes(self@.payload.transaction) == Some(bytes@),
                Err(e) => e == X402Error::InvalidPayload && base64_bytes(
                    self@.payload.transaction,
                ) is None,
            },
    {
        match base64_decode(self.payload.transaction.as_str()) {
            Some(bytes) => Ok(bytes),
            None => Err(X402Error::InvalidPayload),
        }
    }

    /// What the value of a request header reads as: the value is Base64 over the UTF-8
    /// bytes of the header's JSON text. A value that is not Base64, or whose bytes are not
    /// UTF-8, is `InvalidPayload`.
    pub open spec fn spec_from_header_value(value: Seq<char>) -> Result<
        XPaymentHeaderView,
        X402Error,
    > {
        match base64_bytes(value) {
            Some(bytes) => if valid_utf8(bytes) {
                spec_from_json::<XPaymentHeader>(decode_utf8(bytes))
            } else {
                Err(X402Error::InvalidPayload)
            },
            None => Err(X402Error::InvalidPayload),
        }
    }

    /// Writes the header as the value of a request header: its JSON text in Base64. What is
    /// written reads back as the JSON text itself does. A text of more bytes than Base64
    /// can take is `InvalidPayload`.
    pub fn to_header_value(&self) -> (r: X402Result<String>)
        ensures
            match r {
                Ok(value) => {
                    &&& value@ == base64_text(encode_utf8(XPaymentHeader::spec_json(self@)))
                    &&& XPaymentHeader::spec_from_header_value(value@) == spec_from_json::<
                        XPaymentHeader,
                    >(XPaymentHeader::spec_json(self@))
                },
                Err(e) => e == X402Error::InvalidPayload && encode_utf8(
                    XPaymentHeader::spec_json(self@),
                ).len() > usize::MAX / 4,
            },
    {
        let json = self.to_json();
        let bytes = json.as_str().as_bytes();
        if bytes.len() <= usize::MAX / 4 {
            let value = base64_encode(bytes);
            proof {
                encode_utf8_valid_utf8(json@);
                encode_utf8_decode_utf8(json@);
            }
            Ok(value)
        } else {
            Err(X402Error::InvalidPayload)
        }
    }

    /// Reads a header from the value of a request header.
    pub fn from_header_value(value: &str) -> (r: X402Result<Self>)
        ensures
            match r {
                Ok(v) => XPaymentHeader::spec_from_header_value(value@) == Ok::<
                    XPaymentHeaderView,
                    X402Error,
                >(v@),
                Err(e) => XPaymentHeader::spec_from_header_value(value@) == Err::<
                    XPaymentHeaderView,
                    X402Error,
                >(e),
            },
    {
        match base64_decode(value) {
            Some(bytes) => match utf8_text(bytes.as_slice()) {
                Some(text) => XPaymentHeader::from_json(text),
                None => Err(X402Error::InvalidPayload),
            },
            None => Err(X402Error::InvalidPayload),
        }
    }

    /// What tells the keys of the header apart.
    proof fn reveal_keys()
        ensures
            "x402Version"@.len() == 11,
            "scheme"@.len() == 6,
            "network"@.len() == 7,
            "payload"@.len() == 7,
            "network"@[0] != "payload"@[0],
    {
        reveal_strlit("x402Version");
        reveal_strlit("scheme");
        reveal_strlit("network");
        reveal_strlit("payload");
    }
}

impl JsonCodec for XPaymentHeader {
    open spec fn spec_json(v: XPaymentHeaderView) -> Seq<char> {
        "{"@
            + member(true, "x402Version"@, decimal_digits(v.x402_version.spec_number() as nat))
            + member(false, "scheme"@, json_string(v.scheme.spec_str()))
            + member(false, "network"@, json_string(v.network.spec_x402_identifier()))
            + member(false, "payload"@, XPaymentPayload::spec_json(v.payload))
            + "}"@
    }

    open spec fn spec_read(doc: Value) -> Result<XPaymentHeaderView, X402Error> {
        let x402_version = spec_read_version(spec_member(doc, "x402Version"@));
        let scheme = spec_read_scheme(spec_member(doc, "scheme"@));
        let network = spec_read_network(spec_member(doc, "network"@));
        let payload = spec_read_member::<XPaymentPayload>(spec_member(doc, "payload"@));
        if x402_version is Err {
            Err(x402_version->Err_0)
        } else if scheme is Err {
            Err(scheme->Err_0)
        } else if network is Err {
            Err(network->Err_0)
        } else if payload is Err {
            Err(payload->Err_0)
        } else {
            Ok(
                XPaymentHeaderView {
                    x402_version: x402_version->Ok_0,
                    scheme: scheme->Ok_0,
                    network: network->Ok_0,
                    payload: payload->Ok_0,
                },
            )
        }
    }

    fn to_json(&self) -> (r: String) {
        let mut out = "{".to_owned();
        let value = decimal_string(self.x402_version.number() as u64);
        put_member(&mut out, true, "x402Version", value.as_str());
        let value = quote(self.scheme.as_str());
        put_member(&mut out, false, "scheme", value.as_str());
        let value = quote(serialize_network(&self.network));
        put_member(&mut out, false, "network", value.as_str());
        let value = self.payload.to_json();
        put_member(&mut out, false, "payload", value.as_str());
        out.append("}");
        out
    }

    fn from_document(doc: &Value) -> (r: X402Result<Self>) {
        let x402_version = read_version(get_member(doc, "x402Version"))?;
        let scheme = read_scheme(get_member(doc, "scheme"))?;
        let network = read_network(get_member(doc, "network"))?;
        let payload = read_member::<XPaymentPayload>(get_member(doc, "payload"))?;
        Ok(XPaymentHeader { x402_version, scheme, network, payload })
    }

    fn to_document(&self) -> (r: Value) {
        let mut members = new_members();
        put(&mut members, "x402Version", number_value(self.x402_version.number() as u64));
        put(&mut members, "scheme", text_value(self.scheme.as_str()));
        put(&mut members, "network", text_value(serialize_network(&self.network)));
        put(&mut members, "payload", self.payload.to_document());
        let r = object_value(members);
        proof {
            XPaymentHeader::reveal_keys();
            lemma_scheme_name_parses(self.scheme);
            lemma_network_round_trip(self.network);
        }
        r
    }
}

impl Default for XPaymentHeader {
    fn default() -> (r: Self)
        ensures
            r@ == (XPaymentHeaderView {
                x402_version: X402Version::V1,
                scheme: PaymentScheme::Exact,
                network: X402SolanaNetworkInfo::Devnet,
                payload: XPaymentPayloadView { transaction: Seq::<char>::empty() },
            }),
    {
        XPaymentHeader {
            x402_version: X402Version::V1,
            scheme: PaymentScheme::Exact,
            network: X402SolanaNetworkInfo::Devnet,
            payload: XPaymentPayload { transaction: String::new() },
        }
    }
}

impl XPaymentResponse {
    /// What a fresh response holds: a failed payment on the default network, with an empty
    /// signature and an empty payer.
    pub open spec fn spec_new() -> XPaymentResponseView {
        XPaymentResponseView {
            success: false,
            transaction: Seq::<char>::empty(),
            network: X402SolanaNetworkInfo::Devnet,
            payer: Seq::<char>::empty(),
        }
    }

    /// A response that reports a failed payment, with nothing else set.
    pub fn new() -> (r: Self)
        ensures
            r@ == XPaymentResponse::spec_new(),
    {
        XPaymentResponse {
            success: false,
            transaction: String::new(),
            network: X402SolanaNetworkInfo::Devnet,
            payer: String::new(),
        }
    }

    /// Marks the payment as settled.
    pub fn set_success(self) -> (r: Self)
        ensures
            r@ == (XPaymentResponseView { success: true, ..self@ }),
    {
        XPaymentResponse { success: true, ..self }
    }

    /// Marks the payment as failed.
    pub fn set_failed(self) -> (r: Self)
        ensures
            r@ == (XPaymentResponseView { success: false, ..self@ }),
    {
        XPaymentResponse { success: false, ..self }
    }

    /// Chooses the network `Mainnet`.
    pub fn set_mainnet(self) -> (r: Self)
        ensures
            r@ == (XPaymentResponseView { network: X402SolanaNetworkInfo::Mainnet, ..self@ }),
    {
        XPaymentResponse { network: X402SolanaNetworkInfo::Mainnet, ..self }
    }

    /// Chooses the network `Testnet`.
    pub fn set_testnet(self) -> (r: Self)
        ensures
            r@ == (XPaymentResponseView { network: X402SolanaNetworkInfo::Testnet, ..self@ }),
    {
        XPaymentResponse { network: X402SolanaNetworkInfo::Testnet, ..self }
    }

    /// Chooses the network `Devnet`.
    pub fn set_devnet(self) -> (r: Self)
        ensures
            r@ == (XPaymentResponseView { network: X402SolanaNetworkInfo::Devnet, ..self@ }),
    {
        XPaymentResponse { network: X402SolanaNetworkInfo::Devnet, ..self }
    }

    /// Chooses the network `Localnet`.
    pub fn set_localnet(self) -> (r: Self)
        ensures
            r@ == (XPaymentResponseView { network: X402SolanaNetworkInfo::Localnet, ..self@ }),
    {
        XPaymentResponse { network: X402SolanaNetworkInfo::Localnet, ..self }
    }

    /// Sets `transaction`: signature of the settled transaction.
    pub fn set_transaction_signature(self, signature: &str) -> (r: Self)
        ensures
            r@ == (XPaymentResponseView { transaction: signature@, ..self@ }),
    {
        XPaymentResponse { transaction: signature.to_owned(), ..self }
    }

    /// Sets `payer`: address of the wallet that paid.
    pub fn set_payer(self, fee_payer: &str) -> (r: Self)
        ensures
            r@ == (XPaymentResponseView { payer: fee_payer@, ..self@ }),
    {
        XPaymentResponse { payer: fee_payer.to_owned(), ..self }
    }

    /// Whether the payment was settled.
    pub fn success(&self) -> (r: bool)
        ensures
            r == self@.success,
    {
        self.success
    }

    /// Signature of the settled transaction.
    pub fn transaction(&self) -> (r: &str)
        ensures
            r@ == self@.transaction,
    {
        self.transaction.as_str()
    }

    /// Blockchain network of the transaction.
    pub fn network(&self) -> (r: X402SolanaNetworkInfo)
        ensures
            r == self@.network,
    {
        self.network
    }

    /// Address of the wallet that paid.
    pub fn fee_payer(&self) -> (r: &str)
        ensures
            r@ == self@.payer,
    {
        self.payer.as_str()
    }

    /// What tells the keys of the response apart.
    proof fn reveal_keys()
        ensures
            "success"@.len() == 7,
            "transaction"@.len() == 11,
            "network"@.len() == 7,
            "payer"@.len() == 5,
            "success"@[0] != "network"@[0],
    {
        reveal_strlit("success");
        reveal_strlit("transaction");
        reveal_strlit("network");
        reveal_strlit("payer");
    }
}

impl JsonCodec for XPaymentResponse {
    open spec fn spec_json(v: XPaymentResponseView) -> Seq<char> {
        "{"@
            + member(true, "success"@, json_bool(v.success))
            + member(false, "transaction"@, json_string(v.transaction))
            + member(false, "network"@, json_string(v.network.spec_x402_identifier()))
            + member(false, "payer"@, json_string(v.payer))
            + "}"@
    }

    open spec fn spec_read(doc: Value) -> Result<XPaymentResponseView, X402Error> {
        let success = spec_read_flag(spec_member(doc, "success"@));
        let transaction = spec_read_text(spec_member(doc, "transaction"@));
        let network = spec_read_network(spec_member(doc, "network"@));
        let payer = spec_read_text(spec_member(doc, "payer"@));
        if success is Err {
            Err(success->Err_0)
        } else if transaction is Err {
            Err(transaction->Err_0)
        } else if network is Err {
            Err(network->Err_0)
        } else if payer is Err {
            Err(payer->Err_0)
        } else {
            Ok(
                XPaymentResponseView {
                    success: success->Ok_0,
                    transaction: transaction->Ok_0,
                    network: network->Ok_0,
                    payer: payer->Ok_0,
                },
            )
        }
    }

    fn to_json(&self) -> (r: String) {
        let mut out = "{".to_owned();
        put_member(&mut out, true, "success", bool_text(self.success));
        let value = quote(self.transaction.as_str());
        put_member(&mut out, false, "transaction", value.as_str());
        let value = quote(serialize_network(&self.network));
        put_member(&mut out, false, "network", value.as_str());
        let value = quote(self.payer.as_str());
        put_member(&mut out, false, "payer", value.as_str());
        out.append("}");
        out
    }

    fn from_document(doc: &Value) -> (r: X402Result<Self>) {
        let success = read_flag(get_member(doc, "success"))?;
        let transaction = read_text(get_member(doc, "transaction"))?;
        let network = read_network(get_member(doc, "network"))?;
        let payer = read_text(get_member(doc, "payer"))?;
        Ok(XPaymentResponse { success, transaction, network, payer })
    }

    fn to_document(&self) -> (r: Value) {
        let mut members = new_members();
        put(&mut members, "success", flag_value(self.success));
        put(&mut members, "transaction", text_value(self.transaction.as_str()));
        put(&mut members, "network", text_value(serialize_network(&self.network)));
        put(&mut members, "payer", text_value(self.payer.as_str()));
        let r = object_value(members);
        proof {
            XPaymentResponse::reveal_keys();
            lemma_network_round_trip(self.network);
        }
        r
    }
}

impl Default for XPaymentResponse {
    fn default() -> (r: Self)
        ensures
            r@ == XPaymentResponse::spec_new(),
    {
        XPaymentResponse::new()
    }
}

} // verus!
