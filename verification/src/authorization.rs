//! The signed transfer authorization and the payload that carries it.
use vstd::prelude::*;
use vstd::string::StringExecFns;
use serde_json::Value;
use crate::codec::{read_member, spec_read_member, JsonCodec};
use crate::document::{
    get_member, new_members, number_value, object_value, put, read_network, read_scheme,
    read_small_number, read_text, spec_member, spec_read_network, spec_read_scheme,
    spec_read_small_number, spec_read_text, text_value,
};
use crate::errors::{X402Error, X402Result};
use crate::network::{lemma_network_round_trip, serialize_network, X402SolanaNetworkInfo};
use crate::scheme::{lemma_scheme_name_parses, PaymentScheme};
use crate::text::{decimal_digits, decimal_string};
use crate::wire::{json_string, member, put_member, quote};

verus! {

/// A signed instruction to transfer an amount, valid within a window of time and usable
/// once.
#[derive(Debug, PartialEq, Eq, PartialOrd, Ord, Clone)]
pub struct Authorization {
    /// Address of the wallet that pays.
    pub from: String,
    /// Address of the wallet that receives.
    pub to: String,
    /// Amount in atomic units, in decimal notation.
    pub value: String,
    /// Unix time from which the authorization is valid.
    pub valid_after: String,
    /// Unix time at which the authorization expires.
    pub valid_before: String,
    /// Thirty-two bytes that make the authorization unique, as text.
    pub nonce: String,
}

/// What a `Authorization` holds, as mathematical values.
pub struct AuthorizationView {
    pub from: Seq<char>,
    pub to: Seq<char>,
    pub value: Seq<char>,
    pub valid_after: Seq<char>,
    pub valid_before: Seq<char>,
    pub nonce: Seq<char>,
}

impl View for Authorization {
    type V = AuthorizationView;

    open spec fn view(&self) -> AuthorizationView {
        AuthorizationView {
            from: self.from@,
            to: self.to@,
            value: self.value@,
            valid_after: self.valid_after@,
            valid_before: self.valid_before@,
            nonce: self.nonce@,
        }
    }
}

impl Authorization {
    /// What tells the keys of the authorization apart.
    proof fn reveal_keys()
        ensures
            "from"@.len() == 4,
            "to"@.len() == 2,
            "value"@.len() == 5,
            "validAfter"@.len() == 10,
            "validBefore"@.len() == 11,
            "nonce"@.len() == 5,
            "value"@[0] != "nonce"@[0],
    {
        reveal_strlit("from");
        reveal_strlit("to");
        reveal_strlit("value");
        reveal_strlit("validAfter");
        reveal_strlit("validBefore");
        reveal_strlit("nonce");
    }
}

impl JsonCodec for Authorization {
    open spec fn spec_json(v: AuthorizationView) -> Seq<char> {
        "{"@
            + member(true, "from"@, json_string(v.from))
            + member(false, "to"@, json_string(v.to))
            + member(false, "value"@, json_string(v.value))
            + member(false, "validAfter"@, json_string(v.valid_after))
            + member(false, "validBefore"@, json_string(v.valid_before))
            + member(false, "nonce"@, json_string(v.nonce))
            + "}"@
    }

    open spec fn spec_read(doc: Value) -> Result<AuthorizationView, X402Error> {
        let from = spec_read_text(spec_member(doc, "from"@));
        let to = spec_read_text(spec_member(doc, "to"@));
        let value = spec_read_text(spec_member(doc, "value"@));
        let valid_after = spec_read_text(spec_member(doc, "validAfter"@));
        let valid_before = spec_read_text(spec_member(doc, "validBefore"@));
        let nonce = spec_read_text(spec_member(doc, "nonce"@));
        if from is Err {
            Err(from->Err_0)
        } else if to is Err {
            Err(to->Err_0)
        } else if value is Err {
            Err(value->Err_0)
        } else if valid_after is Err {
            Err(valid_after->Err_0)
        } else if valid_before is Err {
            Err(valid_before->Err_0)
        } else if nonce is Err {
            Err(nonce->Err_0)
        } else {
            Ok(
                AuthorizationView {
                    from: from->Ok_0,
                    to: to->Ok_0,
                    value: value->Ok_0,
                    valid_after: valid_after->Ok_0,
                    valid_before: valid_before->Ok_0,
                    nonce: nonce->Ok_0,
                },
            )
        }
    }

    fn to_json(&self) -> (r: String) {
        let mut out = "{".to_owned();
        let value = quote(self.from.as_str());
        put_member(&mut out, true, "from", value.as_str());
        let value = quote(self.to.as_str());
        put_member(&mut out, false, "to", value.as_str());
        let value = quote(self.value.as_str());
        put_member(&mut out, false, "value", value.as_str());
        let value = quote(self.valid_after.as_str());
        put_member(&mut out, false, "validAfter", value.as_str());
        let value = quote(self.valid_before.as_str());
        put_member(&mut out, false, "validBefore", value.as_str());
        let value = quote(self.nonce.as_str());
        put_member(&mut out, false, "nonce", value.as_str());
        out.append("}");
        out
    }

    fn from_document(doc: &Value) -> (r: X402Result<Self>) {
        let from = read_text(get_member(doc, "from"))?;
        let to = read_text(get_member(doc, "to"))?;
        let value = read_text(get_member(doc, "value"))?;
        let valid_after = read_text(get_member(doc, "validAfter"))?;
        let valid_before = read_text(get_member(doc, "validBefore"))?;
        let nonce = read_text(get_member(doc, "nonce"))?;
        Ok(Authorization { from, to, value, valid_after, valid_before, nonce })
    }

    fn to_document(&self) -> (r: Value) {
        let mut members = new_members();
        put(&mut members, "from", text_value(self.from.as_str()));
        put(&mut members, "to", text_value(self.to.as_str()));
        put(&mut members, "value", text_value(self.value.as_str()));
        put(&mut members, "validAfter", text_value(self.valid_after.as_str()));
        put(&mut members, "validBefore", text_value(self.valid_before.as_str()));
        put(&mut members, "nonce", text_value(self.nonce.as_str()));
        let r = object_value(members);
        proof {
            Authorization::reveal_keys();
        }
        r
    }
}

/// Where the protocol will take part in an authentication scheme; it holds nothing yet.
#[derive(Debug, PartialEq, Eq, Clone, Copy, Structural)]
pub struct Authentication {}

/// The payload of the exact scheme: an authorization and the signature over it.
#[derive(Debug, PartialEq, Eq, PartialOrd, Ord, Clone)]
pub struct SchemePayload {
    /// Signature over the authorization.
    pub signature: String,
    /// The authorization that was signed.
    pub authorization: Authorization,
}

/// What a `SchemePayload` holds, as mathematical values.
pub struct SchemePayloadView {
    pub signature: Seq<char>,
    pub authorization: AuthorizationView,
}

impl View for SchemePayload {
    type V = SchemePayloadView;

    open spec fn view(&self) -> SchemePayloadView {
        SchemePayloadView {
            signature: self.signature@,
            authorization: self.authorization@,
        }
    }
}

impl SchemePayload {
    /// What tells the keys of the payload apart.
    proof fn reveal_keys()
        ensures
            "signature"@.len() == 9,
            "authorization"@.len() == 13,
    {
        reveal_strlit("signature");
        reveal_strlit("authorization");
    }
}

impl JsonCodec for SchemePayload {
    open spec fn spec_json(v: SchemePayloadView) -> Seq<char> {
        "{"@
            + member(true, "signature"@, json_string(v.signature))
            + member(false, "authorization"@, Authorization::spec_json(v.authorization))
            + "}"@
    }

    open spec fn spec_read(doc: Value) -> Result<SchemePayloadView, X402Error> {
        let signature = spec_read_text(spec_member(doc, "signature"@));
        let authorization = spec_read_member::<Authorization>(spec_member(doc, "authorization"@));
        if signature is Err {
            Err(signature->Err_0)
        } else if authorization is Err {
            Err(authorization->Err_0)
        } else {
            Ok(
                SchemePayloadView {
                    signature: signature->Ok_0,
                    authorization: authorization->Ok_0,
                },
            )
        }
    }

    fn to_json(&self) -> (r: String) {
        let mut out = "{".to_owned();
        let value = quote(self.signature.as_str());
        put_member(&mut out, true, "signature", value.as_str());
        let value = self.authorization.to_json();
        put_member(&mut out, false, "authorization", value.as_str());
        out.append("}");
        out
    }

    fn from_document(doc: &Value) -> (r: X402Result<Self>) {
        let signature = read_text(get_member(doc, "signature"))?;
        let authorization = read_member::<Authorization>(get_member(doc, "authorization"))?;
        Ok(SchemePayload { signature, authorization })
    }

    fn to_document(&self) -> (r: Value) {
        let mut members = new_members();
        put(&mut members, "signature", text_value(self.signature.as_str()));
        put(&mut members, "authorization", self.authorization.to_document());
        let r = object_value(members);
        proof {
            SchemePayload::reveal_keys();
        }
        r
    }
}

/// A payment as a client states it directly: version, scheme, network and signed payload.
#[derive(Debug, PartialEq, Eq, PartialOrd, Ord, Clone)]
pub struct PaymentPayload {
    /// Protocol version.
    pub x402_version: u8,
    /// Payment scheme.
    pub scheme: PaymentScheme,
    /// Blockchain network of the payment.
    pub network: X402SolanaNetworkInfo,
    /// The signed authorization.
    pub payload: SchemePayload,
}

/// What a `PaymentPayload` holds, as mathematical values.
pub struct PaymentPayloadView {
    pub x402_version: u8,
    pub scheme: PaymentScheme,
    pub network: X402SolanaNetworkInfo,
    pub payload: SchemePayloadView,
}

impl View for PaymentPayload {
    type V = PaymentPayloadView;

    open spec fn view(&self) -> PaymentPayloadView {
        PaymentPayloadView {
            x402_version: self.x402_version,
            scheme: self.scheme,
            network: self.network,
            payload: self.payload@,
        }
    }
}

impl PaymentPayload {
    /// What tells the keys of the payment apart.
    proof fn reveal_keys()
        ensures
            "x402Version"@.len() == 11,
            "scheme"@.len() == 6,
            "network"@.len() == 7,
            "payload"@.len() == 7,
            "network"@[0] != "payload"@[0],
    {
        reveal_strlit("x402Version");
        reveal_strlit("scheme");
        reveal_strlit("network");
        reveal_strlit("payload");
    }
}

impl JsonCodec for PaymentPayload {
    open spec fn spec_json(v: PaymentPayloadView) -> Seq<char> {
        "{"@
            + member(true, "x402Version"@, decimal_digits(v.x402_version as nat))
            + member(false, "scheme"@, json_string(v.scheme.spec_str()))
            + member(false, "network"@, json_string(v.network.spec_x402_identifier()))
            + member(false, "payload"@, SchemePayload::spec_json(v.payload))
            + "}"@
    }

    open spec fn spec_read(doc: Value) -> Result<PaymentPayloadView, X402Error> {
        let x402_version = spec_read_small_number(spec_member(doc, "x402Version"@));
        let scheme = spec_read_scheme(spec_member(doc, "scheme"@));
        let network = spec_read_network(spec_member(doc, "network"@));
        let payload = spec_read_member::<SchemePayload>(spec_member(doc, "payload"@));
        if x402_version is Err {
            Err(x402_version->Err_0)
        } else if scheme is Err {
            Err(scheme->Err_0)
        } else if network is Err {
            Err(network->Err_0)
        } else if payload is Err {
            Err(payload->Err_0)
        } else {
            Ok(
                PaymentPayloadView {
                    x402_version: x402_version->Ok_0,
                    scheme: scheme->Ok_0,
                    network: network->Ok_0,
                    payload: payload->Ok_0,
                },
            )
        }
    }

    fn to_json(&self) -> (r: String) {
        let mut out = "{".to_owned();
        let value = decimal_string(self.x402_version as u64);
        put_member(&mut out, true, "x402Version", value.as_str());
        let value = quote(self.scheme.as_str());
        put_member(&mut out, false, "scheme", value.as_str());
        let value = quote(serialize_network(&self.network));
        put_member(&mut out, false, "network", value.as_str());
        let value = self.payload.to_json();
        put_member(&mut out, false, "payload", value.as_str());
        out.append("}");
        out
    }

    fn from_document(doc: &Value) -> (r: X402Result<Self>) {
        let x402_version = read_small_number(get_member(doc, "x402Version"))?;
        let scheme = read_scheme(get_member(doc, "scheme"))?;
        let network = read_network(get_member(doc, "network"))?;
        let payload = read_member::<SchemePayload>(get_member(doc, "payload"))?;
        Ok(PaymentPayload { x402_version, scheme, network, payload })
    }

    fn to_document(&self) -> (r: Value) {
        let mut members = new_members();
        put(&mut members, "x402Version", number_value(self.x402_version as u64));
        put(&mut members, "scheme", text_value(self.scheme.as_str()));
        put(&mut members, "network", text_value(serialize_network(&self.network)));
        put(&mut members, "payload", self.payload.to_document());
        let r = object_value(members);
        proof {
            PaymentPayload::reveal_keys();
            lemma_scheme_name_parses(self.scheme);
            lemma_network_round_trip(self.network);
        }
        r
    }
}

} // verus!
