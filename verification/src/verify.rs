//! What a facilitator is asked to verify, and what it answers.
use vstd::prelude::*;
use vstd::string::StringExecFns;
use serde_json::Value;
use crate::codec::{read_member, spec_read_member, JsonCodec};
use crate::document::{
    flag_value, get_member, new_members, object_value, optional_text_value, put, read_flag,
    read_optional_text, read_text, spec_member, spec_read_flag, spec_read_optional_text,
    spec_read_text, text_value,
};
use crate::errors::{X402Error, X402Result};
use crate::payment_requirements::{PaymentRequirements, PaymentRequirementsView};
use crate::wire::{
    bool_text, json_bool, json_opt_string, json_string, member, opt_str, opt_string_text,
    put_member, quote,
};
use crate::x_payment_header::{XPaymentPayload, XPaymentPayloadView};

verus! {

/// A request to verify a payment against the requirements that it answers.
#[derive(Debug, PartialEq, Eq, PartialOrd, Ord, Clone)]
pub struct VerifyPayload {
    /// The payment that the client sent.
    pub payment_payload: XPaymentPayload,
    /// The requirements that the payment answers.
    pub payment_requirements: PaymentRequirements,
}

/// What a `VerifyPayload` holds, as mathematical values.
pub struct VerifyPayloadView {
    pub payment_payload: XPaymentPayloadView,
    pub payment_requirements: PaymentRequirementsView,
}

impl View for VerifyPayload {
    type V = VerifyPayloadView;

    open spec fn view(&self) -> VerifyPayloadView {
        VerifyPayloadView {
            payment_payload: self.payment_payload@,
            payment_requirements: self.payment_requirements@,
        }
    }
}

impl VerifyPayload {
    /// What tells the keys of the request apart.
    proof fn reveal_keys()
        ensures
            "paymentPayload"@.len() == 14,
            "paymentRequirements"@.len() == 19,
    {
        reveal_strlit("paymentPayload");
        reveal_strlit("paymentRequirements");
    }
}

impl JsonCodec for VerifyPayload {
    open spec fn spec_json(v: VerifyPayloadView) -> Seq<char> {
        "{"@
            + member(true, "paymentPayload"@, XPaymentPayload::spec_json(v.payment_payload))
            + member(
                false,
                "paymentRequirements"@,
                PaymentRequirements::spec_json(v.payment_requirements),
            )
            + "}"@
    }

    open spec fn spec_read(doc: Value) -> Result<VerifyPayloadView, X402Error> {
        let payment_payload = spec_read_member::<XPaymentPayload>(
            spec_member(doc, "paymentPayload"@),
        );
        let payment_requirements = spec_read_member::<PaymentRequirements>(
            spec_member(doc, "paymentRequirements"@),
        );
        if payment_payload is Err {
            Err(payment_payload->Err_0)
        } else if payment_requirements is Err {
            Err(payment_requirements->Err_0)
        } else {
            Ok(
                VerifyPayloadView {
                    payment_payload: payment_payload->Ok_0,
                    payment_requirements: payment_requirements->Ok_0,
                },
            )
        }
    }

    fn to_json(&self) -> (r: String) {
        let mut out = "{".to_owned();
        let value = self.payment_payload.to_json();
        put_member(&mut out, true, "paymentPayload", value.as_str());
        let value = self.payment_requirements.to_json();
        put_member(&mut out, false, "paymentRequirements", value.as_str());
        out.append("}");
        out
    }

    fn from_document(doc: &Value) -> (r: X402Result<Self>) {
        let payment_payload = read_member::<XPaymentPayload>(get_member(doc, "paymentPayload"))?;
        let payment_requirements = read_member::<PaymentRequirements>(
            get_member(doc, "paymentRequirements"),
        )?;
        Ok(VerifyPayload { payment_payload, payment_requirements })
    }

    fn to_document(&self) -> (r: Value) {
        let mut members = new_members();
        put(&mut members, "paymentPayload", self.payment_payload.to_document());
        put(&mut members, "paymentRequirements", self.payment_requirements.to_document());
        let r = object_value(members);
        proof {
            VerifyPayload::reveal_keys();
        }
        r
    }
}

/// What a facilitator found about a payment.
#[derive(Debug, PartialEq, Eq, PartialOrd, Ord, Clone)]
pub struct VerifyPayloadResponse {
    /// Whether the payment is valid.
    pub is_valid: bool,
    /// Why the payment is invalid, if it is.
    pub invalid_reason: Option<String>,
    /// Address of the wallet that pays.
    pub payer: String,
}

/// What a `VerifyPayloadResponse` holds, as mathematical values.
pub struct VerifyPayloadResponseView {
    pub is_valid: bool,
    pub invalid_reason: Option<Seq<char>>,
    pub payer: Seq<char>,
}

impl View for VerifyPayloadResponse {
    type V = VerifyPayloadResponseView;

    open spec fn view(&self) -> VerifyPayloadResponseView {
        VerifyPayloadResponseView {
            is_valid: self.is_valid,
            invalid_reason: self.invalid_reason.deep_view(),
            payer: self.payer@,
        }
    }
}

impl VerifyPayloadResponse {
    /// What tells the keys of the answer apart.
    proof fn reveal_keys()
        ensures
            "isValid"@.len() == 7,
            "invalidReason"@.len() == 13,
            "payer"@.len() == 5,
    {
        reveal_strlit("isValid");
        reveal_strlit("invalidReason");
        reveal_strlit("payer");
    }
}

impl JsonCodec for VerifyPayloadResponse {
    open spec fn spec_json(v: VerifyPayloadResponseView) -> Seq<char> {
        "{"@
            + member(true, "isValid"@, json_bool(v.is_valid))
            + member(false, "invalidReason"@, json_opt_string(v.invalid_reason))
            + member(false, "payer"@, json_string(v.payer))
            + "}"@
    }

    open spec fn spec_read(doc: Value) -> Result<VerifyPayloadResponseView, X402Error> {
        let is_valid = spec_read_flag(spec_member(doc, "isValid"@));
        let invalid_reason = spec_read_optional_text(spec_member(doc, "invalidReason"@));
        let payer = spec_read_text(spec_member(doc, "payer"@));
        if is_valid is Err {
            Err(is_valid->Err_0)
        } else if invalid_reason is Err {
            Err(invalid_reason->Err_0)
        } else if payer is Err {
            Err(payer->Err_0)
        } else {
            Ok(
                VerifyPayloadResponseView {
                    is_valid: is_valid->Ok_0,
                    invalid_reason: invalid_reason->Ok_0,
                    payer: payer->Ok_0,
                },
            )
        }
    }

    fn to_json(&self) -> (r: String) {
        let mut out = "{".to_owned();
        put_member(&mut out, true, "isValid", bool_text(self.is_valid));
        let value = opt_string_text(opt_str(&self.invalid_reason));
        put_member(&mut out, false, "invalidReason", value.as_str());
        let value = quote(self.payer.as_str());
        put_member(&mut out, false, "payer", value.as_str());
        out.append("}");
        out
    }

    fn from_document(doc: &Value) -> (r: X402Result<Self>) {
        let is_valid = read_flag(get_member(doc, "isValid"))?;
        let invalid_reason = read_optional_text(get_member(doc, "invalidReason"))?;
        let payer = read_text(get_member(doc, "payer"))?;
        Ok(VerifyPayloadResponse { is_valid, invalid_reason, payer })
    }

    fn to_document(&self) -> (r: Value) {
        let mut members = new_members();
        put(&mut members, "isValid", flag_value(self.is_valid));
        put(&mut members, "invalidReason", optional_text_value(opt_str(&self.invalid_reason)));
        put(&mut members, "payer", text_value(self.payer.as_str()));
        let r = object_value(members);
        proof {
            VerifyPayloadResponse::reveal_keys();
        }
        r
    }
}

} // verus!
