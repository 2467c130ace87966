//! The body of the answer that asks for payment.
use vstd::prelude::*;
use vstd::string::StringExecFns;
use serde_json::Value;
use crate::codec::{
    list_to_document, list_to_json, read_list, spec_json_each, spec_read_list, views, JsonCodec,
};
use crate::document::{
    get_member, new_members, number_value, object_value, put, read_text, read_version, spec_member,
    spec_read_text, spec_read_version, text_value,
};
use crate::errors::{X402Error, X402Result};
use crate::payment_requirements::{PaymentRequirements, PaymentRequirementsView};
use crate::text::{decimal_digits, decimal_string};
use crate::version::X402Version;
use crate::wire::{json_array, json_string, member, put_member, quote};

verus! {

/// What a resource server answers when payment is required: the payment methods that it
/// accepts, in the order in which a client should try them.
#[derive(Debug, PartialEq, Eq, PartialOrd, Ord, Clone)]
pub struct PaymentRequirementsResponse {
    /// Protocol version.
    x402_version: X402Version,
    /// Why payment is required, for a human reader.
    error: String,
    /// The accepted payment methods, in order of preference.
    accepts: Vec<PaymentRequirements>,
}

/// What a `PaymentRequirementsResponse` holds, as mathematical values.
pub struct PaymentRequirementsResponseView {
    pub x402_version: X402Version,
    pub error: Seq<char>,
    pub accepts: Seq<PaymentRequirementsView>,
}

impl View for PaymentRequirementsResponse {
    type V = PaymentRequirementsResponseView;

    closed spec fn view(&self) -> PaymentRequirementsResponseView {
        PaymentRequirementsResponseView {
            x402_version: self.x402_version,
            error: self.error@,
            accepts: views(self.accepts@),
        }
    }
}

impl PaymentRequirementsResponse {
    /// The canonical message of a response.
    pub const ERROR: &'static str = "X-PAYMENT header is required";

    /// What a fresh response holds: the first protocol version, the canonical message and
    /// no payment method.
    pub open spec fn spec_new() -> PaymentRequirementsResponseView {
        PaymentRequirementsResponseView {
            x402_version: X402Version::V1,
            error: "X-PAYMENT header is required"@,
            accepts: Seq::empty(),
        }
    }

    /// A response with one more payment method at the end.
    pub open spec fn spec_add(
        v: PaymentRequirementsResponseView,
        value: PaymentRequirementsView,
    ) -> PaymentRequirementsResponseView {
        PaymentRequirementsResponseView { accepts: v.accepts.push(value), ..v }
    }

    /// A response that accepts nothing yet.
    pub fn new() -> (r: Self)
        ensures
            r@ == PaymentRequirementsResponse::spec_new(),
    {
        let r = PaymentRequirementsResponse {
            x402_version: X402Version::V1,
            error: "X-PAYMENT header is required".to_owned(),
            accepts: Vec::new(),
        };
        assert(r@.accepts =~= Seq::empty());
        r
    }

    /// Appends a payment method; those already there keep their places.
    pub fn add_payment_requirement(&mut self, value: PaymentRequirements) -> (r: &mut Self)
        ensures
            *final(self) == *final(r),
            (*r)@ == PaymentRequirementsResponse::spec_add(old(self)@, value@),
    {
        self.accepts.push(value);
        assert(self@.accepts =~= old(self)@.accepts.push(value@));
        self
    }

    /// Replaces the message.
    pub fn set_error_reason(&mut self, error: &str) -> (r: &mut Self)
        ensures
            *final(self) == *final(r),
            (*r)@ == (PaymentRequirementsResponseView { error: error@, ..old(self)@ }),
    {
        self.error = error.to_owned();
        self
    }

    /// Protocol version.
    pub fn x402_version(&self) -> (r: X402Version)
        ensures
            r == self@.x402_version,
    {
        self.x402_version
    }

    /// Why payment is required, for a human reader.
    pub fn error(&self) -> (r: &str)
        ensures
            r@ == self@.error,
    {
        self.error.as_str()
    }

    /// The message; the same as `error`.
    pub fn error_reason(&self) -> (r: &str)
        ensures
            r@ == self@.error,
    {
        self.error.as_str()
    }

    /// The accepted payment methods, in order of preference.
    pub fn accepts(&self) -> (r: &[PaymentRequirements])
        ensures
            views(r@) == self@.accepts,
    {
        self.accepts.as_slice()
    }

    /// What tells the keys of the response apart.
    proof fn reveal_keys()
        ensures
            "x402Version"@.len() == 11,
            "error"@.len() == 5,
            "accepts"@.len() == 7,
    {
        reveal_strlit("x402Version");
        reveal_strlit("error");
        reveal_strlit("accepts");
    }
}

impl JsonCodec for PaymentRequirementsResponse {
    open spec fn spec_json(v: PaymentRequirementsResponseView) -> Seq<char> {
        "{"@
            + member(true, "x402Version"@, decimal_digits(v.x402_version.spec_number() as nat))
            + member(false, "error"@, json_string(v.error))
            + member(
                false,
                "accepts"@,
                json_array(spec_json_each::<PaymentRequirements>(v.accepts)),
            )
            + "}"@
    }

    open spec fn spec_read(doc: Value) -> Result<PaymentRequirementsResponseView, X402Error> {
        let x402_version = spec_read_version(spec_member(doc, "x402Version"@));
        let error = spec_read_text(spec_member(doc, "error"@));
        let accepts = spec_read_list::<PaymentRequirements>(spec_member(doc, "accepts"@));
        if x402_version is Err {
            Err(x402_version->Err_0)
        } else if error is Err {
            Err(error->Err_0)
        } else if accepts is Err {
            Err(accepts->Err_0)
        } else {
            Ok(
                PaymentRequirementsResponseView {
                    x402_version: x402_version->Ok_0,
                    error: error->Ok_0,
                    accepts: accepts->Ok_0,
                },
            )
        }
    }

    fn to_json(&self) -> (r: String) {
        let mut out = "{".to_owned();
        let value = decimal_string(self.x402_version.number() as u64);
        put_member(&mut out, true, "x402Version", value.as_str());
        let value = quote(self.error.as_str());
        put_member(&mut out, false, "error", value.as_str());
        let value = list_to_json(self.accepts.as_slice());
        put_member(&mut out, false, "accepts", value.as_str());
        out.append("}");
        out
    }

    fn from_document(doc: &Value) -> (r: X402Result<Self>) {
        let x402_version = read_version(get_member(doc, "x402Version"))?;
        let error = read_text(get_member(doc, "error"))?;
        let accepts = read_list::<PaymentRequirements>(get_member(doc, "accepts"))?;
        Ok(PaymentRequirementsResponse { x402_version, error, accepts })
    }

    fn to_document(&self) -> (r: Value) {
        let mut members = new_members();
        put(&mut members, "x402Version", number_value(self.x402_version.number() as u64));
        put(&mut members, "error", text_value(self.error.as_str()));
        put(&mut members, "accepts", list_to_document(self.accepts.as_slice()));
        let r = object_value(members);
        proof {
            PaymentRequirementsResponse::reveal_keys();
        }
        r
    }
}

impl Default for PaymentRequirementsResponse {
    fn default() -> (r: Self)
        ensures
            r@ == PaymentRequirementsResponse::spec_new(),
    {
        PaymentRequirementsResponse::new()
    }
}

/// Payment methods are kept in the order in which they were appended: a fresh response to
/// which `a`, `b` and `c` are appended in turn accepts exactly `a`, `b`, `c`.
pub proof fn lemma_accepts_keep_order(
    a: PaymentRequirementsView,
    b: PaymentRequirementsView,
    c: PaymentRequirementsView,
)
    ensures
        PaymentRequirementsResponse::spec_add(
            PaymentRequirementsResponse::spec_add(
                PaymentRequirementsResponse::spec_add(PaymentRequirementsResponse::spec_new(), a),
                b,
            ),
            c,
        ).accepts == seq![a, b, c],
{
    assert(Seq::<PaymentRequirementsView>::empty().push(a).push(b).push(c) =~= seq![a, b, c]);
}

/// The response that results from appending a list of payment methods, one after another.
pub open spec fn spec_add_all(
    v: PaymentRequirementsResponseView,
    values: Seq<PaymentRequirementsView>,
) -> PaymentRequirementsResponseView
    decreases values.len(),
{
    if values.len() == 0 {
        v
    } else {
        PaymentRequirementsResponse::spec_add(spec_add_all(v, values.drop_last()), values.last())
    }
}

/// Whatever is appended, and however much: the payment methods that were there stay in
/// front, in their order, and those appended follow in the order of appending.
pub proof fn lemma_appending_keeps_order(
    v: PaymentRequirementsResponseView,
    values: Seq<PaymentRequirementsView>,
)
    ensures
        spec_add_all(v, values).accepts == v.accepts + values,
        spec_add_all(v, values).x402_version == v.x402_version,
        spec_add_all(v, values).error == v.error,
    decreases values.len(),
{
    if values.len() == 0 {
        assert(v.accepts + values =~= v.accepts);
    } else {
        lemma_appending_keeps_order(v, values.drop_last());
        assert((v.accepts + values.drop_last()).push(values.last()) =~= v.accepts + values);
    }
}

/// Appending changes nothing but the end of the list: every entry that was there stays at
/// its index, and the new entry is the last.
pub proof fn lemma_append_preserves_prefix(
    v: PaymentRequirementsResponseView,
    value: PaymentRequirementsView,
)
    ensures
        PaymentRequirementsResponse::spec_add(v, value).accepts.len() == v.accepts.len() + 1,
        PaymentRequirementsResponse::spec_add(v, value).accepts.last() == value,
        forall|i: int|
            0 <= i < v.accepts.len() ==> PaymentRequirementsResponse::spec_add(
                v,
                value,
            ).accepts[i] == v.accepts[i],
        PaymentRequirementsResponse::spec_add(v, value).x402_version == v.x402_version,
        PaymentRequirementsResponse::spec_add(v, value).error == v.error,
{
}

} // verus!
