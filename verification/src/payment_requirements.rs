//! What a resource server accepts as payment, and the builder that validates it.
use core::time::Duration;
use vstd::prelude::*;
use vstd::string::StringExecFns;
use serde_json::Value;
use crate::codec::{opt_view, read_member, spec_read_member, JsonCodec};
use crate::document::{
    get_member, new_members, number_value, object_value, optional_text_value, put, read_mime,
    read_network, read_number, read_optional_text, read_scheme, read_text, spec_member,
    spec_read_mime, spec_read_network, spec_read_number, spec_read_optional_text, spec_read_scheme,
    spec_read_text, text_value,
};
use crate::errors::{X402Error, X402Result};
use crate::extras::{PaymentRequestExtras, PaymentRequestExtrasView};
use crate::mime::{lemma_mime_round_trip, serialize_mime, spec_serialize_mime, MimeType};
use crate::network::{lemma_network_round_trip, serialize_network, X402SolanaNetworkInfo};
use crate::scheme::{lemma_scheme_name_parses, PaymentScheme};
use crate::text::{decimal_digits, decimal_string};
use crate::wire::{
    json_opt_string, json_string, member, opt_json_string, opt_str, opt_string_text,
    optional_member, put_member, put_optional_string, quote,
};

verus! {

/// The text that `jzon` displays a JSON value as: a string as it stands, every other value
/// in compact JSON notation.
pub uninterp spec fn json_display(value: jzon::JsonValue) -> Seq<char>;

/// The whole seconds that a duration holds.
pub uninterp spec fn whole_seconds(duration: Duration) -> u64;

/// Trusted: `jzon::JsonValue`, a JSON value that is carried through unread.
#[verifier::external_type_specification]
#[verifier::external_body]
pub struct ExJsonValue(jzon::JsonValue);

/// Trusted: `jzon`'s `Display` for `JsonValue`, through `to_string`. The text depends on the
/// value alone.
#[verifier::external_body]
fn display_json(value: &jzon::JsonValue) -> (r: String)
    ensures
        r@ == json_display(*value),
{
    value.to_string()
}

/// Trusted: `Duration::as_secs`. The number of whole seconds depends on the duration alone.
#[verifier::external_body]
fn duration_secs(duration: &Duration) -> (r: u64)
    ensures
        r == whole_seconds(*duration),
{
    duration.as_secs()
}

/// One payment method that a resource server accepts for a resource. Amounts are whole
/// numbers of atomic units of the asset, and travel as JSON numbers.
#[derive(Debug, PartialEq, Eq, PartialOrd, Ord, Clone)]
pub struct PaymentRequirements {
    /// Payment scheme.
    scheme: PaymentScheme,
    /// Blockchain network on which the payment is made.
    network: X402SolanaNetworkInfo,
    /// Required amount, in atomic units of the asset.
    max_amount_required: u64,
    /// Address of the token contract.
    asset: String,
    /// Address of the wallet that receives the payment.
    pay_to: String,
    /// URL of the protected resource.
    resource: String,
    /// Human-readable description of the resource.
    description: String,
    /// MIME type of the response, if stated.
    mime_type: Option<MimeType>,
    /// JSON schema of the response, if stated.
    output_schema: Option<String>,
    /// Time allowed for the payment to complete, in seconds.
    max_timeout_seconds: u64,
    /// Scheme-specific additions.
    extra: PaymentRequestExtras,
}

/// What a `PaymentRequirements` holds, as mathematical values.
pub struct PaymentRequirementsView {
    pub scheme: PaymentScheme,
    pub network: X402SolanaNetworkInfo,
    pub max_amount_required: u64,
    pub asset: Seq<char>,
    pub pay_to: Seq<char>,
    pub resource: Seq<char>,
    pub description: Seq<char>,
    pub mime_type: Option<MimeType>,
    pub output_schema: Option<Seq<char>>,
    pub max_timeout_seconds: u64,
    pub extra: PaymentRequestExtrasView,
}

impl View for PaymentRequirements {
    type V = PaymentRequirementsView;

    closed spec fn view(&self) -> PaymentRequirementsView {
        PaymentRequirementsView {
            scheme: self.scheme,
            network: self.network,
            max_amount_required: self.max_amount_required,
            asset: self.asset@,
            pay_to: self.pay_to@,
            resource: self.resource@,
            description: self.description@,
            mime_type: self.mime_type,
            output_schema: self.output_schema.deep_view(),
            max_timeout_seconds: self.max_timeout_seconds,
            extra: self.extra@,
        }
    }
}

/// Collects the fields of a `PaymentRequirements`. Scheme and network start from their
/// defaults; every other field starts absent.
#[derive(Debug, PartialEq, Eq, PartialOrd, Ord, Clone)]
pub struct PaymentRequirementsBuilder {
    /// Payment scheme.
    scheme: PaymentScheme,
    /// Blockchain network on which the payment is made.
    network: X402SolanaNetworkInfo,
    /// Required amount, in atomic units of the asset.
    max_amount_required: Option<u64>,
    /// Address of the token contract.
    asset: Option<String>,
    /// Address of the wallet that receives the payment.
    pay_to: Option<String>,
    /// URL of the protected resource.
    resource: Option<String>,
    /// Human-readable description of the resource.
    description: Option<String>,
    /// MIME type of the response, if stated.
    mime_type: Option<MimeType>,
    /// JSON schema of the response, if stated.
    output_schema: Option<String>,
    /// Time allowed for the payment to complete, in seconds.
    max_timeout_seconds: Option<u64>,
    /// Scheme-specific additions.
    extra: Option<PaymentRequestExtras>,
}

/// What a `PaymentRequirementsBuilder` holds, as mathematical values.
pub struct PaymentRequirementsBuilderView {
    pub scheme: PaymentScheme,
    pub network: X402SolanaNetworkInfo,
    pub max_amount_required: Option<u64>,
    pub asset: Option<Seq<char>>,
    pub pay_to: Option<Seq<char>>,
    pub resource: Option<Seq<char>>,
    pub description: Option<Seq<char>>,
    pub mime_type: Option<MimeType>,
    pub output_schema: Option<Seq<char>>,
    pub max_timeout_seconds: Option<u64>,
    pub extra: Option<PaymentRequestExtrasView>,
}

impl View for PaymentRequirementsBuilder {
    type V = PaymentRequirementsBuilderView;

    closed spec fn view(&self) -> PaymentRequirementsBuilderView {
        PaymentRequirementsBuilderView {
            scheme: self.scheme,
            network: self.network,
            max_amount_required: self.max_amount_required,
            asset: self.asset.deep_view(),
            pay_to: self.pay_to.deep_view(),
            resource: self.resource.deep_view(),
            description: self.description.deep_view(),
            mime_type: self.mime_type,
            output_schema: self.output_schema.deep_view(),
            max_timeout_seconds: self.max_timeout_seconds,
            extra: opt_view(self.extra),
        }
    }
}

impl PaymentRequirements {
    /// Payment scheme.
    pub fn scheme(&self) -> (r: PaymentScheme)
        ensures
            r == self@.scheme,
    {
        self.scheme
    }

    /// Blockchain network on which the payment is made.
    pub fn network(&self) -> (r: X402SolanaNetworkInfo)
        ensures
            r == self@.network,
    {
        self.network
    }

    /// Required amount, in atomic units of the asset.
    pub fn max_amount_required(&self) -> (r: u64)
        ensures
            r == self@.max_amount_required,
    {
        self.max_amount_required
    }

    /// Address of the token contract.
    pub fn asset(&self) -> (r: &str)
        ensures
            r@ == self@.asset,
    {
        self.asset.as_str()
    }

    /// Address of the wallet that receives the payment.
    pub fn pay_to(&self) -> (r: &str)
        ensures
            r@ == self@.pay_to,
    {
        self.pay_to.as_str()
    }

    /// URL of the protected resource.
    pub fn resource(&self) -> (r: &str)
        ensures
            r@ == self@.resource,
    {
        self.resource.as_str()
    }

    /// Human-readable description of the resource.
    pub fn description(&self) -> (r: &str)
        ensures
            r@ == self@.description,
    {
        self.description.as_str()
    }

    /// MIME type of the response, if stated.
    pub fn mime_type(&self) -> (r: Option<MimeType>)
        ensures
            r == self@.mime_type,
    {
        self.mime_type
    }

    /// JSON schema of the response, if stated.
    pub fn output_schema(&self) -> (r: Option<&str>)
        ensures
            r.deep_view() == self@.output_schema,
    {
        match &self.output_schema {
            Some(s) => Some(s.as_str()),
            None => None,
        }
    }

    /// Time allowed for the payment to complete, in seconds.
    pub fn max_timeout_seconds(&self) -> (r: u64)
        ensures
            r == self@.max_timeout_seconds,
    {
        self.max_timeout_seconds
    }

    /// Scheme-specific additions.
    pub fn extra(&self) -> (r: &PaymentRequestExtras)
        ensures
            r@ == self@.extra,
    {
        &self.extra
    }

    /// What tells the keys of the payment requirements apart.
    proof fn reveal_keys()
        ensures
            "scheme"@.len() == 6,
            "network"@.len() == 7,
            "maxAmountRequired"@.len() == 17,
            "asset"@.len() == 5,
            "payTo"@.len() == 5,
            "resource"@.len() == 8,
            "description"@.len() == 11,
            "mimeType"@.len() == 8,
            "outputSchema"@.len() == 12,
            "maxTimeoutSeconds"@.len() == 17,
            "extra"@.len() == 5,
            "maxAmountRequired"@[3] != "maxTimeoutSeconds"@[3],
            "asset"@[0] != "payTo"@[0],
            "asset"@[0] != "extra"@[0],
            "payTo"@[0] != "extra"@[0],
            "resource"@[0] != "mimeType"@[0],
    {
        reveal_strlit("scheme");
        reveal_strlit("network");
        reveal_strlit("maxAmountRequired");
        reveal_strlit("asset");
        reveal_strlit("payTo");
        reveal_strlit("resource");
        reveal_strlit("description");
        reveal_strlit("mimeType");
        reveal_strlit("outputSchema");
        reveal_strlit("maxTimeoutSeconds");
        reveal_strlit("extra");
    }
}

impl JsonCodec for PaymentRequirements {
    open spec fn spec_json(v: PaymentRequirementsView) -> Seq<char> {
        "{"@
            + member(true, "scheme"@, json_string(v.scheme.spec_str()))
            + member(false, "network"@, json_string(v.network.spec_x402_identifier()))
            + member(false, "maxAmountRequired"@, decimal_digits(v.max_amount_required as nat))
            + member(false, "asset"@, json_string(v.asset))
            + member(false, "payTo"@, json_string(v.pay_to))
            + member(false, "resource"@, json_string(v.resource))
            + member(false, "description"@, json_string(v.description))
            + optional_member("mimeType"@, opt_json_string(spec_serialize_mime(v.mime_type)))
            + member(false, "outputSchema"@, json_opt_string(v.output_schema))
            + member(false, "maxTimeoutSeconds"@, decimal_digits(v.max_timeout_seconds as nat))
            + member(false, "extra"@, PaymentRequestExtras::spec_json(v.extra))
            + "}"@
    }

    open spec fn spec_read(doc: Value) -> Result<PaymentRequirementsView, X402Error> {
        let scheme = spec_read_scheme(spec_member(doc, "scheme"@));
        let network = spec_read_network(spec_member(doc, "network"@));
        let max_amount_required = spec_read_number(spec_member(doc, "maxAmountRequired"@));
        let asset = spec_read_text(spec_member(doc, "asset"@));
        let pay_to = spec_read_text(spec_member(doc, "payTo"@));
        let resource = spec_read_text(spec_member(doc, "resource"@));
        let description = spec_read_text(spec_member(doc, "description"@));
        let mime_type = spec_read_mime(spec_member(doc, "mimeType"@));
        let output_schema = spec_read_optional_text(spec_member(doc, "outputSchema"@));
        let max_timeout_seconds = spec_read_number(spec_member(doc, "maxTimeoutSeconds"@));
        let extra = spec_read_member::<PaymentRequestExtras>(spec_member(doc, "extra"@));
        if scheme is Err {
            Err(scheme->Err_0)
        } else if network is Err {
            Err(network->Err_0)
        } else if max_amount_required is Err {
            Err(max_amount_required->Err_0)
        } else if asset is Err {
            Err(asset->Err_0)
        } else if pay_to is Err {
            Err(pay_to->Err_0)
        } else if resource is Err {
            Err(resource->Err_0)
        } else if description is Err {
            Err(description->Err_0)
        } else if mime_type is Err {
            Err(mime_type->Err_0)
        } else if output_schema is Err {
            Err(output_schema->Err_0)
        } else if max_timeout_seconds is Err {
            Err(max_timeout_seconds->Err_0)
        } else if extra is Err {
            Err(extra->Err_0)
        } else {
            Ok(
                PaymentRequirementsView {
                    scheme: scheme->Ok_0,
                    network: network->Ok_0,
                    max_amount_required: max_amount_required->Ok_0,
                    asset: asset->Ok_0,
                    pay_to: pay_to->Ok_0,
                    resource: resource->Ok_0,
                    description: description->Ok_0,
                    mime_type: mime_type->Ok_0,
                    output_schema: output_schema->Ok_0,
                    max_timeout_seconds: max_timeout_seconds->Ok_0,
                    extra: extra->Ok_0,
                },
            )
        }
    }

    fn to_json(&self) -> (r: String) {
        let mut out = "{".to_owned();
        let value = quote(self.scheme.as_str());
        put_member(&mut out, true, "scheme", value.as_str());
        let value = quote(serialize_network(&self.network));
        put_member(&mut out, false, "network", value.as_str());
        let value = decimal_string(self.max_amount_required);
        put_member(&mut out, false, "maxAmountRequired", value.as_str());
        let value = quote(self.asset.as_str());
        put_member(&mut out, false, "asset", value.as_str());
        let value = quote(self.pay_to.as_str());
        put_member(&mut out, false, "payTo", value.as_str());
        let value = quote(self.resource.as_str());
        put_member(&mut out, false, "resource", value.as_str());
        let value = quote(self.description.as_str());
        put_member(&mut out, false, "description", value.as_str());
        put_optional_string(&mut out, "mimeType", serialize_mime(&self.mime_type));
        let value = opt_string_text(opt_str(&self.output_schema));
        put_member(&mut out, false, "outputSchema", value.as_str());
        let value = decimal_string(self.max_timeout_seconds);
        put_member(&mut out, false, "maxTimeoutSeconds", value.as_str());
        let value = self.extra.to_json();
        put_member(&mut out, false, "extra", value.as_str());
        out.append("}");
        out
    }

    fn from_document(doc: &Value) -> (r: X402Result<Self>) {
        let scheme = read_scheme(get_member(doc, "scheme"))?;
        let network = read_network(get_member(doc, "network"))?;
        let max_amount_required = read_number(get_member(doc, "maxAmountRequired"))?;
        let asset = read_text(get_member(doc, "asset"))?;
        let pay_to = read_text(get_member(doc, "payTo"))?;
        let resource = read_text(get_member(doc, "resource"))?;
        let description = read_text(get_member(doc, "description"))?;
        let mime_type = read_mime(get_member(doc, "mimeType"))?;
        let output_schema = read_optional_text(get_member(doc, "outputSchema"))?;
        let max_timeout_seconds = read_number(get_member(doc, "maxTimeoutSeconds"))?;
        let extra = read_member::<PaymentRequestExtras>(get_member(doc, "extra"))?;
        Ok(
            PaymentRequirements {
                scheme,
                network,
                max_amount_required,
                asset,
                pay_to,
                resource,
                description,
                mime_type,
                output_schema,
                max_timeout_seconds,
                extra,
            },
        )
    }

    fn to_document(&self) -> (r: Value) {
        let mut members = new_members();
        put(&mut members, "scheme", text_value(self.scheme.as_str()));
        put(&mut members, "network", text_value(serialize_network(&self.network)));
        put(&mut members, "maxAmountRequired", number_value(self.max_amount_required));
        put(&mut members, "asset", text_value(self.asset.as_str()));
        put(&mut members, "payTo", text_value(self.pay_to.as_str()));
        put(&mut members, "resource", text_value(self.resource.as_str()));
        put(&mut members, "description", text_value(self.description.as_str()));
        match serialize_mime(&self.mime_type) {
            Some(text) => put(&mut members, "mimeType", text_value(text)),
            None => {},
        }
        put(&mut members, "outputSchema", optional_text_value(opt_str(&self.output_schema)));
        put(&mut members, "maxTimeoutSeconds", number_value(self.max_timeout_seconds));
        put(&mut members, "extra", self.extra.to_document());
        let r = object_value(members);
        proof {
            PaymentRequirements::reveal_keys();
            lemma_scheme_name_parses(self.scheme);
            lemma_network_round_trip(self.network);
            lemma_mime_round_trip(self.mime_type);
        }
        r
    }
}

impl PaymentRequirementsBuilder {
    /// What a fresh builder holds: the exact scheme, the default network, nothing else.
    pub open spec fn spec_new() -> PaymentRequirementsBuilderView {
        PaymentRequirementsBuilderView {
            scheme: PaymentScheme::Exact,
            network: X402SolanaNetworkInfo::Devnet,
            max_amount_required: None,
            asset: None,
            pay_to: None,
            resource: None,
            description: None,
            mime_type: None,
            output_schema: None,
            max_timeout_seconds: None,
            extra: None,
        }
    }

    /// What building yields. The required fields are looked for in a fixed order: amount,
    /// asset, recipient, resource, description, timeout, extras. The first that is absent
    /// decides the error. The MIME type and the output schema may stay absent.
    pub open spec fn spec_build(b: PaymentRequirementsBuilderView) -> Result<
        PaymentRequirementsView,
        X402Error,
    > {
        if b.max_amount_required is None {
            Err(X402Error::MaxAmountIsMissing)
        } else if b.asset is None {
            Err(X402Error::AssetIsMissing)
        } else if b.pay_to is None {
            Err(X402Error::PayToIsMissing)
        } else if b.resource is None {
            Err(X402Error::ResourceIsMissing)
        } else if b.description is None {
            Err(X402Error::DescriptionIsMissing)
        } else if b.max_timeout_seconds is None {
            Err(X402Error::MaxTimeoutIsMissing)
        } else if b.extra is None {
            Err(X402Error::ExtraIsMissing)
        } else {
            Ok(
                PaymentRequirementsView {
                    scheme: PaymentScheme::Exact,
                    network: b.network,
                    max_amount_required: b.max_amount_required.unwrap(),
                    asset: b.asset.unwrap(),
                    pay_to: b.pay_to.unwrap(),
                    resource: b.resource.unwrap(),
                    description: b.description.unwrap(),
                    mime_type: b.mime_type,
                    output_schema: b.output_schema,
                    max_timeout_seconds: b.max_timeout_seconds.unwrap(),
                    extra: b.extra.unwrap(),
                },
            )
        }
    }

    /// A builder that was given nothing yet.
    pub fn new() -> (r: Self)
        ensures
            r@ == PaymentRequirementsBuilder::spec_new(),
    {
        PaymentRequirementsBuilder {
            scheme: PaymentScheme::Exact,
            network: X402SolanaNetworkInfo::Devnet,
            max_amount_required: None,
            asset: None,
            pay_to: None,
            resource: None,
            description: None,
            mime_type: None,
            output_schema: None,
            max_timeout_seconds: None,
            extra: None,
        }
    }

    /// Chooses the network `Mainnet`.
    pub fn use_mainnet(&mut self) -> (r: &mut Self)
        ensures
            *final(self) == *final(r),
            (*r)@ == (PaymentRequirementsBuilderView {
                network: X402SolanaNetworkInfo::Mainnet,
                ..old(self)@
            }),
    {
        self.network = X402SolanaNetworkInfo::Mainnet;
        self
    }

    /// Chooses the network `Testnet`.
    pub fn use_testnet(&mut self) -> (r: &mut Self)
        ensures
            *final(self) == *final(r),
            (*r)@ == (PaymentRequirementsBuilderView {
                network: X402SolanaNetworkInfo::Testnet,
                ..old(self)@
            }),
    {
        self.network = X402SolanaNetworkInfo::Testnet;
        self
    }

    /// Chooses the network `Devnet`.
    pub fn use_devnet(&mut self) -> (r: &mut Self)
        ensures
            *final(self) == *final(r),
            (*r)@ == (PaymentRequirementsBuilderView {
                network: X402SolanaNetworkInfo::Devnet,
                ..old(self)@
            }),
    {
        self.network = X402SolanaNetworkInfo::Devnet;
        self
    }

    /// Chooses the network `Localnet`.
    pub fn use_localhost(&mut self) -> (r: &mut Self)
        ensures
            *final(self) == *final(r),
            (*r)@ == (PaymentRequirementsBuilderView {
                network: X402SolanaNetworkInfo::Localnet,
                ..old(self)@
            }),
    {
        self.network = X402SolanaNetworkInfo::Localnet;
        self
    }

    /// Sets `max_amount_required`: required amount, in atomic units of the asset.
    pub fn set_amount(&mut self, amount: u64) -> (r: &mut Self)
        ensures
            *final(self) == *final(r),
            (*r)@ == (PaymentRequirementsBuilderView {
                max_amount_required: Some(amount),
                ..old(self)@
            }),
    {
        self.max_amount_required = Some(amount);
        self
    }

    /// Sets `asset`: address of the token contract.
    pub fn set_asset(&mut self, asset: &str) -> (r: &mut Self)
        ensures
            *final(self) == *final(r),
            (*r)@ == (PaymentRequirementsBuilderView { asset: Some(asset@), ..old(self)@ }),
    {
        self.asset = Some(asset.to_owned());
        self
    }

    /// Sets `pay_to`: address of the wallet that receives the payment.
    pub fn set_recipient(&mut self, recipient: &str) -> (r: &mut Self)
        ensures
            *final(self) == *final(r),
            (*r)@ == (PaymentRequirementsBuilderView { pay_to: Some(recipient@), ..old(self)@ }),
    {
        self.pay_to = Some(recipient.to_owned());
        self
    }

    /// Sets `resource`: uRL of the protected resource.
    pub fn set_resource(&mut self, resource: &str) -> (r: &mut Self)
        ensures
            *final(self) == *final(r),
            (*r)@ == (PaymentRequirementsBuilderView { resource: Some(resource@), ..old(self)@ }),
    {
        self.resource = Some(resource.to_owned());
        self
    }

    /// Sets `description`: human-readable description of the resource.
    pub fn set_description(&mut self, description: &str) -> (r: &mut Self)
        ensures
            *final(self) == *final(r),
            (*r)@ == (PaymentRequirementsBuilderView {
                description: Some(description@),
                ..old(self)@
            }),
    {
        self.description = Some(description.to_owned());
        self
    }

    /// States that the response is JSON.
    pub fn set_mime_as_json(&mut self) -> (r: &mut Self)
        ensures
            *final(self) == *final(r),
            (*r)@ == (PaymentRequirementsBuilderView {
                mime_type: Some(MimeType::Json),
                ..old(self)@
            }),
    {
        self.mime_type = Some(MimeType::Json);
        self
    }

    /// States that the response is binary.
    pub fn set_mime_as_binary(&mut self) -> (r: &mut Self)
        ensures
            *final(self) == *final(r),
            (*r)@ == (PaymentRequirementsBuilderView {
                mime_type: Some(MimeType::Binary),
                ..old(self)@
            }),
    {
        self.mime_type = Some(MimeType::Binary);
        self
    }

    /// Sets the output schema to the text that the JSON value is displayed as.
    pub fn set_output_schema(&mut self, json_schema: jzon::JsonValue) -> (r: &mut Self)
        ensures
            *final(self) == *final(r),
            (*r)@ == (PaymentRequirementsBuilderView {
                output_schema: Some(json_display(json_schema)),
                ..old(self)@
            }),
    {
        let text = display_json(&json_schema);
        self.set_output_schema_text(text.as_str())
    }

    /// Sets the output schema to a text that already holds JSON.
    pub fn set_output_schema_text(&mut self, json_schema: &str) -> (r: &mut Self)
        ensures
            *final(self) == *final(r),
            (*r)@ == (PaymentRequirementsBuilderView {
                output_schema: Some(json_schema@),
                ..old(self)@
            }),
    {
        self.output_schema = Some(json_schema.to_owned());
        self
    }

    /// Sets the timeout to the whole seconds of a duration.
    pub fn set_max_timeout_seconds(&mut self, duration: Duration) -> (r: &mut Self)
        ensures
            *final(self) == *final(r),
            (*r)@ == (PaymentRequirementsBuilderView {
                max_timeout_seconds: Some(whole_seconds(duration)),
                ..old(self)@
            }),
    {
        let seconds = duration_secs(&duration);
        self.set_max_timeout(seconds)
    }

    /// Sets the timeout in seconds.
    pub fn set_max_timeout(&mut self, seconds: u64) -> (r: &mut Self)
        ensures
            *final(self) == *final(r),
            (*r)@ == (PaymentRequirementsBuilderView {
                max_timeout_seconds: Some(seconds),
                ..old(self)@
            }),
    {
        self.max_timeout_seconds = Some(seconds);
        self
    }

    /// Sets `extra`: scheme-specific additions.
    pub fn set_extra(&mut self, extra: PaymentRequestExtras) -> (r: &mut Self)
        ensures
            *final(self) == *final(r),
            (*r)@ == (PaymentRequirementsBuilderView { extra: Some(extra@), ..old(self)@ }),
    {
        self.extra = Some(extra);
        self
    }

    /// Builds the payment requirements, or names the first required field that is missing.
    pub fn build(self) -> (r: X402Result<PaymentRequirements>)
        ensures
            match r {
                Ok(p) => PaymentRequirementsBuilder::spec_build(self@) == Ok::<
                    PaymentRequirementsView,
                    X402Error,
                >(p@),
                Err(e) => PaymentRequirementsBuilder::spec_build(self@) == Err::<
                    PaymentRequirementsView,
                    X402Error,
                >(e),
            },
    {
        let max_amount_required = match self.max_amount_required {
            Some(amount) => amount,
            None => { return Err(X402Error::MaxAmountIsMissing); },
        };
        let asset = match self.asset {
            Some(asset) => asset,
            None => { return Err(X402Error::AssetIsMissing); },
        };
        let pay_to = match self.pay_to {
            Some(pay_to) => pay_to,
            None => { return Err(X402Error::PayToIsMissing); },
        };
        let resource = match self.resource {
            Some(resource) => resource,
            None => { return Err(X402Error::ResourceIsMissing); },
        };
        let description = match self.description {
            Some(description) => description,
            None => { return Err(X402Error::DescriptionIsMissing); },
        };
        let max_timeout_seconds = match self.max_timeout_seconds {
            Some(seconds) => seconds,
            None => { return Err(X402Error::MaxTimeoutIsMissing); },
        };
        let extra = match self.extra {
            Some(extra) => extra,
            None => { return Err(X402Error::ExtraIsMissing); },
        };
        Ok(
            PaymentRequirements {
                scheme: PaymentScheme::Exact,
                network: self.network,
                max_amount_required,
                asset,
                pay_to,
                resource,
                description,
                mime_type: self.mime_type,
                output_schema: self.output_schema,
                max_timeout_seconds,
                extra,
            },
        )
    }
}

impl Default for PaymentRequirementsBuilder {
    fn default() -> (r: Self)
        ensures
            r@ == PaymentRequirementsBuilder::spec_new(),
    {
        PaymentRequirementsBuilder::new()
    }
}

/// A builder without an amount fails on the amount, the first field looked for, whatever
/// else it was given. So does a builder that was given nothing.
pub proof fn lemma_build_without_amount(b: PaymentRequirementsBuilderView)
    requires
        b.max_amount_required is None,
    ensures
        PaymentRequirementsBuilder::spec_build(b) == Err::<PaymentRequirementsView, X402Error>(
            X402Error::MaxAmountIsMissing,
        ),
        PaymentRequirementsBuilder::spec_build(PaymentRequirementsBuilder::spec_new()) == Err::<
            PaymentRequirementsView,
            X402Error,
        >(X402Error::MaxAmountIsMissing),
{
}

/// A builder that was given the seven required fields succeeds, and every field of what it
/// builds is the one it was given.
pub proof fn lemma_build_complete(b: PaymentRequirementsBuilderView)
    requires
        b.max_amount_required is Some,
        b.asset is Some,
        b.pay_to is Some,
        b.resource is Some,
        b.description is Some,
        b.max_timeout_seconds is Some,
        b.extra is Some,
    ensures
        PaymentRequirementsBuilder::spec_build(b) is Ok,
        ({
            let p = PaymentRequirementsBuilder::spec_build(b).unwrap();
            &&& p.scheme == PaymentScheme::Exact
            &&& p.network == b.network
            &&& Some(p.max_amount_required) == b.max_amount_required
            &&& Some(p.asset) == b.asset
            &&& Some(p.pay_to) == b.pay_to
            &&& Some(p.resource) == b.resource
            &&& Some(p.description) == b.description
            &&& p.mime_type == b.mime_type
            &&& p.output_schema == b.output_schema
            &&& Some(p.max_timeout_seconds) == b.max_timeout_seconds
            &&& Some(p.extra) == b.extra
        }),
{
}

/// Building succeeds exactly when the seven required fields are present.
pub proof fn lemma_build_succeeds_iff(b: PaymentRequirementsBuilderView)
    ensures
        PaymentRequirementsBuilder::spec_build(b) is Ok <==> (b.max_amount_required is Some
            && b.asset is Some && b.pay_to is Some && b.resource is Some && b.description is Some
            && b.max_timeout_seconds is Some && b.extra is Some),
{
}

} // verus!
