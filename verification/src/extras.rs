//! Scheme-specific additions to the payment requirements.
use vstd::prelude::*;
use vstd::string::StringExecFns;
use serde_json::Value;
use crate::codec::JsonCodec;
use crate::document::{
    flag_value, get_member, new_members, number_value, object_value, optional_text_value, put,
    read_flag, read_optional_text, read_small_number, read_text, spec_member, spec_read_flag,
    spec_read_optional_text, spec_read_small_number, spec_read_text, text_value,
};
use crate::errors::{X402Error, X402Result};
use crate::text::{decimal_digits, decimal_string};
use crate::wire::{
    bool_text, json_bool, json_opt_string, json_string, member, opt_json_string, opt_str,
    opt_string_text, optional_member, put_member, put_optional_string, quote,
};

verus! {

/// What the exact scheme adds to the payment requirements: who pays the fee, and how the
/// asset is minted and shown.
#[derive(Debug, PartialEq, Eq, PartialOrd, Ord, Clone)]
pub struct PaymentRequestExtras {
    /// Name of the token, for display.
    name: Option<String>,
    /// Version of the token program.
    version: Option<String>,
    /// Address of the account that pays the transaction fee.
    fee_payer: String,
    /// Whether the asset is minted under the token-extensions program.
    token_extensions_mint: bool,
    /// Number of decimal places of the asset.
    decimals: u8,
    /// Address of the authority over the asset, if any.
    authority: Option<String>,
    /// Address of an image to show with the payment request.
    pub header_image: Option<String>,
    /// Title to show with the payment request.
    pub title: Option<String>,
}

/// What a `PaymentRequestExtras` holds, as mathematical values.
pub struct PaymentRequestExtrasView {
    pub name: Option<Seq<char>>,
    pub version: Option<Seq<char>>,
    pub fee_payer: Seq<char>,
    pub token_extensions_mint: bool,
    pub decimals: u8,
    pub authority: Option<Seq<char>>,
    pub header_image: Option<Seq<char>>,
    pub title: Option<Seq<char>>,
}

impl View for PaymentRequestExtras {
    type V = PaymentRequestExtrasView;

    closed spec fn view(&self) -> PaymentRequestExtrasView {
        PaymentRequestExtrasView {
            name: self.name.deep_view(),
            version: self.version.deep_view(),
            fee_payer: self.fee_payer@,
            token_extensions_mint: self.token_extensions_mint,
            decimals: self.decimals,
            authority: self.authority.deep_view(),
            header_image: self.header_image.deep_view(),
            title: self.title.deep_view(),
        }
    }
}

impl PaymentRequestExtras {
    /// Extras with the given fee payer, for an asset of the token-extensions program, with
    /// everything else absent.
    pub fn new(fee_payer: &str) -> (r: Self)
        ensures
            r@ == (PaymentRequestExtrasView {
                name: None,
                version: None,
                fee_payer: fee_payer@,
                token_extensions_mint: true,
                decimals: 0,
                authority: None,
                header_image: None,
                title: None,
            }),
    {
        PaymentRequestExtras {
            name: None,
            version: None,
            fee_payer: fee_payer.to_owned(),
            token_extensions_mint: true,
            decimals: 0,
            authority: None,
            header_image: None,
            title: None,
        }
    }

    /// Sets `name`: name of the token, for display.
    pub fn set_name(self, name: &str) -> (r: Self)
        ensures
            r@ == (PaymentRequestExtrasView { name: Some(name@), ..self@ }),
    {
        PaymentRequestExtras { name: Some(name.to_owned()), ..self }
    }

    /// Sets `version`: version of the token program.
    pub fn set_version(self, version: &str) -> (r: Self)
        ensures
            r@ == (PaymentRequestExtrasView { version: Some(version@), ..self@ }),
    {
        PaymentRequestExtras { version: Some(version.to_owned()), ..self }
    }

    /// Marks the asset as minted under the token-extensions program.
    pub fn set_token_extensions_mint(self) -> (r: Self)
        ensures
            r@ == (PaymentRequestExtrasView { token_extensions_mint: true, ..self@ }),
    {
        PaymentRequestExtras { token_extensions_mint: true, ..self }
    }

    /// Marks the asset as minted under the legacy token program.
    pub fn set_legacy_token_mint(self) -> (r: Self)
        ensures
            r@ == (PaymentRequestExtrasView { token_extensions_mint: false, ..self@ }),
    {
        PaymentRequestExtras { token_extensions_mint: false, ..self }
    }

    /// Sets `authority`: address of the authority over the asset, if any.
    pub fn set_authority(self, authority: &str) -> (r: Self)
        ensures
            r@ == (PaymentRequestExtrasView { authority: Some(authority@), ..self@ }),
    {
        PaymentRequestExtras { authority: Some(authority.to_owned()), ..self }
    }

    /// Sets `decimals`: number of decimal places of the asset.
    pub fn set_decimals(self, decimals: u8) -> (r: Self)
        ensures
            r@ == (PaymentRequestExtrasView { decimals: decimals, ..self@ }),
    {
        PaymentRequestExtras { decimals: decimals, ..self }
    }

    /// Sets `title`: title to show with the payment request.
    pub fn set_title(self, title: &str) -> (r: Self)
        ensures
            r@ == (PaymentRequestExtrasView { title: Some(title@), ..self@ }),
    {
        PaymentRequestExtras { title: Some(title.to_owned()), ..self }
    }

    /// Sets `header_image`: address of an image to show with the payment request.
    pub fn set_header_image(self, image_url: &str) -> (r: Self)
        ensures
            r@ == (PaymentRequestExtrasView { header_image: Some(image_url@), ..self@ }),
    {
        PaymentRequestExtras { header_image: Some(image_url.to_owned()), ..self }
    }

    /// Address of the account that pays the transaction fee.
    pub fn fee_payer(&self) -> (r: &str)
        ensures
            r@ == self@.fee_payer,
    {
        self.fee_payer.as_str()
    }

    /// Name of the token, for display.
    pub fn name(&self) -> (r: Option<&str>)
        ensures
            r.deep_view() == self@.name,
    {
        match &self.name {
            Some(s) => Some(s.as_str()),
            None => None,
        }
    }

    /// Version of the token program.
    pub fn version(&self) -> (r: Option<&str>)
        ensures
            r.deep_view() == self@.version,
    {
        match &self.version {
            Some(s) => Some(s.as_str()),
            None => None,
        }
    }

    /// Whether the asset is minted under the token-extensions program.
    pub fn token_extensions_mint(&self) -> (r: bool)
        ensures
            r == self@.token_extensions_mint,
    {
        self.token_extensions_mint
    }

    /// Number of decimal places of the asset.
    pub fn decimals(&self) -> (r: u8)
        ensures
            r == self@.decimals,
    {
        self.decimals
    }

    /// Address of the authority over the asset, if any.
    pub fn authority(&self) -> (r: Option<&str>)
        ensures
            r.deep_view() == self@.authority,
    {
        match &self.authority {
            Some(s) => Some(s.as_str()),
            None => None,
        }
    }

    /// Title to show with the payment request.
    pub fn title(&self) -> (r: Option<&str>)
        ensures
            r.deep_view() == self@.title,
    {
        match &self.title {
            Some(s) => Some(s.as_str()),
            None => None,
        }
    }

    /// Address of an image to show with the payment request.
    pub fn header_image(&self) -> (r: Option<&str>)
        ensures
            r.deep_view() == self@.header_image,
    {
        match &self.header_image {
            Some(s) => Some(s.as_str()),
            None => None,
        }
    }

    /// What tells the keys of the extras apart.
    proof fn reveal_keys()
        ensures
            "name"@.len() == 4,
            "version"@.len() == 7,
            "feePayer"@.len() == 8,
            "tokenExtensionsMint"@.len() == 19,
            "decimals"@.len() == 8,
            "authority"@.len() == 9,
            "headerImage"@.len() == 11,
            "title"@.len() == 5,
            "feePayer"@[0] != "decimals"@[0],
    {
        reveal_strlit("name");
        reveal_strlit("version");
        reveal_strlit("feePayer");
        reveal_strlit("tokenExtensionsMint");
        reveal_strlit("decimals");
        reveal_strlit("authority");
        reveal_strlit("headerImage");
        reveal_strlit("title");
    }
}

impl JsonCodec for PaymentRequestExtras {
    open spec fn spec_json(v: PaymentRequestExtrasView) -> Seq<char> {
        "{"@
            + member(true, "name"@, json_opt_string(v.name))
            + member(false, "version"@, json_opt_string(v.version))
            + member(false, "feePayer"@, json_string(v.fee_payer))
            + member(false, "tokenExtensionsMint"@, json_bool(v.token_extensions_mint))
            + member(false, "decimals"@, decimal_digits(v.decimals as nat))
            + member(false, "authority"@, json_opt_string(v.authority))
            + optional_member("headerImage"@, opt_json_string(v.header_image))
            + optional_member("title"@, opt_json_string(v.title))
            + "}"@
    }

    open spec fn spec_read(doc: Value) -> Result<PaymentRequestExtrasView, X402Error> {
        let name = spec_read_optional_text(spec_member(doc, "name"@));
        let version = spec_read_optional_text(spec_member(doc, "version"@));
        let fee_payer = spec_read_text(spec_member(doc, "feePayer"@));
        let token_extensions_mint = spec_read_flag(spec_member(doc, "tokenExtensionsMint"@));
        let decimals = spec_read_small_number(spec_member(doc, "decimals"@));
        let authority = spec_read_optional_text(spec_member(doc, "authority"@));
        let header_image = spec_read_optional_text(spec_member(doc, "headerImage"@));
        let title = spec_read_optional_text(spec_member(doc, "title"@));
        if name is Err {
            Err(name->Err_0)
        } else if version is Err {
            Err(version->Err_0)
        } else if fee_payer is Err {
            Err(fee_payer->Err_0)
        } else if token_extensions_mint is Err {
            Err(token_extensions_mint->Err_0)
        } else if decimals is Err {
            Err(decimals->Err_0)
        } else if authority is Err {
            Err(authority->Err_0)
        } else if header_image is Err {
            Err(header_image->Err_0)
        } else if title is Err {
            Err(title->Err_0)
        } else {
            Ok(
                PaymentRequestExtrasView {
                    name: name->Ok_0,
                    version: version->Ok_0,
                    fee_payer: fee_payer->Ok_0,
                    token_extensions_mint: token_extensions_mint->Ok_0,
                    decimals: decimals->Ok_0,
                    authority: authority->Ok_0,
                    header_image: header_image->Ok_0,
                    title: title->Ok_0,
                },
            )
        }
    }

    fn to_json(&self) -> (r: String) {
        let mut out = "{".to_owned();
        let value = opt_string_text(opt_str(&self.name));
        put_member(&mut out, true, "name", value.as_str());
        let value = opt_string_text(opt_str(&self.version));
        put_member(&mut out, false, "version", value.as_str());
        let value = quote(self.fee_payer.as_str());
        put_member(&mut out, false, "feePayer", value.as_str());
        put_member(&mut out, false, "tokenExtensionsMint", bool_text(self.token_extensions_mint));
        let value = decimal_string(self.decimals as u64);
        put_member(&mut out, false, "decimals", value.as_str());
        let value = opt_string_text(opt_str(&self.authority));
        put_member(&mut out, false, "authority", value.as_str());
        put_optional_string(&mut out, "headerImage", opt_str(&self.header_image));
        put_optional_string(&mut out, "title", opt_str(&self.title));
        out.append("}");
        out
    }

    fn from_document(doc: &Value) -> (r: X402Result<Self>) {
        let name = read_optional_text(get_member(doc, "name"))?;
        let version = read_optional_text(get_member(doc, "version"))?;
        let fee_payer = read_text(get_member(doc, "feePayer"))?;
        let token_extensions_mint = read_flag(get_member(doc, "tokenExtensionsMint"))?;
        let decimals = read_small_number(get_member(doc, "decimals"))?;
        let authority = read_optional_text(get_member(doc, "authority"))?;
        let header_image = read_optional_text(get_member(doc, "headerImage"))?;
        let title = read_optional_text(get_member(doc, "title"))?;
        Ok(
            PaymentRequestExtras {
                name,
                version,
                fee_payer,
                token_extensions_mint,
                decimals,
                authority,
                header_image,
                title,
            },
        )
    }

    fn to_document(&self) -> (r: Value) {
        let mut members = new_members();
        put(&mut members, "name", optional_text_value(opt_str(&self.name)));
        put(&mut members, "version", optional_text_value(opt_str(&self.version)));
        put(&mut members, "feePayer", text_value(self.fee_payer.as_str()));
        put(&mut members, "tokenExtensionsMint", flag_value(self.token_extensions_mint));
        put(&mut members, "decimals", number_value(self.decimals as u64));
        put(&mut members, "authority", optional_text_value(opt_str(&self.authority)));
        match opt_str(&self.header_image) {
            Some(text) => put(&mut members, "headerImage", text_value(text)),
            None => {},
        }
        match opt_str(&self.title) {
            Some(text) => put(&mut members, "title", text_value(text)),
            None => {},
        }
        let r = object_value(members);
        proof {
            PaymentRequestExtras::reveal_keys();
        }
        r
    }
}

} // verus!
