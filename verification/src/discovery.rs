//! The catalogue of paid resources and its paginated listing.
use vstd::prelude::*;
use vstd::string::StringExecFns;
use serde_json::Value;
use crate::codec::{
    list_to_document, list_to_json, opt_view, read_list, read_member, read_optional_member,
    spec_json_each, spec_json_or_null, spec_read_list, spec_read_member, spec_read_optional_member,
    to_document_or_null, to_json_or_null, views, JsonCodec,
};
use crate::document::{
    get_member, new_members, number_value, object_value, optional_number_value, optional_text_value,
    put, read_number, read_optional_number, read_optional_text, read_small_number, read_text,
    spec_member, spec_read_number, spec_read_optional_number, spec_read_optional_text,
    spec_read_small_number, spec_read_text, text_value,
};
use crate::errors::{X402Error, X402Result};
use crate::payment_requirements::{PaymentRequirements, PaymentRequirementsView};
use crate::text::{decimal_digits, decimal_string};
use crate::wire::{
    json_array, json_opt_number, json_opt_string, json_string, member, opt_json_string,
    opt_number_text, opt_str, opt_string_text, optional_member, put_member, put_optional_string,
    quote,
};

verus! {

/// Where a resource belongs in the catalogue.
#[derive(Debug, PartialEq, Eq, PartialOrd, Ord, Clone)]
pub struct ResourceInfoMetadata {
    /// Category of the resource.
    pub category: String,
    /// Who provides the resource.
    pub provider: String,
    /// Reference to the agent card of the provider, if any.
    pub agent_card: Option<String>,
}

/// What a `ResourceInfoMetadata` holds, as mathematical values.
pub struct ResourceInfoMetadataView {
    pub category: Seq<char>,
    pub provider: Seq<char>,
    pub agent_card: Option<Seq<char>>,
}

impl View for ResourceInfoMetadata {
    type V = ResourceInfoMetadataView;

    open spec fn view(&self) -> ResourceInfoMetadataView {
        ResourceInfoMetadataView {
            category: self.category@,
            provider: self.provider@,
            agent_card: self.agent_card.deep_view(),
        }
    }
}

impl ResourceInfoMetadata {
    /// What tells the keys of the metadata apart.
    proof fn reveal_keys()
        ensures
            "category"@.len() == 8,
            "provider"@.len() == 8,
            "agentCard"@.len() == 9,
            "category"@[0] != "provider"@[0],
    {
        reveal_strlit("category");
        reveal_strlit("provider");
        reveal_strlit("agentCard");
    }
}

impl JsonCodec for ResourceInfoMetadata {
    open spec fn spec_json(v: ResourceInfoMetadataView) -> Seq<char> {
        "{"@
            + member(true, "category"@, json_string(v.category))
            + member(false, "provider"@, json_string(v.provider))
            + optional_member("agentCard"@, opt_json_string(v.agent_card))
            + "}"@
    }

    open spec fn spec_read(doc: Value) -> Result<ResourceInfoMetadataView, X402Error> {
        let category = spec_read_text(spec_member(doc, "category"@));
        let provider = spec_read_text(spec_member(doc, "provider"@));
        let agent_card = spec_read_optional_text(spec_member(doc, "agentCard"@));
        if category is Err {
            Err(category->Err_0)
        } else if provider is Err {
            Err(provider->Err_0)
        } else if agent_card is Err {
            Err(agent_card->Err_0)
        } else {
            Ok(
                ResourceInfoMetadataView {
                    category: category->Ok_0,
                    provider: provider->Ok_0,
                    agent_card: agent_card->Ok_0,
                },
            )
        }
    }

    fn to_json(&self) -> (r: String) {
        let mut out = "{".to_owned();
        let value = quote(self.category.as_str());
        put_member(&mut out, true, "category", value.as_str());
        let value = quote(self.provider.as_str());
        put_member(&mut out, false, "provider", value.as_str());
        put_optional_string(&mut out, "agentCard", opt_str(&self.agent_card));
        out.append("}");
        out
    }

    fn from_document(doc: &Value) -> (r: X402Result<Self>) {
        let category = read_text(get_member(doc, "category"))?;
        let provider = read_text(get_member(doc, "provider"))?;
        let agent_card = read_optional_text(get_member(doc, "agentCard"))?;
        Ok(ResourceInfoMetadata { category, provider, agent_card })
    }

    fn to_document(&self) -> (r: Value) {
        let mut members = new_members();
        put(&mut members, "category", text_value(self.category.as_str()));
        put(&mut members, "provider", text_value(self.provider.as_str()));
        match opt_str(&self.agent_card) {
            Some(text) => put(&mut members, "agentCard", text_value(text)),
            None => {},
        }
        let r = object_value(members);
        proof {
            ResourceInfoMetadata::reveal_keys();
        }
        r
    }
}

/// One entry of the catalogue: a resource and the payment methods that it accepts.
#[derive(Debug, PartialEq, Eq, PartialOrd, Ord, Clone)]
pub struct ResourceInfo {
    /// URL or identifier of the resource.
    pub resource: String,
    /// Type of the resource, such as `http`.
    pub resource_type: Option<String>,
    /// Protocol version that the resource supports.
    pub x402_version: u8,
    /// The payment methods that the resource accepts.
    pub accepts: Vec<PaymentRequirements>,
    /// When the entry was last updated, in seconds since the Unix epoch.
    pub last_updated: u64,
    /// Where the resource belongs in the catalogue.
    pub metadata: Option<ResourceInfoMetadata>,
    /// Address of an image to show with the resource.
    pub header_image: Option<String>,
    /// Title to show with the resource.
    pub title: Option<String>,
    /// Description to show with the resource.
    pub description: Option<String>,
}

/// What a `ResourceInfo` holds, as mathematical values.
pub struct ResourceInfoView {
    pub resource: Seq<char>,
    pub resource_type: Option<Seq<char>>,
    pub x402_version: u8,
    pub accepts: Seq<PaymentRequirementsView>,
    pub last_updated: u64,
    pub metadata: Option<ResourceInfoMetadataView>,
    pub header_image: Option<Seq<char>>,
    pub title: Option<Seq<char>>,
    pub description: Option<Seq<char>>,
}

impl View for ResourceInfo {
    type V = ResourceInfoView;

    open spec fn view(&self) -> ResourceInfoView {
        ResourceInfoView {
            resource: self.resource@,
            resource_type: self.resource_type.deep_view(),
            x402_version: self.x402_version,
            accepts: views(self.accepts@),
            last_updated: self.last_updated,
            metadata: opt_view(self.metadata),
            header_image: self.header_image.deep_view(),
            title: self.title.deep_view(),
            description: self.description.deep_view(),
        }
    }
}

impl ResourceInfo {
    /// What tells the keys of the entry apart.
    proof fn reveal_keys()
        ensures
            "resource"@.len() == 8,
            "type"@.len() == 4,
            "x402Version"@.len() == 11,
            "accepts"@.len() == 7,
            "lastUpdated"@.len() == 11,
            "metadata"@.len() == 8,
            "headerImage"@.len() == 11,
            "title"@.len() == 5,
            "description"@.len() == 11,
            "resource"@[0] != "metadata"@[0],
            "x402Version"@[0] != "lastUpdated"@[0],
            "x402Version"@[0] != "headerImage"@[0],
            "x402Version"@[0] != "description"@[0],
            "lastUpdated"@[0] != "headerImage"@[0],
            "lastUpdated"@[0] != "description"@[0],
            "headerImage"@[0] != "description"@[0],
    {
        reveal_strlit("resource");
        reveal_strlit("type");
        reveal_strlit("x402Version");
        reveal_strlit("accepts");
        reveal_strlit("lastUpdated");
        reveal_strlit("metadata");
        reveal_strlit("headerImage");
        reveal_strlit("title");
        reveal_strlit("description");
    }
}

impl JsonCodec for ResourceInfo {
    open spec fn spec_json(v: ResourceInfoView) -> Seq<char> {
        "{"@
            + member(true, "resource"@, json_string(v.resource))
            + member(false, "type"@, json_opt_string(v.resource_type))
            + member(false, "x402Version"@, decimal_digits(v.x402_version as nat))
            + member(
                false,
                "accepts"@,
                json_array(spec_json_each::<PaymentRequirements>(v.accepts)),
            )
            + member(false, "lastUpdated"@, decimal_digits(v.last_updated as nat))
            + member(false, "metadata"@, spec_json_or_null::<ResourceInfoMetadata>(v.metadata))
            + optional_member("headerImage"@, opt_json_string(v.header_image))
            + optional_member("title"@, opt_json_string(v.title))
            + member(false, "description"@, json_opt_string(v.description))
            + "}"@
    }

    open spec fn spec_read(doc: Value) -> Result<ResourceInfoView, X402Error> {
        let resource = spec_read_text(spec_member(doc, "resource"@));
        let resource_type = spec_read_optional_text(spec_member(doc, "type"@));
        let x402_version = spec_read_small_number(spec_member(doc, "x402Version"@));
        let accepts = spec_read_list::<PaymentRequirements>(spec_member(doc, "accepts"@));
        let last_updated = spec_read_number(spec_member(doc, "lastUpdated"@));
        let metadata = spec_read_optional_member::<ResourceInfoMetadata>(
            spec_member(doc, "metadata"@),
        );
        let header_image = spec_read_optional_text(spec_member(doc, "headerImage"@));
        let title = spec_read_optional_text(spec_member(doc, "title"@));
        let description = spec_read_optional_text(spec_member(doc, "description"@));
        if resource is Err {
            Err(resource->Err_0)
        } else if resource_type is Err {
            Err(resource_type->Err_0)
        } else if x402_version is Err {
            Err(x402_version->Err_0)
        } else if accepts is Err {
            Err(accepts->Err_0)
        } else if last_updated is Err {
            Err(last_updated->Err_0)
        } else if metadata is Err {
            Err(metadata->Err_0)
        } else if header_image is Err {
            Err(header_image->Err_0)
        } else if title is Err {
            Err(title->Err_0)
        } else if description is Err {
            Err(description->Err_0)
        } else {
            Ok(
                ResourceInfoView {
                    resource: resource->Ok_0,
                    resource_type: resource_type->Ok_0,
                    x402_version: x402_version->Ok_0,
                    accepts: accepts->Ok_0,
                    last_updated: last_updated->Ok_0,
                    metadata: metadata->Ok_0,
                    header_image: header_image->Ok_0,
                    title: title->Ok_0,
                    description: description->Ok_0,
                },
            )
        }
    }

    fn to_json(&self) -> (r: String) {
        let mut out = "{".to_owned();
        let value = quote(self.resource.as_str());
        put_member(&mut out, true, "resource", value.as_str());
        let value = opt_string_text(opt_str(&self.resource_type));
        put_member(&mut out, false, "type", value.as_str());
        let value = decimal_string(self.x402_version as u64);
        put_member(&mut out, false, "x402Version", value.as_str());
        let value = list_to_json(self.accepts.as_slice());
        put_member(&mut out, false, "accepts", value.as_str());
        let value = decimal_string(self.last_updated);
        put_member(&mut out, false, "lastUpdated", value.as_str());
        let value = to_json_or_null(&self.metadata);
        put_member(&mut out, false, "metadata", value.as_str());
        put_optional_string(&mut out, "headerImage", opt_str(&self.header_image));
        put_optional_string(&mut out, "title", opt_str(&self.title));
        let value = opt_string_text(opt_str(&self.description));
        put_member(&mut out, false, "description", value.as_str());
        out.append("}");
        out
    }

    fn from_document(doc: &Value) -> (r: X402Result<Self>) {
        let resource = read_text(get_member(doc, "resource"))?;
        let resource_type = read_optional_text(get_member(doc, "type"))?;
        let x402_version = read_small_number(get_member(doc, "x402Version"))?;
        let accepts = read_list::<PaymentRequirements>(get_member(doc, "accepts"))?;
        let last_updated = read_number(get_member(doc, "lastUpdated"))?;
        let metadata = read_optional_member::<ResourceInfoMetadata>(get_member(doc, "metadata"))?;
        let header_image = read_optional_text(get_member(doc, "headerImage"))?;
        let title = read_optional_text(get_member(doc, "title"))?;
        let description = read_optional_text(get_member(doc, "description"))?;
        Ok(
            ResourceInfo {
                resource,
                resource_type,
                x402_version,
                accepts,
                last_updated,
                metadata,
                header_image,
                title,
                description,
            },
        )
    }

    fn to_document(&self) -> (r: Value) {
        let mut members = new_members();
        put(&mut members, "resource", text_value(self.resource.as_str()));
        put(&mut members, "type", optional_text_value(opt_str(&self.resource_type)));
        put(&mut members, "x402Version", number_value(self.x402_version as u64));
        put(&mut members, "accepts", list_to_document(self.accepts.as_slice()));
        put(&mut members, "lastUpdated", number_value(self.last_updated));
        put(&mut members, "metadata", to_document_or_null(&self.metadata));
        match opt_str(&self.header_image) {
            Some(text) => put(&mut members, "headerImage", text_value(text)),
            None => {},
        }
        match opt_str(&self.title) {
            Some(text) => put(&mut members, "title", text_value(text)),
            None => {},
        }
        put(&mut members, "description", optional_text_value(opt_str(&self.description)));
        let r = object_value(members);
        proof {
            ResourceInfo::reveal_keys();
        }
        r
    }
}

/// A query over the catalogue.
#[derive(Debug, PartialEq, Eq, PartialOrd, Ord, Clone)]
pub struct DiscoveryRequest {
    /// Type of resource to list, such as `http`.
    pub resource_type: String,
    /// Greatest number of entries to return.
    pub limit: u64,
    /// Number of entries to skip.
    pub offset: Option<u64>,
}

/// What a `DiscoveryRequest` holds, as mathematical values.
pub struct DiscoveryRequestView {
    pub resource_type: Seq<char>,
    pub limit: u64,
    pub offset: Option<u64>,
}

impl View for DiscoveryRequest {
    type V = DiscoveryRequestView;

    open spec fn view(&self) -> DiscoveryRequestView {
        DiscoveryRequestView {
            resource_type: self.resource_type@,
            limit: self.limit,
            offset: self.offset,
        }
    }
}

impl DiscoveryRequest {
    /// What tells the keys of the query apart.
    proof fn reveal_keys()
        ensures
            "type"@.len() == 4,
            "limit"@.len() == 5,
            "offset"@.len() == 6,
    {
        reveal_strlit("type");
        reveal_strlit("limit");
        reveal_strlit("offset");
    }
}

impl JsonCodec for DiscoveryRequest {
    open spec fn spec_json(v: DiscoveryRequestView) -> Seq<char> {
        "{"@
            + member(true, "type"@, json_string(v.resource_type))
            + member(false, "limit"@, decimal_digits(v.limit as nat))
            + member(false, "offset"@, json_opt_number(v.offset))
            + "}"@
    }

    open spec fn spec_read(doc: Value) -> Result<DiscoveryRequestView, X402Error> {
        let resource_type = spec_read_text(spec_member(doc, "type"@));
        let limit = spec_read_number(spec_member(doc, "limit"@));
        let offset = spec_read_optional_number(spec_member(doc, "offset"@));
        if resource_type is Err {
            Err(resource_type->Err_0)
        } else if limit is Err {
            Err(limit->Err_0)
        } else if offset is Err {
            Err(offset->Err_0)
        } else {
            Ok(
                DiscoveryRequestView {
                    resource_type: resource_type->Ok_0,
                    limit: limit->Ok_0,
                    offset: offset->Ok_0,
                },
            )
        }
    }

    fn to_json(&self) -> (r: String) {
        let mut out = "{".to_owned();
        let value = quote(self.resource_type.as_str());
        put_member(&mut out, true, "type", value.as_str());
        let value = decimal_string(self.limit);
        put_member(&mut out, false, "limit", value.as_str());
        let value = opt_number_text(self.offset);
        put_member(&mut out, false, "offset", value.as_str());
        out.append("}");
        out
    }

    fn from_document(doc: &Value) -> (r: X402Result<Self>) {
        let resource_type = read_text(get_member(doc, "type"))?;
        let limit = read_number(get_member(doc, "limit"))?;
        let offset = read_optional_number(get_member(doc, "offset"))?;
        Ok(DiscoveryRequest { resource_type, limit, offset })
    }

    fn to_document(&self) -> (r: Value) {
        let mut members = new_members();
        put(&mut members, "type", text_value(self.resource_type.as_str()));
        put(&mut members, "limit", number_value(self.limit));
        put(&mut members, "offset", optional_number_value(self.offset));
        let r = object_value(members);
        proof {
            DiscoveryRequest::reveal_keys();
        }
        r
    }
}

/// Where a page lies in a listing.
#[derive(Debug, PartialEq, Eq, PartialOrd, Ord, Hash, Clone, Copy, Structural)]
pub struct PayloadPagination {
    /// Greatest number of entries in a page.
    pub limit: Option<u64>,
    /// Number of entries before the page.
    pub offset: u64,
    /// Number of entries in the whole listing.
    pub total: Option<u64>,
}

impl View for PayloadPagination {
    type V = PayloadPagination;

    open spec fn view(&self) -> PayloadPagination {
        *self
    }
}

impl PayloadPagination {
    /// What tells the keys of the pagination apart.
    proof fn reveal_keys()
        ensures
            "limit"@.len() == 5,
            "offset"@.len() == 6,
            "total"@.len() == 5,
            "limit"@[0] != "total"@[0],
    {
        reveal_strlit("limit");
        reveal_strlit("offset");
        reveal_strlit("total");
    }
}

impl JsonCodec for PayloadPagination {
    open spec fn spec_json(v: PayloadPagination) -> Seq<char> {
        "{"@
            + member(true, "limit"@, json_opt_number(v.limit))
            + member(false, "offset"@, decimal_digits(v.offset as nat))
            + member(false, "total"@, json_opt_number(v.total))
            + "}"@
    }

    open spec fn spec_read(doc: Value) -> Result<PayloadPagination, X402Error> {
        let limit = spec_read_optional_number(spec_member(doc, "limit"@));
        let offset = spec_read_number(spec_member(doc, "offset"@));
        let total = spec_read_optional_number(spec_member(doc, "total"@));
        if limit is Err {
            Err(limit->Err_0)
        } else if offset is Err {
            Err(offset->Err_0)
        } else if total is Err {
            Err(total->Err_0)
        } else {
            Ok(
                PayloadPagination {
                    limit: limit->Ok_0,
                    offset: offset->Ok_0,
                    total: total->Ok_0,
                },
            )
        }
    }

    fn to_json(&self) -> (r: String) {
        let mut out = "{".to_owned();
        let value = opt_number_text(self.limit);
        put_member(&mut out, true, "limit", value.as_str());
        let value = decimal_string(self.offset);
        put_member(&mut out, false, "offset", value.as_str());
        let value = opt_number_text(self.total);
        put_member(&mut out, false, "total", value.as_str());
        out.append("}");
        out
    }

    fn from_document(doc: &Value) -> (r: X402Result<Self>) {
        let limit = read_optional_number(get_member(doc, "limit"))?;
        let offset = read_number(get_member(doc, "offset"))?;
        let total = read_optional_number(get_member(doc, "total"))?;
        Ok(PayloadPagination { limit, offset, total })
    }

    fn to_document(&self) -> (r: Value) {
        let mut members = new_members();
        put(&mut members, "limit", optional_number_value(self.limit));
        put(&mut members, "offset", number_value(self.offset));
        put(&mut members, "total", optional_number_value(self.total));
        let r = object_value(members);
        proof {
            PayloadPagination::reveal_keys();
        }
        r
    }
}

impl Default for PayloadPagination {
    fn default() -> (r: Self)
        ensures
            r == (PayloadPagination { limit: None, offset: 0, total: None }),
    {
        PayloadPagination { limit: None, offset: 0, total: None }
    }
}

/// One page of the catalogue.
#[derive(Debug, PartialEq, Eq, PartialOrd, Ord, Clone)]
pub struct DiscoveryPayload {
    /// Protocol version.
    pub x402_version: u8,
    /// The entries of the page, in order.
    pub items: Vec<ResourceInfo>,
    /// Where the page lies in the listing.
    pub pagination: PayloadPagination,
}

/// What a `DiscoveryPayload` holds, as mathematical values.
pub struct DiscoveryPayloadView {
    pub x402_version: u8,
    pub items: Seq<ResourceInfoView>,
    pub pagination: PayloadPagination,
}

impl View for DiscoveryPayload {
    type V = DiscoveryPayloadView;

    open spec fn view(&self) -> DiscoveryPayloadView {
        DiscoveryPayloadView {
            x402_version: self.x402_version,
            items: views(self.items@),
            pagination: self.pagination,
        }
    }
}

impl DiscoveryPayload {
    /// What tells the keys of the page apart.
    proof fn reveal_keys()
        ensures
            "x402Version"@.len() == 11,
            "items"@.len() == 5,
            "pagination"@.len() == 10,
    {
        reveal_strlit("x402Version");
        reveal_strlit("items");
        reveal_strlit("pagination");
    }
}

impl JsonCodec for DiscoveryPayload {
    open spec fn spec_json(v: DiscoveryPayloadView) -> Seq<char> {
        "{"@
            + member(true, "x402Version"@, decimal_digits(v.x402_version as nat))
            + member(false, "items"@, json_array(spec_json_each::<ResourceInfo>(v.items)))
            + member(false, "pagination"@, PayloadPagination::spec_json(v.pagination))
            + "}"@
    }

    open spec fn spec_read(doc: Value) -> Result<DiscoveryPayloadView, X402Error> {
        let x402_version = spec_read_small_number(spec_member(doc, "x402Version"@));
        let items = spec_read_list::<ResourceInfo>(spec_member(doc, "items"@));
        let pagination = spec_read_member::<PayloadPagination>(spec_member(doc, "pagination"@));
        if x402_version is Err {
            Err(x402_version->Err_0)
        } else if items is Err {
            Err(items->Err_0)
        } else if pagination is Err {
            Err(pagination->Err_0)
        } else {
            Ok(
                DiscoveryPayloadView {
                    x402_version: x402_version->Ok_0,
                    items: items->Ok_0,
                    pagination: pagination->Ok_0,
                },
            )
        }
    }

    fn to_json(&self) -> (r: String) {
        let mut out = "{".to_owned();
        let value = decimal_string(self.x402_version as u64);
        put_member(&mut out, true, "x402Version", value.as_str());
        let value = list_to_json(self.items.as_slice());
        put_member(&mut out, false, "items", value.as_str());
        let value = self.pagination.to_json();
        put_member(&mut out, false, "pagination", value.as_str());
        out.append("}");
        out
    }

    fn from_document(doc: &Value) -> (r: X402Result<Self>) {
        let x402_version = read_small_number(get_member(doc, "x402Version"))?;
        let items = read_list::<ResourceInfo>(get_member(doc, "items"))?;
        let pagination = read_member::<PayloadPagination>(get_member(doc, "pagination"))?;
        Ok(DiscoveryPayload { x402_version, items, pagination })
    }

    fn to_document(&self) -> (r: Value) {
        let mut members = new_members();
        put(&mut members, "x402Version", number_value(self.x402_version as u64));
        put(&mut members, "items", list_to_document(self.items.as_slice()));
        put(&mut members, "pagination", self.pagination.to_document());
        let r = object_value(members);
        proof {
            DiscoveryPayload::reveal_keys();
        }
        r
    }
}

} // verus!
