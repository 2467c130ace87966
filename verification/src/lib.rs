//! Data model and wire codec of the x402 payment-negotiation protocol.
//!
//! A resource server states which payments it accepts ([`PaymentRequirements`], listed in a
//! [`PaymentRequirementsResponse`]); a client answers with a payment in a single request
//! header ([`XPaymentHeader`]); a facilitator verifies it ([`VerifyPayload`]) and settles
//! it ([`SettlementResponse`]).
//!
//! The closed sets of the protocol (version, scheme, network, MIME type, error kinds) are
//! enumerations with a canonical string each; reading one is by exact match. Every entity
//! implements [`JsonCodec`], which fixes its JSON text and what a JSON document reads as.
//! Amounts are `u64` atomic units; every string is owned.

pub mod authorization;
pub mod codec;
pub mod discovery;
pub mod document;
pub mod encoding;
pub mod errors;
pub mod extras;
pub mod mime;
pub mod network;
pub mod payment_requirements;
pub mod payment_response;
pub mod scheme;
pub mod settlement_response;
pub mod supported;
pub mod text;
pub mod verify;
pub mod version;
pub mod wire;
pub mod x_payment_header;

pub use authorization::{
    Authentication, Authorization, AuthorizationView, PaymentPayload, PaymentPayloadView,
    SchemePayload, SchemePayloadView,
};
pub use codec::JsonCodec;
pub use discovery::{
    DiscoveryPayload, DiscoveryPayloadView, DiscoveryRequest, DiscoveryRequestView,
    PayloadPagination, ResourceInfo, ResourceInfoMetadata, ResourceInfoMetadataView,
    ResourceInfoView,
};
pub use errors::{
    deserialize_error_status_code, serialize_error_status_code, X402Error,
    X402PaymentErrorStatusCode, X402Result,
};
pub use extras::{PaymentRequestExtras, PaymentRequestExtrasView};
pub use mime::{deserialize_mime, serialize_mime, MimeType};
pub use network::{
    deserialize_network, serialize_network, BlockchainNetwork, X402SolanaNetworkInfo,
};
pub use payment_requirements::{
    PaymentRequirements, PaymentRequirementsBuilder, PaymentRequirementsBuilderView,
    PaymentRequirementsView,
};
pub use payment_response::{PaymentRequirementsResponse, PaymentRequirementsResponseView};
pub use scheme::PaymentScheme;
pub use settlement_response::{
    SettlementResponse, SettlementResponseError, SettlementResponseErrorView,
    SettlementResponseView,
};
pub use supported::{
    BlockchainKind, BlockchainKindView, SchemeKind, SupportedBlockchains,
    SupportedBlockchainsView, SupportedSchemes, SupportedSchemesView,
};
pub use verify::{
    VerifyPayload, VerifyPayloadResponse, VerifyPayloadResponseView, VerifyPayloadView,
};
pub use version::{deserialize_x402_version, serialize_x402_version, X402Version};
pub use x_payment_header::{
    XPaymentHeader, XPaymentHeaderView, XPaymentPayload, XPaymentPayloadView, XPaymentResponse,
    XPaymentResponseView,
};
