//! The combinations of version, scheme and network that a facilitator supports.
use vstd::prelude::*;
use vstd::string::StringExecFns;
use serde_json::Value;
use crate::codec::{
    list_to_document, list_to_json, read_list, spec_json_each, spec_read_list, views, JsonCodec,
};
use crate::document::{
    get_member, new_members, number_value, object_value, put, read_network, read_scheme,
    read_small_number, read_text, read_version, spec_member, spec_read_network, spec_read_scheme,
    spec_read_small_number, spec_read_text, spec_read_version, text_value,
};
use crate::errors::{X402Error, X402Result};
use crate::network::{lemma_network_round_trip, serialize_network, X402SolanaNetworkInfo};
use crate::scheme::{lemma_scheme_name_parses, PaymentScheme};
use crate::text::{decimal_digits, decimal_string};
use crate::version::X402Version;
use crate::wire::{json_array, json_string, member, put_member, quote};

verus! {

/// One supported combination of protocol version, payment scheme and network.
#[derive(Debug, PartialEq, Eq, PartialOrd, Ord, Clone, Copy, Structural)]
pub struct SchemeKind {
    pub x402_version: X402Version,
    pub scheme: PaymentScheme,
    pub network: X402SolanaNetworkInfo,
}

impl View for SchemeKind {
    type V = SchemeKind;

    open spec fn view(&self) -> SchemeKind {
        *self
    }
}

impl SchemeKind {
    /// What tells the keys of the combination apart.
    proof fn reveal_keys()
        ensures
            "x402Version"@.len() == 11,
            "scheme"@.len() == 6,
            "network"@.len() == 7,
    {
        reveal_strlit("x402Version");
        reveal_strlit("scheme");
        reveal_strlit("network");
    }
}

impl JsonCodec for SchemeKind {
    open spec fn spec_json(v: SchemeKind) -> Seq<char> {
        "{"@
            + member(true, "x402Version"@, decimal_digits(v.x402_version.spec_number() as nat))
            + member(false, "scheme"@, json_string(v.scheme.spec_str()))
            + member(false, "network"@, json_string(v.network.spec_x402_identifier()))
            + "}"@
    }

    open spec fn spec_read(doc: Value) -> Result<SchemeKind, X402Error> {
        let x402_version = spec_read_version(spec_member(doc, "x402Version"@));
        let scheme = spec_read_scheme(spec_member(doc, "scheme"@));
        let network = spec_read_network(spec_member(doc, "network"@));
        if x402_version is Err {
            Err(x402_version->Err_0)
        } else if scheme is Err {
            Err(scheme->Err_0)
        } else if network is Err {
            Err(network->Err_0)
        } else {
            Ok(
                SchemeKind {
                    x402_version: x402_version->Ok_0,
                    scheme: scheme->Ok_0,
                    network: network->Ok_0,
                },
            )
        }
    }

    fn to_json(&self) -> (r: String) {
        let mut out = "{".to_owned();
        let value = decimal_string(self.x402_version.number() as u64);
        put_member(&mut out, true, "x402Version", value.as_str());
        let value = quote(self.scheme.as_str());
        put_member(&mut out, false, "scheme", value.as_str());
        let value = quote(serialize_network(&self.network));
        put_member(&mut out, false, "network", value.as_str());
        out.append("}");
        out
    }

    fn from_document(doc: &Value) -> (r: X402Result<Self>) {
        let x402_version = read_version(get_member(doc, "x402Version"))?;
        let scheme = read_scheme(get_member(doc, "scheme"))?;
        let network = read_network(get_member(doc, "network"))?;
        Ok(SchemeKind { x402_version, scheme, network })
    }

    fn to_document(&self) -> (r: Value) {
        let mut members = new_members();
        put(&mut members, "x402Version", number_value(self.x402_version.number() as u64));
        put(&mut members, "scheme", text_value(self.scheme.as_str()));
        put(&mut members, "network", text_value(serialize_network(&self.network)));
        let r = object_value(members);
        proof {
            SchemeKind::reveal_keys();
            lemma_scheme_name_parses(self.scheme);
            lemma_network_round_trip(self.network);
        }
        r
    }
}

impl Default for SchemeKind {
    fn default() -> (r: Self)
        ensures
            r == (SchemeKind {
                x402_version: X402Version::V1,
                scheme: PaymentScheme::Exact,
                network: X402SolanaNetworkInfo::Devnet,
            }),
    {
        SchemeKind {
            x402_version: X402Version::V1,
            scheme: PaymentScheme::Exact,
            network: X402SolanaNetworkInfo::Devnet,
        }
    }
}

/// The combinations that a facilitator supports, in the order in which they were added.
#[derive(Debug, PartialEq, Eq, PartialOrd, Ord, Clone)]
pub struct SupportedSchemes {
    /// The supported combinations.
    kinds: Vec<SchemeKind>,
}

/// What a `SupportedSchemes` holds, as mathematical values.
pub struct SupportedSchemesView {
    pub kinds: Seq<SchemeKind>,
}

impl View for SupportedSchemes {
    type V = SupportedSchemesView;

    closed spec fn view(&self) -> SupportedSchemesView {
        SupportedSchemesView {
            kinds: views(self.kinds@),
        }
    }
}

impl SupportedSchemes {
    /// No combination yet.
    pub fn new() -> (r: Self)
        ensures
            r@.kinds == Seq::<SchemeKind>::empty(),
    {
        let r = SupportedSchemes { kinds: Vec::new() };
        assert(r@.kinds =~= Seq::<SchemeKind>::empty());
        r
    }

    /// Appends one combination.
    pub fn add_kind(&mut self, supported_scheme: SchemeKind) -> (r: &mut Self)
        ensures
            *final(self) == *final(r),
            (*r)@.kinds == old(self)@.kinds.push(supported_scheme),
    {
        self.kinds.push(supported_scheme);
        assert(self@.kinds =~= old(self)@.kinds.push(supported_scheme));
        self
    }

    /// Appends combinations, in their order.
    pub fn add_kinds(&mut self, supported_scheme: &[SchemeKind]) -> (r: &mut Self)
        ensures
            *final(self) == *final(r),
            (*r)@.kinds == old(self)@.kinds + supported_scheme@,
    {
        let mut i: usize = 0;
        assert(self@.kinds =~= old(self)@.kinds + supported_scheme@.take(0));
        while i < supported_scheme.len()
            invariant
                i <= supported_scheme.len(),
                self@.kinds == old(self)@.kinds + supported_scheme@.take(i as int),
            decreases supported_scheme.len() - i,
        {
            let ghost before = self@.kinds;
            self.kinds.push(supported_scheme[i]);
            assert(self@.kinds =~= before.push(supported_scheme@[i as int]));
            assert(supported_scheme@.take(i + 1) =~= supported_scheme@.take(i as int).push(
                supported_scheme@[i as int],
            ));
            assert(self@.kinds =~= old(self)@.kinds + supported_scheme@.take(i + 1));
            i = i + 1;
        }
        assert(supported_scheme@.take(i as int) =~= supported_scheme@);
        self
    }

    /// The supported combinations.
    pub fn kinds(&self) -> (r: &[SchemeKind])
        ensures
            views(r@) == self@.kinds,
    {
        self.kinds.as_slice()
    }

    /// What tells the keys of the supported combinations apart.
    proof fn reveal_keys()
        ensures
            "kinds"@.len() == 5,
    {
        reveal_strlit("kinds");
    }
}

impl JsonCodec for SupportedSchemes {
    open spec fn spec_json(v: SupportedSchemesView) -> Seq<char> {
        "{"@
            + member(true, "kinds"@, json_array(spec_json_each::<SchemeKind>(v.kinds)))
            + "}"@
    }

    open spec fn spec_read(doc: Value) -> Result<SupportedSchemesView, X402Error> {
        let kinds = spec_read_list::<SchemeKind>(spec_member(doc, "kinds"@));
        if kinds is Err {
            Err(kinds->Err_0)
        } else {
            Ok(
                SupportedSchemesView {
                    kinds: kinds->Ok_0,
                },
            )
        }
    }

    fn to_json(&self) -> (r: String) {
        let mut out = "{".to_owned();
        let value = list_to_json(self.kinds.as_slice());
        put_member(&mut out, true, "kinds", value.as_str());
        out.append("}");
        out
    }

    fn from_document(doc: &Value) -> (r: X402Result<Self>) {
        let kinds = read_list::<SchemeKind>(get_member(doc, "kinds"))?;
        Ok(SupportedSchemes { kinds })
    }

    fn to_document(&self) -> (r: Value) {
        let mut members = new_members();
        put(&mut members, "kinds", list_to_document(self.kinds.as_slice()));
        let r = object_value(members);
        proof {
            SupportedSchemes::reveal_keys();
        }
        r
    }
}

impl Default for SupportedSchemes {
    fn default() -> (r: Self)
        ensures
            r@.kinds == Seq::<SchemeKind>::empty(),
    {
        SupportedSchemes::new()
    }
}

/// One supported combination, with the network named by an open string.
#[derive(Debug, PartialEq, Eq, PartialOrd, Ord, Clone)]
pub struct BlockchainKind {
    /// Protocol version.
    pub x402_version: u8,
    /// Payment scheme.
    pub scheme: PaymentScheme,
    /// Name of the blockchain network.
    pub network: String,
}

/// What a `BlockchainKind` holds, as mathematical values.
pub struct BlockchainKindView {
    pub x402_version: u8,
    pub scheme: PaymentScheme,
    pub network: Seq<char>,
}

impl View for BlockchainKind {
    type V = BlockchainKindView;

    open spec fn view(&self) -> BlockchainKindView {
        BlockchainKindView {
            x402_version: self.x402_version,
            scheme: self.scheme,
            network: self.network@,
        }
    }
}

impl BlockchainKind {
    /// What tells the keys of the combination apart.
    proof fn reveal_keys()
        ensures
            "x402Version"@.len() == 11,
            "scheme"@.len() == 6,
            "network"@.len() == 7,
    {
        reveal_strlit("x402Version");
        reveal_strlit("scheme");
        reveal_strlit("network");
    }
}

impl JsonCodec for BlockchainKind {
    open spec fn spec_json(v: BlockchainKindView) -> Seq<char> {
        "{"@
            + member(true, "x402Version"@, decimal_digits(v.x402_version as nat))
            + member(false, "scheme"@, json_string(v.scheme.spec_str()))
            + member(false, "network"@, json_string(v.network))
            + "}"@
    }

    open spec fn spec_read(doc: Value) -> Result<BlockchainKindView, X402Error> {
        let x402_version = spec_read_small_number(spec_member(doc, "x402Version"@));
        let scheme = spec_read_scheme(spec_member(doc, "scheme"@));
        let network = spec_read_text(spec_member(doc, "network"@));
        if x402_version is Err {
            Err(x402_version->Err_0)
        } else if scheme is Err {
            Err(scheme->Err_0)
        } else if network is Err {
            Err(network->Err_0)
        } else {
            Ok(
                BlockchainKindView {
                    x402_version: x402_version->Ok_0,
                    scheme: scheme->Ok_0,
                    network: network->Ok_0,
                },
            )
        }
    }

    fn to_json(&self) -> (r: String) {
        let mut out = "{".to_owned();
        let value = decimal_string(self.x402_version as u64);
        put_member(&mut out, true, "x402Version", value.as_str());
        let value = quote(self.scheme.as_str());
        put_member(&mut out, false, "scheme", value.as_str());
        let value = quote(self.network.as_str());
        put_member(&mut out, false, "network", value.as_str());
        out.append("}");
        out
    }

    fn from_document(doc: &Value) -> (r: X402Result<Self>) {
        let x402_version = read_small_number(get_member(doc, "x402Version"))?;
        let scheme = read_scheme(get_member(doc, "scheme"))?;
        let network = read_text(get_member(doc, "network"))?;
        Ok(BlockchainKind { x402_version, scheme, network })
    }

    fn to_document(&self) -> (r: Value) {
        let mut members = new_members();
        put(&mut members, "x402Version", number_value(self.x402_version as u64));
        put(&mut members, "scheme", text_value(self.scheme.as_str()));
        put(&mut members, "network", text_value(self.network.as_str()));
        let r = object_value(members);
        proof {
            BlockchainKind::reveal_keys();
            lemma_scheme_name_parses(self.scheme);
        }
        r
    }
}

/// The combinations that a facilitator supports, over networks named by open strings.
#[derive(Debug, PartialEq, Eq, PartialOrd, Ord, Clone)]
pub struct SupportedBlockchains {
    /// The supported combinations.
    pub kinds: Vec<BlockchainKind>,
}

/// What a `SupportedBlockchains` holds, as mathematical values.
pub struct SupportedBlockchainsView {
    pub kinds: Seq<BlockchainKindView>,
}

impl View for SupportedBlockchains {
    type V = SupportedBlockchainsView;

    open spec fn view(&self) -> SupportedBlockchainsView {
        SupportedBlockchainsView {
            kinds: views(self.kinds@),
        }
    }
}

impl SupportedBlockchains {
    /// What tells the keys of the supported combinations apart.
    proof fn reveal_keys()
        ensures
            "kinds"@.len() == 5,
    {
        reveal_strlit("kinds");
    }
}

impl JsonCodec for SupportedBlockchains {
    open spec fn spec_json(v: SupportedBlockchainsView) -> Seq<char> {
        "{"@
            + member(true, "kinds"@, json_array(spec_json_each::<BlockchainKind>(v.kinds)))
            + "}"@
    }

    open spec fn spec_read(doc: Value) -> Result<SupportedBlockchainsView, X402Error> {
        let kinds = spec_read_list::<BlockchainKind>(spec_member(doc, "kinds"@));
        if kinds is Err {
            Err(kinds->Err_0)
        } else {
            Ok(
                SupportedBlockchainsView {
                    kinds: kinds->Ok_0,
                },
            )
        }
    }

    fn to_json(&self) -> (r: String) {
        let mut out = "{".to_owned();
        let value = list_to_json(self.kinds.as_slice());
        put_member(&mut out, true, "kinds", value.as_str());
        out.append("}");
        out
    }

    fn from_document(doc: &Value) -> (r: X402Result<Self>) {
        let kinds = read_list::<BlockchainKind>(get_member(doc, "kinds"))?;
        Ok(SupportedBlockchains { kinds })
    }

    fn to_document(&self) -> (r: Value) {
        let mut members = new_members();
        put(&mut members, "kinds", list_to_document(self.kinds.as_slice()));
        let r = object_value(members);
        proof {
            SupportedBlockchains::reveal_keys();
        }
        r
    }
}

} // verus!
