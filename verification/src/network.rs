//! Blockchain network identifiers.
use vstd::prelude::*;
use crate::errors::X402Error;
use crate::text::str_eq;

verus! {

/// What names a blockchain network: a short identifier, a chain-namespaced identifier and
/// the identifier that the protocol writes on the wire.
pub trait BlockchainNetwork {
    /// The short identifier, such as `mainnet`.
    fn identifier(&self) -> &str;

    /// The chain-namespaced identifier, such as `solana:mainnet`.
    fn chain(&self) -> &str;

    /// The identifier that the protocol writes on the wire, such as `solana-mainnet`.
    fn x402_identifier(&self) -> &str;
}

/// The Solana clusters.
#[derive(Debug, PartialEq, Eq, PartialOrd, Ord, Hash, Clone, Copy, Structural)]
pub enum X402SolanaNetworkInfo {
    Mainnet,
    Testnet,
    Devnet,
    Localnet,
}

impl X402SolanaNetworkInfo {
    /// The short identifier of `Mainnet`.
    pub const MAINNET: &'static str = "mainnet";

    /// The short identifier of `Testnet`.
    pub const TESTNET: &'static str = "testnet";

    /// The short identifier of `Devnet`.
    pub const DEVNET: &'static str = "devnet";

    /// The short identifier of `Localnet`.
    pub const LOCALNET: &'static str = "localnet";

    /// The chain-namespaced identifier of `Mainnet`.
    pub const MAINNET_CHAIN: &'static str = "solana:mainnet";

    /// The chain-namespaced identifier of `Testnet`.
    pub const TESTNET_CHAIN: &'static str = "solana:testnet";

    /// The chain-namespaced identifier of `Devnet`.
    pub const DEVNET_CHAIN: &'static str = "solana:devnet";

    /// The chain-namespaced identifier of `Localnet`.
    pub const LOCALNET_CHAIN: &'static str = "solana:localnet";

    /// The identifier of `Mainnet` on the wire.
    pub const MAINNET_X402: &'static str = "solana-mainnet";

    /// The identifier of `Testnet` on the wire.
    pub const TESTNET_X402: &'static str = "solana-testnet";

    /// The identifier of `Devnet` on the wire.
    pub const DEVNET_X402: &'static str = "solana-devnet";

    /// The identifier of `Localnet` on the wire.
    pub const LOCALNET_X402: &'static str = "solana-localnet";

    /// The short identifier of a network.
    pub open spec fn spec_identifier(self) -> Seq<char> {
        match self {
            X402SolanaNetworkInfo::Mainnet => "mainnet"@,
            X402SolanaNetworkInfo::Testnet => "testnet"@,
            X402SolanaNetworkInfo::Devnet => "devnet"@,
            X402SolanaNetworkInfo::Localnet => "localnet"@,
        }
    }

    /// The chain-namespaced identifier of a network.
    pub open spec fn spec_chain(self) -> Seq<char> {
        match self {
            X402SolanaNetworkInfo::Mainnet => "solana:mainnet"@,
            X402SolanaNetworkInfo::Testnet => "solana:testnet"@,
            X402SolanaNetworkInfo::Devnet => "solana:devnet"@,
            X402SolanaNetworkInfo::Localnet => "solana:localnet"@,
        }
    }

    /// The identifier under which the protocol writes a network.
    pub open spec fn spec_x402_identifier(self) -> Seq<char> {
        match self {
            X402SolanaNetworkInfo::Mainnet => "solana-mainnet"@,
            X402SolanaNetworkInfo::Testnet => "solana-testnet"@,
            X402SolanaNetworkInfo::Devnet => "solana-devnet"@,
            X402SolanaNetworkInfo::Localnet => "solana-localnet"@,
        }
    }

    /// `name` is one of the three identifiers of `self`.
    pub open spec fn names(self, name: Seq<char>) -> bool {
        name == self.spec_x402_identifier() || name == self.spec_chain() || name
            == self.spec_identifier()
    }

    /// The network that an identifier names, in any of the three forms.
    pub open spec fn spec_parse(name: Seq<char>) -> Result<X402SolanaNetworkInfo, X402Error> {
        if X402SolanaNetworkInfo::Mainnet.names(name) {
            Ok(X402SolanaNetworkInfo::Mainnet)
        } else if X402SolanaNetworkInfo::Testnet.names(name) {
            Ok(X402SolanaNetworkInfo::Testnet)
        } else if X402SolanaNetworkInfo::Devnet.names(name) {
            Ok(X402SolanaNetworkInfo::Devnet)
        } else if X402SolanaNetworkInfo::Localnet.names(name) {
            Ok(X402SolanaNetworkInfo::Localnet)
        } else {
            Err(X402Error::InvalidNetwork)
        }
    }

    /// Reads a network identifier in any of its three forms, by exact match.
    pub fn parse(value: &str) -> (r: Result<X402SolanaNetworkInfo, X402Error>)
        ensures
            r == X402SolanaNetworkInfo::spec_parse(value@),
    {
        if str_eq(value, "solana-mainnet") || str_eq(value, "solana:mainnet") || str_eq(
            value,
            "mainnet",
        ) {
            Ok(X402SolanaNetworkInfo::Mainnet)
        } else if str_eq(value, "solana-testnet") || str_eq(value, "solana:testnet") || str_eq(
            value,
            "testnet",
        ) {
            Ok(X402SolanaNetworkInfo::Testnet)
        } else if str_eq(value, "solana-devnet") || str_eq(value, "solana:devnet") || str_eq(
            value,
            "devnet",
        ) {
            Ok(X402SolanaNetworkInfo::Devnet)
        } else if str_eq(value, "solana-localnet") || str_eq(value, "solana:localnet") || str_eq(
            value,
            "localnet",
        ) {
            Ok(X402SolanaNetworkInfo::Localnet)
        } else {
            Err(X402Error::InvalidNetwork)
        }
    }

    /// Reveals what distinguishes the twelve identifiers from one another.
    pub(crate) proof fn reveal_identifiers()
        ensures
            "mainnet"@.len() == 7,
            "testnet"@.len() == 7,
            "devnet"@.len() == 6,
            "localnet"@.len() == 8,
            "solana:mainnet"@.len() == 14,
            "solana:testnet"@.len() == 14,
            "solana:devnet"@.len() == 13,
            "solana:localnet"@.len() == 15,
            "solana-mainnet"@.len() == 14,
            "solana-testnet"@.len() == 14,
            "solana-devnet"@.len() == 13,
            "solana-localnet"@.len() == 15,
            "mainnet"@[0] != "testnet"@[0],
            "solana:mainnet"@[7] != "solana:testnet"@[7],
            "solana:mainnet"@[6] != "solana-mainnet"@[6],
            "solana:mainnet"@[6] != "solana-testnet"@[6],
            "solana:testnet"@[6] != "solana-mainnet"@[6],
            "solana:testnet"@[6] != "solana-testnet"@[6],
            "solana:devnet"@[6] != "solana-devnet"@[6],
            "solana:localnet"@[6] != "solana-localnet"@[6],
            "solana-mainnet"@[7] != "solana-testnet"@[7],
    {
        reveal_strlit("mainnet");
        reveal_strlit("testnet");
        reveal_strlit("devnet");
        reveal_strlit("localnet");
        reveal_strlit("solana:mainnet");
        reveal_strlit("solana:testnet");
        reveal_strlit("solana:devnet");
        reveal_strlit("solana:localnet");
        reveal_strlit("solana-mainnet");
        reveal_strlit("solana-testnet");
        reveal_strlit("solana-devnet");
        reveal_strlit("solana-localnet");
    }
}

impl BlockchainNetwork for X402SolanaNetworkInfo {
    fn identifier(&self) -> (r: &str)
        ensures
            r@ == self.spec_identifier(),
    {
        match self {
            X402SolanaNetworkInfo::Mainnet => "mainnet",
            X402SolanaNetworkInfo::Testnet => "testnet",
            X402SolanaNetworkInfo::Devnet => "devnet",
            X402SolanaNetworkInfo::Localnet => "localnet",
        }
    }

    fn chain(&self) -> (r: &str)
        ensures
            r@ == self.spec_chain(),
    {
        match self {
            X402SolanaNetworkInfo::Mainnet => "solana:mainnet",
            X402SolanaNetworkInfo::Testnet => "solana:testnet",
            X402SolanaNetworkInfo::Devnet => "solana:devnet",
            X402SolanaNetworkInfo::Localnet => "solana:localnet",
        }
    }

    fn x402_identifier(&self) -> (r: &str)
        ensures
            r@ == self.spec_x402_identifier(),
    {
        match self {
            X402SolanaNetworkInfo::Mainnet => "solana-mainnet",
            X402SolanaNetworkInfo::Testnet => "solana-testnet",
            X402SolanaNetworkInfo::Devnet => "solana-devnet",
            X402SolanaNetworkInfo::Localnet => "solana-localnet",
        }
    }
}

impl Default for X402SolanaNetworkInfo {
    fn default() -> (r: Self)
        ensures
            r == X402SolanaNetworkInfo::Devnet,
    {
        X402SolanaNetworkInfo::Devnet
    }
}

impl<'a> TryFrom<&'a str> for X402SolanaNetworkInfo {
    type Error = X402Error;

    fn try_from(value: &'a str) -> (r: Result<Self, X402Error>) {
        X402SolanaNetworkInfo::parse(value)
    }
}

impl<'a> vstd::std_specs::convert::TryFromSpecImpl<&'a str> for X402SolanaNetworkInfo {
    open spec fn obeys_try_from_spec() -> bool {
        true
    }

    open spec fn try_from_spec(value: &'a str) -> Result<Self, X402Error> {
        X402SolanaNetworkInfo::spec_parse(value@)
    }
}

/// The identifier under which a network is written: always the protocol's own form.
pub fn serialize_network(network: &X402SolanaNetworkInfo) -> (r: &'static str)
    ensures
        r@ == network.spec_x402_identifier(),
{
    match network {
        X402SolanaNetworkInfo::Mainnet => "solana-mainnet",
        X402SolanaNetworkInfo::Testnet => "solana-testnet",
        X402SolanaNetworkInfo::Devnet => "solana-devnet",
        X402SolanaNetworkInfo::Localnet => "solana-localnet",
    }
}

/// Reads a network from an identifier in any of its three forms.
pub fn deserialize_network(text: &str) -> (r: Result<X402SolanaNetworkInfo, X402Error>)
    ensures
        r == X402SolanaNetworkInfo::spec_parse(text@),
{
    X402SolanaNetworkInfo::parse(text)
}

/// Each of the three identifiers of a network reads as that network.
pub proof fn lemma_network_triple_acceptance(n: X402SolanaNetworkInfo, name: Seq<char>)
    requires
        n.names(name),
    ensures
        X402SolanaNetworkInfo::spec_parse(name) == Ok::<X402SolanaNetworkInfo, X402Error>(n),
{
    X402SolanaNetworkInfo::reveal_identifiers();
}

/// A network that is written and read again is unchanged.
pub proof fn lemma_network_round_trip(n: X402SolanaNetworkInfo)
    ensures
        X402SolanaNetworkInfo::spec_parse(n.spec_x402_identifier()) == Ok::<
            X402SolanaNetworkInfo,
            X402Error,
        >(n),
{
    lemma_network_triple_acceptance(n, n.spec_x402_identifier());
}

/// A string reads as a network only if it is one of that network's three identifiers;
/// every other string is `InvalidNetwork`.
pub proof fn lemma_network_parse_sound(name: Seq<char>)
    ensures
        match X402SolanaNetworkInfo::spec_parse(name) {
            Ok(n) => n.names(name),
            Err(e) => e == X402Error::InvalidNetwork && forall|n: X402SolanaNetworkInfo|
                !n.names(name),
        },
{
}

} // verus!
