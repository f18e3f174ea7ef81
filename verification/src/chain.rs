//! The networks being tracked and the per-chain facts the importer needs.

use vstd::prelude::*;

verus! {

/// Identifier of one blockchain network being tracked.
#[derive(Clone, Copy, PartialEq, Eq, Hash, Structural, Debug)]
pub enum Chain {
    Arbitrum,
    Avalanche,
    Binance,
    Celo,
    Cronos,
    Ethereum,
    Fuse,
    Fantom,
    Harmony,
    Heco,
    KuCoin,
    Moonriver,
    OKEx,
    Polygon,
    Rootstock,
    Telos,
    XDai,
    Solana,
}

/// The protocol family a chain speaks; one client implementation exists
/// per family.
#[derive(Clone, Copy, PartialEq, Eq, Structural, Debug)]
pub enum ChainProtocol {
    Evm,
    Solana,
}

/// The full list of tracked chains, in a fixed order.
pub open spec fn spec_all_chains() -> Seq<Chain> {
    seq![
        Chain::Arbitrum,
        Chain::Avalanche,
        Chain::Binance,
        Chain::Celo,
        Chain::Cronos,
        Chain::Ethereum,
        Chain::Fuse,
        Chain::Fantom,
        Chain::Harmony,
        Chain::Heco,
        Chain::KuCoin,
        Chain::Moonriver,
        Chain::OKEx,
        Chain::Polygon,
        Chain::Rootstock,
        Chain::Telos,
        Chain::XDai,
        Chain::Solana,
    ]
}

/// Every chain known to the service, in a fixed order.
pub fn all_chains() -> (r: Vec<Chain>)
    ensures
        r@ == spec_all_chains(),
{
    let v: Vec<Chain> = vec![
        Chain::Arbitrum,
        Chain::Avalanche,
        Chain::Binance,
        Chain::Celo,
        Chain::Cronos,
        Chain::Ethereum,
        Chain::Fuse,
        Chain::Fantom,
        Chain::Harmony,
        Chain::Heco,
        Chain::KuCoin,
        Chain::Moonriver,
        Chain::OKEx,
        Chain::Polygon,
        Chain::Rootstock,
        Chain::Telos,
        Chain::XDai,
        Chain::Solana,
    ];
    proof {
        assert(v@ =~= spec_all_chains());
    }
    v
}

/// Which protocol family serves a chain.
pub open spec fn spec_chain_protocol(chain: Chain) -> ChainProtocol {
    match chain {
        Chain::Solana => ChainProtocol::Solana,
        _ => ChainProtocol::Evm,
    }
}

/// Picks the client implementation family for a chain: Solana speaks its
/// own protocol, every other tracked chain is EVM-style.
pub fn chain_protocol(chain: Chain) -> (r: ChainProtocol)
    ensures
        r == spec_chain_protocol(chain),
{
    match chain {
        Chain::Solana => ChainProtocol::Solana,
        _ => ChainProtocol::Evm,
    }
}

} // verus!
