//! The Bitcoin networks a wallet can live on.

use vstd::prelude::*;

verus! {

/// A Bitcoin network.
#[derive(Debug, Clone, Copy, PartialEq, Eq, Structural)]
pub enum Network {
    /// Mainnet.
    Bitcoin,
    /// The third testnet.
    Testnet,
    /// The fourth testnet.
    Testnet4,
    /// Signet.
    Signet,
    /// A local regression-test chain.
    Regtest,
}

} // verus!
