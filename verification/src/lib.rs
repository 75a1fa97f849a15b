//! Covenant wallet core: key derivation, chain crafting and the round ledger.
//!
//! A wallet locks its funds in a covenant: a chain of transaction
//! templates, agreed on in advance, through which the funds leave round by
//! round. Each round is capped in size and has to wait a number of blocks
//! after the round before; a backup path under both keys stays open at any
//! time.

pub mod chain;
pub mod covenant;
pub mod covenant_state;
pub mod descriptor;
pub mod error;
pub mod keys;
pub mod network;
pub mod round;
pub mod tx;

pub use covenant::FEE;
pub use error::Error;
pub use network::Network;
pub use tx::parse_tx;

use vstd::prelude::*;

verus! {

/// Upper bound of the account numbers that a wallet may take: account
/// numbers stay below it.
pub const MAX_DERIV: u32 = 0x7fff_ffff;

/// The network of a wallet that names none.
pub const DEFAULT_NETWORK: Network = Network::Regtest;

} // verus!
