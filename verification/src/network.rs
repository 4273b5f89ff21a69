//! The networks an address can belong to.

use vstd::prelude::*;

verus! {

/// The Bitcoin network that a template or a vault lives on.
#[derive(Clone, Copy, Debug, PartialEq, Eq, Structural)]
pub enum Network {
    /// The main network.
    Bitcoin,
    /// The third test network.
    Testnet,
    /// The fourth test network.
    Testnet4,
    /// The signet network.
    Signet,
    /// A local regression-test network.
    Regtest,
}

} // verus!
