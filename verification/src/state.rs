//! The custody record.

use crate::address::Address;
use vstd::prelude::*;

verus! {

/// The custody record of one open escrow. Its terms are fixed when it is created.
#[derive(Clone, Copy, Debug, PartialEq, Eq)]
pub struct Escrow {
    /// The maker's nonce, which tells apart the escrows of one maker.
    pub seed: u64,
    /// The party that opened the escrow.
    pub maker: Address,
    /// The asset locked in the vault.
    pub mint_a: Address,
    /// The asset demanded in exchange.
    pub mint_b: Address,
    /// The quantity of `mint_b` demanded.
    pub amount: u64,
    /// The disambiguator under which the record's address was derived.
    pub bump: u8,
}

} // verus!
