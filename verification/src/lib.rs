//! A two-party escrow: a maker locks a quantity of one asset in a vault and names the
//! quantity of another asset wanted in return; a taker settles the exchange in one step, or
//! the maker cancels and takes the deposit back.
//!
//! The vault is held by no key. Its authority is the custody record, whose address is
//! derived from a namespace, the maker and a nonce, and is derived again whenever the record
//! is used. Every transition applies in full or is refused and changes nothing.

pub mod address;
pub mod address_map;
pub mod derivation;
pub mod engine;
pub mod error;
pub mod instructions;
pub mod laws;
pub mod ledger;
pub mod state;

use crate::engine::{cancel, open, settle, Engine};
use crate::error::{outcome, EscrowError};
use crate::instructions::make::Make;
use crate::instructions::refund::Refund;
use crate::instructions::take::Take;
use vstd::prelude::*;

verus! {

/// Opens an escrow: the maker locks `amount_a` of one asset in a new vault and demands
/// `amount_b` of another. The addresses presented are held against their derivations under
/// the engine's namespace.
pub fn make(engine: &mut Engine, accounts: &Make, seed: u64, amount_a: u64, amount_b: u64) -> (r:
    Result<(), EscrowError>)
    ensures
        old(engine)@.open(
            *accounts,
            seed,
            amount_a,
            amount_b,
            accounts.derivation(old(engine)@.program_id@, seed),
        ) == outcome(r, final(engine)@),
        r is Err ==> final(engine)@ == old(engine)@,
{
    let derived = accounts.derive(&engine.program_id, seed);
    open(engine, accounts, seed, amount_a, amount_b, &derived)
}

/// Settles an escrow: the taker pays the maker what the record demands and receives what
/// the vault holds; record and vault are destroyed. The addresses presented are held
/// against their derivations, the record's own from its stored disambiguator.
pub fn take(engine: &mut Engine, accounts: &Take) -> (r: Result<(), EscrowError>)
    ensures
        old(engine)@.settle(
            *accounts,
            accounts.derivation(old(engine)@.program_id@, old(engine)@.record(accounts.escrow)),
        ) == outcome(r, final(engine)@),
        r is Err ==> final(engine)@ == old(engine)@,
{
    let stored = engine.record(&accounts.escrow);
    let derived = accounts.derive(&engine.program_id, &stored);
    settle(engine, accounts, &derived)
}

/// Cancels an escrow: the maker takes back what the vault holds; record and vault are
/// destroyed. The addresses presented are held against their derivations, the record's own
/// from its stored disambiguator.
pub fn refund(engine: &mut Engine, accounts: &Refund) -> (r: Result<(), EscrowError>)
    ensures
        old(engine)@.cancel(
            *accounts,
            accounts.derivation(old(engine)@.program_id@, old(engine)@.record(accounts.escrow)),
        ) == outcome(r, final(engine)@),
        r is Err ==> final(engine)@ == old(engine)@,
{
    let stored = engine.record(&accounts.escrow);
    let derived = accounts.derive(&engine.program_id, &stored);
    cancel(engine, accounts, &derived)
}

} // verus!
