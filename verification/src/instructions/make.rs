use crate::address::{Address, Principal};
use crate::derivation::{
    address_view, associated_address, associated_token_address, canonical_address, escrow_address,
    escrow_seeds,
};
use crate::error::{outcome, EscrowError};
use crate::ledger::Ledger;
use crate::state::Escrow;
use vstd::prelude::*;

verus! {

/// What the maker presents to open an escrow.
#[derive(Clone, Copy, Debug)]
pub struct Make {
    /// The maker, who must have signed.
    pub maker: Principal,
    /// The asset to lock.
    pub mint_a: Address,
    /// The asset demanded.
    pub mint_b: Address,
    /// The maker's account of `mint_a`, from which the deposit is taken.
    pub maker_ata_a: Address,
    /// The address at which the custody record is to be created.
    pub escrow: Address,
    /// The address at which the vault is to be created.
    pub vault: Address,
}

/// The addresses that the derivations give for a `Make`, as bytes.
pub struct MakeDerivation {
    pub escrow: Option<(Seq<u8>, u8)>,
    pub maker_ata_a: Option<Seq<u8>>,
    pub vault: Option<Seq<u8>>,
}

impl MakeDerivation {
    /// The derived address of the custody record.
    pub open spec fn escrow_address(self) -> Option<Seq<u8>> {
        match self.escrow {
            Some((address, _)) => Some(address),
            None => None,
        }
    }

    /// The disambiguator of the custody record; 0 where the derivation gave none.
    pub open spec fn escrow_bump(self) -> u8 {
        match self.escrow {
            Some((_, bump)) => bump,
            None => 0,
        }
    }
}

/// The addresses that the derivations give for a `Make`.
#[derive(Clone, Copy, Debug)]
pub struct MakeAddresses {
    /// The custody record's address with its disambiguator.
    pub escrow: Option<(Address, u8)>,
    /// The maker's conventional account of the asset to lock.
    pub maker_ata_a: Option<Address>,
    /// The conventional account of the custody record for the asset to lock.
    pub vault: Option<Address>,
}

impl View for MakeAddresses {
    type V = MakeDerivation;

    open spec fn view(&self) -> MakeDerivation {
        MakeDerivation {
            escrow: match self.escrow {
                Some((a, bump)) => Some((a@, bump)),
                None => None,
            },
            maker_ata_a: address_view(self.maker_ata_a),
            vault: address_view(self.vault),
        }
    }
}

impl Make {
    /// The custody record that this call creates.
    pub open spec fn record(self, seed: u64, amount: u64, bump: u8) -> Escrow {
        Escrow {
            seed,
            maker: self.maker.address,
            mint_a: self.mint_a,
            mint_b: self.mint_b,
            amount,
            bump,
        }
    }

    /// What the derivations give for this call under `program_id`.
    pub open spec fn derivation(self, program_id: Seq<u8>, seed: u64) -> MakeDerivation {
        MakeDerivation {
            escrow: canonical_address(escrow_seeds(self.maker.address@, seed), program_id),
            maker_ata_a: associated_address(self.maker.address@, self.mint_a@),
            vault: associated_address(self.escrow@, self.mint_a@),
        }
    }

    /// Runs the derivations for this call.
    pub fn derive(&self, program_id: &Address, seed: u64) -> (derived: MakeAddresses)
        ensures
            derived@ == self.derivation(program_id@, seed),
    {
        MakeAddresses {
            escrow: escrow_address(program_id, &self.maker.address, seed),
            maker_ata_a: associated_token_address(&self.maker.address, &self.mint_a),
            vault: associated_token_address(&self.escrow, &self.mint_a),
        }
    }

    /// Fixes the terms of the escrow: who opened it, the two assets, the quantity demanded,
    /// the nonce and the disambiguator.
    pub fn init_escrow(&self, seed: u64, amount: u64, bump: u8) -> (record: Escrow)
        ensures
            record == self.record(seed, amount, bump),
    {
        Escrow {
            seed,
            maker: self.maker.address,
            mint_a: self.mint_a,
            mint_b: self.mint_b,
            amount,
            bump,
        }
    }

    /// Moves `amount` of the asset to lock from the maker's account into the vault, on the
    /// maker's word.
    pub fn deposit(&self, ledger: &mut Ledger, amount: u64) -> (r: Result<(), EscrowError>)
        ensures
            old(ledger)@.transfer(self.maker_ata_a, self.vault, self.mint_a, amount, self.maker)
                == outcome(r, final(ledger)@),
            r is Err ==> final(ledger)@ == old(ledger)@,
    {
        ledger.transfer(&self.maker_ata_a, &self.vault, &self.mint_a, amount, &self.maker)
    }
}

} // verus!
