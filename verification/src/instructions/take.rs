use crate::address::{Address, Principal};
use crate::derivation::{
    address_view, associated_address, associated_token_address, escrow_address_with_bump,
    escrow_seeds, program_address, with_bump,
};
use crate::error::{outcome, EscrowError};
use crate::ledger::Ledger;
use crate::state::Escrow;
use vstd::prelude::*;

verus! {

/// What the taker presents to settle an escrow.
#[derive(Clone, Copy, Debug)]
pub struct Take {
    /// The maker named by the custody record.
    pub maker: Address,
    /// The taker, who must have signed.
    pub taker: Principal,
    /// The asset locked in the vault.
    pub mint_a: Address,
    /// The asset demanded by the maker.
    pub mint_b: Address,
    /// The custody record to settle.
    pub escrow: Address,
    /// The vault of that record.
    pub vault: Address,
    /// The maker's account of `mint_b`, created if the maker has none.
    pub maker_ata_b: Address,
    /// The taker's account of `mint_b`, from which the maker is paid.
    pub taker_ata_b: Address,
    /// The taker's account of `mint_a`, created if the taker has none.
    pub taker_ata_a: Address,
}

/// The addresses that the derivations give for a `Take`, as bytes.
pub struct TakeDerivation {
    pub escrow: Option<Seq<u8>>,
    pub vault: Option<Seq<u8>>,
    pub maker_ata_b: Option<Seq<u8>>,
    pub taker_ata_b: Option<Seq<u8>>,
    pub taker_ata_a: Option<Seq<u8>>,
}

/// The addresses that the derivations give for a `Take`.
#[derive(Clone, Copy, Debug)]
pub struct TakeAddresses {
    /// The custody record's address, recomputed from its stored disambiguator.
    pub escrow: Option<Address>,
    /// The conventional account of the custody record for the asset locked.
    pub vault: Option<Address>,
    /// The maker's conventional account of the asset demanded.
    pub maker_ata_b: Option<Address>,
    /// The taker's conventional account of the asset demanded.
    pub taker_ata_b: Option<Address>,
    /// The taker's conventional account of the asset locked.
    pub taker_ata_a: Option<Address>,
}

impl View for TakeAddresses {
    type V = TakeDerivation;

    open spec fn view(&self) -> TakeDerivation {
        TakeDerivation {
            escrow: address_view(self.escrow),
            vault: address_view(self.vault),
            maker_ata_b: address_view(self.maker_ata_b),
            taker_ata_b: address_view(self.taker_ata_b),
            taker_ata_a: address_view(self.taker_ata_a),
        }
    }
}

impl Take {
    /// What the derivations give for this call under `program_id`, given the record stored
    /// at the address presented, if any.
    pub open spec fn derivation(self, program_id: Seq<u8>, record: Option<Escrow>) -> TakeDerivation {
        TakeDerivation {
            escrow: match record {
                Some(stored) => program_address(
                    with_bump(escrow_seeds(self.maker@, stored.seed), stored.bump),
                    program_id,
                ),
                None => None,
            },
            vault: associated_address(self.escrow@, self.mint_a@),
            maker_ata_b: associated_address(self.maker@, self.mint_b@),
            taker_ata_b: associated_address(self.taker.address@, self.mint_b@),
            taker_ata_a: associated_address(self.taker.address@, self.mint_a@),
        }
    }

    /// Runs the derivations for this call.
    pub fn derive(&self, program_id: &Address, record: &Option<Escrow>) -> (derived: TakeAddresses)
        ensures
            derived@ == self.derivation(program_id@, *record),
    {
        TakeAddresses {
            escrow: match record {
                Some(stored) => escrow_address_with_bump(
                    program_id,
                    &self.maker,
                    stored.seed,
                    stored.bump,
                ),
                None => None,
            },
            vault: associated_token_address(&self.escrow, &self.mint_a),
            maker_ata_b: associated_token_address(&self.maker, &self.mint_b),
            taker_ata_b: associated_token_address(&self.taker.address, &self.mint_b),
            taker_ata_a: associated_token_address(&self.taker.address, &self.mint_a),
        }
    }

    /// Pays the maker: moves the quantity that `record` demands of the asset demanded from
    /// the taker's account to the maker's, on the taker's word.
    pub fn transfer_to_maker(&self, ledger: &mut Ledger, record: &Escrow) -> (r: Result<
        (),
        EscrowError,
    >)
        ensures
            old(ledger)@.transfer(
                self.taker_ata_b,
                self.maker_ata_b,
                self.mint_b,
                record.amount,
                self.taker,
            ) == outcome(r, final(ledger)@),
            r is Err ==> final(ledger)@ == old(ledger)@,
    {
        ledger.transfer(
            &self.taker_ata_b,
            &self.maker_ata_b,
            &self.mint_b,
            record.amount,
            &self.taker,
        )
    }

    /// Pays the taker: moves whatever the vault holds to the taker's account, then closes
    /// the vault and returns its storage deposit to the maker. `authority` speaks for the
    /// custody record.
    pub fn transfer_to_taker_and_close_vault(&self, ledger: &mut Ledger, authority: &Principal) -> (r:
        Result<(), EscrowError>)
        ensures
            old(ledger)@.sweep_and_close(
                self.vault,
                self.taker_ata_a,
                self.maker,
                self.mint_a,
                *authority,
            ) == outcome(r, final(ledger)@),
            r is Err ==> final(ledger)@ == old(ledger)@,
    {
        ledger.sweep_and_close(&self.vault, &self.taker_ata_a, &self.maker, &self.mint_a, authority)
    }
}

} // verus!
