use crate::address::{Address, Principal};
use crate::derivation::{
    address_view, associated_address, associated_token_address, escrow_address_with_bump,
    escrow_seeds, program_address, with_bump,
};
use crate::error::{outcome, EscrowError};
use crate::ledger::Ledger;
use crate::state::Escrow;
use vstd::prelude::*;

verus! {

/// What the maker presents to cancel an escrow.
#[derive(Clone, Copy, Debug)]
pub struct Refund {
    /// The maker, who must have signed.
    pub maker: Principal,
    /// The asset locked in the vault.
    pub mint_a: Address,
    /// The maker's account of `mint_a`, to which the vault is emptied.
    pub maker_ata_a: Address,
    /// The custody record to cancel.
    pub escrow: Address,
    /// The vault of that record.
    pub vault: Address,
}

/// The addresses that the derivations give for a `Refund`, as bytes.
pub struct RefundDerivation {
    pub escrow: Option<Seq<u8>>,
    pub vault: Option<Seq<u8>>,
    pub maker_ata_a: Option<Seq<u8>>,
}

/// The addresses that the derivations give for a `Refund`.
#[derive(Clone, Copy, Debug)]
pub struct RefundAddresses {
    /// The custody record's address, recomputed from its stored disambiguator.
    pub escrow: Option<Address>,
    /// The conventional account of the custody record for the asset locked.
    pub vault: Option<Address>,
    /// The maker's conventional account of the asset locked.
    pub maker_ata_a: Option<Address>,
}

impl View for RefundAddresses {
    type V = RefundDerivation;

    open spec fn view(&self) -> RefundDerivation {
        RefundDerivation {
            escrow: address_view(self.escrow),
            vault: address_view(self.vault),
            maker_ata_a: address_view(self.maker_ata_a),
        }
    }
}

impl Refund {
    /// What the derivations give for this call under `program_id`, given the record stored
    /// at the address presented, if any.
    pub open spec fn derivation(self, program_id: Seq<u8>, record: Option<Escrow>) -> RefundDerivation {
        RefundDerivation {
            escrow: match record {
                Some(stored) => program_address(
                    with_bump(escrow_seeds(self.maker.address@, stored.seed), stored.bump),
                    program_id,
                ),
                None => None,
            },
            vault: associated_address(self.escrow@, self.mint_a@),
            maker_ata_a: associated_address(self.maker.address@, self.mint_a@),
        }
    }

    /// Runs the derivations for this call.
    pub fn derive(&self, program_id: &Address, record: &Option<Escrow>) -> (derived:
        RefundAddresses)
        ensures
            derived@ == self.derivation(program_id@, *record),
    {
        RefundAddresses {
            escrow: match record {
                Some(stored) => escrow_address_with_bump(
                    program_id,
                    &self.maker.address,
                    stored.seed,
                    stored.bump,
                ),
                None => None,
            },
            vault: associated_token_address(&self.escrow, &self.mint_a),
            maker_ata_a: associated_token_address(&self.maker.address, &self.mint_a),
        }
    }

    /// Returns whatever the vault holds to the maker's account, then closes the vault and
    /// returns its storage deposit to the maker. `authority` speaks for the custody record.
    pub fn refund_and_close_vault(&self, ledger: &mut Ledger, authority: &Principal) -> (r: Result<
        (),
        EscrowError,
    >)
        ensures
            old(ledger)@.sweep_and_close(
                self.vault,
                self.maker_ata_a,
                self.maker.address,
                self.mint_a,
                *authority,
            ) == outcome(r, final(ledger)@),
            r is Err ==> final(ledger)@ == old(ledger)@,
    {
        ledger.sweep_and_close(
            &self.vault,
            &self.maker_ata_a,
            &self.maker.address,
            &self.mint_a,
            authority,
        )
    }
}

} // verus!
