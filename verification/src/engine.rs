//! The escrow engine: the persisted state and the three transitions Open, Settle and
//! Cancel, each stated as a function from the state before to the state after or an error.

use crate::address::{Address, Principal};
use crate::address_map::AddressMap;
use crate::derivation::matches_derived;
use crate::error::{outcome, EscrowError};
use crate::instructions::make::{Make, MakeAddresses, MakeDerivation};
use crate::instructions::refund::{Refund, RefundAddresses, RefundDerivation};
use crate::instructions::take::{Take, TakeAddresses, TakeDerivation};
use crate::ledger::{Ledger, LedgerView};
use crate::state::Escrow;
use vstd::prelude::*;

verus! {

/// The one that speaks for the custody record at `escrow`: it counts as having signed
/// exactly where the record's seed material derives to that address.
pub open spec fn record_authority(escrow: Address, derived: Option<Seq<u8>>) -> Principal {
    Principal { address: escrow, is_signer: derived == Some(escrow@) }
}

/// The persisted state as a mathematical value.
pub struct EngineView {
    /// The namespace under which custody records are derived.
    pub program_id: Address,
    /// The storage deposit that a custody record takes from the maker.
    pub record_deposit: u64,
    /// The ledger.
    pub ledger: LedgerView,
    /// The open escrows, by the address of their custody record.
    pub records: Map<Address, Escrow>,
}

impl EngineView {
    /// Why Open is refused before anything moves; `None` where it may proceed.
    pub open spec fn open_refusal(self, accounts: Make, derived: MakeDerivation) -> Option<
        EscrowError,
    > {
        if !accounts.maker.is_signer {
            Some(EscrowError::AuthenticationFailure)
        } else if derived.escrow_address() != Some(accounts.escrow@)
            || derived.maker_ata_a != Some(accounts.maker_ata_a@)
            || derived.vault != Some(accounts.vault@) {
            Some(EscrowError::DerivationMismatch)
        } else if self.records.contains_key(accounts.escrow) {
            Some(EscrowError::AlreadyExists)
        } else {
            None
        }
    }

    /// What Open does to the ledger: the maker funds the record's storage deposit, the
    /// vault is created under the record's authority at the maker's cost, and `amount_a`
    /// moves from the maker's account into the vault.
    pub open spec fn open_moves(self, accounts: Make, amount_a: u64) -> Result<
        LedgerView,
        EscrowError,
    > {
        match self.ledger.pay(accounts.maker, accounts.escrow, self.record_deposit) {
            Err(e) => Err(e),
            Ok(funded) => match funded.create(
                accounts.vault,
                accounts.mint_a,
                accounts.escrow,
                accounts.maker,
            ) {
                Err(e) => Err(e),
                Ok(created) => created.transfer(
                    accounts.maker_ata_a,
                    accounts.vault,
                    accounts.mint_a,
                    amount_a,
                    accounts.maker,
                ),
            },
        }
    }

    /// Open: the state after the maker locks `amount_a` and demands `amount_b`, or the error
    /// with which the call is refused.
    pub open spec fn open(
        self,
        accounts: Make,
        seed: u64,
        amount_a: u64,
        amount_b: u64,
        derived: MakeDerivation,
    ) -> Result<EngineView, EscrowError> {
        match self.open_refusal(accounts, derived) {
            Some(e) => Err(e),
            None => match self.open_moves(accounts, amount_a) {
                Err(e) => Err(e),
                Ok(ledger) => Ok(
                    EngineView {
                        ledger,
                        records: self.records.insert(
                            accounts.escrow,
                            accounts.record(seed, amount_b, derived.escrow_bump()),
                        ),
                        ..self
                    },
                ),
            },
        }
    }

    /// Why Settle is refused before anything moves; `None` where it may proceed.
    pub open spec fn settle_refusal(self, accounts: Take, derived: TakeDerivation) -> Option<
        EscrowError,
    > {
        if !self.records.contains_key(accounts.escrow) {
            Some(EscrowError::NotFound)
        } else if !accounts.taker.is_signer || accounts.taker.address == accounts.maker {
            Some(EscrowError::AuthenticationFailure)
        } else if self.records[accounts.escrow].maker != accounts.maker
            || self.records[accounts.escrow].mint_a != accounts.mint_a
            || self.records[accounts.escrow].mint_b != accounts.mint_b {
            Some(EscrowError::AuthorizationMismatch)
        } else if derived.escrow != Some(accounts.escrow@)
            || derived.vault != Some(accounts.vault@)
            || derived.maker_ata_b != Some(accounts.maker_ata_b@)
            || derived.taker_ata_b != Some(accounts.taker_ata_b@)
            || derived.taker_ata_a != Some(accounts.taker_ata_a@) {
            Some(EscrowError::DerivationMismatch)
        } else {
            None
        }
    }

    /// What Settle does to the ledger, in order: the receiving accounts of maker and taker
    /// are created at the taker's cost where absent; the taker pays the maker the quantity
    /// demanded; the vault's whole balance goes to the taker and the vault is closed in
    /// favour of the maker; the record's storage deposit goes to the taker.
    pub open spec fn settle_moves(self, accounts: Take, authority: Principal) -> Result<
        LedgerView,
        EscrowError,
    > {
        match self.ledger.create_if_absent(
            accounts.maker_ata_b,
            accounts.mint_b,
            accounts.maker,
            accounts.taker,
        ) {
            Err(e) => Err(e),
            Ok(first) => match first.create_if_absent(
                accounts.taker_ata_a,
                accounts.mint_a,
                accounts.taker.address,
                accounts.taker,
            ) {
                Err(e) => Err(e),
                Ok(second) => match second.transfer(
                    accounts.taker_ata_b,
                    accounts.maker_ata_b,
                    accounts.mint_b,
                    self.records[accounts.escrow].amount,
                    accounts.taker,
                ) {
                    Err(e) => Err(e),
                    Ok(paid) => match paid.sweep_and_close(
                        accounts.vault,
                        accounts.taker_ata_a,
                        accounts.maker,
                        accounts.mint_a,
                        authority,
                    ) {
                        Err(e) => Err(e),
                        Ok(swept) => swept.pay(
                            authority,
                            accounts.taker.address,
                            swept.lamports[accounts.escrow],
                        ),
                    },
                },
            },
        }
    }

    /// Settle: the state after the exchange, with record and vault gone, or the error with
    /// which the call is refused.
    pub open spec fn settle(self, accounts: Take, derived: TakeDerivation) -> Result<
        EngineView,
        EscrowError,
    > {
        match self.settle_refusal(accounts, derived) {
            Some(e) => Err(e),
            None => match self.settle_moves(
                accounts,
                record_authority(accounts.escrow, derived.escrow),
            ) {
                Err(e) => Err(e),
                Ok(ledger) => Ok(
                    EngineView { ledger, records: self.records.remove(accounts.escrow), ..self },
                ),
            },
        }
    }

    /// Why Cancel is refused before anything moves; `None` where it may proceed.
    pub open spec fn cancel_refusal(self, accounts: Refund, derived: RefundDerivation) -> Option<
        EscrowError,
    > {
        if !self.records.contains_key(accounts.escrow) {
            Some(EscrowError::NotFound)
        } else if !accounts.maker.is_signer {
            Some(EscrowError::AuthenticationFailure)
        } else if self.records[accounts.escrow].maker != accounts.maker.address
            || self.records[accounts.escrow].mint_a != accounts.mint_a {
            Some(EscrowError::AuthorizationMismatch)
        } else if derived.escrow != Some(accounts.escrow@)
            || derived.vault != Some(accounts.vault@)
            || derived.maker_ata_a != Some(accounts.maker_ata_a@) {
            Some(EscrowError::DerivationMismatch)
        } else {
            None
        }
    }

    /// What Cancel does to the ledger: the vault's whole balance returns to the maker, the
    /// vault is closed in favour of the maker, and the record's storage deposit goes to the
    /// maker.
    pub open spec fn cancel_moves(self, accounts: Refund, authority: Principal) -> Result<
        LedgerView,
        EscrowError,
    > {
        match self.ledger.sweep_and_close(
            accounts.vault,
            accounts.maker_ata_a,
            accounts.maker.address,
            accounts.mint_a,
            authority,
        ) {
            Err(e) => Err(e),
            Ok(swept) => swept.pay(
                authority,
                accounts.maker.address,
                swept.lamports[accounts.escrow],
            ),
        }
    }

    /// Cancel: the state after the escrow is unwound, with record and vault gone, or the
    /// error with which the call is refused.
    pub open spec fn cancel(self, accounts: Refund, derived: RefundDerivation) -> Result<
        EngineView,
        EscrowError,
    > {
        match self.cancel_refusal(accounts, derived) {
            Some(e) => Err(e),
            None => match self.cancel_moves(
                accounts,
                record_authority(accounts.escrow, derived.escrow),
            ) {
                Err(e) => Err(e),
                Ok(ledger) => Ok(
                    EngineView { ledger, records: self.records.remove(accounts.escrow), ..self },
                ),
            },
        }
    }

    /// The record stored at `address`, if any.
    pub open spec fn record(self, address: Address) -> Option<Escrow> {
        if self.records.contains_key(address) {
            Some(self.records[address])
        } else {
            None
        }
    }
}

/// The persisted state: the open custody records and the ledger that holds the vaults.
pub struct Engine {
    /// The namespace under which custody records are derived.
    pub program_id: Address,
    /// The storage deposit that a custody record takes from the maker.
    pub record_deposit: u64,
    /// The ledger.
    pub ledger: Ledger,
    /// The open escrows, by the address of their custody record.
    pub records: AddressMap<Escrow>,
}

impl View for Engine {
    type V = EngineView;

    open spec fn view(&self) -> EngineView {
        EngineView {
            program_id: self.program_id,
            record_deposit: self.record_deposit,
            ledger: self.ledger@,
            records: self.records@,
        }
    }
}

impl Engine {
    /// A state with no open escrow over the given ledger.
    pub fn new(program_id: Address, record_deposit: u64, ledger: Ledger) -> (engine: Engine)
        ensures
            engine@.program_id == program_id,
            engine@.record_deposit == record_deposit,
            engine@.ledger == ledger@,
            engine@.records == Map::<Address, Escrow>::empty(),
    {
        Engine { program_id, record_deposit, ledger, records: AddressMap::new() }
    }

    /// The custody record stored at `address`, if the escrow is open.
    pub fn record(&self, address: &Address) -> (r: Option<Escrow>)
        ensures
            r == self@.record(*address),
    {
        self.records.get(address)
    }
}

/// Open, given what the derivations gave. The maker must have signed; the record, the
/// maker's account and the vault must be at their derived addresses; no record may exist
/// there yet. Then the record and the vault are created and the deposit is locked, or
/// nothing changes.
pub fn open(
    engine: &mut Engine,
    accounts: &Make,
    seed: u64,
    amount_a: u64,
    amount_b: u64,
    derived: &MakeAddresses,
) -> (r: Result<(), EscrowError>)
    ensures
        old(engine)@.open(*accounts, seed, amount_a, amount_b, derived@) == outcome(
            r,
            final(engine)@,
        ),
        r is Err ==> final(engine)@ == old(engine)@,
{
    if !accounts.maker.is_signer {
        return Err(EscrowError::AuthenticationFailure);
    }
    let (at, bump) = match derived.escrow {
        Some(found) => found,
        None => {
            return Err(EscrowError::DerivationMismatch);
        },
    };
    proof {
        Address::lemma_view_injective(at, accounts.escrow);
    }
    if at != accounts.escrow || !matches_derived(&accounts.maker_ata_a, &derived.maker_ata_a)
        || !matches_derived(&accounts.vault, &derived.vault) {
        return Err(EscrowError::DerivationMismatch);
    }
    if engine.records.contains(&accounts.escrow) {
        return Err(EscrowError::AlreadyExists);
    }
    let mut work = engine.ledger.snapshot();
    match work.pay(&accounts.maker, &accounts.escrow, engine.record_deposit) {
        Err(e) => {
            return Err(e);
        },
        Ok(()) => {},
    }
    match work.create(&accounts.vault, &accounts.mint_a, &accounts.escrow, &accounts.maker) {
        Err(e) => {
            return Err(e);
        },
        Ok(()) => {},
    }
    match accounts.deposit(&mut work, amount_a) {
        Err(e) => {
            return Err(e);
        },
        Ok(()) => {},
    }
    engine.ledger = work;
    engine.records.insert(accounts.escrow, accounts.init_escrow(seed, amount_b, bump));
    Ok(())
}

/// Settle, given what the derivations gave. The record must exist; the taker must have
/// signed and not be the maker; maker and assets presented must be those of the record; all
/// accounts must be at their derived addresses. Then the exchange is carried out and record
/// and vault are destroyed, or nothing changes.
pub fn settle(engine: &mut Engine, accounts: &Take, derived: &TakeAddresses) -> (r: Result<
    (),
    EscrowError,
>)
    ensures
        old(engine)@.settle(*accounts, derived@) == outcome(r, final(engine)@),
        r is Err ==> final(engine)@ == old(engine)@,
{
    let record = match engine.records.get(&accounts.escrow) {
        Some(stored) => stored,
        None => {
            return Err(EscrowError::NotFound);
        },
    };
    if !accounts.taker.is_signer || accounts.taker.address == accounts.maker {
        return Err(EscrowError::AuthenticationFailure);
    }
    if record.maker != accounts.maker || record.mint_a != accounts.mint_a || record.mint_b
        != accounts.mint_b {
        return Err(EscrowError::AuthorizationMismatch);
    }
    let rederived = matches_derived(&accounts.escrow, &derived.escrow);
    if !rederived || !matches_derived(&accounts.vault, &derived.vault) || !matches_derived(
        &accounts.maker_ata_b,
        &derived.maker_ata_b,
    ) || !matches_derived(&accounts.taker_ata_b, &derived.taker_ata_b) || !matches_derived(
        &accounts.taker_ata_a,
        &derived.taker_ata_a,
    ) {
        return Err(EscrowError::DerivationMismatch);
    }
    let authority = Principal { address: accounts.escrow, is_signer: rederived };
    let mut work = engine.ledger.snapshot();
    match work.create_if_absent(
        &accounts.maker_ata_b,
        &accounts.mint_b,
        &accounts.maker,
        &accounts.taker,
    ) {
        Err(e) => {
            return Err(e);
        },
        Ok(()) => {},
    }
    match work.create_if_absent(
        &accounts.taker_ata_a,
        &accounts.mint_a,
        &accounts.taker.address,
        &accounts.taker,
    ) {
        Err(e) => {
            return Err(e);
        },
        Ok(()) => {},
    }
    match accounts.transfer_to_maker(&mut work, &record) {
        Err(e) => {
            return Err(e);
        },
        Ok(()) => {},
    }
    match accounts.transfer_to_taker_and_close_vault(&mut work, &authority) {
        Err(e) => {
            return Err(e);
        },
        Ok(()) => {},
    }
    let deposit = work.lamports(&accounts.escrow);
    match work.pay(&authority, &accounts.taker.address, deposit) {
        Err(e) => {
            return Err(e);
        },
        Ok(()) => {},
    }
    engine.ledger = work;
    engine.records.remove(&accounts.escrow);
    Ok(())
}

/// Cancel, given what the derivations gave. The record must exist; the caller must have
/// signed and be the maker of the record; the asset presented must be the one locked; all
/// accounts must be at their derived addresses. Then the vault is returned to the maker and
/// record and vault are destroyed, or nothing changes.
pub fn cancel(engine: &mut Engine, accounts: &Refund, derived: &RefundAddresses) -> (r: Result<
    (),
    EscrowError,
>)
    ensures
        old(engine)@.cancel(*accounts, derived@) == outcome(r, final(engine)@),
        r is Err ==> final(engine)@ == old(engine)@,
{
    let record = match engine.records.get(&accounts.escrow) {
        Some(stored) => stored,
        None => {
            return Err(EscrowError::NotFound);
        },
    };
    if !accounts.maker.is_signer {
        return Err(EscrowError::AuthenticationFailure);
    }
    if record.maker != accounts.maker.address || record.mint_a != accounts.mint_a {
        return Err(EscrowError::AuthorizationMismatch);
    }
    let rederived = matches_derived(&accounts.escrow, &derived.escrow);
    if !rederived || !matches_derived(&accounts.vault, &derived.vault) || !matches_derived(
        &accounts.maker_ata_a,
        &derived.maker_ata_a,
    ) {
        return Err(EscrowError::DerivationMismatch);
    }
    let authority = Principal { address: accounts.escrow, is_signer: rederived };
    let mut work = engine.ledger.snapshot();
    match accounts.refund_and_close_vault(&mut work, &authority) {
        Err(e) => {
            return Err(e);
        },
        Ok(()) => {},
    }
    let deposit = work.lamports(&accounts.escrow);
    match work.pay(&authority, &accounts.maker.address, deposit) {
        Err(e) => {
            return Err(e);
        },
        Ok(()) => {},
    }
    engine.ledger = work;
    engine.records.remove(&accounts.escrow);
    Ok(())
}

} // verus!
