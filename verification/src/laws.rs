//! What holds of the transitions on every state: proved from their definitions.

use crate::address::{Address, Principal};
use crate::derivation::{
    canonical_address, escrow_seeds, lemma_canonical_is_highest, program_address, with_bump,
};
use crate::engine::EngineView;
use crate::error::EscrowError;
use crate::instructions::make::{Make, MakeDerivation};
use crate::instructions::refund::{Refund, RefundDerivation};
use crate::instructions::take::{Take, TakeDerivation};
use crate::ledger::{LedgerView, TokenAccount};
use vstd::prelude::*;

verus! {

/// A debit needs the account's authority: a transfer succeeds only on the signed word of
/// the authority recorded in the account debited.
pub proof fn law_debit_needs_authority(
    ledger: LedgerView,
    from: Address,
    to: Address,
    mint: Address,
    amount: u64,
    authority: Principal,
)
    requires
        ledger.transfer(from, to, mint, amount, authority) is Ok,
    ensures
        authority.is_signer,
        ledger.tokens.contains_key(from),
        ledger.tokens[from].owner == authority.address,
{
}

/// A transfer moves exactly `amount`: the source loses it, the target gains it, and every
/// other account, every native balance and the set of accounts stay as they were.
pub proof fn law_transfer_moves_exactly(
    ledger: LedgerView,
    from: Address,
    to: Address,
    mint: Address,
    amount: u64,
    authority: Principal,
)
    requires
        ledger.transfer(from, to, mint, amount, authority) is Ok,
        from != to,
    ensures
        ({
            let after = ledger.transfer(from, to, mint, amount, authority)->Ok_0;
            &&& after.balance(from) == ledger.balance(from) - amount
            &&& after.balance(to) == ledger.balance(to) + amount
            &&& after.tokens.dom() == ledger.tokens.dom()
            &&& after.lamports == ledger.lamports
            &&& forall|other: Address|
                other != from && other != to ==> after.tokens[other] == ledger.tokens[other]
        }),
{
    let after = ledger.transfer(from, to, mint, amount, authority)->Ok_0;
    assert(after.tokens.dom() =~= ledger.tokens.dom());
}

/// After a successful Open there is a custody record at the address presented, which is the
/// derived one; it holds the terms given, with `amount_b` as the quantity demanded. The
/// vault exists under the record's authority and holds exactly `amount_a`; the maker's
/// account holds exactly `amount_a` less. No other record and no other account's balance
/// has changed.
pub proof fn law_open_effect(
    before: EngineView,
    accounts: Make,
    seed: u64,
    amount_a: u64,
    amount_b: u64,
    derived: MakeDerivation,
)
    requires
        before.open(accounts, seed, amount_a, amount_b, derived) is Ok,
    ensures
        ({
            let after = before.open(accounts, seed, amount_a, amount_b, derived)->Ok_0;
            &&& accounts.maker.is_signer
            &&& derived.escrow_address() == Some(accounts.escrow@)
            &&& !before.records.contains_key(accounts.escrow)
            &&& !before.ledger.tokens.contains_key(accounts.vault)
            &&& after.records == before.records.insert(
                accounts.escrow,
                accounts.record(seed, amount_b, derived.escrow_bump()),
            )
            &&& after.records[accounts.escrow].amount == amount_b
            &&& after.records[accounts.escrow].maker == accounts.maker.address
            &&& after.ledger.tokens.contains_key(accounts.vault)
            &&& after.ledger.tokens[accounts.vault] == (TokenAccount {
                mint: accounts.mint_a,
                owner: accounts.escrow,
                amount: amount_a,
            })
            &&& after.ledger.balance(accounts.maker_ata_a) == before.ledger.balance(
                accounts.maker_ata_a,
            ) - amount_a
            &&& forall|other: Address|
                other != accounts.vault && other != accounts.maker_ata_a ==> (
                after.ledger.tokens.contains_key(other) == before.ledger.tokens.contains_key(other)
                    && after.ledger.tokens[other] == before.ledger.tokens[other])
        }),
{
}

/// Open succeeds wherever the call is valid and the maker can pay: the maker signed, the
/// addresses presented are the derived ones, no record and no vault is there yet, the
/// maker's account exists for the asset under the maker's authority and holds at least
/// `amount_a`, and the maker's native balance covers both storage deposits.
pub proof fn law_open_succeeds(
    before: EngineView,
    accounts: Make,
    seed: u64,
    amount_a: u64,
    amount_b: u64,
    derived: MakeDerivation,
)
    requires
        before.open_refusal(accounts, derived) is None,
        !before.ledger.tokens.contains_key(accounts.vault),
        before.ledger.tokens.contains_key(accounts.maker_ata_a),
        before.ledger.tokens[accounts.maker_ata_a].mint == accounts.mint_a,
        before.ledger.tokens[accounts.maker_ata_a].owner == accounts.maker.address,
        before.ledger.tokens[accounts.maker_ata_a].amount >= amount_a,
        accounts.maker.address != accounts.escrow,
        accounts.maker.address != accounts.vault,
        accounts.escrow != accounts.vault,
        before.ledger.lamports[accounts.maker.address] >= before.record_deposit
            + before.ledger.account_deposit,
        before.ledger.lamports[accounts.escrow] + before.record_deposit <= u64::MAX,
        before.ledger.lamports[accounts.vault] + before.ledger.account_deposit <= u64::MAX,
    ensures
        before.open(accounts, seed, amount_a, amount_b, derived) is Ok,
{
}

/// A second Open for the same maker and nonce is refused. Where the first succeeded, any
/// later Open that presents the same maker and whose record derives to the same address
/// fails; it fails with `AlreadyExists` wherever it presents the derived addresses.
pub proof fn law_open_twice_refused(
    before: EngineView,
    accounts: Make,
    seed: u64,
    amount_a: u64,
    amount_b: u64,
    derived: MakeDerivation,
    again: Make,
    again_a: u64,
    again_b: u64,
    again_derived: MakeDerivation,
)
    requires
        before.open(accounts, seed, amount_a, amount_b, derived) is Ok,
        again.maker == accounts.maker,
        again_derived.escrow == derived.escrow,
    ensures
        ({
            let after = before.open(accounts, seed, amount_a, amount_b, derived)->Ok_0;
            let second = after.open(again, seed, again_a, again_b, again_derived);
            &&& second is Err
            &&& second == Err::<EngineView, EscrowError>(EscrowError::AlreadyExists)
                || second == Err::<EngineView, EscrowError>(EscrowError::DerivationMismatch)
            &&& (again_derived.escrow_address() == Some(again.escrow@)
                && again_derived.maker_ata_a == Some(again.maker_ata_a@) && again_derived.vault
                == Some(again.vault@)) ==> second == Err::<EngineView, EscrowError>(
                EscrowError::AlreadyExists,
            )
        }),
{
    let after = before.open(accounts, seed, amount_a, amount_b, derived)->Ok_0;
    if again_derived.escrow_address() == Some(again.escrow@) {
        Address::lemma_view_injective(again.escrow, accounts.escrow);
    }
}

/// A record that Open created under the engine's own derivation passes the re-derivation
/// that Settle and Cancel make from its stored disambiguator: the address is a function of
/// namespace, maker and nonce alone.
pub proof fn law_made_record_rederives(
    before: EngineView,
    accounts: Make,
    seed: u64,
    amount_a: u64,
    amount_b: u64,
)
    requires
        before.open(
            accounts,
            seed,
            amount_a,
            amount_b,
            accounts.derivation(before.program_id@, seed),
        ) is Ok,
    ensures
        ({
            let after = before.open(
                accounts,
                seed,
                amount_a,
                amount_b,
                accounts.derivation(before.program_id@, seed),
            )->Ok_0;
            let stored = after.records[accounts.escrow];
            &&& canonical_address(escrow_seeds(stored.maker@, stored.seed), after.program_id@)
                == Some((accounts.escrow@, stored.bump))
            &&& program_address(
                with_bump(escrow_seeds(stored.maker@, stored.seed), stored.bump),
                after.program_id@,
            ) == Some(accounts.escrow@)
        }),
{
    lemma_canonical_is_highest(escrow_seeds(accounts.maker.address@, seed), before.program_id@);
}

/// Settle needs the record: where none is stored at the address presented the call fails
/// with `NotFound`, whoever makes it; and a Settle that succeeds found one.
pub proof fn law_settle_needs_record(before: EngineView, accounts: Take, derived: TakeDerivation)
    ensures
        !before.records.contains_key(accounts.escrow) ==> before.settle(accounts, derived)
            == Err::<EngineView, EscrowError>(EscrowError::NotFound),
        before.settle(accounts, derived) is Ok ==> before.records.contains_key(accounts.escrow),
{
}

/// After a successful Settle between two different assets the record and the vault are
/// gone, every other record is as it was, the taker's account of the asset locked holds
/// more by what the vault held, the maker's account of the asset demanded holds more by
/// exactly the quantity demanded, and the taker's account of that asset holds less by
/// exactly that quantity.
pub proof fn law_settle_effect(before: EngineView, accounts: Take, derived: TakeDerivation)
    requires
        before.settle(accounts, derived) is Ok,
        accounts.mint_a != accounts.mint_b,
    ensures
        ({
            let after = before.settle(accounts, derived)->Ok_0;
            let demanded = before.records[accounts.escrow].amount;
            &&& before.records.contains_key(accounts.escrow)
            &&& after.records == before.records.remove(accounts.escrow)
            &&& !after.records.contains_key(accounts.escrow)
            &&& !after.ledger.tokens.contains_key(accounts.vault)
            &&& after.ledger.balance(accounts.taker_ata_a) == before.ledger.balance(
                accounts.taker_ata_a,
            ) + before.ledger.balance(accounts.vault)
            &&& after.ledger.balance(accounts.maker_ata_b) == before.ledger.balance(
                accounts.maker_ata_b,
            ) + demanded
            &&& after.ledger.balance(accounts.taker_ata_b) == before.ledger.balance(
                accounts.taker_ata_b,
            ) - demanded
            &&& forall|other: Address|
                other != accounts.vault && other != accounts.maker_ata_b && other
                    != accounts.taker_ata_b && other != accounts.taker_ata_a ==> (
                after.ledger.tokens.contains_key(other) == before.ledger.tokens.contains_key(other)
                    && after.ledger.tokens[other] == before.ledger.tokens[other])
        }),
{
}

/// Settle succeeds wherever the call is valid and everyone can pay. That is: nothing
/// refuses it up front; the vault exists for the asset locked under the record's authority;
/// the taker's paying account exists for the asset demanded under the taker's authority and
/// holds at least the quantity demanded; each receiving account is either absent or
/// already there for the right asset and party; no balance would pass the largest value;
/// and the taker's native balance covers the deposits of the accounts to create. The
/// addresses involved are taken to differ from each other.
pub proof fn law_settle_succeeds(before: EngineView, accounts: Take, derived: TakeDerivation)
    requires
        before.settle_refusal(accounts, derived) is None,
        accounts.maker != accounts.escrow,
        accounts.maker != accounts.vault,
        accounts.maker != accounts.maker_ata_b,
        accounts.maker != accounts.taker_ata_a,
        accounts.taker.address != accounts.escrow,
        accounts.taker.address != accounts.vault,
        accounts.taker.address != accounts.maker_ata_b,
        accounts.taker.address != accounts.taker_ata_a,
        accounts.escrow != accounts.vault,
        accounts.escrow != accounts.maker_ata_b,
        accounts.escrow != accounts.taker_ata_a,
        accounts.vault != accounts.maker_ata_b,
        accounts.vault != accounts.taker_ata_b,
        accounts.vault != accounts.taker_ata_a,
        accounts.maker_ata_b != accounts.taker_ata_b,
        accounts.maker_ata_b != accounts.taker_ata_a,
        accounts.taker_ata_b != accounts.taker_ata_a,
        before.ledger.tokens.contains_key(accounts.vault),
        before.ledger.tokens[accounts.vault].mint == accounts.mint_a,
        before.ledger.tokens[accounts.vault].owner == accounts.escrow,
        before.ledger.tokens.contains_key(accounts.taker_ata_b),
        before.ledger.tokens[accounts.taker_ata_b].mint == accounts.mint_b,
        before.ledger.tokens[accounts.taker_ata_b].owner == accounts.taker.address,
        before.ledger.tokens[accounts.taker_ata_b].amount
            >= before.records[accounts.escrow].amount,
        before.ledger.tokens.contains_key(accounts.maker_ata_b) ==> (
        before.ledger.tokens[accounts.maker_ata_b].mint == accounts.mint_b
            && before.ledger.tokens[accounts.maker_ata_b].owner == accounts.maker),
        before.ledger.tokens.contains_key(accounts.taker_ata_a) ==> (
        before.ledger.tokens[accounts.taker_ata_a].mint == accounts.mint_a
            && before.ledger.tokens[accounts.taker_ata_a].owner == accounts.taker.address),
        before.ledger.balance(accounts.maker_ata_b) + before.records[accounts.escrow].amount
            <= u64::MAX,
        before.ledger.balance(accounts.taker_ata_a) + before.ledger.balance(accounts.vault)
            <= u64::MAX,
        before.ledger.lamports[accounts.taker.address] >= 2 * before.ledger.account_deposit,
        before.ledger.lamports[accounts.maker_ata_b] + before.ledger.account_deposit
            <= u64::MAX,
        before.ledger.lamports[accounts.taker_ata_a] + before.ledger.account_deposit
            <= u64::MAX,
        before.ledger.lamports[accounts.maker] + before.ledger.lamports[accounts.vault]
            <= u64::MAX,
        before.ledger.lamports[accounts.taker.address] + before.ledger.lamports[accounts.escrow]
            <= u64::MAX,
    ensures
        before.settle(accounts, derived) is Ok,
{
}

/// Cancel succeeds wherever the call is valid. That is: nothing refuses it up front; the
/// vault exists for the asset locked under the record's authority; the maker's account
/// exists for that asset; and no balance would pass the largest value. The addresses
/// involved are taken to differ from each other.
pub proof fn law_cancel_succeeds(before: EngineView, accounts: Refund, derived: RefundDerivation)
    requires
        before.cancel_refusal(accounts, derived) is None,
        accounts.maker.address != accounts.escrow,
        accounts.maker.address != accounts.vault,
        accounts.escrow != accounts.vault,
        accounts.vault != accounts.maker_ata_a,
        before.ledger.tokens.contains_key(accounts.vault),
        before.ledger.tokens[accounts.vault].mint == accounts.mint_a,
        before.ledger.tokens[accounts.vault].owner == accounts.escrow,
        before.ledger.tokens.contains_key(accounts.maker_ata_a),
        before.ledger.tokens[accounts.maker_ata_a].mint == accounts.mint_a,
        before.ledger.balance(accounts.maker_ata_a) + before.ledger.balance(accounts.vault)
            <= u64::MAX,
        before.ledger.lamports[accounts.maker.address] + before.ledger.lamports[accounts.vault]
            + before.ledger.lamports[accounts.escrow] <= u64::MAX,
    ensures
        before.cancel(accounts, derived) is Ok,
{
}

/// Only the maker cancels. Where a record is stored at the address presented, a caller who
/// did not sign, or who is not the maker of that record, is refused with
/// `AuthenticationFailure` or `AuthorizationMismatch`; and a Cancel that succeeds was
/// signed by the maker of the record.
pub proof fn law_cancel_only_by_maker(
    before: EngineView,
    accounts: Refund,
    derived: RefundDerivation,
)
    requires
        before.records.contains_key(accounts.escrow),
    ensures
        !accounts.maker.is_signer ==> before.cancel(accounts, derived) == Err::<
            EngineView,
            EscrowError,
        >(EscrowError::AuthenticationFailure),
        accounts.maker.is_signer && accounts.maker.address
            != before.records[accounts.escrow].maker ==> before.cancel(accounts, derived)
            == Err::<EngineView, EscrowError>(EscrowError::AuthorizationMismatch),
        before.cancel(accounts, derived) is Ok ==> accounts.maker.is_signer
            && accounts.maker.address == before.records[accounts.escrow].maker,
{
}

/// After a successful Cancel the record and the vault are gone, every other record is as it
/// was, and the maker's account holds more by what the vault held.
pub proof fn law_cancel_effect(before: EngineView, accounts: Refund, derived: RefundDerivation)
    requires
        before.cancel(accounts, derived) is Ok,
    ensures
        ({
            let after = before.cancel(accounts, derived)->Ok_0;
            &&& before.records.contains_key(accounts.escrow)
            &&& before.ledger.tokens.contains_key(accounts.vault)
            &&& after.records == before.records.remove(accounts.escrow)
            &&& !after.records.contains_key(accounts.escrow)
            &&& !after.ledger.tokens.contains_key(accounts.vault)
            &&& after.ledger.balance(accounts.maker_ata_a) == before.ledger.balance(
                accounts.maker_ata_a,
            ) + before.ledger.balance(accounts.vault)
            &&& forall|other: Address|
                other != accounts.vault && other != accounts.maker_ata_a ==> (
                after.ledger.tokens.contains_key(other) == before.ledger.tokens.contains_key(other)
                    && after.ledger.tokens[other] == before.ledger.tokens[other])
        }),
{
}

/// Storage deposits at Open: between distinct addresses, the maker's native balance pays
/// the record's deposit to the record's address and the account deposit to the vault's.
pub proof fn law_open_deposits(
    before: EngineView,
    accounts: Make,
    seed: u64,
    amount_a: u64,
    amount_b: u64,
    derived: MakeDerivation,
)
    requires
        before.open(accounts, seed, amount_a, amount_b, derived) is Ok,
        accounts.maker.address != accounts.escrow,
        accounts.maker.address != accounts.vault,
        accounts.escrow != accounts.vault,
    ensures
        ({
            let after = before.open(accounts, seed, amount_a, amount_b, derived)->Ok_0.ledger;
            &&& after.lamports[accounts.maker.address]
                == before.ledger.lamports[accounts.maker.address] - before.record_deposit
                - before.ledger.account_deposit
            &&& after.lamports[accounts.escrow] == before.ledger.lamports[accounts.escrow]
                + before.record_deposit
            &&& after.lamports[accounts.vault] == before.ledger.lamports[accounts.vault]
                + before.ledger.account_deposit
        }),
{
}

/// Storage deposits at Settle: between distinct addresses, what the vault's address held
/// goes to the maker and what the record's address held goes to the taker, who has paid
/// one account deposit for each receiving account that had to be created.
pub proof fn law_settle_deposits(before: EngineView, accounts: Take, derived: TakeDerivation)
    requires
        before.settle(accounts, derived) is Ok,
        accounts.maker != accounts.escrow,
        accounts.maker != accounts.vault,
        accounts.maker != accounts.maker_ata_b,
        accounts.maker != accounts.taker_ata_a,
        accounts.taker.address != accounts.escrow,
        accounts.taker.address != accounts.vault,
        accounts.taker.address != accounts.maker_ata_b,
        accounts.taker.address != accounts.taker_ata_a,
        accounts.escrow != accounts.vault,
        accounts.escrow != accounts.maker_ata_b,
        accounts.escrow != accounts.taker_ata_a,
        accounts.vault != accounts.maker_ata_b,
        accounts.vault != accounts.taker_ata_a,
        accounts.maker_ata_b != accounts.taker_ata_a,
    ensures
        ({
            let after = before.settle(accounts, derived)->Ok_0.ledger;
            let spent: int = (if before.ledger.tokens.contains_key(accounts.maker_ata_b) {
                0int
            } else {
                before.ledger.account_deposit as int
            }) + (if before.ledger.tokens.contains_key(accounts.taker_ata_a) {
                0int
            } else {
                before.ledger.account_deposit as int
            });
            &&& after.lamports[accounts.vault] == 0
            &&& after.lamports[accounts.escrow] == 0
            &&& after.lamports[accounts.maker] == before.ledger.lamports[accounts.maker]
                + before.ledger.lamports[accounts.vault]
            &&& after.lamports[accounts.taker.address]
                == before.ledger.lamports[accounts.taker.address]
                + before.ledger.lamports[accounts.escrow] - spent
        }),
{
}

/// Storage deposits at Cancel: between distinct addresses, what the vault's address and the
/// record's address held both go to the maker.
pub proof fn law_cancel_deposits(before: EngineView, accounts: Refund, derived: RefundDerivation)
    requires
        before.cancel(accounts, derived) is Ok,
        accounts.maker.address != accounts.escrow,
        accounts.maker.address != accounts.vault,
        accounts.escrow != accounts.vault,
    ensures
        ({
            let after = before.cancel(accounts, derived)->Ok_0.ledger;
            &&& after.lamports[accounts.vault] == 0
            &&& after.lamports[accounts.escrow] == 0
            &&& after.lamports[accounts.maker.address]
                == before.ledger.lamports[accounts.maker.address]
                + before.ledger.lamports[accounts.vault] + before.ledger.lamports[accounts.escrow]
        }),
{
}

/// Settle and Cancel exclude each other: once either has succeeded on a record, the other,
/// and either one again, fails on that record with `NotFound`, whoever calls and whatever
/// else is presented.
pub proof fn law_closing_is_final(
    before: EngineView,
    taking: Take,
    taking_derived: TakeDerivation,
    refunding: Refund,
    refunding_derived: RefundDerivation,
    later_take: Take,
    later_take_derived: TakeDerivation,
    later_refund: Refund,
    later_refund_derived: RefundDerivation,
)
    requires
        later_take.escrow == taking.escrow,
        later_refund.escrow == taking.escrow,
        refunding.escrow == taking.escrow,
    ensures
        before.settle(taking, taking_derived) is Ok ==> ({
            let after = before.settle(taking, taking_derived)->Ok_0;
            &&& after.cancel(later_refund, later_refund_derived) == Err::<
                EngineView,
                EscrowError,
            >(EscrowError::NotFound)
            &&& after.settle(later_take, later_take_derived) == Err::<EngineView, EscrowError>(
                EscrowError::NotFound,
            )
        }),
        before.cancel(refunding, refunding_derived) is Ok ==> ({
            let after = before.cancel(refunding, refunding_derived)->Ok_0;
            &&& after.cancel(later_refund, later_refund_derived) == Err::<
                EngineView,
                EscrowError,
            >(EscrowError::NotFound)
            &&& after.settle(later_take, later_take_derived) == Err::<EngineView, EscrowError>(
                EscrowError::NotFound,
            )
        }),
{
}

/// A vault that is not at the derived address is refused: Settle then fails, and where the
/// record exists, the taker signed and the maker and assets presented are those of the
/// record, it fails with `DerivationMismatch`.
pub proof fn law_forged_vault_refused(before: EngineView, accounts: Take, derived: TakeDerivation)
    requires
        derived.vault != Some(accounts.vault@),
    ensures
        before.settle(accounts, derived) is Err,
        before.records.contains_key(accounts.escrow) && accounts.taker.is_signer
            && accounts.taker.address != accounts.maker && before.records[accounts.escrow].maker
            == accounts.maker && before.records[accounts.escrow].mint_a == accounts.mint_a
            && before.records[accounts.escrow].mint_b == accounts.mint_b ==> before.settle(
            accounts,
            derived,
        ) == Err::<EngineView, EscrowError>(EscrowError::DerivationMismatch),
{
}

/// Round trip: where Open is followed at once by a Cancel of the same record, the maker's
/// account holds what it held before the Open, and record and vault are gone.
pub proof fn law_open_then_cancel_restores(
    before: EngineView,
    accounts: Make,
    seed: u64,
    amount_a: u64,
    amount_b: u64,
    derived: MakeDerivation,
    refunding: Refund,
    refunding_derived: RefundDerivation,
)
    requires
        before.open(accounts, seed, amount_a, amount_b, derived) is Ok,
        refunding.escrow == accounts.escrow,
        refunding.vault == accounts.vault,
        refunding.maker_ata_a == accounts.maker_ata_a,
        before.open(accounts, seed, amount_a, amount_b, derived)->Ok_0.cancel(
            refunding,
            refunding_derived,
        ) is Ok,
    ensures
        ({
            let opened = before.open(accounts, seed, amount_a, amount_b, derived)->Ok_0;
            let after = opened.cancel(refunding, refunding_derived)->Ok_0;
            &&& after.ledger.balance(accounts.maker_ata_a) == before.ledger.balance(
                accounts.maker_ata_a,
            )
            &&& after.records == before.records
            &&& !after.ledger.tokens.contains_key(accounts.vault)
        }),
{
    let opened = before.open(accounts, seed, amount_a, amount_b, derived)->Ok_0;
    let after = opened.cancel(refunding, refunding_derived)->Ok_0;
    law_open_effect(before, accounts, seed, amount_a, amount_b, derived);
    law_cancel_effect(opened, refunding, refunding_derived);
    assert(after.records =~= before.records);
}

} // verus!
