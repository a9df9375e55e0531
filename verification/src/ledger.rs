//! The ledger that holds asset balances and storage deposits, with its operations.

use crate::address::{Address, Principal};
use crate::address_map::AddressMap;
use crate::error::{outcome, EscrowError};
use vstd::prelude::*;

verus! {

/// An asset-holding account: a balance of one asset type under one authority.
#[derive(Clone, Copy, Debug, PartialEq, Eq)]
pub struct TokenAccount {
    /// The asset type held.
    pub mint: Address,
    /// The authority that alone may debit or close the account.
    pub owner: Address,
    /// The balance.
    pub amount: u64,
}

/// The ledger as a mathematical value.
pub struct LedgerView {
    /// The asset-holding accounts that exist, by address.
    pub tokens: Map<Address, TokenAccount>,
    /// The native balance at every address; an address never funded holds 0. Storage
    /// deposits are native balances held at the address of what is stored.
    pub lamports: Map<Address, u64>,
    /// The storage deposit that creating an asset-holding account takes from its payer.
    pub account_deposit: u64,
}

impl LedgerView {
    /// The asset balance at `address`; 0 where no account exists.
    pub open spec fn balance(self, address: Address) -> u64 {
        if self.tokens.contains_key(address) {
            self.tokens[address].amount
        } else {
            0
        }
    }

    /// Moves `amount` of native balance from `from` to `to`.
    pub open spec fn pay(self, from: Principal, to: Address, amount: u64) -> Result<
        LedgerView,
        EscrowError,
    > {
        if !from.is_signer {
            Err(EscrowError::AuthenticationFailure)
        } else if self.lamports[from.address] < amount {
            Err(EscrowError::InsufficientBalance)
        } else if from.address == to {
            Ok(self)
        } else if self.lamports[to] + amount > u64::MAX {
            Err(EscrowError::InsufficientBalance)
        } else {
            Ok(
                LedgerView {
                    lamports: self.lamports.insert(
                        from.address,
                        (self.lamports[from.address] - amount) as u64,
                    ).insert(to, (self.lamports[to] + amount) as u64),
                    ..self
                },
            )
        }
    }

    /// Creates an empty account for `mint` under `owner` at `address`; `payer` funds its
    /// storage deposit.
    pub open spec fn create(
        self,
        address: Address,
        mint: Address,
        owner: Address,
        payer: Principal,
    ) -> Result<LedgerView, EscrowError> {
        if self.tokens.contains_key(address) {
            Err(EscrowError::AlreadyExists)
        } else {
            match self.pay(payer, address, self.account_deposit) {
                Err(e) => Err(e),
                Ok(paid) => Ok(
                    LedgerView {
                        tokens: paid.tokens.insert(address, TokenAccount { mint, owner, amount: 0 }),
                        ..paid
                    },
                ),
            }
        }
    }

    /// Creates the account unless one for the same asset and authority is already there, in
    /// which case nothing changes.
    pub open spec fn create_if_absent(
        self,
        address: Address,
        mint: Address,
        owner: Address,
        payer: Principal,
    ) -> Result<LedgerView, EscrowError> {
        if self.tokens.contains_key(address) {
            if self.tokens[address].mint == mint && self.tokens[address].owner == owner {
                Ok(self)
            } else {
                Err(EscrowError::AuthorizationMismatch)
            }
        } else {
            self.create(address, mint, owner, payer)
        }
    }

    /// Adds `amount` of newly issued asset to the account at `address`.
    pub open spec fn issue(self, address: Address, amount: u64) -> Result<
        LedgerView,
        EscrowError,
    > {
        if !self.tokens.contains_key(address) {
            Err(EscrowError::NotFound)
        } else if self.tokens[address].amount + amount > u64::MAX {
            Err(EscrowError::InsufficientBalance)
        } else {
            Ok(
                LedgerView {
                    tokens: self.tokens.insert(
                        address,
                        TokenAccount {
                            amount: (self.tokens[address].amount + amount) as u64,
                            ..self.tokens[address]
                        },
                    ),
                    ..self
                },
            )
        }
    }

    /// Adds `amount` of native balance at `address`.
    pub open spec fn fund(self, address: Address, amount: u64) -> Result<
        LedgerView,
        EscrowError,
    > {
        if self.lamports[address] + amount > u64::MAX {
            Err(EscrowError::InsufficientBalance)
        } else {
            Ok(
                LedgerView {
                    lamports: self.lamports.insert(
                        address,
                        (self.lamports[address] + amount) as u64,
                    ),
                    ..self
                },
            )
        }
    }

    /// Moves `amount` of asset `mint` from the account `from` to the account `to`, on the
    /// word of `authority`.
    pub open spec fn transfer(
        self,
        from: Address,
        to: Address,
        mint: Address,
        amount: u64,
        authority: Principal,
    ) -> Result<LedgerView, EscrowError> {
        if !authority.is_signer {
            Err(EscrowError::AuthenticationFailure)
        } else if !self.tokens.contains_key(from) || !self.tokens.contains_key(to) {
            Err(EscrowError::NotFound)
        } else if self.tokens[from].mint != mint || self.tokens[to].mint != mint {
            Err(EscrowError::AuthorizationMismatch)
        } else if self.tokens[from].owner != authority.address {
            Err(EscrowError::AuthorizationMismatch)
        } else if self.tokens[from].amount < amount {
            Err(EscrowError::InsufficientBalance)
        } else if from == to {
            Ok(self)
        } else if self.tokens[to].amount + amount > u64::MAX {
            Err(EscrowError::InsufficientBalance)
        } else {
            Ok(
                LedgerView {
                    tokens: self.tokens.insert(
                        from,
                        TokenAccount {
                            amount: (self.tokens[from].amount - amount) as u64,
                            ..self.tokens[from]
                        },
                    ).insert(
                        to,
                        TokenAccount {
                            amount: (self.tokens[to].amount + amount) as u64,
                            ..self.tokens[to]
                        },
                    ),
                    ..self
                },
            )
        }
    }

    /// Removes the empty account at `account` and hands all native balance held at its
    /// address to `destination`.
    pub open spec fn close(self, account: Address, destination: Address, authority: Principal) -> Result<
        LedgerView,
        EscrowError,
    > {
        if !authority.is_signer {
            Err(EscrowError::AuthenticationFailure)
        } else if !self.tokens.contains_key(account) {
            Err(EscrowError::NotFound)
        } else if self.tokens[account].owner != authority.address || account == destination {
            Err(EscrowError::AuthorizationMismatch)
        } else if self.tokens[account].amount != 0 {
            Err(EscrowError::InsufficientBalance)
        } else if self.lamports[destination] + self.lamports[account] > u64::MAX {
            Err(EscrowError::InsufficientBalance)
        } else {
            Ok(
                LedgerView {
                    tokens: self.tokens.remove(account),
                    lamports: self.lamports.insert(
                        destination,
                        (self.lamports[destination] + self.lamports[account]) as u64,
                    ).insert(account, 0),
                    ..self
                },
            )
        }
    }

    /// Moves the whole balance of `vault`, as it stands, to `to`, then closes `vault` in
    /// favour of `destination`.
    pub open spec fn sweep_and_close(
        self,
        vault: Address,
        to: Address,
        destination: Address,
        mint: Address,
        authority: Principal,
    ) -> Result<LedgerView, EscrowError> {
        match self.transfer(vault, to, mint, self.balance(vault), authority) {
            Err(e) => Err(e),
            Ok(moved) => moved.close(vault, destination, authority),
        }
    }
}

/// The ledger: asset-holding accounts and native balances, with the operations that move
/// them. Every operation either applies in full or reports an error and changes nothing.
pub struct Ledger {
    tokens: AddressMap<TokenAccount>,
    lamports: AddressMap<u64>,
    account_deposit: u64,
}

impl Ledger {
    pub closed spec fn view(&self) -> LedgerView {
        LedgerView {
            tokens: self.tokens@,
            lamports: Map::total(
                |a: Address|
                    if self.lamports@.contains_key(a) {
                        self.lamports@[a]
                    } else {
                        0u64
                    },
            ),
            account_deposit: self.account_deposit,
        }
    }

    /// A ledger with no accounts and no balances.
    pub fn new(account_deposit: u64) -> (ledger: Ledger)
        ensures
            ledger@.tokens == Map::<Address, TokenAccount>::empty(),
            forall|a: Address| ledger@.lamports[a] == 0,
            ledger@.lamports.dom() == Set::<Address>::full(),
            ledger@.account_deposit == account_deposit,
    {
        let ledger = Ledger { tokens: AddressMap::new(), lamports: AddressMap::new(), account_deposit };
        proof {
            assert(ledger@.lamports.dom() =~= Set::<Address>::full());
        }
        ledger
    }

    /// A copy of the ledger as it stands.
    pub fn snapshot(&self) -> (copy: Ledger)
        ensures
            copy@ == self@,
    {
        let copy = Ledger {
            tokens: self.tokens.snapshot(),
            lamports: self.lamports.snapshot(),
            account_deposit: self.account_deposit,
        };
        proof {
            assert(copy@.lamports =~= self@.lamports);
        }
        copy
    }

    /// The account at `address`, if one exists.
    pub fn account(&self, address: &Address) -> (r: Option<TokenAccount>)
        ensures
            r == (if self@.tokens.contains_key(*address) {
                Some(self@.tokens[*address])
            } else {
                None
            }),
    {
        self.tokens.get(address)
    }

    /// The native balance held at `address`.
    pub fn lamports(&self, address: &Address) -> (r: u64)
        ensures
            r == self@.lamports[*address],
    {
        match self.lamports.get(address) {
            Some(v) => v,
            None => 0,
        }
    }

    /// The storage deposit taken for each account created.
    pub fn account_deposit(&self) -> (r: u64)
        ensures
            r == self@.account_deposit,
    {
        self.account_deposit
    }

    /// Moves `amount` of native balance from `from`, who must have signed, to `to`.
    pub fn pay(&mut self, from: &Principal, to: &Address, amount: u64) -> (r: Result<
        (),
        EscrowError,
    >)
        ensures
            old(self)@.pay(*from, *to, amount) == outcome(r, final(self)@),
            r is Err ==> final(self)@ == old(self)@,
    {
        if !from.is_signer {
            return Err(EscrowError::AuthenticationFailure);
        }
        let held = self.lamports(&from.address);
        if held < amount {
            return Err(EscrowError::InsufficientBalance);
        }
        if from.address == *to {
            return Ok(());
        }
        let there = self.lamports(to);
        if there > u64::MAX - amount {
            return Err(EscrowError::InsufficientBalance);
        }
        self.lamports.insert(from.address, held - amount);
        self.lamports.insert(*to, there + amount);
        proof {
            assert(final(self)@.lamports =~= old(self)@.pay(*from, *to, amount)->Ok_0.lamports);
        }
        Ok(())
    }

    /// Adds `amount` of native balance at `address`.
    pub fn fund(&mut self, address: &Address, amount: u64) -> (r: Result<(), EscrowError>)
        ensures
            old(self)@.fund(*address, amount) == outcome(r, final(self)@),
            r is Err ==> final(self)@ == old(self)@,
    {
        let there = self.lamports(address);
        if there > u64::MAX - amount {
            return Err(EscrowError::InsufficientBalance);
        }
        self.lamports.insert(*address, there + amount);
        proof {
            assert(final(self)@.lamports =~= old(self)@.fund(*address, amount)->Ok_0.lamports);
        }
        Ok(())
    }

    /// Creates an empty account for `mint` under `owner` at `address`, which must be free;
    /// `payer` funds the storage deposit.
    pub fn create(&mut self, address: &Address, mint: &Address, owner: &Address, payer: &Principal) -> (r:
        Result<(), EscrowError>)
        ensures
            old(self)@.create(*address, *mint, *owner, *payer) == outcome(r, final(self)@),
            r is Err ==> final(self)@ == old(self)@,
    {
        if self.tokens.contains(address) {
            return Err(EscrowError::AlreadyExists);
        }
        let deposit = self.account_deposit;
        match self.pay(payer, address, deposit) {
            Err(e) => Err(e),
            Ok(()) => {
                self.tokens.insert(*address, TokenAccount { mint: *mint, owner: *owner, amount: 0 });
                Ok(())
            },
        }
    }

    /// Creates the account at `address` unless one for the same asset and authority is
    /// already there.
    pub fn create_if_absent(
        &mut self,
        address: &Address,
        mint: &Address,
        owner: &Address,
        payer: &Principal,
    ) -> (r: Result<(), EscrowError>)
        ensures
            old(self)@.create_if_absent(*address, *mint, *owner, *payer) == outcome(
                r,
                final(self)@,
            ),
            r is Err ==> final(self)@ == old(self)@,
    {
        match self.tokens.get(address) {
            Some(existing) => {
                if existing.mint == *mint && existing.owner == *owner {
                    Ok(())
                } else {
                    Err(EscrowError::AuthorizationMismatch)
                }
            },
            None => self.create(address, mint, owner, payer),
        }
    }

    /// Adds `amount` of newly issued asset to the account at `address`.
    pub fn issue(&mut self, address: &Address, amount: u64) -> (r: Result<(), EscrowError>)
        ensures
            old(self)@.issue(*address, amount) == outcome(r, final(self)@),
            r is Err ==> final(self)@ == old(self)@,
    {
        match self.tokens.get(address) {
            None => Err(EscrowError::NotFound),
            Some(account) => {
                if account.amount > u64::MAX - amount {
                    return Err(EscrowError::InsufficientBalance);
                }
                self.tokens.insert(
                    *address,
                    TokenAccount {
                        mint: account.mint,
                        owner: account.owner,
                        amount: account.amount + amount,
                    },
                );
                Ok(())
            },
        }
    }

    /// Moves `amount` of asset `mint` from `from` to `to`. `authority` must have signed and
    /// be the authority of `from`; both accounts must exist and hold `mint`.
    pub fn transfer(
        &mut self,
        from: &Address,
        to: &Address,
        mint: &Address,
        amount: u64,
        authority: &Principal,
    ) -> (r: Result<(), EscrowError>)
        ensures
            old(self)@.transfer(*from, *to, *mint, amount, *authority) == outcome(
                r,
                final(self)@,
            ),
            r is Err ==> final(self)@ == old(self)@,
    {
        if !authority.is_signer {
            return Err(EscrowError::AuthenticationFailure);
        }
        let source = match self.tokens.get(from) {
            Some(a) => a,
            None => {
                return Err(EscrowError::NotFound);
            },
        };
        let target = match self.tokens.get(to) {
            Some(a) => a,
            None => {
                return Err(EscrowError::NotFound);
            },
        };
        if source.mint != *mint || target.mint != *mint {
            return Err(EscrowError::AuthorizationMismatch);
        }
        if source.owner != authority.address {
            return Err(EscrowError::AuthorizationMismatch);
        }
        if source.amount < amount {
            return Err(EscrowError::InsufficientBalance);
        }
        if *from == *to {
            return Ok(());
        }
        if target.amount > u64::MAX - amount {
            return Err(EscrowError::InsufficientBalance);
        }
        self.tokens.insert(
            *from,
            TokenAccount { mint: source.mint, owner: source.owner, amount: source.amount - amount },
        );
        self.tokens.insert(
            *to,
            TokenAccount { mint: target.mint, owner: target.owner, amount: target.amount + amount },
        );
        Ok(())
    }

    /// Removes the account at `account`, which must be empty, and hands all native balance
    /// held at its address to `destination`.
    pub fn close(&mut self, account: &Address, destination: &Address, authority: &Principal) -> (r:
        Result<(), EscrowError>)
        ensures
            old(self)@.close(*account, *destination, *authority) == outcome(r, final(self)@),
            r is Err ==> final(self)@ == old(self)@,
    {
        if !authority.is_signer {
            return Err(EscrowError::AuthenticationFailure);
        }
        let closing = match self.tokens.get(account) {
            Some(a) => a,
            None => {
                return Err(EscrowError::NotFound);
            },
        };
        if closing.owner != authority.address || *account == *destination {
            return Err(EscrowError::AuthorizationMismatch);
        }
        if closing.amount != 0 {
            return Err(EscrowError::InsufficientBalance);
        }
        let deposit = self.lamports(account);
        let there = self.lamports(destination);
        if there > u64::MAX - deposit {
            return Err(EscrowError::InsufficientBalance);
        }
        self.tokens.remove(account);
        self.lamports.insert(*destination, there + deposit);
        self.lamports.insert(*account, 0);
        proof {
            assert(final(self)@.lamports =~= old(self)@.close(
                *account,
                *destination,
                *authority,
            )->Ok_0.lamports);
        }
        Ok(())
    }

    /// Moves the whole balance of `vault`, as it stands, to `to`, then closes `vault` in
    /// favour of `destination`.
    pub fn sweep_and_close(
        &mut self,
        vault: &Address,
        to: &Address,
        destination: &Address,
        mint: &Address,
        authority: &Principal,
    ) -> (r: Result<(), EscrowError>)
        ensures
            old(self)@.sweep_and_close(*vault, *to, *destination, *mint, *authority) == outcome(
                r,
                final(self)@,
            ),
            r is Err ==> final(self)@ == old(self)@,
    {
        let saved = self.snapshot();
        let held = match self.tokens.get(vault) {
            Some(a) => a.amount,
            None => 0,
        };
        match self.transfer(vault, to, mint, held, authority) {
            Err(e) => Err(e),
            Ok(()) => match self.close(vault, destination, authority) {
                Ok(()) => Ok(()),
                Err(e) => {
                    *self = saved;
                    Err(e)
                },
            },
        }
    }
}

} // verus!
