//! The ledger itself: an owner, a balance store, and the operations on them.
//!
//! Who is calling is an argument of every operation that needs to know: the
//! ledger does not ask its surroundings.

use vstd::prelude::*;
use crate::account::AccountId;
use crate::error::Error;
use crate::model::Ledger;
use crate::policy::{credit, debit};
use crate::store::{store_get, store_insert, store_len, store_new, stored_balances, BalanceStore};

verus! {

/// A ledger of coins: one balance per account, changed by its owner only.
///
/// Its view is the [`Ledger`] that it stands for.
pub struct Koins {
    owner: AccountId,
    store: BalanceStore,
}

impl View for Koins {
    type V = Ledger;

    closed spec fn view(&self) -> Ledger {
        Ledger { owner: self.owner@, balances: stored_balances(self.store) }
    }
}

impl Koins {
    /// Every ledger has finitely many entries.
    #[verifier::type_invariant]
    spec fn well_formed(self) -> bool {
        self@.balances.dom().finite()
    }

    /// Makes a ledger without entries, owned by `caller`.
    pub fn new(caller: AccountId) -> (ledger: Koins)
        ensures
            ledger@ == Ledger::new(caller@),
    {
        Koins { owner: caller, store: store_new() }
    }

    /// The owner of this ledger.
    pub fn owner(&self) -> (owner: AccountId)
        ensures
            owner@ == self@.owner,
    {
        self.owner
    }

    /// Lets the owner through and refuses everybody else.
    pub fn ensure_ownership(&self, caller: AccountId) -> (res: Result<(), Error>)
        ensures
            res is Ok <==> self@.authorizes(caller@),
            res is Err ==> res == Err::<(), Error>(Error::Unauthorized),
    {
        if self.owner == caller {
            Ok(())
        } else {
            Err(Error::Unauthorized)
        }
    }

    /// The balance of `account`; zero for an account without an entry.
    /// Anybody may ask.
    pub fn get_coins(&self, account: AccountId) -> (balance: u32)
        ensures
            balance == self@.get_coins(account@),
    {
        match store_get(&self.store, account.to_bytes()) {
            Some(balance) => balance,
            None => 0,
        }
    }

    /// Adds `coins` to the balance of `account`, up to the largest `u32`,
    /// and returns the new balance. Only the owner may do so: anybody else
    /// is refused, and the ledger stays as it was.
    ///
    /// The owner's call needs room for `account` in the store, which
    /// [`Koins::has_room`] tests.
    pub fn add_coins(
        &mut self,
        caller: AccountId,
        account: AccountId,
        coins: u32,
    ) -> (res: Result<u32, Error>)
        requires
            old(self)@.authorizes(caller@) ==> old(self)@.has_room(account@),
        ensures
            (final(self)@, res) == old(self)@.add_coins(caller@, account@, coins),
    {
        proof {
            use_type_invariant(&*self);
        }
        self.ensure_ownership(caller)?;
        let balance = credit(self.get_coins(account), coins);
        store_insert(&mut self.store, account.to_bytes(), balance);
        Ok(balance)
    }

    /// Adds one coin to the balance of `account`, as `add_coins` would, and
    /// returns the new balance. Only the owner may do so, and needs room for
    /// `account` in the store.
    pub fn increment(&mut self, caller: AccountId, account: AccountId) -> (res: Result<u32, Error>)
        requires
            old(self)@.authorizes(caller@) ==> old(self)@.has_room(account@),
        ensures
            (final(self)@, res) == old(self)@.increment(caller@, account@),
    {
        self.add_coins(caller, account, 1)
    }

    /// Takes one coin from the balance of `account`, which stays at zero if
    /// it is there already, and returns the new balance. An account without
    /// an entry gets one of zero. Only the owner may do so, and needs room
    /// for `account` in the store.
    pub fn decrement(&mut self, caller: AccountId, account: AccountId) -> (res: Result<u32, Error>)
        requires
            old(self)@.authorizes(caller@) ==> old(self)@.has_room(account@),
        ensures
            (final(self)@, res) == old(self)@.decrement(caller@, account@),
    {
        proof {
            use_type_invariant(&*self);
        }
        self.ensure_ownership(caller)?;
        let balance = debit(self.get_coins(account), 1);
        store_insert(&mut self.store, account.to_bytes(), balance);
        Ok(balance)
    }

    /// Whether the store can take a balance for `account`. It cannot once
    /// it holds as many entries as it can count, the largest `u32`, and
    /// `account` is not among them.
    pub fn has_room(&self, account: AccountId) -> (room: bool)
        ensures
            room == self@.has_room(account@),
    {
        proof {
            use_type_invariant(self);
        }
        match store_get(&self.store, account.to_bytes()) {
            Some(_) => true,
            None => store_len(&self.store) < u32::MAX,
        }
    }

    /// `add_coins` for a caller who does not know whether there is room:
    /// `None`, and the ledger as it was, where the owner calls and there is
    /// no room for `account`; in every other case what `add_coins` does and
    /// returns.
    pub fn checked_add_coins(
        &mut self,
        caller: AccountId,
        account: AccountId,
        coins: u32,
    ) -> (res: Option<Result<u32, Error>>)
        ensures
            res is None <==> old(self)@.authorizes(caller@) && !old(self)@.has_room(account@),
            res is None ==> final(self)@ == old(self)@,
            res matches Some(told) ==> (final(self)@, told) == old(self)@.add_coins(
                caller@,
                account@,
                coins,
            ),
    {
        if self.ensure_ownership(caller).is_err() || self.has_room(account) {
            Some(self.add_coins(caller, account, coins))
        } else {
            None
        }
    }

    /// `increment` for a caller who does not know whether there is room:
    /// `None`, and the ledger as it was, where the owner calls and there is
    /// no room for `account`; in every other case what `increment` does and
    /// returns.
    pub fn checked_increment(
        &mut self,
        caller: AccountId,
        account: AccountId,
    ) -> (res: Option<Result<u32, Error>>)
        ensures
            res is None <==> old(self)@.authorizes(caller@) && !old(self)@.has_room(account@),
            res is None ==> final(self)@ == old(self)@,
            res matches Some(told) ==> (final(self)@, told) == old(self)@.increment(
                caller@,
                account@,
            ),
    {
        if self.ensure_ownership(caller).is_err() || self.has_room(account) {
            Some(self.increment(caller, account))
        } else {
            None
        }
    }

    /// `decrement` for a caller who does not know whether there is room:
    /// `None`, and the ledger as it was, where the owner calls and there is
    /// no room for `account`; in every other case what `decrement` does and
    /// returns.
    pub fn checked_decrement(
        &mut self,
        caller: AccountId,
        account: AccountId,
    ) -> (res: Option<Result<u32, Error>>)
        ensures
            res is None <==> old(self)@.authorizes(caller@) && !old(self)@.has_room(account@),
            res is None ==> final(self)@ == old(self)@,
            res matches Some(told) ==> (final(self)@, told) == old(self)@.decrement(
                caller@,
                account@,
            ),
    {
        if self.ensure_ownership(caller).is_err() || self.has_room(account) {
            Some(self.decrement(caller, account))
        } else {
            None
        }
    }
}

} // verus!
