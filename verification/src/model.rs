//! The ledger as a mathematical value, and what each operation does to it.

use vstd::prelude::*;
use crate::error::Error;
use crate::policy::{clamp_add, clamp_sub};

verus! {

/// The state of a ledger: who owns it, and the balance of every account
/// that has an entry. Accounts are named by their bytes.
pub struct Ledger {
    pub owner: Seq<u8>,
    pub balances: Map<Seq<u8>, u32>,
}

impl Ledger {
    /// The ledger that `caller` has just made: no entries, `caller` owns it.
    pub open spec fn new(caller: Seq<u8>) -> Ledger {
        Ledger { owner: caller, balances: Map::empty() }
    }

    /// The balance of `account`: its entry, or zero where it has none.
    pub open spec fn get_coins(self, account: Seq<u8>) -> u32 {
        if self.balances.contains_key(account) {
            self.balances[account]
        } else {
            0
        }
    }

    /// Whether `caller` may change balances.
    pub open spec fn authorizes(self, caller: Seq<u8>) -> bool {
        caller == self.owner
    }

    /// This ledger with the entry of `account` set to `balance`.
    pub open spec fn with_balance(self, account: Seq<u8>, balance: u32) -> Ledger {
        Ledger { owner: self.owner, balances: self.balances.insert(account, balance) }
    }

    /// The balance that `account` has after `amount` is added to it.
    pub open spec fn credited(self, account: Seq<u8>, amount: u32) -> u32 {
        clamp_add(self.get_coins(account), amount)
    }

    /// The balance that `account` has after `amount` is taken from it.
    pub open spec fn debited(self, account: Seq<u8>, amount: u32) -> u32 {
        clamp_sub(self.get_coins(account), amount)
    }

    /// `caller` adds `amount` to `account`: the ledger afterwards, and what
    /// the caller is told.
    pub open spec fn add_coins(self, caller: Seq<u8>, account: Seq<u8>, amount: u32) -> (
        Ledger,
        Result<u32, Error>,
    ) {
        if self.authorizes(caller) {
            let balance = self.credited(account, amount);
            (self.with_balance(account, balance), Ok(balance))
        } else {
            (self, Err(Error::Unauthorized))
        }
    }

    /// `caller` adds one to `account`.
    pub open spec fn increment(self, caller: Seq<u8>, account: Seq<u8>) -> (
        Ledger,
        Result<u32, Error>,
    ) {
        if self.authorizes(caller) {
            let balance = self.credited(account, 1);
            (self.with_balance(account, balance), Ok(balance))
        } else {
            (self, Err(Error::Unauthorized))
        }
    }

    /// `caller` takes one from `account`.
    pub open spec fn decrement(self, caller: Seq<u8>, account: Seq<u8>) -> (
        Ledger,
        Result<u32, Error>,
    ) {
        if self.authorizes(caller) {
            let balance = self.debited(account, 1);
            (self.with_balance(account, balance), Ok(balance))
        } else {
            (self, Err(Error::Unauthorized))
        }
    }

    /// Whether a balance can be stored for `account`: it has an entry
    /// already, or there are fewer entries than the largest `u32`, which is
    /// as far as the store counts them.
    pub open spec fn has_room(self, account: Seq<u8>) -> bool {
        self.balances.contains_key(account) || self.balances.dom().len() < u32::MAX
    }
}

} // verus!
