//! What holds of the ledger whatever its state: the laws that the
//! operations obey, proved of the model that their contracts are stated in.

use vstd::prelude::*;
use vstd::math::{max, min};
use crate::error::Error;
use crate::model::Ledger;

verus! {

/// In a ledger that has just been made, every account has a balance of
/// zero.
pub proof fn fresh_ledger_reads_zero(owner: Seq<u8>, account: Seq<u8>)
    ensures
        Ledger::new(owner).get_coins(account) == 0,
{
}

/// An account without an entry has a balance of zero, and it gets an entry
/// only by a change that the owner makes to that very account: whatever is
/// done to another account leaves it without one.
pub proof fn untouched_account_reads_zero(
    ledger: Ledger,
    caller: Seq<u8>,
    other: Seq<u8>,
    amount: u32,
    account: Seq<u8>,
)
    requires
        !ledger.balances.contains_key(account),
        other != account,
    ensures
        ledger.get_coins(account) == 0,
        !ledger.add_coins(caller, other, amount).0.balances.contains_key(account),
        !ledger.increment(caller, other).0.balances.contains_key(account),
        !ledger.decrement(caller, other).0.balances.contains_key(account),
{
}

/// When the owner adds `amount` to an account with balance `b`, the call
/// returns the smaller of `b + amount` and the largest `u32`, and that is
/// the balance which is read afterwards.
pub proof fn add_coins_saturates_and_is_read_back(
    ledger: Ledger,
    caller: Seq<u8>,
    account: Seq<u8>,
    amount: u32,
)
    requires
        ledger.authorizes(caller),
    ensures
        ({
            let before = ledger.get_coins(account);
            let (after, told) = ledger.add_coins(caller, account, amount);
            &&& told matches Ok(balance)
            &&& balance == min(before + amount, u32::MAX as int)
            &&& after.get_coins(account) == balance
        }),
{
}

/// `increment` is `add_coins` with an amount of one: the same ledger
/// afterwards and the same answer, for the owner and for anybody else, at
/// every balance, the largest one included.
pub proof fn increment_is_add_coins_of_one(ledger: Ledger, caller: Seq<u8>, account: Seq<u8>)
    ensures
        ledger.increment(caller, account) == ledger.add_coins(caller, account, 1),
        ledger.authorizes(caller) && ledger.get_coins(account) == u32::MAX
            ==> ledger.increment(caller, account).1 == Ok::<u32, Error>(u32::MAX),
{
}

/// When the owner decrements an account, a balance of zero stays zero and
/// a balance `b > 0` becomes `b - 1`; that is what the call returns and
/// what is read afterwards.
pub proof fn decrement_stops_at_zero(ledger: Ledger, caller: Seq<u8>, account: Seq<u8>)
    requires
        ledger.authorizes(caller),
    ensures
        ({
            let before = ledger.get_coins(account);
            let (after, told) = ledger.decrement(caller, account);
            &&& told matches Ok(balance)
            &&& before == 0 ==> balance == 0
            &&& before > 0 ==> balance == before - 1
            &&& balance == max(before - 1, 0)
            &&& after.get_coins(account) == balance
        }),
{
}

/// A caller who is not the owner changes nothing: each of the three
/// changing operations answers `Unauthorized` and leaves the ledger, and so
/// the balance of every account, as it was.
pub proof fn stranger_changes_nothing(
    ledger: Ledger,
    caller: Seq<u8>,
    account: Seq<u8>,
    amount: u32,
)
    requires
        !ledger.authorizes(caller),
    ensures
        ledger.add_coins(caller, account, amount) == (ledger, Err::<u32, Error>(Error::Unauthorized)),
        ledger.increment(caller, account) == (ledger, Err::<u32, Error>(Error::Unauthorized)),
        ledger.decrement(caller, account) == (ledger, Err::<u32, Error>(Error::Unauthorized)),
        forall|any: Seq<u8>| #[trigger]
            ledger.add_coins(caller, account, amount).0.get_coins(any) == ledger.get_coins(any),
        forall|any: Seq<u8>| #[trigger]
            ledger.increment(caller, account).0.get_coins(any) == ledger.get_coins(any),
        forall|any: Seq<u8>| #[trigger]
            ledger.decrement(caller, account).0.get_coins(any) == ledger.get_coins(any),
{
}

/// A change to one account leaves the balance of every other account as it
/// was, whoever makes it.
pub proof fn other_balances_stay(
    ledger: Ledger,
    caller: Seq<u8>,
    account: Seq<u8>,
    amount: u32,
    other: Seq<u8>,
)
    requires
        other != account,
    ensures
        ledger.add_coins(caller, account, amount).0.get_coins(other) == ledger.get_coins(other),
        ledger.increment(caller, account).0.get_coins(other) == ledger.get_coins(other),
        ledger.decrement(caller, account).0.get_coins(other) == ledger.get_coins(other),
{
}

/// No operation changes the owner, and none removes an entry.
pub proof fn owner_and_entries_stay(
    ledger: Ledger,
    caller: Seq<u8>,
    account: Seq<u8>,
    amount: u32,
)
    ensures
        ledger.add_coins(caller, account, amount).0.owner == ledger.owner,
        ledger.increment(caller, account).0.owner == ledger.owner,
        ledger.decrement(caller, account).0.owner == ledger.owner,
        ledger.balances.dom().subset_of(ledger.add_coins(caller, account, amount).0.balances.dom()),
        ledger.balances.dom().subset_of(ledger.increment(caller, account).0.balances.dom()),
        ledger.balances.dom().subset_of(ledger.decrement(caller, account).0.balances.dom()),
{
}

} // verus!
