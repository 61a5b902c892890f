//! The balance store: the storage hash map of `ink_storage`, which keeps one
//! 32-bit balance per account.
//!
//! Nothing in this file is proved. The rest of the library reasons about the
//! store through [`stored_balances`] and the contracts of the four functions
//! below alone.

use vstd::prelude::*;

verus! {

/// A storage hash map from account identities to balances.
///
/// The map is made empty by [`store_new`] and changes through
/// [`store_insert`] only, so it never reads entries from contract storage.
#[verifier::external_body]
pub struct BalanceStore {
    entries: ink_storage::collections::HashMap<ink_env::AccountId, u32>,
}

/// The entries of a store: each account that was ever inserted, by its
/// bytes, with the balance inserted last.
pub uninterp spec fn stored_balances(store: BalanceStore) -> Map<Seq<u8>, u32>;

/// `ink_storage::collections::HashMap::new`: a map without entries.
#[verifier::external_body]
pub(crate) fn store_new() -> (store: BalanceStore)
    ensures
        stored_balances(store) =~= Map::empty(),
{
    BalanceStore { entries: ink_storage::collections::HashMap::new() }
}

/// `ink_storage::collections::HashMap::len`: the number of entries.
#[verifier::external_body]
pub(crate) fn store_len(store: &BalanceStore) -> (n: u32)
    requires
        stored_balances(*store).dom().finite(),
    ensures
        n == stored_balances(*store).dom().len(),
{
    store.entries.len()
}

/// `ink_storage::collections::HashMap::get`: the balance stored for
/// `account`, if there is an entry for it. The store is left as it is.
#[verifier::external_body]
pub(crate) fn store_get(store: &BalanceStore, account: [u8; 32]) -> (found: Option<u32>)
    ensures
        found == (if stored_balances(*store).contains_key(account@) {
            Some(stored_balances(*store)[account@])
        } else {
            None
        }),
{
    store.entries.get(&ink_env::AccountId::from(account)).copied()
}

/// `ink_storage::collections::HashMap::insert`: stores `balance` for
/// `account`, in place of an earlier entry or as a new one, leaves every
/// other entry alone, and returns the balance that was replaced.
///
/// The map counts its entries in a `u32`, and a new entry beyond that range
/// overflows the count: such a call is left out. Any other call returns
/// without unwinding.
#[verifier::external_body]
pub(crate) fn store_insert(store: &mut BalanceStore, account: [u8; 32], balance: u32) -> (replaced: Option<u32>)
    requires
        stored_balances(*old(store)).dom().finite(),
        stored_balances(*old(store)).contains_key(account@)
            || stored_balances(*old(store)).dom().len() < u32::MAX,
    ensures
        stored_balances(*final(store)) == stored_balances(*old(store)).insert(account@, balance),
        replaced == (if stored_balances(*old(store)).contains_key(account@) {
            Some(stored_balances(*old(store))[account@])
        } else {
            None
        }),
    no_unwind
{
    store.entries.insert(ink_env::AccountId::from(account), balance)
}

} // verus!
