//! What holds of every sequence of reads and overrides on the forked state cache.
//!
//! A history is a sequence of accesses together with the replies they got and
//! the states the cache went through. Each access is one call of a method of
//! `ForkedStateCache`, and `step` is what that method ensures. The lemmas below
//! hold of every history, whatever the remote node answered along the way.

use crate::backend::{marked_absent, stored_account};
use crate::cache::{account_read, account_written, reported, slot_read, slot_written, CacheView};
use crate::primitives::{empty_code_digest, zero_bytes, AccountView};
use vstd::prelude::*;

verus! {

/// One access to the cache.
pub enum Access {
    ReadAccount { address: Seq<u8> },
    ReadSlot { address: Seq<u8>, index: Seq<u8> },
    WriteAccount { address: Seq<u8>, account: AccountView },
    WriteSlot { address: Seq<u8>, index: Seq<u8>, value: Seq<u8> },
}

/// What an access came back with.
pub enum Reply {
    /// A read of an account returned it.
    Account(AccountView),
    /// A read of a slot returned its value.
    Value(Seq<u8>),
    /// An override took effect.
    Done,
    /// The remote node was needed and failed.
    Failed,
}

/// Whether the access, answered with the reply, can take the cache from `pre` to `post`.
pub open spec fn step(pre: CacheView, access: Access, reply: Reply, post: CacheView) -> bool {
    match access {
        Access::ReadAccount { address } => match reply {
            Reply::Account(found) => account_read(pre, address, Some(found), post),
            Reply::Failed => account_read(pre, address, None, post),
            _ => false,
        },
        Access::ReadSlot { address, index } => match reply {
            Reply::Value(value) => slot_read(pre, address, index, Some(value), post),
            Reply::Failed => slot_read(pre, address, index, None, post),
            _ => false,
        },
        Access::WriteAccount { address, account } => reply == Reply::Done && post == account_written(
            pre,
            address,
            account,
        ),
        Access::WriteSlot { address, index, value } => match reply {
            Reply::Done => slot_written(pre, address, index, value, true, post),
            Reply::Failed => slot_written(pre, address, index, value, false, post),
            _ => false,
        },
    }
}

/// Whether the access overrides the account at the address.
pub open spec fn overrides_account(access: Access, address: Seq<u8>) -> bool {
    access matches Access::WriteAccount { address: target, .. } && target == address
}

/// Whether the access overrides the slot.
pub open spec fn overrides_slot(access: Access, address: Seq<u8>, index: Seq<u8>) -> bool {
    access matches Access::WriteSlot { address: target, index: slot, .. } && target == address && slot == index
}

/// Whether the access at position `at` is a step from the state before it to the state after it.
pub open spec fn step_at(states: Seq<CacheView>, accesses: Seq<Access>, replies: Seq<Reply>, at: int) -> bool {
    step(states[at], accesses[at], replies[at], states[at + 1])
}

/// Whether the states, accesses and replies form a history: state `i` is the
/// cache before access `i`, state `i + 1` the cache after it.
pub open spec fn is_history(states: Seq<CacheView>, accesses: Seq<Access>, replies: Seq<Reply>) -> bool {
    &&& states.len() == accesses.len() + 1
    &&& replies.len() == accesses.len()
    &&& forall|at: int| 0 <= at < accesses.len() ==> #[trigger] step_at(states, accesses, replies, at)
}

/// An account in the overlay stays as it is under every access but an override of it.
pub proof fn lemma_step_keeps_account(pre: CacheView, access: Access, reply: Reply, post: CacheView, address: Seq<u8>)
    requires
        step(pre, access, reply, post),
        pre.accounts.contains_key(address),
        !overrides_account(access, address),
    ensures
        post.accounts.contains_key(address),
        post.accounts[address] == pre.accounts[address],
{
}

/// A slot that the overlay answers stays as it is under every access but an override of it.
pub proof fn lemma_step_keeps_slot(
    pre: CacheView,
    access: Access,
    reply: Reply,
    post: CacheView,
    address: Seq<u8>,
    index: Seq<u8>,
)
    requires
        step(pre, access, reply, post),
        pre.slots.contains_key((address, index)),
        !overrides_slot(access, address, index),
    ensures
        post.slots.contains_key((address, index)),
        post.slots[(address, index)] == pre.slots[(address, index)],
{
}

/// Over any stretch of a history without an override of the account, the
/// overlay's entry for it does not change.
pub proof fn lemma_account_kept(
    states: Seq<CacheView>,
    accesses: Seq<Access>,
    replies: Seq<Reply>,
    from: int,
    to: int,
    address: Seq<u8>,
)
    requires
        is_history(states, accesses, replies),
        0 <= from <= to <= accesses.len(),
        states[from].accounts.contains_key(address),
        forall|at: int| from <= at < to ==> !overrides_account(#[trigger] accesses[at], address),
    ensures
        states[to].accounts.contains_key(address),
        states[to].accounts[address] == states[from].accounts[address],
    decreases to - from,
{
    if from < to {
        lemma_account_kept(states, accesses, replies, from, to - 1, address);
        assert(step_at(states, accesses, replies, to - 1));
        lemma_step_keeps_account(states[to - 1], accesses[to - 1], replies[to - 1], states[to], address);
    }
}

/// Over any stretch of a history without an override of the slot, what the
/// overlay answers for it does not change.
pub proof fn lemma_slot_kept(
    states: Seq<CacheView>,
    accesses: Seq<Access>,
    replies: Seq<Reply>,
    from: int,
    to: int,
    address: Seq<u8>,
    index: Seq<u8>,
)
    requires
        is_history(states, accesses, replies),
        0 <= from <= to <= accesses.len(),
        states[from].slots.contains_key((address, index)),
        forall|at: int| from <= at < to ==> !overrides_slot(#[trigger] accesses[at], address, index),
    ensures
        states[to].slots.contains_key((address, index)),
        states[to].slots[(address, index)] == states[from].slots[(address, index)],
    decreases to - from,
{
    if from < to {
        lemma_slot_kept(states, accesses, replies, from, to - 1, address, index);
        assert(step_at(states, accesses, replies, to - 1));
        lemma_step_keeps_slot(states[to - 1], accesses[to - 1], replies[to - 1], states[to], address, index);
    }
}

/// An account is kept exactly as it is given unless its code hash is all
/// zero, or is the hash of empty code while it comes with code that is not empty.
pub proof fn lemma_settled_hash_is_kept(account: AccountView)
    requires
        account.code_hash != zero_bytes(32),
        account.code_hash == empty_code_digest() ==> account.code is None || account.code->0.len() == 0,
    ensures
        stored_account(account) == account,
{
}

/// An overridden account is what every later read of its address returns,
/// until it is overridden again, and such a read changes nothing: the remote
/// node has no part in it. The account comes back as the overlay keeps it,
/// which is as it was given but for the code hash (see `stored_code_hash`).
/// The one address left out is one that the overlay marks as not existing.
pub proof fn lemma_account_override_is_read_back(
    states: Seq<CacheView>,
    accesses: Seq<Access>,
    replies: Seq<Reply>,
    written: int,
    read: int,
    address: Seq<u8>,
    account: AccountView,
)
    requires
        is_history(states, accesses, replies),
        0 <= written < read < accesses.len(),
        accesses[written] == (Access::WriteAccount { address, account }),
        !marked_absent(states[written].accounts, address),
        accesses[read] == (Access::ReadAccount { address }),
        forall|at: int| written < at < read ==> !overrides_account(#[trigger] accesses[at], address),
    ensures
        replies[read] == Reply::Account(stored_account(account)),
        states[read + 1] == states[read],
{
    assert(step_at(states, accesses, replies, written));
    lemma_account_kept(states, accesses, replies, written + 1, read, address);
    assert(step_at(states, accesses, replies, read));
}

/// An overridden slot holds the overriding value at every later read, until
/// it is overridden again, and such a read changes nothing.
pub proof fn lemma_slot_override_is_read_back(
    states: Seq<CacheView>,
    accesses: Seq<Access>,
    replies: Seq<Reply>,
    written: int,
    read: int,
    address: Seq<u8>,
    index: Seq<u8>,
    value: Seq<u8>,
)
    requires
        is_history(states, accesses, replies),
        0 <= written < read < accesses.len(),
        accesses[written] == (Access::WriteSlot { address, index, value }),
        replies[written] == Reply::Done,
        accesses[read] == (Access::ReadSlot { address, index }),
        forall|at: int| written < at < read ==> !overrides_slot(#[trigger] accesses[at], address, index),
    ensures
        replies[read] == Reply::Value(value),
        states[read + 1] == states[read],
{
    assert(step_at(states, accesses, replies, written));
    lemma_slot_kept(states, accesses, replies, written + 1, read, address, index);
    assert(step_at(states, accesses, replies, read));
}

/// Once a read of an account has succeeded, every later read of it returns
/// the same account, until it is overridden, and changes nothing: the remote
/// node is asked at most once for it.
pub proof fn lemma_account_read_is_repeatable(
    states: Seq<CacheView>,
    accesses: Seq<Access>,
    replies: Seq<Reply>,
    first: int,
    again: int,
    address: Seq<u8>,
    found: AccountView,
)
    requires
        is_history(states, accesses, replies),
        0 <= first < again < accesses.len(),
        accesses[first] == (Access::ReadAccount { address }),
        replies[first] == Reply::Account(found),
        accesses[again] == (Access::ReadAccount { address }),
        forall|at: int| first < at < again ==> !overrides_account(#[trigger] accesses[at], address),
    ensures
        replies[again] == Reply::Account(found),
        states[again + 1] == states[again],
{
    assert(step_at(states, accesses, replies, first));
    lemma_account_kept(states, accesses, replies, first + 1, again, address);
    assert(step_at(states, accesses, replies, again));
}

/// Once a read of a slot has succeeded, every later read of it returns the
/// same value, until it is overridden, and changes nothing.
pub proof fn lemma_slot_read_is_repeatable(
    states: Seq<CacheView>,
    accesses: Seq<Access>,
    replies: Seq<Reply>,
    first: int,
    again: int,
    address: Seq<u8>,
    index: Seq<u8>,
    value: Seq<u8>,
)
    requires
        is_history(states, accesses, replies),
        0 <= first < again < accesses.len(),
        accesses[first] == (Access::ReadSlot { address, index }),
        replies[first] == Reply::Value(value),
        accesses[again] == (Access::ReadSlot { address, index }),
        forall|at: int| first < at < again ==> !overrides_slot(#[trigger] accesses[at], address, index),
    ensures
        replies[again] == Reply::Value(value),
        states[again + 1] == states[again],
{
    assert(step_at(states, accesses, replies, first));
    lemma_slot_kept(states, accesses, replies, first + 1, again, address, index);
    assert(step_at(states, accesses, replies, again));
}

/// A read that failed has left the cache as it was.
pub proof fn lemma_failed_access_changes_nothing(pre: CacheView, access: Access, post: CacheView)
    requires
        step(pre, access, Reply::Failed, post),
    ensures
        post == pre,
{
}

/// Starting from an empty cache, no access ever marks an account as not existing.
pub proof fn lemma_no_account_is_marked_absent(
    states: Seq<CacheView>,
    accesses: Seq<Access>,
    replies: Seq<Reply>,
    at: int,
    address: Seq<u8>,
)
    requires
        is_history(states, accesses, replies),
        0 <= at <= accesses.len(),
        states[0].accounts == Map::<Seq<u8>, Option<AccountView>>::empty(),
    ensures
        !marked_absent(states[at].accounts, address),
    decreases at,
{
    if at > 0 {
        lemma_no_account_is_marked_absent(states, accesses, replies, at - 1, address);
        assert(step_at(states, accesses, replies, at - 1));
    }
}

} // verus!
