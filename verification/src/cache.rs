//! The forked state cache: local overrides over remotely fetched state.
//!
//! A read is served from the overlay where the overlay holds the key. Otherwise
//! the remote node is asked once, for the pinned block, and the answer is kept.
//! An override replaces whatever the overlay holds for its key and is what
//! every later read of that key returns.

use crate::backend::{
    cached_accounts, cached_slots, failure_text, grown_by, marked_absent, overlay_basic, overlay_insert_account,
    overlay_insert_slot, overlay_new, overlay_storage, stored_account, AccountMap, SlotMap,
};
use crate::primitives::{empty_account, Account, AccountView, Address, Word};
use foundry_fork_db::SharedBackend;
use revm::db::CacheDB;
use vstd::prelude::*;

verus! {

/// What the overlay holds: the accounts and storage slots that it answers
/// without asking the remote node.
pub struct CacheView {
    pub accounts: AccountMap,
    pub slots: SlotMap,
}

/// The remote node could not be reached, or answered with an error. The read
/// that needed it has failed and nothing was cached.
#[derive(Clone, Debug, PartialEq, Eq)]
pub struct RemoteFailure {
    pub message: String,
}

/// The account that a read reports for an overlay entry: an entry that marks
/// the account as not existing is reported as the empty account.
pub open spec fn reported(entry: Option<AccountView>) -> AccountView {
    match entry {
        Some(account) => account,
        None => empty_account(),
    }
}

/// How a read of an account relates the cache before it, the account it
/// returned (`None` where the remote node failed) and the cache after it.
pub open spec fn account_read(pre: CacheView, address: Seq<u8>, reply: Option<AccountView>, post: CacheView) -> bool {
    if pre.accounts.contains_key(address) {
        reply == Some(reported(pre.accounts[address])) && post == pre
    } else {
        match reply {
            Some(found) => post == (CacheView { accounts: pre.accounts.insert(address, Some(found)), slots: pre.slots }),
            None => post == pre,
        }
    }
}

/// How a read of a storage slot relates the cache before it, the value it
/// returned (`None` where the remote node failed) and the cache after it.
pub open spec fn slot_read(
    pre: CacheView,
    address: Seq<u8>,
    index: Seq<u8>,
    reply: Option<Seq<u8>>,
    post: CacheView,
) -> bool {
    if pre.slots.contains_key((address, index)) {
        reply == Some(pre.slots[(address, index)]) && post == pre
    } else {
        match reply {
            Some(value) => post.slots == pre.slots.insert((address, index), value) && grown_by(
                pre.accounts,
                post.accounts,
                address,
            ),
            None => post == pre,
        }
    }
}

/// The cache after an account override.
pub open spec fn account_written(pre: CacheView, address: Seq<u8>, account: AccountView) -> CacheView {
    if marked_absent(pre.accounts, address) {
        pre
    } else {
        CacheView { accounts: pre.accounts.insert(address, Some(stored_account(account))), slots: pre.slots }
    }
}

/// How a storage override relates the cache before it, whether it took
/// effect, and the cache after it. It can only fail where the account is not
/// in the overlay yet and the remote node fails to deliver it.
pub open spec fn slot_written(
    pre: CacheView,
    address: Seq<u8>,
    index: Seq<u8>,
    value: Seq<u8>,
    done: bool,
    post: CacheView,
) -> bool {
    &&& pre.accounts.contains_key(address) ==> done
    &&& done ==> post.slots == pre.slots.insert((address, index), value) && grown_by(
        pre.accounts,
        post.accounts,
        address,
    )
    &&& !done ==> post == pre
}

/// The reply of an account read, as `account_read` takes it.
pub open spec fn account_reply(result: Result<Account, RemoteFailure>) -> Option<AccountView> {
    match result {
        Ok(account) => Some(account@),
        Err(_) => None,
    }
}

/// The reply of a slot read, as `slot_read` takes it.
pub open spec fn slot_reply(result: Result<Word, RemoteFailure>) -> Option<Seq<u8>> {
    match result {
        Ok(value) => Some(value@),
        Err(_) => None,
    }
}

/// The state that one simulation works on: an in-memory overlay over the
/// remote node's state at the pinned block.
pub struct ForkedStateCache {
    pub db: CacheDB<SharedBackend>,
}

impl View for ForkedStateCache {
    type V = CacheView;

    open spec fn view(&self) -> CacheView {
        CacheView { accounts: cached_accounts(self.db), slots: cached_slots(self.db) }
    }
}

impl ForkedStateCache {
    /// An empty cache over the given backend.
    pub fn new(backend: SharedBackend) -> (r: ForkedStateCache)
        ensures
            r@.accounts == AccountMap::empty(),
            r@.slots == SlotMap::empty(),
    {
        ForkedStateCache { db: overlay_new(backend) }
    }

    /// Hands the overlay database to whoever executes against it.
    pub fn into_db(self) -> (db: CacheDB<SharedBackend>)
        ensures
            db == self.db,
    {
        self.db
    }

    /// The account at the address: from the overlay where it holds the
    /// address, else from the remote node, whose answer is then kept. An
    /// account that does not exist is reported as the empty account.
    pub fn get_account(&mut self, address: &Address) -> (r: Result<Account, RemoteFailure>)
        ensures
            account_read(old(self)@, address@, account_reply(r), final(self)@),
    {
        match overlay_basic(&mut self.db, address) {
            Ok(Some(account)) => Ok(account),
            Ok(None) => Ok(Account::empty()),
            Err(error) => Err(RemoteFailure { message: failure_text(&error) }),
        }
    }

    /// The value of a storage slot: from the overlay where it can answer,
    /// else from the remote node, whose answer is then kept.
    pub fn get_storage(&mut self, address: &Address, index: &Word) -> (r: Result<Word, RemoteFailure>)
        ensures
            slot_read(old(self)@, address@, index@, slot_reply(r), final(self)@),
    {
        match overlay_storage(&mut self.db, address, index) {
            Ok(value) => Ok(value),
            Err(error) => Err(RemoteFailure { message: failure_text(&error) }),
        }
    }

    /// Overrides the account at the address. The remote node is not asked, now
    /// or later, what it holds for this address.
    pub fn set_account(&mut self, address: &Address, account: &Account)
        ensures
            final(self)@ == account_written(old(self)@, address@, account@),
    {
        overlay_insert_account(&mut self.db, address, account);
    }

    /// Overrides one storage slot. The account itself is loaded first where
    /// the overlay lacks it, which is the one way this can fail.
    pub fn set_storage(&mut self, address: &Address, index: &Word, value: &Word) -> (r: Result<(), RemoteFailure>)
        ensures
            slot_written(old(self)@, address@, index@, value@, r is Ok, final(self)@),
    {
        match overlay_insert_slot(&mut self.db, address, index, value) {
            Ok(()) => Ok(()),
            Err(error) => Err(RemoteFailure { message: failure_text(&error) }),
        }
    }
}

} // verus!
