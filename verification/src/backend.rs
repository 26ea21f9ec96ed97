//! The overlay database of `revm` over the fork backend of `foundry_fork_db`.
//!
//! Everything in this file is taken on trust: the types are declared, what the
//! overlay holds is given two names, and each operation on it is stated as the
//! sources of the two crates show it. Nothing here is proved.
//!
//! The backend hands every request to its worker thread and waits for the
//! answer inside `tokio::task::block_in_place`. That function panics on a
//! thread that runs a single-threaded async runtime, so the operations that may
//! ask the backend belong on an ordinary thread or a multi-threaded runtime.

use crate::digest::keccak256;
use crate::primitives::{empty_code_digest, zero_bytes, Account, AccountView, Address, CodeHash, Word};
use foundry_fork_db::{DatabaseError, SharedBackend};
use revm::db::CacheDB;
use revm::primitives::{AccountInfo, Bytecode, Bytes, B256, U256};
use revm::Database;
use vstd::prelude::*;

verus! {

/// `revm::db::CacheDB`: accounts and storage held in memory over a read-only source.
#[verifier::external_type_specification]
#[verifier::external_body]
#[verifier::reject_recursive_types(ExtDB)]
pub struct ExCacheDB<ExtDB>(CacheDB<ExtDB>);

/// `foundry_fork_db::SharedBackend`: the handle through which state is fetched
/// from the remote node at the pinned block.
#[verifier::external_type_specification]
#[verifier::external_body]
pub struct ExSharedBackend(SharedBackend);

/// `foundry_fork_db::DatabaseError`: why a fetch failed.
#[verifier::external_type_specification]
#[verifier::external_body]
pub struct ExDatabaseError(DatabaseError);

/// Accounts by address. `None` marks an account as known not to exist.
pub type AccountMap = Map<Seq<u8>, Option<AccountView>>;

/// Storage values by address and slot index.
pub type SlotMap = Map<(Seq<u8>, Seq<u8>), Seq<u8>>;

/// The accounts that the overlay holds, each with what a lookup of it yields.
pub uninterp spec fn cached_accounts(db: CacheDB<SharedBackend>) -> AccountMap;

/// The storage slots that the overlay answers without asking its source: the
/// slots stored in it, and, with value zero, every other slot of an account
/// whose storage it knows to be empty.
pub uninterp spec fn cached_slots(db: CacheDB<SharedBackend>) -> SlotMap;

/// Whether the map marks the account as known not to exist.
pub open spec fn marked_absent(accounts: AccountMap, address: Seq<u8>) -> bool {
    accounts.contains_key(address) && accounts[address] is None
}

/// The code hash under which the overlay files an account that is handed to
/// it with `hash` and `code`: code that comes with the hash of empty code is
/// hashed, and the all-zero hash becomes the hash of empty code.
pub open spec fn stored_code_hash(hash: Seq<u8>, code: Option<Seq<u8>>) -> Seq<u8> {
    let hashed = if code is Some && code->0.len() > 0 && hash == empty_code_digest() {
        keccak256(code->0)
    } else {
        hash
    };
    if hashed == zero_bytes(32) {
        empty_code_digest()
    } else {
        hashed
    }
}

/// The account as the overlay keeps it.
pub open spec fn stored_account(account: AccountView) -> AccountView {
    AccountView {
        balance: account.balance,
        nonce: account.nonce,
        code_hash: stored_code_hash(account.code_hash, account.code),
        code: account.code,
    }
}

/// Whether `post` is `pre` with, at most, an entry for `address` added: an
/// account that the overlay had to load. A loaded account exists.
pub open spec fn grown_by(pre: AccountMap, post: AccountMap, address: Seq<u8>) -> bool {
    &&& post.dom() == pre.dom().insert(address)
    &&& forall|other: Seq<u8>| pre.contains_key(other) ==> post[other] == pre[other]
    &&& !pre.contains_key(address) ==> post[address] is Some
}

/// Calls `CacheDB::new`: an overlay that holds nothing yet.
#[verifier::external_body]
pub(crate) fn overlay_new(backend: SharedBackend) -> (db: CacheDB<SharedBackend>)
    ensures
        cached_accounts(db) == AccountMap::empty(),
        cached_slots(db) == SlotMap::empty(),
{
    CacheDB::new(backend)
}

/// Calls `CacheDB::insert_account_info`. It files the account under the
/// address, with the code hash adjusted as `stored_code_hash` says, and leaves
/// every storage slot as it is. An entry that marks the account as not
/// existing keeps that mark, so lookups of it go on yielding nothing.
#[verifier::external_body]
pub(crate) fn overlay_insert_account(db: &mut CacheDB<SharedBackend>, address: &Address, account: &Account)
    ensures
        cached_slots(*final(db)) == cached_slots(*old(db)),
        cached_accounts(*final(db)) == (if marked_absent(cached_accounts(*old(db)), address@) {
            cached_accounts(*old(db))
        } else {
            cached_accounts(*old(db)).insert(address@, Some(stored_account(account@)))
        }),
{
    let info = AccountInfo {
        balance: U256::from_be_bytes(account.balance.bytes),
        nonce: account.nonce,
        code_hash: B256::new(account.code_hash.bytes),
        code: account.code.as_ref().map(|code| Bytecode::new_raw(Bytes::copy_from_slice(code))),
    };
    db.insert_account_info(revm::primitives::Address::new(address.bytes), info);
}

/// Calls `CacheDB::insert_account_storage`. It first makes sure that the
/// account is in the overlay, loading it from the backend if it is not, which
/// can fail; then it stores the value. On failure nothing has changed. With the
/// account already in the overlay it cannot fail.
#[verifier::external_body]
pub(crate) fn overlay_insert_slot(
    db: &mut CacheDB<SharedBackend>,
    address: &Address,
    index: &Word,
    value: &Word,
) -> (r: Result<(), DatabaseError>)
    ensures
        cached_accounts(*old(db)).contains_key(address@) ==> r is Ok,
        r is Ok ==> cached_slots(*final(db)) == cached_slots(*old(db)).insert((address@, index@), value@),
        r is Ok ==> grown_by(cached_accounts(*old(db)), cached_accounts(*final(db)), address@),
        r is Err ==> cached_slots(*final(db)) == cached_slots(*old(db)),
        r is Err ==> cached_accounts(*final(db)) == cached_accounts(*old(db)),
{
    db.insert_account_storage(
        revm::primitives::Address::new(address.bytes),
        U256::from_be_bytes(index.bytes),
        U256::from_be_bytes(value.bytes),
    )
}

/// Calls `Database::basic` of `CacheDB`. An account in the overlay is answered
/// from it and nothing changes. Any other is asked of the backend, whose
/// `basic_ref` yields an account whenever it succeeds, and the answer is kept.
/// On failure nothing has changed. Storage slots are never touched.
#[verifier::external_body]
pub(crate) fn overlay_basic(db: &mut CacheDB<SharedBackend>, address: &Address) -> (r: Result<
    Option<Account>,
    DatabaseError,
>)
    ensures
        cached_slots(*final(db)) == cached_slots(*old(db)),
        cached_accounts(*old(db)).contains_key(address@) ==> r is Ok && found_view(r->Ok_0) == cached_accounts(
            *old(db),
        )[address@] && cached_accounts(*final(db)) == cached_accounts(*old(db)),
        !cached_accounts(*old(db)).contains_key(address@) && r is Ok ==> r->Ok_0 is Some && cached_accounts(
            *final(db),
        ) == cached_accounts(*old(db)).insert(address@, found_view(r->Ok_0)),
        r is Err ==> cached_accounts(*final(db)) == cached_accounts(*old(db)),
{
    let found = db.basic(revm::primitives::Address::new(address.bytes))?;
    Ok(found.map(|info| Account {
        balance: Word { bytes: info.balance.to_be_bytes() },
        nonce: info.nonce,
        code_hash: CodeHash { bytes: info.code_hash.0 },
        code: info.code.map(|code| code.original_bytes().to_vec()),
    }))
}

/// The view of what a lookup found.
pub open spec fn found_view(found: Option<Account>) -> Option<AccountView> {
    match found {
        Some(account) => Some(account@),
        None => None,
    }
}

/// Calls `Database::storage` of `CacheDB`. A slot that the overlay can answer
/// is answered from it and nothing changes. Any other is asked of the backend,
/// after the account itself where the overlay lacks it, and the answer is kept.
/// On failure nothing has changed.
#[verifier::external_body]
pub(crate) fn overlay_storage(db: &mut CacheDB<SharedBackend>, address: &Address, index: &Word) -> (r: Result<
    Word,
    DatabaseError,
>)
    ensures
        cached_slots(*old(db)).contains_key((address@, index@)) ==> r is Ok && r->Ok_0@ == cached_slots(*old(db))[(
            address@,
            index@,
        )] && cached_slots(*final(db)) == cached_slots(*old(db)) && cached_accounts(*final(db)) == cached_accounts(
            *old(db),
        ),
        !cached_slots(*old(db)).contains_key((address@, index@)) && r is Ok ==> cached_slots(*final(db))
            == cached_slots(*old(db)).insert((address@, index@), r->Ok_0@),
        r is Ok ==> grown_by(cached_accounts(*old(db)), cached_accounts(*final(db)), address@),
        r is Err ==> cached_slots(*final(db)) == cached_slots(*old(db)),
        r is Err ==> cached_accounts(*final(db)) == cached_accounts(*old(db)),
{
    let value = db.storage(revm::primitives::Address::new(address.bytes), U256::from_be_bytes(index.bytes))?;
    Ok(Word { bytes: value.to_be_bytes() })
}

/// Calls `to_string` on the error: the text that the backend gives for the failure.
#[verifier::external_body]
pub(crate) fn failure_text(error: &DatabaseError) -> (r: String) {
    error.to_string()
}

} // verus!
