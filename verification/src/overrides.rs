//! Overrides: the state that a simulation plants before it runs.

use crate::backend::{AccountMap, marked_absent};
use crate::cache::{account_written, slot_written, CacheView, ForkedStateCache, RemoteFailure};
use crate::digest::{keccak256, mapping_preimage, mapping_slot};
use crate::primitives::{zero_bytes, Account, AccountView, Address, CodeHash, Word};
use vstd::prelude::*;

verus! {

/// One value to plant: a whole account, or one storage slot of an account.
#[derive(Clone, Debug, PartialEq, Eq)]
pub enum Override {
    Account { address: Address, account: Account },
    Slot { address: Address, index: Word, value: Word },
}

/// The mathematical value of an [`Override`].
pub enum OverrideView {
    Account { address: Seq<u8>, account: AccountView },
    Slot { address: Seq<u8>, index: Seq<u8>, value: Seq<u8> },
}

impl View for Override {
    type V = OverrideView;

    open spec fn view(&self) -> OverrideView {
        match *self {
            Override::Account { address, account } => OverrideView::Account { address: address@, account: account@ },
            Override::Slot { address, index, value } => OverrideView::Slot {
                address: address@,
                index: index@,
                value: value@,
            },
        }
    }
}

/// The views of a list of overrides, in order.
pub open spec fn views(overrides: Seq<Override>) -> Seq<OverrideView> {
    overrides.map_values(|item: Override| item@)
}

/// The account that an override concerns.
pub open spec fn target(item: OverrideView) -> Seq<u8> {
    match item {
        OverrideView::Account { address, .. } => address,
        OverrideView::Slot { address, .. } => address,
    }
}

/// Whether planting one override can take the cache from `pre` to `post`.
pub open spec fn planted(pre: CacheView, item: OverrideView, post: CacheView) -> bool {
    match item {
        OverrideView::Account { address, account } => post == account_written(pre, address, account),
        OverrideView::Slot { address, index, value } => slot_written(pre, address, index, value, true, post),
    }
}

/// Whether planting the overrides one after the other, each with success, can
/// take the cache from `pre` to `post`.
pub open spec fn all_planted(pre: CacheView, items: Seq<OverrideView>, post: CacheView) -> bool
    decreases items.len(),
{
    if items.len() == 0 {
        post == pre
    } else {
        exists|mid: CacheView| all_planted(pre, items.drop_last(), mid) && #[trigger] planted(mid, items.last(), post)
    }
}

/// Whether the account is in the overlay once the first `count` overrides
/// are planted: it was there before, or one of them concerns it.
pub open spec fn settled(accounts: AccountMap, items: Seq<OverrideView>, count: int, address: Seq<u8>) -> bool {
    accounts.contains_key(address) || exists|earlier: int| 0 <= earlier < count && #[trigger] target(items[earlier]) == address
}

/// Whether no override needs the remote node: each slot override concerns an
/// account that is in the overlay when its turn comes.
pub open spec fn needs_no_fetch(accounts: AccountMap, items: Seq<OverrideView>) -> bool {
    forall|at: int| 0 <= at < items.len() && #[trigger] items[at] is Slot ==> settled(accounts, items, at, target(items[at]))
}

/// Once the first `count` overrides are planted, every account that was in
/// the overlay before, or that one of them concerns, is in the overlay.
proof fn lemma_settled_is_cached(pre: CacheView, items: Seq<OverrideView>, count: int, post: CacheView, address: Seq<u8>)
    requires
        0 <= count <= items.len(),
        all_planted(pre, items.take(count), post),
        settled(pre.accounts, items, count, address),
    ensures
        post.accounts.contains_key(address),
    decreases count,
{
    let prefix = items.take(count);
    if count > 0 {
        let mid = choose|mid: CacheView| all_planted(pre, prefix.drop_last(), mid) && #[trigger] planted(mid, prefix.last(), post);
        assert(prefix.drop_last() =~= items.take(count - 1));
        if settled(pre.accounts, items, count - 1, address) {
            lemma_settled_is_cached(pre, items, count - 1, mid, address);
        }
    }
}

/// Plants the overrides in order and stops at the first that fails. Only a
/// slot override can fail, and only where the remote node is needed for its
/// account, which neither was in the overlay nor is the concern of an earlier
/// override: the overrides before it are planted then, it and those after it
/// are not.
pub fn apply_overrides(cache: &mut ForkedStateCache, overrides: &Vec<Override>) -> (r: Result<(), RemoteFailure>)
    ensures
        r is Ok ==> all_planted(old(cache)@, views(overrides@), final(cache)@),
        r is Err ==> exists|failed: int|
            0 <= failed < overrides.len() && #[trigger] views(overrides@)[failed] is Slot && !settled(
                old(cache)@.accounts,
                views(overrides@),
                failed,
                target(views(overrides@)[failed]),
            ) && all_planted(old(cache)@, views(overrides@).take(failed), final(cache)@),
        needs_no_fetch(old(cache)@.accounts, views(overrides@)) ==> r is Ok,
{
    let ghost items = views(overrides@);
    let ghost start = cache@;
    let mut at: usize = 0;
    while at < overrides.len()
        invariant
            at <= overrides.len(),
            items == views(overrides@),
            start == old(cache)@,
            all_planted(start, items.take(at as int), cache@),
        decreases overrides.len() - at,
    {
        let ghost before = cache@;
        let ghost next = items.take(at + 1);
        assert(next.drop_last() =~= items.take(at as int));
        assert(items[at as int] == overrides@[at as int]@);
        match &overrides[at] {
            Override::Account { address, account } => {
                cache.set_account(address, account);
            },
            Override::Slot { address, index, value } => {
                match cache.set_storage(address, index, value) {
                    Ok(()) => {},
                    Err(failure) => {
                        proof {
                            if settled(start.accounts, items, at as int, address@) {
                                lemma_settled_is_cached(start, items, at as int, before, address@);
                            }
                        }
                        return Err(failure);
                    },
                }
            },
        }
        assert(planted(before, next.last(), cache@));
        at += 1;
    }
    assert(items.take(at as int) =~= items);
    Ok(())
}

/// What a router simulation plants: the router contract itself, the
/// controller that calls it, and the token in which the router is funded.
#[derive(Clone, Debug, PartialEq, Eq)]
pub struct RouterSetup {
    /// Where the router is installed.
    pub router: Address,
    /// The hash of the router's code.
    pub router_code_hash: CodeHash,
    /// The router's code.
    pub router_code: Vec<u8>,
    /// The account that sends the simulated call.
    pub controller: Address,
    /// The funds that the controller is given.
    pub controller_balance: Word,
    /// The token contract that holds the router's balance.
    pub token: Address,
    /// The storage slot at which the token keeps its table of balances.
    pub balances_position: Word,
}

/// The router account that a setup installs: no funds, nonce zero, the given code.
pub open spec fn router_account(setup: RouterSetup) -> AccountView {
    AccountView {
        balance: zero_bytes(32),
        nonce: 0,
        code_hash: setup.router_code_hash@,
        code: Some(setup.router_code@),
    }
}

/// The controller account that a setup installs: the given funds, nonce
/// zero, no code and a code hash that is left open.
pub open spec fn controller_account(setup: RouterSetup) -> AccountView {
    AccountView {
        balance: setup.controller_balance@,
        nonce: 0,
        code_hash: zero_bytes(32),
        code: Some(Seq::<u8>::empty()),
    }
}

/// The storage slot of the token in which the router's balance is kept.
pub open spec fn router_balance_slot(setup: RouterSetup) -> Seq<u8> {
    keccak256(mapping_preimage(setup.router@, setup.balances_position@))
}

/// The cache once the router and then the controller are installed.
pub open spec fn accounts_installed(pre: CacheView, setup: RouterSetup) -> CacheView {
    account_written(
        account_written(pre, setup.router@, router_account(setup)),
        setup.controller@,
        controller_account(setup),
    )
}

/// Installs the router and the controller, then sets the router's balance in
/// the token to `token_balance`. The two accounts are installed in any case.
/// The balance needs the token's account in the overlay, and fails, leaving
/// the balance as it was, where that account has to be fetched and cannot.
pub fn spoof_storage(cache: &mut ForkedStateCache, setup: &RouterSetup, token_balance: &Word) -> (r: Result<
    (),
    RemoteFailure,
>)
    ensures
        slot_written(
            accounts_installed(old(cache)@, *setup),
            setup.token@,
            router_balance_slot(*setup),
            token_balance@,
            r is Ok,
            final(cache)@,
        ),
{
    let router = Account::new(Word::zero(), 0, setup.router_code_hash, setup.router_code.clone());
    cache.set_account(&setup.router, &router);
    let controller = Account::new(setup.controller_balance, 0, CodeHash::unresolved(), Vec::new());
    cache.set_account(&setup.controller, &controller);
    let slot = mapping_slot(&setup.router, &setup.balances_position);
    cache.set_storage(&setup.token, &slot, token_balance)
}

} // verus!
