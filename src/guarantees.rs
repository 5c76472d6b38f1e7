//! Ledger-wide guarantees, stated over the operations' own contracts.

use vstd::prelude::*;
use crate::errors::TokenError;
use crate::nft::NftImpl;
use crate::semi_fungible::{SftImpl, batch_outcome, leg_outcome, lemma_batch_error_sticks};
use crate::state::{
    Address, TokenStore, count_owned, get_or_zero, holding_key, lemma_holding_key_injective,
};

verus! {

/// In every well-formed store each address's NFT balance is the number of
/// live tokens it owns. Every NFT operation keeps the store well-formed, so
/// this holds after any sequence of mints, transfers and burns.
pub proof fn nft_balance_is_owned_count(store: TokenStore, owner: Address)
    requires
        store.wf(),
    ensures
        store.nft_balance(owner) == count_owned(store.tokens@, owner),
{
}

/// The total supply is the mint counter: a burn leaves it unchanged.
pub proof fn burn_keeps_total_supply(pre: TokenStore, post: TokenStore, from: Address, token_id: u64)
    requires
        NftImpl::burned(pre, post, from, token_id),
    ensures
        post.nft_counter == pre.nft_counter,
{
}

/// A capped class never holds more than its cap, and a mint that would
/// pass the cap fails with SftMaxSupplyExceeded (and so changes nothing).
pub proof fn mint_respects_cap(store: TokenStore, to: Address, class_id: u64, amount: u64)
    requires
        store.wf(),
        class_id < store.class_counter,
        store.classes@[class_id as int].max_supply > 0,
    ensures
        store.classes@[class_id as int].supply <= store.classes@[class_id as int].max_supply,
        store.classes@[class_id as int].supply + amount > store.classes@[class_id as int].max_supply
            ==> SftImpl::mint_outcome(store, to, class_id, amount) == Err::<(), TokenError>(
            TokenError::SftMaxSupplyExceeded,
        ),
{
}

/// A semi-fungible transfer between two distinct holders takes exactly
/// `amount` from the sender and gives it to the receiver; one that asks for
/// more than the sender holds fails with SftInsufficientBalance.
pub proof fn transfer_moves_amount(
    m: Map<u128, u64>,
    n_classes: u64,
    from: Address,
    to: Address,
    class_id: u64,
    amount: u64,
)
    requires
        from != to,
    ensures
        leg_outcome(m, n_classes, from, to, class_id, amount) is Ok ==> {
            let m2 = leg_outcome(m, n_classes, from, to, class_id, amount)->Ok_0;
            &&& get_or_zero(m2, holding_key(from, class_id)) == get_or_zero(
                m,
                holding_key(from, class_id),
            ) - amount
            &&& get_or_zero(m2, holding_key(to, class_id)) == get_or_zero(
                m,
                holding_key(to, class_id),
            ) + amount
        },
        class_id < n_classes && amount > get_or_zero(m, holding_key(from, class_id))
            ==> leg_outcome(m, n_classes, from, to, class_id, amount) == Err::<
            Map<u128, u64>,
            TokenError,
        >(TokenError::SftInsufficientBalance),
{
    lemma_holding_key_injective(from, class_id, to, class_id);
}

/// If the legs before and including leg `k` already fail, the whole batch
/// fails with that error; by the batch contract nothing then changes.
pub proof fn failing_leg_fails_batch(
    m: Map<u128, u64>,
    n_classes: u64,
    from: Address,
    to: Address,
    class_ids: Seq<u64>,
    amounts: Seq<u64>,
    k: int,
)
    requires
        class_ids.len() == amounts.len(),
        0 <= k < class_ids.len(),
        batch_outcome(
            m,
            n_classes,
            from,
            to,
            class_ids.take(k + 1),
            amounts.take(k + 1),
        ) is Err,
    ensures
        batch_outcome(m, n_classes, from, to, class_ids, amounts) == batch_outcome(
            m,
            n_classes,
            from,
            to,
            class_ids.take(k + 1),
            amounts.take(k + 1),
        ),
{
    lemma_batch_error_sticks(m, n_classes, from, to, class_ids, amounts, k + 1);
}

/// An approval is single-use: after a successful transfer by `spender`,
/// no second transfer of the token by `spender` succeeds, and from the new
/// owner it fails with NftNotApproved.
pub proof fn approval_is_single_use(
    pre: TokenStore,
    post: TokenStore,
    spender: Address,
    from: Address,
    to: Address,
    token_id: u64,
    next_from: Address,
)
    requires
        pre.wf(),
        NftImpl::transfer_from_outcome(pre, spender, from, token_id) is Ok,
        NftImpl::transferred(pre, post, from, to, token_id, None),
    ensures
        NftImpl::transfer_from_outcome(post, spender, next_from, token_id) is Err,
        NftImpl::transfer_from_outcome(post, spender, to, token_id) == Err::<(), TokenError>(
            TokenError::NftNotApproved,
        ),
{
    assert(post.token(token_id) == post.tokens@[token_id as int]);
}

} // verus!
