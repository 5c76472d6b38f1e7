//! Unique tokens: mint, transfer, approve, transfer by an approved spender,
//! burn, and the queries over them.

use vstd::prelude::*;
use crate::errors::TokenError;
use crate::events::{TokenEvent, TokenEvents};
use crate::state::{
    Address, NftToken, TokenStore, count_owned, lemma_count_owned_bound,
    lemma_count_owned_strict, lemma_count_owned_update, owned_by,
};

verus! {

broadcast use vstd::std_specs::hash::group_hash_axioms;

/// The token `t` with a new owner, and its approval as given.
pub open spec fn moved(t: NftToken, to: Address, approved: Option<Address>) -> NftToken {
    NftToken { owner: to, uri: t.uri, approved }
}

/// The unique-token ledger.
pub struct NftImpl;

impl NftImpl {
    /// Mints a new token to `to` and returns its id, the current counter.
    pub fn mint(store: &mut TokenStore, to: Address, uri: String) -> (r: Result<u64, TokenError>)
        requires
            old(store).wf(),
        ensures
            final(store).wf(),
            r is Ok <==> old(store).nft_counter < u64::MAX,
            match r {
                Ok(id) => Self::minted(*old(store), *final(store), to, uri, id),
                Err(e) => e == TokenError::ArithmeticOverflow && *final(store) == *old(store),
            },
    {
        let token_id = store.nft_counter;
        if token_id == u64::MAX {
            return Err(TokenError::ArithmeticOverflow);
        }
        let balance = store.nft_balance_of(to);
        proof {
            lemma_count_owned_bound(store.tokens@, to);
        }
        let ghost old_tokens = store.tokens@;
        let ghost old_store = *store;
        TokenEvents::nft_minted(&mut store.events, to, token_id, &uri);
        let v = Some(NftToken { owner: to, uri, approved: None });
        store.tokens.push(v);
        store.nft_balances.insert(to.0, balance + 1);
        store.nft_counter = token_id + 1;
        proof {
            assert(store.tokens@.drop_last() =~= old_tokens);
            assert forall|a: Address| #[trigger]
                store.nft_balance(a) == count_owned(store.tokens@, a) by {
                assert(old_store.nft_balance(a) == count_owned(old_tokens, a));
            }
        }
        Ok(token_id)
    }

    /// The effect of minting token `id` with `uri` to `to`.
    pub open spec fn minted(pre: TokenStore, post: TokenStore, to: Address, uri: String, id: u64) -> bool {
        &&& id == pre.nft_counter
        &&& post.nft_counter == id + 1
        &&& post.tokens@ == pre.tokens@.push(
            Some(NftToken { owner: to, uri, approved: None }),
        )
        &&& post.nft_balance(to) == pre.nft_balance(to) + 1
        &&& forall|a: Address|
            a != to ==> #[trigger] post.nft_balance(a) == pre.nft_balance(a)
        &&& post.same_but_nft(&pre)
        &&& post.events@ == pre.events@.push(
            TokenEvent::NftMinted { to, token_id: id, uri },
        )
    }

    /// The effect of recording `approved` for `token_id`, owned by `owner`.
    pub open spec fn approval_set(
        pre: TokenStore,
        post: TokenStore,
        owner: Address,
        approved: Address,
        token_id: u64,
    ) -> bool {
        &&& post.tokens@ == pre.tokens@.update(
            token_id as int,
            Some(
                moved(
                    pre.token(token_id)->Some_0,
                    owner,
                    Some(approved),
                ),
            ),
        )
        &&& post.nft_counter == pre.nft_counter
        &&& post.nft_balances@ == pre.nft_balances@
        &&& post.same_but_nft(&pre)
        &&& post.events@ == pre.events@.push(
            TokenEvent::NftApproved { owner, approved, token_id },
        )
    }

    /// The effect of burning `token_id`, owned by `from`.
    pub open spec fn burned(pre: TokenStore, post: TokenStore, from: Address, token_id: u64) -> bool {
        &&& post.tokens@ == pre.tokens@.update(token_id as int, None)
        &&& post.nft_counter == pre.nft_counter
        &&& post.nft_balance(from) + 1 == pre.nft_balance(from)
        &&& forall|a: Address|
            a != from ==> #[trigger] post.nft_balance(a) == pre.nft_balance(a)
        &&& post.same_but_nft(&pre)
        &&& post.events@ == pre.events@.push(
            TokenEvent::NftBurned { from, token_id },
        )
    }

    /// Moves `token_id` from `from` to `to` for its owner. A pending
    /// approval is kept.
    pub fn transfer(store: &mut TokenStore, from: Address, to: Address, token_id: u64) -> (r:
        Result<(), TokenError>)
        requires
            old(store).wf(),
        ensures
            final(store).wf(),
            r == Self::owner_check(*old(store), from, token_id),
            r is Ok ==> Self::transferred(
                *old(store),
                *final(store),
                from,
                to,
                token_id,
                old(store).token(token_id)->Some_0.approved,
            ),
            r is Err ==> *final(store) == *old(store),
    {
        let owner = Self::require_owner(store, token_id)?;
        if owner != from {
            return Err(TokenError::NftNotOwner);
        }
        Self::do_transfer(store, from, to, token_id, false);
        Ok(())
    }

    /// The effect of a successful move of `token_id` from `from` to `to`,
    /// leaving `approved` as the token's approval.
    pub open spec fn transferred(
        pre: TokenStore,
        post: TokenStore,
        from: Address,
        to: Address,
        token_id: u64,
        approved: Option<Address>,
    ) -> bool {
        &&& pre.token(token_id) is Some
        &&& pre.token(token_id)->Some_0.owner == from
        &&& post.tokens@ == pre.tokens@.update(
            token_id as int,
            Some(moved(pre.token(token_id)->Some_0, to, approved)),
        )
        &&& post.nft_counter == pre.nft_counter
        &&& from != to ==> post.nft_balance(from) + 1 == pre.nft_balance(from)
        &&& from != to ==> post.nft_balance(to) == pre.nft_balance(to) + 1
        &&& forall|a: Address|
            a != from && a != to ==> #[trigger] post.nft_balance(a) == pre.nft_balance(a)
        &&& from == to ==> post.nft_balances@ == pre.nft_balances@
        &&& post.same_but_nft(&pre)
        &&& post.events@ == pre.events@.push(TokenEvent::NftTransferred { from, to, token_id })
    }

    /// Moves an existing token owned by `from` to `to`; clears its approval
    /// when `clear_approval` holds.
    fn do_transfer(
        store: &mut TokenStore,
        from: Address,
        to: Address,
        token_id: u64,
        clear_approval: bool,
    )
        requires
            old(store).wf(),
            old(store).token(token_id) is Some,
            old(store).token(token_id)->Some_0.owner == from,
        ensures
            final(store).wf(),
            Self::transferred(
                *old(store),
                *final(store),
                from,
                to,
                token_id,
                if clear_approval {
                    None
                } else {
                    old(store).token(token_id)->Some_0.approved
                },
            ),
    {
        let ghost pre = *store;
        let n = store.tokens.len();
        assert(token_id < n);
        let idx = token_id as usize;
        let (uri, kept) = match &store.tokens[idx] {
            Some(t) => (t.uri.clone(), t.approved),
            None => (String::new(), None),
        };
        let approved = if clear_approval {
            None
        } else {
            kept
        };
        let v = Some(NftToken { owner: to, uri, approved });
        store.tokens[idx] = v;
        assert(store.tokens@ == pre.tokens@.update(token_id as int, v));

        let from_balance = store.nft_balance_of(from);
        proof {
            lemma_count_owned_update(pre.tokens@, token_id as int, None, from);
            assert(pre.nft_balance(from) == count_owned(pre.tokens@, from));
        }
        store.nft_balances.insert(from.0, from_balance - 1);
        let to_balance = store.nft_balance_of(to);
        proof {
            lemma_count_owned_update(pre.tokens@, token_id as int, v, to);
            if from != to {
                lemma_count_owned_strict(pre.tokens@, token_id as int, to);
            }
            assert(pre.nft_balance(to) == count_owned(pre.tokens@, to));
        }
        store.nft_balances.insert(to.0, to_balance + 1);
        TokenEvents::nft_transferred(&mut store.events, from, to, token_id);
        proof {
            assert forall|a: Address| #[trigger]
                store.nft_balance(a) == count_owned(store.tokens@, a) by {
                lemma_count_owned_update(pre.tokens@, token_id as int, v, a);
                assert(pre.nft_balance(a) == count_owned(pre.tokens@, a));
            }
            if from == to {
                assert(store.nft_balances@ =~= pre.nft_balances@);
            }
        }
    }

    /// Moves `token_id` from its owner `from` to `to` on behalf of
    /// `spender`, which must be the token's approved address; the approval
    /// is consumed.
    pub fn transfer_from(
        store: &mut TokenStore,
        spender: Address,
        from: Address,
        to: Address,
        token_id: u64,
    ) -> (r: Result<(), TokenError>)
        requires
            old(store).wf(),
        ensures
            final(store).wf(),
            r == Self::transfer_from_outcome(*old(store), spender, from, token_id),
            r is Ok ==> Self::transferred(*old(store), *final(store), from, to, token_id, None),
            r is Err ==> *final(store) == *old(store),
    {
        let owner = Self::require_owner(store, token_id)?;
        if owner != from {
            return Err(TokenError::NftNotOwner);
        }
        let n = store.tokens.len();
        assert(token_id < n);
        let approved = match &store.tokens[token_id as usize] {
            Some(t) => t.approved,
            None => None,
        };
        match approved {
            Some(a) => {
                if a != spender {
                    return Err(TokenError::NftNotApproved);
                }
            },
            None => {
                return Err(TokenError::NftNotApproved);
            },
        }
        Self::do_transfer(store, from, to, token_id, true);
        Ok(())
    }

    /// Which result `transfer_from` gives on `store`.
    pub open spec fn transfer_from_outcome(
        store: TokenStore,
        spender: Address,
        from: Address,
        token_id: u64,
    ) -> Result<(), TokenError> {
        match store.token(token_id) {
            None => Err(TokenError::NftNotFound),
            Some(t) => if t.owner != from {
                Err(TokenError::NftNotOwner)
            } else if t.approved != Some(spender) {
                Err(TokenError::NftNotApproved)
            } else {
                Ok(())
            },
        }
    }

    /// Records `approved` as the single approved spender of `token_id`,
    /// replacing any earlier approval.
    pub fn approve(store: &mut TokenStore, owner: Address, approved: Address, token_id: u64) -> (r:
        Result<(), TokenError>)
        requires
            old(store).wf(),
        ensures
            final(store).wf(),
            r == Self::owner_check(*old(store), owner, token_id),
            r is Ok ==> Self::approval_set(*old(store), *final(store), owner, approved, token_id),
            r is Err ==> *final(store) == *old(store),
    {
        let actual = Self::require_owner(store, token_id)?;
        if actual != owner {
            return Err(TokenError::NftNotOwner);
        }
        let ghost pre = *store;
        let n = store.tokens.len();
        assert(token_id < n);
        let idx = token_id as usize;
        let uri = match &store.tokens[idx] {
            Some(t) => t.uri.clone(),
            None => String::new(),
        };
        let v = Some(NftToken { owner, uri, approved: Some(approved) });
        store.tokens[idx] = v;
        assert(store.tokens@ == pre.tokens@.update(token_id as int, v));
        TokenEvents::nft_approved(&mut store.events, owner, approved, token_id);
        proof {
            assert forall|a: Address| #[trigger]
                store.nft_balance(a) == count_owned(store.tokens@, a) by {
                lemma_count_owned_update(pre.tokens@, token_id as int, v, a);
                assert(pre.nft_balance(a) == count_owned(pre.tokens@, a));
            }
        }
        Ok(())
    }

    /// `Ok` when `token_id` exists and is owned by `owner`; otherwise the
    /// error that reports why not.
    pub open spec fn owner_check(store: TokenStore, owner: Address, token_id: u64) -> Result<
        (),
        TokenError,
    > {
        match store.token(token_id) {
            None => Err(TokenError::NftNotFound),
            Some(t) => if t.owner != owner {
                Err(TokenError::NftNotOwner)
            } else {
                Ok(())
            },
        }
    }

    /// Destroys `token_id`, owned by `from`: owner, URI and approval go.
    pub fn burn(store: &mut TokenStore, from: Address, token_id: u64) -> (r: Result<
        (),
        TokenError,
    >)
        requires
            old(store).wf(),
        ensures
            final(store).wf(),
            r == Self::owner_check(*old(store), from, token_id),
            r is Ok ==> Self::burned(*old(store), *final(store), from, token_id),
            r is Err ==> *final(store) == *old(store),
    {
        let owner = Self::require_owner(store, token_id)?;
        if owner != from {
            return Err(TokenError::NftNotOwner);
        }
        let ghost pre = *store;
        let n = store.tokens.len();
        assert(token_id < n);
        let idx = token_id as usize;
        store.tokens[idx] = None;
        assert(store.tokens@ == pre.tokens@.update(token_id as int, None));
        let balance = store.nft_balance_of(from);
        proof {
            lemma_count_owned_update(pre.tokens@, token_id as int, None, from);
            assert(pre.nft_balance(from) == count_owned(pre.tokens@, from));
        }
        store.nft_balances.insert(from.0, balance - 1);
        TokenEvents::nft_burned(&mut store.events, from, token_id);
        proof {
            assert forall|a: Address| #[trigger]
                store.nft_balance(a) == count_owned(store.tokens@, a) by {
                lemma_count_owned_update(pre.tokens@, token_id as int, None, a);
                assert(pre.nft_balance(a) == count_owned(pre.tokens@, a));
            }
        }
        Ok(())
    }

    /// The owner of `token_id`, or NftNotFound.
    pub fn owner_of(store: &TokenStore, token_id: u64) -> (r: Result<Address, TokenError>)
        ensures
            match store.token(token_id) {
                Some(t) => r == Ok::<Address, TokenError>(t.owner),
                None => r == Err::<Address, TokenError>(TokenError::NftNotFound),
            },
    {
        Self::require_owner(store, token_id)
    }

    /// The metadata URI of `token_id`, or NftNotFound.
    pub fn token_uri(store: &TokenStore, token_id: u64) -> (r: Result<String, TokenError>)
        ensures
            match store.token(token_id) {
                Some(t) => r is Ok && r->Ok_0@ == t.uri@,
                None => r == Err::<String, TokenError>(TokenError::NftNotFound),
            },
    {
        if token_id >= store.tokens.len() as u64 {
            return Err(TokenError::NftNotFound);
        }
        match &store.tokens[token_id as usize] {
            Some(t) => Ok(t.uri.clone()),
            None => Err(TokenError::NftNotFound),
        }
    }

    /// How many tokens `owner` holds; 0 for an unknown address.
    pub fn balance_of(store: &TokenStore, owner: Address) -> (r: u64)
        ensures
            r == store.nft_balance(owner),
    {
        store.nft_balance_of(owner)
    }

    /// How many tokens were ever minted; burns do not lower it.
    pub fn total_supply(store: &TokenStore) -> (r: u64)
        ensures
            r == store.nft_counter,
    {
        store.nft_counter
    }

    /// Returns the owner of `token_id`, or NftNotFound.
    fn require_owner(store: &TokenStore, token_id: u64) -> (r: Result<Address, TokenError>)
        ensures
            match store.token(token_id) {
                Some(t) => r == Ok::<Address, TokenError>(t.owner),
                None => r == Err::<Address, TokenError>(TokenError::NftNotFound),
            },
    {
        if token_id >= store.tokens.len() as u64 {
            return Err(TokenError::NftNotFound);
        }
        match &store.tokens[token_id as usize] {
            Some(t) => Ok(t.owner),
            None => Err(TokenError::NftNotFound),
        }
    }
}

} // verus!
