//! Semi-fungible tokens: classes with an optional supply cap, and balances
//! per (owner, class).

use vstd::prelude::*;
use vstd::hash_map::HashMapWithView;
use crate::errors::TokenError;
use crate::events::{TokenEvent, TokenEvents};
use crate::state::{
    Address, SftClass, TokenStore, compute_holding_key, get_or_zero, holding_key,
    lemma_holding_key_injective, lemma_nft_frame,
};

verus! {

broadcast use vstd::std_specs::hash::group_hash_axioms;

/// Outcome of one transfer leg of `amount` of `class_id` from `from` to
/// `to` on the balance records `m`, with `n_classes` classes created.
pub open spec fn leg_outcome(
    m: Map<u128, u64>,
    n_classes: u64,
    from: Address,
    to: Address,
    class_id: u64,
    amount: u64,
) -> Result<Map<u128, u64>, TokenError> {
    if class_id >= n_classes {
        Err(TokenError::SftClassNotFound)
    } else {
        let kf = holding_key(from, class_id);
        let bf = get_or_zero(m, kf);
        if bf < amount {
            Err(TokenError::SftInsufficientBalance)
        } else {
            let m1 = m.insert(kf, (bf - amount) as u64);
            let kt = holding_key(to, class_id);
            let bt = get_or_zero(m1, kt);
            if bt + amount > u64::MAX {
                Err(TokenError::ArithmeticOverflow)
            } else {
                Ok(m1.insert(kt, (bt + amount) as u64))
            }
        }
    }
}

/// Outcome of the legs `class_ids[i]`, `amounts[i]` applied in order; the
/// first failing leg decides the error.
pub open spec fn batch_outcome(
    m: Map<u128, u64>,
    n_classes: u64,
    from: Address,
    to: Address,
    class_ids: Seq<u64>,
    amounts: Seq<u64>,
) -> Result<Map<u128, u64>, TokenError>
    decreases class_ids.len(),
{
    if class_ids.len() == 0 || amounts.len() == 0 {
        Ok(m)
    } else {
        match batch_outcome(
            m,
            n_classes,
            from,
            to,
            class_ids.drop_last(),
            amounts.drop_last(),
        ) {
            Ok(m1) => leg_outcome(m1, n_classes, from, to, class_ids.last(), amounts.last()),
            Err(e) => Err(e),
        }
    }
}

/// The events a successful batch records, one per leg.
pub open spec fn batch_events(
    from: Address,
    to: Address,
    class_ids: Seq<u64>,
    amounts: Seq<u64>,
) -> Seq<TokenEvent> {
    Seq::new(
        class_ids.len(),
        |i: int| TokenEvent::SftTransferred { from, to, class_id: class_ids[i], amount: amounts[i] },
    )
}

/// Once a prefix of the legs fails, the whole batch fails the same way.
pub proof fn lemma_batch_error_sticks(
    m: Map<u128, u64>,
    n: u64,
    from: Address,
    to: Address,
    ids: Seq<u64>,
    amts: Seq<u64>,
    i: int,
)
    requires
        ids.len() == amts.len(),
        0 <= i <= ids.len(),
        batch_outcome(m, n, from, to, ids.take(i), amts.take(i)) is Err,
    ensures
        batch_outcome(m, n, from, to, ids, amts) == batch_outcome(
            m,
            n,
            from,
            to,
            ids.take(i),
            amts.take(i),
        ),
    decreases ids.len() - i,
{
    if i == ids.len() {
        assert(ids.take(i) =~= ids);
        assert(amts.take(i) =~= amts);
    } else {
        let ids2 = ids.take(i + 1);
        let amts2 = amts.take(i + 1);
        assert(ids2.drop_last() =~= ids.take(i));
        assert(amts2.drop_last() =~= amts.take(i));
        lemma_batch_error_sticks(m, n, from, to, ids, amts, i + 1);
    }
}

/// The semi-fungible ledger.
pub struct SftImpl;

impl SftImpl {
    /// The effect of creating class `id`.
    pub open spec fn created(
        pre: TokenStore,
        post: TokenStore,
        name: String,
        uri: String,
        max_supply: u64,
        id: u64,
    ) -> bool {
        &&& id == pre.class_counter
        &&& post.class_counter == id + 1
        &&& post.classes@ == pre.classes@.push(
            (SftClass { name, uri, max_supply, supply: 0 }),
        )
        &&& post.sft_balances@ == pre.sft_balances@
        &&& post.same_but_sft(&pre)
        &&& post.events@ == pre.events@.push(
            TokenEvent::SftClassCreated { class_id: id, name, max_supply },
        )
    }

    /// The effect of minting `amount` of `class_id` to `to`.
    pub open spec fn minted(
        pre: TokenStore,
        post: TokenStore,
        to: Address,
        class_id: u64,
        amount: u64,
    ) -> bool {
        let c = pre.classes@[class_id as int];
        &&& post.classes@ == pre.classes@.update(
            class_id as int,
            (SftClass { supply: (c.supply + amount) as u64, ..c }),
        )
        &&& post.class_counter == pre.class_counter
        &&& post.sft_balances@ == pre.sft_balances@.insert(
            holding_key(to, class_id),
            (pre.sft_balance(to, class_id) + amount) as u64,
        )
        &&& post.same_but_sft(&pre)
        &&& post.events@ == pre.events@.push(
            TokenEvent::SftMinted { to, class_id, amount },
        )
    }

    /// The effect of one transfer whose balance records become `m`.
    pub open spec fn moved(
        pre: TokenStore,
        post: TokenStore,
        m: Map<u128, u64>,
        from: Address,
        to: Address,
        class_id: u64,
        amount: u64,
    ) -> bool {
        &&& post.sft_balances@ == m
        &&& post.classes@ == pre.classes@
        &&& post.class_counter == pre.class_counter
        &&& post.same_but_sft(&pre)
        &&& post.events@ == pre.events@.push(
            TokenEvent::SftTransferred { from, to, class_id, amount },
        )
    }

    /// The effect of a batch whose balance records become `m`.
    pub open spec fn batch_moved(
        pre: TokenStore,
        post: TokenStore,
        m: Map<u128, u64>,
        from: Address,
        to: Address,
        class_ids: Seq<u64>,
        amounts: Seq<u64>,
    ) -> bool {
        &&& post.sft_balances@ == m
        &&& post.classes@ == pre.classes@
        &&& post.class_counter == pre.class_counter
        &&& post.same_but_sft(&pre)
        &&& post.events@ == pre.events@ + batch_events(
            from,
            to,
            class_ids,
            amounts,
        )
    }

    /// The effect of burning `amount` of `class_id` held by `from`.
    pub open spec fn burned(
        pre: TokenStore,
        post: TokenStore,
        from: Address,
        class_id: u64,
        amount: u64,
    ) -> bool {
        let c = pre.classes@[class_id as int];
        &&& post.classes@ == pre.classes@.update(
            class_id as int,
            (SftClass {
                supply: if c.supply >= amount {
                    (c.supply - amount) as u64
                } else {
                    0
                },
                ..c
            }),
        )
        &&& post.class_counter == pre.class_counter
        &&& post.sft_balances@ == pre.sft_balances@.insert(
            holding_key(from, class_id),
            (pre.sft_balance(from, class_id) - amount) as u64,
        )
        &&& post.same_but_sft(&pre)
        &&& post.events@ == pre.events@.push(TokenEvent::SftBurned { from, class_id, amount })
    }

    /// Creates a class with the next class id and supply 0.
    pub fn create_class(store: &mut TokenStore, name: String, uri: String, max_supply: u64) -> (r:
        Result<u64, TokenError>)
        requires
            old(store).wf(),
        ensures
            final(store).wf(),
            r is Ok <==> old(store).class_counter < u64::MAX,
            match r {
                Ok(id) => Self::created(*old(store), *final(store), name, uri, max_supply, id),
                Err(e) => e == TokenError::ArithmeticOverflow && *final(store) == *old(store),
            },
    {
        let class_id = store.class_counter;
        if class_id == u64::MAX {
            return Err(TokenError::ArithmeticOverflow);
        }
        let ghost pre = *store;
        TokenEvents::sft_class_created(&mut store.events, class_id, &name, max_supply);
        store.classes.push(SftClass { name, uri, max_supply, supply: 0 });
        store.class_counter = class_id + 1;
        proof {
            lemma_nft_frame(pre, *store);
            assert forall|c: int|
                0 <= c < store.classes@.len() && #[trigger] store.classes@[c].max_supply > 0
                    implies store.classes@[c].supply <= store.classes@[c].max_supply by {
                if c < pre.classes@.len() {
                    assert(store.classes@[c] == pre.classes@[c]);
                }
            }
        }
        Ok(class_id)
    }

    /// Which result `mint` gives on `store`.
    pub open spec fn mint_outcome(store: TokenStore, to: Address, class_id: u64, amount: u64) -> Result<
        (),
        TokenError,
    > {
        if class_id >= store.class_counter {
            Err(TokenError::SftClassNotFound)
        } else {
            let c = store.classes@[class_id as int];
            if c.max_supply > 0 && c.supply + amount > c.max_supply {
                Err(TokenError::SftMaxSupplyExceeded)
            } else if c.supply + amount > u64::MAX || store.sft_balance(to, class_id) + amount
                > u64::MAX {
                Err(TokenError::ArithmeticOverflow)
            } else {
                Ok(())
            }
        }
    }

    /// Mints `amount` of `class_id` to `to`, within the class's cap.
    pub fn mint(store: &mut TokenStore, to: Address, class_id: u64, amount: u64) -> (r: Result<
        (),
        TokenError,
    >)
        requires
            old(store).wf(),
        ensures
            final(store).wf(),
            r == Self::mint_outcome(*old(store), to, class_id, amount),
            r is Ok ==> Self::minted(*old(store), *final(store), to, class_id, amount),
            r is Err ==> *final(store) == *old(store),
    {
        if class_id >= store.classes.len() as u64 {
            return Err(TokenError::SftClassNotFound);
        }
        let n = store.classes.len();
        assert(class_id < n);
        let idx = class_id as usize;
        let supply = store.classes[idx].supply;
        let max_supply = store.classes[idx].max_supply;
        if max_supply > 0 && amount > max_supply - supply {
            return Err(TokenError::SftMaxSupplyExceeded);
        }
        if amount > u64::MAX - supply {
            return Err(TokenError::ArithmeticOverflow);
        }
        let balance = store.sft_balance_of(to, class_id);
        if amount > u64::MAX - balance {
            return Err(TokenError::ArithmeticOverflow);
        }
        let ghost pre = *store;
        let name = store.classes[idx].name.clone();
        let uri = store.classes[idx].uri.clone();
        store.classes[idx] = SftClass { name, uri, max_supply, supply: supply + amount };
        let key = compute_holding_key(to, class_id);
        store.sft_balances.insert(key, balance + amount);
        TokenEvents::sft_minted(&mut store.events, to, class_id, amount);
        proof {
            lemma_nft_frame(pre, *store);
            assert forall|c: int|
                0 <= c < store.classes@.len() && #[trigger] store.classes@[c].max_supply > 0
                    implies store.classes@[c].supply <= store.classes@[c].max_supply by {
                if c != class_id as int {
                    assert(store.classes@[c] == pre.classes@[c]);
                }
            }
        }
        Ok(())
    }

    /// Moves `amount` of `class_id` from `from` to `to`.
    pub fn transfer(
        store: &mut TokenStore,
        from: Address,
        to: Address,
        class_id: u64,
        amount: u64,
    ) -> (r: Result<(), TokenError>)
        requires
            old(store).wf(),
        ensures
            final(store).wf(),
            match leg_outcome(
                old(store).sft_balances@,
                old(store).class_counter,
                from,
                to,
                class_id,
                amount,
            ) {
                Ok(m) => r is Ok && Self::moved(*old(store), *final(store), m, from, to, class_id, amount),
                Err(e) => r == Err::<(), TokenError>(e) && *final(store) == *old(store),
            },
            r is Ok && from != to ==> {
                &&& final(store).sft_balance(from, class_id) == old(store).sft_balance(
                    from,
                    class_id,
                ) - amount
                &&& final(store).sft_balance(to, class_id) == old(store).sft_balance(
                    to,
                    class_id,
                ) + amount
            },
            class_id < old(store).class_counter && amount > old(store).sft_balance(from, class_id)
                ==> r == Err::<(), TokenError>(TokenError::SftInsufficientBalance),
    {
        if class_id >= store.classes.len() as u64 {
            return Err(TokenError::SftClassNotFound);
        }
        let ghost pre = store.sft_balances@;
        let kf = compute_holding_key(from, class_id);
        let kt = compute_holding_key(to, class_id);
        proof {
            lemma_holding_key_injective(from, class_id, to, class_id);
        }
        let bf = store.sft_balance_of(from, class_id);
        if bf < amount {
            return Err(TokenError::SftInsufficientBalance);
        }
        let bt = if from == to {
            bf - amount
        } else {
            store.sft_balance_of(to, class_id)
        };
        if amount > u64::MAX - bt {
            return Err(TokenError::ArithmeticOverflow);
        }
        store.sft_balances.insert(kf, bf - amount);
        store.sft_balances.insert(kt, bt + amount);
        TokenEvents::sft_transferred(&mut store.events, from, to, class_id, amount);
        proof {
            lemma_nft_frame(*old(store), *store);
        }
        Ok(())
    }

    /// Applies every leg `class_ids[i]`, `amounts[i]` in order from `from`
    /// to `to`, all or nothing: if any leg fails, no leg takes effect.
    pub fn batch_transfer(
        store: &mut TokenStore,
        from: Address,
        to: Address,
        class_ids: &Vec<u64>,
        amounts: &Vec<u64>,
    ) -> (r: Result<(), TokenError>)
        requires
            old(store).wf(),
        ensures
            final(store).wf(),
            class_ids@.len() != amounts@.len() ==> r == Err::<(), TokenError>(
                TokenError::SftBatchLengthMismatch,
            ),
            class_ids@.len() == amounts@.len() ==> match batch_outcome(
                old(store).sft_balances@,
                old(store).class_counter,
                from,
                to,
                class_ids@,
                amounts@,
            ) {
                Ok(m) => r is Ok && Self::batch_moved(*old(store), *final(store), m, from, to, class_ids@, amounts@),
                Err(e) => r == Err::<(), TokenError>(e),
            },
            r is Err ==> *final(store) == *old(store),
    {
        if class_ids.len() != amounts.len() {
            return Err(TokenError::SftBatchLengthMismatch);
        }
        let n_classes = store.classes.len() as u64;
        let ghost base = store.sft_balances@;
        let ghost ids = class_ids@;
        let ghost amts = amounts@;
        let mut staged: HashMapWithView<u128, u64> = HashMapWithView::new();
        let mut staged_events: Vec<TokenEvent> = Vec::new();
        let mut i: usize = 0;
        assert(ids.take(0) =~= Seq::<u64>::empty());
        assert(amts.take(0) =~= Seq::<u64>::empty());
        assert(base.union_prefer_right(staged@) =~= base);
        while i < class_ids.len()
            invariant
                *store == *old(store),
                store.wf(),
                base == store.sft_balances@,
                n_classes == store.class_counter,
                ids == class_ids@,
                amts == amounts@,
                ids.len() == amts.len(),
                0 <= i <= ids.len(),
                batch_outcome(base, n_classes, from, to, ids.take(i as int), amts.take(i as int))
                    == Ok::<Map<u128, u64>, TokenError>(base.union_prefer_right(staged@)),
                staged_events@ =~= batch_events(
                    from,
                    to,
                    ids.take(i as int),
                    amts.take(i as int),
                ),
            decreases ids.len() - i,
        {
            let class_id = class_ids[i];
            let amount = amounts[i];
            let ghost cur = base.union_prefer_right(staged@);
            proof {
                assert(ids.take(i + 1).drop_last() =~= ids.take(i as int));
                assert(amts.take(i + 1).drop_last() =~= amts.take(i as int));
                assert(ids.take(i + 1).last() == class_id);
                assert(amts.take(i + 1).last() == amount);
            }
            if class_id >= n_classes {
                proof {
                    lemma_batch_error_sticks(base, n_classes, from, to, ids, amts, i + 1);
                }
                return Err(TokenError::SftClassNotFound);
            }
            let kf = compute_holding_key(from, class_id);
            let kt = compute_holding_key(to, class_id);
            proof {
                lemma_holding_key_injective(from, class_id, to, class_id);
            }
            let bf = match staged.get(&kf) {
                Some(v) => *v,
                None => store.sft_balance_of(from, class_id),
            };
            assert(bf == get_or_zero(cur, kf));
            if bf < amount {
                proof {
                    lemma_batch_error_sticks(base, n_classes, from, to, ids, amts, i + 1);
                }
                return Err(TokenError::SftInsufficientBalance);
            }
            let bt = if from == to {
                bf - amount
            } else {
                match staged.get(&kt) {
                    Some(v) => *v,
                    None => store.sft_balance_of(to, class_id),
                }
            };
            if amount > u64::MAX - bt {
                proof {
                    lemma_batch_error_sticks(base, n_classes, from, to, ids, amts, i + 1);
                }
                return Err(TokenError::ArithmeticOverflow);
            }
            let ghost s0 = staged@;
            staged.insert(kf, bf - amount);
            let ghost s1 = staged@;
            staged.insert(kt, bt + amount);
            proof {
                assert(base.union_prefer_right(s1) =~= base.union_prefer_right(s0).insert(
                    kf,
                    (bf - amount) as u64,
                ));
                assert(base.union_prefer_right(staged@) =~= base.union_prefer_right(s1).insert(
                    kt,
                    (bt + amount) as u64,
                ));
            }
            staged_events.push(TokenEvent::SftTransferred { from, to, class_id, amount });
            i = i + 1;
        }
        proof {
            assert(ids.take(i as int) =~= ids);
            assert(amts.take(i as int) =~= amts);
        }
        store.sft_balances.union_prefer_right(staged);
        store.events.append(&mut staged_events);
        proof {
            lemma_nft_frame(*old(store), *store);
        }
        Ok(())
    }

    /// Which result `burn` gives on `store`.
    pub open spec fn burn_outcome(store: TokenStore, from: Address, class_id: u64, amount: u64) -> Result<
        (),
        TokenError,
    > {
        if class_id >= store.class_counter {
            Err(TokenError::SftClassNotFound)
        } else if store.sft_balance(from, class_id) < amount {
            Err(TokenError::SftInsufficientBalance)
        } else {
            Ok(())
        }
    }

    /// Destroys `amount` of `class_id` held by `from`; the class supply
    /// drops by the same amount, never below 0.
    pub fn burn(store: &mut TokenStore, from: Address, class_id: u64, amount: u64) -> (r: Result<
        (),
        TokenError,
    >)
        requires
            old(store).wf(),
        ensures
            final(store).wf(),
            r == Self::burn_outcome(*old(store), from, class_id, amount),
            r is Ok ==> Self::burned(*old(store), *final(store), from, class_id, amount),
            r is Err ==> *final(store) == *old(store),
    {
        if class_id >= store.classes.len() as u64 {
            return Err(TokenError::SftClassNotFound);
        }
        let balance = store.sft_balance_of(from, class_id);
        if balance < amount {
            return Err(TokenError::SftInsufficientBalance);
        }
        let ghost pre = *store;
        let key = compute_holding_key(from, class_id);
        store.sft_balances.insert(key, balance - amount);
        let n = store.classes.len();
        assert(class_id < n);
        let idx = class_id as usize;
        let supply = store.classes[idx].supply;
        let max_supply = store.classes[idx].max_supply;
        let name = store.classes[idx].name.clone();
        let uri = store.classes[idx].uri.clone();
        store.classes[idx] = SftClass { name, uri, max_supply, supply: supply.saturating_sub(amount) };
        TokenEvents::sft_burned(&mut store.events, from, class_id, amount);
        proof {
            lemma_nft_frame(pre, *store);
            assert forall|c: int|
                0 <= c < store.classes@.len() && #[trigger] store.classes@[c].max_supply > 0
                    implies store.classes@[c].supply <= store.classes@[c].max_supply by {
                if c != class_id as int {
                    assert(store.classes@[c] == pre.classes@[c]);
                }
            }
        }
        Ok(())
    }

    /// The balance of `class_id` held by `owner`; 0 when none.
    pub fn balance_of(store: &TokenStore, owner: Address, class_id: u64) -> (r: u64)
        ensures
            r == store.sft_balance(owner, class_id),
    {
        store.sft_balance_of(owner, class_id)
    }

    /// The current supply of `class_id`, or SftClassNotFound.
    pub fn class_supply(store: &TokenStore, class_id: u64) -> (r: Result<u64, TokenError>)
        requires
            store.wf(),
        ensures
            class_id < store.class_counter ==> r == Ok::<u64, TokenError>(
                store.classes@[class_id as int].supply,
            ),
            class_id >= store.class_counter ==> r == Err::<u64, TokenError>(
                TokenError::SftClassNotFound,
            ),
    {
        Self::require_class_exists(store, class_id)?;
        let n = store.classes.len();
        assert(class_id < n);
        Ok(store.classes[class_id as usize].supply)
    }

    /// The metadata URI of `class_id`, or SftClassNotFound.
    pub fn class_uri(store: &TokenStore, class_id: u64) -> (r: Result<String, TokenError>)
        requires
            store.wf(),
        ensures
            class_id < store.class_counter ==> r is Ok && r->Ok_0@ == store.classes@[
                class_id as int
            ].uri@,
            class_id >= store.class_counter ==> r == Err::<String, TokenError>(
                TokenError::SftClassNotFound,
            ),
    {
        Self::require_class_exists(store, class_id)?;
        let n = store.classes.len();
        assert(class_id < n);
        Ok(store.classes[class_id as usize].uri.clone())
    }

    fn require_class_exists(store: &TokenStore, class_id: u64) -> (r: Result<(), TokenError>)
        requires
            store.wf(),
        ensures
            r is Ok <==> class_id < store.class_counter,
            r is Err ==> r == Err::<(), TokenError>(TokenError::SftClassNotFound),
    {
        if class_id >= store.classes.len() as u64 {
            Err(TokenError::SftClassNotFound)
        } else {
            Ok(())
        }
    }
}

} // verus!
