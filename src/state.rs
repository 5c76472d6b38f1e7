//! The ledger's key space: every record the operations read and write.

use vstd::prelude::*;
use vstd::hash_map::HashMapWithView;
use vstd::hash_set::HashSetWithView;
use crate::events::TokenEvent;

verus! {

broadcast use vstd::std_specs::hash::group_hash_axioms;

/// An account identity, as handed over by the authorisation layer.
#[derive(Copy, Clone, Debug, PartialEq, Eq, Hash, Structural)]
pub struct Address(pub u64);

/// One unique token: its owner, metadata URI and single approved spender.
#[derive(Clone, Debug)]
pub struct NftToken {
    pub owner: Address,
    pub uri: String,
    pub approved: Option<Address>,
}

/// One semi-fungible class. `max_supply == 0` means unlimited.
#[derive(Clone, Debug)]
pub struct SftClass {
    pub name: String,
    pub uri: String,
    pub max_supply: u64,
    pub supply: u64,
}

/// Royalty configuration: receiver and rate in basis points.
#[derive(Copy, Clone, Debug, PartialEq, Eq, Structural)]
pub struct Royalty {
    pub receiver: Address,
    pub basis_points: u32,
}

/// All ledger state. Token ids index `tokens` and class ids index `classes`,
/// so ids are sequential and never reused; a burnt token leaves `None`.
pub struct TokenStore {
    pub admin: Option<Address>,
    pub name: String,
    pub symbol: String,
    pub paused: bool,
    pub nft_counter: u64,
    pub tokens: Vec<Option<NftToken>>,
    /// NFT balance per address id.
    pub nft_balances: HashMapWithView<u64, u64>,
    pub class_counter: u64,
    pub classes: Vec<SftClass>,
    /// Semi-fungible balance per `holding_key(owner, class_id)`.
    pub sft_balances: HashMapWithView<u128, u64>,
    pub whitelist_enabled: bool,
    /// Whitelisted address ids.
    pub whitelisted: HashSetWithView<u64>,
    pub royalty: Option<Royalty>,
    pub events: Vec<TokenEvent>,
}

/// The value stored under `k`, or 0 when absent.
pub open spec fn get_or_zero<K>(m: Map<K, u64>, k: K) -> u64 {
    if m.contains_key(k) {
        m[k]
    } else {
        0
    }
}

/// The single key of the (owner, class) balance record.
pub open spec fn holding_key(owner: Address, class_id: u64) -> u128 {
    (class_id as int * 0x1_0000_0000_0000_0000 + owner.0 as int) as u128
}

pub fn compute_holding_key(owner: Address, class_id: u64) -> (r: u128)
    ensures
        r == holding_key(owner, class_id),
{
    (class_id as u128) * 0x1_0000_0000_0000_0000u128 + (owner.0 as u128)
}

/// Distinct (owner, class) pairs never share a balance record.
pub proof fn lemma_holding_key_injective(a: Address, c: u64, b: Address, d: u64)
    ensures
        holding_key(a, c) == holding_key(b, d) <==> (a == b && c == d),
{
    let base: int = 0x1_0000_0000_0000_0000;
    if holding_key(a, c) == holding_key(b, d) {
        assert(c as int * base + a.0 as int == d as int * base + b.0 as int);
        if c as int > d as int {
            assert(c as int * base >= (d as int + 1) * base) by (nonlinear_arith)
                requires c as int >= d as int + 1, base > 0;
        } else if (c as int) < d as int {
            assert(d as int * base >= (c as int + 1) * base) by (nonlinear_arith)
                requires d as int >= c as int + 1, base > 0;
        }
    }
}

/// Whether `t` is a live token owned by `a`.
pub open spec fn owned_by(t: Option<NftToken>, a: Address) -> bool {
    t is Some && t->Some_0.owner == a
}

/// Number of live tokens in `s` owned by `a`.
pub open spec fn count_owned(s: Seq<Option<NftToken>>, a: Address) -> nat
    decreases s.len(),
{
    if s.len() == 0 {
        0
    } else {
        count_owned(s.drop_last(), a) + if owned_by(s.last(), a) {
            1nat
        } else {
            0nat
        }
    }
}

pub proof fn lemma_count_owned_bound(s: Seq<Option<NftToken>>, a: Address)
    ensures
        count_owned(s, a) <= s.len(),
    decreases s.len(),
{
    if s.len() > 0 {
        lemma_count_owned_bound(s.drop_last(), a);
    }
}

/// A slot not owned by `a` keeps `a`'s count below the length.
pub proof fn lemma_count_owned_strict(s: Seq<Option<NftToken>>, i: int, a: Address)
    requires
        0 <= i < s.len(),
        !owned_by(s[i], a),
    ensures
        count_owned(s, a) < s.len(),
    decreases s.len(),
{
    if i == s.len() - 1 {
        lemma_count_owned_bound(s.drop_last(), a);
    } else {
        lemma_count_owned_strict(s.drop_last(), i, a);
    }
}

/// Replacing one slot changes the count by what leaves and what enters.
pub proof fn lemma_count_owned_update(
    s: Seq<Option<NftToken>>,
    i: int,
    v: Option<NftToken>,
    a: Address,
)
    requires
        0 <= i < s.len(),
    ensures
        count_owned(s.update(i, v), a) + (if owned_by(s[i], a) { 1int } else { 0int })
            == count_owned(s, a) + (if owned_by(v, a) { 1int } else { 0int }),
    decreases s.len(),
{
    if i == s.len() - 1 {
        assert(s.update(i, v).drop_last() =~= s.drop_last());
    } else {
        assert(s.update(i, v).drop_last() =~= s.drop_last().update(i, v));
        lemma_count_owned_update(s.drop_last(), i, v, a);
    }
}

/// The unique-token part of the invariant survives any change that leaves
/// the unique-token records alone.
pub proof fn lemma_nft_frame(pre: TokenStore, post: TokenStore)
    requires
        pre.wf(),
        post.nft_same(&pre),
    ensures
        forall|a: Address| #[trigger] post.nft_balance(a) == count_owned(post.tokens@, a),
{
    assert forall|a: Address| #[trigger]
        post.nft_balance(a) == count_owned(post.tokens@, a) by {
        assert(pre.nft_balance(a) == count_owned(pre.tokens@, a));
    }
}

impl TokenStore {
    pub open spec fn nft_balance(&self, a: Address) -> u64 {
        get_or_zero(self.nft_balances@, a.0)
    }

    pub open spec fn sft_balance(&self, a: Address, class_id: u64) -> u64 {
        get_or_zero(self.sft_balances@, holding_key(a, class_id))
    }

    pub open spec fn token(&self, token_id: u64) -> Option<NftToken> {
        if token_id < self.tokens@.len() {
            self.tokens@[token_id as int]
        } else {
            None
        }
    }

    pub open spec fn is_member(&self, a: Address) -> bool {
        self.whitelisted@.contains(a.0)
    }

    /// The store's invariant: counters match the id spaces, every NFT
    /// balance is the number of tokens its address owns, and every capped
    /// class stays within its cap.
    pub open spec fn wf(&self) -> bool {
        &&& self.tokens@.len() == self.nft_counter
        &&& self.classes@.len() == self.class_counter
        &&& forall|a: Address| #[trigger]
            self.nft_balance(a) == count_owned(self.tokens@, a)
        &&& forall|c: int|
            0 <= c < self.classes@.len() && #[trigger] self.classes@[c].max_supply > 0
                ==> self.classes@[c].supply <= self.classes@[c].max_supply
        &&& self.royalty is Some ==> self.royalty->Some_0.basis_points <= 10000
    }

    /// Everything but the unique-token records and the event log is unchanged.
    pub open spec fn same_but_nft(&self, other: &TokenStore) -> bool {
        &&& self.sft_same(other)
        &&& self.config_same(other)
    }

    /// Everything but the semi-fungible records and the event log is unchanged.
    pub open spec fn same_but_sft(&self, other: &TokenStore) -> bool {
        &&& self.nft_same(other)
        &&& self.config_same(other)
    }

    pub open spec fn nft_same(&self, other: &TokenStore) -> bool {
        &&& self.nft_counter == other.nft_counter
        &&& self.tokens@ == other.tokens@
        &&& self.nft_balances@ == other.nft_balances@
    }

    pub open spec fn sft_same(&self, other: &TokenStore) -> bool {
        &&& self.class_counter == other.class_counter
        &&& self.classes@ == other.classes@
        &&& self.sft_balances@ == other.sft_balances@
    }

    pub open spec fn config_same(&self, other: &TokenStore) -> bool {
        &&& self.admin == other.admin
        &&& self.name == other.name
        &&& self.symbol == other.symbol
        &&& self.paused == other.paused
        &&& self.whitelist_enabled == other.whitelist_enabled
        &&& self.whitelisted@ == other.whitelisted@
        &&& self.royalty == other.royalty
    }

    /// An empty, uninitialised store.
    pub fn new() -> (r: TokenStore)
        ensures
            r.wf(),
            r.admin is None,
            !r.paused,
            !r.whitelist_enabled,
            r.royalty is None,
            r.nft_counter == 0,
            r.class_counter == 0,
            r.nft_balances@ == Map::<u64, u64>::empty(),
            r.sft_balances@ == Map::<u128, u64>::empty(),
            r.whitelisted@ == Set::<u64>::empty(),
            r.events@.len() == 0,
    {
        let r = TokenStore {
            admin: None,
            name: String::new(),
            symbol: String::new(),
            paused: false,
            nft_counter: 0,
            tokens: Vec::new(),
            nft_balances: HashMapWithView::new(),
            class_counter: 0,
            classes: Vec::new(),
            sft_balances: HashMapWithView::new(),
            whitelist_enabled: false,
            whitelisted: HashSetWithView::new(),
            royalty: None,
            events: Vec::new(),
        };
        assert forall|a: Address| #[trigger] r.nft_balance(a) == count_owned(r.tokens@, a) by {}
        r
    }

    pub fn nft_balance_of(&self, a: Address) -> (r: u64)
        ensures
            r == self.nft_balance(a),
    {
        match self.nft_balances.get(&a.0) {
            Some(v) => *v,
            None => 0,
        }
    }

    pub fn sft_balance_of(&self, a: Address, class_id: u64) -> (r: u64)
        ensures
            r == self.sft_balance(a, class_id),
    {
        let k = compute_holding_key(a, class_id);
        match self.sft_balances.get(&k) {
            Some(v) => *v,
            None => 0,
        }
    }
}

} // verus!
