//! A minimal multi-standard token state: feature switches, NFT ownership
//! keyed by string token id, and semi-fungible balances per
//! (token id, holder). Addresses here are already-validated strings.

use vstd::prelude::*;
use vstd::hash_map::StringHashMap;

verus! {

/// The token standards a deployment can offer.
#[derive(Copy, Clone, Debug, PartialEq, Eq, Structural)]
pub enum TokenStandard {
    Fungible,
    NonFungible,
    SemiFungible,
}

/// Which standards are switched on.
#[derive(Copy, Clone, Debug, PartialEq, Eq, Structural)]
pub struct TokenFeatures {
    pub enable_ft: bool,
    pub enable_nft: bool,
    pub enable_sft: bool,
}

/// The instantiation request: the standards to switch on.
#[derive(Copy, Clone, Debug, PartialEq, Eq, Structural)]
pub struct InstantiateMsg {
    pub enable_ft: bool,
    pub enable_nft: bool,
    pub enable_sft: bool,
}

/// The execution requests; addresses and token ids are strings.
#[derive(Clone, Debug)]
pub enum ExecuteMsg {
    TransferFT { to: String, amount: u128 },
    MintFT { to: String, amount: u128 },
    MintNFT { token_id: String, to: String },
    TransferNFT { token_id: String, to: String },
    MintSFT { token_id: String, to: String, amount: u128 },
    TransferSFT { token_id: String, to: String, amount: u128 },
}

/// Deployment configuration: owner and enabled standards.
#[derive(Clone, Debug)]
pub struct Config {
    pub owner: String,
    pub features: TokenFeatures,
}

/// Failures of the multi-standard operations.
#[derive(Copy, Clone, Debug, PartialEq, Eq, Structural)]
pub enum MultiTokenError {
    NftDisabled,
    SftDisabled,
    TokenExists,
    Overflow,
}

impl MultiTokenError {
    /// The message the error is reported with.
    pub fn message(&self) -> (r: &'static str)
        ensures
            r@ == self.spec_message(),
    {
        match self {
            MultiTokenError::NftDisabled => "NFT disabled",
            MultiTokenError::SftDisabled => "SFT disabled",
            MultiTokenError::TokenExists => "Token exists",
            MultiTokenError::Overflow => "Overflow",
        }
    }

    pub open spec fn spec_message(&self) -> Seq<char> {
        match self {
            MultiTokenError::NftDisabled => "NFT disabled"@,
            MultiTokenError::SftDisabled => "SFT disabled"@,
            MultiTokenError::TokenExists => "Token exists"@,
            MultiTokenError::Overflow => "Overflow"@,
        }
    }
}

/// One semi-fungible balance record.
#[derive(Clone, Debug)]
pub struct SftHolding {
    pub token_id: String,
    pub owner: String,
    pub amount: u128,
}

/// Whether `h` is the record of (`token_id`, `owner`).
pub open spec fn holding_of(h: SftHolding, token_id: Seq<char>, owner: Seq<char>) -> bool {
    h.token_id@ == token_id && h.owner@ == owner
}

/// The balance of (`token_id`, `owner`): the amount of the last matching
/// record, or 0.
pub open spec fn holding_balance(s: Seq<SftHolding>, token_id: Seq<char>, owner: Seq<char>) -> u128
    decreases s.len(),
{
    if s.len() == 0 {
        0
    } else if holding_of(s.last(), token_id, owner) {
        s.last().amount
    } else {
        holding_balance(s.drop_last(), token_id, owner)
    }
}

/// Rewriting the last record of a key sets that key's balance and no other.
proof fn lemma_holding_update(
    s: Seq<SftHolding>,
    i: int,
    h: SftHolding,
    t: Seq<char>,
    o: Seq<char>,
)
    requires
        0 <= i < s.len(),
        holding_of(s[i], h.token_id@, h.owner@),
        forall|j: int| i < j < s.len() ==> !holding_of(#[trigger] s[j], h.token_id@, h.owner@),
    ensures
        holding_balance(s.update(i, h), t, o) == if holding_of(h, t, o) {
            h.amount
        } else {
            holding_balance(s, t, o)
        },
    decreases s.len(),
{
    if i == s.len() - 1 {
        assert(s.update(i, h).drop_last() =~= s.drop_last());
    } else {
        assert(s.update(i, h).drop_last() =~= s.drop_last().update(i, h));
        assert(!holding_of(s.last(), h.token_id@, h.owner@));
        lemma_holding_update(s.drop_last(), i, h, t, o);
    }
}

/// The multi-standard state.
pub struct MultiTokenState {
    pub config: Config,
    /// NFT owner per token id.
    pub nft_owners: StringHashMap<String>,
    pub sft_balances: Vec<SftHolding>,
}

impl MultiTokenState {
    /// A fresh state owned by `owner` with the standards `msg` enables.
    pub fn instantiate(owner: String, msg: InstantiateMsg) -> (r: MultiTokenState)
        ensures
            r.config.owner == owner,
            r.config.features == (TokenFeatures {
                enable_ft: msg.enable_ft,
                enable_nft: msg.enable_nft,
                enable_sft: msg.enable_sft,
            }),
            r.nft_owners@ == Map::<Seq<char>, String>::empty(),
            r.sft_balances@.len() == 0,
    {
        let features = TokenFeatures {
            enable_ft: msg.enable_ft,
            enable_nft: msg.enable_nft,
            enable_sft: msg.enable_sft,
        };
        MultiTokenState {
            config: Config { owner, features },
            nft_owners: StringHashMap::new(),
            sft_balances: Vec::new(),
        }
    }

    /// The balance of (`token_id`, `owner`), 0 when none.
    pub fn sft_balance(&self, token_id: &String, owner: &String) -> (r: u128)
        ensures
            r == holding_balance(self.sft_balances@, token_id@, owner@),
    {
        match self.find_holding(token_id, owner) {
            Some(i) => self.sft_balances[i].amount,
            None => 0,
        }
    }

    /// The index of the last record of (`token_id`, `owner`), if any.
    fn find_holding(&self, token_id: &String, owner: &String) -> (r: Option<usize>)
        ensures
            match r {
                Some(i) => {
                    &&& i < self.sft_balances@.len()
                    &&& holding_of(self.sft_balances@[i as int], token_id@, owner@)
                    &&& forall|j: int|
                        i < j < self.sft_balances@.len() ==> !holding_of(
                            #[trigger] self.sft_balances@[j],
                            token_id@,
                            owner@,
                        )
                    &&& holding_balance(self.sft_balances@, token_id@, owner@)
                        == self.sft_balances@[i as int].amount
                },
                None => holding_balance(self.sft_balances@, token_id@, owner@) == 0,
            },
    {
        let ghost s = self.sft_balances@;
        let mut i: usize = self.sft_balances.len();
        assert(s.take(i as int) =~= s);
        while i > 0
            invariant
                s == self.sft_balances@,
                i <= s.len(),
                forall|j: int| i <= j < s.len() ==> !holding_of(#[trigger] s[j], token_id@, owner@),
                holding_balance(s, token_id@, owner@) == holding_balance(
                    s.take(i as int),
                    token_id@,
                    owner@,
                ),
            decreases i,
        {
            let h = &self.sft_balances[i - 1];
            let ghost t = s.take(i as int);
            assert(t.drop_last() =~= s.take(i - 1));
            assert(t.last() == s[i - 1]);
            if h.token_id == *token_id && h.owner == *owner {
                return Some(i - 1);
            }
            i = i - 1;
        }
        assert(s.take(0) =~= Seq::<SftHolding>::empty());
        None
    }
}

/// Records `to` as owner of the new NFT `token_id`. Fails when NFTs are
/// disabled or the id is taken.
pub fn mint_nft(state: &mut MultiTokenState, token_id: String, to: String) -> (r: Result<
    (),
    MultiTokenError,
>)
    ensures
        !old(state).config.features.enable_nft ==> r == Err::<(), MultiTokenError>(
            MultiTokenError::NftDisabled,
        ),
        old(state).config.features.enable_nft && old(state).nft_owners@.contains_key(token_id@)
            ==> r == Err::<(), MultiTokenError>(MultiTokenError::TokenExists),
        old(state).config.features.enable_nft && !old(state).nft_owners@.contains_key(token_id@)
            ==> r is Ok,
        r is Ok ==> final(state).nft_owners@ == old(state).nft_owners@.insert(token_id@, to),
        r is Ok ==> final(state).sft_balances@ == old(state).sft_balances@,
        r is Ok ==> final(state).config.features == old(state).config.features,
        r is Err ==> *final(state) == *old(state),
{
    if !state.config.features.enable_nft {
        return Err(MultiTokenError::NftDisabled);
    }
    if state.nft_owners.contains_key(token_id.as_str()) {
        return Err(MultiTokenError::TokenExists);
    }
    state.nft_owners.insert(token_id, to);
    Ok(())
}

/// Adds `amount` to the balance of (`token_id`, `to`). Fails when SFTs are
/// disabled or the balance would overflow.
pub fn mint_sft(state: &mut MultiTokenState, token_id: String, to: String, amount: u128) -> (r:
    Result<(), MultiTokenError>)
    ensures
        !old(state).config.features.enable_sft ==> r == Err::<(), MultiTokenError>(
            MultiTokenError::SftDisabled,
        ),
        old(state).config.features.enable_sft ==> (r is Ok <==> holding_balance(
            old(state).sft_balances@,
            token_id@,
            to@,
        ) + amount <= u128::MAX),
        r is Err && old(state).config.features.enable_sft ==> r == Err::<(), MultiTokenError>(
            MultiTokenError::Overflow,
        ),
        r is Ok ==> forall|t: Seq<char>, o: Seq<char>|
            #[trigger] holding_balance(final(state).sft_balances@, t, o) == if t == token_id@ && o
                == to@ {
                (holding_balance(old(state).sft_balances@, t, o) + amount) as u128
            } else {
                holding_balance(old(state).sft_balances@, t, o)
            },
        r is Ok ==> final(state).nft_owners@ == old(state).nft_owners@,
        r is Ok ==> final(state).config.features == old(state).config.features,
        r is Err ==> *final(state) == *old(state),
{
    if !state.config.features.enable_sft {
        return Err(MultiTokenError::SftDisabled);
    }
    let found = state.find_holding(&token_id, &to);
    let balance: u128 = match found {
        Some(i) => state.sft_balances[i].amount,
        None => 0,
    };
    if amount > u128::MAX - balance {
        return Err(MultiTokenError::Overflow);
    }
    let ghost s = state.sft_balances@;
    let ghost tid = token_id@;
    let ghost owner = to@;
    let h = SftHolding { token_id, owner: to, amount: balance + amount };
    match found {
        Some(i) => {
            state.sft_balances[i] = h;
            proof {
                assert(state.sft_balances@ == s.update(i as int, h));
                assert forall|t: Seq<char>, o: Seq<char>|
                    #[trigger] holding_balance(state.sft_balances@, t, o) == if t == tid && o
                        == owner {
                        (holding_balance(s, t, o) + amount) as u128
                    } else {
                        holding_balance(s, t, o)
                    } by {
                    lemma_holding_update(s, i as int, h, t, o);
                }
            }
        },
        None => {
            state.sft_balances.push(h);
            proof {
                assert forall|t: Seq<char>, o: Seq<char>|
                    #[trigger] holding_balance(state.sft_balances@, t, o) == if t == tid && o
                        == owner {
                        (holding_balance(s, t, o) + amount) as u128
                    } else {
                        holding_balance(s, t, o)
                    } by {
                    assert(state.sft_balances@.drop_last() =~= s);
                }
            }
        },
    }
    Ok(())
}

} // verus!
