//! The ledger's key namespace: one variant per kind of record, carrying
//! the identifiers that address it, so no two kinds can share a key.

use vstd::prelude::*;
use crate::state::Address;

verus! {

/// How long a record lives and what it costs to keep.
#[derive(Copy, Clone, Debug, PartialEq, Eq, Structural)]
pub enum StorageScope {
    /// Small, durable: configuration and counters.
    Instance,
    /// Durable, per entity.
    Persistent,
    /// Short-lived: single-use approvals.
    Temporary,
}

#[derive(Copy, Clone, Debug, PartialEq, Eq, Structural)]
pub enum StorageKey {
    Admin,
    Name,
    Symbol,
    Paused,
    /// Equals the next token id to mint.
    NftCounter,
    NftOwner(u64),
    NftUri(u64),
    NftApproved(u64),
    NftBalance(Address),
    /// Equals the next class id.
    SftClassCounter,
    SftClassUri(u64),
    SftClassName(u64),
    SftClassMaxSupply(u64),
    SftClassSupply(u64),
    SftBalance(Address, u64),
    WhitelistEnabled,
    Whitelisted(Address),
    RoyaltyReceiver,
    RoyaltyBasisPoints,
}

impl StorageKey {
    pub open spec fn spec_scope(&self) -> StorageScope {
        match self {
            StorageKey::NftApproved(_) => StorageScope::Temporary,
            StorageKey::NftOwner(_) | StorageKey::NftUri(_) | StorageKey::NftBalance(_)
            | StorageKey::SftClassUri(_) | StorageKey::SftClassName(_)
            | StorageKey::SftClassMaxSupply(_) | StorageKey::SftClassSupply(_)
            | StorageKey::SftBalance(_, _) | StorageKey::Whitelisted(_) => StorageScope::Persistent,
            _ => StorageScope::Instance,
        }
    }

    /// The scope a record under this key is kept in.
    pub fn scope(&self) -> (r: StorageScope)
        ensures
            r == self.spec_scope(),
    {
        match self {
            StorageKey::NftApproved(_) => StorageScope::Temporary,
            StorageKey::NftOwner(_) | StorageKey::NftUri(_) | StorageKey::NftBalance(_)
            | StorageKey::SftClassUri(_) | StorageKey::SftClassName(_)
            | StorageKey::SftClassMaxSupply(_) | StorageKey::SftClassSupply(_)
            | StorageKey::SftBalance(_, _) | StorageKey::Whitelisted(_) => StorageScope::Persistent,
            _ => StorageScope::Instance,
        }
    }
}

} // verus!
