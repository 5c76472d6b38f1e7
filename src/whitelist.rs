//! Recipient whitelist: when enabled, only members may receive transfers.
//! Membership is kept apart from the switch, so toggling keeps members.

use vstd::prelude::*;
use crate::errors::TokenError;
use crate::events::{TokenEvent, TokenEvents};
use crate::state::{Address, TokenStore, lemma_nft_frame};

verus! {

broadcast use vstd::std_specs::hash::group_hash_axioms;

pub struct WhitelistImpl;

impl WhitelistImpl {
    pub fn enable(store: &mut TokenStore)
        requires
            old(store).wf(),
        ensures
            final(store).wf(),
            (TokenStore { whitelist_enabled: true, events: final(store).events, ..*old(store) })
                == *final(store),
            final(store).events@ == old(store).events@.push(
                TokenEvent::WhitelistChanged { enabled: true },
            ),
    {
        store.whitelist_enabled = true;
        TokenEvents::whitelist_changed(&mut store.events, true);
        proof {
            lemma_nft_frame(*old(store), *store);
        }
    }

    pub fn disable(store: &mut TokenStore)
        requires
            old(store).wf(),
        ensures
            final(store).wf(),
            (TokenStore { whitelist_enabled: false, events: final(store).events, ..*old(store) })
                == *final(store),
            final(store).events@ == old(store).events@.push(
                TokenEvent::WhitelistChanged { enabled: false },
            ),
    {
        store.whitelist_enabled = false;
        TokenEvents::whitelist_changed(&mut store.events, false);
        proof {
            lemma_nft_frame(*old(store), *store);
        }
    }

    pub fn add(store: &mut TokenStore, addr: Address)
        requires
            old(store).wf(),
        ensures
            final(store).wf(),
            final(store).whitelisted@ == old(store).whitelisted@.insert(addr.0),
            final(store).nft_same(old(store)),
            final(store).sft_same(old(store)),
            final(store).admin == old(store).admin,
            final(store).paused == old(store).paused,
            final(store).whitelist_enabled == old(store).whitelist_enabled,
            final(store).royalty == old(store).royalty,
            final(store).name == old(store).name,
            final(store).symbol == old(store).symbol,
            final(store).events@ == old(store).events@.push(
                TokenEvent::WhitelistUpdated { addr, added: true },
            ),
    {
        store.whitelisted.insert(addr.0);
        TokenEvents::whitelist_updated(&mut store.events, addr, true);
        proof {
            lemma_nft_frame(*old(store), *store);
        }
    }

    pub fn remove(store: &mut TokenStore, addr: Address)
        requires
            old(store).wf(),
        ensures
            final(store).wf(),
            final(store).whitelisted@ == old(store).whitelisted@.remove(addr.0),
            final(store).nft_same(old(store)),
            final(store).sft_same(old(store)),
            final(store).admin == old(store).admin,
            final(store).paused == old(store).paused,
            final(store).whitelist_enabled == old(store).whitelist_enabled,
            final(store).royalty == old(store).royalty,
            final(store).name == old(store).name,
            final(store).symbol == old(store).symbol,
            final(store).events@ == old(store).events@.push(
                TokenEvent::WhitelistUpdated { addr, added: false },
            ),
    {
        store.whitelisted.remove(&addr.0);
        TokenEvents::whitelist_updated(&mut store.events, addr, false);
        proof {
            lemma_nft_frame(*old(store), *store);
        }
    }

    pub fn is_whitelisted(store: &TokenStore, addr: Address) -> (r: bool)
        ensures
            r == store.is_member(addr),
    {
        store.whitelisted.contains(&addr.0)
    }
}

/// Whether the whitelist is enforced.
pub fn is_enabled(store: &TokenStore) -> (r: bool)
    ensures
        r == store.whitelist_enabled,
{
    store.whitelist_enabled
}

/// Fails with NotWhitelisted unless `addr` is a member.
pub fn require_whitelisted(store: &TokenStore, addr: Address) -> (r: Result<(), TokenError>)
    ensures
        store.is_member(addr) <==> r is Ok,
        r is Err ==> r == Err::<(), TokenError>(TokenError::NotWhitelisted),
{
    if !WhitelistImpl::is_whitelisted(store, addr) {
        Err(TokenError::NotWhitelisted)
    } else {
        Ok(())
    }
}

} // verus!
