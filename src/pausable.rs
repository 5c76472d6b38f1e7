//! Pause switch: while paused, mints and transfers are refused; burns and
//! approvals still go through.

use vstd::prelude::*;
use crate::errors::TokenError;
use crate::events::{TokenEvent, TokenEvents};
use crate::state::{TokenStore, lemma_nft_frame};

verus! {

pub struct PausableImpl;

impl PausableImpl {
    pub fn pause(store: &mut TokenStore)
        requires
            old(store).wf(),
        ensures
            final(store).wf(),
            (TokenStore { paused: true, events: final(store).events, ..*old(store) })
                == *final(store),
            final(store).events@ == old(store).events@.push(TokenEvent::Paused),
    {
        store.paused = true;
        TokenEvents::paused(&mut store.events);
        proof {
            lemma_nft_frame(*old(store), *store);
        }
    }

    pub fn unpause(store: &mut TokenStore)
        requires
            old(store).wf(),
        ensures
            final(store).wf(),
            (TokenStore { paused: false, events: final(store).events, ..*old(store) })
                == *final(store),
            final(store).events@ == old(store).events@.push(TokenEvent::Unpaused),
    {
        store.paused = false;
        TokenEvents::unpaused(&mut store.events);
        proof {
            lemma_nft_frame(*old(store), *store);
        }
    }

    pub fn is_paused(store: &TokenStore) -> (r: bool)
        ensures
            r == store.paused,
    {
        store.paused
    }
}

/// Fails with Paused while the pause flag is set.
pub fn require_not_paused(store: &TokenStore) -> (r: Result<(), TokenError>)
    ensures
        store.paused ==> r == Err::<(), TokenError>(TokenError::Paused),
        !store.paused ==> r is Ok,
{
    if PausableImpl::is_paused(store) {
        Err(TokenError::Paused)
    } else {
        Ok(())
    }
}

} // verus!
