//! Royalty: one receiver and one rate in basis points (10000 = 100%),
//! applying to every sale.

use vstd::prelude::*;
use crate::errors::TokenError;
use crate::events::{TokenEvent, TokenEvents};
use crate::state::{Address, Royalty, TokenStore, lemma_nft_frame};

verus! {

/// Rate that applies to a sale: the configured one, or 0 before any is set.
pub open spec fn rate(store: TokenStore) -> u32 {
    match store.royalty {
        Some(r) => r.basis_points,
        None => 0,
    }
}

/// `floor(sale_price * basis_points / 10000)`.
pub open spec fn royalty_of(sale_price: u64, basis_points: u32) -> int {
    (sale_price as int * basis_points as int) / 10000
}

pub struct RoyaltyImpl;

impl RoyaltyImpl {
    /// Stores `receiver` and `basis_points`; rates above 10000 are refused.
    pub fn set_royalty(store: &mut TokenStore, receiver: Address, basis_points: u32) -> (r: Result<
        (),
        TokenError,
    >)
        requires
            old(store).wf(),
        ensures
            final(store).wf(),
            basis_points > 10000 ==> r == Err::<(), TokenError>(TokenError::InvalidBasisPoints),
            basis_points <= 10000 ==> r is Ok,
            r is Err ==> *final(store) == *old(store),
            r is Ok ==> (TokenStore {
                royalty: Some(Royalty { receiver, basis_points }),
                events: final(store).events,
                ..*old(store)
            }) == *final(store),
            r is Ok ==> final(store).events@ == old(store).events@.push(
                TokenEvent::RoyaltySet { receiver, basis_points },
            ),
    {
        if basis_points > 10000 {
            return Err(TokenError::InvalidBasisPoints);
        }
        store.royalty = Some(Royalty { receiver, basis_points });
        TokenEvents::royalty_set(&mut store.events, receiver, basis_points);
        proof {
            lemma_nft_frame(*old(store), *store);
        }
        Ok(())
    }

    /// The configured (receiver, basis points), or RoyaltyNotSet.
    pub fn get_royalty(store: &TokenStore) -> (r: Result<(Address, u32), TokenError>)
        ensures
            match store.royalty {
                Some(c) => r == Ok::<(Address, u32), TokenError>((c.receiver, c.basis_points)),
                None => r == Err::<(Address, u32), TokenError>(TokenError::RoyaltyNotSet),
            },
    {
        match store.royalty {
            Some(c) => Ok((c.receiver, c.basis_points)),
            None => Err(TokenError::RoyaltyNotSet),
        }
    }

    /// The royalty owed on `sale_price`; a rate of 0 applies before any is set.
    pub fn calculate(store: &TokenStore, sale_price: u64) -> (r: u64)
        requires
            store.wf(),
        ensures
            r == royalty_of(sale_price, rate(*store)),
    {
        let bps: u32 = match store.royalty {
            Some(c) => c.basis_points,
            None => 0,
        };
        assert(sale_price as int * bps as int <= 0xffff_ffff_ffff_ffff * 0xffff_ffff) by (
        nonlinear_arith)
            requires
                sale_price <= 0xffff_ffff_ffff_ffffu64,
                bps <= 0xffff_ffffu32,
        ;
        let product: u128 = sale_price as u128 * bps as u128;
        assert(product <= sale_price as int * 10000) by (nonlinear_arith)
            requires
                product == sale_price as int * bps as int,
                bps <= 10000,
        ;
        (product / 10000) as u64
    }
}

} // verus!
