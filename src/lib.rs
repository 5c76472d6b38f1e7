//! Unified token ledger: unique tokens (NFTs), class-based semi-fungible
//! tokens, and the policy extensions (pause, royalty, whitelist) that gate
//! every mutating operation.
//!
//! All state lives in one [`state::TokenStore`]; every operation either
//! succeeds and records its events, or fails with a [`errors::TokenError`]
//! and leaves the store untouched.

pub mod errors;
pub mod events;
pub mod state;
pub mod nft;
pub mod semi_fungible;
pub mod pausable;
pub mod royalty;
pub mod whitelist;
pub mod contract;
pub mod multi_token;
pub mod guarantees;
pub mod storage_types;
