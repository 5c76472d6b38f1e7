//! Structured notifications, one per successful mutating operation.

use vstd::prelude::*;
use crate::state::Address;

verus! {

/// One notification: a type tag and the identifiers, addresses and amounts
/// that the operation touched.
#[derive(Clone, Debug)]
pub enum TokenEvent {
    Initialized { admin: Address, name: String, symbol: String },
    AdminChanged { new_admin: Address },
    NftMinted { to: Address, token_id: u64, uri: String },
    NftTransferred { from: Address, to: Address, token_id: u64 },
    NftApproved { owner: Address, approved: Address, token_id: u64 },
    NftBurned { from: Address, token_id: u64 },
    SftClassCreated { class_id: u64, name: String, max_supply: u64 },
    SftMinted { to: Address, class_id: u64, amount: u64 },
    SftTransferred { from: Address, to: Address, class_id: u64, amount: u64 },
    SftBurned { from: Address, class_id: u64, amount: u64 },
    Paused,
    Unpaused,
    RoyaltySet { receiver: Address, basis_points: u32 },
    WhitelistChanged { enabled: bool },
    WhitelistUpdated { addr: Address, added: bool },
}

impl TokenEvent {
    /// The short topic tag under which the event is indexed.
    pub fn topic(&self) -> (r: &'static str)
        ensures
            r@ == self.spec_topic(),
    {
        match self {
            TokenEvent::Initialized { .. } => "init",
            TokenEvent::AdminChanged { .. } => "admin",
            TokenEvent::NftMinted { .. } => "nft_mint",
            TokenEvent::NftTransferred { .. } => "nft_xfr",
            TokenEvent::NftApproved { .. } => "nft_appr",
            TokenEvent::NftBurned { .. } => "nft_burn",
            TokenEvent::SftClassCreated { .. } => "sft_cls",
            TokenEvent::SftMinted { .. } => "sft_mint",
            TokenEvent::SftTransferred { .. } => "sft_xfr",
            TokenEvent::SftBurned { .. } => "sft_burn",
            TokenEvent::Paused => "paused",
            TokenEvent::Unpaused => "unpaused",
            TokenEvent::RoyaltySet { .. } => "royalty",
            TokenEvent::WhitelistChanged { .. } => "wl_toggle",
            TokenEvent::WhitelistUpdated { .. } => "wl_upd",
        }
    }

    pub open spec fn spec_topic(&self) -> Seq<char> {
        match self {
            TokenEvent::Initialized { .. } => "init"@,
            TokenEvent::AdminChanged { .. } => "admin"@,
            TokenEvent::NftMinted { .. } => "nft_mint"@,
            TokenEvent::NftTransferred { .. } => "nft_xfr"@,
            TokenEvent::NftApproved { .. } => "nft_appr"@,
            TokenEvent::NftBurned { .. } => "nft_burn"@,
            TokenEvent::SftClassCreated { .. } => "sft_cls"@,
            TokenEvent::SftMinted { .. } => "sft_mint"@,
            TokenEvent::SftTransferred { .. } => "sft_xfr"@,
            TokenEvent::SftBurned { .. } => "sft_burn"@,
            TokenEvent::Paused => "paused"@,
            TokenEvent::Unpaused => "unpaused"@,
            TokenEvent::RoyaltySet { .. } => "royalty"@,
            TokenEvent::WhitelistChanged { .. } => "wl_toggle"@,
            TokenEvent::WhitelistUpdated { .. } => "wl_upd"@,
        }
    }
}

/// Appends events to a log, one constructor per operation kind.
pub struct TokenEvents;

impl TokenEvents {
    pub fn initialized(log: &mut Vec<TokenEvent>, admin: Address, name: &String, symbol: &String)
        ensures
            final(log)@ == old(log)@.push(
                TokenEvent::Initialized { admin, name: *name, symbol: *symbol },
            ),
    {
        log.push(TokenEvent::Initialized { admin, name: name.clone(), symbol: symbol.clone() });
    }

    pub fn admin_changed(log: &mut Vec<TokenEvent>, new_admin: Address)
        ensures
            final(log)@ == old(log)@.push(TokenEvent::AdminChanged { new_admin }),
    {
        log.push(TokenEvent::AdminChanged { new_admin });
    }

    pub fn nft_minted(log: &mut Vec<TokenEvent>, to: Address, token_id: u64, uri: &String)
        ensures
            final(log)@ == old(log)@.push(TokenEvent::NftMinted { to, token_id, uri: *uri }),
    {
        log.push(TokenEvent::NftMinted { to, token_id, uri: uri.clone() });
    }

    pub fn nft_transferred(log: &mut Vec<TokenEvent>, from: Address, to: Address, token_id: u64)
        ensures
            final(log)@ == old(log)@.push(TokenEvent::NftTransferred { from, to, token_id }),
    {
        log.push(TokenEvent::NftTransferred { from, to, token_id });
    }

    pub fn nft_approved(
        log: &mut Vec<TokenEvent>,
        owner: Address,
        approved: Address,
        token_id: u64,
    )
        ensures
            final(log)@ == old(log)@.push(TokenEvent::NftApproved { owner, approved, token_id }),
    {
        log.push(TokenEvent::NftApproved { owner, approved, token_id });
    }

    pub fn nft_burned(log: &mut Vec<TokenEvent>, from: Address, token_id: u64)
        ensures
            final(log)@ == old(log)@.push(TokenEvent::NftBurned { from, token_id }),
    {
        log.push(TokenEvent::NftBurned { from, token_id });
    }

    pub fn sft_class_created(
        log: &mut Vec<TokenEvent>,
        class_id: u64,
        name: &String,
        max_supply: u64,
    )
        ensures
            final(log)@ == old(log)@.push(
                TokenEvent::SftClassCreated { class_id, name: *name, max_supply },
            ),
    {
        log.push(TokenEvent::SftClassCreated { class_id, name: name.clone(), max_supply });
    }

    pub fn sft_minted(log: &mut Vec<TokenEvent>, to: Address, class_id: u64, amount: u64)
        ensures
            final(log)@ == old(log)@.push(TokenEvent::SftMinted { to, class_id, amount }),
    {
        log.push(TokenEvent::SftMinted { to, class_id, amount });
    }

    pub fn sft_transferred(
        log: &mut Vec<TokenEvent>,
        from: Address,
        to: Address,
        class_id: u64,
        amount: u64,
    )
        ensures
            final(log)@ == old(log)@.push(
                TokenEvent::SftTransferred { from, to, class_id, amount },
            ),
    {
        log.push(TokenEvent::SftTransferred { from, to, class_id, amount });
    }

    pub fn sft_burned(log: &mut Vec<TokenEvent>, from: Address, class_id: u64, amount: u64)
        ensures
            final(log)@ == old(log)@.push(TokenEvent::SftBurned { from, class_id, amount }),
    {
        log.push(TokenEvent::SftBurned { from, class_id, amount });
    }

    pub fn paused(log: &mut Vec<TokenEvent>)
        ensures
            final(log)@ == old(log)@.push(TokenEvent::Paused),
    {
        log.push(TokenEvent::Paused);
    }

    pub fn unpaused(log: &mut Vec<TokenEvent>)
        ensures
            final(log)@ == old(log)@.push(TokenEvent::Unpaused),
    {
        log.push(TokenEvent::Unpaused);
    }

    pub fn royalty_set(log: &mut Vec<TokenEvent>, receiver: Address, basis_points: u32)
        ensures
            final(log)@ == old(log)@.push(TokenEvent::RoyaltySet { receiver, basis_points }),
    {
        log.push(TokenEvent::RoyaltySet { receiver, basis_points });
    }

    pub fn whitelist_changed(log: &mut Vec<TokenEvent>, enabled: bool)
        ensures
            final(log)@ == old(log)@.push(TokenEvent::WhitelistChanged { enabled }),
    {
        log.push(TokenEvent::WhitelistChanged { enabled });
    }

    pub fn whitelist_updated(log: &mut Vec<TokenEvent>, addr: Address, added: bool)
        ensures
            final(log)@ == old(log)@.push(TokenEvent::WhitelistUpdated { addr, added }),
    {
        log.push(TokenEvent::WhitelistUpdated { addr, added });
    }
}

} // verus!
