//! The ledger's entry points: each checks the caller-side guards (admin,
//! pause, whitelist) and then runs one ledger operation on the store.

use vstd::prelude::*;
use crate::errors::TokenError;
use crate::events::{TokenEvent, TokenEvents};
use crate::nft::NftImpl;
use crate::pausable::{PausableImpl, require_not_paused};
use crate::royalty::{RoyaltyImpl, rate, royalty_of};
use crate::semi_fungible::{SftImpl, batch_outcome, leg_outcome};
use crate::state::{Address, TokenStore, lemma_nft_frame};
use crate::whitelist::{WhitelistImpl, is_enabled, require_whitelisted};

verus! {

/// `Ok` when `caller` is the recorded admin; NotInitialized before
/// initialisation, Unauthorized for anyone else.
pub open spec fn admin_check(store: TokenStore, caller: Address) -> Result<(), TokenError> {
    match store.admin {
        None => Err(TokenError::NotInitialized),
        Some(a) => if a == caller {
            Ok(())
        } else {
            Err(TokenError::Unauthorized)
        },
    }
}

/// `Ok` when a transfer to `to` may proceed: not paused, and `to` is a
/// member whenever the whitelist is enabled.
pub open spec fn transfer_guard(store: TokenStore, to: Address) -> Result<(), TokenError> {
    if store.paused {
        Err(TokenError::Paused)
    } else if store.whitelist_enabled && !store.is_member(to) {
        Err(TokenError::NotWhitelisted)
    } else {
        Ok(())
    }
}

/// Fails unless `caller` is the recorded admin.
pub fn require_admin(store: &TokenStore, caller: Address) -> (r: Result<(), TokenError>)
    ensures
        r == admin_check(*store, caller),
{
    match store.admin {
        None => Err(TokenError::NotInitialized),
        Some(a) => if a == caller {
            Ok(())
        } else {
            Err(TokenError::Unauthorized)
        },
    }
}

fn require_transfer_allowed(store: &TokenStore, to: Address) -> (r: Result<(), TokenError>)
    ensures
        r == transfer_guard(*store, to),
{
    require_not_paused(store)?;
    if is_enabled(store) {
        require_whitelisted(store, to)?;
    }
    Ok(())
}

/// The token contract: one store, reached only through guarded entry points.
pub struct AdvancedTokenContract {
    pub store: TokenStore,
}

impl AdvancedTokenContract {
    /// The store's invariant, and nothing minted or created before an
    /// admin exists.
    pub open spec fn wf(&self) -> bool {
        &&& self.store.wf()
        &&& self.store.admin is None ==> self.store.nft_counter == 0
            && self.store.class_counter == 0
    }

    /// A contract that has not been initialised yet.
    pub fn new() -> (r: AdvancedTokenContract)
        ensures
            r.wf(),
            r.store.admin is None,
            !r.store.paused,
            !r.store.whitelist_enabled,
            r.store.royalty is None,
            r.store.nft_counter == 0,
            r.store.class_counter == 0,
            r.store.nft_balances@ == Map::<u64, u64>::empty(),
            r.store.sft_balances@ == Map::<u128, u64>::empty(),
            r.store.whitelisted@ == Set::<u64>::empty(),
            r.store.events@.len() == 0,
    {
        AdvancedTokenContract { store: TokenStore::new() }
    }

    /// Records the admin, name and symbol; refused once an admin exists.
    pub fn initialize(&mut self, admin: Address, name: String, symbol: String) -> (r: Result<
        (),
        TokenError,
    >)
        requires
            old(self).wf(),
        ensures
            final(self).wf(),
            r is Err <==> old(self).store.admin is Some,
            r is Err ==> r == Err::<(), TokenError>(TokenError::AlreadyInitialized),
            r is Err ==> *final(self) == *old(self),
            r is Ok ==> {
                &&& final(self).store.admin == Some(admin)
                &&& final(self).store.name == name
                &&& final(self).store.symbol == symbol
                &&& !final(self).store.paused
                &&& final(self).store.nft_counter == 0
                &&& final(self).store.class_counter == 0
                &&& final(self).store.nft_same(&old(self).store)
                &&& final(self).store.sft_same(&old(self).store)
                &&& final(self).store.whitelist_enabled == old(self).store.whitelist_enabled
                &&& final(self).store.whitelisted@ == old(self).store.whitelisted@
                &&& final(self).store.royalty == old(self).store.royalty
                &&& final(self).store.events@ == old(self).store.events@.push(
                    TokenEvent::Initialized { admin, name, symbol },
                )
            },
    {
        if self.store.admin.is_some() {
            return Err(TokenError::AlreadyInitialized);
        }
        TokenEvents::initialized(&mut self.store.events, admin, &name, &symbol);
        self.store.admin = Some(admin);
        self.store.name = name;
        self.store.symbol = symbol;
        self.store.paused = false;
        proof {
            lemma_nft_frame(old(self).store, self.store);
        }
        Ok(())
    }

    /// The admin, for the admin only.
    pub fn get_admin(&self, caller: Address) -> (r: Result<Address, TokenError>)
        ensures
            match admin_check(self.store, caller) {
                Ok(_) => r == Ok::<Address, TokenError>(caller),
                Err(e) => r == Err::<Address, TokenError>(e),
            },
    {
        require_admin(&self.store, caller)?;
        Ok(caller)
    }

    /// Hands the admin role to `new_admin`; only the admin may.
    pub fn set_admin(&mut self, caller: Address, new_admin: Address) -> (r: Result<(), TokenError>)
        requires
            old(self).wf(),
        ensures
            final(self).wf(),
            r == admin_check(old(self).store, caller),
            r is Err ==> *final(self) == *old(self),
            r is Ok ==> (TokenStore {
                admin: Some(new_admin),
                events: final(self).store.events,
                ..old(self).store
            }) == final(self).store,
            r is Ok ==> final(self).store.events@ == old(self).store.events@.push(
                TokenEvent::AdminChanged { new_admin },
            ),
    {
        require_admin(&self.store, caller)?;
        self.store.admin = Some(new_admin);
        TokenEvents::admin_changed(&mut self.store.events, new_admin);
        proof {
            lemma_nft_frame(old(self).store, self.store);
        }
        Ok(())
    }

    /// Mints a new token to `to`; admin only, refused while paused.
    pub fn nft_mint(&mut self, caller: Address, to: Address, uri: String) -> (r: Result<
        u64,
        TokenError,
    >)
        requires
            old(self).wf(),
        ensures
            final(self).wf(),
            match admin_check(old(self).store, caller) {
                Err(e) => r == Err::<u64, TokenError>(e),
                Ok(_) => if old(self).store.paused {
                    r == Err::<u64, TokenError>(TokenError::Paused)
                } else if old(self).store.nft_counter == u64::MAX {
                    r == Err::<u64, TokenError>(TokenError::ArithmeticOverflow)
                } else {
                    r is Ok
                },
            },
            r is Ok ==> NftImpl::minted(old(self).store, final(self).store, to, uri, r->Ok_0),
            r is Err ==> *final(self) == *old(self),
    {
        require_admin(&self.store, caller)?;
        require_not_paused(&self.store)?;
        NftImpl::mint(&mut self.store, to, uri)
    }

    /// Moves `token_id` from its owner `from` to `to`; refused while paused
    /// and, with the whitelist on, unless `to` is a member.
    pub fn nft_transfer(&mut self, from: Address, to: Address, token_id: u64) -> (r: Result<
        (),
        TokenError,
    >)
        requires
            old(self).wf(),
        ensures
            final(self).wf(),
            match transfer_guard(old(self).store, to) {
                Err(e) => r == Err::<(), TokenError>(e),
                Ok(_) => r == NftImpl::owner_check(old(self).store, from, token_id),
            },
            r is Ok ==> NftImpl::transferred(
                old(self).store,
                final(self).store,
                from,
                to,
                token_id,
                old(self).store.token(token_id)->Some_0.approved,
            ),
            r is Err ==> *final(self) == *old(self),
    {
        require_transfer_allowed(&self.store, to)?;
        NftImpl::transfer(&mut self.store, from, to, token_id)
    }

    /// Records `approved` as the spender of `token_id`; allowed while paused.
    pub fn nft_approve(&mut self, owner: Address, approved: Address, token_id: u64) -> (r: Result<
        (),
        TokenError,
    >)
        requires
            old(self).wf(),
        ensures
            final(self).wf(),
            r == NftImpl::owner_check(old(self).store, owner, token_id),
            r is Ok ==> NftImpl::approval_set(
                old(self).store,
                final(self).store,
                owner,
                approved,
                token_id,
            ),
            r is Err ==> *final(self) == *old(self),
    {
        NftImpl::approve(&mut self.store, owner, approved, token_id)
    }

    /// Moves `token_id` on behalf of its approved spender; refused while
    /// paused.
    pub fn nft_transfer_from(
        &mut self,
        spender: Address,
        from: Address,
        to: Address,
        token_id: u64,
    ) -> (r: Result<(), TokenError>)
        requires
            old(self).wf(),
        ensures
            final(self).wf(),
            old(self).store.paused ==> r == Err::<(), TokenError>(TokenError::Paused),
            !old(self).store.paused ==> r == NftImpl::transfer_from_outcome(
                old(self).store,
                spender,
                from,
                token_id,
            ),
            r is Ok ==> NftImpl::transferred(
                old(self).store,
                final(self).store,
                from,
                to,
                token_id,
                None,
            ),
            r is Err ==> *final(self) == *old(self),
    {
        require_not_paused(&self.store)?;
        NftImpl::transfer_from(&mut self.store, spender, from, to, token_id)
    }

    /// Burns `token_id`, owned by `from`; allowed while paused.
    pub fn nft_burn(&mut self, from: Address, token_id: u64) -> (r: Result<(), TokenError>)
        requires
            old(self).wf(),
        ensures
            final(self).wf(),
            r == NftImpl::owner_check(old(self).store, from, token_id),
            r is Ok ==> NftImpl::burned(old(self).store, final(self).store, from, token_id),
            r is Err ==> *final(self) == *old(self),
    {
        NftImpl::burn(&mut self.store, from, token_id)
    }

    pub fn nft_owner_of(&self, token_id: u64) -> (r: Result<Address, TokenError>)
        ensures
            match self.store.token(token_id) {
                Some(t) => r == Ok::<Address, TokenError>(t.owner),
                None => r == Err::<Address, TokenError>(TokenError::NftNotFound),
            },
    {
        NftImpl::owner_of(&self.store, token_id)
    }

    pub fn nft_token_uri(&self, token_id: u64) -> (r: Result<String, TokenError>)
        ensures
            match self.store.token(token_id) {
                Some(t) => r is Ok && r->Ok_0@ == t.uri@,
                None => r == Err::<String, TokenError>(TokenError::NftNotFound),
            },
    {
        NftImpl::token_uri(&self.store, token_id)
    }

    pub fn nft_balance_of(&self, owner: Address) -> (r: u64)
        ensures
            r == self.store.nft_balance(owner),
    {
        NftImpl::balance_of(&self.store, owner)
    }

    pub fn nft_total_supply(&self) -> (r: u64)
        ensures
            r == self.store.nft_counter,
    {
        NftImpl::total_supply(&self.store)
    }

    /// Creates a semi-fungible class; admin only.
    pub fn sft_create_class(
        &mut self,
        caller: Address,
        name: String,
        uri: String,
        max_supply: u64,
    ) -> (r: Result<u64, TokenError>)
        requires
            old(self).wf(),
        ensures
            final(self).wf(),
            match admin_check(old(self).store, caller) {
                Err(e) => r == Err::<u64, TokenError>(e),
                Ok(_) => if old(self).store.class_counter == u64::MAX {
                    r == Err::<u64, TokenError>(TokenError::ArithmeticOverflow)
                } else {
                    r is Ok
                },
            },
            r is Ok ==> SftImpl::created(
                old(self).store,
                final(self).store,
                name,
                uri,
                max_supply,
                r->Ok_0,
            ),
            r is Err ==> *final(self) == *old(self),
    {
        require_admin(&self.store, caller)?;
        SftImpl::create_class(&mut self.store, name, uri, max_supply)
    }

    /// Mints `amount` of `class_id` to `to`; admin only, refused while paused.
    pub fn sft_mint(&mut self, caller: Address, to: Address, class_id: u64, amount: u64) -> (r:
        Result<(), TokenError>)
        requires
            old(self).wf(),
        ensures
            final(self).wf(),
            match admin_check(old(self).store, caller) {
                Err(e) => r == Err::<(), TokenError>(e),
                Ok(_) => if old(self).store.paused {
                    r == Err::<(), TokenError>(TokenError::Paused)
                } else {
                    r == SftImpl::mint_outcome(old(self).store, to, class_id, amount)
                },
            },
            r is Ok ==> SftImpl::minted(old(self).store, final(self).store, to, class_id, amount),
            r is Err ==> *final(self) == *old(self),
    {
        require_admin(&self.store, caller)?;
        require_not_paused(&self.store)?;
        SftImpl::mint(&mut self.store, to, class_id, amount)
    }

    /// Moves `amount` of `class_id` from `from` to `to`; refused while
    /// paused and, with the whitelist on, unless `to` is a member.
    pub fn sft_transfer(
        &mut self,
        from: Address,
        to: Address,
        class_id: u64,
        amount: u64,
    ) -> (r: Result<(), TokenError>)
        requires
            old(self).wf(),
        ensures
            final(self).wf(),
            match transfer_guard(old(self).store, to) {
                Err(e) => r == Err::<(), TokenError>(e),
                Ok(_) => match leg_outcome(
                    old(self).store.sft_balances@,
                    old(self).store.class_counter,
                    from,
                    to,
                    class_id,
                    amount,
                ) {
                    Ok(m) => r is Ok && SftImpl::moved(
                        old(self).store,
                        final(self).store,
                        m,
                        from,
                        to,
                        class_id,
                        amount,
                    ),
                    Err(e) => r == Err::<(), TokenError>(e),
                },
            },
            r is Err ==> *final(self) == *old(self),
    {
        require_transfer_allowed(&self.store, to)?;
        SftImpl::transfer(&mut self.store, from, to, class_id, amount)
    }

    /// Applies all legs or none; refused while paused. The recipient is not
    /// checked against the whitelist here.
    pub fn sft_batch_transfer(
        &mut self,
        from: Address,
        to: Address,
        class_ids: Vec<u64>,
        amounts: Vec<u64>,
    ) -> (r: Result<(), TokenError>)
        requires
            old(self).wf(),
        ensures
            final(self).wf(),
            old(self).store.paused ==> r == Err::<(), TokenError>(TokenError::Paused),
            !old(self).store.paused && class_ids@.len() != amounts@.len() ==> r == Err::<
                (),
                TokenError,
            >(TokenError::SftBatchLengthMismatch),
            !old(self).store.paused && class_ids@.len() == amounts@.len() ==> match batch_outcome(
                old(self).store.sft_balances@,
                old(self).store.class_counter,
                from,
                to,
                class_ids@,
                amounts@,
            ) {
                Ok(m) => r is Ok && SftImpl::batch_moved(
                    old(self).store,
                    final(self).store,
                    m,
                    from,
                    to,
                    class_ids@,
                    amounts@,
                ),
                Err(e) => r == Err::<(), TokenError>(e),
            },
            r is Err ==> *final(self) == *old(self),
    {
        require_not_paused(&self.store)?;
        SftImpl::batch_transfer(&mut self.store, from, to, &class_ids, &amounts)
    }

    /// Burns `amount` of `class_id` held by `from`; allowed while paused.
    pub fn sft_burn(&mut self, from: Address, class_id: u64, amount: u64) -> (r: Result<
        (),
        TokenError,
    >)
        requires
            old(self).wf(),
        ensures
            final(self).wf(),
            r == SftImpl::burn_outcome(old(self).store, from, class_id, amount),
            r is Ok ==> SftImpl::burned(old(self).store, final(self).store, from, class_id, amount),
            r is Err ==> *final(self) == *old(self),
    {
        SftImpl::burn(&mut self.store, from, class_id, amount)
    }

    pub fn sft_balance_of(&self, owner: Address, class_id: u64) -> (r: u64)
        ensures
            r == self.store.sft_balance(owner, class_id),
    {
        SftImpl::balance_of(&self.store, owner, class_id)
    }

    pub fn sft_class_supply(&self, class_id: u64) -> (r: Result<u64, TokenError>)
        requires
            self.wf(),
        ensures
            class_id < self.store.class_counter ==> r == Ok::<u64, TokenError>(
                self.store.classes@[class_id as int].supply,
            ),
            class_id >= self.store.class_counter ==> r == Err::<u64, TokenError>(
                TokenError::SftClassNotFound,
            ),
    {
        SftImpl::class_supply(&self.store, class_id)
    }

    pub fn sft_class_uri(&self, class_id: u64) -> (r: Result<String, TokenError>)
        requires
            self.wf(),
        ensures
            class_id < self.store.class_counter ==> r is Ok && r->Ok_0@
                == self.store.classes@[class_id as int].uri@,
            class_id >= self.store.class_counter ==> r == Err::<String, TokenError>(
                TokenError::SftClassNotFound,
            ),
    {
        SftImpl::class_uri(&self.store, class_id)
    }

    /// Sets the pause flag; admin only.
    pub fn pause(&mut self, caller: Address) -> (r: Result<(), TokenError>)
        requires
            old(self).wf(),
        ensures
            final(self).wf(),
            r == admin_check(old(self).store, caller),
            r is Err ==> *final(self) == *old(self),
            r is Ok ==> (TokenStore {
                paused: true,
                events: final(self).store.events,
                ..old(self).store
            }) == final(self).store,
            r is Ok ==> final(self).store.events@ == old(self).store.events@.push(
                TokenEvent::Paused,
            ),
    {
        require_admin(&self.store, caller)?;
        PausableImpl::pause(&mut self.store);
        Ok(())
    }

    /// Clears the pause flag; admin only.
    pub fn unpause(&mut self, caller: Address) -> (r: Result<(), TokenError>)
        requires
            old(self).wf(),
        ensures
            final(self).wf(),
            r == admin_check(old(self).store, caller),
            r is Err ==> *final(self) == *old(self),
            r is Ok ==> (TokenStore {
                paused: false,
                events: final(self).store.events,
                ..old(self).store
            }) == final(self).store,
            r is Ok ==> final(self).store.events@ == old(self).store.events@.push(
                TokenEvent::Unpaused,
            ),
    {
        require_admin(&self.store, caller)?;
        PausableImpl::unpause(&mut self.store);
        Ok(())
    }

    pub fn is_paused(&self) -> (r: bool)
        ensures
            r == self.store.paused,
    {
        PausableImpl::is_paused(&self.store)
    }

    /// Configures the royalty; admin only, at most 10000 basis points.
    pub fn set_royalty(&mut self, caller: Address, receiver: Address, basis_points: u32) -> (r:
        Result<(), TokenError>)
        requires
            old(self).wf(),
        ensures
            final(self).wf(),
            match admin_check(old(self).store, caller) {
                Err(e) => r == Err::<(), TokenError>(e),
                Ok(_) => if basis_points > 10000 {
                    r == Err::<(), TokenError>(TokenError::InvalidBasisPoints)
                } else {
                    r is Ok
                },
            },
            r is Err ==> *final(self) == *old(self),
            r is Ok ==> final(self).store.royalty == Some(
                crate::state::Royalty { receiver, basis_points },
            ),
            r is Ok ==> final(self).store.nft_same(&old(self).store) && final(self).store.sft_same(
                &old(self).store,
            ),
            r is Ok ==> final(self).store.events@ == old(self).store.events@.push(
                TokenEvent::RoyaltySet { receiver, basis_points },
            ),
    {
        require_admin(&self.store, caller)?;
        RoyaltyImpl::set_royalty(&mut self.store, receiver, basis_points)
    }

    pub fn get_royalty(&self) -> (r: Result<(Address, u32), TokenError>)
        ensures
            match self.store.royalty {
                Some(c) => r == Ok::<(Address, u32), TokenError>((c.receiver, c.basis_points)),
                None => r == Err::<(Address, u32), TokenError>(TokenError::RoyaltyNotSet),
            },
    {
        RoyaltyImpl::get_royalty(&self.store)
    }

    pub fn royalty_amount(&self, sale_price: u64) -> (r: u64)
        requires
            self.wf(),
        ensures
            r == royalty_of(sale_price, rate(self.store)),
    {
        RoyaltyImpl::calculate(&self.store, sale_price)
    }

    /// Turns the whitelist on; admin only. Membership is untouched.
    pub fn enable_whitelist(&mut self, caller: Address) -> (r: Result<(), TokenError>)
        requires
            old(self).wf(),
        ensures
            final(self).wf(),
            r == admin_check(old(self).store, caller),
            r is Err ==> *final(self) == *old(self),
            r is Ok ==> (TokenStore {
                whitelist_enabled: true,
                events: final(self).store.events,
                ..old(self).store
            }) == final(self).store,
    {
        require_admin(&self.store, caller)?;
        WhitelistImpl::enable(&mut self.store);
        Ok(())
    }

    /// Turns the whitelist off; admin only. Membership is untouched.
    pub fn disable_whitelist(&mut self, caller: Address) -> (r: Result<(), TokenError>)
        requires
            old(self).wf(),
        ensures
            final(self).wf(),
            r == admin_check(old(self).store, caller),
            r is Err ==> *final(self) == *old(self),
            r is Ok ==> (TokenStore {
                whitelist_enabled: false,
                events: final(self).store.events,
                ..old(self).store
            }) == final(self).store,
    {
        require_admin(&self.store, caller)?;
        WhitelistImpl::disable(&mut self.store);
        Ok(())
    }

    /// Adds `addr` to the whitelist; admin only.
    pub fn add_to_whitelist(&mut self, caller: Address, addr: Address) -> (r: Result<
        (),
        TokenError,
    >)
        requires
            old(self).wf(),
        ensures
            final(self).wf(),
            r == admin_check(old(self).store, caller),
            r is Err ==> *final(self) == *old(self),
            r is Ok ==> final(self).store.whitelisted@ == old(self).store.whitelisted@.insert(
                addr.0,
            ),
            r is Ok ==> final(self).store.nft_same(&old(self).store) && final(self).store.sft_same(
                &old(self).store,
            ),
            r is Ok ==> final(self).store.paused == old(self).store.paused
                && final(self).store.whitelist_enabled == old(self).store.whitelist_enabled,
    {
        require_admin(&self.store, caller)?;
        WhitelistImpl::add(&mut self.store, addr);
        Ok(())
    }

    /// Removes `addr` from the whitelist; admin only.
    pub fn remove_from_whitelist(&mut self, caller: Address, addr: Address) -> (r: Result<
        (),
        TokenError,
    >)
        requires
            old(self).wf(),
        ensures
            final(self).wf(),
            r == admin_check(old(self).store, caller),
            r is Err ==> *final(self) == *old(self),
            r is Ok ==> final(self).store.whitelisted@ == old(self).store.whitelisted@.remove(
                addr.0,
            ),
            r is Ok ==> final(self).store.nft_same(&old(self).store) && final(self).store.sft_same(
                &old(self).store,
            ),
            r is Ok ==> final(self).store.paused == old(self).store.paused
                && final(self).store.whitelist_enabled == old(self).store.whitelist_enabled,
    {
        require_admin(&self.store, caller)?;
        WhitelistImpl::remove(&mut self.store, addr);
        Ok(())
    }

    pub fn is_whitelisted(&self, addr: Address) -> (r: bool)
        ensures
            r == self.store.is_member(addr),
    {
        WhitelistImpl::is_whitelisted(&self.store, addr)
    }

    /// The token name, once initialised.
    pub fn name(&self) -> (r: Result<String, TokenError>)
        ensures
            self.store.admin is None ==> r == Err::<String, TokenError>(
                TokenError::NotInitialized,
            ),
            self.store.admin is Some ==> r is Ok && r->Ok_0 == self.store.name,
    {
        if self.store.admin.is_none() {
            return Err(TokenError::NotInitialized);
        }
        Ok(self.store.name.clone())
    }

    /// The token symbol, once initialised.
    pub fn symbol(&self) -> (r: Result<String, TokenError>)
        ensures
            self.store.admin is None ==> r == Err::<String, TokenError>(
                TokenError::NotInitialized,
            ),
            self.store.admin is Some ==> r is Ok && r->Ok_0 == self.store.symbol,
    {
        if self.store.admin.is_none() {
            return Err(TokenError::NotInitialized);
        }
        Ok(self.store.symbol.clone())
    }
}

} // verus!
