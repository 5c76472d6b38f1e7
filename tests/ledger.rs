use stellara_token::contract::AdvancedTokenContract;
use stellara_token::errors::TokenError;
use stellara_token::events::TokenEvent;
use stellara_token::state::Address;

const ADMIN: Address = Address(1);
const ALICE: Address = Address(2);
const BOB: Address = Address(3);
const CAROL: Address = Address(4);

fn setup() -> AdvancedTokenContract {
    let mut c = AdvancedTokenContract::new();
    c.initialize(ADMIN, "Stellara".to_string(), "STL".to_string()).unwrap();
    c
}

fn owned_count(c: &AdvancedTokenContract, who: Address) -> u64 {
    let mut n = 0;
    for id in 0..c.nft_total_supply() {
        if c.nft_owner_of(id) == Ok(who) {
            n += 1;
        }
    }
    n
}

#[test]
fn nft_mint_transfer_scenario() {
    let mut c = setup();
    assert_eq!(c.nft_mint(ADMIN, ALICE, "ipfs://1".to_string()), Ok(0));
    assert_eq!(c.nft_balance_of(ALICE), 1);
    assert_eq!(c.nft_transfer(ALICE, BOB, 0), Ok(()));
    assert_eq!(c.nft_owner_of(0), Ok(BOB));
    assert_eq!(c.nft_balance_of(ALICE), 0);
    assert_eq!(c.nft_balance_of(BOB), 1);
    assert_eq!(c.nft_token_uri(0), Ok("ipfs://1".to_string()));
}

#[test]
fn sft_gold_cap_scenario() {
    let mut c = setup();
    assert_eq!(
        c.sft_create_class(ADMIN, "Gold".to_string(), "ipfs://gold".to_string(), 100),
        Ok(0)
    );
    assert_eq!(c.sft_mint(ADMIN, ALICE, 0, 100), Ok(()));
    assert_eq!(c.sft_mint(ADMIN, ALICE, 0, 1), Err(TokenError::SftMaxSupplyExceeded));
    assert_eq!(c.sft_class_supply(0), Ok(100));
    assert_eq!(c.sft_balance_of(ALICE, 0), 100);
    assert_eq!(c.sft_class_uri(0), Ok("ipfs://gold".to_string()));
}

#[test]
fn pause_blocks_mint_but_not_burn() {
    let mut c = setup();
    c.nft_mint(ADMIN, ALICE, "ipfs://1".to_string()).unwrap();
    assert_eq!(c.pause(ADMIN), Ok(()));
    assert!(c.is_paused());
    assert_eq!(c.nft_mint(ADMIN, ALICE, "ipfs://2".to_string()), Err(TokenError::Paused));
    assert_eq!(c.nft_transfer(ALICE, BOB, 0), Err(TokenError::Paused));
    assert_eq!(c.nft_approve(ALICE, BOB, 0), Ok(()));
    assert_eq!(c.nft_burn(ALICE, 0), Ok(()));
    assert_eq!(c.nft_owner_of(0), Err(TokenError::NftNotFound));
    assert_eq!(c.unpause(ADMIN), Ok(()));
    assert!(!c.is_paused());
    assert_eq!(c.nft_mint(ADMIN, ALICE, "ipfs://2".to_string()), Ok(1));
}

#[test]
fn whitelist_gates_recipient() {
    let mut c = setup();
    c.nft_mint(ADMIN, ALICE, "ipfs://1".to_string()).unwrap();
    assert_eq!(c.enable_whitelist(ADMIN), Ok(()));
    assert_eq!(c.nft_transfer(ALICE, CAROL, 0), Err(TokenError::NotWhitelisted));
    assert_eq!(c.nft_owner_of(0), Ok(ALICE));
    assert_eq!(c.add_to_whitelist(ADMIN, CAROL), Ok(()));
    assert!(c.is_whitelisted(CAROL));
    assert_eq!(c.nft_transfer(ALICE, CAROL, 0), Ok(()));
    assert_eq!(c.nft_owner_of(0), Ok(CAROL));
}

#[test]
fn whitelist_membership_survives_toggle() {
    let mut c = setup();
    c.add_to_whitelist(ADMIN, BOB).unwrap();
    c.enable_whitelist(ADMIN).unwrap();
    c.disable_whitelist(ADMIN).unwrap();
    c.enable_whitelist(ADMIN).unwrap();
    assert!(c.is_whitelisted(BOB));
    c.remove_from_whitelist(ADMIN, BOB).unwrap();
    assert!(!c.is_whitelisted(BOB));
}

#[test]
fn balances_track_ownership_through_mixed_ops() {
    let mut c = setup();
    for i in 0..5 {
        c.nft_mint(ADMIN, if i % 2 == 0 { ALICE } else { BOB }, format!("ipfs://{}", i))
            .unwrap();
    }
    c.nft_transfer(ALICE, BOB, 0).unwrap();
    c.nft_transfer(BOB, CAROL, 1).unwrap();
    c.nft_burn(ALICE, 2).unwrap();
    c.nft_transfer(BOB, BOB, 3).unwrap();
    for who in [ALICE, BOB, CAROL, ADMIN] {
        assert_eq!(c.nft_balance_of(who), owned_count(&c, who));
    }
    assert_eq!(c.nft_balance_of(ALICE), 1);
    assert_eq!(c.nft_balance_of(BOB), 2);
    assert_eq!(c.nft_balance_of(CAROL), 1);
    assert_eq!(c.nft_total_supply(), 5);
}

#[test]
fn burn_does_not_lower_total_supply() {
    let mut c = setup();
    c.nft_mint(ADMIN, ALICE, "a".to_string()).unwrap();
    c.nft_mint(ADMIN, ALICE, "b".to_string()).unwrap();
    c.nft_burn(ALICE, 0).unwrap();
    assert_eq!(c.nft_total_supply(), 2);
    assert_eq!(c.nft_mint(ADMIN, ALICE, "c".to_string()), Ok(2));
}

#[test]
fn cap_failure_changes_nothing() {
    let mut c = setup();
    c.sft_create_class(ADMIN, "Silver".to_string(), "u".to_string(), 10).unwrap();
    c.sft_mint(ADMIN, ALICE, 0, 7).unwrap();
    let events = c.store.events.len();
    assert_eq!(c.sft_mint(ADMIN, BOB, 0, 4), Err(TokenError::SftMaxSupplyExceeded));
    assert_eq!(c.sft_class_supply(0), Ok(7));
    assert_eq!(c.sft_balance_of(BOB, 0), 0);
    assert_eq!(c.store.events.len(), events);
    assert_eq!(c.sft_mint(ADMIN, BOB, 0, 3), Ok(()));
    assert_eq!(c.sft_class_supply(0), Ok(10));
}

#[test]
fn unlimited_class_stops_at_overflow() {
    let mut c = setup();
    c.sft_create_class(ADMIN, "Free".to_string(), "u".to_string(), 0).unwrap();
    c.sft_mint(ADMIN, ALICE, 0, u64::MAX).unwrap();
    assert_eq!(c.sft_mint(ADMIN, ALICE, 0, 1), Err(TokenError::ArithmeticOverflow));
    assert_eq!(c.sft_class_supply(0), Ok(u64::MAX));
}

#[test]
fn sft_transfer_moves_exact_amount() {
    let mut c = setup();
    c.sft_create_class(ADMIN, "Gold".to_string(), "g".to_string(), 0).unwrap();
    c.sft_mint(ADMIN, ALICE, 0, 50).unwrap();
    assert_eq!(c.sft_transfer(ALICE, BOB, 0, 20), Ok(()));
    assert_eq!(c.sft_balance_of(ALICE, 0), 30);
    assert_eq!(c.sft_balance_of(BOB, 0), 20);
    assert_eq!(c.sft_class_supply(0), Ok(50));
    assert_eq!(c.sft_transfer(ALICE, BOB, 0, 31), Err(TokenError::SftInsufficientBalance));
    assert_eq!(c.sft_balance_of(ALICE, 0), 30);
    assert_eq!(c.sft_balance_of(BOB, 0), 20);
    assert_eq!(c.sft_transfer(ALICE, ALICE, 0, 30), Ok(()));
    assert_eq!(c.sft_balance_of(ALICE, 0), 30);
    assert_eq!(c.sft_transfer(ALICE, BOB, 9, 1), Err(TokenError::SftClassNotFound));
}

#[test]
fn batch_length_mismatch_fails_first() {
    let mut c = setup();
    c.sft_create_class(ADMIN, "A".to_string(), "a".to_string(), 0).unwrap();
    c.sft_mint(ADMIN, ALICE, 0, 10).unwrap();
    assert_eq!(
        c.sft_batch_transfer(ALICE, BOB, vec![0, 0], vec![1]),
        Err(TokenError::SftBatchLengthMismatch)
    );
    assert_eq!(c.sft_balance_of(ALICE, 0), 10);
    assert_eq!(c.sft_balance_of(BOB, 0), 0);
}

#[test]
fn batch_failing_leg_reverts_all() {
    let mut c = setup();
    for i in 0..5 {
        c.sft_create_class(ADMIN, format!("C{}", i), format!("u{}", i), 0).unwrap();
        c.sft_mint(ADMIN, ALICE, i, 10).unwrap();
    }
    let events = c.store.events.len();
    assert_eq!(
        c.sft_batch_transfer(ALICE, BOB, vec![0, 1, 2, 3, 4], vec![1, 2, 11, 4, 5]),
        Err(TokenError::SftInsufficientBalance)
    );
    for i in 0..5 {
        assert_eq!(c.sft_balance_of(ALICE, i), 10);
        assert_eq!(c.sft_balance_of(BOB, i), 0);
    }
    assert_eq!(c.store.events.len(), events);
    assert_eq!(
        c.sft_batch_transfer(ALICE, BOB, vec![0, 1, 2, 3, 4], vec![1, 2, 3, 4, 5]),
        Ok(())
    );
    for i in 0..5 {
        assert_eq!(c.sft_balance_of(ALICE, i), 10 - (i + 1));
        assert_eq!(c.sft_balance_of(BOB, i), i + 1);
    }
    assert_eq!(c.store.events.len(), events + 5);
}

#[test]
fn batch_repeated_class_accumulates() {
    let mut c = setup();
    c.sft_create_class(ADMIN, "A".to_string(), "a".to_string(), 0).unwrap();
    c.sft_mint(ADMIN, ALICE, 0, 10).unwrap();
    assert_eq!(
        c.sft_batch_transfer(ALICE, BOB, vec![0, 0], vec![6, 5]),
        Err(TokenError::SftInsufficientBalance)
    );
    assert_eq!(c.sft_balance_of(ALICE, 0), 10);
    assert_eq!(c.sft_batch_transfer(ALICE, BOB, vec![0, 0], vec![6, 4]), Ok(()));
    assert_eq!(c.sft_balance_of(ALICE, 0), 0);
    assert_eq!(c.sft_balance_of(BOB, 0), 10);
}

#[test]
fn batch_skips_whitelist_check() {
    let mut c = setup();
    c.sft_create_class(ADMIN, "A".to_string(), "a".to_string(), 0).unwrap();
    c.sft_mint(ADMIN, ALICE, 0, 10).unwrap();
    c.enable_whitelist(ADMIN).unwrap();
    assert_eq!(c.sft_transfer(ALICE, CAROL, 0, 1), Err(TokenError::NotWhitelisted));
    assert_eq!(c.sft_batch_transfer(ALICE, CAROL, vec![0], vec![1]), Ok(()));
    assert_eq!(c.sft_balance_of(CAROL, 0), 1);
}

#[test]
fn approval_is_consumed_by_transfer_from() {
    let mut c = setup();
    c.nft_mint(ADMIN, ALICE, "ipfs://1".to_string()).unwrap();
    assert_eq!(c.nft_transfer_from(BOB, ALICE, CAROL, 0), Err(TokenError::NftNotApproved));
    c.nft_approve(ALICE, BOB, 0).unwrap();
    assert_eq!(c.nft_transfer_from(BOB, ALICE, CAROL, 0), Ok(()));
    assert_eq!(c.nft_owner_of(0), Ok(CAROL));
    assert_eq!(c.nft_transfer_from(BOB, CAROL, ALICE, 0), Err(TokenError::NftNotApproved));
    assert_eq!(c.nft_transfer_from(BOB, ALICE, CAROL, 0), Err(TokenError::NftNotOwner));
}

#[test]
fn plain_transfer_keeps_pending_approval() {
    let mut c = setup();
    c.nft_mint(ADMIN, ALICE, "ipfs://1".to_string()).unwrap();
    c.nft_approve(ALICE, CAROL, 0).unwrap();
    c.nft_transfer(ALICE, BOB, 0).unwrap();
    assert_eq!(c.nft_transfer_from(CAROL, BOB, ALICE, 0), Ok(()));
    assert_eq!(c.nft_owner_of(0), Ok(ALICE));
}

#[test]
fn approval_overwrites_previous() {
    let mut c = setup();
    c.nft_mint(ADMIN, ALICE, "ipfs://1".to_string()).unwrap();
    c.nft_approve(ALICE, BOB, 0).unwrap();
    c.nft_approve(ALICE, CAROL, 0).unwrap();
    assert_eq!(c.nft_transfer_from(BOB, ALICE, BOB, 0), Err(TokenError::NftNotApproved));
    assert_eq!(c.nft_transfer_from(CAROL, ALICE, CAROL, 0), Ok(()));
}

#[test]
fn nft_errors() {
    let mut c = setup();
    assert_eq!(c.nft_owner_of(0), Err(TokenError::NftNotFound));
    assert_eq!(c.nft_token_uri(0), Err(TokenError::NftNotFound));
    assert_eq!(c.nft_transfer(ALICE, BOB, 0), Err(TokenError::NftNotFound));
    assert_eq!(c.nft_burn(ALICE, 0), Err(TokenError::NftNotFound));
    c.nft_mint(ADMIN, ALICE, "x".to_string()).unwrap();
    assert_eq!(c.nft_transfer(BOB, CAROL, 0), Err(TokenError::NftNotOwner));
    assert_eq!(c.nft_approve(BOB, CAROL, 0), Err(TokenError::NftNotOwner));
    assert_eq!(c.nft_burn(BOB, 0), Err(TokenError::NftNotOwner));
    assert_eq!(c.nft_balance_of(CAROL), 0);
}

#[test]
fn sft_queries_on_unknown_class() {
    let mut c = setup();
    assert_eq!(c.sft_class_supply(0), Err(TokenError::SftClassNotFound));
    assert_eq!(c.sft_class_uri(0), Err(TokenError::SftClassNotFound));
    assert_eq!(c.sft_mint(ADMIN, ALICE, 0, 1), Err(TokenError::SftClassNotFound));
    assert_eq!(c.sft_burn(ALICE, 0, 1), Err(TokenError::SftClassNotFound));
    assert_eq!(c.sft_balance_of(ALICE, 0), 0);
}

#[test]
fn sft_burn_lowers_balance_and_supply() {
    let mut c = setup();
    c.sft_create_class(ADMIN, "A".to_string(), "a".to_string(), 100).unwrap();
    c.sft_mint(ADMIN, ALICE, 0, 40).unwrap();
    c.pause(ADMIN).unwrap();
    assert_eq!(c.sft_burn(ALICE, 0, 15), Ok(()));
    assert_eq!(c.sft_balance_of(ALICE, 0), 25);
    assert_eq!(c.sft_class_supply(0), Ok(25));
    assert_eq!(c.sft_burn(ALICE, 0, 26), Err(TokenError::SftInsufficientBalance));
    assert_eq!(c.sft_transfer(ALICE, BOB, 0, 1), Err(TokenError::Paused));
    assert_eq!(c.sft_batch_transfer(ALICE, BOB, vec![0], vec![1]), Err(TokenError::Paused));
    assert_eq!(c.sft_mint(ADMIN, ALICE, 0, 1), Err(TokenError::Paused));
}

#[test]
fn class_ids_are_sequential() {
    let mut c = setup();
    assert_eq!(c.sft_create_class(ADMIN, "X".to_string(), "x".to_string(), 0), Ok(0));
    assert_eq!(c.sft_create_class(ADMIN, "X".to_string(), "x".to_string(), 0), Ok(1));
    assert_eq!(c.sft_create_class(ADMIN, "Y".to_string(), "y".to_string(), 5), Ok(2));
}

#[test]
fn lifecycle_errors() {
    let mut c = AdvancedTokenContract::new();
    assert_eq!(c.nft_mint(ADMIN, ALICE, "x".to_string()), Err(TokenError::NotInitialized));
    assert_eq!(c.name(), Err(TokenError::NotInitialized));
    assert_eq!(c.symbol(), Err(TokenError::NotInitialized));
    c.initialize(ADMIN, "Stellara".to_string(), "STL".to_string()).unwrap();
    assert_eq!(
        c.initialize(BOB, "Other".to_string(), "OTH".to_string()),
        Err(TokenError::AlreadyInitialized)
    );
    assert_eq!(c.name(), Ok("Stellara".to_string()));
    assert_eq!(c.symbol(), Ok("STL".to_string()));
    assert!(!c.is_paused());
    assert_eq!(c.pause(BOB), Err(TokenError::Unauthorized));
    assert_eq!(c.get_admin(BOB), Err(TokenError::Unauthorized));
    assert_eq!(c.get_admin(ADMIN), Ok(ADMIN));
    assert_eq!(c.set_admin(ADMIN, BOB), Ok(()));
    assert_eq!(c.get_admin(BOB), Ok(BOB));
    assert_eq!(c.set_admin(ADMIN, ADMIN), Err(TokenError::Unauthorized));
}

#[test]
fn royalty_configuration_and_amount() {
    let mut c = setup();
    assert_eq!(c.get_royalty(), Err(TokenError::RoyaltyNotSet));
    assert_eq!(c.royalty_amount(1_000_000), 0);
    assert_eq!(c.set_royalty(ADMIN, CAROL, 10_001), Err(TokenError::InvalidBasisPoints));
    assert_eq!(c.set_royalty(BOB, CAROL, 250), Err(TokenError::Unauthorized));
    assert_eq!(c.set_royalty(ADMIN, CAROL, 250), Ok(()));
    assert_eq!(c.get_royalty(), Ok((CAROL, 250)));
    assert_eq!(c.royalty_amount(10_000), 250);
    assert_eq!(c.royalty_amount(399), 9);
    c.set_royalty(ADMIN, CAROL, 10_000).unwrap();
    assert_eq!(c.royalty_amount(u64::MAX), u64::MAX);
}

#[test]
fn events_record_each_operation() {
    let mut c = setup();
    c.nft_mint(ADMIN, ALICE, "ipfs://1".to_string()).unwrap();
    c.nft_transfer(ALICE, BOB, 0).unwrap();
    let topics: Vec<&str> = c.store.events.iter().map(|e| e.topic()).collect();
    assert_eq!(topics, vec!["init", "nft_mint", "nft_xfr"]);
    match &c.store.events[2] {
        TokenEvent::NftTransferred { from, to, token_id } => {
            assert_eq!((*from, *to, *token_id), (ALICE, BOB, 0));
        }
        _ => panic!("wrong event"),
    }
}

#[test]
fn error_codes() {
    assert_eq!(TokenError::NotInitialized.code(), 1);
    assert_eq!(TokenError::Paused.code(), 4);
    assert_eq!(TokenError::NftNotApproved.code(), 102);
    assert_eq!(TokenError::SftBatchLengthMismatch.code(), 203);
    assert_eq!(TokenError::RoyaltyNotSet.code(), 302);
}
