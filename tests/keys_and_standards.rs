use stellara_token::multi_token::{
    mint_nft, mint_sft, InstantiateMsg, MultiTokenError, MultiTokenState,
};
use stellara_token::state::Address;
use stellara_token::storage_types::{StorageKey, StorageScope};

#[test]
fn every_key_kind_has_a_scope() {
    let a = Address(7);
    let keys = [
        (StorageKey::Admin, StorageScope::Instance),
        (StorageKey::Name, StorageScope::Instance),
        (StorageKey::Symbol, StorageScope::Instance),
        (StorageKey::Paused, StorageScope::Instance),
        (StorageKey::NftCounter, StorageScope::Instance),
        (StorageKey::NftOwner(0), StorageScope::Persistent),
        (StorageKey::NftUri(0), StorageScope::Persistent),
        (StorageKey::NftApproved(0), StorageScope::Temporary),
        (StorageKey::NftBalance(a), StorageScope::Persistent),
        (StorageKey::SftClassCounter, StorageScope::Instance),
        (StorageKey::SftClassUri(0), StorageScope::Persistent),
        (StorageKey::SftClassName(0), StorageScope::Persistent),
        (StorageKey::SftClassMaxSupply(0), StorageScope::Persistent),
        (StorageKey::SftClassSupply(0), StorageScope::Persistent),
        (StorageKey::SftBalance(a, 0), StorageScope::Persistent),
        (StorageKey::WhitelistEnabled, StorageScope::Instance),
        (StorageKey::Whitelisted(a), StorageScope::Persistent),
        (StorageKey::RoyaltyReceiver, StorageScope::Instance),
        (StorageKey::RoyaltyBasisPoints, StorageScope::Instance),
    ];
    for (i, (k, s)) in keys.iter().enumerate() {
        assert_eq!(k.scope(), *s);
        for (j, (k2, _)) in keys.iter().enumerate() {
            assert_eq!(i == j, k == k2);
        }
    }
    assert_ne!(StorageKey::NftOwner(0), StorageKey::NftUri(0));
    assert_ne!(StorageKey::SftBalance(a, 0), StorageKey::SftBalance(a, 1));
}

fn state(nft: bool, sft: bool) -> MultiTokenState {
    MultiTokenState::instantiate(
        "owner".to_string(),
        InstantiateMsg { enable_ft: true, enable_nft: nft, enable_sft: sft },
    )
}

#[test]
fn mint_nft_records_owner_once() {
    let mut s = state(true, true);
    assert_eq!(mint_nft(&mut s, "t1".to_string(), "alice".to_string()), Ok(()));
    assert_eq!(
        mint_nft(&mut s, "t1".to_string(), "bob".to_string()),
        Err(MultiTokenError::TokenExists)
    );
    assert_eq!(MultiTokenError::TokenExists.message(), "Token exists");
    let mut off = state(false, true);
    assert_eq!(
        mint_nft(&mut off, "t1".to_string(), "alice".to_string()),
        Err(MultiTokenError::NftDisabled)
    );
    assert_eq!(MultiTokenError::NftDisabled.message(), "NFT disabled");
}

#[test]
fn mint_sft_accumulates_per_holder() {
    let mut s = state(true, true);
    let t = "gold".to_string();
    let alice = "alice".to_string();
    let bob = "bob".to_string();
    assert_eq!(mint_sft(&mut s, t.clone(), alice.clone(), 5), Ok(()));
    assert_eq!(mint_sft(&mut s, t.clone(), alice.clone(), 7), Ok(()));
    assert_eq!(mint_sft(&mut s, t.clone(), bob.clone(), 1), Ok(()));
    assert_eq!(s.sft_balance(&t, &alice), 12);
    assert_eq!(s.sft_balance(&t, &bob), 1);
    assert_eq!(s.sft_balance(&"silver".to_string(), &alice), 0);
    assert_eq!(mint_sft(&mut s, t.clone(), bob.clone(), u128::MAX), Err(MultiTokenError::Overflow));
    assert_eq!(s.sft_balance(&t, &bob), 1);
    let mut off = state(true, false);
    assert_eq!(mint_sft(&mut off, t, alice, 1), Err(MultiTokenError::SftDisabled));
    assert_eq!(MultiTokenError::SftDisabled.message(), "SFT disabled");
}
