use multisig::{Address, NftError, NftEvent, NFT};

fn alice() -> Address {
    Address::account(0, 2)
}

fn bob() -> Address {
    Address::account(0, 3)
}

#[test]
fn mint_hands_out_ids_from_zero() {
    let mut registry = NFT::new();
    registry.init();
    assert_eq!(registry.mint(alice(), String::from("ipfs://a")), 0);
    assert_eq!(registry.mint(bob(), String::from("ipfs://b")), 1);
    assert_eq!(registry.mint(alice(), String::from("ipfs://c")), 2);
    assert_eq!(registry.owner_of(0), Ok(alice()));
    assert_eq!(registry.owner_of(1), Ok(bob()));
    assert_eq!(registry.token_uri(1), "ipfs://b");
    assert_eq!(registry.token_uri(2), "ipfs://c");
    assert_eq!(registry.events()[1], NftEvent::Mint { to: bob(), token_id: 1 });
    assert_eq!(registry.events()[1].topic(), "mint");
}

#[test]
fn unknown_token_has_no_owner_and_an_empty_uri() {
    let registry = NFT::new();
    assert_eq!(registry.owner_of(0), Err(NftError::NotFound));
    assert_eq!(registry.token_uri(0), "");
}

#[test]
fn nft_transfer_changes_the_owner() {
    let mut registry = NFT::new();
    assert_eq!(registry.mint(alice(), String::from("u")), 0);
    assert_eq!(registry.transfer(alice(), true, bob(), 0), Ok(()));
    assert_eq!(registry.owner_of(0), Ok(bob()));
    assert_eq!(registry.token_uri(0), "u");
    assert_eq!(
        registry.events()[1],
        NftEvent::Transfer { from: alice(), to: bob(), token_id: 0 }
    );
    assert_eq!(registry.events()[1].topic(), "transfer");
}

#[test]
fn nft_transfer_is_rejected_for_others() {
    let mut registry = NFT::new();
    assert_eq!(registry.mint(alice(), String::from("u")), 0);
    assert_eq!(registry.transfer(bob(), true, bob(), 0), Err(NftError::NotOwner));
    assert_eq!(registry.transfer(alice(), false, bob(), 0), Err(NftError::Unauthorized));
    assert_eq!(registry.transfer(alice(), true, bob(), 1), Err(NftError::NotFound));
    assert_eq!(registry.owner_of(0), Ok(alice()));
    assert_eq!(registry.events().len(), 1);
}

#[test]
fn nft_init_starts_ids_again() {
    let mut registry = NFT::new();
    assert_eq!(registry.mint(alice(), String::from("old")), 0);
    assert_eq!(registry.mint(alice(), String::from("older")), 1);
    registry.init();
    assert_eq!(registry.owner_of(1), Ok(alice()));
    assert_eq!(registry.mint(bob(), String::from("new")), 0);
    assert_eq!(registry.owner_of(0), Ok(bob()));
    assert_eq!(registry.token_uri(0), "new");
    assert_eq!(registry.token_uri(1), "older");
}
