use multisig::{Address, Token, TokenError, TokenEvent};

fn admin() -> Address {
    Address::account(0, 1)
}

fn alice() -> Address {
    Address::account(0, 2)
}

fn bob() -> Address {
    Address::account(0, 3)
}

fn token(supply: i128) -> Token {
    let mut token = Token::new();
    token.init(admin(), supply);
    token
}

#[test]
fn token_init_gives_the_supply_to_the_admin() {
    let token = token(1000);
    assert_eq!(token.balance(admin()), 1000);
    assert_eq!(token.balance(alice()), 0);
    assert_eq!(token.total_supply(), 1000);
    assert_eq!(token.events().len(), 0);
}

#[test]
fn token_without_setup_rejects_calls() {
    let mut token = Token::new();
    assert_eq!(token.balance(admin()), 0);
    assert_eq!(token.mint(true, alice(), 5), Err(TokenError::NotInitialized));
    assert_eq!(token.mint(false, alice(), 5), Err(TokenError::NotInitialized));
    assert_eq!(token.burn(alice(), true, 5), Err(TokenError::NotInitialized));
    assert_eq!(token.burn(alice(), false, 5), Err(TokenError::Unauthorized));
    assert_eq!(token.transfer(alice(), true, bob(), 5), Err(TokenError::NotInitialized));
    assert_eq!(token.transfer(alice(), false, bob(), 5), Err(TokenError::Unauthorized));
}

#[test]
fn mint_adds_to_holder_and_supply() {
    let mut token = token(1000);
    assert_eq!(token.mint(true, alice(), 250), Ok(()));
    assert_eq!(token.balance(alice()), 250);
    assert_eq!(token.balance(admin()), 1000);
    assert_eq!(token.total_supply(), 1250);
    assert_eq!(token.mint(true, alice(), 50), Ok(()));
    assert_eq!(token.balance(alice()), 300);
    assert_eq!(token.total_supply(), 1300);
    assert_eq!(token.events()[0], TokenEvent::Mint { to: alice(), amount: 250 });
    assert_eq!(token.events()[0].topic(), "mint");
}

#[test]
fn mint_needs_the_admin() {
    let mut token = token(1000);
    assert_eq!(token.mint(false, alice(), 250), Err(TokenError::Unauthorized));
    assert_eq!(token.balance(alice()), 0);
    assert_eq!(token.total_supply(), 1000);
}

#[test]
fn burn_takes_from_holder_and_supply() {
    let mut token = token(1000);
    assert_eq!(token.burn(admin(), true, 400), Ok(()));
    assert_eq!(token.balance(admin()), 600);
    assert_eq!(token.total_supply(), 600);
    assert_eq!(token.burn(admin(), true, 601), Err(TokenError::InsufficientBalance));
    assert_eq!(token.burn(admin(), false, 1), Err(TokenError::Unauthorized));
    assert_eq!(token.burn(alice(), true, 1), Err(TokenError::InsufficientBalance));
    assert_eq!(token.burn(admin(), true, 600), Ok(()));
    assert_eq!(token.balance(admin()), 0);
    assert_eq!(token.total_supply(), 0);
    assert_eq!(token.events()[0], TokenEvent::Burn { from: admin(), amount: 400 });
    assert_eq!(token.events()[0].topic(), "burn");
    assert_eq!(token.events().len(), 2);
}

#[test]
fn transfer_moves_the_amount() {
    let mut token = token(1000);
    assert_eq!(token.transfer(admin(), true, alice(), 300), Ok(true));
    assert_eq!(token.balance(admin()), 700);
    assert_eq!(token.balance(alice()), 300);
    assert_eq!(token.balance(bob()), 0);
    assert_eq!(token.total_supply(), 1000);
    assert_eq!(token.transfer(alice(), true, bob(), 300), Ok(true));
    assert_eq!(token.balance(alice()), 0);
    assert_eq!(token.balance(bob()), 300);
    assert_eq!(
        token.events()[0],
        TokenEvent::Transfer { from: admin(), to: alice(), amount: 300 }
    );
    assert_eq!(token.events()[0].topic(), "transfer");
}

#[test]
fn transfer_of_more_than_held_moves_nothing() {
    let mut token = token(1000);
    assert_eq!(token.transfer(admin(), true, alice(), 1001), Ok(false));
    assert_eq!(token.transfer(alice(), true, bob(), 1), Ok(false));
    assert_eq!(token.transfer(admin(), false, alice(), 1), Err(TokenError::Unauthorized));
    assert_eq!(token.balance(admin()), 1000);
    assert_eq!(token.balance(alice()), 0);
    assert_eq!(token.events().len(), 0);
}

#[test]
fn transfer_to_oneself_keeps_the_second_write() {
    let mut token = token(1000);
    assert_eq!(token.transfer(admin(), true, admin(), 100), Ok(true));
    assert_eq!(token.balance(admin()), 1100);
    assert_eq!(token.total_supply(), 1000);
}

#[test]
fn token_init_drops_earlier_balances() {
    let mut token = token(1000);
    assert_eq!(token.transfer(admin(), true, alice(), 300), Ok(true));
    token.init(bob(), 5);
    assert_eq!(token.balance(alice()), 0);
    assert_eq!(token.balance(admin()), 0);
    assert_eq!(token.balance(bob()), 5);
    assert_eq!(token.total_supply(), 5);
}
