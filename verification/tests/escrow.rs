use multisig::{Address, Escrow, EscrowError, EscrowEvent};

fn depositor() -> Address {
    Address::account(0, 1)
}

fn beneficiary() -> Address {
    Address::account(0, 2)
}

fn escrow() -> Escrow {
    let mut escrow = Escrow::new();
    escrow.init(depositor(), beneficiary());
    escrow
}

#[test]
fn escrow_starts_empty() {
    assert_eq!(Escrow::new().get_balance(), 0);
    assert_eq!(escrow().get_balance(), 0);
}

#[test]
fn escrow_without_parties_rejects_calls() {
    let mut escrow = Escrow::new();
    assert_eq!(escrow.deposit(depositor(), true, 5), Err(EscrowError::NotInitialized));
    assert_eq!(escrow.release(depositor(), true), Err(EscrowError::NotInitialized));
    assert_eq!(escrow.refund(beneficiary(), true), Err(EscrowError::NotInitialized));
    assert_eq!(escrow.deposit(depositor(), false, 5), Err(EscrowError::Unauthorized));
}

#[test]
fn deposit_adds_to_the_balance() {
    let mut escrow = escrow();
    assert_eq!(escrow.deposit(depositor(), true, 100), Ok(()));
    assert_eq!(escrow.deposit(depositor(), true, 50), Ok(()));
    assert_eq!(escrow.get_balance(), 150);
    assert_eq!(escrow.deposit(depositor(), true, -30), Ok(()));
    assert_eq!(escrow.get_balance(), 120);
    let events = escrow.events();
    assert_eq!(events.len(), 3);
    assert_eq!(events[0], EscrowEvent::Deposit { from: depositor(), amount: 100 });
    assert_eq!(events[0].topic(), "deposit");
}

#[test]
fn deposit_by_another_party_is_rejected() {
    let mut escrow = escrow();
    assert_eq!(escrow.deposit(beneficiary(), true, 100), Err(EscrowError::NotDepositor));
    assert_eq!(escrow.deposit(depositor(), false, 100), Err(EscrowError::Unauthorized));
    assert_eq!(escrow.get_balance(), 0);
    assert_eq!(escrow.events().len(), 0);
}

#[test]
fn release_empties_the_balance_towards_the_beneficiary() {
    let mut escrow = escrow();
    assert_eq!(escrow.deposit(depositor(), true, 100), Ok(()));
    assert_eq!(escrow.release(beneficiary(), true), Err(EscrowError::NotDepositor));
    assert_eq!(escrow.release(depositor(), false), Err(EscrowError::Unauthorized));
    assert_eq!(escrow.get_balance(), 100);
    assert_eq!(escrow.release(depositor(), true), Ok(()));
    assert_eq!(escrow.get_balance(), 0);
    let events = escrow.events();
    assert_eq!(events[1], EscrowEvent::Release { beneficiary: beneficiary(), amount: 100 });
    assert_eq!(events[1].topic(), "release");
}

#[test]
fn refund_empties_the_balance_towards_the_depositor() {
    let mut escrow = escrow();
    assert_eq!(escrow.deposit(depositor(), true, 70), Ok(()));
    assert_eq!(escrow.refund(depositor(), true), Err(EscrowError::NotBeneficiary));
    assert_eq!(escrow.refund(beneficiary(), false), Err(EscrowError::Unauthorized));
    assert_eq!(escrow.get_balance(), 70);
    assert_eq!(escrow.refund(beneficiary(), true), Ok(()));
    assert_eq!(escrow.get_balance(), 0);
    let events = escrow.events();
    assert_eq!(events[1], EscrowEvent::Refund { depositor: depositor(), amount: 70 });
    assert_eq!(events[1].topic(), "refund");
}

#[test]
fn escrow_init_resets_the_balance() {
    let mut escrow = escrow();
    assert_eq!(escrow.deposit(depositor(), true, 70), Ok(()));
    escrow.init(beneficiary(), depositor());
    assert_eq!(escrow.get_balance(), 0);
    assert_eq!(escrow.deposit(depositor(), true, 1), Err(EscrowError::NotDepositor));
    assert_eq!(escrow.deposit(beneficiary(), true, 1), Ok(()));
    assert_eq!(escrow.get_balance(), 1);
}
