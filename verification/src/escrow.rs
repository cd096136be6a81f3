//! A two-party escrow: a depositor pays in, and either the depositor releases
//! the balance to the beneficiary or the beneficiary refunds it.

use vstd::prelude::*;
use crate::address::Address;

verus! {

/// Why an operation of the escrow was rejected.
#[derive(Clone, Copy, Debug, PartialEq, Eq, Structural)]
pub enum EscrowError {
    /// The caller did not prove its identity.
    Unauthorized,
    /// The escrow has no parties yet.
    NotInitialized,
    /// The caller is not the depositor.
    NotDepositor,
    /// The caller is not the beneficiary.
    NotBeneficiary,
}

/// A notification that the escrow records for outside watchers.
#[derive(Clone, Copy, Debug, PartialEq, Eq, Structural)]
pub enum EscrowEvent {
    /// `from` paid in `amount`.
    Deposit { from: Address, amount: i128 },
    /// `amount` was released to `beneficiary`.
    Release { beneficiary: Address, amount: i128 },
    /// `amount` was refunded to `depositor`.
    Refund { depositor: Address, amount: i128 },
}

impl EscrowEvent {
    /// The topic under which the event is published, as characters.
    pub open spec fn topic_name(self) -> Seq<char> {
        match self {
            EscrowEvent::Deposit { .. } => "deposit"@,
            EscrowEvent::Release { .. } => "release"@,
            EscrowEvent::Refund { .. } => "refund"@,
        }
    }

    /// The topic under which the event is published.
    pub fn topic(&self) -> (name: &'static str)
        ensures
            name@ == self.topic_name(),
    {
        match self {
            EscrowEvent::Deposit { .. } => "deposit",
            EscrowEvent::Release { .. } => "release",
            EscrowEvent::Refund { .. } => "refund",
        }
    }
}

/// The two parties of an agreement.
#[derive(Clone, Copy, Debug, PartialEq, Eq, Structural)]
pub struct Parties {
    pub depositor: Address,
    pub beneficiary: Address,
}

/// The escrow's state as mathematics.
pub struct EscrowState {
    /// The parties, once the escrow has been set up.
    pub parties: Option<Parties>,
    /// The amount held.
    pub balance: i128,
    /// The events recorded so far, oldest first.
    pub events: Seq<EscrowEvent>,
}

impl EscrowState {
    /// What a deposit returns. The checks come in this order: the caller has
    /// proved its identity, the escrow is set up, and the caller is the
    /// depositor.
    pub open spec fn deposit_result(self, from: Address, authorized: bool) -> Result<
        (),
        EscrowError,
    > {
        if !authorized {
            Err(EscrowError::Unauthorized)
        } else if self.parties is None {
            Err(EscrowError::NotInitialized)
        } else if from != self.parties->0.depositor {
            Err(EscrowError::NotDepositor)
        } else {
            Ok(())
        }
    }

    /// The state after a deposit: on success the balance grows by `amount`,
    /// whatever its sign, and the event is recorded; on failure nothing changes.
    pub open spec fn after_deposit(self, from: Address, authorized: bool, amount: i128) -> EscrowState {
        if self.deposit_result(from, authorized) is Ok {
            EscrowState {
                balance: (self.balance + amount) as i128,
                events: self.events.push(EscrowEvent::Deposit { from, amount }),
                ..self
            }
        } else {
            self
        }
    }

    /// What a release returns: as for a deposit, the caller must be the
    /// depositor.
    pub open spec fn release_result(self, from: Address, authorized: bool) -> Result<
        (),
        EscrowError,
    > {
        self.deposit_result(from, authorized)
    }

    /// The state after a release: on success the balance is 0 and the event
    /// names the beneficiary and the amount that was held; on failure nothing
    /// changes.
    pub open spec fn after_release(self, from: Address, authorized: bool) -> EscrowState {
        if self.release_result(from, authorized) is Ok {
            EscrowState {
                balance: 0,
                events: self.events.push(
                    EscrowEvent::Release {
                        beneficiary: self.parties->0.beneficiary,
                        amount: self.balance,
                    },
                ),
                ..self
            }
        } else {
            self
        }
    }

    /// What a refund returns. The checks come in this order: the caller has
    /// proved its identity, the escrow is set up, and the caller is the
    /// beneficiary.
    pub open spec fn refund_result(self, from: Address, authorized: bool) -> Result<
        (),
        EscrowError,
    > {
        if !authorized {
            Err(EscrowError::Unauthorized)
        } else if self.parties is None {
            Err(EscrowError::NotInitialized)
        } else if from != self.parties->0.beneficiary {
            Err(EscrowError::NotBeneficiary)
        } else {
            Ok(())
        }
    }

    /// The state after a refund: on success the balance is 0 and the event
    /// names the depositor and the amount that was held; on failure nothing
    /// changes.
    pub open spec fn after_refund(self, from: Address, authorized: bool) -> EscrowState {
        if self.refund_result(from, authorized) is Ok {
            EscrowState {
                balance: 0,
                events: self.events.push(
                    EscrowEvent::Refund {
                        depositor: self.parties->0.depositor,
                        amount: self.balance,
                    },
                ),
                ..self
            }
        } else {
            self
        }
    }
}

/// The escrow: its parties, its balance and its event log.
pub struct Escrow {
    pub parties: Option<Parties>,
    pub balance: i128,
    pub events: Vec<EscrowEvent>,
}

impl View for Escrow {
    type V = EscrowState;

    open spec fn view(&self) -> EscrowState {
        EscrowState { parties: self.parties, balance: self.balance, events: self.events@ }
    }
}

impl Escrow {
    /// An escrow without parties, holding nothing.
    pub fn new() -> (escrow: Escrow)
        ensures
            escrow@ == (EscrowState { parties: None, balance: 0, events: Seq::empty() }),
    {
        Escrow { parties: None, balance: 0, events: Vec::new() }
    }

    /// Sets up the two parties and an empty balance. The recorded events stay.
    pub fn init(&mut self, depositor: Address, beneficiary: Address)
        ensures
            final(self)@ == (EscrowState {
                parties: Some(Parties { depositor, beneficiary }),
                balance: 0,
                ..old(self)@
            }),
    {
        self.parties = Some(Parties { depositor, beneficiary });
        self.balance = 0;
    }

    /// Pays `amount` in, in the name of `from`; `authorized` says whether
    /// `from` has proved its identity for this call.
    pub fn deposit(&mut self, from: Address, authorized: bool, amount: i128) -> (result: Result<
        (),
        EscrowError,
    >)
        requires
            old(self)@.deposit_result(from, authorized) is Ok ==> i128::MIN <= old(self)@.balance
                + amount <= i128::MAX,
        ensures
            result == old(self)@.deposit_result(from, authorized),
            final(self)@ == old(self)@.after_deposit(from, authorized, amount),
    {
        if !authorized {
            return Err(EscrowError::Unauthorized);
        }
        let parties = match self.parties {
            Some(parties) => parties,
            None => {
                return Err(EscrowError::NotInitialized);
            },
        };
        if from != parties.depositor {
            return Err(EscrowError::NotDepositor);
        }
        self.balance = self.balance + amount;
        self.events.push(EscrowEvent::Deposit { from, amount });
        Ok(())
    }

    /// Releases the balance to the beneficiary, in the name of `from`.
    pub fn release(&mut self, from: Address, authorized: bool) -> (result: Result<(), EscrowError>)
        ensures
            result == old(self)@.release_result(from, authorized),
            final(self)@ == old(self)@.after_release(from, authorized),
    {
        if !authorized {
            return Err(EscrowError::Unauthorized);
        }
        let parties = match self.parties {
            Some(parties) => parties,
            None => {
                return Err(EscrowError::NotInitialized);
            },
        };
        if from != parties.depositor {
            return Err(EscrowError::NotDepositor);
        }
        let amount = self.balance;
        self.balance = 0;
        self.events.push(EscrowEvent::Release { beneficiary: parties.beneficiary, amount });
        Ok(())
    }

    /// Refunds the balance to the depositor, in the name of `from`.
    pub fn refund(&mut self, from: Address, authorized: bool) -> (result: Result<(), EscrowError>)
        ensures
            result == old(self)@.refund_result(from, authorized),
            final(self)@ == old(self)@.after_refund(from, authorized),
    {
        if !authorized {
            return Err(EscrowError::Unauthorized);
        }
        let parties = match self.parties {
            Some(parties) => parties,
            None => {
                return Err(EscrowError::NotInitialized);
            },
        };
        if from != parties.beneficiary {
            return Err(EscrowError::NotBeneficiary);
        }
        let amount = self.balance;
        self.balance = 0;
        self.events.push(EscrowEvent::Refund { depositor: parties.depositor, amount });
        Ok(())
    }

    /// The amount held.
    pub fn get_balance(&self) -> (balance: i128)
        ensures
            balance == self@.balance,
    {
        self.balance
    }

    /// The events recorded so far, oldest first.
    pub fn events(&self) -> (events: &Vec<EscrowEvent>)
        ensures
            events@ == self@.events,
    {
        &self.events
    }
}

} // verus!
