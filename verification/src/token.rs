//! A fungible-token ledger: an administrator mints, holders burn and transfer.

use vstd::prelude::*;
use crate::address::Address;
use crate::store::Store;

verus! {

/// Why an operation of the token was rejected.
#[derive(Clone, Copy, Debug, PartialEq, Eq, Structural)]
pub enum TokenError {
    /// The party that has to consent did not prove its identity.
    Unauthorized,
    /// The token has not been set up.
    NotInitialized,
    /// The holder has less than the amount to burn.
    InsufficientBalance,
}

/// A notification that the token records for outside watchers.
#[derive(Clone, Copy, Debug, PartialEq, Eq, Structural)]
pub enum TokenEvent {
    Mint { to: Address, amount: i128 },
    Burn { from: Address, amount: i128 },
    Transfer { from: Address, to: Address, amount: i128 },
}

impl TokenEvent {
    /// The topic under which the event is published, as characters.
    pub open spec fn topic_name(self) -> Seq<char> {
        match self {
            TokenEvent::Mint { .. } => "mint"@,
            TokenEvent::Burn { .. } => "burn"@,
            TokenEvent::Transfer { .. } => "transfer"@,
        }
    }

    /// The topic under which the event is published.
    pub fn topic(&self) -> (name: &'static str)
        ensures
            name@ == self.topic_name(),
    {
        match self {
            TokenEvent::Mint { .. } => "mint",
            TokenEvent::Burn { .. } => "burn",
            TokenEvent::Transfer { .. } => "transfer",
        }
    }
}

/// What `holder` has according to `balances`: 0 where nothing is written down.
pub open spec fn balance_in(balances: Map<Address, i128>, holder: Address) -> i128 {
    if balances.contains_key(holder) {
        balances[holder]
    } else {
        0
    }
}

/// The token's state as mathematics.
pub struct TokenState {
    /// The administrator, once the token has been set up.
    pub admin: Option<Address>,
    /// The recorded total supply.
    pub total_supply: i128,
    /// The balances that are written down.
    pub balances: Map<Address, i128>,
    /// The events recorded so far, oldest first.
    pub events: Seq<TokenEvent>,
}

impl TokenState {
    /// The state after a set-up: the administrator holds the whole supply and
    /// nobody else holds anything. The recorded events stay.
    pub open spec fn after_init(self, admin: Address, total_supply: i128) -> TokenState {
        TokenState {
            admin: Some(admin),
            total_supply,
            balances: Map::<Address, i128>::empty().insert(admin, total_supply),
            events: self.events,
        }
    }

    /// What `holder` has.
    pub open spec fn balance(self, holder: Address) -> i128 {
        balance_in(self.balances, holder)
    }

    /// What minting returns. The token must be set up, and then its
    /// administrator must have proved its identity.
    pub open spec fn mint_result(self, admin_authorized: bool) -> Result<(), TokenError> {
        if self.admin is None {
            Err(TokenError::NotInitialized)
        } else if !admin_authorized {
            Err(TokenError::Unauthorized)
        } else {
            Ok(())
        }
    }

    /// The state after minting: on success `to` and the total supply both grow
    /// by `amount`, whatever its sign; on failure nothing changes.
    pub open spec fn after_mint(self, admin_authorized: bool, to: Address, amount: i128) -> TokenState {
        if self.mint_result(admin_authorized) is Ok {
            TokenState {
                total_supply: (self.total_supply + amount) as i128,
                balances: self.balances.insert(to, (self.balance(to) + amount) as i128),
                events: self.events.push(TokenEvent::Mint { to, amount }),
                ..self
            }
        } else {
            self
        }
    }

    /// What burning returns. The checks come in this order: the holder has
    /// proved its identity, the token is set up, and the holder has at least
    /// `amount`.
    pub open spec fn burn_result(self, from: Address, authorized: bool, amount: i128) -> Result<
        (),
        TokenError,
    > {
        if !authorized {
            Err(TokenError::Unauthorized)
        } else if self.admin is None {
            Err(TokenError::NotInitialized)
        } else if self.balance(from) < amount {
            Err(TokenError::InsufficientBalance)
        } else {
            Ok(())
        }
    }

    /// The state after burning: on success `from` and the total supply both
    /// shrink by `amount`; on failure nothing changes.
    pub open spec fn after_burn(self, from: Address, authorized: bool, amount: i128) -> TokenState {
        if self.burn_result(from, authorized, amount) is Ok {
            TokenState {
                total_supply: (self.total_supply - amount) as i128,
                balances: self.balances.insert(from, (self.balance(from) - amount) as i128),
                events: self.events.push(TokenEvent::Burn { from, amount }),
                ..self
            }
        } else {
            self
        }
    }

    /// What a transfer returns: whether the amount was moved, which it is
    /// unless the sender has less than `amount`; or why the call was rejected.
    pub open spec fn transfer_result(self, from: Address, authorized: bool, amount: i128) -> Result<
        bool,
        TokenError,
    > {
        if !authorized {
            Err(TokenError::Unauthorized)
        } else if self.admin is None {
            Err(TokenError::NotInitialized)
        } else {
            Ok(self.balance(from) >= amount)
        }
    }

    /// The state after a transfer. Where the amount is moved, the sender's
    /// balance is written first and the recipient's second, both computed from
    /// the balances before the call: where sender and recipient are the same
    /// holder, the second write stands. Otherwise nothing changes.
    pub open spec fn after_transfer(
        self,
        from: Address,
        authorized: bool,
        to: Address,
        amount: i128,
    ) -> TokenState {
        if self.transfer_result(from, authorized, amount) == Ok::<bool, TokenError>(true) {
            TokenState {
                balances: self.balances.insert(
                    from,
                    (self.balance(from) - amount) as i128,
                ).insert(to, (self.balance(to) + amount) as i128),
                events: self.events.push(TokenEvent::Transfer { from, to, amount }),
                ..self
            }
        } else {
            self
        }
    }
}

/// The token: its administrator, supply, balances and event log.
pub struct Token {
    pub admin: Option<Address>,
    pub total_supply: i128,
    pub balances: Store<Address, i128>,
    pub events: Vec<TokenEvent>,
}

impl View for Token {
    type V = TokenState;

    open spec fn view(&self) -> TokenState {
        TokenState {
            admin: self.admin,
            total_supply: self.total_supply,
            balances: self.balances@,
            events: self.events@,
        }
    }
}

impl Token {
    /// A token that has not been set up: no administrator, no balances.
    pub fn new() -> (token: Token)
        ensures
            token@ == (TokenState {
                admin: None,
                total_supply: 0,
                balances: Map::empty(),
                events: Seq::empty(),
            }),
    {
        Token { admin: None, total_supply: 0, balances: Store::new(), events: Vec::new() }
    }

    /// Sets up the administrator and hands it the whole supply; balances from
    /// before are dropped.
    pub fn init(&mut self, admin: Address, total_supply: i128)
        ensures
            final(self)@ == old(self)@.after_init(admin, total_supply),
    {
        let mut balances: Store<Address, i128> = Store::new();
        balances.set(admin, total_supply);
        self.admin = Some(admin);
        self.total_supply = total_supply;
        self.balances = balances;
    }

    /// What `address` holds: 0 where nothing is written down.
    pub fn balance(&self, address: Address) -> (amount: i128)
        ensures
            amount == self@.balance(address),
    {
        match self.balances.get(&address) {
            Some(amount) => *amount,
            None => 0,
        }
    }

    /// The recorded total supply.
    pub fn total_supply(&self) -> (amount: i128)
        ensures
            amount == self@.total_supply,
    {
        self.total_supply
    }

    /// Mints `amount` to `to`; `admin_authorized` says whether the
    /// administrator has proved its identity for this call.
    pub fn mint(&mut self, admin_authorized: bool, to: Address, amount: i128) -> (result: Result<
        (),
        TokenError,
    >)
        requires
            old(self)@.mint_result(admin_authorized) is Ok ==> {
                &&& i128::MIN <= old(self)@.balance(to) + amount <= i128::MAX
                &&& i128::MIN <= old(self)@.total_supply + amount <= i128::MAX
            },
        ensures
            result == old(self)@.mint_result(admin_authorized),
            final(self)@ == old(self)@.after_mint(admin_authorized, to, amount),
    {
        if self.admin.is_none() {
            return Err(TokenError::NotInitialized);
        }
        if !admin_authorized {
            return Err(TokenError::Unauthorized);
        }
        let balance = self.balance(to);
        self.balances.set(to, balance + amount);
        self.total_supply = self.total_supply + amount;
        self.events.push(TokenEvent::Mint { to, amount });
        Ok(())
    }

    /// Burns `amount` of what `from` holds; `authorized` says whether `from`
    /// has proved its identity for this call.
    pub fn burn(&mut self, from: Address, authorized: bool, amount: i128) -> (result: Result<
        (),
        TokenError,
    >)
        requires
            old(self)@.burn_result(from, authorized, amount) is Ok ==> {
                &&& i128::MIN <= old(self)@.balance(from) - amount <= i128::MAX
                &&& i128::MIN <= old(self)@.total_supply - amount <= i128::MAX
            },
        ensures
            result == old(self)@.burn_result(from, authorized, amount),
            final(self)@ == old(self)@.after_burn(from, authorized, amount),
    {
        if !authorized {
            return Err(TokenError::Unauthorized);
        }
        if self.admin.is_none() {
            return Err(TokenError::NotInitialized);
        }
        let balance = self.balance(from);
        if balance < amount {
            return Err(TokenError::InsufficientBalance);
        }
        self.balances.set(from, balance - amount);
        self.total_supply = self.total_supply - amount;
        self.events.push(TokenEvent::Burn { from, amount });
        Ok(())
    }

    /// Moves `amount` from `from` to `to` and says whether it did; `authorized`
    /// says whether `from` has proved its identity for this call.
    pub fn transfer(&mut self, from: Address, authorized: bool, to: Address, amount: i128) -> (result:
        Result<bool, TokenError>)
        requires
            old(self)@.transfer_result(from, authorized, amount) == Ok::<bool, TokenError>(true)
                ==> {
                &&& i128::MIN <= old(self)@.balance(from) - amount <= i128::MAX
                &&& i128::MIN <= old(self)@.balance(to) + amount <= i128::MAX
            },
        ensures
            result == old(self)@.transfer_result(from, authorized, amount),
            final(self)@ == old(self)@.after_transfer(from, authorized, to, amount),
    {
        if !authorized {
            return Err(TokenError::Unauthorized);
        }
        if self.admin.is_none() {
            return Err(TokenError::NotInitialized);
        }
        let from_balance = self.balance(from);
        if from_balance < amount {
            return Ok(false);
        }
        let to_balance = self.balance(to);
        self.balances.set(from, from_balance - amount);
        self.balances.set(to, to_balance + amount);
        self.events.push(TokenEvent::Transfer { from, to, amount });
        Ok(true)
    }

    /// The events recorded so far, oldest first.
    pub fn events(&self) -> (events: &Vec<TokenEvent>)
        ensures
            events@ == self@.events,
    {
        &self.events
    }
}

/// A transfer between two different holders takes from the one what it gives to
/// the other, touches no third holder and leaves the total supply alone.
pub proof fn lemma_transfer_moves_amount(
    state: TokenState,
    from: Address,
    to: Address,
    amount: i128,
    other: Address,
)
    requires
        from != to,
        other != from,
        other != to,
        state.transfer_result(from, true, amount) == Ok::<bool, TokenError>(true),
        i128::MIN <= state.balance(from) - amount <= i128::MAX,
        i128::MIN <= state.balance(to) + amount <= i128::MAX,
    ensures
        state.after_transfer(from, true, to, amount).balance(from) == state.balance(from) - amount,
        state.after_transfer(from, true, to, amount).balance(to) == state.balance(to) + amount,
        state.after_transfer(from, true, to, amount).balance(other) == state.balance(other),
        state.after_transfer(from, true, to, amount).total_supply == state.total_supply,
{
}

} // verus!
