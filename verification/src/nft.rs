//! A registry of unique tokens: each has an owner and a metadata URI.

use vstd::prelude::*;
use crate::address::Address;
use crate::store::Store;

verus! {

/// Why an operation of the registry was rejected.
#[derive(Clone, Copy, Debug, PartialEq, Eq, Structural)]
pub enum NftError {
    /// The caller did not prove its identity.
    Unauthorized,
    /// No token has the given id.
    NotFound,
    /// The caller does not own the token.
    NotOwner,
}

/// A notification that the registry records for outside watchers.
#[derive(Clone, Copy, Debug, PartialEq, Eq, Structural)]
pub enum NftEvent {
    Mint { to: Address, token_id: u32 },
    Transfer { from: Address, to: Address, token_id: u32 },
}

impl NftEvent {
    /// The topic under which the event is published, as characters.
    pub open spec fn topic_name(self) -> Seq<char> {
        match self {
            NftEvent::Mint { .. } => "mint"@,
            NftEvent::Transfer { .. } => "transfer"@,
        }
    }

    /// The topic under which the event is published.
    pub fn topic(&self) -> (name: &'static str)
        ensures
            name@ == self.topic_name(),
    {
        match self {
            NftEvent::Mint { .. } => "mint",
            NftEvent::Transfer { .. } => "transfer",
        }
    }
}

/// The registry's state as mathematics.
pub struct NftState {
    /// The id that the next minted token gets.
    pub next_token_id: u32,
    /// The owner of each token.
    pub owners: Map<u32, Address>,
    /// The metadata URI of each token.
    pub uris: Map<u32, String>,
    /// The events recorded so far, oldest first.
    pub events: Seq<NftEvent>,
}

impl NftState {
    /// The state after minting: the token with the next id belongs to `to` and
    /// has the given URI, and the next id moves on by one.
    pub open spec fn after_mint(self, to: Address, token_uri: String) -> NftState {
        NftState {
            next_token_id: (self.next_token_id + 1) as u32,
            owners: self.owners.insert(self.next_token_id, to),
            uris: self.uris.insert(self.next_token_id, token_uri),
            events: self.events.push(NftEvent::Mint { to, token_id: self.next_token_id }),
        }
    }

    /// What looking up an owner returns: the owner, or `NotFound`.
    pub open spec fn owner_result(self, token_id: u32) -> Result<Address, NftError> {
        if self.owners.contains_key(token_id) {
            Ok(self.owners[token_id])
        } else {
            Err(NftError::NotFound)
        }
    }

    /// What a transfer returns. The checks come in this order: the caller has
    /// proved its identity, the token exists, and the caller owns it.
    pub open spec fn transfer_result(self, from: Address, authorized: bool, token_id: u32) -> Result<
        (),
        NftError,
    > {
        if !authorized {
            Err(NftError::Unauthorized)
        } else if !self.owners.contains_key(token_id) {
            Err(NftError::NotFound)
        } else if self.owners[token_id] != from {
            Err(NftError::NotOwner)
        } else {
            Ok(())
        }
    }

    /// The state after a transfer: on success the token belongs to `to`; on
    /// failure nothing changes.
    pub open spec fn after_transfer(
        self,
        from: Address,
        authorized: bool,
        to: Address,
        token_id: u32,
    ) -> NftState {
        if self.transfer_result(from, authorized, token_id) is Ok {
            NftState {
                owners: self.owners.insert(token_id, to),
                events: self.events.push(NftEvent::Transfer { from, to, token_id }),
                ..self
            }
        } else {
            self
        }
    }
}

/// The registry: the id allocator, the owners, the URIs and the event log.
pub struct NFT {
    pub next_token_id: u32,
    pub owners: Store<u32, Address>,
    pub uris: Store<u32, String>,
    pub events: Vec<NftEvent>,
}

impl View for NFT {
    type V = NftState;

    open spec fn view(&self) -> NftState {
        NftState {
            next_token_id: self.next_token_id,
            owners: self.owners@,
            uris: self.uris@,
            events: self.events@,
        }
    }
}

impl NFT {
    /// A registry without tokens.
    pub fn new() -> (registry: NFT)
        ensures
            registry@ == (NftState {
                next_token_id: 0,
                owners: Map::empty(),
                uris: Map::empty(),
                events: Seq::empty(),
            }),
    {
        NFT { next_token_id: 0, owners: Store::new(), uris: Store::new(), events: Vec::new() }
    }

    /// Starts the ids again at 0. Tokens minted before stay until their ids are
    /// handed out again.
    pub fn init(&mut self)
        ensures
            final(self)@ == (NftState { next_token_id: 0, ..old(self)@ }),
    {
        self.next_token_id = 0;
    }

    /// Mints a token with the URI `token_uri` to `to` and returns its id.
    /// Anyone may mint.
    pub fn mint(&mut self, to: Address, token_uri: String) -> (token_id: u32)
        requires
            old(self)@.next_token_id < u32::MAX,
        ensures
            token_id == old(self)@.next_token_id,
            final(self)@ == old(self)@.after_mint(to, token_uri),
    {
        let token_id = self.next_token_id;
        self.next_token_id = token_id + 1;
        self.owners.set(token_id, to);
        self.uris.set(token_id, token_uri);
        self.events.push(NftEvent::Mint { to, token_id });
        token_id
    }

    /// Hands the token `token_id` from `from` to `to`; `authorized` says
    /// whether `from` has proved its identity for this call.
    pub fn transfer(&mut self, from: Address, authorized: bool, to: Address, token_id: u32) -> (result:
        Result<(), NftError>)
        ensures
            result == old(self)@.transfer_result(from, authorized, token_id),
            final(self)@ == old(self)@.after_transfer(from, authorized, to, token_id),
    {
        if !authorized {
            return Err(NftError::Unauthorized);
        }
        let owner = match self.owners.get(&token_id) {
            Some(owner) => *owner,
            None => {
                return Err(NftError::NotFound);
            },
        };
        if owner != from {
            return Err(NftError::NotOwner);
        }
        self.owners.set(token_id, to);
        self.events.push(NftEvent::Transfer { from, to, token_id });
        Ok(())
    }

    /// The owner of the token `token_id`.
    pub fn owner_of(&self, token_id: u32) -> (result: Result<Address, NftError>)
        ensures
            result == self@.owner_result(token_id),
    {
        match self.owners.get(&token_id) {
            Some(owner) => Ok(*owner),
            None => Err(NftError::NotFound),
        }
    }

    /// The metadata URI of the token `token_id`: empty where none is stored.
    pub fn token_uri(&self, token_id: u32) -> (uri: String)
        ensures
            self@.uris.contains_key(token_id) ==> uri == self@.uris[token_id],
            !self@.uris.contains_key(token_id) ==> uri@ == Seq::<char>::empty(),
    {
        match self.uris.get(&token_id) {
            Some(uri) => uri.clone(),
            None => String::new(),
        }
    }

    /// The events recorded so far, oldest first.
    pub fn events(&self) -> (events: &Vec<NftEvent>)
        ensures
            events@ == self@.events,
    {
        &self.events
    }
}

} // verus!
