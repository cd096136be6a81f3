//! Ledger contracts as explicit state machines: each contract is a value that
//! holds its own state, and each operation is a method with a contract over the
//! state's mathematical model.

pub mod address;
pub mod counter;
pub mod escrow;
pub mod multisig;
pub mod nft;
pub mod store;
pub mod token;
pub mod voting;

pub use address::{Address, AddressKind};
pub use counter::{Counter, CounterEvent, CounterState};
pub use escrow::{Escrow, EscrowError, EscrowEvent, EscrowState, Parties};
pub use multisig::{Multisig, MultisigError, MultisigEvent, MultisigState, Transaction};
pub use nft::{NftError, NftEvent, NftState, NFT};
pub use store::{Key, Store};
pub use token::{Token, TokenError, TokenEvent, TokenState};
pub use voting::{Proposal, Voting, VotingError, VotingEvent, VotingState};
