//! Poll lifecycle and ballot authorization rules.
//!
//! A poll is a yes/no question with a voting window. Each participant may
//! cast one ballot per poll while the window is open; a gated poll takes
//! ballots only from participants that present a holding of the required
//! asset. The creator may close a poll until its window opens.
//!
//! * [`records`] holds the data: polls, voter markers, holdings.
//! * [`rules`] decides which operations are admitted.
//! * [`instructions`] applies an operation to the records it touches.
//! * [`ledger`] keeps the records in a keyed store and runs the
//!   operations against it; [`model`] says what each makes of the store.
//! * [`laws`] and [`history`] state what the rules guarantee.

pub mod address;
pub mod error;
pub mod history;
pub mod instructions;
pub mod laws;
pub mod ledger;
pub mod model;
pub mod records;
pub mod rules;

pub use crate::address::Address;
pub use crate::error::{Rejection, VotingError};
pub use crate::instructions::{
    close_poll, create_poll, vote, vote_with_nft, ClosePoll, CreatePoll, Vote, VoteWithNft,
};
pub use crate::ledger::Ledger;
pub use crate::records::{Holding, Poll, Voter};
