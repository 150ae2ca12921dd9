//! The typed rejections of the voting rules.

use vstd::prelude::*;

verus! {

/// A rule of the voting protocol that an operation violated.
///
/// Every rejection is final for the operation that met it: nothing is
/// changed by an operation that returns one.
#[derive(Clone, Copy, Debug, PartialEq, Eq, Structural, Hash)]
pub enum VotingError {
    /// The participant has already cast a ballot on the poll.
    AlreadyVoted,
    /// The requester is not the creator of the poll.
    Unauthorized,
    /// The window is empty or has already opened.
    InvalidPollTime,
    /// The stated poll identifier is not that of the record at hand.
    PollMismatch,
    /// Voting is not active for the poll.
    VotingNotActive,
    /// The window has not opened yet.
    PollNotStarted,
    /// The window has closed.
    PollEnded,
    /// The window has opened, so the poll can no longer be closed.
    PollAlreadyStarted,
    /// A gated poll was voted on without a holding record.
    MissingNftTokenAccount,
    /// The holding record belongs to somebody else.
    InvalidNftOwner,
    /// The holding record holds no unit of the asset.
    InsufficientNftBalance,
    /// The holding is of another collection than the poll requires.
    InvalidNftCollection,
    /// The poll is gated and takes ballots only with a holding record.
    NftGatedPoll,
    /// The poll is not gated and takes no ballots with a holding record.
    PollNotNftGated,
}

impl VotingError {
    /// The text shown to a user for this rejection.
    pub open spec fn message_text(self) -> Seq<char> {
        match self {
            VotingError::AlreadyVoted => "This voter has already voted on this poll"@,
            VotingError::Unauthorized => "Unauthorized to close this poll"@,
            VotingError::InvalidPollTime => "Invalid poll time settings"@,
            VotingError::PollMismatch => "Poll ID mismatch"@,
            VotingError::VotingNotActive => "Voting is not currently active for this poll"@,
            VotingError::PollNotStarted => "Poll has not started yet"@,
            VotingError::PollEnded => "Poll has already ended"@,
            VotingError::PollAlreadyStarted => {
                "Poll has already started and can only be closed by admin"@
            },
            VotingError::MissingNftTokenAccount => {
                "NFT token account is required for NFT-gated polls"@
            },
            VotingError::InvalidNftOwner => "NFT token account owner does not match voter"@,
            VotingError::InsufficientNftBalance => {
                "Insufficient NFT balance - at least 1 NFT required"@
            },
            VotingError::InvalidNftCollection => "NFT does not belong to the required collection"@,
            VotingError::NftGatedPoll => {
                "This is an NFT-gated poll, use vote_with_nft instruction"@
            },
            VotingError::PollNotNftGated => "This poll is not NFT-gated"@,
        }
    }

    /// The text shown to a user for this rejection.
    pub fn message(&self) -> (text: &'static str)
        ensures
            text@ == self.message_text(),
    {
        match self {
            VotingError::AlreadyVoted => "This voter has already voted on this poll",
            VotingError::Unauthorized => "Unauthorized to close this poll",
            VotingError::InvalidPollTime => "Invalid poll time settings",
            VotingError::PollMismatch => "Poll ID mismatch",
            VotingError::VotingNotActive => "Voting is not currently active for this poll",
            VotingError::PollNotStarted => "Poll has not started yet",
            VotingError::PollEnded => "Poll has already ended",
            VotingError::PollAlreadyStarted => {
                "Poll has already started and can only be closed by admin"
            },
            VotingError::MissingNftTokenAccount => {
                "NFT token account is required for NFT-gated polls"
            },
            VotingError::InvalidNftOwner => "NFT token account owner does not match voter",
            VotingError::InsufficientNftBalance => {
                "Insufficient NFT balance - at least 1 NFT required"
            },
            VotingError::InvalidNftCollection => "NFT does not belong to the required collection",
            VotingError::NftGatedPoll => "This is an NFT-gated poll, use vote_with_nft instruction",
            VotingError::PollNotNftGated => "This poll is not NFT-gated",
        }
    }
}

/// Why an operation was turned away.
#[derive(Clone, Copy, Debug, PartialEq, Eq, Structural, Hash)]
pub enum Rejection {
    /// A rule of the voting protocol was violated.
    Rule(VotingError),
    /// The title is longer than a poll record can hold.
    TitleTooLong,
    /// The description is longer than a poll record can hold.
    DescriptionTooLong,
    /// A poll is already recorded under the identifier.
    PollExists,
    /// No poll is recorded under the identifier.
    PollNotFound,
}

} // verus!
