//! The eligibility verifier: which operations the rules admit.
//!
//! Each operation is guarded by a list of conditions that are examined in
//! a fixed order; the first one that fails names the rejection.

use vstd::prelude::*;
use crate::address::Address;
use crate::error::{Rejection, VotingError};
use crate::records::{
    text_len, Holding, Poll, PollView, Voter, MAX_DESCRIPTION_LEN, MAX_TITLE_LEN,
};

verus! {

/// Whether a poll with the given texts and window may be created at `now`.
///
/// The window must not be empty and must not have opened; after that the
/// title and then the description must fit their bounds.
pub open spec fn creation_verdict(
    title: Seq<char>,
    description: Seq<char>,
    start_time: int,
    end_time: int,
    now: int,
) -> Result<(), Rejection> {
    if !(start_time < end_time) {
        Err(Rejection::Rule(VotingError::InvalidPollTime))
    } else if !(now < start_time) {
        Err(Rejection::Rule(VotingError::InvalidPollTime))
    } else if text_len(title) > MAX_TITLE_LEN {
        Err(Rejection::TitleTooLong)
    } else if text_len(description) > MAX_DESCRIPTION_LEN {
        Err(Rejection::DescriptionTooLong)
    } else {
        Ok(())
    }
}

/// What every ballot must pass, whichever way it is cast: the identifier
/// names the record, the window is open, and the participant has not voted.
pub open spec fn ballot_verdict(poll: PollView, voter: Voter, poll_id: u64, now: int) -> Result<
    (),
    VotingError,
> {
    if poll.poll_id != poll_id {
        Err(VotingError::PollMismatch)
    } else if !(now >= poll.start_time) {
        Err(VotingError::PollNotStarted)
    } else if !(now <= poll.end_time) {
        Err(VotingError::PollEnded)
    } else if voter.has_voted {
        Err(VotingError::AlreadyVoted)
    } else {
        Ok(())
    }
}

/// Whether a holding makes `participant` eligible on a gated poll: it is
/// the participant's own, holds at least one unit, and is of the required
/// collection where the poll names one.
pub open spec fn holding_verdict(poll: PollView, holding: Holding, participant: Address) -> Result<
    (),
    VotingError,
> {
    if holding.owner != participant {
        Err(VotingError::InvalidNftOwner)
    } else if !(holding.amount >= 1) {
        Err(VotingError::InsufficientNftBalance)
    } else if poll.nft_collection is Some && holding.mint != poll.nft_collection->0 {
        Err(VotingError::InvalidNftCollection)
    } else {
        Ok(())
    }
}

/// Whether a plain ballot is admitted: the common conditions, and then
/// the poll must not be gated.
pub open spec fn vote_verdict(poll: PollView, voter: Voter, poll_id: u64, now: int) -> Result<
    (),
    VotingError,
> {
    match ballot_verdict(poll, voter, poll_id, now) {
        Err(e) => Err(e),
        Ok(_) => if poll.is_nft_gated {
            Err(VotingError::NftGatedPoll)
        } else {
            Ok(())
        },
    }
}

/// Whether a ballot backed by a holding is admitted: the common
/// conditions, then the poll must be gated, then the holding must make the
/// participant eligible.
pub open spec fn vote_with_nft_verdict(
    poll: PollView,
    voter: Voter,
    holding: Holding,
    participant: Address,
    poll_id: u64,
    now: int,
) -> Result<(), VotingError> {
    match ballot_verdict(poll, voter, poll_id, now) {
        Err(e) => Err(e),
        Ok(_) => if !poll.is_nft_gated {
            Err(VotingError::PollNotNftGated)
        } else {
            holding_verdict(poll, holding, participant)
        },
    }
}

/// Whether `signer` may close the poll at `now`: only its creator, and
/// only before the window opens.
pub open spec fn closure_verdict(poll: PollView, signer: Address, now: int) -> Result<
    (),
    VotingError,
> {
    if signer != poll.creator {
        Err(VotingError::Unauthorized)
    } else if !(now < poll.start_time) {
        Err(VotingError::PollAlreadyStarted)
    } else {
        Ok(())
    }
}

/// Decides whether a poll with these texts and this window may be created
/// at `current_time`.
pub fn check_creation(
    title: &String,
    description: &String,
    start_time: i64,
    end_time: i64,
    current_time: i64,
) -> (verdict: Result<(), Rejection>)
    ensures
        verdict == creation_verdict(
            title@,
            description@,
            start_time as int,
            end_time as int,
            current_time as int,
        ),
{
    if !(start_time < end_time) {
        return Err(Rejection::Rule(VotingError::InvalidPollTime));
    }
    if !(current_time < start_time) {
        return Err(Rejection::Rule(VotingError::InvalidPollTime));
    }
    if title.as_str().as_bytes().len() > MAX_TITLE_LEN {
        return Err(Rejection::TitleTooLong);
    }
    if description.as_str().as_bytes().len() > MAX_DESCRIPTION_LEN {
        return Err(Rejection::DescriptionTooLong);
    }
    Ok(())
}

/// Decides what every ballot must pass: identifier, window, and no
/// earlier ballot by the participant.
pub fn check_ballot(poll: &Poll, voter: &Voter, poll_id: u64, current_time: i64) -> (verdict:
    Result<(), VotingError>)
    ensures
        verdict == ballot_verdict(poll@, *voter, poll_id, current_time as int),
{
    if poll.poll_id != poll_id {
        return Err(VotingError::PollMismatch);
    }
    if !(current_time >= poll.start_time) {
        return Err(VotingError::PollNotStarted);
    }
    if !(current_time <= poll.end_time) {
        return Err(VotingError::PollEnded);
    }
    if voter.has_voted {
        return Err(VotingError::AlreadyVoted);
    }
    Ok(())
}

/// Decides whether a holding makes `participant` eligible on the poll.
pub fn check_holding(poll: &Poll, holding: &Holding, participant: &Address) -> (verdict: Result<
    (),
    VotingError,
>)
    ensures
        verdict == holding_verdict(poll@, *holding, *participant),
{
    if holding.owner != *participant {
        return Err(VotingError::InvalidNftOwner);
    }
    if !(holding.amount >= 1) {
        return Err(VotingError::InsufficientNftBalance);
    }
    if let Some(required_collection) = poll.nft_collection {
        if holding.mint != required_collection {
            return Err(VotingError::InvalidNftCollection);
        }
    }
    Ok(())
}

/// Decides whether a plain ballot of the participant with marker `voter`
/// is admitted on the poll at `current_time`.
pub fn check_vote(poll: &Poll, voter: &Voter, poll_id: u64, current_time: i64) -> (verdict: Result<
    (),
    VotingError,
>)
    ensures
        verdict == vote_verdict(poll@, *voter, poll_id, current_time as int),
{
    check_ballot(poll, voter, poll_id, current_time)?;
    if poll.is_nft_gated {
        return Err(VotingError::NftGatedPoll);
    }
    Ok(())
}

/// Decides whether a ballot of `participant`, with marker `voter` and
/// backed by `holding`, is admitted on the poll at `current_time`.
pub fn check_vote_with_nft(
    poll: &Poll,
    voter: &Voter,
    holding: &Holding,
    participant: &Address,
    poll_id: u64,
    current_time: i64,
) -> (verdict: Result<(), VotingError>)
    ensures
        verdict == vote_with_nft_verdict(
            poll@,
            *voter,
            *holding,
            *participant,
            poll_id,
            current_time as int,
        ),
{
    check_ballot(poll, voter, poll_id, current_time)?;
    if !poll.is_nft_gated {
        return Err(VotingError::PollNotNftGated);
    }
    check_holding(poll, holding, participant)
}

/// Decides whether `signer` may close the poll at `current_time`.
pub fn check_closure(poll: &Poll, signer: &Address, current_time: i64) -> (verdict: Result<
    (),
    VotingError,
>)
    ensures
        verdict == closure_verdict(poll@, *signer, current_time as int),
{
    if *signer != poll.creator {
        return Err(VotingError::Unauthorized);
    }
    if !(current_time < poll.start_time) {
        return Err(VotingError::PollAlreadyStarted);
    }
    Ok(())
}

} // verus!
