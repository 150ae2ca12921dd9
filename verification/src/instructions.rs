//! The four operations of the poll lifecycle, each on the records it
//! touches.
//!
//! An operation is handed the records that the store has loaded for it,
//! together with the authenticated caller and the current time. It either
//! applies its whole effect to those records or rejects and leaves them as
//! they were.

use vstd::prelude::*;
use crate::address::Address;
use crate::error::{Rejection, VotingError};
use crate::records::{Holding, Poll, PollView, Voter};
use crate::rules::{
    check_closure, check_creation, check_vote, check_vote_with_nft, closure_verdict,
    creation_verdict, vote_verdict, vote_with_nft_verdict,
};

verus! {

/// The records of a poll creation: the creating identity and the newly
/// allocated poll record to be filled in.
#[derive(Debug, PartialEq, Eq)]
pub struct CreatePoll {
    pub creator: Address,
    pub poll: Poll,
}

/// The records of a plain ballot: the poll, the participant's marker on
/// it, and the participant.
#[derive(Debug, PartialEq, Eq)]
pub struct Vote {
    pub poll: Poll,
    pub voter: Voter,
    pub voter_signer: Address,
}

/// The records of a ballot on a gated poll: those of a plain ballot and
/// the holding that the participant presents.
#[derive(Debug, PartialEq, Eq)]
pub struct VoteWithNft {
    pub poll: Poll,
    pub voter: Voter,
    pub voter_signer: Address,
    pub nft_token_account: Holding,
}

/// The records of a closure: the requester and the poll to be removed.
#[derive(Debug, PartialEq, Eq)]
pub struct ClosePoll {
    pub signer: Address,
    pub poll: Poll,
}

/// One more than `counter`, by checked addition: a counter that is full
/// stops the operation and is never wrapped.
fn counted(counter: u32) -> (next: u32)
    requires
        counter < u32::MAX,
    ensures
        next == counter + 1,
{
    match counter.checked_add(1) {
        Some(next) => next,
        None => vstd::pervasive::unreached(),
    }
}

/// Counts one ballot on the poll and marks the participant as having
/// voted on `poll_id`.
fn record_ballot(poll: &mut Poll, voter: &mut Voter, poll_id: u64, vote_type: bool)
    requires
        old(poll)@.has_room(vote_type),
    ensures
        final(poll)@ == old(poll)@.tallied(vote_type),
        *final(voter) == Voter::spent(poll_id),
{
    if vote_type {
        poll.yes_votes = counted(poll.yes_votes);
    } else {
        poll.no_votes = counted(poll.no_votes);
    }
    voter.has_voted = true;
    voter.poll_id = poll_id;
}

/// Creates a poll: fills the new record of `ctx` with the given question
/// and window, owned by the creator, with no ballots counted.
///
/// Rejected, with the record untouched, when the window is empty or has
/// already opened at `current_time`, or when a text exceeds its bound.
pub fn create_poll(
    ctx: &mut CreatePoll,
    poll_id: u64,
    title: String,
    description: String,
    start_time: i64,
    end_time: i64,
    nft_collection: Option<Address>,
    current_time: i64,
) -> (result: Result<(), Rejection>)
    ensures
        result == creation_verdict(
            title@,
            description@,
            start_time as int,
            end_time as int,
            current_time as int,
        ),
        result is Err ==> *final(ctx) == *old(ctx),
        result is Ok ==> final(ctx).creator == old(ctx).creator,
        result is Ok ==> final(ctx).poll@ == PollView::fresh(
            poll_id,
            old(ctx).creator,
            title@,
            description@,
            start_time as int,
            end_time as int,
            nft_collection,
            current_time as int,
        ),
        result is Ok ==> final(ctx).poll@.well_formed(),
{
    check_creation(&title, &description, start_time, end_time, current_time)?;
    ctx.poll.poll_id = poll_id;
    ctx.poll.creator = ctx.creator;
    ctx.poll.title = title;
    ctx.poll.description = description;
    ctx.poll.yes_votes = 0;
    ctx.poll.no_votes = 0;
    ctx.poll.created_at = current_time;
    ctx.poll.start_time = start_time;
    ctx.poll.end_time = end_time;
    ctx.poll.is_nft_gated = nft_collection.is_some();
    ctx.poll.nft_collection = nft_collection;
    Ok(())
}

/// Casts a plain ballot: counts it on the poll of `ctx` and marks the
/// participant as having voted.
///
/// Rejected, with the records untouched, by the first rule that fails:
/// the identifier names another record, the window is not open at
/// `current_time`, the participant has voted, or the poll is gated.
pub fn vote(ctx: &mut Vote, poll_id: u64, vote_type: bool, current_time: i64) -> (result: Result<
    (),
    VotingError,
>)
    requires
        vote_verdict(old(ctx).poll@, old(ctx).voter, poll_id, current_time as int) is Ok
            ==> old(ctx).poll@.has_room(vote_type),
    ensures
        result == vote_verdict(old(ctx).poll@, old(ctx).voter, poll_id, current_time as int),
        result is Err ==> *final(ctx) == *old(ctx),
        result is Ok ==> final(ctx).poll@ == old(ctx).poll@.tallied(vote_type),
        result is Ok ==> final(ctx).voter == Voter::spent(poll_id),
        result is Ok ==> final(ctx).voter_signer == old(ctx).voter_signer,
{
    check_vote(&ctx.poll, &ctx.voter, poll_id, current_time)?;
    record_ballot(&mut ctx.poll, &mut ctx.voter, poll_id, vote_type);
    Ok(())
}

/// Casts a ballot on a gated poll: counts it on the poll of `ctx` and
/// marks the participant as having voted.
///
/// Rejected, with the records untouched, by the first rule that fails:
/// those of every ballot, then the poll is not gated, then the holding is
/// not the participant's, is empty, or is of another collection than the
/// poll requires.
pub fn vote_with_nft(
    ctx: &mut VoteWithNft,
    poll_id: u64,
    vote_type: bool,
    current_time: i64,
) -> (result: Result<(), VotingError>)
    requires
        vote_with_nft_verdict(
            old(ctx).poll@,
            old(ctx).voter,
            old(ctx).nft_token_account,
            old(ctx).voter_signer,
            poll_id,
            current_time as int,
        ) is Ok ==> old(ctx).poll@.has_room(vote_type),
    ensures
        result == vote_with_nft_verdict(
            old(ctx).poll@,
            old(ctx).voter,
            old(ctx).nft_token_account,
            old(ctx).voter_signer,
            poll_id,
            current_time as int,
        ),
        result is Err ==> *final(ctx) == *old(ctx),
        result is Ok ==> final(ctx).poll@ == old(ctx).poll@.tallied(vote_type),
        result is Ok ==> final(ctx).voter == Voter::spent(poll_id),
        result is Ok ==> final(ctx).voter_signer == old(ctx).voter_signer,
        result is Ok ==> final(ctx).nft_token_account == old(ctx).nft_token_account,
{
    check_vote_with_nft(
        &ctx.poll,
        &ctx.voter,
        &ctx.nft_token_account,
        &ctx.voter_signer,
        poll_id,
        current_time,
    )?;
    record_ballot(&mut ctx.poll, &mut ctx.voter, poll_id, vote_type);
    Ok(())
}

/// Decides a closure: granted to the creator of the poll before its
/// window opens, upon which the store removes the record.
///
/// Rejected when the requester is not the creator, or when the window has
/// opened at `current_time`.
pub fn close_poll(ctx: &ClosePoll, current_time: i64) -> (result: Result<(), VotingError>)
    ensures
        result == closure_verdict(ctx.poll@, ctx.signer, current_time as int),
{
    check_closure(&ctx.poll, &ctx.signer, current_time)
}

} // verus!
