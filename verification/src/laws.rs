//! What the rules guarantee, whatever the records, the caller and the
//! time: each statement here is proved of the verdicts that the
//! operations return.

use vstd::prelude::*;
use crate::address::Address;
use crate::error::{Rejection, VotingError};
use crate::records::{
    text_len, Holding, PollView, Voter, MAX_DESCRIPTION_LEN, MAX_TITLE_LEN,
};
use crate::rules::{
    ballot_verdict, closure_verdict, creation_verdict, holding_verdict, vote_verdict,
    vote_with_nft_verdict,
};

verus! {

/// No double voting: after a ballot of a participant has been admitted,
/// the poll it was counted on and the marker it left reject every further
/// ballot of that participant, however it is cast. While the window is
/// open the rejection is `AlreadyVoted`; at any other time it is the
/// window's own.
pub proof fn law_no_double_vote(
    poll: PollView,
    voter: Voter,
    holding: Holding,
    participant: Address,
    poll_id: u64,
    vote_type: bool,
    now: int,
    later_holding: Holding,
    later: int,
)
    requires
        vote_verdict(poll, voter, poll_id, now) is Ok || vote_with_nft_verdict(
            poll,
            voter,
            holding,
            participant,
            poll_id,
            now,
        ) is Ok,
    ensures
        ({
            let counted = poll.tallied(vote_type);
            let marker = Voter::spent(poll_id);
            let plain = vote_verdict(counted, marker, poll_id, later);
            let backed = vote_with_nft_verdict(
                counted,
                marker,
                later_holding,
                participant,
                poll_id,
                later,
            );
            &&& plain is Err
            &&& backed is Err
            &&& poll.in_window(later) ==> plain == Err::<(), VotingError>(
                VotingError::AlreadyVoted,
            ) && backed == Err::<(), VotingError>(VotingError::AlreadyVoted)
            &&& later < poll.start_time ==> plain == Err::<(), VotingError>(
                VotingError::PollNotStarted,
            ) && backed == Err::<(), VotingError>(VotingError::PollNotStarted)
            &&& later > poll.end_time ==> plain == Err::<(), VotingError>(VotingError::PollEnded)
                && backed == Err::<(), VotingError>(VotingError::PollEnded)
        }),
{
}

/// Counting a ballot changes nothing that a verdict on a later ballot
/// looks at, except the participant's marker: the counted poll rejects
/// and admits as the poll before it did.
pub proof fn law_tally_keeps_rules(
    poll: PollView,
    voter: Voter,
    holding: Holding,
    participant: Address,
    signer: Address,
    poll_id: u64,
    vote_type: bool,
    now: int,
)
    ensures
        vote_verdict(poll.tallied(vote_type), voter, poll_id, now) == vote_verdict(
            poll,
            voter,
            poll_id,
            now,
        ),
        vote_with_nft_verdict(poll.tallied(vote_type), voter, holding, participant, poll_id, now)
            == vote_with_nft_verdict(poll, voter, holding, participant, poll_id, now),
        closure_verdict(poll.tallied(vote_type), signer, now) == closure_verdict(poll, signer, now),
        poll.tallied(vote_type).ballots() == poll.ballots() + 1,
        poll.well_formed() ==> poll.tallied(vote_type).well_formed(),
{
}

/// Window enforcement: on the record that the identifier names, a ballot
/// before the window opens is rejected with `PollNotStarted` and one after
/// it has closed with `PollEnded`, however it is cast; at either end of
/// the window, and anywhere between, the window rejects nothing.
pub proof fn law_window_enforced(
    poll: PollView,
    voter: Voter,
    holding: Holding,
    participant: Address,
    poll_id: u64,
    now: int,
)
    requires
        poll.poll_id == poll_id,
        poll.start_time < poll.end_time,
    ensures
        now < poll.start_time ==> {
            &&& vote_verdict(poll, voter, poll_id, now) == Err::<(), VotingError>(
                VotingError::PollNotStarted,
            )
            &&& vote_with_nft_verdict(poll, voter, holding, participant, poll_id, now) == Err::<
                (),
                VotingError,
            >(VotingError::PollNotStarted)
        },
        now > poll.end_time ==> {
            &&& vote_verdict(poll, voter, poll_id, now) == Err::<(), VotingError>(
                VotingError::PollEnded,
            )
            &&& vote_with_nft_verdict(poll, voter, holding, participant, poll_id, now) == Err::<
                (),
                VotingError,
            >(VotingError::PollEnded)
        },
        poll.start_time <= now <= poll.end_time ==> {
            &&& ballot_verdict(poll, voter, poll_id, now) is Ok <==> !voter.has_voted
            &&& vote_verdict(poll, voter, poll_id, now) is Ok <==> !voter.has_voted
                && !poll.is_nft_gated
            &&& vote_with_nft_verdict(poll, voter, holding, participant, poll_id, now) is Ok
                <==> !voter.has_voted && poll.is_nft_gated && holding_verdict(
                poll,
                holding,
                participant,
            ) is Ok
        },
{
}

/// A plain ballot is admitted exactly when the identifier names the
/// record, the window is open, the participant has not voted and the
/// poll is not gated.
pub proof fn law_vote_admitted(poll: PollView, voter: Voter, poll_id: u64, now: int)
    ensures
        vote_verdict(poll, voter, poll_id, now) is Ok <==> {
            &&& poll.poll_id == poll_id
            &&& poll.in_window(now)
            &&& !voter.has_voted
            &&& !poll.is_nft_gated
        },
{
}

/// Gating exclusivity: a gated poll admits no plain ballot and a poll
/// that is not gated admits no ballot with a holding. Where the ballot
/// passes what every ballot must pass, the rejection is `NftGatedPoll`
/// for the one and `PollNotNftGated` for the other.
pub proof fn law_gating_exclusive(
    poll: PollView,
    voter: Voter,
    holding: Holding,
    participant: Address,
    poll_id: u64,
    now: int,
)
    ensures
        poll.is_nft_gated ==> vote_verdict(poll, voter, poll_id, now) is Err,
        !poll.is_nft_gated ==> vote_with_nft_verdict(
            poll,
            voter,
            holding,
            participant,
            poll_id,
            now,
        ) is Err,
        poll.is_nft_gated && ballot_verdict(poll, voter, poll_id, now) is Ok ==> vote_verdict(
            poll,
            voter,
            poll_id,
            now,
        ) == Err::<(), VotingError>(VotingError::NftGatedPoll),
        !poll.is_nft_gated && ballot_verdict(poll, voter, poll_id, now) is Ok
            ==> vote_with_nft_verdict(poll, voter, holding, participant, poll_id, now) == Err::<
            (),
            VotingError,
        >(VotingError::PollNotNftGated),
{
}

/// Eligibility correctness: a ballot with a holding is admitted exactly
/// when it passes what every ballot must pass, the poll is gated, the
/// holding is the participant's own, it holds at least one unit, and the
/// poll names no collection or names the holding's.
pub proof fn law_eligibility(
    poll: PollView,
    voter: Voter,
    holding: Holding,
    participant: Address,
    poll_id: u64,
    now: int,
)
    ensures
        vote_with_nft_verdict(poll, voter, holding, participant, poll_id, now) is Ok <==> {
            &&& ballot_verdict(poll, voter, poll_id, now) is Ok
            &&& poll.is_nft_gated
            &&& holding.owner == participant
            &&& holding.amount >= 1
            &&& (poll.nft_collection is None || poll.nft_collection == Some(holding.mint))
        },
        holding_verdict(poll, holding, participant) is Ok <==> {
            &&& holding.owner == participant
            &&& holding.amount >= 1
            &&& (poll.nft_collection is None || poll.nft_collection == Some(holding.mint))
        },
{
}

/// Closure authorization: a closure is granted exactly to the creator of
/// the poll before the window opens. Anybody else is rejected with
/// `Unauthorized` at any time, and the creator with `PollAlreadyStarted`
/// from the opening of the window on.
pub proof fn law_closure_authorized(poll: PollView, signer: Address, now: int)
    ensures
        closure_verdict(poll, signer, now) is Ok <==> signer == poll.creator && now
            < poll.start_time,
        signer != poll.creator ==> closure_verdict(poll, signer, now) == Err::<(), VotingError>(
            VotingError::Unauthorized,
        ),
        signer == poll.creator && now >= poll.start_time ==> closure_verdict(poll, signer, now)
            == Err::<(), VotingError>(VotingError::PollAlreadyStarted),
{
}

/// Creation ordering: a creation is rejected with `InvalidPollTime`
/// exactly when the window is empty or has opened, and admitted exactly
/// when neither holds and both texts fit their bounds.
pub proof fn law_creation_ordered(
    title: Seq<char>,
    description: Seq<char>,
    start_time: int,
    end_time: int,
    now: int,
)
    ensures
        creation_verdict(title, description, start_time, end_time, now) == Err::<(), Rejection>(
            Rejection::Rule(VotingError::InvalidPollTime),
        ) <==> start_time >= end_time || now >= start_time,
        creation_verdict(title, description, start_time, end_time, now) is Ok <==> {
            &&& now < start_time < end_time
            &&& text_len(title) <= MAX_TITLE_LEN
            &&& text_len(description) <= MAX_DESCRIPTION_LEN
        },
{
}

/// Two rejections are kept for callers that know them and are never
/// given: no verdict on a ballot or a closure is `VotingNotActive` or
/// `MissingNftTokenAccount`.
pub proof fn law_rejections_never_given(
    poll: PollView,
    voter: Voter,
    holding: Holding,
    participant: Address,
    poll_id: u64,
    now: int,
    verdict: Result<(), VotingError>,
)
    requires
        verdict == vote_verdict(poll, voter, poll_id, now) || verdict == vote_with_nft_verdict(
            poll,
            voter,
            holding,
            participant,
            poll_id,
            now,
        ) || verdict == closure_verdict(poll, participant, now),
    ensures
        verdict != Err::<(), VotingError>(VotingError::VotingNotActive),
        verdict != Err::<(), VotingError>(VotingError::MissingNftTokenAccount),
{
}

/// A poll can be closed only while no ballot can be cast on it: no
/// moment admits both a closure and a ballot, and once a moment has
/// admitted a ballot no later moment admits a closure.
pub proof fn law_closure_precedes_voting(
    poll: PollView,
    voter: Voter,
    signer: Address,
    poll_id: u64,
    voted_at: int,
    closed_at: int,
)
    requires
        voted_at <= closed_at,
        ballot_verdict(poll, voter, poll_id, voted_at) is Ok,
    ensures
        closure_verdict(poll, signer, closed_at) is Err,
{
}

} // verus!
