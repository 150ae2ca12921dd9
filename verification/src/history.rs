//! What holds of the store over any course of operations.

use vstd::prelude::*;
use crate::address::Address;
use crate::error::{Rejection, VotingError};
use crate::model::{LedgerView, Operation};
use crate::records::Voter;

verus! {

/// A rejected operation changes nothing: neither a tally nor a marker nor
/// the set of polls.
pub proof fn law_rejection_changes_nothing(store: LedgerView, op: Operation)
    requires
        store.verdict(op) is Err,
    ensures
        store.apply(op) == store,
{
}

/// A poll record changes only by counting: over any operation that
/// leaves it in the store, it stays as it was or gains exactly one ballot.
/// Its identifier, creator, texts, window and gating never change, and no
/// counter ever goes down.
pub proof fn law_records_only_count(store: LedgerView, op: Operation, poll_id: u64)
    requires
        store.polls.contains_key(poll_id),
        store.apply(op).polls.contains_key(poll_id),
    ensures
        ({
            let before = store.polls[poll_id];
            let after = store.apply(op).polls[poll_id];
            ||| after == before
            ||| after == before.tallied(true)
            ||| after == before.tallied(false)
        }),
{
}

/// A ballot touches the poll it is cast on and the marker of the
/// participant that casts it, and nothing else: every other poll and
/// every other marker is as it was, whether the ballot is admitted or not.
pub proof fn law_ballot_touches_its_own(
    store: LedgerView,
    op: Operation,
    poll_id: u64,
    participant: Address,
)
    requires
        op.is_ballot_of(poll_id, participant),
    ensures
        store.apply(op).polls.dom() == store.polls.dom(),
        forall|other: u64|
            other != poll_id && store.polls.contains_key(other) ==> #[trigger] store.apply(
                op,
            ).polls[other] == store.polls[other],
        forall|other: u64, somebody: Address|
            (other, somebody) != (poll_id, participant) ==> #[trigger] store.apply(op).voter(
                other,
                somebody,
            ) == store.voter(other, somebody),
{
    assert(store.apply(op).polls.dom() =~= store.polls.dom());
}

/// Ballots of different participants, or on different polls, are
/// independent: in whichever order two of them run, each meets the same
/// verdict and the store ends up the same.
pub proof fn law_independent_ballots_commute(
    store: LedgerView,
    one: Operation,
    other: Operation,
    one_poll: u64,
    one_participant: Address,
    other_poll: u64,
    other_participant: Address,
)
    requires
        one.is_ballot_of(one_poll, one_participant),
        other.is_ballot_of(other_poll, other_participant),
        (one_poll, one_participant) != (other_poll, other_participant),
    ensures
        store.apply(one).verdict(other) == store.verdict(other),
        store.apply(other).verdict(one) == store.verdict(one),
        store.apply(one).apply(other) == store.apply(other).apply(one),
{
    law_ballot_touches_its_own(store, one, one_poll, one_participant);
    law_ballot_touches_its_own(store, other, other_poll, other_participant);
    assert(store.apply(one).voter(other_poll, other_participant) == store.voter(
        other_poll,
        other_participant,
    ));
    assert(store.apply(other).voter(one_poll, one_participant) == store.voter(
        one_poll,
        one_participant,
    ));
    let there = store.apply(one).apply(other);
    let back = store.apply(other).apply(one);
    assert(there.polls =~= back.polls);
    assert(there.voters =~= back.voters);
}

/// Every operation keeps a sound store sound.
pub proof fn law_sound_kept(store: LedgerView, op: Operation)
    requires
        store.sound(),
    ensures
        store.apply(op).sound(),
{
    let next = store.apply(op);
    if store.verdict(op) is Ok {
        match op {
            Operation::Create { poll_id, .. } => {
                assert forall|id: u64| next.participants(id) == store.participants(id) by {
                    assert(next.participants(id) =~= store.participants(id));
                }
                assert forall|id: u64| #[trigger] next.polls.contains_key(id) implies {
                    &&& next.polls[id].poll_id == id
                    &&& next.polls[id].well_formed()
                    &&& next.polls[id].ballots() <= next.participants(id).len()
                } by {
                    if id != poll_id {
                        assert(store.polls.contains_key(id));
                    }
                }
                assert forall|id: u64| #[trigger] next.participants(id).finite() by {
                    assert(store.participants(id).finite());
                }
            },
            Operation::Cast { participant, poll_id, vote_type, .. } => {
                lemma_ballot_keeps_sound(store, participant, poll_id, vote_type);
            },
            Operation::CastWithNft { participant, poll_id, vote_type, .. } => {
                lemma_ballot_keeps_sound(store, participant, poll_id, vote_type);
            },
            Operation::Close { poll_id, .. } => {
                assert forall|id: u64| next.participants(id) == store.participants(id) by {
                    assert(next.participants(id) =~= store.participants(id));
                }
                assert forall|id: u64| #[trigger] next.polls.contains_key(id) implies {
                    &&& next.polls[id].poll_id == id
                    &&& next.polls[id].well_formed()
                    &&& next.polls[id].ballots() <= next.participants(id).len()
                } by {
                    assert(store.polls.contains_key(id));
                }
                assert forall|id: u64| #[trigger] next.participants(id).finite() by {
                    assert(store.participants(id).finite());
                }
            },
        }
    }
}

/// Counting the ballot of a participant without a marker keeps a sound
/// store sound: the poll gains one ballot and one participant.
proof fn lemma_ballot_keeps_sound(
    store: LedgerView,
    participant: Address,
    poll_id: u64,
    vote_type: bool,
)
    requires
        store.sound(),
        store.polls.contains_key(poll_id),
        !store.voter(poll_id, participant).has_voted,
    ensures
        store.with_ballot(participant, poll_id, vote_type).sound(),
{
    let next = store.with_ballot(participant, poll_id, vote_type);
    assert(!store.voters.contains_key((poll_id, participant))) by {
        if store.voters.contains_key((poll_id, participant)) {
            assert(store.voters[(poll_id, participant)] == Voter::spent(poll_id));
        }
    }
    assert(store.participants(poll_id).finite());
    assert(next.participants(poll_id) =~= store.participants(poll_id).insert(participant));
    assert forall|id: u64| id != poll_id implies next.participants(id) == store.participants(
        id,
    ) by {
        assert(next.participants(id) =~= store.participants(id));
    }
    assert forall|id: u64| #[trigger] next.participants(id).finite() by {
        assert(store.participants(id).finite());
    }
    assert forall|id: u64| #[trigger] next.polls.contains_key(id) implies {
        &&& next.polls[id].poll_id == id
        &&& next.polls[id].well_formed()
        &&& next.polls[id].ballots() <= next.participants(id).len()
    } by {
        assert(store.polls.contains_key(id));
    }
    assert forall|key: (u64, Address)| #[trigger]
        next.voters.contains_key(key) implies next.voters[key] == Voter::spent(key.0) by {
        if key != (poll_id, participant) {
            assert(store.voters.contains_key(key));
        }
    }
}

/// Every store that a course of operations builds from a sound one is
/// sound; in particular no poll in it counts more ballots than it has
/// participants that have voted.
pub proof fn law_sound_throughout(store: LedgerView, history: Seq<Operation>)
    requires
        store.sound(),
    ensures
        store.replay(history).sound(),
    decreases history.len(),
{
    if history.len() > 0 {
        law_sound_throughout(store, history.drop_last());
        law_sound_kept(store.replay(history.drop_last()), history.last());
    }
}

/// The store that holds nothing is sound, and so is every store built
/// from it.
pub proof fn law_sound_from_empty(history: Seq<Operation>)
    ensures
        LedgerView::empty().sound(),
        LedgerView::empty().replay(history).sound(),
{
    let empty = LedgerView::empty();
    assert forall|id: u64| #[trigger] empty.participants(id).finite() by {
        assert(empty.participants(id) =~= Set::empty());
    }
    law_sound_throughout(empty, history);
}

/// A marker that says its participant has voted is never taken back: no
/// operation removes or resets it, not even the closure of its poll.
pub proof fn law_marker_permanent(
    store: LedgerView,
    history: Seq<Operation>,
    poll_id: u64,
    participant: Address,
)
    requires
        store.voter(poll_id, participant).has_voted,
    ensures
        store.replay(history).voter(poll_id, participant).has_voted,
    decreases history.len(),
{
    if history.len() > 0 {
        law_marker_permanent(store, history.drop_last(), poll_id, participant);
    }
}

/// An admitted ballot leaves the participant marked as having voted on
/// the poll.
pub proof fn law_ballot_marks(store: LedgerView, op: Operation, poll_id: u64, participant: Address)
    requires
        op.is_ballot_of(poll_id, participant),
        store.verdict(op) is Ok,
    ensures
        store.apply(op).voter(poll_id, participant) == Voter::spent(poll_id),
{
}

/// A ballot of a participant that is marked as having voted on the poll
/// is rejected, and with `AlreadyVoted` where the poll is stored under
/// its own identifier and its window is open.
pub proof fn law_marked_is_rejected(
    store: LedgerView,
    op: Operation,
    poll_id: u64,
    participant: Address,
)
    requires
        op.is_ballot_of(poll_id, participant),
        store.voter(poll_id, participant).has_voted,
    ensures
        store.verdict(op) is Err,
        store.polls.contains_key(poll_id) && store.polls[poll_id].poll_id == poll_id
            && store.polls[poll_id].in_window(op.now()) ==> store.verdict(op) == Err::<
            (),
            Rejection,
        >(Rejection::Rule(VotingError::AlreadyVoted)),
{
}

/// No double voting: in any course of operations, from any store, at
/// most one ballot of a participant on a poll is admitted. Once one has
/// been, every later one is rejected, whichever way it is cast and
/// whatever happened in between.
pub proof fn law_one_ballot_each(
    store: LedgerView,
    history: Seq<Operation>,
    first: int,
    second: int,
    poll_id: u64,
    participant: Address,
)
    requires
        0 <= first < second < history.len(),
        history[first].is_ballot_of(poll_id, participant),
        history[second].is_ballot_of(poll_id, participant),
        store.replay(history.take(first)).verdict(history[first]) is Ok,
    ensures
        store.replay(history.take(second)).verdict(history[second]) is Err,
        store.replay(history.take(second + 1)) == store.replay(history.take(second)),
{
    let before = store.replay(history.take(first));
    let after = store.replay(history.take(first + 1));
    assert(after == before.apply(history[first])) by {
        assert(history.take(first + 1).drop_last() =~= history.take(first));
    }
    law_ballot_marks(before, history[first], poll_id, participant);
    let between = history.subrange(first + 1, second);
    lemma_replay_in_two(store, history.take(first + 1), between);
    assert(history.take(first + 1) + between =~= history.take(second));
    law_marker_permanent(after, between, poll_id, participant);
    let then = store.replay(history.take(second));
    law_marked_is_rejected(then, history[second], poll_id, participant);
    assert(store.replay(history.take(second + 1)) == then.apply(history[second])) by {
        assert(history.take(second + 1).drop_last() =~= history.take(second));
    }
}

/// Replaying one course of operations and then another is replaying the
/// two on end.
pub proof fn lemma_replay_in_two(store: LedgerView, early: Seq<Operation>, late: Seq<Operation>)
    ensures
        store.replay(early + late) == store.replay(early).replay(late),
    decreases late.len(),
{
    if late.len() == 0 {
        assert(early + late =~= early);
    } else {
        lemma_replay_in_two(store, early, late.drop_last());
        assert((early + late).drop_last() =~= early + late.drop_last());
    }
}

} // verus!
