//! A keyed record store in memory, and the four operations run against
//! it.
//!
//! Each operation loads the records it needs, lets the rules decide, and
//! commits the whole effect or nothing.

use std::collections::HashMap;
use vstd::prelude::*;
use crate::address::Address;
use crate::error::Rejection;
use crate::instructions::{
    close_poll, create_poll, vote, vote_with_nft, ClosePoll, CreatePoll, Vote, VoteWithNft,
};
use crate::model::{LedgerView, Operation};
use crate::records::{Holding, Poll, PollView, Voter};

verus! {

broadcast use vstd::std_specs::hash::group_hash_axioms;

/// The store: poll records by identifier, and for each poll identifier
/// the roll of the participants that have voted on it.
///
/// A participant on the roll of a poll stands for the marker that says
/// so; a participant not on it has no marker yet.
pub struct Ledger {
    polls: HashMap<u64, Poll>,
    rolls: HashMap<u64, Vec<Address>>,
}

impl View for Ledger {
    type V = LedgerView;

    closed spec fn view(&self) -> LedgerView {
        LedgerView {
            polls: Map::new(
                |poll_id: u64| self.polls@.contains_key(poll_id),
                |poll_id: u64| self.polls@[poll_id]@,
            ),
            voters: Map::new(
                |key: (u64, Address)| self.roll(key.0).contains(key.1),
                |key: (u64, Address)| Voter::spent(key.0),
            ),
        }
    }
}

/// A roll with one more participant holds who it held, and the newcomer.
proof fn lemma_roll_grows(roll: Seq<Address>, newcomer: Address)
    ensures
        forall|a: Address| #[trigger]
            roll.push(newcomer).contains(a) <==> roll.contains(a) || a == newcomer,
        roll.no_duplicates() && !roll.contains(newcomer) ==> roll.push(newcomer).no_duplicates(),
{
    let grown = roll.push(newcomer);
    assert forall|a: Address| #[trigger]
        grown.contains(a) <==> roll.contains(a) || a == newcomer by {
        if roll.contains(a) {
            let i = choose|i: int| 0 <= i < roll.len() && roll[i] == a;
            assert(grown[i] == a);
        }
        if a == newcomer {
            assert(grown[roll.len() as int] == a);
        }
    }
}

impl Ledger {
    /// The roll of `poll_id`: empty where none is kept yet.
    closed spec fn roll(&self, poll_id: u64) -> Seq<Address> {
        if self.rolls@.contains_key(poll_id) {
            self.rolls@[poll_id]@
        } else {
            Seq::empty()
        }
    }

    /// The store is as the operations keep it: every poll under its own
    /// identifier, well formed, and counting no more ballots than its roll
    /// is long; and nobody twice on a roll.
    pub closed spec fn wf(&self) -> bool {
        &&& forall|poll_id: u64| #[trigger]
            self.polls@.contains_key(poll_id) ==> {
                &&& self.polls@[poll_id].poll_id == poll_id
                &&& self.polls@[poll_id]@.well_formed()
                &&& self.polls@[poll_id]@.ballots() <= self.roll(poll_id).len()
            }
        &&& forall|poll_id: u64| #[trigger] self.roll(poll_id).no_duplicates()
    }

    /// A well-formed store holds a sound collection of records.
    pub proof fn lemma_wf_sound(&self)
        requires
            self.wf(),
        ensures
            self@.sound(),
    {
        let view = self@;
        assert forall|poll_id: u64|
            view.participants(poll_id) == self.roll(poll_id).to_set()
            && #[trigger] view.participants(poll_id).finite()
            && view.participants(poll_id).len() == self.roll(poll_id).len() by {
            let roll = self.roll(poll_id);
            assert(view.participants(poll_id) =~= roll.to_set()) by {
                assert forall|a: Address|
                    view.participants(poll_id).contains(a) <==> roll.to_set().contains(a) by {
                    assert(view.voters.contains_key((poll_id, a)) <==> roll.contains(a));
                }
            }
            vstd::seq_lib::seq_to_set_is_finite(roll);
            roll.unique_seq_to_set();
        }
        assert forall|poll_id: u64| #[trigger] view.polls.contains_key(poll_id) implies {
            &&& view.polls[poll_id].poll_id == poll_id
            &&& view.polls[poll_id].well_formed()
            &&& view.polls[poll_id].ballots() <= view.participants(poll_id).len()
        } by {
            assert(self.polls@.contains_key(poll_id));
            assert(view.participants(poll_id).finite());
        }
    }

    /// Two stores that keep the same polls and the same rolls hold the
    /// same records, and one is well formed when the other is.
    proof fn lemma_same_contents(&self, other: &Ledger)
        requires
            self.polls@ == other.polls@,
            self.rolls@ == other.rolls@,
        ensures
            self@ == other@,
            self.wf() == other.wf(),
    {
        assert forall|poll_id: u64| self.roll(poll_id) == other.roll(poll_id) by {}
        assert(self@.polls =~= other@.polls);
        assert(self@.voters =~= other@.voters);
    }

    /// A store that holds nothing.
    pub fn new() -> (ledger: Ledger)
        ensures
            ledger.wf(),
            ledger@ == LedgerView::empty(),
    {
        let ledger = Ledger { polls: HashMap::new(), rolls: HashMap::new() };
        proof {
            assert(ledger@.polls =~= Map::empty());
            assert(ledger@.voters =~= Map::empty());
        }
        ledger
    }

    /// The poll stored under `poll_id`, if there is one.
    pub fn poll(&self, poll_id: u64) -> (found: Option<&Poll>)
        ensures
            found is Some <==> self@.polls.contains_key(poll_id),
            found is Some ==> found->0@ == self@.polls[poll_id],
    {
        self.polls.get(&poll_id)
    }

    /// The marker of `participant` on `poll_id`: the stored one, or a
    /// blank one where the participant has none yet.
    pub fn voter(&self, poll_id: u64, participant: &Address) -> (voter: Voter)
        ensures
            voter == self@.voter(poll_id, *participant),
    {
        match self.rolls.get(&poll_id) {
            None => Voter::blank(),
            Some(roll) => {
                let mut i: usize = 0;
                while i < roll.len()
                    invariant
                        i <= roll.len(),
                        roll@ == self.roll(poll_id),
                        forall|j: int| 0 <= j < i ==> roll@[j] != *participant,
                    decreases roll.len() - i,
                {
                    if roll[i] == *participant {
                        return Voter { poll_id, has_voted: true };
                    }
                    i += 1;
                }
                Voter::blank()
            },
        }
    }

    /// Puts `participant` on the roll of `poll_id`.
    fn enroll(&mut self, poll_id: u64, participant: Address)
        ensures
            final(self).polls == old(self).polls,
            final(self).roll(poll_id) == old(self).roll(poll_id).push(participant),
            forall|other: u64|
                other != poll_id ==> final(self).roll(other) == old(self).roll(other),
    {
        let mut roll = match self.rolls.remove(&poll_id) {
            Some(roll) => roll,
            None => Vec::new(),
        };
        roll.push(participant);
        self.rolls.insert(poll_id, roll);
    }

    /// Commits an admitted ballot: stores the poll with the ballot counted
    /// and puts the participant on its roll.
    fn commit_ballot(&mut self, counted: Poll, participant: Address, vote_type: bool)
        requires
            old(self).wf(),
            old(self).polls@.contains_key(counted.poll_id),
            counted@ == old(self).polls@[counted.poll_id]@.tallied(vote_type),
            !old(self).roll(counted.poll_id).contains(participant),
        ensures
            final(self).wf(),
            final(self)@ == old(self)@.with_ballot(participant, counted.poll_id, vote_type),
    {
        let poll_id = counted.poll_id;
        self.polls.insert(poll_id, counted);
        self.enroll(poll_id, participant);
        proof {
            lemma_roll_grows(old(self).roll(poll_id), participant);
            let before = old(self)@;
            let after = self@;
            let expected = before.with_ballot(participant, poll_id, vote_type);
            assert(after.polls =~= expected.polls);
            assert(after.voters =~= expected.voters) by {
                assert forall|key: (u64, Address)|
                    after.voters.contains_key(key) <==> expected.voters.contains_key(key) by {
                    if key.0 != poll_id {
                        assert(self.roll(key.0) == old(self).roll(key.0));
                    }
                }
            }
            assert forall|id: u64| #[trigger] self.roll(id).no_duplicates() by {
                if id != poll_id {
                    assert(self.roll(id) == old(self).roll(id));
                }
            }
            assert forall|id: u64| #[trigger] self.polls@.contains_key(id) implies {
                &&& self.polls@[id].poll_id == id
                &&& self.polls@[id]@.well_formed()
                &&& self.polls@[id]@.ballots() <= self.roll(id).len()
            } by {
                if id != poll_id {
                    assert(old(self).polls@.contains_key(id));
                    assert(self.roll(id) == old(self).roll(id));
                }
            }
        }
    }

    /// Creates a poll under `poll_id`, owned by `creator`.
    ///
    /// Rejected, with the store untouched, when a poll is already stored
    /// under the identifier, when the window is empty or has opened at
    /// `current_time`, or when a text exceeds its bound.
    pub fn create(
        &mut self,
        creator: Address,
        poll_id: u64,
        title: String,
        description: String,
        start_time: i64,
        end_time: i64,
        nft_collection: Option<Address>,
        current_time: i64,
    ) -> (result: Result<(), Rejection>)
        requires
            old(self).wf(),
        ensures
            final(self).wf(),
            result == old(self)@.create_verdict(
                poll_id,
                title@,
                description@,
                start_time as int,
                end_time as int,
                current_time as int,
            ),
            result is Err ==> final(self)@ == old(self)@,
            result is Ok ==> final(self)@ == old(self)@.with_poll(
                PollView::fresh(
                    poll_id,
                    creator,
                    title@,
                    description@,
                    start_time as int,
                    end_time as int,
                    nft_collection,
                    current_time as int,
                ),
            ),
            final(self)@ == old(self)@.apply(
                (Operation::Create {
                    creator,
                    poll_id,
                    title: title@,
                    description: description@,
                    start_time: start_time as int,
                    end_time: end_time as int,
                    nft_collection,
                    now: current_time as int,
                }),
            ),
    {
        if self.polls.contains_key(&poll_id) {
            return Err(Rejection::PollExists);
        }
        let mut ctx = CreatePoll { creator, poll: Poll::blank() };
        create_poll(
            &mut ctx,
            poll_id,
            title,
            description,
            start_time,
            end_time,
            nft_collection,
            current_time,
        )?;
        self.polls.insert(poll_id, ctx.poll);
        proof {
            let expected = old(self)@.with_poll(ctx.poll@);
            assert(self@.polls =~= expected.polls);
            assert(self@.voters =~= expected.voters);
            assert forall|id: u64| #[trigger] self.polls@.contains_key(id) implies {
                &&& self.polls@[id].poll_id == id
                &&& self.polls@[id]@.well_formed()
                &&& self.polls@[id]@.ballots() <= self.roll(id).len()
            } by {
                if id != poll_id {
                    assert(old(self).polls@.contains_key(id));
                }
            }
            assert forall|id: u64| #[trigger] self.roll(id).no_duplicates() by {
                assert(self.roll(id) == old(self).roll(id));
            }
        }
        Ok(())
    }

    /// Casts a plain ballot of `participant` on the poll stored under
    /// `poll_id`.
    ///
    /// Rejected, with the store untouched, when no such poll is stored or
    /// when a rule turns the ballot away.
    pub fn cast(
        &mut self,
        participant: Address,
        poll_id: u64,
        vote_type: bool,
        current_time: i64,
    ) -> (result: Result<(), Rejection>)
        requires
            old(self).wf(),
            old(self)@.cast_verdict(participant, poll_id, current_time as int) is Ok
                ==> old(self)@.polls[poll_id].has_room(vote_type),
        ensures
            final(self).wf(),
            result == old(self)@.cast_verdict(participant, poll_id, current_time as int),
            result is Err ==> final(self)@ == old(self)@,
            result is Ok ==> final(self)@ == old(self)@.with_ballot(
                participant,
                poll_id,
                vote_type,
            ),
            final(self)@ == old(self)@.apply(
                (Operation::Cast { participant, poll_id, vote_type, now: current_time as int }),
            ),
    {
        let voter = self.voter(poll_id, &participant);
        let poll = match self.polls.get(&poll_id) {
            None => {
                return Err(Rejection::PollNotFound);
            },
            Some(poll) => poll.clone(),
        };
        let mut ctx = Vote { poll, voter, voter_signer: participant };
        match vote(&mut ctx, poll_id, vote_type, current_time) {
            Err(rule) => Err(Rejection::Rule(rule)),
            Ok(()) => {
                self.commit_ballot(ctx.poll, participant, vote_type);
                Ok(())
            },
        }
    }

    /// Casts a ballot of `participant`, backed by `holding`, on the poll
    /// stored under `poll_id`.
    ///
    /// Rejected, with the store untouched, when no such poll is stored or
    /// when a rule turns the ballot away.
    pub fn cast_with_nft(
        &mut self,
        participant: Address,
        holding: Holding,
        poll_id: u64,
        vote_type: bool,
        current_time: i64,
    ) -> (result: Result<(), Rejection>)
        requires
            old(self).wf(),
            old(self)@.cast_with_nft_verdict(participant, holding, poll_id, current_time as int)
                is Ok ==> old(self)@.polls[poll_id].has_room(vote_type),
        ensures
            final(self).wf(),
            result == old(self)@.cast_with_nft_verdict(
                participant,
                holding,
                poll_id,
                current_time as int,
            ),
            result is Err ==> final(self)@ == old(self)@,
            result is Ok ==> final(self)@ == old(self)@.with_ballot(
                participant,
                poll_id,
                vote_type,
            ),
            final(self)@ == old(self)@.apply(
                (Operation::CastWithNft {
                    participant,
                    holding,
                    poll_id,
                    vote_type,
                    now: current_time as int,
                }),
            ),
    {
        let voter = self.voter(poll_id, &participant);
        let poll = match self.polls.get(&poll_id) {
            None => {
                return Err(Rejection::PollNotFound);
            },
            Some(poll) => poll.clone(),
        };
        let mut ctx = VoteWithNft {
            poll,
            voter,
            voter_signer: participant,
            nft_token_account: holding,
        };
        match vote_with_nft(&mut ctx, poll_id, vote_type, current_time) {
            Err(rule) => Err(Rejection::Rule(rule)),
            Ok(()) => {
                self.commit_ballot(ctx.poll, participant, vote_type);
                Ok(())
            },
        }
    }

    /// Closes the poll stored under `poll_id` at the request of `signer`:
    /// the record is removed for good. The markers of its participants
    /// stay.
    ///
    /// Rejected, with the store untouched, when no such poll is stored,
    /// when the requester is not its creator, or when its window has
    /// opened at `current_time`.
    pub fn close(&mut self, signer: Address, poll_id: u64, current_time: i64) -> (result: Result<
        (),
        Rejection,
    >)
        requires
            old(self).wf(),
        ensures
            final(self).wf(),
            result == old(self)@.close_verdict(signer, poll_id, current_time as int),
            result is Err ==> final(self)@ == old(self)@,
            result is Ok ==> final(self)@ == old(self)@.without_poll(poll_id),
            final(self)@ == old(self)@.apply(
                (Operation::Close { signer, poll_id, now: current_time as int }),
            ),
    {
        let poll = match self.polls.remove(&poll_id) {
            None => {
                proof {
                    assert(self.polls@ =~= old(self).polls@);
                    self.lemma_same_contents(old(self));
                }
                return Err(Rejection::PollNotFound);
            },
            Some(poll) => poll,
        };
        let ctx = ClosePoll { signer, poll };
        match close_poll(&ctx, current_time) {
            Ok(()) => {
                proof {
                    let expected = old(self)@.without_poll(poll_id);
                    assert(self@.polls =~= expected.polls);
                    assert(self@.voters =~= expected.voters);
                    assert forall|id: u64| #[trigger] self.polls@.contains_key(id) implies {
                        &&& self.polls@[id].poll_id == id
                        &&& self.polls@[id]@.well_formed()
                        &&& self.polls@[id]@.ballots() <= self.roll(id).len()
                    } by {
                        assert(old(self).polls@.contains_key(id));
                    }
                    assert forall|id: u64| #[trigger] self.roll(id).no_duplicates() by {
                        assert(self.roll(id) == old(self).roll(id));
                    }
                }
                Ok(())
            },
            Err(rule) => {
                self.polls.insert(poll_id, ctx.poll);
                proof {
                    assert(self.polls@ =~= old(self).polls@);
                    self.lemma_same_contents(old(self));
                }
                Err(Rejection::Rule(rule))
            },
        }
    }
}

} // verus!
