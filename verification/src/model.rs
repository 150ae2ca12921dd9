//! The keyed record store as a mathematical value, and what each
//! operation makes of it.
//!
//! Polls are addressed by their identifier and voter markers by the pair
//! of poll identifier and participant. An operation that is rejected
//! leaves the store as it was; one that is admitted applies its whole
//! effect.

use vstd::prelude::*;
use crate::address::Address;
use crate::error::{Rejection, VotingError};
use crate::records::{Holding, PollView, Voter};
use crate::rules::{closure_verdict, creation_verdict, vote_verdict, vote_with_nft_verdict};

verus! {

/// A rule's verdict as the verdict of an operation on the store.
pub open spec fn store_verdict(verdict: Result<(), VotingError>) -> Result<(), Rejection> {
    match verdict {
        Ok(_) => Ok(()),
        Err(rule) => Err(Rejection::Rule(rule)),
    }
}

/// The contents of the store: one poll record for each identifier in use
/// and one marker for each pair of poll and participant that has one.
pub struct LedgerView {
    pub polls: Map<u64, PollView>,
    pub voters: Map<(u64, Address), Voter>,
}

/// An operation with all that it is given: the caller, the arguments and
/// the time at which it runs.
pub enum Operation {
    Create {
        creator: Address,
        poll_id: u64,
        title: Seq<char>,
        description: Seq<char>,
        start_time: int,
        end_time: int,
        nft_collection: Option<Address>,
        now: int,
    },
    Cast { participant: Address, poll_id: u64, vote_type: bool, now: int },
    CastWithNft { participant: Address, holding: Holding, poll_id: u64, vote_type: bool, now: int },
    Close { signer: Address, poll_id: u64, now: int },
}

impl Operation {
    /// The time at which the operation runs.
    pub open spec fn now(self) -> int {
        match self {
            Operation::Create { now, .. } => now,
            Operation::Cast { now, .. } => now,
            Operation::CastWithNft { now, .. } => now,
            Operation::Close { now, .. } => now,
        }
    }

    /// Whether the operation is a ballot of `participant` on `poll_id`,
    /// cast either way.
    pub open spec fn is_ballot_of(self, poll_id: u64, participant: Address) -> bool {
        match self {
            Operation::Cast { participant: p, poll_id: id, .. } => p == participant && id
                == poll_id,
            Operation::CastWithNft { participant: p, poll_id: id, .. } => p == participant && id
                == poll_id,
            _ => false,
        }
    }
}

impl LedgerView {
    /// The store that holds nothing.
    pub open spec fn empty() -> LedgerView {
        LedgerView { polls: Map::empty(), voters: Map::empty() }
    }

    /// The marker of `participant` on `poll_id`: the stored one, or a
    /// blank one where none is stored yet.
    pub open spec fn voter(self, poll_id: u64, participant: Address) -> Voter {
        if self.voters.contains_key((poll_id, participant)) {
            self.voters[(poll_id, participant)]
        } else {
            Voter::blank()
        }
    }

    /// The participants that have a marker on `poll_id`.
    pub open spec fn participants(self, poll_id: u64) -> Set<Address> {
        Set::new(|participant: Address| self.voters.contains_key((poll_id, participant)))
    }

    /// What holds of every store that the operations have built: each poll
    /// is stored under its own identifier and is well formed; each stored
    /// marker says that its participant has voted on its poll; and no poll
    /// counts more ballots than it has participants with a marker.
    pub open spec fn sound(self) -> bool {
        &&& forall|poll_id: u64| #[trigger]
            self.polls.contains_key(poll_id) ==> {
                &&& self.polls[poll_id].poll_id == poll_id
                &&& self.polls[poll_id].well_formed()
                &&& self.polls[poll_id].ballots() <= self.participants(poll_id).len()
            }
        &&& forall|key: (u64, Address)| #[trigger]
            self.voters.contains_key(key) ==> self.voters[key] == Voter::spent(key.0)
        &&& forall|poll_id: u64| #[trigger] self.participants(poll_id).finite()
    }

    /// Whether a creation is admitted: the identifier must be free, and
    /// then the rules of creation decide.
    pub open spec fn create_verdict(
        self,
        poll_id: u64,
        title: Seq<char>,
        description: Seq<char>,
        start_time: int,
        end_time: int,
        now: int,
    ) -> Result<(), Rejection> {
        if self.polls.contains_key(poll_id) {
            Err(Rejection::PollExists)
        } else {
            creation_verdict(title, description, start_time, end_time, now)
        }
    }

    /// Whether a plain ballot is admitted: the poll must be stored, and
    /// then the rules decide on it and the participant's marker.
    pub open spec fn cast_verdict(self, participant: Address, poll_id: u64, now: int) -> Result<
        (),
        Rejection,
    > {
        if !self.polls.contains_key(poll_id) {
            Err(Rejection::PollNotFound)
        } else {
            store_verdict(
                vote_verdict(self.polls[poll_id], self.voter(poll_id, participant), poll_id, now),
            )
        }
    }

    /// Whether a ballot with a holding is admitted: the poll must be
    /// stored, and then the rules decide on it, the participant's marker
    /// and the holding.
    pub open spec fn cast_with_nft_verdict(
        self,
        participant: Address,
        holding: Holding,
        poll_id: u64,
        now: int,
    ) -> Result<(), Rejection> {
        if !self.polls.contains_key(poll_id) {
            Err(Rejection::PollNotFound)
        } else {
            store_verdict(
                vote_with_nft_verdict(
                    self.polls[poll_id],
                    self.voter(poll_id, participant),
                    holding,
                    participant,
                    poll_id,
                    now,
                ),
            )
        }
    }

    /// Whether a closure is admitted: the poll must be stored, and then
    /// the rules decide on it and the requester.
    pub open spec fn close_verdict(self, signer: Address, poll_id: u64, now: int) -> Result<
        (),
        Rejection,
    > {
        if !self.polls.contains_key(poll_id) {
            Err(Rejection::PollNotFound)
        } else {
            store_verdict(closure_verdict(self.polls[poll_id], signer, now))
        }
    }

    /// The store with `poll` recorded under its identifier.
    pub open spec fn with_poll(self, poll: PollView) -> LedgerView {
        LedgerView { polls: self.polls.insert(poll.poll_id, poll), ..self }
    }

    /// The store with one more ballot counted on `poll_id` and the
    /// participant marked as having voted on it.
    pub open spec fn with_ballot(
        self,
        participant: Address,
        poll_id: u64,
        vote_type: bool,
    ) -> LedgerView {
        LedgerView {
            polls: self.polls.insert(poll_id, self.polls[poll_id].tallied(vote_type)),
            voters: self.voters.insert((poll_id, participant), Voter::spent(poll_id)),
        }
    }

    /// The store with the poll record of `poll_id` removed. Markers stay.
    pub open spec fn without_poll(self, poll_id: u64) -> LedgerView {
        LedgerView { polls: self.polls.remove(poll_id), ..self }
    }

    /// Whether the store admits the operation.
    pub open spec fn verdict(self, op: Operation) -> Result<(), Rejection> {
        match op {
            Operation::Create { poll_id, title, description, start_time, end_time, now, .. } => {
                self.create_verdict(poll_id, title, description, start_time, end_time, now)
            },
            Operation::Cast { participant, poll_id, now, .. } => self.cast_verdict(
                participant,
                poll_id,
                now,
            ),
            Operation::CastWithNft { participant, holding, poll_id, now, .. } => {
                self.cast_with_nft_verdict(participant, holding, poll_id, now)
            },
            Operation::Close { signer, poll_id, now } => self.close_verdict(signer, poll_id, now),
        }
    }

    /// The store after the operation: with its effect where it is
    /// admitted, unchanged where it is rejected.
    pub open spec fn apply(self, op: Operation) -> LedgerView {
        if self.verdict(op) is Err {
            self
        } else {
            match op {
                Operation::Create {
                    creator,
                    poll_id,
                    title,
                    description,
                    start_time,
                    end_time,
                    nft_collection,
                    now,
                } => self.with_poll(
                    PollView::fresh(
                        poll_id,
                        creator,
                        title,
                        description,
                        start_time,
                        end_time,
                        nft_collection,
                        now,
                    ),
                ),
                Operation::Cast { participant, poll_id, vote_type, .. } => self.with_ballot(
                    participant,
                    poll_id,
                    vote_type,
                ),
                Operation::CastWithNft { participant, poll_id, vote_type, .. } => {
                    self.with_ballot(participant, poll_id, vote_type)
                },
                Operation::Close { poll_id, .. } => self.without_poll(poll_id),
            }
        }
    }

    /// The store after the operations of `history`, applied in order.
    pub open spec fn replay(self, history: Seq<Operation>) -> LedgerView
        decreases history.len(),
    {
        if history.len() == 0 {
            self
        } else {
            self.replay(history.drop_last()).apply(history.last())
        }
    }
}

} // verus!
