//! The persistent records: polls, voter markers and asset holdings.

use vstd::prelude::*;
use vstd::utf8::encode_utf8;
use crate::address::Address;

verus! {

/// The longest title a poll record holds, in bytes of UTF-8.
pub const MAX_TITLE_LEN: usize = 200;

/// The longest description a poll record holds, in bytes of UTF-8.
pub const MAX_DESCRIPTION_LEN: usize = 500;

/// The size of a text in a record: the number of bytes of its UTF-8 form.
pub open spec fn text_len(text: Seq<char>) -> nat {
    encode_utf8(text).len()
}

/// A yes/no question with a voting window.
#[derive(Debug, PartialEq, Eq)]
pub struct Poll {
    pub poll_id: u64,
    pub creator: Address,
    pub title: String,
    pub description: String,
    pub yes_votes: u32,
    pub no_votes: u32,
    pub created_at: i64,
    pub start_time: i64,
    pub end_time: i64,
    pub is_nft_gated: bool,
    pub nft_collection: Option<Address>,
}

/// What a poll record says, as mathematical values.
pub struct PollView {
    pub poll_id: u64,
    pub creator: Address,
    pub title: Seq<char>,
    pub description: Seq<char>,
    pub yes_votes: nat,
    pub no_votes: nat,
    pub created_at: int,
    pub start_time: int,
    pub end_time: int,
    pub is_nft_gated: bool,
    pub nft_collection: Option<Address>,
}

impl View for Poll {
    type V = PollView;

    open spec fn view(&self) -> PollView {
        PollView {
            poll_id: self.poll_id,
            creator: self.creator,
            title: self.title@,
            description: self.description@,
            yes_votes: self.yes_votes as nat,
            no_votes: self.no_votes as nat,
            created_at: self.created_at as int,
            start_time: self.start_time as int,
            end_time: self.end_time as int,
            is_nft_gated: self.is_nft_gated,
            nft_collection: self.nft_collection,
        }
    }
}

impl PollView {
    /// A newly allocated record: every number zero, every text empty.
    pub open spec fn blank() -> PollView {
        PollView {
            poll_id: 0,
            creator: Address::zero(),
            title: Seq::empty(),
            description: Seq::empty(),
            yes_votes: 0,
            no_votes: 0,
            created_at: 0,
            start_time: 0,
            end_time: 0,
            is_nft_gated: false,
            nft_collection: None,
        }
    }

    /// The record that creation writes: no ballots yet, gated exactly when
    /// a collection is required.
    pub open spec fn fresh(
        poll_id: u64,
        creator: Address,
        title: Seq<char>,
        description: Seq<char>,
        start_time: int,
        end_time: int,
        nft_collection: Option<Address>,
        created_at: int,
    ) -> PollView {
        PollView {
            poll_id,
            creator,
            title,
            description,
            yes_votes: 0,
            no_votes: 0,
            created_at,
            start_time,
            end_time,
            is_nft_gated: nft_collection is Some,
            nft_collection,
        }
    }

    /// What creation establishes of a record and balloting keeps: a
    /// window that is not empty and opened after the record was made,
    /// texts within their bounds, and a gating flag that says whether a
    /// collection is required.
    pub open spec fn well_formed(self) -> bool {
        &&& self.created_at < self.start_time < self.end_time
        &&& text_len(self.title) <= MAX_TITLE_LEN
        &&& text_len(self.description) <= MAX_DESCRIPTION_LEN
        &&& self.is_nft_gated <==> self.nft_collection is Some
    }

    /// Whether `now` lies in the voting window, both ends included.
    pub open spec fn in_window(self, now: int) -> bool {
        self.start_time <= now <= self.end_time
    }

    /// The ballots counted so far.
    pub open spec fn ballots(self) -> nat {
        self.yes_votes + self.no_votes
    }

    /// The record after one more ballot: the chosen counter is one higher
    /// and nothing else differs.
    pub open spec fn tallied(self, vote_type: bool) -> PollView {
        if vote_type {
            PollView { yes_votes: self.yes_votes + 1, ..self }
        } else {
            PollView { no_votes: self.no_votes + 1, ..self }
        }
    }

    /// Whether the counter that `vote_type` selects can take one more
    /// ballot.
    pub open spec fn has_room(self, vote_type: bool) -> bool {
        if vote_type {
            self.yes_votes < u32::MAX
        } else {
            self.no_votes < u32::MAX
        }
    }
}

impl Poll {
    /// Whether the counter that `vote_type` selects can take one more
    /// ballot.
    pub fn has_room(&self, vote_type: bool) -> (room: bool)
        ensures
            room == self@.has_room(vote_type),
    {
        if vote_type {
            self.yes_votes < u32::MAX
        } else {
            self.no_votes < u32::MAX
        }
    }

    /// A newly allocated record, before anything is written to it.
    pub fn blank() -> (poll: Poll)
        ensures
            poll@ == PollView::blank(),
    {
        Poll {
            poll_id: 0,
            creator: Address::zero(),
            title: String::new(),
            description: String::new(),
            yes_votes: 0,
            no_votes: 0,
            created_at: 0,
            start_time: 0,
            end_time: 0,
            is_nft_gated: false,
            nft_collection: None,
        }
    }
}

impl Clone for Poll {
    fn clone(&self) -> (copy: Poll)
        ensures
            copy == *self,
    {
        Poll {
            poll_id: self.poll_id,
            creator: self.creator,
            title: self.title.clone(),
            description: self.description.clone(),
            yes_votes: self.yes_votes,
            no_votes: self.no_votes,
            created_at: self.created_at,
            start_time: self.start_time,
            end_time: self.end_time,
            is_nft_gated: self.is_nft_gated,
            nft_collection: self.nft_collection,
        }
    }
}

/// The marker of one participant on one poll.
#[derive(Clone, Copy, Debug, PartialEq, Eq, Structural)]
pub struct Voter {
    pub poll_id: u64,
    pub has_voted: bool,
}

impl Voter {
    /// The marker as it is before the participant's first ballot.
    pub open spec fn blank_spec() -> Voter {
        Voter { poll_id: 0, has_voted: false }
    }

    /// The marker that a counted ballot on `poll_id` leaves.
    pub open spec fn spent(poll_id: u64) -> Voter {
        Voter { poll_id, has_voted: true }
    }

    /// The marker as it is before the participant's first ballot.
    #[verifier::when_used_as_spec(blank_spec)]
    pub fn blank() -> (voter: Voter)
        ensures
            voter == Voter::blank_spec(),
    {
        Voter { poll_id: 0, has_voted: false }
    }
}

/// An attested holding of an asset: who owns it, of which collection it
/// is, and how many units.
#[derive(Clone, Copy, Debug, PartialEq, Eq)]
pub struct Holding {
    pub owner: Address,
    pub mint: Address,
    pub amount: u64,
}

} // verus!
