use voting::rules::{
    check_ballot, check_closure, check_creation, check_holding, check_vote, check_vote_with_nft,
};
use voting::{
    close_poll, create_poll, vote, vote_with_nft, Address, ClosePoll, CreatePoll, Holding, Poll,
    Rejection, Vote, VoteWithNft, Voter, VotingError,
};

const T: i64 = 1_700_000_000;

fn address(tag: u8) -> Address {
    let mut bytes = [0u8; 32];
    bytes[0] = tag;
    bytes[31] = tag;
    Address::new(bytes)
}

fn try_create(
    poll_id: u64,
    creator: Address,
    title: &str,
    description: &str,
    start: i64,
    end: i64,
    collection: Option<Address>,
    now: i64,
) -> (Result<(), Rejection>, CreatePoll) {
    let mut ctx = CreatePoll { creator, poll: Poll::blank() };
    let result = create_poll(
        &mut ctx,
        poll_id,
        String::from(title),
        String::from(description),
        start,
        end,
        collection,
        now,
    );
    (result, ctx)
}

fn created(
    poll_id: u64,
    creator: Address,
    start: i64,
    end: i64,
    collection: Option<Address>,
    now: i64,
) -> Poll {
    let (result, ctx) = try_create(
        poll_id,
        creator,
        "Adopt the budget?",
        "Yearly budget as circulated.",
        start,
        end,
        collection,
        now,
    );
    assert_eq!(result, Ok(()));
    ctx.poll
}

fn ballot(poll: Poll, participant: Address) -> Vote {
    Vote { poll, voter: Voter::blank(), voter_signer: participant }
}

fn gated_ballot(poll: Poll, participant: Address, holding: Holding) -> VoteWithNft {
    VoteWithNft {
        poll,
        voter: Voter::blank(),
        voter_signer: participant,
        nft_token_account: holding,
    }
}

#[test]
fn blank_poll_is_all_zero() {
    assert_eq!(
        Poll::blank(),
        Poll {
            poll_id: 0,
            creator: Address::new([0u8; 32]),
            title: String::new(),
            description: String::new(),
            yes_votes: 0,
            no_votes: 0,
            created_at: 0,
            start_time: 0,
            end_time: 0,
            is_nft_gated: false,
            nft_collection: None,
        }
    );
    assert_eq!(Voter::blank(), Voter { poll_id: 0, has_voted: false });
}

#[test]
fn create_poll_fills_the_record() {
    let creator = address(1);
    let poll = created(1, creator, T + 10, T + 20, None, T);
    assert_eq!(
        poll,
        Poll {
            poll_id: 1,
            creator,
            title: String::from("Adopt the budget?"),
            description: String::from("Yearly budget as circulated."),
            yes_votes: 0,
            no_votes: 0,
            created_at: T,
            start_time: T + 10,
            end_time: T + 20,
            is_nft_gated: false,
            nft_collection: None,
        }
    );
}

#[test]
fn create_poll_with_collection_is_gated() {
    let creator = address(1);
    let collection = address(40);
    let poll = created(9, creator, T + 10, T + 20, Some(collection), T);
    assert!(poll.is_nft_gated);
    assert_eq!(poll.nft_collection, Some(collection));
    assert_eq!(poll.poll_id, 9);
    assert_eq!(poll.creator, creator);
    assert_eq!((poll.yes_votes, poll.no_votes), (0, 0));
}

#[test]
fn create_poll_rejects_an_empty_window() {
    let invalid = Err(Rejection::Rule(VotingError::InvalidPollTime));
    let (equal, ctx) = try_create(1, address(1), "t", "d", T + 10, T + 10, None, T);
    assert_eq!(equal, invalid);
    assert_eq!(ctx, CreatePoll { creator: address(1), poll: Poll::blank() });
    let (reversed, ctx) = try_create(1, address(1), "t", "d", T + 20, T + 10, None, T);
    assert_eq!(reversed, invalid);
    assert_eq!(ctx.poll, Poll::blank());
}

#[test]
fn create_poll_rejects_an_opened_window() {
    let invalid = Err(Rejection::Rule(VotingError::InvalidPollTime));
    let (at_start, ctx) = try_create(1, address(1), "t", "d", T, T + 10, None, T);
    assert_eq!(at_start, invalid);
    assert_eq!(ctx.poll, Poll::blank());
    let (after_start, _) = try_create(1, address(1), "t", "d", T, T + 10, None, T + 1);
    assert_eq!(after_start, invalid);
    let (after_end, _) = try_create(1, address(1), "t", "d", T, T + 10, None, T + 11);
    assert_eq!(after_end, invalid);
    let (just_before, _) = try_create(1, address(1), "t", "d", T, T + 10, None, T - 1);
    assert_eq!(just_before, Ok(()));
}

#[test]
fn create_poll_bounds_the_title_in_bytes() {
    let fits = "a".repeat(200);
    let (result, ctx) = try_create(1, address(1), &fits, "d", T + 1, T + 2, None, T);
    assert_eq!(result, Ok(()));
    assert_eq!(ctx.poll.title, fits);

    let long = "a".repeat(201);
    let (result, ctx) = try_create(1, address(1), &long, "d", T + 1, T + 2, None, T);
    assert_eq!(result, Err(Rejection::TitleTooLong));
    assert_eq!(ctx.poll, Poll::blank());

    // Two bytes each: a hundred fit, a hundred and one do not.
    let wide = "\u{e9}".repeat(100);
    let (result, _) = try_create(1, address(1), &wide, "d", T + 1, T + 2, None, T);
    assert_eq!(result, Ok(()));
    let wider = "\u{e9}".repeat(101);
    let (result, _) = try_create(1, address(1), &wider, "d", T + 1, T + 2, None, T);
    assert_eq!(result, Err(Rejection::TitleTooLong));
}

#[test]
fn create_poll_bounds_the_description_in_bytes() {
    let fits = "b".repeat(500);
    let (result, ctx) = try_create(1, address(1), "t", &fits, T + 1, T + 2, None, T);
    assert_eq!(result, Ok(()));
    assert_eq!(ctx.poll.description, fits);

    let long = "b".repeat(501);
    let (result, ctx) = try_create(1, address(1), "t", &long, T + 1, T + 2, None, T);
    assert_eq!(result, Err(Rejection::DescriptionTooLong));
    assert_eq!(ctx.poll, Poll::blank());

    // Three bytes each: 166 make 498, 167 make 501.
    let (result, _) =
        try_create(1, address(1), "t", &"\u{20ac}".repeat(166), T + 1, T + 2, None, T);
    assert_eq!(result, Ok(()));
    let (result, _) =
        try_create(1, address(1), "t", &"\u{20ac}".repeat(167), T + 1, T + 2, None, T);
    assert_eq!(result, Err(Rejection::DescriptionTooLong));
}

#[test]
fn create_poll_reports_the_window_before_the_texts() {
    let long_title = "a".repeat(300);
    let long_description = "b".repeat(600);
    let (result, _) =
        try_create(1, address(1), &long_title, &long_description, T + 5, T + 5, None, T);
    assert_eq!(result, Err(Rejection::Rule(VotingError::InvalidPollTime)));
    let (result, _) =
        try_create(1, address(1), &long_title, &long_description, T + 5, T + 6, None, T);
    assert_eq!(result, Err(Rejection::TitleTooLong));
    let (result, _) = try_create(1, address(1), "t", &long_description, T + 5, T + 6, None, T);
    assert_eq!(result, Err(Rejection::DescriptionTooLong));
}

#[test]
fn check_creation_agrees_with_create_poll() {
    let title = String::from("t");
    let description = String::from("d");
    assert_eq!(check_creation(&title, &description, T + 1, T + 2, T), Ok(()));
    assert_eq!(
        check_creation(&title, &description, T + 2, T + 1, T),
        Err(Rejection::Rule(VotingError::InvalidPollTime))
    );
    assert_eq!(
        check_creation(&"x".repeat(201), &description, T + 1, T + 2, T),
        Err(Rejection::TitleTooLong)
    );
    assert_eq!(
        check_creation(&title, &"x".repeat(501), T + 1, T + 2, T),
        Err(Rejection::DescriptionTooLong)
    );
}

#[test]
fn vote_counts_once_then_rejects() {
    let alice = address(7);
    let poll = created(1, address(1), T + 10, T + 20, None, T);
    let mut ctx = ballot(poll, alice);

    assert_eq!(vote(&mut ctx, 1, true, T + 15), Ok(()));
    assert_eq!(ctx.poll.yes_votes, 1);
    assert_eq!(ctx.poll.no_votes, 0);
    assert_eq!(ctx.voter, Voter { poll_id: 1, has_voted: true });
    assert_eq!(ctx.voter_signer, alice);

    assert_eq!(vote(&mut ctx, 1, true, T + 15), Err(VotingError::AlreadyVoted));
    assert_eq!(ctx.poll.yes_votes, 1);
    assert_eq!(ctx.poll.no_votes, 0);

    assert_eq!(vote(&mut ctx, 1, true, T + 25), Err(VotingError::PollEnded));
    assert_eq!(ctx.poll.yes_votes, 1);
    assert_eq!(ctx.poll.no_votes, 0);

    let mut late = ballot(ctx.poll, address(8));
    assert_eq!(vote(&mut late, 1, false, T + 25), Err(VotingError::PollEnded));
    assert_eq!(late.poll.yes_votes, 1);
    assert_eq!(late.poll.no_votes, 0);
    assert_eq!(late.voter, Voter::blank());
}

#[test]
fn vote_changes_the_chosen_counter_only() {
    let poll = created(3, address(1), T + 10, T + 20, None, T);
    let before = poll.clone();
    let mut ctx = ballot(poll, address(7));
    assert_eq!(vote(&mut ctx, 3, false, T + 12), Ok(()));
    assert_eq!(ctx.poll, Poll { no_votes: 1, ..before.clone() });

    let mut next = ballot(ctx.poll, address(8));
    assert_eq!(vote(&mut next, 3, true, T + 13), Ok(()));
    assert_eq!(next.poll, Poll { yes_votes: 1, no_votes: 1, ..before.clone() });

    let mut third = ballot(next.poll, address(9));
    assert_eq!(vote(&mut third, 3, true, T + 14), Ok(()));
    assert_eq!(third.poll, Poll { yes_votes: 2, no_votes: 1, ..before });
}

#[test]
fn vote_window_includes_both_ends() {
    let poll = created(1, address(1), T + 10, T + 20, None, T);

    let mut early = ballot(poll.clone(), address(7));
    assert_eq!(vote(&mut early, 1, true, T + 9), Err(VotingError::PollNotStarted));
    assert_eq!(early.poll, poll);
    assert_eq!(early.voter, Voter::blank());

    let mut at_start = ballot(poll.clone(), address(7));
    assert_eq!(vote(&mut at_start, 1, true, T + 10), Ok(()));
    assert_eq!(at_start.poll.yes_votes, 1);

    let mut at_end = ballot(poll.clone(), address(7));
    assert_eq!(vote(&mut at_end, 1, false, T + 20), Ok(()));
    assert_eq!(at_end.poll.no_votes, 1);

    let mut late = ballot(poll.clone(), address(7));
    assert_eq!(vote(&mut late, 1, true, T + 21), Err(VotingError::PollEnded));
    assert_eq!(late.poll, poll);
    assert_eq!(late.voter, Voter::blank());
}

#[test]
fn vote_with_nft_window_includes_both_ends() {
    let collection = address(40);
    let alice = address(7);
    let holding = Holding { owner: alice, mint: collection, amount: 1 };
    let poll = created(1, address(1), T + 10, T + 20, Some(collection), T);

    let mut early = gated_ballot(poll.clone(), alice, holding);
    assert_eq!(vote_with_nft(&mut early, 1, true, T + 9), Err(VotingError::PollNotStarted));
    let mut at_start = gated_ballot(poll.clone(), alice, holding);
    assert_eq!(vote_with_nft(&mut at_start, 1, true, T + 10), Ok(()));
    let mut at_end = gated_ballot(poll.clone(), alice, holding);
    assert_eq!(vote_with_nft(&mut at_end, 1, true, T + 20), Ok(()));
    let mut late = gated_ballot(poll.clone(), alice, holding);
    assert_eq!(vote_with_nft(&mut late, 1, true, T + 21), Err(VotingError::PollEnded));
    assert_eq!(late.poll, poll);
}

#[test]
fn vote_reports_the_first_failing_rule() {
    let collection = address(40);
    let gated = created(1, address(1), T + 10, T + 20, Some(collection), T);
    let voted = Voter { poll_id: 1, has_voted: true };

    // Another identifier comes before everything else.
    let mut ctx = Vote { poll: gated.clone(), voter: voted, voter_signer: address(7) };
    assert_eq!(vote(&mut ctx, 2, true, T + 5), Err(VotingError::PollMismatch));
    assert_eq!(vote(&mut ctx, 2, true, T + 25), Err(VotingError::PollMismatch));
    assert_eq!(vote(&mut ctx, 2, true, T + 15), Err(VotingError::PollMismatch));
    // The window comes before the marker.
    assert_eq!(vote(&mut ctx, 1, true, T + 5), Err(VotingError::PollNotStarted));
    assert_eq!(vote(&mut ctx, 1, true, T + 25), Err(VotingError::PollEnded));
    // The marker comes before the gating.
    assert_eq!(vote(&mut ctx, 1, true, T + 15), Err(VotingError::AlreadyVoted));
    // The gating comes last.
    ctx.voter = Voter::blank();
    assert_eq!(vote(&mut ctx, 1, true, T + 15), Err(VotingError::NftGatedPoll));
    assert_eq!(ctx.poll, gated);
    assert_eq!(ctx.voter, Voter::blank());
}

#[test]
fn vote_with_nft_reports_the_first_failing_rule() {
    let alice = address(7);
    let open = created(1, address(1), T + 10, T + 20, None, T);
    let nothing = Holding { owner: address(8), mint: address(41), amount: 0 };
    let voted = Voter { poll_id: 1, has_voted: true };

    let mut ctx = VoteWithNft {
        poll: open.clone(),
        voter: voted,
        voter_signer: alice,
        nft_token_account: nothing,
    };
    assert_eq!(vote_with_nft(&mut ctx, 2, true, T + 5), Err(VotingError::PollMismatch));
    assert_eq!(vote_with_nft(&mut ctx, 1, true, T + 5), Err(VotingError::PollNotStarted));
    assert_eq!(vote_with_nft(&mut ctx, 1, true, T + 25), Err(VotingError::PollEnded));
    assert_eq!(vote_with_nft(&mut ctx, 1, true, T + 15), Err(VotingError::AlreadyVoted));
    ctx.voter = Voter::blank();
    assert_eq!(vote_with_nft(&mut ctx, 1, true, T + 15), Err(VotingError::PollNotNftGated));
    assert_eq!(ctx.poll, open);
    assert_eq!(ctx.voter, Voter::blank());
}

#[test]
fn gated_poll_rejects_plain_votes() {
    let poll = created(1, address(1), T + 10, T + 20, Some(address(40)), T);
    let mut ctx = ballot(poll.clone(), address(7));
    assert_eq!(vote(&mut ctx, 1, true, T + 10), Err(VotingError::NftGatedPoll));
    assert_eq!(vote(&mut ctx, 1, false, T + 20), Err(VotingError::NftGatedPoll));
    assert_eq!(ctx.poll, poll);
    assert_eq!(ctx.voter, Voter::blank());
}

#[test]
fn open_poll_rejects_votes_with_nft() {
    let alice = address(7);
    let poll = created(1, address(1), T + 10, T + 20, None, T);
    let holding = Holding { owner: alice, mint: address(40), amount: 5 };
    let mut ctx = gated_ballot(poll.clone(), alice, holding);
    assert_eq!(vote_with_nft(&mut ctx, 1, true, T + 15), Err(VotingError::PollNotNftGated));
    assert_eq!(ctx.poll, poll);
    assert_eq!(ctx.voter, Voter::blank());
}

#[test]
fn vote_with_nft_checks_the_holding() {
    let alice = address(7);
    let bob = address(8);
    let c = address(40);
    let d = address(41);
    let poll = created(1, address(1), T + 10, T + 20, Some(c), T);

    let mut other_collection =
        gated_ballot(poll.clone(), alice, Holding { owner: alice, mint: d, amount: 1 });
    assert_eq!(
        vote_with_nft(&mut other_collection, 1, true, T + 15),
        Err(VotingError::InvalidNftCollection)
    );
    assert_eq!(other_collection.poll, poll);
    assert_eq!(other_collection.voter, Voter::blank());

    let mut empty = gated_ballot(poll.clone(), alice, Holding { owner: alice, mint: c, amount: 0 });
    assert_eq!(
        vote_with_nft(&mut empty, 1, true, T + 15),
        Err(VotingError::InsufficientNftBalance)
    );
    assert_eq!(empty.poll, poll);

    let mut of_another =
        gated_ballot(poll.clone(), alice, Holding { owner: bob, mint: c, amount: 1 });
    assert_eq!(vote_with_nft(&mut of_another, 1, true, T + 15), Err(VotingError::InvalidNftOwner));
    assert_eq!(of_another.poll, poll);

    let mut good = gated_ballot(poll.clone(), alice, Holding { owner: alice, mint: c, amount: 1 });
    assert_eq!(vote_with_nft(&mut good, 1, false, T + 15), Ok(()));
    assert_eq!(good.poll, Poll { no_votes: 1, ..poll.clone() });
    assert_eq!(good.voter, Voter { poll_id: 1, has_voted: true });
    assert_eq!(good.nft_token_account, Holding { owner: alice, mint: c, amount: 1 });

    assert_eq!(vote_with_nft(&mut good, 1, false, T + 16), Err(VotingError::AlreadyVoted));
    assert_eq!(good.poll, Poll { no_votes: 1, ..poll });
}

#[test]
fn holding_is_checked_owner_then_balance_then_collection() {
    let alice = address(7);
    let bob = address(8);
    let c = address(40);
    let d = address(41);
    let poll = created(1, address(1), T + 10, T + 20, Some(c), T);

    let all_wrong = Holding { owner: bob, mint: d, amount: 0 };
    assert_eq!(check_holding(&poll, &all_wrong, &alice), Err(VotingError::InvalidNftOwner));
    let empty_and_foreign = Holding { owner: alice, mint: d, amount: 0 };
    assert_eq!(
        check_holding(&poll, &empty_and_foreign, &alice),
        Err(VotingError::InsufficientNftBalance)
    );
    let foreign = Holding { owner: alice, mint: d, amount: u64::MAX };
    assert_eq!(check_holding(&poll, &foreign, &alice), Err(VotingError::InvalidNftCollection));
    let good = Holding { owner: alice, mint: c, amount: u64::MAX };
    assert_eq!(check_holding(&poll, &good, &alice), Ok(()));
}

#[test]
fn gated_poll_without_collection_takes_any_holding() {
    let alice = address(7);
    let mut poll = created(1, address(1), T + 10, T + 20, None, T);
    poll.is_nft_gated = true;
    let holding = Holding { owner: alice, mint: address(99), amount: 1 };
    let mut ctx = gated_ballot(poll, alice, holding);
    assert_eq!(vote_with_nft(&mut ctx, 1, true, T + 15), Ok(()));
    assert_eq!(ctx.poll.yes_votes, 1);
}

#[test]
fn checks_agree_with_the_operations() {
    let alice = address(7);
    let c = address(40);
    let open = created(1, address(1), T + 10, T + 20, None, T);
    let gated = created(2, address(1), T + 10, T + 20, Some(c), T);
    let holding = Holding { owner: alice, mint: c, amount: 1 };
    let blank = Voter::blank();
    let voted = Voter { poll_id: 1, has_voted: true };

    assert_eq!(check_ballot(&open, &blank, 1, T + 15), Ok(()));
    assert_eq!(check_ballot(&gated, &blank, 2, T + 15), Ok(()));
    assert_eq!(check_ballot(&open, &voted, 1, T + 15), Err(VotingError::AlreadyVoted));
    assert_eq!(check_ballot(&open, &blank, 2, T + 15), Err(VotingError::PollMismatch));
    assert_eq!(check_ballot(&open, &blank, 1, T + 9), Err(VotingError::PollNotStarted));
    assert_eq!(check_ballot(&open, &blank, 1, T + 21), Err(VotingError::PollEnded));

    assert_eq!(check_vote(&open, &blank, 1, T + 15), Ok(()));
    assert_eq!(check_vote(&gated, &blank, 2, T + 15), Err(VotingError::NftGatedPoll));
    assert_eq!(check_vote(&open, &voted, 1, T + 15), Err(VotingError::AlreadyVoted));

    assert_eq!(check_vote_with_nft(&gated, &blank, &holding, &alice, 2, T + 15), Ok(()));
    assert_eq!(
        check_vote_with_nft(&open, &blank, &holding, &alice, 1, T + 15),
        Err(VotingError::PollNotNftGated)
    );
    assert_eq!(
        check_vote_with_nft(&gated, &blank, &holding, &address(8), 2, T + 15),
        Err(VotingError::InvalidNftOwner)
    );
}

#[test]
fn has_room_until_the_counter_is_full() {
    let mut poll = created(1, address(1), T + 10, T + 20, None, T);
    assert!(poll.has_room(true));
    assert!(poll.has_room(false));
    poll.yes_votes = u32::MAX - 1;
    assert!(poll.has_room(true));
    let mut ctx = ballot(poll, address(7));
    assert_eq!(vote(&mut ctx, 1, true, T + 15), Ok(()));
    assert_eq!(ctx.poll.yes_votes, u32::MAX);
    assert!(!ctx.poll.has_room(true));
    assert!(ctx.poll.has_room(false));
}

#[test]
fn close_poll_is_for_the_creator_before_the_start() {
    let creator = address(1);
    let stranger = address(2);
    let poll = created(1, creator, T + 100, T + 200, None, T);

    let by_creator = ClosePoll { signer: creator, poll: poll.clone() };
    assert_eq!(close_poll(&by_creator, T), Ok(()));
    assert_eq!(close_poll(&by_creator, T + 99), Ok(()));
    assert_eq!(close_poll(&by_creator, T + 100), Err(VotingError::PollAlreadyStarted));
    assert_eq!(close_poll(&by_creator, T + 150), Err(VotingError::PollAlreadyStarted));
    assert_eq!(close_poll(&by_creator, T + 201), Err(VotingError::PollAlreadyStarted));

    let by_stranger = ClosePoll { signer: stranger, poll: poll.clone() };
    assert_eq!(close_poll(&by_stranger, T), Err(VotingError::Unauthorized));
    assert_eq!(close_poll(&by_stranger, T + 100), Err(VotingError::Unauthorized));
    assert_eq!(close_poll(&by_stranger, T + 201), Err(VotingError::Unauthorized));

    assert_eq!(check_closure(&poll, &creator, T), Ok(()));
    assert_eq!(check_closure(&poll, &stranger, T), Err(VotingError::Unauthorized));
    assert_eq!(check_closure(&poll, &creator, T + 100), Err(VotingError::PollAlreadyStarted));
}

#[test]
fn no_moment_admits_both_a_ballot_and_a_closure() {
    let creator = address(1);
    let poll = created(1, creator, T + 10, T + 20, None, T);
    for now in (T - 2)..(T + 25) {
        let votes = check_ballot(&poll, &Voter::blank(), 1, now).is_ok();
        let closes = check_closure(&poll, &creator, now).is_ok();
        assert!(!(votes && closes));
        assert_eq!(votes, T + 10 <= now && now <= T + 20);
        assert_eq!(closes, now < T + 10);
    }
}
