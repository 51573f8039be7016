use voting_program::error::ErrorCode;
use voting_program::instructions::close::{CloseBox, CloseVoteRecord};
use voting_program::instructions::create::Create;
use voting_program::instructions::vote::Vote;
use voting_program::state::{Box, Key, VoteRecord, VoteType};

fn key(byte: u8) -> Key {
    Key { bytes: [byte; 32] }
}

fn box_of(creator: Key, ref_id: &str, upvotes: u64, downvotes: u64, total_votes: i64) -> Box {
    Box { creator, ref_id: String::from(ref_id), upvotes, downvotes, total_votes, bump: 250 }
}

fn unused_record() -> VoteRecord {
    VoteRecord { voter: key(0), has_voted: false, vote_type: VoteType::Upvote, bump: 0 }
}

#[test]
fn create_new_box_fills_the_box() {
    let mut accounts = Create { creator: key(1), box_: box_of(key(0), "", 9, 9, 9) };
    assert_eq!(accounts.create_new_box(String::from("post-42"), 254), Ok(()));
    assert_eq!(accounts.box_.creator.bytes, [1u8; 32]);
    assert_eq!(accounts.box_.ref_id, "post-42");
    assert_eq!(accounts.box_.upvotes, 0);
    assert_eq!(accounts.box_.downvotes, 0);
    assert_eq!(accounts.box_.total_votes, 0);
    assert_eq!(accounts.box_.bump, 254);
}

#[test]
fn upvote_counts_and_fills_the_record() {
    let mut accounts =
        Vote { voter: key(2), box_: box_of(key(1), "post-42", 4, 6, -2), vote_record: unused_record() };
    assert_eq!(accounts.upvote(String::from("post-42"), 253), Ok(()));
    assert_eq!(accounts.box_.upvotes, 5);
    assert_eq!(accounts.box_.downvotes, 6);
    assert_eq!(accounts.box_.total_votes, -1);
    assert_eq!(accounts.vote_record.voter.bytes, [2u8; 32]);
    assert!(accounts.vote_record.has_voted);
    assert_eq!(accounts.vote_record.vote_type, VoteType::Upvote);
    assert_eq!(accounts.vote_record.bump, 253);
}

#[test]
fn downvote_counts_and_fills_the_record() {
    let mut accounts =
        Vote { voter: key(2), box_: box_of(key(1), "post-42", 4, 6, -2), vote_record: unused_record() };
    assert_eq!(accounts.downvote(String::from("post-42"), 252), Ok(()));
    assert_eq!(accounts.box_.upvotes, 4);
    assert_eq!(accounts.box_.downvotes, 7);
    assert_eq!(accounts.box_.total_votes, -3);
    assert!(accounts.vote_record.has_voted);
    assert_eq!(accounts.vote_record.vote_type, VoteType::Downvote);
    assert_eq!(accounts.vote_record.bump, 252);
}

#[test]
fn a_used_record_refuses_both_sides() {
    let used = VoteRecord { voter: key(2), has_voted: true, vote_type: VoteType::Downvote, bump: 9 };
    let mut accounts = Vote { voter: key(2), box_: box_of(key(1), "post-42", 1, 1, 0), vote_record: used };
    assert_eq!(accounts.upvote(String::from("post-42"), 1), Err(ErrorCode::AlreadyVoted));
    assert_eq!(accounts.downvote(String::from("post-42"), 1), Err(ErrorCode::AlreadyVoted));
    assert_eq!(accounts.box_.upvotes, 1);
    assert_eq!(accounts.box_.downvotes, 1);
    assert_eq!(accounts.box_.total_votes, 0);
    assert_eq!(accounts.vote_record.vote_type, VoteType::Downvote);
    assert_eq!(accounts.vote_record.bump, 9);
}

#[test]
fn upvote_at_the_last_free_count() {
    let mut accounts = Vote {
        voter: key(2),
        box_: box_of(key(1), "x", u64::MAX - 1, 0, 5),
        vote_record: unused_record(),
    };
    assert_eq!(accounts.upvote(String::from("x"), 0), Ok(()));
    assert_eq!(accounts.box_.upvotes, u64::MAX);
    assert_eq!(accounts.box_.total_votes, 6);
    assert!(!accounts.box_.has_room(VoteType::Upvote));
    assert!(accounts.box_.has_room(VoteType::Downvote));
}

#[test]
fn vote_record_close_is_for_the_voter() {
    let record = VoteRecord { voter: key(2), has_voted: true, vote_type: VoteType::Upvote, bump: 9 };
    let mut own = CloseVoteRecord {
        voter: key(2),
        creator: key(1),
        box_: box_of(key(1), "post-42", 1, 0, 1),
        vote_record: record,
    };
    assert_eq!(own.vote_record_close(String::from("post-42")), Ok(()));
    let mut other = CloseVoteRecord {
        voter: key(3),
        creator: key(1),
        box_: box_of(key(1), "post-42", 1, 0, 1),
        vote_record: record,
    };
    assert_eq!(other.vote_record_close(String::from("post-42")), Err(ErrorCode::UnauthorizedClose));
    assert_eq!(key(1).bytes, other.box_.creator.bytes);
}

#[test]
fn box_close_is_for_the_creator_under_the_right_reference() {
    let mut by_creator = CloseBox { creator: key(1), box_: box_of(key(1), "post-42", 1, 0, 1) };
    assert_eq!(by_creator.box_close(String::from("post-42")), Ok(()));
    assert_eq!(by_creator.box_close(String::from("post-43")), Err(ErrorCode::InvalidRefId));
    let mut by_other = CloseBox { creator: key(2), box_: box_of(key(1), "post-42", 1, 0, 1) };
    assert_eq!(by_other.box_close(String::from("post-42")), Err(ErrorCode::UnauthorizedClose));
    assert_eq!(by_other.box_close(String::from("post-43")), Err(ErrorCode::UnauthorizedClose));
}

#[test]
fn every_error_has_its_message() {
    assert_eq!(ErrorCode::InvalidCreator.message(), "The creator of the box is invalid");
    assert_eq!(ErrorCode::AlreadyVoted.message(), "The user has already voted.");
    assert_eq!(
        ErrorCode::InvalidRefId.message(),
        "The ref_id does not match with ref_id of the box"
    );
    assert_eq!(
        ErrorCode::UnauthorizedClose.message(),
        "The user is not authorized to close the box"
    );
    assert_eq!(
        ErrorCode::AddressOccupied.message(),
        "A record already exists at the derived address"
    );
}
