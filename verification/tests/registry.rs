use voting_program::address::{derive_box_address, derive_vote_record_address};
use voting_program::error::ErrorCode;
use voting_program::ledger::Ledger;
use voting_program::state::{Key, VoteType};
use voting_program::table::Table;
use voting_program::{
    cast_vote, close_box, close_vote_record, downvote, initialize, process, upvote, Instruction,
};

fn key(byte: u8) -> Key {
    Key { bytes: [byte; 32] }
}

fn text(s: &str) -> String {
    String::from(s)
}

fn tallies(ledger: &Ledger, ref_id: &str) -> Option<(u64, u64, i64)> {
    let (address, _) = derive_box_address(&text(ref_id)).unwrap();
    ledger.box_at(&address).map(|b| (b.upvotes, b.downvotes, b.total_votes))
}

#[test]
fn scenario_of_one_box_and_two_voters() {
    let creator = key(1);
    let a = key(2);
    let b = key(3);
    let mut ledger = Ledger::new();
    assert_eq!(tallies(&ledger, "post-42"), None);
    assert_eq!(initialize(&mut ledger, creator, text("post-42")), Ok(()));
    assert_eq!(tallies(&ledger, "post-42"), Some((0, 0, 0)));
    assert_eq!(upvote(&mut ledger, a, text("post-42")), Ok(()));
    assert_eq!(tallies(&ledger, "post-42"), Some((1, 0, 1)));
    assert_eq!(downvote(&mut ledger, a, text("post-42")), Err(ErrorCode::AlreadyVoted));
    assert_eq!(tallies(&ledger, "post-42"), Some((1, 0, 1)));
    assert_eq!(downvote(&mut ledger, b, text("post-42")), Ok(()));
    assert_eq!(tallies(&ledger, "post-42"), Some((1, 1, 0)));
    assert_eq!(close_box(&mut ledger, b, text("post-42")), Err(ErrorCode::UnauthorizedClose));
    assert_eq!(tallies(&ledger, "post-42"), Some((1, 1, 0)));
    assert_eq!(close_box(&mut ledger, creator, text("post-42")), Ok(()));
    assert_eq!(tallies(&ledger, "post-42"), None);
}

#[test]
fn second_box_with_the_same_reference_is_refused() {
    let mut ledger = Ledger::new();
    assert_eq!(initialize(&mut ledger, key(1), text("post-42")), Ok(()));
    assert_eq!(initialize(&mut ledger, key(1), text("post-42")), Err(ErrorCode::AddressOccupied));
    assert_eq!(initialize(&mut ledger, key(9), text("post-42")), Err(ErrorCode::AddressOccupied));
    let (address, bump) = derive_box_address(&text("post-42")).unwrap();
    let stored = ledger.box_at(&address).unwrap();
    assert_eq!(stored.creator.bytes, [1u8; 32]);
    assert_eq!(stored.ref_id, "post-42");
    assert_eq!(stored.bump, bump);
    assert_eq!(initialize(&mut ledger, key(9), text("post-43")), Ok(()));
}

#[test]
fn second_vote_is_refused_in_either_order() {
    let mut ledger = Ledger::new();
    assert_eq!(initialize(&mut ledger, key(1), text("t")), Ok(()));
    assert_eq!(downvote(&mut ledger, key(2), text("t")), Ok(()));
    assert_eq!(upvote(&mut ledger, key(2), text("t")), Err(ErrorCode::AlreadyVoted));
    assert_eq!(downvote(&mut ledger, key(2), text("t")), Err(ErrorCode::AlreadyVoted));
    assert_eq!(tallies(&ledger, "t"), Some((0, 1, -1)));
    assert_eq!(upvote(&mut ledger, key(3), text("t")), Ok(()));
    assert_eq!(upvote(&mut ledger, key(3), text("t")), Err(ErrorCode::AlreadyVoted));
    assert_eq!(tallies(&ledger, "t"), Some((1, 1, 0)));
}

#[test]
fn vote_leaves_a_record_of_the_side() {
    let mut ledger = Ledger::new();
    assert_eq!(initialize(&mut ledger, key(1), text("t")), Ok(()));
    assert_eq!(cast_vote(&mut ledger, key(2), text("t"), VoteType::Downvote), Ok(()));
    let (box_address, _) = derive_box_address(&text("t")).unwrap();
    let (address, bump) = derive_vote_record_address(&key(2), &box_address).unwrap();
    let record = ledger.vote_record_at(&address).unwrap();
    assert_eq!(record.voter.bytes, [2u8; 32]);
    assert!(record.has_voted);
    assert_eq!(record.vote_type, VoteType::Downvote);
    assert_eq!(record.bump, bump);
}

#[test]
fn net_score_is_upvotes_less_downvotes() {
    let mut ledger = Ledger::new();
    assert_eq!(initialize(&mut ledger, key(1), text("t")), Ok(()));
    let mut voter: u8 = 10;
    while voter < 30 {
        if voter % 3 == 0 {
            assert_eq!(upvote(&mut ledger, key(voter), text("t")), Ok(()));
        } else {
            assert_eq!(downvote(&mut ledger, key(voter), text("t")), Ok(()));
        }
        let (up, down, net) = tallies(&ledger, "t").unwrap();
        assert_eq!(net, up as i64 - down as i64);
        voter += 1;
    }
    assert_eq!(tallies(&ledger, "t"), Some((6, 14, -8)));
}

#[test]
fn votes_on_a_missing_box_are_refused() {
    let mut ledger = Ledger::new();
    assert_eq!(upvote(&mut ledger, key(2), text("nowhere")), Err(ErrorCode::InvalidRefId));
    assert_eq!(downvote(&mut ledger, key(2), text("nowhere")), Err(ErrorCode::InvalidRefId));
    assert_eq!(close_box(&mut ledger, key(2), text("nowhere")), Err(ErrorCode::InvalidRefId));
    assert_eq!(
        close_vote_record(&mut ledger, key(2), key(1), text("nowhere")),
        Err(ErrorCode::InvalidRefId)
    );
}

#[test]
fn closing_a_vote_record() {
    let mut ledger = Ledger::new();
    assert_eq!(initialize(&mut ledger, key(1), text("t")), Ok(()));
    assert_eq!(upvote(&mut ledger, key(2), text("t")), Ok(()));
    assert_eq!(
        close_vote_record(&mut ledger, key(2), key(9), text("t")),
        Err(ErrorCode::InvalidCreator)
    );
    assert_eq!(
        close_vote_record(&mut ledger, key(3), key(1), text("t")),
        Err(ErrorCode::UnauthorizedClose)
    );
    let (box_address, _) = derive_box_address(&text("t")).unwrap();
    let (address, _) = derive_vote_record_address(&key(2), &box_address).unwrap();
    assert!(ledger.vote_record_at(&address).is_some());
    assert_eq!(close_vote_record(&mut ledger, key(2), key(1), text("t")), Ok(()));
    assert!(ledger.vote_record_at(&address).is_none());
    assert_eq!(tallies(&ledger, "t"), Some((1, 0, 1)));
    assert_eq!(
        close_vote_record(&mut ledger, key(2), key(1), text("t")),
        Err(ErrorCode::UnauthorizedClose)
    );
}

#[test]
fn a_box_may_close_while_records_remain() {
    let mut ledger = Ledger::new();
    assert_eq!(initialize(&mut ledger, key(1), text("t")), Ok(()));
    assert_eq!(upvote(&mut ledger, key(2), text("t")), Ok(()));
    assert_eq!(close_box(&mut ledger, key(1), text("t")), Ok(()));
    let (box_address, _) = derive_box_address(&text("t")).unwrap();
    let (address, _) = derive_vote_record_address(&key(2), &box_address).unwrap();
    assert!(ledger.vote_record_at(&address).is_some());
    assert_eq!(upvote(&mut ledger, key(3), text("t")), Err(ErrorCode::InvalidRefId));
    assert_eq!(initialize(&mut ledger, key(4), text("t")), Ok(()));
    assert_eq!(tallies(&ledger, "t"), Some((0, 0, 0)));
    assert_eq!(upvote(&mut ledger, key(2), text("t")), Err(ErrorCode::AlreadyVoted));
}

#[test]
fn ledger_refuses_a_reference_that_is_not_the_boxs() {
    let mut ledger = Ledger::new();
    let at = key(50);
    let record_at = key(51);
    assert_eq!(ledger.open_box(at, key(1), text("real"), 255), Ok(()));
    assert!(ledger.has_box(&at, &text("real")));
    assert!(!ledger.has_box(&at, &text("other")));
    assert!(!ledger.has_box(&key(52), &text("real")));
    assert_eq!(
        ledger.cast_vote(&at, record_at, 254, key(2), text("other"), VoteType::Upvote),
        Err(ErrorCode::InvalidRefId)
    );
    assert_eq!(
        ledger.close_vote_record(&at, &record_at, key(2), key(1), text("other")),
        Err(ErrorCode::InvalidRefId)
    );
    assert_eq!(ledger.close_box(&at, key(1), text("other")), Err(ErrorCode::InvalidRefId));
    assert_eq!(ledger.close_box(&at, key(2), text("other")), Err(ErrorCode::UnauthorizedClose));
    let stored = ledger.box_at(&at).unwrap();
    assert_eq!((stored.upvotes, stored.downvotes, stored.total_votes), (0, 0, 0));
    assert!(ledger.vote_record_at(&record_at).is_none());
    assert_eq!(
        ledger.cast_vote(&at, record_at, 254, key(2), text("real"), VoteType::Upvote),
        Ok(())
    );
    assert_eq!(ledger.open_box(at, key(3), text("other"), 1), Err(ErrorCode::AddressOccupied));
    let stored = ledger.box_at(&at).unwrap();
    assert_eq!((stored.upvotes, stored.downvotes, stored.total_votes), (1, 0, 1));
    assert_eq!(stored.ref_id, "real");
}

#[test]
fn a_box_with_a_foreign_bump_is_not_found() {
    let mut ledger = Ledger::new();
    let (address, bump) = derive_box_address(&text("t")).unwrap();
    assert_eq!(ledger.open_box(address, key(1), text("t"), bump.wrapping_sub(1)), Ok(()));
    assert_eq!(upvote(&mut ledger, key(2), text("t")), Err(ErrorCode::InvalidRefId));
    assert_eq!(close_box(&mut ledger, key(1), text("t")), Err(ErrorCode::InvalidRefId));
    assert_eq!(initialize(&mut ledger, key(1), text("t")), Err(ErrorCode::AddressOccupied));
}

#[test]
fn process_carries_each_operation_out() {
    let mut ledger = Ledger::new();
    let creator = key(1);
    assert_eq!(
        process(&mut ledger, Instruction::Initialize { creator, ref_id: text("p") }),
        Some(Ok(()))
    );
    assert_eq!(
        process(&mut ledger, Instruction::Upvote { voter: key(2), ref_id: text("p") }),
        Some(Ok(()))
    );
    assert_eq!(
        process(&mut ledger, Instruction::Downvote { voter: key(2), ref_id: text("p") }),
        Some(Err(ErrorCode::AlreadyVoted))
    );
    assert_eq!(
        process(&mut ledger, Instruction::Downvote { voter: key(3), ref_id: text("p") }),
        Some(Ok(()))
    );
    assert_eq!(tallies(&ledger, "p"), Some((1, 1, 0)));
    assert_eq!(
        process(
            &mut ledger,
            Instruction::CloseVoteRecord { voter: key(3), creator, ref_id: text("p") }
        ),
        Some(Ok(()))
    );
    assert_eq!(
        process(&mut ledger, Instruction::CloseBox { creator: key(3), ref_id: text("p") }),
        Some(Err(ErrorCode::UnauthorizedClose))
    );
    assert_eq!(
        process(&mut ledger, Instruction::CloseBox { creator, ref_id: text("p") }),
        Some(Ok(()))
    );
    assert_eq!(tallies(&ledger, "p"), None);
}

#[test]
fn process_declines_a_reference_that_is_too_long() {
    let long = "abcdefghijklmnopqrstuvwxyz0123456";
    let mut ledger = Ledger::new();
    assert_eq!(
        process(&mut ledger, Instruction::Initialize { creator: key(1), ref_id: text(long) }),
        None
    );
    assert_eq!(process(&mut ledger, Instruction::Upvote { voter: key(1), ref_id: text(long) }), None);
    assert_eq!(
        process(&mut ledger, Instruction::Downvote { voter: key(1), ref_id: text(long) }),
        None
    );
    assert_eq!(
        process(
            &mut ledger,
            Instruction::CloseVoteRecord { voter: key(1), creator: key(1), ref_id: text(long) }
        ),
        None
    );
    assert_eq!(
        process(&mut ledger, Instruction::CloseBox { creator: key(1), ref_id: text(long) }),
        None
    );
}

#[test]
fn table_keeps_one_record_per_address() {
    let (address, bump) = derive_box_address(&text("full")).unwrap();
    let mut boxes: Table<voting_program::state::Box> = Table::new();
    let full = voting_program::state::Box {
        creator: key(1),
        ref_id: text("full"),
        upvotes: u64::MAX,
        downvotes: 0,
        total_votes: 0,
        bump,
    };
    assert!(!full.has_room(VoteType::Upvote));
    assert!(boxes.insert(address, full).is_none());
    assert!(boxes.contains(&address));
    assert_eq!(boxes.get(&address).unwrap().upvotes, u64::MAX);
    assert!(boxes.insert(address, voting_program::state::Box {
        creator: key(2),
        ref_id: text("again"),
        upvotes: 0,
        downvotes: 0,
        total_votes: 0,
        bump: 0,
    }).is_some());
    assert_eq!(boxes.get(&address).unwrap().ref_id, "full");
    assert_eq!(boxes.remove(&address).unwrap().ref_id, "full");
    assert!(boxes.remove(&address).is_none());
    assert!(!boxes.contains(&address));
}
