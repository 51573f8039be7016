//! What holds of the operations taken together.

use crate::address::{box_address, vote_record_address};
use crate::error::ErrorCode;
use crate::ledger::LedgerView;
use crate::state::VoteType;
use crate::{
    box_reached, close_box_result, close_vote_record_result, initialize_result, vote_result,
};
use vstd::prelude::*;

verus! {

/// One box per reference string: creating a box succeeds where the address
/// of its reference string is free, and once it has succeeded, creating a box
/// with the same reference string again, by anyone, fails with
/// `AddressOccupied`.
pub proof fn lemma_one_box_per_reference(
    ledger: LedgerView,
    creator: Seq<u8>,
    ref_id: Seq<char>,
    other: Seq<u8>,
)
    requires
        box_address(ref_id) is Some,
    ensures
        !ledger.boxes.contains_key(box_address(ref_id).unwrap().0) ==> initialize_result(
            ledger,
            creator,
            ref_id,
        ) is Ok,
        initialize_result(ledger, creator, ref_id) matches Ok(after) ==> initialize_result(
            after,
            other,
            ref_id,
        ) == Err::<LedgerView, ErrorCode>(ErrorCode::AddressOccupied),
{
}

/// One vote per voter and box: once a voter's vote on a box has succeeded,
/// their next vote on it, of either side, fails with `AlreadyVoted`.
pub proof fn lemma_one_vote_per_voter(
    ledger: LedgerView,
    voter: Seq<u8>,
    ref_id: Seq<char>,
    first: VoteType,
    second: VoteType,
)
    ensures
        vote_result(ledger, voter, ref_id, first) matches Ok(after) ==> vote_result(
            after,
            voter,
            ref_id,
            second,
        ) == Err::<LedgerView, ErrorCode>(ErrorCode::AlreadyVoted),
{
}

/// A successful vote keeps the tallies in agreement: where every box's net
/// score was its upvotes less its downvotes and the counters had room, the
/// same holds after the vote.
pub proof fn lemma_vote_keeps_tallies(
    ledger: LedgerView,
    voter: Seq<u8>,
    ref_id: Seq<char>,
    side: VoteType,
)
    requires
        ledger.consistent(),
        vote_result(ledger, voter, ref_id, side) is Ok,
        ledger.boxes[box_address(ref_id).unwrap().0].has_room(side),
    ensures
        vote_result(ledger, voter, ref_id, side).unwrap().consistent(),
{
    let after = vote_result(ledger, voter, ref_id, side).unwrap();
    let address = box_address(ref_id).unwrap().0;
    assert forall|a: Seq<u8>| #[trigger] after.boxes.contains_key(a) implies after.boxes[a].consistent() by {
        if a != address {
            assert(ledger.boxes.contains_key(a));
        } else {
            assert(ledger.boxes.contains_key(address));
        }
    }
}

/// The ledger after these votes, each given by its voter, the reference
/// string of its box and its side, are attempted in turn. A vote that is
/// refused changes nothing.
pub open spec fn after_votes(
    ledger: LedgerView,
    votes: Seq<(Seq<u8>, Seq<char>, VoteType)>,
) -> LedgerView
    decreases votes.len(),
{
    if votes.len() == 0 {
        ledger
    } else {
        let before = after_votes(ledger, votes.drop_last());
        match vote_result(before, votes.last().0, votes.last().1, votes.last().2) {
            Ok(after) => after,
            Err(_) => before,
        }
    }
}

/// Each of these votes that succeeds finds room in the counters of its box.
pub open spec fn votes_fit(ledger: LedgerView, votes: Seq<(Seq<u8>, Seq<char>, VoteType)>) -> bool
    decreases votes.len(),
{
    votes.len() == 0 || {
        let before = after_votes(ledger, votes.drop_last());
        &&& votes_fit(ledger, votes.drop_last())
        &&& vote_result(before, votes.last().0, votes.last().1, votes.last().2) is Ok
            ==> before.boxes[box_address(votes.last().1).unwrap().0].has_room(votes.last().2)
    }
}

/// After any sequence of votes, every box's net score is its upvotes less
/// its downvotes, where that held before the first of them.
pub proof fn lemma_votes_keep_tallies(
    ledger: LedgerView,
    votes: Seq<(Seq<u8>, Seq<char>, VoteType)>,
)
    requires
        ledger.consistent(),
        votes_fit(ledger, votes),
    ensures
        after_votes(ledger, votes).consistent(),
    decreases votes.len(),
{
    if votes.len() > 0 {
        lemma_votes_keep_tallies(ledger, votes.drop_last());
        let before = after_votes(ledger, votes.drop_last());
        if vote_result(before, votes.last().0, votes.last().1, votes.last().2) is Ok {
            lemma_vote_keeps_tallies(before, votes.last().0, votes.last().1, votes.last().2);
        }
    }
}

/// Votes close nothing: a box that was alive is alive after them, with its
/// creator, reference string and bump seed as they were, and a vote record
/// that was alive is alive after them, unchanged.
pub proof fn lemma_votes_keep_records(
    ledger: LedgerView,
    votes: Seq<(Seq<u8>, Seq<char>, VoteType)>,
    address: Seq<u8>,
)
    ensures
        ledger.boxes.contains_key(address) ==> {
            let after = after_votes(ledger, votes);
            &&& after.boxes.contains_key(address)
            &&& after.boxes[address].creator == ledger.boxes[address].creator
            &&& after.boxes[address].ref_id == ledger.boxes[address].ref_id
            &&& after.boxes[address].bump == ledger.boxes[address].bump
        },
        ledger.vote_records.contains_key(address) ==> {
            let after = after_votes(ledger, votes);
            &&& after.vote_records.contains_key(address)
            &&& after.vote_records[address] == ledger.vote_records[address]
        },
    decreases votes.len(),
{
    if votes.len() > 0 {
        lemma_votes_keep_records(ledger, votes.drop_last(), address);
    }
}

/// At most one vote per voter and box: once a voter's vote on a box has
/// succeeded, their vote on it is refused with `AlreadyVoted`, whichever side
/// it has and whatever votes were attempted in between.
pub proof fn lemma_vote_stays_refused(
    ledger: LedgerView,
    voter: Seq<u8>,
    ref_id: Seq<char>,
    first: VoteType,
    between: Seq<(Seq<u8>, Seq<char>, VoteType)>,
    second: VoteType,
)
    ensures
        vote_result(ledger, voter, ref_id, first) matches Ok(after) ==> vote_result(
            after_votes(after, between),
            voter,
            ref_id,
            second,
        ) == Err::<LedgerView, ErrorCode>(ErrorCode::AlreadyVoted),
{
    if let Ok(after) = vote_result(ledger, voter, ref_id, first) {
        let address = box_address(ref_id).unwrap().0;
        let record = vote_record_address(voter, address).unwrap().0;
        lemma_votes_keep_records(after, between, address);
        lemma_votes_keep_records(after, between, record);
    }
}

/// Only its creator closes a box: where the box is found, anyone else is
/// refused with `UnauthorizedClose`, and the creator, under the box's own
/// reference string, succeeds, after which no box lives at the address.
pub proof fn lemma_only_creator_closes(ledger: LedgerView, requester: Seq<u8>, ref_id: Seq<char>)
    requires
        box_reached(ledger, ref_id),
    ensures
        ledger.boxes[box_address(ref_id).unwrap().0].creator != requester ==> close_box_result(
            ledger,
            requester,
            ref_id,
        ) == Err::<LedgerView, ErrorCode>(ErrorCode::UnauthorizedClose),
        ledger.boxes[box_address(ref_id).unwrap().0].creator == requester && ledger.has_box(
            box_address(ref_id).unwrap().0,
            ref_id,
        ) ==> close_box_result(ledger, requester, ref_id) is Ok && !close_box_result(
            ledger,
            requester,
            ref_id,
        ).unwrap().boxes.contains_key(box_address(ref_id).unwrap().0),
{
}

/// A reference string that is not the one of the box at its derived address
/// is refused with `InvalidRefId`: by a vote, by closing a vote record, and by
/// closing the box where the box's creator asks.
pub proof fn lemma_mismatch_rejected(
    ledger: LedgerView,
    actor: Seq<u8>,
    creator: Seq<u8>,
    ref_id: Seq<char>,
    side: VoteType,
)
    requires
        box_address(ref_id) is Some,
        !ledger.has_box(box_address(ref_id).unwrap().0, ref_id),
    ensures
        vote_result(ledger, actor, ref_id, side) == Err::<LedgerView, ErrorCode>(
            ErrorCode::InvalidRefId,
        ),
        close_vote_record_result(ledger, actor, creator, ref_id) == Err::<LedgerView, ErrorCode>(
            ErrorCode::InvalidRefId,
        ),
        ledger.boxes.contains_key(box_address(ref_id).unwrap().0) && ledger.boxes[box_address(
            ref_id,
        ).unwrap().0].creator == actor ==> close_box_result(ledger, actor, ref_id) == Err::<
            LedgerView,
            ErrorCode,
        >(ErrorCode::InvalidRefId),
        !ledger.boxes.contains_key(box_address(ref_id).unwrap().0) ==> close_box_result(
            ledger,
            actor,
            ref_id,
        ) == Err::<LedgerView, ErrorCode>(ErrorCode::InvalidRefId),
{
}

} // verus!
