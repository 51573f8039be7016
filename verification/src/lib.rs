//! A voting registry: boxes identified by a reference string, one vote per
//! voter and box, tallies kept on the box, and closing restricted to owners.
//!
//! The five operations below derive the addresses of the records they touch
//! from the reference string and the actors, and then work on the
//! [`Ledger`](ledger::Ledger). Each applies in full or not at all.

pub mod address;
pub mod error;
pub mod instructions;
pub mod ledger;
pub mod lemmas;
pub mod state;
pub mod table;

use crate::address::{
    box_address, box_address_with_bump, derive_box_address, derive_vote_record_address,
    rederive_box_address, vote_record_address,
};
use crate::error::ErrorCode;
use crate::ledger::{applied, Ledger, LedgerView};
use crate::state::{Key, VoteType};
use vstd::prelude::*;
use vstd::utf8::encode_utf8;

verus! {

/// The box with this reference string is found: a box lives at the address
/// that the reference string derives, and the bump seed stored in it gives
/// that address again.
pub open spec fn box_reached(ledger: LedgerView, ref_id: Seq<char>) -> bool {
    &&& box_address(ref_id) is Some
    &&& ledger.boxes.contains_key(box_address(ref_id).unwrap().0)
    &&& box_address_with_bump(ref_id, ledger.boxes[box_address(ref_id).unwrap().0].bump) == Some(
        box_address(ref_id).unwrap().0,
    )
}

/// What [`initialize`] does to a ledger.
pub open spec fn initialize_result(ledger: LedgerView, creator: Seq<u8>, ref_id: Seq<char>) -> Result<
    LedgerView,
    ErrorCode,
>
    recommends
        box_address(ref_id) is Some,
{
    let found = box_address(ref_id).unwrap();
    ledger.open_box(found.0, creator, ref_id, found.1)
}

/// What [`upvote`] and [`downvote`] do to a ledger.
pub open spec fn vote_result(
    ledger: LedgerView,
    voter: Seq<u8>,
    ref_id: Seq<char>,
    side: VoteType,
) -> Result<LedgerView, ErrorCode> {
    if !box_reached(ledger, ref_id) {
        Err(ErrorCode::InvalidRefId)
    } else {
        let address = box_address(ref_id).unwrap().0;
        let found = vote_record_address(voter, address).unwrap();
        ledger.cast_vote(address, found.0, found.1, voter, ref_id, side)
    }
}

/// What [`close_vote_record`] does to a ledger.
pub open spec fn close_vote_record_result(
    ledger: LedgerView,
    voter: Seq<u8>,
    creator: Seq<u8>,
    ref_id: Seq<char>,
) -> Result<LedgerView, ErrorCode> {
    if !box_reached(ledger, ref_id) {
        Err(ErrorCode::InvalidRefId)
    } else {
        let address = box_address(ref_id).unwrap().0;
        let found = vote_record_address(voter, address).unwrap();
        ledger.close_vote_record(address, found.0, voter, creator, ref_id)
    }
}

/// What [`close_box`] does to a ledger.
pub open spec fn close_box_result(ledger: LedgerView, creator: Seq<u8>, ref_id: Seq<char>) -> Result<
    LedgerView,
    ErrorCode,
> {
    if !box_reached(ledger, ref_id) {
        Err(ErrorCode::InvalidRefId)
    } else {
        ledger.close_box(box_address(ref_id).unwrap().0, creator, ref_id)
    }
}

/// The addresses that a vote needs can be derived, and where the vote is
/// to succeed, the box's counters have room for it.
pub open spec fn vote_admitted(
    ledger: LedgerView,
    voter: Seq<u8>,
    ref_id: Seq<char>,
    side: VoteType,
) -> bool {
    &&& box_address(ref_id) is Some
    &&& box_reached(ledger, ref_id) ==> {
        &&& vote_record_address(voter, box_address(ref_id).unwrap().0) is Some
        &&& vote_result(ledger, voter, ref_id, side) is Ok
            ==> ledger.boxes[box_address(ref_id).unwrap().0].has_room(side)
    }
}

/// The addresses that closing a vote record needs can be derived.
pub open spec fn close_vote_record_admitted(
    ledger: LedgerView,
    voter: Seq<u8>,
    ref_id: Seq<char>,
) -> bool {
    &&& box_address(ref_id) is Some
    &&& box_reached(ledger, ref_id) ==> vote_record_address(
        voter,
        box_address(ref_id).unwrap().0,
    ) is Some
}

/// Looks the box with this reference string up: derives its address, and
/// derives it again from the bump seed stored in the box found there.
fn reach_box(ledger: &Ledger, ref_id: &String) -> (reached: Option<Key>)
    requires
        ledger.wf(),
        box_address(ref_id@) is Some,
    ensures
        reached is Some == box_reached(ledger@, ref_id@),
        reached matches Some(address) ==> address@ == box_address(ref_id@).unwrap().0,
{
    let (address, _) = derive_box_address(ref_id).unwrap();
    let bump = match ledger.box_at(&address) {
        Some(box_) => box_.bump,
        None => {
            return None;
        },
    };
    match rederive_box_address(ref_id, bump) {
        Some(again) => if again.same(&address) {
            Some(address)
        } else {
            None
        },
        None => None,
    }
}

/// Creates the box with this reference string, owned by `creator`, with no
/// votes. Fails with `AddressOccupied` where the address that the reference
/// string derives already holds a box. A box that was created is found by
/// the operations that follow.
pub fn initialize(ledger: &mut Ledger, creator: Key, ref_id: String) -> (result: Result<
    (),
    ErrorCode,
>)
    requires
        old(ledger).wf(),
        box_address(ref_id@) is Some,
    ensures
        final(ledger).wf(),
        applied(
            result,
            old(ledger)@,
            final(ledger)@,
            initialize_result(old(ledger)@, creator@, ref_id@),
        ),
        result is Ok ==> box_reached(final(ledger)@, ref_id@),
{
    let (address, bump) = derive_box_address(&ref_id).unwrap();
    ledger.open_box(address, creator, ref_id, bump)
}

/// Casts `voter`'s vote of this side on the box with this reference string.
/// Fails with `InvalidRefId` unless that box is found, and with
/// `AlreadyVoted` where the voter already holds a record for it.
pub fn cast_vote(ledger: &mut Ledger, voter: Key, ref_id: String, side: VoteType) -> (result:
    Result<(), ErrorCode>)
    requires
        old(ledger).wf(),
        vote_admitted(old(ledger)@, voter@, ref_id@, side),
    ensures
        final(ledger).wf(),
        applied(
            result,
            old(ledger)@,
            final(ledger)@,
            vote_result(old(ledger)@, voter@, ref_id@, side),
        ),
{
    let address = match reach_box(ledger, &ref_id) {
        Some(address) => address,
        None => {
            return Err(ErrorCode::InvalidRefId);
        },
    };
    let (record_address, bump) = derive_vote_record_address(&voter, &address).unwrap();
    ledger.cast_vote(&address, record_address, bump, voter, ref_id, side)
}

/// Casts `voter`'s upvote on the box with this reference string.
pub fn upvote(ledger: &mut Ledger, voter: Key, ref_id: String) -> (result: Result<(), ErrorCode>)
    requires
        old(ledger).wf(),
        vote_admitted(old(ledger)@, voter@, ref_id@, VoteType::Upvote),
    ensures
        final(ledger).wf(),
        applied(
            result,
            old(ledger)@,
            final(ledger)@,
            vote_result(old(ledger)@, voter@, ref_id@, VoteType::Upvote),
        ),
{
    cast_vote(ledger, voter, ref_id, VoteType::Upvote)
}

/// Casts `voter`'s downvote on the box with this reference string.
pub fn downvote(ledger: &mut Ledger, voter: Key, ref_id: String) -> (result: Result<(), ErrorCode>)
    requires
        old(ledger).wf(),
        vote_admitted(old(ledger)@, voter@, ref_id@, VoteType::Downvote),
    ensures
        final(ledger).wf(),
        applied(
            result,
            old(ledger)@,
            final(ledger)@,
            vote_result(old(ledger)@, voter@, ref_id@, VoteType::Downvote),
        ),
{
    cast_vote(ledger, voter, ref_id, VoteType::Downvote)
}

/// Closes `voter`'s record of their vote on the box with this reference
/// string. Fails with `InvalidRefId` unless that box is found, with
/// `InvalidCreator` unless `creator` created it, and with
/// `UnauthorizedClose` unless the voter holds a record of their own for it.
pub fn close_vote_record(ledger: &mut Ledger, voter: Key, creator: Key, ref_id: String) -> (result:
    Result<(), ErrorCode>)
    requires
        old(ledger).wf(),
        close_vote_record_admitted(old(ledger)@, voter@, ref_id@),
    ensures
        final(ledger).wf(),
        applied(
            result,
            old(ledger)@,
            final(ledger)@,
            close_vote_record_result(old(ledger)@, voter@, creator@, ref_id@),
        ),
{
    let address = match reach_box(ledger, &ref_id) {
        Some(address) => address,
        None => {
            return Err(ErrorCode::InvalidRefId);
        },
    };
    let (record_address, _) = derive_vote_record_address(&voter, &address).unwrap();
    ledger.close_vote_record(&address, &record_address, voter, creator, ref_id)
}

/// Closes the box with this reference string. Fails with `InvalidRefId`
/// unless that box is found, and with `UnauthorizedClose` unless `creator`
/// created it.
pub fn close_box(ledger: &mut Ledger, creator: Key, ref_id: String) -> (result: Result<
    (),
    ErrorCode,
>)
    requires
        old(ledger).wf(),
        box_address(ref_id@) is Some,
    ensures
        final(ledger).wf(),
        applied(
            result,
            old(ledger)@,
            final(ledger)@,
            close_box_result(old(ledger)@, creator@, ref_id@),
        ),
{
    match reach_box(ledger, &ref_id) {
        Some(address) => ledger.close_box(&address, creator, ref_id),
        None => Err(ErrorCode::InvalidRefId),
    }
}

/// One operation with its arguments.
pub enum Instruction {
    Initialize { creator: Key, ref_id: String },
    Upvote { voter: Key, ref_id: String },
    Downvote { voter: Key, ref_id: String },
    CloseVoteRecord { voter: Key, creator: Key, ref_id: String },
    CloseBox { creator: Key, ref_id: String },
}

impl Instruction {
    /// Whether the operation can be carried out on this ledger: its
    /// addresses can be derived and its counters have room.
    pub open spec fn admitted(self, ledger: LedgerView) -> bool {
        match self {
            Instruction::Initialize { creator, ref_id } => box_address(ref_id@) is Some,
            Instruction::Upvote { voter, ref_id } => vote_admitted(
                ledger,
                voter@,
                ref_id@,
                VoteType::Upvote,
            ),
            Instruction::Downvote { voter, ref_id } => vote_admitted(
                ledger,
                voter@,
                ref_id@,
                VoteType::Downvote,
            ),
            Instruction::CloseVoteRecord { voter, creator, ref_id } => close_vote_record_admitted(
                ledger,
                voter@,
                ref_id@,
            ),
            Instruction::CloseBox { creator, ref_id } => box_address(ref_id@) is Some,
        }
    }

    /// The reference string that the operation names.
    pub open spec fn ref_id(self) -> Seq<char> {
        match self {
            Instruction::Initialize { creator, ref_id } => ref_id@,
            Instruction::Upvote { voter, ref_id } => ref_id@,
            Instruction::Downvote { voter, ref_id } => ref_id@,
            Instruction::CloseVoteRecord { voter, creator, ref_id } => ref_id@,
            Instruction::CloseBox { creator, ref_id } => ref_id@,
        }
    }

    /// What the operation does to this ledger.
    pub open spec fn result(self, ledger: LedgerView) -> Result<LedgerView, ErrorCode> {
        match self {
            Instruction::Initialize { creator, ref_id } => initialize_result(
                ledger,
                creator@,
                ref_id@,
            ),
            Instruction::Upvote { voter, ref_id } => vote_result(
                ledger,
                voter@,
                ref_id@,
                VoteType::Upvote,
            ),
            Instruction::Downvote { voter, ref_id } => vote_result(
                ledger,
                voter@,
                ref_id@,
                VoteType::Downvote,
            ),
            Instruction::CloseVoteRecord { voter, creator, ref_id } => close_vote_record_result(
                ledger,
                voter@,
                creator@,
                ref_id@,
            ),
            Instruction::CloseBox { creator, ref_id } => close_box_result(
                ledger,
                creator@,
                ref_id@,
            ),
        }
    }
}

fn admits_vote(ledger: &Ledger, voter: &Key, ref_id: &String, side: VoteType) -> (admitted: bool)
    requires
        ledger.wf(),
    ensures
        admitted == vote_admitted(ledger@, voter@, ref_id@, side),
        encode_utf8(ref_id@).len() > 32 ==> !admitted,
{
    if derive_box_address(ref_id).is_none() {
        return false;
    }
    let address = match reach_box(ledger, ref_id) {
        Some(address) => address,
        None => {
            return true;
        },
    };
    let record_address = match derive_vote_record_address(voter, &address) {
        Some((record_address, _)) => record_address,
        None => {
            return false;
        },
    };
    if ledger.vote_record_at(&record_address).is_some() {
        return true;
    }
    match ledger.box_at(&address) {
        Some(box_) => !ledger.has_box(&address, ref_id) || box_.has_room(side),
        None => true,
    }
}

fn admits_close_vote_record(ledger: &Ledger, voter: &Key, ref_id: &String) -> (admitted: bool)
    requires
        ledger.wf(),
    ensures
        admitted == close_vote_record_admitted(ledger@, voter@, ref_id@),
        encode_utf8(ref_id@).len() > 32 ==> !admitted,
{
    if derive_box_address(ref_id).is_none() {
        return false;
    }
    match reach_box(ledger, ref_id) {
        Some(address) => derive_vote_record_address(voter, &address).is_some(),
        None => true,
    }
}

/// Carries one operation out where it can be: where its addresses can be
/// derived and its counters have room. Otherwise answers `None` and leaves
/// the ledger as it was; so it does for a reference string whose UTF-8 form
/// is longer than 32 bytes.
pub fn process(ledger: &mut Ledger, instruction: Instruction) -> (outcome: Option<
    Result<(), ErrorCode>,
>)
    requires
        old(ledger).wf(),
    ensures
        final(ledger).wf(),
        outcome is Some == instruction.admitted(old(ledger)@),
        outcome is None ==> final(ledger)@ == old(ledger)@,
        encode_utf8(instruction.ref_id()).len() > 32 ==> outcome is None,
        outcome matches Some(result) ==> applied(
            result,
            old(ledger)@,
            final(ledger)@,
            instruction.result(old(ledger)@),
        ),
{
    match instruction {
        Instruction::Initialize { creator, ref_id } => {
            if derive_box_address(&ref_id).is_none() {
                return None;
            }
            Some(initialize(ledger, creator, ref_id))
        },
        Instruction::Upvote { voter, ref_id } => {
            if !admits_vote(ledger, &voter, &ref_id, VoteType::Upvote) {
                return None;
            }
            Some(upvote(ledger, voter, ref_id))
        },
        Instruction::Downvote { voter, ref_id } => {
            if !admits_vote(ledger, &voter, &ref_id, VoteType::Downvote) {
                return None;
            }
            Some(downvote(ledger, voter, ref_id))
        },
        Instruction::CloseVoteRecord { voter, creator, ref_id } => {
            if !admits_close_vote_record(ledger, &voter, &ref_id) {
                return None;
            }
            Some(close_vote_record(ledger, voter, creator, ref_id))
        },
        Instruction::CloseBox { creator, ref_id } => {
            if derive_box_address(&ref_id).is_none() {
                return None;
            }
            Some(close_box(ledger, creator, ref_id))
        },
    }
}

} // verus!
