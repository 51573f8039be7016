//! The registry's storage: boxes and vote records, each kept by address.
//!
//! Every operation here takes the addresses it works on as plain values and
//! either applies in full or leaves the ledger as it was.

use crate::error::ErrorCode;
use crate::instructions::close::{CloseBox, CloseVoteRecord};
use crate::instructions::create::Create;
use crate::instructions::vote::Vote;
use crate::state::{Box, BoxView, Key, VoteRecord, VoteRecordView, VoteType};
use crate::table::Table;
use vstd::prelude::*;

verus! {

/// The boxes and vote records that are alive.
pub struct Ledger {
    boxes: Table<Box>,
    vote_records: Table<VoteRecord>,
}

/// What a [`Ledger`] holds: the record at each occupied address.
pub struct LedgerView {
    pub boxes: Map<Seq<u8>, BoxView>,
    pub vote_records: Map<Seq<u8>, VoteRecordView>,
}

impl LedgerView {
    /// Every box's net score is its upvotes less its downvotes.
    pub open spec fn consistent(self) -> bool {
        forall|a: Seq<u8>| #[trigger] self.boxes.contains_key(a) ==> self.boxes[a].consistent()
    }

    /// Whether the box with this reference string lives at this address.
    pub open spec fn has_box(self, address: Seq<u8>, ref_id: Seq<char>) -> bool {
        self.boxes.contains_key(address) && self.boxes[address].ref_id == ref_id
    }

    /// Creating a box at this address.
    pub open spec fn open_box(
        self,
        address: Seq<u8>,
        creator: Seq<u8>,
        ref_id: Seq<char>,
        bump: u8,
    ) -> Result<LedgerView, ErrorCode> {
        if self.boxes.contains_key(address) {
            Err(ErrorCode::AddressOccupied)
        } else {
            Ok(
                LedgerView {
                    boxes: self.boxes.insert(address, BoxView::fresh(creator, ref_id, bump)),
                    ..self
                },
            )
        }
    }

    /// Casting a vote on the box at `box_address`, recorded at
    /// `record_address`.
    pub open spec fn cast_vote(
        self,
        box_address: Seq<u8>,
        record_address: Seq<u8>,
        record_bump: u8,
        voter: Seq<u8>,
        ref_id: Seq<char>,
        side: VoteType,
    ) -> Result<LedgerView, ErrorCode> {
        if !self.has_box(box_address, ref_id) {
            Err(ErrorCode::InvalidRefId)
        } else if self.vote_records.contains_key(record_address) {
            Err(ErrorCode::AlreadyVoted)
        } else {
            Ok(
                LedgerView {
                    boxes: self.boxes.insert(box_address, self.boxes[box_address].voted(side)),
                    vote_records: self.vote_records.insert(
                        record_address,
                        VoteRecordView::cast(voter, side, record_bump),
                    ),
                },
            )
        }
    }

    /// Closing the vote record at `record_address`, cast on the box at
    /// `box_address`.
    pub open spec fn close_vote_record(
        self,
        box_address: Seq<u8>,
        record_address: Seq<u8>,
        voter: Seq<u8>,
        creator: Seq<u8>,
        ref_id: Seq<char>,
    ) -> Result<LedgerView, ErrorCode> {
        if !self.has_box(box_address, ref_id) {
            Err(ErrorCode::InvalidRefId)
        } else if self.boxes[box_address].creator != creator {
            Err(ErrorCode::InvalidCreator)
        } else if !self.vote_records.contains_key(record_address)
            || self.vote_records[record_address].voter != voter {
            Err(ErrorCode::UnauthorizedClose)
        } else {
            Ok(LedgerView { vote_records: self.vote_records.remove(record_address), ..self })
        }
    }

    /// Closing the box at this address.
    pub open spec fn close_box(self, address: Seq<u8>, creator: Seq<u8>, ref_id: Seq<char>) -> Result<
        LedgerView,
        ErrorCode,
    > {
        if !self.boxes.contains_key(address) {
            Err(ErrorCode::InvalidRefId)
        } else if self.boxes[address].creator != creator {
            Err(ErrorCode::UnauthorizedClose)
        } else if self.boxes[address].ref_id != ref_id {
            Err(ErrorCode::InvalidRefId)
        } else {
            Ok(LedgerView { boxes: self.boxes.remove(address), ..self })
        }
    }
}

/// An operation answered as expected: on success the ledger is the expected
/// one, on failure the error is the expected one and the ledger is as before.
pub open spec fn applied(
    result: Result<(), ErrorCode>,
    before: LedgerView,
    after: LedgerView,
    expected: Result<LedgerView, ErrorCode>,
) -> bool {
    match expected {
        Ok(ledger) => result is Ok && after == ledger,
        Err(error) => result == Err::<(), ErrorCode>(error) && after == before,
    }
}

impl View for Ledger {
    type V = LedgerView;

    closed spec fn view(&self) -> LedgerView {
        LedgerView { boxes: self.boxes@, vote_records: self.vote_records@ }
    }
}

impl Ledger {
    /// No address holds two records, and every box's tallies agree.
    pub closed spec fn wf(&self) -> bool {
        &&& self.boxes.wf()
        &&& self.vote_records.wf()
        &&& self@.consistent()
    }

    /// Every box of a well-formed ledger has a net score equal to its
    /// upvotes less its downvotes.
    pub proof fn lemma_tallies_agree(&self)
        requires
            self.wf(),
        ensures
            self@.consistent(),
    {
    }

    /// A ledger without records.
    pub fn new() -> (ledger: Ledger)
        ensures
            ledger.wf(),
            ledger@.boxes == Map::<Seq<u8>, BoxView>::empty(),
            ledger@.vote_records == Map::<Seq<u8>, VoteRecordView>::empty(),
    {
        Ledger { boxes: Table::new(), vote_records: Table::new() }
    }

    /// The box at this address, if one lives there.
    pub fn box_at(&self, address: &Key) -> (found: Option<&Box>)
        requires
            self.wf(),
        ensures
            found is Some == self@.boxes.contains_key(address@),
            found matches Some(b) ==> b@ == self@.boxes[address@],
    {
        self.boxes.get(address)
    }

    /// The vote record at this address, if one lives there.
    pub fn vote_record_at(&self, address: &Key) -> (found: Option<&VoteRecord>)
        requires
            self.wf(),
        ensures
            found is Some == self@.vote_records.contains_key(address@),
            found matches Some(r) ==> r@ == self@.vote_records[address@],
    {
        self.vote_records.get(address)
    }

    /// Whether the box with this reference string lives at this address.
    pub fn has_box(&self, address: &Key, ref_id: &String) -> (found: bool)
        requires
            self.wf(),
        ensures
            found == self@.has_box(address@, ref_id@),
    {
        match self.boxes.get(address) {
            Some(b) => b.ref_id == *ref_id,
            None => false,
        }
    }

    /// Creates a box at this address, with no votes. Fails with
    /// `AddressOccupied` where a box already lives there.
    pub fn open_box(&mut self, address: Key, creator: Key, ref_id: String, bump: u8) -> (result:
        Result<(), ErrorCode>)
        requires
            old(self).wf(),
        ensures
            final(self).wf(),
            applied(
                result,
                old(self)@,
                final(self)@,
                old(self)@.open_box(address@, creator@, ref_id@, bump),
            ),
    {
        if self.boxes.contains(&address) {
            return Err(ErrorCode::AddressOccupied);
        }
        let allocated = Box {
            creator,
            ref_id: String::new(),
            upvotes: 0,
            downvotes: 0,
            total_votes: 0,
            bump: 0,
        };
        let mut accounts = Create { creator, box_: allocated };
        let result = accounts.create_new_box(ref_id, bump);
        let _ = self.boxes.insert(address, accounts.box_);
        result
    }

    /// Casts a vote of this side on the box at `box_address`, and records it
    /// at `record_address`. Fails with `InvalidRefId` unless the box with
    /// this reference string lives at `box_address`, and with `AlreadyVoted`
    /// where a record already lives at `record_address`.
    pub fn cast_vote(
        &mut self,
        box_address: &Key,
        record_address: Key,
        record_bump: u8,
        voter: Key,
        ref_id: String,
        side: VoteType,
    ) -> (result: Result<(), ErrorCode>)
        requires
            old(self).wf(),
            old(self)@.cast_vote(
                box_address@,
                record_address@,
                record_bump,
                voter@,
                ref_id@,
                side,
            ) is Ok ==> old(self)@.boxes[box_address@].has_room(side),
        ensures
            final(self).wf(),
            applied(
                result,
                old(self)@,
                final(self)@,
                old(self)@.cast_vote(
                    box_address@,
                    record_address@,
                    record_bump,
                    voter@,
                    ref_id@,
                    side,
                ),
            ),
    {
        if !self.has_box(box_address, &ref_id) {
            return Err(ErrorCode::InvalidRefId);
        }
        if self.vote_records.contains(&record_address) {
            return Err(ErrorCode::AlreadyVoted);
        }
        let ghost before = self@;
        let box_ = self.boxes.remove(box_address).unwrap();
        let allocated = VoteRecord {
            voter,
            has_voted: false,
            vote_type: VoteType::Upvote,
            bump: 0,
        };
        let mut accounts = Vote { voter, box_, vote_record: allocated };
        let result = match side {
            VoteType::Upvote => accounts.upvote(ref_id, record_bump),
            VoteType::Downvote => accounts.downvote(ref_id, record_bump),
        };
        let _ = self.boxes.insert(*box_address, accounts.box_);
        let _ = self.vote_records.insert(record_address, accounts.vote_record);
        proof {
            assert(self@.boxes =~= before.boxes.insert(
                box_address@,
                before.boxes[box_address@].voted(side),
            ));
        }
        result
    }

    /// Closes the vote record at `record_address`. Fails with `InvalidRefId`
    /// unless the box with this reference string lives at `box_address`, with
    /// `InvalidCreator` unless `creator` created that box, and with
    /// `UnauthorizedClose` unless the record is `voter`'s own.
    pub fn close_vote_record(
        &mut self,
        box_address: &Key,
        record_address: &Key,
        voter: Key,
        creator: Key,
        ref_id: String,
    ) -> (result: Result<(), ErrorCode>)
        requires
            old(self).wf(),
        ensures
            final(self).wf(),
            applied(
                result,
                old(self)@,
                final(self)@,
                old(self)@.close_vote_record(
                    box_address@,
                    record_address@,
                    voter@,
                    creator@,
                    ref_id@,
                ),
            ),
    {
        if !self.has_box(box_address, &ref_id) {
            return Err(ErrorCode::InvalidRefId);
        }
        let ghost before = self@;
        let box_ = self.boxes.remove(box_address).unwrap();
        if !box_.creator.same(&creator) {
            let _ = self.boxes.insert(*box_address, box_);
            assert(self@.boxes =~= before.boxes);
            return Err(ErrorCode::InvalidCreator);
        }
        let vote_record = match self.vote_records.remove(record_address) {
            Some(r) => r,
            None => {
                let _ = self.boxes.insert(*box_address, box_);
                assert(self@.boxes =~= before.boxes);
                return Err(ErrorCode::UnauthorizedClose);
            },
        };
        let mut accounts = CloseVoteRecord { voter, creator, box_, vote_record };
        let result = accounts.vote_record_close(ref_id);
        let _ = self.boxes.insert(*box_address, accounts.box_);
        assert(self@.boxes =~= before.boxes);
        if result.is_err() {
            let _ = self.vote_records.insert(*record_address, accounts.vote_record);
            assert(self@.vote_records =~= before.vote_records);
        }
        result
    }

    /// Closes the box at this address. Fails with `InvalidRefId` where no
    /// box lives there, with `UnauthorizedClose` unless `creator` created
    /// it, and with `InvalidRefId` unless it has this reference string.
    pub fn close_box(&mut self, address: &Key, creator: Key, ref_id: String) -> (result: Result<
        (),
        ErrorCode,
    >)
        requires
            old(self).wf(),
        ensures
            final(self).wf(),
            applied(
                result,
                old(self)@,
                final(self)@,
                old(self)@.close_box(address@, creator@, ref_id@),
            ),
    {
        let ghost before = self@;
        let box_ = match self.boxes.remove(address) {
            Some(b) => b,
            None => {
                return Err(ErrorCode::InvalidRefId);
            },
        };
        let mut accounts = CloseBox { creator, box_ };
        let result = accounts.box_close(ref_id);
        if result.is_err() {
            let _ = self.boxes.insert(*address, accounts.box_);
            assert(self@.boxes =~= before.boxes);
        }
        result
    }
}

} // verus!
