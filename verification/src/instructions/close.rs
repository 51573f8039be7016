use crate::error::ErrorCode;
use crate::state::{Box, Key, VoteRecord};
use vstd::prelude::*;

verus! {

/// What closing a vote record works on: the voter who asks, the creator
/// they name, the box, and the record to close.
pub struct CloseVoteRecord {
    pub voter: Key,
    pub creator: Key,
    pub box_: Box,
    pub vote_record: VoteRecord,
}

impl CloseVoteRecord {
    /// Decides whether the record may be closed: only by the voter who cast
    /// it. Nothing is changed either way.
    pub fn vote_record_close(&mut self, _ref_id: String) -> (result: Result<(), ErrorCode>)
        ensures
            *final(self) == *old(self),
            old(self).vote_record.voter@ == old(self).voter@ ==> result is Ok,
            old(self).vote_record.voter@ != old(self).voter@ ==> result == Err::<(), ErrorCode>(
                ErrorCode::UnauthorizedClose,
            ),
    {
        if !self.vote_record.voter.same(&self.voter) {
            return Err(ErrorCode::UnauthorizedClose);
        }
        Ok(())
    }
}

/// What closing a box works on: the actor who asks, and the box.
pub struct CloseBox {
    pub creator: Key,
    pub box_: Box,
}

impl CloseBox {
    /// What [`CloseBox::box_close`] answers for these values.
    pub open spec fn verdict(creator: Seq<u8>, box_creator: Seq<u8>, box_ref_id: Seq<char>, ref_id: Seq<char>) -> Result<(), ErrorCode> {
        if box_creator != creator {
            Err(ErrorCode::UnauthorizedClose)
        } else if box_ref_id != ref_id {
            Err(ErrorCode::InvalidRefId)
        } else {
            Ok(())
        }
    }

    /// Decides whether the box may be closed: only by its creator, and only
    /// under its own reference string. Nothing is changed either way.
    pub fn box_close(&mut self, _ref_id: String) -> (result: Result<(), ErrorCode>)
        ensures
            *final(self) == *old(self),
            result == CloseBox::verdict(
                old(self).creator@,
                old(self).box_.creator@,
                old(self).box_.ref_id@,
                _ref_id@,
            ),
    {
        if !self.box_.creator.same(&self.creator) {
            return Err(ErrorCode::UnauthorizedClose);
        }
        if self.box_.ref_id != _ref_id {
            return Err(ErrorCode::InvalidRefId);
        }
        Ok(())
    }
}

} // verus!
