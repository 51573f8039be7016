use crate::error::ErrorCode;
use crate::state::{Box, Key, VoteRecord, VoteRecordView, VoteType};
use vstd::prelude::*;

verus! {

/// What casting a vote works on: the voter, the box voted on, and the
/// voter's record for that box, newly allocated.
pub struct Vote {
    pub voter: Key,
    pub box_: Box,
    pub vote_record: VoteRecord,
}

impl Vote {
    /// What a vote of either side does to the records it was handed.
    pub open spec fn cast(before: Vote, after: Vote, side: VoteType, bump: u8) -> bool {
        &&& after.voter == before.voter
        &&& after.box_@ == before.box_@.voted(side)
        &&& after.vote_record@ == VoteRecordView::cast(before.voter@, side, bump)
    }

    /// Records an upvote: the vote record is filled, and the box's upvotes
    /// and net score each grow by one. Refused, with nothing changed, where
    /// the record already holds a vote.
    pub fn upvote(&mut self, _ref_id: String, bump: u8) -> (result: Result<(), ErrorCode>)
        requires
            !old(self).vote_record.has_voted ==> old(self).box_@.has_room(VoteType::Upvote),
        ensures
            old(self).vote_record.has_voted ==> result == Err::<(), ErrorCode>(
                ErrorCode::AlreadyVoted,
            ) && *final(self) == *old(self),
            !old(self).vote_record.has_voted ==> result is Ok && Vote::cast(
                *old(self),
                *final(self),
                VoteType::Upvote,
                bump,
            ),
    {
        if self.vote_record.has_voted {
            return Err(ErrorCode::AlreadyVoted);
        }
        self.vote_record = VoteRecord {
            voter: self.voter,
            has_voted: true,
            vote_type: VoteType::Upvote,
            bump,
        };
        self.box_.upvotes += 1;
        self.box_.total_votes += 1;
        Ok(())
    }

    /// Records a downvote: the vote record is filled, the box's downvotes
    /// grow by one and its net score falls by one. Refused, with nothing
    /// changed, where the record already holds a vote.
    pub fn downvote(&mut self, _ref_id: String, bump: u8) -> (result: Result<(), ErrorCode>)
        requires
            !old(self).vote_record.has_voted ==> old(self).box_@.has_room(VoteType::Downvote),
        ensures
            old(self).vote_record.has_voted ==> result == Err::<(), ErrorCode>(
                ErrorCode::AlreadyVoted,
            ) && *final(self) == *old(self),
            !old(self).vote_record.has_voted ==> result is Ok && Vote::cast(
                *old(self),
                *final(self),
                VoteType::Downvote,
                bump,
            ),
    {
        if self.vote_record.has_voted {
            return Err(ErrorCode::AlreadyVoted);
        }
        self.vote_record = VoteRecord {
            voter: self.voter,
            has_voted: true,
            vote_type: VoteType::Downvote,
            bump,
        };
        self.box_.downvotes += 1;
        self.box_.total_votes -= 1;
        Ok(())
    }
}

} // verus!
