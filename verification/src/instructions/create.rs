use crate::error::ErrorCode;
use crate::state::{Box, BoxView, Key};
use vstd::prelude::*;

verus! {

/// What creating a box works on: the creator and the newly allocated box.
pub struct Create {
    pub creator: Key,
    pub box_: Box,
}

impl Create {
    /// Fills the box: the creator, the reference string, the bump seed of its
    /// address, and no votes.
    pub fn create_new_box(&mut self, ref_id: String, bump: u8) -> (result: Result<(), ErrorCode>)
        ensures
            result is Ok,
            final(self).creator == old(self).creator,
            final(self).box_@ == BoxView::fresh(old(self).creator@, ref_id@, bump),
    {
        self.box_ = Box {
            creator: self.creator,
            ref_id,
            upvotes: 0,
            downvotes: 0,
            total_votes: 0,
            bump,
        };
        Ok(())
    }
}

} // verus!
