use vstd::prelude::*;

verus! {

/// A 32-byte identity or storage address.
#[derive(Clone, Copy, Debug)]
pub struct Key {
    pub bytes: [u8; 32],
}

impl View for Key {
    type V = Seq<u8>;

    open spec fn view(&self) -> Seq<u8> {
        self.bytes@
    }
}

impl Key {
    /// Whether two keys hold the same 32 bytes.
    pub fn same(&self, other: &Key) -> (equal: bool)
        ensures
            equal == (self@ == other@),
    {
        let mut i: usize = 0;
        while i < 32
            invariant
                i <= 32,
                forall|k: int| 0 <= k < i ==> self.bytes@[k] == other.bytes@[k],
            decreases 32 - i,
        {
            if self.bytes[i] != other.bytes[i] {
                return false;
            }
            i += 1;
        }
        assert(self@ =~= other@);
        true
    }

    /// The key's bytes as a vector.
    pub fn to_vec(&self) -> (bytes: Vec<u8>)
        ensures
            bytes@ == self@,
    {
        let mut bytes: Vec<u8> = Vec::new();
        let mut i: usize = 0;
        while i < 32
            invariant
                i <= 32,
                bytes@ == self.bytes@.subrange(0, i as int),
            decreases 32 - i,
        {
            bytes.push(self.bytes[i]);
            assert(bytes@ =~= self.bytes@.subrange(0, i + 1));
            i += 1;
        }
        assert(bytes@ =~= self@);
        bytes
    }
}

/// The side of a vote.
#[derive(Clone, Copy, Debug, PartialEq, Eq, Structural)]
pub enum VoteType {
    Upvote,
    Downvote,
}

/// A votable subject with its tallies.
#[derive(Debug)]
pub struct Box {
    pub creator: Key,
    pub ref_id: String,
    pub upvotes: u64,
    pub downvotes: u64,
    pub total_votes: i64,
    pub bump: u8,
}

/// What a [`Box`] holds, as mathematical values.
pub struct BoxView {
    pub creator: Seq<u8>,
    pub ref_id: Seq<char>,
    pub upvotes: u64,
    pub downvotes: u64,
    pub total_votes: i64,
    pub bump: u8,
}

impl View for Box {
    type V = BoxView;

    open spec fn view(&self) -> BoxView {
        BoxView {
            creator: self.creator@,
            ref_id: self.ref_id@,
            upvotes: self.upvotes,
            downvotes: self.downvotes,
            total_votes: self.total_votes,
            bump: self.bump,
        }
    }
}

impl Box {
    /// Whether one more vote of this side fits the counters.
    pub fn has_room(&self, side: VoteType) -> (fits: bool)
        ensures
            fits == self@.has_room(side),
    {
        match side {
            VoteType::Upvote => self.upvotes < u64::MAX && self.total_votes < i64::MAX,
            VoteType::Downvote => self.downvotes < u64::MAX && self.total_votes > i64::MIN,
        }
    }
}

impl BoxView {
    /// The net score is the upvotes less the downvotes.
    pub open spec fn consistent(self) -> bool {
        self.total_votes == self.upvotes - self.downvotes
    }

    /// A box as it is created: no votes yet.
    pub open spec fn fresh(creator: Seq<u8>, ref_id: Seq<char>, bump: u8) -> BoxView {
        BoxView { creator, ref_id, upvotes: 0, downvotes: 0, total_votes: 0, bump }
    }

    /// Whether one more vote of this side fits the counters.
    pub open spec fn has_room(self, side: VoteType) -> bool {
        match side {
            VoteType::Upvote => self.upvotes < u64::MAX && self.total_votes < i64::MAX,
            VoteType::Downvote => self.downvotes < u64::MAX && self.total_votes > i64::MIN,
        }
    }

    /// The box after one more vote of this side.
    pub open spec fn voted(self, side: VoteType) -> BoxView {
        match side {
            VoteType::Upvote => BoxView {
                upvotes: (self.upvotes + 1) as u64,
                total_votes: (self.total_votes + 1) as i64,
                ..self
            },
            VoteType::Downvote => BoxView {
                downvotes: (self.downvotes + 1) as u64,
                total_votes: (self.total_votes - 1) as i64,
                ..self
            },
        }
    }
}

/// One voter's vote on one box.
#[derive(Clone, Copy, Debug)]
pub struct VoteRecord {
    pub voter: Key,
    pub has_voted: bool,
    pub vote_type: VoteType,
    pub bump: u8,
}

/// What a [`VoteRecord`] holds, as mathematical values.
pub struct VoteRecordView {
    pub voter: Seq<u8>,
    pub has_voted: bool,
    pub vote_type: VoteType,
    pub bump: u8,
}

impl View for VoteRecord {
    type V = VoteRecordView;

    open spec fn view(&self) -> VoteRecordView {
        VoteRecordView {
            voter: self.voter@,
            has_voted: self.has_voted,
            vote_type: self.vote_type,
            bump: self.bump,
        }
    }
}

impl VoteRecordView {
    /// The record that a vote of this side leaves.
    pub open spec fn cast(voter: Seq<u8>, side: VoteType, bump: u8) -> VoteRecordView {
        VoteRecordView { voter, has_voted: true, vote_type: side, bump }
    }
}

} // verus!
