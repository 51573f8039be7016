use vstd::prelude::*;

verus! {

/// Why an operation of the registry was refused.
#[derive(Clone, Copy, Debug, PartialEq, Eq, Structural)]
pub enum ErrorCode {
    /// A record already lives at the address where one was to be created.
    AddressOccupied,
    /// The creator named by the caller is not the creator stored in the box.
    InvalidCreator,
    /// The voter already holds a vote record for this box.
    AlreadyVoted,
    /// No box with the given reference string lives at the address that the
    /// reference string derives.
    InvalidRefId,
    /// The caller does not own the record that they ask to close.
    UnauthorizedClose,
}

impl ErrorCode {
    /// The message shown to a user for this error.
    pub fn message(&self) -> (text: &'static str)
        ensures
            text@ == self.spec_message(),
    {
        match self {
            ErrorCode::AddressOccupied => "A record already exists at the derived address",
            ErrorCode::InvalidCreator => "The creator of the box is invalid",
            ErrorCode::AlreadyVoted => "The user has already voted.",
            ErrorCode::InvalidRefId => "The ref_id does not match with ref_id of the box",
            ErrorCode::UnauthorizedClose => "The user is not authorized to close the box",
        }
    }

    pub open spec fn spec_message(&self) -> Seq<char> {
        match self {
            ErrorCode::AddressOccupied => "A record already exists at the derived address"@,
            ErrorCode::InvalidCreator => "The creator of the box is invalid"@,
            ErrorCode::AlreadyVoted => "The user has already voted."@,
            ErrorCode::InvalidRefId => "The ref_id does not match with ref_id of the box"@,
            ErrorCode::UnauthorizedClose => "The user is not authorized to close the box"@,
        }
    }
}

} // verus!
