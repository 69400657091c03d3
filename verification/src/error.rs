//! The errors of the review store and the form in which the host sees them.

use vstd::prelude::*;

verus! {

/// Why the review store refuses an instruction.
#[derive(Clone, Copy, Debug, PartialEq, Eq, Structural)]
pub enum Error {
    /// An update was sent to an account that holds no review yet.
    UninitializedAccount,
    /// The account is not the one derived from the owner and the title.
    InvalidPDA,
    /// The review would take more bytes than the account may hold.
    InvalidDataLength,
    /// The rating is not one of 1 to 5.
    InvalidRating,
    /// The instruction names an operation that does not exist.
    InvalidInstruction,
    /// The instruction's bytes are cut off or malformed.
    ParseMovieReviewPayloadFailed,
    /// A size does not fit the host's 64-bit size type.
    ConvertUsizeToU64Failed,
}

impl Error {
    /// The number under which the host reports this error.
    pub open spec fn spec_code(self) -> u32 {
        match self {
            Error::UninitializedAccount => 0,
            Error::InvalidPDA => 1,
            Error::InvalidDataLength => 2,
            Error::InvalidRating => 3,
            Error::InvalidInstruction => 4,
            Error::ParseMovieReviewPayloadFailed => 5,
            Error::ConvertUsizeToU64Failed => 6,
        }
    }

    /// The number under which the host reports this error.
    pub fn code(&self) -> (c: u32)
        ensures
            c == self.spec_code(),
    {
        match self {
            Error::UninitializedAccount => 0,
            Error::InvalidPDA => 1,
            Error::InvalidDataLength => 2,
            Error::InvalidRating => 3,
            Error::InvalidInstruction => 4,
            Error::ParseMovieReviewPayloadFailed => 5,
            Error::ConvertUsizeToU64Failed => 6,
        }
    }
}

/// An error as the host understands it: one of its own kinds, or a number
/// that stands for an `Error` of the review store.
#[derive(Clone, Copy, Debug, PartialEq, Eq, Structural)]
pub enum ProgramError {
    /// An error of the program itself, by its code.
    Custom(u32),
    /// An argument of the instruction is not what the program expects.
    InvalidArgument,
    /// The bytes stored in an account are not what the program expects. An
    /// update is refused with this error where the account that should hold
    /// the review holds bytes that do not decode as one.
    InvalidAccountData,
    /// The account that must have signed the transaction has not.
    MissingRequiredSignature,
    /// The account belongs to another program.
    IllegalOwner,
    /// The instruction came with fewer accounts than it needs.
    NotEnoughAccountKeys,
}

impl From<Error> for ProgramError {
    fn from(value: Error) -> (r: ProgramError) {
        ProgramError::Custom(value.code())
    }
}

impl vstd::std_specs::convert::FromSpecImpl<Error> for ProgramError {
    open spec fn obeys_from_spec() -> bool {
        true
    }

    open spec fn from_spec(value: Error) -> ProgramError {
        ProgramError::Custom(value.spec_code())
    }
}

/// The host's form of an `Error`.
pub open spec fn custom(e: Error) -> ProgramError {
    ProgramError::Custom(e.spec_code())
}

/// Every error has a code of its own, so the host can tell them apart.
pub proof fn lemma_codes_are_distinct(a: Error, b: Error)
    ensures
        a.spec_code() == b.spec_code() ==> a == b,
        custom(a) == custom(b) ==> a == b,
{
}

} // verus!
