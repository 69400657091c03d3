//! The instructions of the review store and their byte format: a
//! little-endian 32-bit tag (0 to add, 1 to update), the title as a
//! length-prefixed string, one byte for the rating, and the description as a
//! length-prefixed string. Nothing may follow the description.

use crate::error::{custom, Error, ProgramError};
use crate::wire::{
    le_u32_at, lemma_string_round_trip, lemma_u32_le_round_trip, read_string, read_u32,
    string_at, string_bytes, u32_le,
};
use vstd::prelude::*;
use vstd::utf8::*;

verus! {

/// The tag of an instruction that adds a review.
pub const TAG_ADD: u32 = 0;

/// The tag of an instruction that updates a review.
pub const TAG_UPDATE: u32 = 1;

/// An instruction to the review store.
#[derive(Clone, Debug)]
pub enum MovieInstruction {
    /// Store a new review of `title`.
    AddMovieReview { title: String, rating: u8, description: String },
    /// Change the rating and the description of the stored review.
    UpdateMovieReview { title: String, rating: u8, description: String },
}

/// An instruction as mathematical values.
pub enum Instruction {
    AddMovieReview { title: Seq<char>, rating: u8, description: Seq<char> },
    UpdateMovieReview { title: Seq<char>, rating: u8, description: Seq<char> },
}

impl View for MovieInstruction {
    type V = Instruction;

    open spec fn view(&self) -> Instruction {
        match self {
            MovieInstruction::AddMovieReview { title, rating, description } => {
                Instruction::AddMovieReview {
                    title: title@,
                    rating: *rating,
                    description: description@,
                }
            },
            MovieInstruction::UpdateMovieReview { title, rating, description } => {
                Instruction::UpdateMovieReview {
                    title: title@,
                    rating: *rating,
                    description: description@,
                }
            },
        }
    }
}

impl Instruction {
    /// The tag that selects this instruction's operation.
    pub open spec fn tag(self) -> u32 {
        match self {
            Instruction::AddMovieReview { .. } => TAG_ADD,
            Instruction::UpdateMovieReview { .. } => TAG_UPDATE,
        }
    }

    pub open spec fn title(self) -> Seq<char> {
        match self {
            Instruction::AddMovieReview { title, .. } => title,
            Instruction::UpdateMovieReview { title, .. } => title,
        }
    }

    pub open spec fn rating(self) -> u8 {
        match self {
            Instruction::AddMovieReview { rating, .. } => rating,
            Instruction::UpdateMovieReview { rating, .. } => rating,
        }
    }

    pub open spec fn description(self) -> Seq<char> {
        match self {
            Instruction::AddMovieReview { description, .. } => description,
            Instruction::UpdateMovieReview { description, .. } => description,
        }
    }

    /// The instruction with this tag and these fields.
    pub open spec fn with_tag(
        tag: u32,
        title: Seq<char>,
        rating: u8,
        description: Seq<char>,
    ) -> Instruction {
        if tag == TAG_ADD {
            Instruction::AddMovieReview { title, rating, description }
        } else {
            Instruction::UpdateMovieReview { title, rating, description }
        }
    }

    /// The bytes that carry this instruction.
    pub open spec fn bytes(self) -> Seq<u8> {
        u32_le(self.tag()) + string_bytes(self.title()) + seq![self.rating()] + string_bytes(
            self.description(),
        )
    }
}

/// The instruction that `b` carries. A payload that is cut off, has a
/// malformed string or has bytes left over is refused as unparseable; a tag
/// other than 0 and 1 is refused as an unknown instruction, whatever follows it.
pub open spec fn parse_instruction(b: Seq<u8>) -> Result<Instruction, Error> {
    if b.len() < 4 {
        Err(Error::ParseMovieReviewPayloadFailed)
    } else if le_u32_at(b, 0) > TAG_UPDATE {
        Err(Error::InvalidInstruction)
    } else {
        match string_at(b, 4) {
            None => Err(Error::ParseMovieReviewPayloadFailed),
            Some((title, at)) => if at >= b.len() {
                Err(Error::ParseMovieReviewPayloadFailed)
            } else {
                match string_at(b, at + 1) {
                    None => Err(Error::ParseMovieReviewPayloadFailed),
                    Some((description, end)) => if end != b.len() {
                        Err(Error::ParseMovieReviewPayloadFailed)
                    } else {
                        Ok(
                            Instruction::with_tag(
                                le_u32_at(b, 0) as u32,
                                title,
                                b[at],
                                description,
                            ),
                        )
                    },
                }
            },
        }
    }
}

/// The bytes of an instruction are parsed as that instruction.
pub proof fn lemma_parse_bytes(i: Instruction)
    requires
        encode_utf8(i.title()).len() <= u32::MAX,
        encode_utf8(i.description()).len() <= u32::MAX,
    ensures
        parse_instruction(i.bytes()) == Ok::<Instruction, Error>(i),
{
    let b = i.bytes();
    let t = string_bytes(i.title());
    let d = string_bytes(i.description());
    let at: int = 4 + t.len() as int;
    assert(b =~= u32_le(i.tag()) + t + seq![i.rating()] + d);
    assert(le_u32_at(b, 0) == i.tag()) by {
        assert(b.subrange(0, 4) =~= u32_le(i.tag()));
        lemma_u32_le_round_trip(i.tag(), b, 0);
    }
    assert(string_at(b, 4) == Some((i.title(), at))) by {
        assert(b.subrange(4, at) =~= t);
        lemma_string_round_trip(i.title(), b, 4);
    }
    assert(b[at] == i.rating());
    assert(string_at(b, at + 1) == Some((i.description(), b.len() as int))) by {
        assert(b.subrange(at + 1, at + 1 + d.len() as int) =~= d);
        lemma_string_round_trip(i.description(), b, at + 1);
    }
}

impl MovieInstruction {
    /// Decodes an instruction from its bytes.
    pub fn unpack(input: &[u8]) -> (r: Result<MovieInstruction, ProgramError>)
        ensures
            match parse_instruction(input@) {
                Ok(instruction) => r matches Ok(decoded) && decoded@ == instruction,
                Err(e) => r matches Err(reported) && reported == custom(e),
            },
    {
        let tag: u32 = match read_u32(input, 0) {
            Some(tag) => tag,
            None => {
                return Err(ProgramError::from(Error::ParseMovieReviewPayloadFailed));
            },
        };
        if tag > TAG_UPDATE {
            return Err(ProgramError::from(Error::InvalidInstruction));
        }
        let (title, at) = match read_string(input, 4) {
            Some(found) => found,
            None => {
                return Err(ProgramError::from(Error::ParseMovieReviewPayloadFailed));
            },
        };
        if at >= input.len() {
            return Err(ProgramError::from(Error::ParseMovieReviewPayloadFailed));
        }
        let rating: u8 = input[at];
        let (description, end) = match read_string(input, at + 1) {
            Some(found) => found,
            None => {
                return Err(ProgramError::from(Error::ParseMovieReviewPayloadFailed));
            },
        };
        if end != input.len() {
            return Err(ProgramError::from(Error::ParseMovieReviewPayloadFailed));
        }
        if tag == TAG_ADD {
            Ok(MovieInstruction::AddMovieReview { title, rating, description })
        } else {
            Ok(MovieInstruction::UpdateMovieReview { title, rating, description })
        }
    }
}

} // verus!
