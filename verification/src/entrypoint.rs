//! Where an instruction enters the review store.

use crate::account::{snapshots, AccountInfo, AccountSnapshot};
use crate::error::{custom, ProgramError};
use crate::instruction::{parse_instruction, Instruction, MovieInstruction};
use crate::processor::{
    add_movie_review, adds, lemma_update_is_fixed_by_its_inputs, update_movie_review, updates,
    PendingReview,
};
use crate::pubkey::Pubkey;
use vstd::prelude::*;

verus! {

/// What is left to do once an instruction has been accepted.
#[derive(Clone, Debug)]
pub enum Step {
    /// Nothing: the instruction has been carried out.
    Done,
    /// The host must allocate the account of a new review and then let
    /// `PendingReview::store` write the review into it.
    Allocate(PendingReview),
}

/// What an instruction gives and does to the accounts. An instruction that
/// cannot be decoded is refused with the decoder's error. One that adds a
/// review leaves the accounts as they are and, where it is accepted, asks for
/// the review's account. One that updates a review ends with `Step::Done`
/// where it is accepted.
pub open spec fn processes(
    program_id: Seq<u8>,
    before: Seq<AccountSnapshot>,
    after: Seq<AccountSnapshot>,
    instruction_data: Seq<u8>,
    r: Result<Step, ProgramError>,
) -> bool {
    match parse_instruction(instruction_data) {
        Err(e) => r matches Err(refused) && refused == custom(e) && after == before,
        Ok(Instruction::AddMovieReview { title, rating, description }) => {
            &&& after == before
            &&& match r {
                Ok(Step::Allocate(pending)) => adds(
                    program_id,
                    before,
                    title,
                    rating,
                    description,
                    Ok(pending),
                ),
                Ok(Step::Done) => false,
                Err(e) => adds(program_id, before, title, rating, description, Err(e)),
            }
        },
        Ok(Instruction::UpdateMovieReview { title, rating, description }) => match r {
            Ok(Step::Done) => updates(program_id, before, after, rating, description, Ok(())),
            Ok(Step::Allocate(_)) => false,
            Err(e) => updates(program_id, before, after, rating, description, Err(e)),
        },
    }
}

/// Decodes an instruction and carries it out on the accounts that came with
/// it. Every instruction and every set of accounts is answered: what cannot
/// be carried out is refused with an error, and the accounts stay as they were.
pub fn process_instruction(
    program_id: &Pubkey,
    accounts: &mut Vec<AccountInfo>,
    instruction_data: &[u8],
) -> (r: Result<Step, ProgramError>)
    ensures
        processes(
            program_id@,
            snapshots(old(accounts)@),
            snapshots(final(accounts)@),
            instruction_data@,
            r,
        ),
{
    let instruction = match MovieInstruction::unpack(instruction_data) {
        Ok(instruction) => instruction,
        Err(e) => {
            return Err(e);
        },
    };
    match instruction {
        MovieInstruction::AddMovieReview { title, rating, description } => {
            match add_movie_review(program_id, accounts, title, rating, description) {
                Ok(pending) => Ok(Step::Allocate(pending)),
                Err(e) => Err(e),
            }
        },
        MovieInstruction::UpdateMovieReview { title, rating, description } => {
            match update_movie_review(program_id, accounts, title, rating, description) {
                Ok(_) => Ok(Step::Done),
                Err(e) => Err(e),
            }
        },
    }
}

/// The result of an operation as the entry point gives it: the error
/// unchanged, and a success as `Step::Done`.
pub open spec fn done(r: Result<(), ProgramError>) -> Result<Step, ProgramError> {
    match r {
        Ok(_) => Ok(Step::Done),
        Err(e) => Err(e),
    }
}

/// An instruction that decodes as an update is carried out as the update
/// with the decoded rating and description is: the entry point gives the
/// update's result and leaves the accounts that the update leaves. It never
/// asks for an account.
pub proof fn lemma_update_instruction_is_the_update(
    program_id: Seq<u8>,
    before: Seq<AccountSnapshot>,
    instruction_data: Seq<u8>,
    after: Seq<AccountSnapshot>,
    r: Result<Step, ProgramError>,
    updated_accounts: Seq<AccountSnapshot>,
    updated: Result<(), ProgramError>,
)
    requires
        (parse_instruction(instruction_data) matches Ok(Instruction::UpdateMovieReview { .. })),
    ensures
        ({
            let instruction = parse_instruction(instruction_data)->Ok_0;
            let rating = instruction.rating();
            let description = instruction.description();
            processes(program_id, before, after, instruction_data, r) && updates(
                program_id,
                before,
                updated_accounts,
                rating,
                description,
                updated,
            ) ==> r == done(updated) && after == updated_accounts
        }),
{
    let instruction = parse_instruction(instruction_data)->Ok_0;
    let rating = instruction.rating();
    let description = instruction.description();
    if processes(program_id, before, after, instruction_data, r) && updates(
        program_id,
        before,
        updated_accounts,
        rating,
        description,
        updated,
    ) {
        let same: Result<(), ProgramError> = match r {
            Ok(_) => Ok(()),
            Err(e) => Err(e),
        };
        lemma_update_is_fixed_by_its_inputs(
            program_id,
            before,
            rating,
            description,
            after,
            same,
            updated_accounts,
            updated,
        );
    }
}

} // verus!
