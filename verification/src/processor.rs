//! The two operations of the review store.
//!
//! Adding a review takes two steps, with the host's work between them:
//! `add_movie_review` checks the instruction and says which account the host
//! must allocate; once the host has done so, `PendingReview::store` writes the
//! review into the new account. Updating a review is one step.

use crate::account::{snapshots, AccountInfo, AccountSnapshot};
use crate::error::{custom, Error, ProgramError};
use crate::pubkey::{
    address_view, derives, find_review_address, is_address, review_address, Pubkey,
};
use crate::state::{
    bounded_review_len, lemma_zeroed_is_uninitialized, parse_review, review_len,
    MovieAccountState, Review, MAX_REVIEW_LEN, REVIEW_OVERHEAD,
};
use crate::wire::overwrite;
use vstd::prelude::*;

verus! {

/// Whether a rating is one of 1 to 5.
pub open spec fn rating_in_range(rating: u8) -> bool {
    1 <= rating <= 5
}

/// Accepts the ratings from 1 to 5.
pub fn check_rating(rating: u8) -> (r: Result<(), ProgramError>)
    ensures
        rating_in_range(rating) ==> r is Ok,
        !rating_in_range(rating) ==> r == Err::<(), ProgramError>(custom(Error::InvalidRating)),
{
    if 1 <= rating && rating <= 5 {
        Ok(())
    } else {
        Err(ProgramError::from(Error::InvalidRating))
    }
}

/// Accepts a title and a description whose review takes at most
/// `MAX_REVIEW_LEN` bytes, and gives that number of bytes.
pub fn check_data_length(title: &str, description: &str) -> (r: Result<usize, ProgramError>)
    ensures
        review_len(title@, description@) <= MAX_REVIEW_LEN ==> r == Ok::<usize, ProgramError>(
            review_len(title@, description@) as usize,
        ),
        review_len(title@, description@) > MAX_REVIEW_LEN ==> r == Err::<usize, ProgramError>(
            custom(Error::InvalidDataLength),
        ),
{
    match bounded_review_len(title, description) {
        Some(total_len) => Ok(total_len),
        None => Err(ProgramError::from(Error::InvalidDataLength)),
    }
}

/// The account that the host is asked to allocate for a new review. The host
/// funds it from `payer` and signs for `address` with the seeds that the
/// address was derived from: the payer's key, the title's bytes and `bump_seed`.
#[derive(Clone, Copy, Debug)]
pub struct Allocation {
    /// The account that pays for the allocation.
    pub payer: Pubkey,
    /// The address of the new account.
    pub address: Pubkey,
    /// The program that will own the new account.
    pub owner: Pubkey,
    /// The number of bytes to allocate.
    pub space: u64,
    /// The bump seed of `address`.
    pub bump_seed: u8,
}

/// A review that has passed all checks and waits for its account.
#[derive(Clone, Debug)]
pub struct PendingReview {
    /// What the host must allocate first.
    pub allocation: Allocation,
    pub title: String,
    pub rating: u8,
    pub description: String,
}

/// Why a new review with this title, rating and description is refused for
/// the account `target`, if it is, where `found` is what deriving the address
/// from owner and title gave. The checks come in this order: address,
/// rating, size.
pub open spec fn new_review_refusal(
    found: Option<(Seq<u8>, u8)>,
    target: Seq<u8>,
    title: Seq<char>,
    rating: u8,
    description: Seq<char>,
) -> Option<ProgramError> {
    if !derives(found, target) {
        Some(ProgramError::InvalidArgument)
    } else if !rating_in_range(rating) {
        Some(custom(Error::InvalidRating))
    } else if review_len(title, description) > MAX_REVIEW_LEN {
        Some(custom(Error::InvalidDataLength))
    } else {
        None
    }
}

/// Why an instruction to add a review is refused, if it is, where `found` is
/// what deriving the address from the first account's key and the title gave.
/// Three accounts are needed, and the first must have signed; then the checks
/// of `new_review_refusal` follow for the second account.
pub open spec fn add_refusal(
    found: Option<(Seq<u8>, u8)>,
    accounts: Seq<AccountSnapshot>,
    title: Seq<char>,
    rating: u8,
    description: Seq<char>,
) -> Option<ProgramError> {
    if accounts.len() < 3 {
        Some(ProgramError::NotEnoughAccountKeys)
    } else if !accounts[0].is_signer {
        Some(ProgramError::MissingRequiredSignature)
    } else {
        new_review_refusal(found, accounts[1].key, title, rating, description)
    }
}

impl PendingReview {
    /// This is the request that follows from an accepted instruction: the
    /// account `target` of exactly the review's size, paid by `payer`, owned
    /// by the program, and the review marked as initialized.
    pub open spec fn answers(
        self,
        found: Option<(Seq<u8>, u8)>,
        program_id: Seq<u8>,
        payer: Seq<u8>,
        target: Seq<u8>,
        title: Seq<char>,
        rating: u8,
        description: Seq<char>,
    ) -> bool {
        &&& self.allocation.payer@ == payer
        &&& self.allocation.address@ == target
        &&& self.allocation.owner@ == program_id
        &&& self.allocation.space == review_len(title, description)
        &&& found matches Some((_, bump_seed)) && self.allocation.bump_seed == bump_seed
        &&& self.review() == Review { is_initialized: true, rating, title, description }
    }

    /// The review that `store` writes: the pending one, marked as initialized.
    pub open spec fn review(self) -> Review {
        Review {
            is_initialized: true,
            rating: self.rating,
            title: self.title@,
            description: self.description@,
        }
    }

    /// The second step of adding a review: writes it, marked as initialized,
    /// over the front of `data`, the bytes of the account that the host has
    /// allocated. What `data` held before is not looked at. The review is
    /// refused, and nothing written, where it does not fit in `data`.
    pub fn store(self, data: &mut [u8]) -> (r: Result<(), ProgramError>)
        ensures
            self.review().fits(old(data)@.len()) ==> {
                &&& r is Ok
                &&& final(data)@ == overwrite(old(data)@, 0, self.review().bytes())
                &&& parse_review(final(data)@) == Some(self.review())
            },
            !self.review().fits(old(data)@.len()) ==> {
                &&& r == Err::<(), ProgramError>(custom(Error::InvalidDataLength))
                &&& final(data)@ == old(data)@
            },
    {
        let account_data = MovieAccountState {
            is_initialized: true,
            rating: self.rating,
            title: self.title,
            description: self.description,
        };
        match account_data.serialize(data) {
            Some(_) => Ok(()),
            None => Err(ProgramError::from(Error::InvalidDataLength)),
        }
    }
}

/// Checks a new review against the derived address `found` and, where it
/// passes, says what the host must allocate for it.
pub fn plan_review_account(
    found: Option<(Pubkey, u8)>,
    program_id: &Pubkey,
    payer: &Pubkey,
    target: &Pubkey,
    title: String,
    rating: u8,
    description: String,
) -> (r: Result<PendingReview, ProgramError>)
    ensures
        match new_review_refusal(address_view(found), target@, title@, rating, description@) {
            Some(e) => r matches Err(refused) && refused == e,
            None => r matches Ok(pending) && pending.answers(
                address_view(found),
                program_id@,
                payer@,
                target@,
                title@,
                rating,
                description@,
            ),
        },
{
    let bump_seed: u8 = match found {
        Some((address, bump_seed)) => {
            if address != *target {
                return Err(ProgramError::InvalidArgument);
            }
            bump_seed
        },
        None => {
            return Err(ProgramError::InvalidArgument);
        },
    };
    match check_rating(rating) {
        Ok(_) => {},
        Err(e) => {
            return Err(e);
        },
    }
    let total_len: usize = match check_data_length(title.as_str(), description.as_str()) {
        Ok(total_len) => total_len,
        Err(e) => {
            return Err(e);
        },
    };
    Ok(
        PendingReview {
            allocation: Allocation {
                payer: *payer,
                address: *target,
                owner: *program_id,
                space: total_len as u64,
                bump_seed,
            },
            title,
            rating,
            description,
        },
    )
}

/// What adding a review gives: the first refusal that applies, or else the
/// request for the review's account. The address is derived from the first
/// account's key and the title.
pub open spec fn adds(
    program_id: Seq<u8>,
    accounts: Seq<AccountSnapshot>,
    title: Seq<char>,
    rating: u8,
    description: Seq<char>,
    r: Result<PendingReview, ProgramError>,
) -> bool {
    let found = review_address(accounts[0].key, title, program_id);
    match add_refusal(found, accounts, title, rating, description) {
        Some(e) => r matches Err(refused) && refused == e,
        None => r matches Ok(pending) && pending.answers(
            found,
            program_id,
            accounts[0].key,
            accounts[1].key,
            title,
            rating,
            description,
        ),
    }
}

/// The first step of adding a review. The accounts are the owner, who
/// pays and must have signed; the account for the review, whose address must
/// be the one derived from the owner's key and the title; and the system
/// program. Where the instruction is accepted, the result says which account
/// the host must allocate before `PendingReview::store` can write the review.
pub fn add_movie_review(
    program_id: &Pubkey,
    accounts: &Vec<AccountInfo>,
    title: String,
    rating: u8,
    description: String,
) -> (r: Result<PendingReview, ProgramError>)
    ensures
        adds(program_id@, snapshots(accounts@), title@, rating, description@, r),
{
    if accounts.len() < 3 {
        return Err(ProgramError::NotEnoughAccountKeys);
    }
    let initializer = &accounts[0];
    let pda_account = &accounts[1];
    if !initializer.is_signer {
        return Err(ProgramError::MissingRequiredSignature);
    }
    let found = find_review_address(program_id, &initializer.key, title.as_str());
    plan_review_account(
        found,
        program_id,
        &initializer.key,
        &pda_account.key,
        title,
        rating,
        description,
    )
}

/// Whether an update gets as far as reading the stored review: there are
/// two accounts, the first has signed, and the second belongs to the program.
pub open spec fn reads_review(program_id: Seq<u8>, accounts: Seq<AccountSnapshot>) -> bool {
    accounts.len() >= 2 && accounts[0].is_signer && accounts[1].owner == program_id
}

/// The stored review with a new rating and description. The title and the
/// initialization flag stay.
pub open spec fn updated(stored: Review, rating: u8, description: Seq<char>) -> Review {
    Review { rating, description, ..stored }
}

/// Why a new rating and description are refused for the review `stored` in
/// the account `target` with room for `capacity` bytes, if they are, where
/// `found` is what deriving the address from owner and stored title gave.
/// The checks come in this order: address, initialization, rating, size.
pub open spec fn stored_review_refusal(
    found: Option<(Seq<u8>, u8)>,
    target: Seq<u8>,
    stored: Review,
    capacity: nat,
    rating: u8,
    description: Seq<char>,
) -> Option<ProgramError> {
    if !derives(found, target) {
        Some(custom(Error::InvalidPDA))
    } else if !stored.is_initialized {
        Some(custom(Error::UninitializedAccount))
    } else if !rating_in_range(rating) {
        Some(custom(Error::InvalidRating))
    } else if review_len(stored.title, description) > MAX_REVIEW_LEN {
        Some(custom(Error::InvalidDataLength))
    } else if review_len(stored.title, description) > capacity {
        Some(custom(Error::InvalidDataLength))
    } else {
        None
    }
}

/// Why an instruction to update a review is refused, if it is, where `found`
/// is what deriving the address from the first account's key and the stored
/// title gave. Two accounts are needed, the first must have signed, the
/// second must belong to the program, and its bytes must decode as a review:
/// bytes that do not are refused as invalid account data. Then the checks of
/// `stored_review_refusal` follow for the review stored in the second account.
pub open spec fn update_refusal(
    found: Option<(Seq<u8>, u8)>,
    program_id: Seq<u8>,
    accounts: Seq<AccountSnapshot>,
    rating: u8,
    description: Seq<char>,
) -> Option<ProgramError> {
    if accounts.len() < 2 {
        Some(ProgramError::NotEnoughAccountKeys)
    } else if !accounts[0].is_signer {
        Some(ProgramError::MissingRequiredSignature)
    } else if accounts[1].owner != program_id {
        Some(ProgramError::IllegalOwner)
    } else {
        match parse_review(accounts[1].data) {
            None => Some(ProgramError::InvalidAccountData),
            Some(stored) => stored_review_refusal(
                found,
                accounts[1].key,
                stored,
                accounts[1].data.len(),
                rating,
                description,
            ),
        }
    }
}

/// What deriving the address for an update gives: the address for the first
/// account's key and the title of the review stored in the second account.
/// There is none where no review is stored there.
pub open spec fn stored_review_address(
    program_id: Seq<u8>,
    accounts: Seq<AccountSnapshot>,
) -> Option<(Seq<u8>, u8)> {
    match parse_review(accounts[1].data) {
        Some(stored) => review_address(accounts[0].key, stored.title, program_id),
        None => None,
    }
}

/// Checks a new rating and description for the stored review `account_data`
/// against the derived address `found` and, where they pass, writes the
/// updated review over the front of `data`. Where they do not, `data` stays
/// as it is.
pub fn update_stored_review(
    found: Option<(Pubkey, u8)>,
    target: &Pubkey,
    account_data: MovieAccountState,
    rating: u8,
    description: String,
    data: &mut [u8],
) -> (r: Result<(), ProgramError>)
    ensures
        match stored_review_refusal(
            address_view(found),
            target@,
            account_data@,
            old(data)@.len(),
            rating,
            description@,
        ) {
            Some(e) => r matches Err(refused) && refused == e && final(data)@ == old(data)@,
            None => {
                &&& r is Ok
                &&& final(data)@ == overwrite(
                    old(data)@,
                    0,
                    updated(account_data@, rating, description@).bytes(),
                )
                &&& parse_review(final(data)@) == Some(
                    updated(account_data@, rating, description@),
                )
            },
        },
{
    let mut account_data = account_data;
    if !is_address(&found, target) {
        return Err(ProgramError::from(Error::InvalidPDA));
    }
    if !account_data.is_initialized() {
        return Err(ProgramError::from(Error::UninitializedAccount));
    }
    match check_rating(rating) {
        Ok(_) => {},
        Err(e) => {
            return Err(e);
        },
    }
    match check_data_length(account_data.title.as_str(), description.as_str()) {
        Ok(_) => {},
        Err(e) => {
            return Err(e);
        },
    }
    account_data.rating = rating;
    account_data.description = description;
    match account_data.serialize(data) {
        Some(_) => Ok(()),
        None => Err(ProgramError::from(Error::InvalidDataLength)),
    }
}

/// What updating a review gives and does to the accounts: the first refusal
/// that applies, with the accounts as they were, or else the stored review
/// with the new rating and description written over the front of the second
/// account's bytes. The address is derived from the first account's key and
/// the stored title.
pub open spec fn updates(
    program_id: Seq<u8>,
    before: Seq<AccountSnapshot>,
    after: Seq<AccountSnapshot>,
    rating: u8,
    description: Seq<char>,
    r: Result<(), ProgramError>,
) -> bool {
    let found = stored_review_address(program_id, before);
    match update_refusal(found, program_id, before, rating, description) {
        Some(e) => r matches Err(refused) && refused == e && after == before,
        None => {
            &&& r is Ok
            &&& parse_review(before[1].data) matches Some(stored)
            &&& after == before.update(
                1,
                before[1].with_data(
                    overwrite(before[1].data, 0, updated(stored, rating, description).bytes()),
                ),
            )
            &&& parse_review(after[1].data) == Some(updated(stored, rating, description))
        },
    }
}

/// Updates a stored review. The accounts are the owner, who must have
/// signed, and the account of the review, which must belong to the program,
/// hold a review and have the address derived from the owner's key and the
/// stored title. An account whose bytes do not decode as a review is refused
/// with `ProgramError::InvalidAccountData`. The title that comes with the
/// instruction is not looked at: the review keeps the title it was stored
/// with. Only the bytes of the second account change, and only where the
/// update is accepted.
pub fn update_movie_review(
    program_id: &Pubkey,
    accounts: &mut Vec<AccountInfo>,
    _title: String,
    rating: u8,
    description: String,
) -> (r: Result<(), ProgramError>)
    ensures
        updates(
            program_id@,
            snapshots(old(accounts)@),
            snapshots(final(accounts)@),
            rating,
            description@,
            r,
        ),
{
    if accounts.len() < 2 {
        return Err(ProgramError::NotEnoughAccountKeys);
    }
    if !accounts[0].is_signer {
        return Err(ProgramError::MissingRequiredSignature);
    }
    if accounts[1].owner != *program_id {
        return Err(ProgramError::IllegalOwner);
    }
    let account_data = match MovieAccountState::try_from_slice_unchecked(
        accounts[1].data.as_slice(),
    ) {
        Some(account_data) => account_data,
        None => {
            return Err(ProgramError::InvalidAccountData);
        },
    };
    let found = find_review_address(program_id, &accounts[0].key, account_data.title.as_str());
    let target: Pubkey = accounts[1].key;
    let r = update_stored_review(
        found,
        &target,
        account_data,
        rating,
        description,
        accounts[1].data.as_mut_slice(),
    );
    proof {
        let before = snapshots(old(accounts)@);
        let written = accounts@[1].data@;
        assert(snapshots(accounts@) =~= before.update(1, before[1].with_data(written)));
        if written == before[1].data {
            assert(before.update(1, before[1].with_data(written)) =~= before);
        }
    }
    r
}

/// A rating outside 1 to 5 is refused as such when a review is added,
/// whatever the title and the description, once the checks before it have
/// passed: there are three accounts, the first has signed, and the second has
/// the derived address.
pub proof fn lemma_add_refuses_rating_out_of_range(
    found: Option<(Seq<u8>, u8)>,
    accounts: Seq<AccountSnapshot>,
    title: Seq<char>,
    rating: u8,
    description: Seq<char>,
)
    requires
        accounts.len() >= 3,
        accounts[0].is_signer,
        derives(found, accounts[1].key),
        !rating_in_range(rating),
    ensures
        add_refusal(found, accounts, title, rating, description) == Some(
            custom(Error::InvalidRating),
        ),
{
}

/// A rating outside 1 to 5 is refused as such when a review is updated,
/// whatever the description, once the checks before it have passed: the
/// stored review is read, the account has the derived address, and the
/// review is initialized.
pub proof fn lemma_update_refuses_rating_out_of_range(
    found: Option<(Seq<u8>, u8)>,
    program_id: Seq<u8>,
    accounts: Seq<AccountSnapshot>,
    rating: u8,
    description: Seq<char>,
)
    requires
        reads_review(program_id, accounts),
        derives(found, accounts[1].key),
        parse_review(accounts[1].data) matches Some(stored) && stored.is_initialized,
        !rating_in_range(rating),
    ensures
        update_refusal(found, program_id, accounts, rating, description) == Some(
            custom(Error::InvalidRating),
        ),
{
}

/// Where all other checks pass, a new review is accepted if it takes at most
/// 1000 bytes and refused for its length if it takes more.
pub proof fn lemma_add_size_bound(
    found: Option<(Seq<u8>, u8)>,
    accounts: Seq<AccountSnapshot>,
    title: Seq<char>,
    rating: u8,
    description: Seq<char>,
)
    requires
        accounts.len() >= 3,
        accounts[0].is_signer,
        derives(found, accounts[1].key),
        rating_in_range(rating),
    ensures
        review_len(title, description) <= MAX_REVIEW_LEN ==> add_refusal(
            found,
            accounts,
            title,
            rating,
            description,
        ) is None,
        review_len(title, description) > MAX_REVIEW_LEN ==> add_refusal(
            found,
            accounts,
            title,
            rating,
            description,
        ) == Some(custom(Error::InvalidDataLength)),
{
}

/// Where all other checks pass, an update is accepted if the updated review
/// takes at most 1000 bytes and no more than the account holds, and refused
/// for its length otherwise.
pub proof fn lemma_update_size_bound(
    found: Option<(Seq<u8>, u8)>,
    program_id: Seq<u8>,
    accounts: Seq<AccountSnapshot>,
    rating: u8,
    description: Seq<char>,
)
    requires
        reads_review(program_id, accounts),
        derives(found, accounts[1].key),
        parse_review(accounts[1].data) matches Some(stored) && stored.is_initialized,
        rating_in_range(rating),
    ensures
        ({
            let len = review_len(parse_review(accounts[1].data)->Some_0.title, description);
            let refusal = update_refusal(found, program_id, accounts, rating, description);
            &&& len <= MAX_REVIEW_LEN && len <= accounts[1].data.len() ==> refusal is None
            &&& len > MAX_REVIEW_LEN || len > accounts[1].data.len() ==> refusal == Some(
                custom(Error::InvalidDataLength),
            )
        }),
{
}

/// An update of an account whose address is not the one derived from the
/// owner and the stored title is refused for its address, whatever review
/// is stored there, and whatever the rating and the description.
pub proof fn lemma_update_refuses_other_address(
    found: Option<(Seq<u8>, u8)>,
    program_id: Seq<u8>,
    accounts: Seq<AccountSnapshot>,
    rating: u8,
    description: Seq<char>,
)
    requires
        reads_review(program_id, accounts),
        (parse_review(accounts[1].data) is Some),
        !derives(found, accounts[1].key),
    ensures
        update_refusal(found, program_id, accounts, rating, description) == Some(
            custom(Error::InvalidPDA),
        ),
{
}

/// An update of an account that was allocated and never written, so that
/// all its bytes are zero, is refused as uninitialized, whatever the rating
/// and the description. The account has the address derived for the empty
/// title, which is what such storage decodes to.
pub proof fn lemma_update_refuses_zeroed_account(
    found: Option<(Seq<u8>, u8)>,
    program_id: Seq<u8>,
    accounts: Seq<AccountSnapshot>,
    rating: u8,
    description: Seq<char>,
)
    requires
        reads_review(program_id, accounts),
        derives(found, accounts[1].key),
        accounts[1].data.len() >= REVIEW_OVERHEAD,
        forall|i: int| 0 <= i < accounts[1].data.len() ==> accounts[1].data[i] == 0,
    ensures
        parse_review(accounts[1].data) == Some(Review::uninitialized()),
        update_refusal(found, program_id, accounts, rating, description) == Some(
            custom(Error::UninitializedAccount),
        ),
{
    lemma_zeroed_is_uninitialized(accounts[1].data);
}

/// The review that an accepted instruction to add asks to store is valid.
pub proof fn lemma_added_review_is_valid(
    found: Option<(Seq<u8>, u8)>,
    accounts: Seq<AccountSnapshot>,
    title: Seq<char>,
    rating: u8,
    description: Seq<char>,
)
    requires
        (add_refusal(found, accounts, title, rating, description) is None),
    ensures
        (Review { is_initialized: true, rating, title, description }).valid(),
        derives(found, accounts[1].key),
{
}

/// The two steps of adding a review fit together: the account that an
/// accepted instruction asks for has exactly the room that the review takes,
/// so that `PendingReview::store` accepts it, and the review is valid.
pub proof fn lemma_requested_account_takes_review(
    pending: PendingReview,
    found: Option<(Seq<u8>, u8)>,
    program_id: Seq<u8>,
    accounts: Seq<AccountSnapshot>,
    title: Seq<char>,
    rating: u8,
    description: Seq<char>,
)
    requires
        (add_refusal(found, accounts, title, rating, description) is None),
        pending.answers(
            found,
            program_id,
            accounts[0].key,
            accounts[1].key,
            title,
            rating,
            description,
        ),
    ensures
        pending.review().packed_len() == pending.allocation.space,
        pending.review().fits(pending.allocation.space as nat),
        pending.review().valid(),
{
}

/// An update of an account whose bytes do not decode as a review is refused
/// as invalid account data, whatever the rating and the description, once
/// the checks before it have passed: there are two accounts, the first has
/// signed, and the second belongs to the program.
pub proof fn lemma_update_refuses_undecodable_account(
    found: Option<(Seq<u8>, u8)>,
    program_id: Seq<u8>,
    accounts: Seq<AccountSnapshot>,
    rating: u8,
    description: Seq<char>,
)
    requires
        reads_review(program_id, accounts),
        (parse_review(accounts[1].data) is None),
    ensures
        update_refusal(found, program_id, accounts, rating, description) == Some(
            ProgramError::InvalidAccountData,
        ),
{
}

/// What an update gives and leaves in the accounts is fixed by the program,
/// the accounts, the rating and the description. The title that comes with
/// the instruction has no part in it: two updates that differ in nothing
/// else agree in their result and in the accounts they leave.
pub proof fn lemma_update_is_fixed_by_its_inputs(
    program_id: Seq<u8>,
    before: Seq<AccountSnapshot>,
    rating: u8,
    description: Seq<char>,
    first_after: Seq<AccountSnapshot>,
    first: Result<(), ProgramError>,
    second_after: Seq<AccountSnapshot>,
    second: Result<(), ProgramError>,
)
    ensures
        updates(program_id, before, first_after, rating, description, first) && updates(
            program_id,
            before,
            second_after,
            rating,
            description,
            second,
        ) ==> first == second && first_after == second_after,
{
    if updates(program_id, before, first_after, rating, description, first) && updates(
        program_id,
        before,
        second_after,
        rating,
        description,
        second,
    ) {
        let found = stored_review_address(program_id, before);
        if update_refusal(found, program_id, before, rating, description) is None {
            assert(first->Ok_0 == second->Ok_0);
        }
    }
}

/// The review that an accepted update stores is valid,/// The review that an accepted update stores is valid, fits the account and
/// has the title that was stored before.
pub proof fn lemma_updated_review_is_valid(
    found: Option<(Seq<u8>, u8)>,
    program_id: Seq<u8>,
    accounts: Seq<AccountSnapshot>,
    rating: u8,
    description: Seq<char>,
)
    requires
        (update_refusal(found, program_id, accounts, rating, description) is None),
    ensures
        (parse_review(accounts[1].data) is Some),
        ({
            let stored = parse_review(accounts[1].data)->Some_0;
            let review = updated(stored, rating, description);
            &&& stored.is_initialized
            &&& review.valid()
            &&& review.title == stored.title
            &&& review.packed_len() <= accounts[1].data.len()
            &&& derives(found, accounts[1].key)
        }),
{
}

} // verus!
