use movie_review::account::AccountInfo;
use movie_review::entrypoint::{process_instruction, Step};
use movie_review::error::ProgramError;
use movie_review::processor::{
    add_movie_review, check_data_length, check_rating, plan_review_account, update_movie_review,
    update_stored_review, PendingReview,
};
use movie_review::pubkey::{find_review_address, Pubkey};
use movie_review::state::MovieAccountState;

const INVALID_PDA: ProgramError = ProgramError::Custom(1);
const UNINITIALIZED: ProgramError = ProgramError::Custom(0);
const INVALID_DATA_LENGTH: ProgramError = ProgramError::Custom(2);
const INVALID_RATING: ProgramError = ProgramError::Custom(3);

fn pubkey(seed: u8) -> Pubkey {
    Pubkey { bytes: [seed; 32] }
}

fn program() -> Pubkey {
    pubkey(7)
}

fn critic() -> Pubkey {
    pubkey(9)
}

fn system_program() -> Pubkey {
    pubkey(0)
}

fn review_key(title: &str) -> Pubkey {
    find_review_address(&program(), &critic(), title).unwrap().0
}

fn accounts_for_add(title: &str) -> Vec<AccountInfo> {
    vec![
        AccountInfo { key: critic(), is_signer: true, owner: system_program(), data: vec![] },
        AccountInfo {
            key: review_key(title),
            is_signer: false,
            owner: system_program(),
            data: vec![],
        },
        AccountInfo { key: system_program(), is_signer: false, owner: pubkey(1), data: vec![] },
    ]
}

fn accounts_for_update(title: &str, data: Vec<u8>) -> Vec<AccountInfo> {
    vec![
        AccountInfo { key: critic(), is_signer: true, owner: system_program(), data: vec![] },
        AccountInfo { key: review_key(title), is_signer: false, owner: program(), data },
    ]
}

fn stored(rating: u8, title: &str, description: &str, capacity: usize) -> Vec<u8> {
    let state = MovieAccountState {
        is_initialized: true,
        rating,
        title: title.to_string(),
        description: description.to_string(),
    };
    let mut data = vec![0u8; capacity];
    assert!(state.serialize(&mut data).is_some());
    data
}

fn decoded(data: &[u8]) -> (bool, u8, String, String) {
    let state = MovieAccountState::try_from_slice_unchecked(data).unwrap();
    (state.is_initialized, state.rating, state.title, state.description)
}

fn create(title: &str, rating: u8, description: &str) -> Result<Vec<u8>, ProgramError> {
    let accounts = accounts_for_add(title);
    let pending =
        add_movie_review(&program(), &accounts, title.to_string(), rating, description.to_string())?;
    let mut data = vec![0u8; pending.allocation.space as usize];
    pending.store(&mut data)?;
    Ok(data)
}

fn payload(tag: u32, title: &str, rating: u8, description: &str) -> Vec<u8> {
    let mut bytes = tag.to_le_bytes().to_vec();
    bytes.extend_from_slice(&(title.len() as u32).to_le_bytes());
    bytes.extend_from_slice(title.as_bytes());
    bytes.push(rating);
    bytes.extend_from_slice(&(description.len() as u32).to_le_bytes());
    bytes.extend_from_slice(description.as_bytes());
    bytes
}

fn same_accounts(a: &[AccountInfo], b: &[AccountInfo]) -> bool {
    a.len() == b.len()
        && a.iter().zip(b).all(|(x, y)| {
            x.key == y.key && x.is_signer == y.is_signer && x.owner == y.owner && x.data == y.data
        })
}

#[test]
fn create_stores_the_review_at_its_address() {
    let accounts = accounts_for_add("Inception");
    let pending = add_movie_review(
        &program(),
        &accounts,
        "Inception".to_string(),
        5,
        "great".to_string(),
    )
    .unwrap();
    let (address, bump) = find_review_address(&program(), &critic(), "Inception").unwrap();
    assert_eq!(pending.allocation.payer, critic());
    assert_eq!(pending.allocation.address, address);
    assert_eq!(pending.allocation.owner, program());
    assert_eq!(pending.allocation.space, 24);
    assert_eq!(pending.allocation.bump_seed, bump);
    assert_eq!(pending.title, "Inception");
    assert_eq!(pending.rating, 5);
    assert_eq!(pending.description, "great");

    let mut data = vec![0u8; 24];
    assert_eq!(pending.store(&mut data), Ok(()));
    assert_eq!(decoded(&data), (true, 5, "Inception".to_string(), "great".to_string()));
}

#[test]
fn update_changes_rating_and_description() {
    let created = create("Inception", 5, "great").unwrap();
    let mut data = vec![0u8; 1000];
    data[..created.len()].copy_from_slice(&created);
    let mut accounts = accounts_for_update("Inception", data);
    let r = update_movie_review(
        &program(),
        &mut accounts,
        "Inception".to_string(),
        3,
        "rewatched, still great".to_string(),
    );
    assert_eq!(r, Ok(()));
    assert_eq!(accounts[1].data.len(), 1000);
    assert_eq!(
        decoded(&accounts[1].data),
        (true, 3, "Inception".to_string(), "rewatched, still great".to_string())
    );
}

#[test]
fn update_that_outgrows_the_account_is_refused() {
    let created = create("Inception", 5, "great").unwrap();
    assert_eq!(created.len(), 24);
    let mut accounts = accounts_for_update("Inception", created.clone());
    let r = update_movie_review(
        &program(),
        &mut accounts,
        "Inception".to_string(),
        3,
        "rewatched, still great".to_string(),
    );
    assert_eq!(r, Err(INVALID_DATA_LENGTH));
    assert_eq!(accounts[1].data, created);
}

#[test]
fn update_within_the_account_keeps_the_bytes_behind() {
    let mut accounts = accounts_for_update("Inception", stored(5, "Inception", "great", 24));
    let r = update_movie_review(&program(), &mut accounts, String::new(), 4, "ok".to_string());
    assert_eq!(r, Ok(()));
    assert_eq!(accounts[1].data.len(), 24);
    assert_eq!(decoded(&accounts[1].data), (true, 4, "Inception".to_string(), "ok".to_string()));
    assert_eq!(&accounts[1].data[21..], b"eat");
}

#[test]
fn update_with_rating_seven_leaves_the_review() {
    let created = create("Inception", 5, "great").unwrap();
    let mut accounts = accounts_for_update("Inception", created.clone());
    let before = accounts.clone();
    let r = update_movie_review(&program(), &mut accounts, "Inception".to_string(), 7, "x".to_string());
    assert_eq!(r, Err(INVALID_RATING));
    assert!(same_accounts(&accounts, &before));
    assert_eq!(decoded(&accounts[1].data), (true, 5, "Inception".to_string(), "great".to_string()));
}

#[test]
fn create_of_1001_bytes_is_refused() {
    let description = "d".repeat(1001 - 10 - "Inception".len());
    let accounts = accounts_for_add("Inception");
    let r = add_movie_review(&program(), &accounts, "Inception".to_string(), 5, description);
    assert_eq!(r.err(), Some(INVALID_DATA_LENGTH));

    let title = "t".repeat(991);
    let target = pubkey(42);
    let r = plan_review_account(
        Some((target, 255)),
        &program(),
        &critic(),
        &target,
        title,
        5,
        String::new(),
    );
    assert_eq!(r.err(), Some(INVALID_DATA_LENGTH));
}

#[test]
fn create_of_exactly_1000_bytes_succeeds() {
    let description = "d".repeat(1000 - 10 - "Inception".len());
    let accounts = accounts_for_add("Inception");
    let pending =
        add_movie_review(&program(), &accounts, "Inception".to_string(), 5, description.clone())
            .unwrap();
    assert_eq!(pending.allocation.space, 1000);
    let mut data = vec![0u8; 1000];
    assert_eq!(pending.store(&mut data), Ok(()));
    assert_eq!(decoded(&data), (true, 5, "Inception".to_string(), description));

    let target = pubkey(42);
    let r = plan_review_account(
        Some((target, 255)),
        &program(),
        &critic(),
        &target,
        "t".repeat(990),
        1,
        String::new(),
    );
    assert_eq!(r.unwrap().allocation.space, 1000);
}

#[test]
fn update_to_exactly_1000_bytes_succeeds_and_1001_is_refused() {
    let mut accounts = accounts_for_update("Inception", stored(5, "Inception", "great", 1200));
    let fits = "d".repeat(981);
    let r = update_movie_review(&program(), &mut accounts, String::new(), 5, fits.clone());
    assert_eq!(r, Ok(()));
    assert_eq!(decoded(&accounts[1].data), (true, 5, "Inception".to_string(), fits.clone()));
    let before = accounts.clone();
    let r = update_movie_review(&program(), &mut accounts, String::new(), 5, "d".repeat(982));
    assert_eq!(r, Err(INVALID_DATA_LENGTH));
    assert!(same_accounts(&accounts, &before));
}

#[test]
fn create_with_rating_out_of_range_is_refused() {
    for rating in [0u8, 6, 7, 100, 255] {
        let accounts = accounts_for_add("Inception");
        let r = add_movie_review(
            &program(),
            &accounts,
            "Inception".to_string(),
            rating,
            "great".to_string(),
        );
        assert_eq!(r.err(), Some(INVALID_RATING), "rating {}", rating);
    }
    for rating in 1u8..=5 {
        assert!(create("Inception", rating, "great").is_ok(), "rating {}", rating);
    }
}

#[test]
fn create_checks_the_rating_before_the_length() {
    let accounts = accounts_for_add("Inception");
    let r = add_movie_review(&program(), &accounts, "Inception".to_string(), 0, "d".repeat(2000));
    assert_eq!(r.err(), Some(INVALID_RATING));
}

#[test]
fn update_with_rating_out_of_range_is_refused() {
    for rating in [0u8, 6, 255] {
        let mut accounts = accounts_for_update("Inception", stored(5, "Inception", "great", 100));
        let before = accounts.clone();
        let r = update_movie_review(&program(), &mut accounts, String::new(), rating, "ok".to_string());
        assert_eq!(r, Err(INVALID_RATING), "rating {}", rating);
        assert!(same_accounts(&accounts, &before));
    }
    for rating in 1u8..=5 {
        let mut accounts = accounts_for_update("Inception", stored(5, "Inception", "great", 100));
        let r = update_movie_review(&program(), &mut accounts, String::new(), rating, "ok".to_string());
        assert_eq!(r, Ok(()));
        assert_eq!(decoded(&accounts[1].data).1, rating);
    }
}

#[test]
fn update_at_another_address_is_refused() {
    let mut accounts = accounts_for_update("Inception", stored(5, "Inception", "great", 100));
    accounts[1].key = review_key("Interstellar");
    let before = accounts.clone();
    let r = update_movie_review(&program(), &mut accounts, "Inception".to_string(), 3, "ok".to_string());
    assert_eq!(r, Err(INVALID_PDA));
    assert!(same_accounts(&accounts, &before));

    let mut accounts = accounts_for_update("Inception", stored(5, "Inception", "great", 100));
    accounts[0].key = pubkey(10);
    let r = update_movie_review(&program(), &mut accounts, "Inception".to_string(), 3, "ok".to_string());
    assert_eq!(r, Err(INVALID_PDA));
}

#[test]
fn update_checks_the_address_before_everything_stored() {
    let mut accounts = accounts_for_update("Inception", vec![0u8; 24]);
    let r = update_movie_review(&program(), &mut accounts, String::new(), 9, "d".repeat(2000));
    assert_eq!(r, Err(INVALID_PDA));
}

#[test]
fn update_of_zeroed_account_is_refused_as_uninitialized() {
    for capacity in [10usize, 24, 1000] {
        let mut accounts = accounts_for_update("", vec![0u8; capacity]);
        let r = update_movie_review(&program(), &mut accounts, String::new(), 3, "ok".to_string());
        assert_eq!(r, Err(UNINITIALIZED));
        assert_eq!(accounts[1].data, vec![0u8; capacity]);
    }
}

#[test]
fn update_checks_initialization_before_rating_and_length() {
    let mut accounts = accounts_for_update("", vec![0u8; 24]);
    let r = update_movie_review(&program(), &mut accounts, String::new(), 0, "d".repeat(2000));
    assert_eq!(r, Err(UNINITIALIZED));
}

#[test]
fn update_ignores_the_title_of_the_instruction() {
    let mut accounts = accounts_for_update("Inception", stored(5, "Inception", "great", 100));
    let r = update_movie_review(&program(), &mut accounts, "Interstellar".to_string(), 2, "meh".to_string());
    assert_eq!(r, Ok(()));
    assert_eq!(decoded(&accounts[1].data), (true, 2, "Inception".to_string(), "meh".to_string()));
}

#[test]
fn update_changes_only_the_bytes_of_the_review_account() {
    let mut accounts = accounts_for_update("Inception", stored(5, "Inception", "great", 100));
    accounts[0].data = vec![1, 2, 3];
    let before = accounts.clone();
    let r = update_movie_review(&program(), &mut accounts, String::new(), 1, "fine".to_string());
    assert_eq!(r, Ok(()));
    assert_eq!(accounts.len(), 2);
    assert_eq!(accounts[0].data, vec![1, 2, 3]);
    assert!(accounts[0].key == before[0].key && accounts[0].is_signer);
    assert!(accounts[1].key == before[1].key && accounts[1].owner == before[1].owner);
    assert!(accounts[1].data != before[1].data);
}

#[test]
fn missing_signature_is_refused_first() {
    let mut accounts = accounts_for_add("Inception");
    accounts[0].is_signer = false;
    accounts[1].key = pubkey(3);
    let r = add_movie_review(&program(), &accounts, "Inception".to_string(), 0, "great".to_string());
    assert_eq!(r.err(), Some(ProgramError::MissingRequiredSignature));

    let mut accounts = accounts_for_update("Inception", stored(5, "Inception", "great", 100));
    accounts[0].is_signer = false;
    accounts[1].owner = pubkey(3);
    let r = update_movie_review(&program(), &mut accounts, String::new(), 0, "ok".to_string());
    assert_eq!(r, Err(ProgramError::MissingRequiredSignature));
}

#[test]
fn too_few_accounts_are_refused() {
    for n in 0..3usize {
        let mut accounts = accounts_for_add("Inception");
        accounts.truncate(n);
        let r = add_movie_review(&program(), &accounts, "Inception".to_string(), 5, "great".to_string());
        assert_eq!(r.err(), Some(ProgramError::NotEnoughAccountKeys));
    }
    for n in 0..2usize {
        let mut accounts = accounts_for_update("Inception", stored(5, "Inception", "great", 100));
        accounts.truncate(n);
        let r = update_movie_review(&program(), &mut accounts, String::new(), 5, "ok".to_string());
        assert_eq!(r, Err(ProgramError::NotEnoughAccountKeys));
    }
}

#[test]
fn account_of_another_program_is_not_updated() {
    let mut accounts = accounts_for_update("Inception", stored(5, "Inception", "great", 100));
    accounts[1].owner = system_program();
    let before = accounts.clone();
    let r = update_movie_review(&program(), &mut accounts, String::new(), 3, "ok".to_string());
    assert_eq!(r, Err(ProgramError::IllegalOwner));
    assert!(same_accounts(&accounts, &before));

    let mut foreign = accounts_for_update("Inception", vec![0xff, 0xff, 0xff]);
    foreign[1].owner = system_program();
    let r = update_movie_review(&program(), &mut foreign, String::new(), 3, "ok".to_string());
    assert_eq!(r, Err(ProgramError::IllegalOwner));
}

#[test]
fn create_at_another_address_is_an_invalid_argument() {
    let mut accounts = accounts_for_add("Inception");
    accounts[1].key = review_key("Interstellar");
    let r = add_movie_review(&program(), &accounts, "Inception".to_string(), 5, "great".to_string());
    assert_eq!(r.err(), Some(ProgramError::InvalidArgument));

    let r = plan_review_account(
        None,
        &program(),
        &critic(),
        &pubkey(42),
        "Inception".to_string(),
        5,
        "great".to_string(),
    );
    assert_eq!(r.err(), Some(ProgramError::InvalidArgument));
}

#[test]
fn create_with_a_title_too_long_for_a_seed_is_an_invalid_argument() {
    let title = "t".repeat(33);
    let mut accounts = accounts_for_add("Inception");
    accounts[1].key = pubkey(42);
    let r = add_movie_review(&program(), &accounts, title, 5, "great".to_string());
    assert_eq!(r.err(), Some(ProgramError::InvalidArgument));
}

#[test]
fn store_refuses_an_account_that_is_too_small() {
    let accounts = accounts_for_add("Inception");
    let pending: PendingReview =
        add_movie_review(&program(), &accounts, "Inception".to_string(), 5, "great".to_string())
            .unwrap();
    let mut data = vec![0u8; 23];
    assert_eq!(pending.clone().store(&mut data), Err(INVALID_DATA_LENGTH));
    assert_eq!(data, vec![0u8; 23]);
    let mut roomy = vec![0u8; 30];
    assert_eq!(pending.store(&mut roomy), Ok(()));
    assert_eq!(decoded(&roomy), (true, 5, "Inception".to_string(), "great".to_string()));
    assert_eq!(&roomy[24..], &[0u8; 6]);
}

#[test]
fn stored_review_is_updated_for_a_given_derivation() {
    let target = pubkey(42);
    let state = MovieAccountState {
        is_initialized: true,
        rating: 5,
        title: "a title that is longer than thirty-two bytes".to_string(),
        description: "great".to_string(),
    };
    let mut data = vec![0u8; 100];
    let r = update_stored_review(Some((target, 1)), &target, state.clone(), 2, "ok".to_string(), &mut data);
    assert_eq!(r, Ok(()));
    assert_eq!(
        decoded(&data),
        (true, 2, "a title that is longer than thirty-two bytes".to_string(), "ok".to_string())
    );

    let mut untouched = vec![3u8; 100];
    let r = update_stored_review(Some((pubkey(41), 1)), &target, state.clone(), 2, "ok".to_string(), &mut untouched);
    assert_eq!(r, Err(INVALID_PDA));
    let r = update_stored_review(None, &target, state.clone(), 2, "ok".to_string(), &mut untouched);
    assert_eq!(r, Err(INVALID_PDA));
    let mut fresh = state.clone();
    fresh.is_initialized = false;
    let r = update_stored_review(Some((target, 1)), &target, fresh, 2, "ok".to_string(), &mut untouched);
    assert_eq!(r, Err(UNINITIALIZED));
    let r = update_stored_review(Some((target, 1)), &target, state.clone(), 6, "ok".to_string(), &mut untouched);
    assert_eq!(r, Err(INVALID_RATING));
    let r = update_stored_review(Some((target, 1)), &target, state, 5, "d".repeat(947), &mut untouched);
    assert_eq!(r, Err(INVALID_DATA_LENGTH));
    assert_eq!(untouched, vec![3u8; 100]);
}

#[test]
fn rating_check_accepts_one_to_five() {
    assert_eq!(check_rating(0), Err(INVALID_RATING));
    for rating in 1u8..=5 {
        assert_eq!(check_rating(rating), Ok(()));
    }
    for rating in 6u8..=255 {
        assert_eq!(check_rating(rating), Err(INVALID_RATING));
    }
}

#[test]
fn length_check_gives_the_encoded_length() {
    assert_eq!(check_data_length("Inception", "great"), Ok(24));
    assert_eq!(check_data_length("", ""), Ok(10));
    assert_eq!(check_data_length("Inception", &"d".repeat(981)), Ok(1000));
    assert_eq!(check_data_length("Inception", &"d".repeat(982)), Err(INVALID_DATA_LENGTH));
    assert_eq!(check_data_length("é", ""), Ok(12));
}

#[test]
fn instruction_to_add_asks_for_the_account() {
    let mut accounts = accounts_for_add("Inception");
    let before = accounts.clone();
    let step = process_instruction(&program(), &mut accounts, &payload(0, "Inception", 5, "great")).unwrap();
    assert!(same_accounts(&accounts, &before));
    match step {
        Step::Allocate(pending) => {
            assert_eq!(pending.allocation.address, review_key("Inception"));
            assert_eq!(pending.allocation.space, 24);
            let mut data = vec![0u8; 24];
            assert_eq!(pending.store(&mut data), Ok(()));
            assert_eq!(decoded(&data), (true, 5, "Inception".to_string(), "great".to_string()));
        }
        Step::Done => panic!("an added review needs its account"),
    }
}

#[test]
fn instruction_to_update_is_carried_out() {
    let mut accounts = accounts_for_update("Inception", stored(5, "Inception", "great", 100));
    let step = process_instruction(&program(), &mut accounts, &payload(1, "ignored", 3, "again")).unwrap();
    assert!(matches!(step, Step::Done));
    assert_eq!(decoded(&accounts[1].data), (true, 3, "Inception".to_string(), "again".to_string()));
}

#[test]
fn instruction_that_cannot_be_decoded_changes_nothing() {
    let mut accounts = accounts_for_update("Inception", stored(5, "Inception", "great", 100));
    let before = accounts.clone();
    let r = process_instruction(&program(), &mut accounts, &payload(2, "Inception", 3, "again"));
    assert_eq!(r.err(), Some(ProgramError::Custom(4)));
    let r = process_instruction(&program(), &mut accounts, &[1, 0, 0]);
    assert_eq!(r.err(), Some(ProgramError::Custom(5)));
    let r = process_instruction(&program(), &mut accounts, &[]);
    assert_eq!(r.err(), Some(ProgramError::Custom(5)));
    assert!(same_accounts(&accounts, &before));
}

#[test]
fn instruction_errors_come_from_the_operation() {
    let mut accounts = accounts_for_update("Inception", stored(5, "Inception", "great", 100));
    let r = process_instruction(&program(), &mut accounts, &payload(1, "Inception", 7, "x"));
    assert_eq!(r.err(), Some(INVALID_RATING));
    let mut accounts = accounts_for_add("Inception");
    let r = process_instruction(&program(), &mut accounts, &payload(0, "Inception", 6, "x"));
    assert_eq!(r.err(), Some(INVALID_RATING));
    accounts[0].is_signer = false;
    let r = process_instruction(&program(), &mut accounts, &payload(0, "Inception", 5, "x"));
    assert_eq!(r.err(), Some(ProgramError::MissingRequiredSignature));
}

#[test]
fn create_then_update_then_read() {
    let created = create("Amélie", 4, "charmant").unwrap();
    assert_eq!(created.len(), 10 + 7 + 8);
    let mut accounts = accounts_for_update("Amélie", created);
    let r = update_movie_review(&program(), &mut accounts, String::new(), 5, "parfait".to_string());
    assert_eq!(r, Ok(()));
    assert_eq!(decoded(&accounts[1].data), (true, 5, "Amélie".to_string(), "parfait".to_string()));
}

#[test]
fn update_of_an_account_that_holds_no_review_is_refused() {
    let broken: Vec<Vec<u8>> = vec![
        vec![],
        vec![0u8; 9],
        vec![2, 0, 0, 0, 0, 0, 0, 0, 0, 0],
        vec![1, 5, 9, 0, 0, 0, b'I', b'n', b'c', b'e'],
        vec![1, 5, 1, 0, 0, 0, 0xff, 0, 0, 0, 0],
        vec![1, 5, 0, 0, 0, 0, 0xff, 0xff, 0xff, 0xff, b'a'],
        vec![0xff; 64],
    ];
    for data in broken {
        let mut accounts = accounts_for_update("Inception", data.clone());
        let before = accounts.clone();
        for rating in [0u8, 3, 7] {
            let r = update_movie_review(
                &program(),
                &mut accounts,
                "Inception".to_string(),
                rating,
                "ok".to_string(),
            );
            assert_eq!(r, Err(ProgramError::InvalidAccountData), "data {:?}", data);
            assert!(same_accounts(&accounts, &before));
        }
        let r = process_instruction(&program(), &mut accounts, &payload(1, "Inception", 3, "ok"));
        assert_eq!(r.err(), Some(ProgramError::InvalidAccountData));
        assert!(same_accounts(&accounts, &before));
    }
}

#[test]
fn update_checks_signer_and_owner_before_the_stored_bytes() {
    let mut accounts = accounts_for_update("Inception", vec![0xff; 5]);
    accounts[0].is_signer = false;
    let r = update_movie_review(&program(), &mut accounts, String::new(), 3, "ok".to_string());
    assert_eq!(r, Err(ProgramError::MissingRequiredSignature));
    accounts[0].is_signer = true;
    accounts[1].owner = system_program();
    let r = update_movie_review(&program(), &mut accounts, String::new(), 3, "ok".to_string());
    assert_eq!(r, Err(ProgramError::IllegalOwner));
    accounts[1].owner = program();
    let r = update_movie_review(&program(), &mut accounts, String::new(), 3, "ok".to_string());
    assert_eq!(r, Err(ProgramError::InvalidAccountData));
}

#[test]
fn updates_that_differ_only_in_the_title_agree() {
    let cases: Vec<(Vec<u8>, u8, String)> = vec![
        (stored(5, "Inception", "great", 100), 3, "rewatched".to_string()),
        (stored(5, "Inception", "great", 24), 3, "rewatched, still great".to_string()),
        (stored(5, "Inception", "great", 100), 7, "x".to_string()),
        (vec![0u8; 24], 3, "x".to_string()),
        (vec![0xff; 24], 3, "x".to_string()),
    ];
    for (data, rating, description) in cases {
        let mut first = accounts_for_update("Inception", data.clone());
        let mut second = accounts_for_update("Inception", data);
        let a = update_movie_review(
            &program(),
            &mut first,
            "Inception".to_string(),
            rating,
            description.clone(),
        );
        let b = update_movie_review(
            &program(),
            &mut second,
            "Other".to_string(),
            rating,
            description,
        );
        assert_eq!(a, b);
        assert!(same_accounts(&first, &second));
    }
}

#[test]
fn update_instruction_does_what_the_update_does() {
    let cases: Vec<(Vec<u8>, u8, &str)> = vec![
        (stored(5, "Inception", "great", 100), 3, "again"),
        (stored(5, "Inception", "great", 100), 0, "again"),
        (stored(5, "Inception", "great", 24), 3, "rewatched, still great"),
        (vec![0xff; 24], 3, "again"),
        (vec![], 3, "again"),
    ];
    for (data, rating, description) in cases {
        let mut by_instruction = accounts_for_update("Inception", data.clone());
        let mut by_call = accounts_for_update("Inception", data);
        let a = process_instruction(
            &program(),
            &mut by_instruction,
            &payload(1, "Inception", rating, description),
        );
        let b = update_movie_review(
            &program(),
            &mut by_call,
            "Inception".to_string(),
            rating,
            description.to_string(),
        );
        match (a, b) {
            (Ok(Step::Done), Ok(())) => {}
            (Err(x), Err(y)) => assert_eq!(x, y),
            (a, b) => panic!("{:?} against {:?}", a, b),
        }
        assert!(same_accounts(&by_instruction, &by_call));
    }
}

#[test]
fn every_instruction_is_answered() {
    let payloads: Vec<Vec<u8>> = vec![
        vec![],
        vec![0xff; 3],
        vec![0xff; 40],
        payload(0, "Inception", 5, "great"),
        payload(1, "Inception", 5, "great"),
        payload(1, "", 0, ""),
        payload(7, "Inception", 5, "great"),
        payload(0, &"t".repeat(2000), 200, &"d".repeat(2000)),
    ];
    let tables: Vec<Vec<AccountInfo>> = vec![
        vec![],
        accounts_for_add("Inception"),
        accounts_for_update("Inception", vec![]),
        accounts_for_update("Inception", vec![0xff; 7]),
        accounts_for_update("Inception", vec![0u8; 10]),
        accounts_for_update("Inception", stored(5, "Inception", "great", 24)),
        accounts_for_update("", vec![1u8; 1000]),
    ];
    for bytes in &payloads {
        for table in &tables {
            let mut accounts = table.clone();
            let r = process_instruction(&program(), &mut accounts, bytes);
            assert_eq!(accounts.len(), table.len());
            if r.is_err() {
                assert!(same_accounts(&accounts, table));
            }
        }
    }
}

#[test]
fn store_does_not_read_what_the_account_held() {
    let accounts = accounts_for_add("Inception");
    let pending =
        add_movie_review(&program(), &accounts, "Inception".to_string(), 5, "great".to_string())
            .unwrap();
    let mut data = vec![0xffu8; 24];
    assert_eq!(pending.store(&mut data), Ok(()));
    assert_eq!(decoded(&data), (true, 5, "Inception".to_string(), "great".to_string()));
}
