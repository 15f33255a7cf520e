use movie_review::account::{Account, AllocationRequest, Step};
use movie_review::address::{
    comment_seed_parts, counter_seed_parts, derive_address, review_seed_parts, with_bump, Address,
};
use movie_review::error::ReviewError;
use movie_review::processor::{
    add_comment, add_movie_review, process_instruction, update_movie_review,
};
use movie_review::state::{
    MovieAccountState, MovieComment, MovieCommentCounter, COUNTER_BUDGET, RECORD_BUDGET,
};

fn address(fill: u8) -> Address {
    Address { bytes: [fill; 32] }
}

fn program() -> Address {
    address(7)
}

fn nobody() -> Address {
    address(0)
}

fn person(fill: u8) -> Account {
    Account { key: address(fill), owner: nobody(), is_signer: true, data: Vec::new() }
}

fn absent(key: Address) -> Account {
    Account { key, owner: nobody(), is_signer: false, data: Vec::new() }
}

fn review_key(author: &Account, title: &str) -> Address {
    derive_address(&review_seed_parts(&author.key, title), &program()).unwrap().0
}

fn counter_key(review: &Address) -> Address {
    derive_address(&counter_seed_parts(review), &program()).unwrap().0
}

fn comment_key(review: &Address, count: u64) -> Address {
    derive_address(&comment_seed_parts(review, count), &program()).unwrap().0
}

fn review_accounts(author: &Account, title: &str) -> Vec<Account> {
    let review = review_key(author, title);
    vec![author.clone(), absent(review), absent(counter_key(&review)), absent(nobody())]
}

fn comment_accounts(
    commenter: &Account,
    review: &Account,
    counter: &Account,
    count: u64,
) -> Vec<Account> {
    vec![
        commenter.clone(),
        review.clone(),
        counter.clone(),
        absent(comment_key(&review.key, count)),
        absent(nobody()),
    ]
}

fn add_request(title: &str, rating: u8, description: &str) -> Vec<u8> {
    borsh::to_vec(&(0u8, title, rating, description)).unwrap()
}

fn update_request(title: &str, rating: u8, description: &str) -> Vec<u8> {
    borsh::to_vec(&(1u8, title, rating, description)).unwrap()
}

fn comment_request(comment: &str) -> Vec<u8> {
    borsh::to_vec(&(2u8, comment)).unwrap()
}

#[derive(Debug, PartialEq)]
enum Failure {
    Refused(ReviewError),
    NoStorage(Address),
}

/// Runs a request as a host would: it creates the storage that the request
/// asks for, unless `allow` says no, and runs the request again.
fn run(
    accounts: &Vec<Account>,
    data: &[u8],
    allow: &dyn Fn(&AllocationRequest) -> bool,
) -> Result<Vec<Account>, Failure> {
    let mut granted = 0;
    loop {
        match process_instruction(&program(), accounts, data, granted) {
            Err(e) => return Err(Failure::Refused(e)),
            Ok(Step::Done(after)) => return Ok(after),
            Ok(Step::Allocate(request)) => {
                if !allow(&request) {
                    return Err(Failure::NoStorage(request.account));
                }
                granted += 1;
                assert!(granted <= 2);
            }
        }
    }
}

fn complete(accounts: &Vec<Account>, data: &[u8]) -> Result<Vec<Account>, Failure> {
    run(accounts, data, &|_| true)
}

fn created_review(author: &Account, title: &str, rating: u8, description: &str) -> Vec<Account> {
    complete(&review_accounts(author, title), &add_request(title, rating, description)).unwrap()
}

fn refused(e: ReviewError) -> Result<Vec<Account>, Failure> {
    Err(Failure::Refused(e))
}

#[test]
fn budgets() {
    assert_eq!(RECORD_BUDGET, 1000);
    assert_eq!(COUNTER_BUDGET, 20);
}

#[test]
fn creation_asks_for_the_review_storage_first() {
    let alice = person(1);
    let accounts = review_accounts(&alice, "Inception");
    let step = add_movie_review(
        &program(),
        &accounts,
        "Inception".to_string(),
        5,
        "great movie".to_string(),
        0,
    );
    let seeds = review_seed_parts(&alice.key, "Inception");
    let (key, bump) = derive_address(&seeds, &program()).unwrap();
    assert_eq!(
        step,
        Ok(Step::Allocate(AllocationRequest {
            payer: alice.key,
            account: key,
            space: 1000,
            owner: program(),
            seeds: with_bump(seeds, bump),
        }))
    );
}

#[test]
fn creation_asks_for_the_counter_storage_second() {
    let alice = person(1);
    let accounts = review_accounts(&alice, "Inception");
    let step = add_movie_review(
        &program(),
        &accounts,
        "Inception".to_string(),
        5,
        "great movie".to_string(),
        1,
    );
    let seeds = counter_seed_parts(&accounts[1].key);
    let (key, bump) = derive_address(&seeds, &program()).unwrap();
    assert_eq!(
        step,
        Ok(Step::Allocate(AllocationRequest {
            payer: alice.key,
            account: key,
            space: 20,
            owner: program(),
            seeds: with_bump(seeds, bump),
        }))
    );
}

#[test]
fn creation_writes_the_review_and_a_counter_at_zero() {
    let alice = person(1);
    let before = review_accounts(&alice, "Inception");
    let after = created_review(&alice, "Inception", 5, "great movie");
    assert_eq!(after.len(), 4);
    assert_eq!(after[0], before[0]);
    assert_eq!(after[3], before[3]);
    assert_eq!(after[1].key, before[1].key);
    assert_eq!(after[1].owner, program());
    assert_eq!(after[1].data.len(), 1000);
    assert_eq!(after[2].key, before[2].key);
    assert_eq!(after[2].owner, program());
    assert_eq!(after[2].data.len(), 20);
    assert_eq!(
        MovieAccountState::unpack(&after[1].data),
        Ok(Some(MovieAccountState {
            reviewer: alice.key,
            rating: 5,
            title: "Inception".to_string(),
            description: "great movie".to_string(),
        }))
    );
    assert_eq!(
        MovieCommentCounter::unpack(&after[2].data),
        Ok(Some(MovieCommentCounter { counter: 0 }))
    );
}

#[test]
fn creation_leaves_the_borsh_form_followed_by_zeros() {
    let alice = person(1);
    let after = created_review(&alice, "Inception", 5, "great movie");
    let record =
        borsh::to_vec(&("review", true, [1u8; 32], 5u8, "Inception", "great movie")).unwrap();
    assert_eq!(&after[1].data[..record.len()], &record[..]);
    assert!(after[1].data[record.len()..].iter().all(|byte| *byte == 0));
    assert_eq!(after[2].data, borsh::to_vec(&("counter", true, 0u64)).unwrap());
}

#[test]
fn creation_completes_with_more_allocations_granted_than_needed() {
    let alice = person(1);
    let accounts = review_accounts(&alice, "Inception");
    let title = "Inception".to_string();
    let two = add_movie_review(&program(), &accounts, title.clone(), 5, String::new(), 2);
    let nine = add_movie_review(&program(), &accounts, title, 5, String::new(), 9);
    assert!(matches!(two, Ok(Step::Done(_))));
    assert_eq!(two, nine);
}

#[test]
fn creation_does_not_change_the_accounts_it_was_given() {
    let alice = person(1);
    let accounts = review_accounts(&alice, "Inception");
    let copy = accounts.clone();
    let _ = complete(&accounts, &add_request("Inception", 5, "great movie")).unwrap();
    assert_eq!(accounts, copy);
}

#[test]
fn ratings_zero_and_six_are_refused_on_creation() {
    let alice = person(1);
    let accounts = review_accounts(&alice, "Inception");
    for rating in [0u8, 6, 7, 255] {
        assert_eq!(
            complete(&accounts, &add_request("Inception", rating, "great movie")),
            refused(ReviewError::InvalidRating)
        );
    }
}

#[test]
fn ratings_one_to_five_are_accepted_on_creation() {
    let alice = person(1);
    for rating in 1u8..=5 {
        let after = created_review(&alice, "Inception", rating, "great movie");
        assert_eq!(MovieAccountState::unpack(&after[1].data).unwrap().unwrap().rating, rating);
    }
}

#[test]
fn ratings_zero_and_six_are_refused_on_update() {
    let alice = person(1);
    let after = created_review(&alice, "Inception", 5, "great movie");
    for rating in [0u8, 6] {
        assert_eq!(
            complete(&after, &update_request("Inception", rating, "changed")),
            refused(ReviewError::InvalidRating)
        );
    }
}

#[test]
fn ratings_one_and_five_are_accepted_on_update() {
    let alice = person(1);
    let after = created_review(&alice, "Inception", 3, "great movie");
    for rating in [1u8, 5] {
        let updated = complete(&after, &update_request("Inception", rating, "changed")).unwrap();
        assert_eq!(MovieAccountState::unpack(&updated[1].data).unwrap().unwrap().rating, rating);
    }
}

#[test]
fn update_replaces_rating_and_description() {
    let alice = person(1);
    let after = created_review(&alice, "Inception", 5, "great movie");
    let updated = complete(&after, &update_request("Inception", 2, "too long")).unwrap();
    assert_eq!(updated.len(), after.len());
    assert_eq!(updated[0], after[0]);
    assert_eq!(updated[2], after[2]);
    assert_eq!(updated[3], after[3]);
    assert_eq!(updated[1].key, after[1].key);
    assert_eq!(updated[1].owner, program());
    assert_eq!(updated[1].data.len(), 1000);
    assert_eq!(
        MovieAccountState::unpack(&updated[1].data),
        Ok(Some(MovieAccountState {
            reviewer: alice.key,
            rating: 2,
            title: "Inception".to_string(),
            description: "too long".to_string(),
        }))
    );
}

#[test]
fn update_keeps_what_lies_behind_the_new_record() {
    let alice = person(1);
    let after = created_review(&alice, "Inception", 5, "a long description");
    let updated = complete(&after, &update_request("Inception", 5, "short")).unwrap();
    let record = borsh::to_vec(&("review", true, [1u8; 32], 5u8, "Inception", "short")).unwrap();
    assert_eq!(&updated[1].data[..record.len()], &record[..]);
    assert_eq!(&updated[1].data[record.len()..], &after[1].data[record.len()..]);
}

#[test]
fn update_needs_only_the_updater_and_the_review() {
    let alice = person(1);
    let after = created_review(&alice, "Inception", 5, "great movie");
    let two = vec![after[0].clone(), after[1].clone()];
    let step =
        update_movie_review(&program(), &two, "Inception".to_string(), 4, "fine".to_string());
    match step {
        Ok(Step::Done(updated)) => {
            assert_eq!(updated.len(), 2);
            assert_eq!(MovieAccountState::unpack(&updated[1].data).unwrap().unwrap().rating, 4);
        }
        other => panic!("unexpected step {:?}", other),
    }
}

#[test]
fn update_under_another_title_fails_with_invalid_address() {
    let alice = person(1);
    let after = created_review(&alice, "Inception", 5, "great movie");
    assert_eq!(
        complete(&after, &update_request("Interstellar", 5, "great movie")),
        refused(ReviewError::InvalidAddress)
    );
    assert_eq!(
        complete(&after, &update_request("inception", 5, "great movie")),
        refused(ReviewError::InvalidAddress)
    );
}

#[test]
fn update_by_another_signer_fails_with_invalid_address() {
    let alice = person(1);
    let after = created_review(&alice, "Inception", 5, "great movie");
    let mut accounts = after.clone();
    accounts[0] = person(2);
    assert_eq!(
        complete(&accounts, &update_request("Inception", 1, "bad")),
        refused(ReviewError::InvalidAddress)
    );
}

#[test]
fn creating_a_review_twice_fails_with_already_initialized() {
    let alice = person(1);
    let after = created_review(&alice, "Inception", 5, "great movie");
    assert_eq!(
        complete(&after, &add_request("Inception", 5, "great movie")),
        refused(ReviewError::AlreadyInitialized)
    );
    assert_eq!(
        complete(&after, &add_request("Inception", 1, "something else")),
        refused(ReviewError::AlreadyInitialized)
    );
    for granted in 0..4 {
        assert_eq!(
            add_movie_review(
                &program(),
                &after,
                "Inception".to_string(),
                5,
                "great movie".to_string(),
                granted
            ),
            Err(ReviewError::AlreadyInitialized)
        );
    }
}

#[test]
fn creation_fails_when_only_the_counter_exists() {
    let alice = person(1);
    let after = created_review(&alice, "Inception", 5, "great movie");
    let mut accounts = review_accounts(&alice, "Inception");
    accounts[2] = after[2].clone();
    assert_eq!(
        complete(&accounts, &add_request("Inception", 5, "great movie")),
        Err(Failure::Refused(ReviewError::AlreadyInitialized))
    );
}

#[test]
fn failed_counter_creation_leaves_no_review_behind() {
    let alice = person(1);
    let mut accounts = review_accounts(&alice, "Inception");
    accounts[1].owner = program();
    accounts[2].owner = program();
    let counter = accounts[2].key;
    let outcome = run(&accounts, &add_request("Inception", 5, "great movie"), &|request| {
        request.account != counter
    });
    assert_eq!(outcome, Err(Failure::NoStorage(counter)));
    assert_eq!(MovieAccountState::unpack(&accounts[1].data), Ok(None));
    assert_eq!(
        complete(&accounts, &update_request("Inception", 5, "great movie")),
        refused(ReviewError::UninitializedAccount)
    );
    assert!(complete(&accounts, &add_request("Inception", 5, "great movie")).is_ok());
}

#[test]
fn failed_review_creation_leaves_nothing_behind() {
    let alice = person(1);
    let accounts = review_accounts(&alice, "Inception");
    let review = accounts[1].key;
    let outcome = run(&accounts, &add_request("Inception", 5, "great movie"), &|_| false);
    assert_eq!(outcome, Err(Failure::NoStorage(review)));
    assert_eq!(accounts, review_accounts(&alice, "Inception"));
}

#[test]
fn accounts_are_handed_back_only_when_both_records_exist() {
    let alice = person(1);
    let accounts = review_accounts(&alice, "Inception");
    for granted in 0..2 {
        let step = add_movie_review(
            &program(),
            &accounts,
            "Inception".to_string(),
            5,
            "great movie".to_string(),
            granted,
        );
        assert!(matches!(step, Ok(Step::Allocate(_))));
    }
}

#[test]
fn review_of_exactly_the_budget_is_accepted() {
    let alice = person(1);
    let description = "d".repeat(1000 - 52 - "Inception".len());
    assert_eq!(MovieAccountState::get_account_size("Inception", &description), 1000);
    let after = created_review(&alice, "Inception", 5, &description);
    assert_eq!(after[1].data.len(), 1000);
    assert_eq!(
        MovieAccountState::unpack(&after[1].data).unwrap().unwrap().description,
        description
    );
    assert_eq!(after[1].data[999], b'd');
}

#[test]
fn review_one_byte_under_the_budget_is_accepted() {
    let alice = person(1);
    let description = "d".repeat(1000 - 52 - "Inception".len() - 1);
    let after = created_review(&alice, "Inception", 5, &description);
    assert_eq!(
        MovieAccountState::unpack(&after[1].data).unwrap().unwrap().description,
        description
    );
    assert_eq!(after[1].data[999], 0);
}

#[test]
fn review_one_byte_over_the_budget_is_refused() {
    let alice = person(1);
    let description = "d".repeat(1000 - 52 - "Inception".len() + 1);
    assert_eq!(
        complete(&review_accounts(&alice, "Inception"), &add_request("Inception", 5, &description)),
        refused(ReviewError::InvalidDataLength)
    );
    let after = created_review(&alice, "Inception", 5, "great movie");
    assert_eq!(
        complete(&after, &update_request("Inception", 5, &description)),
        refused(ReviewError::InvalidDataLength)
    );
}

#[test]
fn update_to_exactly_the_budget_is_accepted() {
    let alice = person(1);
    let after = created_review(&alice, "Inception", 5, "great movie");
    let description = "é".repeat((1000 - 52 - "Inception".len()) / 2) + "d";
    assert_eq!(MovieAccountState::get_account_size("Inception", &description), 1000);
    let updated = complete(&after, &update_request("Inception", 5, &description)).unwrap();
    assert_eq!(
        MovieAccountState::unpack(&updated[1].data).unwrap().unwrap().description,
        description
    );
}

#[test]
fn update_refuses_a_record_that_its_buffer_cannot_hold() {
    let alice = person(1);
    let after = created_review(&alice, "Inception", 5, "great movie");
    let mut accounts = after.clone();
    accounts[1].data.truncate(80);
    assert_eq!(
        complete(&accounts, &update_request("Inception", 5, "a description that is longer")),
        refused(ReviewError::InvalidDataLength)
    );
    assert!(complete(&accounts, &update_request("Inception", 5, "short")).is_ok());
}

#[test]
fn title_longer_than_a_seed_part_has_no_address() {
    let alice = person(1);
    let title = "t".repeat(33);
    let mut accounts = review_accounts(&alice, "Inception");
    accounts[1].owner = program();
    assert_eq!(
        complete(&accounts, &add_request(&title, 5, "great movie")),
        refused(ReviewError::InvalidAddress)
    );
    assert_eq!(
        complete(&accounts, &update_request(&title, 5, "great movie")),
        refused(ReviewError::InvalidAddress)
    );
}

#[test]
fn creation_needs_four_accounts() {
    let alice = person(1);
    let mut accounts = review_accounts(&alice, "Inception");
    accounts.pop();
    assert_eq!(
        complete(&accounts, &add_request("Inception", 5, "great movie")),
        refused(ReviewError::NotEnoughAccountKeys)
    );
    assert_eq!(
        complete(&Vec::new(), &add_request("Inception", 5, "great movie")),
        refused(ReviewError::NotEnoughAccountKeys)
    );
}

#[test]
fn update_needs_two_accounts() {
    let alice = person(1);
    assert_eq!(
        complete(&vec![alice], &update_request("Inception", 5, "great movie")),
        refused(ReviewError::NotEnoughAccountKeys)
    );
}

#[test]
fn comment_needs_five_accounts() {
    let alice = person(1);
    let after = created_review(&alice, "Inception", 5, "great movie");
    let mut accounts = comment_accounts(&person(2), &after[1], &after[2], 0);
    accounts.pop();
    assert_eq!(
        complete(&accounts, &comment_request("agreed")),
        refused(ReviewError::NotEnoughAccountKeys)
    );
}

#[test]
fn creation_needs_the_author_to_sign() {
    let mut alice = person(1);
    alice.is_signer = false;
    assert_eq!(
        complete(
            &review_accounts(&alice, "Inception"),
            &add_request("Inception", 5, "great movie")
        ),
        refused(ReviewError::MissingSignature)
    );
}

#[test]
fn update_needs_the_updater_to_sign() {
    let alice = person(1);
    let mut after = created_review(&alice, "Inception", 5, "great movie");
    after[0].is_signer = false;
    assert_eq!(
        complete(&after, &update_request("Inception", 5, "great movie")),
        refused(ReviewError::MissingSignature)
    );
}

#[test]
fn update_needs_a_review_that_the_program_controls() {
    let alice = person(1);
    let mut after = created_review(&alice, "Inception", 5, "great movie");
    after[1].owner = address(9);
    assert_eq!(
        complete(&after, &update_request("Inception", 5, "great movie")),
        refused(ReviewError::IllegalOwner)
    );
    assert_eq!(
        complete(&review_accounts(&alice, "Inception"), &update_request("Inception", 5, "x")),
        refused(ReviewError::IllegalOwner)
    );
}

#[test]
fn creation_needs_the_review_handle_at_the_derived_address() {
    let alice = person(1);
    let mut accounts = review_accounts(&alice, "Inception");
    accounts[1].key = address(9);
    assert_eq!(
        complete(&accounts, &add_request("Inception", 5, "great movie")),
        refused(ReviewError::InvalidAddress)
    );
}

#[test]
fn creation_needs_the_counter_handle_at_the_derived_address() {
    let alice = person(1);
    let mut accounts = review_accounts(&alice, "Inception");
    accounts[2].key = address(9);
    let review = accounts[1].key;
    let asked = std::cell::Cell::new(0);
    let outcome = run(&accounts, &add_request("Inception", 5, "great movie"), &|request| {
        assert_eq!(request.account, review);
        asked.set(asked.get() + 1);
        true
    });
    assert_eq!(outcome, refused(ReviewError::InvalidAddress));
    assert_eq!(asked.get(), 1);
}

#[test]
fn update_of_a_review_that_was_never_created_fails_with_uninitialized_account() {
    let alice = person(1);
    let mut accounts = review_accounts(&alice, "Inception");
    accounts[1].owner = program();
    assert_eq!(
        complete(&accounts, &update_request("Inception", 5, "great movie")),
        refused(ReviewError::UninitializedAccount)
    );
    accounts[1].data = vec![0; 1000];
    assert_eq!(
        complete(&accounts, &update_request("Inception", 5, "great movie")),
        refused(ReviewError::UninitializedAccount)
    );
}

#[test]
fn update_of_a_buffer_that_holds_no_review_fails_with_malformed_payload() {
    let alice = person(1);
    let mut after = created_review(&alice, "Inception", 5, "great movie");
    after[1].data = after[2].data.clone();
    assert_eq!(
        complete(&after, &update_request("Inception", 5, "great movie")),
        refused(ReviewError::MalformedPayload)
    );
}

#[test]
fn request_that_cannot_be_decoded_fails_with_malformed_payload() {
    let alice = person(1);
    let accounts = review_accounts(&alice, "Inception");
    assert_eq!(complete(&accounts, &[]), refused(ReviewError::MalformedPayload));
    assert_eq!(complete(&accounts, &[9, 0, 0, 0, 0]), refused(ReviewError::MalformedPayload));
    assert_eq!(complete(&Vec::new(), &[0, 1]), refused(ReviewError::MalformedPayload));
}

#[test]
fn checks_on_creation_come_in_a_fixed_order() {
    let mut alice = person(1);
    alice.is_signer = false;
    let mut accounts = review_accounts(&alice, "Inception");
    accounts[1].key = address(9);
    let long = "d".repeat(2000);
    assert_eq!(
        complete(&accounts, &add_request("Inception", 0, &long)),
        refused(ReviewError::MissingSignature)
    );
    accounts[0].is_signer = true;
    assert_eq!(
        complete(&accounts, &add_request("Inception", 0, &long)),
        refused(ReviewError::InvalidAddress)
    );
    let mut accounts = created_review(&person(1), "Inception", 5, "great movie");
    assert_eq!(
        complete(&accounts, &add_request("Inception", 0, &long)),
        refused(ReviewError::InvalidRating)
    );
    assert_eq!(
        complete(&accounts, &add_request("Inception", 5, &long)),
        refused(ReviewError::InvalidDataLength)
    );
    assert_eq!(
        complete(&accounts, &add_request("Inception", 5, "fine")),
        refused(ReviewError::AlreadyInitialized)
    );
    accounts.truncate(3);
    assert_eq!(
        complete(&accounts, &add_request("Inception", 0, &long)),
        refused(ReviewError::NotEnoughAccountKeys)
    );
}

#[test]
fn checks_on_update_come_in_a_fixed_order() {
    let long = "d".repeat(2000);
    let mut accounts = review_accounts(&person(1), "Inception");
    accounts[0].is_signer = false;
    accounts[1].key = address(9);
    assert_eq!(
        complete(&accounts, &update_request("Inception", 0, &long)),
        refused(ReviewError::MissingSignature)
    );
    accounts[0].is_signer = true;
    assert_eq!(
        complete(&accounts, &update_request("Inception", 0, &long)),
        refused(ReviewError::IllegalOwner)
    );
    accounts[1].owner = program();
    assert_eq!(
        complete(&accounts, &update_request("Inception", 0, &long)),
        refused(ReviewError::InvalidAddress)
    );
    accounts[1].key = review_key(&person(1), "Inception");
    assert_eq!(
        complete(&accounts, &update_request("Inception", 0, &long)),
        refused(ReviewError::InvalidRating)
    );
    assert_eq!(
        complete(&accounts, &update_request("Inception", 5, &long)),
        refused(ReviewError::InvalidDataLength)
    );
    assert_eq!(
        complete(&accounts, &update_request("Inception", 5, "fine")),
        refused(ReviewError::UninitializedAccount)
    );
}

#[test]
fn comment_asks_for_its_storage() {
    let after = created_review(&person(1), "Inception", 5, "great movie");
    let bob = person(2);
    let accounts = comment_accounts(&bob, &after[1], &after[2], 0);
    let step = add_comment(&program(), &accounts, "agreed".to_string(), 0);
    let seeds = comment_seed_parts(&after[1].key, 0);
    let (key, bump) = derive_address(&seeds, &program()).unwrap();
    assert_eq!(
        step,
        Ok(Step::Allocate(AllocationRequest {
            payer: bob.key,
            account: key,
            space: 1000,
            owner: program(),
            seeds: with_bump(seeds, bump),
        }))
    );
}

#[test]
fn comment_takes_the_count_and_raises_the_counter() {
    let after = created_review(&person(1), "Inception", 5, "great movie");
    let bob = person(2);
    let accounts = comment_accounts(&bob, &after[1], &after[2], 0);
    let done = complete(&accounts, &comment_request("agreed")).unwrap();
    assert_eq!(done.len(), 5);
    assert_eq!(done[0], accounts[0]);
    assert_eq!(done[1], accounts[1]);
    assert_eq!(done[4], accounts[4]);
    assert_eq!(done[3].key, accounts[3].key);
    assert_eq!(done[3].owner, program());
    assert_eq!(done[3].data.len(), 1000);
    assert_eq!(
        MovieComment::unpack(&done[3].data),
        Ok(Some(MovieComment {
            reviewer: after[1].key,
            commenter: bob.key,
            comment: "agreed".to_string(),
            count: 0,
        }))
    );
    assert_eq!(done[2].key, accounts[2].key);
    assert_eq!(done[2].owner, program());
    assert_eq!(done[2].data, borsh::to_vec(&("counter", true, 1u64)).unwrap());
}

#[test]
fn comments_are_numbered_from_zero_without_gaps() {
    let after = created_review(&person(1), "Inception", 5, "great movie");
    let review = after[1].clone();
    let mut counter = after[2].clone();
    let mut numbers = Vec::new();
    for round in 0..6u64 {
        let commenter = person(10 + round as u8);
        let accounts = comment_accounts(&commenter, &review, &counter, round);
        let text = format!("comment {}", round);
        let done = complete(&accounts, &comment_request(&text)).unwrap();
        let comment = MovieComment::unpack(&done[3].data).unwrap().unwrap();
        assert_eq!(comment.comment, text);
        assert_eq!(comment.commenter, commenter.key);
        numbers.push(comment.count);
        counter = done[2].clone();
    }
    assert_eq!(numbers, vec![0, 1, 2, 3, 4, 5]);
    assert_eq!(
        MovieCommentCounter::unpack(&counter.data),
        Ok(Some(MovieCommentCounter { counter: 6 }))
    );
}

#[test]
fn comment_at_the_address_of_another_number_is_refused() {
    let after = created_review(&person(1), "Inception", 5, "great movie");
    let accounts = comment_accounts(&person(2), &after[1], &after[2], 1);
    assert_eq!(
        complete(&accounts, &comment_request("agreed")),
        refused(ReviewError::InvalidAddress)
    );
}

#[test]
fn comment_address_uses_the_count_most_significant_byte_first() {
    let after = created_review(&person(1), "Inception", 5, "great movie");
    let mut counter = after[2].clone();
    counter.data = MovieCommentCounter { counter: 1 }.pack();
    let mut accounts = comment_accounts(&person(2), &after[1], &counter, 1);
    assert!(complete(&accounts, &comment_request("agreed")).is_ok());
    let little_endian = vec![after[1].key.to_vec(), 1u64.to_le_bytes().to_vec()];
    accounts[3].key = derive_address(&little_endian, &program()).unwrap().0;
    assert_eq!(
        complete(&accounts, &comment_request("agreed")),
        refused(ReviewError::InvalidAddress)
    );
}

#[test]
fn comment_cannot_be_added_twice_at_one_number() {
    let after = created_review(&person(1), "Inception", 5, "great movie");
    let accounts = comment_accounts(&person(2), &after[1], &after[2], 0);
    let done = complete(&accounts, &comment_request("agreed")).unwrap();
    let mut again = accounts.clone();
    again[3] = done[3].clone();
    assert_eq!(
        complete(&again, &comment_request("agreed")),
        refused(ReviewError::AlreadyInitialized)
    );
    assert_eq!(
        complete(&done, &comment_request("agreed")),
        refused(ReviewError::InvalidAddress)
    );
}

#[test]
fn comment_needs_an_initialised_counter() {
    let after = created_review(&person(1), "Inception", 5, "great movie");
    let mut accounts = comment_accounts(&person(2), &after[1], &after[2], 0);
    accounts[2].data = vec![0; 20];
    assert_eq!(
        complete(&accounts, &comment_request("agreed")),
        refused(ReviewError::UninitializedAccount)
    );
    accounts[2].data = Vec::new();
    accounts[0].is_signer = false;
    assert_eq!(
        complete(&accounts, &comment_request("agreed")),
        refused(ReviewError::UninitializedAccount)
    );
}

#[test]
fn comment_needs_a_counter_that_decodes() {
    let after = created_review(&person(1), "Inception", 5, "great movie");
    let mut accounts = comment_accounts(&person(2), &after[1], &after[2], 0);
    accounts[2].data = after[1].data.clone();
    assert_eq!(
        complete(&accounts, &comment_request("agreed")),
        refused(ReviewError::MalformedPayload)
    );
}

#[test]
fn comment_needs_the_commenter_to_sign() {
    let after = created_review(&person(1), "Inception", 5, "great movie");
    let mut accounts = comment_accounts(&person(2), &after[1], &after[2], 0);
    accounts[0].is_signer = false;
    accounts[1].owner = address(9);
    assert_eq!(
        complete(&accounts, &comment_request("agreed")),
        refused(ReviewError::MissingSignature)
    );
}

#[test]
fn comment_needs_a_review_that_the_program_controls() {
    let after = created_review(&person(1), "Inception", 5, "great movie");
    let mut accounts = comment_accounts(&person(2), &after[1], &after[2], 0);
    accounts[1].owner = address(9);
    accounts[3].key = address(9);
    assert_eq!(
        complete(&accounts, &comment_request("agreed")),
        refused(ReviewError::IllegalOwner)
    );
}

#[test]
fn comment_needs_the_counter_of_its_review() {
    let first = created_review(&person(1), "Inception", 5, "great movie");
    let second = created_review(&person(1), "Dune", 4, "sandy");
    let accounts = comment_accounts(&person(2), &first[1], &second[2], 0);
    assert_eq!(
        complete(&accounts, &comment_request("agreed")),
        refused(ReviewError::InvalidAddress)
    );
}

#[test]
fn comment_of_exactly_the_budget_is_accepted() {
    let after = created_review(&person(1), "Inception", 5, "great movie");
    let accounts = comment_accounts(&person(2), &after[1], &after[2], 0);
    let text = "c".repeat(1000 - 88);
    let done = complete(&accounts, &comment_request(&text)).unwrap();
    assert_eq!(MovieComment::unpack(&done[3].data).unwrap().unwrap().comment, text);
    let one_less = "c".repeat(1000 - 89);
    assert!(complete(&accounts, &comment_request(&one_less)).is_ok());
}

#[test]
fn comment_one_byte_over_the_budget_is_refused() {
    let after = created_review(&person(1), "Inception", 5, "great movie");
    let accounts = comment_accounts(&person(2), &after[1], &after[2], 0);
    let text = "c".repeat(1000 - 87);
    assert_eq!(
        complete(&accounts, &comment_request(&text)),
        refused(ReviewError::InvalidDataLength)
    );
}

#[test]
fn counter_at_its_largest_value_cannot_be_raised() {
    let after = created_review(&person(1), "Inception", 5, "great movie");
    let mut counter = after[2].clone();
    counter.data = MovieCommentCounter { counter: u64::MAX }.pack();
    let accounts = comment_accounts(&person(2), &after[1], &counter, u64::MAX);
    assert_eq!(
        add_comment(&program(), &accounts, "agreed".to_string(), 0),
        Err(ReviewError::CounterOverflow)
    );
    assert_eq!(
        add_comment(&program(), &accounts, "agreed".to_string(), 1),
        Err(ReviewError::CounterOverflow)
    );
    counter.data = MovieCommentCounter { counter: u64::MAX - 1 }.pack();
    let accounts = comment_accounts(&person(2), &after[1], &counter, u64::MAX - 1);
    let done = complete(&accounts, &comment_request("last")).unwrap();
    assert_eq!(
        MovieCommentCounter::unpack(&done[2].data),
        Ok(Some(MovieCommentCounter { counter: u64::MAX }))
    );
}

#[test]
fn failed_comment_storage_does_not_raise_the_counter() {
    let after = created_review(&person(1), "Inception", 5, "great movie");
    let accounts = comment_accounts(&person(2), &after[1], &after[2], 0);
    let outcome = run(&accounts, &comment_request("agreed"), &|_| false);
    assert_eq!(outcome, Err(Failure::NoStorage(accounts[3].key)));
    assert_eq!(
        MovieCommentCounter::unpack(&accounts[2].data),
        Ok(Some(MovieCommentCounter { counter: 0 }))
    );
    let done = complete(&accounts, &comment_request("agreed")).unwrap();
    assert_eq!(MovieComment::unpack(&done[3].data).unwrap().unwrap().count, 0);
}

#[test]
fn requests_are_dispatched_by_their_action() {
    let alice = person(1);
    let accounts = review_accounts(&alice, "Inception");
    let through_bytes =
        process_instruction(&program(), &accounts, &add_request("Inception", 5, "great movie"), 2);
    let direct = add_movie_review(
        &program(),
        &accounts,
        "Inception".to_string(),
        5,
        "great movie".to_string(),
        2,
    );
    assert_eq!(through_bytes, direct);
    let after = match direct {
        Ok(Step::Done(after)) => after,
        other => panic!("unexpected step {:?}", other),
    };
    assert_eq!(
        process_instruction(&program(), &after, &update_request("Inception", 1, "meh"), 0),
        update_movie_review(&program(), &after, "Inception".to_string(), 1, "meh".to_string())
    );
    let commenting = comment_accounts(&person(2), &after[1], &after[2], 0);
    assert_eq!(
        process_instruction(&program(), &commenting, &comment_request("agreed"), 1),
        add_comment(&program(), &commenting, "agreed".to_string(), 1)
    );
}
