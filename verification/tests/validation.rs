use movie_review::account::Account;
use movie_review::address::{counter_seed_parts, derive_address, review_seed_parts, Address};
use movie_review::error::ReviewError;
use movie_review::state::{MovieAccountState, MovieCommentCounter};
use movie_review::validator::{
    check_address, check_comment_size, check_initialized, check_owner, check_rating,
    check_review_size, check_signer, check_vacant,
};

fn address(fill: u8) -> Address {
    Address { bytes: [fill; 32] }
}

fn account(key: Address, owner: Address, is_signer: bool) -> Account {
    Account { key, owner, is_signer, data: Vec::new() }
}

#[test]
fn signer_check_asks_for_the_signature() {
    assert_eq!(check_signer(&account(address(1), address(0), true)), Ok(()));
    assert_eq!(
        check_signer(&account(address(1), address(0), false)),
        Err(ReviewError::MissingSignature)
    );
}

#[test]
fn ownership_check_asks_for_the_program_as_owner() {
    assert_eq!(check_owner(&account(address(1), address(7), false), &address(7)), Ok(()));
    assert_eq!(
        check_owner(&account(address(1), address(8), false), &address(7)),
        Err(ReviewError::IllegalOwner)
    );
    assert_eq!(
        check_owner(&account(address(7), address(1), false), &address(7)),
        Err(ReviewError::IllegalOwner)
    );
}

#[test]
fn address_check_accepts_the_derived_address_and_returns_its_bump() {
    let seeds = review_seed_parts(&address(1), "Inception");
    let (key, bump) = derive_address(&seeds, &address(7)).unwrap();
    assert_eq!(check_address(&seeds, &address(7), &account(key, address(0), false)), Ok(bump));
}

#[test]
fn address_check_refuses_any_other_address() {
    let seeds = review_seed_parts(&address(1), "Inception");
    let (key, _) = derive_address(&seeds, &address(7)).unwrap();
    let mut near = key;
    near.bytes[0] ^= 1;
    assert_eq!(
        check_address(&seeds, &address(7), &account(near, address(0), false)),
        Err(ReviewError::InvalidAddress)
    );
    assert_eq!(
        check_address(&seeds, &address(8), &account(key, address(0), false)),
        Err(ReviewError::InvalidAddress)
    );
    assert_eq!(
        check_address(
            &counter_seed_parts(&address(1)),
            &address(7),
            &account(key, address(0), false)
        ),
        Err(ReviewError::InvalidAddress)
    );
}

#[test]
fn address_check_refuses_a_key_without_an_address() {
    let seeds = vec![vec![1u8; 33]];
    assert_eq!(
        check_address(&seeds, &address(7), &account(address(1), address(0), false)),
        Err(ReviewError::InvalidAddress)
    );
}

#[test]
fn bounds_check_accepts_one_to_five() {
    for rating in 0..=255u8 {
        let expected =
            if (1..=5).contains(&rating) { Ok(()) } else { Err(ReviewError::InvalidRating) };
        assert_eq!(check_rating(rating), expected);
    }
}

#[test]
fn size_check_of_a_review_draws_the_line_at_the_budget() {
    let title = "Inception";
    let fits = "d".repeat(1000 - 52 - title.len());
    let over = "d".repeat(1000 - 52 - title.len() + 1);
    assert_eq!(check_review_size(title, &fits), Ok(()));
    assert_eq!(check_review_size(title, &over), Err(ReviewError::InvalidDataLength));
    assert_eq!(check_review_size("", ""), Ok(()));
    assert_eq!(check_review_size(&"t".repeat(948), ""), Ok(()));
    assert_eq!(check_review_size(&"t".repeat(949), ""), Err(ReviewError::InvalidDataLength));
}

#[test]
fn size_check_of_a_review_counts_utf8_bytes() {
    let fits = "é".repeat((1000 - 52) / 2);
    let over = "é".repeat((1000 - 52) / 2 + 1);
    assert_eq!(check_review_size("", &fits), Ok(()));
    assert_eq!(check_review_size("", &over), Err(ReviewError::InvalidDataLength));
}

#[test]
fn size_check_of_a_comment_draws_the_line_at_the_budget() {
    assert_eq!(check_comment_size(&"c".repeat(912)), Ok(()));
    assert_eq!(check_comment_size(&"c".repeat(913)), Err(ReviewError::InvalidDataLength));
}

#[test]
fn initialisation_check_before_creation() {
    assert_eq!(check_vacant(MovieCommentCounter::unpack(&[])), Ok(()));
    assert_eq!(check_vacant(MovieCommentCounter::unpack(&[0; 20])), Ok(()));
    assert_eq!(
        check_vacant(MovieCommentCounter::unpack(&MovieCommentCounter { counter: 0 }.pack())),
        Err(ReviewError::AlreadyInitialized)
    );
    assert_eq!(
        check_vacant(MovieCommentCounter::unpack(&[1, 2, 3])),
        Err(ReviewError::MalformedPayload)
    );
}

#[test]
fn initialisation_check_before_reading() {
    let stored = MovieCommentCounter { counter: 4 };
    assert_eq!(check_initialized(MovieCommentCounter::unpack(&stored.pack())), Ok(stored));
    assert_eq!(
        check_initialized(MovieCommentCounter::unpack(&[])),
        Err(ReviewError::UninitializedAccount)
    );
    assert_eq!(
        check_initialized(MovieAccountState::unpack(&[0; 1000])),
        Err(ReviewError::UninitializedAccount)
    );
    assert_eq!(
        check_initialized(MovieAccountState::unpack(&stored.pack())),
        Err(ReviewError::MalformedPayload)
    );
}
