//! The checks that a request passes before anything is written. Each check
//! reads what it is given and answers; none of them changes anything.

use crate::account::Account;
use crate::address::{
    derive_address, program_address, Address, MAX_SEED_PARTS, MAX_SEED_PART_LEN,
};
use crate::error::ReviewError;
use crate::state::{comment_size, review_size, MovieAccountState, MovieComment, RECORD_BUDGET};
use vstd::prelude::*;

verus! {

/// Whether `key` is the address that belongs to `seeds` under `program`.
pub open spec fn address_matches(seeds: Seq<Seq<u8>>, program: Seq<u8>, key: Seq<u8>) -> bool {
    match program_address(seeds, program) {
        Some((address, _)) => address == key,
        None => false,
    }
}

/// Whether a rating is one that a review may carry.
pub open spec fn rating_in_bounds(rating: u8) -> bool {
    1 <= rating <= 5
}

/// Signer check: the acting account authorised the request.
pub fn check_signer(account: &Account) -> (r: Result<(), ReviewError>)
    ensures
        r == if account.is_signer {
            Ok::<(), ReviewError>(())
        } else {
            Err::<(), ReviewError>(ReviewError::MissingSignature)
        },
{
    if account.is_signer {
        Ok(())
    } else {
        Err(ReviewError::MissingSignature)
    }
}

/// Ownership check: the record is controlled by the program.
pub fn check_owner(account: &Account, program_id: &Address) -> (r: Result<(), ReviewError>)
    ensures
        r == if account.owner@ == program_id@ {
            Ok::<(), ReviewError>(())
        } else {
            Err::<(), ReviewError>(ReviewError::IllegalOwner)
        },
{
    if account.owner == *program_id {
        Ok(())
    } else {
        Err(ReviewError::IllegalOwner)
    }
}

/// Address check: the handle's address is the one derived from the logical
/// key `seeds`. Returns the bump seed of that address. No key with more than
/// 15 parts, or with a part longer than 32 bytes, passes.
pub fn check_address(seeds: &Vec<Vec<u8>>, program_id: &Address, account: &Account) -> (r: Result<
    u8,
    ReviewError,
>)
    ensures
        match r {
            Ok(bump) => program_address(seeds.deep_view(), program_id@) == Some(
                (account.key@, bump),
            ),
            Err(e) => e == ReviewError::InvalidAddress && !address_matches(
                seeds.deep_view(),
                program_id@,
                account.key@,
            ),
        },
        r is Ok ==> seeds.len() <= MAX_SEED_PARTS && forall|i: int|
            0 <= i < seeds.len() ==> (#[trigger] seeds[i]).len() <= MAX_SEED_PART_LEN,
{
    match derive_address(seeds, program_id) {
        None => Err(ReviewError::InvalidAddress),
        Some((address, bump)) => {
            if address == account.key {
                Ok(bump)
            } else {
                Err(ReviewError::InvalidAddress)
            }
        },
    }
}

/// Bounds check: the rating lies in `1..=5`.
pub fn check_rating(rating: u8) -> (r: Result<(), ReviewError>)
    ensures
        r == if rating_in_bounds(rating) {
            Ok::<(), ReviewError>(())
        } else {
            Err::<(), ReviewError>(ReviewError::InvalidRating)
        },
{
    if 1 <= rating && rating <= 5 {
        Ok(())
    } else {
        Err(ReviewError::InvalidRating)
    }
}

/// Size check of a review: its encoded size does not exceed the budget.
pub fn check_review_size(title: &str, description: &str) -> (r: Result<(), ReviewError>)
    ensures
        r == if review_size(title@, description@) <= RECORD_BUDGET {
            Ok::<(), ReviewError>(())
        } else {
            Err::<(), ReviewError>(ReviewError::InvalidDataLength)
        },
{
    if MovieAccountState::fits(title, description) {
        Ok(())
    } else {
        Err(ReviewError::InvalidDataLength)
    }
}

/// Size check of a comment: its encoded size does not exceed the budget.
pub fn check_comment_size(comment: &str) -> (r: Result<(), ReviewError>)
    ensures
        r == if comment_size(comment@) <= RECORD_BUDGET {
            Ok::<(), ReviewError>(())
        } else {
            Err::<(), ReviewError>(ReviewError::InvalidDataLength)
        },
{
    if MovieComment::fits(comment) {
        Ok(())
    } else {
        Err(ReviewError::InvalidDataLength)
    }
}

/// Initialisation check before a record is created: the buffer was read
/// without error and holds no record yet.
pub fn check_vacant<T>(state: Result<Option<T>, ReviewError>) -> (r: Result<(), ReviewError>)
    ensures
        match state {
            Err(e) => r == Err::<(), ReviewError>(e),
            Ok(Some(_)) => r == Err::<(), ReviewError>(ReviewError::AlreadyInitialized),
            Ok(None) => r == Ok::<(), ReviewError>(()),
        },
{
    match state {
        Err(e) => Err(e),
        Ok(Some(_)) => Err(ReviewError::AlreadyInitialized),
        Ok(None) => Ok(()),
    }
}

/// Initialisation check before a record is read or updated: the buffer was
/// read without error and holds a record, which is returned.
pub fn check_initialized<T>(state: Result<Option<T>, ReviewError>) -> (r: Result<T, ReviewError>)
    ensures
        match state {
            Err(e) => r == Err::<T, ReviewError>(e),
            Ok(Some(record)) => r == Ok::<T, ReviewError>(record),
            Ok(None) => r == Err::<T, ReviewError>(ReviewError::UninitializedAccount),
        },
{
    match state {
        Err(e) => Err(e),
        Ok(Some(record)) => Ok(record),
        Ok(None) => Err(ReviewError::UninitializedAccount),
    }
}

} // verus!
