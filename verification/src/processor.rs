//! The three use cases: creating a review with its comment counter, updating
//! a review, and adding a comment.
//!
//! A request never touches the accounts it is given. It checks them, in a
//! fixed order, and answers with the first failure, with the storage that the
//! host has to create before the request can go on, or with the accounts as
//! the completed request leaves them. Creating storage is the host's work:
//! the caller carries out what `Step::Allocate` asks for and runs the same
//! request again with `granted` raised by one. Every run repeats every check.

use crate::account::{
    fresh, fresh_buffer, outcome_view, replaced, store, stored, views, Account, AccountView,
    AllocationRequest, AllocationRequestView, Step, StepView,
};
use crate::address::{
    comment_seed_parts, comment_seeds, counter_seed_parts, counter_seeds, program_address,
    review_seed_parts, review_seeds, signer_seeds, with_bump, Address, MAX_SEED_PART_LEN,
};
use crate::error::ReviewError;
use crate::instruction::{instruction_decoding, MovieInstruction, MovieInstructionView};
use crate::state::{
    comment_decoding, comment_encoding, comment_size, counter_decoding, counter_encoding,
    lemma_comment_round_trip, lemma_counter_buffer_len, lemma_counter_round_trip,
    lemma_review_round_trip, review_decoding, review_encoding, review_size, MovieAccountState,
    MovieAccountStateView, MovieComment, MovieCommentCounter, MovieCommentView, COUNTER_BUDGET,
    RECORD_BUDGET,
};
use crate::validator::{
    address_matches, check_address, check_comment_size, check_initialized, check_owner,
    check_rating, check_review_size, check_signer, check_vacant, rating_in_bounds,
};
use vstd::prelude::*;
use vstd::utf8::encode_utf8;

verus! {

/// What `update_movie_review` answers.
///
/// The accounts are the updater and the review. The checks, in order: both
/// accounts are there; the updater signed; the review is controlled by the
/// program; the review's address is the one derived from the updater and the
/// title; the rating is in bounds; the record fits the budget; the buffer
/// holds an initialised review and has room for the new one. The new record
/// keeps the author and replaces title, rating and description.
pub open spec fn update_outcome(
    program: Seq<u8>,
    accounts: Seq<AccountView>,
    title: Seq<char>,
    rating: u8,
    description: Seq<char>,
) -> Result<StepView, ReviewError> {
    if accounts.len() < 2 {
        Err(ReviewError::NotEnoughAccountKeys)
    } else if !accounts[0].is_signer {
        Err(ReviewError::MissingSignature)
    } else if accounts[1].owner != program {
        Err(ReviewError::IllegalOwner)
    } else if !address_matches(review_seeds(accounts[0].key, title), program, accounts[1].key) {
        Err(ReviewError::InvalidAddress)
    } else if !rating_in_bounds(rating) {
        Err(ReviewError::InvalidRating)
    } else if review_size(title, description) > RECORD_BUDGET {
        Err(ReviewError::InvalidDataLength)
    } else {
        match review_decoding(accounts[1].data) {
            Err(e) => Err(e),
            Ok(None) => Err(ReviewError::UninitializedAccount),
            Ok(Some(old)) => if review_size(title, description) > accounts[1].data.len() {
                Err(ReviewError::InvalidDataLength)
            } else {
                let review = MovieAccountStateView {
                    reviewer: old.reviewer,
                    rating,
                    title,
                    description,
                };
                Ok(
                    StepView::Done(
                        accounts.update(
                            1,
                            AccountView {
                                data: stored(accounts[1].data, review_encoding(review)),
                                ..accounts[1]
                            },
                        ),
                    ),
                )
            },
        }
    }
}

/// Replaces the rating and the description of an existing review. The title
/// is part of the review's address, so it has to be the one that the review
/// was created with, and it cannot be longer than a seed part.
pub fn update_movie_review(
    program_id: &Address,
    accounts: &Vec<Account>,
    title: String,
    rating: u8,
    description: String,
) -> (r: Result<Step, ReviewError>)
    ensures
        outcome_view(r) == update_outcome(
            program_id@,
            views(accounts@),
            title@,
            rating,
            description@,
        ),
        r is Ok ==> encode_utf8(title@).len() <= MAX_SEED_PART_LEN,
{
    if accounts.len() < 2 {
        return Err(ReviewError::NotEnoughAccountKeys);
    }
    let updater = &accounts[0];
    let record = &accounts[1];
    check_signer(updater)?;
    check_owner(record, program_id)?;
    let seeds = review_seed_parts(&updater.key, title.as_str());
    check_address(&seeds, program_id, record)?;
    check_rating(rating)?;
    check_review_size(title.as_str(), description.as_str())?;
    let old = check_initialized(MovieAccountState::unpack(record.data.as_slice()))?;
    if MovieAccountState::get_account_size(title.as_str(), description.as_str())
        > record.data.len() {
        return Err(ReviewError::InvalidDataLength);
    }
    let review = MovieAccountState { reviewer: old.reviewer, rating, title, description };
    proof {
        lemma_review_round_trip(review@, Seq::empty());
    }
    let data = store(&record.data, review.encode());
    let updated = Account {
        key: record.key,
        owner: record.owner,
        is_signer: record.is_signer,
        data,
    };
    Ok(Step::Done(replaced(accounts, 1, updated)))
}

/// The request for the storage of a review.
pub open spec fn review_allocation(
    program: Seq<u8>,
    accounts: Seq<AccountView>,
    title: Seq<char>,
    bump: u8,
) -> AllocationRequestView {
    AllocationRequestView {
        payer: accounts[0].key,
        account: accounts[1].key,
        space: RECORD_BUDGET as nat,
        owner: program,
        seeds: signer_seeds(review_seeds(accounts[0].key, title), bump),
    }
}

/// The request for the storage of a review's comment counter.
pub open spec fn counter_allocation(
    program: Seq<u8>,
    accounts: Seq<AccountView>,
    bump: u8,
) -> AllocationRequestView {
    AllocationRequestView {
        payer: accounts[0].key,
        account: accounts[2].key,
        space: COUNTER_BUDGET as nat,
        owner: program,
        seeds: signer_seeds(counter_seeds(accounts[1].key), bump),
    }
}

/// An account after storage of `space` bytes was created for it under
/// `program` and `record` was written there.
pub open spec fn created(account: AccountView, program: Seq<u8>, space: nat, record: Seq<u8>)
    -> AccountView {
    AccountView { owner: program, data: stored(fresh(space), record), ..account }
}

/// The second half of `add_review_outcome`, after the review's storage was
/// granted: the counter's checks, the request for its storage, and the two
/// records written.
pub open spec fn paired_counter_outcome(
    program: Seq<u8>,
    accounts: Seq<AccountView>,
    review: MovieAccountStateView,
    granted: nat,
) -> Result<StepView, ReviewError> {
    match program_address(counter_seeds(accounts[1].key), program) {
        None => Err(ReviewError::InvalidAddress),
        Some((address, bump)) => if address != accounts[2].key {
            Err(ReviewError::InvalidAddress)
        } else {
            match counter_decoding(accounts[2].data) {
                Err(e) => Err(e),
                Ok(Some(_)) => Err(ReviewError::AlreadyInitialized),
                Ok(None) => if granted == 1 {
                    Ok(StepView::Allocate(counter_allocation(program, accounts, bump)))
                } else {
                    Ok(
                        StepView::Done(
                            accounts.update(
                                1,
                                created(
                                    accounts[1],
                                    program,
                                    RECORD_BUDGET as nat,
                                    review_encoding(review),
                                ),
                            ).update(
                                2,
                                created(
                                    accounts[2],
                                    program,
                                    COUNTER_BUDGET as nat,
                                    counter_encoding(0),
                                ),
                            ),
                        ),
                    )
                },
            }
        },
    }
}

/// What `add_movie_review` answers.
///
/// The accounts are the author, the review, its comment counter and the
/// host's storage program. The checks, in order: all four accounts are there;
/// the author signed; the review's address is the one derived from the
/// author and the title; the rating is in bounds; the record fits the
/// budget; the review's buffer holds no review yet. Then the review's storage
/// is asked for. Once it was granted: the counter's address is the one
/// derived from the review's address; the counter's buffer holds no counter
/// yet. Then the counter's storage is asked for. Once that was granted too,
/// the request is complete: the review holds the given values and the counter
/// holds zero, each in a fresh buffer of its budget under the program.
pub open spec fn add_review_outcome(
    program: Seq<u8>,
    accounts: Seq<AccountView>,
    title: Seq<char>,
    rating: u8,
    description: Seq<char>,
    granted: nat,
) -> Result<StepView, ReviewError> {
    if accounts.len() < 4 {
        Err(ReviewError::NotEnoughAccountKeys)
    } else if !accounts[0].is_signer {
        Err(ReviewError::MissingSignature)
    } else {
        match program_address(review_seeds(accounts[0].key, title), program) {
            None => Err(ReviewError::InvalidAddress),
            Some((address, bump)) => if address != accounts[1].key {
                Err(ReviewError::InvalidAddress)
            } else if !rating_in_bounds(rating) {
                Err(ReviewError::InvalidRating)
            } else if review_size(title, description) > RECORD_BUDGET {
                Err(ReviewError::InvalidDataLength)
            } else {
                match review_decoding(accounts[1].data) {
                    Err(e) => Err(e),
                    Ok(Some(_)) => Err(ReviewError::AlreadyInitialized),
                    Ok(None) => if granted == 0 {
                        Ok(StepView::Allocate(review_allocation(program, accounts, title, bump)))
                    } else {
                        paired_counter_outcome(
                            program,
                            accounts,
                            MovieAccountStateView {
                                reviewer: accounts[0].key,
                                rating,
                                title,
                                description,
                            },
                            granted,
                        )
                    },
                }
            },
        }
    }
}

/// Creates a review and, paired with it, its comment counter.
///
/// `granted` is the number of storage allocations that the host has carried
/// out for this request so far. The accounts are handed back only when both
/// records exist, so a review is never seen without its counter. The title is
/// part of the review's address, so it cannot be longer than a seed part.
pub fn add_movie_review(
    program_id: &Address,
    accounts: &Vec<Account>,
    title: String,
    rating: u8,
    description: String,
    granted: usize,
) -> (r: Result<Step, ReviewError>)
    ensures
        outcome_view(r) == add_review_outcome(
            program_id@,
            views(accounts@),
            title@,
            rating,
            description@,
            granted as nat,
        ),
        r is Ok ==> encode_utf8(title@).len() <= MAX_SEED_PART_LEN,
{
    if accounts.len() < 4 {
        return Err(ReviewError::NotEnoughAccountKeys);
    }
    let reviewer = &accounts[0];
    let record = &accounts[1];
    let counter = &accounts[2];
    check_signer(reviewer)?;
    let seeds = review_seed_parts(&reviewer.key, title.as_str());
    let bump = check_address(&seeds, program_id, record)?;
    check_rating(rating)?;
    check_review_size(title.as_str(), description.as_str())?;
    check_vacant(MovieAccountState::unpack(record.data.as_slice()))?;
    if granted == 0 {
        return Ok(
            Step::Allocate(
                AllocationRequest {
                    payer: reviewer.key,
                    account: record.key,
                    space: RECORD_BUDGET,
                    owner: *program_id,
                    seeds: with_bump(seeds, bump),
                },
            ),
        );
    }
    let counter_seeds = counter_seed_parts(&record.key);
    let counter_bump = check_address(&counter_seeds, program_id, counter)?;
    check_vacant(MovieCommentCounter::unpack(counter.data.as_slice()))?;
    if granted == 1 {
        return Ok(
            Step::Allocate(
                AllocationRequest {
                    payer: reviewer.key,
                    account: counter.key,
                    space: COUNTER_BUDGET,
                    owner: *program_id,
                    seeds: with_bump(counter_seeds, counter_bump),
                },
            ),
        );
    }
    let review = MovieAccountState { reviewer: reviewer.key, rating, title, description };
    proof {
        lemma_review_round_trip(review@, Seq::empty());
        lemma_counter_round_trip(0, Seq::empty());
    }
    let review_account = Account {
        key: record.key,
        owner: *program_id,
        is_signer: record.is_signer,
        data: store(&fresh_buffer(RECORD_BUDGET), review.encode()),
    };
    let counter_account = Account {
        key: counter.key,
        owner: *program_id,
        is_signer: counter.is_signer,
        data: store(&fresh_buffer(COUNTER_BUDGET), MovieCommentCounter { counter: 0 }.pack()),
    };
    let with_review = replaced(accounts, 1, review_account);
    Ok(Step::Done(replaced(&with_review, 2, counter_account)))
}

/// The request for the storage of the comment numbered `count`.
pub open spec fn comment_allocation(
    program: Seq<u8>,
    accounts: Seq<AccountView>,
    count: u64,
    bump: u8,
) -> AllocationRequestView {
    AllocationRequestView {
        payer: accounts[0].key,
        account: accounts[3].key,
        space: RECORD_BUDGET as nat,
        owner: program,
        seeds: signer_seeds(comment_seeds(accounts[1].key, count), bump),
    }
}

/// What `add_comment` answers.
///
/// The accounts are the commenter, the review, the review's comment counter,
/// the comment and the host's storage program. The checks, in order: all five
/// accounts are there; the counter's buffer holds an initialised counter; the
/// commenter signed; the review is controlled by the program; the counter's
/// address is the one derived from the review's address; the comment's
/// address is the one derived from the review's address and the counter's
/// value, most significant byte first; the record fits the budget; the
/// comment's buffer holds no comment yet; the counter can still be raised.
/// Then the comment's storage is asked for. Once it was granted, the request
/// is complete: the comment holds the review's address, the commenter, the
/// text and the counter's value as its sequence number, in a fresh buffer of
/// its budget under the program, and the counter holds one more.
pub open spec fn add_comment_outcome(
    program: Seq<u8>,
    accounts: Seq<AccountView>,
    comment: Seq<char>,
    granted: nat,
) -> Result<StepView, ReviewError> {
    if accounts.len() < 5 {
        Err(ReviewError::NotEnoughAccountKeys)
    } else {
        match counter_decoding(accounts[2].data) {
            Err(e) => Err(e),
            Ok(None) => Err(ReviewError::UninitializedAccount),
            Ok(Some(count)) => if !accounts[0].is_signer {
                Err(ReviewError::MissingSignature)
            } else if accounts[1].owner != program {
                Err(ReviewError::IllegalOwner)
            } else if !address_matches(counter_seeds(accounts[1].key), program, accounts[2].key) {
                Err(ReviewError::InvalidAddress)
            } else {
                match program_address(comment_seeds(accounts[1].key, count), program) {
                    None => Err(ReviewError::InvalidAddress),
                    Some((address, bump)) => if address != accounts[3].key {
                        Err(ReviewError::InvalidAddress)
                    } else if comment_size(comment) > RECORD_BUDGET {
                        Err(ReviewError::InvalidDataLength)
                    } else {
                        match comment_decoding(accounts[3].data) {
                            Err(e) => Err(e),
                            Ok(Some(_)) => Err(ReviewError::AlreadyInitialized),
                            Ok(None) => if count == u64::MAX {
                                Err(ReviewError::CounterOverflow)
                            } else if granted == 0 {
                                Ok(
                                    StepView::Allocate(
                                        comment_allocation(program, accounts, count, bump),
                                    ),
                                )
                            } else {
                                Ok(
                                    StepView::Done(
                                        accounts.update(
                                            3,
                                            created(
                                                accounts[3],
                                                program,
                                                RECORD_BUDGET as nat,
                                                comment_encoding(
                                                    MovieCommentView {
                                                        reviewer: accounts[1].key,
                                                        commenter: accounts[0].key,
                                                        comment,
                                                        count,
                                                    },
                                                ),
                                            ),
                                        ).update(
                                            2,
                                            AccountView {
                                                data: stored(
                                                    accounts[2].data,
                                                    counter_encoding((count + 1) as u64),
                                                ),
                                                ..accounts[2]
                                            },
                                        ),
                                    ),
                                )
                            },
                        }
                    },
                }
            },
        }
    }
}

/// Adds a comment to a review. The comment gets the counter's value as its
/// sequence number, and the counter is raised by one.
///
/// `granted` is the number of storage allocations that the host has carried
/// out for this request so far. The raised counter is handed back only
/// together with the comment that took its old value.
pub fn add_comment(
    program_id: &Address,
    accounts: &Vec<Account>,
    comment: String,
    granted: usize,
) -> (r: Result<Step, ReviewError>)
    ensures
        outcome_view(r) == add_comment_outcome(
            program_id@,
            views(accounts@),
            comment@,
            granted as nat,
        ),
{
    if accounts.len() < 5 {
        return Err(ReviewError::NotEnoughAccountKeys);
    }
    let commenter = &accounts[0];
    let review = &accounts[1];
    let counter = &accounts[2];
    let record = &accounts[3];
    let count = check_initialized(MovieCommentCounter::unpack(counter.data.as_slice()))?.counter;
    check_signer(commenter)?;
    check_owner(review, program_id)?;
    check_address(&counter_seed_parts(&review.key), program_id, counter)?;
    let seeds = comment_seed_parts(&review.key, count);
    let bump = check_address(&seeds, program_id, record)?;
    check_comment_size(comment.as_str())?;
    check_vacant(MovieComment::unpack(record.data.as_slice()))?;
    if count == u64::MAX {
        return Err(ReviewError::CounterOverflow);
    }
    if granted == 0 {
        return Ok(
            Step::Allocate(
                AllocationRequest {
                    payer: commenter.key,
                    account: record.key,
                    space: RECORD_BUDGET,
                    owner: *program_id,
                    seeds: with_bump(seeds, bump),
                },
            ),
        );
    }
    let entry = MovieComment {
        reviewer: review.key,
        commenter: commenter.key,
        comment,
        count,
    };
    proof {
        lemma_comment_round_trip(entry@, Seq::empty());
        lemma_counter_round_trip((count + 1) as u64, Seq::empty());
        lemma_counter_buffer_len(counter.data@);
    }
    let comment_account = Account {
        key: record.key,
        owner: *program_id,
        is_signer: record.is_signer,
        data: store(&fresh_buffer(RECORD_BUDGET), entry.encode()),
    };
    let counter_account = Account {
        key: counter.key,
        owner: counter.owner,
        is_signer: counter.is_signer,
        data: store(&counter.data, MovieCommentCounter { counter: count + 1 }.pack()),
    };
    let with_comment = replaced(accounts, 3, comment_account);
    Ok(Step::Done(replaced(&with_comment, 2, counter_account)))
}

/// What `process_instruction` answers: `MalformedPayload` where the bytes
/// encode no request, and otherwise what the request's use case answers.
pub open spec fn process_outcome(
    program: Seq<u8>,
    accounts: Seq<AccountView>,
    instruction_data: Seq<u8>,
    granted: nat,
) -> Result<StepView, ReviewError> {
    match instruction_decoding(instruction_data) {
        None => Err(ReviewError::MalformedPayload),
        Some(MovieInstructionView::AddMovieReview { title, rating, description }) => {
            add_review_outcome(program, accounts, title, rating, description, granted)
        },
        Some(MovieInstructionView::UpdateMovieReview { title, rating, description }) => {
            update_outcome(program, accounts, title, rating, description)
        },
        Some(MovieInstructionView::AddComment { comment }) => add_comment_outcome(
            program,
            accounts,
            comment,
            granted,
        ),
    }
}

/// Decodes a request and runs its use case.
pub fn process_instruction(
    program_id: &Address,
    accounts: &Vec<Account>,
    instruction_data: &[u8],
    granted: usize,
) -> (r: Result<Step, ReviewError>)
    ensures
        outcome_view(r) == process_outcome(
            program_id@,
            views(accounts@),
            instruction_data@,
            granted as nat,
        ),
{
    match MovieInstruction::unpack(instruction_data) {
        Err(e) => Err(e),
        Ok(MovieInstruction::AddMovieReview { title, rating, description }) => add_movie_review(
            program_id,
            accounts,
            title,
            rating,
            description,
            granted,
        ),
        Ok(MovieInstruction::UpdateMovieReview { title, rating, description }) => {
            update_movie_review(program_id, accounts, title, rating, description)
        },
        Ok(MovieInstruction::AddComment { comment }) => add_comment(
            program_id,
            accounts,
            comment,
            granted,
        ),
    }
}

} // verus!
