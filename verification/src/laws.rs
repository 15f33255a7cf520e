//! What holds of the use cases taken together, stated over the outcomes that
//! their contracts name.

use crate::account::{fresh, well_formed, AccountView, StepView};
use crate::address::{derivation_view, program_address, review_seeds, Address};
use crate::error::ReviewError;
use crate::processor::{add_comment_outcome, add_review_outcome, created, update_outcome};
use crate::state::{
    comment_decoding, comment_encoding, comment_size, counter_decoding, counter_encoding,
    lemma_comment_round_trip, lemma_counter_buffer_len, lemma_counter_round_trip,
    lemma_review_round_trip, review_decoding, review_encoding, review_size,
    MovieAccountStateView, MovieCommentView, COUNTER_BUDGET, RECORD_BUDGET,
};
use crate::validator::{address_matches, rating_in_bounds};
use crate::wire::{string_decoding, u32_le_value};
use vstd::prelude::*;
use vstd::utf8::valid_utf8;

verus! {

/// Derivation is deterministic: two derivations from the same seeds under
/// the same program give the same address and the same bump seed.
pub proof fn law_derivation_is_deterministic(
    first: Option<(Address, u8)>,
    second: Option<(Address, u8)>,
    seeds: Seq<Seq<u8>>,
    program: Seq<u8>,
)
    requires
        derivation_view(first) == program_address(seeds, program),
        derivation_view(second) == program_address(seeds, program),
    ensures
        derivation_view(first) == derivation_view(second),
{
}

/// Storage as the host hands it out holds no record of any kind: a buffer of
/// zero bytes is read as not initialised, provided that it is empty or long
/// enough for a header.
pub proof fn law_fresh_storage_is_vacant(space: nat)
    requires
        space == 0 || space >= 5,
    ensures
        review_decoding(fresh(space)) == Ok::<Option<MovieAccountStateView>, ReviewError>(None),
        counter_decoding(fresh(space)) == Ok::<Option<u64>, ReviewError>(None),
        comment_decoding(fresh(space)) == Ok::<Option<MovieCommentView>, ReviewError>(None),
{
    if space > 0 {
        let data = fresh(space);
        reveal(string_decoding);
        assert(u32_le_value(data.subrange(0, 4)) == 0);
        assert(data.subrange(4, 4).len() == 0);
        assert(valid_utf8(data.subrange(4, 4)));
        assert(string_decoding(data) is Some);
        assert(data.subrange(4, data.len() as int)[0] == 0u8);
    }
}

/// A completed creation leaves both records initialised, each in a fresh
/// buffer of its budget under the program: the review with the author and the
/// values of the request, the counter at zero. It completes only after both
/// allocations were granted, and it leaves every other account as it was.
pub proof fn law_atomic_pairing(
    program: Seq<u8>,
    accounts: Seq<AccountView>,
    title: Seq<char>,
    rating: u8,
    description: Seq<char>,
    granted: nat,
    after: Seq<AccountView>,
)
    requires
        well_formed(accounts),
        add_review_outcome(program, accounts, title, rating, description, granted) == Ok::<
            StepView,
            ReviewError,
        >(StepView::Done(after)),
    ensures
        granted >= 2,
        after.len() == accounts.len(),
        forall|i: int| 0 <= i < after.len() && i != 1 && i != 2 ==> after[i] == accounts[i],
        after[1].key == accounts[1].key && after[1].owner == program,
        after[2].key == accounts[2].key && after[2].owner == program,
        after[1].data.len() == RECORD_BUDGET,
        after[2].data.len() == COUNTER_BUDGET,
        rating_in_bounds(rating),
        review_decoding(after[1].data) == Ok::<Option<MovieAccountStateView>, ReviewError>(
            Some(
                MovieAccountStateView { reviewer: accounts[0].key, rating, title, description },
            ),
        ),
        counter_decoding(after[2].data) == Ok::<Option<u64>, ReviewError>(Some(0)),
{
    let review = MovieAccountStateView { reviewer: accounts[0].key, rating, title, description };
    let record = review_encoding(review);
    let review_tail = fresh(RECORD_BUDGET as nat).subrange(
        record.len() as int,
        RECORD_BUDGET as int,
    );
    lemma_review_round_trip(review, review_tail);
    lemma_review_round_trip(review, Seq::empty());
    let counter = counter_encoding(0);
    let counter_tail = fresh(COUNTER_BUDGET as nat).subrange(
        counter.len() as int,
        COUNTER_BUDGET as int,
    );
    lemma_counter_round_trip(0, counter_tail);
    assert(accounts[0].wf());
}

/// Single initialisation: once a review was created, creating it again
/// fails with `AlreadyInitialized`, however many allocations are granted.
pub proof fn law_single_initialization(
    program: Seq<u8>,
    accounts: Seq<AccountView>,
    title: Seq<char>,
    rating: u8,
    description: Seq<char>,
    granted: nat,
    after: Seq<AccountView>,
    again: nat,
)
    requires
        well_formed(accounts),
        add_review_outcome(program, accounts, title, rating, description, granted) == Ok::<
            StepView,
            ReviewError,
        >(StepView::Done(after)),
    ensures
        add_review_outcome(program, after, title, rating, description, again) == Err::<
            StepView,
            ReviewError,
        >(ReviewError::AlreadyInitialized),
{
    law_atomic_pairing(program, accounts, title, rating, description, granted, after);
}

/// Address binding: a review that was created under one title cannot be
/// updated under a title that leads to another address. The update fails
/// with `InvalidAddress`.
pub proof fn law_address_binding(
    program: Seq<u8>,
    accounts: Seq<AccountView>,
    title: Seq<char>,
    rating: u8,
    description: Seq<char>,
    granted: nat,
    after: Seq<AccountView>,
    other_title: Seq<char>,
    other_rating: u8,
    other_description: Seq<char>,
)
    requires
        well_formed(accounts),
        add_review_outcome(program, accounts, title, rating, description, granted) == Ok::<
            StepView,
            ReviewError,
        >(StepView::Done(after)),
        !address_matches(review_seeds(accounts[0].key, other_title), program, accounts[1].key),
    ensures
        update_outcome(program, after, other_title, other_rating, other_description) == Err::<
            StepView,
            ReviewError,
        >(ReviewError::InvalidAddress),
{
    law_atomic_pairing(program, accounts, title, rating, description, granted, after);
}

/// A review that was created can be updated under its own title by its
/// author: the update completes when the new rating is in bounds and the new
/// record fits the budget, and then the record holds the new values.
pub proof fn law_update_after_creation(
    program: Seq<u8>,
    accounts: Seq<AccountView>,
    title: Seq<char>,
    rating: u8,
    description: Seq<char>,
    granted: nat,
    after: Seq<AccountView>,
    new_rating: u8,
    new_description: Seq<char>,
)
    requires
        well_formed(accounts),
        program.len() == 32,
        add_review_outcome(program, accounts, title, rating, description, granted) == Ok::<
            StepView,
            ReviewError,
        >(StepView::Done(after)),
        rating_in_bounds(new_rating),
        review_size(title, new_description) <= RECORD_BUDGET,
    ensures
        update_outcome(program, after, title, new_rating, new_description) matches Ok(
            StepView::Done(updated),
        ) && updated.len() == after.len() && review_decoding(updated[1].data) == Ok::<
            Option<MovieAccountStateView>,
            ReviewError,
        >(
            Some(
                MovieAccountStateView {
                    reviewer: accounts[0].key,
                    rating: new_rating,
                    title,
                    description: new_description,
                },
            ),
        ),
{
    law_atomic_pairing(program, accounts, title, rating, description, granted, after);
    let review = MovieAccountStateView {
        reviewer: accounts[0].key,
        rating: new_rating,
        title,
        description: new_description,
    };
    let record = review_encoding(review);
    lemma_review_round_trip(review, Seq::empty());
    let tail = after[1].data.subrange(record.len() as int, after[1].data.len() as int);
    lemma_review_round_trip(review, tail);
    assert(accounts[0].wf());
}

/// Rating bounds on creation: a rating outside `1..=5` fails with
/// `InvalidRating` once the signature and the address were accepted, and a
/// rating inside never fails with it.
pub proof fn law_rating_bounds_on_creation(
    program: Seq<u8>,
    accounts: Seq<AccountView>,
    title: Seq<char>,
    rating: u8,
    description: Seq<char>,
    granted: nat,
)
    ensures
        !rating_in_bounds(rating) && accounts.len() >= 4 && accounts[0].is_signer
            && address_matches(review_seeds(accounts[0].key, title), program, accounts[1].key)
            ==> add_review_outcome(program, accounts, title, rating, description, granted)
            == Err::<StepView, ReviewError>(ReviewError::InvalidRating),
        rating_in_bounds(rating) ==> add_review_outcome(
            program,
            accounts,
            title,
            rating,
            description,
            granted,
        ) != Err::<StepView, ReviewError>(ReviewError::InvalidRating),
{
}

/// Rating bounds on update: a rating outside `1..=5` fails with
/// `InvalidRating` once the signature, the owner and the address were
/// accepted, and a rating inside never fails with it.
pub proof fn law_rating_bounds_on_update(
    program: Seq<u8>,
    accounts: Seq<AccountView>,
    title: Seq<char>,
    rating: u8,
    description: Seq<char>,
)
    ensures
        !rating_in_bounds(rating) && accounts.len() >= 2 && accounts[0].is_signer
            && accounts[1].owner == program && address_matches(
            review_seeds(accounts[0].key, title),
            program,
            accounts[1].key,
        ) ==> update_outcome(program, accounts, title, rating, description) == Err::<
            StepView,
            ReviewError,
        >(ReviewError::InvalidRating),
        rating_in_bounds(rating) ==> update_outcome(program, accounts, title, rating, description)
            != Err::<StepView, ReviewError>(ReviewError::InvalidRating),
{
}

/// Size ceiling on creation: a review whose encoded size exceeds the budget
/// fails with `InvalidDataLength` once the signature, the address and the
/// rating were accepted, and a review that fits never fails with it.
pub proof fn law_size_ceiling_on_creation(
    program: Seq<u8>,
    accounts: Seq<AccountView>,
    title: Seq<char>,
    rating: u8,
    description: Seq<char>,
    granted: nat,
)
    ensures
        review_size(title, description) > RECORD_BUDGET && accounts.len() >= 4
            && accounts[0].is_signer && address_matches(
            review_seeds(accounts[0].key, title),
            program,
            accounts[1].key,
        ) && rating_in_bounds(rating) ==> add_review_outcome(
            program,
            accounts,
            title,
            rating,
            description,
            granted,
        ) == Err::<StepView, ReviewError>(ReviewError::InvalidDataLength),
        review_size(title, description) <= RECORD_BUDGET ==> add_review_outcome(
            program,
            accounts,
            title,
            rating,
            description,
            granted,
        ) != Err::<StepView, ReviewError>(ReviewError::InvalidDataLength),
{
}

/// Size ceiling on update: a review whose encoded size exceeds the budget
/// fails with `InvalidDataLength` once the signature, the owner, the address
/// and the rating were accepted, and a review that fits a buffer of the full
/// budget never fails with it.
pub proof fn law_size_ceiling_on_update(
    program: Seq<u8>,
    accounts: Seq<AccountView>,
    title: Seq<char>,
    rating: u8,
    description: Seq<char>,
)
    ensures
        review_size(title, description) > RECORD_BUDGET && accounts.len() >= 2
            && accounts[0].is_signer && accounts[1].owner == program && address_matches(
            review_seeds(accounts[0].key, title),
            program,
            accounts[1].key,
        ) && rating_in_bounds(rating) ==> update_outcome(
            program,
            accounts,
            title,
            rating,
            description,
        ) == Err::<StepView, ReviewError>(ReviewError::InvalidDataLength),
        review_size(title, description) <= RECORD_BUDGET && accounts.len() >= 2
            && accounts[1].data.len() >= RECORD_BUDGET ==> update_outcome(
            program,
            accounts,
            title,
            rating,
            description,
        ) != Err::<StepView, ReviewError>(ReviewError::InvalidDataLength),
{
}

/// Size ceiling on comments: a comment whose encoded size exceeds the budget
/// never completes and never asks for storage, and a comment that fits never
/// fails with `InvalidDataLength`.
pub proof fn law_size_ceiling_on_comments(
    program: Seq<u8>,
    accounts: Seq<AccountView>,
    comment: Seq<char>,
    granted: nat,
)
    ensures
        comment_size(comment) > RECORD_BUDGET ==> add_comment_outcome(
            program,
            accounts,
            comment,
            granted,
        ) is Err,
        comment_size(comment) <= RECORD_BUDGET ==> add_comment_outcome(
            program,
            accounts,
            comment,
            granted,
        ) != Err::<StepView, ReviewError>(ReviewError::InvalidDataLength),
{
}

/// A completed comment took the counter's value as its sequence number and
/// left the counter one higher. The comment holds the review's address, the
/// commenter and the text; every other account is as it was.
pub proof fn law_comment_takes_count(
    program: Seq<u8>,
    accounts: Seq<AccountView>,
    comment: Seq<char>,
    granted: nat,
    after: Seq<AccountView>,
)
    requires
        well_formed(accounts),
        add_comment_outcome(program, accounts, comment, granted) == Ok::<StepView, ReviewError>(
            StepView::Done(after),
        ),
    ensures
        granted >= 1,
        after.len() == accounts.len(),
        forall|i: int| 0 <= i < after.len() && i != 2 && i != 3 ==> after[i] == accounts[i],
        after[2].key == accounts[2].key && after[2].owner == accounts[2].owner,
        after[3].key == accounts[3].key && after[3].owner == program,
        after[2].data.len() == accounts[2].data.len(),
        after[3].data.len() == RECORD_BUDGET,
        counter_decoding(accounts[2].data) matches Ok(Some(count)) && count < u64::MAX
            && counter_decoding(after[2].data) == Ok::<Option<u64>, ReviewError>(
            Some((count + 1) as u64),
        ) && comment_decoding(after[3].data) == Ok::<Option<MovieCommentView>, ReviewError>(
            Some(
                MovieCommentView {
                    reviewer: accounts[1].key,
                    commenter: accounts[0].key,
                    comment,
                    count,
                },
            ),
        ),
{
    let count = counter_decoding(accounts[2].data)->Ok_0->0;
    let entry = MovieCommentView {
        reviewer: accounts[1].key,
        commenter: accounts[0].key,
        comment,
        count,
    };
    let record = comment_encoding(entry);
    let tail = fresh(RECORD_BUDGET as nat).subrange(record.len() as int, RECORD_BUDGET as int);
    assert(accounts[0].wf());
    assert(accounts[1].wf());
    lemma_comment_round_trip(entry, tail);
    lemma_comment_round_trip(entry, Seq::empty());
    let raised = counter_encoding((count + 1) as u64);
    let counter_data = accounts[2].data;
    let counter_tail = counter_data.subrange(raised.len() as int, counter_data.len() as int);
    lemma_counter_round_trip((count + 1) as u64, counter_tail);
    lemma_counter_buffer_len(accounts[2].data);
}

/// A completed update leaves an initialised review in a buffer of the same
/// length, with the new rating, which is in bounds, the title under which
/// the review is addressed and the new description. The author stays, and so
/// does every other account.
pub proof fn law_update_writes_review(
    program: Seq<u8>,
    accounts: Seq<AccountView>,
    title: Seq<char>,
    rating: u8,
    description: Seq<char>,
    after: Seq<AccountView>,
)
    requires
        update_outcome(program, accounts, title, rating, description) == Ok::<
            StepView,
            ReviewError,
        >(StepView::Done(after)),
    ensures
        rating_in_bounds(rating),
        after.len() == accounts.len(),
        forall|i: int| 0 <= i < after.len() && i != 1 ==> after[i] == accounts[i],
        after[1].key == accounts[1].key && after[1].owner == accounts[1].owner,
        after[1].data.len() == accounts[1].data.len(),
        review_decoding(accounts[1].data) matches Ok(Some(old)) && review_decoding(after[1].data)
            == Ok::<Option<MovieAccountStateView>, ReviewError>(
            Some(MovieAccountStateView { reviewer: old.reviewer, rating, title, description }),
        ),
{
    let old = review_decoding(accounts[1].data)->Ok_0->0;
    let review = MovieAccountStateView { reviewer: old.reviewer, rating, title, description };
    let record = review_encoding(review);
    let data = accounts[1].data;
    lemma_review_round_trip(review, Seq::empty());
    lemma_review_round_trip(review, data.subrange(record.len() as int, data.len() as int));
}

/// An update never asks for storage.
pub proof fn law_update_needs_no_storage(
    program: Seq<u8>,
    accounts: Seq<AccountView>,
    title: Seq<char>,
    rating: u8,
    description: Seq<char>,
)
    ensures
        !(update_outcome(program, accounts, title, rating, description) matches Ok(
            StepView::Allocate(_),
        )),
{
}

/// A request asks for storage a bounded number of times: a creation that
/// was granted two allocations, and a comment that was granted one, either
/// completes or fails.
pub proof fn law_requests_end(
    program: Seq<u8>,
    accounts: Seq<AccountView>,
    title: Seq<char>,
    rating: u8,
    description: Seq<char>,
    comment: Seq<char>,
    granted: nat,
)
    ensures
        granted >= 2 ==> !(add_review_outcome(
            program,
            accounts,
            title,
            rating,
            description,
            granted,
        ) matches Ok(StepView::Allocate(_))),
        granted >= 1 ==> !(add_comment_outcome(program, accounts, comment, granted) matches Ok(
            StepView::Allocate(_),
        )),
{
}

/// A refusal is final: a request that fails after some allocations were
/// granted fails in the same way after any further one.
pub proof fn law_refusal_is_final(
    program: Seq<u8>,
    accounts: Seq<AccountView>,
    title: Seq<char>,
    rating: u8,
    description: Seq<char>,
    comment: Seq<char>,
    granted: nat,
    later: nat,
)
    requires
        granted <= later,
    ensures
        add_review_outcome(program, accounts, title, rating, description, granted) is Err
            ==> add_review_outcome(program, accounts, title, rating, description, later)
            == add_review_outcome(program, accounts, title, rating, description, granted),
        add_comment_outcome(program, accounts, comment, granted) is Err ==> add_comment_outcome(
            program,
            accounts,
            comment,
            later,
        ) == add_comment_outcome(program, accounts, comment, granted),
{
}

/// An account as the host leaves it after it created `space` bytes of
/// storage for it under `program`.
pub open spec fn granted_storage(account: AccountView, program: Seq<u8>, space: nat) -> AccountView {
    AccountView { owner: program, data: fresh(space), ..account }
}

/// A request may be run again on the accounts as they were or on the
/// accounts as the host left them: a creation that is run again after its
/// review's storage was created answers the same whether or not it is shown
/// that storage, and so does a comment after its storage was created.
pub proof fn law_rerun_sees_granted_storage(
    program: Seq<u8>,
    accounts: Seq<AccountView>,
    title: Seq<char>,
    rating: u8,
    description: Seq<char>,
    comment: Seq<char>,
    granted: nat,
)
    requires
        granted >= 1,
    ensures
        accounts.len() >= 4 && review_decoding(accounts[1].data) == Ok::<
            Option<MovieAccountStateView>,
            ReviewError,
        >(None) ==> add_review_outcome(
            program,
            accounts.update(1, granted_storage(accounts[1], program, RECORD_BUDGET as nat)),
            title,
            rating,
            description,
            granted,
        ) == add_review_outcome(program, accounts, title, rating, description, granted),
        accounts.len() >= 5 && comment_decoding(accounts[3].data) == Ok::<
            Option<MovieCommentView>,
            ReviewError,
        >(None) ==> add_comment_outcome(
            program,
            accounts.update(3, granted_storage(accounts[3], program, RECORD_BUDGET as nat)),
            comment,
            granted,
        ) == add_comment_outcome(program, accounts, comment, granted),
{
    law_fresh_storage_is_vacant(RECORD_BUDGET as nat);
    if accounts.len() >= 4 {
        let shown = accounts.update(
            1,
            granted_storage(accounts[1], program, RECORD_BUDGET as nat),
        );
        assert forall|record: AccountView| #[trigger]
            shown.update(1, record) =~= accounts.update(1, record) by {}
    }
    if accounts.len() >= 5 {
        let shown = accounts.update(
            3,
            granted_storage(accounts[3], program, RECORD_BUDGET as nat),
        );
        assert forall|record: AccountView| #[trigger]
            shown.update(3, record) =~= accounts.update(3, record) by {}
    }
}

/// Comments are immutable: a request to add a comment where one already
/// stands fails, whatever else it says.
pub proof fn law_comments_are_immutable(
    program: Seq<u8>,
    accounts: Seq<AccountView>,
    comment: Seq<char>,
    granted: nat,
)
    requires
        accounts.len() >= 5,
        comment_decoding(accounts[3].data) matches Ok(Some(_)),
    ensures
        add_comment_outcome(program, accounts, comment, granted) is Err,
{
}

/// One comment that was added: the accounts it was given, its text, the
/// allocations that were granted, and the accounts it left.
pub struct AddedComment {
    pub before: Seq<AccountView>,
    pub comment: Seq<char>,
    pub granted: nat,
    pub after: Seq<AccountView>,
}

/// Whether `added` is a run of completed comments on one counter that starts
/// at zero: each comment finds the counter as the one before left it.
#[verifier::opaque]
pub open spec fn comments_in_sequence(program: Seq<u8>, added: Seq<AddedComment>) -> bool {
    &&& forall|i: int|
        0 <= i < added.len() ==> well_formed((#[trigger] added[i]).before)
            && add_comment_outcome(program, added[i].before, added[i].comment, added[i].granted)
            == Ok::<StepView, ReviewError>(StepView::Done(added[i].after))
    &&& added.len() > 0 ==> counter_decoding(added[0].before[2].data) == Ok::<
        Option<u64>,
        ReviewError,
    >(Some(0))
    &&& forall|i: int|
        0 < i < added.len() ==> (#[trigger] added[i]).before[2].data == added[i - 1].after[2].data
}

/// What `comments_in_sequence` says of the comment at position `i`.
proof fn lemma_comment_in_sequence(program: Seq<u8>, added: Seq<AddedComment>, i: int)
    requires
        comments_in_sequence(program, added),
        0 <= i < added.len(),
    ensures
        well_formed(added[i].before),
        add_comment_outcome(program, added[i].before, added[i].comment, added[i].granted) == Ok::<
            StepView,
            ReviewError,
        >(StepView::Done(added[i].after)),
        i == 0 ==> counter_decoding(added[i].before[2].data) == Ok::<Option<u64>, ReviewError>(
            Some(0),
        ),
        i > 0 ==> added[i].before[2].data == added[i - 1].after[2].data,
{
    reveal(comments_in_sequence);
}

/// One step of a run: a completed comment that found the counter at `count`
/// carries `count` and leaves the counter at `count + 1`.
proof fn lemma_comment_raises_counter(program: Seq<u8>, step: AddedComment, count: u64)
    requires
        well_formed(step.before),
        add_comment_outcome(program, step.before, step.comment, step.granted) == Ok::<
            StepView,
            ReviewError,
        >(StepView::Done(step.after)),
        counter_decoding(step.before[2].data) == Ok::<Option<u64>, ReviewError>(Some(count)),
    ensures
        count < u64::MAX,
        comment_decoding(step.after[3].data) matches Ok(Some(entry)) && entry.count == count,
        counter_decoding(step.after[2].data) == Ok::<Option<u64>, ReviewError>(
            Some((count + 1) as u64),
        ),
{
    law_comment_takes_count(program, step.before, step.comment, step.granted, step.after);
}

/// Counter monotonicity: in a run of comments on one counter that starts at
/// zero, the comment at position `i` has sequence number `i`, and after it
/// the counter holds `i + 1`. So `n` comments carry the numbers `0` to
/// `n - 1`, each once, and leave the counter at `n`.
pub proof fn law_counter_monotonicity(program: Seq<u8>, added: Seq<AddedComment>, i: int)
    requires
        comments_in_sequence(program, added),
        0 <= i < added.len(),
    ensures
        i < u64::MAX,
        counter_decoding(added[i].before[2].data) == Ok::<Option<u64>, ReviewError>(
            Some(i as u64),
        ),
        comment_decoding(added[i].after[3].data) matches Ok(Some(entry)) && entry.count == i,
        counter_decoding(added[i].after[2].data) == Ok::<Option<u64>, ReviewError>(
            Some((i + 1) as u64),
        ),
    decreases i,
{
    lemma_comment_in_sequence(program, added, i);
    if i > 0 {
        law_counter_monotonicity(program, added, i - 1);
    }
    lemma_comment_raises_counter(program, added[i], i as u64);
}

} // verus!
