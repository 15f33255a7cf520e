//! The requests that the program accepts and their wire form: one byte that
//! names the action, then the action's payload and nothing behind it.

use crate::error::ReviewError;
use crate::wire::{
    byte_decoding, lemma_string_round_trip, string_decoding, string_encoding, take_byte,
    take_string,
};
use vstd::prelude::*;
use vstd::utf8::encode_utf8;

verus! {

/// A decoded request.
#[derive(Clone, Debug, PartialEq, Eq)]
pub enum MovieInstruction {
    /// Create a review and its comment counter.
    AddMovieReview { title: String, rating: u8, description: String },
    /// Replace the rating and the description of an existing review.
    UpdateMovieReview { title: String, rating: u8, description: String },
    /// Add a comment to a review.
    AddComment { comment: String },
}

/// The mathematical value of a request.
pub enum MovieInstructionView {
    AddMovieReview { title: Seq<char>, rating: u8, description: Seq<char> },
    UpdateMovieReview { title: Seq<char>, rating: u8, description: Seq<char> },
    AddComment { comment: Seq<char> },
}

impl View for MovieInstruction {
    type V = MovieInstructionView;

    open spec fn view(&self) -> MovieInstructionView {
        match self {
            MovieInstruction::AddMovieReview { title, rating, description } => {
                MovieInstructionView::AddMovieReview {
                    title: title@,
                    rating: *rating,
                    description: description@,
                }
            },
            MovieInstruction::UpdateMovieReview { title, rating, description } => {
                MovieInstructionView::UpdateMovieReview {
                    title: title@,
                    rating: *rating,
                    description: description@,
                }
            },
            MovieInstruction::AddComment { comment } => MovieInstructionView::AddComment {
                comment: comment@,
            },
        }
    }
}

/// The action byte of `AddMovieReview`.
pub const ADD_MOVIE_REVIEW: u8 = 0;

/// The action byte of `UpdateMovieReview`.
pub const UPDATE_MOVIE_REVIEW: u8 = 1;

/// The action byte of `AddComment`.
pub const ADD_COMMENT: u8 = 2;

/// The payload of the two review actions: title, rating, description, and
/// nothing behind them.
pub open spec fn review_payload_decoding(payload: Seq<u8>) -> Option<(Seq<char>, u8, Seq<char>)> {
    match string_decoding(payload) {
        None => None,
        Some((title, b1)) => match byte_decoding(b1) {
            None => None,
            Some((rating, b2)) => match string_decoding(b2) {
                None => None,
                Some((description, b3)) => if b3.len() == 0 {
                    Some((title, rating, description))
                } else {
                    None
                },
            },
        },
    }
}

/// The payload of the comment action: the text, and nothing behind it.
pub open spec fn comment_payload_decoding(payload: Seq<u8>) -> Option<Seq<char>> {
    match string_decoding(payload) {
        None => None,
        Some((comment, rest)) => if rest.len() == 0 {
            Some(comment)
        } else {
            None
        },
    }
}

/// The request that `input` encodes, or `None` where it encodes none: it is
/// empty, names an unknown action, or its payload cannot be read or is
/// followed by further bytes.
pub open spec fn instruction_decoding(input: Seq<u8>) -> Option<MovieInstructionView> {
    if input.len() == 0 {
        None
    } else {
        let payload = input.subrange(1, input.len() as int);
        if input[0] == ADD_MOVIE_REVIEW {
            match review_payload_decoding(payload) {
                None => None,
                Some((title, rating, description)) => Some(
                    MovieInstructionView::AddMovieReview { title, rating, description },
                ),
            }
        } else if input[0] == UPDATE_MOVIE_REVIEW {
            match review_payload_decoding(payload) {
                None => None,
                Some((title, rating, description)) => Some(
                    MovieInstructionView::UpdateMovieReview { title, rating, description },
                ),
            }
        } else if input[0] == ADD_COMMENT {
            match comment_payload_decoding(payload) {
                None => None,
                Some(comment) => Some(MovieInstructionView::AddComment { comment }),
            }
        } else {
            None
        }
    }
}

/// The wire form of a request.
pub open spec fn instruction_encoding(instruction: MovieInstructionView) -> Seq<u8> {
    match instruction {
        MovieInstructionView::AddMovieReview { title, rating, description } => seq![
            ADD_MOVIE_REVIEW,
        ] + string_encoding(title) + seq![rating] + string_encoding(description),
        MovieInstructionView::UpdateMovieReview { title, rating, description } => seq![
            UPDATE_MOVIE_REVIEW,
        ] + string_encoding(title) + seq![rating] + string_encoding(description),
        MovieInstructionView::AddComment { comment } => seq![ADD_COMMENT] + string_encoding(
            comment,
        ),
    }
}

/// Whether every string of the request is short enough for its 32-bit
/// length prefix.
pub open spec fn encodable(instruction: MovieInstructionView) -> bool {
    match instruction {
        MovieInstructionView::AddMovieReview { title, rating, description } => encode_utf8(
            title,
        ).len() <= u32::MAX && encode_utf8(description).len() <= u32::MAX,
        MovieInstructionView::UpdateMovieReview { title, rating, description } => encode_utf8(
            title,
        ).len() <= u32::MAX && encode_utf8(description).len() <= u32::MAX,
        MovieInstructionView::AddComment { comment } => encode_utf8(comment).len() <= u32::MAX,
    }
}

/// Reads the payload of a review action.
fn take_review_payload(payload: &[u8]) -> (r: Option<(String, u8, String)>)
    ensures
        match r {
            Some((title, rating, description)) => review_payload_decoding(payload@) == Some(
                (title@, rating, description@),
            ),
            None => review_payload_decoding(payload@) is None,
        },
{
    let (title, b1) = match take_string(payload) {
        None => { return None; },
        Some(found) => found,
    };
    let (rating, b2) = match take_byte(b1) {
        None => { return None; },
        Some(found) => found,
    };
    let (description, b3) = match take_string(b2) {
        None => { return None; },
        Some(found) => found,
    };
    if b3.len() == 0 {
        Some((title, rating, description))
    } else {
        None
    }
}

impl MovieInstruction {
    /// Decodes a request. Fails with `MalformedPayload`, and with nothing
    /// else, exactly where `input` encodes no request.
    pub fn unpack(input: &[u8]) -> (r: Result<MovieInstruction, ReviewError>)
        ensures
            match r {
                Ok(instruction) => instruction_decoding(input@) == Some(instruction@),
                Err(e) => e == ReviewError::MalformedPayload && instruction_decoding(input@)
                    is None,
            },
    {
        let (action, payload) = match take_byte(input) {
            None => { return Err(ReviewError::MalformedPayload); },
            Some(found) => found,
        };
        if action == ADD_MOVIE_REVIEW {
            match take_review_payload(payload) {
                None => Err(ReviewError::MalformedPayload),
                Some((title, rating, description)) => Ok(
                    MovieInstruction::AddMovieReview { title, rating, description },
                ),
            }
        } else if action == UPDATE_MOVIE_REVIEW {
            match take_review_payload(payload) {
                None => Err(ReviewError::MalformedPayload),
                Some((title, rating, description)) => Ok(
                    MovieInstruction::UpdateMovieReview { title, rating, description },
                ),
            }
        } else if action == ADD_COMMENT {
            match take_string(payload) {
                None => Err(ReviewError::MalformedPayload),
                Some((comment, rest)) => {
                    if rest.len() == 0 {
                        Ok(MovieInstruction::AddComment { comment })
                    } else {
                        Err(ReviewError::MalformedPayload)
                    }
                },
            }
        } else {
            Err(ReviewError::MalformedPayload)
        }
    }
}

/// Every request whose strings fit their length prefixes is decoded from its
/// wire form as itself.
pub proof fn lemma_instruction_round_trip(instruction: MovieInstructionView)
    requires
        encodable(instruction),
    ensures
        instruction_decoding(instruction_encoding(instruction)) == Some(instruction),
{
    let input = instruction_encoding(instruction);
    let payload = input.subrange(1, input.len() as int);
    let empty = Seq::<u8>::empty();
    match instruction {
        MovieInstructionView::AddMovieReview { title, rating, description } => {
            lemma_review_payload_round_trip(title, rating, description);
            assert(payload =~= string_encoding(title) + seq![rating] + string_encoding(
                description,
            ));
        },
        MovieInstructionView::UpdateMovieReview { title, rating, description } => {
            lemma_review_payload_round_trip(title, rating, description);
            assert(payload =~= string_encoding(title) + seq![rating] + string_encoding(
                description,
            ));
        },
        MovieInstructionView::AddComment { comment } => {
            lemma_string_round_trip(comment, empty);
            assert(payload =~= string_encoding(comment) + empty);
        },
    }
}

/// The payload of a review action is read back as it was written.
proof fn lemma_review_payload_round_trip(title: Seq<char>, rating: u8, description: Seq<char>)
    requires
        encode_utf8(title).len() <= u32::MAX,
        encode_utf8(description).len() <= u32::MAX,
    ensures
        review_payload_decoding(
            string_encoding(title) + seq![rating] + string_encoding(description),
        ) == Some((title, rating, description)),
{
    let empty = Seq::<u8>::empty();
    let b2 = string_encoding(description) + empty;
    let b1 = seq![rating] + b2;
    lemma_string_round_trip(description, empty);
    lemma_string_round_trip(title, b1);
    assert(string_encoding(title) + seq![rating] + string_encoding(description)
        =~= string_encoding(title) + b1);
    assert(b1.subrange(1, b1.len() as int) =~= b2);
}

} // verus!
