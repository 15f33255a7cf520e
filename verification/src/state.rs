//! The three records of the store and their wire layout.
//!
//! Every record begins with a header: its discriminator, a string that tells
//! which kind of record the buffer holds, and a flag that is set once the
//! record has been initialised. The fields follow in declaration order. A
//! buffer may be longer than the record in it: what lies behind the record is
//! not read.

use crate::address::Address;
use crate::error::ReviewError;
use crate::wire::{
    address_decoding, byte_decoding, byte_len, flag_decoding, flag_encoding, lemma_string_frame,
    lemma_string_round_trip, lemma_u64_round_trip, put_address, put_flag, put_string, put_u64,
    string_decoding, string_encoding, take_address, take_byte, take_flag, take_string, take_u64,
    u64_decoding, u64_le_bytes,
};
use vstd::prelude::*;
use vstd::utf8::{encode_utf8, is_ascii_chars, is_ascii_chars_encode_utf8};

verus! {

/// The storage budget of a review record and of a comment record, in bytes.
pub const RECORD_BUDGET: usize = 1000;

/// The storage budget of a comment counter, in bytes: its encoded size.
pub const COUNTER_BUDGET: usize = 20;

/// The header of an initialised record with discriminator `tag`.
pub open spec fn header_encoding(tag: Seq<char>) -> Seq<u8> {
    string_encoding(tag) + flag_encoding(true)
}

/// Reads the header of a record that is expected to carry `tag`.
///
/// `Ok(None)`: the buffer holds no record yet, because it is empty or because
/// its flag is not set. `Ok(Some(body))`: the buffer holds an initialised
/// record of the expected kind, whose fields start at `body`. An error: the
/// header cannot be read, or an initialised record carries another tag.
pub open spec fn header_decoding(tag: Seq<char>, data: Seq<u8>) -> Result<
    Option<Seq<u8>>,
    ReviewError,
> {
    if data.len() == 0 {
        Ok(None)
    } else {
        match string_decoding(data) {
            None => Err(ReviewError::MalformedPayload),
            Some((found, rest)) => match flag_decoding(rest) {
                None => Err(ReviewError::MalformedPayload),
                Some((initialized, body)) => if !initialized {
                    Ok(None)
                } else if found != tag {
                    Err(ReviewError::MalformedPayload)
                } else {
                    Ok(Some(body))
                },
            },
        }
    }
}

/// Reads the header of a record that is expected to carry `tag`.
pub fn take_header<'a>(tag: &str, data: &'a [u8]) -> (r: Result<Option<&'a [u8]>, ReviewError>)
    ensures
        match r {
            Ok(Some(body)) => header_decoding(tag@, data@) == Ok::<Option<Seq<u8>>, ReviewError>(
                Some(body@),
            ),
            Ok(None) => header_decoding(tag@, data@) == Ok::<Option<Seq<u8>>, ReviewError>(None),
            Err(e) => header_decoding(tag@, data@) == Err::<Option<Seq<u8>>, ReviewError>(e),
        },
{
    if data.len() == 0 {
        return Ok(None);
    }
    match take_string(data) {
        None => Err(ReviewError::MalformedPayload),
        Some((found, rest)) => match take_flag(rest) {
            None => Err(ReviewError::MalformedPayload),
            Some((initialized, body)) => {
                if !initialized {
                    Ok(None)
                } else if found != tag.to_owned() {
                    Err(ReviewError::MalformedPayload)
                } else {
                    Ok(Some(body))
                }
            },
        },
    }
}

/// Appends the header of an initialised record to `out`.
pub(crate) fn put_header(out: &mut Vec<u8>, tag: &str)
    requires
        encode_utf8(tag@).len() <= u32::MAX,
    ensures
        final(out)@ == old(out)@ + header_encoding(tag@),
{
    let ok = put_string(out, tag);
    put_flag(out, true);
    assert(out@ =~= old(out)@ + header_encoding(tag@));
}

/// A header that was written is read as the header of an initialised record,
/// and the fields behind it are left over.
pub proof fn lemma_header_round_trip(tag: Seq<char>, body: Seq<u8>)
    requires
        encode_utf8(tag).len() <= u32::MAX,
    ensures
        header_decoding(tag, header_encoding(tag) + body) == Ok::<Option<Seq<u8>>, ReviewError>(
            Some(body),
        ),
        header_encoding(tag).len() == 4 + encode_utf8(tag).len() + 1,
{
    let rest = flag_encoding(true) + body;
    lemma_string_round_trip(tag, rest);
    assert(header_encoding(tag) + body =~= string_encoding(tag) + rest);
    assert(rest.subrange(1, rest.len() as int) =~= body);
}

/// A buffer that holds an initialised record consists of the header's bytes
/// and the record's fields.
pub proof fn lemma_header_frame(tag: Seq<char>, data: Seq<u8>)
    ensures
        header_decoding(tag, data) matches Ok(Some(body)) ==> data.len() == 4 + encode_utf8(
            tag,
        ).len() + 1 + body.len(),
{
    lemma_string_frame(data);
}

/// A review of a movie, as its record holds it.
#[derive(Clone, Debug, PartialEq, Eq)]
pub struct MovieAccountState {
    /// Who wrote the review.
    pub reviewer: Address,
    /// The rating, from 1 to 5.
    pub rating: u8,
    /// The movie's title; with the author it is the review's key.
    pub title: String,
    /// The review's text.
    pub description: String,
}

/// The mathematical value of a review.
pub struct MovieAccountStateView {
    pub reviewer: Seq<u8>,
    pub rating: u8,
    pub title: Seq<char>,
    pub description: Seq<char>,
}

impl View for MovieAccountState {
    type V = MovieAccountStateView;

    open spec fn view(&self) -> MovieAccountStateView {
        MovieAccountStateView {
            reviewer: self.reviewer@,
            rating: self.rating,
            title: self.title@,
            description: self.description@,
        }
    }
}

/// The discriminator of a review record.
pub open spec fn review_tag() -> Seq<char> {
    "review"@
}

/// The encoded size of a review with this title and description: the header,
/// the author, the rating and the two strings with their length prefixes.
pub open spec fn review_size(title: Seq<char>, description: Seq<char>) -> nat {
    (4 + 6) + 1 + 32 + 1 + (4 + encode_utf8(title).len()) + (4 + encode_utf8(description).len())
}

/// The wire form of an initialised review.
pub open spec fn review_encoding(review: MovieAccountStateView) -> Seq<u8> {
    header_encoding(review_tag()) + review.reviewer + seq![review.rating] + string_encoding(
        review.title,
    ) + string_encoding(review.description)
}

/// Reads the fields of a review.
pub open spec fn review_body_decoding(body: Seq<u8>) -> Option<MovieAccountStateView> {
    match address_decoding(body) {
        None => None,
        Some((reviewer, b1)) => match byte_decoding(b1) {
            None => None,
            Some((rating, b2)) => match string_decoding(b2) {
                None => None,
                Some((title, b3)) => match string_decoding(b3) {
                    None => None,
                    Some((description, _)) => Some(
                        MovieAccountStateView { reviewer, rating, title, description },
                    ),
                },
            },
        },
    }
}

/// The review that a buffer holds: `Ok(None)` where it holds no record yet,
/// `MalformedPayload` where it holds something that is no review.
pub open spec fn review_decoding(data: Seq<u8>) -> Result<
    Option<MovieAccountStateView>,
    ReviewError,
> {
    match header_decoding(review_tag(), data) {
        Err(e) => Err(e),
        Ok(None) => Ok(None),
        Ok(Some(body)) => match review_body_decoding(body) {
            None => Err(ReviewError::MalformedPayload),
            Some(review) => Ok(Some(review)),
        },
    }
}

/// The mathematical value of what `unpack` returns for a review.
pub open spec fn review_result_view(r: Result<Option<MovieAccountState>, ReviewError>) -> Result<
    Option<MovieAccountStateView>,
    ReviewError,
> {
    match r {
        Ok(Some(review)) => Ok(Some(review@)),
        Ok(None) => Ok(None),
        Err(e) => Err(e),
    }
}

/// The discriminator is six ASCII characters, so its UTF-8 form has six bytes.
pub proof fn lemma_review_tag_len()
    ensures
        encode_utf8(review_tag()).len() == 6,
{
    reveal_strlit("review");
    assert(is_ascii_chars(review_tag()));
    is_ascii_chars_encode_utf8(review_tag());
}

impl MovieAccountState {
    /// The discriminator of a review record.
    pub const DISCRIMINATOR: &'static str = "review";

    /// The storage budget of a review record, in bytes.
    pub const MAX_ACCOUNT_SIZE: usize = RECORD_BUDGET;

    /// The encoded size of a review with this title and description.
    pub fn get_account_size(title: &str, description: &str) -> (size: usize)
        requires
            review_size(title@, description@) <= usize::MAX,
        ensures
            size == review_size(title@, description@),
    {
        (4 + 6) + 1 + 32 + 1 + (4 + byte_len(title)) + (4 + byte_len(description))
    }

    /// Whether a review with this title and description fits the budget.
    pub fn fits(title: &str, description: &str) -> (ok: bool)
        ensures
            ok <==> review_size(title@, description@) <= Self::MAX_ACCOUNT_SIZE,
    {
        byte_len(title) <= Self::MAX_ACCOUNT_SIZE && byte_len(description)
            <= Self::MAX_ACCOUNT_SIZE && Self::get_account_size(title, description)
            <= Self::MAX_ACCOUNT_SIZE
    }

    /// Encodes the review as an initialised record. `None` where a string is
    /// too long for its 32-bit length prefix.
    pub fn pack(&self) -> (r: Option<Vec<u8>>)
        ensures
            r is Some <==> encode_utf8(self.title@).len() <= u32::MAX && encode_utf8(
                self.description@,
            ).len() <= u32::MAX,
            r matches Some(bytes) ==> bytes@ == review_encoding(self@),
    {
        if byte_len(self.title.as_str()) > 0xffff_ffff || byte_len(self.description.as_str())
            > 0xffff_ffff {
            None
        } else {
            Some(self.encode())
        }
    }

    /// Encodes a review whose strings fit their length prefixes.
    pub(crate) fn encode(&self) -> (bytes: Vec<u8>)
        requires
            encode_utf8(self.title@).len() <= u32::MAX,
            encode_utf8(self.description@).len() <= u32::MAX,
        ensures
            bytes@ == review_encoding(self@),
    {
        proof {
            lemma_review_tag_len();
        }
        let mut out: Vec<u8> = Vec::new();
        put_header(&mut out, Self::DISCRIMINATOR);
        put_address(&mut out, &self.reviewer);
        out.push(self.rating);
        let title_fits = put_string(&mut out, self.title.as_str());
        let description_fits = put_string(&mut out, self.description.as_str());
        assert(out@ =~= review_encoding(self@));
        out
    }

    /// Decodes the review that `data` holds.
    pub fn unpack(data: &[u8]) -> (r: Result<Option<MovieAccountState>, ReviewError>)
        ensures
            review_result_view(r) == review_decoding(data@),
    {
        let body = match take_header(Self::DISCRIMINATOR, data) {
            Err(e) => { return Err(e); },
            Ok(None) => { return Ok(None); },
            Ok(Some(body)) => body,
        };
        let (reviewer, b1) = match take_address(body) {
            None => { return Err(ReviewError::MalformedPayload); },
            Some(found) => found,
        };
        let (rating, b2) = match take_byte(b1) {
            None => { return Err(ReviewError::MalformedPayload); },
            Some(found) => found,
        };
        let (title, b3) = match take_string(b2) {
            None => { return Err(ReviewError::MalformedPayload); },
            Some(found) => found,
        };
        let (description, _) = match take_string(b3) {
            None => { return Err(ReviewError::MalformedPayload); },
            Some(found) => found,
        };
        Ok(Some(MovieAccountState { reviewer, rating, title, description }))
    }
}

/// A review that was written is read back as itself, whatever follows it
/// in the buffer, and takes as many bytes as `review_size` says.
pub proof fn lemma_review_round_trip(review: MovieAccountStateView, tail: Seq<u8>)
    requires
        review.reviewer.len() == 32,
        encode_utf8(review.title).len() <= u32::MAX,
        encode_utf8(review.description).len() <= u32::MAX,
    ensures
        review_decoding(review_encoding(review) + tail) == Ok::<
            Option<MovieAccountStateView>,
            ReviewError,
        >(Some(review)),
        review_encoding(review).len() == review_size(review.title, review.description),
{
    lemma_review_tag_len();
    let b3 = string_encoding(review.description) + tail;
    let b2 = string_encoding(review.title) + b3;
    let b1 = seq![review.rating] + b2;
    let body = review.reviewer + b1;
    lemma_string_round_trip(review.description, tail);
    lemma_string_round_trip(review.title, b3);
    assert(review_body_decoding(body) == Some(review)) by {
        assert(body.subrange(0, 32) =~= review.reviewer);
        assert(body.subrange(32, body.len() as int) =~= b1);
        assert(b1.subrange(1, b1.len() as int) =~= b2);
    }
    lemma_header_round_trip(review_tag(), body);
    assert(review_encoding(review) + tail =~= header_encoding(review_tag()) + body);
}

/// The comment counter of a review: the sequence number that the next
/// comment will get.
#[derive(Clone, Copy, Debug, PartialEq, Eq)]
pub struct MovieCommentCounter {
    /// How many comments the review has.
    pub counter: u64,
}

/// The discriminator of a comment counter.
pub open spec fn counter_tag() -> Seq<char> {
    "counter"@
}

/// The wire form of an initialised comment counter.
pub open spec fn counter_encoding(counter: u64) -> Seq<u8> {
    header_encoding(counter_tag()) + u64_le_bytes(counter)
}

/// The count that a buffer holds: `Ok(None)` where it holds no record yet,
/// `MalformedPayload` where it holds something that is no comment counter.
pub open spec fn counter_decoding(data: Seq<u8>) -> Result<Option<u64>, ReviewError> {
    match header_decoding(counter_tag(), data) {
        Err(e) => Err(e),
        Ok(None) => Ok(None),
        Ok(Some(body)) => match u64_decoding(body) {
            None => Err(ReviewError::MalformedPayload),
            Some((counter, _)) => Ok(Some(counter)),
        },
    }
}

/// The mathematical value of what `unpack` returns for a comment counter.
pub open spec fn counter_result_view(
    r: Result<Option<MovieCommentCounter>, ReviewError>,
) -> Result<Option<u64>, ReviewError> {
    match r {
        Ok(Some(record)) => Ok(Some(record.counter)),
        Ok(None) => Ok(None),
        Err(e) => Err(e),
    }
}

/// The discriminator is seven ASCII characters.
pub proof fn lemma_counter_tag_len()
    ensures
        encode_utf8(counter_tag()).len() == 7,
{
    reveal_strlit("counter");
    assert(is_ascii_chars(counter_tag()));
    is_ascii_chars_encode_utf8(counter_tag());
}

impl MovieCommentCounter {
    /// The discriminator of a comment counter.
    pub const DISCRIMINATOR: &'static str = "counter";

    /// The encoded size of a comment counter, which is also its storage
    /// budget: the header and the count.
    pub fn get_account_size() -> (size: usize)
        ensures
            size == COUNTER_BUDGET,
            forall|counter: u64| size == #[trigger] counter_encoding(counter).len(),
    {
        proof {
            assert forall|counter: u64| 20 == #[trigger] counter_encoding(counter).len() by {
                lemma_counter_round_trip(counter, Seq::empty());
            }
        }
        (4 + 7) + 1 + 8
    }

    /// Encodes the counter as an initialised record.
    pub fn pack(&self) -> (bytes: Vec<u8>)
        ensures
            bytes@ == counter_encoding(self.counter),
    {
        proof {
            lemma_counter_tag_len();
        }
        let mut out: Vec<u8> = Vec::new();
        put_header(&mut out, Self::DISCRIMINATOR);
        put_u64(&mut out, self.counter);
        out
    }

    /// Decodes the comment counter that `data` holds.
    pub fn unpack(data: &[u8]) -> (r: Result<Option<MovieCommentCounter>, ReviewError>)
        ensures
            counter_result_view(r) == counter_decoding(data@),
    {
        let body = match take_header(Self::DISCRIMINATOR, data) {
            Err(e) => { return Err(e); },
            Ok(None) => { return Ok(None); },
            Ok(Some(body)) => body,
        };
        match take_u64(body) {
            None => Err(ReviewError::MalformedPayload),
            Some((counter, _)) => Ok(Some(MovieCommentCounter { counter })),
        }
    }
}

/// A comment counter that was written is read back as itself, whatever
/// follows it in the buffer, and takes 20 bytes.
pub proof fn lemma_counter_round_trip(counter: u64, tail: Seq<u8>)
    ensures
        counter_decoding(counter_encoding(counter) + tail) == Ok::<Option<u64>, ReviewError>(
            Some(counter),
        ),
        counter_encoding(counter).len() == 20,
{
    lemma_counter_tag_len();
    let body = u64_le_bytes(counter) + tail;
    lemma_u64_round_trip(counter, tail);
    lemma_header_round_trip(counter_tag(), body);
    assert(counter_encoding(counter) + tail =~= header_encoding(counter_tag()) + body);
}

/// A buffer that holds an initialised comment counter has room for one.
pub proof fn lemma_counter_buffer_len(data: Seq<u8>)
    requires
        counter_decoding(data) matches Ok(Some(_)),
    ensures
        data.len() >= 20,
{
    lemma_counter_tag_len();
    lemma_header_frame(counter_tag(), data);
}

/// A comment on a review, as its record holds it.
#[derive(Clone, Debug, PartialEq, Eq)]
pub struct MovieComment {
    /// The address of the review that the comment belongs to.
    pub reviewer: Address,
    /// Who wrote the comment.
    pub commenter: Address,
    /// The comment's text.
    pub comment: String,
    /// The comment's sequence number under its review.
    pub count: u64,
}

/// The mathematical value of a comment.
pub struct MovieCommentView {
    pub reviewer: Seq<u8>,
    pub commenter: Seq<u8>,
    pub comment: Seq<char>,
    pub count: u64,
}

impl View for MovieComment {
    type V = MovieCommentView;

    open spec fn view(&self) -> MovieCommentView {
        MovieCommentView {
            reviewer: self.reviewer@,
            commenter: self.commenter@,
            comment: self.comment@,
            count: self.count,
        }
    }
}

/// The discriminator of a comment record.
pub open spec fn comment_tag() -> Seq<char> {
    "comment"@
}

/// The encoded size of a comment with this text: the header, the two
/// addresses, the text with its length prefix and the sequence number.
pub open spec fn comment_size(comment: Seq<char>) -> nat {
    (4 + 7) + 1 + 32 + 32 + (4 + encode_utf8(comment).len()) + 8
}

/// The wire form of an initialised comment.
pub open spec fn comment_encoding(comment: MovieCommentView) -> Seq<u8> {
    header_encoding(comment_tag()) + comment.reviewer + comment.commenter + string_encoding(
        comment.comment,
    ) + u64_le_bytes(comment.count)
}

/// Reads the fields of a comment.
pub open spec fn comment_body_decoding(body: Seq<u8>) -> Option<MovieCommentView> {
    match address_decoding(body) {
        None => None,
        Some((reviewer, b1)) => match address_decoding(b1) {
            None => None,
            Some((commenter, b2)) => match string_decoding(b2) {
                None => None,
                Some((comment, b3)) => match u64_decoding(b3) {
                    None => None,
                    Some((count, _)) => Some(
                        MovieCommentView { reviewer, commenter, comment, count },
                    ),
                },
            },
        },
    }
}

/// The comment that a buffer holds: `Ok(None)` where it holds no record yet,
/// `MalformedPayload` where it holds something that is no comment.
pub open spec fn comment_decoding(data: Seq<u8>) -> Result<Option<MovieCommentView>, ReviewError> {
    match header_decoding(comment_tag(), data) {
        Err(e) => Err(e),
        Ok(None) => Ok(None),
        Ok(Some(body)) => match comment_body_decoding(body) {
            None => Err(ReviewError::MalformedPayload),
            Some(comment) => Ok(Some(comment)),
        },
    }
}

/// The mathematical value of what `unpack` returns for a comment.
pub open spec fn comment_result_view(r: Result<Option<MovieComment>, ReviewError>) -> Result<
    Option<MovieCommentView>,
    ReviewError,
> {
    match r {
        Ok(Some(comment)) => Ok(Some(comment@)),
        Ok(None) => Ok(None),
        Err(e) => Err(e),
    }
}

/// The discriminator is seven ASCII characters.
pub proof fn lemma_comment_tag_len()
    ensures
        encode_utf8(comment_tag()).len() == 7,
{
    reveal_strlit("comment");
    assert(is_ascii_chars(comment_tag()));
    is_ascii_chars_encode_utf8(comment_tag());
}

impl MovieComment {
    /// The discriminator of a comment record.
    pub const DISCRIMINATOR: &'static str = "comment";

    /// The storage budget of a comment record, in bytes.
    pub const MAX_ACCOUNT_SIZE: usize = RECORD_BUDGET;

    /// The encoded size of a comment with this text.
    pub fn get_account_size(comment: &str) -> (size: usize)
        requires
            comment_size(comment@) <= usize::MAX,
        ensures
            size == comment_size(comment@),
    {
        (4 + 7) + 1 + 32 + 32 + (4 + byte_len(comment)) + 8
    }

    /// Whether a comment with this text fits the budget.
    pub fn fits(comment: &str) -> (ok: bool)
        ensures
            ok <==> comment_size(comment@) <= Self::MAX_ACCOUNT_SIZE,
    {
        byte_len(comment) <= Self::MAX_ACCOUNT_SIZE && Self::get_account_size(comment)
            <= Self::MAX_ACCOUNT_SIZE
    }

    /// Encodes the comment as an initialised record. `None` where the text is
    /// too long for its 32-bit length prefix.
    pub fn pack(&self) -> (r: Option<Vec<u8>>)
        ensures
            r is Some <==> encode_utf8(self.comment@).len() <= u32::MAX,
            r matches Some(bytes) ==> bytes@ == comment_encoding(self@),
    {
        if byte_len(self.comment.as_str()) > 0xffff_ffff {
            None
        } else {
            Some(self.encode())
        }
    }

    /// Encodes a comment whose text fits its length prefix.
    pub(crate) fn encode(&self) -> (bytes: Vec<u8>)
        requires
            encode_utf8(self.comment@).len() <= u32::MAX,
        ensures
            bytes@ == comment_encoding(self@),
    {
        proof {
            lemma_comment_tag_len();
        }
        let mut out: Vec<u8> = Vec::new();
        put_header(&mut out, Self::DISCRIMINATOR);
        put_address(&mut out, &self.reviewer);
        put_address(&mut out, &self.commenter);
        let text_fits = put_string(&mut out, self.comment.as_str());
        put_u64(&mut out, self.count);
        assert(out@ =~= comment_encoding(self@));
        out
    }

    /// Decodes the comment that `data` holds.
    pub fn unpack(data: &[u8]) -> (r: Result<Option<MovieComment>, ReviewError>)
        ensures
            comment_result_view(r) == comment_decoding(data@),
    {
        let body = match take_header(Self::DISCRIMINATOR, data) {
            Err(e) => { return Err(e); },
            Ok(None) => { return Ok(None); },
            Ok(Some(body)) => body,
        };
        let (reviewer, b1) = match take_address(body) {
            None => { return Err(ReviewError::MalformedPayload); },
            Some(found) => found,
        };
        let (commenter, b2) = match take_address(b1) {
            None => { return Err(ReviewError::MalformedPayload); },
            Some(found) => found,
        };
        let (comment, b3) = match take_string(b2) {
            None => { return Err(ReviewError::MalformedPayload); },
            Some(found) => found,
        };
        let (count, _) = match take_u64(b3) {
            None => { return Err(ReviewError::MalformedPayload); },
            Some(found) => found,
        };
        Ok(Some(MovieComment { reviewer, commenter, comment, count }))
    }
}

/// A comment that was written is read back as itself, whatever follows it in
/// the buffer, and takes as many bytes as `comment_size` says.
pub proof fn lemma_comment_round_trip(comment: MovieCommentView, tail: Seq<u8>)
    requires
        comment.reviewer.len() == 32,
        comment.commenter.len() == 32,
        encode_utf8(comment.comment).len() <= u32::MAX,
    ensures
        comment_decoding(comment_encoding(comment) + tail) == Ok::<
            Option<MovieCommentView>,
            ReviewError,
        >(Some(comment)),
        comment_encoding(comment).len() == comment_size(comment.comment),
{
    lemma_comment_tag_len();
    let b3 = u64_le_bytes(comment.count) + tail;
    let b2 = string_encoding(comment.comment) + b3;
    let b1 = comment.commenter + b2;
    let body = comment.reviewer + b1;
    lemma_u64_round_trip(comment.count, tail);
    lemma_string_round_trip(comment.comment, b3);
    assert(comment_body_decoding(body) == Some(comment)) by {
        assert(body.subrange(0, 32) =~= comment.reviewer);
        assert(body.subrange(32, body.len() as int) =~= b1);
        assert(b1.subrange(0, 32) =~= comment.commenter);
        assert(b1.subrange(32, b1.len() as int) =~= b2);
    }
    lemma_header_round_trip(comment_tag(), body);
    assert(comment_encoding(comment) + tail =~= header_encoding(comment_tag()) + body);
}

} // verus!
