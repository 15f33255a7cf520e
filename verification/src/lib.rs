//! Verified core of an on-ledger review-and-comment store: deterministic
//! addresses, tagged fixed-budget records, validation, and the life cycle of
//! reviews, comment counters and comments.
//!
//! - `address`: addresses and their derivation from logical keys.
//! - `wire`: the wire form of strings and of the fixed-size fields.
//! - `state`: the three records, their sizes and their layout.
//! - `instruction`: the requests and their wire form.
//! - `account`: account handles, storage, and the steps of a request.
//! - `validator`: the checks that precede every write.
//! - `processor`: the use cases.
//! - `laws`: what holds of the use cases taken together.

pub mod account;
pub mod address;
pub mod error;
pub mod instruction;
pub mod laws;
pub mod processor;
pub mod state;
pub mod validator;
pub mod wire;

pub use crate::processor::{
    add_comment, add_movie_review, process_instruction, update_movie_review,
};
