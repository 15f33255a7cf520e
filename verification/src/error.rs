use vstd::prelude::*;

verus! {

/// Why a request was refused. Every refusal is final for the request: nothing
/// is written when one of these is returned.
#[derive(Clone, Copy, Debug, PartialEq, Eq, Structural)]
pub enum ReviewError {
    /// The request carries fewer account handles than its action needs.
    NotEnoughAccountKeys,
    /// The acting identity did not authorise the request.
    MissingSignature,
    /// An existing record is not controlled by this program.
    IllegalOwner,
    /// A handle's address differs from the one derived from its logical key,
    /// or no address can be derived from that key.
    InvalidAddress,
    /// The rating lies outside `1..=5`.
    InvalidRating,
    /// The encoded record does not fit its storage budget.
    InvalidDataLength,
    /// A record that is to be created already holds an initialised value.
    AlreadyInitialized,
    /// A record that is to be read or updated was never initialised.
    UninitializedAccount,
    /// Bytes that cannot be decoded, a wrong record tag, or an unknown action.
    MalformedPayload,
    /// The comment counter has reached the largest sequence number.
    CounterOverflow,
}

} // verus!
