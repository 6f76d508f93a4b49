//! The error taxonomy of the escrow ledger.
//!
//! Every recoverable failure of an operation is reported as one of these
//! variants, with a short message where one kind covers several causes.
//! A native payout that the ledger's own balance cannot cover is *not* among
//! them: that signals a broken internal invariant, and the environment that
//! executes the queued payments must halt rather than report it as an error.

use vstd::prelude::*;

verus! {

/// A typed, recoverable failure of an escrow operation.
#[derive(Debug, PartialEq, Eq)]
pub enum AzSafeSendError {
    /// The value attached to the call does not exactly match what the
    /// operation requires (the fee, or the fee plus the escrowed amount).
    IncorrectFee,
    /// No record of the named kind exists for the given identifier.
    NotFound(String),
    /// The identifier counter for the named kind of record is saturated, so
    /// no further record can ever be created.
    RecordsLimitReached(String),
    /// The caller is not the party this operation requires.
    Unauthorised,
    /// The input or the record's current state violates a precondition of the
    /// operation; the message names which one.
    UnprocessableEntity(String),
    /// A call into an external collaborator failed during a recoverable step.
    /// The escrow operations themselves never return this variant: it is
    /// reserved for the environment that executes the queued asset movements.
    ExternalCallFailure(String),
}

/// The record kind named by `NotFound` and `RecordsLimitReached`.
pub open spec fn msg_cheque() -> Seq<char> {
    "Cheque"@
}

/// The message rejecting a self-transfer.
pub open spec fn msg_different_parties() -> Seq<char> {
    "Sender and receiver must be different."@
}

/// The message rejecting a zero amount.
pub open spec fn msg_positive_amount() -> Seq<char> {
    "Amount must be greater than zero."@
}

/// The message rejecting a cancel or collect of an already settled cheque.
pub open spec fn msg_pending_status() -> Seq<char> {
    "Status must be pending collection."@
}

} // verus!
