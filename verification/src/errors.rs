//! The rejection reasons an append or a creation can surface.

use vstd::prelude::*;

verus! {

/// Why an operation on a ledger was refused. Every rejection leaves the
/// ledger and its records exactly as they were.
#[derive(Clone, Copy, Debug, PartialEq, Eq, Structural)]
pub enum LogError {
    /// The derived storage slot for the record is already populated: a
    /// concurrent append already claimed this sequence number. The caller
    /// must re-read the ledger's counter and retry.
    AddressCollision,
    /// The caller's identity does not match the ledger's stored authority.
    AuthorizationMismatch,
    /// A text field exceeds the length the storage layout reserves for it.
    FieldTooLong,
    /// The record counter is at its maximum value; appending would wrap it.
    CounterOverflow,
}

} // verus!
