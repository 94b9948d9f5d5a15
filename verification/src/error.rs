//! The ways in which an operation fails.

use vstd::prelude::*;

verus! {

/// Why an operation was refused. A refused operation changes nothing.
#[derive(Clone, Copy, Debug, PartialEq, Eq)]
pub enum ErrorCode {
    /// The caller is not the authority that the configuration record names.
    Authorization,
    /// A payer's balance does not cover a transfer and what the payer must
    /// keep.
    InsufficientFunds,
    /// The configuration record is missing, or exists where it must not.
    InvalidState,
    /// A collaborating program, or its client, refused a request.
    CollaboratorFailure,
}

} // verus!
