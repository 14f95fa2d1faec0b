use vstd::prelude::*;
use crate::model::PaymentState;

verus! {

/// The error taxonomy of the swap lifecycle core.
#[derive(Clone, Copy, PartialEq, Eq, Debug, Structural)]
pub enum PaymentError {
    /// The swap (or payment record) named by an id does not exist.
    NotFound,
    /// The provider status string does not parse into the status vocabulary.
    InvalidState,
    /// The transition validator rejects the requested move.
    InvalidTransition { from: PaymentState, to: PaymentState },
    /// A storage operation failed; nothing was persisted.
    PersistError,
    /// A wallet, chain-service or swapper call failed.
    CollaboratorError,
}

} // verus!
