use vstd::prelude::*;
use crate::errors::PaymentError;
use crate::model::PaymentState;

verus! {

/// Whether a lifecycle state is terminal.
pub open spec fn is_terminal(s: PaymentState) -> bool {
    s == PaymentState::Complete || s == PaymentState::Failed || s == PaymentState::TimedOut
}

/// The legal-transition table of the swap state machine, exhaustively:
/// no state may move (back) to `Created`; `Pending` and `Complete` are
/// reachable from `Created` and `Pending` only; `TimedOut` is reachable from
/// `Created` only; `Failed` is reachable from every state, terminal states
/// included — a deliberate override allowing a swap to be annotated failed
/// even after reaching another terminal state.
pub open spec fn transition_allowed(from: PaymentState, to: PaymentState) -> bool {
    match to {
        PaymentState::Created => false,
        PaymentState::Pending => from == PaymentState::Created || from == PaymentState::Pending,
        PaymentState::Complete => from == PaymentState::Created || from == PaymentState::Pending,
        PaymentState::TimedOut => from == PaymentState::Created,
        PaymentState::Failed => true,
    }
}

/// The transition validator: approves exactly the moves of
/// `transition_allowed`, and names both states in its rejection.
pub fn validate_state_transition(from_state: PaymentState, to_state: PaymentState) -> (r: Result<
    (),
    PaymentError,
>)
    ensures
        r is Ok <==> transition_allowed(from_state, to_state),
        r is Err ==> r == Err::<(), PaymentError>(
            PaymentError::InvalidTransition { from: from_state, to: to_state },
        ),
{
    match (from_state, to_state) {
        (_, PaymentState::Created) => Err(
            PaymentError::InvalidTransition { from: from_state, to: to_state },
        ),
        (PaymentState::Created | PaymentState::Pending, PaymentState::Pending) => Ok(()),
        (_, PaymentState::Pending) => Err(
            PaymentError::InvalidTransition { from: from_state, to: to_state },
        ),
        (PaymentState::Created | PaymentState::Pending, PaymentState::Complete) => Ok(()),
        (_, PaymentState::Complete) => Err(
            PaymentError::InvalidTransition { from: from_state, to: to_state },
        ),
        (PaymentState::Created, PaymentState::TimedOut) => Ok(()),
        (_, PaymentState::TimedOut) => Err(
            PaymentError::InvalidTransition { from: from_state, to: to_state },
        ),
        (_, PaymentState::Failed) => Ok(()),
    }
}

/// A swap in a terminal state accepts a transition to `Failed` and rejects
/// every other move.
pub proof fn law_terminal_accepts_only_failed(from: PaymentState, to: PaymentState)
    requires
        is_terminal(from),
    ensures
        transition_allowed(from, to) <==> to == PaymentState::Failed,
{
}

} // verus!
