use vstd::prelude::*;
use crate::handler::{decide, zero_conf_swap, StatusAction};
use crate::model::{apply_swap_update, PaymentState, PaymentType, StatusUpdateView, SwapView};
use crate::status::{is_failure_signal, is_server_lockup_signal, ChainSwapStatus};
use crate::transition::transition_allowed;

verus! {

/// Two consecutive `Created` deliveries for a Send swap act once: the first
/// decides to broadcast the lockup, and once the new lockup id is recorded
/// by the persisted transition, a redelivery decides the idempotent no-op.
pub proof fn law_created_delivery_idempotent(s: SwapView, lockup_tx_id: Seq<char>)
    requires
        s.payment_type == PaymentType::Send,
        s.user_lockup_tx_id is None,
    ensures
        decide(s, ChainSwapStatus::Created) == StatusAction::BroadcastLockup,
        decide(
            apply_swap_update(s, PaymentState::Pending, None, Some(lockup_tx_id), None, None),
            ChainSwapStatus::Created,
        ) == StatusAction::AlreadyLockedUp,
{
}

/// A counterpart-lockup signal delivered while a claim id is already
/// recorded decides the idempotent no-op — in particular right after the
/// claim flow recorded its id.
pub proof fn law_claim_idempotent(
    s: SwapView,
    st: ChainSwapStatus,
    server_lockup_tx_id: Option<Seq<char>>,
    claim_tx_id: Seq<char>,
)
    requires
        is_server_lockup_signal(st),
        s.claim_tx_id is None,
    ensures
        decide(
            apply_swap_update(
                s,
                PaymentState::Complete,
                server_lockup_tx_id,
                None,
                Some(claim_tx_id),
                None,
            ),
            st,
        ) == StatusAction::AlreadyClaimed,
{
}

/// A counterpart-lockup signal never decides a claim while a claim id or a
/// refund id is recorded: claim and refund are mutually exclusive terminal
/// actions, so a standing refund blocks a late claim just as a standing
/// claim does.
pub proof fn law_refund_blocks_claim(s: SwapView, st: ChainSwapStatus)
    requires
        is_server_lockup_signal(st),
        s.claim_tx_id is Some || s.refund_tx_id is Some,
    ensures
        decide(s, st) != StatusAction::AttemptClaim,
        s.claim_tx_id is Some ==> decide(s, st) == StatusAction::AlreadyClaimed,
        s.claim_tx_id is None ==> decide(s, st) == StatusAction::AlreadyRefunded,
{
}

/// A failure signal delivered while a refund id is already recorded decides
/// the idempotent no-op — in particular right after the refund flow
/// recorded its id.
pub proof fn law_refund_idempotent(s: SwapView, st: ChainSwapStatus, refund_tx_id: Seq<char>)
    requires
        is_failure_signal(st),
    ensures
        s.refund_tx_id is Some ==> decide(s, st) == StatusAction::AlreadyRefunded,
        decide(
            apply_swap_update(s, PaymentState::Pending, None, None, None, Some(refund_tx_id)),
            st,
        ) == StatusAction::AlreadyRefunded,
{
}

/// A Receive-direction swap under `Created` never decides a lockup
/// broadcast: it waits for the counterpart.
pub proof fn law_receive_created_never_locks_up(s: SwapView)
    requires
        s.payment_type == PaymentType::Receive,
    ensures
        decide(s, ChainSwapStatus::Created) == StatusAction::AwaitCounterpart,
        decide(s, ChainSwapStatus::Created) != StatusAction::BroadcastLockup,
{
}

/// A persisted transition never clears a recorded transaction id, and
/// never replaces one: each of the four roles, once set, keeps exactly its
/// stored value through every further update.
pub proof fn law_tx_ids_never_cleared(
    s: SwapView,
    to_state: PaymentState,
    server_lockup_tx_id: Option<Seq<char>>,
    user_lockup_tx_id: Option<Seq<char>>,
    claim_tx_id: Option<Seq<char>>,
    refund_tx_id: Option<Seq<char>>,
)
    ensures
        ({
            let t = apply_swap_update(
                s,
                to_state,
                server_lockup_tx_id,
                user_lockup_tx_id,
                claim_tx_id,
                refund_tx_id,
            );
            &&& (s.user_lockup_tx_id is Some ==> t.user_lockup_tx_id == s.user_lockup_tx_id)
            &&& (s.server_lockup_tx_id is Some ==> t.server_lockup_tx_id == s.server_lockup_tx_id)
            &&& (s.claim_tx_id is Some ==> t.claim_tx_id == s.claim_tx_id)
            &&& (s.refund_tx_id is Some ==> t.refund_tx_id == s.refund_tx_id)
        }),
{
}

/// Claim and refund ids never coexist on a record.
pub open spec fn claim_refund_exclusive(s: SwapView) -> bool {
    !(s.claim_tx_id is Some && s.refund_tx_id is Some)
}

/// Well-formedness of a stored swap record, as this handler maintains it:
/// claim and refund are mutually exclusive terminal actions, and a
/// recorded claim means the swap reached `Complete` (possibly overridden
/// to `Failed` afterwards — the one move out of `Complete` the transition
/// table allows).
pub open spec fn wf_swap(s: SwapView) -> bool {
    &&& claim_refund_exclusive(s)
    &&& (s.claim_tx_id is Some ==> s.state == PaymentState::Complete || s.state
        == PaymentState::Failed)
}

/// Every record the handler persists keeps claim and refund mutually
/// exclusive. The cases below are exactly the records the success cases of
/// `on_new_status`'s contract write (each comes with the
/// `transition_allowed` fact that contract states); every remaining case
/// leaves the stored records unchanged.
pub proof fn law_claim_refund_mutually_exclusive(
    s: SwapView,
    st: ChainSwapStatus,
    u: StatusUpdateView,
    lockup_tx_id: Seq<char>,
    claim_tx_id: Seq<char>,
    refund_tx_id: Seq<char>,
)
    requires
        wf_swap(s),
    ensures
        wf_swap(zero_conf_swap(u, s)),
        decide(s, st) == StatusAction::BroadcastLockup && transition_allowed(
            s.state,
            PaymentState::Pending,
        ) ==> wf_swap(
            apply_swap_update(s, PaymentState::Pending, None, Some(lockup_tx_id), None, None),
        ),
        decide(s, st) == StatusAction::RecordUserLockup && transition_allowed(
            s.state,
            PaymentState::Pending,
        ) ==> wf_swap(
            apply_swap_update(
                zero_conf_swap(u, s),
                PaymentState::Pending,
                None,
                Some(lockup_tx_id),
                None,
                None,
            ),
        ),
        decide(s, st) == StatusAction::AttemptClaim ==> ({
            let s1 = match u.transaction {
                Some(t) => apply_swap_update(s, PaymentState::Pending, Some(t), None, None, None),
                None => s,
            };
            wf_swap(
                apply_swap_update(s1, PaymentState::Complete, None, None, Some(claim_tx_id), None),
            )
        }),
        decide(s, st) == StatusAction::AttemptRefund && transition_allowed(
            s.state,
            PaymentState::Pending,
        ) ==> wf_swap(
            apply_swap_update(s, PaymentState::Pending, None, None, None, Some(refund_tx_id)),
        ),
        wf_swap(apply_swap_update(s, PaymentState::Failed, None, None, None, None)),
{
}

} // verus!
