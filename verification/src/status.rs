use vstd::prelude::*;

verus! {

/// The provider's status vocabulary for chain swaps. These are provider-side
/// signals, distinct from the swap's own lifecycle state. The handler reacts
/// to a subset and deliberately ignores the rest (and any vocabulary word it
/// has no use for), staying forward-compatible.
#[derive(Clone, Copy, PartialEq, Eq, Debug, Structural)]
pub enum ChainSwapStatus {
    Created,
    TransactionMempool,
    TransactionConfirmed,
    TransactionServerMempool,
    TransactionServerConfirmed,
    TransactionClaimPending,
    TransactionClaimed,
    TransactionFailed,
    TransactionLockupFailed,
    TransactionRefunded,
    SwapExpired,
}

/// The wire form of each vocabulary word, as the provider's status feed
/// spells it.
pub open spec fn spec_parse_status(s: Seq<char>) -> Option<ChainSwapStatus> {
    if s == "swap.created"@ {
        Some(ChainSwapStatus::Created)
    } else if s == "transaction.mempool"@ {
        Some(ChainSwapStatus::TransactionMempool)
    } else if s == "transaction.confirmed"@ {
        Some(ChainSwapStatus::TransactionConfirmed)
    } else if s == "transaction.server.mempool"@ {
        Some(ChainSwapStatus::TransactionServerMempool)
    } else if s == "transaction.server.confirmed"@ {
        Some(ChainSwapStatus::TransactionServerConfirmed)
    } else if s == "transaction.claim.pending"@ {
        Some(ChainSwapStatus::TransactionClaimPending)
    } else if s == "transaction.claimed"@ {
        Some(ChainSwapStatus::TransactionClaimed)
    } else if s == "transaction.failed"@ {
        Some(ChainSwapStatus::TransactionFailed)
    } else if s == "transaction.lockupFailed"@ {
        Some(ChainSwapStatus::TransactionLockupFailed)
    } else if s == "transaction.refunded"@ {
        Some(ChainSwapStatus::TransactionRefunded)
    } else if s == "swap.expired"@ {
        Some(ChainSwapStatus::SwapExpired)
    } else {
        None
    }
}

/// Parses a provider status string into the vocabulary; `None` for a string
/// outside it.
pub fn parse_status(s: &str) -> (r: Option<ChainSwapStatus>)
    ensures
        r == spec_parse_status(s@),
{
    let t: String = s.to_owned();
    if t == "swap.created".to_owned() {
        Some(ChainSwapStatus::Created)
    } else if t == "transaction.mempool".to_owned() {
        Some(ChainSwapStatus::TransactionMempool)
    } else if t == "transaction.confirmed".to_owned() {
        Some(ChainSwapStatus::TransactionConfirmed)
    } else if t == "transaction.server.mempool".to_owned() {
        Some(ChainSwapStatus::TransactionServerMempool)
    } else if t == "transaction.server.confirmed".to_owned() {
        Some(ChainSwapStatus::TransactionServerConfirmed)
    } else if t == "transaction.claim.pending".to_owned() {
        Some(ChainSwapStatus::TransactionClaimPending)
    } else if t == "transaction.claimed".to_owned() {
        Some(ChainSwapStatus::TransactionClaimed)
    } else if t == "transaction.failed".to_owned() {
        Some(ChainSwapStatus::TransactionFailed)
    } else if t == "transaction.lockupFailed".to_owned() {
        Some(ChainSwapStatus::TransactionLockupFailed)
    } else if t == "transaction.refunded".to_owned() {
        Some(ChainSwapStatus::TransactionRefunded)
    } else if t == "swap.expired".to_owned() {
        Some(ChainSwapStatus::SwapExpired)
    } else {
        None
    }
}

/// The user-side lockup signals: the provider announced the user lockup
/// transaction in the mempool or confirmed.
pub open spec fn is_user_lockup_signal(st: ChainSwapStatus) -> bool {
    st == ChainSwapStatus::TransactionMempool || st == ChainSwapStatus::TransactionConfirmed
}

/// The counterpart lockup signals: the provider announced the server lockup
/// transaction in the mempool or confirmed.
pub open spec fn is_server_lockup_signal(st: ChainSwapStatus) -> bool {
    st == ChainSwapStatus::TransactionServerMempool || st
        == ChainSwapStatus::TransactionServerConfirmed
}

/// The terminal-failure signals: the swap expired, the transaction failed,
/// or the lockup failed.
pub open spec fn is_failure_signal(st: ChainSwapStatus) -> bool {
    st == ChainSwapStatus::TransactionFailed || st == ChainSwapStatus::TransactionLockupFailed
        || st == ChainSwapStatus::SwapExpired
}

} // verus!
