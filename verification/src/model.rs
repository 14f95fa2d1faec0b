use vstd::prelude::*;

verus! {

/// Lifecycle state of a chain swap. `Complete`, `Failed` and `TimedOut` are
/// terminal; every move between states must be approved by the transition
/// validator.
#[derive(Clone, Copy, PartialEq, Eq, Debug, Structural)]
pub enum PaymentState {
    Created,
    Pending,
    Complete,
    Failed,
    TimedOut,
}

/// Direction of a swap from the local party's point of view: `Send` locks up
/// local funds first, `Receive` waits for the counterpart to lock up.
#[derive(Clone, Copy, PartialEq, Eq, Debug, Structural)]
pub enum PaymentType {
    Send,
    Receive,
}

/// One cross-chain swap instance, as stored by the persistence collaborator.
///
/// Each of the four transaction-id fields is set at most once and never
/// cleared; the lifecycle state only moves along edges the transition
/// validator permits.
#[derive(Clone)]
pub struct ChainSwap {
    pub id: String,
    pub payment_type: PaymentType,
    pub state: PaymentState,
    /// Amount the local party pays into the swap.
    pub payer_amount_sat: u64,
    /// Amount the local party expects to receive out of the swap.
    pub receiver_amount_sat: u64,
    /// Willingness to act on an unconfirmed counterpart lockup.
    pub accept_zero_conf: bool,
    /// Lockup destination from the provider's swap-creation response.
    pub lockup_address: String,
    /// Lockup amount from the provider's swap-creation response.
    pub lockup_amount_sat: u64,
    pub user_lockup_tx_id: Option<String>,
    pub server_lockup_tx_id: Option<String>,
    pub claim_tx_id: Option<String>,
    pub refund_tx_id: Option<String>,
}

/// Mathematical view of a `ChainSwap`.
#[verifier::ext_equal]
pub ghost struct SwapView {
    pub id: Seq<char>,
    pub payment_type: PaymentType,
    pub state: PaymentState,
    pub payer_amount_sat: u64,
    pub receiver_amount_sat: u64,
    pub accept_zero_conf: bool,
    pub lockup_address: Seq<char>,
    pub lockup_amount_sat: u64,
    pub user_lockup_tx_id: Option<Seq<char>>,
    pub server_lockup_tx_id: Option<Seq<char>>,
    pub claim_tx_id: Option<Seq<char>>,
    pub refund_tx_id: Option<Seq<char>>,
}

pub open spec fn view_opt_string(o: Option<String>) -> Option<Seq<char>> {
    match o {
        Some(s) => Some(s@),
        None => None,
    }
}

pub open spec fn view_opt_str(o: Option<&str>) -> Option<Seq<char>> {
    match o {
        Some(s) => Some(s@),
        None => None,
    }
}

impl View for ChainSwap {
    type V = SwapView;

    open spec fn view(&self) -> SwapView {
        SwapView {
            id: self.id@,
            payment_type: self.payment_type,
            state: self.state,
            payer_amount_sat: self.payer_amount_sat,
            receiver_amount_sat: self.receiver_amount_sat,
            accept_zero_conf: self.accept_zero_conf,
            lockup_address: self.lockup_address@,
            lockup_amount_sat: self.lockup_amount_sat,
            user_lockup_tx_id: view_opt_string(self.user_lockup_tx_id),
            server_lockup_tx_id: view_opt_string(self.server_lockup_tx_id),
            claim_tx_id: view_opt_string(self.claim_tx_id),
            refund_tx_id: view_opt_string(self.refund_tx_id),
        }
    }
}

/// A transaction id is set at most once and never cleared: a stored id
/// stays whatever a later update supplies, and an empty role takes the
/// supplied id.
pub open spec fn set_once(new_id: Option<Seq<char>>, old_id: Option<Seq<char>>) -> Option<
    Seq<char>,
> {
    if old_id is Some {
        old_id
    } else {
        new_id
    }
}

/// The correlation id a transition publishes: the id supplied in the call
/// where there is one, the stored one otherwise.
pub open spec fn prefer_supplied(supplied: Option<Seq<char>>, stored: Option<Seq<char>>) -> Option<
    Seq<char>,
> {
    if supplied is Some {
        supplied
    } else {
        stored
    }
}

/// The swap record after one atomic update: state replaced, each empty
/// tx-id role filled from the update where supplied, each stored id kept.
pub open spec fn apply_swap_update(
    s: SwapView,
    to_state: PaymentState,
    server_lockup_tx_id: Option<Seq<char>>,
    user_lockup_tx_id: Option<Seq<char>>,
    claim_tx_id: Option<Seq<char>>,
    refund_tx_id: Option<Seq<char>>,
) -> SwapView {
    SwapView {
        state: to_state,
        server_lockup_tx_id: set_once(server_lockup_tx_id, s.server_lockup_tx_id),
        user_lockup_tx_id: set_once(user_lockup_tx_id, s.user_lockup_tx_id),
        claim_tx_id: set_once(claim_tx_id, s.claim_tx_id),
        refund_tx_id: set_once(refund_tx_id, s.refund_tx_id),
        ..s
    }
}

/// An optimistic payment record inserted right after a lockup or claim
/// broadcast, so balance and history reflect the transaction before the
/// chain indexer observes it.
#[derive(Clone)]
pub struct PaymentTxData {
    pub tx_id: String,
    pub timestamp: Option<u32>,
    pub amount_sat: u64,
    pub fees_sat: u64,
    pub payment_type: PaymentType,
    pub is_confirmed: bool,
}

/// Mathematical view of a `PaymentTxData`.
#[verifier::ext_equal]
pub ghost struct PaymentTxView {
    pub tx_id: Seq<char>,
    pub timestamp: Option<u32>,
    pub amount_sat: u64,
    pub fees_sat: u64,
    pub payment_type: PaymentType,
    pub is_confirmed: bool,
}

impl View for PaymentTxData {
    type V = PaymentTxView;

    open spec fn view(&self) -> PaymentTxView {
        PaymentTxView {
            tx_id: self.tx_id@,
            timestamp: self.timestamp,
            amount_sat: self.amount_sat,
            fees_sat: self.fees_sat,
            payment_type: self.payment_type,
            is_confirmed: self.is_confirmed,
        }
    }
}

/// A transaction built by the wallet collaborator, reduced to what this core
/// reads of it: its id and the sum of its fee outputs.
#[derive(Clone)]
pub struct BuiltTx {
    pub tx_id: String,
    pub fees_sat: u64,
}

/// The transaction details a provider status update may carry.
#[derive(Clone)]
pub struct TransactionInfo {
    pub id: String,
}

/// An inbound provider status update.
#[derive(Clone)]
pub struct StatusUpdate {
    pub swap_id: String,
    pub status: String,
    pub transaction: Option<TransactionInfo>,
    pub zero_conf_rejected: Option<bool>,
}

/// Mathematical view of a `StatusUpdate`.
#[verifier::ext_equal]
pub ghost struct StatusUpdateView {
    pub swap_id: Seq<char>,
    pub status: Seq<char>,
    pub transaction: Option<Seq<char>>,
    pub zero_conf_rejected: Option<bool>,
}

impl View for StatusUpdate {
    type V = StatusUpdateView;

    open spec fn view(&self) -> StatusUpdateView {
        StatusUpdateView {
            swap_id: self.swap_id@,
            status: self.status@,
            transaction: match self.transaction {
                Some(ref t) => Some(t.id@),
                None => None,
            },
            zero_conf_rejected: self.zero_conf_rejected,
        }
    }
}

} // verus!
