use vstd::prelude::*;
use crate::errors::PaymentError;
use crate::model::{
    apply_swap_update, view_opt_str, BuiltTx, ChainSwap, PaymentState, PaymentTxData,
    PaymentTxView, SwapView,
};

verus! {

/// One transaction the wallet was asked to build (and succeeded in
/// building): the requested destination and amount, and the id and total
/// fee of the resulting transaction.
#[verifier::ext_equal]
pub ghost struct BuildCall {
    pub address: Seq<char>,
    pub amount_sat: u64,
    pub tx_id: Seq<char>,
    pub fees_sat: u64,
}

/// One claim call as the swapper saw it: the swap, the destination address
/// handed in, and the claim tx id where the call succeeded.
#[verifier::ext_equal]
pub ghost struct ClaimCall {
    pub swap_id: Seq<char>,
    pub claim_address: Seq<char>,
    pub result: Option<Seq<char>>,
}

/// One cooperative-refund attempt as the swapper saw it: the swap, the
/// destination address and fee handed in, and the refund tx id where the
/// attempt succeeded.
#[verifier::ext_equal]
pub ghost struct CoopRefundCall {
    pub swap_id: Seq<char>,
    pub output_address: Seq<char>,
    pub broadcast_fees_sat: u64,
    pub result: Option<Seq<char>>,
}

/// One non-cooperative (timelocked) refund call as the swapper saw it: the
/// swap, the fee, destination address and unlock height handed in, and the
/// refund tx id where the call succeeded.
#[verifier::ext_equal]
pub ghost struct NonCoopRefundCall {
    pub swap_id: Seq<char>,
    pub broadcast_fees_sat: u64,
    pub output_address: Seq<char>,
    pub height: u32,
    pub result: Option<Seq<char>>,
}

/// The wallet collaborator: builds transactions, derives fresh addresses,
/// reports the local chain tip. Successful builds, derived addresses and
/// tip queries are each recorded, so contracts can say what was asked of
/// the wallet and tie a value handed onward to the call that produced it.
pub trait OnchainWallet {
    spec fn builds(&self) -> Seq<BuildCall>;

    spec fn addresses(&self) -> Seq<Seq<char>>;

    spec fn tip_queries(&self) -> Seq<u32>;

    /// Build, without broadcasting, a transaction paying `amount_sat` to
    /// `address`; the result reports the id it would have and its total fee.
    fn build_tx(&mut self, address: &str, amount_sat: u64) -> (r: Result<BuiltTx, PaymentError>)
        ensures
            final(self).addresses() == old(self).addresses(),
            final(self).tip_queries() == old(self).tip_queries(),
            r matches Ok(t) ==> final(self).builds() == old(self).builds().push(
                BuildCall {
                    address: address@,
                    amount_sat,
                    tx_id: t.tx_id@,
                    fees_sat: t.fees_sat,
                },
            ),
            r is Err ==> final(self).builds() == old(self).builds() && r == Err::<
                BuiltTx,
                PaymentError,
            >(PaymentError::CollaboratorError),
    ;

    /// The next unused receiving address of the wallet.
    fn next_unused_address(&mut self) -> (r: Result<String, PaymentError>)
        ensures
            final(self).builds() == old(self).builds(),
            final(self).tip_queries() == old(self).tip_queries(),
            r matches Ok(a) ==> final(self).addresses() == old(self).addresses().push(a@),
            r is Err ==> final(self).addresses() == old(self).addresses() && r == Err::<
                String,
                PaymentError,
            >(PaymentError::CollaboratorError),
    ;

    /// The wallet's current chain-tip height.
    fn tip(&mut self) -> (r: u32)
        ensures
            final(self).builds() == old(self).builds(),
            final(self).addresses() == old(self).addresses(),
            final(self).tip_queries() == old(self).tip_queries().push(r),
    ;
}

/// A chain-service collaborator: broadcasts transactions on one chain side.
/// Every broadcast attempt is recorded in `broadcasts` by the id of the
/// transaction handed in.
pub trait ChainService {
    spec fn broadcasts(&self) -> Seq<Seq<char>>;

    /// Broadcast `tx`; on success the id of the broadcast transaction is
    /// returned.
    fn broadcast(&mut self, tx: &BuiltTx) -> (r: Result<String, PaymentError>)
        ensures
            final(self).broadcasts() == old(self).broadcasts().push(tx.tx_id@),
            r matches Ok(id) ==> id@ == tx.tx_id@,
            r is Err ==> r == Err::<String, PaymentError>(PaymentError::CollaboratorError),
    ;
}

/// The chain service of the counterpart chain side, as far as this core
/// reads it: its tip height. Every answered query is recorded in
/// `tip_queries`.
pub trait CounterpartChainService {
    spec fn tip_queries(&self) -> Seq<u32>;

    /// The counterpart chain's current tip height.
    fn tip(&mut self) -> (r: Result<u32, PaymentError>)
        ensures
            r matches Ok(h) ==> final(self).tip_queries() == old(self).tip_queries().push(h),
            r is Err ==> final(self).tip_queries() == old(self).tip_queries() && r == Err::<
                u32,
                PaymentError,
            >(PaymentError::CollaboratorError),
    ;
}

/// The swapper collaborator: produces and broadcasts claim and refund
/// transactions. Every attempt is recorded, per routine, so contracts can
/// count irreversible actions.
pub trait Swapper {
    spec fn claims(&self) -> Seq<ClaimCall>;

    spec fn cooperative_refunds(&self) -> Seq<CoopRefundCall>;

    spec fn non_cooperative_refunds(&self) -> Seq<NonCoopRefundCall>;

    /// Build and broadcast the claim transaction for `swap` paying
    /// `claim_address`; returns the claim transaction id.
    fn claim_chain_swap(&mut self, swap: &ChainSwap, claim_address: String) -> (r: Result<
        String,
        PaymentError,
    >)
        ensures
            final(self).claims() == old(self).claims().push(
                ClaimCall {
                    swap_id: swap.id@,
                    claim_address: claim_address@,
                    result: match r {
                        Ok(ref id) => Some(id@),
                        Err(_) => None,
                    },
                },
            ),
            final(self).cooperative_refunds() == old(self).cooperative_refunds(),
            final(self).non_cooperative_refunds() == old(self).non_cooperative_refunds(),
            r is Err ==> r == Err::<String, PaymentError>(PaymentError::CollaboratorError),
    ;

    /// Attempt a cooperative refund of `swap` to `output_address` with the
    /// given fee; requires counterpart cooperation and may fail.
    fn refund_chain_swap_cooperative(
        &mut self,
        swap: &ChainSwap,
        output_address: &str,
        broadcast_fees_sat: u64,
    ) -> (r: Result<String, PaymentError>)
        ensures
            final(self).cooperative_refunds() == old(self).cooperative_refunds().push(
                CoopRefundCall {
                    swap_id: swap.id@,
                    output_address: output_address@,
                    broadcast_fees_sat,
                    result: match r {
                        Ok(ref id) => Some(id@),
                        Err(_) => None,
                    },
                },
            ),
            final(self).claims() == old(self).claims(),
            final(self).non_cooperative_refunds() == old(self).non_cooperative_refunds(),
            r is Err ==> r == Err::<String, PaymentError>(PaymentError::CollaboratorError),
    ;

    /// Build and broadcast a timelocked non-cooperative refund of `swap`,
    /// unlockable from `current_height` on.
    fn refund_chain_swap_non_cooperative(
        &mut self,
        swap: &ChainSwap,
        broadcast_fees_sat: u64,
        output_address: &str,
        current_height: u32,
    ) -> (r: Result<String, PaymentError>)
        ensures
            final(self).non_cooperative_refunds() == old(self).non_cooperative_refunds().push(
                NonCoopRefundCall {
                    swap_id: swap.id@,
                    broadcast_fees_sat,
                    output_address: output_address@,
                    height: current_height,
                    result: match r {
                        Ok(ref id) => Some(id@),
                        Err(_) => None,
                    },
                },
            ),
            final(self).claims() == old(self).claims(),
            final(self).cooperative_refunds() == old(self).cooperative_refunds(),
            r is Err ==> r == Err::<String, PaymentError>(PaymentError::CollaboratorError),
    ;
}

/// The persistence collaborator: durable, atomically-updatable swap records
/// and payment records. `swaps` is the stored record per swap id; `payments`
/// records every payment insertion in order. A failed operation persists
/// nothing.
pub trait Persister {
    spec fn swaps(&self) -> Map<Seq<char>, SwapView>;

    spec fn payments(&self) -> Seq<PaymentTxView>;

    /// Fetch the swap stored under `id`, `None` if there is none.
    fn fetch_chain_swap_by_id(&self, id: &str) -> (r: Result<Option<ChainSwap>, PaymentError>)
        ensures
            r matches Ok(Some(s)) ==> self.swaps().contains_key(id@) && s@ == self.swaps()[id@]
                && s@.id == id@,
            r matches Ok(None) ==> !self.swaps().contains_key(id@),
            r is Err ==> r == Err::<Option<ChainSwap>, PaymentError>(PaymentError::PersistError),
    ;

    /// Insert or update a payment record.
    fn insert_or_update_payment(&mut self, data: PaymentTxData) -> (r: Result<(), PaymentError>)
        ensures
            final(self).swaps() == old(self).swaps(),
            r is Ok ==> final(self).payments() == old(self).payments().push(data@),
            r is Err ==> final(self).payments() == old(self).payments() && r == Err::<
                (),
                PaymentError,
            >(PaymentError::PersistError),
    ;

    /// Persist the zero-confirmation-acceptance flag of the swap under `id`.
    fn update_chain_swap_accept_zero_conf(&mut self, id: &str, accept_zero_conf: bool) -> (r:
        Result<(), PaymentError>)
        ensures
            final(self).payments() == old(self).payments(),
            r is Ok ==> old(self).swaps().contains_key(id@) && final(self).swaps() == old(
                self,
            ).swaps().insert(
                id@,
                SwapView { accept_zero_conf, ..old(self).swaps()[id@] },
            ),
            r is Err ==> final(self).swaps() == old(self).swaps() && (r == Err::<
                (),
                PaymentError,
            >(PaymentError::NotFound) || r == Err::<(), PaymentError>(PaymentError::PersistError)),
            r == Err::<(), PaymentError>(PaymentError::NotFound) ==> !old(
                self,
            ).swaps().contains_key(id@),
    ;

    /// Atomically persist a validated transition: the new state together
    /// with any supplied tx ids, all or nothing.
    fn try_handle_chain_swap_update(
        &mut self,
        swap_id: &str,
        to_state: PaymentState,
        server_lockup_tx_id: Option<&str>,
        user_lockup_tx_id: Option<&str>,
        claim_tx_id: Option<&str>,
        refund_tx_id: Option<&str>,
    ) -> (r: Result<(), PaymentError>)
        ensures
            final(self).payments() == old(self).payments(),
            r is Ok ==> old(self).swaps().contains_key(swap_id@) && final(self).swaps() == old(
                self,
            ).swaps().insert(
                swap_id@,
                apply_swap_update(
                    old(self).swaps()[swap_id@],
                    to_state,
                    view_opt_str(server_lockup_tx_id),
                    view_opt_str(user_lockup_tx_id),
                    view_opt_str(claim_tx_id),
                    view_opt_str(refund_tx_id),
                ),
            ),
            r is Err ==> final(self).swaps() == old(self).swaps(),
            r is Err ==> r == Err::<(), PaymentError>(PaymentError::NotFound) || r == Err::<
                (),
                PaymentError,
            >(PaymentError::PersistError),
            r == Err::<(), PaymentError>(PaymentError::NotFound) ==> !old(
                self,
            ).swaps().contains_key(swap_id@),
    ;
}

/// The notification bus: bounded, best-effort fan-out of payment-correlation
/// ids to subscribers. A slow or absent subscriber silently misses messages
/// rather than exerting backpressure: publication never blocks or fails the
/// triggering operation.
pub trait NotificationBus {
    /// An independent receive handle obtained by subscription.
    type Handle;

    spec fn published(&self) -> Seq<Seq<char>>;

    /// Publish a payment-correlation id.
    fn publish(&mut self, payment_id: &str)
        ensures
            final(self).published() == old(self).published().push(payment_id@),
    ;

    /// A new, independent receive handle on this bus; subscribing publishes
    /// nothing.
    fn subscribe(&mut self) -> (r: Self::Handle)
        ensures
            final(self).published() == old(self).published(),
    ;
}

} // verus!
