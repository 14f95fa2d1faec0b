use vstd::prelude::*;
use crate::collaborators::{
    BuildCall, ChainService, ClaimCall, CoopRefundCall, CounterpartChainService, NonCoopRefundCall,
    NotificationBus, OnchainWallet, Persister, Swapper,
};
use crate::errors::PaymentError;
use crate::model::{
    apply_swap_update, prefer_supplied, view_opt_str, BuiltTx, ChainSwap, PaymentState,
    PaymentTxData, PaymentTxView, PaymentType, StatusUpdate, StatusUpdateView, SwapView,
};
use crate::status::{parse_status, spec_parse_status, ChainSwapStatus};
use crate::transition::{transition_allowed, validate_state_transition};

verus! {

/// Everything the handler's contracts observe of its collaborators: the
/// stored swap records, the payment-record insertions, and one log per
/// collaborator routine that acts, builds, derives or reports.
#[verifier::ext_equal]
pub ghost struct HandlerView {
    pub swaps: Map<Seq<char>, SwapView>,
    pub payments: Seq<PaymentTxView>,
    pub wallet_builds: Seq<BuildCall>,
    pub wallet_addresses: Seq<Seq<char>>,
    pub broadcasts: Seq<Seq<char>>,
    pub claims: Seq<ClaimCall>,
    pub cooperative_refunds: Seq<CoopRefundCall>,
    pub non_cooperative_refunds: Seq<NonCoopRefundCall>,
    pub wallet_tips: Seq<u32>,
    pub counterpart_tips: Seq<u32>,
    pub published: Seq<Seq<char>>,
}

/// The published ids after sending one optional correlation id.
pub open spec fn publish_opt(p: Seq<Seq<char>>, corr: Option<Seq<char>>) -> Seq<Seq<char>> {
    match corr {
        Some(x) => p.push(x),
        None => p,
    }
}

/// `post` grew out of `pre` by at most one appended element.
pub open spec fn grew_by_at_most_one<T>(pre: Seq<T>, post: Seq<T>) -> bool {
    post == pre || (post.len() == pre.len() + 1 && post == pre.push(post.last()))
}

/// What the handler decides to do for one swap record under one provider
/// status word, before any collaborator is invoked.
#[derive(Clone, Copy, PartialEq, Eq, Debug, Structural)]
pub enum StatusAction {
    /// Send swap, no user lockup yet: build and broadcast the lockup.
    BroadcastLockup,
    /// Send swap, lockup already recorded: idempotent no-op.
    AlreadyLockedUp,
    /// Receive swap under `Created`: wait for both sides to lock up.
    AwaitCounterpart,
    /// User-side lockup signal: persist zero-conf acceptance and/or record
    /// the observed user lockup id.
    RecordUserLockup,
    /// Counterpart lockup sufficient: record its id and attempt the claim.
    AttemptClaim,
    /// Counterpart lockup in mempool, zero-conf not accepted: wait.
    AwaitServerConfirmation,
    /// Claim already recorded: idempotent no-op.
    AlreadyClaimed,
    /// Failure signal, Send swap with a recorded lockup: attempt refund.
    AttemptRefund,
    /// Failure signal, Receive swap with an observed lockup: deliberately
    /// unresolved, no automated refund.
    ReceiveRefundUnresolved,
    /// Failure signal with no lockup ever broadcast: resolve as failed.
    MarkFailed,
    /// Refund already recorded: no-op, whatever the signal — both the
    /// idempotency check of the failure signals and, under a counterpart
    /// lockup signal, the bar on claiming a swap whose refund is underway:
    /// claim and refund are mutually exclusive.
    AlreadyRefunded,
    /// A vocabulary word the handler has no reaction to.
    Ignore,
}

/// The handler's dispatch table: which action one status word triggers for
/// one swap record, idempotency checks included.
pub open spec fn decide(s: SwapView, st: ChainSwapStatus) -> StatusAction {
    if st == ChainSwapStatus::Created {
        if s.payment_type == PaymentType::Send {
            if s.user_lockup_tx_id is None {
                StatusAction::BroadcastLockup
            } else {
                StatusAction::AlreadyLockedUp
            }
        } else {
            StatusAction::AwaitCounterpart
        }
    } else if crate::status::is_user_lockup_signal(st) {
        StatusAction::RecordUserLockup
    } else if crate::status::is_server_lockup_signal(st) {
        if s.claim_tx_id is Some {
            StatusAction::AlreadyClaimed
        } else if s.refund_tx_id is Some {
            StatusAction::AlreadyRefunded
        } else if s.accept_zero_conf || st == ChainSwapStatus::TransactionServerConfirmed {
            StatusAction::AttemptClaim
        } else {
            StatusAction::AwaitServerConfirmation
        }
    } else if crate::status::is_failure_signal(st) {
        if s.refund_tx_id is Some {
            StatusAction::AlreadyRefunded
        } else if s.user_lockup_tx_id is None {
            StatusAction::MarkFailed
        } else if s.payment_type == PaymentType::Send {
            StatusAction::AttemptRefund
        } else {
            StatusAction::ReceiveRefundUnresolved
        }
    } else {
        StatusAction::Ignore
    }
}

/// The swap record after the zero-conf acceptance carried by `u` (if any)
/// is persisted.
pub open spec fn zero_conf_swap(u: StatusUpdateView, s: SwapView) -> SwapView {
    match u.zero_conf_rejected {
        Some(z) => SwapView { accept_zero_conf: !z, ..s },
        None => s,
    }
}

/// The stored records after the zero-conf acceptance carried by `u` (if
/// any) is persisted.
pub open spec fn zero_conf_applied(pre: HandlerView, u: StatusUpdateView, s: SwapView) -> Map<
    Seq<char>,
    SwapView,
> {
    match u.zero_conf_rejected {
        Some(z) => pre.swaps.insert(u.swap_id, SwapView { accept_zero_conf: !z, ..s }),
        None => pre.swaps,
    }
}

/// The collaborator state after a successful lockup flow, built from the
/// one wallet build `b`: one broadcast of the built transaction, one
/// optimistic payment record, the swap pending with the lockup id
/// recorded, the lockup id published.
pub open spec fn lockup_outcome(
    pre: HandlerView,
    u: StatusUpdateView,
    s: SwapView,
    b: BuildCall,
) -> HandlerView {
    HandlerView {
        wallet_builds: pre.wallet_builds.push(b),
        broadcasts: pre.broadcasts.push(b.tx_id),
        payments: pre.payments.push(
            PaymentTxView {
                tx_id: b.tx_id,
                timestamp: None,
                amount_sat: s.payer_amount_sat,
                fees_sat: b.fees_sat,
                payment_type: PaymentType::Send,
                is_confirmed: false,
            },
        ),
        swaps: pre.swaps.insert(
            u.swap_id,
            apply_swap_update(s, PaymentState::Pending, None, Some(b.tx_id), None, None),
        ),
        published: pre.published.push(b.tx_id),
        ..pre
    }
}

/// The whole successful lockup flow: the transaction was built to the
/// provider-specified lockup address and amount, and everything else is
/// `lockup_outcome` of that build.
pub open spec fn lockup_flow_ok(
    pre: HandlerView,
    post: HandlerView,
    u: StatusUpdateView,
    s: SwapView,
) -> bool {
    let b = post.wallet_builds.last();
    &&& b.address == s.lockup_address
    &&& b.amount_sat == s.lockup_amount_sat
    &&& transition_allowed(s.state, PaymentState::Pending)
    &&& post == lockup_outcome(pre, u, s, b)
}

/// The collaborator state after a successful user-lockup-signal flow: the
/// zero-conf flag persisted where carried, the observed user lockup id
/// recorded (unless one is already stored) and published where carried.
pub open spec fn user_lockup_outcome(pre: HandlerView, u: StatusUpdateView, s: SwapView) -> HandlerView {
    match u.transaction {
        Some(t) => HandlerView {
            swaps: pre.swaps.insert(
                u.swap_id,
                apply_swap_update(
                    zero_conf_swap(u, s),
                    PaymentState::Pending,
                    None,
                    Some(t),
                    None,
                    None,
                ),
            ),
            published: pre.published.push(t),
            ..pre
        },
        None => HandlerView { swaps: zero_conf_applied(pre, u, s), ..pre },
    }
}

/// The collaborator state after a successful claim flow: the counterpart
/// lockup id recorded where carried, one claim call directed to the
/// freshly derived address `a`, the optimistic payment record for a
/// Receive swap (its direction and amount from the swap value `s` handed
/// to the flow), the stored record `stored` complete with the claim id
/// recorded.
pub open spec fn claim_outcome(
    pre: HandlerView,
    u: StatusUpdateView,
    s: SwapView,
    stored: SwapView,
    claim_tx_id: Seq<char>,
    a: Seq<char>,
) -> HandlerView {
    let s1 = match u.transaction {
        Some(t) => apply_swap_update(stored, PaymentState::Pending, Some(t), None, None, None),
        None => stored,
    };
    let pub1 = match u.transaction {
        Some(t) => publish_opt(pre.published, stored.user_lockup_tx_id),
        None => pre.published,
    };
    HandlerView {
        wallet_addresses: pre.wallet_addresses.push(a),
        claims: pre.claims.push(
            ClaimCall { swap_id: s.id, claim_address: a, result: Some(claim_tx_id) },
        ),
        payments: if s.payment_type == PaymentType::Receive {
            pre.payments.push(
                PaymentTxView {
                    tx_id: claim_tx_id,
                    timestamp: None,
                    amount_sat: s.receiver_amount_sat,
                    fees_sat: 0,
                    payment_type: PaymentType::Receive,
                    is_confirmed: false,
                },
            )
        } else {
            pre.payments
        },
        swaps: pre.swaps.insert(
            u.swap_id,
            apply_swap_update(s1, PaymentState::Complete, None, None, Some(claim_tx_id), None),
        ),
        published: publish_opt(pub1, stored.user_lockup_tx_id),
        ..pre
    }
}

/// Exactly one non-cooperative refund call for `s` was made: with the fee
/// handed in unchanged, to a freshly derived wallet address, gated by a
/// tip height freshly queried from the chain side that `s`'s direction
/// dictates (the wallet's own chain for `Send`, the counterpart chain for
/// `Receive`). `rid` is the call's result.
pub open spec fn noncoop_call_made(
    pre: HandlerView,
    post: HandlerView,
    s: SwapView,
    fees_sat: u64,
    rid: Option<Seq<char>>,
) -> bool {
    let n = post.non_cooperative_refunds.last();
    &&& post.non_cooperative_refunds == pre.non_cooperative_refunds.push(n)
    &&& n.swap_id == s.id
    &&& n.broadcast_fees_sat == fees_sat
    &&& rid == n.result
    &&& post.wallet_addresses == pre.wallet_addresses.push(n.output_address)
    &&& (s.payment_type == PaymentType::Send ==> post.wallet_tips == pre.wallet_tips.push(
        n.height,
    ) && post.counterpart_tips == pre.counterpart_tips)
    &&& (s.payment_type == PaymentType::Receive ==> post.counterpart_tips
        == pre.counterpart_tips.push(n.height) && post.wallet_tips == pre.wallet_tips)
}

/// The non-cooperative refund routine stopped before reaching the swapper:
/// no call was made; at most the direction's tip was queried and an
/// address derived.
pub open spec fn noncoop_aborted(pre: HandlerView, post: HandlerView, s: SwapView) -> bool {
    &&& post.non_cooperative_refunds == pre.non_cooperative_refunds
    &&& grew_by_at_most_one(pre.wallet_addresses, post.wallet_addresses)
    &&& (s.payment_type == PaymentType::Send ==> post.counterpart_tips == pre.counterpart_tips
        && grew_by_at_most_one(pre.wallet_tips, post.wallet_tips))
    &&& (s.payment_type == PaymentType::Receive ==> post.wallet_tips == pre.wallet_tips
        && grew_by_at_most_one(pre.counterpart_tips, post.counterpart_tips))
}

/// The refund flow stopped at the fee probe: a fresh address was derived
/// and nothing else happened.
pub open spec fn refund_aborted_at_probe(pre: HandlerView, post: HandlerView) -> bool {
    &&& post == (HandlerView { wallet_addresses: post.wallet_addresses, ..pre })
    &&& post.wallet_addresses == pre.wallet_addresses.push(post.wallet_addresses.last())
}

/// The refund flow reached the swapper: a fresh own address was derived, a
/// fee was estimated as the fee sum of a built, unsent transaction paying
/// the swap's expected receive amount to that address, and exactly one
/// cooperative attempt was made with that address and fee. The
/// non-cooperative fallback ran, with the same fee, exactly when the
/// cooperative attempt failed. `rid` is the refund tx id of whichever path
/// succeeded, `None` where the flow failed.
pub open spec fn refund_attempt(
    pre: HandlerView,
    post: HandlerView,
    s: SwapView,
    rid: Option<Seq<char>>,
) -> bool {
    let b = post.wallet_builds.last();
    let c = post.cooperative_refunds.last();
    &&& post.wallet_builds == pre.wallet_builds.push(b)
    &&& b.amount_sat == s.receiver_amount_sat
    &&& post.cooperative_refunds == pre.cooperative_refunds.push(c)
    &&& c.swap_id == s.id
    &&& c.output_address == b.address
    &&& c.broadcast_fees_sat == b.fees_sat
    &&& (c.result is Some ==> {
        &&& rid == c.result
        &&& post.non_cooperative_refunds == pre.non_cooperative_refunds
        &&& post.wallet_tips == pre.wallet_tips
        &&& post.counterpart_tips == pre.counterpart_tips
        &&& post.wallet_addresses == pre.wallet_addresses.push(b.address)
    })
    &&& (c.result is None ==> {
        let mid = HandlerView {
            wallet_builds: pre.wallet_builds.push(b),
            cooperative_refunds: pre.cooperative_refunds.push(c),
            wallet_addresses: pre.wallet_addresses.push(b.address),
            ..pre
        };
        ||| noncoop_call_made(mid, post, s, b.fees_sat, rid)
        ||| (noncoop_aborted(mid, post, s) && rid is None)
    })
}

/// The collaborator state after a successful refund flow for a failure
/// signal: the refund attempt of `refund_attempt` succeeded with `rid`,
/// and the swap was persisted pending with the refund id recorded.
pub open spec fn refund_flow_outcome(
    pre: HandlerView,
    u: StatusUpdateView,
    s: SwapView,
    rid: Seq<char>,
    post: HandlerView,
) -> bool {
    &&& transition_allowed(s.state, PaymentState::Pending)
    &&& post.swaps == pre.swaps.insert(
        u.swap_id,
        apply_swap_update(s, PaymentState::Pending, None, None, None, Some(rid)),
    )
    &&& post.published == publish_opt(pre.published, s.user_lockup_tx_id)
    &&& post.payments == pre.payments
    &&& post.broadcasts == pre.broadcasts
    &&& post.claims == pre.claims
    &&& refund_attempt(pre, post, s, Some(rid))
}

/// The collaborator state after a failure signal for a swap with no lockup
/// ever broadcast: resolved as failed, nothing else touched.
pub open spec fn mark_failed_outcome(pre: HandlerView, u: StatusUpdateView, s: SwapView) -> HandlerView {
    HandlerView {
        swaps: pre.swaps.insert(
            u.swap_id,
            apply_swap_update(s, PaymentState::Failed, None, None, None, None),
        ),
        published: publish_opt(pre.published, s.user_lockup_tx_id),
        ..pre
    }
}

/// The state handler: consumes provider status updates, decides actions,
/// invokes the collaborators, persists outcomes and notifies. All
/// collaborators are constructor-injected capabilities.
pub struct ChainSwapStateHandler<
    W: OnchainWallet,
    P: Persister,
    S: Swapper,
    L: ChainService,
    C: CounterpartChainService,
    N: NotificationBus,
> {
    pub onchain_wallet: W,
    pub persister: P,
    pub swapper: S,
    pub chain_service: L,
    pub counterpart_chain_service: C,
    pub notifier: N,
}

impl<
    W: OnchainWallet,
    P: Persister,
    S: Swapper,
    L: ChainService,
    C: CounterpartChainService,
    N: NotificationBus,
> ChainSwapStateHandler<W, P, S, L, C, N> {
    /// The combined observable state of all collaborators.
    pub open spec fn views(&self) -> HandlerView {
        HandlerView {
            swaps: self.persister.swaps(),
            payments: self.persister.payments(),
            wallet_builds: self.onchain_wallet.builds(),
            wallet_addresses: self.onchain_wallet.addresses(),
            broadcasts: self.chain_service.broadcasts(),
            claims: self.swapper.claims(),
            cooperative_refunds: self.swapper.cooperative_refunds(),
            non_cooperative_refunds: self.swapper.non_cooperative_refunds(),
            wallet_tips: self.onchain_wallet.tip_queries(),
            counterpart_tips: self.counterpart_chain_service.tip_queries(),
            published: self.notifier.published(),
        }
    }

    /// Builds a handler around the injected collaborators.
    pub fn new(
        onchain_wallet: W,
        persister: P,
        swapper: S,
        chain_service: L,
        counterpart_chain_service: C,
        notifier: N,
    ) -> (r: Self)
        ensures
            r.onchain_wallet == onchain_wallet,
            r.persister == persister,
            r.swapper == swapper,
            r.chain_service == chain_service,
            r.counterpart_chain_service == counterpart_chain_service,
            r.notifier == notifier,
    {
        ChainSwapStateHandler {
            onchain_wallet,
            persister,
            swapper,
            chain_service,
            counterpart_chain_service,
            notifier,
        }
    }

    /// An independent receive handle for payment-update notifications;
    /// obtaining one changes nothing observable.
    pub fn subscribe_payment_updates(&mut self) -> (r: N::Handle)
        ensures
            final(self).views() == old(self).views(),
    {
        self.notifier.subscribe()
    }

    /// Transitions a chain swap to a new state: loads the current record,
    /// validates the move, persists the new state together with any supplied
    /// tx ids atomically (a stored id is never replaced), and publishes the
    /// correlation id (the user-lockup id supplied here, else the stored
    /// one) on success.
    pub fn update_swap_info(
        &mut self,
        swap_id: &str,
        to_state: PaymentState,
        server_lockup_tx_id: Option<&str>,
        user_lockup_tx_id: Option<&str>,
        claim_tx_id: Option<&str>,
        refund_tx_id: Option<&str>,
    ) -> (r: Result<(), PaymentError>)
        ensures
            r is Ok ==> old(self).views().swaps.contains_key(swap_id@) && transition_allowed(
                old(self).views().swaps[swap_id@].state,
                to_state,
            ) && final(self).views() == (HandlerView {
                swaps: old(self).views().swaps.insert(
                    swap_id@,
                    apply_swap_update(
                        old(self).views().swaps[swap_id@],
                        to_state,
                        view_opt_str(server_lockup_tx_id),
                        view_opt_str(user_lockup_tx_id),
                        view_opt_str(claim_tx_id),
                        view_opt_str(refund_tx_id),
                    ),
                ),
                published: publish_opt(
                    old(self).views().published,
                    prefer_supplied(
                        view_opt_str(user_lockup_tx_id),
                        old(self).views().swaps[swap_id@].user_lockup_tx_id,
                    ),
                ),
                ..old(self).views()
            }),
            r is Err ==> final(self).views() == old(self).views(),
            r == Err::<(), PaymentError>(PaymentError::NotFound) ==> !old(
                self,
            ).views().swaps.contains_key(swap_id@),
            !old(self).views().swaps.contains_key(swap_id@) ==> r == Err::<(), PaymentError>(
                PaymentError::NotFound,
            ) || r == Err::<(), PaymentError>(PaymentError::PersistError),
            r matches Err(PaymentError::InvalidTransition { from, to }) ==> old(
                self,
            ).views().swaps.contains_key(swap_id@) && from == old(
                self,
            ).views().swaps[swap_id@].state && to == to_state && !transition_allowed(from, to),
            old(self).views().swaps.contains_key(swap_id@) && transition_allowed(
                old(self).views().swaps[swap_id@].state,
                to_state,
            ) ==> r is Ok || r == Err::<(), PaymentError>(PaymentError::PersistError),
            old(self).views().swaps.contains_key(swap_id@) && !transition_allowed(
                old(self).views().swaps[swap_id@].state,
                to_state,
            ) ==> r == Err::<(), PaymentError>(
                PaymentError::InvalidTransition {
                    from: old(self).views().swaps[swap_id@].state,
                    to: to_state,
                },
            ) || r == Err::<(), PaymentError>(PaymentError::PersistError),
    {
        let swap: ChainSwap = match self.persister.fetch_chain_swap_by_id(swap_id) {
            Ok(Some(s)) => s,
            Ok(None) => {
                return Err(PaymentError::NotFound);
            },
            Err(_) => {
                return Err(PaymentError::PersistError);
            },
        };
        let payment_id: Option<String> = match user_lockup_tx_id {
            Some(supplied) => Some(supplied.to_owned()),
            None => match &swap.user_lockup_tx_id {
                Some(stored) => Some(stored.clone()),
                None => None,
            },
        };
        if let Err(e) = validate_state_transition(swap.state, to_state) {
            return Err(e);
        }
        if let Err(e) = self.persister.try_handle_chain_swap_update(
            swap_id,
            to_state,
            server_lockup_tx_id,
            user_lockup_tx_id,
            claim_tx_id,
            refund_tx_id,
        ) {
            return Err(e);
        }
        if let Some(pid) = payment_id {
            self.notifier.publish(pid.as_str());
        }
        Ok(())
    }

    /// Builds the user lockup transaction to the provider-specified address
    /// and amount and broadcasts it on the user-side chain.
    pub fn lockup_funds(&mut self, swap: &ChainSwap) -> (r: Result<BuiltTx, PaymentError>)
        ensures
            r matches Ok(t) ==> final(self).views() == (HandlerView {
                wallet_builds: old(self).views().wallet_builds.push(
                    BuildCall {
                        address: swap.lockup_address@,
                        amount_sat: swap.lockup_amount_sat,
                        tx_id: t.tx_id@,
                        fees_sat: t.fees_sat,
                    },
                ),
                broadcasts: old(self).views().broadcasts.push(t.tx_id@),
                ..old(self).views()
            }),
            r is Err ==> final(self).views() == (HandlerView {
                wallet_builds: final(self).views().wallet_builds,
                broadcasts: final(self).views().broadcasts,
                ..old(self).views()
            }) && grew_by_at_most_one(
                old(self).views().wallet_builds,
                final(self).views().wallet_builds,
            ) && grew_by_at_most_one(old(self).views().broadcasts, final(self).views().broadcasts)
                && r == Err::<BuiltTx, PaymentError>(PaymentError::CollaboratorError),
    {
        let built: BuiltTx = match self.onchain_wallet.build_tx(
            swap.lockup_address.as_str(),
            swap.lockup_amount_sat,
        ) {
            Ok(t) => t,
            Err(e) => {
                return Err(e);
            },
        };
        match self.chain_service.broadcast(&built) {
            Ok(_) => Ok(built),
            Err(e) => Err(e),
        }
    }

    /// Builds and broadcasts the claim transaction for `swap` to a fresh own
    /// address; for a `Receive` swap also inserts the optimistic payment
    /// record; then transitions the swap to `Complete` recording the claim
    /// tx id. Returns the claim tx id.
    pub fn claim(&mut self, swap: &ChainSwap) -> (r: Result<String, PaymentError>)
        ensures
            r matches Ok(cid) ==> old(self).views().swaps.contains_key(swap.id@)
                && transition_allowed(
                old(self).views().swaps[swap.id@].state,
                PaymentState::Complete,
            ) && final(self).views() == claim_outcome(
                old(self).views(),
                StatusUpdateView {
                    swap_id: swap.id@,
                    status: Seq::empty(),
                    transaction: None,
                    zero_conf_rejected: None,
                },
                swap@,
                old(self).views().swaps[swap.id@],
                cid@,
                final(self).views().wallet_addresses.last(),
            ),
            r is Err ==> ({
                let pre = old(self).views();
                let post = final(self).views();
                &&& post == (HandlerView {
                    wallet_addresses: post.wallet_addresses,
                    claims: post.claims,
                    payments: post.payments,
                    ..pre
                })
                &&& grew_by_at_most_one(pre.wallet_addresses, post.wallet_addresses)
                &&& grew_by_at_most_one(pre.claims, post.claims)
                &&& grew_by_at_most_one(pre.payments, post.payments)
                &&& (post.payments != pre.payments ==> post.claims.len() == pre.claims.len() + 1
                    && post.claims.last().result is Some)
                &&& ({
                    ||| r == Err::<String, PaymentError>(PaymentError::CollaboratorError)
                    ||| r == Err::<String, PaymentError>(PaymentError::PersistError)
                    ||| (r == Err::<String, PaymentError>(PaymentError::NotFound)
                        && !pre.swaps.contains_key(swap.id@))
                    ||| (r == Err::<String, PaymentError>(
                        PaymentError::InvalidTransition {
                            from: pre.swaps[swap.id@].state,
                            to: PaymentState::Complete,
                        },
                    ) && pre.swaps.contains_key(swap.id@) && !transition_allowed(
                        pre.swaps[swap.id@].state,
                        PaymentState::Complete,
                    ))
                })
            }),
    {
        let claim_address: String = match self.onchain_wallet.next_unused_address() {
            Ok(a) => a,
            Err(e) => {
                return Err(e);
            },
        };
        let claim_tx_id: String = match self.swapper.claim_chain_swap(swap, claim_address) {
            Ok(id) => id,
            Err(e) => {
                return Err(e);
            },
        };
        if swap.payment_type == PaymentType::Receive {
            if let Err(e) = self.persister.insert_or_update_payment(
                PaymentTxData {
                    tx_id: claim_tx_id.clone(),
                    timestamp: None,
                    amount_sat: swap.receiver_amount_sat,
                    fees_sat: 0,
                    payment_type: PaymentType::Receive,
                    is_confirmed: false,
                },
            ) {
                return Err(e);
            }
        }
        if let Err(e) = self.update_swap_info(
            swap.id.as_str(),
            PaymentState::Complete,
            None,
            None,
            Some(claim_tx_id.as_str()),
            None,
        ) {
            return Err(e);
        }
        Ok(claim_tx_id)
    }

    /// Refunds a failed swap: estimates a broadcast fee by building (not
    /// sending) a transaction paying the expected receive amount to a fresh
    /// own address, attempts a cooperative refund with that address and
    /// fee, and on its failure falls back to the timelocked non-cooperative
    /// refund with the same fee. Returns the refund tx id of whichever path
    /// succeeded.
    pub fn refund(&mut self, swap: &ChainSwap) -> (r: Result<String, PaymentError>)
        ensures
            ({
                let pre = old(self).views();
                let post = final(self).views();
                let rid = match r {
                    Ok(ref id) => Some(id@),
                    Err(_) => None,
                };
                &&& post.swaps == pre.swaps
                &&& post.payments == pre.payments
                &&& post.broadcasts == pre.broadcasts
                &&& post.claims == pre.claims
                &&& post.published == pre.published
                &&& ({
                    ||| (post == pre && r is Err)
                    ||| (refund_aborted_at_probe(pre, post) && r is Err)
                    ||| refund_attempt(pre, post, swap@, rid)
                })
            }),
            r is Err ==> r == Err::<String, PaymentError>(PaymentError::CollaboratorError),
    {
        let output_address: String = match self.onchain_wallet.next_unused_address() {
            Ok(a) => a,
            Err(e) => {
                return Err(e);
            },
        };
        let fee_probe: BuiltTx = match self.onchain_wallet.build_tx(
            output_address.as_str(),
            swap.receiver_amount_sat,
        ) {
            Ok(t) => t,
            Err(e) => {
                return Err(e);
            },
        };
        let broadcast_fees_sat: u64 = fee_probe.fees_sat;
        match self.swapper.refund_chain_swap_cooperative(
            swap,
            output_address.as_str(),
            broadcast_fees_sat,
        ) {
            Ok(tx_id) => Ok(tx_id),
            Err(_) => self.refund_non_cooperative(swap, broadcast_fees_sat),
        }
    }

    /// Builds and broadcasts the timelocked non-cooperative refund with the
    /// caller's fee, to a fresh own address, gated by the current tip
    /// height of the chain side the swap's direction dictates: the
    /// counterpart chain for `Receive`, the wallet's own chain for `Send`.
    pub fn refund_non_cooperative(&mut self, swap: &ChainSwap, broadcast_fees_sat: u64) -> (r:
        Result<String, PaymentError>)
        ensures
            ({
                let pre = old(self).views();
                let post = final(self).views();
                let rid = match r {
                    Ok(ref id) => Some(id@),
                    Err(_) => None,
                };
                &&& post.swaps == pre.swaps
                &&& post.payments == pre.payments
                &&& post.wallet_builds == pre.wallet_builds
                &&& post.broadcasts == pre.broadcasts
                &&& post.claims == pre.claims
                &&& post.cooperative_refunds == pre.cooperative_refunds
                &&& post.published == pre.published
                &&& ({
                    ||| noncoop_call_made(pre, post, swap@, broadcast_fees_sat, rid)
                    ||| (noncoop_aborted(pre, post, swap@) && r is Err)
                })
            }),
            r is Err ==> r == Err::<String, PaymentError>(PaymentError::CollaboratorError),
    {
        let current_height: u32 = match swap.payment_type {
            PaymentType::Receive => match self.counterpart_chain_service.tip() {
                Ok(h) => h,
                Err(e) => {
                    return Err(e);
                },
            },
            PaymentType::Send => self.onchain_wallet.tip(),
        };
        let output_address: String = match self.onchain_wallet.next_unused_address() {
            Ok(a) => a,
            Err(e) => {
                return Err(e);
            },
        };
        match self.swapper.refund_chain_swap_non_cooperative(
            swap,
            broadcast_fees_sat,
            output_address.as_str(),
            current_height,
        ) {
            Ok(refund_tx_id) => Ok(refund_tx_id),
            Err(e) => Err(e),
        }
    }

    /// Handles one provider status update for one chain swap: loads the
    /// record, classifies the update against the status vocabulary and the
    /// swap's direction and tx history, triggers at most one irreversible
    /// action guarded by the idempotency checks, and persists the validated
    /// transition. A redelivered status for an already-actioned swap
    /// performs no new broadcast; a failed update leaves the stored record
    /// unchanged.
    pub fn on_new_status(&mut self, update: &StatusUpdate) -> (r: Result<(), PaymentError>)
        ensures
            ({
                let pre = old(self).views();
                let post = final(self).views();
                let u = update@;
                &&& (!pre.swaps.contains_key(u.swap_id) ==> post == pre && (r == Err::<
                    (),
                    PaymentError,
                >(PaymentError::NotFound) || r == Err::<(), PaymentError>(
                    PaymentError::PersistError,
                )))
                &&& (r == Err::<(), PaymentError>(PaymentError::NotFound) ==> !pre.swaps.contains_key(
                    u.swap_id,
                ))
                &&& (pre.swaps.contains_key(u.swap_id) ==> match spec_parse_status(u.status) {
                    None => post == pre && (r == Err::<(), PaymentError>(PaymentError::InvalidState)
                        || r == Err::<(), PaymentError>(PaymentError::PersistError)),
                    Some(st) => {
                        let s = pre.swaps[u.swap_id];
                        match decide(s, st) {
                            StatusAction::BroadcastLockup => {
                                &&& (r is Ok ==> lockup_flow_ok(pre, post, u, s))
                                &&& (r is Err ==> post == (HandlerView {
                                    wallet_builds: post.wallet_builds,
                                    broadcasts: post.broadcasts,
                                    payments: post.payments,
                                    ..pre
                                }) && grew_by_at_most_one(pre.wallet_builds, post.wallet_builds)
                                    && grew_by_at_most_one(pre.broadcasts, post.broadcasts)
                                    && grew_by_at_most_one(pre.payments, post.payments) && (r
                                    == Err::<(), PaymentError>(PaymentError::CollaboratorError) || r
                                    == Err::<(), PaymentError>(PaymentError::PersistError) || (r
                                    == Err::<(), PaymentError>(
                                    PaymentError::InvalidTransition {
                                        from: s.state,
                                        to: PaymentState::Pending,
                                    },
                                ) && !transition_allowed(s.state, PaymentState::Pending))))
                            },
                            StatusAction::RecordUserLockup => {
                                &&& (r is Ok ==> post == user_lockup_outcome(pre, u, s) && (
                                u.transaction is Some ==> transition_allowed(
                                    s.state,
                                    PaymentState::Pending,
                                )))
                                &&& (r is Err ==> post == (HandlerView { swaps: post.swaps, ..pre })
                                    && (post.swaps == pre.swaps || post.swaps == zero_conf_applied(
                                    pre,
                                    u,
                                    s,
                                )) && (r == Err::<(), PaymentError>(PaymentError::PersistError) || (
                                r == Err::<(), PaymentError>(
                                    PaymentError::InvalidTransition {
                                        from: s.state,
                                        to: PaymentState::Pending,
                                    },
                                ) && u.transaction is Some && !transition_allowed(
                                    s.state,
                                    PaymentState::Pending,
                                ))))
                            },
                            StatusAction::AttemptClaim => {
                                &&& (r is Ok ==> transition_allowed(s.state, PaymentState::Complete)
                                    && match post.swaps[u.swap_id].claim_tx_id {
                                    Some(cid) => post == claim_outcome(
                                        pre,
                                        u,
                                        s,
                                        s,
                                        cid,
                                        post.wallet_addresses.last(),
                                    ),
                                    None => false,
                                })
                                &&& (r is Err ==> post == (HandlerView {
                                    swaps: post.swaps,
                                    wallet_addresses: post.wallet_addresses,
                                    claims: post.claims,
                                    payments: post.payments,
                                    published: post.published,
                                    ..pre
                                }) && grew_by_at_most_one(
                                    pre.wallet_addresses,
                                    post.wallet_addresses,
                                ) && grew_by_at_most_one(pre.claims, post.claims)
                                    && grew_by_at_most_one(pre.payments, post.payments) && (
                                post.payments != pre.payments ==> post.claims.len() == pre.claims.len()
                                    + 1 && post.claims.last().result is Some) && (r == Err::<
                                    (),
                                    PaymentError,
                                >(PaymentError::CollaboratorError) || r == Err::<(), PaymentError>(
                                    PaymentError::PersistError,
                                ) || (r matches Err(PaymentError::InvalidTransition { from, to })
                                    && !transition_allowed(from, to))))
                            },
                            StatusAction::AttemptRefund => {
                                &&& (r is Ok ==> match post.swaps[u.swap_id].refund_tx_id {
                                    Some(rid) => refund_flow_outcome(pre, u, s, rid, post),
                                    None => false,
                                })
                                &&& (r is Err ==> post.swaps == pre.swaps && post.payments
                                    == pre.payments && post.broadcasts == pre.broadcasts
                                    && post.claims == pre.claims && post.published == pre.published
                                    && grew_by_at_most_one(pre.wallet_builds, post.wallet_builds)
                                    && post.wallet_addresses.len() <= pre.wallet_addresses.len() + 2
                                    && grew_by_at_most_one(
                                    pre.cooperative_refunds,
                                    post.cooperative_refunds,
                                ) && grew_by_at_most_one(
                                    pre.non_cooperative_refunds,
                                    post.non_cooperative_refunds,
                                ) && grew_by_at_most_one(pre.wallet_tips, post.wallet_tips)
                                    && post.counterpart_tips == pre.counterpart_tips && (r == Err::<
                                    (),
                                    PaymentError,
                                >(PaymentError::CollaboratorError) || r == Err::<(), PaymentError>(
                                    PaymentError::PersistError,
                                ) || (r == Err::<(), PaymentError>(
                                    PaymentError::InvalidTransition {
                                        from: s.state,
                                        to: PaymentState::Pending,
                                    },
                                ) && !transition_allowed(s.state, PaymentState::Pending))))
                            },
                            StatusAction::MarkFailed => {
                                &&& (r is Ok ==> post == mark_failed_outcome(pre, u, s))
                                &&& (r is Err ==> post == pre && r == Err::<(), PaymentError>(
                                    PaymentError::PersistError,
                                ))
                            },
                            _ => post == pre && (r is Ok || r == Err::<(), PaymentError>(
                                PaymentError::PersistError,
                            )),
                        }
                    },
                })
            }),
    {
        let swap: ChainSwap = match self.persister.fetch_chain_swap_by_id(
            update.swap_id.as_str(),
        ) {
            Ok(Some(s)) => s,
            Ok(None) => {
                return Err(PaymentError::NotFound);
            },
            Err(_) => {
                return Err(PaymentError::PersistError);
            },
        };
        let swap_state: ChainSwapStatus = match parse_status(update.status.as_str()) {
            Some(st) => st,
            None => {
                return Err(PaymentError::InvalidState);
            },
        };
        match swap_state {
            ChainSwapStatus::Created => {
                match (swap.payment_type, &swap.user_lockup_tx_id) {
                    // Create the user lockup tx when sending
                    (PaymentType::Send, None) => {
                        let built: BuiltTx = match self.lockup_funds(&swap) {
                            Ok(t) => t,
                            Err(e) => {
                                return Err(e);
                            },
                        };
                        // Optimistic payment record, so the new lockup tx is
                        // known before the chain indexer observes it
                        if let Err(e) = self.persister.insert_or_update_payment(
                            PaymentTxData {
                                tx_id: built.tx_id.clone(),
                                timestamp: None,
                                amount_sat: swap.payer_amount_sat,
                                fees_sat: built.fees_sat,
                                payment_type: PaymentType::Send,
                                is_confirmed: false,
                            },
                        ) {
                            return Err(e);
                        }
                        if let Err(e) = self.update_swap_info(
                            update.swap_id.as_str(),
                            PaymentState::Pending,
                            None,
                            Some(built.tx_id.as_str()),
                            None,
                            None,
                        ) {
                            return Err(e);
                        }
                        Ok(())
                    },
                    // Lockup tx already exists when sending: idempotent no-op
                    (PaymentType::Send, Some(_)) => Ok(()),
                    // Wait for user/server lockup when receiving
                    (PaymentType::Receive, _) => Ok(()),
                }
            },
            // The provider announced the user lockup tx in the mempool or
            // confirmed
            ChainSwapStatus::TransactionMempool | ChainSwapStatus::TransactionConfirmed => {
                if let Some(zero_conf_rejected) = update.zero_conf_rejected {
                    if let Err(e) = self.persister.update_chain_swap_accept_zero_conf(
                        update.swap_id.as_str(),
                        !zero_conf_rejected,
                    ) {
                        return Err(e);
                    }
                }
                match &update.transaction {
                    Some(transaction) => {
                        if let Err(e) = self.update_swap_info(
                            update.swap_id.as_str(),
                            PaymentState::Pending,
                            None,
                            Some(transaction.id.as_str()),
                            None,
                            None,
                        ) {
                            return Err(e);
                        }
                        Ok(())
                    },
                    None => Ok(()),
                }
            },
            // The provider announced the server lockup tx in the mempool or
            // confirmed: on a zero-conf swap or a confirmed lockup, proceed
            // to claim — unless a claim is already recorded, or a refund is
            // underway (claim and refund are mutually exclusive)
            ChainSwapStatus::TransactionServerMempool
            | ChainSwapStatus::TransactionServerConfirmed => {
                match (&swap.claim_tx_id, &swap.refund_tx_id) {
                    (None, None) => {
                        if swap.accept_zero_conf || swap_state
                            == ChainSwapStatus::TransactionServerConfirmed {
                            match &update.transaction {
                                Some(transaction) => {
                                    if let Err(e) = self.update_swap_info(
                                        update.swap_id.as_str(),
                                        PaymentState::Pending,
                                        Some(transaction.id.as_str()),
                                        None,
                                        None,
                                        None,
                                    ) {
                                        return Err(e);
                                    }
                                },
                                None => {},
                            }
                            match self.claim(&swap) {
                                Ok(_) => Ok(()),
                                Err(e) => Err(e),
                            }
                        } else {
                            // Wait for the server lockup confirmation
                            Ok(())
                        }
                    },
                    // Claim or refund already broadcast: no new claim
                    _ => Ok(()),
                }
            },
            // Unrecoverable: the swap expired, the transaction failed, or
            // the lockup failed. Refund where a Send lockup exists, resolve
            // as failed where none was ever broadcast.
            ChainSwapStatus::TransactionFailed
            | ChainSwapStatus::TransactionLockupFailed
            | ChainSwapStatus::SwapExpired => {
                match &swap.refund_tx_id {
                    None => match (swap.payment_type, &swap.user_lockup_tx_id) {
                        (PaymentType::Send, Some(_)) => {
                            let refund_tx_id: String = match self.refund(&swap) {
                                Ok(id) => id,
                                Err(e) => {
                                    return Err(e);
                                },
                            };
                            if let Err(e) = self.update_swap_info(
                                update.swap_id.as_str(),
                                PaymentState::Pending,
                                None,
                                None,
                                None,
                                Some(refund_tx_id.as_str()),
                            ) {
                                return Err(e);
                            }
                            Ok(())
                        },
                        // A Receive lockup would need the sender's refund
                        // address, which is deliberately left unresolved
                        (PaymentType::Receive, Some(_)) => Ok(()),
                        // No user lockup tx was ever broadcast
                        (_, None) => {
                            if let Err(e) = self.update_swap_info(
                                update.swap_id.as_str(),
                                PaymentState::Failed,
                                None,
                                None,
                                None,
                                None,
                            ) {
                                return Err(e);
                            }
                            Ok(())
                        },
                    },
                    // Refund tx already broadcast: idempotent no-op
                    Some(_) => Ok(()),
                }
            },
            // Forward-compatible: any other vocabulary word is ignored
            _ => Ok(()),
        }
    }
}

} // verus!
