use chain_swap_lifecycle::collaborators::{
    ChainService, CounterpartChainService, NotificationBus, OnchainWallet, Persister, Swapper,
};
use chain_swap_lifecycle::errors::PaymentError;
use chain_swap_lifecycle::handler::ChainSwapStateHandler;
use chain_swap_lifecycle::model::{
    BuiltTx, ChainSwap, PaymentState, PaymentTxData, PaymentType, StatusUpdate, TransactionInfo,
};

struct FakeWallet {
    tx_counter: u32,
    fees_sat: u64,
    tip_height: u32,
    fail_build: bool,
    build_calls: Vec<(String, u64)>,
    address_calls: u32,
    tip_calls: u32,
}

impl FakeWallet {
    fn new() -> Self {
        FakeWallet {
            tx_counter: 0,
            fees_sat: 250,
            tip_height: 1000,
            fail_build: false,
            build_calls: Vec::new(),
            address_calls: 0,
            tip_calls: 0,
        }
    }
}

impl OnchainWallet for FakeWallet {
    // Ghost views of the trait's contracts; never called at runtime.
    fn builds(&self) -> vstd::seq::Seq<chain_swap_lifecycle::collaborators::BuildCall> {
        panic!()
    }

    fn addresses(&self) -> vstd::seq::Seq<vstd::seq::Seq<char>> {
        panic!()
    }

    fn tip_queries(&self) -> vstd::seq::Seq<u32> {
        panic!()
    }

    fn build_tx(&mut self, address: &str, amount_sat: u64) -> Result<BuiltTx, PaymentError> {
        self.build_calls.push((address.to_string(), amount_sat));
        if self.fail_build {
            return Err(PaymentError::CollaboratorError);
        }
        self.tx_counter += 1;
        Ok(BuiltTx { tx_id: format!("built-{}", self.tx_counter), fees_sat: self.fees_sat })
    }

    fn next_unused_address(&mut self) -> Result<String, PaymentError> {
        self.address_calls += 1;
        Ok(format!("addr-{}", self.address_calls))
    }

    fn tip(&mut self) -> u32 {
        self.tip_calls += 1;
        self.tip_height
    }
}

struct FakeChain {
    broadcasts: Vec<String>,
    fail: bool,
}

impl ChainService for FakeChain {
    // Ghost view of the trait's contracts; never called at runtime.
    fn broadcasts(&self) -> vstd::seq::Seq<vstd::seq::Seq<char>> {
        panic!()
    }

    fn broadcast(&mut self, tx: &BuiltTx) -> Result<String, PaymentError> {
        self.broadcasts.push(tx.tx_id.clone());
        if self.fail {
            Err(PaymentError::CollaboratorError)
        } else {
            Ok(tx.tx_id.clone())
        }
    }
}

struct FakeCounterpartChain {
    tip_height: u32,
    tip_calls: u32,
}

impl CounterpartChainService for FakeCounterpartChain {
    // Ghost view of the trait's contracts; never called at runtime.
    fn tip_queries(&self) -> vstd::seq::Seq<u32> {
        panic!()
    }

    fn tip(&mut self) -> Result<u32, PaymentError> {
        self.tip_calls += 1;
        Ok(self.tip_height)
    }
}

struct FakeSwapper {
    claim_calls: Vec<(String, String)>,
    coop_calls: Vec<(String, String, u64)>,
    noncoop_calls: Vec<(String, u64, String, u32)>,
    coop_fails: bool,
    claim_fails: bool,
    counter: u32,
}

impl FakeSwapper {
    fn new() -> Self {
        FakeSwapper {
            claim_calls: Vec::new(),
            coop_calls: Vec::new(),
            noncoop_calls: Vec::new(),
            coop_fails: false,
            claim_fails: false,
            counter: 0,
        }
    }
}

impl Swapper for FakeSwapper {
    // Ghost views of the trait's contracts; never called at runtime.
    fn claims(&self) -> vstd::seq::Seq<chain_swap_lifecycle::collaborators::ClaimCall> {
        panic!()
    }

    fn cooperative_refunds(
        &self,
    ) -> vstd::seq::Seq<chain_swap_lifecycle::collaborators::CoopRefundCall> {
        panic!()
    }

    fn non_cooperative_refunds(
        &self,
    ) -> vstd::seq::Seq<chain_swap_lifecycle::collaborators::NonCoopRefundCall> {
        panic!()
    }

    fn claim_chain_swap(
        &mut self,
        swap: &ChainSwap,
        claim_address: String,
    ) -> Result<String, PaymentError> {
        self.claim_calls.push((swap.id.clone(), claim_address));
        if self.claim_fails {
            return Err(PaymentError::CollaboratorError);
        }
        self.counter += 1;
        Ok(format!("claim-{}", self.counter))
    }

    fn refund_chain_swap_cooperative(
        &mut self,
        swap: &ChainSwap,
        output_address: &str,
        broadcast_fees_sat: u64,
    ) -> Result<String, PaymentError> {
        self.coop_calls.push((swap.id.clone(), output_address.to_string(), broadcast_fees_sat));
        if self.coop_fails {
            return Err(PaymentError::CollaboratorError);
        }
        self.counter += 1;
        Ok(format!("coop-refund-{}", self.counter))
    }

    fn refund_chain_swap_non_cooperative(
        &mut self,
        swap: &ChainSwap,
        broadcast_fees_sat: u64,
        output_address: &str,
        current_height: u32,
    ) -> Result<String, PaymentError> {
        self.noncoop_calls.push((
            swap.id.clone(),
            broadcast_fees_sat,
            output_address.to_string(),
            current_height,
        ));
        self.counter += 1;
        Ok(format!("noncoop-refund-{}", self.counter))
    }
}

struct FakePersister {
    swaps: Vec<ChainSwap>,
    payments: Vec<PaymentTxData>,
    fail_fetch: bool,
}

impl Persister for FakePersister {
    // Ghost views of the trait's contracts; never called at runtime.
    fn swaps(
        &self,
    ) -> vstd::map::Map<vstd::seq::Seq<char>, chain_swap_lifecycle::model::SwapView> {
        panic!()
    }

    fn payments(&self) -> vstd::seq::Seq<chain_swap_lifecycle::model::PaymentTxView> {
        panic!()
    }

    fn fetch_chain_swap_by_id(&self, id: &str) -> Result<Option<ChainSwap>, PaymentError> {
        if self.fail_fetch {
            return Err(PaymentError::PersistError);
        }
        Ok(self.swaps.iter().find(|s| s.id == id).cloned())
    }

    fn insert_or_update_payment(&mut self, data: PaymentTxData) -> Result<(), PaymentError> {
        self.payments.push(data);
        Ok(())
    }

    fn update_chain_swap_accept_zero_conf(
        &mut self,
        id: &str,
        accept_zero_conf: bool,
    ) -> Result<(), PaymentError> {
        for s in self.swaps.iter_mut() {
            if s.id == id {
                s.accept_zero_conf = accept_zero_conf;
                return Ok(());
            }
        }
        Err(PaymentError::NotFound)
    }

    fn try_handle_chain_swap_update(
        &mut self,
        swap_id: &str,
        to_state: PaymentState,
        server_lockup_tx_id: Option<&str>,
        user_lockup_tx_id: Option<&str>,
        claim_tx_id: Option<&str>,
        refund_tx_id: Option<&str>,
    ) -> Result<(), PaymentError> {
        for s in self.swaps.iter_mut() {
            if s.id == swap_id {
                s.state = to_state;
                if let (Some(v), None) = (server_lockup_tx_id, &s.server_lockup_tx_id) {
                    s.server_lockup_tx_id = Some(v.to_string());
                }
                if let (Some(v), None) = (user_lockup_tx_id, &s.user_lockup_tx_id) {
                    s.user_lockup_tx_id = Some(v.to_string());
                }
                if let (Some(v), None) = (claim_tx_id, &s.claim_tx_id) {
                    s.claim_tx_id = Some(v.to_string());
                }
                if let (Some(v), None) = (refund_tx_id, &s.refund_tx_id) {
                    s.refund_tx_id = Some(v.to_string());
                }
                return Ok(());
            }
        }
        Err(PaymentError::NotFound)
    }
}

struct FakeBus {
    published: Vec<String>,
    subscribers: usize,
}

impl NotificationBus for FakeBus {
    type Handle = usize;

    // Ghost view of the trait's contracts; never called at runtime.
    fn published(&self) -> vstd::seq::Seq<vstd::seq::Seq<char>> {
        panic!()
    }

    fn publish(&mut self, payment_id: &str) {
        self.published.push(payment_id.to_string());
    }

    fn subscribe(&mut self) -> usize {
        self.subscribers += 1;
        self.subscribers
    }
}

type TestHandler =
    ChainSwapStateHandler<FakeWallet, FakePersister, FakeSwapper, FakeChain, FakeCounterpartChain, FakeBus>;

fn handler_with(swaps: Vec<ChainSwap>) -> TestHandler {
    ChainSwapStateHandler::new(
        FakeWallet::new(),
        FakePersister { swaps, payments: Vec::new(), fail_fetch: false },
        FakeSwapper::new(),
        FakeChain { broadcasts: Vec::new(), fail: false },
        FakeCounterpartChain { tip_height: 500, tip_calls: 0 },
        FakeBus { published: Vec::new(), subscribers: 0 },
    )
}

fn swap(id: &str, payment_type: PaymentType) -> ChainSwap {
    ChainSwap {
        id: id.to_string(),
        payment_type,
        state: PaymentState::Created,
        payer_amount_sat: 100_000,
        receiver_amount_sat: 99_000,
        accept_zero_conf: false,
        lockup_address: "provider-lockup-address".to_string(),
        lockup_amount_sat: 100_000,
        user_lockup_tx_id: None,
        server_lockup_tx_id: None,
        claim_tx_id: None,
        refund_tx_id: None,
    }
}

fn update(id: &str, status: &str) -> StatusUpdate {
    StatusUpdate {
        swap_id: id.to_string(),
        status: status.to_string(),
        transaction: None,
        zero_conf_rejected: None,
    }
}

fn stored<'a>(h: &'a TestHandler, id: &str) -> &'a ChainSwap {
    h.persister.swaps.iter().find(|s| s.id == id).unwrap()
}

#[test]
fn created_send_broadcasts_lockup_once() {
    let mut h = handler_with(vec![swap("sw1", PaymentType::Send)]);
    h.on_new_status(&update("sw1", "swap.created")).unwrap();

    assert_eq!(h.chain_service.broadcasts, vec!["built-1".to_string()]);
    assert_eq!(
        h.onchain_wallet.build_calls,
        vec![("provider-lockup-address".to_string(), 100_000)]
    );
    let s = stored(&h, "sw1");
    assert_eq!(s.state, PaymentState::Pending);
    assert_eq!(s.user_lockup_tx_id, Some("built-1".to_string()));
    assert_eq!(h.persister.payments.len(), 1);
    let p = &h.persister.payments[0];
    assert_eq!(p.tx_id, "built-1");
    assert_eq!(p.amount_sat, 100_000);
    assert_eq!(p.fees_sat, 250);
    assert_eq!(p.payment_type, PaymentType::Send);
    assert!(!p.is_confirmed);
    assert_eq!(h.notifier.published, vec!["built-1".to_string()]);
}

#[test]
fn created_redelivery_is_noop() {
    let mut h = handler_with(vec![swap("sw1", PaymentType::Send)]);
    h.on_new_status(&update("sw1", "swap.created")).unwrap();
    h.on_new_status(&update("sw1", "swap.created")).unwrap();

    assert_eq!(h.chain_service.broadcasts.len(), 1);
    assert_eq!(h.persister.payments.len(), 1);
    assert_eq!(h.onchain_wallet.build_calls.len(), 1);
}

#[test]
fn receive_created_never_broadcasts() {
    let mut h = handler_with(vec![swap("sw2", PaymentType::Receive)]);
    h.on_new_status(&update("sw2", "swap.created")).unwrap();

    assert!(h.chain_service.broadcasts.is_empty());
    assert!(h.onchain_wallet.build_calls.is_empty());
    assert_eq!(stored(&h, "sw2").state, PaymentState::Created);
}

#[test]
fn zero_conf_receive_claims_on_server_mempool() {
    let mut sw2 = swap("sw2", PaymentType::Receive);
    sw2.accept_zero_conf = true;
    let mut h = handler_with(vec![sw2]);
    let mut u = update("sw2", "transaction.server.mempool");
    u.transaction = Some(TransactionInfo { id: "t1".to_string() });
    h.on_new_status(&u).unwrap();

    let s = stored(&h, "sw2");
    assert_eq!(s.server_lockup_tx_id, Some("t1".to_string()));
    assert_eq!(s.state, PaymentState::Complete);
    assert_eq!(s.claim_tx_id, Some("claim-1".to_string()));
    assert_eq!(h.swapper.claim_calls, vec![("sw2".to_string(), "addr-1".to_string())]);
    assert_eq!(h.persister.payments.len(), 1);
    let p = &h.persister.payments[0];
    assert_eq!(p.tx_id, "claim-1");
    assert_eq!(p.amount_sat, 99_000);
    assert_eq!(p.fees_sat, 0);
    assert_eq!(p.payment_type, PaymentType::Receive);
    assert!(!p.is_confirmed);
}

#[test]
fn server_mempool_without_zero_conf_waits() {
    let mut h = handler_with(vec![swap("sw2", PaymentType::Receive)]);
    let mut u = update("sw2", "transaction.server.mempool");
    u.transaction = Some(TransactionInfo { id: "t1".to_string() });
    h.on_new_status(&u).unwrap();

    assert!(h.swapper.claim_calls.is_empty());
    assert_eq!(stored(&h, "sw2").server_lockup_tx_id, None);
}

#[test]
fn server_confirmed_after_claim_is_noop() {
    let mut sw = swap("sw2", PaymentType::Receive);
    sw.state = PaymentState::Complete;
    sw.claim_tx_id = Some("c1".to_string());
    let mut h = handler_with(vec![sw]);
    h.on_new_status(&update("sw2", "transaction.server.confirmed")).unwrap();

    assert!(h.swapper.claim_calls.is_empty());
    assert_eq!(stored(&h, "sw2").claim_tx_id, Some("c1".to_string()));
}

#[test]
fn expired_send_refunds_with_wallet_tip() {
    let mut sw3 = swap("sw3", PaymentType::Send);
    sw3.state = PaymentState::Pending;
    sw3.user_lockup_tx_id = Some("ul3".to_string());
    let mut h = handler_with(vec![sw3]);
    h.swapper.coop_fails = true;
    h.onchain_wallet.tip_height = 4242;
    h.on_new_status(&update("sw3", "swap.expired")).unwrap();

    assert_eq!(
        h.swapper.coop_calls,
        vec![("sw3".to_string(), "addr-1".to_string(), 250)]
    );
    assert_eq!(
        h.swapper.noncoop_calls,
        vec![("sw3".to_string(), 250, "addr-2".to_string(), 4242)]
    );
    assert_eq!(h.onchain_wallet.build_calls, vec![("addr-1".to_string(), 99_000)]);
    assert_eq!(h.onchain_wallet.tip_calls, 1);
    assert_eq!(h.counterpart_chain_service.tip_calls, 0);
    let s = stored(&h, "sw3");
    assert_eq!(s.state, PaymentState::Pending);
    assert_eq!(s.refund_tx_id, Some("noncoop-refund-1".to_string()));
}

#[test]
fn cooperative_refund_success_skips_fallback() {
    let mut sw3 = swap("sw3", PaymentType::Send);
    sw3.state = PaymentState::Pending;
    sw3.user_lockup_tx_id = Some("ul3".to_string());
    let mut h = handler_with(vec![sw3]);
    h.on_new_status(&update("sw3", "transaction.failed")).unwrap();

    assert_eq!(
        h.swapper.coop_calls,
        vec![("sw3".to_string(), "addr-1".to_string(), 250)]
    );
    assert!(h.swapper.noncoop_calls.is_empty());
    assert_eq!(stored(&h, "sw3").refund_tx_id, Some("coop-refund-1".to_string()));
}

#[test]
fn refund_for_receive_uses_counterpart_tip() {
    let mut sw = swap("swr", PaymentType::Receive);
    sw.state = PaymentState::Pending;
    sw.user_lockup_tx_id = Some("ulr".to_string());
    let mut h = handler_with(vec![sw.clone()]);
    h.swapper.coop_fails = true;
    h.counterpart_chain_service.tip_height = 555;
    let refund_tx_id = h.refund(&sw).unwrap();

    assert_eq!(refund_tx_id, "noncoop-refund-1");
    assert_eq!(
        h.swapper.noncoop_calls,
        vec![("swr".to_string(), 250, "addr-2".to_string(), 555)]
    );
    assert_eq!(h.counterpart_chain_service.tip_calls, 1);
    assert_eq!(h.onchain_wallet.tip_calls, 0);
}

#[test]
fn server_confirmed_after_refund_triggers_no_claim() {
    let mut sw = swap("sw6", PaymentType::Send);
    sw.state = PaymentState::Pending;
    sw.user_lockup_tx_id = Some("ul6".to_string());
    sw.refund_tx_id = Some("r6".to_string());
    let mut h = handler_with(vec![sw]);
    h.on_new_status(&update("sw6", "transaction.server.confirmed")).unwrap();

    assert!(h.swapper.claim_calls.is_empty());
    let s = stored(&h, "sw6");
    assert_eq!(s.claim_tx_id, None);
    assert_eq!(s.refund_tx_id, Some("r6".to_string()));
}

#[test]
fn stored_lockup_id_is_never_replaced() {
    let mut sw = swap("sw7", PaymentType::Send);
    sw.state = PaymentState::Pending;
    sw.user_lockup_tx_id = Some("ul-original".to_string());
    let mut h = handler_with(vec![sw]);
    let mut u = update("sw7", "transaction.confirmed");
    u.transaction = Some(TransactionInfo { id: "ul-other".to_string() });
    h.on_new_status(&u).unwrap();

    let s = stored(&h, "sw7");
    assert_eq!(s.user_lockup_tx_id, Some("ul-original".to_string()));
    assert_eq!(s.state, PaymentState::Pending);
    assert_eq!(h.notifier.published, vec!["ul-other".to_string()]);
}

#[test]
fn lockup_failed_without_lockup_marks_failed() {
    let mut sw4 = swap("sw4", PaymentType::Send);
    sw4.state = PaymentState::Pending;
    let mut h = handler_with(vec![sw4]);
    h.on_new_status(&update("sw4", "transaction.lockupFailed")).unwrap();

    assert_eq!(stored(&h, "sw4").state, PaymentState::Failed);
    assert!(h.swapper.coop_calls.is_empty());
    assert!(h.swapper.noncoop_calls.is_empty());
}

#[test]
fn failure_redelivery_after_refund_is_noop() {
    let mut sw = swap("sw3", PaymentType::Send);
    sw.state = PaymentState::Pending;
    sw.user_lockup_tx_id = Some("ul3".to_string());
    sw.refund_tx_id = Some("r1".to_string());
    let mut h = handler_with(vec![sw]);
    h.on_new_status(&update("sw3", "swap.expired")).unwrap();

    assert!(h.swapper.coop_calls.is_empty());
    assert!(h.swapper.noncoop_calls.is_empty());
}

#[test]
fn receive_failure_with_lockup_is_left_unresolved() {
    let mut sw = swap("swx", PaymentType::Receive);
    sw.state = PaymentState::Pending;
    sw.user_lockup_tx_id = Some("ulx".to_string());
    let mut h = handler_with(vec![sw]);
    h.on_new_status(&update("swx", "swap.expired")).unwrap();

    assert!(h.swapper.coop_calls.is_empty());
    assert!(h.swapper.noncoop_calls.is_empty());
    assert_eq!(stored(&h, "swx").state, PaymentState::Pending);
}

#[test]
fn mempool_records_zero_conf_and_user_lockup() {
    let mut sw = swap("sw5", PaymentType::Send);
    sw.state = PaymentState::Pending;
    let mut h = handler_with(vec![sw]);
    let mut u = update("sw5", "transaction.mempool");
    u.zero_conf_rejected = Some(false);
    u.transaction = Some(TransactionInfo { id: "ul-observed".to_string() });
    h.on_new_status(&u).unwrap();

    let s = stored(&h, "sw5");
    assert!(s.accept_zero_conf);
    assert_eq!(s.user_lockup_tx_id, Some("ul-observed".to_string()));
    assert_eq!(s.state, PaymentState::Pending);
    assert_eq!(h.notifier.published, vec!["ul-observed".to_string()]);
}

#[test]
fn zero_conf_rejected_is_persisted_negated() {
    let mut sw = swap("sw5", PaymentType::Send);
    sw.accept_zero_conf = true;
    sw.state = PaymentState::Pending;
    let mut h = handler_with(vec![sw]);
    let mut u = update("sw5", "transaction.confirmed");
    u.zero_conf_rejected = Some(true);
    h.on_new_status(&u).unwrap();

    assert!(!stored(&h, "sw5").accept_zero_conf);
}

#[test]
fn unknown_swap_is_not_found() {
    let mut h = handler_with(vec![]);
    let r = h.on_new_status(&update("missing", "swap.created"));
    assert_eq!(r, Err(PaymentError::NotFound));
}

#[test]
fn unparsable_status_is_invalid_state() {
    let mut h = handler_with(vec![swap("sw1", PaymentType::Send)]);
    let r = h.on_new_status(&update("sw1", "swap.totally.new"));
    assert_eq!(r, Err(PaymentError::InvalidState));
    assert!(h.chain_service.broadcasts.is_empty());
}

#[test]
fn unhandled_vocabulary_word_is_ignored() {
    let mut h = handler_with(vec![swap("sw1", PaymentType::Send)]);
    let r = h.on_new_status(&update("sw1", "transaction.claimed"));
    assert_eq!(r, Ok(()));
    assert!(h.chain_service.broadcasts.is_empty());
    assert_eq!(stored(&h, "sw1").state, PaymentState::Created);
}

#[test]
fn collaborator_failure_aborts_without_persisting() {
    let mut h = handler_with(vec![swap("sw1", PaymentType::Send)]);
    h.onchain_wallet.fail_build = true;
    let r = h.on_new_status(&update("sw1", "swap.created"));

    assert_eq!(r, Err(PaymentError::CollaboratorError));
    let s = stored(&h, "sw1");
    assert_eq!(s.state, PaymentState::Created);
    assert_eq!(s.user_lockup_tx_id, None);
    assert!(h.persister.payments.is_empty());
    assert!(h.notifier.published.is_empty());
}

#[test]
fn terminal_swap_rejects_pending_and_complete_accepts_failed() {
    let mut sw = swap("swt", PaymentType::Send);
    sw.state = PaymentState::Complete;
    let mut h = handler_with(vec![sw]);

    let r = h.update_swap_info("swt", PaymentState::Pending, None, None, None, None);
    assert_eq!(
        r,
        Err(PaymentError::InvalidTransition {
            from: PaymentState::Complete,
            to: PaymentState::Pending,
        })
    );
    let r = h.update_swap_info("swt", PaymentState::Complete, None, None, None, None);
    assert_eq!(
        r,
        Err(PaymentError::InvalidTransition {
            from: PaymentState::Complete,
            to: PaymentState::Complete,
        })
    );
    let r = h.update_swap_info("swt", PaymentState::Failed, None, None, None, None);
    assert_eq!(r, Ok(()));
    assert_eq!(stored(&h, "swt").state, PaymentState::Failed);
}

#[test]
fn storage_failure_is_persist_error() {
    let mut h = handler_with(vec![swap("sw1", PaymentType::Send)]);
    h.persister.fail_fetch = true;
    let r = h.on_new_status(&update("sw1", "swap.created"));
    assert_eq!(r, Err(PaymentError::PersistError));
    assert!(h.chain_service.broadcasts.is_empty());
}

#[test]
fn claim_failure_aborts_after_recording_server_lockup() {
    let mut sw = swap("sw2", PaymentType::Receive);
    sw.state = PaymentState::Pending;
    sw.accept_zero_conf = true;
    let mut h = handler_with(vec![sw]);
    h.swapper.claim_fails = true;
    let mut u = update("sw2", "transaction.server.mempool");
    u.transaction = Some(TransactionInfo { id: "t9".to_string() });
    let r = h.on_new_status(&u);

    assert_eq!(r, Err(PaymentError::CollaboratorError));
    assert_eq!(h.swapper.claim_calls, vec![("sw2".to_string(), "addr-1".to_string())]);
    let s = stored(&h, "sw2");
    assert_eq!(s.server_lockup_tx_id, Some("t9".to_string()));
    assert_eq!(s.claim_tx_id, None);
    assert_eq!(s.state, PaymentState::Pending);
    assert!(h.persister.payments.is_empty());
}

#[test]
fn subscription_yields_independent_handles_and_publishes_nothing() {
    let mut h = handler_with(vec![]);
    let first = h.subscribe_payment_updates();
    let second = h.subscribe_payment_updates();
    assert_ne!(first, second);
    assert!(h.notifier.published.is_empty());
}

#[test]
fn update_swap_info_publishes_stored_lockup_id_as_fallback() {
    let mut sw = swap("swp", PaymentType::Send);
    sw.state = PaymentState::Pending;
    sw.user_lockup_tx_id = Some("stored-ul".to_string());
    let mut h = handler_with(vec![sw]);
    h.update_swap_info("swp", PaymentState::Pending, None, None, None, None).unwrap();

    assert_eq!(h.notifier.published, vec!["stored-ul".to_string()]);
}
