use std::cell::RefCell;
use std::rc::Rc;

use payment_core::dto::{
    CreatePaymentRequest, MiniProgramPayParams, OrderQueryResponse, WeChatPayRequest,
    WeChatPayResponse,
};
use payment_core::errors::{DomainError, DomainResult};
use payment_core::money::Money;
use payment_core::order::PaymentOrder;
use payment_core::payment_service::{
    apply_notification_action, decide_notification, order_to_response, reconcile_trade_state,
    NotificationAction, PaymentService,
};
use payment_core::ports::{PaymentRepositoryPort, WeChatPayPort};
use payment_core::state::{PaymentMethod, PaymentState};

#[derive(Default)]
struct RepoState {
    orders: Vec<PaymentOrder>,
    save_calls: usize,
    update_calls: usize,
}

struct InMemoryRepo {
    state: Rc<RefCell<RepoState>>,
}

impl PaymentRepositoryPort for InMemoryRepo {
    fn save(&mut self, order: &PaymentOrder) -> DomainResult<()> {
        let mut state = self.state.borrow_mut();
        state.save_calls += 1;
        if state
            .orders
            .iter()
            .any(|o| o.out_order_no == order.out_order_no)
        {
            return Err(DomainError::DatabaseError("duplicate out_order_no".to_string()));
        }
        state.orders.push(order.clone());
        Ok(())
    }

    fn find_by_id(&mut self, id: &str) -> DomainResult<Option<PaymentOrder>> {
        Ok(self
            .state
            .borrow()
            .orders
            .iter()
            .find(|o| o.id == id)
            .cloned())
    }

    fn find_by_out_order_no(&mut self, out_order_no: &str) -> DomainResult<Option<PaymentOrder>> {
        Ok(self
            .state
            .borrow()
            .orders
            .iter()
            .find(|o| o.out_order_no == out_order_no)
            .cloned())
    }

    fn find_by_transaction_id(
        &mut self,
        transaction_id: &str,
    ) -> DomainResult<Option<PaymentOrder>> {
        Ok(self
            .state
            .borrow()
            .orders
            .iter()
            .find(|o| o.transaction_id.as_deref() == Some(transaction_id))
            .cloned())
    }

    fn update(&mut self, order: &PaymentOrder) -> DomainResult<()> {
        let mut state = self.state.borrow_mut();
        state.update_calls += 1;
        match state.orders.iter_mut().find(|o| o.id == order.id) {
            Some(slot) => {
                *slot = order.clone();
                Ok(())
            }
            None => Err(DomainError::OrderNotFound(order.id.clone())),
        }
    }

    fn delete(&mut self, id: &str) -> DomainResult<()> {
        let mut state = self.state.borrow_mut();
        let before = state.orders.len();
        state.orders.retain(|o| o.id != id);
        if state.orders.len() == before {
            return Err(DomainError::OrderNotFound(id.to_string()));
        }
        Ok(())
    }
}

struct FakeGateway {
    prepay_id: String,
    trade_state: String,
    transaction_id: Option<String>,
}

impl WeChatPayPort for FakeGateway {
    fn create_mini_program_order(
        &mut self,
        _request: WeChatPayRequest,
    ) -> DomainResult<WeChatPayResponse> {
        Ok(WeChatPayResponse {
            prepay_id: self.prepay_id.clone(),
        })
    }

    fn generate_mini_pay_params(&mut self, prepay_id: &str) -> DomainResult<MiniProgramPayParams> {
        Ok(MiniProgramPayParams {
            time_stamp: "1700000000".to_string(),
            nonce_str: "n".repeat(32),
            package: format!("prepay_id={}", prepay_id),
            sign_type: "RSA".to_string(),
            pay_sign: "sig".to_string(),
        })
    }

    fn query_order(&mut self, _out_order_no: &str) -> DomainResult<OrderQueryResponse> {
        Ok(OrderQueryResponse {
            trade_state: self.trade_state.clone(),
            transaction_id: self.transaction_id.clone(),
            trade_state_desc: None,
        })
    }

    fn close_order(&mut self, _out_order_no: &str) -> DomainResult<()> {
        Ok(())
    }

    fn verify_notification(
        &mut self,
        _timestamp: &str,
        _nonce: &str,
        _body: &str,
        _signature: &str,
    ) -> DomainResult<bool> {
        Ok(true)
    }

    fn decrypt_notification(
        &mut self,
        _ciphertext: &str,
        _associated_data: &str,
        _nonce: &str,
    ) -> DomainResult<String> {
        Ok(String::new())
    }
}

fn create_request(out_order_no: &str, amount_cents: i64) -> CreatePaymentRequest {
    CreatePaymentRequest {
        out_order_no: out_order_no.to_string(),
        amount: Money::from_cents(amount_cents),
        payment_method: PaymentMethod::MiniProgram,
        description: "item".to_string(),
        openid: Some("oid1".to_string()),
        client_ip: "127.0.0.1".to_string(),
        attach: None,
    }
}

#[test]
fn test_create_payment_stores_prepay_token() {
    let state = Rc::new(RefCell::new(RepoState::default()));
    let repo = InMemoryRepo {
        state: Rc::clone(&state),
    };
    let gateway = FakeGateway {
        prepay_id: "pp_1".to_string(),
        trade_state: "NOTPAY".to_string(),
        transaction_id: None,
    };
    let mut service = PaymentService::new(gateway, repo);

    let resp = service
        .create_payment(create_request("T1", 1000))
        .expect("create must succeed");
    assert_eq!(resp.state, "pending");
    assert_eq!(resp.amount, 1000);
    assert_eq!(resp.out_order_no, "T1");
    assert_eq!(resp.prepay_id, "pp_1");
    assert!(resp.pay_params.is_some());

    // The order is retrievable with the stored prepay token.
    let queried = service.query_payment("T1").expect("query must succeed");
    assert_eq!(queried.prepay_id, "pp_1");
    assert_eq!(queried.state, "pending");
    assert_eq!(state.borrow().orders.len(), 1);
    assert_eq!(state.borrow().orders[0].prepay_id, Some("pp_1".to_string()));
}

#[test]
fn test_query_reconciles_gateway_success() {
    let state = Rc::new(RefCell::new(RepoState::default()));
    let repo = InMemoryRepo {
        state: Rc::clone(&state),
    };
    let gateway = FakeGateway {
        prepay_id: "pp_1".to_string(),
        trade_state: "SUCCESS".to_string(),
        transaction_id: Some("tx1".to_string()),
    };
    let order = PaymentOrder::new(
        "T1".to_string(),
        Money::from_cents(1000),
        PaymentMethod::MiniProgram,
        "item".to_string(),
        "127.0.0.1".to_string(),
        Some("oid1".to_string()),
        None,
    )
    .unwrap();
    state.borrow_mut().orders.push(order);

    let mut service = PaymentService::new(gateway, repo);
    let resp = service.query_payment("T1").expect("query must succeed");
    assert_eq!(resp.state, "succeeded");

    let stored = state.borrow().orders[0].clone();
    assert_eq!(stored.state, PaymentState::Succeeded);
    assert_eq!(stored.transaction_id, Some("tx1".to_string()));
    assert!(stored.paid_at.is_some());
    assert_eq!(state.borrow().update_calls, 1);
}

#[test]
fn test_duplicate_success_notification_is_acknowledged() {
    let state = Rc::new(RefCell::new(RepoState::default()));
    let repo = InMemoryRepo {
        state: Rc::clone(&state),
    };
    let gateway = FakeGateway {
        prepay_id: "pp_1".to_string(),
        trade_state: "SUCCESS".to_string(),
        transaction_id: Some("tx1".to_string()),
    };
    let mut order = PaymentOrder::new(
        "T1".to_string(),
        Money::from_cents(1000),
        PaymentMethod::MiniProgram,
        "item".to_string(),
        "127.0.0.1".to_string(),
        Some("oid1".to_string()),
        None,
    )
    .unwrap();
    order.mark_as_succeeded("tx1".to_string()).unwrap();
    state.borrow_mut().orders.push(order);

    let mut service = PaymentService::new(gateway, repo);
    let decrypted = "{\"out_trade_no\":\"T1\",\"transaction_id\":\"tx1\"}";
    let first = service.handle_payment_notification("TRANSACTION.SUCCESS", decrypted);
    assert!(first.is_ok());
    let second = service.handle_payment_notification("TRANSACTION.SUCCESS", decrypted);
    assert!(second.is_ok(), "redelivery must be an idempotent no-op");
    // The idempotent path never rewrote the order.
    assert_eq!(state.borrow().update_calls, 0);
    assert_eq!(state.borrow().orders[0].state, PaymentState::Succeeded);
}

#[test]
fn test_success_notification_applies_transition() {
    let state = Rc::new(RefCell::new(RepoState::default()));
    let repo = InMemoryRepo {
        state: Rc::clone(&state),
    };
    let gateway = FakeGateway {
        prepay_id: "pp_1".to_string(),
        trade_state: "NOTPAY".to_string(),
        transaction_id: None,
    };
    let order = PaymentOrder::new(
        "T1".to_string(),
        Money::from_cents(1000),
        PaymentMethod::MiniProgram,
        "item".to_string(),
        "127.0.0.1".to_string(),
        Some("oid1".to_string()),
        None,
    )
    .unwrap();
    state.borrow_mut().orders.push(order);

    let mut service = PaymentService::new(gateway, repo);
    service
        .handle_payment_notification(
            "TRANSACTION.SUCCESS",
            "{\"out_trade_no\":\"T1\",\"transaction_id\":\"tx1\"}",
        )
        .expect("notification must be handled");
    let stored = state.borrow().orders[0].clone();
    assert_eq!(stored.state, PaymentState::Succeeded);
    assert_eq!(stored.transaction_id, Some("tx1".to_string()));
}

#[test]
fn test_unhandled_event_type_is_ignored() {
    let state = Rc::new(RefCell::new(RepoState::default()));
    let repo = InMemoryRepo {
        state: Rc::clone(&state),
    };
    let gateway = FakeGateway {
        prepay_id: "pp_1".to_string(),
        trade_state: "NOTPAY".to_string(),
        transaction_id: None,
    };
    let order = PaymentOrder::new(
        "T1".to_string(),
        Money::from_cents(1000),
        PaymentMethod::MiniProgram,
        "item".to_string(),
        "127.0.0.1".to_string(),
        Some("oid1".to_string()),
        None,
    )
    .unwrap();
    state.borrow_mut().orders.push(order);

    let mut service = PaymentService::new(gateway, repo);
    service
        .handle_payment_notification("REFUND.SUCCESS", "{\"out_trade_no\":\"T1\"}")
        .expect("unknown event types are acknowledged and ignored");
    assert_eq!(state.borrow().orders[0].state, PaymentState::Pending);
}

#[test]
fn test_zero_amount_rejected_before_persistence() {
    let state = Rc::new(RefCell::new(RepoState::default()));
    let repo = InMemoryRepo {
        state: Rc::clone(&state),
    };
    let gateway = FakeGateway {
        prepay_id: "pp_1".to_string(),
        trade_state: "NOTPAY".to_string(),
        transaction_id: None,
    };
    let mut service = PaymentService::new(gateway, repo);
    let r = service.create_payment(create_request("T1", 0));
    assert!(matches!(r, Err(DomainError::InvalidAmount(_))));
    assert_eq!(
        state.borrow().save_calls,
        0,
        "validation must reject before any persistence call"
    );
}

/// A repository whose `update` always reports a conflict, as a stale
/// optimistic write would, while a concurrent writer has already recorded
/// the same success.
struct ConflictingRepo {
    state: Rc<RefCell<RepoState>>,
}

impl PaymentRepositoryPort for ConflictingRepo {
    fn save(&mut self, order: &PaymentOrder) -> DomainResult<()> {
        self.state.borrow_mut().orders.push(order.clone());
        Ok(())
    }

    fn find_by_id(&mut self, id: &str) -> DomainResult<Option<PaymentOrder>> {
        Ok(self
            .state
            .borrow()
            .orders
            .iter()
            .find(|o| o.id == id)
            .cloned())
    }

    fn find_by_out_order_no(&mut self, out_order_no: &str) -> DomainResult<Option<PaymentOrder>> {
        Ok(self
            .state
            .borrow()
            .orders
            .iter()
            .find(|o| o.out_order_no == out_order_no)
            .cloned())
    }

    fn find_by_transaction_id(
        &mut self,
        transaction_id: &str,
    ) -> DomainResult<Option<PaymentOrder>> {
        Ok(self
            .state
            .borrow()
            .orders
            .iter()
            .find(|o| o.transaction_id.as_deref() == Some(transaction_id))
            .cloned())
    }

    fn update(&mut self, _order: &PaymentOrder) -> DomainResult<()> {
        // The concurrent writer advances the stored order, then this
        // writer's conditional update loses.
        let mut state = self.state.borrow_mut();
        if let Some(stored) = state.orders.first_mut() {
            if stored.state == PaymentState::Pending {
                stored.mark_as_succeeded("tx1".to_string()).unwrap();
            }
        }
        Err(DomainError::DatabaseError("stale state conflict".to_string()))
    }

    fn delete(&mut self, _id: &str) -> DomainResult<()> {
        Ok(())
    }
}

#[test]
fn test_lost_race_on_same_success_is_benign() {
    let state = Rc::new(RefCell::new(RepoState::default()));
    let repo = ConflictingRepo {
        state: Rc::clone(&state),
    };
    let gateway = FakeGateway {
        prepay_id: "pp_1".to_string(),
        trade_state: "NOTPAY".to_string(),
        transaction_id: None,
    };
    let order = PaymentOrder::new(
        "T1".to_string(),
        Money::from_cents(1000),
        PaymentMethod::MiniProgram,
        "item".to_string(),
        "127.0.0.1".to_string(),
        Some("oid1".to_string()),
        None,
    )
    .unwrap();
    state.borrow_mut().orders.push(order);

    let mut service = PaymentService::new(gateway, repo);
    let r = service.handle_payment_notification("TRANSACTION.SUCCESS", "{\"out_trade_no\":\"T1\",\"transaction_id\":\"tx1\"}");
    assert!(
        r.is_ok(),
        "losing the race to an identical success must be a benign no-op"
    );
}

#[test]
fn test_reconcile_trade_states() {
    let base = PaymentOrder::new(
        "T1".to_string(),
        Money::from_cents(1000),
        PaymentMethod::MiniProgram,
        "item".to_string(),
        "127.0.0.1".to_string(),
        Some("oid1".to_string()),
        None,
    )
    .unwrap();

    let mut closed = base.clone();
    let updated = reconcile_trade_state(
        &mut closed,
        &OrderQueryResponse {
            trade_state: "CLOSED".to_string(),
            transaction_id: None,
            trade_state_desc: None,
        },
    )
    .unwrap();
    assert!(updated);
    assert_eq!(closed.state, PaymentState::Closed);

    let mut failed = base.clone();
    let updated = reconcile_trade_state(
        &mut failed,
        &OrderQueryResponse {
            trade_state: "PAYERROR".to_string(),
            transaction_id: None,
            trade_state_desc: None,
        },
    )
    .unwrap();
    assert!(updated);
    assert_eq!(failed.state, PaymentState::Failed);

    let mut untouched = base.clone();
    let updated = reconcile_trade_state(
        &mut untouched,
        &OrderQueryResponse {
            trade_state: "NOTPAY".to_string(),
            transaction_id: None,
            trade_state_desc: None,
        },
    )
    .unwrap();
    assert!(!updated);
    assert_eq!(untouched.state, PaymentState::Pending);

    // A reported success without a transaction id changes nothing.
    let mut skipped = base.clone();
    let updated = reconcile_trade_state(
        &mut skipped,
        &OrderQueryResponse {
            trade_state: "SUCCESS".to_string(),
            transaction_id: None,
            trade_state_desc: None,
        },
    )
    .unwrap();
    assert!(!updated);
    assert_eq!(skipped.state, PaymentState::Pending);
}

#[test]
fn test_decide_notification_table() {
    let same = Some("tx1".to_string());
    let other = Some("tx2".to_string());
    assert_eq!(
        decide_notification(PaymentState::Pending, &None, "REFUND.SUCCESS", "tx1"),
        NotificationAction::Ignore
    );
    assert_eq!(
        decide_notification(PaymentState::Succeeded, &same, "TRANSACTION.SUCCESS", "tx1"),
        NotificationAction::AcknowledgeDuplicate
    );
    assert_eq!(
        decide_notification(PaymentState::Succeeded, &None, "TRANSACTION.SUCCESS", "tx1"),
        NotificationAction::AcknowledgeDuplicate
    );
    assert_eq!(
        decide_notification(PaymentState::Succeeded, &other, "TRANSACTION.SUCCESS", "tx1"),
        NotificationAction::RecordSuccess
    );
    assert_eq!(
        decide_notification(PaymentState::Pending, &None, "TRANSACTION.SUCCESS", "tx1"),
        NotificationAction::RecordSuccess
    );
}

#[test]
fn test_query_unknown_order_is_not_found() {
    let state = Rc::new(RefCell::new(RepoState::default()));
    let repo = InMemoryRepo {
        state: Rc::clone(&state),
    };
    let gateway = FakeGateway {
        prepay_id: "pp_1".to_string(),
        trade_state: "NOTPAY".to_string(),
        transaction_id: None,
    };
    let mut service = PaymentService::new(gateway, repo);
    let r = service.query_payment("missing");
    assert!(matches!(r, Err(DomainError::OrderNotFound(_))));
}

#[test]
fn test_notification_missing_out_trade_no_is_validation_error() {
    let state = Rc::new(RefCell::new(RepoState::default()));
    let repo = InMemoryRepo {
        state: Rc::clone(&state),
    };
    let gateway = FakeGateway {
        prepay_id: "pp_1".to_string(),
        trade_state: "NOTPAY".to_string(),
        transaction_id: None,
    };
    let mut service = PaymentService::new(gateway, repo);
    let r = service.handle_payment_notification("TRANSACTION.SUCCESS", "{\"transaction_id\":\"tx1\"}");
    assert!(matches!(r, Err(DomainError::ValidationError(_))));
}

#[test]
fn test_notification_missing_transaction_id_is_validation_error() {
    let state = Rc::new(RefCell::new(RepoState::default()));
    let repo = InMemoryRepo {
        state: Rc::clone(&state),
    };
    let gateway = FakeGateway {
        prepay_id: "pp_1".to_string(),
        trade_state: "NOTPAY".to_string(),
        transaction_id: None,
    };
    let mut service = PaymentService::new(gateway, repo);
    // Validation of the decrypted fields precedes the order lookup: even
    // with no stored order this is a validation error, not a lookup error.
    let r = service.handle_payment_notification("TRANSACTION.SUCCESS", "{\"out_trade_no\":\"T1\"}");
    assert!(matches!(r, Err(DomainError::ValidationError(_))));
}

#[test]
fn test_apply_notification_action_table() {
    let base = PaymentOrder::new(
        "T1".to_string(),
        Money::from_cents(1000),
        PaymentMethod::MiniProgram,
        "item".to_string(),
        "127.0.0.1".to_string(),
        Some("oid1".to_string()),
        None,
    )
    .unwrap();

    // A duplicate is acknowledged without touching the order.
    let mut done = base.clone();
    done.mark_as_succeeded("tx1".to_string()).unwrap();
    let snapshot = done.clone();
    let updated = apply_notification_action(
        &mut done,
        NotificationAction::AcknowledgeDuplicate,
        "tx1".to_string(),
    )
    .unwrap();
    assert!(!updated);
    assert_eq!(done.state, snapshot.state);
    assert_eq!(done.transaction_id, snapshot.transaction_id);

    // An ignored event leaves a pending order pending.
    let mut ignored = base.clone();
    let updated =
        apply_notification_action(&mut ignored, NotificationAction::Ignore, String::new())
            .unwrap();
    assert!(!updated);
    assert_eq!(ignored.state, PaymentState::Pending);

    // Recording a success applies the transition.
    let mut recorded = base.clone();
    let updated = apply_notification_action(
        &mut recorded,
        NotificationAction::RecordSuccess,
        "tx9".to_string(),
    )
    .unwrap();
    assert!(updated);
    assert_eq!(recorded.state, PaymentState::Succeeded);
    assert_eq!(recorded.transaction_id, Some("tx9".to_string()));
    assert!(recorded.paid_at.is_some());

    // Recording a success on a closed order is an invalid transition.
    let mut closed = base.clone();
    closed.mark_as_closed().unwrap();
    let r = apply_notification_action(
        &mut closed,
        NotificationAction::RecordSuccess,
        "tx9".to_string(),
    );
    assert!(matches!(r, Err(DomainError::InvalidState { .. })));
    assert_eq!(closed.state, PaymentState::Closed);
}

#[test]
fn test_order_to_response_echoes_order() {
    let mut order = PaymentOrder::new(
        "T1".to_string(),
        Money::from_cents(1000),
        PaymentMethod::MiniProgram,
        "item".to_string(),
        "127.0.0.1".to_string(),
        Some("oid1".to_string()),
        None,
    )
    .unwrap();

    let bare = order_to_response(&order, None);
    assert_eq!(bare.order_id, order.id);
    assert_eq!(bare.out_order_no, "T1");
    assert_eq!(bare.amount, 1000);
    assert_eq!(bare.prepay_id, "");
    assert!(bare.pay_params.is_none());
    assert_eq!(bare.state, "pending");

    order.set_prepay_id("pp_1".to_string()).unwrap();
    order.mark_as_succeeded("tx1".to_string()).unwrap();
    let full = order_to_response(&order, None);
    assert_eq!(full.prepay_id, "pp_1");
    assert_eq!(full.state, "succeeded");
}
