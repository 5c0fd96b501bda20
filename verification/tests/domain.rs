use payment_core::money::Money;
use payment_core::order::PaymentOrder;
use payment_core::state::{PaymentMethod, PaymentState};

#[test]
fn test_create_payment_order() {
    let order = PaymentOrder::new(
        "ORDER123".to_string(),
        Money::from_yuan(10),
        PaymentMethod::MiniProgram,
        "测试商品".to_string(),
        "127.0.0.1".to_string(),
        Some("openid123".to_string()),
        None,
    )
    .unwrap();

    assert_eq!(order.state, PaymentState::Pending);
    assert_eq!(order.amount.to_cents(), 1000);
    assert!(order.can_pay());
    assert!(!order.is_finished());
}

#[test]
fn test_mark_as_succeeded() {
    let mut order = PaymentOrder::new(
        "ORDER123".to_string(),
        Money::from_yuan(10),
        PaymentMethod::MiniProgram,
        "测试商品".to_string(),
        "127.0.0.1".to_string(),
        Some("openid123".to_string()),
        None,
    )
    .unwrap();

    order.mark_as_succeeded("TX123".to_string()).unwrap();

    assert_eq!(order.state, PaymentState::Succeeded);
    assert_eq!(order.transaction_id, Some("TX123".to_string()));
    assert!(order.paid_at.is_some());
    assert!(order.is_finished());
}

#[test]
fn test_invalid_amount() {
    let result = PaymentOrder::new(
        "ORDER123".to_string(),
        Money::from_cents(0),
        PaymentMethod::MiniProgram,
        "测试商品".to_string(),
        "127.0.0.1".to_string(),
        Some("openid123".to_string()),
        None,
    );

    assert!(result.is_err());
}

#[test]
fn test_money_from_yuan() {
    let money = Money::from_yuan(10);
    assert_eq!(money.to_cents(), 1000);
    assert_eq!(money.to_cents() as f64 / 100.0, 10.0);
}

#[test]
fn test_money_display() {
    let money = Money::from_yuan(10);
    assert_eq!(money.display_yuan(), "¥10.00");
}

#[test]
fn test_money_display_negative() {
    let money = Money::from_cents(-5);
    assert_eq!(money.display_yuan(), "¥-0.05");
}

#[test]
fn test_invalid_out_order_no_length() {
    let long_no: String = "x".repeat(65);
    let result = PaymentOrder::new(
        long_no,
        Money::from_cents(100),
        PaymentMethod::Jsapi,
        "item".to_string(),
        "127.0.0.1".to_string(),
        None,
        None,
    );
    assert!(matches!(
        result,
        Err(payment_core::errors::DomainError::ValidationError(_))
    ));
}

#[test]
fn test_invalid_description_length() {
    let long_desc: String = "d".repeat(128);
    let result = PaymentOrder::new(
        "ORDER1".to_string(),
        Money::from_cents(100),
        PaymentMethod::Jsapi,
        long_desc,
        "127.0.0.1".to_string(),
        None,
        None,
    );
    assert!(matches!(
        result,
        Err(payment_core::errors::DomainError::ValidationError(_))
    ));
}

#[test]
fn test_mark_succeeded_twice_is_invalid_state() {
    let mut order = PaymentOrder::new(
        "ORDER1".to_string(),
        Money::from_cents(100),
        PaymentMethod::MiniProgram,
        "item".to_string(),
        "127.0.0.1".to_string(),
        Some("oid".to_string()),
        None,
    )
    .unwrap();
    order.mark_as_succeeded("tx1".to_string()).unwrap();
    let again = order.mark_as_succeeded("tx2".to_string());
    assert!(matches!(
        again,
        Err(payment_core::errors::DomainError::InvalidState { .. })
    ));
    // The failed transition left the order untouched.
    assert_eq!(order.transaction_id, Some("tx1".to_string()));
}

#[test]
fn test_mark_closed_from_succeeded_fails() {
    let mut order = PaymentOrder::new(
        "ORDER1".to_string(),
        Money::from_cents(100),
        PaymentMethod::Native,
        "item".to_string(),
        "127.0.0.1".to_string(),
        None,
        None,
    )
    .unwrap();
    order.mark_as_succeeded("tx1".to_string()).unwrap();
    assert!(matches!(
        order.mark_as_closed(),
        Err(payment_core::errors::DomainError::InvalidState { .. })
    ));
    assert_eq!(order.state, PaymentState::Succeeded);
}

#[test]
fn test_mark_closed_from_pending_succeeds() {
    let mut order = PaymentOrder::new(
        "ORDER1".to_string(),
        Money::from_cents(100),
        PaymentMethod::H5,
        "item".to_string(),
        "127.0.0.1".to_string(),
        None,
        None,
    )
    .unwrap();
    order.mark_as_closed().unwrap();
    assert_eq!(order.state, PaymentState::Closed);
    assert!(order.is_finished());
    assert!(!order.can_pay());
}

#[test]
fn test_mark_processing_then_failed() {
    let mut order = PaymentOrder::new(
        "ORDER1".to_string(),
        Money::from_cents(100),
        PaymentMethod::Jsapi,
        "item".to_string(),
        "127.0.0.1".to_string(),
        None,
        None,
    )
    .unwrap();
    order.mark_as_processing().unwrap();
    assert_eq!(order.state, PaymentState::Processing);
    assert!(!order.can_pay());
    assert!(!order.is_finished());
    order.mark_as_failed().unwrap();
    assert_eq!(order.state, PaymentState::Failed);
    assert!(order.paid_at.is_none());
}

#[test]
fn test_set_prepay_id_keeps_state() {
    let mut order = PaymentOrder::new(
        "ORDER1".to_string(),
        Money::from_cents(100),
        PaymentMethod::MiniProgram,
        "item".to_string(),
        "127.0.0.1".to_string(),
        Some("oid".to_string()),
        None,
    )
    .unwrap();
    order.set_prepay_id("pp_x".to_string()).unwrap();
    assert_eq!(order.prepay_id, Some("pp_x".to_string()));
    assert_eq!(order.state, PaymentState::Pending);
}

#[test]
fn test_order_id_shape() {
    let order = PaymentOrder::new(
        "ORDER1".to_string(),
        Money::from_cents(100),
        PaymentMethod::MiniProgram,
        "item".to_string(),
        "127.0.0.1".to_string(),
        Some("oid".to_string()),
        None,
    )
    .unwrap();
    assert_eq!(order.id.len(), 36);
}
