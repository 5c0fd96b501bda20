//! Domain events raised over the order lifecycle.

use vstd::prelude::*;
use crate::clock::now_unix;
use crate::ids::new_uuid_hyphenated;
use crate::order::PaymentOrder;

verus! {

/// Common shape of a domain event.
pub trait DomainEvent {
    /// The event's type tag.
    fn event_type(&self) -> &'static str;

    /// When the event occurred, unix seconds.
    fn occurred_at(&self) -> i64;
}

/// A payment order was created.
#[derive(Debug, Clone)]
pub struct PaymentOrderCreated {
    pub event_id: String,
    pub occurred_at: i64,
    pub order_id: String,
    pub out_order_no: String,
    pub amount: i64,
}

impl DomainEvent for PaymentOrderCreated {
    fn event_type(&self) -> &'static str {
        "PaymentOrderCreated"
    }

    fn occurred_at(&self) -> i64 {
        self.occurred_at
    }
}

impl PaymentOrderCreated {
    /// Captures the creation of an order.
    pub fn from_order(order: &PaymentOrder) -> (r: PaymentOrderCreated)
        ensures
            r.order_id == order.id,
            r.out_order_no == order.out_order_no,
            r.amount == order.amount.amount_cents,
    {
        PaymentOrderCreated {
            event_id: new_uuid_hyphenated(),
            occurred_at: now_unix(),
            order_id: order.id.clone(),
            out_order_no: order.out_order_no.clone(),
            amount: order.amount.to_cents(),
        }
    }
}

/// A payment succeeded.
#[derive(Debug, Clone)]
pub struct PaymentSucceeded {
    pub event_id: String,
    pub occurred_at: i64,
    pub order_id: String,
    pub out_order_no: String,
    pub transaction_id: String,
    pub amount: i64,
}

impl DomainEvent for PaymentSucceeded {
    fn event_type(&self) -> &'static str {
        "PaymentSucceeded"
    }

    fn occurred_at(&self) -> i64 {
        self.occurred_at
    }
}

impl PaymentSucceeded {
    /// Captures a recorded success; the order must already carry its gateway
    /// transaction id.
    pub fn from_order(order: &PaymentOrder) -> (r: PaymentSucceeded)
        requires
            order.transaction_id is Some,
        ensures
            r.order_id == order.id,
            r.out_order_no == order.out_order_no,
            Some(r.transaction_id) == order.transaction_id,
            r.amount == order.amount.amount_cents,
    {
        let transaction_id = match &order.transaction_id {
            Some(t) => t.clone(),
            None => String::new(),
        };
        PaymentSucceeded {
            event_id: new_uuid_hyphenated(),
            occurred_at: now_unix(),
            order_id: order.id.clone(),
            out_order_no: order.out_order_no.clone(),
            transaction_id,
            amount: order.amount.to_cents(),
        }
    }
}

/// A payment failed.
#[derive(Debug, Clone)]
pub struct PaymentFailed {
    pub event_id: String,
    pub occurred_at: i64,
    pub order_id: String,
    pub out_order_no: String,
    pub reason: String,
}

impl DomainEvent for PaymentFailed {
    fn event_type(&self) -> &'static str {
        "PaymentFailed"
    }

    fn occurred_at(&self) -> i64 {
        self.occurred_at
    }
}

impl PaymentFailed {
    /// Captures a recorded failure with its reason.
    pub fn new(order: &PaymentOrder, reason: String) -> (r: PaymentFailed)
        ensures
            r.order_id == order.id,
            r.out_order_no == order.out_order_no,
            r.reason == reason,
    {
        PaymentFailed {
            event_id: new_uuid_hyphenated(),
            occurred_at: now_unix(),
            order_id: order.id.clone(),
            out_order_no: order.out_order_no.clone(),
            reason,
        }
    }
}

} // verus!
