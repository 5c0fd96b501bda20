//! The payment order aggregate and its lifecycle state machine.
//!
//! Every mutation goes through a named transition; the transitions keep the
//! order's invariant: a paid timestamp exactly when the order has succeeded,
//! a gateway transaction id only once a success has been recorded, and
//! immutable identity and amount.

use vstd::prelude::*;
use crate::clock::now_unix;
use crate::errors::{DomainError, DomainResult};
use crate::ids::new_uuid_hyphenated;
use crate::money::Money;
use crate::state::{spec_state_token, PaymentMethod, PaymentState};

verus! {

/// A payment order: one payment attempt of a merchant customer, correlated
/// with the gateway through the merchant order number.
#[derive(Debug, Clone)]
pub struct PaymentOrder {
    /// Internally generated unique id.
    pub id: String,
    /// Merchant order number, 1 to 64 characters, unique per merchant.
    pub out_order_no: String,
    /// Gateway transaction id, set when a success is recorded.
    pub transaction_id: Option<String>,
    /// The amount to collect, strictly positive.
    pub amount: Money,
    /// The payment flow requested by the client.
    pub payment_method: PaymentMethod,
    /// Lifecycle state.
    pub state: PaymentState,
    /// Item description, 1 to 127 characters.
    pub description: String,
    /// Payer identity, required by the mini-program flow.
    pub openid: Option<String>,
    /// Network address of the paying client.
    pub client_ip: String,
    /// Creation time, unix seconds.
    pub created_at: i64,
    /// Time of the last mutation, unix seconds.
    pub updated_at: i64,
    /// Time the payment succeeded, unix seconds; set exactly when succeeded.
    pub paid_at: Option<i64>,
    /// Opaque merchant blob echoed by the gateway.
    pub attach: Option<String>,
    /// Short-lived gateway token issued after remote order creation.
    pub prepay_id: Option<String>,
}

impl PaymentOrder {
    /// The order's internal invariant.
    pub open spec fn wf(self) -> bool {
        &&& 1 <= self.out_order_no@.len() <= 64
        &&& 1 <= self.description@.len() <= 127
        &&& self.amount.amount_cents > 0
        &&& (self.paid_at is Some <==> self.state == PaymentState::Succeeded)
        &&& (self.transaction_id is Some ==> self.state == PaymentState::Succeeded
            || self.state == PaymentState::Refunded)
    }

    /// Whether the order can still be paid.
    pub open spec fn spec_can_pay(self) -> bool {
        self.state == PaymentState::Pending
    }

    /// Whether the order has reached a terminal outcome for re-querying.
    pub open spec fn spec_is_finished(self) -> bool {
        self.state == PaymentState::Succeeded || self.state == PaymentState::Failed
            || self.state == PaymentState::Closed
    }

    /// Identity and amount never change after creation.
    pub open spec fn spec_identity_unchanged(pre: PaymentOrder, post: PaymentOrder) -> bool {
        &&& post.id == pre.id
        &&& post.out_order_no == pre.out_order_no
        &&& post.amount == pre.amount
        &&& post.payment_method == pre.payment_method
        &&& post.description == pre.description
        &&& post.openid == pre.openid
        &&& post.client_ip == pre.client_ip
        &&& post.created_at == pre.created_at
        &&& post.attach == pre.attach
    }

    /// Validates and creates a fresh order in the pending state.
    pub fn new(
        out_order_no: String,
        amount: Money,
        payment_method: PaymentMethod,
        description: String,
        client_ip: String,
        openid: Option<String>,
        attach: Option<String>,
    ) -> (r: DomainResult<PaymentOrder>)
        ensures
            r is Ok <==> (amount.amount_cents > 0 && 1 <= out_order_no@.len() <= 64 && 1
                <= description@.len() <= 127),
            amount.amount_cents <= 0 ==> (r matches Err(e) && e is InvalidAmount),
            amount.amount_cents > 0 && !(1 <= out_order_no@.len() <= 64) ==> (r matches Err(e)
                && e is ValidationError),
            amount.amount_cents > 0 && 1 <= out_order_no@.len() <= 64 && !(1
                <= description@.len() <= 127) ==> (r matches Err(e) && e is ValidationError),
            r matches Ok(o) ==> {
                &&& o.id@.len() == 36
                &&& o.out_order_no == out_order_no
                &&& o.amount == amount
                &&& o.payment_method == payment_method
                &&& o.description == description
                &&& o.client_ip == client_ip
                &&& o.openid == openid
                &&& o.attach == attach
                &&& o.state == PaymentState::Pending
                &&& o.transaction_id is None
                &&& o.paid_at is None
                &&& o.prepay_id is None
                &&& o.created_at == o.updated_at
                &&& o.wf()
            },
    {
        if amount.to_cents() <= 0 {
            return Err(
                DomainError::InvalidAmount(String::from_str("Amount must be greater than 0")),
            );
        }
        let no_len = out_order_no.as_str().unicode_len();
        if no_len == 0 || no_len > 64 {
            return Err(
                DomainError::ValidationError(
                    String::from_str("Out order no must be 1-64 characters"),
                ),
            );
        }
        let desc_len = description.as_str().unicode_len();
        if desc_len == 0 || desc_len > 127 {
            return Err(
                DomainError::ValidationError(
                    String::from_str("Description must be 1-127 characters"),
                ),
            );
        }
        let now = now_unix();
        Ok(
            PaymentOrder {
                id: new_uuid_hyphenated(),
                out_order_no,
                transaction_id: None,
                amount,
                payment_method,
                state: PaymentState::Pending,
                description,
                openid,
                client_ip,
                created_at: now,
                updated_at: now,
                paid_at: None,
                attach,
                prepay_id: None,
            },
        )
    }

    /// Moves a pending order into processing; any other source state is an
    /// invalid transition and leaves the order untouched.
    pub fn mark_as_processing(&mut self) -> (r: DomainResult<()>)
        ensures
            r is Ok <==> old(self).state == PaymentState::Pending,
            r matches Err(e) ==> {
                &&& *final(self) == *old(self)
                &&& e matches DomainError::InvalidState { expected, actual }
                &&& expected@ == "pending"@
                &&& actual@ == spec_state_token(old(self).state)
            },
            r is Ok ==> {
                &&& final(self).state == PaymentState::Processing
                &&& final(self).transaction_id == old(self).transaction_id
                &&& final(self).paid_at == old(self).paid_at
                &&& final(self).prepay_id == old(self).prepay_id
                &&& PaymentOrder::spec_identity_unchanged(*old(self), *final(self))
            },
            old(self).wf() ==> final(self).wf(),
    {
        if !matches!(self.state, PaymentState::Pending) {
            return Err(
                DomainError::InvalidState {
                    expected: String::from_str("pending"),
                    actual: self.state.token(),
                },
            );
        }
        self.state = PaymentState::Processing;
        self.updated_at = now_unix();
        Ok(())
    }

    /// Records a successful payment with its gateway transaction id; legal
    /// from pending or processing, and sets the paid timestamp.
    pub fn mark_as_succeeded(&mut self, transaction_id: String) -> (r: DomainResult<()>)
        ensures
            r is Ok <==> (old(self).state == PaymentState::Pending || old(self).state
                == PaymentState::Processing),
            r matches Err(e) ==> {
                &&& *final(self) == *old(self)
                &&& e matches DomainError::InvalidState { expected, actual }
                &&& expected@ == "processing or pending"@
                &&& actual@ == spec_state_token(old(self).state)
            },
            r is Ok ==> {
                &&& final(self).state == PaymentState::Succeeded
                &&& final(self).transaction_id == Some(transaction_id)
                &&& final(self).paid_at is Some
                &&& final(self).prepay_id == old(self).prepay_id
                &&& PaymentOrder::spec_identity_unchanged(*old(self), *final(self))
            },
            old(self).wf() ==> final(self).wf(),
    {
        if !matches!(self.state, PaymentState::Pending | PaymentState::Processing) {
            return Err(
                DomainError::InvalidState {
                    expected: String::from_str("processing or pending"),
                    actual: self.state.token(),
                },
            );
        }
        self.state = PaymentState::Succeeded;
        self.transaction_id = Some(transaction_id);
        self.paid_at = Some(now_unix());
        self.updated_at = now_unix();
        Ok(())
    }

    /// Records a failed payment; legal from pending or processing.
    pub fn mark_as_failed(&mut self) -> (r: DomainResult<()>)
        ensures
            r is Ok <==> (old(self).state == PaymentState::Pending || old(self).state
                == PaymentState::Processing),
            r matches Err(e) ==> {
                &&& *final(self) == *old(self)
                &&& e matches DomainError::InvalidState { expected, actual }
                &&& expected@ == "processing or pending"@
                &&& actual@ == spec_state_token(old(self).state)
            },
            r is Ok ==> {
                &&& final(self).state == PaymentState::Failed
                &&& final(self).transaction_id == old(self).transaction_id
                &&& final(self).paid_at == old(self).paid_at
                &&& final(self).prepay_id == old(self).prepay_id
                &&& PaymentOrder::spec_identity_unchanged(*old(self), *final(self))
            },
            old(self).wf() ==> final(self).wf(),
    {
        if !matches!(self.state, PaymentState::Pending | PaymentState::Processing) {
            return Err(
                DomainError::InvalidState {
                    expected: String::from_str("processing or pending"),
                    actual: self.state.token(),
                },
            );
        }
        self.state = PaymentState::Failed;
        self.updated_at = now_unix();
        Ok(())
    }

    /// Closes the order; illegal exactly from the succeeded and refunded
    /// states.
    pub fn mark_as_closed(&mut self) -> (r: DomainResult<()>)
        ensures
            r is Ok <==> !(old(self).state == PaymentState::Succeeded || old(self).state
                == PaymentState::Refunded),
            r matches Err(e) ==> {
                &&& *final(self) == *old(self)
                &&& e matches DomainError::InvalidState { expected, actual }
                &&& expected@ == "pending or processing or failed"@
                &&& actual@ == spec_state_token(old(self).state)
            },
            r is Ok ==> {
                &&& final(self).state == PaymentState::Closed
                &&& final(self).transaction_id == old(self).transaction_id
                &&& final(self).paid_at == old(self).paid_at
                &&& final(self).prepay_id == old(self).prepay_id
                &&& PaymentOrder::spec_identity_unchanged(*old(self), *final(self))
            },
            old(self).wf() ==> final(self).wf(),
    {
        if matches!(self.state, PaymentState::Succeeded | PaymentState::Refunded) {
            return Err(
                DomainError::InvalidState {
                    expected: String::from_str("pending or processing or failed"),
                    actual: self.state.token(),
                },
            );
        }
        self.state = PaymentState::Closed;
        self.updated_at = now_unix();
        Ok(())
    }

    /// Stores the gateway prepay token; always legal.
    pub fn set_prepay_id(&mut self, prepay_id: String) -> (r: DomainResult<()>)
        ensures
            r is Ok,
            final(self).prepay_id == Some(prepay_id),
            final(self).state == old(self).state,
            final(self).transaction_id == old(self).transaction_id,
            final(self).paid_at == old(self).paid_at,
            PaymentOrder::spec_identity_unchanged(*old(self), *final(self)),
            old(self).wf() ==> final(self).wf(),
    {
        self.prepay_id = Some(prepay_id);
        self.updated_at = now_unix();
        Ok(())
    }

    /// Whether the order can still be paid: exactly in the pending state.
    pub fn can_pay(&self) -> (r: bool)
        ensures
            r == self.spec_can_pay(),
    {
        matches!(self.state, PaymentState::Pending)
    }

    /// Whether the order has reached a terminal outcome: succeeded, failed or
    /// closed.
    pub fn is_finished(&self) -> (r: bool)
        ensures
            r == self.spec_is_finished(),
    {
        matches!(
            self.state,
            PaymentState::Succeeded | PaymentState::Failed | PaymentState::Closed
        )
    }
}

/// A finished order is exactly one that succeeded, failed or was closed, and a
/// payable order is exactly a pending one; the two are mutually exclusive, and
/// both are false of a processing or refunded order.
pub proof fn lemma_finished_and_payable_exclusive(o: PaymentOrder)
    ensures
        o.spec_is_finished() ==> (o.state == PaymentState::Succeeded || o.state
            == PaymentState::Failed || o.state == PaymentState::Closed),
        o.spec_can_pay() ==> o.state == PaymentState::Pending,
        !(o.spec_is_finished() && o.spec_can_pay()),
        o.state == PaymentState::Processing || o.state == PaymentState::Refunded ==> (
        !o.spec_is_finished() && !o.spec_can_pay()),
{
}

} // verus!
