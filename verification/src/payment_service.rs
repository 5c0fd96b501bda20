//! The payment orchestrator: coordinates the order state machine, the
//! gateway port and the repository port for the create, query and notify
//! use cases.
//!
//! What the ports answer is outside the orchestrator's control, so the
//! decisions taken on their answers are factored into pure functions with
//! exact contracts, and the orchestrator's own contracts state what holds
//! whatever the ports returned.

use vstd::prelude::*;
use crate::dto::{CreatePaymentRequest, MiniProgramPayParams, OrderQueryResponse, PaymentResponse,
    WeChatPayRequest};
use crate::errors::{DomainError, DomainResult};
use crate::json::{json_get_str, json_str_field};
use crate::order::PaymentOrder;
use crate::ports::{PaymentRepositoryPort, WeChatPayPort};
use crate::state::{spec_is_state_token, spec_state_token, PaymentState};
use crate::text::str_eq;

verus! {

/// Applies a gateway-reported trade state to a loaded order: a reported
/// success with a transaction id records the success, a reported close
/// closes the order, a reported payment error records the failure, and any
/// other report (including a success that carries no transaction id) leaves
/// the order untouched. Returns whether the order mutated and must be
/// persisted; an illegal transition reports the conflict and leaves the
/// order untouched.
pub fn reconcile_trade_state(order: &mut PaymentOrder, response: &OrderQueryResponse) -> (r:
    DomainResult<bool>)
    ensures
        old(order).wf() ==> final(order).wf(),
        r matches Err(e) ==> *final(order) == *old(order) && e is InvalidState,
        response.trade_state@ == "SUCCESS"@ ==> (response.transaction_id matches Some(tx) ==> {
            &&& (r is Ok <==> (old(order).state == PaymentState::Pending || old(order).state
                == PaymentState::Processing))
            &&& (r matches Ok(b) ==> b && final(order).state == PaymentState::Succeeded && final(order).transaction_id == Some(tx) && final(order).paid_at is Some
                && PaymentOrder::spec_identity_unchanged(*old(order), *final(order)))
        }),
        response.trade_state@ == "SUCCESS"@ && response.transaction_id is None ==> (r matches Ok(b)
            && !b && *final(order) == *old(order)),
        response.trade_state@ == "CLOSED"@ ==> {
            &&& (r is Ok <==> !(old(order).state == PaymentState::Succeeded || old(order).state
                == PaymentState::Refunded))
            &&& (r matches Ok(b) ==> b && final(order).state == PaymentState::Closed
                && final(order).transaction_id == old(order).transaction_id && final(order).paid_at
                == old(order).paid_at && PaymentOrder::spec_identity_unchanged(
                *old(order),
                *final(order),
            ))
        },
        response.trade_state@ == "PAYERROR"@ ==> {
            &&& (r is Ok <==> (old(order).state == PaymentState::Pending || old(order).state
                == PaymentState::Processing))
            &&& (r matches Ok(b) ==> b && final(order).state == PaymentState::Failed && final(order).transaction_id == old(order).transaction_id && final(order).paid_at == old(order).paid_at && PaymentOrder::spec_identity_unchanged(*old(order), *final(order)))
        },
        response.trade_state@ != "SUCCESS"@ && response.trade_state@ != "CLOSED"@
            && response.trade_state@ != "PAYERROR"@ ==> (r matches Ok(b) && !b && *final(order)
            == *old(order)),
{
    proof {
        reveal_strlit("SUCCESS");
        reveal_strlit("CLOSED");
        reveal_strlit("PAYERROR");
        assert("SUCCESS"@.len() == 7);
        assert("CLOSED"@.len() == 6);
        assert("PAYERROR"@.len() == 8);
        assert("SUCCESS"@ != "CLOSED"@ && "SUCCESS"@ != "PAYERROR"@ && "CLOSED"@ != "PAYERROR"@);
    }
    if str_eq(response.trade_state.as_str(), "SUCCESS") {
        match &response.transaction_id {
            Some(tx) => {
                match order.mark_as_succeeded(tx.clone()) {
                    Ok(_) => Ok(true),
                    Err(e) => Err(e),
                }
            },
            None => Ok(false),
        }
    } else if str_eq(response.trade_state.as_str(), "CLOSED") {
        match order.mark_as_closed() {
            Ok(_) => Ok(true),
            Err(e) => Err(e),
        }
    } else if str_eq(response.trade_state.as_str(), "PAYERROR") {
        match order.mark_as_failed() {
            Ok(_) => Ok(true),
            Err(e) => Err(e),
        }
    } else {
        Ok(false)
    }
}

/// What a delivered notification asks of an order.
#[derive(Debug, Clone, Copy, PartialEq, Eq, Structural)]
pub enum NotificationAction {
    /// The event type is not handled; acknowledge without touching state.
    Ignore,
    /// The order already records this success; acknowledge idempotently.
    AcknowledgeDuplicate,
    /// Apply the success transition.
    RecordSuccess,
}

/// Decides what a notification asks of an order. A transaction-success event
/// for an order that already succeeded with the same or no recorded
/// transaction id is a duplicate delivery and must be acknowledged as a
/// no-op; any other transaction-success event applies the success
/// transition; any other event type is ignored.
pub fn decide_notification(
    state: PaymentState,
    existing_transaction_id: &Option<String>,
    event_type: &str,
    transaction_id: &str,
) -> (r: NotificationAction)
    ensures
        event_type@ != "TRANSACTION.SUCCESS"@ ==> r == NotificationAction::Ignore,
        event_type@ == "TRANSACTION.SUCCESS"@ ==> r == (if state == PaymentState::Succeeded && (
        existing_transaction_id is None || (existing_transaction_id matches Some(t) && t@
            == transaction_id@)) {
            NotificationAction::AcknowledgeDuplicate
        } else {
            NotificationAction::RecordSuccess
        }),
{
    if !str_eq(event_type, "TRANSACTION.SUCCESS") {
        NotificationAction::Ignore
    } else if matches!(state, PaymentState::Succeeded) {
        match existing_transaction_id {
            None => NotificationAction::AcknowledgeDuplicate,
            Some(t) => {
                if str_eq(t.as_str(), transaction_id) {
                    NotificationAction::AcknowledgeDuplicate
                } else {
                    NotificationAction::RecordSuccess
                }
            },
        }
    } else {
        NotificationAction::RecordSuccess
    }
}

/// Applies a notification decision to a loaded order. A duplicate or an
/// unhandled event leaves the order untouched and asks for no persistence;
/// recording a success applies the transition with its full legality
/// conditions. Returns whether the order mutated and must be persisted.
pub fn apply_notification_action(
    order: &mut PaymentOrder,
    action: NotificationAction,
    transaction_id: String,
) -> (r: DomainResult<bool>)
    ensures
        old(order).wf() ==> final(order).wf(),
        action == NotificationAction::AcknowledgeDuplicate ==> (r matches Ok(b) && !b
            && *final(order) == *old(order)),
        action == NotificationAction::Ignore ==> (r matches Ok(b) && !b
            && *final(order) == *old(order)),
        action == NotificationAction::RecordSuccess ==> {
            &&& (r is Ok <==> (old(order).state == PaymentState::Pending || old(order).state
                == PaymentState::Processing))
            &&& (r matches Ok(b) ==> b && final(order).state == PaymentState::Succeeded
                && final(order).transaction_id == Some(transaction_id)
                && final(order).paid_at is Some
                && PaymentOrder::spec_identity_unchanged(*old(order), *final(order)))
            &&& (r matches Err(e) ==> *final(order) == *old(order) && e is InvalidState)
        },
{
    match action {
        NotificationAction::AcknowledgeDuplicate => Ok(false),
        NotificationAction::Ignore => Ok(false),
        NotificationAction::RecordSuccess => {
            match order.mark_as_succeeded(transaction_id) {
                Ok(_) => Ok(true),
                Err(e) => Err(e),
            }
        },
    }
}

/// Assembles the boundary response for an order: its id, merchant order
/// number, amount in minor units, stored prepay token (empty when none is
/// stored), the given payment parameters, and the canonical token of its
/// state.
pub fn order_to_response(order: &PaymentOrder, pay_params: Option<MiniProgramPayParams>) -> (r:
    PaymentResponse)
    ensures
        r.order_id == order.id,
        r.out_order_no == order.out_order_no,
        r.amount == order.amount.amount_cents,
        order.prepay_id matches Some(p) ==> r.prepay_id == p,
        order.prepay_id is None ==> r.prepay_id@ == Seq::<char>::empty(),
        r.pay_params == pay_params,
        r.state@ == spec_state_token(order.state),
{
    let prepay_id = match &order.prepay_id {
        Some(p) => p.clone(),
        None => String::new(),
    };
    PaymentResponse {
        order_id: order.id.clone(),
        out_order_no: order.out_order_no.clone(),
        amount: order.amount.to_cents(),
        prepay_id,
        pay_params,
        state: order.state.token(),
    }
}

/// The orchestrator over a gateway port and a repository port.
pub struct PaymentService<T: WeChatPayPort, R: PaymentRepositoryPort> {
    wechat_pay: T,
    repository: R,
}

impl<T: WeChatPayPort, R: PaymentRepositoryPort> PaymentService<T, R> {
    /// Couples the orchestrator to its two collaborators.
    pub fn new(wechat_pay: T, repository: R) -> PaymentService<T, R> {
        PaymentService { wechat_pay, repository }
    }

    /// Creates a payment: validates, persists the pending order, creates the
    /// remote order, stores the prepay token and returns the client payment
    /// parameters. Validation rejects the request before anything is
    /// persisted or sent.
    pub fn create_payment(&mut self, request: CreatePaymentRequest) -> (r: DomainResult<
        PaymentResponse,
    >)
        ensures
            request.amount.amount_cents <= 0 ==> (r matches Err(e) && e is InvalidAmount),
            request.amount.amount_cents > 0 && !(1 <= request.out_order_no@.len() <= 64) ==> (
            r matches Err(e) && e is ValidationError),
            request.amount.amount_cents > 0 && 1 <= request.out_order_no@.len() <= 64 && !(1
                <= request.description@.len() <= 127) ==> (r matches Err(e)
                && e is ValidationError),
            r matches Ok(resp) ==> {
                &&& resp.order_id@.len() == 36
                &&& resp.out_order_no == request.out_order_no
                &&& resp.amount == request.amount.amount_cents
                &&& resp.state@ == spec_state_token(PaymentState::Pending)
                &&& resp.pay_params is Some
            },
    {
        let mut order = match PaymentOrder::new(
            request.out_order_no,
            request.amount,
            request.payment_method,
            request.description,
            request.client_ip,
            request.openid,
            request.attach,
        ) {
            Ok(o) => o,
            Err(e) => {
                return Err(e);
            },
        };
        match self.repository.save(&order) {
            Ok(_) => (),
            Err(e) => {
                return Err(e);
            },
        }
        let wechat_request = WeChatPayRequest {
            out_order_no: order.out_order_no.clone(),
            description: order.description.clone(),
            amount_cents: order.amount.to_cents(),
            openid: order.openid.clone(),
            client_ip: order.client_ip.clone(),
            attach: order.attach.clone(),
        };
        let wechat_response = match self.wechat_pay.create_mini_program_order(wechat_request) {
            Ok(resp) => resp,
            Err(e) => {
                return Err(e);
            },
        };
        match order.set_prepay_id(wechat_response.prepay_id.clone()) {
            Ok(_) => (),
            Err(e) => {
                return Err(e);
            },
        }
        match self.repository.update(&order) {
            Ok(_) => (),
            Err(e) => {
                return Err(e);
            },
        }
        let pay_params = match self.wechat_pay.generate_mini_pay_params(
            wechat_response.prepay_id.as_str(),
        ) {
            Ok(p) => p,
            Err(e) => {
                return Err(e);
            },
        };
        Ok(order_to_response(&order, Some(pay_params)))
    }

    /// Queries a payment: loads the order and, while it is not finished,
    /// reconciles it with the gateway's reported trade state before
    /// answering, so state converges even when the asynchronous
    /// notification was lost. The answer always describes the order that
    /// was asked for; a repository answer carrying another order number is
    /// treated as corruption.
    pub fn query_payment(&mut self, out_order_no: &str) -> (r: DomainResult<PaymentResponse>)
        ensures
            r matches Ok(resp) ==> {
                &&& resp.out_order_no@ == out_order_no@
                &&& spec_is_state_token(resp.state@)
                &&& resp.pay_params is None
            },
    {
        let found = match self.repository.find_by_out_order_no(out_order_no) {
            Ok(f) => f,
            Err(e) => {
                return Err(e);
            },
        };
        let mut order = match found {
            Some(o) => o,
            None => {
                return Err(DomainError::OrderNotFound(out_order_no.to_owned()));
            },
        };
        if !str_eq(order.out_order_no.as_str(), out_order_no) {
            return Err(
                DomainError::InternalError(
                    String::from_str("repository answered with another order"),
                ),
            );
        }
        if !order.is_finished() {
            let query_response = match self.wechat_pay.query_order(out_order_no) {
                Ok(resp) => resp,
                Err(e) => {
                    return Err(e);
                },
            };
            let updated = match reconcile_trade_state(&mut order, &query_response) {
                Ok(u) => u,
                Err(e) => {
                    return Err(e);
                },
            };
            if updated {
                match self.repository.update(&order) {
                    Ok(_) => (),
                    Err(e) => {
                        return Err(e);
                    },
                }
            }
        }
        let response = order_to_response(&order, None);
        proof {
            assert(spec_state_token(order.state) == response.state@);
        }
        Ok(response)
    }

    /// Handles one decrypted asynchronous notification: the caller (the
    /// webhook boundary) verifies the envelope signature and decrypts the
    /// resource, and hands over the event type and the decrypted JSON.
    /// The merchant order number — and, for success events, the gateway
    /// transaction id — must be present before anything is loaded; then the
    /// order is loaded, the decision of `decide_notification` is applied by
    /// `apply_notification_action`, and the order is persisted when it
    /// mutated. A duplicate delivery of a success for an order that already
    /// succeeded is acknowledged as a no-op; a genuinely illegal transition
    /// surfaces the conflict; unrecognized event types are acknowledged and
    /// ignored.
    pub fn handle_payment_notification(&mut self, event_type: &str, decrypted: &str) -> (r:
        DomainResult<()>)
        ensures
            json_str_field(decrypted@, "out_trade_no"@) is None ==> (r matches Err(e)
                && e is ValidationError),
            json_str_field(decrypted@, "out_trade_no"@) is Some && event_type@
                == "TRANSACTION.SUCCESS"@ && json_str_field(decrypted@, "transaction_id"@) is None
                ==> (r matches Err(e) && e is ValidationError),
    {
        let out_order_no = match json_get_str(decrypted, "out_trade_no") {
            Some(no) => no,
            None => {
                return Err(
                    DomainError::ValidationError(
                        String::from_str("Missing out_trade_no in notification"),
                    ),
                );
            },
        };
        let is_success_event = str_eq(event_type, "TRANSACTION.SUCCESS");
        let mut transaction_id = String::new();
        if is_success_event {
            transaction_id = match json_get_str(decrypted, "transaction_id") {
                Some(tx) => tx,
                None => {
                    return Err(
                        DomainError::ValidationError(
                            String::from_str("Missing transaction_id in notification"),
                        ),
                    );
                },
            };
        }
        let found = match self.repository.find_by_out_order_no(out_order_no.as_str()) {
            Ok(f) => f,
            Err(e) => {
                return Err(e);
            },
        };
        let mut order = match found {
            Some(o) => o,
            None => {
                return Err(DomainError::OrderNotFound(out_order_no));
            },
        };
        let action = decide_notification(
            order.state,
            &order.transaction_id,
            event_type,
            transaction_id.as_str(),
        );
        let updated = match apply_notification_action(&mut order, action, transaction_id.clone()) {
            Ok(u) => u,
            Err(e) => {
                return Err(e);
            },
        };
        if !updated {
            // A duplicate success or an unrecognized event type: the order
            // is untouched and the delivery is acknowledged.
            return Ok(());
        }
        match self.repository.update(&order) {
            Ok(_) => Ok(()),
            Err(update_error) => {
                // A lost race with a concurrent writer: re-read, and
                // acknowledge when the incoming success is recorded by now;
                // otherwise the conflict stands.
                match self.repository.find_by_out_order_no(out_order_no.as_str()) {
                    Ok(Some(current)) => {
                        let now_duplicate = decide_notification(
                            current.state,
                            &current.transaction_id,
                            event_type,
                            transaction_id.as_str(),
                        );
                        if matches!(now_duplicate, NotificationAction::AcknowledgeDuplicate) {
                            Ok(())
                        } else {
                            Err(update_error)
                        }
                    },
                    _ => Err(update_error),
                }
            },
        }
    }
}

} // verus!
