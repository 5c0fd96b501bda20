//! Decoding of persisted order rows back into the aggregate. Unrecognized
//! tokens and rows that break the order invariant are reported as
//! corruption, never a crash.

use vstd::prelude::*;
use crate::errors::{DomainError, DomainResult};
use crate::money::Money;
use crate::order::PaymentOrder;
use crate::state::{parse_payment_method, parse_payment_state, spec_is_method_token,
    spec_is_state_token, spec_state_token, PaymentState};

verus! {

/// One persisted order row, with every enum field still its stored token.
#[derive(Debug, Clone)]
pub struct PaymentOrderRow {
    pub id: String,
    pub out_order_no: String,
    pub transaction_id: Option<String>,
    pub amount_cents: i64,
    pub payment_method: String,
    pub state: String,
    pub description: String,
    pub openid: Option<String>,
    pub client_ip: String,
    pub created_at: i64,
    pub updated_at: i64,
    pub paid_at: Option<i64>,
    pub attach: Option<String>,
    pub prepay_id: Option<String>,
}

/// Whether a row carries data a well-formed order can be built from.
pub open spec fn spec_row_consistent(row: PaymentOrderRow) -> bool {
    &&& 1 <= row.out_order_no@.len() <= 64
    &&& 1 <= row.description@.len() <= 127
    &&& row.amount_cents > 0
    &&& (row.paid_at is Some <==> row.state@ == spec_state_token(PaymentState::Succeeded))
    &&& (row.transaction_id is Some ==> row.state@ == spec_state_token(PaymentState::Succeeded)
        || row.state@ == spec_state_token(PaymentState::Refunded))
}

/// Distinct lifecycle states carry distinct tokens.
pub proof fn lemma_state_tokens_distinct()
    ensures
        forall|a: PaymentState, b: PaymentState|
            a != b ==> spec_state_token(a) != spec_state_token(b),
{
    reveal_strlit("pending");
    reveal_strlit("processing");
    reveal_strlit("succeeded");
    reveal_strlit("failed");
    reveal_strlit("refunded");
    reveal_strlit("closed");
    assert("pending"@.len() == 7);
    assert("processing"@.len() == 10);
    assert("succeeded"@.len() == 9);
    assert("failed"@.len() == 6);
    assert("refunded"@.len() == 8);
    assert("closed"@.len() == 6);
    assert("failed"@[0] == 'f');
    assert("closed"@[0] == 'c');
}

/// Rebuilds the aggregate from a persisted row: the tokens must parse and
/// the row must respect the order invariant; anything else is corruption
/// reported as an internal error.
pub fn order_from_row(row: PaymentOrderRow) -> (r: DomainResult<PaymentOrder>)
    ensures
        r is Ok <==> (spec_is_state_token(row.state@) && spec_is_method_token(row.payment_method@)
            && spec_row_consistent(row)),
        r matches Ok(o) ==> {
            &&& o.id == row.id
            &&& o.out_order_no == row.out_order_no
            &&& o.transaction_id == row.transaction_id
            &&& o.amount.amount_cents == row.amount_cents
            &&& spec_state_token(o.state) == row.state@
            &&& crate::state::spec_method_token(o.payment_method) == row.payment_method@
            &&& o.description == row.description
            &&& o.openid == row.openid
            &&& o.client_ip == row.client_ip
            &&& o.created_at == row.created_at
            &&& o.updated_at == row.updated_at
            &&& o.paid_at == row.paid_at
            &&& o.attach == row.attach
            &&& o.prepay_id == row.prepay_id
            &&& o.wf()
        },
        r matches Err(e) ==> e is InternalError,
{
    let state = match parse_payment_state(row.state.as_str()) {
        Ok(s) => s,
        Err(e) => {
            return Err(e);
        },
    };
    let payment_method = match parse_payment_method(row.payment_method.as_str()) {
        Ok(m) => m,
        Err(e) => {
            return Err(e);
        },
    };
    proof {
        lemma_state_tokens_distinct();
    }
    let no_len = row.out_order_no.as_str().unicode_len();
    let desc_len = row.description.as_str().unicode_len();
    if no_len == 0 || no_len > 64 || desc_len == 0 || desc_len > 127 || row.amount_cents <= 0 {
        return Err(DomainError::InternalError(String::from_str("corrupt order row")));
    }
    if row.paid_at.is_some() != matches!(state, PaymentState::Succeeded) {
        return Err(DomainError::InternalError(String::from_str("corrupt order row")));
    }
    if row.transaction_id.is_some() && !matches!(
        state,
        PaymentState::Succeeded | PaymentState::Refunded,
    ) {
        return Err(DomainError::InternalError(String::from_str("corrupt order row")));
    }
    Ok(
        PaymentOrder {
            id: row.id,
            out_order_no: row.out_order_no,
            transaction_id: row.transaction_id,
            amount: Money { amount_cents: row.amount_cents },
            payment_method,
            state,
            description: row.description,
            openid: row.openid,
            client_ip: row.client_ip,
            created_at: row.created_at,
            updated_at: row.updated_at,
            paid_at: row.paid_at,
            attach: row.attach,
            prepay_id: row.prepay_id,
        },
    )
}

} // verus!
