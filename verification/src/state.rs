//! Payment lifecycle states and payment methods, with their canonical
//! lowercase string tokens and the graceful parsers used when decoding
//! persisted rows.

use vstd::prelude::*;
use crate::errors::DomainError;
use crate::text::str_eq;

verus! {

/// The lifecycle state of a payment order.
#[derive(Debug, Clone, Copy, PartialEq, Eq, Structural)]
pub enum PaymentState {
    Pending,
    Processing,
    Succeeded,
    Failed,
    Refunded,
    Closed,
}

/// The payment flow requested by the client.
#[derive(Debug, Clone, Copy, PartialEq, Eq, Structural)]
pub enum PaymentMethod {
    MiniProgram,
    Jsapi,
    Native,
    H5,
}

/// The canonical lowercase token of a lifecycle state.
pub open spec fn spec_state_token(s: PaymentState) -> Seq<char> {
    match s {
        PaymentState::Pending => "pending"@,
        PaymentState::Processing => "processing"@,
        PaymentState::Succeeded => "succeeded"@,
        PaymentState::Failed => "failed"@,
        PaymentState::Refunded => "refunded"@,
        PaymentState::Closed => "closed"@,
    }
}

/// The canonical lowercase token of a payment method.
pub open spec fn spec_method_token(m: PaymentMethod) -> Seq<char> {
    match m {
        PaymentMethod::MiniProgram => "mini_program"@,
        PaymentMethod::Jsapi => "jsapi"@,
        PaymentMethod::Native => "native"@,
        PaymentMethod::H5 => "h5"@,
    }
}

impl PaymentState {
    /// The canonical lowercase token under which this state is stored and
    /// reported.
    pub fn token(&self) -> (r: String)
        ensures
            r@ == spec_state_token(*self),
    {
        match self {
            PaymentState::Pending => String::from_str("pending"),
            PaymentState::Processing => String::from_str("processing"),
            PaymentState::Succeeded => String::from_str("succeeded"),
            PaymentState::Failed => String::from_str("failed"),
            PaymentState::Refunded => String::from_str("refunded"),
            PaymentState::Closed => String::from_str("closed"),
        }
    }
}

impl PaymentMethod {
    /// The canonical lowercase token under which this method is stored and
    /// reported.
    pub fn token(&self) -> (r: String)
        ensures
            r@ == spec_method_token(*self),
    {
        match self {
            PaymentMethod::MiniProgram => String::from_str("mini_program"),
            PaymentMethod::Jsapi => String::from_str("jsapi"),
            PaymentMethod::Native => String::from_str("native"),
            PaymentMethod::H5 => String::from_str("h5"),
        }
    }
}

/// Whether a character sequence is the token of some lifecycle state.
pub open spec fn spec_is_state_token(s: Seq<char>) -> bool {
    exists|st: PaymentState| spec_state_token(st) == s
}

/// Whether a character sequence is the token of some payment method.
pub open spec fn spec_is_method_token(s: Seq<char>) -> bool {
    exists|m: PaymentMethod| spec_method_token(m) == s
}

/// Maps a persisted state token back to the state. An unrecognized token is
/// reported as corruption, never a crash.
pub fn parse_payment_state(s: &str) -> (r: Result<PaymentState, DomainError>)
    ensures
        r is Ok <==> spec_is_state_token(s@),
        r matches Ok(st) ==> spec_state_token(st) == s@,
        r matches Err(e) ==> e is InternalError,
{
    if str_eq(s, "pending") {
        assert(spec_state_token(PaymentState::Pending) == s@);
        Ok(PaymentState::Pending)
    } else if str_eq(s, "processing") {
        assert(spec_state_token(PaymentState::Processing) == s@);
        Ok(PaymentState::Processing)
    } else if str_eq(s, "succeeded") {
        assert(spec_state_token(PaymentState::Succeeded) == s@);
        Ok(PaymentState::Succeeded)
    } else if str_eq(s, "failed") {
        assert(spec_state_token(PaymentState::Failed) == s@);
        Ok(PaymentState::Failed)
    } else if str_eq(s, "refunded") {
        assert(spec_state_token(PaymentState::Refunded) == s@);
        Ok(PaymentState::Refunded)
    } else if str_eq(s, "closed") {
        assert(spec_state_token(PaymentState::Closed) == s@);
        Ok(PaymentState::Closed)
    } else {
        assert(!spec_is_state_token(s@)) by {
            assert forall|st: PaymentState| spec_state_token(st) != s@ by {
                match st {
                    PaymentState::Pending => assert(s@ != "pending"@),
                    PaymentState::Processing => assert(s@ != "processing"@),
                    PaymentState::Succeeded => assert(s@ != "succeeded"@),
                    PaymentState::Failed => assert(s@ != "failed"@),
                    PaymentState::Refunded => assert(s@ != "refunded"@),
                    PaymentState::Closed => assert(s@ != "closed"@),
                }
            }
        }
        Err(DomainError::InternalError(String::from_str("unrecognized payment state token")))
    }
}

/// Maps a persisted method token back to the method. An unrecognized token is
/// reported as corruption, never a crash.
pub fn parse_payment_method(s: &str) -> (r: Result<PaymentMethod, DomainError>)
    ensures
        r is Ok <==> spec_is_method_token(s@),
        r matches Ok(m) ==> spec_method_token(m) == s@,
        r matches Err(e) ==> e is InternalError,
{
    if str_eq(s, "mini_program") {
        assert(spec_method_token(PaymentMethod::MiniProgram) == s@);
        Ok(PaymentMethod::MiniProgram)
    } else if str_eq(s, "jsapi") {
        assert(spec_method_token(PaymentMethod::Jsapi) == s@);
        Ok(PaymentMethod::Jsapi)
    } else if str_eq(s, "native") {
        assert(spec_method_token(PaymentMethod::Native) == s@);
        Ok(PaymentMethod::Native)
    } else if str_eq(s, "h5") {
        assert(spec_method_token(PaymentMethod::H5) == s@);
        Ok(PaymentMethod::H5)
    } else {
        assert(!spec_is_method_token(s@)) by {
            assert forall|m: PaymentMethod| spec_method_token(m) != s@ by {
                match m {
                    PaymentMethod::MiniProgram => assert(s@ != "mini_program"@),
                    PaymentMethod::Jsapi => assert(s@ != "jsapi"@),
                    PaymentMethod::Native => assert(s@ != "native"@),
                    PaymentMethod::H5 => assert(s@ != "h5"@),
                }
            }
        }
        Err(DomainError::InternalError(String::from_str("unrecognized payment method token")))
    }
}

} // verus!
