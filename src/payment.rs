use vstd::prelude::*;

use crate::error::AuthError;

verus! {

/// The least amount, in hundredths, that a payment request may ask for.
pub const MIN_PAYMENT_HUNDREDTHS: i64 = 3000;

/// The ways to pay money in.
#[derive(Clone, Copy, Debug, PartialEq, Eq, Structural)]
pub enum PaymentMethod {
    Swish,
}

/// Where a payment request stands.
#[derive(Clone, Copy, Debug, PartialEq, Eq, Structural)]
pub enum Status {
    Pending,
    Paid,
}

/// What the payment provider reports back about a payment request.
#[allow(non_snake_case)]
pub struct PaymentCallback {
    pub id: String,
    pub payeePaymentReference: String,
    pub paymentReference: String,
    pub callbackUrl: String,
    pub payerAlias: String,
    pub payeeAlias: String,
    pub amount: String,
    pub currency: String,
    pub message: String,
    pub status: String,
    pub dateCreated: String,
    pub datePaid: String,
    pub errorCode: Option<String>,
    pub errorMessage: Option<String>,
}

/// Refuses a payment request below the least amount.
pub fn check_payment_amount(amount_hundredths: i64) -> (r: Result<(), AuthError>)
    ensures
        r is Ok <==> amount_hundredths >= MIN_PAYMENT_HUNDREDTHS,
        r matches Err(e) ==> e == AuthError::BadRequest,
{
    if amount_hundredths < MIN_PAYMENT_HUNDREDTHS {
        return Err(AuthError::BadRequest);
    }
    Ok(())
}

} // verus!
