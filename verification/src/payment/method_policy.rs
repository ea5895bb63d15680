use vstd::prelude::*;

use super::method::PaymentMethodType;

verus! {

/// Caller-owned policy for deciding whether a payment method is accepted by a payment workflow.
///
/// [`PaymentMethodType`] defines the payment-method categories understood by this crate. This
/// trait lets applications choose which of those categories they accept while retaining ownership
/// of their typed rejection reason.
pub trait PaymentMethodPolicy {
    /// The caller-owned rejection type returned when the policy rejects a payment method.
    type Rejection;

    /// The policy's answer for a payment method category: `Ok(())` when it is accepted, the
    /// caller's rejection otherwise.
    ///
    /// Each implementation gives its own answer here. The default body exists only so that
    /// implementations written outside verified code need not mention this item; an
    /// implementation that keeps the default answers one and the same fixed value for every
    /// input.
    closed spec fn verdict(&self, payment_method: PaymentMethodType) -> Result<(), Self::Rejection> {
        arbitrary()
    }

    /// Validates a payment method category, returning the caller's rejection when the method is
    /// not accepted by this policy.
    fn validate(&self, payment_method: PaymentMethodType) -> (answer: Result<(), Self::Rejection>)
        ensures
            answer == self.verdict(payment_method),
    ;
}

} // verus!
