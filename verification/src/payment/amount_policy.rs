use vstd::prelude::*;

use crate::money::{MoneyView, PaymentAmount};

verus! {

/// Caller-owned policy for deciding whether a payment amount is allowed.
///
/// [`PaymentAmount`] already guarantees that the wrapped money value is strictly positive.
/// This trait is for workflow-specific rules such as merchant, product, rail, or regional amount
/// limits. Those rules stay outside this crate, and each caller keeps ownership of its own typed
/// rejection reason.
pub trait PaymentAmountPolicy {
    /// The caller-owned rejection type returned when the policy rejects an amount.
    type Rejection;

    /// The policy's answer for an amount: `Ok(())` when it is accepted, the caller's rejection
    /// otherwise.
    ///
    /// Each implementation gives its own answer here. The default body exists only so that
    /// implementations written outside verified code need not mention this item; an
    /// implementation that keeps the default answers one and the same fixed value for every
    /// input.
    closed spec fn verdict(&self, amount: MoneyView) -> Result<(), Self::Rejection> {
        arbitrary()
    }

    /// Validates a borrowed payment amount, returning the caller's rejection when the amount is
    /// not accepted by this policy.
    fn validate(&self, amount: &PaymentAmount) -> (answer: Result<(), Self::Rejection>)
        ensures
            answer == self.verdict(amount@),
    ;
}

} // verus!
