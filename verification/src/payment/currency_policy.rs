use vstd::prelude::*;

use crate::money::{Currency, CurrencyView};

verus! {

/// Caller-owned policy for deciding whether a currency is accepted by a payment workflow.
///
/// [`Currency`] is open and data-driven, so this trait is where applications can apply their own
/// accepted-currency rules without turning currency definitions into a built-in enum or static
/// catalog.
pub trait PaymentCurrencyPolicy {
    /// The caller-owned rejection type returned when the policy rejects a currency.
    type Rejection;

    /// The policy's answer for a currency definition: `Ok(())` when it is accepted, the caller's
    /// rejection otherwise.
    ///
    /// Each implementation gives its own answer here. The default body exists only so that
    /// implementations written outside verified code need not mention this item; an
    /// implementation that keeps the default answers one and the same fixed value for every
    /// input.
    closed spec fn verdict(&self, currency: CurrencyView) -> Result<(), Self::Rejection> {
        arbitrary()
    }

    /// Validates a borrowed currency definition, returning the caller's rejection when the
    /// currency is not accepted by this policy.
    fn validate(&self, currency: &Currency) -> (answer: Result<(), Self::Rejection>)
        ensures
            answer == self.verdict(currency@),
    ;
}

} // verus!
