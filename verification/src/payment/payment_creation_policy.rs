use vstd::prelude::*;

use super::amount_policy::PaymentAmountPolicy;
use super::currency_policy::PaymentCurrencyPolicy;
use super::method::PaymentMethodType;
use super::method_policy::PaymentMethodPolicy;
use crate::money::PaymentAmount;

verus! {

/// The rejection of payment creation by one of the composed policies, tagged by the stage that
/// rejected it and carrying that policy's own rejection value.
pub enum PaymentCreationPolicyRejection<A, C, M> {
    Amount(A),
    Currency(C),
    PaymentMethod(M),
}

/// The outcome of validating a payment creation against a [`PaymentCreationPolicySet`].
pub type PaymentCreationPolicyValidationResult<A, C, M> = Result<
    (),
    PaymentCreationPolicyRejection<A, C, M>,
>;

/// How the verdicts of the three stages combine, in the order amount, currency, payment method:
/// the first rejection decides the outcome, and creation is accepted only when every stage
/// accepts.
pub open spec fn first_rejection<A, C, M>(
    amount_verdict: Result<(), A>,
    currency_verdict: Result<(), C>,
    method_verdict: Result<(), M>,
) -> PaymentCreationPolicyValidationResult<A, C, M> {
    match amount_verdict {
        Err(rejection) => Err(PaymentCreationPolicyRejection::Amount(rejection)),
        Ok(()) => match currency_verdict {
            Err(rejection) => Err(PaymentCreationPolicyRejection::Currency(rejection)),
            Ok(()) => match method_verdict {
                Err(rejection) => Err(PaymentCreationPolicyRejection::PaymentMethod(rejection)),
                Ok(()) => Ok(()),
            },
        },
    }
}

/// Payment creation is accepted exactly when every stage accepts.
pub proof fn lemma_accepted_iff_every_stage_accepts<A, C, M>(
    amount_verdict: Result<(), A>,
    currency_verdict: Result<(), C>,
    method_verdict: Result<(), M>,
)
    ensures
        first_rejection(amount_verdict, currency_verdict, method_verdict) is Ok <==> (
        amount_verdict is Ok && currency_verdict is Ok && method_verdict is Ok),
{
}

/// The earliest rejecting stage decides the outcome, whatever the later stages answer: an
/// amount rejection wins over everything, a currency rejection over the payment-method verdict,
/// and each rejection is handed back unchanged under its stage's tag.
pub proof fn lemma_earliest_rejection_decides<A, C, M>(
    amount_verdict: Result<(), A>,
    currency_verdict: Result<(), C>,
    method_verdict: Result<(), M>,
)
    ensures
        amount_verdict matches Err(rejection) ==> first_rejection(
            amount_verdict,
            currency_verdict,
            method_verdict,
        ) == Err::<(), PaymentCreationPolicyRejection<A, C, M>>(
            PaymentCreationPolicyRejection::Amount(rejection),
        ),
        amount_verdict is Ok ==> (currency_verdict matches Err(rejection) ==> first_rejection(
            amount_verdict,
            currency_verdict,
            method_verdict,
        ) == Err::<(), PaymentCreationPolicyRejection<A, C, M>>(
            PaymentCreationPolicyRejection::Currency(rejection),
        )),
        amount_verdict is Ok && currency_verdict is Ok ==> (method_verdict matches Err(rejection)
            ==> first_rejection(amount_verdict, currency_verdict, method_verdict) == Err::<
            (),
            PaymentCreationPolicyRejection<A, C, M>,
        >(PaymentCreationPolicyRejection::PaymentMethod(rejection))),
{
}

/// Combines the verdicts of the amount, currency and payment-method stages: the first rejection,
/// in that order, decides the outcome.
pub fn combine_verdicts<A, C, M>(
    amount_verdict: Result<(), A>,
    currency_verdict: Result<(), C>,
    method_verdict: Result<(), M>,
) -> (outcome: PaymentCreationPolicyValidationResult<A, C, M>)
    ensures
        outcome == first_rejection(amount_verdict, currency_verdict, method_verdict),
{
    match amount_verdict {
        Err(rejection) => Err(PaymentCreationPolicyRejection::Amount(rejection)),
        Ok(()) => match currency_verdict {
            Err(rejection) => Err(PaymentCreationPolicyRejection::Currency(rejection)),
            Ok(()) => match method_verdict {
                Err(rejection) => Err(PaymentCreationPolicyRejection::PaymentMethod(rejection)),
                Ok(()) => Ok(()),
            },
        },
    }
}

/// The caller-owned amount, currency and payment-method policies that a payment creation must
/// pass, consulted in that order.
pub struct PaymentCreationPolicySet<A, C, M> {
    amount_policy: A,
    currency_policy: C,
    payment_method_policy: M,
}

impl<A, C, M> View for PaymentCreationPolicySet<A, C, M> {
    type V = (A, C, M);

    closed spec fn view(&self) -> (A, C, M) {
        (self.amount_policy, self.currency_policy, self.payment_method_policy)
    }
}

impl<A, C, M> PaymentCreationPolicySet<A, C, M> {
    /// Composes the three policies.
    pub fn new(amount_policy: A, currency_policy: C, payment_method_policy: M) -> (set: Self)
        ensures
            set@ == (amount_policy, currency_policy, payment_method_policy),
    {
        PaymentCreationPolicySet { amount_policy, currency_policy, payment_method_policy }
    }
}

impl<A, C, M> PaymentCreationPolicySet<A, C, M> where
    A: PaymentAmountPolicy,
    C: PaymentCurrencyPolicy,
    M: PaymentMethodPolicy,
 {
    /// Validates a payment creation: the amount policy sees `amount`, the currency policy sees
    /// the amount's currency and the payment-method policy sees `payment_method`. The first
    /// rejection, in that order, is returned under its stage's tag; creation is accepted only
    /// when all three accept.
    ///
    /// The body consults a stage only when every earlier stage accepted. The contract states the
    /// outcome over the policies' verdicts; which policies were called, and in what order, is
    /// not part of it.
    pub fn validate(&self, amount: &PaymentAmount, payment_method: PaymentMethodType) -> (outcome:
        PaymentCreationPolicyValidationResult<A::Rejection, C::Rejection, M::Rejection>)
        ensures
            outcome == first_rejection(
                self@.0.verdict(amount@),
                self@.1.verdict(amount@.currency),
                self@.2.verdict(payment_method),
            ),
    {
        let amount_verdict = self.amount_policy.validate(amount);
        let currency_verdict = match amount_verdict {
            Ok(()) => self.currency_policy.validate(amount.money().currency()),
            Err(_) => Ok(()),
        };
        let method_verdict = match (&amount_verdict, &currency_verdict) {
            (Ok(()), Ok(())) => self.payment_method_policy.validate(payment_method),
            _ => Ok(()),
        };
        combine_verdicts(amount_verdict, currency_verdict, method_verdict)
    }
}

} // verus!
