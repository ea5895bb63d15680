use vstd::prelude::*;

use super::id::PaymentId;
use super::method::PaymentMethodType;
use crate::money::{MoneyView, PaymentAmount};

verus! {

/// The abstract content of a [`PaymentCreationRequest`].
pub struct PaymentCreationRequestView {
    pub id: Seq<char>,
    pub amount: MoneyView,
    pub payment_method: PaymentMethodType,
}

/// The values a caller supplies to create a payment.
#[derive(Debug)]
pub struct PaymentCreationRequest {
    id: PaymentId,
    amount: PaymentAmount,
    payment_method: PaymentMethodType,
}

impl View for PaymentCreationRequest {
    type V = PaymentCreationRequestView;

    closed spec fn view(&self) -> PaymentCreationRequestView {
        PaymentCreationRequestView {
            id: self.id@,
            amount: self.amount@,
            payment_method: self.payment_method,
        }
    }
}

impl PaymentCreationRequest {
    /// Gathers the supplied identifier, amount and payment method into a request.
    pub fn new(id: PaymentId, amount: PaymentAmount, payment_method: PaymentMethodType) -> (request:
        Self)
        ensures
            request@ == (PaymentCreationRequestView {
                id: id@,
                amount: amount@,
                payment_method: payment_method,
            }),
    {
        PaymentCreationRequest { id, amount, payment_method }
    }

    /// Returns the requested payment identifier.
    pub fn id(&self) -> (id: &PaymentId)
        ensures
            id@ == self@.id,
    {
        &self.id
    }

    /// Returns the requested payment amount.
    pub fn amount(&self) -> (amount: &PaymentAmount)
        ensures
            amount@ == self@.amount,
    {
        &self.amount
    }

    /// Returns the requested payment method category.
    pub fn payment_method(&self) -> (payment_method: PaymentMethodType)
        ensures
            payment_method == self@.payment_method,
    {
        self.payment_method
    }
}

} // verus!
