use vstd::prelude::*;

use super::id::PaymentId;
use super::method::PaymentMethodType;
use crate::money::{MoneyView, PaymentAmount};

verus! {

/// The controlled lifecycle status of a payment.
#[derive(Clone, Copy, Debug, PartialEq, Eq, Hash, Structural)]
pub enum PaymentStatus {
    /// The payment exists but has not been authorized.
    Created,
    /// Funds have been authorized and can be captured or voided.
    Authorized,
    /// The authorized payment has been captured.
    Captured,
    /// The created payment was cancelled before authorization.
    Cancelled,
    /// The authorization was voided before capture.
    Voided,
}

/// A lifecycle action attempted against a payment.
#[derive(Clone, Copy, Debug, PartialEq, Eq, Hash, Structural)]
pub enum PaymentAction {
    /// Move a created payment to authorized.
    Authorize,
    /// Move an authorized payment to captured.
    Capture,
    /// Move a created payment to cancelled.
    Cancel,
    /// Move an authorized payment to voided.
    Void,
}

/// The lifecycle transition table: the status that `action` produces from `status`, or `None`
/// when the action is not allowed there.
pub open spec fn transition_target(action: PaymentAction, status: PaymentStatus) -> Option<
    PaymentStatus,
> {
    match (action, status) {
        (PaymentAction::Authorize, PaymentStatus::Created) => Some(PaymentStatus::Authorized),
        (PaymentAction::Cancel, PaymentStatus::Created) => Some(PaymentStatus::Cancelled),
        (PaymentAction::Capture, PaymentStatus::Authorized) => Some(PaymentStatus::Captured),
        (PaymentAction::Void, PaymentStatus::Authorized) => Some(PaymentStatus::Voided),
        _ => None,
    }
}

/// Computes the status that `operation` produces from `current_status`, or `None` when the
/// operation is not allowed in that status.
pub fn next_status(operation: PaymentAction, current_status: PaymentStatus) -> (next: Option<
    PaymentStatus,
>)
    ensures
        next == transition_target(operation, current_status),
{
    match (operation, current_status) {
        (PaymentAction::Authorize, PaymentStatus::Created) => Some(PaymentStatus::Authorized),
        (PaymentAction::Cancel, PaymentStatus::Created) => Some(PaymentStatus::Cancelled),
        (PaymentAction::Capture, PaymentStatus::Authorized) => Some(PaymentStatus::Captured),
        (PaymentAction::Void, PaymentStatus::Authorized) => Some(PaymentStatus::Voided),
        _ => None,
    }
}

/// The abstract content of a [`Payment`].
pub struct PaymentView {
    pub id: Seq<char>,
    pub amount: MoneyView,
    pub payment_method: PaymentMethodType,
    pub status: PaymentStatus,
}

/// The abstract content of a [`PaymentActionResult`].
pub struct PaymentActionResultView {
    pub action: PaymentAction,
    pub previous_status: PaymentStatus,
    pub resulting_status: PaymentStatus,
}

/// A payment with a checked lifecycle status.
#[derive(Clone, Debug, PartialEq, Eq)]
pub struct Payment {
    id: PaymentId,
    amount: PaymentAmount,
    payment_method: PaymentMethodType,
    status: PaymentStatus,
}

impl View for Payment {
    type V = PaymentView;

    closed spec fn view(&self) -> PaymentView {
        PaymentView {
            id: self.id@,
            amount: self.amount@,
            payment_method: self.payment_method,
            status: self.status,
        }
    }
}

/// Evidence that a payment lifecycle transition completed successfully.
///
/// This value records the applied action and the payment statuses immediately before and after
/// the in-memory state change. It does not represent processor confirmation, persistence, or a
/// durable domain event.
#[derive(Clone, Debug, PartialEq, Eq)]
pub struct PaymentActionResult {
    previous_status: PaymentStatus,
    new_status: PaymentStatus,
    operation: PaymentAction,
}

impl View for PaymentActionResult {
    type V = PaymentActionResultView;

    closed spec fn view(&self) -> PaymentActionResultView {
        PaymentActionResultView {
            action: self.operation,
            previous_status: self.previous_status,
            resulting_status: self.new_status,
        }
    }
}

/// An error returned when a payment lifecycle transition is rejected.
#[derive(Clone, Copy, Debug, PartialEq, Eq, Structural)]
pub enum PaymentTransitionError {
    /// The attempted action is not valid for the payment's current status.
    InvalidTransition {
        /// The action the caller attempted to record.
        operation: PaymentAction,
        /// The status the payment had when the action was attempted.
        current_status: PaymentStatus,
    },
}

/// What applying `action` to a payment whose content was `before` must do: when the transition
/// table allows it, only the status changes, to the table's target, and the result is evidence
/// of exactly that change; otherwise nothing changes and the error names the action and the
/// status it was attempted in.
pub open spec fn action_outcome(
    before: PaymentView,
    action: PaymentAction,
    after: PaymentView,
    result: Result<PaymentActionResult, PaymentTransitionError>,
) -> bool {
    match transition_target(action, before.status) {
        Some(target) => {
            &&& after == PaymentView { status: target, ..before }
            &&& result matches Ok(evidence) && evidence@ == (PaymentActionResultView {
                action: action,
                previous_status: before.status,
                resulting_status: target,
            })
        },
        None => {
            &&& after == before
            &&& result == Err::<PaymentActionResult, PaymentTransitionError>(
                PaymentTransitionError::InvalidTransition {
                    operation: action,
                    current_status: before.status,
                },
            )
        },
    }
}

impl Payment {
    /// Creates a payment in [`PaymentStatus::Created`].
    pub fn new(id: PaymentId, amount: PaymentAmount, payment_method: PaymentMethodType) -> (payment:
        Payment)
        ensures
            payment@ == (PaymentView {
                id: id@,
                amount: amount@,
                payment_method: payment_method,
                status: PaymentStatus::Created,
            }),
    {
        Payment { id, amount, payment_method, status: PaymentStatus::Created }
    }

    /// Returns the payment identifier.
    pub fn id(&self) -> (id: &PaymentId)
        ensures
            id@ == self@.id,
    {
        &self.id
    }

    /// Returns the validated payment amount.
    pub fn amount(&self) -> (amount: &PaymentAmount)
        ensures
            amount@ == self@.amount,
    {
        &self.amount
    }

    /// Returns the payment method category.
    pub fn payment_method(&self) -> (payment_method: PaymentMethodType)
        ensures
            payment_method == self@.payment_method,
    {
        self.payment_method
    }

    /// Returns the current lifecycle status.
    pub fn status(&self) -> (status: PaymentStatus)
        ensures
            status == self@.status,
    {
        self.status
    }

    /// Records that the payment has been authorized: allowed only from
    /// [`PaymentStatus::Created`], and leads to [`PaymentStatus::Authorized`].
    pub fn authorize(&mut self) -> (result: Result<PaymentActionResult, PaymentTransitionError>)
        ensures
            action_outcome(old(self)@, PaymentAction::Authorize, final(self)@, result),
    {
        self.transition(PaymentAction::Authorize)
    }

    /// Records that the authorized payment has been captured: allowed only from
    /// [`PaymentStatus::Authorized`], and leads to [`PaymentStatus::Captured`].
    pub fn capture(&mut self) -> (result: Result<PaymentActionResult, PaymentTransitionError>)
        ensures
            action_outcome(old(self)@, PaymentAction::Capture, final(self)@, result),
    {
        self.transition(PaymentAction::Capture)
    }

    /// Records that the created payment has been cancelled: allowed only from
    /// [`PaymentStatus::Created`], and leads to [`PaymentStatus::Cancelled`].
    pub fn cancel(&mut self) -> (result: Result<PaymentActionResult, PaymentTransitionError>)
        ensures
            action_outcome(old(self)@, PaymentAction::Cancel, final(self)@, result),
    {
        self.transition(PaymentAction::Cancel)
    }

    /// Records that the authorized payment has been voided: allowed only from
    /// [`PaymentStatus::Authorized`], and leads to [`PaymentStatus::Voided`].
    pub fn void(&mut self) -> (result: Result<PaymentActionResult, PaymentTransitionError>)
        ensures
            action_outcome(old(self)@, PaymentAction::Void, final(self)@, result),
    {
        self.transition(PaymentAction::Void)
    }

    fn transition(&mut self, operation: PaymentAction) -> (result: Result<
        PaymentActionResult,
        PaymentTransitionError,
    >)
        ensures
            action_outcome(old(self)@, operation, final(self)@, result),
    {
        let previous_status = self.status;
        match next_status(operation, previous_status) {
            None => Err(
                PaymentTransitionError::InvalidTransition {
                    operation,
                    current_status: previous_status,
                },
            ),
            Some(new_status) => {
                self.status = new_status;
                Ok(PaymentActionResult { previous_status, new_status, operation })
            },
        }
    }
}

impl PaymentActionResult {
    /// Returns the lifecycle action that produced this result.
    pub fn action(&self) -> (action: PaymentAction)
        ensures
            action == self@.action,
    {
        self.operation
    }

    /// Returns the payment status immediately before the action succeeded.
    pub fn previous_status(&self) -> (status: PaymentStatus)
        ensures
            status == self@.previous_status,
    {
        self.previous_status
    }

    /// Returns the payment status produced by the successful action.
    pub fn resulting_status(&self) -> (status: PaymentStatus)
        ensures
            status == self@.resulting_status,
    {
        self.new_status
    }
}

/// The name under which `action` appears in messages.
pub open spec fn action_name(action: PaymentAction) -> Seq<char> {
    match action {
        PaymentAction::Authorize => "Authorize"@,
        PaymentAction::Capture => "Capture"@,
        PaymentAction::Cancel => "Cancel"@,
        PaymentAction::Void => "Void"@,
    }
}

/// The name under which `status` appears in messages.
pub open spec fn status_name(status: PaymentStatus) -> Seq<char> {
    match status {
        PaymentStatus::Created => "Created"@,
        PaymentStatus::Authorized => "Authorized"@,
        PaymentStatus::Captured => "Captured"@,
        PaymentStatus::Cancelled => "Cancelled"@,
        PaymentStatus::Voided => "Voided"@,
    }
}

fn action_label(action: PaymentAction) -> (label: &'static str)
    ensures
        label@ == action_name(action),
{
    match action {
        PaymentAction::Authorize => "Authorize",
        PaymentAction::Capture => "Capture",
        PaymentAction::Cancel => "Cancel",
        PaymentAction::Void => "Void",
    }
}

fn status_label(status: PaymentStatus) -> (label: &'static str)
    ensures
        label@ == status_name(status),
{
    match status {
        PaymentStatus::Created => "Created",
        PaymentStatus::Authorized => "Authorized",
        PaymentStatus::Captured => "Captured",
        PaymentStatus::Cancelled => "Cancelled",
        PaymentStatus::Voided => "Voided",
    }
}

impl PaymentTransitionError {
    /// The stable human-readable description of the error.
    pub open spec fn message(self) -> Seq<char> {
        match self {
            PaymentTransitionError::InvalidTransition { operation, current_status } => {
                "invalid payment transition: "@ + action_name(operation)
                    + " cannot be applied when status is "@ + status_name(current_status)
            },
        }
    }

    /// Returns the stable human-readable description of the error.
    pub fn to_string(&self) -> (text: String)
        ensures
            text@ == self.message(),
    {
        match self {
            PaymentTransitionError::InvalidTransition { operation, current_status } => {
                let mut text = String::from_str("invalid payment transition: ");
                text.append(action_label(*operation));
                text.append(" cannot be applied when status is ");
                text.append(status_label(*current_status));
                text
            },
        }
    }
}

} // verus!
