use paykit_domain::{
    next_status, Currency, Money, Payment, PaymentAction, PaymentAmount, PaymentId,
    PaymentMethodType, PaymentStatus, PaymentTransitionError,
};

const ACTIONS: [PaymentAction; 4] = [
    PaymentAction::Authorize,
    PaymentAction::Capture,
    PaymentAction::Cancel,
    PaymentAction::Void,
];

const STATUSES: [PaymentStatus; 5] = [
    PaymentStatus::Created,
    PaymentStatus::Authorized,
    PaymentStatus::Captured,
    PaymentStatus::Cancelled,
    PaymentStatus::Voided,
];

fn new_payment(method: PaymentMethodType) -> Payment {
    let amount = PaymentAmount::new(Money::from_minor_units(4_200, Currency::new("EUR", 2)))
        .expect("amount is positive");
    Payment::new(PaymentId::new("pay_rules").expect("id is valid"), amount, method)
}

fn apply(payment: &mut Payment, action: PaymentAction) -> bool {
    let outcome = match action {
        PaymentAction::Authorize => payment.authorize(),
        PaymentAction::Capture => payment.capture(),
        PaymentAction::Cancel => payment.cancel(),
        PaymentAction::Void => payment.void(),
    };
    outcome.is_ok()
}

#[test]
fn transition_table_has_exactly_four_rows() {
    let mut allowed = Vec::new();
    for action in ACTIONS {
        for status in STATUSES {
            if let Some(target) = next_status(action, status) {
                allowed.push((action, status, target));
            }
        }
    }
    assert_eq!(
        allowed,
        vec![
            (PaymentAction::Authorize, PaymentStatus::Created, PaymentStatus::Authorized),
            (PaymentAction::Capture, PaymentStatus::Authorized, PaymentStatus::Captured),
            (PaymentAction::Cancel, PaymentStatus::Created, PaymentStatus::Cancelled),
            (PaymentAction::Void, PaymentStatus::Authorized, PaymentStatus::Voided),
        ]
    );
}

#[test]
fn terminal_statuses_reject_every_action_in_the_table() {
    for status in [PaymentStatus::Captured, PaymentStatus::Cancelled, PaymentStatus::Voided] {
        for action in ACTIONS {
            assert_eq!(next_status(action, status), None);
        }
    }
}

#[test]
fn at_most_two_actions_are_accepted_in_any_sequence() {
    // Every sequence of four actions, drawn from the four actions.
    for a in ACTIONS {
        for b in ACTIONS {
            for c in ACTIONS {
                for d in ACTIONS {
                    let mut payment = new_payment(PaymentMethodType::Card);
                    let accepted = [a, b, c, d]
                        .into_iter()
                        .filter(|action| apply(&mut payment, *action))
                        .count();
                    assert!(accepted <= 2);
                    if payment.status() == PaymentStatus::Captured {
                        assert!([a, b, c, d].contains(&PaymentAction::Authorize));
                        assert!([a, b, c, d].contains(&PaymentAction::Capture));
                    }
                    if payment.status() == PaymentStatus::Cancelled {
                        assert!([a, b, c, d].contains(&PaymentAction::Cancel));
                    }
                }
            }
        }
    }
}

#[test]
fn rejected_action_reports_action_and_status_and_changes_nothing() {
    let mut payment = new_payment(PaymentMethodType::Upi);
    payment.cancel().expect("created payment can cancel");
    let before = payment.clone();

    let error = payment.void().expect_err("cancelled payment cannot be voided");

    assert_eq!(
        error,
        PaymentTransitionError::InvalidTransition {
            operation: PaymentAction::Void,
            current_status: PaymentStatus::Cancelled,
        }
    );
    assert_eq!(payment, before);
    assert_eq!(payment.id().as_str(), "pay_rules");
    assert_eq!(payment.amount().money().minor_units(), 4_200);
    assert_eq!(payment.payment_method(), PaymentMethodType::Upi);
}

#[test]
fn evidence_of_capture_names_both_statuses() {
    let mut payment = new_payment(PaymentMethodType::BankTransfer);
    let authorized = payment.authorize().expect("created payment can authorize");
    let captured = payment.capture().expect("authorized payment can capture");

    assert_eq!(authorized.resulting_status(), captured.previous_status());
    assert_eq!(captured.action(), PaymentAction::Capture);
    assert_eq!(captured.resulting_status(), payment.status());
}

#[test]
fn transition_error_messages_name_action_and_status() {
    let error = PaymentTransitionError::InvalidTransition {
        operation: PaymentAction::Void,
        current_status: PaymentStatus::Cancelled,
    };
    assert_eq!(
        error.to_string(),
        "invalid payment transition: Void cannot be applied when status is Cancelled"
    );
    let error = PaymentTransitionError::InvalidTransition {
        operation: PaymentAction::Authorize,
        current_status: PaymentStatus::Authorized,
    };
    assert_eq!(
        error.to_string(),
        "invalid payment transition: Authorize cannot be applied when status is Authorized"
    );
}

#[test]
fn documented_authorization_flow() {
    let usd = Currency::new("USD", 2);
    let amount = PaymentAmount::new(Money::from_minor_units(1_000, usd)).expect("positive");
    let id = PaymentId::new("pay_001").expect("valid");
    let mut payment = Payment::new(id, amount, PaymentMethodType::Card);

    assert_eq!(payment.status(), PaymentStatus::Created);
    assert_eq!(payment.payment_method(), PaymentMethodType::Card);
    let result = payment.authorize().expect("created payment can authorize");
    assert_eq!(result.action(), PaymentAction::Authorize);
    assert_eq!(result.previous_status(), PaymentStatus::Created);
    assert_eq!(result.resulting_status(), PaymentStatus::Authorized);
    assert_eq!(payment.status(), PaymentStatus::Authorized);
}
