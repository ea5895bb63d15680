use vstd::prelude::*;

use super::lifecycle::{
    action_outcome, transition_target, PaymentAction, PaymentActionResult, PaymentStatus,
    PaymentTransitionError, PaymentView,
};

verus! {

/// The statuses from which no lifecycle action leads anywhere.
pub open spec fn is_terminal(status: PaymentStatus) -> bool {
    match status {
        PaymentStatus::Captured | PaymentStatus::Cancelled | PaymentStatus::Voided => true,
        PaymentStatus::Created | PaymentStatus::Authorized => false,
    }
}

/// How far along the lifecycle a status is: created, then authorized, then finished.
pub open spec fn lifecycle_stage(status: PaymentStatus) -> nat {
    match status {
        PaymentStatus::Created => 0,
        PaymentStatus::Authorized => 1,
        PaymentStatus::Captured | PaymentStatus::Cancelled | PaymentStatus::Voided => 2,
    }
}

/// The status a payment has after `action` is attempted on it in `status`: the table's target
/// when the action is allowed, the same status when it is rejected.
pub open spec fn status_after_action(status: PaymentStatus, action: PaymentAction) -> PaymentStatus {
    match transition_target(action, status) {
        Some(target) => target,
        None => status,
    }
}

/// The status a payment has after `actions` are attempted on it in order, starting in `status`.
pub open spec fn status_after_actions(status: PaymentStatus, actions: Seq<PaymentAction>) -> PaymentStatus
    decreases actions.len(),
{
    if actions.len() == 0 {
        status
    } else {
        status_after_actions(status_after_action(status, actions[0]), actions.drop_first())
    }
}

/// How many of `actions`, attempted in order starting in `status`, are accepted.
pub open spec fn accepted_actions(status: PaymentStatus, actions: Seq<PaymentAction>) -> nat
    decreases actions.len(),
{
    if actions.len() == 0 {
        0
    } else {
        let accepted: nat = if transition_target(actions[0], status) is Some { 1 } else { 0 };
        accepted + accepted_actions(status_after_action(status, actions[0]), actions.drop_first())
    }
}

/// A status is terminal exactly when every lifecycle action is rejected in it: captured,
/// cancelled and voided payments accept nothing, created and authorized ones accept something.
pub proof fn lemma_terminal_iff_every_action_rejected(status: PaymentStatus)
    ensures
        is_terminal(status) <==> forall|action: PaymentAction|
            #[trigger] transition_target(action, status) is None,
{
    if !is_terminal(status) {
        match status {
            PaymentStatus::Created => {
                assert(transition_target(PaymentAction::Authorize, status) is Some);
            },
            _ => {
                assert(transition_target(PaymentAction::Capture, status) is Some);
            },
        }
    }
}

/// Every accepted action moves the payment strictly forward in its lifecycle, so no status is
/// ever entered twice.
pub proof fn lemma_accepted_action_advances(action: PaymentAction, status: PaymentStatus)
    requires
        transition_target(action, status) is Some,
    ensures
        lifecycle_stage(status_after_action(status, action)) > lifecycle_stage(status),
        !is_terminal(status),
{
}

/// Each status other than the initial one is reached by exactly one action from exactly one
/// status: authorized and cancelled only from created (by authorize and cancel), captured and
/// voided only from authorized (by capture and void).
pub proof fn lemma_each_status_has_one_way_in(action: PaymentAction, status: PaymentStatus)
    requires
        transition_target(action, status) is Some,
    ensures
        transition_target(action, status) == Some(PaymentStatus::Authorized) <==> (action
            == PaymentAction::Authorize && status == PaymentStatus::Created),
        transition_target(action, status) == Some(PaymentStatus::Cancelled) <==> (action
            == PaymentAction::Cancel && status == PaymentStatus::Created),
        transition_target(action, status) == Some(PaymentStatus::Captured) <==> (action
            == PaymentAction::Capture && status == PaymentStatus::Authorized),
        transition_target(action, status) == Some(PaymentStatus::Voided) <==> (action
            == PaymentAction::Void && status == PaymentStatus::Authorized),
        transition_target(action, status) != Some(PaymentStatus::Created),
{
}

/// An action attempted on a payment changes nothing but its status, and changes the status
/// exactly as [`status_after_action`] says; a successful action's evidence names the action,
/// the status before and the status after, and is a row of the transition table.
pub proof fn lemma_action_changes_only_status(
    before: PaymentView,
    action: PaymentAction,
    after: PaymentView,
    result: Result<PaymentActionResult, PaymentTransitionError>,
)
    requires
        action_outcome(before, action, after, result),
    ensures
        after.id == before.id,
        after.amount == before.amount,
        after.payment_method == before.payment_method,
        after.status == status_after_action(before.status, action),
        result is Ok <==> transition_target(action, before.status) is Some,
        result matches Ok(evidence) ==> {
            &&& evidence@.action == action
            &&& evidence@.previous_status == before.status
            &&& evidence@.resulting_status == after.status
            &&& transition_target(evidence@.action, evidence@.previous_status) == Some(
                evidence@.resulting_status,
            )
        },
        result is Err ==> after == before,
{
}

/// Evidence of two successive actions on one payment chains: the second action starts in the
/// status the first one produced, and no accepted action ever leads back to created.
pub proof fn lemma_successive_evidence_chains(
    first_before: PaymentView,
    first_action: PaymentAction,
    between: PaymentView,
    first_result: Result<PaymentActionResult, PaymentTransitionError>,
    second_action: PaymentAction,
    second_after: PaymentView,
    second_result: Result<PaymentActionResult, PaymentTransitionError>,
)
    requires
        action_outcome(first_before, first_action, between, first_result),
        action_outcome(between, second_action, second_after, second_result),
    ensures
        first_result matches Ok(first) ==> (second_result matches Ok(second) ==> {
            &&& first@.resulting_status == second@.previous_status
            &&& first@.resulting_status != PaymentStatus::Created
            &&& second@.resulting_status != PaymentStatus::Created
            &&& lifecycle_stage(first@.previous_status) < lifecycle_stage(
                second@.resulting_status,
            )
        }),
{
    lemma_action_changes_only_status(first_before, first_action, between, first_result);
    lemma_action_changes_only_status(between, second_action, second_after, second_result);
    if first_result is Ok && second_result is Ok {
        lemma_accepted_action_advances(first_action, first_before.status);
        lemma_accepted_action_advances(second_action, between.status);
        lemma_each_status_has_one_way_in(first_action, first_before.status);
        lemma_each_status_has_one_way_in(second_action, between.status);
    }
}

/// Once a payment is captured, cancelled or voided, no sequence of further actions changes its
/// status, and none of them is accepted.
pub proof fn lemma_terminal_status_is_final(status: PaymentStatus, actions: Seq<PaymentAction>)
    requires
        is_terminal(status),
    ensures
        status_after_actions(status, actions) == status,
        accepted_actions(status, actions) == 0,
    decreases actions.len(),
{
    if actions.len() > 0 {
        lemma_terminal_status_is_final(status, actions.drop_first());
    }
}

/// Whatever actions are attempted, and in whatever order, at most two of them are accepted
/// over the life of a payment (at most as many as its stage leaves), and the stage it ends in
/// is at least its starting stage plus the number accepted.
pub proof fn lemma_at_most_two_actions_accepted(status: PaymentStatus, actions: Seq<PaymentAction>)
    ensures
        lifecycle_stage(status_after_actions(status, actions)) >= lifecycle_stage(status)
            + accepted_actions(status, actions),
        accepted_actions(status, actions) <= 2 - lifecycle_stage(status),
    decreases actions.len(),
{
    if actions.len() > 0 {
        let next = status_after_action(status, actions[0]);
        if transition_target(actions[0], status) is Some {
            lemma_accepted_action_advances(actions[0], status);
        }
        lemma_at_most_two_actions_accepted(next, actions.drop_first());
    }
}

/// A payment that started created is authorized, captured or voided only if an authorize action
/// was among the actions attempted, and cancelled only if a cancel action was.
pub proof fn lemma_outcome_requires_its_action(actions: Seq<PaymentAction>)
    ensures
        status_after_actions(PaymentStatus::Created, actions) == PaymentStatus::Authorized
            ==> actions.contains(PaymentAction::Authorize),
        status_after_actions(PaymentStatus::Created, actions) == PaymentStatus::Captured
            ==> actions.contains(PaymentAction::Authorize) && actions.contains(
            PaymentAction::Capture,
        ),
        status_after_actions(PaymentStatus::Created, actions) == PaymentStatus::Voided
            ==> actions.contains(PaymentAction::Authorize) && actions.contains(
            PaymentAction::Void,
        ),
        status_after_actions(PaymentStatus::Created, actions) == PaymentStatus::Cancelled
            ==> actions.contains(PaymentAction::Cancel),
    decreases actions.len(),
{
    if actions.len() > 0 {
        let rest = actions.drop_first();
        assert forall|a: PaymentAction| rest.contains(a) implies actions.contains(a) by {
            let k = choose|k: int| 0 <= k < rest.len() && rest[k] == a;
            assert(actions[k + 1] == a);
        }
        assert(actions.contains(actions[0])) by {
            assert(actions[0] == actions[0]);
        }
        let next = status_after_action(PaymentStatus::Created, actions[0]);
        if next == PaymentStatus::Created {
            lemma_outcome_requires_its_action(rest);
        } else if next == PaymentStatus::Authorized {
            lemma_from_authorized_requires_its_action(rest);
        } else {
            lemma_terminal_status_is_final(next, rest);
        }
    }
}

/// A payment that is authorized ends captured only if a capture action is attempted, and ends
/// voided only if a void action is.
pub proof fn lemma_from_authorized_requires_its_action(actions: Seq<PaymentAction>)
    ensures
        status_after_actions(PaymentStatus::Authorized, actions) == PaymentStatus::Captured
            ==> actions.contains(PaymentAction::Capture),
        status_after_actions(PaymentStatus::Authorized, actions) == PaymentStatus::Voided
            ==> actions.contains(PaymentAction::Void),
        status_after_actions(PaymentStatus::Authorized, actions) == PaymentStatus::Authorized
            || status_after_actions(PaymentStatus::Authorized, actions) == PaymentStatus::Captured
            || status_after_actions(PaymentStatus::Authorized, actions) == PaymentStatus::Voided,
    decreases actions.len(),
{
    if actions.len() > 0 {
        let rest = actions.drop_first();
        assert forall|a: PaymentAction| rest.contains(a) implies actions.contains(a) by {
            let k = choose|k: int| 0 <= k < rest.len() && rest[k] == a;
            assert(actions[k + 1] == a);
        }
        assert(actions.contains(actions[0])) by {
            assert(actions[0] == actions[0]);
        }
        let next = status_after_action(PaymentStatus::Authorized, actions[0]);
        if next == PaymentStatus::Authorized {
            lemma_from_authorized_requires_its_action(rest);
        } else {
            lemma_terminal_status_is_final(next, rest);
        }
    }
}

} // verus!
