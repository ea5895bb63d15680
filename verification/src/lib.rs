//! Payment workflow domain types.
//!
//! The crate models the lifecycle rules of a payment (creation, authorization, capture,
//! cancellation and voiding), validated caller-provided identifiers, payment creation requests
//! and the composition of caller-owned creation policies. Every public operation carries a
//! contract that its body is proved to meet; a caller-owned policy's answers are named by its
//! `verdict`, and the composition is stated over those answers.

mod money;
mod payment;

pub use money::{Currency, CurrencyView, Money, MoneyView, PaymentAmount};
pub use payment::{
    action_name, action_outcome, combine_verdicts, first_rejection, has_surrounding_white_space,
    is_valid_payment_id, is_white_space, is_white_space_char, next_status, status_name, transition_target,
    Payment, PaymentAction, PaymentActionResult, PaymentActionResultView, PaymentAmountPolicy,
    PaymentCreationPolicyRejection, PaymentCreationPolicySet,
    PaymentCreationPolicyValidationResult, PaymentCreationRequest, PaymentCreationRequestView,
    PaymentCurrencyPolicy, PaymentId, PaymentIdError, PaymentMethodPolicy, PaymentMethodType,
    PaymentStatus, PaymentTransitionError, PaymentView,
};
pub use payment::{
    accepted_actions, is_terminal, lemma_accepted_action_advances, lemma_accepted_iff_every_stage_accepts,
    lemma_action_changes_only_status, lemma_at_most_two_actions_accepted,
    lemma_each_status_has_one_way_in, lemma_earliest_rejection_decides,
    lemma_from_authorized_requires_its_action, lemma_outcome_requires_its_action,
    lemma_successive_evidence_chains, lemma_terminal_iff_every_action_rejected,
    lemma_terminal_status_is_final, lifecycle_stage, status_after_action, status_after_actions,
};
pub use payment::{
    lemma_trim_changes_text_iff_surrounding_white_space, trim_end, trim_start, trimmed,
};
pub use payment::PaymentAction as PaymentOperation;
