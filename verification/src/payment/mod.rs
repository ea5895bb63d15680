mod amount_policy;
mod currency_policy;
mod id;
mod lifecycle;
mod lifecycle_laws;
mod method;
mod method_policy;
mod payment_creation_policy;
mod payment_creation_request;

pub use amount_policy::PaymentAmountPolicy;
pub use currency_policy::PaymentCurrencyPolicy;
pub use id::{
    has_surrounding_white_space, is_valid_payment_id, is_white_space, is_white_space_char,
    lemma_trim_changes_text_iff_surrounding_white_space, trim_end, trim_start, trimmed,
    PaymentId, PaymentIdError,
};
pub use lifecycle::{
    action_name, action_outcome, next_status, status_name, transition_target, Payment, PaymentAction, PaymentActionResult,
    PaymentActionResultView, PaymentStatus, PaymentTransitionError, PaymentView,
};
pub use method::PaymentMethodType;
pub use method_policy::PaymentMethodPolicy;
pub use payment_creation_policy::{
    combine_verdicts, first_rejection, lemma_accepted_iff_every_stage_accepts,
    lemma_earliest_rejection_decides, PaymentCreationPolicyRejection, PaymentCreationPolicySet,
    PaymentCreationPolicyValidationResult,
};
pub use payment_creation_request::{PaymentCreationRequest, PaymentCreationRequestView};
pub use lifecycle_laws::{
    accepted_actions, is_terminal, lemma_accepted_action_advances,
    lemma_action_changes_only_status, lemma_at_most_two_actions_accepted,
    lemma_each_status_has_one_way_in, lemma_from_authorized_requires_its_action,
    lemma_outcome_requires_its_action, lemma_successive_evidence_chains,
    lemma_terminal_iff_every_action_rejected,
    lemma_terminal_status_is_final, lifecycle_stage, status_after_action, status_after_actions,
};
