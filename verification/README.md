# paykit-domain

Payment workflow domain types with machine-checked contracts.

- `src/money.rs`: currencies, exact monetary values and strictly positive payment amounts.
- `src/payment/id.rs`: caller-provided payment identifiers (non-empty, no surrounding white
  space) and their errors.
- `src/payment/lifecycle.rs`: payment statuses and actions, the transition table, payments
  with checked authorization, capture, cancellation and voiding, and transition evidence.
- `src/payment/lifecycle_laws.rs`: proofs of the lifecycle's laws (terminal statuses are
  final, every accepted action moves forward, at most two actions are ever accepted, each
  outcome needs its action).
- `src/payment/*_policy.rs`: caller-owned amount, currency and payment-method policies and
  their ordered composition.
- `src/payment/payment_creation_request.rs`: the values supplied to create a payment.
- `app/`: copies of the two error types that implement `Display` and `std::error::Error`.
