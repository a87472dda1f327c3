//! An escrow ledger: a keyed store of payment records together with the
//! state machine that creates, confirms and cancels them.
//!
//! A user funds a payment intended for a merchant; the merchant later
//! confirms fulfillment, or the user cancels first. The host platform is
//! responsible for verifying authorization proofs cryptographically, for
//! durable storage and for serialization; this crate owns only the record
//! store and the transition rules, and models the host's findings as plain
//! values (an [`payment::AuthProof`] names the principal the host
//! authenticated).

pub mod laws;
pub mod ledger;
pub mod payment;
