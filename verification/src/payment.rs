//! The data model of the escrow ledger and the pure decision functions of
//! its state machine.
//!
//! Each decision function takes everything an operation depends on as plain
//! values — the record currently stored under the id, if any, and the
//! authorization proof presented by the caller — and returns either the
//! record to store next or the error to surface. The keyed store itself
//! lives in [`crate::ledger`].

use vstd::prelude::*;

verus! {

/// An identity that can be the subject of an authorization proof: the
/// funding user or the receiving merchant of a payment.
#[derive(Clone, Copy, Debug, PartialEq, Eq, Structural)]
pub struct Principal {
    pub id: u64,
}

/// Evidence, supplied per call, that the caller is acting on behalf of a
/// specific principal. How such a proof is verified cryptographically is
/// the host platform's business: a value of this type stands for a proof
/// the host has already found valid for `principal`, and the ledger only
/// checks that this principal is the one an operation requires.
#[derive(Clone, Copy, Debug, PartialEq, Eq, Structural)]
pub struct AuthProof {
    pub principal: Principal,
}

/// The status of a payment: `Pending` until exactly one of the two parties
/// acts, then `Complete` (merchant confirmed) or `Canceled` (user canceled).
#[derive(Clone, Copy, Debug, PartialEq, Eq, Structural)]
pub enum PaymentStatus {
    Pending,
    Complete,
    Canceled,
}

/// A payment record: the sole entity of the ledger. `id`, `user`,
/// `merchant` and `amount` are fixed at creation; only `status` mutates.
/// `amount` is caller-supplied and not validated for sign or magnitude.
#[derive(Clone, Copy, Debug, PartialEq, Eq, Structural)]
pub struct Payment {
    pub id: u64,
    pub user: Principal,
    pub merchant: Principal,
    pub amount: i128,
    pub status: PaymentStatus,
}

/// The shape of a storage key: one entry per payment id, no secondary
/// indexes.
#[derive(Clone, Copy, Debug, PartialEq, Eq, Structural)]
pub enum DataKey {
    Payment(u64),
}

/// Why an operation aborted: the presented proof does not authorize the
/// required principal (or the principal does not match the record's), or
/// no record exists under the requested id.
#[derive(Clone, Copy, Debug, PartialEq, Eq, Structural)]
pub enum EscrowError {
    Unauthorized,
    NotFound,
}

impl DataKey {
    /// The payment id this key addresses.
    pub open spec fn spec_id(self) -> u64 {
        match self {
            DataKey::Payment(id) => id,
        }
    }

    /// The payment id this key addresses.
    pub fn payment_id(&self) -> (r: u64)
        ensures
            r == self.spec_id(),
    {
        match self {
            DataKey::Payment(id) => *id,
        }
    }
}

/// Whether `proof` authorizes acting on behalf of `principal`.
pub open spec fn verifies(proof: AuthProof, principal: Principal) -> bool {
    proof.principal == principal
}

/// The record `create_payment` writes: the caller's fields, with status
/// `Pending`.
pub open spec fn pending_payment(
    id: u64,
    user: Principal,
    merchant: Principal,
    amount: i128,
) -> Payment {
    Payment { id, user, merchant, amount, status: PaymentStatus::Pending }
}

/// `p` with its status replaced and every other field kept.
pub open spec fn with_status(p: Payment, status: PaymentStatus) -> Payment {
    Payment { id: p.id, user: p.user, merchant: p.merchant, amount: p.amount, status }
}

/// What creation decides: with a proof for `user` it always succeeds and
/// yields a fresh `Pending` record; otherwise `Unauthorized`. No existing
/// record is consulted — creation overwrites unconditionally.
pub open spec fn create_decision_spec(
    proof: AuthProof,
    id: u64,
    user: Principal,
    merchant: Principal,
    amount: i128,
) -> Result<Payment, EscrowError> {
    if verifies(proof, user) {
        Ok(pending_payment(id, user, merchant, amount))
    } else {
        Err(EscrowError::Unauthorized)
    }
}

/// What confirmation decides, given the record stored under the id (if
/// any): the proof must authorize `merchant`, a record must exist, and its
/// `merchant` field must equal the caller-supplied `merchant`; then the
/// record moves to `Complete`. The prior status is deliberately not
/// consulted: confirming an already-terminal record rewrites it to
/// `Complete`.
pub open spec fn confirm_decision_spec(
    stored: Option<Payment>,
    proof: AuthProof,
    merchant: Principal,
) -> Result<Payment, EscrowError> {
    if !verifies(proof, merchant) {
        Err(EscrowError::Unauthorized)
    } else {
        match stored {
            Option::None => Err(EscrowError::NotFound),
            Option::Some(p) => if p.merchant != merchant {
                Err(EscrowError::Unauthorized)
            } else {
                Ok(with_status(p, PaymentStatus::Complete))
            },
        }
    }
}

/// What cancellation decides: symmetric to confirmation, with the proof
/// required for the record's `user` and the record moving to `Canceled`.
/// As with confirmation, the prior status is not consulted.
pub open spec fn cancel_decision_spec(
    stored: Option<Payment>,
    proof: AuthProof,
    user: Principal,
) -> Result<Payment, EscrowError> {
    if !verifies(proof, user) {
        Err(EscrowError::Unauthorized)
    } else {
        match stored {
            Option::None => Err(EscrowError::NotFound),
            Option::Some(p) => if p.user != user {
                Err(EscrowError::Unauthorized)
            } else {
                Ok(with_status(p, PaymentStatus::Canceled))
            },
        }
    }
}

/// Decide a creation: the record to store, or the error to surface.
pub fn create_decision(
    proof: &AuthProof,
    id: u64,
    user: Principal,
    merchant: Principal,
    amount: i128,
) -> (r: Result<Payment, EscrowError>)
    ensures
        r == create_decision_spec(*proof, id, user, merchant, amount),
{
    if proof.principal == user {
        Ok(Payment { id, user, merchant, amount, status: PaymentStatus::Pending })
    } else {
        Err(EscrowError::Unauthorized)
    }
}

/// Decide a confirmation from the stored record: the updated record to
/// store, or the error to surface.
pub fn confirm_decision(
    stored: Option<Payment>,
    proof: &AuthProof,
    merchant: Principal,
) -> (r: Result<Payment, EscrowError>)
    ensures
        r == confirm_decision_spec(stored, *proof, merchant),
{
    if proof.principal != merchant {
        return Err(EscrowError::Unauthorized);
    }
    match stored {
        Option::None => Err(EscrowError::NotFound),
        Option::Some(p) => {
            if p.merchant != merchant {
                Err(EscrowError::Unauthorized)
            } else {
                Ok(
                    Payment {
                        id: p.id,
                        user: p.user,
                        merchant: p.merchant,
                        amount: p.amount,
                        status: PaymentStatus::Complete,
                    },
                )
            }
        },
    }
}

/// Decide a cancellation from the stored record: the updated record to
/// store, or the error to surface.
pub fn cancel_decision(
    stored: Option<Payment>,
    proof: &AuthProof,
    user: Principal,
) -> (r: Result<Payment, EscrowError>)
    ensures
        r == cancel_decision_spec(stored, *proof, user),
{
    if proof.principal != user {
        return Err(EscrowError::Unauthorized);
    }
    match stored {
        Option::None => Err(EscrowError::NotFound),
        Option::Some(p) => {
            if p.user != user {
                Err(EscrowError::Unauthorized)
            } else {
                Ok(
                    Payment {
                        id: p.id,
                        user: p.user,
                        merchant: p.merchant,
                        amount: p.amount,
                        status: PaymentStatus::Canceled,
                    },
                )
            }
        },
    }
}

} // verus!
