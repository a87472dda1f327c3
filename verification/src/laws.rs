//! The laws of the escrow ledger, proved once and for all over the spec
//! transitions that the operations of [`crate::ledger`] are specified by.
//!
//! Each lemma quantifies over an arbitrary store, so it applies to any
//! reachable state of an [`crate::ledger::EscrowContract`].

use vstd::prelude::*;
use crate::payment::AuthProof;
use crate::payment::EscrowError;
use crate::payment::Payment;
use crate::payment::PaymentStatus;
use crate::payment::Principal;
use crate::payment::cancel_decision_spec;
use crate::payment::confirm_decision_spec;
use crate::payment::create_decision_spec;
use crate::payment::pending_payment;
use crate::payment::verifies;
use crate::payment::with_status;
use crate::ledger::flag_of;
use crate::ledger::get_result;
use crate::ledger::store_after;
use crate::ledger::stored_at;

verus! {

/// Creation is unconditional: with a valid proof for `user`, creating a
/// payment always succeeds, and the record then read back under `id` is
/// exactly the fresh `Pending` record built from the caller's arguments —
/// whatever was stored before.
pub proof fn lemma_create_always_succeeds(
    m: Map<u64, Payment>,
    proof: AuthProof,
    id: u64,
    user: Principal,
    merchant: Principal,
    amount: i128,
)
    requires
        verifies(proof, user),
    ensures
        flag_of(create_decision_spec(proof, id, user, merchant, amount)) == Ok::<
            bool,
            EscrowError,
        >(true),
        get_result(store_after(m, id, create_decision_spec(proof, id, user, merchant, amount)), id)
            == Ok::<Payment, EscrowError>(pending_payment(id, user, merchant, amount)),
{
}

/// Re-creation overwrites: creating twice under the same id leaves exactly
/// the store that the second creation alone would have left — no trace of
/// the first record's fields remains.
pub proof fn lemma_recreate_overwrites(
    m: Map<u64, Payment>,
    proof1: AuthProof,
    proof2: AuthProof,
    id: u64,
    user1: Principal,
    merchant1: Principal,
    amount1: i128,
    user2: Principal,
    merchant2: Principal,
    amount2: i128,
)
    requires
        verifies(proof1, user1),
        verifies(proof2, user2),
    ensures
        store_after(
            store_after(m, id, create_decision_spec(proof1, id, user1, merchant1, amount1)),
            id,
            create_decision_spec(proof2, id, user2, merchant2, amount2),
        ) == store_after(m, id, create_decision_spec(proof2, id, user2, merchant2, amount2)),
{
    assert(m.insert(id, pending_payment(id, user1, merchant1, amount1)).insert(
        id,
        pending_payment(id, user2, merchant2, amount2),
    ) =~= m.insert(id, pending_payment(id, user2, merchant2, amount2)));
}

/// The confirmation gate: whenever the presented proof is for any principal
/// other than the stored record's `merchant`, confirmation fails with
/// `Unauthorized` — even if that principal is itself validly authenticated —
/// and the store is untouched.
pub proof fn lemma_confirm_gate(m: Map<u64, Payment>, proof: AuthProof, id: u64, merchant: Principal)
    requires
        m.contains_key(id),
        proof.principal != m[id].merchant,
    ensures
        flag_of(confirm_decision_spec(stored_at(m, id), proof, merchant)) == Err::<
            bool,
            EscrowError,
        >(EscrowError::Unauthorized),
        store_after(m, id, confirm_decision_spec(stored_at(m, id), proof, merchant)) == m,
{
}

/// The cancellation gate, symmetric to the confirmation gate: a proof for
/// any principal other than the stored record's `user` fails with
/// `Unauthorized` and leaves the store untouched.
pub proof fn lemma_cancel_gate(m: Map<u64, Payment>, proof: AuthProof, id: u64, user: Principal)
    requires
        m.contains_key(id),
        proof.principal != m[id].user,
    ensures
        flag_of(cancel_decision_spec(stored_at(m, id), proof, user)) == Err::<
            bool,
            EscrowError,
        >(EscrowError::Unauthorized),
        store_after(m, id, cancel_decision_spec(stored_at(m, id), proof, user)) == m,
{
}

/// Not-found: under an id with no record, confirmation and cancellation
/// (with a valid proof for the named principal) and reading each fail with
/// `NotFound`, and neither mutating operation changes the store.
pub proof fn lemma_missing_id_not_found(
    m: Map<u64, Payment>,
    proof: AuthProof,
    id: u64,
    principal: Principal,
)
    requires
        !m.contains_key(id),
        verifies(proof, principal),
    ensures
        flag_of(confirm_decision_spec(stored_at(m, id), proof, principal)) == Err::<
            bool,
            EscrowError,
        >(EscrowError::NotFound),
        flag_of(cancel_decision_spec(stored_at(m, id), proof, principal)) == Err::<
            bool,
            EscrowError,
        >(EscrowError::NotFound),
        get_result(m, id) == Err::<Payment, EscrowError>(EscrowError::NotFound),
        store_after(m, id, confirm_decision_spec(stored_at(m, id), proof, principal)) == m,
        store_after(m, id, cancel_decision_spec(stored_at(m, id), proof, principal)) == m,
{
}

/// Status transition, confirm side: after creating a payment and then
/// confirming it with a proof for its merchant, confirmation succeeds and
/// the record read back is the created one with status `Complete`.
pub proof fn lemma_confirm_after_create(
    m: Map<u64, Payment>,
    proof_user: AuthProof,
    proof_merchant: AuthProof,
    id: u64,
    user: Principal,
    merchant: Principal,
    amount: i128,
)
    requires
        verifies(proof_user, user),
        verifies(proof_merchant, merchant),
    ensures
        ({
            let created = store_after(
                m,
                id,
                create_decision_spec(proof_user, id, user, merchant, amount),
            );
            let d = confirm_decision_spec(stored_at(created, id), proof_merchant, merchant);
            &&& flag_of(d) == Ok::<bool, EscrowError>(true)
            &&& get_result(store_after(created, id, d), id) == Ok::<Payment, EscrowError>(
                with_status(
                    pending_payment(id, user, merchant, amount),
                    PaymentStatus::Complete,
                ),
            )
        }),
{
}

/// Status transition, cancel side: after creating a payment and then
/// canceling it with a proof for its user, cancellation succeeds and the
/// record read back is the created one with status `Canceled`.
pub proof fn lemma_cancel_after_create(
    m: Map<u64, Payment>,
    proof_create: AuthProof,
    proof_cancel: AuthProof,
    id: u64,
    user: Principal,
    merchant: Principal,
    amount: i128,
)
    requires
        verifies(proof_create, user),
        verifies(proof_cancel, user),
    ensures
        ({
            let created = store_after(
                m,
                id,
                create_decision_spec(proof_create, id, user, merchant, amount),
            );
            let d = cancel_decision_spec(stored_at(created, id), proof_cancel, user);
            &&& flag_of(d) == Ok::<bool, EscrowError>(true)
            &&& get_result(store_after(created, id, d), id) == Ok::<Payment, EscrowError>(
                with_status(
                    pending_payment(id, user, merchant, amount),
                    PaymentStatus::Canceled,
                ),
            )
        }),
{
}

/// No cross-talk: an operation on one id never alters what is observed
/// under any other id. (That it never observes another id is structural:
/// each decision reads only the record stored under its own id.)
pub proof fn lemma_no_cross_talk(
    m: Map<u64, Payment>,
    proof: AuthProof,
    id: u64,
    other: u64,
    user: Principal,
    merchant: Principal,
    amount: i128,
)
    requires
        other != id,
    ensures
        get_result(
            store_after(m, id, create_decision_spec(proof, id, user, merchant, amount)),
            other,
        ) == get_result(m, other),
        get_result(
            store_after(m, id, confirm_decision_spec(stored_at(m, id), proof, merchant)),
            other,
        ) == get_result(m, other),
        get_result(
            store_after(m, id, cancel_decision_spec(stored_at(m, id), proof, user)),
            other,
        ) == get_result(m, other),
{
}

/// Only the status mutates: whenever confirmation or cancellation decides
/// to write, the record written is exactly the stored record with its
/// status replaced — `id`, `user`, `merchant` and `amount` are kept.
pub proof fn lemma_only_status_mutates(
    m: Map<u64, Payment>,
    proof: AuthProof,
    id: u64,
    principal: Principal,
)
    ensures
        confirm_decision_spec(stored_at(m, id), proof, principal) matches Ok(p) ==> (
        m.contains_key(id) && p == with_status(m[id], PaymentStatus::Complete)),
        cancel_decision_spec(stored_at(m, id), proof, principal) matches Ok(p) ==> (
        m.contains_key(id) && p == with_status(m[id], PaymentStatus::Canceled)),
{
}

} // verus!

