//! The escrow ledger: a keyed store of [`Payment`] records driven by the
//! decision functions of [`crate::payment`].
//!
//! The host platform serializes invocations and makes each one atomic; the
//! ledger therefore models storage as a plain map from payment id to
//! record, and every operation is a single check-then-write against it.

use vstd::prelude::*;
use std::collections::HashMap;
use crate::payment::AuthProof;
use crate::payment::EscrowError;
use crate::payment::Payment;
use crate::payment::Principal;
use crate::payment::cancel_decision;
use crate::payment::cancel_decision_spec;
use crate::payment::confirm_decision;
use crate::payment::confirm_decision_spec;
use crate::payment::create_decision;
use crate::payment::create_decision_spec;

verus! {

broadcast use vstd::std_specs::hash::group_hash_axioms;

/// The record stored under `id`, if any.
pub open spec fn stored_at(m: Map<u64, Payment>, id: u64) -> Option<Payment> {
    if m.contains_key(id) {
        Some(m[id])
    } else {
        None
    }
}

/// The success flag an operation returns for a given decision: `true` when
/// the decision produced a record, the decision's error otherwise.
pub open spec fn flag_of(d: Result<Payment, EscrowError>) -> Result<bool, EscrowError> {
    match d {
        Ok(_) => Ok(true),
        Err(e) => Err(e),
    }
}

/// The store after acting on a decision: the decided record written under
/// `id` on success, the store untouched on failure.
pub open spec fn store_after(
    m: Map<u64, Payment>,
    id: u64,
    d: Result<Payment, EscrowError>,
) -> Map<u64, Payment> {
    match d {
        Ok(p) => m.insert(id, p),
        Err(_) => m,
    }
}

/// What `get_payment` returns: the record under `id`, or `NotFound`.
pub open spec fn get_result(m: Map<u64, Payment>, id: u64) -> Result<Payment, EscrowError> {
    match stored_at(m, id) {
        Some(p) => Ok(p),
        None => Err(EscrowError::NotFound),
    }
}

/// The escrow ledger. Its view is the map from payment id to the record
/// stored under that id; every operation's contract is stated against that
/// map.
pub struct EscrowContract {
    store: HashMap<u64, Payment>,
}

impl View for EscrowContract {
    type V = Map<u64, Payment>;

    closed spec fn view(&self) -> Map<u64, Payment> {
        self.store@
    }
}

impl EscrowContract {
    /// An empty ledger: no record under any id.
    pub fn new() -> (r: EscrowContract)
        ensures
            r@ == Map::<u64, Payment>::empty(),
    {
        EscrowContract { store: HashMap::new() }
    }

    /// Create a new payment escrow. Requires a proof for `user`; then it
    /// always succeeds, writing a fresh `Pending` record under `id` and
    /// silently overwriting any record already there.
    pub fn create_payment(
        &mut self,
        proof: &AuthProof,
        id: u64,
        user: Principal,
        merchant: Principal,
        amount: i128,
    ) -> (r: Result<bool, EscrowError>)
        ensures
            r == flag_of(create_decision_spec(*proof, id, user, merchant, amount)),
            final(self)@ == store_after(
                old(self)@,
                id,
                create_decision_spec(*proof, id, user, merchant, amount),
            ),
    {
        match create_decision(proof, id, user, merchant, amount) {
            Ok(p) => {
                self.store.insert(id, p);
                Ok(true)
            },
            Err(e) => Err(e),
        }
    }

    /// Merchant confirms the out-of-band payment. Requires a proof for
    /// `merchant`, an existing record under `id`, and that the record's
    /// `merchant` equals the caller-supplied one; then the record moves to
    /// `Complete`. The prior status is deliberately not checked (the
    /// ledger's historical behavior): a `Canceled` record is rewritten to
    /// `Complete` all the same.
    pub fn confirm_payment(&mut self, proof: &AuthProof, id: u64, merchant: Principal) -> (r:
        Result<bool, EscrowError>)
        ensures
            r == flag_of(confirm_decision_spec(stored_at(old(self)@, id), *proof, merchant)),
            final(self)@ == store_after(
                old(self)@,
                id,
                confirm_decision_spec(stored_at(old(self)@, id), *proof, merchant),
            ),
    {
        let stored = match self.store.get(&id) {
            Some(p) => Some(*p),
            None => None,
        };
        match confirm_decision(stored, proof, merchant) {
            Ok(p) => {
                self.store.insert(id, p);
                Ok(true)
            },
            Err(e) => Err(e),
        }
    }

    /// Cancel the payment. Symmetric to [`Self::confirm_payment`]: requires
    /// a proof for `user`, an existing record whose `user` equals the
    /// caller-supplied one, and moves the record to `Canceled` without
    /// checking its prior status.
    pub fn cancel_payment(&mut self, proof: &AuthProof, id: u64, user: Principal) -> (r: Result<
        bool,
        EscrowError,
    >)
        ensures
            r == flag_of(cancel_decision_spec(stored_at(old(self)@, id), *proof, user)),
            final(self)@ == store_after(
                old(self)@,
                id,
                cancel_decision_spec(stored_at(old(self)@, id), *proof, user),
            ),
    {
        let stored = match self.store.get(&id) {
            Some(p) => Some(*p),
            None => None,
        };
        match cancel_decision(stored, proof, user) {
            Ok(p) => {
                self.store.insert(id, p);
                Ok(true)
            },
            Err(e) => Err(e),
        }
    }

    /// Get the payment record under `id`. No authorization is required;
    /// fails with `NotFound` when no record exists.
    pub fn get_payment(&self, id: u64) -> (r: Result<Payment, EscrowError>)
        ensures
            r == get_result(self@, id),
    {
        match self.store.get(&id) {
            Some(p) => Ok(*p),
            None => Err(EscrowError::NotFound),
        }
    }
}

} // verus!
