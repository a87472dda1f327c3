use escrow_ledger::ledger::EscrowContract;
use escrow_ledger::payment::AuthProof;
use escrow_ledger::payment::DataKey;
use escrow_ledger::payment::EscrowError;
use escrow_ledger::payment::Payment;
use escrow_ledger::payment::PaymentStatus;
use escrow_ledger::payment::Principal;

fn principal(id: u64) -> Principal {
    Principal { id }
}

fn proof_for(p: Principal) -> AuthProof {
    AuthProof { principal: p }
}

#[test]
fn example_scenario() {
    let alice = principal(1);
    let bob = principal(2);
    let carol = principal(3);
    let mut ledger = EscrowContract::new();

    assert_eq!(ledger.create_payment(&proof_for(alice), 1, alice, bob, 500), Ok(true));
    assert_eq!(
        ledger.get_payment(1),
        Ok(Payment { id: 1, user: alice, merchant: bob, amount: 500, status: PaymentStatus::Pending })
    );
    assert_eq!(ledger.confirm_payment(&proof_for(bob), 1, bob), Ok(true));
    assert_eq!(ledger.get_payment(1).unwrap().status, PaymentStatus::Complete);
    assert_eq!(ledger.confirm_payment(&proof_for(carol), 1, carol), Err(EscrowError::Unauthorized));
    assert_eq!(ledger.get_payment(2), Err(EscrowError::NotFound));
}

#[test]
fn create_writes_full_pending_record() {
    let user = principal(10);
    let merchant = principal(20);
    let mut ledger = EscrowContract::new();

    assert_eq!(ledger.create_payment(&proof_for(user), 7, user, merchant, 1234), Ok(true));
    let p = ledger.get_payment(7).unwrap();
    assert_eq!(p.id, 7);
    assert_eq!(p.user, user);
    assert_eq!(p.merchant, merchant);
    assert_eq!(p.amount, 1234);
    assert_eq!(p.status, PaymentStatus::Pending);
}

#[test]
fn create_without_matching_proof_is_unauthorized() {
    let user = principal(10);
    let intruder = principal(11);
    let merchant = principal(20);
    let mut ledger = EscrowContract::new();

    assert_eq!(
        ledger.create_payment(&proof_for(intruder), 7, user, merchant, 50),
        Err(EscrowError::Unauthorized)
    );
    assert_eq!(ledger.get_payment(7), Err(EscrowError::NotFound));
}

#[test]
fn recreate_overwrites_whole_record() {
    let user = principal(10);
    let other_user = principal(11);
    let merchant1 = principal(20);
    let merchant2 = principal(21);
    let mut ledger = EscrowContract::new();

    assert_eq!(ledger.create_payment(&proof_for(user), 7, user, merchant1, 100), Ok(true));
    assert_eq!(ledger.confirm_payment(&proof_for(merchant1), 7, merchant1), Ok(true));
    assert_eq!(ledger.create_payment(&proof_for(other_user), 7, other_user, merchant2, 999), Ok(true));
    assert_eq!(
        ledger.get_payment(7),
        Ok(Payment {
            id: 7,
            user: other_user,
            merchant: merchant2,
            amount: 999,
            status: PaymentStatus::Pending,
        })
    );
}

#[test]
fn confirm_with_foreign_proof_is_unauthorized() {
    let user = principal(10);
    let merchant = principal(20);
    let stranger = principal(30);
    let mut ledger = EscrowContract::new();

    assert_eq!(ledger.create_payment(&proof_for(user), 1, user, merchant, 500), Ok(true));
    // A validly authenticated principal who is not the record's merchant.
    assert_eq!(
        ledger.confirm_payment(&proof_for(stranger), 1, stranger),
        Err(EscrowError::Unauthorized)
    );
    // A proof for a different principal than the one named in the call.
    assert_eq!(
        ledger.confirm_payment(&proof_for(stranger), 1, merchant),
        Err(EscrowError::Unauthorized)
    );
    assert_eq!(ledger.get_payment(1).unwrap().status, PaymentStatus::Pending);
}

#[test]
fn cancel_with_foreign_proof_is_unauthorized() {
    let user = principal(10);
    let merchant = principal(20);
    let stranger = principal(30);
    let mut ledger = EscrowContract::new();

    assert_eq!(ledger.create_payment(&proof_for(user), 1, user, merchant, 500), Ok(true));
    assert_eq!(
        ledger.cancel_payment(&proof_for(stranger), 1, stranger),
        Err(EscrowError::Unauthorized)
    );
    assert_eq!(ledger.cancel_payment(&proof_for(stranger), 1, user), Err(EscrowError::Unauthorized));
    // The merchant cannot cancel either: cancellation belongs to the user.
    assert_eq!(
        ledger.cancel_payment(&proof_for(merchant), 1, merchant),
        Err(EscrowError::Unauthorized)
    );
    assert_eq!(ledger.get_payment(1).unwrap().status, PaymentStatus::Pending);
}

#[test]
fn missing_id_is_not_found() {
    let somebody = principal(5);
    let mut ledger = EscrowContract::new();

    assert_eq!(
        ledger.confirm_payment(&proof_for(somebody), 42, somebody),
        Err(EscrowError::NotFound)
    );
    assert_eq!(ledger.cancel_payment(&proof_for(somebody), 42, somebody), Err(EscrowError::NotFound));
    assert_eq!(ledger.get_payment(42), Err(EscrowError::NotFound));
}

#[test]
fn confirm_sets_complete_and_cancel_sets_canceled() {
    let user = principal(10);
    let merchant = principal(20);
    let mut ledger = EscrowContract::new();

    assert_eq!(ledger.create_payment(&proof_for(user), 1, user, merchant, 500), Ok(true));
    assert_eq!(ledger.confirm_payment(&proof_for(merchant), 1, merchant), Ok(true));
    assert_eq!(ledger.get_payment(1).unwrap().status, PaymentStatus::Complete);

    assert_eq!(ledger.create_payment(&proof_for(user), 2, user, merchant, 500), Ok(true));
    assert_eq!(ledger.cancel_payment(&proof_for(user), 2, user), Ok(true));
    assert_eq!(ledger.get_payment(2).unwrap().status, PaymentStatus::Canceled);
}

#[test]
fn operations_do_not_touch_other_ids() {
    let user = principal(10);
    let merchant = principal(20);
    let mut ledger = EscrowContract::new();

    assert_eq!(ledger.create_payment(&proof_for(user), 1, user, merchant, 100), Ok(true));
    assert_eq!(ledger.create_payment(&proof_for(user), 2, user, merchant, 200), Ok(true));
    let before = ledger.get_payment(2).unwrap();

    assert_eq!(ledger.confirm_payment(&proof_for(merchant), 1, merchant), Ok(true));
    assert_eq!(ledger.get_payment(2), Ok(before));

    assert_eq!(ledger.cancel_payment(&proof_for(user), 1, user), Ok(true));
    assert_eq!(ledger.get_payment(2), Ok(before));

    assert_eq!(ledger.create_payment(&proof_for(user), 1, user, merchant, 300), Ok(true));
    assert_eq!(ledger.get_payment(2), Ok(before));
}

// The ledger deliberately keeps its historical behavior of not checking the
// prior status before a transition: a terminal record can be rewritten.
// These two tests pin that choice down explicitly.
#[test]
fn confirm_after_cancel_rewrites_terminal_state() {
    let user = principal(10);
    let merchant = principal(20);
    let mut ledger = EscrowContract::new();

    assert_eq!(ledger.create_payment(&proof_for(user), 1, user, merchant, 500), Ok(true));
    assert_eq!(ledger.cancel_payment(&proof_for(user), 1, user), Ok(true));
    assert_eq!(ledger.get_payment(1).unwrap().status, PaymentStatus::Canceled);
    assert_eq!(ledger.confirm_payment(&proof_for(merchant), 1, merchant), Ok(true));
    assert_eq!(ledger.get_payment(1).unwrap().status, PaymentStatus::Complete);
}

#[test]
fn repeated_confirm_rewrites_same_terminal_state() {
    let user = principal(10);
    let merchant = principal(20);
    let mut ledger = EscrowContract::new();

    assert_eq!(ledger.create_payment(&proof_for(user), 1, user, merchant, 500), Ok(true));
    assert_eq!(ledger.confirm_payment(&proof_for(merchant), 1, merchant), Ok(true));
    assert_eq!(ledger.confirm_payment(&proof_for(merchant), 1, merchant), Ok(true));
    assert_eq!(ledger.get_payment(1).unwrap().status, PaymentStatus::Complete);
}

#[test]
fn amount_is_not_validated() {
    let user = principal(10);
    let merchant = principal(20);
    let mut ledger = EscrowContract::new();

    assert_eq!(ledger.create_payment(&proof_for(user), 1, user, merchant, -500), Ok(true));
    assert_eq!(ledger.get_payment(1).unwrap().amount, -500);
    assert_eq!(ledger.create_payment(&proof_for(user), 2, user, merchant, i128::MAX), Ok(true));
    assert_eq!(ledger.get_payment(2).unwrap().amount, i128::MAX);
    assert_eq!(ledger.create_payment(&proof_for(user), 3, user, merchant, i128::MIN), Ok(true));
    assert_eq!(ledger.get_payment(3).unwrap().amount, i128::MIN);
    assert_eq!(ledger.create_payment(&proof_for(user), 4, user, merchant, 0), Ok(true));
    assert_eq!(ledger.get_payment(4).unwrap().amount, 0);
}

#[test]
fn data_key_names_its_payment_id() {
    let key = DataKey::Payment(99);
    assert_eq!(key.payment_id(), 99);
}
