use edupass_token::AuthVerifier;
use edupass_token::EduPassToken;
use edupass_token::Error;

fn verifier_for(ids: &[u64]) -> AuthVerifier {
    let mut auth = AuthVerifier::new();
    for id in ids {
        auth.grant(*id);
    }
    auth
}

#[test]
fn test_initialize() {
    let mut ledger = EduPassToken::new();
    let admin: u64 = 1;
    assert_eq!(ledger.initialize(admin), Ok(()));
}

#[test]
fn test_issue_and_transfer() {
    let admin: u64 = 1;
    let issuer: u64 = 2;
    let beneficiary: u64 = 3;
    let school: u64 = 4;
    let auth = verifier_for(&[issuer, beneficiary]);

    let mut ledger = EduPassToken::new();
    assert_eq!(ledger.initialize(admin), Ok(()));

    let issued = ledger.issue_credits(
        &auth,
        issuer,
        beneficiary,
        1000,
        String::from("Tuition"),
        1735689600,
    );
    assert!(issued.is_ok());

    assert_eq!(ledger.balance(beneficiary), 1000);

    assert_eq!(ledger.transfer(&auth, beneficiary, school, 500), Ok(()));

    assert_eq!(ledger.balance(beneficiary), 500);
    assert_eq!(ledger.balance(school), 500);
}

#[test]
fn test_burn() {
    let admin: u64 = 1;
    let issuer: u64 = 2;
    let school: u64 = 4;
    let auth = verifier_for(&[issuer, school]);

    let mut ledger = EduPassToken::new();
    assert_eq!(ledger.initialize(admin), Ok(()));

    let issued = ledger.issue_credits(
        &auth,
        issuer,
        school,
        1000,
        String::from("Received"),
        1735689600,
    );
    assert!(issued.is_ok());

    assert_eq!(ledger.burn(&auth, school, 500), Ok(()));

    assert_eq!(ledger.balance(school), 500);
}

// The state after initialize(admin=1) and a 1000-credit issuance from issuer 2
// to beneficiary 3, used by several tests below.
fn issued_ledger() -> EduPassToken {
    let auth = verifier_for(&[2]);
    let mut ledger = EduPassToken::new();
    assert_eq!(ledger.initialize(1), Ok(()));
    let issued = ledger.issue_credits(&auth, 2, 3, 1000, String::from("Tuition"), 1735689600);
    assert!(issued.is_ok());
    ledger
}

#[test]
fn issue_records_allocation() {
    let auth = verifier_for(&[2]);
    let mut ledger = EduPassToken::new();
    assert_eq!(ledger.initialize(1), Ok(()));

    let issued = ledger
        .issue_credits(&auth, 2, 3, 1000, String::from("Tuition"), 1735689600)
        .unwrap_or_else(|_| panic!("issuance refused"));
    assert_eq!(issued.beneficiary, 3);
    assert_eq!(issued.issuer, 2);
    assert_eq!(issued.amount, 1000);
    assert_eq!(issued.purpose, "Tuition");
    assert_eq!(issued.expires_at, 1735689600);

    assert_eq!(ledger.balance(3), 1000);
    assert_eq!(ledger.total_issued(), 1000);

    let stored = ledger.get_allocation(3).unwrap_or_else(|| panic!("no allocation stored"));
    assert_eq!(stored.beneficiary, 3);
    assert_eq!(stored.issuer, 2);
    assert_eq!(stored.amount, 1000);
    assert_eq!(stored.purpose, "Tuition");
    assert_eq!(stored.expires_at, 1735689600);
}

#[test]
fn transfer_leaves_total_issued() {
    let mut ledger = issued_ledger();
    let auth = verifier_for(&[3]);
    assert_eq!(ledger.transfer(&auth, 3, 4, 500), Ok(()));
    assert_eq!(ledger.balance(3), 500);
    assert_eq!(ledger.balance(4), 500);
    assert_eq!(ledger.total_issued(), 1000);
}

#[test]
fn burn_more_than_balance_fails() {
    let mut ledger = issued_ledger();
    let auth = verifier_for(&[3]);
    assert_eq!(ledger.burn(&auth, 3, 1500), Err(Error::InsufficientBalance));
    assert_eq!(ledger.balance(3), 1000);
    assert_eq!(ledger.total_issued(), 1000);
}

#[test]
fn issue_zero_amount_fails() {
    let auth = verifier_for(&[2]);
    let mut ledger = EduPassToken::new();
    assert_eq!(ledger.initialize(1), Ok(()));
    let issued = ledger.issue_credits(&auth, 2, 3, 0, String::from("Tuition"), 1735689600);
    assert!(matches!(issued, Err(Error::InvalidAmount)));
    assert_eq!(ledger.total_issued(), 0);
    assert_eq!(ledger.balance(3), 0);
    assert!(ledger.get_allocation(3).is_none());
}

#[test]
fn issue_negative_amount_fails() {
    let auth = verifier_for(&[2]);
    let mut ledger = EduPassToken::new();
    assert_eq!(ledger.initialize(1), Ok(()));
    let issued = ledger.issue_credits(&auth, 2, 3, -5, String::from("Tuition"), 1735689600);
    assert!(matches!(issued, Err(Error::InvalidAmount)));
    assert_eq!(ledger.total_issued(), 0);
    assert_eq!(ledger.balance(3), 0);
}

#[test]
fn burn_leaves_gross_issuance() {
    let mut ledger = issued_ledger();
    let auth = verifier_for(&[3]);
    assert_eq!(ledger.burn(&auth, 3, 500), Ok(()));
    assert_eq!(ledger.balance(3), 500);
    assert_eq!(ledger.total_issued(), 1000);
}

#[test]
fn initialize_twice_fails() {
    let mut ledger = EduPassToken::new();
    assert_eq!(ledger.initialize(1), Ok(()));
    assert_eq!(ledger.initialize(7), Err(Error::AlreadyInitialized));
}

#[test]
fn unauthorized_operations_fail() {
    let mut ledger = issued_ledger();
    let nobody = AuthVerifier::new();
    let issued = ledger.issue_credits(&nobody, 2, 3, 10, String::from("Books"), 1735689600);
    assert!(matches!(issued, Err(Error::Unauthorized)));
    assert_eq!(ledger.transfer(&nobody, 3, 4, 10), Err(Error::Unauthorized));
    assert_eq!(ledger.burn(&nobody, 3, 10), Err(Error::Unauthorized));
    assert_eq!(ledger.balance(3), 1000);
    assert_eq!(ledger.balance(4), 0);
    assert_eq!(ledger.total_issued(), 1000);
}

#[test]
fn authority_is_per_identity() {
    let mut ledger = issued_ledger();
    // Account 4 has proven itself, but not account 3, whose balance the
    // transfer debits.
    let auth = verifier_for(&[4]);
    assert_eq!(ledger.transfer(&auth, 3, 4, 10), Err(Error::Unauthorized));
    assert_eq!(ledger.balance(3), 1000);
}

#[test]
fn transfer_invalid_amounts_fail() {
    let mut ledger = issued_ledger();
    let auth = verifier_for(&[3]);
    assert_eq!(ledger.transfer(&auth, 3, 4, 0), Err(Error::InvalidAmount));
    assert_eq!(ledger.transfer(&auth, 3, 4, -1), Err(Error::InvalidAmount));
    assert_eq!(ledger.transfer(&auth, 3, 4, 1001), Err(Error::InsufficientBalance));
    assert_eq!(ledger.balance(3), 1000);
    assert_eq!(ledger.balance(4), 0);
}

#[test]
fn burn_invalid_amounts_fail() {
    let mut ledger = issued_ledger();
    let auth = verifier_for(&[3]);
    assert_eq!(ledger.burn(&auth, 3, 0), Err(Error::InvalidAmount));
    assert_eq!(ledger.burn(&auth, 3, -7), Err(Error::InvalidAmount));
    assert_eq!(ledger.balance(3), 1000);
}

#[test]
fn self_transfer_is_a_balance_no_op() {
    let mut ledger = issued_ledger();
    let auth = verifier_for(&[3]);
    assert_eq!(ledger.transfer(&auth, 3, 3, 400), Ok(()));
    assert_eq!(ledger.balance(3), 1000);
    assert_eq!(ledger.transfer(&auth, 3, 3, 1500), Err(Error::InsufficientBalance));
    assert_eq!(ledger.balance(3), 1000);
}

#[test]
fn transfers_conserve_balance_sum() {
    let mut ledger = issued_ledger();
    let auth = verifier_for(&[3, 4, 5]);
    let accounts: [u64; 3] = [3, 4, 5];
    let before: i128 = accounts.iter().map(|a| ledger.balance(*a)).sum();
    assert_eq!(ledger.transfer(&auth, 3, 4, 600), Ok(()));
    assert_eq!(ledger.transfer(&auth, 4, 5, 100), Ok(()));
    assert_eq!(ledger.transfer(&auth, 5, 3, 100), Ok(()));
    assert_eq!(ledger.transfer(&auth, 3, 3, 250), Ok(()));
    let after: i128 = accounts.iter().map(|a| ledger.balance(*a)).sum();
    assert_eq!(before, after);
    assert_eq!(before, 1000);
}

#[test]
fn issuance_overflow_fails() {
    let auth = verifier_for(&[2]);
    let mut ledger = EduPassToken::new();
    assert_eq!(ledger.initialize(1), Ok(()));
    let first = ledger.issue_credits(&auth, 2, 3, i128::MAX, String::from("All"), 1735689600);
    assert!(first.is_ok());
    assert_eq!(ledger.total_issued(), i128::MAX);
    // The beneficiary's balance cannot take one more credit.
    let second = ledger.issue_credits(&auth, 2, 3, 1, String::from("More"), 1735689600);
    assert!(matches!(second, Err(Error::Overflow)));
    // Neither can the gross-issuance counter, whichever account receives.
    let third = ledger.issue_credits(&auth, 2, 4, 1, String::from("More"), 1735689600);
    assert!(matches!(third, Err(Error::Overflow)));
    assert_eq!(ledger.balance(3), i128::MAX);
    assert_eq!(ledger.balance(4), 0);
    assert_eq!(ledger.total_issued(), i128::MAX);
}

#[test]
fn second_issuance_overwrites_allocation() {
    let mut ledger = issued_ledger();
    let auth = verifier_for(&[6]);
    let issued = ledger.issue_credits(&auth, 6, 3, 200, String::from("Books"), 1767225600);
    assert!(issued.is_ok());
    assert_eq!(ledger.balance(3), 1200);
    assert_eq!(ledger.total_issued(), 1200);
    let stored = ledger.get_allocation(3).unwrap_or_else(|| panic!("no allocation stored"));
    assert_eq!(stored.issuer, 6);
    assert_eq!(stored.amount, 200);
    assert_eq!(stored.purpose, "Books");
    assert_eq!(stored.expires_at, 1767225600);
}

#[test]
fn get_allocation_absent_is_none() {
    let ledger = EduPassToken::new();
    assert!(ledger.get_allocation(3).is_none());
}

#[test]
fn operations_run_before_initialize() {
    // Nothing but initialize itself checks for an admin: issuance, transfer
    // and burn are defined on an uninitialized ledger as well, and a later
    // initialize starts the gross-issuance counter afresh at 0.
    let auth = verifier_for(&[2, 3]);
    let mut ledger = EduPassToken::new();
    let issued = ledger.issue_credits(&auth, 2, 3, 300, String::from("Early"), 1735689600);
    assert!(issued.is_ok());
    assert_eq!(ledger.balance(3), 300);
    assert_eq!(ledger.total_issued(), 300);
    assert_eq!(ledger.transfer(&auth, 3, 4, 100), Ok(()));
    assert_eq!(ledger.burn(&auth, 3, 50), Ok(()));
    assert_eq!(ledger.balance(3), 150);
    assert_eq!(ledger.initialize(1), Ok(()));
    assert_eq!(ledger.total_issued(), 0);
    assert_eq!(ledger.balance(3), 150);
}
