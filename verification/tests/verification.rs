use blinks::address::Address;
use blinks::address::BytesN;
use blinks::duplicates::PaymentKey;
use blinks::duplicates::SeenPayments;
use blinks::env::Effect;
use blinks::verification::payment_fingerprint;
use blinks::verification::CheckDetail;
use blinks::verification::CheckName;
use blinks::verification::DataKey;
use blinks::verification::MerchantConfig;
use blinks::verification::PaymentVerification;
use blinks::verification::VerificationEnv;
use blinks::verification::VerificationError;
use blinks::verification::VerificationEvent;
use blinks::verification::VerificationResult;
use blinks::verification::VerificationType;

const VERIFIER: u8 = 2;
const PAYER: u8 = 3;
const MERCHANT: u8 = 4;

fn addr(n: u8) -> Address {
    Address::from_text([n; 56])
}

fn ready() -> (PaymentVerification, VerificationEnv) {
    let mut env = VerificationEnv::new(1_000, 1, addr(b'C'));
    let mut contract = PaymentVerification::new();
    contract.initialize(&mut env, &addr(1), 0, 0).unwrap();
    contract.add_verifier(&mut env, &addr(VERIFIER)).unwrap();
    contract
        .set_merchant_config(
            &mut env,
            &addr(MERCHANT),
            MerchantConfig { vault: addr(5), min_amount: 10, max_amount: 0, active: true },
        )
        .unwrap();
    (contract, env)
}

fn verify(
    contract: &mut PaymentVerification,
    env: &mut VerificationEnv,
    merchant: u8,
    amount: i128,
    payment_ledger: u32,
    kind: VerificationType,
) -> VerificationResult {
    contract
        .verify_payment(
            env,
            &addr(VERIFIER),
            77,
            &addr(PAYER),
            &addr(merchant),
            amount,
            payment_ledger,
            kind,
        )
        .unwrap()
}

fn failures(result: &VerificationResult) -> Vec<CheckDetail> {
    result.checks.iter().filter(|c| !c.passed).map(|c| c.detail).collect()
}

#[test]
fn fingerprint_values() {
    let payer = Address::from_text([b'A'; 56]);
    let merchant = Address::from_text([b'B'; 56]);
    assert_eq!(payment_fingerprint(&payer, &merchant, 1_000), 0x1fe1_cfdd_6818_352c);
    assert_eq!(payment_fingerprint(&payer, &merchant, -1), 0xa6a9_15e2_74f0_43a5);
}

#[test]
fn verification_full_check() {
    let (mut contract, mut env) = ready();
    let result = verify(&mut contract, &mut env, MERCHANT, 10, 940, VerificationType::Full);
    assert!(result.passed);
    assert_eq!(result.verification_id, 1);
    let names: Vec<CheckName> = result.checks.iter().map(|c| c.name).collect();
    assert_eq!(
        names,
        vec![
            CheckName::MerchantRegistered,
            CheckName::MerchantActive,
            CheckName::AmountMin,
            CheckName::AmountMax,
            CheckName::DuplicateCheck,
            CheckName::ExpiryCheck
        ]
    );
    let again = verify(&mut contract, &mut env, MERCHANT, 10, 939, VerificationType::Full);
    assert_eq!(failures(&again), vec![CheckDetail::DuplicateDetected, CheckDetail::Expired]);
    assert_eq!(again.verification_id, 2);
    assert!(contract.get_verification(1).unwrap().passed);
    assert!(!contract.get_verification(2).unwrap().passed);
    assert!(matches!(
        contract.get_verification(3),
        Err(VerificationError::VerificationNotFound)
    ));
    match env.log.last() {
        Some(Effect::Event(event)) => assert_eq!(
            *event,
            VerificationEvent::Done { verification_id: 2, payment_id: 77, passed: false }
        ),
        _ => panic!("expected an event"),
    }
}

#[test]
fn verification_single_checks() {
    let (mut contract, mut env) = ready();
    let low = verify(&mut contract, &mut env, MERCHANT, 9, 0, VerificationType::Amount);
    assert_eq!(failures(&low), vec![CheckDetail::BelowMinimum]);
    let unknown = verify(&mut contract, &mut env, 9, 9, 0, VerificationType::Amount);
    assert_eq!(failures(&unknown), vec![CheckDetail::MerchantNotConfigured]);
    let missing = verify(&mut contract, &mut env, 9, 9, 0, VerificationType::Merchant);
    assert_eq!(failures(&missing), vec![CheckDetail::MerchantNotRegistered]);
    contract
        .set_merchant_config(
            &mut env,
            &addr(6),
            MerchantConfig { vault: addr(5), min_amount: 0, max_amount: 100, active: true },
        )
        .unwrap();
    let high = verify(&mut contract, &mut env, 6, 101, 0, VerificationType::Amount);
    assert_eq!(failures(&high), vec![CheckDetail::AboveMaximum]);
    contract.deactivate_merchant(&mut env, &addr(6)).unwrap();
    let off = verify(&mut contract, &mut env, 6, 50, 0, VerificationType::Merchant);
    assert_eq!(failures(&off), vec![CheckDetail::MerchantInactive]);
    assert!(!contract.get_merchant_config(&addr(6)).unwrap().active);
    let future = verify(&mut contract, &mut env, 6, 50, 5_000, VerificationType::Expiry);
    assert!(future.passed);
}

#[test]
fn verification_duplicate_window_ends() {
    let (mut contract, mut env) = ready();
    let kind = VerificationType::Duplicate;
    assert!(verify(&mut contract, &mut env, MERCHANT, 5, 0, kind).passed);
    env.sequence = 1_119;
    assert!(!verify(&mut contract, &mut env, MERCHANT, 5, 0, kind).passed);
    env.sequence = 1_120;
    assert!(verify(&mut contract, &mut env, MERCHANT, 5, 0, kind).passed);
    assert!(verify(&mut contract, &mut env, MERCHANT, 6, 0, kind).passed);
    contract.set_duplicate_window(&mut env, 0).unwrap();
    assert!(verify(&mut contract, &mut env, MERCHANT, 5, 0, kind).passed);
    assert_eq!(contract.get_duplicate_window(), 0);
    contract.set_expiry_window(&mut env, 9).unwrap();
    assert_eq!(contract.get_expiry_window(), 9);
}

#[test]
fn verification_refusals() {
    let (mut contract, mut env) = ready();
    assert_eq!(
        contract.initialize(&mut env, &addr(1), 0, 0),
        Err(VerificationError::AlreadyInitialized)
    );
    assert_eq!(
        contract.add_verifier(&mut env, &addr(VERIFIER)),
        Err(VerificationError::VerifierAlreadyAdded)
    );
    assert_eq!(
        contract.remove_verifier(&mut env, &addr(9)),
        Err(VerificationError::VerifierNotFound)
    );
    assert_eq!(
        contract.deactivate_merchant(&mut env, &addr(9)),
        Err(VerificationError::MerchantNotFound)
    );
    assert_eq!(
        contract.get_merchant_config(&addr(9)),
        Err(VerificationError::MerchantNotFound)
    );
    assert_eq!(
        contract.set_merchant_config(
            &mut env,
            &addr(9),
            MerchantConfig { vault: addr(5), min_amount: -1, max_amount: 0, active: true }
        ),
        Err(VerificationError::InvalidAmount)
    );
    let stranger = contract.verify_payment(
        &mut env,
        &addr(9),
        1,
        &addr(PAYER),
        &addr(MERCHANT),
        5,
        0,
        VerificationType::Full,
    );
    assert!(matches!(stranger, Err(VerificationError::Unauthorized)));
    contract.pause(&mut env).unwrap();
    let paused = contract.verify_payment(
        &mut env,
        &addr(VERIFIER),
        1,
        &addr(PAYER),
        &addr(MERCHANT),
        5,
        0,
        VerificationType::Full,
    );
    assert!(matches!(paused, Err(VerificationError::ContractPaused)));
    contract.unpause(&mut env).unwrap();
    contract.remove_verifier(&mut env, &addr(VERIFIER)).unwrap();
    assert!(!contract.is_verifier(&addr(VERIFIER)));
}

#[test]
fn verification_upgrade_raises_the_version() {
    let (mut contract, mut env) = ready();
    contract.upgrade(&mut env, &BytesN::from_array([7; 32])).unwrap();
    assert_eq!(contract.get_version(), 2);
    assert!(matches!(env.log.last(), Some(Effect::Upgrade(_))));
    contract.transfer_admin(&mut env, &addr(9)).unwrap();
    assert_eq!(contract.get_admin(), Ok(addr(9)));
    assert!(!contract.is_paused());
}

#[test]
fn verification_texts_and_numbers() {
    assert_eq!(CheckName::AmountMerchantConfig.text(), "amount_merchant_config");
    assert_eq!(CheckName::ExpiryCheck.text(), "expiry_check");
    assert_eq!(CheckDetail::Passed.text(), "ok");
    assert_eq!(CheckDetail::DuplicateDetected.text(), "duplicate payment detected within window");
    assert_eq!(VerificationType::Full.code(), 4);
    assert_eq!(VerificationError::MerchantAlreadyRegistered.code(), 9);
    assert_eq!(VerificationEvent::Paused.topics(), ("verify", "paused"));
}

#[test]
fn verification_keeps_entries_alive() {
    let (mut contract, mut env) = ready();
    let before = env.log.len();
    verify(&mut contract, &mut env, MERCHANT, 5, 0, VerificationType::Duplicate);
    let log = &env.log[before..];
    assert_eq!(log.len(), 4);
    assert!(matches!(log[0], Effect::ExtendInstance));
    assert!(matches!(log[1], Effect::ExtendEntry(DataKey::DuplicateRecord(_))));
    assert!(matches!(log[2], Effect::ExtendEntry(DataKey::VerificationRecord(1))));
}

/// An address that differs from `addr(n)` in its last character only.
fn sibling(n: u8) -> Address {
    let mut text = [n; 56];
    text[55] = b'Z';
    Address::from_text(text)
}

fn duplicate_check(
    contract: &mut PaymentVerification,
    env: &mut VerificationEnv,
    payer: &Address,
    merchant: &Address,
    amount: i128,
) -> bool {
    let result = contract
        .verify_payment(
            env,
            &addr(VERIFIER),
            1,
            payer,
            merchant,
            amount,
            0,
            VerificationType::Duplicate,
        )
        .unwrap();
    assert_eq!(result.checks.len(), 1);
    assert_eq!(result.checks[0].name, CheckName::DuplicateCheck);
    assert_eq!(result.checks[0].passed, result.passed);
    result.passed
}

#[test]
fn verification_tells_payments_apart() {
    let (mut contract, mut env) = ready();
    let payer = addr(PAYER);
    let merchant = addr(MERCHANT);
    assert_eq!(
        payment_fingerprint(&payer, &merchant, 50),
        payment_fingerprint(&sibling(PAYER), &sibling(MERCHANT), 50)
    );
    assert!(duplicate_check(&mut contract, &mut env, &payer, &merchant, 50));
    assert!(duplicate_check(&mut contract, &mut env, &sibling(PAYER), &merchant, 50));
    assert!(duplicate_check(&mut contract, &mut env, &payer, &sibling(MERCHANT), 50));
    assert!(duplicate_check(&mut contract, &mut env, &payer, &merchant, 51));
    assert!(!duplicate_check(&mut contract, &mut env, &payer, &merchant, 50));
    assert!(!duplicate_check(&mut contract, &mut env, &sibling(PAYER), &merchant, 50));
    assert!(!duplicate_check(&mut contract, &mut env, &payer, &sibling(MERCHANT), 50));
    assert!(!duplicate_check(&mut contract, &mut env, &payer, &merchant, 51));
}

#[test]
fn verification_window_over_a_run() {
    let (mut contract, mut env) = ready();
    let payer = addr(PAYER);
    let merchant = addr(MERCHANT);
    assert!(duplicate_check(&mut contract, &mut env, &payer, &merchant, 50));
    for ledger in [1_000, 1_001, 1_060, 1_060, 1_118, 1_119] {
        env.sequence = ledger;
        assert!(!duplicate_check(&mut contract, &mut env, &payer, &merchant, 50));
        duplicate_check(&mut contract, &mut env, &sibling(PAYER), &merchant, 50);
    }
    env.sequence = 1_120;
    assert!(duplicate_check(&mut contract, &mut env, &payer, &merchant, 50));
    env.sequence = 1_239;
    assert!(!duplicate_check(&mut contract, &mut env, &payer, &merchant, 50));
    env.sequence = 1_240;
    assert!(duplicate_check(&mut contract, &mut env, &payer, &merchant, 50));
}

#[test]
fn seen_payments_are_filed_together() {
    let first = PaymentKey { payer: addr(PAYER), merchant: addr(MERCHANT), amount: 50 };
    let second = PaymentKey { payer: sibling(PAYER), ..first };
    let third = PaymentKey { amount: 51, ..first };
    let print = payment_fingerprint(&first.payer, &first.merchant, first.amount);
    let mut seen = SeenPayments::new();
    assert_eq!(seen.filed_under(print).len(), 0);
    seen.set(first, 7);
    seen.set(second, 8);
    seen.set(third, 9);
    seen.set(first, 10);
    assert_eq!(seen.get(&first), Some(10));
    assert_eq!(seen.get(&second), Some(8));
    assert_eq!(seen.get(&third), Some(9));
    assert_eq!(seen.get(&PaymentKey { merchant: addr(9), ..first }), None);
    let mut ledgers: Vec<u32> = seen.filed_under(print).iter().map(|s| s.ledger).collect();
    ledgers.sort();
    assert_eq!(ledgers, [8, 10]);
}
