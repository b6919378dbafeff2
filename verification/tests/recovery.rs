use blinks::address::Address;
use blinks::address::Bytes;
use blinks::address::BytesN;
use blinks::env::Effect;
use blinks::recovery::CaseStatus;
use blinks::recovery::PaymentRecovery;
use blinks::recovery::RecoveryEnv;
use blinks::recovery::RecoveryError;
use blinks::recovery::RecoveryEvent;
use blinks::recovery::Resolution;
use blinks::recovery::DEFAULT_EXPIRY_LEDGERS;

const REPORTER: u8 = 3;
const PAYER: u8 = 4;
const RECIPIENT: u8 = 5;

fn addr(n: u8) -> Address {
    Address::from_text([n; 56])
}

fn ready() -> (PaymentRecovery, RecoveryEnv) {
    let mut env = RecoveryEnv::new(100, 1, addr(b'C'));
    let mut contract = PaymentRecovery::new();
    contract.initialize(&mut env, &addr(1), 50).unwrap();
    contract.add_reporter(&mut env, &addr(REPORTER)).unwrap();
    (contract, env)
}

fn report(contract: &mut PaymentRecovery, env: &mut RecoveryEnv, amount: i128) -> Result<u64, RecoveryError> {
    contract.report_failure(
        env,
        &addr(REPORTER),
        &addr(PAYER),
        &addr(RECIPIENT),
        &addr(2),
        amount,
        Bytes::from_vec(vec![9, 8]),
    )
}

fn transfers(env: &RecoveryEnv, from: usize) -> Vec<(u8, u8, i128)> {
    env.log[from..]
        .iter()
        .filter_map(|e| match e {
            Effect::Transfer { from, to, amount, .. } => {
                Some((from.text[0], to.text[0], *amount))
            }
            _ => None,
        })
        .collect()
}

#[test]
fn recovery_reports() {
    let (mut contract, mut env) = ready();
    assert_eq!(report(&mut contract, &mut env, 0), Err(RecoveryError::InvalidAmount));
    assert_eq!(report(&mut contract, &mut env, 10), Ok(0));
    assert_eq!(report(&mut contract, &mut env, 11), Ok(1));
    assert_eq!(contract.case_count(), 2);
    let case = contract.get_case(1).unwrap();
    assert_eq!(case.expiry_ledger, 150);
    assert_eq!(case.reference.to_vec(), vec![9, 8]);
    assert_eq!(case.status, CaseStatus::Pending);
    match env.log.last() {
        Some(Effect::Event(RecoveryEvent::Reported { case_id, amount, reference, .. })) => {
            assert_eq!((*case_id, *amount), (1, 11));
            assert_eq!(reference.to_vec(), vec![9, 8]);
        }
        _ => panic!("expected an event"),
    }
}

#[test]
fn recovery_resolutions() {
    let (mut contract, mut env) = ready();
    for amount in [10, 20, 30] {
        report(&mut contract, &mut env, amount).unwrap();
    }
    let before = env.log.len();
    contract.resolve(&mut env, 0, Resolution::Refund, Bytes::from_vec(vec![1])).unwrap();
    contract.resolve(&mut env, 1, Resolution::Retry, Bytes::new()).unwrap();
    contract.resolve(&mut env, 2, Resolution::Escalate, Bytes::new()).unwrap();
    assert_eq!(transfers(&env, before), vec![(b'C', PAYER, 10), (b'C', RECIPIENT, 20)]);
    assert_eq!(contract.get_case(0).unwrap().status, CaseStatus::Refunded);
    assert_eq!(contract.get_case(0).unwrap().note.to_vec(), vec![1]);
    assert_eq!(contract.get_case(1).unwrap().status, CaseStatus::Retried);
    assert_eq!(contract.get_case(2).unwrap().status, CaseStatus::Escalated);
    assert!(matches!(
        env.log.last(),
        Some(Effect::Event(RecoveryEvent::Resolved { case_id: 2, resolution: 3, status: 4 }))
    ));
    assert_eq!(
        contract.resolve(&mut env, 2, Resolution::Refund, Bytes::new()),
        Err(RecoveryError::CaseNotPending)
    );
    assert_eq!(
        contract.resolve(&mut env, 9, Resolution::Refund, Bytes::new()),
        Err(RecoveryError::CaseNotFound)
    );
}

#[test]
fn recovery_expiry() {
    let (mut contract, mut env) = ready();
    report(&mut contract, &mut env, 10).unwrap();
    env.sequence = 150;
    assert_eq!(contract.expire_case(&mut env, 0), Err(RecoveryError::CaseNotExpired));
    env.sequence = 151;
    let before = env.log.len();
    contract.expire_case(&mut env, 0).unwrap();
    assert_eq!(transfers(&env, before), vec![(b'C', PAYER, 10)]);
    assert_eq!(contract.expire_case(&mut env, 0), Err(RecoveryError::CaseNotPending));
    contract.set_expiry_ledgers(&mut env, 7).unwrap();
    assert_eq!(contract.get_expiry_ledgers(), 7);
}

#[test]
fn recovery_administration() {
    let (mut contract, mut env) = ready();
    assert_eq!(
        contract.initialize(&mut env, &addr(1), 0),
        Err(RecoveryError::AlreadyInitialized)
    );
    assert_eq!(
        contract.add_reporter(&mut env, &addr(REPORTER)),
        Err(RecoveryError::ReporterAlreadyAdded)
    );
    report(&mut contract, &mut env, 10).unwrap();
    contract.guard_held = true;
    assert_eq!(
        contract.resolve(&mut env, 0, Resolution::Refund, Bytes::new()),
        Err(RecoveryError::Reentrant)
    );
    contract.guard_held = false;
    contract.pause(&mut env).unwrap();
    assert!(contract.is_paused());
    assert_eq!(report(&mut contract, &mut env, 10), Err(RecoveryError::ContractPaused));
    contract.unpause(&mut env).unwrap();
    contract.remove_reporter(&mut env, &addr(REPORTER)).unwrap();
    assert!(!contract.is_reporter(&addr(REPORTER)));
    assert_eq!(
        contract.remove_reporter(&mut env, &addr(REPORTER)),
        Err(RecoveryError::ReporterNotFound)
    );
    assert_eq!(report(&mut contract, &mut env, 10), Err(RecoveryError::Unauthorized));
    contract.upgrade(&mut env, &BytesN::from_array([1; 32])).unwrap();
    assert_eq!(contract.get_version(), 2);
    contract.transfer_admin(&mut env, &addr(8)).unwrap();
    assert_eq!(contract.get_admin(), Ok(addr(8)));
    let mut fresh = PaymentRecovery::new();
    assert_eq!(fresh.pause(&mut env), Err(RecoveryError::NotInitialized));
    fresh.initialize(&mut env, &addr(1), 0).unwrap();
    assert_eq!(fresh.get_expiry_ledgers(), DEFAULT_EXPIRY_LEDGERS);
    assert_eq!(RecoveryError::ReporterNotFound.code(), 11);
    assert_eq!(CaseStatus::Expired.code(), 5);
    assert_eq!(Resolution::Refund.code(), 1);
    assert_eq!(RecoveryEvent::Paused.topics(), ("recovery", "paused"));
}
