use blinks::address::Address;
use blinks::address::Bytes;
use blinks::address::BytesN;
use blinks::env::Effect;
use blinks::payment_escrow::DataKey;
use blinks::payment_escrow::EscrowEnv;
use blinks::payment_escrow::EscrowError;
use blinks::payment_escrow::EscrowEvent;
use blinks::payment_escrow::EscrowState;
use blinks::payment_escrow::PaymentEscrowAutomation;

const BUYER: u8 = 3;
const SELLER: u8 = 4;
const CONFIRMER: u8 = 5;

fn addr(n: u8) -> Address {
    Address::from_text([n; 56])
}

fn ready() -> (PaymentEscrowAutomation, EscrowEnv) {
    let mut env = EscrowEnv::new(100, 1, addr(b'C'));
    let mut contract = PaymentEscrowAutomation::new();
    contract.initialize(&mut env, &addr(1)).unwrap();
    contract.add_confirmer(&mut env, &addr(CONFIRMER)).unwrap();
    (contract, env)
}

fn lock(contract: &mut PaymentEscrowAutomation, env: &mut EscrowEnv, deadline: u32) -> u64 {
    let reference = Bytes::from_vec(vec![1, 2, 3]);
    contract
        .lock_funds(env, &addr(BUYER), &addr(SELLER), &addr(2), 500, reference, deadline)
        .unwrap()
}

fn transfers(env: &EscrowEnv, from: usize) -> Vec<(u8, u8, i128)> {
    env.log[from..]
        .iter()
        .filter_map(|e| match e {
            Effect::Transfer { from, to, amount, .. } => {
                Some((from.text[0], to.text[0], *amount))
            }
            _ => None,
        })
        .collect()
}

#[test]
fn automation_locks_and_counts() {
    let (mut contract, mut env) = ready();
    let before = env.log.len();
    assert_eq!(lock(&mut contract, &mut env, 0), 0);
    assert_eq!(lock(&mut contract, &mut env, 0), 1);
    assert_eq!(contract.escrow_count(), 2);
    let escrow = contract.get_escrow(0).unwrap();
    assert_eq!(escrow.reference.to_vec(), vec![1, 2, 3]);
    assert!(escrow.resolution_note.to_vec().is_empty());
    assert_eq!(escrow.created_ledger, 100);
    let log = &env.log[before..before + 6];
    assert!(matches!(log[0], Effect::ExtendInstance));
    assert!(matches!(log[1], Effect::Lock));
    assert!(matches!(log[2], Effect::ExtendEntry(DataKey::Escrow(0))));
    assert!(matches!(log[3], Effect::Transfer { amount: 500, .. }));
    assert!(matches!(log[4], Effect::Unlock));
    assert!(matches!(log[5], Effect::Event(EscrowEvent::Locked { escrow_id: 0, .. })));
    let zero = contract.lock_funds(
        &mut env,
        &addr(BUYER),
        &addr(SELLER),
        &addr(2),
        0,
        Bytes::new(),
        0,
    );
    assert_eq!(zero, Err(EscrowError::InvalidAmount));
}

#[test]
fn automation_release_by_milestone() {
    let (mut contract, mut env) = ready();
    let id = lock(&mut contract, &mut env, 0);
    assert_eq!(contract.auto_release(&mut env, id), Err(EscrowError::MilestoneNotConfirmed));
    assert_eq!(
        contract.confirm_milestone(&mut env, &addr(9), id),
        Err(EscrowError::Unauthorized)
    );
    assert_eq!(
        contract.confirm_milestone(&mut env, &addr(CONFIRMER), 7),
        Err(EscrowError::EscrowNotFound)
    );
    contract.confirm_milestone(&mut env, &addr(CONFIRMER), id).unwrap();
    assert_eq!(
        contract.confirm_milestone(&mut env, &addr(CONFIRMER), id),
        Err(EscrowError::AlreadyConfirmed)
    );
    assert_eq!(
        contract.refund_request(&mut env, &addr(BUYER), id),
        Err(EscrowError::AlreadyConfirmed)
    );
    let before = env.log.len();
    contract.auto_release(&mut env, id).unwrap();
    assert_eq!(transfers(&env, before), vec![(b'C', SELLER, 500)]);
    assert_eq!(contract.auto_release(&mut env, id), Err(EscrowError::NotLocked));
}

#[test]
fn automation_release_by_deadline() {
    let (mut contract, mut env) = ready();
    let id = lock(&mut contract, &mut env, 150);
    env.sequence = 149;
    assert_eq!(contract.auto_release(&mut env, id), Err(EscrowError::DeadlineNotReached));
    env.sequence = 150;
    contract.auto_release(&mut env, id).unwrap();
    assert_eq!(contract.get_escrow(id).unwrap().state, EscrowState::Released);
}

#[test]
fn automation_refund() {
    let (mut contract, mut env) = ready();
    let id = lock(&mut contract, &mut env, 0);
    assert_eq!(
        contract.refund_request(&mut env, &addr(SELLER), id),
        Err(EscrowError::Unauthorized)
    );
    let before = env.log.len();
    contract.refund_request(&mut env, &addr(BUYER), id).unwrap();
    assert_eq!(transfers(&env, before), vec![(b'C', BUYER, 500)]);
    assert_eq!(contract.get_escrow(id).unwrap().state, EscrowState::Refunded);
}

#[test]
fn automation_dispute() {
    let (mut contract, mut env) = ready();
    let id = lock(&mut contract, &mut env, 101);
    assert_eq!(
        contract.resolve_dispute(&mut env, id, true, Bytes::new()),
        Err(EscrowError::NotDisputed)
    );
    assert_eq!(
        contract.open_dispute(&mut env, &addr(9), id),
        Err(EscrowError::Unauthorized)
    );
    contract.open_dispute(&mut env, &addr(SELLER), id).unwrap();
    env.sequence = 500;
    assert_eq!(contract.auto_release(&mut env, id), Err(EscrowError::NotLocked));
    let before = env.log.len();
    contract.resolve_dispute(&mut env, id, false, Bytes::from_vec(vec![7])).unwrap();
    assert_eq!(transfers(&env, before), vec![(b'C', BUYER, 500)]);
    assert_eq!(contract.get_escrow(id).unwrap().resolution_note.to_vec(), vec![7]);
    assert!(contract.get_escrow(9).is_err());
}

#[test]
fn automation_guard_and_pause() {
    let (mut contract, mut env) = ready();
    let id = lock(&mut contract, &mut env, 0);
    contract.guard_held = true;
    assert_eq!(
        contract.confirm_milestone(&mut env, &addr(CONFIRMER), id),
        Err(EscrowError::Reentrant)
    );
    assert_eq!(contract.open_dispute(&mut env, &addr(BUYER), id), Err(EscrowError::Reentrant));
    assert_eq!(contract.refund_request(&mut env, &addr(BUYER), id), Err(EscrowError::Reentrant));
    assert_eq!(contract.pause(&mut env), Err(EscrowError::Reentrant));
    assert_eq!(contract.add_confirmer(&mut env, &addr(9)), Err(EscrowError::Reentrant));
    assert_eq!(
        contract.remove_confirmer(&mut env, &addr(CONFIRMER)),
        Err(EscrowError::Reentrant)
    );
    assert_eq!(contract.transfer_admin(&mut env, &addr(9)), Err(EscrowError::Reentrant));
    let mut fresh = PaymentEscrowAutomation::new();
    fresh.guard_held = true;
    assert_eq!(fresh.initialize(&mut env, &addr(1)), Err(EscrowError::Reentrant));
    contract.guard_held = false;
    contract.pause(&mut env).unwrap();
    assert!(contract.is_paused());
    assert_eq!(contract.auto_release(&mut env, id), Err(EscrowError::ContractPaused));
    contract.unpause(&mut env).unwrap();
    contract.upgrade(&mut env, &BytesN::from_array([1; 32])).unwrap();
    assert_eq!(contract.get_version(), 2);
    contract.transfer_admin(&mut env, &addr(8)).unwrap();
    assert_eq!(contract.get_admin(), Ok(addr(8)));
}

#[test]
fn automation_confirmers() {
    let (mut contract, mut env) = ready();
    assert!(contract.is_confirmer(&addr(CONFIRMER)));
    assert_eq!(
        contract.add_confirmer(&mut env, &addr(CONFIRMER)),
        Err(EscrowError::ConfirmerAlreadyAdded)
    );
    contract.remove_confirmer(&mut env, &addr(CONFIRMER)).unwrap();
    assert_eq!(
        contract.remove_confirmer(&mut env, &addr(CONFIRMER)),
        Err(EscrowError::ConfirmerNotFound)
    );
    assert_eq!(
        contract.initialize(&mut env, &addr(1)),
        Err(EscrowError::AlreadyInitialized)
    );
    assert_eq!(
        PaymentEscrowAutomation::new().add_confirmer(&mut env, &addr(1)),
        Err(EscrowError::NotInitialized)
    );
    assert_eq!(EscrowError::NoDeadlineConfigured.code(), 11);
    assert_eq!(EscrowState::Locked.code(), 1);
    assert_eq!(EscrowEvent::Paused.topics(), ("escrow_a", "paused"));
}
