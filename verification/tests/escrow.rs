use blinks::address::Address;
use blinks::address::BytesN;
use blinks::env::Effect;
use blinks::escrow::ArbitrationFailure;
use blinks::escrow::DisputeError;
use blinks::escrow::DisputeStatus;
use blinks::escrow::EscrowContract;
use blinks::escrow::EscrowEnv;
use blinks::escrow::EscrowError;
use blinks::escrow::EscrowEvent;
use blinks::escrow::EscrowState;
use blinks::escrow::EvidenceKey;

const BUYER: u8 = 3;
const SELLER: u8 = 4;

fn addr(n: u8) -> Address {
    Address::from_text([n; 56])
}

fn word(n: u8) -> BytesN<32> {
    BytesN::from_array([n; 32])
}

fn locked() -> (EscrowContract, EscrowEnv) {
    let mut env = EscrowEnv::new(10, 1_000, addr(b'C'));
    let mut contract = EscrowContract::new();
    contract
        .lock_funds(&mut env, &word(1), &addr(BUYER), &addr(SELLER), &addr(2), 500, 77, &word(9))
        .unwrap();
    (contract, env)
}

fn transfers(env: &EscrowEnv, from: usize) -> Vec<(u8, u8, i128)> {
    env.log[from..]
        .iter()
        .filter_map(|e| match e {
            Effect::Transfer { from, to, amount, .. } => {
                Some((from.text[0], to.text[0], *amount))
            }
            _ => None,
        })
        .collect()
}

#[test]
fn escrow_locks_funds_once() {
    let (mut contract, mut env) = locked();
    assert_eq!(transfers(&env, 0), vec![(BUYER, b'C', 500)]);
    assert_eq!(env.log.len(), 4);
    assert!(matches!(env.log[0], Effect::Lock));
    assert!(matches!(env.log[3], Effect::Unlock));
    let escrow = contract.get_escrow(&word(1)).unwrap();
    assert_eq!(escrow.created_at, 1_000);
    assert_eq!(escrow.timeout_ledger, 77);
    assert!(contract.is_locked(&word(1)));
    assert!(!contract.is_locked(&word(2)));
    assert_eq!(
        contract.lock_funds(
            &mut env,
            &word(1),
            &addr(BUYER),
            &addr(SELLER),
            &addr(2),
            500,
            77,
            &word(9)
        ),
        Err(EscrowError::AlreadyLocked)
    );
    assert_eq!(
        contract.lock_funds(
            &mut env,
            &word(1),
            &addr(BUYER),
            &addr(SELLER),
            &addr(2),
            0,
            77,
            &word(9)
        ),
        Err(EscrowError::InvalidAmount)
    );
    assert_eq!(contract.get_state(&word(2)), Err(EscrowError::NotLocked));
}

#[test]
fn escrow_release_by_seller_or_arbitrator() {
    let (mut contract, mut env) = locked();
    assert_eq!(
        contract.release_funds(&mut env, &word(1), &addr(BUYER)),
        Err(EscrowError::NotAuthorized)
    );
    assert_eq!(
        contract.set_arbitrator(&mut env, &word(1), &addr(9), &addr(8)),
        Err(EscrowError::NotAuthorized)
    );
    contract.set_arbitrator(&mut env, &word(1), &addr(BUYER), &addr(8)).unwrap();
    let before = env.log.len();
    contract.release_funds(&mut env, &word(1), &addr(8)).unwrap();
    assert_eq!(transfers(&env, before), vec![(b'C', SELLER, 500)]);
    assert_eq!(contract.get_state(&word(1)), Ok(EscrowState::Released));
    assert_eq!(
        contract.refund_funds(&mut env, &word(1), &addr(BUYER)),
        Err(EscrowError::InvalidState)
    );
}

#[test]
fn escrow_refund_after_a_week_by_anyone() {
    let (mut contract, mut env) = locked();
    env.timestamp = 1_000 + 604_799;
    assert_eq!(
        contract.refund_funds(&mut env, &word(1), &addr(9)),
        Err(EscrowError::NotAuthorized)
    );
    env.timestamp = 1_000 + 604_800;
    let before = env.log.len();
    contract.refund_funds(&mut env, &word(1), &addr(9)).unwrap();
    assert_eq!(transfers(&env, before), vec![(b'C', BUYER, 500)]);
    assert_eq!(contract.get_state(&word(1)), Ok(EscrowState::Refunded));
}

#[test]
fn escrow_votes_settle_by_agreement() {
    let (mut contract, mut env) = locked();
    assert_eq!(
        contract.vote_resolution(&mut env, &word(1), &addr(BUYER), true),
        Err(EscrowError::NotDisputed)
    );
    assert_eq!(
        contract.initiate_dispute(&mut env, &word(1), &addr(9), &addr(8)),
        Err(EscrowError::NotAuthorized)
    );
    contract.initiate_dispute(&mut env, &word(1), &addr(BUYER), &addr(8)).unwrap();
    assert_eq!(contract.get_escrow(&word(1)).unwrap().dispute_resolver, Some(addr(8)));
    contract.submit_evidence(&mut env, &word(1), &addr(9), &word(40)).unwrap();
    contract.submit_evidence(&mut env, &word(1), &addr(9), &word(41)).unwrap();
    assert_eq!(contract.get_escrow(&word(1)).unwrap().evidence_count, 2);
    let key = EvidenceKey { escrow_id: word(1), index: 1 };
    assert_eq!(contract.evidence.get(&key).map(|e| e.bytes), Some(word(41).bytes));
    contract.vote_resolution(&mut env, &word(1), &addr(BUYER), true).unwrap();
    assert_eq!(
        contract.vote_resolution(&mut env, &word(1), &addr(BUYER), false),
        Err(EscrowError::VoteAlreadyCast)
    );
    assert_eq!(
        contract.vote_resolution(&mut env, &word(1), &addr(9), false),
        Err(EscrowError::NotAuthorized)
    );
    let before = env.log.len();
    contract.vote_resolution(&mut env, &word(1), &addr(SELLER), true).unwrap();
    assert_eq!(transfers(&env, before), vec![(b'C', SELLER, 500)]);
    assert_eq!(contract.reputation_of(&addr(SELLER)), 1);
    assert_eq!(contract.reputation_of(&addr(BUYER)), -1);
    assert!(matches!(
        env.log[before + 1],
        Effect::Event(EscrowEvent::ReputationChanged { score: 1, .. })
    ));
}

#[test]
fn escrow_votes_that_differ_move_nothing() {
    let (mut contract, mut env) = locked();
    contract.initiate_dispute(&mut env, &word(1), &addr(SELLER), &addr(8)).unwrap();
    let before = env.log.len();
    contract.vote_resolution(&mut env, &word(1), &addr(BUYER), false).unwrap();
    contract.vote_resolution(&mut env, &word(1), &addr(SELLER), true).unwrap();
    assert!(transfers(&env, before).is_empty());
    assert_eq!(contract.get_state(&word(1)), Ok(EscrowState::Disputed));
    contract.appeal(&mut env, &word(1), &addr(SELLER), &word(50)).unwrap();
    let escrow = contract.get_escrow(&word(1)).unwrap();
    assert_eq!(escrow.appeal_count, 1);
    assert_eq!(escrow.buyer_vote, None);
    assert_eq!(
        contract.appeal(&mut env, &word(1), &addr(9), &word(50)),
        Err(EscrowError::NotAuthorized)
    );
}

#[test]
fn escrow_arbitration() {
    let (mut contract, mut env) = locked();
    assert_eq!(
        contract.initiate_advanced_dispute(&mut env, &word(1), &addr(BUYER), vec![], 5),
        Err(ArbitrationFailure::Dispute(DisputeError::NoArbitratorsAvailable))
    );
    assert_eq!(
        contract.initiate_advanced_dispute(&mut env, &word(7), &addr(BUYER), vec![addr(8)], 5),
        Err(ArbitrationFailure::Escrow(EscrowError::NotLocked))
    );
    contract
        .initiate_advanced_dispute(&mut env, &word(1), &addr(BUYER), vec![addr(7), addr(8)], 5)
        .unwrap();
    contract.submit_dispute_evidence(&mut env, &word(1), &addr(9), &word(60)).unwrap();
    assert_eq!(
        contract.select_arbitrator(&mut env, &word(1), &addr(9)),
        Err(ArbitrationFailure::Dispute(DisputeError::InvalidArbitrator))
    );
    assert_eq!(
        contract.select_arbitrator(&mut env, &word(1), &addr(8)),
        Err(ArbitrationFailure::Dispute(DisputeError::InsufficientReputation))
    );
    contract.reputation.set(addr(8), 50);
    contract.select_arbitrator(&mut env, &word(1), &addr(8)).unwrap();
    assert_eq!(
        contract.submit_arbitration_decision(&mut env, &word(1), &addr(7), false),
        Err(ArbitrationFailure::Dispute(DisputeError::InvalidArbitrator))
    );
    contract.submit_arbitration_decision(&mut env, &word(1), &addr(8), false).unwrap();
    assert_eq!(contract.reputation_of(&addr(8)), 52);
    let dispute = contract.get_dispute(&word(1)).unwrap();
    assert_eq!(dispute.appeal_deadline, 1_000 + 604_800);
    assert_eq!(dispute.evidence_hashes.len(), 1);
    assert_eq!(
        contract.execute_arbitration_decision(&mut env, &word(1)),
        Err(ArbitrationFailure::Dispute(DisputeError::AppealDeadlineExpired))
    );
    env.timestamp = 1_000 + 604_800;
    contract.appeal_arbitration(&mut env, &word(1), &addr(9), &word(61)).unwrap();
    assert_eq!(contract.get_dispute(&word(1)).unwrap().status, DisputeStatus::Appealed);
    assert_eq!(contract.get_dispute(&word(1)).unwrap().tier, 2);
    assert_eq!(
        contract.execute_arbitration_decision(&mut env, &word(1)),
        Err(ArbitrationFailure::Dispute(DisputeError::DisputeNotFound))
    );
    contract.select_arbitrator(&mut env, &word(1), &addr(8)).unwrap();
    contract.submit_arbitration_decision(&mut env, &word(1), &addr(8), false).unwrap();
    env.timestamp = env.timestamp + 604_801;
    assert_eq!(
        contract.appeal_arbitration(&mut env, &word(1), &addr(9), &word(61)),
        Err(ArbitrationFailure::Dispute(DisputeError::AppealDeadlineExpired))
    );
    let before = env.log.len();
    contract.execute_arbitration_decision(&mut env, &word(1)).unwrap();
    assert_eq!(transfers(&env, before), vec![(b'C', BUYER, 500)]);
    assert_eq!(contract.get_state(&word(1)), Ok(EscrowState::Refunded));
    assert!(contract.get_dispute(&word(2)).is_err());
}

#[test]
fn escrow_guard_refuses_calls() {
    let (mut contract, mut env) = locked();
    contract.guard_held = true;
    let asked = env.auths.len();
    assert_eq!(
        contract.release_funds(&mut env, &word(1), &addr(SELLER)),
        Err(EscrowError::Reentrant)
    );
    assert_eq!(
        contract.select_arbitrator(&mut env, &word(1), &addr(8)),
        Err(ArbitrationFailure::Escrow(EscrowError::Reentrant))
    );
    assert_eq!(env.auths.len(), asked);
    assert_eq!(EscrowError::Reentrant.code(), 11);
    assert_eq!(DisputeError::DisputeAlreadyResolved.code(), 6);
    assert_eq!(DisputeStatus::FinalResolution.code(), 5);
    assert_eq!(EscrowState::Disputed.code(), 4);
}
