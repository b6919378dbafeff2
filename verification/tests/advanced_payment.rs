use blinks::address::Address;
use blinks::address::Bytes;
use blinks::address::BytesN;
use blinks::advanced_payment::AdvancedPaymentEnv;
use blinks::advanced_payment::AdvancedPaymentError;
use blinks::advanced_payment::AdvancedPaymentEvent;
use blinks::advanced_payment::AdvancedPaymentSystem;
use blinks::advanced_payment::EscrowState;
use blinks::advanced_payment::PaymentConfig;
use blinks::env::Effect;

fn addr(n: u8) -> Address {
    Address::from_text([n; 56])
}

fn config() -> PaymentConfig {
    PaymentConfig {
        escrow_enabled: true,
        splitting_enabled: true,
        governance_enabled: true,
        dispute_timeout_days: 7,
        min_arbitrator_reputation: 50,
    }
}

fn ready() -> (AdvancedPaymentSystem, AdvancedPaymentEnv) {
    let mut env = AdvancedPaymentEnv::new(10, 1_000, addr(b'C'));
    let mut system = AdvancedPaymentSystem::new();
    system.initialize(&mut env, &addr(1), &addr(2), config()).unwrap();
    (system, env)
}

#[test]
fn test_initialize() {
    let mut env = AdvancedPaymentEnv::new(10, 1_000, addr(b'C'));
    let mut system = AdvancedPaymentSystem::new();
    let admin = addr(1);
    let token = addr(2);
    system.initialize(&mut env, &admin, &token, config()).unwrap();
    assert_eq!(system.get_admin(), Ok(admin));
    assert_eq!(system.get_config().unwrap().escrow_enabled, true);
}

#[test]
fn test_create_escrow() {
    let (mut system, mut env) = ready();
    let id = BytesN::from_array([1u8; 32]);
    let (buyer, seller) = (addr(3), addr(4));
    system.create_escrow(&mut env, &id, &buyer, &seller, 500).unwrap();
    let escrow = system.get_escrow(&id).unwrap();
    assert_eq!(escrow.state, EscrowState::Locked);
    assert_eq!(escrow.amount, 500);
    assert_eq!(escrow.created_at, 1_000);
}

#[test]
fn test_proposal_creation() {
    let (mut system, mut env) = ready();
    let proposer = addr(5);
    let payload = Bytes::new();
    let description = Bytes::new();
    let proposal_id = system.create_proposal(&mut env, &proposer, payload, &description).unwrap();
    assert_eq!(proposal_id, 1);
}

#[test]
fn advanced_second_initialize_fails_after_auth() {
    let (mut system, mut env) = ready();
    let auths = env.auths.len();
    assert_eq!(
        system.initialize(&mut env, &addr(9), &addr(2), config()),
        Err(AdvancedPaymentError::AlreadyInitialized)
    );
    assert_eq!(env.auths.len(), auths + 1);
    assert_eq!(system.get_admin(), Ok(addr(1)));
}

#[test]
fn advanced_escrow_is_released_once() {
    let (mut system, mut env) = ready();
    let id = BytesN::from_array([1u8; 32]);
    let (buyer, seller) = (addr(3), addr(4));
    system.create_escrow(&mut env, &id, &buyer, &seller, 500).unwrap();
    assert_eq!(
        system.create_escrow(&mut env, &id, &buyer, &seller, 500),
        Err(AdvancedPaymentError::InvalidState)
    );
    assert_eq!(
        system.release_escrow(&mut env, &id, &buyer),
        Err(AdvancedPaymentError::NotAuthorized)
    );
    let before = env.log.len();
    system.release_escrow(&mut env, &id, &seller).unwrap();
    let log = &env.log[before..];
    assert_eq!(log.len(), 4);
    assert!(matches!(log[0], Effect::Lock));
    assert!(matches!(log[1], Effect::Transfer { amount: 500, .. }));
    assert!(matches!(log[2], Effect::Event(AdvancedPaymentEvent::EscrowReleased { .. })));
    assert!(matches!(log[3], Effect::Unlock));
    assert_eq!(
        system.release_escrow(&mut env, &id, &seller),
        Err(AdvancedPaymentError::InvalidState)
    );
    assert_eq!(
        system.refund_escrow(&mut env, &id, &buyer),
        Err(AdvancedPaymentError::InvalidState)
    );
}

#[test]
fn advanced_escrow_refund_and_dispute() {
    let (mut system, mut env) = ready();
    let first = BytesN::from_array([1u8; 32]);
    let second = BytesN::from_array([2u8; 32]);
    let (buyer, seller) = (addr(3), addr(4));
    system.create_escrow(&mut env, &first, &buyer, &seller, 10).unwrap();
    system.create_escrow(&mut env, &second, &buyer, &seller, 20).unwrap();
    system.refund_escrow(&mut env, &first, &buyer).unwrap();
    assert_eq!(system.get_escrow(&first).unwrap().state, EscrowState::Refunded);
    assert_eq!(
        system.initiate_dispute(&mut env, &second, &addr(9), &vec![]),
        Err(AdvancedPaymentError::NotAuthorized)
    );
    system.initiate_dispute(&mut env, &second, &seller, &vec![addr(6), addr(7)]).unwrap();
    let escrow = system.get_escrow(&second).unwrap();
    assert_eq!(escrow.state, EscrowState::Disputed);
    assert_eq!(escrow.dispute_tier, 1);
    assert_eq!(
        system.get_escrow(&BytesN::from_array([9u8; 32])),
        Err(AdvancedPaymentError::EscrowNotFound)
    );
}

#[test]
fn advanced_disabled_parts_are_refused() {
    let mut env = AdvancedPaymentEnv::new(10, 1_000, addr(b'C'));
    let mut system = AdvancedPaymentSystem::new();
    let id = BytesN::from_array([1u8; 32]);
    assert_eq!(
        system.create_escrow(&mut env, &id, &addr(3), &addr(4), 5),
        Err(AdvancedPaymentError::NotInitialized)
    );
    let mut off = config();
    off.escrow_enabled = false;
    off.splitting_enabled = false;
    off.governance_enabled = false;
    system.initialize(&mut env, &addr(1), &addr(2), off).unwrap();
    assert_eq!(
        system.create_escrow(&mut env, &id, &addr(3), &addr(4), 0),
        Err(AdvancedPaymentError::InvalidAmount)
    );
    assert_eq!(
        system.create_escrow(&mut env, &id, &addr(3), &addr(4), 5),
        Err(AdvancedPaymentError::OperationNotAllowed)
    );
    assert_eq!(
        system.add_split_recipient(&mut env, &addr(3), 5),
        Err(AdvancedPaymentError::OperationNotAllowed)
    );
    assert_eq!(
        system.split_payment(&mut env, &addr(3), 5),
        Err(AdvancedPaymentError::OperationNotAllowed)
    );
    assert_eq!(
        system.create_proposal(&mut env, &addr(3), Bytes::new(), &Bytes::new()),
        Err(AdvancedPaymentError::OperationNotAllowed)
    );
}

#[test]
fn advanced_split_pays_rounded_parts() {
    let (mut system, mut env) = ready();
    assert_eq!(
        system.add_split_recipient(&mut env, &addr(5), 0),
        Err(AdvancedPaymentError::InvalidConfiguration)
    );
    assert_eq!(
        system.add_split_recipient(&mut env, &addr(5), 10_001),
        Err(AdvancedPaymentError::InvalidConfiguration)
    );
    system.add_split_recipient(&mut env, &addr(5), 3_333).unwrap();
    system.add_split_recipient(&mut env, &addr(6), 1).unwrap();
    assert_eq!(system.get_splits().len(), 2);
    let before = env.log.len();
    assert!(system.split_fits(1_000));
    system.split_payment(&mut env, &addr(3), 1_000).unwrap();
    let amounts: Vec<i128> = env.log[before..]
        .iter()
        .filter_map(|e| match e {
            Effect::Transfer { amount, .. } => Some(*amount),
            _ => None,
        })
        .collect();
    assert_eq!(amounts, vec![1_000, 333]);
    assert_eq!(system.total_in, 1_000);
    assert!(!system.split_fits(i128::MAX));
}

#[test]
fn advanced_votes_add_up() {
    let (mut system, mut env) = ready();
    let id = system.create_proposal(&mut env, &addr(5), Bytes::new(), &Bytes::new()).unwrap();
    system.voting_power.set(addr(6), 7);
    assert!(system.vote_fits(&addr(6), id, true));
    system.vote_on_proposal(&mut env, &addr(6), id, true).unwrap();
    system.vote_on_proposal(&mut env, &addr(7), id, false).unwrap();
    let proposal = system.get_proposal(id).unwrap();
    assert_eq!(proposal.for_votes, 7);
    assert_eq!(proposal.against_votes, 1);
    assert_eq!(
        system.vote_on_proposal(&mut env, &addr(6), 99, true),
        Err(AdvancedPaymentError::ProposalNotFound)
    );
    system.voting_power.set(addr(6), i128::MAX);
    assert!(!system.vote_fits(&addr(6), id, true));
}

#[test]
fn advanced_guard_refuses_calls() {
    let (mut system, mut env) = ready();
    system.guard_held = true;
    let id = BytesN::from_array([1u8; 32]);
    let logged = env.log.len();
    let asked = env.auths.len();
    assert_eq!(
        system.create_escrow(&mut env, &id, &addr(3), &addr(4), 5),
        Err(AdvancedPaymentError::Reentrant)
    );
    assert_eq!(
        system.split_payment(&mut env, &addr(3), 5),
        Err(AdvancedPaymentError::Reentrant)
    );
    assert_eq!(env.log.len(), logged);
    assert_eq!(env.auths.len(), asked);
    assert_eq!(AdvancedPaymentError::Reentrant.code(), 12);
}
