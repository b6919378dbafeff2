use blinks::address::Address;
use blinks::address::BytesN;
use blinks::env::Effect;
use blinks::limits::LimitConfig;
use blinks::limits::LimitEnv;
use blinks::limits::LimitError;
use blinks::limits::LimitEvent;
use blinks::limits::PaymentLimits;
use blinks::limits::SpendWindow;
use blinks::limits::LEDGERS_PER_DAY;

fn addr(n: u8) -> Address {
    Address::from_text([n; 56])
}

fn config() -> LimitConfig {
    LimitConfig { user_tx_limit: 100, user_daily_limit: 250, global_daily_limit: 400 }
}

fn ready() -> (PaymentLimits, LimitEnv) {
    let mut env = LimitEnv::new(50_000, 1, addr(b'C'));
    let mut contract = PaymentLimits::new();
    contract.initialize(&mut env, &addr(1), config()).unwrap();
    (contract, env)
}

#[test]
fn limits_are_enforced_in_order() {
    let (mut contract, mut env) = ready();
    assert_eq!(
        contract.check_and_record(&mut env, &addr(3), 0),
        Err(LimitError::InvalidAmount)
    );
    assert_eq!(
        contract.check_and_record(&mut env, &addr(3), 101),
        Err(LimitError::TxLimitExceeded)
    );
    assert_eq!(contract.check_and_record(&mut env, &addr(3), 100), Ok(true));
    assert_eq!(contract.check_and_record(&mut env, &addr(3), 100), Ok(true));
    assert_eq!(
        contract.check_and_record(&mut env, &addr(3), 51),
        Err(LimitError::UserDailyLimitExceeded)
    );
    assert_eq!(contract.check_and_record(&mut env, &addr(3), 50), Ok(true));
    assert_eq!(contract.remaining_user_limit(&addr(3), 50_000), Ok(0));
    assert_eq!(contract.check_and_record(&mut env, &addr(4), 100), Ok(true));
    assert_eq!(
        contract.check_and_record(&mut env, &addr(4), 51),
        Err(LimitError::GlobalDailyLimitExceeded)
    );
    assert_eq!(contract.remaining_global_limit(50_000), Ok(50));
    assert_eq!(contract.remaining_user_limit(&addr(4), 50_000), Ok(150));
}

#[test]
fn limits_window_resets_after_a_day() {
    let (mut contract, mut env) = ready();
    contract.check_and_record(&mut env, &addr(3), 100).unwrap();
    let last = 50_000 + LEDGERS_PER_DAY - 1;
    assert_eq!(
        contract.get_user_window(&addr(3), last),
        SpendWindow { window_start: 50_000, spent: 100 }
    );
    assert_eq!(
        contract.get_user_window(&addr(3), last + 1),
        SpendWindow { window_start: last + 1, spent: 0 }
    );
    assert_eq!(
        contract.get_global_window(last + 1),
        SpendWindow { window_start: last + 1, spent: 0 }
    );
    match env.log.last() {
        Some(Effect::Event(event)) => assert_eq!(
            *event,
            LimitEvent::Recorded { payer: addr(3), amount: 100, user_spent: 100, global_spent: 100 }
        ),
        _ => panic!("expected an event"),
    }
}

#[test]
fn limits_whitelist_bypasses() {
    let (mut contract, mut env) = ready();
    contract.add_to_whitelist(&mut env, &addr(3)).unwrap();
    assert_eq!(
        contract.add_to_whitelist(&mut env, &addr(3)),
        Err(LimitError::AddressAlreadyWhitelisted)
    );
    assert!(contract.payment_fits(&addr(3), i128::MAX, 50_000));
    assert_eq!(contract.check_and_record(&mut env, &addr(3), i128::MAX), Ok(true));
    assert_eq!(contract.remaining_user_limit(&addr(3), 50_000), Ok(i128::MAX));
    assert_eq!(contract.get_user_window(&addr(3), 50_000).spent, 0);
    contract.remove_from_whitelist(&mut env, &addr(3)).unwrap();
    assert!(!contract.is_whitelisted(&addr(3)));
    assert_eq!(
        contract.remove_from_whitelist(&mut env, &addr(3)),
        Err(LimitError::AddressNotWhitelisted)
    );
}

#[test]
fn limits_configuration() {
    let (mut contract, mut env) = ready();
    let bad = LimitConfig { user_tx_limit: 1, user_daily_limit: 0, global_daily_limit: 1 };
    assert_eq!(contract.update_config(&mut env, bad), Err(LimitError::InvalidConfig));
    let small = LimitConfig { user_tx_limit: 1, user_daily_limit: 2, global_daily_limit: 3 };
    contract.check_and_record(&mut env, &addr(3), 100).unwrap();
    contract.update_config(&mut env, small).unwrap();
    assert_eq!(contract.get_config(), Ok(small));
    assert_eq!(contract.remaining_user_limit(&addr(3), 50_000), Ok(0));
    assert_eq!(
        contract.initialize(&mut env, &addr(1), small),
        Err(LimitError::AlreadyInitialized)
    );
    let mut fresh = PaymentLimits::new();
    assert_eq!(fresh.initialize(&mut env, &addr(1), bad), Err(LimitError::InvalidConfig));
    assert_eq!(fresh.get_config(), Err(LimitError::NotInitialized));
    assert_eq!(
        fresh.check_and_record(&mut env, &addr(1), 5),
        Err(LimitError::NotInitialized)
    );
    assert_eq!(fresh.pause(&mut env), Err(LimitError::NotInitialized));
}

#[test]
fn limits_pause_and_upgrade() {
    let (mut contract, mut env) = ready();
    contract.pause(&mut env).unwrap();
    assert!(contract.is_paused());
    assert_eq!(
        contract.check_and_record(&mut env, &addr(3), 5),
        Err(LimitError::ContractPaused)
    );
    contract.unpause(&mut env).unwrap();
    contract.upgrade(&mut env, &BytesN::from_array([1; 32])).unwrap();
    assert_eq!(contract.get_version(), 2);
    contract.transfer_admin(&mut env, &addr(8)).unwrap();
    assert_eq!(contract.get_admin(), Ok(addr(8)));
    assert_eq!(LimitError::AddressNotWhitelisted.code(), 11);
    assert_eq!(LimitEvent::ConfigUpdated.topics(), ("limits", "cfg_upd"));
}

#[test]
fn limits_hold_over_a_run() {
    let (mut contract, mut env) = ready();
    let mut sent = [0i128; 2];
    for step in 0..40u32 {
        env.sequence = 50_000 + step * 432;
        for user in 0..2u8 {
            let amount = 7 + (step as i128 * 13 + user as i128 * 29) % 60;
            if contract.check_and_record(&mut env, &addr(3 + user), amount).is_ok() {
                sent[user as usize] += amount;
            }
            contract.add_to_whitelist(&mut env, &addr(9)).ok();
            assert_eq!(contract.check_and_record(&mut env, &addr(9), 1_000_000), Ok(true));
        }
    }
    assert_eq!(env.sequence, 50_000 + LEDGERS_PER_DAY - 432);
    assert!(sent[0] > 0 && sent[0] <= 250);
    assert!(sent[1] > 0 && sent[1] <= 250);
    assert!(sent[0] + sent[1] <= 400);
    assert_eq!(contract.get_user_window(&addr(3), env.sequence).spent, sent[0]);
    assert_eq!(contract.get_user_window(&addr(4), env.sequence).spent, sent[1]);
    assert_eq!(contract.get_global_window(env.sequence).spent, sent[0] + sent[1]);
}
