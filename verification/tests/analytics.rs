use blinks::address::Address;
use blinks::address::BytesN;
use blinks::analytics::AnalyticsEnv;
use blinks::analytics::AnalyticsError;
use blinks::analytics::AnalyticsEvent;
use blinks::analytics::BucketStats;
use blinks::analytics::GlobalStats;
use blinks::analytics::MerchantStats;
use blinks::analytics::PaymentAnalytics;
use blinks::analytics::TokenStats;
use blinks::analytics::DEFAULT_BUCKET_SIZE;
use blinks::env::Effect;

const RECORDER: u8 = 2;

fn addr(n: u8) -> Address {
    Address::from_text([n; 56])
}

fn ready() -> (PaymentAnalytics, AnalyticsEnv) {
    let mut env = AnalyticsEnv::new(250, 1, addr(b'C'));
    let mut contract = PaymentAnalytics::new();
    contract.initialize(&mut env, &addr(1), 100).unwrap();
    contract.add_recorder(&mut env, &addr(RECORDER)).unwrap();
    (contract, env)
}

#[test]
fn analytics_counts_payments() {
    let (mut contract, mut env) = ready();
    let (token, shop) = (addr(10), addr(20));
    contract.record_payment(&mut env, &addr(RECORDER), &token, &shop, 500, 5).unwrap();
    contract.record_payment(&mut env, &addr(RECORDER), &token, &addr(21), 300, 0).unwrap();
    contract.record_failure(&mut env, &addr(RECORDER), &token, 40).unwrap();
    assert_eq!(
        contract.get_global_stats(),
        GlobalStats {
            total_payment_count: 2,
            total_volume: 800,
            total_fees: 5,
            total_failed_count: 1,
            largest_payment: 500
        }
    );
    assert_eq!(contract.get_token_stats(&token), TokenStats { token, volume: 800, count: 2 });
    assert_eq!(
        contract.get_merchant_stats(&shop),
        MerchantStats { merchant: shop, volume: 500, count: 1, fees: 5 }
    );
    assert_eq!(
        contract.get_current_bucket_stats(299),
        BucketStats { bucket_index: 2, volume: 800, count: 2 }
    );
    assert_eq!(contract.get_bucket_stats(3), BucketStats { bucket_index: 3, volume: 0, count: 0 });
    assert_eq!(contract.current_bucket_index(300), 3);
    assert!(matches!(
        env.log.last(),
        Some(Effect::Event(AnalyticsEvent::Failure { amount: 40, .. }))
    ));
}

#[test]
fn analytics_saturates() {
    let (mut contract, mut env) = ready();
    for _ in 0..2 {
        contract
            .record_payment(&mut env, &addr(RECORDER), &addr(10), &addr(20), i128::MAX, i128::MAX)
            .unwrap();
    }
    assert_eq!(contract.get_global_stats().total_volume, i128::MAX);
    assert_eq!(contract.get_merchant_stats(&addr(20)).fees, i128::MAX);
    assert_eq!(contract.get_token_stats(&addr(10)).count, 2);
}

#[test]
fn analytics_refusals() {
    let (mut contract, mut env) = ready();
    let (token, shop) = (addr(10), addr(20));
    assert_eq!(
        contract.record_payment(&mut env, &addr(9), &token, &shop, 1, 1),
        Err(AnalyticsError::Unauthorized)
    );
    assert_eq!(
        contract.record_payment(&mut env, &addr(RECORDER), &token, &shop, 0, 1),
        Err(AnalyticsError::InvalidAmount)
    );
    assert_eq!(
        contract.record_payment(&mut env, &addr(RECORDER), &token, &shop, 1, -1),
        Err(AnalyticsError::InvalidAmount)
    );
    assert_eq!(
        contract.record_failure(&mut env, &addr(RECORDER), &token, 0),
        Err(AnalyticsError::InvalidAmount)
    );
    assert_eq!(
        contract.add_recorder(&mut env, &addr(RECORDER)),
        Err(AnalyticsError::RecorderAlreadyAdded)
    );
    assert_eq!(
        contract.remove_recorder(&mut env, &addr(9)),
        Err(AnalyticsError::RecorderNotFound)
    );
    assert_eq!(
        contract.initialize(&mut env, &addr(1), 0),
        Err(AnalyticsError::AlreadyInitialized)
    );
    contract.pause(&mut env).unwrap();
    assert_eq!(
        contract.record_failure(&mut env, &addr(RECORDER), &token, 1),
        Err(AnalyticsError::ContractPaused)
    );
    contract.unpause(&mut env).unwrap();
    contract.remove_recorder(&mut env, &addr(RECORDER)).unwrap();
    assert!(!contract.is_recorder(&addr(RECORDER)));
    assert_eq!(
        PaymentAnalytics::new().pause(&mut env),
        Err(AnalyticsError::NotInitialized)
    );
}

#[test]
fn analytics_administration() {
    let (mut contract, mut env) = ready();
    contract.set_bucket_size(&mut env, 0).unwrap();
    assert_eq!(contract.get_bucket_size(), DEFAULT_BUCKET_SIZE);
    contract.set_bucket_size(&mut env, 7).unwrap();
    assert_eq!(contract.get_bucket_size(), 7);
    contract.upgrade(&mut env, &BytesN::from_array([1; 32])).unwrap();
    assert_eq!(contract.get_version(), 2);
    contract.transfer_admin(&mut env, &addr(8)).unwrap();
    assert_eq!(contract.get_admin(), Ok(addr(8)));
    assert!(!contract.is_paused());
    assert_eq!(AnalyticsError::RecorderNotFound.code(), 7);
    assert_eq!(AnalyticsEvent::Paused.topics(), ("analytics", "paused"));
}

#[test]
fn analytics_counters_add_up_over_a_run() {
    let (mut contract, mut env) = ready();
    let amounts = [10, 70, 30, 70, 5, 1];
    for (i, amount) in amounts.iter().enumerate() {
        env.sequence = 180 + 10 * i as u32;
        let token = addr(10 + (i % 2) as u8);
        let shop = addr(20 + (i % 3) as u8);
        contract
            .record_payment(&mut env, &addr(RECORDER), &token, &shop, *amount, i as i128)
            .unwrap();
    }
    assert_eq!(
        contract.get_global_stats(),
        GlobalStats {
            total_payment_count: 6,
            total_volume: 186,
            total_fees: 15,
            total_failed_count: 0,
            largest_payment: 70
        }
    );
    let token = addr(11);
    assert_eq!(contract.get_token_stats(&token), TokenStats { token, volume: 141, count: 3 });
    let merchant = addr(22);
    assert_eq!(
        contract.get_merchant_stats(&merchant),
        MerchantStats { merchant, volume: 31, count: 2, fees: 7 }
    );
    assert_eq!(contract.get_bucket_stats(1), BucketStats { bucket_index: 1, volume: 80, count: 2 });
    assert_eq!(contract.get_bucket_stats(2), BucketStats { bucket_index: 2, volume: 106, count: 4 });
}
