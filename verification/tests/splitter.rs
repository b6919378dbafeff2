use blinks::address::Address;
use blinks::env::Effect;
use blinks::splitter::ConditionType;
use blinks::splitter::Error;
use blinks::splitter::PaymentSplitter;
use blinks::splitter::Split;
use blinks::splitter::SplitKind;
use blinks::splitter::SplitterEnv;
use blinks::splitter::SplitterEvent;

fn addr(n: u8) -> Address {
    Address::from_text([n; 56])
}

fn part(n: u8, kind: SplitKind) -> Split {
    Split { recipient: addr(n), kind, total_received: 0 }
}

fn ready(splits: Vec<Split>) -> (PaymentSplitter, SplitterEnv) {
    let mut env = SplitterEnv::new(100, 1, addr(b'C'));
    let mut splitter = PaymentSplitter::new();
    splitter.initialize(&mut env, &addr(1), &addr(2), splits).unwrap();
    (splitter, env)
}

fn transfers(env: &SplitterEnv, from: usize) -> Vec<(u8, u8, i128)> {
    env.log[from..]
        .iter()
        .filter_map(|e| match e {
            Effect::Transfer { from, to, amount, .. } => {
                Some((from.text[0], to.text[0], *amount))
            }
            _ => None,
        })
        .collect()
}

#[test]
fn splitter_dust_goes_to_first_percentage() {
    let (mut splitter, mut env) = ready(vec![
        part(10, SplitKind::Fixed(100)),
        part(11, SplitKind::Percentage(3_333)),
        part(12, SplitKind::Percentage(3_333)),
        part(13, SplitKind::Percentage(3_334)),
    ]);
    let before = env.log.len();
    assert!(splitter.split_fits(1_000));
    splitter.split(&mut env, &addr(3), 1_000).unwrap();
    assert_eq!(
        transfers(&env, before),
        vec![(3, b'C', 1_000), (b'C', 10, 100), (b'C', 11, 301), (b'C', 12, 299), (b'C', 13, 300)]
    );
    let received: Vec<i128> =
        splitter.get_splits().unwrap().iter().map(|s| s.total_received).collect();
    assert_eq!(received, vec![100, 301, 299, 300]);
    assert_eq!(splitter.get_total_in(), Ok(1_000));
    assert!(matches!(
        env.log.last(),
        Some(Effect::Event(SplitterEvent::Split { amount: 1_000, .. }))
    ));
}

#[test]
fn splitter_fixed_only_keeps_the_rest() {
    let (mut splitter, mut env) =
        ready(vec![part(10, SplitKind::Fixed(60)), part(11, SplitKind::Fixed(40))]);
    let before = env.log.len();
    splitter.split(&mut env, &addr(3), 150).unwrap();
    assert_eq!(transfers(&env, before), vec![(3, b'C', 150), (b'C', 10, 60), (b'C', 11, 40)]);
    let logged = env.log.len();
    assert_eq!(splitter.split(&mut env, &addr(3), 99), Err(Error::InsufficientForFixed));
    assert_eq!(env.log.len(), logged);
    assert_eq!(splitter.get_total_in(), Ok(150));
}

#[test]
fn splitter_rejects_bad_lists() {
    assert_eq!(PaymentSplitter::validate_splits(&vec![]), Err(Error::EmptyRecipients));
    assert_eq!(
        PaymentSplitter::validate_splits(&vec![part(1, SplitKind::Percentage(0))]),
        Err(Error::InvalidShares)
    );
    assert_eq!(
        PaymentSplitter::validate_splits(&vec![part(1, SplitKind::Percentage(10_001))]),
        Err(Error::InvalidShares)
    );
    assert_eq!(
        PaymentSplitter::validate_splits(&vec![part(1, SplitKind::Percentage(9_999))]),
        Err(Error::InvalidShares)
    );
    assert_eq!(
        PaymentSplitter::validate_splits(&vec![
            part(1, SplitKind::Fixed(0)),
            part(2, SplitKind::Percentage(0))
        ]),
        Err(Error::InvalidFixedAmount)
    );
    assert_eq!(
        PaymentSplitter::validate_splits(&vec![
            part(1, SplitKind::Percentage(9_999)),
            part(2, SplitKind::Percentage(1))
        ]),
        Ok(())
    );
    assert_eq!(PaymentSplitter::validate_splits(&vec![part(1, SplitKind::Fixed(7))]), Ok(()));
}

#[test]
fn splitter_before_initialization() {
    let mut env = SplitterEnv::new(100, 1, addr(b'C'));
    let mut splitter = PaymentSplitter::new();
    assert_eq!(splitter.split(&mut env, &addr(3), 0), Err(Error::ZeroAmount));
    assert_eq!(splitter.split(&mut env, &addr(3), 5), Err(Error::NotInitialized));
    assert_eq!(splitter.get_admin(), Err(Error::NotInitialized));
    assert!(splitter.get_splits().is_err());
    assert_eq!(splitter.process_scheduled_splits(&mut env), Err(Error::NotInitialized));
    assert_eq!(
        splitter.set_splits(&mut env, vec![part(1, SplitKind::Fixed(1))]),
        Err(Error::NotInitialized)
    );
}

#[test]
fn splitter_administration() {
    let (mut splitter, mut env) = ready(vec![part(10, SplitKind::Percentage(10_000))]);
    assert_eq!(
        splitter.initialize(&mut env, &addr(9), &addr(2), vec![part(1, SplitKind::Fixed(1))]),
        Err(Error::AlreadyInitialized)
    );
    splitter.transfer_admin(&mut env, &addr(4)).unwrap();
    assert_eq!(splitter.get_admin(), Ok(addr(4)));
    splitter.set_splits(&mut env, vec![part(12, SplitKind::Fixed(1))]).unwrap();
    assert_eq!(env.auths.last(), Some(&addr(4)));
    assert_eq!(splitter.set_splits(&mut env, vec![]), Err(Error::EmptyRecipients));
    assert_eq!(splitter.get_splits().unwrap().len(), 1);
}

#[test]
fn splitter_schedules_pay_once_per_period() {
    let (mut splitter, mut env) = ready(vec![part(10, SplitKind::Percentage(10_000))]);
    assert_eq!(
        splitter.add_scheduled_split(&mut env, &addr(20), 5, 0, 1),
        Err(Error::InvalidFixedAmount)
    );
    splitter.add_scheduled_split(&mut env, &addr(20), 5, 10, 2).unwrap();
    splitter.add_scheduled_split(&mut env, &addr(21), 7, 100, 1).unwrap();
    let before = env.log.len();
    env.sequence = 109;
    assert_eq!(splitter.process_scheduled_splits(&mut env), Ok(0));
    env.sequence = 145;
    assert_eq!(splitter.process_scheduled_splits(&mut env), Ok(1));
    assert_eq!(splitter.process_scheduled_splits(&mut env), Ok(0));
    env.sequence = 200;
    assert_eq!(splitter.process_scheduled_splits(&mut env), Ok(2));
    assert!(splitter.get_scheduled_splits().unwrap().is_empty());
    assert_eq!(
        transfers(&env, before),
        vec![(b'C', 20, 5), (b'C', 20, 5), (b'C', 21, 7)]
    );
}

#[test]
fn splitter_conditions_come_first() {
    let (mut splitter, mut env) = ready(vec![
        part(10, SplitKind::Fixed(50)),
        part(11, SplitKind::Percentage(10_000)),
    ]);
    assert_eq!(
        splitter.add_conditional_split(&mut env, &addr(30), ConditionType::TimeWindow, 0, 0),
        Err(Error::InvalidShares)
    );
    splitter
        .add_conditional_split(&mut env, &addr(30), ConditionType::MinimumAmount, 1_000, 1_000)
        .unwrap();
    splitter
        .add_conditional_split(&mut env, &addr(31), ConditionType::MaximumAmount, 999, 5_000)
        .unwrap();
    splitter
        .add_conditional_split(&mut env, &addr(32), ConditionType::TimeWindow, 0, 1)
        .unwrap();
    assert_eq!(splitter.get_conditional_splits().unwrap().len(), 3);
    let before = env.log.len();
    assert!(splitter.conditional_split_fits(1_000));
    splitter.split_with_conditions(&mut env, &addr(3), 1_000).unwrap();
    assert_eq!(
        transfers(&env, before),
        vec![(3, b'C', 1_000), (b'C', 30, 100), (b'C', 32, 0), (b'C', 10, 50), (b'C', 11, 850)]
    );
    assert!(matches!(
        env.log.last(),
        Some(Effect::Event(SplitterEvent::ConditionalSplit { conditional_amount: 100, .. }))
    ));
    let logged = env.log.len();
    assert_eq!(
        splitter.split_with_conditions(&mut env, &addr(3), 90),
        Err(Error::InsufficientForFixed)
    );
    assert_eq!(env.log.len(), logged);
}

#[test]
fn splitter_sizes_that_do_not_fit() {
    let (splitter, _) = ready(vec![part(10, SplitKind::Percentage(10_000))]);
    assert!(!splitter.split_fits(i128::MAX));
    assert!(splitter.split_fits(i128::MAX / 10_000));
    assert!(!splitter.conditional_split_fits(i128::MAX));
}

#[test]
fn splitter_error_numbers() {
    assert_eq!(Error::AlreadyInitialized.code(), 1);
    assert_eq!(Error::Unauthorized.code(), 3);
    assert_eq!(Error::InvalidFixedAmount.code(), 8);
    assert_eq!(SplitterEvent::SplitsUpdated { count: 1 }.topics(), ("splitter", "splits_up"));
}
