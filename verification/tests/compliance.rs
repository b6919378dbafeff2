use blinks::address::Address;
use blinks::compliance::compute_overall;
use blinks::compliance::score_to_risk_level;
use blinks::compliance::ComplianceEnv;
use blinks::compliance::ComplianceError;
use blinks::compliance::ComplianceEvent;
use blinks::compliance::ComplianceScore;
use blinks::compliance::DataKey;
use blinks::compliance::DimensionScores;
use blinks::compliance::PaymentComplianceScoring;
use blinks::compliance::RiskLevel;
use blinks::compliance::ScoringWeights;
use blinks::compliance::BLOCKED_THRESHOLD;
use blinks::compliance::HIGH_THRESHOLD;
use blinks::compliance::MAX_SCORE;
use blinks::compliance::MEDIUM_THRESHOLD;
use blinks::env::Effect;

fn addr(n: u8) -> Address {
    Address::from_text([n; 56])
}

fn low_dims() -> DimensionScores {
    DimensionScores { velocity: 10, amount: 5, pattern: 0, counterparty: 5, geo: 10, history: 0 }
}

fn high_dims() -> DimensionScores {
    DimensionScores {
        velocity: 90,
        amount: 95,
        pattern: 80,
        counterparty: 85,
        geo: 70,
        history: 90,
    }
}

fn blocked_dims() -> DimensionScores {
    DimensionScores {
        velocity: 90,
        amount: 90,
        pattern: 90,
        counterparty: 90,
        geo: 90,
        history: 90,
    }
}

const ADMIN: u8 = b'A';
const SCORER: u8 = b'S';

struct Setup {
    env: ComplianceEnv,
    contract: PaymentComplianceScoring,
    scorer: Address,
    next: u8,
}

impl Setup {
    fn new() -> Self {
        let mut env = ComplianceEnv::new(1_000, 5_000, addr(b'C'));
        let mut contract = PaymentComplianceScoring::new();
        contract.initialize(&mut env, &addr(ADMIN)).unwrap();
        contract.add_scorer(&mut env, &addr(SCORER)).unwrap();
        Setup { env, contract, scorer: addr(SCORER), next: 0 }
    }

    fn payer(&mut self) -> Address {
        self.next += 1;
        addr(self.next)
    }

    fn score(
        &mut self,
        payment_id: u64,
        payer: &Address,
        amount: i128,
        dims: DimensionScores,
    ) -> ComplianceScore {
        let scorer = self.scorer;
        self.contract
            .score_payment(&mut self.env, &scorer, payment_id, payer, amount, dims)
            .unwrap()
    }
}

#[test]
fn test_test_initialize() {
    let s = Setup::new();
    assert!(!s.contract.is_paused());
    assert_eq!(s.contract.get_version(), 1);
}

#[test]
fn test_double_initialize_rejected() {
    let mut s = Setup::new();
    let admin2 = s.payer();
    assert_eq!(
        s.contract.initialize(&mut s.env, &admin2),
        Err(ComplianceError::AlreadyInitialized)
    );
}

#[test]
fn test_add_remove_scorer() {
    let mut s = Setup::new();
    let new_scorer = s.payer();
    assert!(!s.contract.is_scorer(&new_scorer));
    s.contract.add_scorer(&mut s.env, &new_scorer).unwrap();
    assert!(s.contract.is_scorer(&new_scorer));
    s.contract.remove_scorer(&mut s.env, &new_scorer).unwrap();
    assert!(!s.contract.is_scorer(&new_scorer));
}

#[test]
fn test_add_duplicate_scorer_rejected() {
    let mut s = Setup::new();
    let scorer = s.scorer;
    assert_eq!(
        s.contract.add_scorer(&mut s.env, &scorer),
        Err(ComplianceError::ScorerAlreadyAdded)
    );
}

#[test]
fn test_remove_unknown_scorer_rejected() {
    let mut s = Setup::new();
    let unknown = s.payer();
    assert_eq!(
        s.contract.remove_scorer(&mut s.env, &unknown),
        Err(ComplianceError::ScorerNotFound)
    );
}

#[test]
fn test_unauthorized_scorer_rejected() {
    let mut s = Setup::new();
    let fake = s.payer();
    let payer = s.payer();
    assert_eq!(
        s.contract.score_payment(&mut s.env, &fake, 1, &payer, 1_000_000, low_dims()),
        Err(ComplianceError::Unauthorized)
    );
}

#[test]
fn test_add_remove_blocklist() {
    let mut s = Setup::new();
    let who = s.payer();
    assert!(!s.contract.is_blocklisted(&who));
    s.contract.add_to_blocklist(&mut s.env, &who).unwrap();
    assert!(s.contract.is_blocklisted(&who));
    s.contract.remove_from_blocklist(&mut s.env, &who).unwrap();
    assert!(!s.contract.is_blocklisted(&who));
}

#[test]
fn test_add_duplicate_blocklist_rejected() {
    let mut s = Setup::new();
    let who = s.payer();
    s.contract.add_to_blocklist(&mut s.env, &who).unwrap();
    assert_eq!(
        s.contract.add_to_blocklist(&mut s.env, &who),
        Err(ComplianceError::AddressAlreadyBlocklisted)
    );
}

#[test]
fn test_remove_unknown_blocklist_rejected() {
    let mut s = Setup::new();
    let who = s.payer();
    assert_eq!(
        s.contract.remove_from_blocklist(&mut s.env, &who),
        Err(ComplianceError::AddressNotBlocklisted)
    );
}

#[test]
fn test_blocklisted_payer_gets_max_score() {
    let mut s = Setup::new();
    let payer = s.payer();
    s.contract.add_to_blocklist(&mut s.env, &payer).unwrap();
    let score = s.score(1, &payer, 500_000, low_dims());
    assert_eq!(score.overall_score, MAX_SCORE);
    assert_eq!(score.risk_level, RiskLevel::Blocked);
    assert!(score.blocklisted);
}

#[test]
fn test_low_risk_score() {
    let mut s = Setup::new();
    let payer = s.payer();
    let score = s.score(1, &payer, 100_000, low_dims());
    assert!(score.overall_score < MEDIUM_THRESHOLD);
    assert_eq!(score.overall_score, 5);
    assert_eq!(score.risk_level, RiskLevel::Low);
    assert!(!score.blocklisted);
}

#[test]
fn test_high_risk_score() {
    let mut s = Setup::new();
    let payer = s.payer();
    let score = s.score(2, &payer, 5_000_000, high_dims());
    assert!(score.overall_score >= HIGH_THRESHOLD);
    assert!(matches!(score.risk_level, RiskLevel::High | RiskLevel::Blocked));
}

#[test]
fn test_blocked_risk_score() {
    let mut s = Setup::new();
    let payer = s.payer();
    let score = s.score(3, &payer, 10_000_000, blocked_dims());
    assert!(score.overall_score >= BLOCKED_THRESHOLD);
    assert_eq!(score.risk_level, RiskLevel::Blocked);
}

#[test]
fn test_medium_risk_score() {
    let mut s = Setup::new();
    let payer = s.payer();
    let dims = DimensionScores {
        velocity: 40,
        amount: 35,
        pattern: 30,
        counterparty: 40,
        geo: 35,
        history: 30,
    };
    let score = s.score(4, &payer, 200_000, dims);
    assert!(score.overall_score >= MEDIUM_THRESHOLD);
    assert!(score.overall_score < HIGH_THRESHOLD);
    assert_eq!(score.risk_level, RiskLevel::Medium);
}

#[test]
fn test_invalid_dimension_score_rejected() {
    let mut s = Setup::new();
    let payer = s.payer();
    let scorer = s.scorer;
    let bad_dims = DimensionScores {
        velocity: 101,
        amount: 0,
        pattern: 0,
        counterparty: 0,
        geo: 0,
        history: 0,
    };
    assert_eq!(
        s.contract.score_payment(&mut s.env, &scorer, 5, &payer, 100_000, bad_dims),
        Err(ComplianceError::InvalidScore)
    );
}

#[test]
fn test_score_stored_and_retrievable() {
    let mut s = Setup::new();
    let payer = s.payer();
    let payment_id = 42u64;
    let score = s.score(payment_id, &payer, 300_000, low_dims());
    let retrieved = s.contract.get_payment_score(payment_id).unwrap();
    assert_eq!(retrieved.payment_id, score.payment_id);
    assert_eq!(retrieved.overall_score, score.overall_score);
    assert_eq!(retrieved.risk_level, score.risk_level);
}

#[test]
fn test_get_nonexistent_payment_score_panics() {
    let s = Setup::new();
    assert_eq!(s.contract.get_payment_score(9999), Err(ComplianceError::PaymentNotFound));
}

#[test]
fn test_payer_history_accumulates() {
    let mut s = Setup::new();
    let payer = s.payer();
    s.score(1, &payer, 100_000, low_dims());
    s.score(2, &payer, 200_000, low_dims());
    let history = s.contract.get_payer_history(&payer);
    assert_eq!(history.total_scored, 2);
}

#[test]
fn test_payer_history_blocked_count() {
    let mut s = Setup::new();
    let payer = s.payer();
    s.score(1, &payer, 100_000, blocked_dims());
    s.score(2, &payer, 100_000, low_dims());
    let history = s.contract.get_payer_history(&payer);
    assert_eq!(history.total_blocked, 1);
    assert_eq!(history.total_scored, 2);
}

#[test]
fn test_payer_average_score() {
    let mut s = Setup::new();
    let payer = s.payer();
    let s1 = s.score(1, &payer, 100_000, low_dims());
    let s2 = s.score(2, &payer, 100_000, low_dims());
    let avg = s.contract.get_payer_average_score(&payer);
    let expected = (s1.overall_score + s2.overall_score) / 2;
    assert!(avg.abs_diff(expected) <= 1);
}

#[test]
fn test_new_payer_average_score_is_zero() {
    let mut s = Setup::new();
    let payer = s.payer();
    assert_eq!(s.contract.get_payer_average_score(&payer), 0);
}

#[test]
fn test_custom_weights_change_overall_score() {
    let mut s = Setup::new();
    let payer1 = s.payer();
    let payer2 = s.payer();
    let dims = DimensionScores {
        velocity: 80,
        amount: 10,
        pattern: 10,
        counterparty: 10,
        geo: 10,
        history: 10,
    };
    let score_default = s.score(1, &payer1, 100_000, dims);
    let heavy_velocity = ScoringWeights {
        velocity: 10,
        amount: 1,
        pattern: 1,
        counterparty: 1,
        geo: 1,
        history: 1,
    };
    s.contract.set_weights(&mut s.env, heavy_velocity).unwrap();
    let score_heavy = s.score(2, &payer2, 100_000, dims);
    assert!(score_heavy.overall_score > score_default.overall_score);
}

#[test]
fn test_zero_weight_rejected() {
    let mut s = Setup::new();
    let bad_weights = ScoringWeights {
        velocity: 0,
        amount: 1,
        pattern: 1,
        counterparty: 1,
        geo: 1,
        history: 1,
    };
    assert_eq!(
        s.contract.set_weights(&mut s.env, bad_weights),
        Err(ComplianceError::InvalidWeight)
    );
}

#[test]
fn test_compute_overall_equal_weights() {
    let dims = DimensionScores {
        velocity: 60,
        amount: 60,
        pattern: 60,
        counterparty: 60,
        geo: 60,
        history: 60,
    };
    let weights = ScoringWeights::default_weights();
    assert_eq!(compute_overall(&dims, &weights), 60);
}

#[test]
fn test_compute_overall_mixed() {
    let dims = DimensionScores {
        velocity: 0,
        amount: 100,
        pattern: 0,
        counterparty: 0,
        geo: 0,
        history: 0,
    };
    let weights = ScoringWeights::default_weights();
    assert_eq!(compute_overall(&dims, &weights), 16);
}

#[test]
fn test_score_to_risk_level_boundaries() {
    assert_eq!(score_to_risk_level(0), RiskLevel::Low);
    assert_eq!(score_to_risk_level(29), RiskLevel::Low);
    assert_eq!(score_to_risk_level(30), RiskLevel::Medium);
    assert_eq!(score_to_risk_level(59), RiskLevel::Medium);
    assert_eq!(score_to_risk_level(60), RiskLevel::High);
    assert_eq!(score_to_risk_level(84), RiskLevel::High);
    assert_eq!(score_to_risk_level(85), RiskLevel::Blocked);
    assert_eq!(score_to_risk_level(100), RiskLevel::Blocked);
}

#[test]
fn test_pause_blocks_scoring() {
    let mut s = Setup::new();
    s.contract.pause(&mut s.env).unwrap();
    let payer = s.payer();
    let scorer = s.scorer;
    assert_eq!(
        s.contract.score_payment(&mut s.env, &scorer, 1, &payer, 100_000, low_dims()),
        Err(ComplianceError::ContractPaused)
    );
}

#[test]
fn test_unpause_restores_scoring() {
    let mut s = Setup::new();
    s.contract.pause(&mut s.env).unwrap();
    s.contract.unpause(&mut s.env).unwrap();
    let payer = s.payer();
    s.score(1, &payer, 100_000, low_dims());
}

#[test]
fn test_transfer_admin() {
    let mut s = Setup::new();
    let new_admin = s.payer();
    s.contract.transfer_admin(&mut s.env, &new_admin).unwrap();
    assert_eq!(s.contract.get_admin(), Ok(new_admin));
}

#[test]
fn compliance_uninitialized_calls_fail() {
    let mut env = ComplianceEnv::new(1, 1, addr(b'C'));
    let mut contract = PaymentComplianceScoring::new();
    assert_eq!(contract.pause(&mut env), Err(ComplianceError::NotInitialized));
    assert_eq!(contract.get_admin(), Err(ComplianceError::NotInitialized));
    assert_eq!(contract.add_scorer(&mut env, &addr(1)), Err(ComplianceError::NotInitialized));
    assert!(env.auths.is_empty());
    assert!(env.log.is_empty());
}

#[test]
fn compliance_error_numbers() {
    assert_eq!(ComplianceError::AlreadyInitialized.code(), 1);
    assert_eq!(ComplianceError::AddressNotBlocklisted.code(), 11);
    assert_eq!(RiskLevel::Low.code(), 0);
    assert_eq!(RiskLevel::Blocked.code(), 3);
}

#[test]
fn compliance_scoring_effects_in_order() {
    let mut s = Setup::new();
    let payer = s.payer();
    let before = s.env.log.len();
    s.score(7, &payer, 1, high_dims());
    let log = &s.env.log[before..];
    assert_eq!(log.len(), 4);
    assert!(matches!(log[0], Effect::ExtendInstance));
    assert!(matches!(log[1], Effect::ExtendEntry(DataKey::PaymentScore(7))));
    assert!(matches!(log[2], Effect::ExtendEntry(DataKey::PayerHistory(_))));
    match &log[3] {
        Effect::Event(event) => {
            assert_eq!(
                *event,
                ComplianceEvent::Scored { payment_id: 7, payer, overall_score: 85, risk_level: 3 }
            );
            assert_eq!(event.topics(), ("comply", "scored"));
        }
        _ => panic!("expected an event"),
    }
    assert_eq!(s.env.auths.last(), Some(&s.scorer));
}

#[test]
fn compliance_weighted_average_value() {
    let dims = DimensionScores {
        velocity: 80,
        amount: 10,
        pattern: 10,
        counterparty: 10,
        geo: 10,
        history: 10,
    };
    let weights = ScoringWeights {
        velocity: 10,
        amount: 1,
        pattern: 1,
        counterparty: 1,
        geo: 1,
        history: 1,
    };
    assert_eq!(weights.total(), 15);
    assert!(weights.total_fits());
    assert_eq!(compute_overall(&dims, &weights), 56);
}

#[test]
fn compliance_huge_weights_do_not_fit() {
    let weights = ScoringWeights {
        velocity: u32::MAX,
        amount: 1,
        pattern: 1,
        counterparty: 1,
        geo: 1,
        history: 1,
    };
    assert!(!weights.total_fits());
}

#[test]
fn compliance_largest_scores_do_not_overflow() {
    let dims = DimensionScores {
        velocity: u32::MAX,
        amount: u32::MAX,
        pattern: u32::MAX,
        counterparty: u32::MAX,
        geo: u32::MAX,
        history: u32::MAX,
    };
    let weights = ScoringWeights {
        velocity: u32::MAX,
        amount: 0,
        pattern: 0,
        counterparty: 0,
        geo: 0,
        history: 0,
    };
    assert_eq!(compute_overall(&dims, &weights), u32::MAX);
}

#[test]
fn compliance_no_weight_scores_zero() {
    let weights = ScoringWeights {
        velocity: 0,
        amount: 0,
        pattern: 0,
        counterparty: 0,
        geo: 0,
        history: 0,
    };
    assert_eq!(compute_overall(&high_dims(), &weights), 0);
}

fn even_dims(score: u32) -> DimensionScores {
    DimensionScores {
        velocity: score,
        amount: score,
        pattern: score,
        counterparty: score,
        geo: score,
        history: score,
    }
}

#[test]
fn compliance_history_over_a_run() {
    let mut s = Setup::new();
    let payer = s.payer();
    let other = s.payer();
    let bystander = s.payer();
    s.score(90, &bystander, 1, even_dims(33));
    let untouched = s.contract.get_payer_history(&bystander);
    let scores = [
        BLOCKED_THRESHOLD,
        HIGH_THRESHOLD,
        10,
        MEDIUM_THRESHOLD,
        HIGH_THRESHOLD + 1,
        MAX_SCORE,
        0,
    ];
    let mut sum: u32 = 0;
    for (i, score) in scores.iter().enumerate() {
        s.env.sequence = 2_000 + 10 * i as u32;
        s.score(i as u64, &payer, 100, even_dims(*score));
        sum += score;
        s.env.sequence += 1;
        s.score(100 + i as u64, &other, 100, even_dims(100 - score));
    }
    let history = s.contract.get_payer_history(&payer);
    assert_eq!(history.total_scored, 7);
    assert_eq!(history.total_blocked, 2);
    assert_eq!(history.total_high, 2);
    assert_eq!(history.total_medium, 1);
    assert_eq!(history.score_sum, sum as u64);
    assert_eq!(history.last_scored_at, 2_060);
    assert_eq!(s.contract.get_payer_average_score(&payer), sum / 7);
    assert_eq!(s.contract.get_payer_history(&other).score_sum, (700 - sum) as u64);
    assert_eq!(s.contract.get_payer_history(&other).last_scored_at, 2_061);
    let after = s.contract.get_payer_history(&bystander);
    assert_eq!(after.total_scored, untouched.total_scored);
    assert_eq!(after.score_sum, 33);
    assert_eq!(after.last_scored_at, 1_000);
}

#[test]
fn compliance_weights_are_normalised() {
    let dims = DimensionScores {
        velocity: 80,
        amount: 11,
        pattern: 7,
        counterparty: 93,
        geo: 10,
        history: 42,
    };
    for k in [1u32, 2, 7, 1_000] {
        let weights = ScoringWeights {
            velocity: 10 * k,
            amount: k,
            pattern: 3 * k,
            counterparty: 2 * k,
            geo: k,
            history: 5 * k,
        };
        assert_eq!(compute_overall(&dims, &weights), 56);
    }
}

#[test]
fn compliance_weightless_dimensions_have_no_say() {
    let weights = ScoringWeights {
        velocity: 3,
        amount: 0,
        pattern: 0,
        counterparty: 5,
        geo: 0,
        history: 0,
    };
    let dims = DimensionScores { velocity: 40, counterparty: 48, ..even_dims(100) };
    assert_eq!(compute_overall(&dims, &weights), 45);
    let dims = DimensionScores { velocity: 40, counterparty: 48, ..even_dims(0) };
    assert_eq!(compute_overall(&dims, &weights), 45);
}
