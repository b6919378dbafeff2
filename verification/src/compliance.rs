//! Compliance risk scores of payments.
//!
//! A payment is rated in six dimensions from 0 to 100, higher being riskier.
//! The overall score is their weighted average, and the risk level follows
//! from it.
use crate::address::Address;
use crate::address::BytesN;
use crate::env::Effect;
use crate::env::Env;
use crate::num::saturating_add_u32;
use crate::num::saturating_add_u64;
use crate::table::AddressSet;
use crate::table::Table;
use vstd::prelude::*;

verus! {

/// Default weight for each scoring dimension (equal weighting).
pub const DEFAULT_WEIGHT: u32 = 1;

/// Score from which a payment is blocked.
pub const BLOCKED_THRESHOLD: u32 = 85;

/// Score from which a payment is high risk.
pub const HIGH_THRESHOLD: u32 = 60;

/// Score from which a payment is medium risk.
pub const MEDIUM_THRESHOLD: u32 = 30;

/// Maximum score value.
pub const MAX_SCORE: u32 = 100;

/// Keys of the persistent entries.
#[derive(Clone, Copy, Debug, PartialEq, Eq)]
pub enum DataKey {
    /// An authorised scorer.
    Scorer(Address),
    /// A blocklisted address.
    Blocklist(Address),
    /// A payer's scoring history.
    PayerHistory(Address),
    /// The score of a payment.
    PaymentScore(u64),
}

/// Dimension weights used in the weighted average.
#[derive(Clone, Copy, Debug, PartialEq, Eq)]
pub struct ScoringWeights {
    pub velocity: u32,
    pub amount: u32,
    pub pattern: u32,
    pub counterparty: u32,
    pub geo: u32,
    pub history: u32,
}

impl ScoringWeights {
    /// The sum of the weights.
    pub open spec fn sum(self) -> int {
        self.velocity + self.amount + self.pattern + self.counterparty + self.geo + self.history
    }

    /// Whether every weight is at least one.
    pub open spec fn positive(self) -> bool {
        self.velocity > 0 && self.amount > 0 && self.pattern > 0 && self.counterparty > 0
            && self.geo > 0 && self.history > 0
    }

    /// Equal weights.
    pub open spec fn equal() -> ScoringWeights {
        ScoringWeights {
            velocity: DEFAULT_WEIGHT,
            amount: DEFAULT_WEIGHT,
            pattern: DEFAULT_WEIGHT,
            counterparty: DEFAULT_WEIGHT,
            geo: DEFAULT_WEIGHT,
            history: DEFAULT_WEIGHT,
        }
    }

    /// Equal weights.
    pub fn default_weights() -> (r: ScoringWeights)
        ensures
            r == ScoringWeights::equal(),
    {
        ScoringWeights {
            velocity: DEFAULT_WEIGHT,
            amount: DEFAULT_WEIGHT,
            pattern: DEFAULT_WEIGHT,
            counterparty: DEFAULT_WEIGHT,
            geo: DEFAULT_WEIGHT,
            history: DEFAULT_WEIGHT,
        }
    }

    /// The sum of the weights.
    pub fn total(&self) -> (r: u32)
        requires
            self.sum() <= u32::MAX,
        ensures
            r == self.sum(),
    {
        self.velocity + self.amount + self.pattern + self.counterparty + self.geo + self.history
    }

    /// Whether the sum of the weights fits a machine integer.
    pub fn total_fits(&self) -> (r: bool)
        ensures
            r == (self.sum() <= u32::MAX),
    {
        let sum: u64 = self.velocity as u64 + self.amount as u64 + self.pattern as u64
            + self.counterparty as u64 + self.geo as u64 + self.history as u64;
        sum <= u32::MAX as u64
    }
}

/// Raw per-dimension scores.
#[derive(Clone, Copy, Debug, PartialEq, Eq)]
pub struct DimensionScores {
    /// Frequency / velocity risk (0–100).
    pub velocity: u32,
    /// Amount-size risk (0–100).
    pub amount: u32,
    /// Structural pattern risk (0–100).
    pub pattern: u32,
    /// Counterparty risk (0–100).
    pub counterparty: u32,
    /// Geographic / jurisdiction risk (0–100).
    pub geo: u32,
    /// Historical dispute / failure risk (0–100).
    pub history: u32,
}

impl DimensionScores {
    /// Whether every score is at most `bound`.
    pub open spec fn at_most(self, bound: int) -> bool {
        self.velocity <= bound && self.amount <= bound && self.pattern <= bound
            && self.counterparty <= bound && self.geo <= bound && self.history <= bound
    }

    /// Whether every score is at least `bound`.
    pub open spec fn at_least(self, bound: int) -> bool {
        self.velocity >= bound && self.amount >= bound && self.pattern >= bound
            && self.counterparty >= bound && self.geo >= bound && self.history >= bound
    }

    /// Whether every score whose weight is above zero lies between the bounds.
    pub open spec fn weighed_between(self, w: ScoringWeights, low: int, high: int) -> bool {
        &&& w.velocity > 0 ==> low <= self.velocity <= high
        &&& w.amount > 0 ==> low <= self.amount <= high
        &&& w.pattern > 0 ==> low <= self.pattern <= high
        &&& w.counterparty > 0 ==> low <= self.counterparty <= high
        &&& w.geo > 0 ==> low <= self.geo <= high
        &&& w.history > 0 ==> low <= self.history <= high
    }

    /// Whether no score is above its counterpart.
    pub open spec fn below(self, other: DimensionScores) -> bool {
        self.velocity <= other.velocity && self.amount <= other.amount && self.pattern
            <= other.pattern && self.counterparty <= other.counterparty && self.geo <= other.geo
            && self.history <= other.history
    }
}

/// Risk level derived from the overall score.
#[derive(Clone, Copy, Debug, PartialEq, Eq, Structural)]
pub enum RiskLevel {
    Low,
    Medium,
    High,
    Blocked,
}

impl RiskLevel {
    /// The number under which the level is announced.
    pub open spec fn number(self) -> u32 {
        match self {
            RiskLevel::Low => 0,
            RiskLevel::Medium => 1,
            RiskLevel::High => 2,
            RiskLevel::Blocked => 3,
        }
    }

    /// The number under which the level is announced.
    pub fn code(&self) -> (r: u32)
        ensures
            r == self.number(),
    {
        match self {
            RiskLevel::Low => 0,
            RiskLevel::Medium => 1,
            RiskLevel::High => 2,
            RiskLevel::Blocked => 3,
        }
    }
}

/// The score of one payment.
#[derive(Clone, Copy, Debug, PartialEq, Eq)]
pub struct ComplianceScore {
    /// Opaque payment identifier (assigned by the caller).
    pub payment_id: u64,
    pub payer: Address,
    pub amount: i128,
    /// Per-dimension raw scores.
    pub dimensions: DimensionScores,
    /// Weighted aggregate score (0–100).
    pub overall_score: u32,
    pub risk_level: RiskLevel,
    /// Whether the payer was on the blocklist at scoring time.
    pub blocklisted: bool,
    /// Ledger sequence at which the score was recorded.
    pub scored_at: u32,
}

/// Scoring history of a payer.
#[derive(Clone, Copy, Debug, PartialEq, Eq)]
pub struct PayerHistory {
    /// Total payments scored.
    pub total_scored: u32,
    /// Payments that were blocked.
    pub total_blocked: u32,
    /// Payments that were high risk.
    pub total_high: u32,
    /// Payments that were medium risk.
    pub total_medium: u32,
    /// Running sum of overall scores.
    pub score_sum: u64,
    /// Ledger of the most recent scoring.
    pub last_scored_at: u32,
}

/// Failures of the scoring contract.
#[derive(Clone, Copy, Debug, PartialEq, Eq, Structural)]
pub enum ComplianceError {
    AlreadyInitialized,
    NotInitialized,
    Unauthorized,
    ContractPaused,
    InvalidScore,
    InvalidWeight,
    ScorerAlreadyAdded,
    ScorerNotFound,
    PaymentNotFound,
    AddressAlreadyBlocklisted,
    AddressNotBlocklisted,
}

impl ComplianceError {
    /// The number under which callers see the failure.
    pub open spec fn number(self) -> u32 {
        match self {
            ComplianceError::AlreadyInitialized => 1,
            ComplianceError::NotInitialized => 2,
            ComplianceError::Unauthorized => 3,
            ComplianceError::ContractPaused => 4,
            ComplianceError::InvalidScore => 5,
            ComplianceError::InvalidWeight => 6,
            ComplianceError::ScorerAlreadyAdded => 7,
            ComplianceError::ScorerNotFound => 8,
            ComplianceError::PaymentNotFound => 9,
            ComplianceError::AddressAlreadyBlocklisted => 10,
            ComplianceError::AddressNotBlocklisted => 11,
        }
    }

    /// The number under which callers see the failure.
    pub fn code(&self) -> (r: u32)
        ensures
            r == self.number(),
    {
        match self {
            ComplianceError::AlreadyInitialized => 1,
            ComplianceError::NotInitialized => 2,
            ComplianceError::Unauthorized => 3,
            ComplianceError::ContractPaused => 4,
            ComplianceError::InvalidScore => 5,
            ComplianceError::InvalidWeight => 6,
            ComplianceError::ScorerAlreadyAdded => 7,
            ComplianceError::ScorerNotFound => 8,
            ComplianceError::PaymentNotFound => 9,
            ComplianceError::AddressAlreadyBlocklisted => 10,
            ComplianceError::AddressNotBlocklisted => 11,
        }
    }
}

/// What the scoring contract announces.
#[derive(Clone, Copy, Debug, PartialEq, Eq)]
pub enum ComplianceEvent {
    Initialized { admin: Address },
    ScorerAdded { scorer: Address },
    ScorerRemoved { scorer: Address },
    BlocklistAdded { address: Address },
    BlocklistRemoved { address: Address },
    WeightsUpdated,
    Scored { payment_id: u64, payer: Address, overall_score: u32, risk_level: u32 },
    Paused,
    Unpaused,
    AdminTransferred { new_admin: Address },
}

impl ComplianceEvent {
    /// The two topics of the event.
    pub open spec fn topic_names(self) -> (Seq<char>, Seq<char>) {
        (
            "comply"@,
            match self {
                ComplianceEvent::Initialized { .. } => "init"@,
                ComplianceEvent::ScorerAdded { .. } => "scr_add"@,
                ComplianceEvent::ScorerRemoved { .. } => "scr_rm"@,
                ComplianceEvent::BlocklistAdded { .. } => "blk_add"@,
                ComplianceEvent::BlocklistRemoved { .. } => "blk_rm"@,
                ComplianceEvent::WeightsUpdated => "wt_upd"@,
                ComplianceEvent::Scored { .. } => "scored"@,
                ComplianceEvent::Paused => "paused"@,
                ComplianceEvent::Unpaused => "unpaused"@,
                ComplianceEvent::AdminTransferred { .. } => "adm_xfer"@,
            },
        )
    }

    /// The two topics of the event.
    pub fn topics(&self) -> (r: (&'static str, &'static str))
        ensures
            (r.0@, r.1@) == self.topic_names(),
    {
        let name = match self {
            ComplianceEvent::Initialized { .. } => "init",
            ComplianceEvent::ScorerAdded { .. } => "scr_add",
            ComplianceEvent::ScorerRemoved { .. } => "scr_rm",
            ComplianceEvent::BlocklistAdded { .. } => "blk_add",
            ComplianceEvent::BlocklistRemoved { .. } => "blk_rm",
            ComplianceEvent::WeightsUpdated => "wt_upd",
            ComplianceEvent::Scored { .. } => "scored",
            ComplianceEvent::Paused => "paused",
            ComplianceEvent::Unpaused => "unpaused",
            ComplianceEvent::AdminTransferred { .. } => "adm_xfer",
        };
        ("comply", name)
    }
}

/// The surroundings of a call of the scoring contract.
pub type ComplianceEnv = Env<DataKey, ComplianceEvent>;

/// The state of the scoring contract.
pub struct PaymentComplianceScoring {
    pub admin: Option<Address>,
    pub paused: bool,
    pub version: u32,
    pub weights: ScoringWeights,
    pub scorers: AddressSet,
    pub blocklist: AddressSet,
    pub histories: Table<Address, PayerHistory>,
    pub scores: Table<u64, ComplianceScore>,
}

/// The mathematical value of the scoring contract's state.
#[verifier::ext_equal]
pub struct ComplianceModel {
    pub admin: Option<Address>,
    pub paused: bool,
    pub version: u32,
    pub weights: ScoringWeights,
    pub scorers: Set<Address>,
    pub blocklist: Set<Address>,
    pub histories: Map<Address, PayerHistory>,
    pub scores: Map<u64, ComplianceScore>,
}

impl View for PaymentComplianceScoring {
    type V = ComplianceModel;

    open spec fn view(&self) -> ComplianceModel {
        ComplianceModel {
            admin: self.admin,
            paused: self.paused,
            version: self.version,
            weights: self.weights,
            scorers: self.scorers@,
            blocklist: self.blocklist@,
            histories: self.histories@,
            scores: self.scores@,
        }
    }
}

/// The scores weighed and summed.
pub open spec fn weighted_sum(d: DimensionScores, w: ScoringWeights) -> int {
    d.velocity * w.velocity + d.amount * w.amount + d.pattern * w.pattern + d.counterparty
        * w.counterparty + d.geo * w.geo + d.history * w.history
}

/// The weighted average, rounded down; zero if nothing weighs anything.
pub open spec fn overall(d: DimensionScores, w: ScoringWeights) -> int {
    if w.sum() == 0 {
        0
    } else {
        weighted_sum(d, w) / w.sum()
    }
}

/// The risk level of a score.
pub open spec fn level(score: int) -> RiskLevel {
    if score >= BLOCKED_THRESHOLD {
        RiskLevel::Blocked
    } else if score >= HIGH_THRESHOLD {
        RiskLevel::High
    } else if score >= MEDIUM_THRESHOLD {
        RiskLevel::Medium
    } else {
        RiskLevel::Low
    }
}

/// The history of a payer that was never scored.
pub open spec fn no_history() -> PayerHistory {
    PayerHistory {
        total_scored: 0,
        total_blocked: 0,
        total_high: 0,
        total_medium: 0,
        score_sum: 0,
        last_scored_at: 0,
    }
}

/// A counter that stops at its maximum, counted up if the condition holds.
pub open spec fn count_if(n: u32, condition: bool) -> u32 {
    if condition {
        crate::num::sat_u32(n + 1)
    } else {
        n
    }
}

/// The history after one more score was counted under a risk level.
pub open spec fn counted_history(
    h: PayerHistory,
    risk_level: RiskLevel,
    score: int,
    now: u32,
) -> PayerHistory {
    PayerHistory {
        total_scored: crate::num::sat_u32(h.total_scored + 1),
        total_blocked: count_if(h.total_blocked, risk_level == RiskLevel::Blocked),
        total_high: count_if(h.total_high, risk_level == RiskLevel::High),
        total_medium: count_if(h.total_medium, risk_level == RiskLevel::Medium),
        score_sum: crate::num::sat_u64(h.score_sum + score),
        last_scored_at: now,
    }
}

/// The history after one more scoring.
pub open spec fn scored_history(h: PayerHistory, score: int, now: u32) -> PayerHistory {
    counted_history(h, level(score), score, now)
}

/// The counters of a history fit together, as long as none has stopped.
pub open spec fn history_wf(h: PayerHistory) -> bool {
    h.total_scored < u32::MAX ==> h.total_blocked + h.total_high + h.total_medium <= h.total_scored
        && h.score_sum <= MAX_SCORE * h.total_scored
}

/// The average score of a history; zero if it is empty.
pub open spec fn average(h: PayerHistory) -> u32 {
    if h.total_scored == 0 {
        0
    } else {
        ((h.score_sum as int / h.total_scored as int) % 0x1_0000_0000) as u32
    }
}

impl ComplianceModel {
    /// Histories fit together and weights are positive.
    pub open spec fn wf(self) -> bool {
        &&& self.weights.positive()
        &&& forall|p: Address| #[trigger]
            self.histories.contains_key(p) ==> history_wf(self.histories[p])
        &&& forall|id: u64| #[trigger]
            self.scores.contains_key(id) ==> self.scores[id].payment_id == id
                && self.scores[id].overall_score <= MAX_SCORE
    }

    /// Why an administrative call is refused, if it is.
    pub open spec fn admin_error(self) -> Option<ComplianceError> {
        match self.admin {
            Some(_) => None,
            None => Some(ComplianceError::NotInitialized),
        }
    }

    /// Why a scorer cannot be added, if not.
    pub open spec fn add_scorer_error(self, who: Address) -> Option<ComplianceError> {
        if self.admin is None {
            Some(ComplianceError::NotInitialized)
        } else if self.scorers.contains(who) {
            Some(ComplianceError::ScorerAlreadyAdded)
        } else {
            None
        }
    }

    /// Why a scorer cannot be removed, if not.
    pub open spec fn remove_scorer_error(self, who: Address) -> Option<ComplianceError> {
        if self.admin is None {
            Some(ComplianceError::NotInitialized)
        } else if !self.scorers.contains(who) {
            Some(ComplianceError::ScorerNotFound)
        } else {
            None
        }
    }

    /// Why an address cannot be added, if not.
    pub open spec fn add_block_error(self, who: Address) -> Option<ComplianceError> {
        if self.admin is None {
            Some(ComplianceError::NotInitialized)
        } else if self.blocklist.contains(who) {
            Some(ComplianceError::AddressAlreadyBlocklisted)
        } else {
            None
        }
    }

    /// Why an address cannot be removed, if not.
    pub open spec fn remove_block_error(self, who: Address) -> Option<ComplianceError> {
        if self.admin is None {
            Some(ComplianceError::NotInitialized)
        } else if !self.blocklist.contains(who) {
            Some(ComplianceError::AddressNotBlocklisted)
        } else {
            None
        }
    }

    /// The payer's history.
    pub open spec fn history(self, payer: Address) -> PayerHistory {
        if self.histories.contains_key(payer) {
            self.histories[payer]
        } else {
            no_history()
        }
    }

    /// Why a payment is not scored, if it is not.
    pub open spec fn score_error(self, scorer: Address, d: DimensionScores) -> Option<
        ComplianceError,
    > {
        if self.paused {
            Some(ComplianceError::ContractPaused)
        } else if !self.scorers.contains(scorer) {
            Some(ComplianceError::Unauthorized)
        } else if !d.at_most(MAX_SCORE as int) {
            Some(ComplianceError::InvalidScore)
        } else {
            None
        }
    }

    /// The overall score of a payment: the maximum for a blocklisted payer.
    pub open spec fn payment_overall(self, payer: Address, d: DimensionScores) -> int {
        if self.blocklist.contains(payer) {
            MAX_SCORE as int
        } else {
            overall(d, self.weights)
        }
    }

    /// The score of a payment.
    pub open spec fn score(
        self,
        payment_id: u64,
        payer: Address,
        amount: i128,
        d: DimensionScores,
        now: u32,
    ) -> ComplianceScore {
        ComplianceScore {
            payment_id,
            payer,
            amount,
            dimensions: d,
            overall_score: self.payment_overall(payer, d) as u32,
            risk_level: level(self.payment_overall(payer, d)),
            blocklisted: self.blocklist.contains(payer),
            scored_at: now,
        }
    }

    /// The state after a score was counted in the payer's history.
    pub open spec fn updated(
        self,
        payer: Address,
        risk_level: RiskLevel,
        score: int,
        now: u32,
    ) -> ComplianceModel {
        ComplianceModel {
            histories: self.histories.insert(
                payer,
                counted_history(self.history(payer), risk_level, score, now),
            ),
            ..self
        }
    }

    /// The state after a payment was scored.
    pub open spec fn scored(
        self,
        payment_id: u64,
        payer: Address,
        amount: i128,
        d: DimensionScores,
        now: u32,
    ) -> ComplianceModel {
        ComplianceModel {
            scores: self.scores.insert(
                payment_id,
                self.score(payment_id, payer, amount, d, now),
            ),
            histories: self.histories.insert(
                payer,
                scored_history(self.history(payer), self.payment_overall(payer, d), now),
            ),
            ..self
        }
    }
}

/// The surroundings after the administrator's authorization was demanded, if
/// there is an administrator.
pub open spec fn admin_auth(
    m: ComplianceModel,
    e: crate::env::EnvModel<DataKey, ComplianceEvent>,
) -> crate::env::EnvModel<DataKey, ComplianceEvent> {
    match m.admin {
        Some(admin) => e.auth(admin),
        None => e,
    }
}

impl PaymentComplianceScoring {
    /// The administrator, whose authorization is demanded.
    fn require_admin(&self, env: &mut ComplianceEnv) -> (r: Result<Address, ComplianceError>)
        ensures
            r == crate::env::outcome(self@.admin_error(), self@.admin->0),
            final(env)@ == match self@.admin {
                Some(admin) => old(env)@.auth(admin),
                None => old(env)@,
            },
    {
        match self.admin {
            Some(admin) => {
                env.require_auth(&admin);
                Ok(admin)
            },
            None => Err(ComplianceError::NotInitialized),
        }
    }

    /// Stops the contract's work until it is resumed.
    pub fn pause(&mut self, env: &mut ComplianceEnv) -> (r: Result<(), ComplianceError>)
        requires
            old(self)@.wf(),
        ensures
            final(self)@.wf(),
            r == crate::env::outcome(old(self)@.admin_error(), ()),
            final(self)@ == match r {
                Err(_) => old(self)@,
                Ok(_) => ComplianceModel { paused: true, ..old(self)@ },
            },
            r is Ok ==> final(self)@.paused && final(self)@.admin == old(self)@.admin,
            final(env)@ == match r {
                Err(_) => old(env)@,
                Ok(_) => old(env)@.auth(old(self)@.admin->0).event(ComplianceEvent::Paused),
            },
    {
        self.require_admin(env)?;
        self.paused = true;
        env.event(ComplianceEvent::Paused);
        Ok(())
    }

    /// Resumes the contract's work.
    pub fn unpause(&mut self, env: &mut ComplianceEnv) -> (r: Result<(), ComplianceError>)
        requires
            old(self)@.wf(),
        ensures
            final(self)@.wf(),
            r == crate::env::outcome(old(self)@.admin_error(), ()),
            final(self)@ == match r {
                Err(_) => old(self)@,
                Ok(_) => ComplianceModel { paused: false, ..old(self)@ },
            },
            r is Ok ==> !final(self)@.paused && final(self)@.admin == old(self)@.admin,
            final(env)@ == match r {
                Err(_) => old(env)@,
                Ok(_) => old(env)@.auth(old(self)@.admin->0).event(ComplianceEvent::Unpaused),
            },
    {
        self.require_admin(env)?;
        self.paused = false;
        env.event(ComplianceEvent::Unpaused);
        Ok(())
    }

    /// Replaces the contract's code and counts the version up.
    pub fn upgrade(&mut self, env: &mut ComplianceEnv, new_wasm_hash: &BytesN<32>) -> (r: Result<(), ComplianceError>)
        requires
            old(self)@.wf(),
            old(self)@.admin is Some ==> old(self)@.version < u32::MAX,
        ensures
            final(self)@.wf(),
            r == crate::env::outcome(old(self)@.admin_error(), ()),
            final(self)@ == match r {
                Err(_) => old(self)@,
                Ok(_) => ComplianceModel { version: (old(self)@.version + 1) as u32, ..old(self)@ },
            },
            r is Ok ==> final(self)@.version == old(self)@.version + 1 && final(self)@.admin == old(self)@.admin,
            final(env)@ == match r {
                Err(_) => old(env)@,
                Ok(_) => old(env)@.auth(old(self)@.admin->0).emit(Effect::Upgrade(*new_wasm_hash)),
            },
    {
        self.require_admin(env)?;
        env.emit(Effect::Upgrade(*new_wasm_hash));
        self.version = self.version + 1;
        Ok(())
    }

    /// Hands the administration over.
    pub fn transfer_admin(&mut self, env: &mut ComplianceEnv, new_admin: &Address) -> (r: Result<(), ComplianceError>)
        requires
            old(self)@.wf(),
        ensures
            final(self)@.wf(),
            r == crate::env::outcome(old(self)@.admin_error(), ()),
            final(self)@ == match r {
                Err(_) => old(self)@,
                Ok(_) => ComplianceModel { admin: Some(*new_admin), ..old(self)@ },
            },
            r is Ok ==> final(self)@.admin == Some(*new_admin) && final(self)@.paused == old(self)@.paused,
            final(env)@ == match r {
                Err(_) => old(env)@,
                Ok(_) => old(env)@.auth(old(self)@.admin->0).event(ComplianceEvent::AdminTransferred { new_admin: *new_admin }),
            },
    {
        self.require_admin(env)?;
        self.admin = Some(*new_admin);
        env.event(ComplianceEvent::AdminTransferred { new_admin: *new_admin });
        Ok(())
    }

    /// The administrator.
    pub fn get_admin(&self) -> (r: Result<Address, ComplianceError>)
        ensures
            r == crate::env::outcome(self@.admin_error(), self@.admin->0),
    {
        match self.admin {
            Some(admin) => Ok(admin),
            None => Err(ComplianceError::NotInitialized),
        }
    }

    /// Whether the contract's work is stopped.
    pub fn is_paused(&self) -> (r: bool)
        ensures
            r == self@.paused,
    {
        self.paused
    }

    /// The version of the contract's code.
    pub fn get_version(&self) -> (r: u32)
        ensures
            r == self@.version,
    {
        self.version
    }
}

proof fn lemma_term(d: int, w: int, low: int, high: int)
    by (nonlinear_arith)
    requires
        w > 0 ==> low <= d <= high,
        0 <= w,
    ensures
        low * w <= d * w <= high * w,
{
}

proof fn lemma_scaled_term(d: int, w: int, k: int)
    by (nonlinear_arith)
    ensures
        d * (k * w) == k * (d * w),
{
}

proof fn lemma_factor(k: int, a: int, b: int, c: int, d: int, e: int, f: int)
    by (nonlinear_arith)
    ensures
        k * a + k * b + k * c + k * d + k * e + k * f == k * (a + b + c + d + e + f),
{
}

/// The weighted sum lies between the bounds of the scores that weigh anything.
proof fn lemma_weighted_sum_bounds(d: DimensionScores, w: ScoringWeights, low: int, high: int)
    requires
        d.weighed_between(w, low, high),
    ensures
        low * w.sum() <= weighted_sum(d, w) <= high * w.sum(),
{
    lemma_term(d.velocity as int, w.velocity as int, low, high);
    lemma_term(d.amount as int, w.amount as int, low, high);
    lemma_term(d.pattern as int, w.pattern as int, low, high);
    lemma_term(d.counterparty as int, w.counterparty as int, low, high);
    lemma_term(d.geo as int, w.geo as int, low, high);
    lemma_term(d.history as int, w.history as int, low, high);
    lemma_factor(
        low,
        w.velocity as int,
        w.amount as int,
        w.pattern as int,
        w.counterparty as int,
        w.geo as int,
        w.history as int,
    );
    lemma_factor(
        high,
        w.velocity as int,
        w.amount as int,
        w.pattern as int,
        w.counterparty as int,
        w.geo as int,
        w.history as int,
    );
}

/// The overall score lies between the lowest and the highest of the
/// dimensions whose weight is above zero. The others have no say.
pub proof fn law_overall_between_weighed(
    d: DimensionScores,
    w: ScoringWeights,
    low: int,
    high: int,
)
    requires
        d.weighed_between(w, low, high),
        w.sum() > 0,
    ensures
        low <= overall(d, w) <= high,
{
    lemma_weighted_sum_bounds(d, w, low, high);
    let s = w.sum();
    let x = weighted_sum(d, w);
    assert(low <= x / s <= high) by (nonlinear_arith)
        requires
            low * s <= x <= high * s,
            s > 0,
    ;
}

/// The overall score lies between the lowest and the highest dimension.
pub proof fn law_overall_between_extremes(
    d: DimensionScores,
    w: ScoringWeights,
    low: int,
    high: int,
)
    requires
        d.at_least(low),
        d.at_most(high),
        w.sum() > 0,
    ensures
        low <= overall(d, w) <= high,
{
    law_overall_between_weighed(d, w, low, high);
}

/// Only the proportions of the weights matter: multiplying all of them by the
/// same factor leaves the overall score as it is.
pub proof fn law_weights_are_normalised(
    d: DimensionScores,
    w: ScoringWeights,
    scaled: ScoringWeights,
    k: int,
)
    requires
        k >= 1,
        scaled.velocity == k * w.velocity,
        scaled.amount == k * w.amount,
        scaled.pattern == k * w.pattern,
        scaled.counterparty == k * w.counterparty,
        scaled.geo == k * w.geo,
        scaled.history == k * w.history,
    ensures
        overall(d, scaled) == overall(d, w),
{
    lemma_scaled_term(d.velocity as int, w.velocity as int, k);
    lemma_scaled_term(d.amount as int, w.amount as int, k);
    lemma_scaled_term(d.pattern as int, w.pattern as int, k);
    lemma_scaled_term(d.counterparty as int, w.counterparty as int, k);
    lemma_scaled_term(d.geo as int, w.geo as int, k);
    lemma_scaled_term(d.history as int, w.history as int, k);
    lemma_factor(
        k,
        w.velocity as int,
        w.amount as int,
        w.pattern as int,
        w.counterparty as int,
        w.geo as int,
        w.history as int,
    );
    lemma_factor(
        k,
        d.velocity * w.velocity,
        d.amount * w.amount,
        d.pattern * w.pattern,
        d.counterparty * w.counterparty,
        d.geo * w.geo,
        d.history * w.history,
    );
    let x = weighted_sum(d, w);
    let s = w.sum();
    assert(weighted_sum(d, scaled) == k * x);
    assert(scaled.sum() == k * s);
    if s > 0 {
        vstd::arithmetic::div_mod::lemma_div_multiples_vanish_quotient(k, x, s);
    } else {
        assert(k * s == 0) by (nonlinear_arith)
            requires
                s == 0,
        ;
    }
}

/// Raising a dimension never lowers the overall score.
pub proof fn law_overall_is_monotone(
    d: DimensionScores,
    riskier: DimensionScores,
    w: ScoringWeights,
)
    requires
        d.below(riskier),
    ensures
        overall(d, w) <= overall(riskier, w),
        level(overall(d, w)).number() <= level(overall(riskier, w)).number(),
{
    lemma_term(d.velocity as int, w.velocity as int, 0, riskier.velocity as int);
    lemma_term(d.amount as int, w.amount as int, 0, riskier.amount as int);
    lemma_term(d.pattern as int, w.pattern as int, 0, riskier.pattern as int);
    lemma_term(d.counterparty as int, w.counterparty as int, 0, riskier.counterparty as int);
    lemma_term(d.geo as int, w.geo as int, 0, riskier.geo as int);
    lemma_term(d.history as int, w.history as int, 0, riskier.history as int);
    let s = w.sum();
    let x = weighted_sum(d, w);
    let y = weighted_sum(riskier, w);
    if s > 0 {
        assert(x / s <= y / s) by (nonlinear_arith)
            requires
                x <= y,
                s > 0,
        ;
    }
}

/// Computes the weighted overall score.
pub fn compute_overall(dims: &DimensionScores, weights: &ScoringWeights) -> (r: u32)
    requires
        weights.sum() <= u32::MAX,
    ensures
        r == overall(*dims, *weights),
{
    let total_weight: u32 = weights.total();
    if total_weight == 0 {
        return 0;
    }
    proof {
        lemma_weighted_sum_bounds(*dims, *weights, 0, u32::MAX as int);
        law_overall_between_extremes(*dims, *weights, 0, u32::MAX as int);
        let s = weights.sum();
        assert(u32::MAX * s <= u32::MAX * u32::MAX) by (nonlinear_arith)
            requires
                0 <= s <= u32::MAX,
        ;
        lemma_term(dims.velocity as int, weights.velocity as int, 0, u32::MAX as int);
        lemma_term(dims.amount as int, weights.amount as int, 0, u32::MAX as int);
        lemma_term(dims.pattern as int, weights.pattern as int, 0, u32::MAX as int);
        lemma_term(dims.counterparty as int, weights.counterparty as int, 0, u32::MAX as int);
        lemma_term(dims.geo as int, weights.geo as int, 0, u32::MAX as int);
        lemma_term(dims.history as int, weights.history as int, 0, u32::MAX as int);
    }
    let weighted: u64 = dims.velocity as u64 * weights.velocity as u64 + dims.amount as u64
        * weights.amount as u64 + dims.pattern as u64 * weights.pattern as u64
        + dims.counterparty as u64 * weights.counterparty as u64 + dims.geo as u64
        * weights.geo as u64 + dims.history as u64 * weights.history as u64;
    (weighted / total_weight as u64) as u32
}

/// Derives the risk level of an overall score.
pub fn score_to_risk_level(score: u32) -> (r: RiskLevel)
    ensures
        r == level(score as int),
{
    if score >= BLOCKED_THRESHOLD {
        RiskLevel::Blocked
    } else if score >= HIGH_THRESHOLD {
        RiskLevel::High
    } else if score >= MEDIUM_THRESHOLD {
        RiskLevel::Medium
    } else {
        RiskLevel::Low
    }
}

/// Whether every dimension is in range.
fn dimensions_valid(d: &DimensionScores) -> (r: bool)
    ensures
        r == d.at_most(MAX_SCORE as int),
{
    d.velocity <= MAX_SCORE && d.amount <= MAX_SCORE && d.pattern <= MAX_SCORE && d.counterparty
        <= MAX_SCORE && d.geo <= MAX_SCORE && d.history <= MAX_SCORE
}

impl PaymentComplianceScoring {
    /// The contract before it is set up.
    pub fn new() -> (r: PaymentComplianceScoring)
        ensures
            r@ == (ComplianceModel {
                admin: None,
                paused: false,
                version: 1,
                weights: ScoringWeights::equal(),
                scorers: Set::<Address>::empty(),
                blocklist: Set::<Address>::empty(),
                histories: Map::<Address, PayerHistory>::empty(),
                scores: Map::<u64, ComplianceScore>::empty(),
            }),
            r@.wf(),
    {
        PaymentComplianceScoring {
            admin: None,
            paused: false,
            version: 1,
            weights: ScoringWeights::default_weights(),
            scorers: AddressSet::new(),
            blocklist: AddressSet::new(),
            histories: Table::new(),
            scores: Table::new(),
        }
    }

    /// Sets the contract up, once, with equal weights.
    pub fn initialize(&mut self, env: &mut ComplianceEnv, admin: &Address) -> (r: Result<
        (),
        ComplianceError,
    >)
        requires
            old(self)@.wf(),
        ensures
            final(self)@.wf(),
            r == if old(self)@.admin is Some {
                Err::<(), ComplianceError>(ComplianceError::AlreadyInitialized)
            } else {
                Ok(())
            },
            final(self)@ == match r {
                Err(_) => old(self)@,
                Ok(_) => ComplianceModel {
                    admin: Some(*admin),
                    paused: false,
                    version: 1,
                    weights: ScoringWeights::equal(),
                    ..old(self)@
                },
            },
            r is Ok ==> ({
                let m = final(self)@;
                let w = m.weights;
                &&& m.admin == Some(*admin) && !m.paused && m.version == 1
                &&& w.velocity == 1 && w.amount == 1 && w.pattern == 1
                &&& w.counterparty == 1 && w.geo == 1 && w.history == 1
            }),
            final(env)@ == match r {
                Err(_) => old(env)@,
                Ok(_) => old(env)@.auth(*admin).emit(Effect::ExtendInstance).event(
                    ComplianceEvent::Initialized { admin: *admin },
                ),
            },
    {
        if self.admin.is_some() {
            return Err(ComplianceError::AlreadyInitialized);
        }
        env.require_auth(admin);
        self.admin = Some(*admin);
        self.paused = false;
        self.version = 1;
        self.weights = ScoringWeights::default_weights();
        env.emit(Effect::ExtendInstance);
        env.event(ComplianceEvent::Initialized { admin: *admin });
        Ok(())
    }

    /// Authorises an address to submit scores.
    pub fn add_scorer(&mut self, env: &mut ComplianceEnv, scorer: &Address) -> (r: Result<
        (),
        ComplianceError,
    >)
        requires
            old(self)@.wf(),
        ensures
            final(self)@.wf(),
            r == crate::env::outcome(old(self)@.add_scorer_error(*scorer), ()),
            final(self)@ == match r {
                Err(_) => old(self)@,
                Ok(_) => ComplianceModel {
                    scorers: old(self)@.scorers.insert(*scorer),
                    ..old(self)@
                },
            },
            r is Ok ==> forall|who: Address|
                #[trigger] final(self)@.scorers.contains(who) == (who == *scorer
                    || old(self)@.scorers.contains(who)),
            final(env)@ == match r {
                Err(_) => admin_auth(old(self)@, old(env)@),
                Ok(_) => admin_auth(old(self)@, old(env)@).emit(Effect::ExtendInstance).emit(
                    Effect::ExtendEntry(DataKey::Scorer(*scorer)),
                ).event(ComplianceEvent::ScorerAdded { scorer: *scorer }),
            },
    {
        self.require_admin(env)?;
        if self.scorers.contains(scorer) {
            return Err(ComplianceError::ScorerAlreadyAdded);
        }
        self.scorers.insert(*scorer);
        env.emit(Effect::ExtendInstance);
        env.emit(Effect::ExtendEntry(DataKey::Scorer(*scorer)));
        env.event(ComplianceEvent::ScorerAdded { scorer: *scorer });
        Ok(())
    }

    /// Ends a scorer's authorisation.
    pub fn remove_scorer(&mut self, env: &mut ComplianceEnv, scorer: &Address) -> (r: Result<
        (),
        ComplianceError,
    >)
        requires
            old(self)@.wf(),
        ensures
            final(self)@.wf(),
            r == crate::env::outcome(old(self)@.remove_scorer_error(*scorer), ()),
            final(self)@ == match r {
                Err(_) => old(self)@,
                Ok(_) => ComplianceModel {
                    scorers: old(self)@.scorers.remove(*scorer),
                    ..old(self)@
                },
            },
            r is Ok ==> forall|who: Address|
                #[trigger] final(self)@.scorers.contains(who) == (who != *scorer
                    && old(self)@.scorers.contains(who)),
            final(env)@ == match r {
                Err(_) => admin_auth(old(self)@, old(env)@),
                Ok(_) => admin_auth(old(self)@, old(env)@).emit(Effect::ExtendInstance).event(
                    ComplianceEvent::ScorerRemoved { scorer: *scorer },
                ),
            },
    {
        self.require_admin(env)?;
        if !self.scorers.contains(scorer) {
            return Err(ComplianceError::ScorerNotFound);
        }
        self.scorers.remove(scorer);
        env.emit(Effect::ExtendInstance);
        env.event(ComplianceEvent::ScorerRemoved { scorer: *scorer });
        Ok(())
    }

    /// Puts an address on the blocklist.
    pub fn add_to_blocklist(&mut self, env: &mut ComplianceEnv, address: &Address) -> (r: Result<
        (),
        ComplianceError,
    >)
        requires
            old(self)@.wf(),
        ensures
            final(self)@.wf(),
            r == crate::env::outcome(old(self)@.add_block_error(*address), ()),
            final(self)@ == match r {
                Err(_) => old(self)@,
                Ok(_) => ComplianceModel {
                    blocklist: old(self)@.blocklist.insert(*address),
                    ..old(self)@
                },
            },
            r is Ok ==> forall|who: Address|
                #[trigger] final(self)@.blocklist.contains(who) == (who == *address
                    || old(self)@.blocklist.contains(who)),
            final(env)@ == match r {
                Err(_) => admin_auth(old(self)@, old(env)@),
                Ok(_) => admin_auth(old(self)@, old(env)@).emit(Effect::ExtendInstance).emit(
                    Effect::ExtendEntry(DataKey::Blocklist(*address)),
                ).event(ComplianceEvent::BlocklistAdded { address: *address }),
            },
    {
        self.require_admin(env)?;
        if self.blocklist.contains(address) {
            return Err(ComplianceError::AddressAlreadyBlocklisted);
        }
        self.blocklist.insert(*address);
        env.emit(Effect::ExtendInstance);
        env.emit(Effect::ExtendEntry(DataKey::Blocklist(*address)));
        env.event(ComplianceEvent::BlocklistAdded { address: *address });
        Ok(())
    }

    /// Takes an address off the blocklist.
    pub fn remove_from_blocklist(&mut self, env: &mut ComplianceEnv, address: &Address) -> (r: Result<
        (),
        ComplianceError,
    >)
        requires
            old(self)@.wf(),
        ensures
            final(self)@.wf(),
            r == crate::env::outcome(old(self)@.remove_block_error(*address), ()),
            final(self)@ == match r {
                Err(_) => old(self)@,
                Ok(_) => ComplianceModel {
                    blocklist: old(self)@.blocklist.remove(*address),
                    ..old(self)@
                },
            },
            r is Ok ==> forall|who: Address|
                #[trigger] final(self)@.blocklist.contains(who) == (who != *address
                    && old(self)@.blocklist.contains(who)),
            final(env)@ == match r {
                Err(_) => admin_auth(old(self)@, old(env)@),
                Ok(_) => admin_auth(old(self)@, old(env)@).emit(Effect::ExtendInstance).event(
                    ComplianceEvent::BlocklistRemoved { address: *address },
                ),
            },
    {
        self.require_admin(env)?;
        if !self.blocklist.contains(address) {
            return Err(ComplianceError::AddressNotBlocklisted);
        }
        self.blocklist.remove(address);
        env.emit(Effect::ExtendInstance);
        env.event(ComplianceEvent::BlocklistRemoved { address: *address });
        Ok(())
    }

    /// Replaces the weights, each of which must be at least one.
    pub fn set_weights(&mut self, env: &mut ComplianceEnv, weights: ScoringWeights) -> (r: Result<
        (),
        ComplianceError,
    >)
        requires
            old(self)@.wf(),
        ensures
            final(self)@.wf(),
            r == if old(self)@.admin is None {
                Err::<(), ComplianceError>(ComplianceError::NotInitialized)
            } else if !weights.positive() {
                Err(ComplianceError::InvalidWeight)
            } else {
                Ok(())
            },
            final(self)@ == match r {
                Err(_) => old(self)@,
                Ok(_) => ComplianceModel { weights, ..old(self)@ },
            },
            r is Ok ==> final(self)@.weights == weights && final(self)@.scorers == old(self)@.scorers,
            final(env)@ == match r {
                Err(_) => admin_auth(old(self)@, old(env)@),
                Ok(_) => admin_auth(old(self)@, old(env)@).emit(Effect::ExtendInstance).event(
                    ComplianceEvent::WeightsUpdated,
                ),
            },
    {
        self.require_admin(env)?;
        if weights.velocity == 0 || weights.amount == 0 || weights.pattern == 0
            || weights.counterparty == 0 || weights.geo == 0 || weights.history == 0 {
            return Err(ComplianceError::InvalidWeight);
        }
        self.weights = weights;
        env.emit(Effect::ExtendInstance);
        env.event(ComplianceEvent::WeightsUpdated);
        Ok(())
    }

    /// Counts a score under a risk level in the payer's history.
    pub(crate) fn update_payer_history(
        &mut self,
        env: &mut ComplianceEnv,
        payer: &Address,
        risk_level: RiskLevel,
        overall_score: u32,
    )
        ensures
            final(self)@ == old(self)@.updated(
                *payer,
                risk_level,
                overall_score as int,
                old(env)@.sequence,
            ),
            final(env)@ == old(env)@.emit(Effect::ExtendEntry(DataKey::PayerHistory(*payer))),
    {
        let mut history: PayerHistory = self.get_payer_history(payer);
        history.total_scored = saturating_add_u32(history.total_scored, 1);
        history.score_sum = saturating_add_u64(history.score_sum, overall_score as u64);
        history.last_scored_at = env.sequence;
        match risk_level {
            RiskLevel::Blocked => {
                history.total_blocked = saturating_add_u32(history.total_blocked, 1);
            },
            RiskLevel::High => {
                history.total_high = saturating_add_u32(history.total_high, 1);
            },
            RiskLevel::Medium => {
                history.total_medium = saturating_add_u32(history.total_medium, 1);
            },
            RiskLevel::Low => {},
        }
        self.histories.set(*payer, history);
        env.emit(Effect::ExtendEntry(DataKey::PayerHistory(*payer)));
    }

    /// Scores a payment and keeps the score. A blocklisted payer always gets
    /// the maximum.
    pub fn score_payment(
        &mut self,
        env: &mut ComplianceEnv,
        scorer: &Address,
        payment_id: u64,
        payer: &Address,
        amount: i128,
        dimensions: DimensionScores,
    ) -> (r: Result<ComplianceScore, ComplianceError>)
        requires
            old(self)@.wf(),
            old(self)@.score_error(*scorer, dimensions) is None ==> old(self)@.weights.sum()
                <= u32::MAX,
        ensures
            final(self)@.wf(),
            ({
                let m = old(self)@;
                let now = old(env)@.sequence;
                let score = m.score(payment_id, *payer, amount, dimensions, now);
                &&& r == crate::env::outcome(m.score_error(*scorer, dimensions), score)
                &&& final(self)@ == match r {
                    Err(_) => m,
                    Ok(_) => m.scored(payment_id, *payer, amount, dimensions, now),
                }
                &&& final(env)@ == if m.paused {
                    old(env)@
                } else if r is Err {
                    old(env)@.auth(*scorer)
                } else {
                    old(env)@.auth(*scorer).emit(Effect::ExtendInstance).emit(
                        Effect::ExtendEntry(DataKey::PaymentScore(payment_id)),
                    ).emit(Effect::ExtendEntry(DataKey::PayerHistory(*payer))).event(
                        ComplianceEvent::Scored {
                            payment_id,
                            payer: *payer,
                            overall_score: score.overall_score,
                            risk_level: score.risk_level.number(),
                        },
                    )
                }
            }),
    {
        if self.paused {
            return Err(ComplianceError::ContractPaused);
        }
        env.require_auth(scorer);
        if !self.scorers.contains(scorer) {
            return Err(ComplianceError::Unauthorized);
        }
        if !dimensions_valid(&dimensions) {
            return Err(ComplianceError::InvalidScore);
        }
        let blocklisted = self.blocklist.contains(payer);
        let weights = self.weights;
        proof {
            law_overall_between_extremes(dimensions, weights, 0, MAX_SCORE as int);
        }
        let mut overall: u32 = compute_overall(&dimensions, &weights);
        if blocklisted {
            overall = MAX_SCORE;
        }
        let risk_level = score_to_risk_level(overall);
        let record = ComplianceScore {
            payment_id,
            payer: *payer,
            amount,
            dimensions,
            overall_score: overall,
            risk_level,
            blocklisted,
            scored_at: env.sequence,
        };
        env.emit(Effect::ExtendInstance);
        self.scores.set(payment_id, record);
        env.emit(Effect::ExtendEntry(DataKey::PaymentScore(payment_id)));
        self.update_payer_history(env, payer, risk_level, overall);
        env.event(
            ComplianceEvent::Scored {
                payment_id,
                payer: *payer,
                overall_score: overall,
                risk_level: risk_level.code(),
            },
        );
        Ok(record)
    }

    /// The score of a payment.
    pub fn get_payment_score(&self, payment_id: u64) -> (r: Result<
        ComplianceScore,
        ComplianceError,
    >)
        ensures
            r == if self@.scores.contains_key(payment_id) {
                Ok(self@.scores[payment_id])
            } else {
                Err(ComplianceError::PaymentNotFound)
            },
    {
        match self.scores.get(&payment_id) {
            Some(score) => Ok(*score),
            None => Err(ComplianceError::PaymentNotFound),
        }
    }

    /// The scoring history of a payer.
    pub fn get_payer_history(&self, payer: &Address) -> (r: PayerHistory)
        ensures
            r == self@.history(*payer),
    {
        match self.histories.get(payer) {
            Some(history) => *history,
            None => PayerHistory {
                total_scored: 0,
                total_blocked: 0,
                total_high: 0,
                total_medium: 0,
                score_sum: 0,
                last_scored_at: 0,
            },
        }
    }

    /// The average overall score of a payer, zero if it was never scored.
    pub fn get_payer_average_score(&self, payer: &Address) -> (r: u32)
        ensures
            r == average(self@.history(*payer)),
    {
        let history: PayerHistory = self.get_payer_history(payer);
        if history.total_scored == 0 {
            return 0;
        }
        let quotient: u64 = history.score_sum / history.total_scored as u64;
        assert(quotient as u32 == quotient % 0x1_0000_0000) by (bit_vector);
        #[verifier::truncate]
        (quotient as u32)
    }

    /// Whether the address is on the blocklist.
    pub fn is_blocklisted(&self, address: &Address) -> (r: bool)
        ensures
            r == self@.blocklist.contains(*address),
    {
        self.blocklist.contains(address)
    }

    /// Whether the address may submit scores.
    pub fn is_scorer(&self, scorer: &Address) -> (r: bool)
        ensures
            r == self@.scorers.contains(*scorer),
    {
        self.scorers.contains(scorer)
    }

    /// The weights of the dimensions.
    pub fn get_weights(&self) -> (r: ScoringWeights)
        ensures
            r == self@.weights,
    {
        self.weights
    }
}

/// Scores in range give an overall score in range.
pub proof fn law_overall_in_range(m: ComplianceModel, payer: Address, d: DimensionScores)
    requires
        m.wf(),
        d.at_most(MAX_SCORE as int),
    ensures
        0 <= m.payment_overall(payer, d) <= MAX_SCORE,
{
    law_overall_between_extremes(d, m.weights, 0, MAX_SCORE as int);
}

/// A blocklisted payer gets the maximum score and is blocked, whatever the
/// dimensions.
pub proof fn law_blocklisted_is_blocked(
    m: ComplianceModel,
    payment_id: u64,
    payer: Address,
    amount: i128,
    d: DimensionScores,
    now: u32,
)
    requires
        m.blocklist.contains(payer),
    ensures
        ({
            let score = m.score(payment_id, payer, amount, d, now);
            score.overall_score == MAX_SCORE && score.risk_level == RiskLevel::Blocked
                && score.blocklisted
        }),
{
}

/// The overall score is the weighted average of the six dimensions, rounded
/// down: it is the number of times that the sum of the weights goes into the
/// sum of each dimension times its own weight. Without any weight it is zero.
pub proof fn law_overall_is_weighted_average(d: DimensionScores, w: ScoringWeights)
    ensures
        ({
            let total = w.velocity + w.amount + w.pattern + w.counterparty + w.geo + w.history;
            let weighed = d.velocity * w.velocity + d.amount * w.amount + d.pattern * w.pattern
                + d.counterparty * w.counterparty + d.geo * w.geo + d.history * w.history;
            let q = overall(d, w);
            &&& total == 0 ==> q == 0
            &&& total > 0 ==> q * total <= weighed < (q + 1) * total
            &&& w.sum() == total
        }),
{
    let total = w.sum();
    let weighed = weighted_sum(d, w);
    if total > 0 {
        let q = weighed / total;
        assert(q * total <= weighed < (q + 1) * total) by (nonlinear_arith)
            requires
                total > 0,
                q == weighed / total,
        ;
    }
}

/// The recorded score of a payment of a payer that is not blocklisted is the
/// average of the dimensions under the weights in force, each dimension with
/// its own weight. A blocklisted payer gets one hundred. The record tells of
/// the payment as it was submitted, and its risk level is that of the score.
pub proof fn law_recorded_score(
    m: ComplianceModel,
    payment_id: u64,
    payer: Address,
    amount: i128,
    d: DimensionScores,
    now: u32,
)
    requires
        m.wf(),
        d.at_most(100),
    ensures
        ({
            let after = m.scored(payment_id, payer, amount, d, now);
            let r = after.scores[payment_id];
            let q = r.overall_score;
            let w = m.weights;
            let total = w.velocity + w.amount + w.pattern + w.counterparty + w.geo + w.history;
            let weighed = d.velocity * w.velocity + d.amount * w.amount + d.pattern * w.pattern
                + d.counterparty * w.counterparty + d.geo * w.geo + d.history * w.history;
            let blocked = m.blocklist.contains(payer);
            &&& total > 0
            &&& !blocked ==> q * total <= weighed < (q + 1) * total
            &&& blocked ==> q == 100
            &&& r.blocklisted == blocked
            &&& r.risk_level == if q >= 85 {
                RiskLevel::Blocked
            } else if q >= 60 {
                RiskLevel::High
            } else if q >= 30 {
                RiskLevel::Medium
            } else {
                RiskLevel::Low
            }
            &&& r.payment_id == payment_id
            &&& r.payer == payer
            &&& r.amount == amount
            &&& r.dimensions == d
            &&& r.scored_at == now
            &&& r == m.score(payment_id, payer, amount, d, now)
            &&& after.scores.contains_key(payment_id)
            &&& after.scores.remove(payment_id) == m.scores.remove(payment_id)
            &&& after.histories.remove(payer) == m.histories.remove(payer)
            &&& after.histories.contains_key(payer)
            &&& after.admin == m.admin
            &&& after.paused == m.paused
            &&& after.version == m.version
            &&& after.weights == m.weights
            &&& after.scorers == m.scorers
            &&& after.blocklist == m.blocklist
        }),
{
    let after = m.scored(payment_id, payer, amount, d, now);
    law_overall_in_range(m, payer, d);
    law_overall_is_weighted_average(d, m.weights);
    assert(after.scores.remove(payment_id) =~= m.scores.remove(payment_id));
    assert(after.histories.remove(payer) =~= m.histories.remove(payer));
}

/// A payment is scored at the wish of an authorised scorer while the contract
/// is not paused, and on scores up to one hundred. Only an administrator
/// changes scorers and the blocklist.
pub proof fn law_scoring_conditions(m: ComplianceModel, who: Address, d: DimensionScores)
    ensures
        ({
            let in_range = d.velocity <= 100 && d.amount <= 100 && d.pattern <= 100
                && d.counterparty <= 100 && d.geo <= 100 && d.history <= 100;
            &&& m.score_error(who, d) is None <==> !m.paused && m.scorers.contains(who) && in_range
            &&& !m.paused && !m.scorers.contains(who) ==> m.score_error(who, d) == Some(
                ComplianceError::Unauthorized,
            )
            &&& !m.paused && m.scorers.contains(who) && !in_range ==> m.score_error(who, d) == Some(
                ComplianceError::InvalidScore,
            )
            &&& m.admin_error() == if m.admin is Some {
                None
            } else {
                Some(ComplianceError::NotInitialized)
            }
            &&& m.add_scorer_error(who) == if m.admin is None {
                Some(ComplianceError::NotInitialized)
            } else if m.scorers.contains(who) {
                Some(ComplianceError::ScorerAlreadyAdded)
            } else {
                None
            }
            &&& m.remove_scorer_error(who) == if m.admin is None {
                Some(ComplianceError::NotInitialized)
            } else if m.scorers.contains(who) {
                None
            } else {
                Some(ComplianceError::ScorerNotFound)
            }
            &&& m.add_block_error(who) == if m.admin is None {
                Some(ComplianceError::NotInitialized)
            } else if m.blocklist.contains(who) {
                Some(ComplianceError::AddressAlreadyBlocklisted)
            } else {
                None
            }
            &&& m.remove_block_error(who) == if m.admin is None {
                Some(ComplianceError::NotInitialized)
            } else if m.blocklist.contains(who) {
                None
            } else {
                Some(ComplianceError::AddressNotBlocklisted)
            }
        }),
{
}

/// Every weight counts: weights are in order exactly when none of the six is
/// zero. They start out equal.
pub proof fn law_weights_in_order(w: ScoringWeights)
    ensures
        w.positive() <==> w.velocity >= 1 && w.amount >= 1 && w.pattern >= 1 && w.counterparty >= 1
            && w.geo >= 1 && w.history >= 1,
        ScoringWeights::equal() == (ScoringWeights {
            velocity: 1,
            amount: 1,
            pattern: 1,
            counterparty: 1,
            geo: 1,
            history: 1,
        }),
{
}

/// Each score has the one risk level whose range it lies in.
pub proof fn law_risk_levels_partition(score: int)
    ensures
        (level(score) == RiskLevel::Low) == (score < 30),
        (level(score) == RiskLevel::Medium) == (30 <= score < 60),
        (level(score) == RiskLevel::High) == (60 <= score < 85),
        (level(score) == RiskLevel::Blocked) == (score >= 85),
{
}

/// A recorded score can be read back, and other payments keep theirs.
pub proof fn law_scores_are_kept(
    m: ComplianceModel,
    payment_id: u64,
    payer: Address,
    amount: i128,
    d: DimensionScores,
    now: u32,
    other: u64,
)
    ensures
        ({
            let after = m.scored(payment_id, payer, amount, d, now);
            &&& after.scores.contains_key(payment_id)
            &&& after.scores[payment_id] == m.score(payment_id, payer, amount, d, now)
            &&& other != payment_id && m.scores.contains_key(other)
                ==> after.scores.contains_key(other) && after.scores[other] == m.scores[other]
        }),
{
}

/// As long as the counters have not reached their maximum, each score counts
/// once, in total and under its risk level.
pub proof fn law_history_counts_scorings(
    h: PayerHistory,
    risk_level: RiskLevel,
    score: u32,
    now: u32,
)
    requires
        h.total_scored < u32::MAX,
        h.total_blocked < u32::MAX,
        h.total_high < u32::MAX,
        h.total_medium < u32::MAX,
        h.score_sum + score <= u64::MAX,
    ensures
        ({
            let after = counted_history(h, risk_level, score as int, now);
            &&& after.total_scored == h.total_scored + 1
            &&& after.score_sum == h.score_sum + score
            &&& after.total_blocked == h.total_blocked + if risk_level == RiskLevel::Blocked {
                1int
            } else {
                0
            }
            &&& after.total_high == h.total_high + if risk_level == RiskLevel::High {
                1int
            } else {
                0
            }
            &&& after.total_medium == h.total_medium + if risk_level == RiskLevel::Medium {
                1int
            } else {
                0
            }
            &&& after.last_scored_at == now
        }),
{
}

/// A score that is counted under a risk level in a payer's history, and the
/// ledger at which it is.
pub struct HistoryUpdate {
    pub payer: Address,
    pub risk_level: RiskLevel,
    pub score: u32,
    pub now: u32,
}

/// The updates that concern the payer, in order.
pub open spec fn updates_of(updates: Seq<HistoryUpdate>, payer: Address) -> Seq<HistoryUpdate>
    decreases updates.len(),
{
    if updates.len() == 0 {
        Seq::empty()
    } else {
        let before = updates_of(updates.drop_last(), payer);
        if updates.last().payer == payer {
            before.push(updates.last())
        } else {
            before
        }
    }
}

/// The sum of the scores.
pub open spec fn total_score(given: Seq<HistoryUpdate>) -> int
    decreases given.len(),
{
    if given.len() == 0 {
        0
    } else {
        total_score(given.drop_last()) + given.last().score
    }
}

/// How many of the scores were counted under the risk level.
pub open spec fn count_at(given: Seq<HistoryUpdate>, wanted: RiskLevel) -> int
    decreases given.len(),
{
    if given.len() == 0 {
        0
    } else {
        count_at(given.drop_last(), wanted) + if given.last().risk_level == wanted {
            1int
        } else {
            0
        }
    }
}

/// Whether the history is the one that the updates make from none: it counts
/// each of them in total, in the sum and under its risk level, what is left
/// over being low; it holds the ledger of the latest; and its average is the
/// sum over the count, rounded down.
pub open spec fn tells_of(h: PayerHistory, given: Seq<HistoryUpdate>) -> bool {
    &&& h.total_scored == given.len()
    &&& h.score_sum == total_score(given)
    &&& h.total_blocked == count_at(given, RiskLevel::Blocked)
    &&& h.total_high == count_at(given, RiskLevel::High)
    &&& h.total_medium == count_at(given, RiskLevel::Medium)
    &&& h.total_scored == h.total_blocked + h.total_high + h.total_medium + count_at(
        given,
        RiskLevel::Low,
    )
    &&& h.last_scored_at == if given.len() == 0 {
        0
    } else {
        given.last().now
    }
    &&& average(h) == if given.len() == 0 {
        0
    } else {
        total_score(given) / given.len() as int
    }
}

proof fn lemma_counts(given: Seq<HistoryUpdate>)
    ensures
        0 <= total_score(given) <= u32::MAX * given.len(),
        forall|l: RiskLevel| 0 <= #[trigger] count_at(given, l) <= given.len(),
        count_at(given, RiskLevel::Blocked) + count_at(given, RiskLevel::High) + count_at(
            given,
            RiskLevel::Medium,
        ) + count_at(given, RiskLevel::Low) == given.len(),
    decreases given.len(),
{
    if given.len() > 0 {
        let before = given.drop_last();
        lemma_counts(before);
        assert forall|l: RiskLevel| 0 <= #[trigger] count_at(given, l) <= given.len() by {
            assert(0 <= count_at(before, l) <= before.len());
        }
    }
}

/// One more update of a history that tells of the ones before makes it tell
/// of all of them.
proof fn lemma_one_more_update(h: PayerHistory, before: Seq<HistoryUpdate>, u: HistoryUpdate)
    requires
        before.len() < u32::MAX,
        tells_of(h, before),
    ensures
        tells_of(
            counted_history(h, u.risk_level, u.score as int, u.now),
            before.push(u),
        ),
{
    let given = before.push(u);
    assert(given.drop_last() =~= before);
    lemma_counts(before);
    lemma_counts(given);
    let s = total_score(given);
    let n = given.len() as int;
    assert(0 <= s / n <= u32::MAX) by (nonlinear_arith)
        requires
            0 <= s <= u32::MAX * n,
            n > 0,
    ;
}

/// Whether the states belong to a run of updates: each update finds the
/// histories that the one before it left. The rest of the state may change in
/// between.
pub open spec fn is_run(states: Seq<ComplianceModel>, updates: Seq<HistoryUpdate>) -> bool {
    &&& states.len() == updates.len() + 1
    &&& forall|i: int|
        0 <= i < updates.len() ==> states[i + 1].histories == states[i].updated(
            (#[trigger] updates[i]).payer,
            updates[i].risk_level,
            updates[i].score as int,
            updates[i].now,
        ).histories
}

proof fn lemma_run_without_last(states: Seq<ComplianceModel>, updates: Seq<HistoryUpdate>)
    requires
        is_run(states, updates),
        updates.len() > 0,
    ensures
        is_run(states.drop_last(), updates.drop_last()),
{
    let s = states.drop_last();
    let c = updates.drop_last();
    assert forall|i: int| 0 <= i < c.len() implies s[i + 1].histories == s[i].updated(
        (#[trigger] c[i]).payer,
        c[i].risk_level,
        c[i].score as int,
        c[i].now,
    ).histories by {
        assert(c[i] == updates[i]);
    }
}

/// After a run of updates with any risk levels and scores, the history of a
/// payer that had none tells exactly of the updates that concern the payer,
/// as long as no counter has reached its maximum. Updates for other payers do
/// not count.
pub proof fn law_history_over_a_run(
    states: Seq<ComplianceModel>,
    updates: Seq<HistoryUpdate>,
    payer: Address,
)
    requires
        is_run(states, updates),
        states[0].history(payer) == no_history(),
        updates_of(updates, payer).len() <= u32::MAX,
    ensures
        tells_of(states.last().history(payer), updates_of(updates, payer)),
    decreases updates.len(),
{
    if updates.len() > 0 {
        let s = states.drop_last();
        let c = updates.drop_last();
        let u = updates.last();
        lemma_run_without_last(states, updates);
        law_history_over_a_run(s, c, payer);
        assert(u == updates[updates.len() - 1]);
        if u.payer == payer {
            lemma_one_more_update(s.last().history(payer), updates_of(c, payer), u);
        }
    }
}

/// A run of updates leaves the history of every payer that it does not
/// concern as it was.
pub proof fn law_other_histories_unchanged(
    states: Seq<ComplianceModel>,
    updates: Seq<HistoryUpdate>,
    other: Address,
)
    requires
        is_run(states, updates),
        forall|i: int| 0 <= i < updates.len() ==> (#[trigger] updates[i]).payer != other,
    ensures
        states.last().history(other) == states[0].history(other),
        updates_of(updates, other).len() == 0,
    decreases updates.len(),
{
    if updates.len() > 0 {
        let s = states.drop_last();
        let c = updates.drop_last();
        lemma_run_without_last(states, updates);
        assert forall|i: int| 0 <= i < c.len() implies (#[trigger] c[i]).payer != other by {
            assert(c[i] == updates[i]);
        }
        law_other_histories_unchanged(s, c, other);
        assert(updates.last() == updates[updates.len() - 1]);
    }
}

/// A call that scores a payment, and the ledger at which it is made.
pub struct Scoring {
    pub payment_id: u64,
    pub payer: Address,
    pub amount: i128,
    pub dimensions: DimensionScores,
    pub now: u32,
}

impl ComplianceModel {
    /// The state after a scoring.
    pub open spec fn after_scoring(self, call: Scoring) -> ComplianceModel {
        self.scored(call.payment_id, call.payer, call.amount, call.dimensions, call.now)
    }

    /// What a scoring adds to the payer's history: its overall score, under
    /// the risk level of that score.
    pub open spec fn update_by(self, call: Scoring) -> HistoryUpdate {
        let score = self.payment_overall(call.payer, call.dimensions);
        HistoryUpdate {
            payer: call.payer,
            risk_level: level(score),
            score: score as u32,
            now: call.now,
        }
    }
}

/// Whether the states belong to a run of scorings: each call finds the
/// histories that the one before it left. Between the calls the weights, the
/// blocklist and the rest of the state may change.
pub open spec fn is_scoring_run(states: Seq<ComplianceModel>, calls: Seq<Scoring>) -> bool {
    &&& states.len() == calls.len() + 1
    &&& forall|i: int|
        0 <= i < calls.len() ==> states[i].wf() && (#[trigger] calls[i]).dimensions.at_most(
            MAX_SCORE as int,
        ) && states[i + 1].histories == states[i].after_scoring(calls[i]).histories
}

/// What a run of scorings adds to the histories.
pub open spec fn updates_by(states: Seq<ComplianceModel>, calls: Seq<Scoring>) -> Seq<
    HistoryUpdate,
> {
    Seq::new(calls.len(), |i: int| states[i].update_by(calls[i]))
}

/// After a run of scorings of any payers, the history of a payer that had
/// none tells exactly of the scorings of that payer, each under the risk
/// level of its overall score.
pub proof fn law_payer_history_over_a_run(
    states: Seq<ComplianceModel>,
    calls: Seq<Scoring>,
    payer: Address,
)
    requires
        is_scoring_run(states, calls),
        states[0].history(payer) == no_history(),
        updates_of(updates_by(states, calls), payer).len() <= u32::MAX,
    ensures
        is_run(states, updates_by(states, calls)),
        tells_of(
            states.last().history(payer),
            updates_of(updates_by(states, calls), payer),
        ),
{
    let updates = updates_by(states, calls);
    assert forall|i: int| 0 <= i < updates.len() implies states[i + 1].histories
        == states[i].updated(
        (#[trigger] updates[i]).payer,
        updates[i].risk_level,
        updates[i].score as int,
        updates[i].now,
    ).histories by {
        let call = calls[i];
        law_overall_in_range(states[i], call.payer, call.dimensions);
    }
    law_history_over_a_run(states, updates, payer);
}

/// The average score is in range, as long as the count of scorings has not
/// reached its maximum.
pub proof fn law_average_in_range(h: PayerHistory)
    requires
        history_wf(h),
        h.total_scored < u32::MAX,
    ensures
        average(h) <= MAX_SCORE,
        h.total_scored > 0 ==> average(h) == h.score_sum as int / h.total_scored as int,
{
    if h.total_scored > 0 {
        let s = h.score_sum as int;
        let n = h.total_scored as int;
        assert(0 <= s / n <= 100) by (nonlinear_arith)
            requires
                0 <= s <= 100 * n,
                n > 0,
        ;
    }
}

/// A paused contract scores nothing.
pub proof fn law_pause_stops_scoring(m: ComplianceModel, scorer: Address, d: DimensionScores)
    requires
        m.paused,
    ensures
        m.score_error(scorer, d) == Some(ComplianceError::ContractPaused),
{
}

/// Adding and removing undo each other, for scorers and for the blocklist.
pub proof fn law_membership_round_trip(m: ComplianceModel, who: Address)
    ensures
        m.add_scorer_error(who) is None ==> m.scorers.insert(who).remove(who) == m.scorers,
        m.add_block_error(who) is None ==> m.blocklist.insert(who).remove(who) == m.blocklist,
{
    if m.add_scorer_error(who) is None {
        assert(m.scorers.insert(who).remove(who) =~= m.scorers);
    }
    if m.add_block_error(who) is None {
        assert(m.blocklist.insert(who).remove(who) =~= m.blocklist);
    }
}

/// The numbers under which callers see the values are fixed.
pub proof fn law_risk_level_numbers(v: RiskLevel)
    ensures
        v is Low ==> v.number() == 0,
        v is Medium ==> v.number() == 1,
        v is High ==> v.number() == 2,
        v is Blocked ==> v.number() == 3,
{
}

/// The numbers under which callers see the values are fixed.
pub proof fn law_compliance_error_numbers(v: ComplianceError)
    ensures
        v is AlreadyInitialized ==> v.number() == 1,
        v is NotInitialized ==> v.number() == 2,
        v is Unauthorized ==> v.number() == 3,
        v is ContractPaused ==> v.number() == 4,
        v is InvalidScore ==> v.number() == 5,
        v is InvalidWeight ==> v.number() == 6,
        v is ScorerAlreadyAdded ==> v.number() == 7,
        v is ScorerNotFound ==> v.number() == 8,
        v is PaymentNotFound ==> v.number() == 9,
        v is AddressAlreadyBlocklisted ==> v.number() == 10,
        v is AddressNotBlocklisted ==> v.number() == 11,
{
}

/// The topics under which the events are announced are fixed.
pub proof fn law_compliance_event_topics(v: ComplianceEvent)
    ensures
        v is Initialized ==> v.topic_names() == ("comply"@, "init"@),
        v is ScorerAdded ==> v.topic_names() == ("comply"@, "scr_add"@),
        v is ScorerRemoved ==> v.topic_names() == ("comply"@, "scr_rm"@),
        v is BlocklistAdded ==> v.topic_names() == ("comply"@, "blk_add"@),
        v is BlocklistRemoved ==> v.topic_names() == ("comply"@, "blk_rm"@),
        v is WeightsUpdated ==> v.topic_names() == ("comply"@, "wt_upd"@),
        v is Scored ==> v.topic_names() == ("comply"@, "scored"@),
        v is Paused ==> v.topic_names() == ("comply"@, "paused"@),
        v is Unpaused ==> v.topic_names() == ("comply"@, "unpaused"@),
        v is AdminTransferred ==> v.topic_names() == ("comply"@, "adm_xfer"@),
{
}

} // verus!
