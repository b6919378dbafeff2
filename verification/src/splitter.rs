//! Splits incoming payments among recipients by basis points or by fixed
//! amounts, with vesting schedules and conditional shares.
//!
//! Fixed recipients are paid first. What is left is divided among the
//! percentage recipients, and the dust of the integer division goes to the
//! first of them.
use crate::address::Address;
use crate::env::Env;
use vstd::prelude::*;

verus! {

/// Basis points that make up the whole.
pub const BPS_TOTAL: u32 = 10_000;

/// How a recipient's share is measured.
#[derive(Clone, Copy, Debug, PartialEq, Eq)]
pub enum SplitKind {
    /// Share expressed in basis points (1 bps = 0.01 %).
    Percentage(u32),
    /// Exact token amount taken off the top before percentage splits.
    Fixed(i128),
}

/// One recipient of a payment.
#[derive(Clone, Copy, Debug, PartialEq, Eq)]
pub struct Split {
    pub recipient: Address,
    pub kind: SplitKind,
    /// Cumulative amount received over the contract's lifetime.
    pub total_received: i128,
}

/// Failures of the splitter.
#[derive(Clone, Copy, Debug, PartialEq, Eq)]
pub enum Error {
    AlreadyInitialized,
    NotInitialized,
    Unauthorized,
    InvalidShares,
    EmptyRecipients,
    ZeroAmount,
    InsufficientForFixed,
    InvalidFixedAmount,
}

impl Error {
    /// The number under which callers see the failure.
    pub open spec fn number(self) -> u32 {
        match self {
            Error::AlreadyInitialized => 1,
            Error::NotInitialized => 2,
            Error::Unauthorized => 3,
            Error::InvalidShares => 4,
            Error::EmptyRecipients => 5,
            Error::ZeroAmount => 6,
            Error::InsufficientForFixed => 7,
            Error::InvalidFixedAmount => 8,
        }
    }

    /// The number under which callers see the failure.
    pub fn code(&self) -> (r: u32)
        ensures
            r == self.number(),
    {
        match self {
            Error::AlreadyInitialized => 1,
            Error::NotInitialized => 2,
            Error::Unauthorized => 3,
            Error::InvalidShares => 4,
            Error::EmptyRecipients => 5,
            Error::ZeroAmount => 6,
            Error::InsufficientForFixed => 7,
            Error::InvalidFixedAmount => 8,
        }
    }
}

/// A split that vests over time.
#[derive(Clone, Copy, Debug, PartialEq, Eq)]
pub struct SplitSchedule {
    pub recipient: Address,
    pub amount_per_period: i128,
    pub period_ledgers: u32,
    pub periods_remaining: u32,
    pub last_payout_ledger: u32,
}

/// When a conditional split applies to a payment.
#[derive(Clone, Copy, Debug, PartialEq, Eq)]
pub enum ConditionType {
    /// The payment is at least the threshold.
    MinimumAmount,
    /// The payment is at most the threshold.
    MaximumAmount,
    /// Always.
    TimeWindow,
}

/// A share that is paid only when its condition holds.
#[derive(Clone, Copy, Debug, PartialEq, Eq)]
pub struct ConditionalSplit {
    pub recipient: Address,
    pub condition_type: ConditionType,
    pub threshold: i128,
    pub percentage: u32,
}

/// What the splitter announces.
#[derive(Clone, Copy, Debug, PartialEq, Eq)]
pub enum SplitterEvent {
    Split { from: Address, amount: i128 },
    SplitsUpdated { count: u32 },
    ScheduleAdded { recipient: Address, amount_per_period: i128, periods: u32 },
    SchedulePaid { recipient: Address, amount: i128 },
    ConditionAdded { recipient: Address, threshold: i128, percentage: u32 },
    ConditionalSplit { from: Address, amount: i128, conditional_amount: i128 },
}

impl SplitterEvent {
    /// The two topics of the event.
    pub open spec fn topic_names(self) -> (Seq<char>, Seq<char>) {
        (
            "splitter"@,
            match self {
                SplitterEvent::Split { .. } => "split"@,
                SplitterEvent::SplitsUpdated { .. } => "splits_up"@,
                SplitterEvent::ScheduleAdded { .. } => "sch_add"@,
                SplitterEvent::SchedulePaid { .. } => "sch_pay"@,
                SplitterEvent::ConditionAdded { .. } => "cond_add"@,
                SplitterEvent::ConditionalSplit { .. } => "cond_spl"@,
            },
        )
    }

    /// The two topics of the event.
    pub fn topics(&self) -> (r: (&'static str, &'static str))
        ensures
            (r.0@, r.1@) == self.topic_names(),
    {
        let name = match self {
            SplitterEvent::Split { .. } => "split",
            SplitterEvent::SplitsUpdated { .. } => "splits_up",
            SplitterEvent::ScheduleAdded { .. } => "sch_add",
            SplitterEvent::SchedulePaid { .. } => "sch_pay",
            SplitterEvent::ConditionAdded { .. } => "cond_add",
            SplitterEvent::ConditionalSplit { .. } => "cond_spl",
        };
        ("splitter", name)
    }
}

/// The surroundings of a call of the splitter.
pub type SplitterEnv = Env<(), SplitterEvent>;

/// The splitter's state.
pub struct PaymentSplitter {
    pub admin: Option<Address>,
    pub token: Option<Address>,
    pub splits: Vec<Split>,
    pub total_in: i128,
    pub schedules: Vec<SplitSchedule>,
    pub conditionals: Vec<ConditionalSplit>,
}

/// The mathematical value of the splitter's state.
#[verifier::ext_equal]
pub struct SplitterModel {
    pub admin: Option<Address>,
    pub token: Option<Address>,
    pub splits: Seq<Split>,
    pub total_in: i128,
    pub schedules: Seq<SplitSchedule>,
    pub conditionals: Seq<ConditionalSplit>,
}

impl View for PaymentSplitter {
    type V = SplitterModel;

    open spec fn view(&self) -> SplitterModel {
        SplitterModel {
            admin: self.admin,
            token: self.token,
            splits: self.splits@,
            total_in: self.total_in,
            schedules: self.schedules@,
            conditionals: self.conditionals@,
        }
    }
}

/// What is wrong with one share, if anything.
pub open spec fn kind_error(k: SplitKind) -> Option<Error> {
    match k {
        SplitKind::Percentage(bps) => if bps == 0 || bps > BPS_TOTAL {
            Some(Error::InvalidShares)
        } else {
            None
        },
        SplitKind::Fixed(amount) => if amount <= 0 {
            Some(Error::InvalidFixedAmount)
        } else {
            None
        },
    }
}

/// What is wrong with the first bad share among the first `n`, if any is bad.
pub open spec fn first_kind_error(s: Seq<Split>, n: int) -> Option<Error>
    decreases n,
{
    if n <= 0 {
        None
    } else {
        match first_kind_error(s, n - 1) {
            Some(e) => Some(e),
            None => kind_error(s[n - 1].kind),
        }
    }
}

/// Basis points of a share.
pub open spec fn bps_of(k: SplitKind) -> int {
    match k {
        SplitKind::Percentage(bps) => bps as int,
        SplitKind::Fixed(_) => 0,
    }
}

/// Fixed amount of a share.
pub open spec fn fixed_of(k: SplitKind) -> int {
    match k {
        SplitKind::Percentage(_) => 0,
        SplitKind::Fixed(amount) => amount as int,
    }
}

/// Sum of the basis points of the first `n` shares.
pub open spec fn bps_sum(s: Seq<Split>, n: int) -> int
    decreases n,
{
    if n <= 0 {
        0
    } else {
        bps_sum(s, n - 1) + bps_of(s[n - 1].kind)
    }
}

/// Sum of the fixed amounts of the first `n` shares.
pub open spec fn fixed_sum(s: Seq<Split>, n: int) -> int
    decreases n,
{
    if n <= 0 {
        0
    } else {
        fixed_sum(s, n - 1) + fixed_of(s[n - 1].kind)
    }
}

/// Why a list of splits is refused, if it is.
pub open spec fn splits_error(s: Seq<Split>) -> Option<Error> {
    if s.len() == 0 {
        Some(Error::EmptyRecipients)
    } else {
        match first_kind_error(s, s.len() as int) {
            Some(e) => Some(e),
            None => {
                let total = bps_sum(s, s.len() as int);
                if total == 0 || total == BPS_TOTAL {
                    None
                } else {
                    Some(Error::InvalidShares)
                }
            },
        }
    }
}

/// A percentage of an amount, rounded toward zero.
pub open spec fn share(amount: int, bps: int) -> int {
    crate::num::div_trunc(amount * bps, BPS_TOTAL as int)
}

/// What the first `n` shares take of the amount left for percentages.
pub open spec fn share_sum(s: Seq<Split>, left: int, n: int) -> int
    decreases n,
{
    if n <= 0 {
        0
    } else {
        share_sum(s, left, n - 1) + share(left, bps_of(s[n - 1].kind))
    }
}

/// Whether share `i` is the first percentage.
pub open spec fn first_percentage(s: Seq<Split>, i: int) -> bool {
    s[i].kind is Percentage && forall|j: int| 0 <= j < i ==> (#[trigger] s[j]).kind is Fixed
}

/// Whether any of the first `n` shares is a percentage.
pub open spec fn any_percentage(s: Seq<Split>, n: int) -> bool {
    exists|j: int| 0 <= j < n && (#[trigger] s[j]).kind is Percentage
}

/// What the integer division leaves over.
pub open spec fn dust(s: Seq<Split>, left: int) -> int {
    left - share_sum(s, left, s.len() as int)
}

/// What share `i` gets when `amount` is divided.
pub open spec fn payout(s: Seq<Split>, amount: int, i: int) -> int {
    let left = amount - fixed_sum(s, s.len() as int);
    match s[i].kind {
        SplitKind::Fixed(fixed) => fixed as int,
        SplitKind::Percentage(bps) => share(left, bps as int) + if first_percentage(s, i) {
            dust(s, left)
        } else {
            0
        },
    }
}

/// Sum of the first `n` payouts.
pub open spec fn payout_sum(s: Seq<Split>, amount: int, n: int) -> int
    decreases n,
{
    if n <= 0 {
        0
    } else {
        payout_sum(s, amount, n - 1) + payout(s, amount, n - 1)
    }
}

/// Whether the amount does not cover the fixed shares.
pub open spec fn short_for_fixed(s: Seq<Split>, amount: int) -> bool {
    fixed_sum(s, s.len() as int) > if amount >= 0 {
        amount
    } else {
        0
    }
}

/// The part of a payout that is transferred.
pub open spec fn transferred(payout: int) -> int {
    if payout > 0 {
        payout
    } else {
        0
    }
}

/// The split after its payout was transferred.
pub open spec fn credited(s: Seq<Split>, amount: int, i: int) -> Split {
    Split {
        total_received: (s[i].total_received + transferred(payout(s, amount, i))) as i128,
        ..s[i]
    }
}

/// The splits after `amount` was divided among them.
pub open spec fn credited_all(s: Seq<Split>, amount: int) -> Seq<Split> {
    Seq::new(s.len(), |i: int| credited(s, amount, i))
}

/// The surroundings after the first `n` payouts were transferred.
pub open spec fn paid(
    e: crate::env::EnvModel<(), SplitterEvent>,
    token: Address,
    s: Seq<Split>,
    amount: int,
    n: int,
) -> crate::env::EnvModel<(), SplitterEvent>
    decreases n,
{
    if n <= 0 {
        e
    } else {
        let before = paid(e, token, s, amount, n - 1);
        let due = payout(s, amount, n - 1);
        if due > 0 {
            before.transfer(token, e.contract, s[n - 1].recipient, due as i128)
        } else {
            before
        }
    }
}

/// Whether the machine integers hold the division of `amount`.
pub open spec fn division_fits(s: Seq<Split>, amount: int) -> bool {
    let left = amount - fixed_sum(s, s.len() as int);
    &&& forall|i: int|
        0 <= i < s.len() && (#[trigger] s[i]).kind is Percentage ==> i128::MIN <= left * bps_of(
            s[i].kind,
        ) <= i128::MAX
    &&& forall|i: int|
        0 <= i < s.len() ==> (#[trigger] s[i]).total_received + transferred(payout(s, amount, i))
            <= i128::MAX
}

/// Whether a conditional share applies to the payment.
pub open spec fn condition_holds(c: ConditionalSplit, amount: int) -> bool {
    match c.condition_type {
        ConditionType::MinimumAmount => amount >= c.threshold,
        ConditionType::MaximumAmount => amount <= c.threshold,
        ConditionType::TimeWindow => true,
    }
}

/// What a conditional share takes of the payment.
pub open spec fn condition_payout(c: ConditionalSplit, amount: int) -> int {
    if condition_holds(c, amount) {
        share(amount, c.percentage as int)
    } else {
        0
    }
}

/// What the first `n` conditional shares take of the payment.
pub open spec fn condition_sum(c: Seq<ConditionalSplit>, amount: int, n: int) -> int
    decreases n,
{
    if n <= 0 {
        0
    } else {
        condition_sum(c, amount, n - 1) + condition_payout(c[n - 1], amount)
    }
}

/// The surroundings after the first `n` conditional shares were transferred.
pub open spec fn conditions_paid(
    e: crate::env::EnvModel<(), SplitterEvent>,
    token: Address,
    c: Seq<ConditionalSplit>,
    amount: int,
    n: int,
) -> crate::env::EnvModel<(), SplitterEvent>
    decreases n,
{
    if n <= 0 {
        e
    } else {
        let before = conditions_paid(e, token, c, amount, n - 1);
        if condition_holds(c[n - 1], amount) {
            before.transfer(
                token,
                e.contract,
                c[n - 1].recipient,
                condition_payout(c[n - 1], amount) as i128,
            )
        } else {
            before
        }
    }
}

/// Whether the machine integers hold the conditional shares of `amount`.
pub open spec fn conditions_fit(c: Seq<ConditionalSplit>, amount: int) -> bool {
    &&& forall|i: int|
        0 <= i < c.len() && condition_holds(#[trigger] c[i], amount) ==> amount * c[i].percentage
            <= i128::MAX
    &&& condition_sum(c, amount, c.len() as int) <= i128::MAX
}

/// Whether a schedule pays at the ledger.
pub open spec fn schedule_due(s: SplitSchedule, ledger: int) -> bool {
    let elapsed = if ledger >= s.last_payout_ledger {
        ledger - s.last_payout_ledger
    } else {
        0
    };
    elapsed >= s.period_ledgers && s.periods_remaining > 0
}

/// The schedule after it was processed at the ledger.
pub open spec fn schedule_after(s: SplitSchedule, ledger: u32) -> SplitSchedule {
    if schedule_due(s, ledger as int) {
        SplitSchedule {
            last_payout_ledger: ledger,
            periods_remaining: (s.periods_remaining - 1) as u32,
            ..s
        }
    } else {
        s
    }
}

/// The schedules that stay among the first `n` once they are processed.
pub open spec fn schedules_after(s: Seq<SplitSchedule>, ledger: u32, n: int) -> Seq<SplitSchedule>
    decreases n,
{
    if n <= 0 {
        Seq::empty()
    } else {
        let before = schedules_after(s, ledger, n - 1);
        let next = schedule_after(s[n - 1], ledger);
        if next.periods_remaining > 0 {
            before.push(next)
        } else {
            before
        }
    }
}

/// How many of the first `n` schedules pay at the ledger.
pub open spec fn schedules_due(s: Seq<SplitSchedule>, ledger: u32, n: int) -> nat
    decreases n,
{
    if n <= 0 {
        0
    } else {
        schedules_due(s, ledger, n - 1) + if schedule_due(s[n - 1], ledger as int) {
            1nat
        } else {
            0nat
        }
    }
}

/// The surroundings after the first `n` schedules were processed.
pub open spec fn schedules_paid(
    e: crate::env::EnvModel<(), SplitterEvent>,
    token: Address,
    s: Seq<SplitSchedule>,
    n: int,
) -> crate::env::EnvModel<(), SplitterEvent>
    decreases n,
{
    if n <= 0 {
        e
    } else {
        let before = schedules_paid(e, token, s, n - 1);
        let sched = s[n - 1];
        if schedule_due(sched, e.sequence as int) {
            before.transfer(token, e.contract, sched.recipient, sched.amount_per_period).event(
                SplitterEvent::SchedulePaid {
                    recipient: sched.recipient,
                    amount: sched.amount_per_period,
                },
            )
        } else {
            before
        }
    }
}

impl SplitterModel {
    /// Once an administrator is set, a token and valid splits are too.
    pub open spec fn wf(self) -> bool {
        &&& self.admin is Some ==> self.token is Some && splits_error(self.splits) is None
        &&& forall|i: int|
            0 <= i < self.conditionals.len() ==> 0 < (#[trigger] self.conditionals[i]).percentage
                <= BPS_TOTAL
        &&& self.splits.len() <= u32::MAX
        &&& self.schedules.len() <= u32::MAX
        &&& self.conditionals.len() <= u32::MAX
    }

    /// Whether the machine integers hold a split of `amount`.
    pub open spec fn split_fits(self, amount: int) -> bool {
        amount > 0 && self.admin is Some ==> {
            &&& self.total_in + amount <= i128::MAX
            &&& short_for_fixed(self.splits, amount) || division_fits(self.splits, amount)
        }
    }

    /// Whether the machine integers hold a conditional split of `amount`.
    pub open spec fn conditional_split_fits(self, amount: int) -> bool {
        let left = amount - condition_sum(
            self.conditionals,
            amount,
            self.conditionals.len() as int,
        );
        amount > 0 && self.admin is Some ==> {
            &&& self.total_in + amount <= i128::MAX
            &&& conditions_fit(self.conditionals, amount)
            &&& short_for_fixed(self.splits, left) || division_fits(self.splits, left)
        }
    }
}

broadcast use {crate::env::lemma_received_push, crate::env::lemma_sent_push};

proof fn lemma_kinds_ok(s: Seq<Split>, n: int, i: int)
    requires
        first_kind_error(s, n) is None,
        0 <= i < n,
    ensures
        kind_error(s[i].kind) is None,
    decreases n,
{
    if i < n - 1 {
        lemma_kinds_ok(s, n - 1, i);
    }
}

proof fn lemma_first_error_persists(s: Seq<Split>, i: int, n: int)
    requires
        0 <= i <= n,
        first_kind_error(s, i) is Some,
    ensures
        first_kind_error(s, n) == first_kind_error(s, i),
    decreases n,
{
    if i < n {
        lemma_first_error_persists(s, i, n - 1);
    }
}

proof fn lemma_fixed_monotone(s: Seq<Split>, i: int, n: int)
    requires
        first_kind_error(s, n) is None,
        0 <= i <= n,
    ensures
        fixed_sum(s, i) <= fixed_sum(s, n),
        0 <= fixed_sum(s, i),
    decreases n,
{
    if i < n {
        lemma_fixed_monotone(s, i, n - 1);
    } else if n > 0 {
        lemma_fixed_monotone(s, n - 1, n - 1);
    }
}

proof fn lemma_bps_monotone(s: Seq<Split>, i: int, n: int)
    requires
        0 <= i <= n,
    ensures
        0 <= bps_sum(s, i) <= bps_sum(s, n),
    decreases n,
{
    if i < n {
        lemma_bps_monotone(s, i, n - 1);
    } else if n > 0 {
        lemma_bps_monotone(s, n - 1, n - 1);
    }
}

/// A share lies between zero and its exact value, and is the exact value when
/// the share is the whole.
proof fn lemma_share(left: int, bps: int)
    requires
        bps >= 0,
    ensures
        left >= 0 ==> 0 <= share(left, bps) && share(left, bps) * BPS_TOTAL <= left * bps
            < share(left, bps) * BPS_TOTAL + BPS_TOTAL,
        left < 0 ==> share(left, bps) <= 0 && left * bps <= share(left, bps) * BPS_TOTAL
            < left * bps + BPS_TOTAL,
{
    let p = left * bps;
    assert(left >= 0 ==> p >= 0) by (nonlinear_arith)
        requires
            bps >= 0,
            p == left * bps,
    ;
    assert(left < 0 ==> p <= 0) by (nonlinear_arith)
        requires
            bps >= 0,
            p == left * bps,
    ;
}

proof fn lemma_share_sum(s: Seq<Split>, left: int, n: int)
    requires
        0 <= n,
    ensures
        left >= 0 ==> 0 <= share_sum(s, left, n) && share_sum(s, left, n) * BPS_TOTAL <= left
            * bps_sum(s, n),
        left < 0 ==> share_sum(s, left, n) <= 0 && left * bps_sum(s, n) <= share_sum(s, left, n)
            * BPS_TOTAL,
    decreases n,
{
    if n == 0 {
        assert(left * 0 == 0) by (nonlinear_arith);
    } else {
        lemma_share_sum(s, left, n - 1);
        let b = bps_of(s[n - 1].kind);
        lemma_share(left, b);
        let a = bps_sum(s, n - 1);
        assert(left * (a + b) == left * a + left * b) by (nonlinear_arith);
    }
}

proof fn lemma_share_sum_bounded(s: Seq<Split>, left: int, n: int)
    requires
        0 <= n <= s.len(),
        bps_sum(s, s.len() as int) <= BPS_TOTAL,
    ensures
        left >= 0 ==> 0 <= share_sum(s, left, n) <= left,
        left < 0 ==> left <= share_sum(s, left, n) <= 0,
{
    lemma_share_sum(s, left, n);
    lemma_bps_monotone(s, n, s.len() as int);
    let b = bps_sum(s, n);
    if left >= 0 {
        assert(left * b <= left * 10_000) by (nonlinear_arith)
            requires
                left >= 0,
                b <= 10_000,
        ;
    } else {
        assert(left * b >= left * 10_000) by (nonlinear_arith)
            requires
                left < 0,
                b <= 10_000,
        ;
    }
}

/// A percentage together with the dust stays between zero and the amount.
proof fn lemma_first_payout_bounded(s: Seq<Split>, left: int, i: int)
    requires
        0 <= i < s.len(),
        bps_sum(s, s.len() as int) <= BPS_TOTAL,
    ensures
        left >= 0 ==> 0 <= share(left, bps_of(s[i].kind)) + dust(s, left) <= left,
        left < 0 ==> left <= share(left, bps_of(s[i].kind)) + dust(s, left) <= 0,
{
    lemma_share_sum_bounded(s, left, s.len() as int);
    lemma_share(left, bps_of(s[i].kind));
    lemma_share_among_sum(s, left, i, s.len() as int);
}

proof fn lemma_share_among_sum(s: Seq<Split>, left: int, i: int, n: int)
    requires
        0 <= i < n,
    ensures
        left >= 0 ==> share(left, bps_of(s[i].kind)) <= share_sum(s, left, n),
        left < 0 ==> share_sum(s, left, n) <= share(left, bps_of(s[i].kind)),
    decreases n,
{
    lemma_share(left, bps_of(s[n - 1].kind));
    if i < n - 1 {
        lemma_share_among_sum(s, left, i, n - 1);
    } else {
        lemma_share_sum(s, left, n - 1);
    }
}

proof fn lemma_no_percentage(s: Seq<Split>, n: int, left: int)
    requires
        0 <= n,
        !any_percentage(s, n),
    ensures
        bps_sum(s, n) == 0,
        share_sum(s, left, n) == 0,
    decreases n,
{
    if n > 0 {
        assert(!(s[n - 1].kind is Percentage));
        assert(!any_percentage(s, n - 1));
        lemma_no_percentage(s, n - 1, left);
        assert(left * 0 == 0) by (nonlinear_arith);
    }
}

/// The payouts of the first `n` shares are their fixed amounts and floor
/// shares, plus the dust once a percentage is among them.
proof fn lemma_payout_sum(s: Seq<Split>, amount: int, n: int)
    requires
        0 <= n <= s.len(),
    ensures
        payout_sum(s, amount, n) == fixed_sum(s, n) + share_sum(
            s,
            amount - fixed_sum(s, s.len() as int),
            n,
        ) + if any_percentage(s, n) {
            dust(s, amount - fixed_sum(s, s.len() as int))
        } else {
            0
        },
    decreases n,
{
    let left = amount - fixed_sum(s, s.len() as int);
    if n > 0 {
        lemma_payout_sum(s, amount, n - 1);
        assert(left * 0 == 0) by (nonlinear_arith);
        if s[n - 1].kind is Percentage {
            assert(any_percentage(s, n));
            assert(first_percentage(s, n - 1) == !any_percentage(s, n - 1)) by {
                if !any_percentage(s, n - 1) {
                    assert forall|j: int| 0 <= j < n - 1 implies (#[trigger] s[j]).kind is Fixed by {
                        assert(!(s[j].kind is Percentage));
                    }
                }
            }
        } else {
            assert(any_percentage(s, n) == any_percentage(s, n - 1)) by {
                if any_percentage(s, n) {
                    let j = choose|j: int| 0 <= j < n && (#[trigger] s[j]).kind is Percentage;
                    assert(j < n - 1);
                }
                if any_percentage(s, n - 1) {
                    let j = choose|j: int| 0 <= j < n - 1 && (#[trigger] s[j]).kind is Percentage;
                    assert(0 <= j < n && s[j].kind is Percentage);
                }
            }
        }
    }
}

/// Subtracts the fixed shares from the amount, or reports that it does not
/// cover them.
fn take_fixed(splits: &Vec<Split>, amount: i128) -> (r: Option<i128>)
    requires
        first_kind_error(splits@, splits@.len() as int) is None,
    ensures
        r == if short_for_fixed(splits@, amount as int) {
            None
        } else {
            Some((amount - fixed_sum(splits@, splits@.len() as int)) as i128)
        },
        r matches Some(left) ==> left == amount - fixed_sum(splits@, splits@.len() as int),
{
    let mut left: i128 = amount;
    let mut i: usize = 0;
    let ghost n = splits@.len() as int;
    while i < splits.len()
        invariant
            i <= splits@.len(),
            n == splits@.len(),
            first_kind_error(splits@, n) is None,
            left == amount - fixed_sum(splits@, i as int),
            fixed_sum(splits@, i as int) == 0 || left >= 0,
            0 <= fixed_sum(splits@, i as int),
        decreases splits@.len() - i,
    {
        proof {
            lemma_kinds_ok(splits@, n, i as int);
        }
        match splits[i].kind {
            SplitKind::Fixed(fixed) => {
                if left < fixed {
                    proof {
                        lemma_fixed_monotone(splits@, i + 1, n);
                    }
                    return None;
                }
                left = left - fixed;
            },
            SplitKind::Percentage(_) => {},
        }
        i = i + 1;
    }
    Some(left)
}

/// The floor shares of the percentage recipients, zero for the others, and
/// their sum.
fn floor_shares(splits: &Vec<Split>, left: i128) -> (r: (Vec<i128>, i128))
    requires
        bps_sum(splits@, splits@.len() as int) <= BPS_TOTAL,
        forall|i: int|
            0 <= i < splits@.len() && (#[trigger] splits@[i]).kind is Percentage ==> i128::MIN
                <= left * bps_of(splits@[i].kind) <= i128::MAX,
    ensures
        r.0@.len() == splits@.len(),
        forall|i: int|
            0 <= i < splits@.len() ==> (#[trigger] r.0@[i]) == share(
                left as int,
                bps_of(splits@[i].kind),
            ),
        r.1 == share_sum(splits@, left as int, splits@.len() as int),
{
    let mut shares: Vec<i128> = Vec::new();
    let mut distributed: i128 = 0;
    let mut i: usize = 0;
    while i < splits.len()
        invariant
            i <= splits@.len(),
            bps_sum(splits@, splits@.len() as int) <= BPS_TOTAL,
            forall|i: int|
                0 <= i < splits@.len() && (#[trigger] splits@[i]).kind is Percentage ==> i128::MIN
                    <= left * bps_of(splits@[i].kind) <= i128::MAX,
            shares@.len() == i,
            forall|j: int|
                0 <= j < i ==> (#[trigger] shares@[j]) == share(
                    left as int,
                    bps_of(splits@[j].kind),
                ),
            distributed == share_sum(splits@, left as int, i as int),
        decreases splits@.len() - i,
    {
        proof {
            lemma_share_sum_bounded(splits@, left as int, i as int);
            lemma_share_sum_bounded(splits@, left as int, i + 1);
            assert(left * 0 == 0) by (nonlinear_arith);
        }
        match splits[i].kind {
            SplitKind::Percentage(bps) => {
                assert(splits@[i as int].kind is Percentage);
                let part: i128 = left * (bps as i128) / (BPS_TOTAL as i128);
                shares.push(part);
                distributed = distributed + part;
            },
            SplitKind::Fixed(_) => {
                shares.push(0i128);
            },
        }
        i = i + 1;
    }
    (shares, distributed)
}

/// The payout of each share of `amount`, given what is left for percentages.
fn payouts(splits: &Vec<Split>, amount: i128, left: i128) -> (r: Vec<i128>)
    requires
        splits_error(splits@) is None,
        left == amount - fixed_sum(splits@, splits@.len() as int),
        forall|i: int|
            0 <= i < splits@.len() && (#[trigger] splits@[i]).kind is Percentage ==> i128::MIN
                <= left * bps_of(splits@[i].kind) <= i128::MAX,
    ensures
        r@.len() == splits@.len(),
        forall|i: int|
            0 <= i < splits@.len() ==> (#[trigger] r@[i]) == payout(splits@, amount as int, i),
{
    let (shares, distributed) = floor_shares(splits, left);
    proof {
        lemma_share_sum_bounded(splits@, left as int, splits@.len() as int);
    }
    let remainder: i128 = left - distributed;
    let mut out: Vec<i128> = Vec::new();
    let mut seen_percentage = false;
    let mut i: usize = 0;
    while i < splits.len()
        invariant
            i <= splits@.len(),
            splits_error(splits@) is None,
            left == amount - fixed_sum(splits@, splits@.len() as int),
            shares@.len() == splits@.len(),
            forall|j: int|
                0 <= j < splits@.len() ==> (#[trigger] shares@[j]) == share(
                    left as int,
                    bps_of(splits@[j].kind),
                ),
            remainder == dust(splits@, left as int),
            out@.len() == i,
            forall|j: int|
                0 <= j < i ==> (#[trigger] out@[j]) == payout(splits@, amount as int, j),
            seen_percentage == any_percentage(splits@, i as int),
        decreases splits@.len() - i,
    {
        let ghost s = splits@;
        match splits[i].kind {
            SplitKind::Fixed(fixed) => {
                out.push(fixed);
                proof {
                    if any_percentage(s, i + 1) {
                        let j = choose|j: int| 0 <= j < i + 1 && (#[trigger] s[j]).kind is Percentage;
                        assert(0 <= j < i && s[j].kind is Percentage);
                    }
                    if any_percentage(s, i as int) {
                        let j = choose|j: int| 0 <= j < i && (#[trigger] s[j]).kind is Percentage;
                        assert(0 <= j < i + 1 && s[j].kind is Percentage);
                    }
                }
            },
            SplitKind::Percentage(bps) => {
                let base: i128 = shares[i];
                assert(base == share(left as int, bps_of(s[i as int].kind)));
                proof {
                    assert(first_percentage(s, i as int) == !any_percentage(s, i as int)) by {
                        if !any_percentage(s, i as int) {
                            assert forall|j: int| 0 <= j < i implies (#[trigger] s[j]).kind is Fixed by {
                                assert(!(s[j].kind is Percentage));
                            }
                        }
                    }
                    lemma_share(left as int, bps as int);
                    lemma_first_payout_bounded(s, left as int, i as int);
                }
                if seen_percentage {
                    out.push(base);
                } else {
                    out.push(base + remainder);
                }
                seen_percentage = true;
                assert(0 <= i < i + 1 && s[i as int].kind is Percentage);
            },
        }
        i = i + 1;
    }
    out
}

/// Validity depends on the kinds of the shares alone.
proof fn lemma_same_kinds(s: Seq<Split>, t: Seq<Split>, n: int)
    requires
        s.len() == t.len(),
        n <= s.len(),
        forall|i: int| 0 <= i < s.len() ==> (#[trigger] s[i]).kind == t[i].kind,
    ensures
        first_kind_error(s, n) == first_kind_error(t, n),
        bps_sum(s, n) == bps_sum(t, n),
    decreases n,
{
    if n > 0 {
        lemma_same_kinds(s, t, n - 1);
        assert(s[n - 1].kind == t[n - 1].kind);
    }
}

/// Transfers every positive payout and credits it to its split.
fn pay_all(
    splits: &Vec<Split>,
    amount: i128,
    payouts: &Vec<i128>,
    token: &Address,
    env: &mut SplitterEnv,
) -> (r: Vec<Split>)
    requires
        payouts@.len() == splits@.len(),
        forall|i: int|
            0 <= i < splits@.len() ==> (#[trigger] payouts@[i]) == payout(
                splits@,
                amount as int,
                i,
            ),
        forall|i: int|
            0 <= i < splits@.len() ==> (#[trigger] splits@[i]).total_received + transferred(
                payout(splits@, amount as int, i),
            ) <= i128::MAX,
    ensures
        r@ == credited_all(splits@, amount as int),
        final(env)@ == paid(old(env)@, *token, splits@, amount as int, splits@.len() as int),
{
    let mut updated: Vec<Split> = Vec::new();
    let mut i: usize = 0;
    let contract = env.contract;
    while i < splits.len()
        invariant
            i <= splits@.len(),
            payouts@.len() == splits@.len(),
            contract == old(env)@.contract,
            forall|i: int|
                0 <= i < splits@.len() ==> (#[trigger] payouts@[i]) == payout(
                    splits@,
                    amount as int,
                    i,
                ),
            forall|i: int|
                0 <= i < splits@.len() ==> (#[trigger] splits@[i]).total_received + transferred(
                    payout(splits@, amount as int, i),
                ) <= i128::MAX,
            updated@.len() == i,
            forall|j: int|
                0 <= j < i ==> (#[trigger] updated@[j]) == credited(splits@, amount as int, j),
            env@ == paid(old(env)@, *token, splits@, amount as int, i as int),
        decreases splits@.len() - i,
    {
        let mut s: Split = splits[i];
        let due: i128 = payouts[i];
        assert(splits@[i as int] == s);
        assert(due == payout(splits@, amount as int, i as int));
        if due > 0 {
            s.total_received = s.total_received + due;
            env.transfer(token, &contract, &s.recipient, due);
        }
        updated.push(s);
        i = i + 1;
    }
    assert(updated@ =~= credited_all(splits@, amount as int));
    updated
}

impl PaymentSplitter {
    /// A splitter that was not set up yet.
    pub fn new() -> (r: PaymentSplitter)
        ensures
            r@ == (SplitterModel {
                admin: None,
                token: None,
                splits: Seq::<Split>::empty(),
                total_in: 0,
                schedules: Seq::<SplitSchedule>::empty(),
                conditionals: Seq::<ConditionalSplit>::empty(),
            }),
            r@.wf(),
    {
        PaymentSplitter {
            admin: None,
            token: None,
            splits: Vec::new(),
            total_in: 0,
            schedules: Vec::new(),
            conditionals: Vec::new(),
        }
    }

    /// Checks a list of splits.
    pub fn validate_splits(splits: &Vec<Split>) -> (r: Result<(), Error>)
        ensures
            r == match splits_error(splits@) {
                Some(e) => Err(e),
                None => Ok(()),
            },
    {
        if splits.len() == 0 {
            return Err(Error::EmptyRecipients);
        }
        let mut bps_total: u32 = 0;
        let mut i: usize = 0;
        let ghost n = splits@.len() as int;
        while i < splits.len()
            invariant
                i <= splits@.len(),
                n == splits@.len(),
                first_kind_error(splits@, i as int) is None,
                bps_total == bps_sum(splits@, i as int) || (bps_total > BPS_TOTAL && bps_sum(
                    splits@,
                    i as int,
                ) > BPS_TOTAL),
            decreases splits@.len() - i,
        {
            match splits[i].kind {
                SplitKind::Percentage(bps) => {
                    if bps == 0 || bps > BPS_TOTAL {
                        proof {
                            lemma_first_error_persists(splits@, i + 1, n);
                        }
                        return Err(Error::InvalidShares);
                    }
                    bps_total = match bps_total.checked_add(bps) {
                        Some(sum) => sum,
                        None => BPS_TOTAL + 1,
                    };
                },
                SplitKind::Fixed(amount) => {
                    if amount <= 0 {
                        proof {
                            lemma_first_error_persists(splits@, i + 1, n);
                        }
                        return Err(Error::InvalidFixedAmount);
                    }
                },
            }
            i = i + 1;
        }
        if bps_total != 0 && bps_total != BPS_TOTAL {
            return Err(Error::InvalidShares);
        }
        Ok(())
    }

    /// Sets the splitter up, once.
    pub fn initialize(
        &mut self,
        env: &mut SplitterEnv,
        admin: &Address,
        token: &Address,
        splits: Vec<Split>,
    ) -> (r: Result<(), Error>)
        requires
            old(self)@.wf(),
            splits@.len() <= u32::MAX,
        ensures
            final(self)@.wf(),
            r == if old(self)@.admin is Some {
                Err::<(), Error>(Error::AlreadyInitialized)
            } else {
                match splits_error(splits@) {
                    Some(e) => Err(e),
                    None => Ok(()),
                }
            },
            final(self)@ == match r {
                Err(_) => old(self)@,
                Ok(_) => SplitterModel {
                    admin: Some(*admin),
                    token: Some(*token),
                    splits: splits@,
                    total_in: 0,
                    ..old(self)@
                },
            },
            crate::env::pays_nobody(old(env)@, final(env)@),
            final(env)@ == if old(self)@.admin is Some {
                old(env)@
            } else {
                old(env)@.auth(*admin)
            },
    {
        if self.admin.is_some() {
            return Err(Error::AlreadyInitialized);
        }
        env.require_auth(admin);
        match Self::validate_splits(&splits) {
            Err(e) => {
                return Err(e);
            },
            Ok(_) => {},
        }
        self.admin = Some(*admin);
        self.token = Some(*token);
        self.splits = splits;
        self.total_in = 0;
        Ok(())
    }

    /// Transfers `amount` from `from` into the contract and distributes it to
    /// the recipients at once.
    pub fn split(&mut self, env: &mut SplitterEnv, from: &Address, amount: i128) -> (r: Result<
        (),
        Error,
    >)
        requires
            old(self)@.wf(),
            old(self)@.split_fits(amount as int),
        ensures
            final(self)@.wf(),
            r == if amount <= 0 {
                Err::<(), Error>(Error::ZeroAmount)
            } else if old(self)@.admin is None {
                Err(Error::NotInitialized)
            } else if short_for_fixed(old(self)@.splits, amount as int) {
                Err(Error::InsufficientForFixed)
            } else {
                Ok(())
            },
            final(self)@ == match r {
                Err(_) => old(self)@,
                Ok(_) => SplitterModel {
                    total_in: (old(self)@.total_in + amount) as i128,
                    splits: credited_all(old(self)@.splits, amount as int),
                    ..old(self)@
                },
            },
            r is Ok ==> forall|t: Address, who: Address| #[trigger]
                crate::env::received(final(env)@.log, t, who) == crate::env::received(
                    old(env)@.log,
                    t,
                    who,
                ) + if Some(t) == old(self)@.token {
                    (if who == old(env)@.contract {
                        amount as int
                    } else {
                        0
                    }) + due_to(
                        old(self)@.splits,
                        amount as int,
                        who,
                        old(self)@.splits.len() as int,
                    )
                } else {
                    0
                },
            r is Err ==> crate::env::pays_nobody(old(env)@, final(env)@),
            final(env)@ == match r {
                Err(_) => old(env)@.auth(*from),
                Ok(_) => paid(
                    old(env)@.auth(*from).transfer(
                        old(self)@.token->0,
                        *from,
                        old(env)@.contract,
                        amount,
                    ),
                    old(self)@.token->0,
                    old(self)@.splits,
                    amount as int,
                    old(self)@.splits.len() as int,
                ).event(SplitterEvent::Split { from: *from, amount }),
            },
    {
        env.require_auth(from);
        if amount <= 0 {
            return Err(Error::ZeroAmount);
        }
        if self.admin.is_none() {
            return Err(Error::NotInitialized);
        }
        let token: Address = self.token.unwrap();
        let left: i128 = match take_fixed(&self.splits, amount) {
            Some(left) => left,
            None => {
                return Err(Error::InsufficientForFixed);
            },
        };
        let due = payouts(&self.splits, amount, left);
        let contract = env.contract;
        env.transfer(&token, from, &contract, amount);
        let updated = pay_all(&self.splits, amount, &due, &token, env);
        proof {
            lemma_same_kinds(updated@, self.splits@, self.splits@.len() as int);
        }
        self.total_in = self.total_in + amount;
        self.splits = updated;
        env.event(SplitterEvent::Split { from: *from, amount });
        proof {
            let m = old(self)@;
            let start = old(env)@.auth(*from).transfer(token, *from, contract, amount);
            assert forall|t: Address, who: Address| #[trigger]
                crate::env::received(env@.log, t, who) == crate::env::received(
                    old(env)@.log,
                    t,
                    who,
                ) + if Some(t) == m.token {
                    (if who == contract {
                        amount as int
                    } else {
                        0
                    }) + due_to(m.splits, amount as int, who, m.splits.len() as int)
                } else {
                    0
                } by {
                law_shares_are_received(
                    start,
                    token,
                    m.splits,
                    amount as int,
                    m.splits.len() as int,
                    t,
                    who,
                );
            }
        }
        Ok(())
    }
}

/// Whether a conditional share applies to the payment.
fn condition_applies(c: &ConditionalSplit, amount: i128) -> (r: bool)
    ensures
        r == condition_holds(*c, amount as int),
{
    match c.condition_type {
        ConditionType::MinimumAmount => amount >= c.threshold,
        ConditionType::MaximumAmount => amount <= c.threshold,
        ConditionType::TimeWindow => true,
    }
}

proof fn lemma_condition_sum(c: Seq<ConditionalSplit>, amount: int, i: int, n: int)
    requires
        0 <= i <= n,
        amount >= 0,
    ensures
        0 <= condition_sum(c, amount, i) <= condition_sum(c, amount, n),
    decreases n,
{
    if n > 0 {
        lemma_share(amount, c[n - 1].percentage as int);
        if i < n {
            lemma_condition_sum(c, amount, i, n - 1);
        } else {
            lemma_condition_sum(c, amount, n - 1, n - 1);
        }
    }
}

/// What the conditional shares take of the payment together, unless a
/// machine integer cannot hold it.
fn condition_total(conditionals: &Vec<ConditionalSplit>, amount: i128) -> (r: Option<i128>)
    requires
        amount > 0,
    ensures
        r is Some == conditions_fit(conditionals@, amount as int),
        r matches Some(total) ==> total == condition_sum(
            conditionals@,
            amount as int,
            conditionals@.len() as int,
        ),
{
    let mut total: i128 = 0;
    let mut i: usize = 0;
    let ghost c = conditionals@;
    while i < conditionals.len()
        invariant
            i <= c.len(),
            c == conditionals@,
            amount > 0,
            total == condition_sum(c, amount as int, i as int),
            forall|j: int|
                0 <= j < i && condition_holds(#[trigger] c[j], amount as int) ==> amount
                    * c[j].percentage <= i128::MAX,
        decreases c.len() - i,
    {
        proof {
            lemma_condition_sum(c, amount as int, i + 1, c.len() as int);
            lemma_share(amount as int, c[i as int].percentage as int);
        }
        if condition_applies(&conditionals[i], amount) {
            let percentage: i128 = conditionals[i].percentage as i128;
            assert(amount * percentage >= 0) by (nonlinear_arith)
                requires
                    amount > 0,
                    percentage >= 0,
            ;
            let part: i128 = match amount.checked_mul(percentage) {
                Some(product) => product / (BPS_TOTAL as i128),
                None => {
                    assert(condition_holds(c[i as int], amount as int));
                    return None;
                },
            };
            total = match total.checked_add(part) {
                Some(sum) => sum,
                None => {
                    return None;
                },
            };
        }
        i = i + 1;
    }
    Some(total)
}

/// Transfers the conditional shares that apply.
fn pay_conditions(
    conditionals: &Vec<ConditionalSplit>,
    amount: i128,
    token: &Address,
    env: &mut SplitterEnv,
)
    requires
        amount > 0,
        conditions_fit(conditionals@, amount as int),
    ensures
        final(env)@ == conditions_paid(
            old(env)@,
            *token,
            conditionals@,
            amount as int,
            conditionals@.len() as int,
        ),
{
    let contract = env.contract;
    let mut i: usize = 0;
    while i < conditionals.len()
        invariant
            i <= conditionals@.len(),
            amount > 0,
            conditions_fit(conditionals@, amount as int),
            contract == old(env)@.contract,
            env@ == conditions_paid(old(env)@, *token, conditionals@, amount as int, i as int),
        decreases conditionals@.len() - i,
    {
        let c: ConditionalSplit = conditionals[i];
        if condition_applies(&c, amount) {
            assert(condition_holds(conditionals@[i as int], amount as int));
            assert(0 <= amount * c.percentage) by (nonlinear_arith)
                requires
                    amount > 0,
                    c.percentage >= 0,
            ;
            let part: i128 = amount * (c.percentage as i128) / (BPS_TOTAL as i128);
            env.transfer(token, &contract, &c.recipient, part);
        }
        i = i + 1;
    }
}

/// Whether the machine integers hold the division of `amount`, given what is
/// left for percentages.
fn check_division(splits: &Vec<Split>, amount: i128, left: i128) -> (r: bool)
    requires
        splits_error(splits@) is None,
        left == amount - fixed_sum(splits@, splits@.len() as int),
    ensures
        r == division_fits(splits@, amount as int),
{
    let mut i: usize = 0;
    let ghost s = splits@;
    while i < splits.len()
        invariant
            i <= s.len(),
            s == splits@,
            left == amount - fixed_sum(splits@, splits@.len() as int),
            forall|j: int|
                0 <= j < i && (#[trigger] s[j]).kind is Percentage ==> i128::MIN <= left * bps_of(
                    s[j].kind,
                ) <= i128::MAX,
        decreases s.len() - i,
    {
        match splits[i].kind {
            SplitKind::Percentage(bps) => {
                if left.checked_mul(bps as i128).is_none() {
                    assert(s[i as int].kind is Percentage);
                    return false;
                }
            },
            SplitKind::Fixed(_) => {},
        }
        i = i + 1;
    }
    let due = payouts(splits, amount, left);
    let mut k: usize = 0;
    while k < splits.len()
        invariant
            k <= s.len(),
            s == splits@,
            due@.len() == s.len(),
            forall|i: int|
                0 <= i < s.len() ==> (#[trigger] due@[i]) == payout(s, amount as int, i),
            forall|j: int|
                0 <= j < k ==> (#[trigger] s[j]).total_received + transferred(
                    payout(s, amount as int, j),
                ) <= i128::MAX,
        decreases s.len() - k,
    {
        let part: i128 = due[k];
        assert(part == payout(s, amount as int, k as int));
        if part > 0 && splits[k].total_received.checked_add(part).is_none() {
            assert(s[k as int].total_received + transferred(payout(s, amount as int, k as int))
                > i128::MAX);
            return false;
        }
        k = k + 1;
    }
    true
}

impl PaymentSplitter {
    /// Whether the machine integers hold a split of `amount`.
    pub fn split_fits(&self, amount: i128) -> (r: bool)
        requires
            self@.wf(),
        ensures
            r == self@.split_fits(amount as int),
    {
        if amount <= 0 || self.admin.is_none() {
            return true;
        }
        if self.total_in.checked_add(amount).is_none() {
            return false;
        }
        match take_fixed(&self.splits, amount) {
            Some(left) => check_division(&self.splits, amount, left),
            None => true,
        }
    }

    /// Whether the machine integers hold a conditional split of `amount`.
    pub fn conditional_split_fits(&self, amount: i128) -> (r: bool)
        requires
            self@.wf(),
        ensures
            r == self@.conditional_split_fits(amount as int),
    {
        if amount <= 0 || self.admin.is_none() {
            return true;
        }
        if self.total_in.checked_add(amount).is_none() {
            return false;
        }
        match condition_total(&self.conditionals, amount) {
            None => false,
            Some(total) => {
                proof {
                    let n = self.conditionals@.len() as int;
                    lemma_condition_sum(self.conditionals@, amount as int, n, n);
                }
                let rest: i128 = amount - total;
                match take_fixed(&self.splits, rest) {
                    Some(left) => check_division(&self.splits, rest, left),
                    None => true,
                }
            },
        }
    }

    /// Transfers `amount` from `from` into the contract, pays the conditional
    /// shares that apply, and distributes the rest to the recipients.
    pub fn split_with_conditions(&mut self, env: &mut SplitterEnv, from: &Address, amount: i128) -> (r:
        Result<(), Error>)
        requires
            old(self)@.wf(),
            old(self)@.conditional_split_fits(amount as int),
        ensures
            final(self)@.wf(),
            ({
                let m = old(self)@;
                let taken = condition_sum(
                    m.conditionals,
                    amount as int,
                    m.conditionals.len() as int,
                );
                &&& r == if amount <= 0 {
                    Err::<(), Error>(Error::ZeroAmount)
                } else if m.admin is None {
                    Err(Error::NotInitialized)
                } else if short_for_fixed(m.splits, amount - taken) {
                    Err(Error::InsufficientForFixed)
                } else {
                    Ok(())
                }
                &&& final(self)@ == match r {
                    Err(_) => m,
                    Ok(_) => SplitterModel {
                        total_in: (m.total_in + amount) as i128,
                        splits: credited_all(m.splits, amount - taken),
                        ..m
                    },
                }
                &&& final(env)@ == match r {
                    Err(_) => old(env)@.auth(*from),
                    Ok(_) => paid(
                        conditions_paid(
                            old(env)@.auth(*from).transfer(
                                m.token->0,
                                *from,
                                old(env)@.contract,
                                amount,
                            ),
                            m.token->0,
                            m.conditionals,
                            amount as int,
                            m.conditionals.len() as int,
                        ),
                        m.token->0,
                        m.splits,
                        amount - taken,
                        m.splits.len() as int,
                    ).event(
                        SplitterEvent::ConditionalSplit {
                            from: *from,
                            amount,
                            conditional_amount: taken as i128,
                        },
                    ),
                }
            }),
            r is Ok ==> forall|t: Address, who: Address| #[trigger]
                crate::env::received(final(env)@.log, t, who) == crate::env::received(
                    old(env)@.log,
                    t,
                    who,
                ) + if Some(t) == old(self)@.token {
                    (if who == old(env)@.contract {
                        amount as int
                    } else {
                        0
                    }) + conditional_due(
                        old(self)@.conditionals,
                        amount as int,
                        who,
                        old(self)@.conditionals.len() as int,
                    ) + due_to(
                        old(self)@.splits,
                        amount - condition_sum(
                            old(self)@.conditionals,
                            amount as int,
                            old(self)@.conditionals.len() as int,
                        ),
                        who,
                        old(self)@.splits.len() as int,
                    )
                } else {
                    0
                },
            r is Err ==> crate::env::pays_nobody(old(env)@, final(env)@),
    {
        env.require_auth(from);
        if amount <= 0 {
            return Err(Error::ZeroAmount);
        }
        if self.admin.is_none() {
            return Err(Error::NotInitialized);
        }
        let token: Address = self.token.unwrap();
        let taken: i128 = condition_total(&self.conditionals, amount).unwrap();
        proof {
            let n = self.conditionals@.len() as int;
            lemma_condition_sum(self.conditionals@, amount as int, n, n);
        }
        let rest: i128 = amount - taken;
        let left: i128 = match take_fixed(&self.splits, rest) {
            Some(left) => left,
            None => {
                return Err(Error::InsufficientForFixed);
            },
        };
        let due = payouts(&self.splits, rest, left);
        let contract = env.contract;
        env.transfer(&token, from, &contract, amount);
        pay_conditions(&self.conditionals, amount, &token, env);
        let updated = pay_all(&self.splits, rest, &due, &token, env);
        proof {
            lemma_same_kinds(updated@, self.splits@, self.splits@.len() as int);
        }
        self.total_in = self.total_in + amount;
        self.splits = updated;
        env.event(
            SplitterEvent::ConditionalSplit { from: *from, amount, conditional_amount: taken },
        );
        proof {
            let m = old(self)@;
            let start = old(env)@.auth(*from).transfer(token, *from, contract, amount);
            let k = m.conditionals.len() as int;
            let n = m.splits.len() as int;
            let middle = conditions_paid(start, token, m.conditionals, amount as int, k);
            assert forall|t: Address, who: Address| #[trigger]
                crate::env::received(env@.log, t, who) == crate::env::received(
                    old(env)@.log,
                    t,
                    who,
                ) + if Some(t) == m.token {
                    (if who == contract {
                        amount as int
                    } else {
                        0
                    }) + conditional_due(m.conditionals, amount as int, who, k) + due_to(
                        m.splits,
                        rest as int,
                        who,
                        n,
                    )
                } else {
                    0
                } by {
                law_conditional_shares_are_received(
                    start,
                    token,
                    m.conditionals,
                    amount as int,
                    k,
                    t,
                    who,
                );
                law_shares_are_received(middle, token, m.splits, rest as int, n, t, who);
            }
        }
        Ok(())
    }

    /// The administrator, whose authorization is demanded.
    fn require_admin(&self, env: &mut SplitterEnv) -> (r: Result<Address, Error>)
        ensures
            r == match self@.admin {
                Some(admin) => Ok(admin),
                None => Err(Error::NotInitialized),
            },
            final(env)@ == match self@.admin {
                Some(admin) => old(env)@.auth(admin),
                None => old(env)@,
            },
    {
        match self.admin {
            Some(admin) => {
                env.require_auth(&admin);
                Ok(admin)
            },
            None => Err(Error::NotInitialized),
        }
    }

    /// Replaces the recipients.
    pub fn set_splits(&mut self, env: &mut SplitterEnv, splits: Vec<Split>) -> (r: Result<(), Error>)
        requires
            old(self)@.wf(),
            splits@.len() <= u32::MAX,
        ensures
            final(self)@.wf(),
            r == if old(self)@.admin is None {
                Err::<(), Error>(Error::NotInitialized)
            } else {
                match splits_error(splits@) {
                    Some(e) => Err(e),
                    None => Ok(()),
                }
            },
            final(self)@ == match r {
                Err(_) => old(self)@,
                Ok(_) => SplitterModel { splits: splits@, ..old(self)@ },
            },
            crate::env::pays_nobody(old(env)@, final(env)@),
            final(env)@ == match (old(self)@.admin, r) {
                (None, _) => old(env)@,
                (Some(admin), Err(_)) => old(env)@.auth(admin),
                (Some(admin), Ok(_)) => old(env)@.auth(admin).event(
                    SplitterEvent::SplitsUpdated { count: splits@.len() as u32 },
                ),
            },
    {
        match self.require_admin(env) {
            Err(e) => {
                return Err(e);
            },
            Ok(_) => {},
        }
        match Self::validate_splits(&splits) {
            Err(e) => {
                return Err(e);
            },
            Ok(_) => {},
        }
        let count: u32 = splits.len() as u32;
        self.splits = splits;
        env.event(SplitterEvent::SplitsUpdated { count });
        Ok(())
    }

    /// Hands the administration over.
    pub fn transfer_admin(&mut self, env: &mut SplitterEnv, new_admin: &Address) -> (r: Result<
        (),
        Error,
    >)
        requires
            old(self)@.wf(),
        ensures
            final(self)@.wf(),
            match old(self)@.admin {
                None => r == Err::<(), Error>(Error::NotInitialized) && final(self)@ == old(self)@
                    && final(env)@ == old(env)@,
                Some(admin) => r == Ok::<(), Error>(()) && final(self)@ == (SplitterModel {
                    admin: Some(*new_admin),
                    ..old(self)@
                }) && final(env)@ == old(env)@.auth(admin),
            },
    {
        match self.require_admin(env) {
            Err(e) => Err(e),
            Ok(_) => {
                self.admin = Some(*new_admin);
                Ok(())
            },
        }
    }

    /// The administrator.
    pub fn get_admin(&self) -> (r: Result<Address, Error>)
        ensures
            r == match self@.admin {
                Some(admin) => Ok(admin),
                None => Err(Error::NotInitialized),
            },
    {
        match self.admin {
            Some(admin) => Ok(admin),
            None => Err(Error::NotInitialized),
        }
    }

    /// The recipients.
    pub fn get_splits(&self) -> (r: Result<&Vec<Split>, Error>)
        ensures
            match r {
                Ok(splits) => self@.admin is Some && splits@ == self@.splits,
                Err(e) => self@.admin is None && e == Error::NotInitialized,
            },
    {
        if self.admin.is_none() {
            return Err(Error::NotInitialized);
        }
        Ok(&self.splits)
    }

    /// What was paid in over the contract's lifetime.
    pub fn get_total_in(&self) -> (r: Result<i128, Error>)
        ensures
            r == if self@.admin is None {
                Err(Error::NotInitialized)
            } else {
                Ok(self@.total_in)
            },
    {
        if self.admin.is_none() {
            return Err(Error::NotInitialized);
        }
        Ok(self.total_in)
    }

    /// Adds a split that vests over time.
    pub fn add_scheduled_split(
        &mut self,
        env: &mut SplitterEnv,
        recipient: &Address,
        amount_per_period: i128,
        period_ledgers: u32,
        periods: u32,
    ) -> (r: Result<(), Error>)
        requires
            old(self)@.wf(),
            old(self)@.schedules.len() < u32::MAX,
        ensures
            final(self)@.wf(),
            r == if old(self)@.admin is None {
                Err::<(), Error>(Error::NotInitialized)
            } else if amount_per_period <= 0 || period_ledgers == 0 || periods == 0 {
                Err(Error::InvalidFixedAmount)
            } else {
                Ok(())
            },
            final(self)@ == match r {
                Err(_) => old(self)@,
                Ok(_) => SplitterModel {
                    schedules: old(self)@.schedules.push(
                        SplitSchedule {
                            recipient: *recipient,
                            amount_per_period,
                            period_ledgers,
                            periods_remaining: periods,
                            last_payout_ledger: old(env)@.sequence,
                        },
                    ),
                    ..old(self)@
                },
            },
            crate::env::pays_nobody(old(env)@, final(env)@),
            final(env)@ == match (old(self)@.admin, r) {
                (None, _) => old(env)@,
                (Some(admin), Err(_)) => old(env)@.auth(admin),
                (Some(admin), Ok(_)) => old(env)@.auth(admin).event(
                    SplitterEvent::ScheduleAdded {
                        recipient: *recipient,
                        amount_per_period,
                        periods,
                    },
                ),
            },
    {
        match self.require_admin(env) {
            Err(e) => {
                return Err(e);
            },
            Ok(_) => {},
        }
        if amount_per_period <= 0 || period_ledgers == 0 || periods == 0 {
            return Err(Error::InvalidFixedAmount);
        }
        self.schedules.push(
            SplitSchedule {
                recipient: *recipient,
                amount_per_period,
                period_ledgers,
                periods_remaining: periods,
                last_payout_ledger: env.sequence,
            },
        );
        env.event(
            SplitterEvent::ScheduleAdded { recipient: *recipient, amount_per_period, periods },
        );
        Ok(())
    }

    /// Pays every schedule that is due and drops those that are used up.
    pub fn process_scheduled_splits(&mut self, env: &mut SplitterEnv) -> (r: Result<u32, Error>)
        requires
            old(self)@.wf(),
        ensures
            final(self)@.wf(),
            ({
                let m = old(self)@;
                let n = m.schedules.len() as int;
                let now = old(env)@.sequence;
                if m.admin is None {
                    &&& r == Err::<u32, Error>(Error::NotInitialized)
                    &&& final(self)@ == m
                    &&& final(env)@ == old(env)@
                } else {
                    &&& r == Ok::<u32, Error>(schedules_due(m.schedules, now, n) as u32)
                    &&& final(self)@ == (SplitterModel {
                        schedules: schedules_after(m.schedules, now, n),
                        ..m
                    })
                    &&& final(env)@ == schedules_paid(old(env)@, m.token->0, m.schedules, n)
                    &&& forall|t: Address, who: Address| #[trigger]
                        crate::env::received(final(env)@.log, t, who) == crate::env::received(
                            old(env)@.log,
                            t,
                            who,
                        ) + if Some(t) == m.token {
                            vesting_due(m.schedules, now as int, who, n)
                        } else {
                            0
                        }
                }
            }),
    {
        if self.admin.is_none() {
            return Err(Error::NotInitialized);
        }
        let token: Address = self.token.unwrap();
        let contract = env.contract;
        let now: u32 = env.sequence;
        let mut processed: u32 = 0;
        let mut updated: Vec<SplitSchedule> = Vec::new();
        let mut i: usize = 0;
        while i < self.schedules.len()
            invariant
                *self == *old(self),
                i <= self.schedules@.len() <= u32::MAX,
                contract == old(env)@.contract,
                now == old(env)@.sequence,
                processed == schedules_due(self.schedules@, now, i as int),
                processed <= i,
                updated@ == schedules_after(self.schedules@, now, i as int),
                updated@.len() <= i,
                env@ == schedules_paid(old(env)@, token, self.schedules@, i as int),
            decreases self.schedules@.len() - i,
        {
            let mut s: SplitSchedule = self.schedules[i];
            let elapsed: u32 = now.saturating_sub(s.last_payout_ledger);
            if elapsed >= s.period_ledgers && s.periods_remaining > 0 {
                env.transfer(&token, &contract, &s.recipient, s.amount_per_period);
                s.last_payout_ledger = now;
                s.periods_remaining = s.periods_remaining - 1;
                processed = processed + 1;
                env.event(
                    SplitterEvent::SchedulePaid {
                        recipient: s.recipient,
                        amount: s.amount_per_period,
                    },
                );
            }
            if s.periods_remaining > 0 {
                updated.push(s);
            }
            i = i + 1;
        }
        self.schedules = updated;
        proof {
            let m = old(self)@;
            let n = m.schedules.len() as int;
            assert forall|t: Address, who: Address| #[trigger]
                crate::env::received(env@.log, t, who) == crate::env::received(
                    old(env)@.log,
                    t,
                    who,
                ) + if Some(t) == m.token {
                    vesting_due(m.schedules, old(env)@.sequence as int, who, n)
                } else {
                    0
                } by {
                law_schedules_are_received(old(env)@, m.token->0, m.schedules, n, t, who);
            }
        }
        Ok(processed)
    }

    /// Adds a share that is paid only when its condition holds.
    pub fn add_conditional_split(
        &mut self,
        env: &mut SplitterEnv,
        recipient: &Address,
        condition_type: ConditionType,
        threshold: i128,
        percentage: u32,
    ) -> (r: Result<(), Error>)
        requires
            old(self)@.wf(),
            old(self)@.conditionals.len() < u32::MAX,
        ensures
            final(self)@.wf(),
            r == if old(self)@.admin is None {
                Err::<(), Error>(Error::NotInitialized)
            } else if percentage == 0 || percentage > BPS_TOTAL {
                Err(Error::InvalidShares)
            } else {
                Ok(())
            },
            final(self)@ == match r {
                Err(_) => old(self)@,
                Ok(_) => SplitterModel {
                    conditionals: old(self)@.conditionals.push(
                        ConditionalSplit {
                            recipient: *recipient,
                            condition_type,
                            threshold,
                            percentage,
                        },
                    ),
                    ..old(self)@
                },
            },
            final(env)@ == match (old(self)@.admin, r) {
                (None, _) => old(env)@,
                (Some(admin), Err(_)) => old(env)@.auth(admin),
                (Some(admin), Ok(_)) => old(env)@.auth(admin).event(
                    SplitterEvent::ConditionAdded { recipient: *recipient, threshold, percentage },
                ),
            },
    {
        match self.require_admin(env) {
            Err(e) => {
                return Err(e);
            },
            Ok(_) => {},
        }
        if percentage == 0 || percentage > BPS_TOTAL {
            return Err(Error::InvalidShares);
        }
        self.conditionals.push(
            ConditionalSplit { recipient: *recipient, condition_type, threshold, percentage },
        );
        env.event(
            SplitterEvent::ConditionAdded { recipient: *recipient, threshold, percentage },
        );
        Ok(())
    }

    /// The schedules that still run.
    pub fn get_scheduled_splits(&self) -> (r: Result<&Vec<SplitSchedule>, Error>)
        ensures
            match r {
                Ok(schedules) => self@.admin is Some && schedules@ == self@.schedules,
                Err(e) => self@.admin is None && e == Error::NotInitialized,
            },
    {
        if self.admin.is_none() {
            return Err(Error::NotInitialized);
        }
        Ok(&self.schedules)
    }

    /// The conditional shares.
    pub fn get_conditional_splits(&self) -> (r: Result<&Vec<ConditionalSplit>, Error>)
        ensures
            match r {
                Ok(shares) => self@.admin is Some && shares@ == self@.conditionals,
                Err(e) => self@.admin is None && e == Error::NotInitialized,
            },
    {
        if self.admin.is_none() {
            return Err(Error::NotInitialized);
        }
        Ok(&self.conditionals)
    }
}

/// Number of percentages among the first `n` shares.
pub open spec fn percentage_count(s: Seq<Split>, n: int) -> int
    decreases n,
{
    if n <= 0 {
        0
    } else {
        percentage_count(s, n - 1) + if s[n - 1].kind is Percentage {
            1int
        } else {
            0
        }
    }
}

proof fn lemma_valid_has_whole(s: Seq<Split>)
    requires
        splits_error(s) is None,
        any_percentage(s, s.len() as int),
    ensures
        bps_sum(s, s.len() as int) == BPS_TOTAL,
{
    let n = s.len() as int;
    let j = choose|j: int| 0 <= j < n && (#[trigger] s[j]).kind is Percentage;
    lemma_kinds_ok(s, n, j);
    lemma_bps_monotone(s, j, j);
    lemma_bps_monotone(s, j + 1, n);
}

proof fn lemma_dust_below_count(s: Seq<Split>, left: int, n: int)
    requires
        0 <= n,
        left >= 0,
    ensures
        left * bps_sum(s, n) <= share_sum(s, left, n) * BPS_TOTAL + percentage_count(s, n) * (
        BPS_TOTAL - 1),
    decreases n,
{
    if n == 0 {
        assert(left * 0 == 0) by (nonlinear_arith);
    } else {
        lemma_dust_below_count(s, left, n - 1);
        let b = bps_of(s[n - 1].kind);
        lemma_share(left, b);
        let a = bps_sum(s, n - 1);
        assert(left * (a + b) == left * a + left * b) by (nonlinear_arith);
        assert(left * 0 == 0) by (nonlinear_arith);
    }
}

/// Valid splits with a percentage among them pay out the whole amount.
pub proof fn law_percentages_pay_out_everything(s: Seq<Split>, amount: int)
    requires
        splits_error(s) is None,
        any_percentage(s, s.len() as int),
    ensures
        payout_sum(s, amount, s.len() as int) == amount,
{
    lemma_payout_sum(s, amount, s.len() as int);
}

/// Valid splits without a percentage pay out the fixed amounts.
pub proof fn law_fixed_splits_pay_fixed_sum(s: Seq<Split>, amount: int)
    requires
        !any_percentage(s, s.len() as int),
    ensures
        payout_sum(s, amount, s.len() as int) == fixed_sum(s, s.len() as int),
{
    lemma_payout_sum(s, amount, s.len() as int);
    lemma_no_percentage(s, s.len() as int, amount - fixed_sum(s, s.len() as int));
}

/// No recipient of an accepted payment gets less than nothing, nor more than
/// the payment.
pub proof fn law_payouts_within_amount(s: Seq<Split>, amount: int, i: int)
    requires
        splits_error(s) is None,
        amount >= 0,
        !short_for_fixed(s, amount),
        0 <= i < s.len(),
    ensures
        0 <= payout(s, amount, i) <= amount,
{
    let n = s.len() as int;
    let left = amount - fixed_sum(s, n);
    lemma_kinds_ok(s, n, i);
    lemma_first_error_prefix(s, i, n);
    lemma_fixed_monotone(s, i, i);
    lemma_fixed_monotone(s, i + 1, n);
    lemma_fixed_monotone(s, n, n);
    if s[i].kind is Percentage {
        lemma_first_payout_bounded(s, left, i);
        lemma_share(left, bps_of(s[i].kind));
        lemma_share_among_sum(s, left, i, n);
        lemma_share_sum_bounded(s, left, n);
    }
}

/// The dust goes to the first percentage recipient, and is less than one unit
/// for each percentage recipient.
pub proof fn law_dust_is_small(s: Seq<Split>, left: int)
    requires
        splits_error(s) is None,
        any_percentage(s, s.len() as int),
        left >= 0,
    ensures
        0 <= dust(s, left) < percentage_count(s, s.len() as int),
{
    let n = s.len() as int;
    lemma_valid_has_whole(s);
    lemma_share_sum_bounded(s, left, n);
    lemma_dust_below_count(s, left, n);
    let j = choose|j: int| 0 <= j < n && (#[trigger] s[j]).kind is Percentage;
    lemma_count_positive(s, j, n);
}

proof fn lemma_count_positive(s: Seq<Split>, j: int, n: int)
    requires
        0 <= j < n,
        s[j].kind is Percentage,
    ensures
        percentage_count(s, n) >= 1,
    decreases n,
{
    if j < n - 1 {
        lemma_count_positive(s, j, n - 1);
    } else {
        lemma_count_nonnegative(s, n - 1);
    }
}

proof fn lemma_count_nonnegative(s: Seq<Split>, n: int)
    ensures
        percentage_count(s, n) >= 0,
    decreases n,
{
    if n > 0 {
        lemma_count_nonnegative(s, n - 1);
    }
}

proof fn lemma_first_error_prefix(s: Seq<Split>, i: int, n: int)
    requires
        0 <= i <= n,
        first_kind_error(s, n) is None,
    ensures
        first_kind_error(s, i) is None,
    decreases n,
{
    if i < n {
        lemma_first_error_prefix(s, i, n - 1);
    }
}

proof fn lemma_paid_sends(
    e: crate::env::EnvModel<(), SplitterEvent>,
    token: Address,
    s: Seq<Split>,
    amount: int,
    n: int,
)
    requires
        splits_error(s) is None,
        0 <= amount <= i128::MAX,
        !short_for_fixed(s, amount),
        0 <= n <= s.len(),
    ensures
        crate::env::sent(paid(e, token, s, amount, n).log, token, e.contract) == crate::env::sent(
            e.log,
            token,
            e.contract,
        ) + payout_sum(s, amount, n),
    decreases n,
{
    if n > 0 {
        lemma_paid_sends(e, token, s, amount, n - 1);
        law_payouts_within_amount(s, amount, n - 1);
        let before = paid(e, token, s, amount, n - 1);
        let due = payout(s, amount, n - 1);
        crate::env::lemma_moved(
            before.log,
            crate::env::Effect::Transfer {
                token,
                from: e.contract,
                to: s[n - 1].recipient,
                amount: due as i128,
            },
            token,
            e.contract,
        );
    }
}

/// A split sends out of the contract what it took in, when a percentage is
/// among the recipients, and the fixed amounts otherwise.
pub proof fn law_split_conserves_funds(
    e: crate::env::EnvModel<(), SplitterEvent>,
    token: Address,
    from: Address,
    s: Seq<Split>,
    amount: i128,
)
    requires
        splits_error(s) is None,
        amount > 0,
        !short_for_fixed(s, amount as int),
        from != e.contract,
    ensures
        ({
            let after = paid(
                e.auth(from).transfer(token, from, e.contract, amount),
                token,
                s,
                amount as int,
                s.len() as int,
            ).event(SplitterEvent::Split { from, amount });
            let out = crate::env::sent(after.log, token, e.contract) - crate::env::sent(
                e.log,
                token,
                e.contract,
            );
            if any_percentage(s, s.len() as int) {
                out == amount
            } else {
                out == fixed_sum(s, s.len() as int) && out <= amount
            }
        }),
{
    let n = s.len() as int;
    let start = e.auth(from).transfer(token, from, e.contract, amount);
    crate::env::lemma_moved(
        e.log,
        crate::env::Effect::Transfer { token, from, to: e.contract, amount },
        token,
        e.contract,
    );
    lemma_paid_sends(start, token, s, amount as int, n);
    let done = paid(start, token, s, amount as int, n);
    crate::env::lemma_moved(
        done.log,
        crate::env::Effect::Event(SplitterEvent::Split { from, amount }),
        token,
        e.contract,
    );
    if any_percentage(s, n) {
        law_percentages_pay_out_everything(s, amount as int);
    } else {
        law_fixed_splits_pay_fixed_sum(s, amount as int);
    }
}

proof fn lemma_conditions_send(
    e: crate::env::EnvModel<(), SplitterEvent>,
    token: Address,
    c: Seq<ConditionalSplit>,
    amount: int,
    n: int,
)
    requires
        0 <= amount,
        0 <= n <= c.len(),
        condition_sum(c, amount, n) <= i128::MAX,
    ensures
        crate::env::sent(conditions_paid(e, token, c, amount, n).log, token, e.contract)
            == crate::env::sent(e.log, token, e.contract) + condition_sum(c, amount, n),
        conditions_paid(e, token, c, amount, n).contract == e.contract,
    decreases n,
{
    if n > 0 {
        lemma_condition_sum(c, amount, n - 1, n);
        lemma_conditions_send(e, token, c, amount, n - 1);
        lemma_share(amount, c[n - 1].percentage as int);
        crate::env::lemma_moved(
            conditions_paid(e, token, c, amount, n - 1).log,
            crate::env::Effect::Transfer {
                token,
                from: e.contract,
                to: c[n - 1].recipient,
                amount: condition_payout(c[n - 1], amount) as i128,
            },
            token,
            e.contract,
        );
    }
}

/// A split with conditions sends out of the contract what it took in, when a
/// percentage is among the recipients, and the conditional shares and fixed
/// amounts otherwise, as long as the conditional shares leave something for
/// the others.
pub proof fn law_conditional_split_conserves_funds(
    e: crate::env::EnvModel<(), SplitterEvent>,
    token: Address,
    from: Address,
    c: Seq<ConditionalSplit>,
    s: Seq<Split>,
    amount: i128,
)
    requires
        splits_error(s) is None,
        amount > 0,
        condition_sum(c, amount as int, c.len() as int) <= amount,
        !short_for_fixed(s, amount - condition_sum(c, amount as int, c.len() as int)),
        from != e.contract,
    ensures
        ({
            let taken = condition_sum(c, amount as int, c.len() as int);
            let after = paid(
                conditions_paid(
                    e.auth(from).transfer(token, from, e.contract, amount),
                    token,
                    c,
                    amount as int,
                    c.len() as int,
                ),
                token,
                s,
                amount - taken,
                s.len() as int,
            ).event(
                SplitterEvent::ConditionalSplit {
                    from,
                    amount,
                    conditional_amount: taken as i128,
                },
            );
            let out = crate::env::sent(after.log, token, e.contract) - crate::env::sent(
                e.log,
                token,
                e.contract,
            );
            if any_percentage(s, s.len() as int) {
                out == amount
            } else {
                out == taken + fixed_sum(s, s.len() as int) && out <= amount
            }
        }),
{
    let k = c.len() as int;
    let n = s.len() as int;
    let taken = condition_sum(c, amount as int, k);
    let start = e.auth(from).transfer(token, from, e.contract, amount);
    crate::env::lemma_moved(
        e.log,
        crate::env::Effect::Transfer { token, from, to: e.contract, amount },
        token,
        e.contract,
    );
    lemma_conditions_send(start, token, c, amount as int, k);
    lemma_condition_sum(c, amount as int, 0, k);
    let middle = conditions_paid(start, token, c, amount as int, k);
    lemma_paid_sends(middle, token, s, amount - taken, n);
    crate::env::lemma_moved(
        paid(middle, token, s, amount - taken, n).log,
        crate::env::Effect::Event(
            SplitterEvent::ConditionalSplit { from, amount, conditional_amount: taken as i128 },
        ),
        token,
        e.contract,
    );
    if any_percentage(s, n) {
        law_percentages_pay_out_everything(s, amount - taken);
    } else {
        law_fixed_splits_pay_fixed_sum(s, amount - taken);
    }
}

/// A recipient's lifetime total grows by exactly what was transferred.
pub proof fn law_totals_match_transfers(s: Seq<Split>, amount: int, i: int)
    requires
        0 <= i < s.len(),
        s[i].total_received + transferred(payout(s, amount, i)) <= i128::MAX,
    ensures
        credited_all(s, amount)[i].total_received == s[i].total_received + transferred(
            payout(s, amount, i),
        ),
        credited_all(s, amount)[i].recipient == s[i].recipient,
        credited_all(s, amount)[i].kind == s[i].kind,
{
}

/// What the first `n` shares of a divided amount pay to an address.
pub open spec fn due_to(s: Seq<Split>, amount: int, who: Address, n: int) -> int
    decreases n,
{
    if n <= 0 {
        0
    } else {
        due_to(s, amount, who, n - 1) + if s[n - 1].recipient == who && payout(s, amount, n - 1)
            > 0 {
            payout(s, amount, n - 1)
        } else {
            0
        }
    }
}

/// Whether the payment is on the side of the threshold that the conditional
/// share asks for.
pub open spec fn meets_threshold(c: ConditionalSplit, amount: int) -> bool {
    &&& c.condition_type == ConditionType::MinimumAmount ==> c.threshold <= amount
    &&& c.condition_type == ConditionType::MaximumAmount ==> !(amount > c.threshold)
}

/// What the first `n` conditional shares of a payment pay to an address: the
/// percentage of the payment, rounded down, of each share whose threshold is
/// met.
pub open spec fn conditional_due(
    c: Seq<ConditionalSplit>,
    amount: int,
    who: Address,
    n: int,
) -> int
    decreases n,
{
    if n <= 0 {
        0
    } else {
        conditional_due(c, amount, who, n - 1) + if c[n - 1].recipient == who && meets_threshold(
            c[n - 1],
            amount,
        ) {
            amount * c[n - 1].percentage / 10_000
        } else {
            0
        }
    }
}

/// What the first `n` schedules pay to an address at a ledger: the amount of
/// one period of each schedule that has periods left and whose period is over.
pub open spec fn vesting_due(s: Seq<SplitSchedule>, ledger: int, who: Address, n: int) -> int
    decreases n,
{
    if n <= 0 {
        0
    } else {
        let x = s[n - 1];
        vesting_due(s, ledger, who, n - 1) + if x.recipient == who && x.periods_remaining > 0 && (
        ledger >= x.last_payout_ledger + x.period_ledgers || x.period_ledgers == 0) {
            x.amount_per_period as int
        } else {
            0
        }
    }
}

/// A conditional share with a minimum takes nothing from a payment below its
/// threshold and its percentage of one at or above it. One with a maximum
/// takes nothing from a payment above its threshold and its percentage of one
/// at or below it. One for a time window always takes its percentage. The
/// percentage counts in hundredths of a percent and is rounded down.
pub proof fn law_conditional_share(c: ConditionalSplit, amount: int)
    requires
        amount >= 0,
    ensures
        ({
            let q = condition_payout(c, amount);
            let whole = q * 10_000 <= amount * c.percentage < (q + 1) * 10_000;
            &&& c.condition_type == ConditionType::MinimumAmount && amount < c.threshold ==> q == 0
                && !condition_holds(c, amount)
            &&& c.condition_type == ConditionType::MinimumAmount && amount >= c.threshold ==> whole
                && condition_holds(c, amount)
            &&& c.condition_type == ConditionType::MaximumAmount && amount > c.threshold ==> q == 0
                && !condition_holds(c, amount)
            &&& c.condition_type == ConditionType::MaximumAmount && amount <= c.threshold ==> whole
                && condition_holds(c, amount)
            &&& c.condition_type == ConditionType::TimeWindow ==> whole && condition_holds(
                c,
                amount,
            )
        }),
{
    lemma_share(amount, c.percentage as int);
}

/// The first `n` conditional shares pay each address exactly the percentages
/// of its shares whose thresholds are met, out of the contract's own account.
pub proof fn law_conditional_shares_are_received(
    e: crate::env::EnvModel<(), SplitterEvent>,
    token: Address,
    c: Seq<ConditionalSplit>,
    amount: int,
    n: int,
    t: Address,
    who: Address,
)
    requires
        amount >= 0,
        0 <= n <= c.len(),
        conditions_fit(c, amount),
    ensures
        crate::env::received(conditions_paid(e, token, c, amount, n).log, t, who)
            == crate::env::received(e.log, t, who) + if t == token {
            conditional_due(c, amount, who, n)
        } else {
            0
        },
        conditions_paid(e, token, c, amount, n).contract == e.contract,
        conditions_paid(e, token, c, amount, n).auths == e.auths,
    decreases n,
{
    if n > 0 {
        law_conditional_shares_are_received(e, token, c, amount, n - 1, t, who);
        law_conditional_share(c[n - 1], amount);
        lemma_share(amount, c[n - 1].percentage as int);
        let p = amount * c[n - 1].percentage;
        assert(p >= 0) by (nonlinear_arith)
            requires
                amount >= 0,
                c[n - 1].percentage >= 0,
                p == amount * c[n - 1].percentage,
        ;
        if condition_holds(c[n - 1], amount) {
            assert(condition_payout(c[n - 1], amount) == p / 10_000);
            assert(0 <= p / 10_000 <= p);
        }
    }
}

/// One more conditional share adds its own part to what all of them take, and
/// nothing if its threshold is not met.
pub proof fn law_conditional_total(c: Seq<ConditionalSplit>, x: ConditionalSplit, amount: int)
    requires
        amount >= 0,
    ensures
        condition_sum(c, amount, 0) == 0,
        condition_sum(c.push(x), amount, c.len() as int + 1) == condition_sum(
            c,
            amount,
            c.len() as int,
        ) + if meets_threshold(x, amount) {
            amount * x.percentage / 10_000
        } else {
            0
        },
{
    lemma_condition_sum_prefix(c, x, amount, c.len() as int);
    assert(c.push(x)[c.len() as int] == x);
    let p = amount * x.percentage;
    assert(p >= 0) by (nonlinear_arith)
        requires
            amount >= 0,
            x.percentage >= 0,
            p == amount * x.percentage,
    ;
}

proof fn lemma_condition_sum_prefix(
    c: Seq<ConditionalSplit>,
    x: ConditionalSplit,
    amount: int,
    n: int,
)
    requires
        0 <= n <= c.len(),
    ensures
        condition_sum(c.push(x), amount, n) == condition_sum(c, amount, n),
    decreases n,
{
    if n > 0 {
        lemma_condition_sum_prefix(c, x, amount, n - 1);
    }
}

proof fn lemma_payout_not_above(s: Seq<Split>, amount: int, i: int)
    requires
        splits_error(s) is None,
        !short_for_fixed(s, amount),
        0 <= i < s.len(),
    ensures
        amount >= 0 ==> 0 <= payout(s, amount, i) <= amount,
        amount < 0 ==> payout(s, amount, i) <= 0,
{
    let n = s.len() as int;
    if amount >= 0 {
        law_payouts_within_amount(s, amount, i);
    } else {
        let left = amount - fixed_sum(s, n);
        lemma_kinds_ok(s, n, i);
        lemma_fixed_monotone(s, i, n);
        lemma_fixed_monotone(s, i + 1, n);
        lemma_first_payout_bounded(s, left, i);
        lemma_share(left, bps_of(s[i].kind));
    }
}

/// The first `n` shares of a divided amount pay each address exactly what is
/// due to its own shares, out of the contract's own account.
pub proof fn law_shares_are_received(
    e: crate::env::EnvModel<(), SplitterEvent>,
    token: Address,
    s: Seq<Split>,
    amount: int,
    n: int,
    t: Address,
    who: Address,
)
    requires
        splits_error(s) is None,
        !short_for_fixed(s, amount),
        amount <= i128::MAX,
        0 <= n <= s.len(),
    ensures
        crate::env::received(paid(e, token, s, amount, n).log, t, who) == crate::env::received(
            e.log,
            t,
            who,
        ) + if t == token {
            due_to(s, amount, who, n)
        } else {
            0
        },
        paid(e, token, s, amount, n).contract == e.contract,
        paid(e, token, s, amount, n).auths == e.auths,
    decreases n,
{
    if n > 0 {
        law_shares_are_received(e, token, s, amount, n - 1, t, who);
        lemma_payout_not_above(s, amount, n - 1);
    }
}

/// A fixed share pays its amount. A percentage pays its hundredths of a percent
/// of what the fixed shares leave, rounded down, and the first percentage gets
/// at least that.
pub proof fn law_each_share(s: Seq<Split>, amount: int, i: int)
    requires
        splits_error(s) is None,
        amount >= 0,
        !short_for_fixed(s, amount),
        0 <= i < s.len(),
    ensures
        ({
            let left = amount - fixed_sum(s, s.len() as int);
            let p = payout(s, amount, i);
            let later = exists|j: int| 0 <= j < i && (#[trigger] s[j]).kind is Percentage;
            match s[i].kind {
                SplitKind::Fixed(f) => p == f,
                SplitKind::Percentage(bps) => {
                    &&& left * bps < (p + 1) * 10_000
                    &&& later ==> p * 10_000 <= left * bps
                },
            }
        }),
{
    let n = s.len() as int;
    let left = amount - fixed_sum(s, n);
    lemma_share(left, bps_of(s[i].kind));
    lemma_fixed_monotone(s, n, n);
    lemma_share_sum_bounded(s, left, n);
    if exists|j: int| 0 <= j < i && (#[trigger] s[j]).kind is Percentage {
        let j = choose|j: int| 0 <= j < i && (#[trigger] s[j]).kind is Percentage;
        assert(!(s[j].kind is Fixed));
    }
}

/// A share with nothing due is sent nothing, not even a transfer of zero, and
/// one with something due is sent one transfer of it after those before.
pub proof fn law_no_empty_transfers(
    e: crate::env::EnvModel<(), SplitterEvent>,
    token: Address,
    s: Seq<Split>,
    amount: int,
    n: int,
)
    requires
        0 <= n < s.len(),
    ensures
        ({
            let before = paid(e, token, s, amount, n);
            let after = paid(e, token, s, amount, n + 1);
            &&& payout(s, amount, n) <= 0 ==> after == before
            &&& payout(s, amount, n) > 0 ==> after.log.len() == before.log.len() + 1
        }),
{
}

/// One more share adds its fixed amount to the fixed amounts or its hundredths
/// of a percent to the percentages, and nothing to the other.
pub proof fn law_sums_of_shares(s: Seq<Split>, x: Split)
    ensures
        fixed_sum(s, 0) == 0,
        bps_sum(s, 0) == 0,
        fixed_sum(s.push(x), s.len() as int + 1) == fixed_sum(s, s.len() as int) + match x.kind {
            SplitKind::Fixed(f) => f as int,
            SplitKind::Percentage(_) => 0,
        },
        bps_sum(s.push(x), s.len() as int + 1) == bps_sum(s, s.len() as int) + match x.kind {
            SplitKind::Fixed(_) => 0,
            SplitKind::Percentage(bps) => bps as int,
        },
{
    lemma_sums_prefix(s, x, s.len() as int);
    assert(s.push(x)[s.len() as int] == x);
}

proof fn lemma_sums_prefix(s: Seq<Split>, x: Split, n: int)
    requires
        0 <= n <= s.len(),
    ensures
        fixed_sum(s.push(x), n) == fixed_sum(s, n),
        bps_sum(s.push(x), n) == bps_sum(s, n),
    decreases n,
{
    if n > 0 {
        lemma_sums_prefix(s, x, n - 1);
    }
}

/// Whether a share is in order by itself: a percentage of one to ten thousand
/// hundredths of a percent, or a positive amount.
pub open spec fn in_order(x: Split) -> bool {
    match x.kind {
        SplitKind::Percentage(bps) => 1 <= bps <= 10_000,
        SplitKind::Fixed(f) => f >= 1,
    }
}

proof fn lemma_first_error(s: Seq<Split>, n: int)
    requires
        0 <= n <= s.len(),
    ensures
        first_kind_error(s, n) is None <==> forall|i: int|
            0 <= i < n ==> in_order(#[trigger] s[i]),
        forall|i: int|
            #![trigger s[i]]
            0 <= i < n && !in_order(s[i]) && (forall|j: int|
                0 <= j < i ==> in_order(#[trigger] s[j])) ==> first_kind_error(s, n) == Some(
                if s[i].kind is Percentage {
                    Error::InvalidShares
                } else {
                    Error::InvalidFixedAmount
                },
            ),
    decreases n,
{
    if n > 0 {
        lemma_first_error(s, n - 1);
        if first_kind_error(s, n) is None {
            assert forall|i: int| 0 <= i < n implies in_order(#[trigger] s[i]) by {}
        }
        if forall|i: int| 0 <= i < n ==> in_order(#[trigger] s[i]) {
            assert(in_order(s[n - 1]));
        }
    }
}

/// A list of shares is valid exactly when it is not empty, each share is in
/// order, and the percentages make up the whole or there are none. Otherwise
/// the first share that is not in order says what is wrong.
pub proof fn law_valid_splits(s: Seq<Split>)
    ensures
        splits_error(s) is None <==> {
            &&& s.len() > 0
            &&& forall|i: int| 0 <= i < s.len() ==> in_order(#[trigger] s[i])
            &&& bps_sum(s, s.len() as int) == 0 || bps_sum(s, s.len() as int) == 10_000
        },
        s.len() == 0 ==> splits_error(s) == Some(Error::EmptyRecipients),
        s.len() > 0 && (forall|i: int| 0 <= i < s.len() ==> in_order(#[trigger] s[i])) && bps_sum(
            s,
            s.len() as int,
        ) != 0 && bps_sum(s, s.len() as int) != 10_000 ==> splits_error(s) == Some(
            Error::InvalidShares,
        ),
        forall|i: int|
            #![trigger s[i]]
            0 <= i < s.len() && !in_order(s[i]) && (forall|j: int|
                0 <= j < i ==> in_order(#[trigger] s[j])) ==> splits_error(s) == Some(
                if s[i].kind is Percentage {
                    Error::InvalidShares
                } else {
                    Error::InvalidFixedAmount
                },
            ),
{
    lemma_first_error(s, s.len() as int);
}

/// A payment is too small exactly when the fixed shares come to more than it.
pub proof fn law_short_for_fixed(s: Seq<Split>, amount: int)
    ensures
        amount >= 0 ==> (short_for_fixed(s, amount) <==> fixed_sum(s, s.len() as int) > amount),
        amount < 0 ==> (short_for_fixed(s, amount) <==> fixed_sum(s, s.len() as int) > 0),
        forall|p: int| p > 0 ==> #[trigger] transferred(p) == p,
        forall|p: int| p <= 0 ==> #[trigger] transferred(p) == 0,
{
}

/// A payment whose ten-thousandfold a machine integer holds, and which the
/// running totals have room for, can be split.
pub proof fn law_ordinary_payments_fit(m: SplitterModel, amount: int)
    requires
        m.wf(),
        0 < amount,
        amount * 10_000 <= i128::MAX,
        m.total_in + amount <= i128::MAX,
        forall|i: int|
            0 <= i < m.splits.len() ==> (#[trigger] m.splits[i]).total_received + amount
                <= i128::MAX,
    ensures
        m.split_fits(amount),
{
    let s = m.splits;
    let n = s.len() as int;
    if m.admin is Some && !short_for_fixed(s, amount) {
        lemma_division_fits(s, amount, amount);
    }
}

proof fn lemma_division_fits(s: Seq<Split>, amount: int, most: int)
    requires
        splits_error(s) is None,
        !short_for_fixed(s, amount),
        0 <= most,
        most * 10_000 <= i128::MAX,
        -most <= amount <= most,
        forall|i: int|
            0 <= i < s.len() ==> (#[trigger] s[i]).total_received + most <= i128::MAX,
    ensures
        division_fits(s, amount),
{
    let n = s.len() as int;
    let left = amount - fixed_sum(s, n);
    lemma_fixed_monotone(s, n, n);
    assert forall|i: int| 0 <= i < n && (#[trigger] s[i]).kind is Percentage implies i128::MIN
        <= left * bps_of(s[i].kind) <= i128::MAX by {
        lemma_kinds_ok(s, n, i);
        let b = bps_of(s[i].kind);
        assert(-(most * 10_000) <= left * b <= most * 10_000) by (nonlinear_arith)
            requires
                -most <= left <= most,
                0 <= b <= 10_000,
        ;
    }
    assert forall|i: int| 0 <= i < n implies (#[trigger] s[i]).total_received + transferred(
        payout(s, amount, i),
    ) <= i128::MAX by {
        lemma_payout_not_above(s, amount, i);
    }
}

proof fn lemma_condition_sum_at_most(c: Seq<ConditionalSplit>, amount: int, n: int)
    requires
        0 <= n <= c.len(),
        0 <= amount,
        forall|i: int| 0 <= i < c.len() ==> (#[trigger] c[i]).percentage <= 10_000,
    ensures
        0 <= condition_sum(c, amount, n) <= n * amount,
    decreases n,
{
    if n == 0 {
        assert(0 * amount == 0) by (nonlinear_arith);
    } else {
        lemma_condition_sum_at_most(c, amount, n - 1);
        let b = c[n - 1].percentage as int;
        lemma_share(amount, b);
        assert(amount * b <= amount * 10_000) by (nonlinear_arith)
            requires
                0 <= amount,
                0 <= b <= 10_000,
        ;
        assert(n * amount == (n - 1) * amount + amount) by (nonlinear_arith);
    }
}

/// A payment which conditional shares of the whole each would not carry past
/// what a machine integer holds, ten thousand times over, can be split with
/// conditions.
pub proof fn law_ordinary_conditional_payments_fit(m: SplitterModel, amount: int)
    requires
        m.wf(),
        0 < amount,
        (m.conditionals.len() + 1) * amount * 10_000 <= i128::MAX,
        m.total_in + amount <= i128::MAX,
        forall|i: int|
            0 <= i < m.splits.len() ==> (#[trigger] m.splits[i]).total_received + (
            m.conditionals.len() + 1) * amount <= i128::MAX,
    ensures
        m.conditional_split_fits(amount),
{
    let c = m.conditionals;
    let k = c.len() as int;
    let most = (k + 1) * amount;
    let taken = condition_sum(c, amount, k);
    assert(most == k * amount + amount) by (nonlinear_arith)
        requires
            most == (k + 1) * amount,
    ;
    assert(0 <= k * amount) by (nonlinear_arith)
        requires
            k >= 0,
            amount > 0,
    ;
    assert forall|i: int| 0 <= i < k implies (#[trigger] c[i]).percentage <= 10_000 by {
        assert(m.conditionals[i].percentage <= BPS_TOTAL);
    }
    lemma_condition_sum_at_most(c, amount, k);
    assert forall|i: int| 0 <= i < k && condition_holds(#[trigger] c[i], amount) implies amount
        * c[i].percentage <= i128::MAX by {
        let b = c[i].percentage as int;
        assert(amount * b <= amount * 10_000) by (nonlinear_arith)
            requires
                0 <= amount,
                0 <= b <= 10_000,
        ;
    }
    if m.admin is Some && !short_for_fixed(m.splits, amount - taken) {
        lemma_division_fits(m.splits, amount - taken, most);
    }
}

/// A schedule pays exactly while it has periods left and once its period has
/// passed since it paid last. Paying uses up one period and starts the next;
/// otherwise nothing changes.
pub proof fn law_schedule_terms(s: SplitSchedule, ledger: u32)
    ensures
        ({
            let due = s.periods_remaining > 0 && (ledger >= s.last_payout_ledger + s.period_ledgers
                || s.period_ledgers == 0);
            let after = schedule_after(s, ledger);
            &&& schedule_due(s, ledger as int) <==> due
            &&& due ==> after.periods_remaining == s.periods_remaining - 1
                && after.last_payout_ledger == ledger
            &&& !due ==> after == s
            &&& after.recipient == s.recipient
            &&& after.amount_per_period == s.amount_per_period
            &&& after.period_ledgers == s.period_ledgers
        }),
{
}

/// The first `n` schedules pay each address exactly one period's amount of
/// each of its schedules that is due, out of the contract's own account.
pub proof fn law_schedules_are_received(
    e: crate::env::EnvModel<(), SplitterEvent>,
    token: Address,
    s: Seq<SplitSchedule>,
    n: int,
    t: Address,
    who: Address,
)
    requires
        0 <= n <= s.len(),
    ensures
        crate::env::received(schedules_paid(e, token, s, n).log, t, who) == crate::env::received(
            e.log,
            t,
            who,
        ) + if t == token {
            vesting_due(s, e.sequence as int, who, n)
        } else {
            0
        },
        schedules_paid(e, token, s, n).contract == e.contract,
        schedules_paid(e, token, s, n).auths == e.auths,
    decreases n,
{
    if n > 0 {
        law_schedules_are_received(e, token, s, n - 1, t, who);
    }
}

/// Processing keeps the schedules in order, without those that have no period
/// left, and counts those that were due.
pub proof fn law_schedules_are_kept_in_order(s: Seq<SplitSchedule>, ledger: u32, n: int)
    requires
        0 <= n <= s.len(),
    ensures
        schedules_after(s, ledger, n) == s.take(n).map_values(
            |x: SplitSchedule| schedule_after(x, ledger),
        ).filter(|x: SplitSchedule| x.periods_remaining > 0),
        schedules_due(s, ledger, n) == s.take(n).filter(
            |x: SplitSchedule|
                x.periods_remaining > 0 && (ledger >= x.last_payout_ledger + x.period_ledgers
                    || x.period_ledgers == 0),
        ).len(),
    decreases n,
{
    reveal(Seq::filter);
    if n > 0 {
        law_schedules_are_kept_in_order(s, ledger, n - 1);
        assert(s.take(n).drop_last() =~= s.take(n - 1));
        assert(s.take(n).map_values(|x: SplitSchedule| schedule_after(x, ledger)).drop_last()
            =~= s.take(n - 1).map_values(|x: SplitSchedule| schedule_after(x, ledger)));
        law_schedule_terms(s[n - 1], ledger);
    }
}

/// A schedule that has just paid does not pay again before its period is
/// over, and each payment uses up one period.
pub proof fn law_schedule_pays_once_per_period(s: SplitSchedule, ledger: u32, later: u32)
    requires
        schedule_due(s, ledger as int),
        ledger <= later < ledger + s.period_ledgers,
    ensures
        !schedule_due(schedule_after(s, ledger), later as int),
        schedule_after(s, ledger).periods_remaining == s.periods_remaining - 1,
{
}

/// The numbers under which callers see the values are fixed.
pub proof fn law_error_numbers(v: Error)
    ensures
        v is AlreadyInitialized ==> v.number() == 1,
        v is NotInitialized ==> v.number() == 2,
        v is Unauthorized ==> v.number() == 3,
        v is InvalidShares ==> v.number() == 4,
        v is EmptyRecipients ==> v.number() == 5,
        v is ZeroAmount ==> v.number() == 6,
        v is InsufficientForFixed ==> v.number() == 7,
        v is InvalidFixedAmount ==> v.number() == 8,
{
}

/// The topics under which the events are announced are fixed.
pub proof fn law_splitter_event_topics(v: SplitterEvent)
    ensures
        v is Split ==> v.topic_names() == ("splitter"@, "split"@),
        v is SplitsUpdated ==> v.topic_names() == ("splitter"@, "splits_up"@),
        v is ScheduleAdded ==> v.topic_names() == ("splitter"@, "sch_add"@),
        v is SchedulePaid ==> v.topic_names() == ("splitter"@, "sch_pay"@),
        v is ConditionAdded ==> v.topic_names() == ("splitter"@, "cond_add"@),
        v is ConditionalSplit ==> v.topic_names() == ("splitter"@, "cond_spl"@),
{
}

} // verus!
