//! Two-party escrow with disputes, votes, appeals and arbitration.
//!
//! Every state-changing call holds a contract-wide guard: a call that finds
//! the guard held is refused.
use crate::address::Address;
use crate::address::BytesN;
use crate::address::Key;
use crate::env::Effect;
use crate::env::Env;
use crate::num::saturating_add_i32;
use crate::num::saturating_add_u32;
use crate::table::Table;
use vstd::prelude::*;

verus! {

/// Seconds after which anyone may refund a locked escrow, and in which an
/// arbitration decision may be appealed.
pub const WEEK_SECONDS: u64 = 604_800;

/// Reputation that an arbitrator needs to be selected.
pub const MIN_ARBITRATOR_REPUTATION: i32 = 50;

/// The stages of an escrow.
#[derive(Clone, Copy, Debug, PartialEq, Eq, Structural)]
pub enum EscrowState {
    Locked,
    Released,
    Refunded,
    Disputed,
}

impl EscrowState {
    /// The number under which the stage is stored.
    pub open spec fn number(self) -> u32 {
        match self {
            EscrowState::Locked => 1,
            EscrowState::Released => 2,
            EscrowState::Refunded => 3,
            EscrowState::Disputed => 4,
        }
    }

    /// The number under which the stage is stored.
    pub fn code(&self) -> (r: u32)
        ensures
            r == self.number(),
    {
        match self {
            EscrowState::Locked => 1,
            EscrowState::Released => 2,
            EscrowState::Refunded => 3,
            EscrowState::Disputed => 4,
        }
    }
}

/// One escrow.
#[derive(Clone, Copy, Debug, PartialEq, Eq)]
pub struct Escrow {
    pub buyer: Address,
    pub seller: Address,
    pub arbitrator: Option<Address>,
    pub token: Address,
    pub amount: i128,
    pub state: EscrowState,
    pub memo: BytesN<32>,
    pub created_at: u64,
    pub timeout_ledger: u32,
    pub dispute_resolver: Option<Address>,
    pub buyer_vote: Option<bool>,
    pub seller_vote: Option<bool>,
    pub evidence_count: u32,
    pub appeal_count: u32,
}

/// Failures of the escrow calls.
#[derive(Clone, Copy, Debug, PartialEq, Eq)]
pub enum EscrowError {
    NotAuthorized,
    AlreadyLocked,
    NotLocked,
    AlreadyFinalized,
    InvalidAmount,
    InvalidState,
    InvalidArbitrator,
    TimeoutNotReached,
    NotDisputed,
    VoteAlreadyCast,
    /// A state-changing call is already in progress.
    Reentrant,
}

impl EscrowError {
    /// The number under which callers see the failure.
    pub open spec fn number(self) -> u32 {
        match self {
            EscrowError::NotAuthorized => 1,
            EscrowError::AlreadyLocked => 2,
            EscrowError::NotLocked => 3,
            EscrowError::AlreadyFinalized => 4,
            EscrowError::InvalidAmount => 5,
            EscrowError::InvalidState => 6,
            EscrowError::InvalidArbitrator => 7,
            EscrowError::TimeoutNotReached => 8,
            EscrowError::NotDisputed => 9,
            EscrowError::VoteAlreadyCast => 10,
            EscrowError::Reentrant => 11,
        }
    }

    /// The number under which callers see the failure.
    pub fn code(&self) -> (r: u32)
        ensures
            r == self.number(),
    {
        match self {
            EscrowError::NotAuthorized => 1,
            EscrowError::AlreadyLocked => 2,
            EscrowError::NotLocked => 3,
            EscrowError::AlreadyFinalized => 4,
            EscrowError::InvalidAmount => 5,
            EscrowError::InvalidState => 6,
            EscrowError::InvalidArbitrator => 7,
            EscrowError::TimeoutNotReached => 8,
            EscrowError::NotDisputed => 9,
            EscrowError::VoteAlreadyCast => 10,
            EscrowError::Reentrant => 11,
        }
    }
}

/// The stages of an arbitrated dispute.
#[derive(Clone, Copy, Debug, PartialEq, Eq, Structural)]
pub enum DisputeStatus {
    Pending,
    UnderReview,
    Resolved,
    Appealed,
    FinalResolution,
}

impl DisputeStatus {
    /// The number under which the stage is stored.
    pub open spec fn number(self) -> u32 {
        match self {
            DisputeStatus::Pending => 1,
            DisputeStatus::UnderReview => 2,
            DisputeStatus::Resolved => 3,
            DisputeStatus::Appealed => 4,
            DisputeStatus::FinalResolution => 5,
        }
    }

    /// The number under which the stage is stored.
    pub fn code(&self) -> (r: u32)
        ensures
            r == self.number(),
    {
        match self {
            DisputeStatus::Pending => 1,
            DisputeStatus::UnderReview => 2,
            DisputeStatus::Resolved => 3,
            DisputeStatus::Appealed => 4,
            DisputeStatus::FinalResolution => 5,
        }
    }
}

/// An arbitrated dispute over an escrow.
pub struct DisputeResolution {
    pub escrow_id: BytesN<32>,
    pub initiator: Address,
    pub status: DisputeStatus,
    pub tier: u32,
    pub arbitrators: Vec<Address>,
    pub selected_arbitrator: Option<Address>,
    pub evidence_hashes: Vec<BytesN<32>>,
    pub resolution_deadline: u64,
    pub appeal_deadline: u64,
    /// `true` releases to the seller, `false` refunds the buyer.
    pub final_decision: Option<bool>,
}

/// Failures of the arbitration calls.
#[derive(Clone, Copy, Debug, PartialEq, Eq)]
pub enum DisputeError {
    DisputeNotFound,
    InvalidArbitrator,
    AppealDeadlineExpired,
    NoArbitratorsAvailable,
    InsufficientReputation,
    DisputeAlreadyResolved,
}

impl DisputeError {
    /// The number under which callers see the failure.
    pub open spec fn number(self) -> u32 {
        match self {
            DisputeError::DisputeNotFound => 1,
            DisputeError::InvalidArbitrator => 2,
            DisputeError::AppealDeadlineExpired => 3,
            DisputeError::NoArbitratorsAvailable => 4,
            DisputeError::InsufficientReputation => 5,
            DisputeError::DisputeAlreadyResolved => 6,
        }
    }

    /// The number under which callers see the failure.
    pub fn code(&self) -> (r: u32)
        ensures
            r == self.number(),
    {
        match self {
            DisputeError::DisputeNotFound => 1,
            DisputeError::InvalidArbitrator => 2,
            DisputeError::AppealDeadlineExpired => 3,
            DisputeError::NoArbitratorsAvailable => 4,
            DisputeError::InsufficientReputation => 5,
            DisputeError::DisputeAlreadyResolved => 6,
        }
    }
}

/// A failure of an arbitration call, of either family.
#[derive(Clone, Copy, Debug, PartialEq, Eq)]
pub enum ArbitrationFailure {
    Escrow(EscrowError),
    Dispute(DisputeError),
}

/// Names one piece of evidence of an escrow.
#[derive(Clone, Copy, Debug)]
pub struct EvidenceKey {
    pub escrow_id: BytesN<32>,
    pub index: u32,
}

impl Key for EvidenceKey {
    fn same(&self, other: &EvidenceKey) -> (r: bool) {
        self.escrow_id == other.escrow_id && self.index == other.index
    }
}

/// What the escrow contract announces.
#[derive(Clone, Copy, Debug, PartialEq, Eq)]
pub enum EscrowEvent {
    Locked { escrow_id: BytesN<32>, buyer: Address, seller: Address, amount: i128 },
    Released { escrow_id: BytesN<32>, caller: Address, seller: Address, amount: i128 },
    Refunded { escrow_id: BytesN<32>, caller: Address, buyer: Address, amount: i128 },
    Disputed { escrow_id: BytesN<32>, caller: Address, resolver: Address },
    EvidenceSubmitted { escrow_id: BytesN<32>, caller: Address, evidence: BytesN<32> },
    ArbitratorSet { escrow_id: BytesN<32>, caller: Address, arbitrator: Address },
    AppealFiled { escrow_id: BytesN<32>, caller: Address, reason: BytesN<32> },
    Vote { escrow_id: BytesN<32>, caller: Address, resolve_to_seller: bool },
    ReputationChanged { who: Address, score: i32 },
    AdvancedDispute { escrow_id: BytesN<32>, caller: Address, arbitrators: u32 },
    DisputeEvidence { escrow_id: BytesN<32>, caller: Address, evidence_hash: BytesN<32> },
    ArbitratorSelected { escrow_id: BytesN<32>, arbitrator: Address },
    ArbitrationDecided { escrow_id: BytesN<32>, arbitrator: Address, decision: bool },
    ArbitrationAppealed { escrow_id: BytesN<32>, caller: Address, reason: BytesN<32> },
    DecisionExecuted { escrow_id: BytesN<32>, outcome: Option<bool> },
}

impl EscrowEvent {
    /// The two topics of the event.
    pub open spec fn topic_names(self) -> (Seq<char>, Seq<char>) {
        match self {
            EscrowEvent::Locked { .. } => ("escrow"@, "locked"@),
            EscrowEvent::Released { .. } => ("escrow"@, "released"@),
            EscrowEvent::Refunded { .. } => ("escrow"@, "refunded"@),
            EscrowEvent::Disputed { .. } => ("escrow"@, "disputed"@),
            EscrowEvent::EvidenceSubmitted { .. } => ("escrow"@, "evidence_submitted"@),
            EscrowEvent::ArbitratorSet { .. } => ("escrow"@, "arbitrator_set"@),
            EscrowEvent::AppealFiled { .. } => ("escrow"@, "appeal_filed"@),
            EscrowEvent::Vote { .. } => ("escrow"@, "vote"@),
            EscrowEvent::ReputationChanged { .. } => ("reputation"@, "changed"@),
            EscrowEvent::AdvancedDispute { .. } => ("escrow"@, "adv_disp"@),
            EscrowEvent::DisputeEvidence { .. } => ("escrow"@, "ev_sub"@),
            EscrowEvent::ArbitratorSelected { .. } => ("escrow"@, "arb_sel"@),
            EscrowEvent::ArbitrationDecided { .. } => ("escrow"@, "arb_dec"@),
            EscrowEvent::ArbitrationAppealed { .. } => ("escrow"@, "app_arb"@),
            EscrowEvent::DecisionExecuted { .. } => ("escrow"@, "exec_dec"@),
        }
    }

    /// The two topics of the event.
    pub fn topics(&self) -> (r: (&'static str, &'static str))
        ensures
            (r.0@, r.1@) == self.topic_names(),
    {
        match self {
            EscrowEvent::Locked { .. } => ("escrow", "locked"),
            EscrowEvent::Released { .. } => ("escrow", "released"),
            EscrowEvent::Refunded { .. } => ("escrow", "refunded"),
            EscrowEvent::Disputed { .. } => ("escrow", "disputed"),
            EscrowEvent::EvidenceSubmitted { .. } => ("escrow", "evidence_submitted"),
            EscrowEvent::ArbitratorSet { .. } => ("escrow", "arbitrator_set"),
            EscrowEvent::AppealFiled { .. } => ("escrow", "appeal_filed"),
            EscrowEvent::Vote { .. } => ("escrow", "vote"),
            EscrowEvent::ReputationChanged { .. } => ("reputation", "changed"),
            EscrowEvent::AdvancedDispute { .. } => ("escrow", "adv_disp"),
            EscrowEvent::DisputeEvidence { .. } => ("escrow", "ev_sub"),
            EscrowEvent::ArbitratorSelected { .. } => ("escrow", "arb_sel"),
            EscrowEvent::ArbitrationDecided { .. } => ("escrow", "arb_dec"),
            EscrowEvent::ArbitrationAppealed { .. } => ("escrow", "app_arb"),
            EscrowEvent::DecisionExecuted { .. } => ("escrow", "exec_dec"),
        }
    }
}

/// The surroundings of a call of the escrow contract.
pub type EscrowEnv = Env<(), EscrowEvent>;

/// The state of the escrow contract.
pub struct EscrowContract {
    /// Whether a state-changing call is in progress.
    pub guard_held: bool,
    pub escrows: Table<BytesN<32>, Escrow>,
    pub evidence: Table<EvidenceKey, BytesN<32>>,
    pub reputation: Table<Address, i32>,
    pub disputes: Table<BytesN<32>, DisputeResolution>,
}

/// The mathematical value of the escrow contract's state.
#[verifier::ext_equal]
pub struct EscrowModel {
    pub guard_held: bool,
    pub escrows: Map<BytesN<32>, Escrow>,
    pub evidence: Map<EvidenceKey, BytesN<32>>,
    pub reputation: Map<Address, i32>,
    pub disputes: Map<BytesN<32>, DisputeResolution>,
}

impl View for EscrowContract {
    type V = EscrowModel;

    open spec fn view(&self) -> EscrowModel {
        EscrowModel {
            guard_held: self.guard_held,
            escrows: self.escrows@,
            evidence: self.evidence@,
            reputation: self.reputation@,
            disputes: self.disputes@,
        }
    }
}

/// The escrow with its stage replaced.
pub open spec fn in_state(e: Escrow, state: EscrowState) -> Escrow {
    Escrow { state, ..e }
}

/// Whether the address is the escrow's arbitrator.
pub open spec fn arbitrates(e: Escrow, who: Address) -> bool {
    e.arbitrator == Some(who)
}

/// Whether the address is the buyer or the seller.
pub open spec fn is_party(e: Escrow, who: Address) -> bool {
    who == e.buyer || who == e.seller
}

/// The escrow after the party's vote was noted.
pub open spec fn with_vote(e: Escrow, who: Address, to_seller: bool) -> Escrow {
    if who == e.buyer {
        Escrow { buyer_vote: Some(to_seller), ..e }
    } else {
        Escrow { seller_vote: Some(to_seller), ..e }
    }
}

/// What the two votes agree on, if both were cast and agree.
pub open spec fn agreement(e: Escrow) -> Option<bool> {
    match (e.buyer_vote, e.seller_vote) {
        (Some(b), Some(s)) => if b == s {
            Some(b)
        } else {
            None
        },
        _ => None,
    }
}

/// The escrow after an agreement of the votes took effect.
pub open spec fn settled(e: Escrow) -> Escrow {
    match agreement(e) {
        Some(true) => in_state(e, EscrowState::Released),
        Some(false) => in_state(e, EscrowState::Refunded),
        None => e,
    }
}

impl EscrowModel {
    /// The reputation score of an address.
    pub open spec fn score(self, who: Address) -> i32 {
        if self.reputation.contains_key(who) {
            self.reputation[who]
        } else {
            0
        }
    }

    /// The score after a change by `delta`.
    pub open spec fn score_after(self, who: Address, delta: int) -> i32 {
        crate::num::sat_i32(self.score(who) + delta)
    }

    /// The state after the score changed by `delta`.
    pub open spec fn rated(self, who: Address, delta: int) -> EscrowModel {
        EscrowModel {
            reputation: self.reputation.insert(who, self.score_after(who, delta)),
            ..self
        }
    }

    /// The state with the escrow's record replaced.
    pub open spec fn put(self, id: BytesN<32>, e: Escrow) -> EscrowModel {
        EscrowModel { escrows: self.escrows.insert(id, e), ..self }
    }

    /// The state with the dispute's record replaced.
    pub open spec fn put_dispute(self, id: BytesN<32>, d: DisputeResolution) -> EscrowModel {
        EscrowModel { disputes: self.disputes.insert(id, d), ..self }
    }

    /// Why funds cannot be locked, if they cannot.
    pub open spec fn lock_error(self, id: BytesN<32>, amount: int) -> Option<EscrowError> {
        if self.guard_held {
            Some(EscrowError::Reentrant)
        } else if amount <= 0 {
            Some(EscrowError::InvalidAmount)
        } else if self.escrows.contains_key(id) {
            Some(EscrowError::AlreadyLocked)
        } else {
            None
        }
    }

    /// Why a call on the escrow finds it unusable in the wanted stage.
    pub open spec fn stage_error(
        self,
        id: BytesN<32>,
        wanted: EscrowState,
        otherwise: EscrowError,
    ) -> Option<EscrowError> {
        if self.guard_held {
            Some(EscrowError::Reentrant)
        } else if !self.escrows.contains_key(id) {
            Some(EscrowError::NotLocked)
        } else if self.escrows[id].state != wanted {
            Some(otherwise)
        } else {
            None
        }
    }

    /// Why funds cannot be released, if they cannot.
    pub open spec fn release_error(self, id: BytesN<32>, caller: Address) -> Option<EscrowError> {
        match self.stage_error(id, EscrowState::Locked, EscrowError::InvalidState) {
            Some(e) => Some(e),
            None => if caller == self.escrows[id].seller || arbitrates(self.escrows[id], caller) {
                None
            } else {
                Some(EscrowError::NotAuthorized)
            },
        }
    }

    /// Why funds cannot be refunded at the given time, if they cannot.
    pub open spec fn refund_error(self, id: BytesN<32>, caller: Address, now: int) -> Option<
        EscrowError,
    > {
        match self.stage_error(id, EscrowState::Locked, EscrowError::InvalidState) {
            Some(e) => Some(e),
            None => if caller == self.escrows[id].buyer || arbitrates(self.escrows[id], caller)
                || now >= self.escrows[id].created_at + WEEK_SECONDS {
                None
            } else {
                Some(EscrowError::NotAuthorized)
            },
        }
    }

    /// Why a dispute cannot be opened, if it cannot.
    pub open spec fn dispute_error(self, id: BytesN<32>, caller: Address) -> Option<EscrowError> {
        match self.stage_error(id, EscrowState::Locked, EscrowError::InvalidState) {
            Some(e) => Some(e),
            None => if is_party(self.escrows[id], caller) {
                None
            } else {
                Some(EscrowError::NotAuthorized)
            },
        }
    }

    /// Why an arbitrator cannot be named, if none can.
    pub open spec fn arbitrator_error(self, id: BytesN<32>, caller: Address) -> Option<EscrowError> {
        if self.guard_held {
            Some(EscrowError::Reentrant)
        } else if !self.escrows.contains_key(id) {
            Some(EscrowError::NotLocked)
        } else if !is_party(self.escrows[id], caller) {
            Some(EscrowError::NotAuthorized)
        } else {
            None
        }
    }

    /// Why an appeal is refused, if it is.
    pub open spec fn appeal_error(self, id: BytesN<32>, caller: Address) -> Option<EscrowError> {
        if self.guard_held {
            Some(EscrowError::Reentrant)
        } else if !self.escrows.contains_key(id) {
            Some(EscrowError::NotLocked)
        } else if !is_party(self.escrows[id], caller) && !arbitrates(self.escrows[id], caller) {
            Some(EscrowError::NotAuthorized)
        } else {
            None
        }
    }

    /// Why a vote is refused, if it is.
    pub open spec fn vote_error(self, id: BytesN<32>, caller: Address) -> Option<EscrowError> {
        match self.stage_error(id, EscrowState::Disputed, EscrowError::NotDisputed) {
            Some(e) => Some(e),
            None => {
                let e = self.escrows[id];
                if caller == e.buyer {
                    if e.buyer_vote is Some {
                        Some(EscrowError::VoteAlreadyCast)
                    } else {
                        None
                    }
                } else if caller == e.seller {
                    if e.seller_vote is Some {
                        Some(EscrowError::VoteAlreadyCast)
                    } else {
                        None
                    }
                } else {
                    Some(EscrowError::NotAuthorized)
                }
            },
        }
    }

    /// The state after a vote was noted and an agreement took effect.
    pub open spec fn voted(self, id: BytesN<32>, caller: Address, to_seller: bool) -> EscrowModel {
        let e = settled(with_vote(self.escrows[id], caller, to_seller));
        let winner = if agreement(e) == Some(true) {
            e.seller
        } else {
            e.buyer
        };
        let loser = if agreement(e) == Some(true) {
            e.buyer
        } else {
            e.seller
        };
        match agreement(e) {
            Some(_) => self.rated(winner, 1).rated(loser, -1).put(id, e),
            None => self.put(id, e),
        }
    }
}

/// The surroundings after a call demanded the address's authorization, unless
/// the guard refused the call first.
pub open spec fn guarded_auth(
    m: EscrowModel,
    e: crate::env::EnvModel<(), EscrowEvent>,
    who: Address,
) -> crate::env::EnvModel<(), EscrowEvent> {
    if m.guard_held {
        e
    } else {
        e.auth(who)
    }
}

/// The surroundings after an agreement of the votes was announced and paid.
pub open spec fn agreement_paid(
    m: EscrowModel,
    e: Escrow,
    env: crate::env::EnvModel<(), EscrowEvent>,
) -> crate::env::EnvModel<(), EscrowEvent> {
    match agreement(e) {
        Some(to_seller) => {
            let winner = if to_seller {
                e.seller
            } else {
                e.buyer
            };
            let loser = if to_seller {
                e.buyer
            } else {
                e.seller
            };
            env.event(
                EscrowEvent::ReputationChanged { who: winner, score: m.score_after(winner, 1) },
            ).event(
                EscrowEvent::ReputationChanged {
                    who: loser,
                    score: m.rated(winner, 1).score_after(loser, -1),
                },
            ).transfer(e.token, env.contract, winner, e.amount)
        },
        None => env,
    }
}

broadcast use {crate::env::lemma_received_push, crate::env::lemma_sent_push};

impl EscrowContract {
    /// The contract before any call.
    pub fn new() -> (r: EscrowContract)
        ensures
            r@ == (EscrowModel {
                guard_held: false,
                escrows: Map::<BytesN<32>, Escrow>::empty(),
                evidence: Map::<EvidenceKey, BytesN<32>>::empty(),
                reputation: Map::<Address, i32>::empty(),
                disputes: Map::<BytesN<32>, DisputeResolution>::empty(),
            }),
    {
        EscrowContract {
            guard_held: false,
            escrows: Table::new(),
            evidence: Table::new(),
            reputation: Table::new(),
            disputes: Table::new(),
        }
    }

    /// Refuses the call while another one is in progress.
    fn reentrancy_guard_enter(&self) -> (r: Result<(), EscrowError>)
        ensures
            r == if self@.guard_held {
                Err::<(), EscrowError>(EscrowError::Reentrant)
            } else {
                Ok(())
            },
    {
        if self.guard_held {
            return Err(EscrowError::Reentrant);
        }
        Ok(())
    }

    /// The reputation score of an address.
    pub fn reputation_of(&self, who: &Address) -> (r: i32)
        ensures
            r == self@.score(*who),
    {
        match self.reputation.get(who) {
            Some(score) => *score,
            None => 0,
        }
    }

    /// Changes a reputation score by `delta`, announces it and returns it.
    fn adjust_reputation(&mut self, env: &mut EscrowEnv, who: &Address, delta: i32) -> (r: i32)
        ensures
            r == old(self)@.score_after(*who, delta as int),
            final(self)@ == old(self)@.rated(*who, delta as int),
            final(env)@ == old(env)@.event(
                EscrowEvent::ReputationChanged { who: *who, score: r },
            ),
    {
        let current: i32 = self.reputation_of(who);
        let next: i32 = saturating_add_i32(current, delta);
        self.reputation.set(*who, next);
        env.event(EscrowEvent::ReputationChanged { who: *who, score: next });
        next
    }

    /// Locks the buyer's funds under an identifier that was not used before.
    pub fn lock_funds(
        &mut self,
        env: &mut EscrowEnv,
        escrow_id: &BytesN<32>,
        buyer: &Address,
        seller: &Address,
        token: &Address,
        amount: i128,
        timeout_ledger: u32,
        memo: &BytesN<32>,
    ) -> (r: Result<(), EscrowError>)
        ensures
            r == crate::env::outcome(old(self)@.lock_error(*escrow_id, amount as int), ()),
            final(self)@ == match r {
                Err(_) => old(self)@,
                Ok(_) => old(self)@.put(
                    *escrow_id,
                    Escrow {
                        buyer: *buyer,
                        seller: *seller,
                        arbitrator: None,
                        token: *token,
                        amount,
                        state: EscrowState::Locked,
                        memo: *memo,
                        created_at: old(env)@.timestamp,
                        timeout_ledger,
                        dispute_resolver: None,
                        buyer_vote: None,
                        seller_vote: None,
                        evidence_count: 0,
                        appeal_count: 0,
                    },
                ),
            },
            match r {
                Ok(_) => crate::env::pays(
                    old(env)@,
                    final(env)@,
                    *token,
                    *buyer,
                    old(env)@.contract,
                    amount as int,
                ),
                Err(_) => crate::env::pays_nobody(old(env)@, final(env)@),
            },
            r is Ok ==> ({
                let e = final(self)@.escrows[*escrow_id];
                &&& e.buyer == *buyer && e.seller == *seller && e.token == *token && e.amount == amount
                &&& e.memo == *memo && e.timeout_ledger == timeout_ledger
                &&& e.created_at == old(env)@.timestamp
                &&& final(self)@.release_error(*escrow_id, *seller) is None
                &&& final(self)@.refund_error(*escrow_id, *buyer, old(env)@.timestamp as int) is None
                &&& forall|other: BytesN<32>|
                    other != *escrow_id ==> #[trigger] final(self)@.escrows[other]
                        == old(self)@.escrows[other]
            }),
            final(env)@ == match r {
                Err(_) => guarded_auth(old(self)@, old(env)@, *buyer),
                Ok(_) => old(env)@.auth(*buyer).emit(Effect::Lock).transfer(
                    *token,
                    *buyer,
                    old(env)@.contract,
                    amount,
                ).event(
                    EscrowEvent::Locked {
                        escrow_id: *escrow_id,
                        buyer: *buyer,
                        seller: *seller,
                        amount,
                    },
                ).emit(Effect::Unlock),
            },
    {
        self.reentrancy_guard_enter()?;
        env.require_auth(buyer);
        if amount <= 0 {
            return Err(EscrowError::InvalidAmount);
        }
        if self.escrows.contains(escrow_id) {
            return Err(EscrowError::AlreadyLocked);
        }
        let escrow = Escrow {
            buyer: *buyer,
            seller: *seller,
            arbitrator: None,
            token: *token,
            amount,
            state: EscrowState::Locked,
            memo: *memo,
            created_at: env.timestamp,
            timeout_ledger,
            dispute_resolver: None,
            buyer_vote: None,
            seller_vote: None,
            evidence_count: 0,
            appeal_count: 0,
        };
        self.escrows.set(*escrow_id, escrow);
        let contract = env.contract;
        env.emit(Effect::Lock);
        env.transfer(token, buyer, &contract, amount);
        env.event(
            EscrowEvent::Locked { escrow_id: *escrow_id, buyer: *buyer, seller: *seller, amount },
        );
        env.emit(Effect::Unlock);
        Ok(())
    }

    /// The escrow, if it is in the wanted stage.
    fn load(&self, escrow_id: &BytesN<32>, wanted: EscrowState, otherwise: EscrowError) -> (r:
        Result<Escrow, EscrowError>)
        requires
            !self@.guard_held,
        ensures
            r == crate::env::outcome(
                self@.stage_error(*escrow_id, wanted, otherwise),
                self@.escrows[*escrow_id],
            ),
    {
        match self.escrows.get(escrow_id) {
            None => Err(EscrowError::NotLocked),
            Some(escrow) => {
                if escrow.state != wanted {
                    return Err(otherwise);
                }
                Ok(*escrow)
            },
        }
    }

    /// Releases locked funds to the seller. Only the seller or the arbitrator
    /// may call this.
    pub fn release_funds(
        &mut self,
        env: &mut EscrowEnv,
        escrow_id: &BytesN<32>,
        caller: &Address,
    ) -> (r: Result<(), EscrowError>)
        ensures
            r == crate::env::outcome(old(self)@.release_error(*escrow_id, *caller), ()),
            final(self)@ == match r {
                Err(_) => old(self)@,
                Ok(_) => old(self)@.put(
                    *escrow_id,
                    in_state(old(self)@.escrows[*escrow_id], EscrowState::Released),
                ),
            },
            match r {
                Ok(_) => crate::env::pays(
                    old(env)@,
                    final(env)@,
                    old(self)@.escrows[*escrow_id].token,
                    old(env)@.contract,
                    old(self)@.escrows[*escrow_id].seller,
                    old(self)@.escrows[*escrow_id].amount as int,
                ),
                Err(_) => crate::env::pays_nobody(old(env)@, final(env)@),
            },
            r is Ok ==> final(self)@.escrows[*escrow_id].state == EscrowState::Released
                && final(self)@.escrows[*escrow_id].amount == old(self)@.escrows[*escrow_id].amount,
            final(env)@ == match r {
                Err(_) => guarded_auth(old(self)@, old(env)@, *caller),
                Ok(_) => {
                    let e = old(self)@.escrows[*escrow_id];
                    old(env)@.auth(*caller).emit(Effect::Lock).transfer(
                        e.token,
                        old(env)@.contract,
                        e.seller,
                        e.amount,
                    ).event(
                        EscrowEvent::Released {
                            escrow_id: *escrow_id,
                            caller: *caller,
                            seller: e.seller,
                            amount: e.amount,
                        },
                    ).emit(Effect::Unlock)
                },
            },
    {
        self.reentrancy_guard_enter()?;
        env.require_auth(caller);
        let mut escrow: Escrow = self.load(
            escrow_id,
            EscrowState::Locked,
            EscrowError::InvalidState,
        )?;
        if *caller != escrow.seller {
            match escrow.arbitrator {
                Some(arbitrator) => {
                    if *caller != arbitrator {
                        return Err(EscrowError::NotAuthorized);
                    }
                },
                None => {
                    return Err(EscrowError::NotAuthorized);
                },
            }
        }
        escrow.state = EscrowState::Released;
        self.escrows.set(*escrow_id, escrow);
        let contract = env.contract;
        env.emit(Effect::Lock);
        env.transfer(&escrow.token, &contract, &escrow.seller, escrow.amount);
        env.event(
            EscrowEvent::Released {
                escrow_id: *escrow_id,
                caller: *caller,
                seller: escrow.seller,
                amount: escrow.amount,
            },
        );
        env.emit(Effect::Unlock);
        Ok(())
    }
}

impl EscrowModel {
    /// Why arbitration cannot be opened, if it cannot.
    pub open spec fn arbitration_error(
        self,
        id: BytesN<32>,
        caller: Address,
        arbitrators: int,
    ) -> Option<ArbitrationFailure> {
        if self.guard_held {
            Some(ArbitrationFailure::Escrow(EscrowError::Reentrant))
        } else if arbitrators == 0 {
            Some(ArbitrationFailure::Dispute(DisputeError::NoArbitratorsAvailable))
        } else {
            match self.dispute_error(id, caller) {
                Some(e) => Some(ArbitrationFailure::Escrow(e)),
                None => None,
            }
        }
    }

    /// Why a call on the dispute does not find it, if it does not.
    pub open spec fn lookup_error(self, id: BytesN<32>) -> Option<ArbitrationFailure> {
        if self.guard_held {
            Some(ArbitrationFailure::Escrow(EscrowError::Reentrant))
        } else if !self.disputes.contains_key(id) {
            Some(ArbitrationFailure::Dispute(DisputeError::DisputeNotFound))
        } else {
            None
        }
    }

    /// Why evidence is not taken in arbitration, if it is not.
    pub open spec fn dispute_evidence_error(self, id: BytesN<32>) -> Option<ArbitrationFailure> {
        match self.lookup_error(id) {
            Some(e) => Some(e),
            None => if self.disputes[id].status == DisputeStatus::FinalResolution {
                Some(ArbitrationFailure::Dispute(DisputeError::DisputeAlreadyResolved))
            } else {
                None
            },
        }
    }

    /// Why an arbitrator cannot be selected, if not.
    pub open spec fn select_error(self, id: BytesN<32>, arbitrator: Address) -> Option<
        ArbitrationFailure,
    > {
        match self.lookup_error(id) {
            Some(e) => Some(e),
            None => if !self.disputes[id].arbitrators@.contains(arbitrator) {
                Some(ArbitrationFailure::Dispute(DisputeError::InvalidArbitrator))
            } else if self.score(arbitrator) < MIN_ARBITRATOR_REPUTATION {
                Some(ArbitrationFailure::Dispute(DisputeError::InsufficientReputation))
            } else {
                None
            },
        }
    }

    /// Why a decision is not taken, if it is not.
    pub open spec fn decision_error(self, id: BytesN<32>, arbitrator: Address) -> Option<
        ArbitrationFailure,
    > {
        match self.lookup_error(id) {
            Some(e) => Some(e),
            None => if self.disputes[id].selected_arbitrator != Some(arbitrator) {
                Some(ArbitrationFailure::Dispute(DisputeError::InvalidArbitrator))
            } else {
                None
            },
        }
    }

    /// Why an appeal against a decision is refused, if it is.
    pub open spec fn appeal_arbitration_error(self, id: BytesN<32>, now: int) -> Option<
        ArbitrationFailure,
    > {
        match self.lookup_error(id) {
            Some(e) => Some(e),
            None => if now > self.disputes[id].appeal_deadline {
                Some(ArbitrationFailure::Dispute(DisputeError::AppealDeadlineExpired))
            } else {
                None
            },
        }
    }

    /// Why a decision cannot be executed, if it cannot.
    pub open spec fn execute_error(self, id: BytesN<32>, now: int) -> Option<ArbitrationFailure> {
        if self.guard_held {
            Some(ArbitrationFailure::Escrow(EscrowError::Reentrant))
        } else if !self.escrows.contains_key(id) {
            Some(ArbitrationFailure::Escrow(EscrowError::NotLocked))
        } else if !self.disputes.contains_key(id) {
            Some(ArbitrationFailure::Dispute(DisputeError::DisputeNotFound))
        } else if self.disputes[id].status != DisputeStatus::Resolved {
            Some(ArbitrationFailure::Dispute(DisputeError::DisputeNotFound))
        } else if now <= self.disputes[id].appeal_deadline {
            Some(ArbitrationFailure::Dispute(DisputeError::AppealDeadlineExpired))
        } else {
            None
        }
    }
}

/// The escrow after a decision took effect.
pub open spec fn decided(e: Escrow, decision: Option<bool>) -> Escrow {
    match decision {
        Some(true) => in_state(e, EscrowState::Released),
        Some(false) => in_state(e, EscrowState::Refunded),
        None => e,
    }
}

/// The surroundings after a decision was paid.
pub open spec fn decision_paid(
    e: Escrow,
    decision: Option<bool>,
    env: crate::env::EnvModel<(), EscrowEvent>,
) -> crate::env::EnvModel<(), EscrowEvent> {
    match decision {
        Some(true) => env.transfer(e.token, env.contract, e.seller, e.amount),
        Some(false) => env.transfer(e.token, env.contract, e.buyer, e.amount),
        None => env,
    }
}

impl EscrowContract {
    /// Refunds locked funds to the buyer. The buyer and the arbitrator may do
    /// so at any time, everybody else once a week has passed.
    pub fn refund_funds(
        &mut self,
        env: &mut EscrowEnv,
        escrow_id: &BytesN<32>,
        caller: &Address,
    ) -> (r: Result<(), EscrowError>)
        requires
            old(self)@.stage_error(*escrow_id, EscrowState::Locked, EscrowError::InvalidState)
                is None ==> old(self)@.escrows[*escrow_id].created_at + WEEK_SECONDS <= u64::MAX,
        ensures
            r == crate::env::outcome(
                old(self)@.refund_error(*escrow_id, *caller, old(env)@.timestamp as int),
                (),
            ),
            final(self)@ == match r {
                Err(_) => old(self)@,
                Ok(_) => old(self)@.put(
                    *escrow_id,
                    in_state(old(self)@.escrows[*escrow_id], EscrowState::Refunded),
                ),
            },
            match r {
                Ok(_) => crate::env::pays(
                    old(env)@,
                    final(env)@,
                    old(self)@.escrows[*escrow_id].token,
                    old(env)@.contract,
                    old(self)@.escrows[*escrow_id].buyer,
                    old(self)@.escrows[*escrow_id].amount as int,
                ),
                Err(_) => crate::env::pays_nobody(old(env)@, final(env)@),
            },
            r is Ok ==> final(self)@.escrows[*escrow_id].state == EscrowState::Refunded
                && final(self)@.escrows[*escrow_id].amount == old(self)@.escrows[*escrow_id].amount,
            final(env)@ == match r {
                Err(_) => guarded_auth(old(self)@, old(env)@, *caller),
                Ok(_) => {
                    let e = old(self)@.escrows[*escrow_id];
                    old(env)@.auth(*caller).emit(Effect::Lock).transfer(
                        e.token,
                        old(env)@.contract,
                        e.buyer,
                        e.amount,
                    ).event(
                        EscrowEvent::Refunded {
                            escrow_id: *escrow_id,
                            caller: *caller,
                            buyer: e.buyer,
                            amount: e.amount,
                        },
                    ).emit(Effect::Unlock)
                },
            },
    {
        self.reentrancy_guard_enter()?;
        env.require_auth(caller);
        let mut escrow: Escrow = self.load(
            escrow_id,
            EscrowState::Locked,
            EscrowError::InvalidState,
        )?;
        let is_timeout = env.timestamp >= escrow.created_at + WEEK_SECONDS;
        let is_arbitrator = match escrow.arbitrator {
            Some(arbitrator) => arbitrator == *caller,
            None => false,
        };
        if *caller != escrow.buyer && !is_arbitrator && !is_timeout {
            return Err(EscrowError::NotAuthorized);
        }
        escrow.state = EscrowState::Refunded;
        self.escrows.set(*escrow_id, escrow);
        let contract = env.contract;
        env.emit(Effect::Lock);
        env.transfer(&escrow.token, &contract, &escrow.buyer, escrow.amount);
        env.event(
            EscrowEvent::Refunded {
                escrow_id: *escrow_id,
                caller: *caller,
                buyer: escrow.buyer,
                amount: escrow.amount,
            },
        );
        env.emit(Effect::Unlock);
        Ok(())
    }

    /// Opens a dispute over a locked escrow. Only the buyer or the seller may
    /// do so.
    pub fn initiate_dispute(
        &mut self,
        env: &mut EscrowEnv,
        escrow_id: &BytesN<32>,
        caller: &Address,
        resolver: &Address,
    ) -> (r: Result<(), EscrowError>)
        ensures
            r == crate::env::outcome(old(self)@.dispute_error(*escrow_id, *caller), ()),
            final(self)@ == match r {
                Err(_) => old(self)@,
                Ok(_) => old(self)@.put(
                    *escrow_id,
                    Escrow {
                        state: EscrowState::Disputed,
                        dispute_resolver: Some(*resolver),
                        ..old(self)@.escrows[*escrow_id]
                    },
                ),
            },
            crate::env::pays_nobody(old(env)@, final(env)@),
            r is Ok ==> ({
                let e = old(self)@.escrows[*escrow_id];
                &&& final(self)@.escrows[*escrow_id].dispute_resolver == Some(*resolver)
                &&& forall|who: Address| #[trigger] final(self)@.release_error(*escrow_id, who) is Some
                &&& e.buyer_vote is None ==> final(self)@.vote_error(*escrow_id, e.buyer) is None
            }),
            final(env)@ == match r {
                Err(_) => guarded_auth(old(self)@, old(env)@, *caller),
                Ok(_) => old(env)@.auth(*caller).emit(Effect::Lock).event(
                    EscrowEvent::Disputed {
                        escrow_id: *escrow_id,
                        caller: *caller,
                        resolver: *resolver,
                    },
                ).emit(Effect::Unlock),
            },
    {
        self.reentrancy_guard_enter()?;
        env.require_auth(caller);
        let mut escrow: Escrow = self.load(
            escrow_id,
            EscrowState::Locked,
            EscrowError::InvalidState,
        )?;
        if *caller != escrow.buyer && *caller != escrow.seller {
            return Err(EscrowError::NotAuthorized);
        }
        escrow.state = EscrowState::Disputed;
        escrow.dispute_resolver = Some(*resolver);
        self.escrows.set(*escrow_id, escrow);
        env.emit(Effect::Lock);
        env.event(
            EscrowEvent::Disputed { escrow_id: *escrow_id, caller: *caller, resolver: *resolver },
        );
        env.emit(Effect::Unlock);
        Ok(())
    }

    /// Stores a reference to evidence for a disputed escrow. Anyone may
    /// submit one.
    pub fn submit_evidence(
        &mut self,
        env: &mut EscrowEnv,
        escrow_id: &BytesN<32>,
        caller: &Address,
        evidence: &BytesN<32>,
    ) -> (r: Result<(), EscrowError>)
        ensures
            r == crate::env::outcome(
                old(self)@.stage_error(
                    *escrow_id,
                    EscrowState::Disputed,
                    EscrowError::NotDisputed,
                ),
                (),
            ),
            final(self)@ == match r {
                Err(_) => old(self)@,
                Ok(_) => {
                    let e = old(self)@.escrows[*escrow_id];
                    EscrowModel {
                        evidence: old(self)@.evidence.insert(
                            EvidenceKey { escrow_id: *escrow_id, index: e.evidence_count },
                            *evidence,
                        ),
                        ..old(self)@.put(
                            *escrow_id,
                            Escrow {
                                evidence_count: crate::num::sat_u32(e.evidence_count + 1),
                                ..e
                            },
                        )
                    }
                },
            },
            crate::env::pays_nobody(old(env)@, final(env)@),
            r is Ok ==> ({
                let n = old(self)@.escrows[*escrow_id].evidence_count;
                &&& final(self)@.evidence.contains_pair(
                    EvidenceKey { escrow_id: *escrow_id, index: n },
                    *evidence,
                )
                &&& n < u32::MAX ==> final(self)@.escrows[*escrow_id].evidence_count == n + 1
                &&& n == u32::MAX ==> final(self)@.escrows[*escrow_id].evidence_count == n
                &&& final(self)@.escrows[*escrow_id].state == EscrowState::Disputed
            }),
            final(env)@ == match r {
                Err(_) => guarded_auth(old(self)@, old(env)@, *caller),
                Ok(_) => old(env)@.auth(*caller).emit(Effect::Lock).event(
                    EscrowEvent::EvidenceSubmitted {
                        escrow_id: *escrow_id,
                        caller: *caller,
                        evidence: *evidence,
                    },
                ).emit(Effect::Unlock),
            },
    {
        self.reentrancy_guard_enter()?;
        env.require_auth(caller);
        let mut escrow: Escrow = self.load(
            escrow_id,
            EscrowState::Disputed,
            EscrowError::NotDisputed,
        )?;
        let key = EvidenceKey { escrow_id: *escrow_id, index: escrow.evidence_count };
        self.evidence.set(key, *evidence);
        escrow.evidence_count = saturating_add_u32(escrow.evidence_count, 1);
        self.escrows.set(*escrow_id, escrow);
        env.emit(Effect::Lock);
        env.event(
            EscrowEvent::EvidenceSubmitted {
                escrow_id: *escrow_id,
                caller: *caller,
                evidence: *evidence,
            },
        );
        env.emit(Effect::Unlock);
        Ok(())
    }

    /// Lets the buyer or the seller name the escrow's arbitrator.
    pub fn set_arbitrator(
        &mut self,
        env: &mut EscrowEnv,
        escrow_id: &BytesN<32>,
        caller: &Address,
        arbitrator: &Address,
    ) -> (r: Result<(), EscrowError>)
        ensures
            r == crate::env::outcome(old(self)@.arbitrator_error(*escrow_id, *caller), ()),
            final(self)@ == match r {
                Err(_) => old(self)@,
                Ok(_) => old(self)@.put(
                    *escrow_id,
                    Escrow {
                        arbitrator: Some(*arbitrator),
                        ..old(self)@.escrows[*escrow_id]
                    },
                ),
            },
            crate::env::pays_nobody(old(env)@, final(env)@),
            r is Ok ==> ({
                let (before, after) = (old(self)@.escrows[*escrow_id], final(self)@.escrows[*escrow_id]);
                &&& after.arbitrator == Some(*arbitrator)
                &&& after.state == before.state
                &&& before.state == EscrowState::Locked ==> final(self)@.release_error(
                    *escrow_id,
                    *arbitrator,
                ) is None
            }),
            final(env)@ == match r {
                Err(_) => guarded_auth(old(self)@, old(env)@, *caller),
                Ok(_) => old(env)@.auth(*caller).emit(Effect::Lock).event(
                    EscrowEvent::ArbitratorSet {
                        escrow_id: *escrow_id,
                        caller: *caller,
                        arbitrator: *arbitrator,
                    },
                ).emit(Effect::Unlock),
            },
    {
        self.reentrancy_guard_enter()?;
        env.require_auth(caller);
        let mut escrow: Escrow = self.get_escrow(escrow_id)?;
        if *caller != escrow.buyer && *caller != escrow.seller {
            return Err(EscrowError::NotAuthorized);
        }
        escrow.arbitrator = Some(*arbitrator);
        self.escrows.set(*escrow_id, escrow);
        env.emit(Effect::Lock);
        env.event(
            EscrowEvent::ArbitratorSet {
                escrow_id: *escrow_id,
                caller: *caller,
                arbitrator: *arbitrator,
            },
        );
        env.emit(Effect::Unlock);
        Ok(())
    }

    /// Moves the escrow back into dispute and clears the votes. Only a party
    /// or the arbitrator may appeal.
    pub fn appeal(
        &mut self,
        env: &mut EscrowEnv,
        escrow_id: &BytesN<32>,
        caller: &Address,
        reason: &BytesN<32>,
    ) -> (r: Result<(), EscrowError>)
        ensures
            r == crate::env::outcome(old(self)@.appeal_error(*escrow_id, *caller), ()),
            final(self)@ == match r {
                Err(_) => old(self)@,
                Ok(_) => {
                    let e = old(self)@.escrows[*escrow_id];
                    old(self)@.put(
                        *escrow_id,
                        Escrow {
                            state: EscrowState::Disputed,
                            buyer_vote: None,
                            seller_vote: None,
                            appeal_count: crate::num::sat_u32(e.appeal_count + 1),
                            ..e
                        },
                    )
                },
            },
            crate::env::pays_nobody(old(env)@, final(env)@),
            r is Ok ==> ({
                let e = old(self)@.escrows[*escrow_id];
                let n = final(self)@.escrows[*escrow_id].appeal_count;
                &&& final(self)@.vote_error(*escrow_id, e.buyer) is None
                &&& final(self)@.vote_error(*escrow_id, e.seller) is None
                &&& e.appeal_count < u32::MAX ==> n == e.appeal_count + 1
                &&& e.appeal_count == u32::MAX ==> n == e.appeal_count
            }),
            final(env)@ == match r {
                Err(_) => guarded_auth(old(self)@, old(env)@, *caller),
                Ok(_) => old(env)@.auth(*caller).emit(Effect::Lock).event(
                    EscrowEvent::AppealFiled {
                        escrow_id: *escrow_id,
                        caller: *caller,
                        reason: *reason,
                    },
                ).emit(Effect::Unlock),
            },
    {
        self.reentrancy_guard_enter()?;
        env.require_auth(caller);
        let mut escrow: Escrow = self.get_escrow(escrow_id)?;
        let is_arbitrator = match escrow.arbitrator {
            Some(arbitrator) => arbitrator == *caller,
            None => false,
        };
        if *caller != escrow.buyer && *caller != escrow.seller && !is_arbitrator {
            return Err(EscrowError::NotAuthorized);
        }
        escrow.state = EscrowState::Disputed;
        escrow.buyer_vote = None;
        escrow.seller_vote = None;
        escrow.appeal_count = saturating_add_u32(escrow.appeal_count, 1);
        self.escrows.set(*escrow_id, escrow);
        env.emit(Effect::Lock);
        env.event(
            EscrowEvent::AppealFiled { escrow_id: *escrow_id, caller: *caller, reason: *reason },
        );
        env.emit(Effect::Unlock);
        Ok(())
    }

    /// Casts a party's vote on a dispute. Once both votes agree, the funds go
    /// to the side they agree on.
    pub fn vote_resolution(
        &mut self,
        env: &mut EscrowEnv,
        escrow_id: &BytesN<32>,
        caller: &Address,
        resolve_to_seller: bool,
    ) -> (r: Result<(), EscrowError>)
        ensures
            r == crate::env::outcome(old(self)@.vote_error(*escrow_id, *caller), ()),
            final(self)@ == match r {
                Err(_) => old(self)@,
                Ok(_) => old(self)@.voted(*escrow_id, *caller, resolve_to_seller),
            },
            match (r, final(self)@.escrows[*escrow_id].state) {
                (Ok(_), EscrowState::Released) => crate::env::pays(
                    old(env)@,
                    final(env)@,
                    old(self)@.escrows[*escrow_id].token,
                    old(env)@.contract,
                    old(self)@.escrows[*escrow_id].seller,
                    old(self)@.escrows[*escrow_id].amount as int,
                ),
                (Ok(_), EscrowState::Refunded) => crate::env::pays(
                    old(env)@,
                    final(env)@,
                    old(self)@.escrows[*escrow_id].token,
                    old(env)@.contract,
                    old(self)@.escrows[*escrow_id].buyer,
                    old(self)@.escrows[*escrow_id].amount as int,
                ),
                _ => crate::env::pays_nobody(old(env)@, final(env)@),
            },
            final(env)@ == match r {
                Err(_) => guarded_auth(old(self)@, old(env)@, *caller),
                Ok(_) => agreement_paid(
                    old(self)@,
                    with_vote(old(self)@.escrows[*escrow_id], *caller, resolve_to_seller),
                    old(env)@.auth(*caller).emit(Effect::Lock),
                ).event(
                    EscrowEvent::Vote {
                        escrow_id: *escrow_id,
                        caller: *caller,
                        resolve_to_seller,
                    },
                ).emit(Effect::Unlock),
            },
    {
        self.reentrancy_guard_enter()?;
        env.require_auth(caller);
        let mut escrow: Escrow = self.load(
            escrow_id,
            EscrowState::Disputed,
            EscrowError::NotDisputed,
        )?;
        if *caller == escrow.buyer {
            if escrow.buyer_vote.is_some() {
                return Err(EscrowError::VoteAlreadyCast);
            }
            escrow.buyer_vote = Some(resolve_to_seller);
        } else if *caller == escrow.seller {
            if escrow.seller_vote.is_some() {
                return Err(EscrowError::VoteAlreadyCast);
            }
            escrow.seller_vote = Some(resolve_to_seller);
        } else {
            return Err(EscrowError::NotAuthorized);
        }
        env.emit(Effect::Lock);
        let contract = env.contract;
        if let (Some(buyer_vote), Some(seller_vote)) = (escrow.buyer_vote, escrow.seller_vote) {
            if buyer_vote == seller_vote {
                let (winner, loser) = if buyer_vote {
                    escrow.state = EscrowState::Released;
                    (escrow.seller, escrow.buyer)
                } else {
                    escrow.state = EscrowState::Refunded;
                    (escrow.buyer, escrow.seller)
                };
                let _ = self.adjust_reputation(env, &winner, 1);
                let _ = self.adjust_reputation(env, &loser, -1);
            }
        }
        self.escrows.set(*escrow_id, escrow);
        if escrow.state == EscrowState::Released {
            env.transfer(&escrow.token, &contract, &escrow.seller, escrow.amount);
        } else if escrow.state == EscrowState::Refunded {
            env.transfer(&escrow.token, &contract, &escrow.buyer, escrow.amount);
        }
        env.event(
            EscrowEvent::Vote { escrow_id: *escrow_id, caller: *caller, resolve_to_seller },
        );
        env.emit(Effect::Unlock);
        Ok(())
    }

    /// The escrow under the identifier.
    pub fn get_escrow(&self, escrow_id: &BytesN<32>) -> (r: Result<Escrow, EscrowError>)
        ensures
            r == if self@.escrows.contains_key(*escrow_id) {
                Ok(self@.escrows[*escrow_id])
            } else {
                Err(EscrowError::NotLocked)
            },
    {
        match self.escrows.get(escrow_id) {
            Some(escrow) => Ok(*escrow),
            None => Err(EscrowError::NotLocked),
        }
    }

    /// Whether funds are locked under the identifier.
    pub fn is_locked(&self, escrow_id: &BytesN<32>) -> (r: bool)
        ensures
            r == (self@.escrows.contains_key(*escrow_id) && self@.escrows[*escrow_id].state
                == EscrowState::Locked),
    {
        match self.escrows.get(escrow_id) {
            Some(escrow) => escrow.state == EscrowState::Locked,
            None => false,
        }
    }

    /// The stage of the escrow under the identifier.
    pub fn get_state(&self, escrow_id: &BytesN<32>) -> (r: Result<EscrowState, EscrowError>)
        ensures
            r == if self@.escrows.contains_key(*escrow_id) {
                Ok(self@.escrows[*escrow_id].state)
            } else {
                Err(EscrowError::NotLocked)
            },
    {
        match self.escrows.get(escrow_id) {
            Some(escrow) => Ok(escrow.state),
            None => Err(EscrowError::NotLocked),
        }
    }

    /// Opens arbitration of a locked escrow among the given arbitrators.
    pub fn initiate_advanced_dispute(
        &mut self,
        env: &mut EscrowEnv,
        escrow_id: &BytesN<32>,
        caller: &Address,
        arbitrators: Vec<Address>,
        resolution_deadline: u64,
    ) -> (r: Result<(), ArbitrationFailure>)
        requires
            arbitrators@.len() <= u32::MAX,
        ensures
            r == crate::env::outcome(
                old(self)@.arbitration_error(*escrow_id, *caller, arbitrators@.len() as int),
                (),
            ),
            r is Err ==> final(self)@ == old(self)@,
            r is Ok ==> {
                let d = final(self)@.disputes[*escrow_id];
                &&& final(self)@ == old(self)@.put(
                    *escrow_id,
                    in_state(old(self)@.escrows[*escrow_id], EscrowState::Disputed),
                ).put_dispute(*escrow_id, d)
                &&& d.evidence_hashes@ == Seq::<BytesN<32>>::empty()
                &&& d == (DisputeResolution {
                    escrow_id: *escrow_id,
                    initiator: *caller,
                    status: DisputeStatus::Pending,
                    tier: 1,
                    arbitrators,
                    selected_arbitrator: None,
                    evidence_hashes: d.evidence_hashes,
                    resolution_deadline,
                    appeal_deadline: 0,
                    final_decision: None,
                })
            },
            crate::env::pays_nobody(old(env)@, final(env)@),
            r is Ok ==> ({
                let d = final(self)@.disputes[*escrow_id];
                &&& d.initiator == *caller && d.arbitrators@ == arbitrators@
                &&& d.resolution_deadline == resolution_deadline
                &&& final(self)@.dispute_evidence_error(*escrow_id) is None
                &&& forall|who: Address| #[trigger] final(self)@.decision_error(*escrow_id, who) is Some
                &&& forall|t: int| #[trigger] final(self)@.execute_error(*escrow_id, t) is Some
            }),
            final(env)@ == match r {
                Err(_) => guarded_auth(old(self)@, old(env)@, *caller),
                Ok(_) => old(env)@.auth(*caller).emit(Effect::Lock).event(
                    EscrowEvent::AdvancedDispute {
                        escrow_id: *escrow_id,
                        caller: *caller,
                        arbitrators: arbitrators@.len() as u32,
                    },
                ).emit(Effect::Unlock),
            },
    {
        if self.guard_held {
            return Err(ArbitrationFailure::Escrow(EscrowError::Reentrant));
        }
        env.require_auth(caller);
        if arbitrators.len() == 0 {
            return Err(ArbitrationFailure::Dispute(DisputeError::NoArbitratorsAvailable));
        }
        let mut escrow: Escrow = match self.load(
            escrow_id,
            EscrowState::Locked,
            EscrowError::InvalidState,
        ) {
            Ok(escrow) => escrow,
            Err(e) => {
                return Err(ArbitrationFailure::Escrow(e));
            },
        };
        if *caller != escrow.buyer && *caller != escrow.seller {
            return Err(ArbitrationFailure::Escrow(EscrowError::NotAuthorized));
        }
        let count: u32 = arbitrators.len() as u32;
        escrow.state = EscrowState::Disputed;
        self.escrows.set(*escrow_id, escrow);
        let dispute = DisputeResolution {
            escrow_id: *escrow_id,
            initiator: *caller,
            status: DisputeStatus::Pending,
            tier: 1,
            arbitrators,
            selected_arbitrator: None,
            evidence_hashes: Vec::new(),
            resolution_deadline,
            appeal_deadline: 0,
            final_decision: None,
        };
        self.disputes.set(*escrow_id, dispute);
        env.emit(Effect::Lock);
        env.event(
            EscrowEvent::AdvancedDispute {
                escrow_id: *escrow_id,
                caller: *caller,
                arbitrators: count,
            },
        );
        env.emit(Effect::Unlock);
        Ok(())
    }

    /// Takes evidence for an arbitrated dispute.
    pub fn submit_dispute_evidence(
        &mut self,
        env: &mut EscrowEnv,
        escrow_id: &BytesN<32>,
        caller: &Address,
        evidence_hash: &BytesN<32>,
    ) -> (r: Result<(), ArbitrationFailure>)
        ensures
            r == crate::env::outcome(old(self)@.dispute_evidence_error(*escrow_id), ()),
            r is Err ==> final(self)@ == old(self)@,
            r is Ok ==> {
                let before = old(self)@.disputes[*escrow_id];
                let after = final(self)@.disputes[*escrow_id];
                &&& final(self)@ == old(self)@.put_dispute(*escrow_id, after)
                &&& after.evidence_hashes@ == before.evidence_hashes@.push(*evidence_hash)
                &&& after == (DisputeResolution {
                    evidence_hashes: after.evidence_hashes,
                    ..before
                })
            },
            crate::env::pays_nobody(old(env)@, final(env)@),
            final(env)@ == match r {
                Err(_) => guarded_auth(old(self)@, old(env)@, *caller),
                Ok(_) => old(env)@.auth(*caller).emit(Effect::Lock).event(
                    EscrowEvent::DisputeEvidence {
                        escrow_id: *escrow_id,
                        caller: *caller,
                        evidence_hash: *evidence_hash,
                    },
                ).emit(Effect::Unlock),
            },
    {
        if self.guard_held {
            return Err(ArbitrationFailure::Escrow(EscrowError::Reentrant));
        }
        env.require_auth(caller);
        match self.disputes.get(escrow_id) {
            None => {
                return Err(ArbitrationFailure::Dispute(DisputeError::DisputeNotFound));
            },
            Some(dispute) => {
                if dispute.status == DisputeStatus::FinalResolution {
                    return Err(ArbitrationFailure::Dispute(DisputeError::DisputeAlreadyResolved));
                }
            },
        }
        let mut dispute = self.disputes.take(escrow_id).unwrap();
        dispute.evidence_hashes.push(*evidence_hash);
        self.disputes.set(*escrow_id, dispute);
        env.emit(Effect::Lock);
        env.event(
            EscrowEvent::DisputeEvidence {
                escrow_id: *escrow_id,
                caller: *caller,
                evidence_hash: *evidence_hash,
            },
        );
        env.emit(Effect::Unlock);
        Ok(())
    }

    /// Selects one of the dispute's arbitrators, if its reputation suffices.
    pub fn select_arbitrator(
        &mut self,
        env: &mut EscrowEnv,
        escrow_id: &BytesN<32>,
        arbitrator: &Address,
    ) -> (r: Result<(), ArbitrationFailure>)
        ensures
            r == crate::env::outcome(old(self)@.select_error(*escrow_id, *arbitrator), ()),
            final(self)@ == match r {
                Err(_) => old(self)@,
                Ok(_) => old(self)@.put_dispute(
                    *escrow_id,
                    DisputeResolution {
                        selected_arbitrator: Some(*arbitrator),
                        status: DisputeStatus::UnderReview,
                        ..old(self)@.disputes[*escrow_id]
                    },
                ),
            },
            crate::env::pays_nobody(old(env)@, final(env)@),
            r is Ok ==> forall|who: Address|
                (#[trigger] final(self)@.decision_error(*escrow_id, who) is None) == (who == *arbitrator),
            final(env)@ == match r {
                Err(_) => old(env)@,
                Ok(_) => old(env)@.emit(Effect::Lock).event(
                    EscrowEvent::ArbitratorSelected {
                        escrow_id: *escrow_id,
                        arbitrator: *arbitrator,
                    },
                ).emit(Effect::Unlock),
            },
    {
        if self.guard_held {
            return Err(ArbitrationFailure::Escrow(EscrowError::Reentrant));
        }
        match self.disputes.get(escrow_id) {
            None => {
                return Err(ArbitrationFailure::Dispute(DisputeError::DisputeNotFound));
            },
            Some(dispute) => {
                if !listed(&dispute.arbitrators, arbitrator) {
                    return Err(ArbitrationFailure::Dispute(DisputeError::InvalidArbitrator));
                }
            },
        }
        if self.reputation_of(arbitrator) < MIN_ARBITRATOR_REPUTATION {
            return Err(ArbitrationFailure::Dispute(DisputeError::InsufficientReputation));
        }
        let mut dispute = self.disputes.take(escrow_id).unwrap();
        dispute.selected_arbitrator = Some(*arbitrator);
        dispute.status = DisputeStatus::UnderReview;
        self.disputes.set(*escrow_id, dispute);
        env.emit(Effect::Lock);
        env.event(
            EscrowEvent::ArbitratorSelected { escrow_id: *escrow_id, arbitrator: *arbitrator },
        );
        env.emit(Effect::Unlock);
        Ok(())
    }

    /// Takes the selected arbitrator's decision and opens the appeal window.
    pub fn submit_arbitration_decision(
        &mut self,
        env: &mut EscrowEnv,
        escrow_id: &BytesN<32>,
        arbitrator: &Address,
        decision: bool,
    ) -> (r: Result<(), ArbitrationFailure>)
        requires
            old(self)@.decision_error(*escrow_id, *arbitrator) is None ==> old(env)@.timestamp
                + WEEK_SECONDS <= u64::MAX,
        ensures
            r == crate::env::outcome(old(self)@.decision_error(*escrow_id, *arbitrator), ()),
            final(self)@ == match r {
                Err(_) => old(self)@,
                Ok(_) => old(self)@.put_dispute(
                    *escrow_id,
                    DisputeResolution {
                        final_decision: Some(decision),
                        status: DisputeStatus::Resolved,
                        appeal_deadline: (old(env)@.timestamp + WEEK_SECONDS) as u64,
                        ..old(self)@.disputes[*escrow_id]
                    },
                ).rated(*arbitrator, 2),
            },
            crate::env::pays_nobody(old(env)@, final(env)@),
            r is Ok ==> ({
                let until = old(env)@.timestamp + 7 * 24 * 60 * 60;
                &&& final(self)@.disputes[*escrow_id].final_decision == Some(decision)
                &&& old(self)@.escrows.contains_key(*escrow_id) ==> forall|t: int|
                    (#[trigger] final(self)@.execute_error(*escrow_id, t) is None) == (t > until)
                &&& forall|t: int|
                    (#[trigger] final(self)@.appeal_arbitration_error(*escrow_id, t) is None) == (t
                        <= until)
            }),
            final(env)@ == match r {
                Err(_) => guarded_auth(old(self)@, old(env)@, *arbitrator),
                Ok(_) => old(env)@.auth(*arbitrator).emit(Effect::Lock).event(
                    EscrowEvent::ReputationChanged {
                        who: *arbitrator,
                        score: old(self)@.score_after(*arbitrator, 2),
                    },
                ).event(
                    EscrowEvent::ArbitrationDecided {
                        escrow_id: *escrow_id,
                        arbitrator: *arbitrator,
                        decision,
                    },
                ).emit(Effect::Unlock),
            },
    {
        if self.guard_held {
            return Err(ArbitrationFailure::Escrow(EscrowError::Reentrant));
        }
        env.require_auth(arbitrator);
        match self.disputes.get(escrow_id) {
            None => {
                return Err(ArbitrationFailure::Dispute(DisputeError::DisputeNotFound));
            },
            Some(dispute) => match dispute.selected_arbitrator {
                Some(selected) => {
                    if selected != *arbitrator {
                        return Err(ArbitrationFailure::Dispute(DisputeError::InvalidArbitrator));
                    }
                },
                None => {
                    return Err(ArbitrationFailure::Dispute(DisputeError::InvalidArbitrator));
                },
            },
        }
        let mut dispute = self.disputes.take(escrow_id).unwrap();
        dispute.final_decision = Some(decision);
        dispute.status = DisputeStatus::Resolved;
        dispute.appeal_deadline = env.timestamp + WEEK_SECONDS;
        self.disputes.set(*escrow_id, dispute);
        env.emit(Effect::Lock);
        let _ = self.adjust_reputation(env, arbitrator, 2);
        env.event(
            EscrowEvent::ArbitrationDecided {
                escrow_id: *escrow_id,
                arbitrator: *arbitrator,
                decision,
            },
        );
        env.emit(Effect::Unlock);
        Ok(())
    }

    /// Appeals a decision within its appeal window.
    pub fn appeal_arbitration(
        &mut self,
        env: &mut EscrowEnv,
        escrow_id: &BytesN<32>,
        caller: &Address,
        reason: &BytesN<32>,
    ) -> (r: Result<(), ArbitrationFailure>)
        ensures
            r == crate::env::outcome(
                old(self)@.appeal_arbitration_error(*escrow_id, old(env)@.timestamp as int),
                (),
            ),
            final(self)@ == match r {
                Err(_) => old(self)@,
                Ok(_) => {
                    let d = old(self)@.disputes[*escrow_id];
                    old(self)@.put_dispute(
                        *escrow_id,
                        DisputeResolution {
                            status: DisputeStatus::Appealed,
                            tier: crate::num::sat_u32(d.tier + 1),
                            final_decision: None,
                            ..d
                        },
                    )
                },
            },
            crate::env::pays_nobody(old(env)@, final(env)@),
            r is Ok ==> ({
                let (before, after) = (old(self)@.disputes[*escrow_id], final(self)@.disputes[*escrow_id]);
                &&& after.final_decision is None
                &&& before.tier < u32::MAX ==> after.tier == before.tier + 1
                &&& before.tier == u32::MAX ==> after.tier == before.tier
                &&& forall|t: int| #[trigger] final(self)@.execute_error(*escrow_id, t) is Some
            }),
            final(env)@ == match r {
                Err(_) => guarded_auth(old(self)@, old(env)@, *caller),
                Ok(_) => old(env)@.auth(*caller).emit(Effect::Lock).event(
                    EscrowEvent::ArbitrationAppealed {
                        escrow_id: *escrow_id,
                        caller: *caller,
                        reason: *reason,
                    },
                ).emit(Effect::Unlock),
            },
    {
        if self.guard_held {
            return Err(ArbitrationFailure::Escrow(EscrowError::Reentrant));
        }
        env.require_auth(caller);
        match self.disputes.get(escrow_id) {
            None => {
                return Err(ArbitrationFailure::Dispute(DisputeError::DisputeNotFound));
            },
            Some(dispute) => {
                if env.timestamp > dispute.appeal_deadline {
                    return Err(ArbitrationFailure::Dispute(DisputeError::AppealDeadlineExpired));
                }
            },
        }
        let mut dispute = self.disputes.take(escrow_id).unwrap();
        dispute.status = DisputeStatus::Appealed;
        dispute.tier = saturating_add_u32(dispute.tier, 1);
        dispute.final_decision = None;
        self.disputes.set(*escrow_id, dispute);
        env.emit(Effect::Lock);
        env.event(
            EscrowEvent::ArbitrationAppealed {
                escrow_id: *escrow_id,
                caller: *caller,
                reason: *reason,
            },
        );
        env.emit(Effect::Unlock);
        Ok(())
    }

    /// Carries out a decision whose appeal window is over.
    pub fn execute_arbitration_decision(
        &mut self,
        env: &mut EscrowEnv,
        escrow_id: &BytesN<32>,
    ) -> (r: Result<(), ArbitrationFailure>)
        ensures
            r == crate::env::outcome(
                old(self)@.execute_error(*escrow_id, old(env)@.timestamp as int),
                (),
            ),
            final(self)@ == match r {
                Err(_) => old(self)@,
                Ok(_) => old(self)@.put(
                    *escrow_id,
                    decided(
                        old(self)@.escrows[*escrow_id],
                        old(self)@.disputes[*escrow_id].final_decision,
                    ),
                ),
            },
            match (r, old(self)@.disputes[*escrow_id].final_decision) {
                (Ok(_), Some(true)) => final(self)@.escrows[*escrow_id].state == EscrowState::Released
                    && crate::env::pays(
                    old(env)@,
                    final(env)@,
                    old(self)@.escrows[*escrow_id].token,
                    old(env)@.contract,
                    old(self)@.escrows[*escrow_id].seller,
                    old(self)@.escrows[*escrow_id].amount as int,
                ),
                (Ok(_), Some(false)) => final(self)@.escrows[*escrow_id].state == EscrowState::Refunded
                    && crate::env::pays(
                    old(env)@,
                    final(env)@,
                    old(self)@.escrows[*escrow_id].token,
                    old(env)@.contract,
                    old(self)@.escrows[*escrow_id].buyer,
                    old(self)@.escrows[*escrow_id].amount as int,
                ),
                _ => crate::env::pays_nobody(old(env)@, final(env)@),
            },
            final(env)@ == match r {
                Err(_) => old(env)@,
                Ok(_) => {
                    let decision = old(self)@.disputes[*escrow_id].final_decision;
                    decision_paid(
                        old(self)@.escrows[*escrow_id],
                        decision,
                        old(env)@.emit(Effect::Lock),
                    ).event(
                        EscrowEvent::DecisionExecuted { escrow_id: *escrow_id, outcome: decision },
                    ).emit(Effect::Unlock)
                },
            },
    {
        if self.guard_held {
            return Err(ArbitrationFailure::Escrow(EscrowError::Reentrant));
        }
        let mut escrow: Escrow = match self.get_escrow(escrow_id) {
            Ok(escrow) => escrow,
            Err(e) => {
                return Err(ArbitrationFailure::Escrow(e));
            },
        };
        let decision: Option<bool> = match self.disputes.get(escrow_id) {
            None => {
                return Err(ArbitrationFailure::Dispute(DisputeError::DisputeNotFound));
            },
            Some(dispute) => {
                if dispute.status != DisputeStatus::Resolved {
                    return Err(ArbitrationFailure::Dispute(DisputeError::DisputeNotFound));
                }
                if env.timestamp <= dispute.appeal_deadline {
                    return Err(ArbitrationFailure::Dispute(DisputeError::AppealDeadlineExpired));
                }
                dispute.final_decision
            },
        };
        let contract = env.contract;
        env.emit(Effect::Lock);
        match decision {
            Some(true) => {
                escrow.state = EscrowState::Released;
                env.transfer(&escrow.token, &contract, &escrow.seller, escrow.amount);
            },
            Some(false) => {
                escrow.state = EscrowState::Refunded;
                env.transfer(&escrow.token, &contract, &escrow.buyer, escrow.amount);
            },
            None => {},
        }
        self.escrows.set(*escrow_id, escrow);
        env.event(EscrowEvent::DecisionExecuted { escrow_id: *escrow_id, outcome: decision });
        env.emit(Effect::Unlock);
        Ok(())
    }

    /// The dispute over the escrow under the identifier.
    pub fn get_dispute(&self, escrow_id: &BytesN<32>) -> (r: Result<
        &DisputeResolution,
        DisputeError,
    >)
        ensures
            match r {
                Ok(d) => self@.disputes.contains_key(*escrow_id) && *d
                    == self@.disputes[*escrow_id],
                Err(e) => !self@.disputes.contains_key(*escrow_id) && e
                    == DisputeError::DisputeNotFound,
            },
    {
        match self.disputes.get(escrow_id) {
            Some(dispute) => Ok(dispute),
            None => Err(DisputeError::DisputeNotFound),
        }
    }
}

/// Whether the address is in the list.
fn listed(list: &Vec<Address>, who: &Address) -> (r: bool)
    ensures
        r == list@.contains(*who),
{
    let mut i: usize = 0;
    while i < list.len()
        invariant
            i <= list@.len(),
            forall|j: int| 0 <= j < i ==> list@[j] != *who,
        decreases list@.len() - i,
    {
        if list[i] == *who {
            assert(list@[i as int] == *who);
            return true;
        }
        i = i + 1;
    }
    false
}

/// While a call is in progress every state-changing call is refused.
pub proof fn law_guard_refuses_every_call(
    m: EscrowModel,
    id: BytesN<32>,
    who: Address,
    amount: int,
    now: int,
)
    requires
        m.guard_held,
    ensures
        m.lock_error(id, amount) == Some(EscrowError::Reentrant),
        m.release_error(id, who) == Some(EscrowError::Reentrant),
        m.refund_error(id, who, now) == Some(EscrowError::Reentrant),
        m.dispute_error(id, who) == Some(EscrowError::Reentrant),
        m.stage_error(id, EscrowState::Disputed, EscrowError::NotDisputed) == Some(
            EscrowError::Reentrant,
        ),
        m.arbitrator_error(id, who) == Some(EscrowError::Reentrant),
        m.appeal_error(id, who) == Some(EscrowError::Reentrant),
        m.vote_error(id, who) == Some(EscrowError::Reentrant),
        m.arbitration_error(id, who, amount) == Some(
            ArbitrationFailure::Escrow(EscrowError::Reentrant),
        ),
        m.dispute_evidence_error(id) == Some(ArbitrationFailure::Escrow(EscrowError::Reentrant)),
        m.select_error(id, who) == Some(ArbitrationFailure::Escrow(EscrowError::Reentrant)),
        m.decision_error(id, who) == Some(ArbitrationFailure::Escrow(EscrowError::Reentrant)),
        m.appeal_arbitration_error(id, now) == Some(
            ArbitrationFailure::Escrow(EscrowError::Reentrant),
        ),
        m.execute_error(id, now) == Some(ArbitrationFailure::Escrow(EscrowError::Reentrant)),
{
}

/// An identifier is used for one escrow only: whatever became of the escrow,
/// funds cannot be locked under it again.
pub proof fn law_identifier_used_once(m: EscrowModel, id: BytesN<32>, e: Escrow, amount: int)
    ensures
        m.put(id, e).lock_error(id, amount) is Some,
        !m.guard_held && amount > 0 ==> m.put(id, e).lock_error(id, amount) == Some(
            EscrowError::AlreadyLocked,
        ),
        m.put(id, e).escrows[id] == e,
{
}

/// Once released or refunded, an escrow is neither released, refunded,
/// disputed nor voted on, until an appeal reopens it. Executing a decision of
/// a dispute that stays resolved is another matter: it can pay again.
pub proof fn law_settled_escrow_pays_no_more(
    m: EscrowModel,
    id: BytesN<32>,
    who: Address,
    now: int,
)
    requires
        !m.guard_held,
        m.escrows.contains_key(id),
        m.escrows[id].state == EscrowState::Released || m.escrows[id].state
            == EscrowState::Refunded,
    ensures
        m.release_error(id, who) == Some(EscrowError::InvalidState),
        m.refund_error(id, who, now) == Some(EscrowError::InvalidState),
        m.dispute_error(id, who) == Some(EscrowError::InvalidState),
        m.vote_error(id, who) == Some(EscrowError::NotDisputed),
{
}

/// A party's vote stands: it cannot vote a second time.
pub proof fn law_vote_cast_once(m: EscrowModel, id: BytesN<32>, who: Address, v: bool)
    requires
        m.vote_error(id, who) is None,
    ensures
        m.voted(id, who, v).vote_error(id, who) == if agreement(
            with_vote(m.escrows[id], who, v),
        ) is Some {
            Some(EscrowError::NotDisputed)
        } else {
            Some(EscrowError::VoteAlreadyCast)
        },
{
}

/// A vote settles the escrow if and only if both parties have voted and
/// agree, and it settles it for the side they agree on.
pub proof fn law_votes_settle_by_agreement(m: EscrowModel, id: BytesN<32>, who: Address, v: bool)
    requires
        m.vote_error(id, who) is None,
    ensures
        ({
            let before = with_vote(m.escrows[id], who, v);
            let after = m.voted(id, who, v).escrows[id];
            &&& (after.state == EscrowState::Released) == (before.buyer_vote == Some(true)
                && before.seller_vote == Some(true))
            &&& (after.state == EscrowState::Refunded) == (before.buyer_vote == Some(false)
                && before.seller_vote == Some(false))
            &&& after.amount == m.escrows[id].amount
        }),
{
}

/// An agreement raises the winner's reputation and lowers the loser's.
pub proof fn law_agreement_moves_reputation(m: EscrowModel, id: BytesN<32>, who: Address, v: bool)
    requires
        m.vote_error(id, who) is None,
        agreement(with_vote(m.escrows[id], who, v)) is Some,
        m.escrows[id].buyer != m.escrows[id].seller,
    ensures
        ({
            let e = m.escrows[id];
            let after = m.voted(id, who, v);
            let (winner, loser) = if v {
                (e.seller, e.buyer)
            } else {
                (e.buyer, e.seller)
            };
            after.score(winner) == crate::num::sat_i32(m.score(winner) + 1) && after.score(loser)
                == crate::num::sat_i32(m.score(loser) - 1)
        }),
{
}

/// An appeal opens a fresh vote for both parties.
pub proof fn law_appeal_reopens_vote(m: EscrowModel, id: BytesN<32>, who: Address)
    requires
        m.appeal_error(id, who) is None,
    ensures
        ({
            let e = m.escrows[id];
            let after = m.put(
                id,
                Escrow {
                    state: EscrowState::Disputed,
                    buyer_vote: None,
                    seller_vote: None,
                    appeal_count: crate::num::sat_u32(e.appeal_count + 1),
                    ..e
                },
            );
            after.vote_error(id, e.buyer) is None && after.vote_error(id, e.seller) is None
        }),
{
}

/// While a decision can be appealed it cannot be executed, and as soon as it
/// can no longer be appealed it can be executed.
pub proof fn law_appeal_window_excludes_execution(m: EscrowModel, id: BytesN<32>, now: int)
    requires
        !m.guard_held,
        m.escrows.contains_key(id),
        m.disputes.contains_key(id),
        m.disputes[id].status == DisputeStatus::Resolved,
    ensures
        (m.appeal_arbitration_error(id, now) is None) == (m.execute_error(id, now) is Some),
{
}

/// A decision for the seller releases the escrow and pays its amount to the
/// seller, one for the buyer refunds it and pays its amount to the buyer, and
/// without a decision nothing is paid. Nobody else receives anything, and the
/// terms of the escrow stay as they were.
pub proof fn law_decision_pays_the_winner(
    e: Escrow,
    decision: Option<bool>,
    env: crate::env::EnvModel<(), EscrowEvent>,
    token: Address,
    who: Address,
)
    ensures
        ({
            let before = crate::env::received(env.log, token, who);
            let after = crate::env::received(decision_paid(e, decision, env).log, token, who);
            let state = decided(e, decision).state;
            &&& decision == Some(true) ==> state == EscrowState::Released
            &&& decision == Some(false) ==> state == EscrowState::Refunded
            &&& decision is None ==> state == e.state && after == before
            &&& token != e.token || (who != e.buyer && who != e.seller) ==> after == before
            &&& token == e.token && who == e.seller && e.buyer != e.seller ==> after == before
                + if decision == Some(true) {
                e.amount as int
            } else {
                0
            }
            &&& token == e.token && who == e.buyer && e.buyer != e.seller ==> after == before
                + if decision == Some(false) {
                e.amount as int
            } else {
                0
            }
            &&& token == e.token && who == e.buyer && e.buyer == e.seller && decision is Some
                ==> after == before + e.amount
            &&& (Escrow { state: e.state, ..decided(e, decision) }) == e
        }),
        decision is Some ==> crate::env::sent(
            decision_paid(e, decision, env).log,
            e.token,
            env.contract,
        ) == crate::env::sent(env.log, e.token, env.contract) + e.amount,
{
}

/// Funds are locked for a positive amount under an identifier that is free.
pub proof fn law_lock_conditions(m: EscrowModel, id: BytesN<32>, amount: int)
    ensures
        m.lock_error(id, amount) is None <==> !m.guard_held && amount > 0
            && !m.escrows.contains_key(id),
        !m.guard_held && amount <= 0 ==> m.lock_error(id, amount) == Some(
            EscrowError::InvalidAmount,
        ),
{
}

/// Locked funds are released at the wish of the seller or of the arbitrator
/// and of nobody else, and of no other escrow than a locked one.
pub proof fn law_release_conditions(m: EscrowModel, id: BytesN<32>, caller: Address)
    requires
        !m.guard_held,
    ensures
        ({
            let e = m.escrows[id];
            &&& m.release_error(id, caller) is None <==> m.escrows.contains_key(id) && e.state
                == EscrowState::Locked && (caller == e.seller || e.arbitrator == Some(caller))
            &&& !m.escrows.contains_key(id) ==> m.release_error(id, caller) == Some(
                EscrowError::NotLocked,
            )
            &&& m.escrows.contains_key(id) && e.state != EscrowState::Locked ==> m.release_error(
                id,
                caller,
            ) == Some(EscrowError::InvalidState)
            &&& m.escrows.contains_key(id) && e.state == EscrowState::Locked && caller != e.seller
                && e.arbitrator != Some(caller) ==> m.release_error(id, caller) == Some(
                EscrowError::NotAuthorized,
            )
        }),
{
}

/// Locked funds are refunded at the wish of the buyer or of the arbitrator at
/// any time, and of anybody once seven days have passed since they were
/// locked.
pub proof fn law_refund_conditions(m: EscrowModel, id: BytesN<32>, caller: Address, now: int)
    requires
        !m.guard_held,
    ensures
        ({
            let e = m.escrows[id];
            let week_over = now - e.created_at >= 7 * 24 * 60 * 60;
            &&& m.refund_error(id, caller, now) is None <==> m.escrows.contains_key(id) && e.state
                == EscrowState::Locked && (caller == e.buyer || e.arbitrator == Some(caller)
                || week_over)
            &&& !m.escrows.contains_key(id) ==> m.refund_error(id, caller, now) == Some(
                EscrowError::NotLocked,
            )
            &&& m.escrows.contains_key(id) && e.state != EscrowState::Locked ==> m.refund_error(
                id,
                caller,
                now,
            ) == Some(EscrowError::InvalidState)
            &&& m.escrows.contains_key(id) && e.state == EscrowState::Locked && caller != e.buyer
                && e.arbitrator != Some(caller) && !week_over ==> m.refund_error(id, caller, now)
                == Some(EscrowError::NotAuthorized)
        }),
{
}

/// The buyer and the seller, and nobody else, can put a locked escrow in
/// dispute, name its arbitrator, and, like the arbitrator, appeal. Arbitration
/// takes at least one arbitrator.
pub proof fn law_party_conditions(m: EscrowModel, id: BytesN<32>, caller: Address, n: int)
    requires
        !m.guard_held,
        m.escrows.contains_key(id),
        n >= 0,
    ensures
        ({
            let e = m.escrows[id];
            let party = caller == e.buyer || caller == e.seller;
            &&& m.dispute_error(id, caller) is None <==> e.state == EscrowState::Locked && party
            &&& e.state != EscrowState::Locked ==> m.dispute_error(id, caller) == Some(
                EscrowError::InvalidState,
            )
            &&& e.state == EscrowState::Locked && !party ==> m.dispute_error(id, caller) == Some(
                EscrowError::NotAuthorized,
            )
            &&& m.arbitrator_error(id, caller) == if party {
                None
            } else {
                Some(EscrowError::NotAuthorized)
            }
            &&& m.appeal_error(id, caller) == if party || e.arbitrator == Some(caller) {
                None
            } else {
                Some(EscrowError::NotAuthorized)
            }
            &&& m.arbitration_error(id, caller, n) is None <==> n > 0 && e.state
                == EscrowState::Locked && party
            &&& n == 0 ==> m.arbitration_error(id, caller, n) == Some(
                ArbitrationFailure::Dispute(DisputeError::NoArbitratorsAvailable),
            )
            &&& n > 0 && e.state != EscrowState::Locked ==> m.arbitration_error(id, caller, n)
                == Some(ArbitrationFailure::Escrow(EscrowError::InvalidState))
            &&& n > 0 && e.state == EscrowState::Locked && !party ==> m.arbitration_error(
                id,
                caller,
                n,
            ) == Some(ArbitrationFailure::Escrow(EscrowError::NotAuthorized))
        }),
{
}

/// A call on an escrow that does not exist reports so.
pub proof fn law_unknown_escrow(m: EscrowModel, id: BytesN<32>, caller: Address, n: int, now: int)
    requires
        !m.guard_held,
        !m.escrows.contains_key(id),
        n > 0,
    ensures
        m.dispute_error(id, caller) == Some(EscrowError::NotLocked),
        m.arbitrator_error(id, caller) == Some(EscrowError::NotLocked),
        m.appeal_error(id, caller) == Some(EscrowError::NotLocked),
        m.vote_error(id, caller) == Some(EscrowError::NotLocked),
        m.stage_error(id, EscrowState::Disputed, EscrowError::NotDisputed) == Some(
            EscrowError::NotLocked,
        ),
        m.arbitration_error(id, caller, n) == Some(
            ArbitrationFailure::Escrow(EscrowError::NotLocked),
        ),
        m.execute_error(id, now) == Some(ArbitrationFailure::Escrow(EscrowError::NotLocked)),
{
}

/// A party of a disputed escrow votes once and nobody else votes. Evidence is
/// taken for a disputed escrow.
pub proof fn law_vote_conditions(m: EscrowModel, id: BytesN<32>, caller: Address)
    requires
        !m.guard_held,
        m.escrows.contains_key(id),
    ensures
        ({
            let e = m.escrows[id];
            let disputed = e.state == EscrowState::Disputed;
            &&& m.vote_error(id, caller) is None <==> disputed && (caller == e.buyer
                && e.buyer_vote is None || caller == e.seller && caller != e.buyer
                && e.seller_vote is None)
            &&& !disputed ==> m.vote_error(id, caller) == Some(EscrowError::NotDisputed)
            &&& disputed && caller != e.buyer && caller != e.seller ==> m.vote_error(id, caller)
                == Some(EscrowError::NotAuthorized)
            &&& disputed && caller == e.buyer && e.buyer_vote is Some ==> m.vote_error(id, caller)
                == Some(EscrowError::VoteAlreadyCast)
            &&& m.stage_error(id, EscrowState::Disputed, EscrowError::NotDisputed) == if disputed {
                None
            } else {
                Some(EscrowError::NotDisputed)
            }
        }),
{
}

/// A vote is recorded for the party that cast it and for no other. It settles
/// the escrow exactly when the other party voted the same before: for the
/// seller it releases the escrow, for the buyer it refunds it. Everything else
/// stays as it was.
pub proof fn law_vote_is_recorded(m: EscrowModel, id: BytesN<32>, caller: Address, v: bool)
    requires
        m.vote_error(id, caller) is None,
    ensures
        ({
            let e = m.escrows[id];
            let after = m.voted(id, caller, v);
            let a = after.escrows[id];
            let other = if caller == e.buyer {
                e.seller_vote
            } else {
                e.buyer_vote
            };
            &&& caller == e.buyer ==> a.buyer_vote == Some(v) && a.seller_vote == e.seller_vote
            &&& caller != e.buyer ==> a.seller_vote == Some(v) && a.buyer_vote == e.buyer_vote
            &&& other == Some(v) && v ==> a.state == EscrowState::Released
            &&& other == Some(v) && !v ==> a.state == EscrowState::Refunded
            &&& other != Some(v) ==> a.state == EscrowState::Disputed && after.reputation
                == m.reputation
            &&& (Escrow {
                state: e.state,
                buyer_vote: e.buyer_vote,
                seller_vote: e.seller_vote,
                ..a
            }) == e
            &&& after.escrows.remove(id) == m.escrows.remove(id)
            &&& after.disputes == m.disputes
            &&& after.evidence == m.evidence
            &&& after.guard_held == m.guard_held
        }),
{
    let after = m.voted(id, caller, v);
    assert(after.escrows.remove(id) =~= m.escrows.remove(id));
}

/// Two parties whose votes agree are paid by them: the seller receives the
/// amount when both vote for the seller, the buyer when both vote for the
/// buyer, and nobody while they differ or one is missing.
pub proof fn law_votes_pay_the_winner(
    m: EscrowModel,
    e: Escrow,
    caller: Address,
    v: bool,
    env: crate::env::EnvModel<(), EscrowEvent>,
)
    ensures
        ({
            let other = if caller == e.buyer {
                e.seller_vote
            } else {
                e.buyer_vote
            };
            let after = agreement_paid(m, with_vote(e, caller, v), env);
            if other != Some(v) {
                crate::env::pays_nobody(env, after)
            } else if v {
                crate::env::pays(env, after, e.token, env.contract, e.seller, e.amount as int)
            } else {
                crate::env::pays(env, after, e.token, env.contract, e.buyer, e.amount as int)
            }
        }),
{
}

/// A reputation changes by the given points, stopping at the ends of its
/// range, and nobody else's does. Nobody starts with any.
pub proof fn law_reputation_changes_by(m: EscrowModel, who: Address, delta: int, other: Address)
    ensures
        !m.reputation.contains_key(who) ==> m.score(who) == 0,
        m.reputation.contains_key(who) ==> m.score(who) == m.reputation[who],
        i32::MIN <= m.score(who) + delta <= i32::MAX ==> m.rated(who, delta).score(who) == m.score(
            who,
        ) + delta,
        m.score(who) + delta > i32::MAX ==> m.rated(who, delta).score(who) == i32::MAX,
        m.score(who) + delta < i32::MIN ==> m.rated(who, delta).score(who) == i32::MIN,
        m.score_after(who, delta) == m.rated(who, delta).score(who),
        other != who ==> m.rated(who, delta).score(other) == m.score(other),
        m.rated(who, delta).escrows == m.escrows,
        m.rated(who, delta).disputes == m.disputes,
        m.rated(who, delta).evidence == m.evidence,
        m.rated(who, delta).guard_held == m.guard_held,
{
}

/// An arbitrator is selected from the dispute's own list, with a reputation of
/// at least fifty, and only the selected one decides. Evidence is taken until
/// the final resolution.
pub proof fn law_arbitration_conditions(m: EscrowModel, id: BytesN<32>, who: Address)
    requires
        !m.guard_held,
    ensures
        ({
            let d = m.disputes[id];
            let known = m.disputes.contains_key(id);
            let unknown = Some(ArbitrationFailure::Dispute(DisputeError::DisputeNotFound));
            &&& m.select_error(id, who) is None <==> known && d.arbitrators@.contains(who)
                && m.score(who) >= 50
            &&& known && !d.arbitrators@.contains(who) ==> m.select_error(id, who) == Some(
                ArbitrationFailure::Dispute(DisputeError::InvalidArbitrator),
            )
            &&& known && d.arbitrators@.contains(who) && m.score(who) < 50 ==> m.select_error(
                id,
                who,
            ) == Some(ArbitrationFailure::Dispute(DisputeError::InsufficientReputation))
            &&& m.decision_error(id, who) is None <==> known && d.selected_arbitrator == Some(who)
            &&& known && d.selected_arbitrator != Some(who) ==> m.decision_error(id, who) == Some(
                ArbitrationFailure::Dispute(DisputeError::InvalidArbitrator),
            )
            &&& m.dispute_evidence_error(id) is None <==> known && d.status
                != DisputeStatus::FinalResolution
            &&& known && d.status == DisputeStatus::FinalResolution ==> m.dispute_evidence_error(
                id,
            ) == Some(ArbitrationFailure::Dispute(DisputeError::DisputeAlreadyResolved))
            &&& !known ==> m.select_error(id, who) == unknown && m.decision_error(id, who)
                == unknown && m.dispute_evidence_error(id) == unknown
        }),
{
}

/// A decision is executed once the appeal deadline has passed and not at it,
/// and appealed up to the deadline and not after it.
pub proof fn law_execution_conditions(m: EscrowModel, id: BytesN<32>, now: int)
    requires
        !m.guard_held,
        m.escrows.contains_key(id),
    ensures
        ({
            let d = m.disputes[id];
            let known = m.disputes.contains_key(id);
            let unknown = Some(ArbitrationFailure::Dispute(DisputeError::DisputeNotFound));
            let late = Some(ArbitrationFailure::Dispute(DisputeError::AppealDeadlineExpired));
            &&& m.execute_error(id, now) is None <==> known && d.status == DisputeStatus::Resolved
                && now > d.appeal_deadline
            &&& !known || d.status != DisputeStatus::Resolved ==> m.execute_error(id, now)
                == unknown
            &&& known && d.status == DisputeStatus::Resolved && now <= d.appeal_deadline
                ==> m.execute_error(id, now) == late
            &&& m.appeal_arbitration_error(id, now) == if !known {
                unknown
            } else if now <= d.appeal_deadline {
                None
            } else {
                late
            }
        }),
{
}

/// Replacing a record replaces that record alone.
pub proof fn law_records_are_replaced_alone(
    m: EscrowModel,
    id: BytesN<32>,
    e: Escrow,
    state: EscrowState,
    other: BytesN<32>,
)
    ensures
        m.put(id, e).escrows[id] == e,
        m.put(id, e).escrows.contains_key(id),
        other != id ==> m.put(id, e).escrows.contains_key(other) == m.escrows.contains_key(other)
            && m.put(id, e).escrows[other] == m.escrows[other],
        m.put(id, e).disputes == m.disputes,
        m.put(id, e).reputation == m.reputation,
        m.put(id, e).evidence == m.evidence,
        m.put(id, e).guard_held == m.guard_held,
        in_state(e, state).state == state,
        (Escrow { state: e.state, ..in_state(e, state) }) == e,
{
}

/// A call demands the authorization of the given address, unless the guard
/// refuses the call first, and moves nothing by it.
pub proof fn law_authorization_is_demanded(
    m: EscrowModel,
    e: crate::env::EnvModel<(), EscrowEvent>,
    who: Address,
)
    ensures
        !m.guard_held ==> guarded_auth(m, e, who).auths == e.auths.push(who),
        m.guard_held ==> guarded_auth(m, e, who).auths == e.auths,
        guarded_auth(m, e, who).log == e.log,
        guarded_auth(m, e, who).contract == e.contract,
{
}

/// Every call that moves funds sets the guard before and clears it after, so
/// no transfer happens outside the guard.
pub proof fn law_transfers_happen_under_guard(
    m: EscrowModel,
    e: Escrow,
    decision: Option<bool>,
    env: crate::env::EnvModel<(), EscrowEvent>,
    from: Address,
    to: Address,
    event: EscrowEvent,
)
    requires
        env.at_rest(),
    ensures
        env.emit(Effect::Lock).transfer(e.token, from, to, e.amount).event(event).emit(
            Effect::Unlock,
        ).at_rest(),
        env.emit(Effect::Lock).event(event).emit(Effect::Unlock).at_rest(),
        agreement_paid(m, e, env.emit(Effect::Lock)).event(event).emit(Effect::Unlock).at_rest(),
        decision_paid(e, decision, env.emit(Effect::Lock)).event(event).emit(
            Effect::Unlock,
        ).at_rest(),
{
    crate::env::lemma_guarded_transfer(env, e.token, from, to, e.amount, event);
    let locked = env.emit(Effect::Lock);
    crate::env::lemma_guard(env, Effect::Lock);
    let winner = if agreement(e) == Some(true) {
        e.seller
    } else {
        e.buyer
    };
    let loser = if agreement(e) == Some(true) {
        e.buyer
    } else {
        e.seller
    };
    let first = EscrowEvent::ReputationChanged { who: winner, score: m.score_after(winner, 1) };
    let second = EscrowEvent::ReputationChanged {
        who: loser,
        score: m.rated(winner, 1).score_after(loser, -1),
    };
    crate::env::lemma_guard(locked, Effect::Event(first));
    crate::env::lemma_guard(locked.event(first), Effect::Event(second));
    crate::env::lemma_guard(
        locked.event(first).event(second),
        Effect::Transfer {
            token: e.token,
            from: env.contract,
            to: winner,
            amount: e.amount,
        },
    );
    let voted = agreement_paid(m, e, locked);
    crate::env::lemma_guard(voted, Effect::Event(event));
    crate::env::lemma_guard(voted.event(event), Effect::Unlock);
    crate::env::lemma_guard(
        locked,
        Effect::Transfer {
            token: e.token,
            from: env.contract,
            to: e.seller,
            amount: e.amount,
        },
    );
    crate::env::lemma_guard(
        locked,
        Effect::Transfer { token: e.token, from: env.contract, to: e.buyer, amount: e.amount },
    );
    let paid = decision_paid(e, decision, locked);
    crate::env::lemma_guard(paid, Effect::Event(event));
    crate::env::lemma_guard(paid.event(event), Effect::Unlock);
}

/// The numbers under which callers see the values are fixed.
pub proof fn law_escrow_state_numbers(v: EscrowState)
    ensures
        v is Locked ==> v.number() == 1,
        v is Released ==> v.number() == 2,
        v is Refunded ==> v.number() == 3,
        v is Disputed ==> v.number() == 4,
{
}

/// The numbers under which callers see the values are fixed.
pub proof fn law_escrow_error_numbers(v: EscrowError)
    ensures
        v is NotAuthorized ==> v.number() == 1,
        v is AlreadyLocked ==> v.number() == 2,
        v is NotLocked ==> v.number() == 3,
        v is AlreadyFinalized ==> v.number() == 4,
        v is InvalidAmount ==> v.number() == 5,
        v is InvalidState ==> v.number() == 6,
        v is InvalidArbitrator ==> v.number() == 7,
        v is TimeoutNotReached ==> v.number() == 8,
        v is NotDisputed ==> v.number() == 9,
        v is VoteAlreadyCast ==> v.number() == 10,
        v is Reentrant ==> v.number() == 11,
{
}

/// The numbers under which callers see the values are fixed.
pub proof fn law_dispute_status_numbers(v: DisputeStatus)
    ensures
        v is Pending ==> v.number() == 1,
        v is UnderReview ==> v.number() == 2,
        v is Resolved ==> v.number() == 3,
        v is Appealed ==> v.number() == 4,
        v is FinalResolution ==> v.number() == 5,
{
}

/// The numbers under which callers see the values are fixed.
pub proof fn law_dispute_error_numbers(v: DisputeError)
    ensures
        v is DisputeNotFound ==> v.number() == 1,
        v is InvalidArbitrator ==> v.number() == 2,
        v is AppealDeadlineExpired ==> v.number() == 3,
        v is NoArbitratorsAvailable ==> v.number() == 4,
        v is InsufficientReputation ==> v.number() == 5,
        v is DisputeAlreadyResolved ==> v.number() == 6,
{
}

/// The topics under which the events are announced are fixed.
pub proof fn law_escrow_event_topics(v: EscrowEvent)
    ensures
        v is Locked ==> v.topic_names() == ("escrow"@, "locked"@),
        v is Released ==> v.topic_names() == ("escrow"@, "released"@),
        v is Refunded ==> v.topic_names() == ("escrow"@, "refunded"@),
        v is Disputed ==> v.topic_names() == ("escrow"@, "disputed"@),
        v is EvidenceSubmitted ==> v.topic_names() == ("escrow"@, "evidence_submitted"@),
        v is ArbitratorSet ==> v.topic_names() == ("escrow"@, "arbitrator_set"@),
        v is AppealFiled ==> v.topic_names() == ("escrow"@, "appeal_filed"@),
        v is Vote ==> v.topic_names() == ("escrow"@, "vote"@),
        v is ReputationChanged ==> v.topic_names() == ("reputation"@, "changed"@),
        v is AdvancedDispute ==> v.topic_names() == ("escrow"@, "adv_disp"@),
        v is DisputeEvidence ==> v.topic_names() == ("escrow"@, "ev_sub"@),
        v is ArbitratorSelected ==> v.topic_names() == ("escrow"@, "arb_sel"@),
        v is ArbitrationDecided ==> v.topic_names() == ("escrow"@, "arb_dec"@),
        v is ArbitrationAppealed ==> v.topic_names() == ("escrow"@, "app_arb"@),
        v is DecisionExecuted ==> v.topic_names() == ("escrow"@, "exec_dec"@),
{
}

} // verus!
