//! One contract for escrow, payment splitting and governance proposals.
use crate::address::Address;
use crate::address::Bytes;
use crate::address::BytesN;
use crate::env::Effect;
use crate::env::Env;
use crate::num::saturating_add_u32;
use crate::table::Table;
use vstd::prelude::*;

verus! {

/// Basis points that make up the whole.
pub const BPS_TOTAL: u32 = 10_000;

/// Which parts of the contract are in use.
#[derive(Clone, Copy, Debug, PartialEq, Eq)]
pub struct PaymentConfig {
    pub escrow_enabled: bool,
    pub splitting_enabled: bool,
    pub governance_enabled: bool,
    pub dispute_timeout_days: u32,
    pub min_arbitrator_reputation: i32,
}

/// The stages of an escrow.
#[derive(Clone, Copy, Debug, PartialEq, Eq, Structural)]
pub enum EscrowState {
    Locked,
    Released,
    Refunded,
    Disputed,
}

impl EscrowState {
    /// The number under which the stage is stored.
    pub open spec fn number(self) -> u32 {
        match self {
            EscrowState::Locked => 1,
            EscrowState::Released => 2,
            EscrowState::Refunded => 3,
            EscrowState::Disputed => 4,
        }
    }

    /// The number under which the stage is stored.
    pub fn code(&self) -> (r: u32)
        ensures
            r == self.number(),
    {
        match self {
            EscrowState::Locked => 1,
            EscrowState::Released => 2,
            EscrowState::Refunded => 3,
            EscrowState::Disputed => 4,
        }
    }
}

/// One escrow.
#[derive(Clone, Copy, Debug, PartialEq, Eq)]
pub struct EscrowRecord {
    pub id: BytesN<32>,
    pub buyer: Address,
    pub seller: Address,
    pub amount: i128,
    pub state: EscrowState,
    pub created_at: u64,
    pub dispute_tier: u32,
}

/// One recipient of split payments.
#[derive(Clone, Copy, Debug, PartialEq, Eq)]
pub struct SplitConfig {
    pub recipient: Address,
    pub percentage: u32,
    pub is_scheduled: bool,
    pub vesting_period: u32,
}

/// The stages of a proposal.
#[derive(Clone, Copy, Debug, PartialEq, Eq, Structural)]
pub enum ProposalStatus {
    Active,
    Passed,
    Failed,
    Executed,
    Cancelled,
}

impl ProposalStatus {
    /// The number under which the stage is stored.
    pub open spec fn number(self) -> u32 {
        match self {
            ProposalStatus::Active => 1,
            ProposalStatus::Passed => 2,
            ProposalStatus::Failed => 3,
            ProposalStatus::Executed => 4,
            ProposalStatus::Cancelled => 5,
        }
    }

    /// The number under which the stage is stored.
    pub fn code(&self) -> (r: u32)
        ensures
            r == self.number(),
    {
        match self {
            ProposalStatus::Active => 1,
            ProposalStatus::Passed => 2,
            ProposalStatus::Failed => 3,
            ProposalStatus::Executed => 4,
            ProposalStatus::Cancelled => 5,
        }
    }
}

/// A proposal and its votes.
#[derive(Debug)]
pub struct GovernanceProposal {
    pub id: u64,
    pub proposer: Address,
    pub payload: Bytes,
    pub status: ProposalStatus,
    pub for_votes: i128,
    pub against_votes: i128,
    pub created_ledger: u32,
}

/// Failures of the contract.
#[derive(Clone, Copy, Debug, PartialEq, Eq, Structural)]
pub enum AdvancedPaymentError {
    NotAuthorized,
    NotInitialized,
    AlreadyInitialized,
    InvalidAmount,
    InvalidState,
    EscrowNotFound,
    DisputeNotFound,
    ProposalNotFound,
    InsufficientReputation,
    InvalidConfiguration,
    OperationNotAllowed,
    Reentrant,
}

impl AdvancedPaymentError {
    /// The number under which callers see the failure.
    pub open spec fn number(self) -> u32 {
        match self {
            AdvancedPaymentError::NotAuthorized => 1,
            AdvancedPaymentError::NotInitialized => 2,
            AdvancedPaymentError::AlreadyInitialized => 3,
            AdvancedPaymentError::InvalidAmount => 4,
            AdvancedPaymentError::InvalidState => 5,
            AdvancedPaymentError::EscrowNotFound => 6,
            AdvancedPaymentError::DisputeNotFound => 7,
            AdvancedPaymentError::ProposalNotFound => 8,
            AdvancedPaymentError::InsufficientReputation => 9,
            AdvancedPaymentError::InvalidConfiguration => 10,
            AdvancedPaymentError::OperationNotAllowed => 11,
            AdvancedPaymentError::Reentrant => 12,
        }
    }

    /// The number under which callers see the failure.
    pub fn code(&self) -> (r: u32)
        ensures
            r == self.number(),
    {
        match self {
            AdvancedPaymentError::NotAuthorized => 1,
            AdvancedPaymentError::NotInitialized => 2,
            AdvancedPaymentError::AlreadyInitialized => 3,
            AdvancedPaymentError::InvalidAmount => 4,
            AdvancedPaymentError::InvalidState => 5,
            AdvancedPaymentError::EscrowNotFound => 6,
            AdvancedPaymentError::DisputeNotFound => 7,
            AdvancedPaymentError::ProposalNotFound => 8,
            AdvancedPaymentError::InsufficientReputation => 9,
            AdvancedPaymentError::InvalidConfiguration => 10,
            AdvancedPaymentError::OperationNotAllowed => 11,
            AdvancedPaymentError::Reentrant => 12,
        }
    }
}

/// What the contract announces.
#[derive(Clone, Copy, Debug, PartialEq, Eq)]
pub enum AdvancedPaymentEvent {
    Initialized { admin: Address, token: Address },
    EscrowCreated { escrow_id: BytesN<32>, buyer: Address, seller: Address, amount: i128 },
    EscrowReleased { escrow_id: BytesN<32>, seller: Address, amount: i128 },
    EscrowRefunded { escrow_id: BytesN<32>, buyer: Address, amount: i128 },
    DisputeInitiated { escrow_id: BytesN<32>, caller: Address, arbitrators: u32 },
    SplitAdded { recipient: Address, percentage: u32 },
    PaymentSplit { from: Address, amount: i128 },
    ProposalCreated { proposal_id: u64, proposer: Address },
    Voted { proposal_id: u64, voter: Address, support: bool },
}

impl AdvancedPaymentEvent {
    /// The two topics of the event.
    pub open spec fn topic_names(self) -> (Seq<char>, Seq<char>) {
        (
            "adv_pay"@,
            match self {
                AdvancedPaymentEvent::Initialized { .. } => "init"@,
                AdvancedPaymentEvent::EscrowCreated { .. } => "esc_cr"@,
                AdvancedPaymentEvent::EscrowReleased { .. } => "esc_rel"@,
                AdvancedPaymentEvent::EscrowRefunded { .. } => "esc_ref"@,
                AdvancedPaymentEvent::DisputeInitiated { .. } => "disp_init"@,
                AdvancedPaymentEvent::SplitAdded { .. } => "spl_add"@,
                AdvancedPaymentEvent::PaymentSplit { .. } => "spl_pay"@,
                AdvancedPaymentEvent::ProposalCreated { .. } => "prop_cr"@,
                AdvancedPaymentEvent::Voted { .. } => "voted"@,
            },
        )
    }

    /// The two topics of the event.
    pub fn topics(&self) -> (r: (&'static str, &'static str))
        ensures
            (r.0@, r.1@) == self.topic_names(),
    {
        let name = match self {
            AdvancedPaymentEvent::Initialized { .. } => "init",
            AdvancedPaymentEvent::EscrowCreated { .. } => "esc_cr",
            AdvancedPaymentEvent::EscrowReleased { .. } => "esc_rel",
            AdvancedPaymentEvent::EscrowRefunded { .. } => "esc_ref",
            AdvancedPaymentEvent::DisputeInitiated { .. } => "disp_init",
            AdvancedPaymentEvent::SplitAdded { .. } => "spl_add",
            AdvancedPaymentEvent::PaymentSplit { .. } => "spl_pay",
            AdvancedPaymentEvent::ProposalCreated { .. } => "prop_cr",
            AdvancedPaymentEvent::Voted { .. } => "voted",
        };
        ("adv_pay", name)
    }
}

/// The surroundings of a call of the contract.
pub type AdvancedPaymentEnv = Env<(), AdvancedPaymentEvent>;

/// The state of the contract.
pub struct AdvancedPaymentSystem {
    /// Whether a state-changing call is in progress.
    pub guard_held: bool,
    pub admin: Option<Address>,
    pub token: Option<Address>,
    pub config: Option<PaymentConfig>,
    pub escrows: Table<BytesN<32>, EscrowRecord>,
    pub splits: Vec<SplitConfig>,
    pub total_in: i128,
    /// Identifier of the latest proposal.
    pub proposal_counter: u64,
    pub proposals: Table<u64, GovernanceProposal>,
    /// Weights of votes; an address without one has a single vote.
    pub voting_power: Table<Address, i128>,
}

/// The mathematical value of the contract's state.
#[verifier::ext_equal]
pub struct AdvancedPaymentModel {
    pub guard_held: bool,
    pub admin: Option<Address>,
    pub token: Option<Address>,
    pub config: Option<PaymentConfig>,
    pub escrows: Map<BytesN<32>, EscrowRecord>,
    pub splits: Seq<SplitConfig>,
    pub total_in: i128,
    pub proposal_counter: u64,
    pub proposals: Map<u64, GovernanceProposal>,
    pub voting_power: Map<Address, i128>,
}

impl View for AdvancedPaymentSystem {
    type V = AdvancedPaymentModel;

    open spec fn view(&self) -> AdvancedPaymentModel {
        AdvancedPaymentModel {
            guard_held: self.guard_held,
            admin: self.admin,
            token: self.token,
            config: self.config,
            escrows: self.escrows@,
            splits: self.splits@,
            total_in: self.total_in,
            proposal_counter: self.proposal_counter,
            proposals: self.proposals@,
            voting_power: self.voting_power@,
        }
    }
}

/// The escrow with its stage replaced.
pub open spec fn in_state(e: EscrowRecord, state: EscrowState) -> EscrowRecord {
    EscrowRecord { state, ..e }
}

/// A recipient's part of a payment, rounded down.
pub open spec fn part(amount: int, percentage: int) -> int {
    amount * percentage / BPS_TOTAL as int
}

/// What the first `n` recipients get of a payment.
pub open spec fn part_sum(s: Seq<SplitConfig>, amount: int, n: int) -> int
    decreases n,
{
    if n <= 0 {
        0
    } else {
        part_sum(s, amount, n - 1) + part(amount, s[n - 1].percentage as int)
    }
}

/// Basis points of the first `n` recipients.
pub open spec fn percentage_sum(s: Seq<SplitConfig>, n: int) -> int
    decreases n,
{
    if n <= 0 {
        0
    } else {
        percentage_sum(s, n - 1) + s[n - 1].percentage
    }
}

/// The surroundings after the first `n` recipients were paid.
pub open spec fn parts_paid(
    e: crate::env::EnvModel<(), AdvancedPaymentEvent>,
    token: Address,
    s: Seq<SplitConfig>,
    amount: int,
    n: int,
) -> crate::env::EnvModel<(), AdvancedPaymentEvent>
    decreases n,
{
    if n <= 0 {
        e
    } else {
        let before = parts_paid(e, token, s, amount, n - 1);
        let due = part(amount, s[n - 1].percentage as int);
        if due > 0 {
            before.transfer(token, e.contract, s[n - 1].recipient, due as i128)
        } else {
            before
        }
    }
}

impl AdvancedPaymentModel {
    /// Administrator, token and configuration are set together. Proposals are
    /// numbered in sequence from one.
    pub open spec fn wf(self) -> bool {
        &&& (self.admin is Some) == (self.config is Some)
        &&& (self.admin is Some) == (self.token is Some)
        &&& self.splits.len() <= u32::MAX
        &&& forall|i: int|
            0 <= i < self.splits.len() ==> 0 < (#[trigger] self.splits[i]).percentage <= BPS_TOTAL
        &&& forall|id: u64| #[trigger]
            self.proposals.contains_key(id) ==> 1 <= id <= self.proposal_counter
                && self.proposals[id].id == id
        &&& forall|id: BytesN<32>| #[trigger]
            self.escrows.contains_key(id) ==> self.escrows[id].id == id && self.escrows[id].amount
                > 0
        &&& self.admin is None ==> self.proposal_counter == 0 && self.total_in == 0 && (forall|
            id: BytesN<32>,
        | !(#[trigger] self.escrows.contains_key(id)))
    }

    /// The weight of an address's vote.
    pub open spec fn power(self, voter: Address) -> i128 {
        if self.voting_power.contains_key(voter) {
            self.voting_power[voter]
        } else {
            1
        }
    }

    /// The state with the escrow's record replaced.
    pub open spec fn put(self, id: BytesN<32>, e: EscrowRecord) -> AdvancedPaymentModel {
        AdvancedPaymentModel { escrows: self.escrows.insert(id, e), ..self }
    }

    /// Why the contract cannot be set up, if it cannot.
    pub open spec fn initialize_error(self) -> Option<AdvancedPaymentError> {
        if self.guard_held {
            Some(AdvancedPaymentError::Reentrant)
        } else if self.admin is Some {
            Some(AdvancedPaymentError::AlreadyInitialized)
        } else {
            None
        }
    }

    /// Why an escrow cannot be made, if it cannot.
    pub open spec fn create_error(self, id: BytesN<32>, amount: int) -> Option<
        AdvancedPaymentError,
    > {
        if self.guard_held {
            Some(AdvancedPaymentError::Reentrant)
        } else if amount <= 0 {
            Some(AdvancedPaymentError::InvalidAmount)
        } else {
            match self.config {
                None => Some(AdvancedPaymentError::NotInitialized),
                Some(c) => if !c.escrow_enabled {
                    Some(AdvancedPaymentError::OperationNotAllowed)
                } else if self.escrows.contains_key(id) {
                    Some(AdvancedPaymentError::InvalidState)
                } else {
                    None
                },
            }
        }
    }

    /// Why the escrow is not there to be changed, if it is not.
    pub open spec fn locked_error(self, id: BytesN<32>) -> Option<AdvancedPaymentError> {
        if self.guard_held {
            Some(AdvancedPaymentError::Reentrant)
        } else if !self.escrows.contains_key(id) {
            Some(AdvancedPaymentError::EscrowNotFound)
        } else if self.escrows[id].state != EscrowState::Locked {
            Some(AdvancedPaymentError::InvalidState)
        } else {
            None
        }
    }

    /// Why funds cannot be released, if they cannot.
    pub open spec fn release_error(self, id: BytesN<32>, caller: Address) -> Option<
        AdvancedPaymentError,
    > {
        match self.locked_error(id) {
            Some(e) => Some(e),
            None => if caller != self.escrows[id].seller {
                Some(AdvancedPaymentError::NotAuthorized)
            } else {
                None
            },
        }
    }

    /// Why funds cannot be refunded, if they cannot.
    pub open spec fn refund_error(self, id: BytesN<32>, caller: Address) -> Option<
        AdvancedPaymentError,
    > {
        match self.locked_error(id) {
            Some(e) => Some(e),
            None => if caller != self.escrows[id].buyer {
                Some(AdvancedPaymentError::NotAuthorized)
            } else {
                None
            },
        }
    }

    /// Why a dispute cannot be opened, if it cannot.
    pub open spec fn dispute_error(self, id: BytesN<32>, caller: Address) -> Option<
        AdvancedPaymentError,
    > {
        match self.locked_error(id) {
            Some(e) => Some(e),
            None => if caller != self.escrows[id].buyer && caller != self.escrows[id].seller {
                Some(AdvancedPaymentError::NotAuthorized)
            } else {
                None
            },
        }
    }

    /// Why a recipient cannot be added, if not.
    pub open spec fn add_split_error(self, percentage: int) -> Option<AdvancedPaymentError> {
        if self.guard_held {
            Some(AdvancedPaymentError::Reentrant)
        } else {
            match self.config {
                None => Some(AdvancedPaymentError::NotInitialized),
                Some(c) => if !c.splitting_enabled {
                    Some(AdvancedPaymentError::OperationNotAllowed)
                } else if percentage == 0 || percentage > BPS_TOTAL {
                    Some(AdvancedPaymentError::InvalidConfiguration)
                } else {
                    None
                },
            }
        }
    }

    /// Why a payment is not split, if it is not.
    pub open spec fn split_error(self, amount: int) -> Option<AdvancedPaymentError> {
        if self.guard_held {
            Some(AdvancedPaymentError::Reentrant)
        } else if amount <= 0 {
            Some(AdvancedPaymentError::InvalidAmount)
        } else {
            match self.config {
                None => Some(AdvancedPaymentError::NotInitialized),
                Some(c) => if !c.splitting_enabled {
                    Some(AdvancedPaymentError::OperationNotAllowed)
                } else {
                    None
                },
            }
        }
    }

    /// Whether the machine integers hold a split of `amount`.
    pub open spec fn split_fits(self, amount: int) -> bool {
        self.split_error(amount) is None ==> {
            &&& self.total_in + amount <= i128::MAX
            &&& forall|i: int|
                0 <= i < self.splits.len() ==> amount * (#[trigger] self.splits[i]).percentage
                    <= i128::MAX
        }
    }

    /// Why a proposal cannot be made, if it cannot.
    pub open spec fn propose_error(self) -> Option<AdvancedPaymentError> {
        if self.guard_held {
            Some(AdvancedPaymentError::Reentrant)
        } else {
            match self.config {
                None => Some(AdvancedPaymentError::NotInitialized),
                Some(c) => if !c.governance_enabled {
                    Some(AdvancedPaymentError::OperationNotAllowed)
                } else {
                    None
                },
            }
        }
    }

    /// Why a vote is refused, if it is.
    pub open spec fn vote_error(self, id: u64) -> Option<AdvancedPaymentError> {
        if self.guard_held {
            Some(AdvancedPaymentError::Reentrant)
        } else if !self.proposals.contains_key(id) {
            Some(AdvancedPaymentError::ProposalNotFound)
        } else if self.proposals[id].status != ProposalStatus::Active {
            Some(AdvancedPaymentError::InvalidState)
        } else {
            None
        }
    }

    /// Whether the machine integers hold the votes after one more.
    pub open spec fn vote_fits(self, voter: Address, id: u64, support: bool) -> bool {
        self.vote_error(id) is None ==> {
            let votes = if support {
                self.proposals[id].for_votes
            } else {
                self.proposals[id].against_votes
            };
            i128::MIN <= votes + self.power(voter) <= i128::MAX
        }
    }

    /// The proposal after a vote.
    pub open spec fn voted(self, voter: Address, id: u64, support: bool) -> GovernanceProposal {
        let p = self.proposals[id];
        if support {
            GovernanceProposal { for_votes: (p.for_votes + self.power(voter)) as i128, ..p }
        } else {
            GovernanceProposal { against_votes: (p.against_votes + self.power(voter)) as i128, ..p }
        }
    }
}

/// The surroundings after a call demanded the address's authorization, unless
/// the guard refused the call first.
pub open spec fn guarded_auth(
    m: AdvancedPaymentModel,
    e: crate::env::EnvModel<(), AdvancedPaymentEvent>,
    who: Address,
) -> crate::env::EnvModel<(), AdvancedPaymentEvent> {
    if m.guard_held {
        e
    } else {
        e.auth(who)
    }
}

broadcast use {crate::env::lemma_received_push, crate::env::lemma_sent_push};

proof fn lemma_part(amount: int, percentage: int)
    requires
        amount > 0,
        0 <= percentage <= BPS_TOTAL,
    ensures
        0 <= part(amount, percentage) <= amount,
        0 <= amount * percentage,
        part(amount, percentage) * BPS_TOTAL <= amount * percentage,
{
    assert(0 <= amount * percentage <= amount * 10_000) by (nonlinear_arith)
        requires
            amount > 0,
            0 <= percentage <= 10_000,
    ;
}

impl AdvancedPaymentSystem {
    /// The contract before it is set up.
    pub fn new() -> (r: AdvancedPaymentSystem)
        ensures
            r@ == (AdvancedPaymentModel {
                guard_held: false,
                admin: None,
                token: None,
                config: None,
                escrows: Map::<BytesN<32>, EscrowRecord>::empty(),
                splits: Seq::<SplitConfig>::empty(),
                total_in: 0,
                proposal_counter: 0,
                proposals: Map::<u64, GovernanceProposal>::empty(),
                voting_power: Map::<Address, i128>::empty(),
            }),
            r@.wf(),
    {
        AdvancedPaymentSystem {
            guard_held: false,
            admin: None,
            token: None,
            config: None,
            escrows: Table::new(),
            splits: Vec::new(),
            total_in: 0,
            proposal_counter: 0,
            proposals: Table::new(),
            voting_power: Table::new(),
        }
    }

    /// Refuses the call while another one is in progress.
    fn reentrancy_guard_enter(&self) -> (r: Result<(), AdvancedPaymentError>)
        ensures
            r == if self@.guard_held {
                Err::<(), AdvancedPaymentError>(AdvancedPaymentError::Reentrant)
            } else {
                Ok(())
            },
    {
        if self.guard_held {
            return Err(AdvancedPaymentError::Reentrant);
        }
        Ok(())
    }

    /// Sets the contract up, once.
    pub fn initialize(
        &mut self,
        env: &mut AdvancedPaymentEnv,
        admin: &Address,
        token: &Address,
        config: PaymentConfig,
    ) -> (r: Result<(), AdvancedPaymentError>)
        requires
            old(self)@.wf(),
        ensures
            final(self)@.wf(),
            r == crate::env::outcome(old(self)@.initialize_error(), ()),
            final(self)@ == match r {
                Err(_) => old(self)@,
                Ok(_) => AdvancedPaymentModel {
                    admin: Some(*admin),
                    token: Some(*token),
                    config: Some(config),
                    proposal_counter: 0,
                    total_in: 0,
                    ..old(self)@
                },
            },
            crate::env::pays_nobody(old(env)@, final(env)@),
            r is Ok ==> ({
                let m = final(self)@;
                &&& m.admin == Some(*admin) && m.token == Some(*token) && m.config == Some(config)
                &&& m.total_in == 0 && m.proposal_counter == 0
                &&& m.initialize_error() == Some(AdvancedPaymentError::AlreadyInitialized)
            }),
            final(env)@ == match r {
                Err(_) => guarded_auth(old(self)@, old(env)@, *admin),
                Ok(_) => old(env)@.auth(*admin).emit(Effect::Lock).event(
                    AdvancedPaymentEvent::Initialized { admin: *admin, token: *token },
                ).emit(Effect::Unlock),
            },
    {
        self.reentrancy_guard_enter()?;
        env.require_auth(admin);
        if self.admin.is_some() {
            return Err(AdvancedPaymentError::AlreadyInitialized);
        }
        env.emit(Effect::Lock);
        self.admin = Some(*admin);
        self.token = Some(*token);
        self.config = Some(config);
        self.proposal_counter = 0;
        self.total_in = 0;
        env.event(AdvancedPaymentEvent::Initialized { admin: *admin, token: *token });
        env.emit(Effect::Unlock);
        Ok(())
    }

    /// Locks the buyer's funds under an identifier that was not used before.
    pub fn create_escrow(
        &mut self,
        env: &mut AdvancedPaymentEnv,
        escrow_id: &BytesN<32>,
        buyer: &Address,
        seller: &Address,
        amount: i128,
    ) -> (r: Result<(), AdvancedPaymentError>)
        requires
            old(self)@.wf(),
        ensures
            final(self)@.wf(),
            r == crate::env::outcome(old(self)@.create_error(*escrow_id, amount as int), ()),
            final(self)@ == match r {
                Err(_) => old(self)@,
                Ok(_) => old(self)@.put(
                    *escrow_id,
                    EscrowRecord {
                        id: *escrow_id,
                        buyer: *buyer,
                        seller: *seller,
                        amount,
                        state: EscrowState::Locked,
                        created_at: old(env)@.timestamp,
                        dispute_tier: 0,
                    },
                ),
            },
            match r {
                Ok(_) => crate::env::pays(
                    old(env)@,
                    final(env)@,
                    old(self)@.token->0,
                    *buyer,
                    old(env)@.contract,
                    amount as int,
                ),
                Err(_) => crate::env::pays_nobody(old(env)@, final(env)@),
            },
            r is Ok ==> ({
                let e = final(self)@.escrows[*escrow_id];
                &&& e.id == *escrow_id && e.buyer == *buyer && e.seller == *seller && e.amount == amount
                &&& e.created_at == old(env)@.timestamp && e.dispute_tier == 0
                &&& forall|who: Address|
                    (#[trigger] final(self)@.release_error(*escrow_id, who) is None) == (who == *seller)
                &&& forall|who: Address|
                    (#[trigger] final(self)@.refund_error(*escrow_id, who) is None) == (who == *buyer)
                &&& forall|other: BytesN<32>|
                    other != *escrow_id ==> #[trigger] final(self)@.escrows[other]
                        == old(self)@.escrows[other]
            }),
            final(env)@ == match r {
                Err(_) => guarded_auth(old(self)@, old(env)@, *buyer),
                Ok(_) => old(env)@.auth(*buyer).emit(Effect::Lock).transfer(
                    old(self)@.token->0,
                    *buyer,
                    old(env)@.contract,
                    amount,
                ).event(
                    AdvancedPaymentEvent::EscrowCreated {
                        escrow_id: *escrow_id,
                        buyer: *buyer,
                        seller: *seller,
                        amount,
                    },
                ).emit(Effect::Unlock),
            },
    {
        self.reentrancy_guard_enter()?;
        env.require_auth(buyer);
        if amount <= 0 {
            return Err(AdvancedPaymentError::InvalidAmount);
        }
        let config: PaymentConfig = self.get_config()?;
        if !config.escrow_enabled {
            return Err(AdvancedPaymentError::OperationNotAllowed);
        }
        let token: Address = self.token.unwrap();
        if self.escrows.contains(escrow_id) {
            return Err(AdvancedPaymentError::InvalidState);
        }
        let escrow = EscrowRecord {
            id: *escrow_id,
            buyer: *buyer,
            seller: *seller,
            amount,
            state: EscrowState::Locked,
            created_at: env.timestamp,
            dispute_tier: 0,
        };
        let contract = env.contract;
        env.emit(Effect::Lock);
        self.escrows.set(*escrow_id, escrow);
        env.transfer(&token, buyer, &contract, amount);
        env.event(
            AdvancedPaymentEvent::EscrowCreated {
                escrow_id: *escrow_id,
                buyer: *buyer,
                seller: *seller,
                amount,
            },
        );
        env.emit(Effect::Unlock);
        Ok(())
    }

    /// The locked escrow under the identifier.
    fn load_locked(&self, escrow_id: &BytesN<32>) -> (r: Result<
        EscrowRecord,
        AdvancedPaymentError,
    >)
        requires
            !self@.guard_held,
        ensures
            r == crate::env::outcome(self@.locked_error(*escrow_id), self@.escrows[*escrow_id]),
    {
        match self.escrows.get(escrow_id) {
            None => Err(AdvancedPaymentError::EscrowNotFound),
            Some(escrow) => {
                if escrow.state != EscrowState::Locked {
                    return Err(AdvancedPaymentError::InvalidState);
                }
                Ok(*escrow)
            },
        }
    }

    /// Releases locked funds to the seller, who must be the caller.
    pub fn release_escrow(
        &mut self,
        env: &mut AdvancedPaymentEnv,
        escrow_id: &BytesN<32>,
        caller: &Address,
    ) -> (r: Result<(), AdvancedPaymentError>)
        requires
            old(self)@.wf(),
        ensures
            final(self)@.wf(),
            r == crate::env::outcome(old(self)@.release_error(*escrow_id, *caller), ()),
            final(self)@ == match r {
                Err(_) => old(self)@,
                Ok(_) => old(self)@.put(
                    *escrow_id,
                    in_state(old(self)@.escrows[*escrow_id], EscrowState::Released),
                ),
            },
            match r {
                Ok(_) => crate::env::pays(
                    old(env)@,
                    final(env)@,
                    old(self)@.token->0,
                    old(env)@.contract,
                    old(self)@.escrows[*escrow_id].seller,
                    old(self)@.escrows[*escrow_id].amount as int,
                ),
                Err(_) => crate::env::pays_nobody(old(env)@, final(env)@),
            },
            r is Ok ==> final(self)@.escrows[*escrow_id].state == EscrowState::Released
                && final(self)@.total_in == old(self)@.total_in,
            final(env)@ == match r {
                Err(_) => guarded_auth(old(self)@, old(env)@, *caller),
                Ok(_) => {
                    let e = old(self)@.escrows[*escrow_id];
                    old(env)@.auth(*caller).emit(Effect::Lock).transfer(
                        old(self)@.token->0,
                        old(env)@.contract,
                        e.seller,
                        e.amount,
                    ).event(
                        AdvancedPaymentEvent::EscrowReleased {
                            escrow_id: *escrow_id,
                            seller: e.seller,
                            amount: e.amount,
                        },
                    ).emit(Effect::Unlock)
                },
            },
    {
        self.reentrancy_guard_enter()?;
        env.require_auth(caller);
        let mut escrow: EscrowRecord = self.load_locked(escrow_id)?;
        if *caller != escrow.seller {
            return Err(AdvancedPaymentError::NotAuthorized);
        }
        let token: Address = self.token.unwrap();
        let contract = env.contract;
        env.emit(Effect::Lock);
        escrow.state = EscrowState::Released;
        self.escrows.set(*escrow_id, escrow);
        env.transfer(&token, &contract, &escrow.seller, escrow.amount);
        env.event(
            AdvancedPaymentEvent::EscrowReleased {
                escrow_id: *escrow_id,
                seller: escrow.seller,
                amount: escrow.amount,
            },
        );
        env.emit(Effect::Unlock);
        Ok(())
    }

    /// Refunds locked funds to the buyer, who must be the caller.
    pub fn refund_escrow(
        &mut self,
        env: &mut AdvancedPaymentEnv,
        escrow_id: &BytesN<32>,
        caller: &Address,
    ) -> (r: Result<(), AdvancedPaymentError>)
        requires
            old(self)@.wf(),
        ensures
            final(self)@.wf(),
            r == crate::env::outcome(old(self)@.refund_error(*escrow_id, *caller), ()),
            final(self)@ == match r {
                Err(_) => old(self)@,
                Ok(_) => old(self)@.put(
                    *escrow_id,
                    in_state(old(self)@.escrows[*escrow_id], EscrowState::Refunded),
                ),
            },
            match r {
                Ok(_) => crate::env::pays(
                    old(env)@,
                    final(env)@,
                    old(self)@.token->0,
                    old(env)@.contract,
                    old(self)@.escrows[*escrow_id].buyer,
                    old(self)@.escrows[*escrow_id].amount as int,
                ),
                Err(_) => crate::env::pays_nobody(old(env)@, final(env)@),
            },
            r is Ok ==> final(self)@.escrows[*escrow_id].state == EscrowState::Refunded
                && final(self)@.total_in == old(self)@.total_in,
            final(env)@ == match r {
                Err(_) => guarded_auth(old(self)@, old(env)@, *caller),
                Ok(_) => {
                    let e = old(self)@.escrows[*escrow_id];
                    old(env)@.auth(*caller).emit(Effect::Lock).transfer(
                        old(self)@.token->0,
                        old(env)@.contract,
                        e.buyer,
                        e.amount,
                    ).event(
                        AdvancedPaymentEvent::EscrowRefunded {
                            escrow_id: *escrow_id,
                            buyer: e.buyer,
                            amount: e.amount,
                        },
                    ).emit(Effect::Unlock)
                },
            },
    {
        self.reentrancy_guard_enter()?;
        env.require_auth(caller);
        let mut escrow: EscrowRecord = self.load_locked(escrow_id)?;
        if *caller != escrow.buyer {
            return Err(AdvancedPaymentError::NotAuthorized);
        }
        let token: Address = self.token.unwrap();
        let contract = env.contract;
        env.emit(Effect::Lock);
        escrow.state = EscrowState::Refunded;
        self.escrows.set(*escrow_id, escrow);
        env.transfer(&token, &contract, &escrow.buyer, escrow.amount);
        env.event(
            AdvancedPaymentEvent::EscrowRefunded {
                escrow_id: *escrow_id,
                buyer: escrow.buyer,
                amount: escrow.amount,
            },
        );
        env.emit(Effect::Unlock);
        Ok(())
    }

    /// Opens a dispute over a locked escrow and raises its tier. Only the
    /// buyer or the seller may do so.
    pub fn initiate_dispute(
        &mut self,
        env: &mut AdvancedPaymentEnv,
        escrow_id: &BytesN<32>,
        caller: &Address,
        arbitrators: &Vec<Address>,
    ) -> (r: Result<(), AdvancedPaymentError>)
        requires
            old(self)@.wf(),
            arbitrators@.len() <= u32::MAX,
        ensures
            final(self)@.wf(),
            r == crate::env::outcome(old(self)@.dispute_error(*escrow_id, *caller), ()),
            final(self)@ == match r {
                Err(_) => old(self)@,
                Ok(_) => {
                    let e = old(self)@.escrows[*escrow_id];
                    old(self)@.put(
                        *escrow_id,
                        EscrowRecord {
                            state: EscrowState::Disputed,
                            dispute_tier: crate::num::sat_u32(e.dispute_tier + 1),
                            ..e
                        },
                    )
                },
            },
            crate::env::pays_nobody(old(env)@, final(env)@),
            r is Ok ==> ({
                let (before, after) = (old(self)@.escrows[*escrow_id], final(self)@.escrows[*escrow_id]);
                &&& before.dispute_tier < u32::MAX ==> after.dispute_tier == before.dispute_tier + 1
                &&& before.dispute_tier == u32::MAX ==> after.dispute_tier == before.dispute_tier
                &&& after.state == EscrowState::Disputed
                &&& forall|who: Address| #[trigger] final(self)@.release_error(*escrow_id, who) is Some
                &&& forall|who: Address| #[trigger] final(self)@.refund_error(*escrow_id, who) is Some
            }),
            final(env)@ == match r {
                Err(_) => guarded_auth(old(self)@, old(env)@, *caller),
                Ok(_) => old(env)@.auth(*caller).emit(Effect::Lock).event(
                    AdvancedPaymentEvent::DisputeInitiated {
                        escrow_id: *escrow_id,
                        caller: *caller,
                        arbitrators: arbitrators@.len() as u32,
                    },
                ).emit(Effect::Unlock),
            },
    {
        self.reentrancy_guard_enter()?;
        env.require_auth(caller);
        let mut escrow: EscrowRecord = self.load_locked(escrow_id)?;
        if *caller != escrow.buyer && *caller != escrow.seller {
            return Err(AdvancedPaymentError::NotAuthorized);
        }
        env.emit(Effect::Lock);
        escrow.state = EscrowState::Disputed;
        escrow.dispute_tier = saturating_add_u32(escrow.dispute_tier, 1);
        self.escrows.set(*escrow_id, escrow);
        env.event(
            AdvancedPaymentEvent::DisputeInitiated {
                escrow_id: *escrow_id,
                caller: *caller,
                arbitrators: arbitrators.len() as u32,
            },
        );
        env.emit(Effect::Unlock);
        Ok(())
    }

    /// Adds a recipient of split payments. Only the administrator may do so.
    pub fn add_split_recipient(
        &mut self,
        env: &mut AdvancedPaymentEnv,
        recipient: &Address,
        percentage: u32,
    ) -> (r: Result<(), AdvancedPaymentError>)
        requires
            old(self)@.wf(),
            old(self)@.splits.len() < u32::MAX,
        ensures
            final(self)@.wf(),
            r == crate::env::outcome(old(self)@.add_split_error(percentage as int), ()),
            final(self)@ == match r {
                Err(_) => old(self)@,
                Ok(_) => AdvancedPaymentModel {
                    splits: old(self)@.splits.push(
                        SplitConfig {
                            recipient: *recipient,
                            percentage,
                            is_scheduled: false,
                            vesting_period: 0,
                        },
                    ),
                    ..old(self)@
                },
            },
            crate::env::pays_nobody(old(env)@, final(env)@),
            r is Ok ==> ({
                let n = old(self)@.splits.len() as int;
                &&& final(self)@.splits.len() == n + 1
                &&& final(self)@.splits[n].recipient == *recipient
                &&& final(self)@.splits[n].percentage == percentage
                &&& !final(self)@.splits[n].is_scheduled && final(self)@.splits[n].vesting_period == 0
                &&& forall|i: int|
                    0 <= i < n ==> #[trigger] final(self)@.splits[i] == old(self)@.splits[i]
            }),
            final(env)@ == match (old(self)@.admin, r) {
                (None, _) => old(env)@,
                (Some(admin), Err(_)) => guarded_auth(old(self)@, old(env)@, admin),
                (Some(admin), Ok(_)) => old(env)@.auth(admin).emit(Effect::Lock).event(
                    AdvancedPaymentEvent::SplitAdded { recipient: *recipient, percentage },
                ).emit(Effect::Unlock),
            },
    {
        self.reentrancy_guard_enter()?;
        let admin: Address = self.get_admin()?;
        env.require_auth(&admin);
        let config: PaymentConfig = self.get_config()?;
        if !config.splitting_enabled {
            return Err(AdvancedPaymentError::OperationNotAllowed);
        }
        if percentage == 0 || percentage > BPS_TOTAL {
            return Err(AdvancedPaymentError::InvalidConfiguration);
        }
        env.emit(Effect::Lock);
        self.splits.push(
            SplitConfig {
                recipient: *recipient,
                percentage,
                is_scheduled: false,
                vesting_period: 0,
            },
        );
        env.event(AdvancedPaymentEvent::SplitAdded { recipient: *recipient, percentage });
        env.emit(Effect::Unlock);
        Ok(())
    }

    /// Whether the machine integers hold a split of `amount`.
    pub fn split_fits(&self, amount: i128) -> (r: bool)
        requires
            self@.wf(),
        ensures
            r == self@.split_fits(amount as int),
    {
        if self.guard_held || amount <= 0 {
            return true;
        }
        match self.config {
            None => {
                return true;
            },
            Some(config) => {
                if !config.splitting_enabled {
                    return true;
                }
            },
        }
        if self.total_in.checked_add(amount).is_none() {
            return false;
        }
        let mut i: usize = 0;
        while i < self.splits.len()
            invariant
                i <= self.splits@.len(),
                amount > 0,
                self@.split_error(amount as int) is None,
                forall|j: int|
                    0 <= j < i ==> amount * (#[trigger] self.splits@[j]).percentage <= i128::MAX,
            decreases self.splits@.len() - i,
        {
            let percentage: i128 = self.splits[i].percentage as i128;
            assert(amount * percentage >= 0) by (nonlinear_arith)
                requires
                    amount > 0,
                    percentage >= 0,
            ;
            if amount.checked_mul(percentage).is_none() {
                assert(amount * self@.splits[i as int].percentage > i128::MAX);
                return false;
            }
            i = i + 1;
        }
        true
    }

    /// Transfers `amount` from `from` into the contract and pays each
    /// recipient its part.
    pub fn split_payment(
        &mut self,
        env: &mut AdvancedPaymentEnv,
        from: &Address,
        amount: i128,
    ) -> (r: Result<(), AdvancedPaymentError>)
        requires
            old(self)@.wf(),
            old(self)@.split_fits(amount as int),
        ensures
            final(self)@.wf(),
            r == crate::env::outcome(old(self)@.split_error(amount as int), ()),
            final(self)@ == match r {
                Err(_) => old(self)@,
                Ok(_) => AdvancedPaymentModel {
                    total_in: (old(self)@.total_in + amount) as i128,
                    ..old(self)@
                },
            },
            r is Ok ==> forall|t: Address, who: Address| #[trigger]
                crate::env::received(final(env)@.log, t, who) == crate::env::received(
                    old(env)@.log,
                    t,
                    who,
                ) + if Some(t) == old(self)@.token {
                    (if who == old(env)@.contract {
                        amount as int
                    } else {
                        0
                    }) + parts_due(
                        old(self)@.splits,
                        amount as int,
                        who,
                        old(self)@.splits.len() as int,
                    )
                } else {
                    0
                },
            r is Err ==> crate::env::pays_nobody(old(env)@, final(env)@),
            r is Ok ==> final(self)@.total_in - old(self)@.total_in == amount,
            final(env)@ == match r {
                Err(_) => guarded_auth(old(self)@, old(env)@, *from),
                Ok(_) => parts_paid(
                    old(env)@.auth(*from).emit(Effect::Lock).transfer(
                        old(self)@.token->0,
                        *from,
                        old(env)@.contract,
                        amount,
                    ),
                    old(self)@.token->0,
                    old(self)@.splits,
                    amount as int,
                    old(self)@.splits.len() as int,
                ).event(AdvancedPaymentEvent::PaymentSplit { from: *from, amount }).emit(
                    Effect::Unlock,
                ),
            },
    {
        self.reentrancy_guard_enter()?;
        env.require_auth(from);
        if amount <= 0 {
            return Err(AdvancedPaymentError::InvalidAmount);
        }
        let config: PaymentConfig = self.get_config()?;
        if !config.splitting_enabled {
            return Err(AdvancedPaymentError::OperationNotAllowed);
        }
        let token: Address = self.token.unwrap();
        let contract = env.contract;
        env.emit(Effect::Lock);
        env.transfer(&token, from, &contract, amount);
        self.total_in = self.total_in + amount;
        let ghost start = env@;
        let mut i: usize = 0;
        while i < self.splits.len()
            invariant
                i <= self.splits@.len(),
                amount > 0,
                contract == start.contract,
                forall|j: int|
                    0 <= j < self.splits@.len() ==> 0 < (#[trigger] self.splits@[j]).percentage
                        <= BPS_TOTAL,
                forall|j: int|
                    0 <= j < self.splits@.len() ==> amount * (
                    #[trigger] self.splits@[j]).percentage <= i128::MAX,
                env@ == parts_paid(start, token, self.splits@, amount as int, i as int),
            decreases self.splits@.len() - i,
        {
            let split: SplitConfig = self.splits[i];
            assert(split == self.splits@[i as int]);
            proof {
                lemma_part(amount as int, split.percentage as int);
            }
            let payout: i128 = amount * (split.percentage as i128) / (BPS_TOTAL as i128);
            if payout > 0 {
                env.transfer(&token, &contract, &split.recipient, payout);
            }
            i = i + 1;
        }
        env.event(AdvancedPaymentEvent::PaymentSplit { from: *from, amount });
        env.emit(Effect::Unlock);
        proof {
            let m = old(self)@;
            let n = m.splits.len() as int;
            let start = old(env)@.auth(*from).emit(Effect::Lock).transfer(
                m.token->0,
                *from,
                old(env)@.contract,
                amount,
            );
            assert forall|t: Address, who: Address| #[trigger]
                crate::env::received(env@.log, t, who) == crate::env::received(
                    old(env)@.log,
                    t,
                    who,
                ) + if Some(t) == m.token {
                    (if who == old(env)@.contract {
                        amount as int
                    } else {
                        0
                    }) + parts_due(m.splits, amount as int, who, n)
                } else {
                    0
                } by {
                law_parts_are_received(start, m.token->0, m.splits, amount as int, n, t, who);
            }
        }
        Ok(())
    }

    /// Makes a proposal and returns its identifier.
    pub fn create_proposal(
        &mut self,
        env: &mut AdvancedPaymentEnv,
        proposer: &Address,
        payload: Bytes,
        description: &Bytes,
    ) -> (r: Result<u64, AdvancedPaymentError>)
        requires
            old(self)@.wf(),
            old(self)@.propose_error() is None ==> old(self)@.proposal_counter < u64::MAX,
        ensures
            final(self)@.wf(),
            ({
                let id = (old(self)@.proposal_counter + 1) as u64;
                &&& r == crate::env::outcome(old(self)@.propose_error(), id)
                &&& final(self)@ == match r {
                    Err(_) => old(self)@,
                    Ok(_) => AdvancedPaymentModel {
                        proposal_counter: id,
                        proposals: old(self)@.proposals.insert(
                            id,
                            GovernanceProposal {
                                id,
                                proposer: *proposer,
                                payload,
                                status: ProposalStatus::Active,
                                for_votes: 0,
                                against_votes: 0,
                                created_ledger: old(env)@.sequence,
                            },
                        ),
                        ..old(self)@
                    },
                }
                &&& final(env)@ == match r {
                    Err(_) => guarded_auth(old(self)@, old(env)@, *proposer),
                    Ok(_) => old(env)@.auth(*proposer).emit(Effect::Lock).event(
                        AdvancedPaymentEvent::ProposalCreated {
                            proposal_id: id,
                            proposer: *proposer,
                        },
                    ).emit(Effect::Unlock),
                }
            }),
            crate::env::pays_nobody(old(env)@, final(env)@),
            r matches Ok(id) ==> ({
                let p = final(self)@.proposals[id];
                &&& id == old(self)@.proposal_counter + 1
                &&& final(self)@.proposal_counter == id
                &&& p.id == id && p.proposer == *proposer && p.payload == payload
                &&& p.for_votes == 0 && p.against_votes == 0
                &&& p.created_ledger == old(env)@.sequence
                &&& final(self)@.vote_error(id) is None
            }),
    {
        self.reentrancy_guard_enter()?;
        env.require_auth(proposer);
        let config: PaymentConfig = self.get_config()?;
        if !config.governance_enabled {
            return Err(AdvancedPaymentError::OperationNotAllowed);
        }
        let next_id: u64 = self.proposal_counter + 1;
        let proposal = GovernanceProposal {
            id: next_id,
            proposer: *proposer,
            payload,
            status: ProposalStatus::Active,
            for_votes: 0,
            against_votes: 0,
            created_ledger: env.sequence,
        };
        env.emit(Effect::Lock);
        self.proposals.set(next_id, proposal);
        self.proposal_counter = next_id;
        env.event(
            AdvancedPaymentEvent::ProposalCreated { proposal_id: next_id, proposer: *proposer },
        );
        env.emit(Effect::Unlock);
        Ok(next_id)
    }

    /// The weight of an address's vote.
    pub fn voting_power_of(&self, voter: &Address) -> (r: i128)
        ensures
            r == self@.power(*voter),
    {
        match self.voting_power.get(voter) {
            Some(power) => *power,
            None => 1,
        }
    }

    /// Whether the machine integers hold the votes after one more.
    pub fn vote_fits(&self, voter: &Address, proposal_id: u64, support: bool) -> (r: bool)
        ensures
            r == self@.vote_fits(*voter, proposal_id, support),
    {
        if self.guard_held {
            return true;
        }
        match self.proposals.get(&proposal_id) {
            None => true,
            Some(proposal) => {
                if proposal.status != ProposalStatus::Active {
                    return true;
                }
                let votes: i128 = if support {
                    proposal.for_votes
                } else {
                    proposal.against_votes
                };
                votes.checked_add(self.voting_power_of(voter)).is_some()
            },
        }
    }

    /// Votes on an active proposal.
    pub fn vote_on_proposal(
        &mut self,
        env: &mut AdvancedPaymentEnv,
        voter: &Address,
        proposal_id: u64,
        support: bool,
    ) -> (r: Result<(), AdvancedPaymentError>)
        requires
            old(self)@.wf(),
            old(self)@.vote_fits(*voter, proposal_id, support),
        ensures
            final(self)@.wf(),
            r == crate::env::outcome(old(self)@.vote_error(proposal_id), ()),
            final(self)@ == match r {
                Err(_) => old(self)@,
                Ok(_) => AdvancedPaymentModel {
                    proposals: old(self)@.proposals.insert(
                        proposal_id,
                        old(self)@.voted(*voter, proposal_id, support),
                    ),
                    ..old(self)@
                },
            },
            crate::env::pays_nobody(old(env)@, final(env)@),
            final(env)@ == match r {
                Err(_) => guarded_auth(old(self)@, old(env)@, *voter),
                Ok(_) => old(env)@.auth(*voter).emit(Effect::Lock).event(
                    AdvancedPaymentEvent::Voted { proposal_id, voter: *voter, support },
                ).emit(Effect::Unlock),
            },
    {
        self.reentrancy_guard_enter()?;
        env.require_auth(voter);
        match self.proposals.get(&proposal_id) {
            None => {
                return Err(AdvancedPaymentError::ProposalNotFound);
            },
            Some(proposal) => {
                if proposal.status != ProposalStatus::Active {
                    return Err(AdvancedPaymentError::InvalidState);
                }
            },
        }
        let power: i128 = self.voting_power_of(voter);
        env.emit(Effect::Lock);
        let mut proposal = self.proposals.take(&proposal_id).unwrap();
        if support {
            proposal.for_votes = proposal.for_votes + power;
        } else {
            proposal.against_votes = proposal.against_votes + power;
        }
        self.proposals.set(proposal_id, proposal);
        assert(self@.proposals =~= old(self)@.proposals.insert(
            proposal_id,
            old(self)@.voted(*voter, proposal_id, support),
        ));
        env.event(AdvancedPaymentEvent::Voted { proposal_id, voter: *voter, support });
        env.emit(Effect::Unlock);
        Ok(())
    }

    /// The escrow under the identifier.
    pub fn get_escrow(&self, escrow_id: &BytesN<32>) -> (r: Result<
        EscrowRecord,
        AdvancedPaymentError,
    >)
        ensures
            r == if self@.escrows.contains_key(*escrow_id) {
                Ok(self@.escrows[*escrow_id])
            } else {
                Err(AdvancedPaymentError::EscrowNotFound)
            },
    {
        match self.escrows.get(escrow_id) {
            Some(escrow) => Ok(*escrow),
            None => Err(AdvancedPaymentError::EscrowNotFound),
        }
    }

    /// The proposal under the identifier.
    pub fn get_proposal(&self, proposal_id: u64) -> (r: Result<
        &GovernanceProposal,
        AdvancedPaymentError,
    >)
        ensures
            match r {
                Ok(p) => self@.proposals.contains_key(proposal_id) && *p
                    == self@.proposals[proposal_id],
                Err(e) => !self@.proposals.contains_key(proposal_id) && e
                    == AdvancedPaymentError::ProposalNotFound,
            },
    {
        match self.proposals.get(&proposal_id) {
            Some(proposal) => Ok(proposal),
            None => Err(AdvancedPaymentError::ProposalNotFound),
        }
    }

    /// The recipients of split payments.
    pub fn get_splits(&self) -> (r: &Vec<SplitConfig>)
        ensures
            r@ == self@.splits,
    {
        &self.splits
    }

    /// Which parts of the contract are in use.
    pub fn get_config(&self) -> (r: Result<PaymentConfig, AdvancedPaymentError>)
        ensures
            r == match self@.config {
                Some(config) => Ok(config),
                None => Err(AdvancedPaymentError::NotInitialized),
            },
    {
        match self.config {
            Some(config) => Ok(config),
            None => Err(AdvancedPaymentError::NotInitialized),
        }
    }

    /// The administrator.
    pub fn get_admin(&self) -> (r: Result<Address, AdvancedPaymentError>)
        ensures
            r == match self@.admin {
                Some(admin) => Ok(admin),
                None => Err(AdvancedPaymentError::NotInitialized),
            },
    {
        match self.admin {
            Some(admin) => Ok(admin),
            None => Err(AdvancedPaymentError::NotInitialized),
        }
    }
}

/// While a call is in progress every state-changing call is refused.
pub proof fn law_guard_refuses_every_call(
    m: AdvancedPaymentModel,
    id: BytesN<32>,
    who: Address,
    amount: int,
    proposal: u64,
)
    requires
        m.guard_held,
    ensures
        m.initialize_error() == Some(AdvancedPaymentError::Reentrant),
        m.create_error(id, amount) == Some(AdvancedPaymentError::Reentrant),
        m.release_error(id, who) == Some(AdvancedPaymentError::Reentrant),
        m.refund_error(id, who) == Some(AdvancedPaymentError::Reentrant),
        m.dispute_error(id, who) == Some(AdvancedPaymentError::Reentrant),
        m.add_split_error(amount) == Some(AdvancedPaymentError::Reentrant),
        m.split_error(amount) == Some(AdvancedPaymentError::Reentrant),
        m.propose_error() == Some(AdvancedPaymentError::Reentrant),
        m.vote_error(proposal) == Some(AdvancedPaymentError::Reentrant),
{
}

/// An escrow leaves the locked stage once: afterwards it is neither released,
/// refunded nor disputed, and its identifier is not used again.
pub proof fn law_escrow_settles_once(
    m: AdvancedPaymentModel,
    id: BytesN<32>,
    who: Address,
    amount: int,
)
    requires
        !m.guard_held,
        m.escrows.contains_key(id),
        m.escrows[id].state != EscrowState::Locked,
    ensures
        m.release_error(id, who) == Some(AdvancedPaymentError::InvalidState),
        m.refund_error(id, who) == Some(AdvancedPaymentError::InvalidState),
        m.dispute_error(id, who) == Some(AdvancedPaymentError::InvalidState),
        m.create_error(id, amount) is Some,
{
}

proof fn lemma_part_sum(s: Seq<SplitConfig>, amount: int, n: int)
    requires
        0 <= n <= s.len(),
        amount > 0,
        forall|i: int| 0 <= i < s.len() ==> 0 < (#[trigger] s[i]).percentage <= BPS_TOTAL,
    ensures
        0 <= part_sum(s, amount, n),
        part_sum(s, amount, n) * BPS_TOTAL <= amount * percentage_sum(s, n),
    decreases n,
{
    if n > 0 {
        lemma_part_sum(s, amount, n - 1);
        let p = s[n - 1].percentage as int;
        let a = percentage_sum(s, n - 1);
        lemma_part(amount, p);
        assert(amount * (a + p) == amount * a + amount * p) by (nonlinear_arith);
    } else {
        assert(amount * 0 == 0) by (nonlinear_arith);
    }
}

/// Recipients whose shares make up at most the whole together get at most
/// the payment.
pub proof fn law_parts_within_payment(s: Seq<SplitConfig>, amount: int)
    requires
        amount > 0,
        forall|i: int| 0 <= i < s.len() ==> 0 < (#[trigger] s[i]).percentage <= BPS_TOTAL,
        percentage_sum(s, s.len() as int) <= BPS_TOTAL,
    ensures
        0 <= part_sum(s, amount, s.len() as int) <= amount,
{
    let n = s.len() as int;
    lemma_part_sum(s, amount, n);
    let p = percentage_sum(s, n);
    assert(amount * p <= amount * 10_000) by (nonlinear_arith)
        requires
            amount > 0,
            p <= 10_000,
    ;
}

/// What the first `n` recipients of a split payment make up for an address:
/// for each of them that is the address, its hundredths of a percent of the
/// payment, rounded down.
pub open spec fn parts_due(s: Seq<SplitConfig>, amount: int, who: Address, n: int) -> int
    decreases n,
{
    if n <= 0 {
        0
    } else {
        parts_due(s, amount, who, n - 1) + if s[n - 1].recipient == who {
            amount * s[n - 1].percentage / 10_000
        } else {
            0
        }
    }
}

/// A split payment pays each address exactly the sum of the parts of the
/// recipients with that address, and nothing of any other token.
pub proof fn law_parts_are_received(
    e: crate::env::EnvModel<(), AdvancedPaymentEvent>,
    token: Address,
    s: Seq<SplitConfig>,
    amount: int,
    n: int,
    t: Address,
    who: Address,
)
    requires
        amount > 0,
        0 <= n <= s.len(),
        forall|i: int|
            0 <= i < s.len() ==> amount * (#[trigger] s[i]).percentage <= i128::MAX,
    ensures
        crate::env::received(parts_paid(e, token, s, amount, n).log, t, who)
            == crate::env::received(e.log, t, who) + if t == token {
            parts_due(s, amount, who, n)
        } else {
            0
        },
        parts_paid(e, token, s, amount, n).contract == e.contract,
        parts_paid(e, token, s, amount, n).auths == e.auths,
    decreases n,
{
    if n > 0 {
        law_parts_are_received(e, token, s, amount, n - 1, t, who);
        law_part_is_rounded_down(amount, s[n - 1].percentage as int);
        assert(amount * s[n - 1].percentage <= i128::MAX);
    }
}

/// A recipient with nothing due is sent nothing, not even a transfer of zero,
/// and one with something due is sent one transfer after those before.
pub proof fn law_no_empty_transfers(
    e: crate::env::EnvModel<(), AdvancedPaymentEvent>,
    token: Address,
    s: Seq<SplitConfig>,
    amount: int,
    n: int,
)
    requires
        0 <= n < s.len(),
        amount > 0,
    ensures
        ({
            let before = parts_paid(e, token, s, amount, n);
            let after = parts_paid(e, token, s, amount, n + 1);
            let due = amount * s[n].percentage / 10_000;
            &&& due == 0 ==> after == before
            &&& due > 0 ==> after.log.len() == before.log.len() + 1
        }),
{
}

/// A recipient's part is its hundredths of a percent of the payment, rounded
/// down.
pub proof fn law_part_is_rounded_down(amount: int, percentage: int)
    requires
        amount >= 0,
        percentage >= 0,
    ensures
        part(amount, percentage) * 10_000 <= amount * percentage < (part(amount, percentage) + 1)
            * 10_000,
        0 <= part(amount, percentage) <= amount * percentage,
        part(amount, percentage) == amount * percentage / 10_000,
{
    let p = amount * percentage;
    assert(p >= 0) by (nonlinear_arith)
        requires
            amount >= 0,
            percentage >= 0,
            p == amount * percentage,
    ;
}

/// Where the recipients are all different, each of them receives its own part
/// and no other.
pub proof fn law_own_part_only(s: Seq<SplitConfig>, amount: int, i: int, n: int)
    requires
        0 <= i < s.len(),
        0 <= n <= s.len(),
        forall|a: int, b: int|
            0 <= a < b < s.len() ==> (#[trigger] s[a]).recipient != (#[trigger] s[b]).recipient,
    ensures
        parts_due(s, amount, s[i].recipient, n) == if i < n {
            amount * s[i].percentage / 10_000
        } else {
            0
        },
    decreases n,
{
    if n > 0 {
        law_own_part_only(s, amount, i, n - 1);
        if n - 1 != i {
            assert(s[n - 1].recipient != s[i].recipient) by {
                if i < n - 1 {
                    assert(s[i].recipient != s[n - 1].recipient);
                } else {
                    assert(s[n - 1].recipient != s[i].recipient);
                }
            }
        }
    }
}

/// Who may do what with an escrow, and when: it is made under a free identifier
/// for a positive amount where escrows are in use, released by its seller,
/// refunded by its buyer and disputed by either, each only while it is locked.
pub proof fn law_escrow_conditions(
    m: AdvancedPaymentModel,
    id: BytesN<32>,
    caller: Address,
    amount: int,
)
    requires
        !m.guard_held,
    ensures
        ({
            let e = m.escrows[id];
            let locked = m.escrows.contains_key(id) && e.state == EscrowState::Locked;
            &&& m.create_error(id, amount) is None <==> amount > 0 && m.config is Some
                && m.config->0.escrow_enabled && !m.escrows.contains_key(id)
            &&& amount <= 0 ==> m.create_error(id, amount) == Some(
                AdvancedPaymentError::InvalidAmount,
            )
            &&& amount > 0 && m.config is None ==> m.create_error(id, amount) == Some(
                AdvancedPaymentError::NotInitialized,
            )
            &&& amount > 0 && m.config is Some && !m.config->0.escrow_enabled ==> m.create_error(
                id,
                amount,
            ) == Some(AdvancedPaymentError::OperationNotAllowed)
            &&& amount > 0 && m.config is Some && m.config->0.escrow_enabled
                && m.escrows.contains_key(id) ==> m.create_error(id, amount) == Some(
                AdvancedPaymentError::InvalidState,
            )
            &&& m.release_error(id, caller) is None <==> locked && caller == e.seller
            &&& m.refund_error(id, caller) is None <==> locked && caller == e.buyer
            &&& m.dispute_error(id, caller) is None <==> locked && (caller == e.buyer || caller
                == e.seller)
            &&& !m.escrows.contains_key(id) ==> m.release_error(id, caller) == Some(
                AdvancedPaymentError::EscrowNotFound,
            ) && m.refund_error(id, caller) == Some(AdvancedPaymentError::EscrowNotFound)
                && m.dispute_error(id, caller) == Some(AdvancedPaymentError::EscrowNotFound)
            &&& m.escrows.contains_key(id) && !locked ==> m.release_error(id, caller) == Some(
                AdvancedPaymentError::InvalidState,
            ) && m.refund_error(id, caller) == Some(AdvancedPaymentError::InvalidState)
                && m.dispute_error(id, caller) == Some(AdvancedPaymentError::InvalidState)
            &&& locked && caller != e.seller ==> m.release_error(id, caller) == Some(
                AdvancedPaymentError::NotAuthorized,
            )
            &&& locked && caller != e.buyer ==> m.refund_error(id, caller) == Some(
                AdvancedPaymentError::NotAuthorized,
            )
            &&& locked && caller != e.buyer && caller != e.seller ==> m.dispute_error(id, caller)
                == Some(AdvancedPaymentError::NotAuthorized)
        }),
{
}

/// When recipients are added, payments split, proposals made and voted on, and
/// the contract set up.
pub proof fn law_other_conditions(m: AdvancedPaymentModel, percentage: int, amount: int, id: u64)
    requires
        !m.guard_held,
    ensures
        ({
            let splitting = m.config is Some && m.config->0.splitting_enabled;
            let governance = m.config is Some && m.config->0.governance_enabled;
            &&& m.initialize_error() == if m.admin is Some {
                Some(AdvancedPaymentError::AlreadyInitialized)
            } else {
                None
            }
            &&& m.add_split_error(percentage) is None <==> splitting && percentage != 0
                && percentage <= 10_000
            &&& splitting && (percentage == 0 || percentage > 10_000) ==> m.add_split_error(
                percentage,
            ) == Some(AdvancedPaymentError::InvalidConfiguration)
            &&& m.split_error(amount) is None <==> splitting && amount > 0
            &&& amount <= 0 ==> m.split_error(amount) == Some(AdvancedPaymentError::InvalidAmount)
            &&& m.propose_error() is None <==> governance
            &&& m.config is None ==> m.propose_error() == Some(
                AdvancedPaymentError::NotInitialized,
            ) && m.add_split_error(percentage) == Some(AdvancedPaymentError::NotInitialized) && (
            amount > 0 ==> m.split_error(amount) == Some(AdvancedPaymentError::NotInitialized))
            &&& m.config is Some && !splitting ==> m.add_split_error(percentage) == Some(
                AdvancedPaymentError::OperationNotAllowed,
            ) && (amount > 0 ==> m.split_error(amount) == Some(
                AdvancedPaymentError::OperationNotAllowed,
            ))
            &&& m.config is Some && !governance ==> m.propose_error() == Some(
                AdvancedPaymentError::OperationNotAllowed,
            )
            &&& m.vote_error(id) is None <==> m.proposals.contains_key(id) && m.proposals[id].status
                == ProposalStatus::Active
            &&& !m.proposals.contains_key(id) ==> m.vote_error(id) == Some(
                AdvancedPaymentError::ProposalNotFound,
            )
            &&& m.proposals.contains_key(id) && m.proposals[id].status != ProposalStatus::Active
                ==> m.vote_error(id) == Some(AdvancedPaymentError::InvalidState)
        }),
{
}

/// A payment whose ten-thousandfold a machine integer holds, and which the
/// running total has room for, can be split. A vote can be cast as long as the
/// side that it supports has room for it.
pub proof fn law_ordinary_calls_fit(
    m: AdvancedPaymentModel,
    amount: int,
    voter: Address,
    id: u64,
    support: bool,
)
    requires
        m.wf(),
        0 < amount,
    ensures
        amount * 10_000 <= i128::MAX && m.total_in + amount <= i128::MAX ==> m.split_fits(amount),
        i128::MIN <= m.proposals[id].for_votes + m.power(voter) <= i128::MAX && i128::MIN
            <= m.proposals[id].against_votes + m.power(voter) <= i128::MAX ==> m.vote_fits(
            voter,
            id,
            support,
        ),
{
    if amount * 10_000 <= i128::MAX {
        assert forall|i: int| 0 <= i < m.splits.len() implies amount * (
        #[trigger] m.splits[i]).percentage <= i128::MAX by {
            let p = m.splits[i].percentage as int;
            assert(amount * p <= amount * 10_000) by (nonlinear_arith)
                requires
                    amount > 0,
                    p <= 10_000,
            ;
        }
    }
}

/// A vote weighs what is on record for the voter, or one where nothing is, and
/// goes to the side that it supports. The proposal is otherwise as it was.
pub proof fn law_vote_weighs(m: AdvancedPaymentModel, voter: Address, id: u64, support: bool)
    requires
        m.vote_error(id) is None,
        m.vote_fits(voter, id, support),
    ensures
        ({
            let weight = if m.voting_power.contains_key(voter) {
                m.voting_power[voter] as int
            } else {
                1
            };
            let p = m.proposals[id];
            let after = m.voted(voter, id, support);
            &&& m.power(voter) == weight
            &&& after.for_votes == p.for_votes + if support {
                weight
            } else {
                0
            }
            &&& after.against_votes == p.against_votes + if support {
                0
            } else {
                weight
            }
            &&& (GovernanceProposal {
                for_votes: p.for_votes,
                against_votes: p.against_votes,
                ..after
            }) == p
        }),
{
}

/// Replacing an escrow's record replaces that record alone, and a new stage
/// leaves the terms of the escrow as they were.
pub proof fn law_records_are_replaced_alone(
    m: AdvancedPaymentModel,
    id: BytesN<32>,
    e: EscrowRecord,
    state: EscrowState,
    other: BytesN<32>,
)
    ensures
        m.put(id, e).escrows[id] == e,
        m.put(id, e).escrows.contains_key(id),
        other != id ==> m.put(id, e).escrows.contains_key(other) == m.escrows.contains_key(other)
            && m.put(id, e).escrows[other] == m.escrows[other],
        (AdvancedPaymentModel { escrows: m.escrows, ..m.put(id, e) }) == m,
        in_state(e, state).state == state,
        (EscrowRecord { state: e.state, ..in_state(e, state) }) == e,
{
}

/// A call demands the authorization of the given address, unless the guard
/// refuses the call first, and moves nothing by it.
pub proof fn law_authorization_is_demanded(
    m: AdvancedPaymentModel,
    e: crate::env::EnvModel<(), AdvancedPaymentEvent>,
    who: Address,
)
    ensures
        !m.guard_held ==> guarded_auth(m, e, who).auths == e.auths.push(who),
        m.guard_held ==> guarded_auth(m, e, who).auths == e.auths,
        guarded_auth(m, e, who).log == e.log,
        guarded_auth(m, e, who).contract == e.contract,
{
}

/// A new proposal has an identifier that was not in use, is open for votes
/// and starts without any.
pub proof fn law_proposals_start_fresh(
    m: AdvancedPaymentModel,
    proposer: Address,
    payload: Bytes,
    now: u32,
)
    requires
        m.wf(),
        m.propose_error() is None,
        m.proposal_counter < u64::MAX,
    ensures
        ({
            let id = (m.proposal_counter + 1) as u64;
            let after = AdvancedPaymentModel {
                proposal_counter: id,
                proposals: m.proposals.insert(
                    id,
                    GovernanceProposal {
                        id,
                        proposer,
                        payload,
                        status: ProposalStatus::Active,
                        for_votes: 0,
                        against_votes: 0,
                        created_ledger: now,
                    },
                ),
                ..m
            };
            !m.proposals.contains_key(id) && after.vote_error(id) is None
        }),
{
}

/// A vote adds its weight to one side and leaves the other side as it is.
pub proof fn law_vote_adds_weight(m: AdvancedPaymentModel, voter: Address, id: u64, support: bool)
    requires
        m.vote_error(id) is None,
        m.vote_fits(voter, id, support),
    ensures
        ({
            let before = m.proposals[id];
            let after = m.voted(voter, id, support);
            &&& after.for_votes + after.against_votes == before.for_votes + before.against_votes
                + m.power(voter)
            &&& support ==> after.against_votes == before.against_votes
            &&& !support ==> after.for_votes == before.for_votes
            &&& after.status == before.status
        }),
{
}

/// A vote on a proposal.
pub struct Ballot {
    pub voter: Address,
    pub proposal_id: u64,
    pub support: bool,
}

impl AdvancedPaymentModel {
    /// The state after a vote.
    pub open spec fn after_ballot(self, b: Ballot) -> AdvancedPaymentModel {
        AdvancedPaymentModel {
            proposals: self.proposals.insert(
                b.proposal_id,
                self.voted(b.voter, b.proposal_id, b.support),
            ),
            ..self
        }
    }

    /// The state after a run of votes.
    pub open spec fn after_ballots(self, ballots: Seq<Ballot>) -> AdvancedPaymentModel
        decreases ballots.len(),
    {
        if ballots.len() == 0 {
            self
        } else {
            self.after_ballots(ballots.drop_last()).after_ballot(ballots.last())
        }
    }

    /// Whether each of the votes is accepted in its turn and its sum fits.
    pub open spec fn accepts(self, ballots: Seq<Ballot>) -> bool
        decreases ballots.len(),
    {
        ballots.len() > 0 ==> {
            let before = self.after_ballots(ballots.drop_last());
            let b = ballots.last();
            &&& self.accepts(ballots.drop_last())
            &&& before.vote_error(b.proposal_id) is None
            &&& before.vote_fits(b.voter, b.proposal_id, b.support)
        }
    }

    /// The weight of the votes on one side of a proposal.
    pub open spec fn weight(self, ballots: Seq<Ballot>, id: u64, support: bool) -> int
        decreases ballots.len(),
    {
        if ballots.len() == 0 {
            0
        } else {
            let b = ballots.last();
            self.weight(ballots.drop_last(), id, support) + if b.proposal_id == id && b.support
                == support {
                self.power(b.voter) as int
            } else {
                0
            }
        }
    }
}

/// After any run of accepted votes each side of a proposal has grown by the
/// weights of the votes for that side. Votes on other proposals do not count,
/// and the proposal is otherwise as it was.
pub proof fn law_votes_add_up(m: AdvancedPaymentModel, ballots: Seq<Ballot>, id: u64)
    requires
        m.accepts(ballots),
        m.proposals.contains_key(id),
    ensures
        ({
            let after = m.after_ballots(ballots);
            &&& after.proposals.contains_key(id)
            &&& after.proposals[id].for_votes == m.proposals[id].for_votes + m.weight(
                ballots,
                id,
                true,
            )
            &&& after.proposals[id].against_votes == m.proposals[id].against_votes + m.weight(
                ballots,
                id,
                false,
            )
            &&& after.proposals[id].status == m.proposals[id].status
            &&& after.proposals[id].id == m.proposals[id].id
            &&& after.voting_power == m.voting_power
        }),
    decreases ballots.len(),
{
    if ballots.len() > 0 {
        law_votes_add_up(m, ballots.drop_last(), id);
    }
}

proof fn lemma_parts_guarded(
    env: crate::env::EnvModel<(), AdvancedPaymentEvent>,
    token: Address,
    s: Seq<SplitConfig>,
    amount: int,
    n: int,
)
    requires
        crate::env::guard_set(env.log),
        crate::env::transfers_guarded(env.log),
    ensures
        crate::env::guard_set(parts_paid(env, token, s, amount, n).log),
        crate::env::transfers_guarded(parts_paid(env, token, s, amount, n).log),
    decreases n,
{
    if n > 0 {
        lemma_parts_guarded(env, token, s, amount, n - 1);
        let before = parts_paid(env, token, s, amount, n - 1);
        let due = part(amount, s[n - 1].percentage as int);
        crate::env::lemma_guard(
            before,
            Effect::Transfer {
                token,
                from: env.contract,
                to: s[n - 1].recipient,
                amount: due as i128,
            },
        );
    }
}

/// Every call that moves funds sets the guard before and clears it after, so
/// no transfer happens outside the guard.
pub proof fn law_transfers_happen_under_guard(
    env: crate::env::EnvModel<(), AdvancedPaymentEvent>,
    token: Address,
    from: Address,
    to: Address,
    amount: i128,
    s: Seq<SplitConfig>,
    event: AdvancedPaymentEvent,
)
    requires
        env.at_rest(),
    ensures
        env.emit(Effect::Lock).transfer(token, from, to, amount).event(event).emit(
            Effect::Unlock,
        ).at_rest(),
        parts_paid(
            env.emit(Effect::Lock).transfer(token, from, to, amount),
            token,
            s,
            amount as int,
            s.len() as int,
        ).event(event).emit(Effect::Unlock).at_rest(),
{
    crate::env::lemma_guarded_transfer(env, token, from, to, amount, event);
    let locked = env.emit(Effect::Lock);
    crate::env::lemma_guard(env, Effect::Lock);
    crate::env::lemma_guard(locked, Effect::Transfer { token, from, to, amount });
    let pulled = locked.transfer(token, from, to, amount);
    lemma_parts_guarded(pulled, token, s, amount as int, s.len() as int);
    let done = parts_paid(pulled, token, s, amount as int, s.len() as int);
    crate::env::lemma_guard(done, Effect::Event(event));
    crate::env::lemma_guard(done.event(event), Effect::Unlock);
}

/// The numbers under which callers see the values are fixed.
pub proof fn law_escrow_state_numbers(v: EscrowState)
    ensures
        v is Locked ==> v.number() == 1,
        v is Released ==> v.number() == 2,
        v is Refunded ==> v.number() == 3,
        v is Disputed ==> v.number() == 4,
{
}

/// The numbers under which callers see the values are fixed.
pub proof fn law_proposal_status_numbers(v: ProposalStatus)
    ensures
        v is Active ==> v.number() == 1,
        v is Passed ==> v.number() == 2,
        v is Failed ==> v.number() == 3,
        v is Executed ==> v.number() == 4,
        v is Cancelled ==> v.number() == 5,
{
}

/// The numbers under which callers see the values are fixed.
pub proof fn law_advanced_payment_error_numbers(v: AdvancedPaymentError)
    ensures
        v is NotAuthorized ==> v.number() == 1,
        v is NotInitialized ==> v.number() == 2,
        v is AlreadyInitialized ==> v.number() == 3,
        v is InvalidAmount ==> v.number() == 4,
        v is InvalidState ==> v.number() == 5,
        v is EscrowNotFound ==> v.number() == 6,
        v is DisputeNotFound ==> v.number() == 7,
        v is ProposalNotFound ==> v.number() == 8,
        v is InsufficientReputation ==> v.number() == 9,
        v is InvalidConfiguration ==> v.number() == 10,
        v is OperationNotAllowed ==> v.number() == 11,
        v is Reentrant ==> v.number() == 12,
{
}

/// The topics under which the events are announced are fixed.
pub proof fn law_advanced_payment_event_topics(v: AdvancedPaymentEvent)
    ensures
        v is Initialized ==> v.topic_names() == ("adv_pay"@, "init"@),
        v is EscrowCreated ==> v.topic_names() == ("adv_pay"@, "esc_cr"@),
        v is EscrowReleased ==> v.topic_names() == ("adv_pay"@, "esc_rel"@),
        v is EscrowRefunded ==> v.topic_names() == ("adv_pay"@, "esc_ref"@),
        v is DisputeInitiated ==> v.topic_names() == ("adv_pay"@, "disp_init"@),
        v is SplitAdded ==> v.topic_names() == ("adv_pay"@, "spl_add"@),
        v is PaymentSplit ==> v.topic_names() == ("adv_pay"@, "spl_pay"@),
        v is ProposalCreated ==> v.topic_names() == ("adv_pay"@, "prop_cr"@),
        v is Voted ==> v.topic_names() == ("adv_pay"@, "voted"@),
{
}

} // verus!
