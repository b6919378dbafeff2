//! Escrow with automation: anyone may release the funds once a milestone was
//! confirmed or a deadline has passed.
//!
//! An escrow starts locked. It ends released to the seller or refunded to the
//! buyer, directly or by way of a dispute that the administrator resolves.
//! Every call that changes anything is refused while another one is in
//! progress.
use crate::address::Address;
use crate::address::Bytes;
use crate::address::BytesN;
use crate::env::Effect;
use crate::env::Env;
use crate::table::AddressSet;
use crate::table::Table;
use vstd::prelude::*;

verus! {

/// Keys of the persistent entries.
#[derive(Clone, Copy, Debug, PartialEq, Eq)]
pub enum DataKey {
    /// An authorised milestone confirmer.
    Confirmer(Address),
    /// An escrow record.
    Escrow(u64),
}

/// The stages of an escrow.
#[derive(Clone, Copy, Debug, PartialEq, Eq, Structural)]
pub enum EscrowState {
    /// Funds are locked; awaiting release condition.
    Locked,
    /// Funds released to the seller.
    Released,
    /// Funds refunded to the buyer.
    Refunded,
    /// Dispute opened; awaiting admin resolution.
    Disputed,
}

impl EscrowState {
    /// The number under which the stage is stored.
    pub open spec fn number(self) -> u32 {
        match self {
            EscrowState::Locked => 1,
            EscrowState::Released => 2,
            EscrowState::Refunded => 3,
            EscrowState::Disputed => 4,
        }
    }

    /// The number under which the stage is stored.
    pub fn code(&self) -> (r: u32)
        ensures
            r == self.number(),
    {
        match self {
            EscrowState::Locked => 1,
            EscrowState::Released => 2,
            EscrowState::Refunded => 3,
            EscrowState::Disputed => 4,
        }
    }
}

/// An automated payment escrow.
#[derive(Debug)]
pub struct PaymentEscrow {
    pub id: u64,
    /// Payer, who receives the refund if the escrow is refunded.
    pub buyer: Address,
    /// Payee, who receives the funds if the escrow is released.
    pub seller: Address,
    /// Token contract address.
    pub token: Address,
    /// Amount locked in this escrow.
    pub amount: i128,
    /// Opaque reference, such as an invoice number.
    pub reference: Bytes,
    /// Ledger at which the escrow was created.
    pub created_ledger: u32,
    /// Ledger from which anyone may release the funds; zero for never.
    pub release_deadline: u32,
    /// Whether a milestone confirmer has confirmed delivery.
    pub milestone_confirmed: bool,
    pub state: EscrowState,
    /// Note set when a dispute is resolved.
    pub resolution_note: Bytes,
}

/// Failures of the escrow calls.
#[derive(Clone, Copy, Debug, PartialEq, Eq, Structural)]
pub enum EscrowError {
    AlreadyInitialized,
    NotInitialized,
    Unauthorized,
    ContractPaused,
    Reentrant,
    EscrowNotFound,
    /// The escrow is not in the `Locked` state.
    NotLocked,
    /// The escrow is not in the `Disputed` state.
    NotDisputed,
    InvalidAmount,
    /// The release deadline has not been reached yet.
    DeadlineNotReached,
    /// No release deadline is configured.
    NoDeadlineConfigured,
    /// Milestone has not been confirmed by a confirmer.
    MilestoneNotConfirmed,
    /// Milestone was already confirmed.
    AlreadyConfirmed,
    ConfirmerAlreadyAdded,
    ConfirmerNotFound,
}

impl EscrowError {
    /// The number under which callers see the failure.
    pub open spec fn number(self) -> u32 {
        match self {
            EscrowError::AlreadyInitialized => 1,
            EscrowError::NotInitialized => 2,
            EscrowError::Unauthorized => 3,
            EscrowError::ContractPaused => 4,
            EscrowError::Reentrant => 5,
            EscrowError::EscrowNotFound => 6,
            EscrowError::NotLocked => 7,
            EscrowError::NotDisputed => 8,
            EscrowError::InvalidAmount => 9,
            EscrowError::DeadlineNotReached => 10,
            EscrowError::NoDeadlineConfigured => 11,
            EscrowError::MilestoneNotConfirmed => 12,
            EscrowError::AlreadyConfirmed => 13,
            EscrowError::ConfirmerAlreadyAdded => 14,
            EscrowError::ConfirmerNotFound => 15,
        }
    }

    /// The number under which callers see the failure.
    pub fn code(&self) -> (r: u32)
        ensures
            r == self.number(),
    {
        match self {
            EscrowError::AlreadyInitialized => 1,
            EscrowError::NotInitialized => 2,
            EscrowError::Unauthorized => 3,
            EscrowError::ContractPaused => 4,
            EscrowError::Reentrant => 5,
            EscrowError::EscrowNotFound => 6,
            EscrowError::NotLocked => 7,
            EscrowError::NotDisputed => 8,
            EscrowError::InvalidAmount => 9,
            EscrowError::DeadlineNotReached => 10,
            EscrowError::NoDeadlineConfigured => 11,
            EscrowError::MilestoneNotConfirmed => 12,
            EscrowError::AlreadyConfirmed => 13,
            EscrowError::ConfirmerAlreadyAdded => 14,
            EscrowError::ConfirmerNotFound => 15,
        }
    }
}

/// What the escrow contract announces.
#[derive(Clone, Copy, Debug, PartialEq, Eq)]
pub enum EscrowEvent {
    Initialized { admin: Address },
    ConfirmerAdded { confirmer: Address },
    ConfirmerRemoved { confirmer: Address },
    Locked { escrow_id: u64, buyer: Address, seller: Address, amount: i128, release_deadline: u32 },
    MilestoneConfirmed { escrow_id: u64, confirmer: Address },
    Released { escrow_id: u64, seller: Address, amount: i128 },
    Refunded { escrow_id: u64, buyer: Address, amount: i128 },
    Disputed { escrow_id: u64, caller: Address },
    Resolved { escrow_id: u64, release_to_seller: bool, dest: Address, amount: i128 },
    Paused,
    Unpaused,
    AdminTransferred { new_admin: Address },
}

impl EscrowEvent {
    /// The two topics of the event.
    pub open spec fn topic_names(self) -> (Seq<char>, Seq<char>) {
        (
            "escrow_a"@,
            match self {
                EscrowEvent::Initialized { .. } => "init"@,
                EscrowEvent::ConfirmerAdded { .. } => "cfm_add"@,
                EscrowEvent::ConfirmerRemoved { .. } => "cfm_rm"@,
                EscrowEvent::Locked { .. } => "locked"@,
                EscrowEvent::MilestoneConfirmed { .. } => "milestone"@,
                EscrowEvent::Released { .. } => "released"@,
                EscrowEvent::Refunded { .. } => "refunded"@,
                EscrowEvent::Disputed { .. } => "disputed"@,
                EscrowEvent::Resolved { .. } => "resolved"@,
                EscrowEvent::Paused => "paused"@,
                EscrowEvent::Unpaused => "unpaused"@,
                EscrowEvent::AdminTransferred { .. } => "adm_xfer"@,
            },
        )
    }

    /// The two topics of the event.
    pub fn topics(&self) -> (r: (&'static str, &'static str))
        ensures
            (r.0@, r.1@) == self.topic_names(),
    {
        let name = match self {
            EscrowEvent::Initialized { .. } => "init",
            EscrowEvent::ConfirmerAdded { .. } => "cfm_add",
            EscrowEvent::ConfirmerRemoved { .. } => "cfm_rm",
            EscrowEvent::Locked { .. } => "locked",
            EscrowEvent::MilestoneConfirmed { .. } => "milestone",
            EscrowEvent::Released { .. } => "released",
            EscrowEvent::Refunded { .. } => "refunded",
            EscrowEvent::Disputed { .. } => "disputed",
            EscrowEvent::Resolved { .. } => "resolved",
            EscrowEvent::Paused => "paused",
            EscrowEvent::Unpaused => "unpaused",
            EscrowEvent::AdminTransferred { .. } => "adm_xfer",
        };
        ("escrow_a", name)
    }
}

/// The surroundings of a call of the escrow contract.
pub type EscrowEnv = Env<DataKey, EscrowEvent>;

/// The state of the escrow contract.
pub struct PaymentEscrowAutomation {
    pub admin: Option<Address>,
    pub paused: bool,
    pub version: u32,
    /// Whether a call that changes an escrow is in progress.
    pub guard_held: bool,
    /// Identifier of the next escrow.
    pub counter: u64,
    pub confirmers: AddressSet,
    pub escrows: Table<u64, PaymentEscrow>,
}

/// The mathematical value of the escrow contract's state.
#[verifier::ext_equal]
pub struct EscrowModel {
    pub admin: Option<Address>,
    pub paused: bool,
    pub version: u32,
    pub guard_held: bool,
    pub counter: u64,
    pub confirmers: Set<Address>,
    pub escrows: Map<u64, PaymentEscrow>,
}

impl View for PaymentEscrowAutomation {
    type V = EscrowModel;

    open spec fn view(&self) -> EscrowModel {
        EscrowModel {
            admin: self.admin,
            paused: self.paused,
            version: self.version,
            guard_held: self.guard_held,
            counter: self.counter,
            confirmers: self.confirmers@,
            escrows: self.escrows@,
        }
    }
}

/// The escrow with its stage replaced.
pub open spec fn in_state(e: PaymentEscrow, state: EscrowState) -> PaymentEscrow {
    PaymentEscrow { state, ..e }
}

/// Whether the contract still holds the escrow's funds.
pub open spec fn is_open(e: PaymentEscrow) -> bool {
    e.state == EscrowState::Locked || e.state == EscrowState::Disputed
}

/// What the escrows below `n` hold in the token.
pub open spec fn held(escrows: Map<u64, PaymentEscrow>, token: Address, n: nat) -> int
    decreases n,
{
    if n == 0 {
        0
    } else {
        let id = (n - 1) as u64;
        held(escrows, token, (n - 1) as nat) + if escrows.contains_key(id) && is_open(escrows[id])
            && escrows[id].token == token {
            escrows[id].amount as int
        } else {
            0
        }
    }
}

impl EscrowModel {
    /// Escrows are stored under their own identifiers and hold something.
    pub open spec fn wf(self) -> bool {
        forall|id: u64| #[trigger]
            self.escrows.contains_key(id) ==> self.escrows[id].id == id && self.escrows[id].amount
                > 0
    }

    /// Every identifier in use was handed out by the counter.
    pub open spec fn sequential(self) -> bool {
        forall|id: u64| #[trigger] self.escrows.contains_key(id) ==> id < self.counter
    }

    /// Why an administrative call is refused, if it is.
    pub open spec fn admin_error(self) -> Option<EscrowError> {
        match self.admin {
            Some(_) => None,
            None => Some(EscrowError::NotInitialized),
        }
    }

    /// Why the contract cannot be set up, if it cannot.
    pub open spec fn initialize_error(self) -> Option<EscrowError> {
        if self.admin is Some {
            Some(EscrowError::AlreadyInitialized)
        } else {
            self.guard_error()
        }
    }

    /// Why the administrator cannot change the contract, if not.
    pub open spec fn change_error(self) -> Option<EscrowError> {
        match self.admin_error() {
            Some(e) => Some(e),
            None => self.guard_error(),
        }
    }

    /// Why a confirmer cannot be added, if not.
    pub open spec fn add_confirmer_error(self, who: Address) -> Option<EscrowError> {
        if self.admin is None {
            Some(EscrowError::NotInitialized)
        } else if self.confirmers.contains(who) {
            Some(EscrowError::ConfirmerAlreadyAdded)
        } else {
            self.guard_error()
        }
    }

    /// Why a confirmer cannot be removed, if not.
    pub open spec fn remove_confirmer_error(self, who: Address) -> Option<EscrowError> {
        if self.admin is None {
            Some(EscrowError::NotInitialized)
        } else if !self.confirmers.contains(who) {
            Some(EscrowError::ConfirmerNotFound)
        } else {
            self.guard_error()
        }
    }

    /// Why funds cannot be locked, if they cannot.
    pub open spec fn lock_error(self, amount: int) -> Option<EscrowError> {
        if self.paused {
            Some(EscrowError::ContractPaused)
        } else if amount <= 0 {
            Some(EscrowError::InvalidAmount)
        } else {
            self.guard_error()
        }
    }

    /// Why the escrow is not there in the wanted stage, if it is not.
    pub open spec fn stage_error(self, id: u64, wanted: EscrowState) -> Option<EscrowError> {
        if !self.escrows.contains_key(id) {
            Some(EscrowError::EscrowNotFound)
        } else if self.escrows[id].state == wanted {
            None
        } else if wanted == EscrowState::Locked {
            Some(EscrowError::NotLocked)
        } else {
            Some(EscrowError::NotDisputed)
        }
    }

    /// The last test before anything is changed.
    pub open spec fn guard_error(self) -> Option<EscrowError> {
        if self.guard_held {
            Some(EscrowError::Reentrant)
        } else {
            None
        }
    }

    /// Why a milestone cannot be confirmed, if it cannot.
    pub open spec fn confirm_error(self, confirmer: Address, id: u64) -> Option<EscrowError> {
        if self.paused {
            Some(EscrowError::ContractPaused)
        } else if !self.confirmers.contains(confirmer) {
            Some(EscrowError::Unauthorized)
        } else {
            match self.stage_error(id, EscrowState::Locked) {
                Some(e) => Some(e),
                None => if self.escrows[id].milestone_confirmed {
                    Some(EscrowError::AlreadyConfirmed)
                } else {
                    self.guard_error()
                },
            }
        }
    }

    /// Whether the escrow's deadline has been reached.
    pub open spec fn deadline_reached(self, id: u64, now: int) -> bool {
        self.escrows[id].release_deadline > 0 && now >= self.escrows[id].release_deadline
    }

    /// Why funds cannot be released at the ledger, if they cannot.
    pub open spec fn release_error(self, id: u64, now: int) -> Option<EscrowError> {
        if self.paused {
            Some(EscrowError::ContractPaused)
        } else {
            match self.stage_error(id, EscrowState::Locked) {
                Some(e) => Some(e),
                None => if self.escrows[id].milestone_confirmed || self.deadline_reached(id, now) {
                    self.guard_error()
                } else if self.escrows[id].release_deadline == 0 {
                    Some(EscrowError::MilestoneNotConfirmed)
                } else {
                    Some(EscrowError::DeadlineNotReached)
                },
            }
        }
    }

    /// Why funds cannot be refunded, if they cannot.
    pub open spec fn refund_error(self, buyer: Address, id: u64) -> Option<EscrowError> {
        if self.paused {
            Some(EscrowError::ContractPaused)
        } else {
            match self.stage_error(id, EscrowState::Locked) {
                Some(e) => Some(e),
                None => if self.escrows[id].buyer != buyer {
                    Some(EscrowError::Unauthorized)
                } else if self.escrows[id].milestone_confirmed {
                    Some(EscrowError::AlreadyConfirmed)
                } else {
                    self.guard_error()
                },
            }
        }
    }

    /// Why a dispute cannot be opened, if it cannot.
    pub open spec fn dispute_error(self, caller: Address, id: u64) -> Option<EscrowError> {
        if self.paused {
            Some(EscrowError::ContractPaused)
        } else {
            match self.stage_error(id, EscrowState::Locked) {
                Some(e) => Some(e),
                None => if caller != self.escrows[id].buyer && caller != self.escrows[id].seller {
                    Some(EscrowError::Unauthorized)
                } else {
                    self.guard_error()
                },
            }
        }
    }

    /// Why a dispute cannot be resolved, if it cannot.
    pub open spec fn resolve_error(self, id: u64) -> Option<EscrowError> {
        if self.paused {
            Some(EscrowError::ContractPaused)
        } else if self.admin is None {
            Some(EscrowError::NotInitialized)
        } else {
            match self.stage_error(id, EscrowState::Disputed) {
                Some(e) => Some(e),
                None => self.guard_error(),
            }
        }
    }

    /// The state with the escrow's record replaced.
    pub open spec fn put(self, id: u64, e: PaymentEscrow) -> EscrowModel {
        EscrowModel { escrows: self.escrows.insert(id, e), ..self }
    }

    /// The state after funds were locked under the next identifier.
    pub open spec fn locked(
        self,
        buyer: Address,
        seller: Address,
        token: Address,
        amount: i128,
        reference: Bytes,
        release_deadline: u32,
        now: u32,
    ) -> EscrowModel {
        EscrowModel {
            counter: (self.counter + 1) as u64,
            ..self.put(
                self.counter,
                PaymentEscrow {
                    id: self.counter,
                    buyer,
                    seller,
                    token,
                    amount,
                    reference,
                    created_ledger: now,
                    release_deadline,
                    milestone_confirmed: false,
                    state: EscrowState::Locked,
                    resolution_note: Bytes::empty(),
                },
            )
        }
    }
}

/// The surroundings after an unpaused contract demanded the address's
/// authorization.
pub open spec fn caller_auth(
    m: EscrowModel,
    e: crate::env::EnvModel<DataKey, EscrowEvent>,
    who: Address,
) -> crate::env::EnvModel<DataKey, EscrowEvent> {
    if m.paused {
        e
    } else {
        e.auth(who)
    }
}

/// The surroundings after an escrow's record was stored under the guard.
pub open spec fn guarded_save(
    e: crate::env::EnvModel<DataKey, EscrowEvent>,
    id: u64,
) -> crate::env::EnvModel<DataKey, EscrowEvent> {
    e.emit(Effect::ExtendInstance).emit(Effect::Lock).emit(
        Effect::ExtendEntry(DataKey::Escrow(id)),
    )
}

/// The surroundings after an escrow's funds were paid under the guard.
pub open spec fn guarded_payment(
    e: crate::env::EnvModel<DataKey, EscrowEvent>,
    escrow: PaymentEscrow,
    dest: Address,
) -> crate::env::EnvModel<DataKey, EscrowEvent> {
    guarded_save(e, escrow.id).transfer(escrow.token, e.contract, dest, escrow.amount).emit(
        Effect::Unlock,
    )
}

/// The surroundings after the administrator's authorization was demanded, if
/// there is an administrator.
pub open spec fn admin_auth(
    m: EscrowModel,
    e: crate::env::EnvModel<DataKey, EscrowEvent>,
) -> crate::env::EnvModel<DataKey, EscrowEvent> {
    match m.admin {
        Some(admin) => e.auth(admin),
        None => e,
    }
}

broadcast use {crate::env::lemma_received_push, crate::env::lemma_sent_push};

impl PaymentEscrowAutomation {
    /// The administrator, whose authorization is demanded.
    fn require_admin(&self, env: &mut EscrowEnv) -> (r: Result<Address, EscrowError>)
        ensures
            r == crate::env::outcome(self@.admin_error(), self@.admin->0),
            final(env)@ == match self@.admin {
                Some(admin) => old(env)@.auth(admin),
                None => old(env)@,
            },
    {
        match self.admin {
            Some(admin) => {
                env.require_auth(&admin);
                Ok(admin)
            },
            None => Err(EscrowError::NotInitialized),
        }
    }

    /// Refuses to go on while a call is in progress.
    fn require_unguarded(&self) -> (r: Result<(), EscrowError>)
        ensures
            r == crate::env::outcome(self@.guard_error(), ()),
    {
        if self.guard_held {
            return Err(EscrowError::Reentrant);
        }
        Ok(())
    }

    /// Stops the contract's work until it is resumed.
    pub fn pause(&mut self, env: &mut EscrowEnv) -> (r: Result<(), EscrowError>)
        requires
            old(self)@.wf(),
        ensures
            final(self)@.wf(),
            r == crate::env::outcome(old(self)@.change_error(), ()),
            final(self)@ == match r {
                Err(_) => old(self)@,
                Ok(_) => EscrowModel { paused: true, ..old(self)@ },
            },
            crate::env::pays_nobody(old(env)@, final(env)@),
            r is Ok ==> final(self)@.paused && final(self)@.admin == old(self)@.admin,
            final(env)@ == match r {
                Err(_) => admin_auth(old(self)@, old(env)@),
                Ok(_) => admin_auth(old(self)@, old(env)@).event(EscrowEvent::Paused),
            },
    {
        self.require_admin(env)?;
        self.require_unguarded()?;
        self.paused = true;
        env.event(EscrowEvent::Paused);
        Ok(())
    }

    /// Resumes the contract's work.
    pub fn unpause(&mut self, env: &mut EscrowEnv) -> (r: Result<(), EscrowError>)
        requires
            old(self)@.wf(),
        ensures
            final(self)@.wf(),
            r == crate::env::outcome(old(self)@.change_error(), ()),
            final(self)@ == match r {
                Err(_) => old(self)@,
                Ok(_) => EscrowModel { paused: false, ..old(self)@ },
            },
            crate::env::pays_nobody(old(env)@, final(env)@),
            r is Ok ==> !final(self)@.paused && final(self)@.admin == old(self)@.admin,
            final(env)@ == match r {
                Err(_) => admin_auth(old(self)@, old(env)@),
                Ok(_) => admin_auth(old(self)@, old(env)@).event(EscrowEvent::Unpaused),
            },
    {
        self.require_admin(env)?;
        self.require_unguarded()?;
        self.paused = false;
        env.event(EscrowEvent::Unpaused);
        Ok(())
    }

    /// Replaces the contract's code and counts the version up.
    pub fn upgrade(&mut self, env: &mut EscrowEnv, new_wasm_hash: &BytesN<32>) -> (r: Result<(), EscrowError>)
        requires
            old(self)@.wf(),
            old(self)@.change_error() is None ==> old(self)@.version < u32::MAX,
        ensures
            final(self)@.wf(),
            r == crate::env::outcome(old(self)@.change_error(), ()),
            final(self)@ == match r {
                Err(_) => old(self)@,
                Ok(_) => EscrowModel { version: (old(self)@.version + 1) as u32, ..old(self)@ },
            },
            crate::env::pays_nobody(old(env)@, final(env)@),
            r is Ok ==> final(self)@.version == old(self)@.version + 1 && final(self)@.admin == old(self)@.admin,
            final(env)@ == match r {
                Err(_) => admin_auth(old(self)@, old(env)@),
                Ok(_) => admin_auth(old(self)@, old(env)@).emit(Effect::Upgrade(*new_wasm_hash)),
            },
    {
        self.require_admin(env)?;
        self.require_unguarded()?;
        env.emit(Effect::Upgrade(*new_wasm_hash));
        self.version = self.version + 1;
        Ok(())
    }

    /// Hands the administration over.
    pub fn transfer_admin(&mut self, env: &mut EscrowEnv, new_admin: &Address) -> (r: Result<(), EscrowError>)
        requires
            old(self)@.wf(),
        ensures
            final(self)@.wf(),
            r == crate::env::outcome(old(self)@.change_error(), ()),
            final(self)@ == match r {
                Err(_) => old(self)@,
                Ok(_) => EscrowModel { admin: Some(*new_admin), ..old(self)@ },
            },
            crate::env::pays_nobody(old(env)@, final(env)@),
            r is Ok ==> final(self)@.admin == Some(*new_admin) && final(self)@.paused == old(self)@.paused,
            final(env)@ == match r {
                Err(_) => admin_auth(old(self)@, old(env)@),
                Ok(_) => admin_auth(old(self)@, old(env)@).event(EscrowEvent::AdminTransferred { new_admin: *new_admin }),
            },
    {
        self.require_admin(env)?;
        self.require_unguarded()?;
        self.admin = Some(*new_admin);
        env.event(EscrowEvent::AdminTransferred { new_admin: *new_admin });
        Ok(())
    }

    /// The administrator.
    pub fn get_admin(&self) -> (r: Result<Address, EscrowError>)
        ensures
            r == crate::env::outcome(self@.admin_error(), self@.admin->0),
    {
        match self.admin {
            Some(admin) => Ok(admin),
            None => Err(EscrowError::NotInitialized),
        }
    }

    /// Whether the contract's work is stopped.
    pub fn is_paused(&self) -> (r: bool)
        ensures
            r == self@.paused,
    {
        self.paused
    }

    /// The version of the contract's code.
    pub fn get_version(&self) -> (r: u32)
        ensures
            r == self@.version,
    {
        self.version
    }
}

impl PaymentEscrowAutomation {
    /// The contract before it is set up.
    pub fn new() -> (r: PaymentEscrowAutomation)
        ensures
            r@ == (EscrowModel {
                admin: None,
                paused: false,
                version: 1,
                guard_held: false,
                counter: 0,
                confirmers: Set::<Address>::empty(),
                escrows: Map::<u64, PaymentEscrow>::empty(),
            }),
            r@.wf(),
            r@.sequential(),
    {
        PaymentEscrowAutomation {
            admin: None,
            paused: false,
            version: 1,
            guard_held: false,
            counter: 0,
            confirmers: AddressSet::new(),
            escrows: Table::new(),
        }
    }

    /// Sets the contract up, once.
    pub fn initialize(&mut self, env: &mut EscrowEnv, admin: &Address) -> (r: Result<
        (),
        EscrowError,
    >)
        requires
            old(self)@.wf(),
        ensures
            final(self)@.wf(),
            r == crate::env::outcome(old(self)@.initialize_error(), ()),
            final(self)@ == match r {
                Err(_) => old(self)@,
                Ok(_) => EscrowModel {
                    admin: Some(*admin),
                    paused: false,
                    counter: 0,
                    version: 1,
                    ..old(self)@
                },
            },
            crate::env::pays_nobody(old(env)@, final(env)@),
            r is Ok ==> ({
                let m = final(self)@;
                &&& m.admin == Some(*admin) && !m.paused && m.counter == 0 && m.version == 1
                &&& m.initialize_error() is Some
            }),
            final(env)@ == match r {
                Err(_) => if old(self)@.admin is Some {
                    old(env)@
                } else {
                    old(env)@.auth(*admin)
                },
                Ok(_) => old(env)@.auth(*admin).emit(Effect::ExtendInstance).event(
                    EscrowEvent::Initialized { admin: *admin },
                ),
            },
    {
        if self.admin.is_some() {
            return Err(EscrowError::AlreadyInitialized);
        }
        env.require_auth(admin);
        self.require_unguarded()?;
        self.admin = Some(*admin);
        self.paused = false;
        self.counter = 0;
        self.version = 1;
        env.emit(Effect::ExtendInstance);
        env.event(EscrowEvent::Initialized { admin: *admin });
        Ok(())
    }

    /// Authorises an address to confirm milestones.
    pub fn add_confirmer(&mut self, env: &mut EscrowEnv, confirmer: &Address) -> (r: Result<
        (),
        EscrowError,
    >)
        requires
            old(self)@.wf(),
        ensures
            final(self)@.wf(),
            r == crate::env::outcome(old(self)@.add_confirmer_error(*confirmer), ()),
            final(self)@ == match r {
                Err(_) => old(self)@,
                Ok(_) => EscrowModel {
                    confirmers: old(self)@.confirmers.insert(*confirmer),
                    ..old(self)@
                },
            },
            crate::env::pays_nobody(old(env)@, final(env)@),
            r is Ok ==> forall|who: Address|
                #[trigger] final(self)@.confirmers.contains(who) == (who == *confirmer
                    || old(self)@.confirmers.contains(who)),
            final(env)@ == match r {
                Err(_) => admin_auth(old(self)@, old(env)@),
                Ok(_) => admin_auth(old(self)@, old(env)@).emit(Effect::ExtendInstance).emit(
                    Effect::ExtendEntry(DataKey::Confirmer(*confirmer)),
                ).event(EscrowEvent::ConfirmerAdded { confirmer: *confirmer }),
            },
    {
        self.require_admin(env)?;
        if self.confirmers.contains(confirmer) {
            return Err(EscrowError::ConfirmerAlreadyAdded);
        }
        self.require_unguarded()?;
        self.confirmers.insert(*confirmer);
        env.emit(Effect::ExtendInstance);
        env.emit(Effect::ExtendEntry(DataKey::Confirmer(*confirmer)));
        env.event(EscrowEvent::ConfirmerAdded { confirmer: *confirmer });
        Ok(())
    }

    /// Ends a confirmer's authorisation.
    pub fn remove_confirmer(&mut self, env: &mut EscrowEnv, confirmer: &Address) -> (r: Result<
        (),
        EscrowError,
    >)
        requires
            old(self)@.wf(),
        ensures
            final(self)@.wf(),
            r == crate::env::outcome(old(self)@.remove_confirmer_error(*confirmer), ()),
            final(self)@ == match r {
                Err(_) => old(self)@,
                Ok(_) => EscrowModel {
                    confirmers: old(self)@.confirmers.remove(*confirmer),
                    ..old(self)@
                },
            },
            crate::env::pays_nobody(old(env)@, final(env)@),
            r is Ok ==> forall|who: Address|
                #[trigger] final(self)@.confirmers.contains(who) == (who != *confirmer
                    && old(self)@.confirmers.contains(who)),
            final(env)@ == match r {
                Err(_) => admin_auth(old(self)@, old(env)@),
                Ok(_) => admin_auth(old(self)@, old(env)@).emit(Effect::ExtendInstance).event(
                    EscrowEvent::ConfirmerRemoved { confirmer: *confirmer },
                ),
            },
    {
        self.require_admin(env)?;
        if !self.confirmers.contains(confirmer) {
            return Err(EscrowError::ConfirmerNotFound);
        }
        self.require_unguarded()?;
        self.confirmers.remove(confirmer);
        env.emit(Effect::ExtendInstance);
        env.event(EscrowEvent::ConfirmerRemoved { confirmer: *confirmer });
        Ok(())
    }

    /// Locks the buyer's funds and returns the new escrow's identifier.
    pub fn lock_funds(
        &mut self,
        env: &mut EscrowEnv,
        buyer: &Address,
        seller: &Address,
        token: &Address,
        amount: i128,
        reference: Bytes,
        release_deadline: u32,
    ) -> (r: Result<u64, EscrowError>)
        requires
            old(self)@.wf(),
            old(self)@.lock_error(amount as int) is None ==> old(self)@.counter < u64::MAX,
        ensures
            final(self)@.wf(),
            old(self)@.sequential() ==> final(self)@.sequential(),
            r == crate::env::outcome(old(self)@.lock_error(amount as int), old(self)@.counter),
            final(self)@ == match r {
                Err(_) => old(self)@,
                Ok(_) => old(self)@.locked(
                    *buyer,
                    *seller,
                    *token,
                    amount,
                    reference,
                    release_deadline,
                    old(env)@.sequence,
                ),
            },
            match r {
                Ok(_) => crate::env::pays(
                    old(env)@,
                    final(env)@,
                    *token,
                    *buyer,
                    old(env)@.contract,
                    amount as int,
                ),
                Err(_) => crate::env::pays_nobody(old(env)@, final(env)@),
            },
            final(env)@ == match r {
                Err(_) => caller_auth(old(self)@, old(env)@, *buyer),
                Ok(id) => guarded_save(old(env)@.auth(*buyer), id).transfer(
                    *token,
                    *buyer,
                    old(env)@.contract,
                    amount,
                ).emit(Effect::Unlock).event(
                    EscrowEvent::Locked {
                        escrow_id: id,
                        buyer: *buyer,
                        seller: *seller,
                        amount,
                        release_deadline,
                    },
                ),
            },
    {
        if self.paused {
            return Err(EscrowError::ContractPaused);
        }
        env.require_auth(buyer);
        if amount <= 0 {
            return Err(EscrowError::InvalidAmount);
        }
        self.require_unguarded()?;
        let escrow_id: u64 = self.counter;
        self.counter = self.counter + 1;
        let escrow = PaymentEscrow {
            id: escrow_id,
            buyer: *buyer,
            seller: *seller,
            token: *token,
            amount,
            reference,
            created_ledger: env.sequence,
            release_deadline,
            milestone_confirmed: false,
            state: EscrowState::Locked,
            resolution_note: Bytes::new(),
        };
        let contract = env.contract;
        env.emit(Effect::ExtendInstance);
        env.emit(Effect::Lock);
        self.escrows.set(escrow_id, escrow);
        env.emit(Effect::ExtendEntry(DataKey::Escrow(escrow_id)));
        env.transfer(token, buyer, &contract, amount);
        env.emit(Effect::Unlock);
        env.event(
            EscrowEvent::Locked {
                escrow_id,
                buyer: *buyer,
                seller: *seller,
                amount,
                release_deadline,
            },
        );
        Ok(escrow_id)
    }

    /// The locked escrow under the identifier.
    fn load_locked(&self, escrow_id: u64) -> (r: Result<&PaymentEscrow, EscrowError>)
        ensures
            match r {
                Ok(e) => self@.stage_error(escrow_id, EscrowState::Locked) is None && *e
                    == self@.escrows[escrow_id],
                Err(e) => self@.stage_error(escrow_id, EscrowState::Locked) == Some(e),
            },
    {
        match self.escrows.get(&escrow_id) {
            None => Err(EscrowError::EscrowNotFound),
            Some(escrow) => {
                if escrow.state != EscrowState::Locked {
                    return Err(EscrowError::NotLocked);
                }
                Ok(escrow)
            },
        }
    }

    /// Pays the escrow's funds to the destination and moves the escrow to the
    /// given stage.
    fn settle(
        &mut self,
        env: &mut EscrowEnv,
        escrow_id: u64,
        state: EscrowState,
        dest: &Address,
    ) -> (r: i128)
        requires
            old(self)@.wf(),
            old(self)@.escrows.contains_key(escrow_id),
        ensures
            r == old(self)@.escrows[escrow_id].amount,
            final(self)@ == old(self)@.put(
                escrow_id,
                in_state(old(self)@.escrows[escrow_id], state),
            ),
            final(env)@ == guarded_payment(
                old(env)@,
                old(self)@.escrows[escrow_id],
                *dest,
            ),
    {
        let mut escrow = self.escrows.take(&escrow_id).unwrap();
        escrow.state = state;
        let contract = env.contract;
        let token = escrow.token;
        let amount: i128 = escrow.amount;
        env.emit(Effect::ExtendInstance);
        env.emit(Effect::Lock);
        self.escrows.set(escrow_id, escrow);
        assert(self@.escrows =~= old(self)@.escrows.insert(
            escrow_id,
            in_state(old(self)@.escrows[escrow_id], state),
        ));
        env.emit(Effect::ExtendEntry(DataKey::Escrow(escrow_id)));
        env.transfer(&token, &contract, dest, amount);
        env.emit(Effect::Unlock);
        amount
    }

    /// Confirms that the milestone of a locked escrow was completed. Only a
    /// confirmer may do so.
    pub fn confirm_milestone(
        &mut self,
        env: &mut EscrowEnv,
        confirmer: &Address,
        escrow_id: u64,
    ) -> (r: Result<(), EscrowError>)
        requires
            old(self)@.wf(),
        ensures
            final(self)@.wf(),
            old(self)@.sequential() ==> final(self)@.sequential(),
            r == crate::env::outcome(old(self)@.confirm_error(*confirmer, escrow_id), ()),
            final(self)@ == match r {
                Err(_) => old(self)@,
                Ok(_) => old(self)@.put(
                    escrow_id,
                    PaymentEscrow {
                        milestone_confirmed: true,
                        ..old(self)@.escrows[escrow_id]
                    },
                ),
            },
            crate::env::pays_nobody(old(env)@, final(env)@),
            r is Ok ==> ({
                &&& forall|t: int| #[trigger] final(self)@.release_error(escrow_id, t) is None
                &&& forall|who: Address| #[trigger] final(self)@.refund_error(who, escrow_id) is Some
                &&& final(self)@.escrows[escrow_id].amount == old(self)@.escrows[escrow_id].amount
            }),
            final(env)@ == match r {
                Err(_) => caller_auth(old(self)@, old(env)@, *confirmer),
                Ok(_) => guarded_save(old(env)@.auth(*confirmer), escrow_id).emit(
                    Effect::Unlock,
                ).event(
                    EscrowEvent::MilestoneConfirmed { escrow_id, confirmer: *confirmer },
                ),
            },
    {
        if self.paused {
            return Err(EscrowError::ContractPaused);
        }
        env.require_auth(confirmer);
        if !self.confirmers.contains(confirmer) {
            return Err(EscrowError::Unauthorized);
        }
        let escrow = self.load_locked(escrow_id)?;
        if escrow.milestone_confirmed {
            return Err(EscrowError::AlreadyConfirmed);
        }
        self.require_unguarded()?;
        let mut escrow = self.escrows.take(&escrow_id).unwrap();
        escrow.milestone_confirmed = true;
        env.emit(Effect::ExtendInstance);
        env.emit(Effect::Lock);
        self.escrows.set(escrow_id, escrow);
        assert(self@.escrows =~= old(self)@.escrows.insert(
            escrow_id,
            PaymentEscrow { milestone_confirmed: true, ..old(self)@.escrows[escrow_id] },
        ));
        env.emit(Effect::ExtendEntry(DataKey::Escrow(escrow_id)));
        env.emit(Effect::Unlock);
        env.event(EscrowEvent::MilestoneConfirmed { escrow_id, confirmer: *confirmer });
        Ok(())
    }

    /// Releases the funds of a locked escrow to the seller. Anyone may do so
    /// once the milestone was confirmed or the deadline has been reached.
    pub fn auto_release(&mut self, env: &mut EscrowEnv, escrow_id: u64) -> (r: Result<
        (),
        EscrowError,
    >)
        requires
            old(self)@.wf(),
        ensures
            final(self)@.wf(),
            old(self)@.sequential() ==> final(self)@.sequential(),
            r == crate::env::outcome(
                old(self)@.release_error(escrow_id, old(env)@.sequence as int),
                (),
            ),
            final(self)@ == match r {
                Err(_) => old(self)@,
                Ok(_) => old(self)@.put(
                    escrow_id,
                    in_state(old(self)@.escrows[escrow_id], EscrowState::Released),
                ),
            },
            match r {
                Ok(_) => crate::env::pays(
                    old(env)@,
                    final(env)@,
                    old(self)@.escrows[escrow_id].token,
                    old(env)@.contract,
                    old(self)@.escrows[escrow_id].seller,
                    old(self)@.escrows[escrow_id].amount as int,
                ),
                Err(_) => crate::env::pays_nobody(old(env)@, final(env)@),
            },
            r is Ok ==> final(self)@.escrows[escrow_id].state == EscrowState::Released,
            final(env)@ == match r {
                Err(_) => old(env)@,
                Ok(_) => {
                    let e = old(self)@.escrows[escrow_id];
                    guarded_payment(old(env)@, e, e.seller).event(
                        EscrowEvent::Released { escrow_id, seller: e.seller, amount: e.amount },
                    )
                },
            },
    {
        if self.paused {
            return Err(EscrowError::ContractPaused);
        }
        let escrow = self.load_locked(escrow_id)?;
        let deadline_reached = escrow.release_deadline > 0 && env.sequence
            >= escrow.release_deadline;
        if !escrow.milestone_confirmed && !deadline_reached {
            if escrow.release_deadline == 0 {
                return Err(EscrowError::MilestoneNotConfirmed);
            } else {
                return Err(EscrowError::DeadlineNotReached);
            }
        }
        self.require_unguarded()?;
        let seller = escrow.seller;
        let amount: i128 = self.settle(env, escrow_id, EscrowState::Released, &seller);
        env.event(EscrowEvent::Released { escrow_id, seller, amount });
        Ok(())
    }

    /// Refunds the buyer of a locked escrow. Only the buyer may ask for it,
    /// and only before the milestone is confirmed.
    pub fn refund_request(
        &mut self,
        env: &mut EscrowEnv,
        buyer: &Address,
        escrow_id: u64,
    ) -> (r: Result<(), EscrowError>)
        requires
            old(self)@.wf(),
        ensures
            final(self)@.wf(),
            old(self)@.sequential() ==> final(self)@.sequential(),
            r == crate::env::outcome(old(self)@.refund_error(*buyer, escrow_id), ()),
            final(self)@ == match r {
                Err(_) => old(self)@,
                Ok(_) => old(self)@.put(
                    escrow_id,
                    in_state(old(self)@.escrows[escrow_id], EscrowState::Refunded),
                ),
            },
            match r {
                Ok(_) => crate::env::pays(
                    old(env)@,
                    final(env)@,
                    old(self)@.escrows[escrow_id].token,
                    old(env)@.contract,
                    old(self)@.escrows[escrow_id].buyer,
                    old(self)@.escrows[escrow_id].amount as int,
                ),
                Err(_) => crate::env::pays_nobody(old(env)@, final(env)@),
            },
            r is Ok ==> final(self)@.escrows[escrow_id].state == EscrowState::Refunded,
            final(env)@ == match r {
                Err(_) => caller_auth(old(self)@, old(env)@, *buyer),
                Ok(_) => {
                    let e = old(self)@.escrows[escrow_id];
                    guarded_payment(old(env)@.auth(*buyer), e, e.buyer).event(
                        EscrowEvent::Refunded { escrow_id, buyer: *buyer, amount: e.amount },
                    )
                },
            },
    {
        if self.paused {
            return Err(EscrowError::ContractPaused);
        }
        env.require_auth(buyer);
        let escrow = self.load_locked(escrow_id)?;
        if escrow.buyer != *buyer {
            return Err(EscrowError::Unauthorized);
        }
        if escrow.milestone_confirmed {
            return Err(EscrowError::AlreadyConfirmed);
        }
        self.require_unguarded()?;
        let amount: i128 = self.settle(env, escrow_id, EscrowState::Refunded, buyer);
        env.event(EscrowEvent::Refunded { escrow_id, buyer: *buyer, amount });
        Ok(())
    }

    /// Opens a dispute over a locked escrow. Only the buyer or the seller may
    /// do so.
    pub fn open_dispute(
        &mut self,
        env: &mut EscrowEnv,
        caller: &Address,
        escrow_id: u64,
    ) -> (r: Result<(), EscrowError>)
        requires
            old(self)@.wf(),
        ensures
            final(self)@.wf(),
            old(self)@.sequential() ==> final(self)@.sequential(),
            r == crate::env::outcome(old(self)@.dispute_error(*caller, escrow_id), ()),
            final(self)@ == match r {
                Err(_) => old(self)@,
                Ok(_) => old(self)@.put(
                    escrow_id,
                    in_state(old(self)@.escrows[escrow_id], EscrowState::Disputed),
                ),
            },
            crate::env::pays_nobody(old(env)@, final(env)@),
            r is Ok ==> ({
                &&& forall|t: int| #[trigger] final(self)@.release_error(escrow_id, t) is Some
                &&& forall|who: Address| #[trigger] final(self)@.refund_error(who, escrow_id) is Some
                &&& final(self)@.admin is Some ==> final(self)@.resolve_error(escrow_id) is None
            }),
            final(env)@ == match r {
                Err(_) => caller_auth(old(self)@, old(env)@, *caller),
                Ok(_) => guarded_save(old(env)@.auth(*caller), escrow_id).emit(
                    Effect::Unlock,
                ).event(EscrowEvent::Disputed { escrow_id, caller: *caller }),
            },
    {
        if self.paused {
            return Err(EscrowError::ContractPaused);
        }
        env.require_auth(caller);
        let escrow = self.load_locked(escrow_id)?;
        if *caller != escrow.buyer && *caller != escrow.seller {
            return Err(EscrowError::Unauthorized);
        }
        self.require_unguarded()?;
        let mut escrow = self.escrows.take(&escrow_id).unwrap();
        escrow.state = EscrowState::Disputed;
        env.emit(Effect::ExtendInstance);
        env.emit(Effect::Lock);
        self.escrows.set(escrow_id, escrow);
        assert(self@.escrows =~= old(self)@.escrows.insert(
            escrow_id,
            in_state(old(self)@.escrows[escrow_id], EscrowState::Disputed),
        ));
        env.emit(Effect::ExtendEntry(DataKey::Escrow(escrow_id)));
        env.emit(Effect::Unlock);
        env.event(EscrowEvent::Disputed { escrow_id, caller: *caller });
        Ok(())
    }

    /// Resolves a dispute for the seller or for the buyer. Only the
    /// administrator may do so.
    pub fn resolve_dispute(
        &mut self,
        env: &mut EscrowEnv,
        escrow_id: u64,
        release_to_seller: bool,
        note: Bytes,
    ) -> (r: Result<(), EscrowError>)
        requires
            old(self)@.wf(),
        ensures
            final(self)@.wf(),
            old(self)@.sequential() ==> final(self)@.sequential(),
            r == crate::env::outcome(old(self)@.resolve_error(escrow_id), ()),
            match r {
                Ok(_) => crate::env::pays(
                    old(env)@,
                    final(env)@,
                    old(self)@.escrows[escrow_id].token,
                    old(env)@.contract,
                    if release_to_seller {
                        old(self)@.escrows[escrow_id].seller
                    } else {
                        old(self)@.escrows[escrow_id].buyer
                    },
                    old(self)@.escrows[escrow_id].amount as int,
                ),
                Err(_) => crate::env::pays_nobody(old(env)@, final(env)@),
            },
            r is Ok ==> final(self)@.escrows[escrow_id].state == if release_to_seller {
                EscrowState::Released
            } else {
                EscrowState::Refunded
            },
            ({
                let e = old(self)@.escrows[escrow_id];
                let dest = if release_to_seller {
                    e.seller
                } else {
                    e.buyer
                };
                let state = if release_to_seller {
                    EscrowState::Released
                } else {
                    EscrowState::Refunded
                };
                &&& final(self)@ == match r {
                    Err(_) => old(self)@,
                    Ok(_) => old(self)@.put(
                        escrow_id,
                        PaymentEscrow { state, resolution_note: note, ..e },
                    ),
                }
                &&& final(env)@ == match r {
                    Err(_) => if old(self)@.paused {
                        old(env)@
                    } else {
                        admin_auth(old(self)@, old(env)@)
                    },
                    Ok(_) => guarded_payment(admin_auth(old(self)@, old(env)@), e, dest).event(
                        EscrowEvent::Resolved {
                            escrow_id,
                            release_to_seller,
                            dest,
                            amount: e.amount,
                        },
                    ),
                }
            }),
            r is Ok ==> final(self)@.escrows[escrow_id].resolution_note == note && final(self)@.resolve_error(escrow_id) == Some(EscrowError::NotDisputed),
    {
        if self.paused {
            return Err(EscrowError::ContractPaused);
        }
        self.require_admin(env)?;
        let (state, dest) = match self.escrows.get(&escrow_id) {
            None => {
                return Err(EscrowError::EscrowNotFound);
            },
            Some(escrow) => {
                if escrow.state != EscrowState::Disputed {
                    return Err(EscrowError::NotDisputed);
                }
                if release_to_seller {
                    (EscrowState::Released, escrow.seller)
                } else {
                    (EscrowState::Refunded, escrow.buyer)
                }
            },
        };
        self.require_unguarded()?;
        let amount: i128 = self.settle(env, escrow_id, state, &dest);
        let mut escrow = self.escrows.take(&escrow_id).unwrap();
        escrow.resolution_note = note;
        self.escrows.set(escrow_id, escrow);
        assert(self@.escrows =~= old(self)@.escrows.insert(
            escrow_id,
            PaymentEscrow { state, resolution_note: note, ..old(self)@.escrows[escrow_id] },
        ));
        env.event(EscrowEvent::Resolved { escrow_id, release_to_seller, dest, amount });
        Ok(())
    }

    /// The escrow under the identifier.
    pub fn get_escrow(&self, escrow_id: u64) -> (r: Result<&PaymentEscrow, EscrowError>)
        ensures
            match r {
                Ok(e) => self@.escrows.contains_key(escrow_id) && *e == self@.escrows[escrow_id],
                Err(e) => !self@.escrows.contains_key(escrow_id) && e
                    == EscrowError::EscrowNotFound,
            },
    {
        match self.escrows.get(&escrow_id) {
            Some(escrow) => Ok(escrow),
            None => Err(EscrowError::EscrowNotFound),
        }
    }

    /// How many escrows were made.
    pub fn escrow_count(&self) -> (r: u64)
        ensures
            r == self@.counter,
    {
        self.counter
    }

    /// Whether the address may confirm milestones.
    pub fn is_confirmer(&self, address: &Address) -> (r: bool)
        ensures
            r == self@.confirmers.contains(*address),
    {
        self.confirmers.contains(address)
    }
}

/// A released or refunded escrow is final: no call changes it or pays its
/// funds again.
pub proof fn law_settled_is_final(m: EscrowModel, id: u64, who: Address, now: int)
    requires
        m.escrows.contains_key(id),
        !is_open(m.escrows[id]),
    ensures
        m.confirm_error(who, id) is Some,
        m.release_error(id, now) is Some,
        m.refund_error(who, id) is Some,
        m.dispute_error(who, id) is Some,
        m.resolve_error(id) is Some,
{
}

/// While a call is in progress every other call that would change something
/// is refused.
pub proof fn law_guard_refuses_every_call(
    m: EscrowModel,
    id: u64,
    who: Address,
    amount: int,
    now: int,
)
    requires
        m.guard_held,
    ensures
        m.initialize_error() is Some,
        m.change_error() is Some,
        m.add_confirmer_error(who) is Some,
        m.remove_confirmer_error(who) is Some,
        m.lock_error(amount) is Some,
        m.confirm_error(who, id) is Some,
        m.release_error(id, now) is Some,
        m.refund_error(who, id) is Some,
        m.dispute_error(who, id) is Some,
        m.resolve_error(id) is Some,
{
}

/// While the contract is paused no escrow can be made or changed.
pub proof fn law_pause_refuses_every_call(
    m: EscrowModel,
    id: u64,
    who: Address,
    amount: int,
    now: int,
)
    requires
        m.paused,
    ensures
        m.lock_error(amount) == Some(EscrowError::ContractPaused),
        m.confirm_error(who, id) == Some(EscrowError::ContractPaused),
        m.release_error(id, now) == Some(EscrowError::ContractPaused),
        m.refund_error(who, id) == Some(EscrowError::ContractPaused),
        m.dispute_error(who, id) == Some(EscrowError::ContractPaused),
        m.resolve_error(id) == Some(EscrowError::ContractPaused),
{
}

/// Locking takes a positive amount and a contract that is not paused.
pub proof fn law_lock_conditions(m: EscrowModel, amount: int)
    ensures
        m.lock_error(amount) is None <==> !m.paused && !m.guard_held && amount > 0,
        !m.paused && amount <= 0 ==> m.lock_error(amount) == Some(EscrowError::InvalidAmount),
        !m.paused && amount > 0 && m.guard_held ==> m.lock_error(amount) == Some(
            EscrowError::Reentrant,
        ),
{
}

/// A new escrow is locked on the given terms under the identifier that was
/// next, with its milestone open. No other escrow changes.
pub proof fn law_lock_terms(
    m: EscrowModel,
    buyer: Address,
    seller: Address,
    token: Address,
    amount: i128,
    reference: Bytes,
    release_deadline: u32,
    now: u32,
    other: u64,
)
    requires
        m.counter < u64::MAX,
    ensures
        ({
            let after = m.locked(buyer, seller, token, amount, reference, release_deadline, now);
            let e = after.escrows[m.counter];
            &&& after.escrows.contains_key(m.counter)
            &&& after.counter == m.counter + 1
            &&& e.id == m.counter
            &&& e.buyer == buyer
            &&& e.seller == seller
            &&& e.token == token
            &&& e.amount == amount
            &&& e.reference == reference
            &&& e.created_ledger == now
            &&& e.release_deadline == release_deadline
            &&& !e.milestone_confirmed
            &&& e.state == EscrowState::Locked
            &&& e.resolution_note == Bytes::empty()
            &&& other != m.counter ==> after.escrows.contains_key(other) == m.escrows.contains_key(
                other,
            ) && after.escrows[other] == m.escrows[other]
            &&& after.admin == m.admin
            &&& after.paused == m.paused
            &&& after.version == m.version
            &&& after.confirmers == m.confirmers
            &&& after.guard_held == m.guard_held
        }),
{
}

/// What each call asks of an escrow and of its caller while the contract works
/// and no call is in progress: a confirmer confirms the open milestone of a
/// locked escrow; anyone releases a locked escrow whose milestone is confirmed
/// or whose deadline, if it has one, is reached; the buyer is refunded a locked
/// escrow whose milestone is open; a party disputes a locked escrow; and the
/// administrator resolves a disputed one.
pub proof fn law_escrow_conditions(m: EscrowModel, id: u64, who: Address, now: int)
    requires
        !m.paused,
        !m.guard_held,
    ensures
        ({
            let e = m.escrows[id];
            let known = m.escrows.contains_key(id);
            let locked = known && e.state == EscrowState::Locked;
            let reached = e.release_deadline != 0 && e.release_deadline <= now;
            &&& m.confirm_error(who, id) is None <==> m.confirmers.contains(who) && locked
                && !e.milestone_confirmed
            &&& m.release_error(id, now) is None <==> locked && (e.milestone_confirmed || reached)
            &&& m.refund_error(who, id) is None <==> locked && who == e.buyer
                && !e.milestone_confirmed
            &&& m.dispute_error(who, id) is None <==> locked && (who == e.buyer || who == e.seller)
            &&& m.resolve_error(id) is None <==> m.admin is Some && known && e.state
                == EscrowState::Disputed
        }),
{
}

/// Which failure a call reports.
pub proof fn law_escrow_failures(m: EscrowModel, id: u64, who: Address, now: int)
    requires
        !m.paused,
        m.admin is Some,
    ensures
        ({
            let e = m.escrows[id];
            let known = m.escrows.contains_key(id);
            let locked = known && e.state == EscrowState::Locked;
            &&& !m.confirmers.contains(who) ==> m.confirm_error(who, id) == Some(
                EscrowError::Unauthorized,
            )
            &&& !known ==> m.release_error(id, now) == Some(EscrowError::EscrowNotFound)
                && m.refund_error(who, id) == Some(EscrowError::EscrowNotFound)
                && m.dispute_error(who, id) == Some(EscrowError::EscrowNotFound)
                && m.resolve_error(id) == Some(EscrowError::EscrowNotFound) && (
            m.confirmers.contains(who) ==> m.confirm_error(who, id) == Some(
                EscrowError::EscrowNotFound,
            ))
            &&& known && !locked ==> m.release_error(id, now) == Some(EscrowError::NotLocked)
                && m.refund_error(who, id) == Some(EscrowError::NotLocked) && m.dispute_error(
                who,
                id,
            ) == Some(EscrowError::NotLocked) && (m.confirmers.contains(who) ==> m.confirm_error(
                who,
                id,
            ) == Some(EscrowError::NotLocked))
            &&& known && e.state != EscrowState::Disputed ==> m.resolve_error(id) == Some(
                EscrowError::NotDisputed,
            )
            &&& locked && m.confirmers.contains(who) && e.milestone_confirmed ==> m.confirm_error(
                who,
                id,
            ) == Some(EscrowError::AlreadyConfirmed)
            &&& locked && !e.milestone_confirmed && e.release_deadline == 0 ==> m.release_error(
                id,
                now,
            ) == Some(EscrowError::MilestoneNotConfirmed)
            &&& locked && !e.milestone_confirmed && e.release_deadline > now ==> m.release_error(
                id,
                now,
            ) == Some(if e.release_deadline == 0 {
                EscrowError::MilestoneNotConfirmed
            } else {
                EscrowError::DeadlineNotReached
            })
            &&& locked && who != e.buyer ==> m.refund_error(who, id) == Some(
                EscrowError::Unauthorized,
            )
            &&& locked && who == e.buyer && e.milestone_confirmed ==> m.refund_error(who, id)
                == Some(EscrowError::AlreadyConfirmed)
            &&& locked && who != e.buyer && who != e.seller ==> m.dispute_error(who, id) == Some(
                EscrowError::Unauthorized,
            )
        }),
{
}

/// Only an administrator sets confirmers and settings, and the contract is set
/// up once.
pub proof fn law_admin_conditions(m: EscrowModel, who: Address)
    requires
        !m.guard_held,
    ensures
        m.initialize_error() == if m.admin is Some {
            Some(EscrowError::AlreadyInitialized)
        } else {
            None
        },
        m.change_error() == if m.admin is Some {
            None
        } else {
            Some(EscrowError::NotInitialized)
        },
        m.admin_error() == m.change_error(),
        m.add_confirmer_error(who) == if m.admin is None {
            Some(EscrowError::NotInitialized)
        } else if m.confirmers.contains(who) {
            Some(EscrowError::ConfirmerAlreadyAdded)
        } else {
            None
        },
        m.remove_confirmer_error(who) == if m.admin is None {
            Some(EscrowError::NotInitialized)
        } else if m.confirmers.contains(who) {
            None
        } else {
            Some(EscrowError::ConfirmerNotFound)
        },
{
}

/// Storing an escrow sets the guard and extends the life of the instance and of
/// the escrow's own entry; paying it clears the guard after the transfer.
pub proof fn law_steps_of_a_payment(
    e: crate::env::EnvModel<DataKey, EscrowEvent>,
    escrow: PaymentEscrow,
    dest: Address,
)
    ensures
        guarded_save(e, escrow.id).log == e.log.push(Effect::ExtendInstance).push(
            Effect::Lock,
        ).push(Effect::ExtendEntry(DataKey::Escrow(escrow.id))),
        guarded_payment(e, escrow, dest).log == guarded_save(e, escrow.id).log.push(
            Effect::Transfer {
                token: escrow.token,
                from: e.contract,
                to: dest,
                amount: escrow.amount,
            },
        ).push(Effect::Unlock),
        guarded_payment(e, escrow, dest).auths == e.auths,
        guarded_payment(e, escrow, dest).contract == e.contract,
{
}

/// Replacing an escrow's record replaces that record alone, and a new stage
/// leaves the terms of the escrow as they were.
pub proof fn law_records_are_replaced_alone(
    m: EscrowModel,
    id: u64,
    e: PaymentEscrow,
    state: EscrowState,
    other: u64,
)
    ensures
        m.put(id, e).escrows[id] == e,
        m.put(id, e).escrows.contains_key(id),
        other != id ==> m.put(id, e).escrows.contains_key(other) == m.escrows.contains_key(other)
            && m.put(id, e).escrows[other] == m.escrows[other],
        (EscrowModel { escrows: m.escrows, ..m.put(id, e) }) == m,
        in_state(e, state).state == state,
        (PaymentEscrow { state: e.state, ..in_state(e, state) }) == e,
{
}

/// Which authorizations are demanded: the caller's while the contract is not
/// paused, the administrator's where there is one. Nothing is moved by it.
pub proof fn law_authorization_is_demanded(
    m: EscrowModel,
    e: crate::env::EnvModel<DataKey, EscrowEvent>,
    who: Address,
    id: u64,
)
    ensures
        !m.paused ==> caller_auth(m, e, who).auths == e.auths.push(who),
        m.paused ==> caller_auth(m, e, who).auths == e.auths,
        caller_auth(m, e, who).log == e.log,
        m.admin matches Some(admin) ==> admin_auth(m, e).auths == e.auths.push(admin),
        m.admin is None ==> admin_auth(m, e).auths == e.auths,
        admin_auth(m, e).log == e.log,
        guarded_save(e, id).auths == e.auths,
{
}

/// A confirmed milestone lets anyone release the funds at any time, and bars
/// the refund.
pub proof fn law_milestone_opens_release(m: EscrowModel, confirmer: Address, id: u64, now: int)
    requires
        m.confirm_error(confirmer, id) is None,
    ensures
        ({
            let after = m.put(
                id,
                PaymentEscrow { milestone_confirmed: true, ..m.escrows[id] },
            );
            after.release_error(id, now) is None && after.refund_error(m.escrows[id].buyer, id)
                == Some(EscrowError::AlreadyConfirmed)
        }),
{
}

/// A disputed escrow is released by nobody but the administrator, deadline or
/// not.
pub proof fn law_dispute_stops_automation(m: EscrowModel, caller: Address, id: u64, now: int)
    requires
        m.dispute_error(caller, id) is None,
        m.admin is Some,
    ensures
        ({
            let after = m.put(id, in_state(m.escrows[id], EscrowState::Disputed));
            after.release_error(id, now) == Some(EscrowError::NotLocked) && after.refund_error(
                caller,
                id,
            ) == Some(EscrowError::NotLocked) && after.resolve_error(id) is None
        }),
{
}

proof fn lemma_held_same(
    a: Map<u64, PaymentEscrow>,
    b: Map<u64, PaymentEscrow>,
    token: Address,
    n: nat,
)
    requires
        n <= u64::MAX,
        forall|id: u64|
            id < n ==> (#[trigger] a.contains_key(id)) == b.contains_key(id) && (a.contains_key(id)
                ==> is_open(a[id]) == is_open(b[id]) && a[id].token == b[id].token && a[id].amount
                == b[id].amount),
    ensures
        held(a, token, n) == held(b, token, n),
    decreases n,
{
    if n > 0 {
        lemma_held_same(a, b, token, (n - 1) as nat);
        let id = (n - 1) as u64;
        assert(a.contains_key(id) == b.contains_key(id));
    }
}

proof fn lemma_held_put(
    escrows: Map<u64, PaymentEscrow>,
    id: u64,
    e: PaymentEscrow,
    token: Address,
    n: nat,
)
    requires
        id < n <= u64::MAX,
        escrows.contains_key(id),
        escrows[id].token == e.token,
        escrows[id].amount == e.amount,
    ensures
        held(escrows.insert(id, e), token, n) == held(escrows, token, n) + if e.token == token {
            (if is_open(e) {
                e.amount as int
            } else {
                0
            }) - (if is_open(escrows[id]) {
                e.amount as int
            } else {
                0
            })
        } else {
            0
        },
    decreases n,
{
    let last = (n - 1) as u64;
    if last == id {
        lemma_held_same(escrows.insert(id, e), escrows, token, (n - 1) as nat);
    } else {
        lemma_held_put(escrows, id, e, token, (n - 1) as nat);
    }
}

/// Locking funds hands out an identifier that was not in use and adds the
/// amount to what the contract holds.
pub proof fn law_lock_adds_to_holdings(
    m: EscrowModel,
    buyer: Address,
    seller: Address,
    token: Address,
    amount: i128,
    reference: Bytes,
    release_deadline: u32,
    now: u32,
    of: Address,
)
    requires
        m.sequential(),
        m.counter < u64::MAX,
    ensures
        ({
            let after = m.locked(buyer, seller, token, amount, reference, release_deadline, now);
            &&& !m.escrows.contains_key(m.counter)
            &&& after.escrows.contains_key(m.counter)
            &&& after.counter == m.counter + 1
            &&& held(after.escrows, of, after.counter as nat) == held(
                m.escrows,
                of,
                m.counter as nat,
            ) + if of == token {
                amount as int
            } else {
                0
            }
        }),
{
    let after = m.locked(buyer, seller, token, amount, reference, release_deadline, now);
    lemma_held_same(after.escrows, m.escrows, of, m.counter as nat);
}

/// Settling an open escrow takes exactly its amount out of what the contract
/// holds, and a dispute takes nothing.
pub proof fn law_settling_takes_from_holdings(
    m: EscrowModel,
    id: u64,
    state: EscrowState,
    note: Bytes,
    of: Address,
)
    requires
        m.sequential(),
        m.escrows.contains_key(id),
        is_open(m.escrows[id]),
    ensures
        ({
            let e = m.escrows[id];
            let after = m.put(id, in_state(e, state));
            let resolved = m.put(id, PaymentEscrow { state, resolution_note: note, ..e });
            let taken = if of == e.token && !is_open(in_state(e, state)) {
                e.amount as int
            } else {
                0
            };
            &&& held(after.escrows, of, after.counter as nat) == held(
                m.escrows,
                of,
                m.counter as nat,
            ) - taken
            &&& held(resolved.escrows, of, resolved.counter as nat) == held(
                m.escrows,
                of,
                m.counter as nat,
            ) - taken
        }),
{
    let e = m.escrows[id];
    lemma_held_put(m.escrows, id, in_state(e, state), of, m.counter as nat);
    lemma_held_put(
        m.escrows,
        id,
        PaymentEscrow { state, resolution_note: note, ..e },
        of,
        m.counter as nat,
    );
}

/// Settling an escrow moves its amount out of the contract to the destination
/// and nothing else, and locking moves the amount in.
pub proof fn law_transfers_match_escrows(
    env: crate::env::EnvModel<DataKey, EscrowEvent>,
    escrow: PaymentEscrow,
    dest: Address,
    event: EscrowEvent,
    token: Address,
    who: Address,
)
    ensures
        ({
            let settled = guarded_payment(env, escrow, dest).event(event);
            let moved = if token == escrow.token {
                escrow.amount as int
            } else {
                0
            };
            &&& crate::env::sent(settled.log, token, who) == crate::env::sent(env.log, token, who)
                + if who == env.contract {
                moved
            } else {
                0
            }
            &&& crate::env::received(settled.log, token, who) == crate::env::received(
                env.log,
                token,
                who,
            ) + if who == dest {
                moved
            } else {
                0
            }
        }),
        ({
            let locked = guarded_save(env, escrow.id).transfer(
                escrow.token,
                escrow.buyer,
                env.contract,
                escrow.amount,
            ).emit(Effect::Unlock).event(event);
            let moved = if token == escrow.token {
                escrow.amount as int
            } else {
                0
            };
            &&& crate::env::sent(locked.log, token, who) == crate::env::sent(env.log, token, who)
                + if who == escrow.buyer {
                moved
            } else {
                0
            }
            &&& crate::env::received(locked.log, token, who) == crate::env::received(
                env.log,
                token,
                who,
            ) + if who == env.contract {
                moved
            } else {
                0
            }
        }),
{
    let one = env.emit(Effect::ExtendInstance);
    let two = one.emit(Effect::Lock);
    let saved = guarded_save(env, escrow.id);
    crate::env::lemma_moved(env.log, Effect::ExtendInstance, token, who);
    crate::env::lemma_moved(one.log, Effect::Lock, token, who);
    crate::env::lemma_moved(
        two.log,
        Effect::ExtendEntry(DataKey::Escrow(escrow.id)),
        token,
        who,
    );
    let out = saved.transfer(escrow.token, env.contract, dest, escrow.amount);
    crate::env::lemma_moved(
        saved.log,
        Effect::Transfer {
            token: escrow.token,
            from: env.contract,
            to: dest,
            amount: escrow.amount,
        },
        token,
        who,
    );
    crate::env::lemma_moved(out.log, Effect::Unlock, token, who);
    crate::env::lemma_moved(out.emit(Effect::Unlock).log, Effect::Event(event), token, who);
    let pulled = saved.transfer(escrow.token, escrow.buyer, env.contract, escrow.amount);
    crate::env::lemma_moved(
        saved.log,
        Effect::Transfer {
            token: escrow.token,
            from: escrow.buyer,
            to: env.contract,
            amount: escrow.amount,
        },
        token,
        who,
    );
    crate::env::lemma_moved(pulled.log, Effect::Unlock, token, who);
    crate::env::lemma_moved(pulled.emit(Effect::Unlock).log, Effect::Event(event), token, who);
}

/// Every call that moves funds sets the guard before and clears it after, so
/// no transfer happens outside the guard.
pub proof fn law_transfers_happen_under_guard(
    env: crate::env::EnvModel<DataKey, EscrowEvent>,
    escrow: PaymentEscrow,
    from: Address,
    to: Address,
    event: EscrowEvent,
)
    requires
        env.at_rest(),
    ensures
        guarded_payment(env, escrow, to).event(event).at_rest(),
        guarded_save(env, escrow.id).transfer(escrow.token, from, to, escrow.amount).emit(
            Effect::Unlock,
        ).event(event).at_rest(),
        guarded_save(env, escrow.id).emit(Effect::Unlock).event(event).at_rest(),
{
    let one = env.emit(Effect::ExtendInstance);
    let two = one.emit(Effect::Lock);
    let saved = guarded_save(env, escrow.id);
    crate::env::lemma_guard(env, Effect::ExtendInstance);
    crate::env::lemma_guard(one, Effect::Lock);
    crate::env::lemma_guard(two, Effect::ExtendEntry(DataKey::Escrow(escrow.id)));
    let paid = saved.transfer(escrow.token, env.contract, to, escrow.amount);
    crate::env::lemma_guard(
        saved,
        Effect::Transfer {
            token: escrow.token,
            from: env.contract,
            to,
            amount: escrow.amount,
        },
    );
    crate::env::lemma_guard(paid, Effect::Unlock);
    crate::env::lemma_guard(paid.emit(Effect::Unlock), Effect::Event(event));
    let pulled = saved.transfer(escrow.token, from, to, escrow.amount);
    crate::env::lemma_guard(
        saved,
        Effect::Transfer { token: escrow.token, from, to, amount: escrow.amount },
    );
    crate::env::lemma_guard(pulled, Effect::Unlock);
    crate::env::lemma_guard(pulled.emit(Effect::Unlock), Effect::Event(event));
    crate::env::lemma_guard(saved, Effect::Unlock);
    crate::env::lemma_guard(saved.emit(Effect::Unlock), Effect::Event(event));
}

/// The numbers under which callers see the values are fixed.
pub proof fn law_escrow_state_numbers(v: EscrowState)
    ensures
        v is Locked ==> v.number() == 1,
        v is Released ==> v.number() == 2,
        v is Refunded ==> v.number() == 3,
        v is Disputed ==> v.number() == 4,
{
}

/// The numbers under which callers see the values are fixed.
pub proof fn law_escrow_error_numbers(v: EscrowError)
    ensures
        v is AlreadyInitialized ==> v.number() == 1,
        v is NotInitialized ==> v.number() == 2,
        v is Unauthorized ==> v.number() == 3,
        v is ContractPaused ==> v.number() == 4,
        v is Reentrant ==> v.number() == 5,
        v is EscrowNotFound ==> v.number() == 6,
        v is NotLocked ==> v.number() == 7,
        v is NotDisputed ==> v.number() == 8,
        v is InvalidAmount ==> v.number() == 9,
        v is DeadlineNotReached ==> v.number() == 10,
        v is NoDeadlineConfigured ==> v.number() == 11,
        v is MilestoneNotConfirmed ==> v.number() == 12,
        v is AlreadyConfirmed ==> v.number() == 13,
        v is ConfirmerAlreadyAdded ==> v.number() == 14,
        v is ConfirmerNotFound ==> v.number() == 15,
{
}

/// The topics under which the events are announced are fixed.
pub proof fn law_escrow_event_topics(v: EscrowEvent)
    ensures
        v is Initialized ==> v.topic_names() == ("escrow_a"@, "init"@),
        v is ConfirmerAdded ==> v.topic_names() == ("escrow_a"@, "cfm_add"@),
        v is ConfirmerRemoved ==> v.topic_names() == ("escrow_a"@, "cfm_rm"@),
        v is Locked ==> v.topic_names() == ("escrow_a"@, "locked"@),
        v is MilestoneConfirmed ==> v.topic_names() == ("escrow_a"@, "milestone"@),
        v is Released ==> v.topic_names() == ("escrow_a"@, "released"@),
        v is Refunded ==> v.topic_names() == ("escrow_a"@, "refunded"@),
        v is Disputed ==> v.topic_names() == ("escrow_a"@, "disputed"@),
        v is Resolved ==> v.topic_names() == ("escrow_a"@, "resolved"@),
        v is Paused ==> v.topic_names() == ("escrow_a"@, "paused"@),
        v is Unpaused ==> v.topic_names() == ("escrow_a"@, "unpaused"@),
        v is AdminTransferred ==> v.topic_names() == ("escrow_a"@, "adm_xfer"@),
{
}

} // verus!
