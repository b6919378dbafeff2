//! Recovery of failed payments.
//!
//! A reporter opens a case for funds that the contract holds. The
//! administrator refunds the payer, retries the payment or escalates the
//! case. A case that stays pending past its expiry may be closed by anyone,
//! which refunds the payer.
use crate::address::Address;
use crate::address::Bytes;
use crate::address::BytesN;
use crate::env::Effect;
use crate::env::Env;
use crate::table::AddressSet;
use crate::table::Table;
use vstd::prelude::*;

verus! {

/// Ledgers before an unresolved case can be force-expired when nothing else
/// is configured (~7 days).
pub const DEFAULT_EXPIRY_LEDGERS: u32 = 120_960;

/// Keys of the persistent entries.
#[derive(Clone, Copy, Debug, PartialEq, Eq)]
pub enum DataKey {
    /// An authorised reporter.
    Reporter(Address),
    /// A recovery case.
    Case(u64),
}

/// What the administrator does with a case.
#[derive(Clone, Copy, Debug, PartialEq, Eq, Structural)]
pub enum Resolution {
    /// Return funds to the payer.
    Refund,
    /// Forward funds to the intended recipient.
    Retry,
    /// Flag for manual review, without token movement.
    Escalate,
}

impl Resolution {
    /// The number under which the choice is announced.
    pub open spec fn number(self) -> u32 {
        match self {
            Resolution::Refund => 1,
            Resolution::Retry => 2,
            Resolution::Escalate => 3,
        }
    }

    /// The number under which the choice is announced.
    pub fn code(&self) -> (r: u32)
        ensures
            r == self.number(),
    {
        match self {
            Resolution::Refund => 1,
            Resolution::Retry => 2,
            Resolution::Escalate => 3,
        }
    }
}

/// Status of a recovery case.
#[derive(Clone, Copy, Debug, PartialEq, Eq, Structural)]
pub enum CaseStatus {
    Pending,
    Refunded,
    Retried,
    Escalated,
    Expired,
}

impl CaseStatus {
    /// The number under which the status is announced.
    pub open spec fn number(self) -> u32 {
        match self {
            CaseStatus::Pending => 1,
            CaseStatus::Refunded => 2,
            CaseStatus::Retried => 3,
            CaseStatus::Escalated => 4,
            CaseStatus::Expired => 5,
        }
    }

    /// The number under which the status is announced.
    pub fn code(&self) -> (r: u32)
        ensures
            r == self.number(),
    {
        match self {
            CaseStatus::Pending => 1,
            CaseStatus::Refunded => 2,
            CaseStatus::Retried => 3,
            CaseStatus::Escalated => 4,
            CaseStatus::Expired => 5,
        }
    }
}

/// A failed-payment recovery case.
#[derive(Debug)]
pub struct RecoveryCase {
    pub id: u64,
    /// Address that reported the failure.
    pub reporter: Address,
    /// Original payer, who receives the refund.
    pub payer: Address,
    /// Intended recipient, who receives the funds of a retried payment.
    pub recipient: Address,
    /// Token contract address.
    pub token: Address,
    /// Amount held in custody by the contract.
    pub amount: i128,
    /// Opaque reference, such as the original payment's identifier.
    pub reference: Bytes,
    /// Ledger at which the case was created.
    pub created_ledger: u32,
    /// Ledger after which the case may be force-expired.
    pub expiry_ledger: u32,
    pub status: CaseStatus,
    /// Note added by the resolver.
    pub note: Bytes,
}

/// Failures of the recovery contract.
#[derive(Clone, Copy, Debug, PartialEq, Eq, Structural)]
pub enum RecoveryError {
    AlreadyInitialized,
    NotInitialized,
    Unauthorized,
    ContractPaused,
    Reentrant,
    CaseNotFound,
    CaseNotPending,
    CaseNotExpired,
    InvalidAmount,
    ReporterAlreadyAdded,
    ReporterNotFound,
}

impl RecoveryError {
    /// The number under which callers see the failure.
    pub open spec fn number(self) -> u32 {
        match self {
            RecoveryError::AlreadyInitialized => 1,
            RecoveryError::NotInitialized => 2,
            RecoveryError::Unauthorized => 3,
            RecoveryError::ContractPaused => 4,
            RecoveryError::Reentrant => 5,
            RecoveryError::CaseNotFound => 6,
            RecoveryError::CaseNotPending => 7,
            RecoveryError::CaseNotExpired => 8,
            RecoveryError::InvalidAmount => 9,
            RecoveryError::ReporterAlreadyAdded => 10,
            RecoveryError::ReporterNotFound => 11,
        }
    }

    /// The number under which callers see the failure.
    pub fn code(&self) -> (r: u32)
        ensures
            r == self.number(),
    {
        match self {
            RecoveryError::AlreadyInitialized => 1,
            RecoveryError::NotInitialized => 2,
            RecoveryError::Unauthorized => 3,
            RecoveryError::ContractPaused => 4,
            RecoveryError::Reentrant => 5,
            RecoveryError::CaseNotFound => 6,
            RecoveryError::CaseNotPending => 7,
            RecoveryError::CaseNotExpired => 8,
            RecoveryError::InvalidAmount => 9,
            RecoveryError::ReporterAlreadyAdded => 10,
            RecoveryError::ReporterNotFound => 11,
        }
    }
}

/// What the recovery contract announces.
#[derive(Debug)]
pub enum RecoveryEvent {
    Initialized { admin: Address },
    ReporterAdded { reporter: Address },
    ReporterRemoved { reporter: Address },
    Reported { case_id: u64, reporter: Address, payer: Address, recipient: Address, amount: i128, reference: Bytes },
    Resolved { case_id: u64, resolution: u32, status: u32 },
    Expired { case_id: u64, payer: Address, amount: i128 },
    ExpiryUpdated { expiry_ledgers: u32 },
    Paused,
    Unpaused,
    AdminTransferred { new_admin: Address },
}

impl RecoveryEvent {
    /// The two topics of the event.
    pub open spec fn topic_names(self) -> (Seq<char>, Seq<char>) {
        (
            "recovery"@,
            match self {
                RecoveryEvent::Initialized { .. } => "init"@,
                RecoveryEvent::ReporterAdded { .. } => "rptr_add"@,
                RecoveryEvent::ReporterRemoved { .. } => "rptr_rm"@,
                RecoveryEvent::Reported { .. } => "reported"@,
                RecoveryEvent::Resolved { .. } => "resolved"@,
                RecoveryEvent::Expired { .. } => "expired"@,
                RecoveryEvent::ExpiryUpdated { .. } => "exp_upd"@,
                RecoveryEvent::Paused => "paused"@,
                RecoveryEvent::Unpaused => "unpaused"@,
                RecoveryEvent::AdminTransferred { .. } => "adm_xfer"@,
            },
        )
    }

    /// The two topics of the event.
    pub fn topics(&self) -> (r: (&'static str, &'static str))
        ensures
            (r.0@, r.1@) == self.topic_names(),
    {
        let name = match self {
            RecoveryEvent::Initialized { .. } => "init",
            RecoveryEvent::ReporterAdded { .. } => "rptr_add",
            RecoveryEvent::ReporterRemoved { .. } => "rptr_rm",
            RecoveryEvent::Reported { .. } => "reported",
            RecoveryEvent::Resolved { .. } => "resolved",
            RecoveryEvent::Expired { .. } => "expired",
            RecoveryEvent::ExpiryUpdated { .. } => "exp_upd",
            RecoveryEvent::Paused => "paused",
            RecoveryEvent::Unpaused => "unpaused",
            RecoveryEvent::AdminTransferred { .. } => "adm_xfer",
        };
        ("recovery", name)
    }
}

/// The surroundings of a call of the recovery contract.
pub type RecoveryEnv = Env<DataKey, RecoveryEvent>;

/// The state of the recovery contract.
pub struct PaymentRecovery {
    pub admin: Option<Address>,
    pub paused: bool,
    pub version: u32,
    /// Whether a call that moves tokens is in progress.
    pub guard_held: bool,
    /// Identifier of the next case.
    pub counter: u64,
    /// Ledgers until a new case expires.
    pub expiry_ledgers: u32,
    pub reporters: AddressSet,
    pub cases: Table<u64, RecoveryCase>,
}

/// The mathematical value of the recovery contract's state.
#[verifier::ext_equal]
pub struct RecoveryModel {
    pub admin: Option<Address>,
    pub paused: bool,
    pub version: u32,
    pub guard_held: bool,
    pub counter: u64,
    pub expiry_ledgers: u32,
    pub reporters: Set<Address>,
    pub cases: Map<u64, RecoveryCase>,
}

impl View for PaymentRecovery {
    type V = RecoveryModel;

    open spec fn view(&self) -> RecoveryModel {
        RecoveryModel {
            admin: self.admin,
            paused: self.paused,
            version: self.version,
            guard_held: self.guard_held,
            counter: self.counter,
            expiry_ledgers: self.expiry_ledgers,
            reporters: self.reporters@,
            cases: self.cases@,
        }
    }
}

/// The status that a resolution leads to.
pub open spec fn status_of(resolution: Resolution) -> CaseStatus {
    match resolution {
        Resolution::Refund => CaseStatus::Refunded,
        Resolution::Retry => CaseStatus::Retried,
        Resolution::Escalate => CaseStatus::Escalated,
    }
}

/// Who receives the funds of a case under a resolution, if anyone does.
pub open spec fn destination(c: RecoveryCase, resolution: Resolution) -> Option<Address> {
    match resolution {
        Resolution::Refund => Some(c.payer),
        Resolution::Retry => Some(c.recipient),
        Resolution::Escalate => None,
    }
}

/// What the pending cases below `n` hold in the token.
pub open spec fn pending(cases: Map<u64, RecoveryCase>, token: Address, n: nat) -> int
    decreases n,
{
    if n == 0 {
        0
    } else {
        let id = (n - 1) as u64;
        pending(cases, token, (n - 1) as nat) + if cases.contains_key(id) && cases[id].status
            == CaseStatus::Pending && cases[id].token == token {
            cases[id].amount as int
        } else {
            0
        }
    }
}

impl RecoveryModel {
    /// Cases are numbered in sequence, stored under their own numbers, and
    /// hold something. Before the contract is set up there are neither
    /// reporters nor cases.
    pub open spec fn wf(self) -> bool {
        &&& forall|id: u64| #[trigger]
            self.cases.contains_key(id) ==> id < self.counter && self.cases[id].id == id
                && self.cases[id].amount > 0
        &&& self.admin is None ==> self.counter == 0 && forall|a: Address| !(
        #[trigger] self.reporters.contains(a))
    }

    /// Why an administrative call is refused, if it is.
    pub open spec fn admin_error(self) -> Option<RecoveryError> {
        match self.admin {
            Some(_) => None,
            None => Some(RecoveryError::NotInitialized),
        }
    }

    /// Why a reporter cannot be added, if not.
    pub open spec fn add_reporter_error(self, who: Address) -> Option<RecoveryError> {
        if self.admin is None {
            Some(RecoveryError::NotInitialized)
        } else if self.reporters.contains(who) {
            Some(RecoveryError::ReporterAlreadyAdded)
        } else {
            None
        }
    }

    /// Why a reporter cannot be removed, if not.
    pub open spec fn remove_reporter_error(self, who: Address) -> Option<RecoveryError> {
        if self.admin is None {
            Some(RecoveryError::NotInitialized)
        } else if !self.reporters.contains(who) {
            Some(RecoveryError::ReporterNotFound)
        } else {
            None
        }
    }

    /// Why a report is refused, if it is.
    pub open spec fn report_error(self, reporter: Address, amount: int) -> Option<RecoveryError> {
        if self.paused {
            Some(RecoveryError::ContractPaused)
        } else if !self.reporters.contains(reporter) {
            Some(RecoveryError::Unauthorized)
        } else if amount <= 0 {
            Some(RecoveryError::InvalidAmount)
        } else {
            None
        }
    }

    /// Why the case is not there to be closed, if it is not.
    pub open spec fn pending_error(self, id: u64) -> Option<RecoveryError> {
        if !self.cases.contains_key(id) {
            Some(RecoveryError::CaseNotFound)
        } else if self.cases[id].status != CaseStatus::Pending {
            Some(RecoveryError::CaseNotPending)
        } else {
            None
        }
    }

    /// Why a case cannot be resolved, if it cannot.
    pub open spec fn resolve_error(self, id: u64) -> Option<RecoveryError> {
        if self.paused {
            Some(RecoveryError::ContractPaused)
        } else if self.admin is None {
            Some(RecoveryError::NotInitialized)
        } else {
            match self.pending_error(id) {
                Some(e) => Some(e),
                None => if self.guard_held {
                    Some(RecoveryError::Reentrant)
                } else {
                    None
                },
            }
        }
    }

    /// Why a case cannot be expired at the ledger, if it cannot.
    pub open spec fn expire_error(self, id: u64, now: int) -> Option<RecoveryError> {
        if self.paused {
            Some(RecoveryError::ContractPaused)
        } else {
            match self.pending_error(id) {
                Some(e) => Some(e),
                None => if now <= self.cases[id].expiry_ledger {
                    Some(RecoveryError::CaseNotExpired)
                } else if self.guard_held {
                    Some(RecoveryError::Reentrant)
                } else {
                    None
                },
            }
        }
    }

    /// The state with the case's record replaced.
    pub open spec fn put(self, id: u64, c: RecoveryCase) -> RecoveryModel {
        RecoveryModel { cases: self.cases.insert(id, c), ..self }
    }

    /// The state after a case was opened.
    pub open spec fn reported(
        self,
        reporter: Address,
        payer: Address,
        recipient: Address,
        token: Address,
        amount: i128,
        reference: Bytes,
        now: u32,
    ) -> RecoveryModel {
        RecoveryModel {
            counter: (self.counter + 1) as u64,
            ..self.put(
                self.counter,
                RecoveryCase {
                    id: self.counter,
                    reporter,
                    payer,
                    recipient,
                    token,
                    amount,
                    reference,
                    created_ledger: now,
                    expiry_ledger: (now + self.expiry_ledgers) as u32,
                    status: CaseStatus::Pending,
                    note: Bytes::empty(),
                },
            )
        }
    }

    /// The state after a case was resolved.
    pub open spec fn resolved(self, id: u64, resolution: Resolution, note: Bytes) -> RecoveryModel {
        self.put(
            id,
            RecoveryCase { status: status_of(resolution), note, ..self.cases[id] },
        )
    }

    /// The state after a case was expired.
    pub open spec fn expired(self, id: u64) -> RecoveryModel {
        self.put(id, RecoveryCase { status: CaseStatus::Expired, ..self.cases[id] })
    }
}

/// The surroundings after a case was closed under the guard and its funds
/// were paid to the destination, if there is one.
pub open spec fn closed_case(
    e: crate::env::EnvModel<DataKey, RecoveryEvent>,
    c: RecoveryCase,
    dest: Option<Address>,
) -> crate::env::EnvModel<DataKey, RecoveryEvent> {
    let saved = e.emit(Effect::ExtendInstance).emit(Effect::Lock).emit(
        Effect::ExtendEntry(DataKey::Case(c.id)),
    );
    match dest {
        Some(to) => saved.transfer(c.token, e.contract, to, c.amount).emit(Effect::Unlock),
        None => saved.emit(Effect::Unlock),
    }
}

/// The surroundings after the administrator's authorization was demanded, if
/// there is an administrator.
pub open spec fn admin_auth(
    m: RecoveryModel,
    e: crate::env::EnvModel<DataKey, RecoveryEvent>,
) -> crate::env::EnvModel<DataKey, RecoveryEvent> {
    match m.admin {
        Some(admin) => e.auth(admin),
        None => e,
    }
}

broadcast use {crate::env::lemma_received_push, crate::env::lemma_sent_push};

impl PaymentRecovery {
    /// The administrator, whose authorization is demanded.
    fn require_admin(&self, env: &mut RecoveryEnv) -> (r: Result<Address, RecoveryError>)
        ensures
            r == crate::env::outcome(self@.admin_error(), self@.admin->0),
            final(env)@ == match self@.admin {
                Some(admin) => old(env)@.auth(admin),
                None => old(env)@,
            },
    {
        match self.admin {
            Some(admin) => {
                env.require_auth(&admin);
                Ok(admin)
            },
            None => Err(RecoveryError::NotInitialized),
        }
    }

    /// Stops the contract's work until it is resumed.
    pub fn pause(&mut self, env: &mut RecoveryEnv) -> (r: Result<(), RecoveryError>)
        requires
            old(self)@.wf(),
        ensures
            final(self)@.wf(),
            r == crate::env::outcome(old(self)@.admin_error(), ()),
            final(self)@ == match r {
                Err(_) => old(self)@,
                Ok(_) => RecoveryModel { paused: true, ..old(self)@ },
            },
            crate::env::pays_nobody(old(env)@, final(env)@),
            r is Ok ==> final(self)@.paused && final(self)@.admin == old(self)@.admin,
            final(env)@ == match r {
                Err(_) => old(env)@,
                Ok(_) => old(env)@.auth(old(self)@.admin->0).event(RecoveryEvent::Paused),
            },
    {
        self.require_admin(env)?;
        self.paused = true;
        env.event(RecoveryEvent::Paused);
        Ok(())
    }

    /// Resumes the contract's work.
    pub fn unpause(&mut self, env: &mut RecoveryEnv) -> (r: Result<(), RecoveryError>)
        requires
            old(self)@.wf(),
        ensures
            final(self)@.wf(),
            r == crate::env::outcome(old(self)@.admin_error(), ()),
            final(self)@ == match r {
                Err(_) => old(self)@,
                Ok(_) => RecoveryModel { paused: false, ..old(self)@ },
            },
            crate::env::pays_nobody(old(env)@, final(env)@),
            r is Ok ==> !final(self)@.paused && final(self)@.admin == old(self)@.admin,
            final(env)@ == match r {
                Err(_) => old(env)@,
                Ok(_) => old(env)@.auth(old(self)@.admin->0).event(RecoveryEvent::Unpaused),
            },
    {
        self.require_admin(env)?;
        self.paused = false;
        env.event(RecoveryEvent::Unpaused);
        Ok(())
    }

    /// Replaces the contract's code and counts the version up.
    pub fn upgrade(&mut self, env: &mut RecoveryEnv, new_wasm_hash: &BytesN<32>) -> (r: Result<(), RecoveryError>)
        requires
            old(self)@.wf(),
            old(self)@.admin is Some ==> old(self)@.version < u32::MAX,
        ensures
            final(self)@.wf(),
            r == crate::env::outcome(old(self)@.admin_error(), ()),
            final(self)@ == match r {
                Err(_) => old(self)@,
                Ok(_) => RecoveryModel { version: (old(self)@.version + 1) as u32, ..old(self)@ },
            },
            crate::env::pays_nobody(old(env)@, final(env)@),
            r is Ok ==> final(self)@.version == old(self)@.version + 1 && final(self)@.admin == old(self)@.admin,
            final(env)@ == match r {
                Err(_) => old(env)@,
                Ok(_) => old(env)@.auth(old(self)@.admin->0).emit(Effect::Upgrade(*new_wasm_hash)),
            },
    {
        self.require_admin(env)?;
        env.emit(Effect::Upgrade(*new_wasm_hash));
        self.version = self.version + 1;
        Ok(())
    }

    /// Hands the administration over.
    pub fn transfer_admin(&mut self, env: &mut RecoveryEnv, new_admin: &Address) -> (r: Result<(), RecoveryError>)
        requires
            old(self)@.wf(),
        ensures
            final(self)@.wf(),
            r == crate::env::outcome(old(self)@.admin_error(), ()),
            final(self)@ == match r {
                Err(_) => old(self)@,
                Ok(_) => RecoveryModel { admin: Some(*new_admin), ..old(self)@ },
            },
            crate::env::pays_nobody(old(env)@, final(env)@),
            r is Ok ==> final(self)@.admin == Some(*new_admin) && final(self)@.paused == old(self)@.paused,
            final(env)@ == match r {
                Err(_) => old(env)@,
                Ok(_) => old(env)@.auth(old(self)@.admin->0).event(RecoveryEvent::AdminTransferred { new_admin: *new_admin }),
            },
    {
        self.require_admin(env)?;
        self.admin = Some(*new_admin);
        env.event(RecoveryEvent::AdminTransferred { new_admin: *new_admin });
        Ok(())
    }

    /// The administrator.
    pub fn get_admin(&self) -> (r: Result<Address, RecoveryError>)
        ensures
            r == crate::env::outcome(self@.admin_error(), self@.admin->0),
    {
        match self.admin {
            Some(admin) => Ok(admin),
            None => Err(RecoveryError::NotInitialized),
        }
    }

    /// Whether the contract's work is stopped.
    pub fn is_paused(&self) -> (r: bool)
        ensures
            r == self@.paused,
    {
        self.paused
    }

    /// The version of the contract's code.
    pub fn get_version(&self) -> (r: u32)
        ensures
            r == self@.version,
    {
        self.version
    }
}

impl PaymentRecovery {
    /// The contract before it is set up.
    pub fn new() -> (r: PaymentRecovery)
        ensures
            r@ == (RecoveryModel {
                admin: None,
                paused: false,
                version: 1,
                guard_held: false,
                counter: 0,
                expiry_ledgers: DEFAULT_EXPIRY_LEDGERS,
                reporters: Set::<Address>::empty(),
                cases: Map::<u64, RecoveryCase>::empty(),
            }),
            r@.wf(),
    {
        PaymentRecovery {
            admin: None,
            paused: false,
            version: 1,
            guard_held: false,
            counter: 0,
            expiry_ledgers: DEFAULT_EXPIRY_LEDGERS,
            reporters: AddressSet::new(),
            cases: Table::new(),
        }
    }

    /// Sets the contract up, once. Zero ledgers mean the default expiry.
    pub fn initialize(&mut self, env: &mut RecoveryEnv, admin: &Address, expiry_ledgers: u32) -> (r:
        Result<(), RecoveryError>)
        requires
            old(self)@.wf(),
        ensures
            final(self)@.wf(),
            r == if old(self)@.admin is Some {
                Err::<(), RecoveryError>(RecoveryError::AlreadyInitialized)
            } else {
                Ok(())
            },
            final(self)@ == match r {
                Err(_) => old(self)@,
                Ok(_) => RecoveryModel {
                    admin: Some(*admin),
                    expiry_ledgers: if expiry_ledgers == 0 {
                        DEFAULT_EXPIRY_LEDGERS
                    } else {
                        expiry_ledgers
                    },
                    paused: false,
                    guard_held: false,
                    counter: 0,
                    version: 1,
                    ..old(self)@
                },
            },
            crate::env::pays_nobody(old(env)@, final(env)@),
            r is Ok ==> ({
                let m = final(self)@;
                &&& m.admin == Some(*admin) && !m.paused && m.counter == 0 && m.version == 1
                &&& expiry_ledgers != 0 ==> m.expiry_ledgers == expiry_ledgers
                &&& expiry_ledgers == 0 ==> m.expiry_ledgers == 120_960
            }),
            final(env)@ == match r {
                Err(_) => old(env)@,
                Ok(_) => old(env)@.auth(*admin).emit(Effect::ExtendInstance).event(
                    RecoveryEvent::Initialized { admin: *admin },
                ),
            },
    {
        if self.admin.is_some() {
            return Err(RecoveryError::AlreadyInitialized);
        }
        env.require_auth(admin);
        let expiry: u32 = if expiry_ledgers == 0 {
            DEFAULT_EXPIRY_LEDGERS
        } else {
            expiry_ledgers
        };
        self.admin = Some(*admin);
        self.expiry_ledgers = expiry;
        self.paused = false;
        self.guard_held = false;
        self.counter = 0;
        self.version = 1;
        env.emit(Effect::ExtendInstance);
        env.event(RecoveryEvent::Initialized { admin: *admin });
        Ok(())
    }

    /// Authorises an address to report failures.
    pub fn add_reporter(&mut self, env: &mut RecoveryEnv, reporter: &Address) -> (r: Result<
        (),
        RecoveryError,
    >)
        requires
            old(self)@.wf(),
        ensures
            final(self)@.wf(),
            r == crate::env::outcome(old(self)@.add_reporter_error(*reporter), ()),
            final(self)@ == match r {
                Err(_) => old(self)@,
                Ok(_) => RecoveryModel {
                    reporters: old(self)@.reporters.insert(*reporter),
                    ..old(self)@
                },
            },
            crate::env::pays_nobody(old(env)@, final(env)@),
            r is Ok ==> forall|who: Address|
                #[trigger] final(self)@.reporters.contains(who) == (who == *reporter
                    || old(self)@.reporters.contains(who)),
            final(env)@ == match r {
                Err(_) => admin_auth(old(self)@, old(env)@),
                Ok(_) => admin_auth(old(self)@, old(env)@).emit(Effect::ExtendInstance).emit(
                    Effect::ExtendEntry(DataKey::Reporter(*reporter)),
                ).event(RecoveryEvent::ReporterAdded { reporter: *reporter }),
            },
    {
        self.require_admin(env)?;
        if self.reporters.contains(reporter) {
            return Err(RecoveryError::ReporterAlreadyAdded);
        }
        self.reporters.insert(*reporter);
        env.emit(Effect::ExtendInstance);
        env.emit(Effect::ExtendEntry(DataKey::Reporter(*reporter)));
        env.event(RecoveryEvent::ReporterAdded { reporter: *reporter });
        Ok(())
    }

    /// Ends a reporter's authorisation.
    pub fn remove_reporter(&mut self, env: &mut RecoveryEnv, reporter: &Address) -> (r: Result<
        (),
        RecoveryError,
    >)
        requires
            old(self)@.wf(),
        ensures
            final(self)@.wf(),
            r == crate::env::outcome(old(self)@.remove_reporter_error(*reporter), ()),
            final(self)@ == match r {
                Err(_) => old(self)@,
                Ok(_) => RecoveryModel {
                    reporters: old(self)@.reporters.remove(*reporter),
                    ..old(self)@
                },
            },
            crate::env::pays_nobody(old(env)@, final(env)@),
            r is Ok ==> forall|who: Address|
                #[trigger] final(self)@.reporters.contains(who) == (who != *reporter
                    && old(self)@.reporters.contains(who)),
            final(env)@ == match r {
                Err(_) => admin_auth(old(self)@, old(env)@),
                Ok(_) => admin_auth(old(self)@, old(env)@).emit(Effect::ExtendInstance).event(
                    RecoveryEvent::ReporterRemoved { reporter: *reporter },
                ),
            },
    {
        self.require_admin(env)?;
        if !self.reporters.contains(reporter) {
            return Err(RecoveryError::ReporterNotFound);
        }
        self.reporters.remove(reporter);
        env.emit(Effect::ExtendInstance);
        env.event(RecoveryEvent::ReporterRemoved { reporter: *reporter });
        Ok(())
    }

    /// Opens a case for funds that the contract already holds, and returns
    /// its identifier.
    pub fn report_failure(
        &mut self,
        env: &mut RecoveryEnv,
        reporter: &Address,
        payer: &Address,
        recipient: &Address,
        token: &Address,
        amount: i128,
        reference: Bytes,
    ) -> (r: Result<u64, RecoveryError>)
        requires
            old(self)@.wf(),
            old(self)@.report_error(*reporter, amount as int) is None ==> old(self)@.counter
                < u64::MAX && old(env)@.sequence + old(self)@.expiry_ledgers <= u32::MAX,
        ensures
            final(self)@.wf(),
            r == crate::env::outcome(
                old(self)@.report_error(*reporter, amount as int),
                old(self)@.counter,
            ),
            final(self)@ == match r {
                Err(_) => old(self)@,
                Ok(_) => old(self)@.reported(
                    *reporter,
                    *payer,
                    *recipient,
                    *token,
                    amount,
                    reference,
                    old(env)@.sequence,
                ),
            },
            crate::env::pays_nobody(old(env)@, final(env)@),
            final(env)@ == match r {
                Err(_) => if old(self)@.paused {
                    old(env)@
                } else {
                    old(env)@.auth(*reporter)
                },
                Ok(id) => old(env)@.auth(*reporter).emit(Effect::ExtendInstance).emit(
                    Effect::ExtendEntry(DataKey::Case(id)),
                ).event(
                    RecoveryEvent::Reported {
                        case_id: id,
                        reporter: *reporter,
                        payer: *payer,
                        recipient: *recipient,
                        amount,
                        reference,
                    },
                ),
            },
    {
        if self.paused {
            return Err(RecoveryError::ContractPaused);
        }
        env.require_auth(reporter);
        if !self.reporters.contains(reporter) {
            return Err(RecoveryError::Unauthorized);
        }
        if amount <= 0 {
            return Err(RecoveryError::InvalidAmount);
        }
        let case_id: u64 = self.counter;
        self.counter = self.counter + 1;
        let now: u32 = env.sequence;
        let case = RecoveryCase {
            id: case_id,
            reporter: *reporter,
            payer: *payer,
            recipient: *recipient,
            token: *token,
            amount,
            reference: reference.share(),
            created_ledger: now,
            expiry_ledger: now + self.expiry_ledgers,
            status: CaseStatus::Pending,
            note: Bytes::new(),
        };
        env.emit(Effect::ExtendInstance);
        self.cases.set(case_id, case);
        env.emit(Effect::ExtendEntry(DataKey::Case(case_id)));
        env.event(
            RecoveryEvent::Reported {
                case_id,
                reporter: *reporter,
                payer: *payer,
                recipient: *recipient,
                amount,
                reference,
            },
        );
        Ok(case_id)
    }

    /// Resolves a pending case. Only the administrator may do so.
    pub fn resolve(
        &mut self,
        env: &mut RecoveryEnv,
        case_id: u64,
        resolution: Resolution,
        note: Bytes,
    ) -> (r: Result<(), RecoveryError>)
        requires
            old(self)@.wf(),
        ensures
            final(self)@.wf(),
            r == crate::env::outcome(old(self)@.resolve_error(case_id), ()),
            final(self)@ == match r {
                Err(_) => old(self)@,
                Ok(_) => old(self)@.resolved(case_id, resolution, note),
            },
            match (r, resolution) {
                (Ok(_), Resolution::Refund) => crate::env::pays(
                    old(env)@,
                    final(env)@,
                    old(self)@.cases[case_id].token,
                    old(env)@.contract,
                    old(self)@.cases[case_id].payer,
                    old(self)@.cases[case_id].amount as int,
                ),
                (Ok(_), Resolution::Retry) => crate::env::pays(
                    old(env)@,
                    final(env)@,
                    old(self)@.cases[case_id].token,
                    old(env)@.contract,
                    old(self)@.cases[case_id].recipient,
                    old(self)@.cases[case_id].amount as int,
                ),
                _ => crate::env::pays_nobody(old(env)@, final(env)@),
            },
            r is Ok ==> final(self)@.cases[case_id].note == note && final(self)@.resolve_error(case_id)
                == Some(RecoveryError::CaseNotPending),
            final(env)@ == match r {
                Err(_) => if old(self)@.paused {
                    old(env)@
                } else {
                    admin_auth(old(self)@, old(env)@)
                },
                Ok(_) => {
                    let c = old(self)@.cases[case_id];
                    closed_case(
                        admin_auth(old(self)@, old(env)@),
                        c,
                        destination(c, resolution),
                    ).event(
                        RecoveryEvent::Resolved {
                            case_id,
                            resolution: resolution.number(),
                            status: status_of(resolution).number(),
                        },
                    )
                },
            },
    {
        if self.paused {
            return Err(RecoveryError::ContractPaused);
        }
        self.require_admin(env)?;
        let (status, dest) = match self.cases.get(&case_id) {
            None => {
                return Err(RecoveryError::CaseNotFound);
            },
            Some(case) => {
                if case.status != CaseStatus::Pending {
                    return Err(RecoveryError::CaseNotPending);
                }
                match resolution {
                    Resolution::Refund => (CaseStatus::Refunded, Some(case.payer)),
                    Resolution::Retry => (CaseStatus::Retried, Some(case.recipient)),
                    Resolution::Escalate => (CaseStatus::Escalated, None),
                }
            },
        };
        if self.guard_held {
            return Err(RecoveryError::Reentrant);
        }
        let contract = env.contract;
        env.emit(Effect::ExtendInstance);
        env.emit(Effect::Lock);
        let mut case = self.cases.take(&case_id).unwrap();
        case.status = status;
        case.note = note;
        let token = case.token;
        let amount: i128 = case.amount;
        self.cases.set(case_id, case);
        assert(self@.cases =~= old(self)@.resolved(case_id, resolution, note).cases);
        env.emit(Effect::ExtendEntry(DataKey::Case(case_id)));
        match dest {
            Some(to) => {
                env.transfer(&token, &contract, &to, amount);
            },
            None => {},
        }
        env.emit(Effect::Unlock);
        env.event(
            RecoveryEvent::Resolved {
                case_id,
                resolution: resolution.code(),
                status: status.code(),
            },
        );
        Ok(())
    }

    /// Closes a case that stayed pending past its expiry and refunds the
    /// payer. Anyone may do so.
    pub fn expire_case(&mut self, env: &mut RecoveryEnv, case_id: u64) -> (r: Result<
        (),
        RecoveryError,
    >)
        requires
            old(self)@.wf(),
        ensures
            final(self)@.wf(),
            r == crate::env::outcome(
                old(self)@.expire_error(case_id, old(env)@.sequence as int),
                (),
            ),
            final(self)@ == match r {
                Err(_) => old(self)@,
                Ok(_) => old(self)@.expired(case_id),
            },
            match r {
                Ok(_) => crate::env::pays(
                    old(env)@,
                    final(env)@,
                    old(self)@.cases[case_id].token,
                    old(env)@.contract,
                    old(self)@.cases[case_id].payer,
                    old(self)@.cases[case_id].amount as int,
                ),
                Err(_) => crate::env::pays_nobody(old(env)@, final(env)@),
            },
            r is Ok ==> final(self)@.cases[case_id].status == CaseStatus::Expired && final(self)@.resolve_error(case_id) is Some,
            final(env)@ == match r {
                Err(_) => old(env)@,
                Ok(_) => {
                    let c = old(self)@.cases[case_id];
                    closed_case(old(env)@, c, Some(c.payer)).event(
                        RecoveryEvent::Expired { case_id, payer: c.payer, amount: c.amount },
                    )
                },
            },
    {
        if self.paused {
            return Err(RecoveryError::ContractPaused);
        }
        match self.cases.get(&case_id) {
            None => {
                return Err(RecoveryError::CaseNotFound);
            },
            Some(case) => {
                if case.status != CaseStatus::Pending {
                    return Err(RecoveryError::CaseNotPending);
                }
                if env.sequence <= case.expiry_ledger {
                    return Err(RecoveryError::CaseNotExpired);
                }
            },
        }
        if self.guard_held {
            return Err(RecoveryError::Reentrant);
        }
        let contract = env.contract;
        env.emit(Effect::ExtendInstance);
        env.emit(Effect::Lock);
        let mut case = self.cases.take(&case_id).unwrap();
        case.status = CaseStatus::Expired;
        let token = case.token;
        let payer = case.payer;
        let amount: i128 = case.amount;
        self.cases.set(case_id, case);
        assert(self@.cases =~= old(self)@.expired(case_id).cases);
        env.emit(Effect::ExtendEntry(DataKey::Case(case_id)));
        env.transfer(&token, &contract, &payer, amount);
        env.emit(Effect::Unlock);
        env.event(RecoveryEvent::Expired { case_id, payer, amount });
        Ok(())
    }

    /// Sets the ledgers until a new case expires.
    pub fn set_expiry_ledgers(&mut self, env: &mut RecoveryEnv, expiry_ledgers: u32) -> (r: Result<
        (),
        RecoveryError,
    >)
        requires
            old(self)@.wf(),
        ensures
            final(self)@.wf(),
            r == crate::env::outcome(old(self)@.admin_error(), ()),
            final(self)@ == match r {
                Err(_) => old(self)@,
                Ok(_) => RecoveryModel { expiry_ledgers, ..old(self)@ },
            },
            crate::env::pays_nobody(old(env)@, final(env)@),
            r is Ok ==> final(self)@.expiry_ledgers == expiry_ledgers && final(self)@.cases == old(self)@.cases,
            final(env)@ == match r {
                Err(_) => old(env)@,
                Ok(_) => old(env)@.auth(old(self)@.admin->0).emit(Effect::ExtendInstance).event(
                    RecoveryEvent::ExpiryUpdated { expiry_ledgers },
                ),
            },
    {
        self.require_admin(env)?;
        env.emit(Effect::ExtendInstance);
        self.expiry_ledgers = expiry_ledgers;
        env.event(RecoveryEvent::ExpiryUpdated { expiry_ledgers });
        Ok(())
    }

    /// The case under the identifier.
    pub fn get_case(&self, case_id: u64) -> (r: Result<&RecoveryCase, RecoveryError>)
        ensures
            match r {
                Ok(c) => self@.cases.contains_key(case_id) && *c == self@.cases[case_id],
                Err(e) => !self@.cases.contains_key(case_id) && e == RecoveryError::CaseNotFound,
            },
    {
        match self.cases.get(&case_id) {
            Some(case) => Ok(case),
            None => Err(RecoveryError::CaseNotFound),
        }
    }

    /// How many cases were opened.
    pub fn case_count(&self) -> (r: u64)
        ensures
            r == self@.counter,
    {
        self.counter
    }

    /// Whether the address may report failures.
    pub fn is_reporter(&self, reporter: &Address) -> (r: bool)
        ensures
            r == self@.reporters.contains(*reporter),
    {
        self.reporters.contains(reporter)
    }

    /// Ledgers until a new case expires.
    pub fn get_expiry_ledgers(&self) -> (r: u32)
        ensures
            r == self@.expiry_ledgers,
    {
        self.expiry_ledgers
    }
}

/// A case that is not pending is final: it is neither resolved nor expired
/// again, so its funds move at most once.
pub proof fn law_closed_case_is_final(m: RecoveryModel, id: u64, now: int)
    requires
        m.cases.contains_key(id),
        m.cases[id].status != CaseStatus::Pending,
    ensures
        m.resolve_error(id) is Some,
        m.expire_error(id, now) is Some,
{
}

/// Resolving or expiring a case closes it.
pub proof fn law_closing_is_final(
    m: RecoveryModel,
    id: u64,
    resolution: Resolution,
    note: Bytes,
    now: int,
)
    requires
        m.pending_error(id) is None,
    ensures
        m.resolved(id, resolution, note).pending_error(id) == Some(RecoveryError::CaseNotPending),
        m.expired(id).pending_error(id) == Some(RecoveryError::CaseNotPending),
{
}

/// While a call that moves tokens is in progress no case can be closed.
pub proof fn law_guard_refuses_closing(m: RecoveryModel, id: u64, now: int)
    requires
        m.guard_held,
    ensures
        m.resolve_error(id) is Some,
        m.expire_error(id, now) is Some,
{
}

/// A refund pays the payer, a retry pays the recipient, and an escalation pays
/// nobody. The case takes the status of what was done and the note, and stays
/// otherwise as it was.
pub proof fn law_resolution_terms(
    m: RecoveryModel,
    id: u64,
    resolution: Resolution,
    note: Bytes,
    env: crate::env::EnvModel<DataKey, RecoveryEvent>,
)
    ensures
        ({
            let c = m.cases[id];
            let after = closed_case(env, c, destination(c, resolution));
            let a = m.resolved(id, resolution, note).cases[id];
            &&& resolution == Resolution::Refund ==> a.status == CaseStatus::Refunded
                && crate::env::pays(env, after, c.token, env.contract, c.payer, c.amount as int)
            &&& resolution == Resolution::Retry ==> a.status == CaseStatus::Retried
                && crate::env::pays(env, after, c.token, env.contract, c.recipient, c.amount as int)
            &&& resolution == Resolution::Escalate ==> a.status == CaseStatus::Escalated
                && crate::env::pays_nobody(env, after)
            &&& a.note == note
            &&& (RecoveryCase { status: c.status, note: c.note, ..a }) == c
            &&& m.resolved(id, resolution, note).cases.remove(id) == m.cases.remove(id)
            &&& (RecoveryModel { cases: m.cases, ..m.resolved(id, resolution, note) }) == m
        }),
{
    assert(m.resolved(id, resolution, note).cases.remove(id) =~= m.cases.remove(id));
}

/// An expired case is marked as such and stays otherwise as it was; its payer
/// is refunded.
pub proof fn law_expiry_terms(
    m: RecoveryModel,
    id: u64,
    env: crate::env::EnvModel<DataKey, RecoveryEvent>,
)
    ensures
        ({
            let c = m.cases[id];
            let a = m.expired(id).cases[id];
            let after = closed_case(env, c, Some(c.payer));
            &&& a.status == CaseStatus::Expired
            &&& (RecoveryCase { status: c.status, ..a }) == c
            &&& m.expired(id).cases.remove(id) == m.cases.remove(id)
            &&& (RecoveryModel { cases: m.cases, ..m.expired(id) }) == m
            &&& crate::env::pays(env, after, c.token, env.contract, c.payer, c.amount as int)
        }),
{
    assert(m.expired(id).cases.remove(id) =~= m.cases.remove(id));
}

/// A report opens a pending case on the given terms under the identifier that
/// was next, to expire after the contract's number of ledgers. No other case
/// changes.
pub proof fn law_report_terms(
    m: RecoveryModel,
    reporter: Address,
    payer: Address,
    recipient: Address,
    token: Address,
    amount: i128,
    reference: Bytes,
    now: u32,
    other: u64,
)
    requires
        m.counter < u64::MAX,
        now + m.expiry_ledgers <= u32::MAX,
    ensures
        ({
            let after = m.reported(reporter, payer, recipient, token, amount, reference, now);
            let c = after.cases[m.counter];
            &&& after.cases.contains_key(m.counter)
            &&& after.counter == m.counter + 1
            &&& c.id == m.counter
            &&& c.reporter == reporter
            &&& c.payer == payer
            &&& c.recipient == recipient
            &&& c.token == token
            &&& c.amount == amount
            &&& c.reference == reference
            &&& c.created_ledger == now
            &&& c.expiry_ledger == now + m.expiry_ledgers
            &&& c.status == CaseStatus::Pending
            &&& c.note == Bytes::empty()
            &&& other != m.counter ==> after.cases.contains_key(other) == m.cases.contains_key(
                other,
            ) && after.cases[other] == m.cases[other]
            &&& after.admin == m.admin
            &&& after.paused == m.paused
            &&& after.version == m.version
            &&& after.reporters == m.reporters
            &&& after.expiry_ledgers == m.expiry_ledgers
            &&& after.guard_held == m.guard_held
        }),
{
}

/// What each call asks: a reporter reports a positive amount; the administrator
/// resolves a pending case; anyone expires a pending case after its last
/// ledger.
pub proof fn law_case_conditions(m: RecoveryModel, id: u64, who: Address, amount: int, now: int)
    requires
        !m.paused,
        !m.guard_held,
    ensures
        ({
            let c = m.cases[id];
            let known = m.cases.contains_key(id);
            let open = known && c.status == CaseStatus::Pending;
            &&& m.report_error(who, amount) is None <==> m.reporters.contains(who) && amount > 0
            &&& !m.reporters.contains(who) ==> m.report_error(who, amount) == Some(
                RecoveryError::Unauthorized,
            )
            &&& m.reporters.contains(who) && amount <= 0 ==> m.report_error(who, amount) == Some(
                RecoveryError::InvalidAmount,
            )
            &&& m.resolve_error(id) is None <==> m.admin is Some && open
            &&& m.admin is None ==> m.resolve_error(id) == Some(RecoveryError::NotInitialized)
            &&& m.expire_error(id, now) is None <==> open && now > c.expiry_ledger
            &&& open && now <= c.expiry_ledger ==> m.expire_error(id, now) == Some(
                RecoveryError::CaseNotExpired,
            )
            &&& !known ==> m.expire_error(id, now) == Some(RecoveryError::CaseNotFound) && (
            m.admin is Some ==> m.resolve_error(id) == Some(RecoveryError::CaseNotFound))
            &&& known && !open ==> m.expire_error(id, now) == Some(RecoveryError::CaseNotPending)
                && (m.admin is Some ==> m.resolve_error(id) == Some(RecoveryError::CaseNotPending))
        }),
{
}

/// Only an administrator sets reporters and settings. Where no expiry is given,
/// a case expires after a week of ledgers.
pub proof fn law_admin_conditions(m: RecoveryModel, who: Address)
    ensures
        m.admin_error() == if m.admin is Some {
            None
        } else {
            Some(RecoveryError::NotInitialized)
        },
        m.add_reporter_error(who) == if m.admin is None {
            Some(RecoveryError::NotInitialized)
        } else if m.reporters.contains(who) {
            Some(RecoveryError::ReporterAlreadyAdded)
        } else {
            None
        },
        m.remove_reporter_error(who) == if m.admin is None {
            Some(RecoveryError::NotInitialized)
        } else if m.reporters.contains(who) {
            None
        } else {
            Some(RecoveryError::ReporterNotFound)
        },
        DEFAULT_EXPIRY_LEDGERS == 7 * 17_280,
{
}

/// Closing a case sets the guard, extends the life of the instance and of the
/// case's own entry, pays, and clears the guard.
pub proof fn law_steps_of_closing(
    e: crate::env::EnvModel<DataKey, RecoveryEvent>,
    c: RecoveryCase,
    to: Address,
)
    ensures
        ({
            let saved = e.log.push(Effect::ExtendInstance).push(Effect::Lock).push(
                Effect::ExtendEntry(DataKey::Case(c.id)),
            );
            &&& closed_case(e, c, None).log == saved.push(Effect::Unlock)
            &&& closed_case(e, c, Some(to)).log == saved.push(
                Effect::Transfer { token: c.token, from: e.contract, to, amount: c.amount },
            ).push(Effect::Unlock)
            &&& closed_case(e, c, Some(to)).auths == e.auths
            &&& closed_case(e, c, None).auths == e.auths
        }),
{
}

/// The administrator's authorization is demanded where there is an
/// administrator, and nothing is moved by it.
pub proof fn law_authorization_is_demanded(
    m: RecoveryModel,
    e: crate::env::EnvModel<DataKey, RecoveryEvent>,
)
    ensures
        m.admin matches Some(admin) ==> admin_auth(m, e).auths == e.auths.push(admin),
        m.admin is None ==> admin_auth(m, e).auths == e.auths,
        admin_auth(m, e).log == e.log,
{
}

/// A new case can be expired from the ledger after its expiry on, and not
/// before.
pub proof fn law_case_expires_after_window(
    m: RecoveryModel,
    reporter: Address,
    payer: Address,
    recipient: Address,
    token: Address,
    amount: i128,
    reference: Bytes,
    now: u32,
    later: int,
)
    requires
        m.wf(),
        m.report_error(reporter, amount as int) is None,
        m.counter < u64::MAX,
        now + m.expiry_ledgers <= u32::MAX,
        !m.guard_held,
    ensures
        ({
            let after = m.reported(reporter, payer, recipient, token, amount, reference, now);
            (after.expire_error(m.counter, later) is None) == (later > now + m.expiry_ledgers)
        }),
{
}

proof fn lemma_pending_same(
    a: Map<u64, RecoveryCase>,
    b: Map<u64, RecoveryCase>,
    token: Address,
    n: nat,
)
    requires
        n <= u64::MAX,
        forall|id: u64|
            id < n ==> (#[trigger] a.contains_key(id)) == b.contains_key(id) && (a.contains_key(id)
                ==> a[id] == b[id]),
    ensures
        pending(a, token, n) == pending(b, token, n),
    decreases n,
{
    if n > 0 {
        lemma_pending_same(a, b, token, (n - 1) as nat);
        let id = (n - 1) as u64;
        assert(a.contains_key(id) == b.contains_key(id));
    }
}

proof fn lemma_pending_closed(
    cases: Map<u64, RecoveryCase>,
    id: u64,
    c: RecoveryCase,
    token: Address,
    n: nat,
)
    requires
        id < n <= u64::MAX,
        cases.contains_key(id),
        cases[id].status == CaseStatus::Pending,
        c.status != CaseStatus::Pending,
    ensures
        pending(cases.insert(id, c), token, n) == pending(cases, token, n) - if cases[id].token
            == token {
            cases[id].amount as int
        } else {
            0
        },
    decreases n,
{
    let last = (n - 1) as u64;
    if last == id {
        lemma_pending_same(cases.insert(id, c), cases, token, (n - 1) as nat);
    } else {
        lemma_pending_closed(cases, id, c, token, (n - 1) as nat);
    }
}

/// A report uses an identifier that was not in use and adds its amount to
/// what is pending.
pub proof fn law_report_adds_to_pending(
    m: RecoveryModel,
    reporter: Address,
    payer: Address,
    recipient: Address,
    token: Address,
    amount: i128,
    reference: Bytes,
    now: u32,
    of: Address,
)
    requires
        m.wf(),
        m.counter < u64::MAX,
    ensures
        ({
            let after = m.reported(reporter, payer, recipient, token, amount, reference, now);
            &&& !m.cases.contains_key(m.counter)
            &&& after.cases.contains_key(m.counter)
            &&& pending(after.cases, of, after.counter as nat) == pending(
                m.cases,
                of,
                m.counter as nat,
            ) + if of == token {
                amount as int
            } else {
                0
            }
        }),
{
    let after = m.reported(reporter, payer, recipient, token, amount, reference, now);
    lemma_pending_same(after.cases, m.cases, of, m.counter as nat);
}

/// Closing a case takes exactly its amount out of what is pending.
pub proof fn law_closing_takes_from_pending(
    m: RecoveryModel,
    id: u64,
    resolution: Resolution,
    note: Bytes,
    of: Address,
)
    requires
        m.wf(),
        m.pending_error(id) is None,
    ensures
        ({
            let before = pending(m.cases, of, m.counter as nat);
            let taken = if of == m.cases[id].token {
                m.cases[id].amount as int
            } else {
                0
            };
            &&& pending(m.resolved(id, resolution, note).cases, of, m.counter as nat) == before
                - taken
            &&& pending(m.expired(id).cases, of, m.counter as nat) == before - taken
        }),
{
    let resolved = m.resolved(id, resolution, note).cases[id];
    let expired = m.expired(id).cases[id];
    lemma_pending_closed(m.cases, id, resolved, of, m.counter as nat);
    lemma_pending_closed(m.cases, id, expired, of, m.counter as nat);
}

/// Reporting a case moves no tokens. Closing one moves the case's amount out of
/// the contract to the destination, or nothing where there is none.
pub proof fn law_only_closing_moves_tokens(
    env: crate::env::EnvModel<DataKey, RecoveryEvent>,
    c: RecoveryCase,
    dest: Option<Address>,
    reporter: Address,
    event: RecoveryEvent,
    token: Address,
    who: Address,
)
    ensures
        ({
            let reported = env.auth(reporter).emit(Effect::ExtendInstance).emit(
                Effect::ExtendEntry(DataKey::Case(c.id)),
            ).event(event);
            &&& crate::env::sent(reported.log, token, who) == crate::env::sent(env.log, token, who)
            &&& crate::env::received(reported.log, token, who) == crate::env::received(
                env.log,
                token,
                who,
            )
        }),
        ({
            let closed = closed_case(env, c, dest).event(event);
            let moved = if dest is Some && token == c.token {
                c.amount as int
            } else {
                0
            };
            &&& crate::env::sent(closed.log, token, who) == crate::env::sent(env.log, token, who)
                + if who == env.contract {
                moved
            } else {
                0
            }
            &&& crate::env::received(closed.log, token, who) == crate::env::received(
                env.log,
                token,
                who,
            ) + if dest == Some(who) {
                moved
            } else {
                0
            }
        }),
{
    let entry = Effect::ExtendEntry(DataKey::Case(c.id));
    let one = env.emit(Effect::ExtendInstance);
    crate::env::lemma_moved(env.log, Effect::ExtendInstance, token, who);
    crate::env::lemma_moved(one.log, entry, token, who);
    crate::env::lemma_moved(one.emit(entry).log, Effect::Event(event), token, who);
    let two = one.emit(Effect::Lock);
    crate::env::lemma_moved(one.log, Effect::Lock, token, who);
    crate::env::lemma_moved(two.log, entry, token, who);
    let saved = two.emit(entry);
    let paid = match dest {
        Some(to) => saved.transfer(c.token, env.contract, to, c.amount),
        None => saved,
    };
    if dest is Some {
        crate::env::lemma_moved(
            saved.log,
            Effect::Transfer {
                token: c.token,
                from: env.contract,
                to: dest->0,
                amount: c.amount,
            },
            token,
            who,
        );
    }
    crate::env::lemma_moved(paid.log, Effect::Unlock, token, who);
    crate::env::lemma_moved(paid.emit(Effect::Unlock).log, Effect::Event(event), token, who);
}

/// While the contract is paused no case is opened, resolved or expired.
pub proof fn law_pause_refuses_every_call(
    m: RecoveryModel,
    id: u64,
    who: Address,
    amount: int,
    now: int,
)
    requires
        m.paused,
    ensures
        m.report_error(who, amount) == Some(RecoveryError::ContractPaused),
        m.resolve_error(id) == Some(RecoveryError::ContractPaused),
        m.expire_error(id, now) == Some(RecoveryError::ContractPaused),
{
}

/// Closing a case sets the guard before and clears it after, so no transfer
/// happens outside the guard.
pub proof fn law_transfers_happen_under_guard(
    env: crate::env::EnvModel<DataKey, RecoveryEvent>,
    c: RecoveryCase,
    dest: Option<Address>,
    event: RecoveryEvent,
)
    requires
        env.at_rest(),
    ensures
        closed_case(env, c, dest).event(event).at_rest(),
{
    let one = env.emit(Effect::ExtendInstance);
    let two = one.emit(Effect::Lock);
    let saved = two.emit(Effect::ExtendEntry(DataKey::Case(c.id)));
    crate::env::lemma_guard(env, Effect::ExtendInstance);
    crate::env::lemma_guard(one, Effect::Lock);
    crate::env::lemma_guard(two, Effect::ExtendEntry(DataKey::Case(c.id)));
    match dest {
        Some(to) => {
            crate::env::lemma_guard(
                saved,
                Effect::Transfer { token: c.token, from: env.contract, to, amount: c.amount },
            );
            crate::env::lemma_guard(
                saved.transfer(c.token, env.contract, to, c.amount),
                Effect::Unlock,
            );
        },
        None => {
            crate::env::lemma_guard(saved, Effect::Unlock);
        },
    }
    crate::env::lemma_guard(closed_case(env, c, dest), Effect::Event(event));
}

/// The numbers under which callers see the values are fixed.
pub proof fn law_resolution_numbers(v: Resolution)
    ensures
        v is Refund ==> v.number() == 1,
        v is Retry ==> v.number() == 2,
        v is Escalate ==> v.number() == 3,
{
}

/// The numbers under which callers see the values are fixed.
pub proof fn law_case_status_numbers(v: CaseStatus)
    ensures
        v is Pending ==> v.number() == 1,
        v is Refunded ==> v.number() == 2,
        v is Retried ==> v.number() == 3,
        v is Escalated ==> v.number() == 4,
        v is Expired ==> v.number() == 5,
{
}

/// The numbers under which callers see the values are fixed.
pub proof fn law_recovery_error_numbers(v: RecoveryError)
    ensures
        v is AlreadyInitialized ==> v.number() == 1,
        v is NotInitialized ==> v.number() == 2,
        v is Unauthorized ==> v.number() == 3,
        v is ContractPaused ==> v.number() == 4,
        v is Reentrant ==> v.number() == 5,
        v is CaseNotFound ==> v.number() == 6,
        v is CaseNotPending ==> v.number() == 7,
        v is CaseNotExpired ==> v.number() == 8,
        v is InvalidAmount ==> v.number() == 9,
        v is ReporterAlreadyAdded ==> v.number() == 10,
        v is ReporterNotFound ==> v.number() == 11,
{
}

/// The topics under which the events are announced are fixed.
pub proof fn law_recovery_event_topics(v: RecoveryEvent)
    ensures
        v is Initialized ==> v.topic_names() == ("recovery"@, "init"@),
        v is ReporterAdded ==> v.topic_names() == ("recovery"@, "rptr_add"@),
        v is ReporterRemoved ==> v.topic_names() == ("recovery"@, "rptr_rm"@),
        v is Reported ==> v.topic_names() == ("recovery"@, "reported"@),
        v is Resolved ==> v.topic_names() == ("recovery"@, "resolved"@),
        v is Expired ==> v.topic_names() == ("recovery"@, "expired"@),
        v is ExpiryUpdated ==> v.topic_names() == ("recovery"@, "exp_upd"@),
        v is Paused ==> v.topic_names() == ("recovery"@, "paused"@),
        v is Unpaused ==> v.topic_names() == ("recovery"@, "unpaused"@),
        v is AdminTransferred ==> v.topic_names() == ("recovery"@, "adm_xfer"@),
{
}

} // verus!
