//! Checks payments against merchant rules, duplicate detection and expiry,
//! and keeps the results.
use crate::address::Address;
use crate::address::BytesN;
use crate::duplicates::PaymentKey;
use crate::duplicates::SeenPayments;
use crate::env::Effect;
use crate::env::Env;
use crate::table::AddressSet;
use crate::table::Table;
use vstd::prelude::*;

verus! {

/// Duplicate-detection window in ledgers when none is configured (~10
/// minutes).
pub const DEFAULT_DUPLICATE_WINDOW: u32 = 120;

/// Payment expiry window in ledgers when none is configured (~5 minutes).
pub const DEFAULT_EXPIRY_WINDOW: u32 = 60;

/// Start value of the fingerprint.
pub const FNV_OFFSET: u64 = 0xcbf2_9ce4_8422_2325;

/// Factor of the fingerprint.
pub const FNV_PRIME: u64 = 0x0000_0100_0000_01b3;

/// Characters of an address's text that enter the fingerprint.
pub const FINGERPRINT_PREFIX: usize = 16;

/// Keys of the persistent entries.
#[derive(Clone, Copy, Debug, PartialEq, Eq)]
pub enum DataKey {
    /// An authorised verifier.
    Verifier(Address),
    /// A merchant's configuration.
    MerchantConfig(Address),
    /// The payments accepted under a fingerprint, and when they last were.
    DuplicateRecord(u64),
    /// A stored verification result.
    VerificationRecord(u64),
}

/// A merchant's configuration.
#[derive(Clone, Copy, Debug, PartialEq, Eq)]
pub struct MerchantConfig {
    /// The merchant's vault address.
    pub vault: Address,
    /// Minimum accepted payment amount (0 = no minimum).
    pub min_amount: i128,
    /// Maximum accepted payment amount (0 = no maximum).
    pub max_amount: i128,
    /// Whether the merchant is currently active.
    pub active: bool,
}

/// The checks to run.
#[derive(Clone, Copy, Debug, PartialEq, Eq, Structural)]
pub enum VerificationType {
    /// Check amount is within merchant's configured range.
    Amount,
    /// Check merchant is registered and active.
    Merchant,
    /// Check for duplicate payment within the detection window.
    Duplicate,
    /// Check payment was submitted within the expiry window.
    Expiry,
    /// Run all checks.
    Full,
}

impl VerificationType {
    /// The number under which the choice is stored.
    pub open spec fn number(self) -> u32 {
        match self {
            VerificationType::Amount => 0,
            VerificationType::Merchant => 1,
            VerificationType::Duplicate => 2,
            VerificationType::Expiry => 3,
            VerificationType::Full => 4,
        }
    }

    /// The number under which the choice is stored.
    pub fn code(&self) -> (r: u32)
        ensures
            r == self.number(),
    {
        match self {
            VerificationType::Amount => 0,
            VerificationType::Merchant => 1,
            VerificationType::Duplicate => 2,
            VerificationType::Expiry => 3,
            VerificationType::Full => 4,
        }
    }
}

/// The name of a check.
#[derive(Clone, Copy, Debug, PartialEq, Eq)]
pub enum CheckName {
    AmountMerchantConfig,
    AmountMin,
    AmountMax,
    MerchantRegistered,
    MerchantActive,
    DuplicateCheck,
    ExpiryCheck,
}

impl CheckName {
    /// The text of the value.
    pub open spec fn spelled(self) -> Seq<char> {
        match self {
            CheckName::AmountMerchantConfig => "amount_merchant_config"@,
            CheckName::AmountMin => "amount_min"@,
            CheckName::AmountMax => "amount_max"@,
            CheckName::MerchantRegistered => "merchant_registered"@,
            CheckName::MerchantActive => "merchant_active"@,
            CheckName::DuplicateCheck => "duplicate_check"@,
            CheckName::ExpiryCheck => "expiry_check"@,
        }
    }

    /// The text of the value.
    pub fn text(&self) -> (r: &'static str)
        ensures
            r@ == self.spelled(),
    {
        match self {
            CheckName::AmountMerchantConfig => "amount_merchant_config",
            CheckName::AmountMin => "amount_min",
            CheckName::AmountMax => "amount_max",
            CheckName::MerchantRegistered => "merchant_registered",
            CheckName::MerchantActive => "merchant_active",
            CheckName::DuplicateCheck => "duplicate_check",
            CheckName::ExpiryCheck => "expiry_check",
        }
    }
}

/// What a check found.
#[derive(Clone, Copy, Debug, PartialEq, Eq)]
pub enum CheckDetail {
    Passed,
    MerchantNotConfigured,
    BelowMinimum,
    AboveMaximum,
    MerchantNotRegistered,
    MerchantInactive,
    DuplicateDetected,
    Expired,
}

impl CheckDetail {
    /// The text of the value.
    pub open spec fn spelled(self) -> Seq<char> {
        match self {
            CheckDetail::Passed => "ok"@,
            CheckDetail::MerchantNotConfigured => "merchant not configured"@,
            CheckDetail::BelowMinimum => "amount below merchant minimum"@,
            CheckDetail::AboveMaximum => "amount exceeds merchant maximum"@,
            CheckDetail::MerchantNotRegistered => "merchant not registered"@,
            CheckDetail::MerchantInactive => "merchant is inactive"@,
            CheckDetail::DuplicateDetected => "duplicate payment detected within window"@,
            CheckDetail::Expired => "payment has expired"@,
        }
    }

    /// The text of the value.
    pub fn text(&self) -> (r: &'static str)
        ensures
            r@ == self.spelled(),
    {
        match self {
            CheckDetail::Passed => "ok",
            CheckDetail::MerchantNotConfigured => "merchant not configured",
            CheckDetail::BelowMinimum => "amount below merchant minimum",
            CheckDetail::AboveMaximum => "amount exceeds merchant maximum",
            CheckDetail::MerchantNotRegistered => "merchant not registered",
            CheckDetail::MerchantInactive => "merchant is inactive",
            CheckDetail::DuplicateDetected => "duplicate payment detected within window",
            CheckDetail::Expired => "payment has expired",
        }
    }
}

/// Result of a single named check.
#[derive(Clone, Copy, Debug, PartialEq, Eq)]
pub struct CheckResult {
    pub name: CheckName,
    /// Whether this individual check passed.
    pub passed: bool,
    pub detail: CheckDetail,
}

/// The result of one verification.
#[derive(Debug)]
pub struct VerificationResult {
    /// Unique sequential identifier for this verification run.
    pub verification_id: u64,
    /// The payment being verified.
    pub payment_id: u64,
    pub payer: Address,
    pub merchant: Address,
    pub amount: i128,
    /// Verification type that was requested.
    pub verification_type: VerificationType,
    /// Whether all checks passed.
    pub passed: bool,
    /// Individual check results.
    pub checks: Vec<CheckResult>,
    /// Ledger at which verification was performed.
    pub verified_at: u32,
    /// Ledger at which the payment was submitted.
    pub payment_ledger: u32,
}

/// The mathematical value of a verification result.
#[verifier::ext_equal]
pub struct ResultModel {
    pub verification_id: u64,
    pub payment_id: u64,
    pub payer: Address,
    pub merchant: Address,
    pub amount: i128,
    pub verification_type: VerificationType,
    pub passed: bool,
    pub checks: Seq<CheckResult>,
    pub verified_at: u32,
    pub payment_ledger: u32,
}

impl View for VerificationResult {
    type V = ResultModel;

    open spec fn view(&self) -> ResultModel {
        ResultModel {
            verification_id: self.verification_id,
            payment_id: self.payment_id,
            payer: self.payer,
            merchant: self.merchant,
            amount: self.amount,
            verification_type: self.verification_type,
            passed: self.passed,
            checks: self.checks@,
            verified_at: self.verified_at,
            payment_ledger: self.payment_ledger,
        }
    }
}

/// Failures of the verification contract.
#[derive(Clone, Copy, Debug, PartialEq, Eq, Structural)]
pub enum VerificationError {
    AlreadyInitialized,
    NotInitialized,
    Unauthorized,
    ContractPaused,
    MerchantNotFound,
    VerificationNotFound,
    VerifierAlreadyAdded,
    VerifierNotFound,
    MerchantAlreadyRegistered,
    InvalidAmount,
}

impl VerificationError {
    /// The number under which callers see the failure.
    pub open spec fn number(self) -> u32 {
        match self {
            VerificationError::AlreadyInitialized => 1,
            VerificationError::NotInitialized => 2,
            VerificationError::Unauthorized => 3,
            VerificationError::ContractPaused => 4,
            VerificationError::MerchantNotFound => 5,
            VerificationError::VerificationNotFound => 6,
            VerificationError::VerifierAlreadyAdded => 7,
            VerificationError::VerifierNotFound => 8,
            VerificationError::MerchantAlreadyRegistered => 9,
            VerificationError::InvalidAmount => 10,
        }
    }

    /// The number under which callers see the failure.
    pub fn code(&self) -> (r: u32)
        ensures
            r == self.number(),
    {
        match self {
            VerificationError::AlreadyInitialized => 1,
            VerificationError::NotInitialized => 2,
            VerificationError::Unauthorized => 3,
            VerificationError::ContractPaused => 4,
            VerificationError::MerchantNotFound => 5,
            VerificationError::VerificationNotFound => 6,
            VerificationError::VerifierAlreadyAdded => 7,
            VerificationError::VerifierNotFound => 8,
            VerificationError::MerchantAlreadyRegistered => 9,
            VerificationError::InvalidAmount => 10,
        }
    }
}

/// What the verification contract announces.
#[derive(Clone, Copy, Debug, PartialEq, Eq)]
pub enum VerificationEvent {
    Initialized { admin: Address },
    VerifierAdded { verifier: Address },
    VerifierRemoved { verifier: Address },
    MerchantSet { merchant: Address },
    MerchantDeactivated { merchant: Address },
    Done { verification_id: u64, payment_id: u64, passed: bool },
    Paused,
    Unpaused,
    AdminTransferred { new_admin: Address },
}

impl VerificationEvent {
    /// The two topics of the event.
    pub open spec fn topic_names(self) -> (Seq<char>, Seq<char>) {
        (
            "verify"@,
            match self {
                VerificationEvent::Initialized { .. } => "init"@,
                VerificationEvent::VerifierAdded { .. } => "vrf_add"@,
                VerificationEvent::VerifierRemoved { .. } => "vrf_rm"@,
                VerificationEvent::MerchantSet { .. } => "merch_set"@,
                VerificationEvent::MerchantDeactivated { .. } => "merch_off"@,
                VerificationEvent::Done { .. } => "done"@,
                VerificationEvent::Paused => "paused"@,
                VerificationEvent::Unpaused => "unpaused"@,
                VerificationEvent::AdminTransferred { .. } => "adm_xfer"@,
            },
        )
    }

    /// The two topics of the event.
    pub fn topics(&self) -> (r: (&'static str, &'static str))
        ensures
            (r.0@, r.1@) == self.topic_names(),
    {
        let name = match self {
            VerificationEvent::Initialized { .. } => "init",
            VerificationEvent::VerifierAdded { .. } => "vrf_add",
            VerificationEvent::VerifierRemoved { .. } => "vrf_rm",
            VerificationEvent::MerchantSet { .. } => "merch_set",
            VerificationEvent::MerchantDeactivated { .. } => "merch_off",
            VerificationEvent::Done { .. } => "done",
            VerificationEvent::Paused => "paused",
            VerificationEvent::Unpaused => "unpaused",
            VerificationEvent::AdminTransferred { .. } => "adm_xfer",
        };
        ("verify", name)
    }
}

/// The surroundings of a call of the verification contract.
pub type VerificationEnv = Env<DataKey, VerificationEvent>;

/// The state of the verification contract.
pub struct PaymentVerification {
    pub admin: Option<Address>,
    pub paused: bool,
    pub version: u32,
    pub duplicate_window: u32,
    pub expiry_window: u32,
    /// Identifier of the latest verification.
    pub last_id: u64,
    pub verifiers: AddressSet,
    pub merchants: Table<Address, MerchantConfig>,
    /// Ledger at which a fingerprint was last accepted.
    pub seen: SeenPayments,
    pub records: Table<u64, VerificationResult>,
}

/// The mathematical value of the verification contract's state.
#[verifier::ext_equal]
pub struct VerificationModel {
    pub admin: Option<Address>,
    pub paused: bool,
    pub version: u32,
    pub duplicate_window: u32,
    pub expiry_window: u32,
    pub last_id: u64,
    pub verifiers: Set<Address>,
    pub merchants: Map<Address, MerchantConfig>,
    pub seen: Map<PaymentKey, u32>,
    pub records: Map<u64, ResultModel>,
}

impl View for PaymentVerification {
    type V = VerificationModel;

    open spec fn view(&self) -> VerificationModel {
        VerificationModel {
            admin: self.admin,
            paused: self.paused,
            version: self.version,
            duplicate_window: self.duplicate_window,
            expiry_window: self.expiry_window,
            last_id: self.last_id,
            verifiers: self.verifiers@,
            merchants: self.merchants@,
            seen: self.seen@,
            records: self.records@.map_values(|v: VerificationResult| v@),
        }
    }
}

/// One step of the fingerprint.
pub open spec fn fnv_step(hash: u64, byte: u8) -> u64 {
    (((hash ^ (byte as u64)) * FNV_PRIME) % 0x1_0000_0000_0000_0000) as u64
}

/// The fingerprint of `bytes`, starting from `hash`.
pub open spec fn fnv(hash: u64, bytes: Seq<u8>) -> u64
    decreases bytes.len(),
{
    if bytes.len() == 0 {
        hash
    } else {
        fnv_step(fnv(hash, bytes.drop_last()), bytes.last())
    }
}

/// The lowest `count` bytes of a number, lowest first.
pub open spec fn le_bytes(n: int, count: nat) -> Seq<u8>
    decreases count,
{
    if count == 0 {
        Seq::empty()
    } else {
        seq![(n % 256) as u8] + le_bytes(n / 256, (count - 1) as nat)
    }
}

/// The two's complement of an amount in 128 bits.
pub open spec fn twos_complement(amount: i128) -> int {
    if amount >= 0 {
        amount as int
    } else {
        amount + 0x1_0000_0000_0000_0000_0000_0000_0000_0000
    }
}

/// The bytes that enter the fingerprint: a prefix of each address and the
/// amount.
pub open spec fn payment_bytes(payer: Address, merchant: Address, amount: i128) -> Seq<u8> {
    payer.text@.take(FINGERPRINT_PREFIX as int) + merchant.text@.take(FINGERPRINT_PREFIX as int)
        + le_bytes(twos_complement(amount), 16)
}

/// The fingerprint of a payment. Different payments may share one.
pub open spec fn fingerprint(payer: Address, merchant: Address, amount: i128) -> u64 {
    fnv(FNV_OFFSET, payment_bytes(payer, merchant, amount))
}

/// A check that passed.
pub open spec fn pass(name: CheckName) -> CheckResult {
    CheckResult { name, passed: true, detail: CheckDetail::Passed }
}

/// A check that did not pass.
pub open spec fn fail(name: CheckName, detail: CheckDetail) -> CheckResult {
    CheckResult { name, passed: false, detail }
}

/// Whether every check passed.
pub open spec fn all_passed(checks: Seq<CheckResult>) -> bool {
    forall|i: int| 0 <= i < checks.len() ==> (#[trigger] checks[i]).passed
}

/// The amount checks against a merchant's configuration.
pub open spec fn amount_checks(config: Option<MerchantConfig>, amount: int) -> Seq<CheckResult> {
    match config {
        None => seq![fail(CheckName::AmountMerchantConfig, CheckDetail::MerchantNotConfigured)],
        Some(c) => seq![
            if c.min_amount > 0 && amount < c.min_amount {
                fail(CheckName::AmountMin, CheckDetail::BelowMinimum)
            } else {
                pass(CheckName::AmountMin)
            },
            if c.max_amount > 0 && amount > c.max_amount {
                fail(CheckName::AmountMax, CheckDetail::AboveMaximum)
            } else {
                pass(CheckName::AmountMax)
            },
        ],
    }
}

/// The merchant checks.
pub open spec fn merchant_checks(config: Option<MerchantConfig>) -> Seq<CheckResult> {
    match config {
        None => seq![fail(CheckName::MerchantRegistered, CheckDetail::MerchantNotRegistered)],
        Some(c) => seq![
            pass(CheckName::MerchantRegistered),
            if c.active {
                pass(CheckName::MerchantActive)
            } else {
                fail(CheckName::MerchantActive, CheckDetail::MerchantInactive)
            },
        ],
    }
}

/// The duplicate check.
pub open spec fn duplicate_checks(duplicate: bool) -> Seq<CheckResult> {
    seq![
        if duplicate {
            fail(CheckName::DuplicateCheck, CheckDetail::DuplicateDetected)
        } else {
            pass(CheckName::DuplicateCheck)
        },
    ]
}

/// The expiry check.
pub open spec fn expiry_checks(expired: bool) -> Seq<CheckResult> {
    seq![
        if expired {
            fail(CheckName::ExpiryCheck, CheckDetail::Expired)
        } else {
            pass(CheckName::ExpiryCheck)
        },
    ]
}

/// Ledgers that passed since an earlier one; none if it lies ahead.
pub open spec fn age(now: int, earlier: int) -> int {
    if now >= earlier {
        now - earlier
    } else {
        0
    }
}

/// Whether the choice of checks covers duplicates.
pub open spec fn covers_duplicates(kind: VerificationType) -> bool {
    kind == VerificationType::Duplicate || kind == VerificationType::Full
}

impl VerificationModel {
    /// Identifiers are handed out in sequence, and a result is stored under
    /// its own. Before the contract is set up there are no verifiers.
    pub open spec fn wf(self) -> bool {
        &&& forall|id: u64| #[trigger]
            self.records.contains_key(id) ==> 1 <= id <= self.last_id
                && self.records[id].verification_id == id
        &&& self.admin is None ==> self.last_id == 0 && forall|a: Address| !(
        #[trigger] self.verifiers.contains(a))
    }

    /// Why an administrative call is refused, if it is.
    pub open spec fn admin_error(self) -> Option<VerificationError> {
        match self.admin {
            Some(_) => None,
            None => Some(VerificationError::NotInitialized),
        }
    }

    /// A merchant's configuration, if it is registered.
    pub open spec fn config(self, merchant: Address) -> Option<MerchantConfig> {
        if self.merchants.contains_key(merchant) {
            Some(self.merchants[merchant])
        } else {
            None
        }
    }

    /// Whether a payment of the same payer, merchant and amount was accepted
    /// within the window.
    pub open spec fn is_duplicate(
        self,
        payer: Address,
        merchant: Address,
        amount: i128,
        now: int,
    ) -> bool {
        let payment = PaymentKey { payer, merchant, amount };
        self.seen.contains_key(payment) && age(now, self.seen[payment] as int)
            < self.duplicate_window
    }

    /// Whether a payment is too old.
    pub open spec fn is_expired(self, payment_ledger: int, now: int) -> bool {
        age(now, payment_ledger) > self.expiry_window
    }

    /// The checks of a payment, in order.
    pub open spec fn checks(
        self,
        kind: VerificationType,
        payer: Address,
        merchant: Address,
        amount: i128,
        payment_ledger: int,
        now: int,
    ) -> Seq<CheckResult> {
        let config = self.config(merchant);
        let duplicate = self.is_duplicate(payer, merchant, amount, now);
        let expired = self.is_expired(payment_ledger, now);
        match kind {
            VerificationType::Amount => amount_checks(config, amount as int),
            VerificationType::Merchant => merchant_checks(config),
            VerificationType::Duplicate => duplicate_checks(duplicate),
            VerificationType::Expiry => expiry_checks(expired),
            VerificationType::Full => merchant_checks(config) + amount_checks(
                config,
                amount as int,
            ) + duplicate_checks(duplicate) + expiry_checks(expired),
        }
    }

    /// The state after the duplicate check: an accepted payment is noted.
    pub open spec fn noted(
        self,
        payer: Address,
        merchant: Address,
        amount: i128,
        now: u32,
    ) -> VerificationModel {
        if self.is_duplicate(payer, merchant, amount, now as int) {
            self
        } else {
            VerificationModel {
                seen: self.seen.insert(PaymentKey { payer, merchant, amount }, now),
                ..self
            }
        }
    }

    /// Why a verification is refused, if it is.
    pub open spec fn verify_error(self, verifier: Address) -> Option<VerificationError> {
        if self.paused {
            Some(VerificationError::ContractPaused)
        } else if !self.verifiers.contains(verifier) {
            Some(VerificationError::Unauthorized)
        } else {
            None
        }
    }

    /// The result of a verification.
    pub open spec fn result(
        self,
        payment_id: u64,
        payer: Address,
        merchant: Address,
        amount: i128,
        payment_ledger: u32,
        kind: VerificationType,
        now: u32,
    ) -> ResultModel {
        let checks = self.checks(kind, payer, merchant, amount, payment_ledger as int, now as int);
        ResultModel {
            verification_id: (self.last_id + 1) as u64,
            payment_id,
            payer,
            merchant,
            amount,
            verification_type: kind,
            passed: all_passed(checks),
            checks,
            verified_at: now,
            payment_ledger,
        }
    }

    /// The state after a verification.
    pub open spec fn verified(
        self,
        payment_id: u64,
        payer: Address,
        merchant: Address,
        amount: i128,
        payment_ledger: u32,
        kind: VerificationType,
        now: u32,
    ) -> VerificationModel {
        let noted = if covers_duplicates(kind) {
            self.noted(payer, merchant, amount, now)
        } else {
            self
        };
        let id = (self.last_id + 1) as u64;
        VerificationModel {
            last_id: id,
            records: self.records.insert(
                id,
                self.result(payment_id, payer, merchant, amount, payment_ledger, kind, now),
            ),
            ..noted
        }
    }
}

impl PaymentVerification {
    /// The administrator, whose authorization is demanded.
    fn require_admin(&self, env: &mut VerificationEnv) -> (r: Result<Address, VerificationError>)
        ensures
            r == crate::env::outcome(self@.admin_error(), self@.admin->0),
            final(env)@ == match self@.admin {
                Some(admin) => old(env)@.auth(admin),
                None => old(env)@,
            },
    {
        match self.admin {
            Some(admin) => {
                env.require_auth(&admin);
                Ok(admin)
            },
            None => Err(VerificationError::NotInitialized),
        }
    }

    /// Stops the contract's work until it is resumed.
    pub fn pause(&mut self, env: &mut VerificationEnv) -> (r: Result<(), VerificationError>)
        requires
            old(self)@.wf(),
        ensures
            final(self)@.wf(),
            r == crate::env::outcome(old(self)@.admin_error(), ()),
            final(self)@ == match r {
                Err(_) => old(self)@,
                Ok(_) => VerificationModel { paused: true, ..old(self)@ },
            },
            r is Ok ==> final(self)@.paused && final(self)@.admin == old(self)@.admin,
            final(env)@ == match r {
                Err(_) => old(env)@,
                Ok(_) => old(env)@.auth(old(self)@.admin->0).event(VerificationEvent::Paused),
            },
    {
        self.require_admin(env)?;
        self.paused = true;
        env.event(VerificationEvent::Paused);
        Ok(())
    }

    /// Resumes the contract's work.
    pub fn unpause(&mut self, env: &mut VerificationEnv) -> (r: Result<(), VerificationError>)
        requires
            old(self)@.wf(),
        ensures
            final(self)@.wf(),
            r == crate::env::outcome(old(self)@.admin_error(), ()),
            final(self)@ == match r {
                Err(_) => old(self)@,
                Ok(_) => VerificationModel { paused: false, ..old(self)@ },
            },
            r is Ok ==> !final(self)@.paused && final(self)@.admin == old(self)@.admin,
            final(env)@ == match r {
                Err(_) => old(env)@,
                Ok(_) => old(env)@.auth(old(self)@.admin->0).event(VerificationEvent::Unpaused),
            },
    {
        self.require_admin(env)?;
        self.paused = false;
        env.event(VerificationEvent::Unpaused);
        Ok(())
    }

    /// Replaces the contract's code and counts the version up.
    pub fn upgrade(&mut self, env: &mut VerificationEnv, new_wasm_hash: &BytesN<32>) -> (r: Result<(), VerificationError>)
        requires
            old(self)@.wf(),
            old(self)@.admin is Some ==> old(self)@.version < u32::MAX,
        ensures
            final(self)@.wf(),
            r == crate::env::outcome(old(self)@.admin_error(), ()),
            final(self)@ == match r {
                Err(_) => old(self)@,
                Ok(_) => VerificationModel { version: (old(self)@.version + 1) as u32, ..old(self)@ },
            },
            r is Ok ==> final(self)@.version == old(self)@.version + 1 && final(self)@.admin == old(self)@.admin,
            final(env)@ == match r {
                Err(_) => old(env)@,
                Ok(_) => old(env)@.auth(old(self)@.admin->0).emit(Effect::Upgrade(*new_wasm_hash)),
            },
    {
        self.require_admin(env)?;
        env.emit(Effect::Upgrade(*new_wasm_hash));
        self.version = self.version + 1;
        Ok(())
    }

    /// Hands the administration over.
    pub fn transfer_admin(&mut self, env: &mut VerificationEnv, new_admin: &Address) -> (r: Result<(), VerificationError>)
        requires
            old(self)@.wf(),
        ensures
            final(self)@.wf(),
            r == crate::env::outcome(old(self)@.admin_error(), ()),
            final(self)@ == match r {
                Err(_) => old(self)@,
                Ok(_) => VerificationModel { admin: Some(*new_admin), ..old(self)@ },
            },
            r is Ok ==> final(self)@.admin == Some(*new_admin) && final(self)@.paused == old(self)@.paused,
            final(env)@ == match r {
                Err(_) => old(env)@,
                Ok(_) => old(env)@.auth(old(self)@.admin->0).event(VerificationEvent::AdminTransferred { new_admin: *new_admin }),
            },
    {
        self.require_admin(env)?;
        self.admin = Some(*new_admin);
        env.event(VerificationEvent::AdminTransferred { new_admin: *new_admin });
        Ok(())
    }

    /// The administrator.
    pub fn get_admin(&self) -> (r: Result<Address, VerificationError>)
        ensures
            r == crate::env::outcome(self@.admin_error(), self@.admin->0),
    {
        match self.admin {
            Some(admin) => Ok(admin),
            None => Err(VerificationError::NotInitialized),
        }
    }

    /// Whether the contract's work is stopped.
    pub fn is_paused(&self) -> (r: bool)
        ensures
            r == self@.paused,
    {
        self.paused
    }

    /// The version of the contract's code.
    pub fn get_version(&self) -> (r: u32)
        ensures
            r == self@.version,
    {
        self.version
    }
}

proof fn lemma_fnv_push(hash: u64, bytes: Seq<u8>, byte: u8)
    ensures
        fnv(hash, bytes.push(byte)) == fnv_step(fnv(hash, bytes), byte),
{
    assert(bytes.push(byte).drop_last() =~= bytes);
}

/// Mixes one byte into the fingerprint.
fn mix(hash: u64, byte: u8) -> (r: u64)
    ensures
        r == fnv_step(hash, byte),
{
    let mixed: u64 = hash ^ (byte as u64);
    mixed.wrapping_mul(FNV_PRIME)
}

/// The fingerprint under which a payment is filed.
pub fn payment_fingerprint(payer: &Address, merchant: &Address, amount: i128) -> (r: u64)
    ensures
        r == fingerprint(*payer, *merchant, amount),
{
    let mut hash: u64 = FNV_OFFSET;
    let ghost mut done: Seq<u8> = Seq::empty();
    let mut i: usize = 0;
    while i < FINGERPRINT_PREFIX
        invariant
            i <= FINGERPRINT_PREFIX,
            done == payer.text@.take(i as int),
            hash == fnv(FNV_OFFSET, done),
        decreases FINGERPRINT_PREFIX - i,
    {
        let byte: u8 = payer.text[i];
        proof {
            lemma_fnv_push(FNV_OFFSET, done, byte);
            done = done.push(byte);
            assert(done =~= payer.text@.take(i + 1));
        }
        hash = mix(hash, byte);
        i = i + 1;
    }
    let ghost first = done;
    let mut j: usize = 0;
    assert(first + merchant.text@.take(0) =~= first);
    while j < FINGERPRINT_PREFIX
        invariant
            j <= FINGERPRINT_PREFIX,
            done == first + merchant.text@.take(j as int),
            hash == fnv(FNV_OFFSET, done),
        decreases FINGERPRINT_PREFIX - j,
    {
        let byte: u8 = merchant.text[j];
        proof {
            lemma_fnv_push(FNV_OFFSET, done, byte);
            done = done.push(byte);
            assert(done =~= first + merchant.text@.take(j + 1));
        }
        hash = mix(hash, byte);
        j = j + 1;
    }
    let ghost second = done;
    let bits: u128 = if amount >= 0 {
        amount as u128
    } else {
        u128::MAX - ((-(amount + 1)) as u128)
    };
    let ghost whole = le_bytes(twos_complement(amount), 16);
    let mut rest: u128 = bits;
    let mut k: usize = 0;
    assert(second + whole =~= done + le_bytes(rest as int, 16));
    while k < 16
        invariant
            k <= 16,
            done + le_bytes(rest as int, (16 - k) as nat) == second + whole,
            hash == fnv(FNV_OFFSET, done),
        decreases 16 - k,
    {
        let byte: u8 = (rest % 256) as u8;
        proof {
            lemma_fnv_push(FNV_OFFSET, done, byte);
            let before = done;
            done = done.push(byte);
            assert(done + le_bytes((rest / 256) as int, (16 - k - 1) as nat) =~= before + le_bytes(
                rest as int,
                (16 - k) as nat,
            ));
        }
        hash = mix(hash, byte);
        rest = rest / 256;
        k = k + 1;
    }
    assert(done + le_bytes(rest as int, 0) =~= done);
    assert(done =~= payment_bytes(*payer, *merchant, amount));
    hash
}

/// Copies check results.
fn copy_checks(checks: &Vec<CheckResult>) -> (r: Vec<CheckResult>)
    ensures
        r@ == checks@,
{
    let mut out: Vec<CheckResult> = Vec::new();
    let mut i: usize = 0;
    while i < checks.len()
        invariant
            i <= checks@.len(),
            out@ == checks@.take(i as int),
        decreases checks@.len() - i,
    {
        out.push(checks[i]);
        i = i + 1;
        assert(out@ =~= checks@.take(i as int));
    }
    assert(checks@.take(checks@.len() as int) =~= checks@);
    out
}

proof fn lemma_all_passed_concat(a: Seq<CheckResult>, b: Seq<CheckResult>)
    ensures
        all_passed(a + b) == (all_passed(a) && all_passed(b)),
{
    let c = a + b;
    if all_passed(c) {
        assert forall|i: int| 0 <= i < a.len() implies (#[trigger] a[i]).passed by {
            assert(c[i] == a[i]);
        }
        assert forall|i: int| 0 <= i < b.len() implies (#[trigger] b[i]).passed by {
            assert(c[i + a.len()] == b[i]);
        }
    }
    if all_passed(a) && all_passed(b) {
        assert forall|i: int| 0 <= i < c.len() implies (#[trigger] c[i]).passed by {
            if i < a.len() {
                assert(c[i] == a[i]);
            } else {
                assert(c[i] == b[i - a.len()]);
            }
        }
    }
}

/// Checks the amount against the merchant's range.
fn check_amount(config: Option<MerchantConfig>, amount: i128, checks: &mut Vec<CheckResult>) -> (r:
    bool)
    ensures
        final(checks)@ == old(checks)@ + amount_checks(config, amount as int),
        r == all_passed(amount_checks(config, amount as int)),
{
    let ghost added = amount_checks(config, amount as int);
    match config {
        None => {
            checks.push(
                CheckResult {
                    name: CheckName::AmountMerchantConfig,
                    passed: false,
                    detail: CheckDetail::MerchantNotConfigured,
                },
            );
            assert(!added[0].passed);
            false
        },
        Some(c) => {
            let mut passed = true;
            if c.min_amount > 0 && amount < c.min_amount {
                checks.push(
                    CheckResult {
                        name: CheckName::AmountMin,
                        passed: false,
                        detail: CheckDetail::BelowMinimum,
                    },
                );
                passed = false;
            } else {
                checks.push(
                    CheckResult {
                        name: CheckName::AmountMin,
                        passed: true,
                        detail: CheckDetail::Passed,
                    },
                );
            }
            if c.max_amount > 0 && amount > c.max_amount {
                checks.push(
                    CheckResult {
                        name: CheckName::AmountMax,
                        passed: false,
                        detail: CheckDetail::AboveMaximum,
                    },
                );
                passed = false;
            } else {
                checks.push(
                    CheckResult {
                        name: CheckName::AmountMax,
                        passed: true,
                        detail: CheckDetail::Passed,
                    },
                );
            }
            assert(added[0].passed == !(c.min_amount > 0 && amount < c.min_amount));
            assert(added[1].passed == !(c.max_amount > 0 && amount > c.max_amount));
            assert(checks@ =~= old(checks)@ + added);
            passed
        },
    }
}

/// Checks that the merchant is registered and active.
fn check_merchant(config: Option<MerchantConfig>, checks: &mut Vec<CheckResult>) -> (r: bool)
    ensures
        final(checks)@ == old(checks)@ + merchant_checks(config),
        r == all_passed(merchant_checks(config)),
{
    let ghost added = merchant_checks(config);
    match config {
        None => {
            checks.push(
                CheckResult {
                    name: CheckName::MerchantRegistered,
                    passed: false,
                    detail: CheckDetail::MerchantNotRegistered,
                },
            );
            assert(!added[0].passed);
            false
        },
        Some(c) => {
            checks.push(
                CheckResult {
                    name: CheckName::MerchantRegistered,
                    passed: true,
                    detail: CheckDetail::Passed,
                },
            );
            if c.active {
                checks.push(
                    CheckResult {
                        name: CheckName::MerchantActive,
                        passed: true,
                        detail: CheckDetail::Passed,
                    },
                );
            } else {
                checks.push(
                    CheckResult {
                        name: CheckName::MerchantActive,
                        passed: false,
                        detail: CheckDetail::MerchantInactive,
                    },
                );
            }
            assert(added[1].passed == c.active);
            assert(checks@ =~= old(checks)@ + added);
            c.active
        },
    }
}

impl PaymentVerification {
    /// The contract before it is set up.
    pub fn new() -> (r: PaymentVerification)
        ensures
            r@ == (VerificationModel {
                admin: None,
                paused: false,
                version: 1,
                duplicate_window: DEFAULT_DUPLICATE_WINDOW,
                expiry_window: DEFAULT_EXPIRY_WINDOW,
                last_id: 0,
                verifiers: Set::<Address>::empty(),
                merchants: Map::<Address, MerchantConfig>::empty(),
                seen: Map::<PaymentKey, u32>::empty(),
                records: Map::<u64, ResultModel>::empty(),
            }),
            r@.wf(),
    {
        let r = PaymentVerification {
            admin: None,
            paused: false,
            version: 1,
            duplicate_window: DEFAULT_DUPLICATE_WINDOW,
            expiry_window: DEFAULT_EXPIRY_WINDOW,
            last_id: 0,
            verifiers: AddressSet::new(),
            merchants: Table::new(),
            seen: SeenPayments::new(),
            records: Table::new(),
        };
        assert(r@.records =~= Map::<u64, ResultModel>::empty());
        r
    }

    /// Sets the contract up, once. A window of zero means the default.
    pub fn initialize(
        &mut self,
        env: &mut VerificationEnv,
        admin: &Address,
        duplicate_window: u32,
        expiry_window: u32,
    ) -> (r: Result<(), VerificationError>)
        requires
            old(self)@.wf(),
        ensures
            final(self)@.wf(),
            r == if old(self)@.admin is Some {
                Err::<(), VerificationError>(VerificationError::AlreadyInitialized)
            } else {
                Ok(())
            },
            final(self)@ == match r {
                Err(_) => old(self)@,
                Ok(_) => VerificationModel {
                    admin: Some(*admin),
                    paused: false,
                    version: 1,
                    duplicate_window: if duplicate_window == 0 {
                        DEFAULT_DUPLICATE_WINDOW
                    } else {
                        duplicate_window
                    },
                    expiry_window: if expiry_window == 0 {
                        DEFAULT_EXPIRY_WINDOW
                    } else {
                        expiry_window
                    },
                    last_id: 0,
                    ..old(self)@
                },
            },
            r is Ok ==> ({
                let m = final(self)@;
                &&& m.admin == Some(*admin) && !m.paused && m.version == 1 && m.last_id == 0
                &&& duplicate_window != 0 ==> m.duplicate_window == duplicate_window
                &&& duplicate_window == 0 ==> m.duplicate_window == 120
                &&& expiry_window != 0 ==> m.expiry_window == expiry_window
                &&& expiry_window == 0 ==> m.expiry_window == 60
            }),
            final(env)@ == match r {
                Err(_) => old(env)@,
                Ok(_) => old(env)@.auth(*admin).emit(Effect::ExtendInstance).event(
                    VerificationEvent::Initialized { admin: *admin },
                ),
            },
    {
        if self.admin.is_some() {
            return Err(VerificationError::AlreadyInitialized);
        }
        env.require_auth(admin);
        self.admin = Some(*admin);
        self.paused = false;
        self.version = 1;
        self.duplicate_window = if duplicate_window == 0 {
            DEFAULT_DUPLICATE_WINDOW
        } else {
            duplicate_window
        };
        self.expiry_window = if expiry_window == 0 {
            DEFAULT_EXPIRY_WINDOW
        } else {
            expiry_window
        };
        self.last_id = 0;
        env.emit(Effect::ExtendInstance);
        env.event(VerificationEvent::Initialized { admin: *admin });
        Ok(())
    }

    /// A merchant's configuration, if it is registered.
    fn merchant_config(&self, merchant: &Address) -> (r: Option<MerchantConfig>)
        ensures
            r == self@.config(*merchant),
    {
        match self.merchants.get(merchant) {
            Some(config) => Some(*config),
            None => None,
        }
    }

    /// Checks that no identical payment was accepted within the window, and
    /// notes the payment if so.
    fn check_duplicate(
        &mut self,
        env: &mut VerificationEnv,
        payer: &Address,
        merchant: &Address,
        amount: i128,
        checks: &mut Vec<CheckResult>,
    ) -> (r: bool)
        ensures
            ({
                let print = fingerprint(*payer, *merchant, amount);
                let now = old(env)@.sequence;
                let duplicate = old(self)@.is_duplicate(*payer, *merchant, amount, now as int);
                &&& r == all_passed(duplicate_checks(duplicate))
                &&& final(checks)@ == old(checks)@ + duplicate_checks(duplicate)
                &&& final(self)@ == old(self)@.noted(*payer, *merchant, amount, now)
                &&& final(env)@ == if duplicate {
                    old(env)@
                } else {
                    old(env)@.emit(Effect::ExtendEntry(DataKey::DuplicateRecord(print)))
                }
            }),
            final(self).records == old(self).records,
    {
        let payment = PaymentKey { payer: *payer, merchant: *merchant, amount };
        let now: u32 = env.sequence;
        let duplicate = match self.seen.get(&payment) {
            Some(ledger) => now.saturating_sub(ledger) < self.duplicate_window,
            None => false,
        };
        let ghost added = duplicate_checks(duplicate);
        assert(added[0].passed == !duplicate);
        if duplicate {
            checks.push(
                CheckResult {
                    name: CheckName::DuplicateCheck,
                    passed: false,
                    detail: CheckDetail::DuplicateDetected,
                },
            );
            false
        } else {
            let print: u64 = payment_fingerprint(payer, merchant, amount);
            self.seen.set(payment, now);
            env.emit(Effect::ExtendEntry(DataKey::DuplicateRecord(print)));
            checks.push(
                CheckResult {
                    name: CheckName::DuplicateCheck,
                    passed: true,
                    detail: CheckDetail::Passed,
                },
            );
            true
        }
    }

    /// Checks that the payment is not too old.
    fn check_expiry(&self, now: u32, payment_ledger: u32, checks: &mut Vec<CheckResult>) -> (r: bool)
        ensures
            ({
                let expired = self@.is_expired(payment_ledger as int, now as int);
                &&& r == all_passed(expiry_checks(expired))
                &&& final(checks)@ == old(checks)@ + expiry_checks(expired)
            }),
    {
        let expired = now.saturating_sub(payment_ledger) > self.expiry_window;
        let ghost added = expiry_checks(expired);
        assert(added[0].passed == !expired);
        if expired {
            checks.push(
                CheckResult {
                    name: CheckName::ExpiryCheck,
                    passed: false,
                    detail: CheckDetail::Expired,
                },
            );
            false
        } else {
            checks.push(
                CheckResult {
                    name: CheckName::ExpiryCheck,
                    passed: true,
                    detail: CheckDetail::Passed,
                },
            );
            true
        }
    }

    /// Runs the wanted checks on a payment and keeps the result.
    pub fn verify_payment(
        &mut self,
        env: &mut VerificationEnv,
        verifier: &Address,
        payment_id: u64,
        payer: &Address,
        merchant: &Address,
        amount: i128,
        payment_ledger: u32,
        verify_type: VerificationType,
    ) -> (r: Result<VerificationResult, VerificationError>)
        requires
            old(self)@.wf(),
            old(self)@.verify_error(*verifier) is None ==> old(self)@.last_id < u64::MAX,
        ensures
            final(self)@.wf(),
            ({
                let m = old(self)@;
                let now = old(env)@.sequence;
                let print = fingerprint(*payer, *merchant, amount);
                match m.verify_error(*verifier) {
                    Some(e) => {
                        &&& r == Err::<VerificationResult, VerificationError>(e)
                        &&& final(self)@ == m
                        &&& final(env)@ == if m.paused {
                            old(env)@
                        } else {
                            old(env)@.auth(*verifier)
                        }
                    },
                    None => {
                        let result = m.result(
                            payment_id,
                            *payer,
                            *merchant,
                            amount,
                            payment_ledger,
                            verify_type,
                            now,
                        );
                        let started = old(env)@.auth(*verifier).emit(Effect::ExtendInstance);
                        let noted = if covers_duplicates(verify_type) && !m.is_duplicate(
                            *payer,
                            *merchant,
                            amount,
                            now as int,
                        ) {
                            started.emit(Effect::ExtendEntry(DataKey::DuplicateRecord(print)))
                        } else {
                            started
                        };
                        &&& r is Ok
                        &&& r->Ok_0@ == result
                        &&& final(self)@ == m.verified(
                            payment_id,
                            *payer,
                            *merchant,
                            amount,
                            payment_ledger,
                            verify_type,
                            now,
                        )
                        &&& final(env)@ == noted.emit(
                            Effect::ExtendEntry(
                                DataKey::VerificationRecord(result.verification_id),
                            ),
                        ).event(
                            VerificationEvent::Done {
                                verification_id: result.verification_id,
                                payment_id,
                                passed: result.passed,
                            },
                        )
                    },
                }
            }),
    {
        if self.paused {
            return Err(VerificationError::ContractPaused);
        }
        env.require_auth(verifier);
        if !self.verifiers.contains(verifier) {
            return Err(VerificationError::Unauthorized);
        }
        env.emit(Effect::ExtendInstance);
        let now: u32 = env.sequence;
        let mut checks: Vec<CheckResult> = Vec::new();
        let mut passed = true;
        let config = self.merchant_config(merchant);
        let ghost m = self@;
        match verify_type {
            VerificationType::Amount => {
                if !check_amount(config, amount, &mut checks) {
                    passed = false;
                }
            },
            VerificationType::Merchant => {
                if !check_merchant(config, &mut checks) {
                    passed = false;
                }
            },
            VerificationType::Duplicate => {
                if !self.check_duplicate(env, payer, merchant, amount, &mut checks) {
                    passed = false;
                }
            },
            VerificationType::Expiry => {
                if !self.check_expiry(now, payment_ledger, &mut checks) {
                    passed = false;
                }
            },
            VerificationType::Full => {
                if !check_merchant(config, &mut checks) {
                    passed = false;
                }
                if !check_amount(config, amount, &mut checks) {
                    passed = false;
                }
                if !self.check_duplicate(env, payer, merchant, amount, &mut checks) {
                    passed = false;
                }
                if !self.check_expiry(now, payment_ledger, &mut checks) {
                    passed = false;
                }
                proof {
                    let a = merchant_checks(config);
                    let b = amount_checks(config, amount as int);
                    let c = duplicate_checks(
                        m.is_duplicate(*payer, *merchant, amount, now as int),
                    );
                    let d = expiry_checks(m.is_expired(payment_ledger as int, now as int));
                    lemma_all_passed_concat(a, b);
                    lemma_all_passed_concat(a + b, c);
                    lemma_all_passed_concat(a + b + c, d);
                }
            },
        }
        let ghost expected = m.checks(
            verify_type,
            *payer,
            *merchant,
            amount,
            payment_ledger as int,
            now as int,
        );
        assert(checks@ =~= expected);
        let verification_id: u64 = self.last_id + 1;
        self.last_id = verification_id;
        let kept = copy_checks(&checks);
        let record = VerificationResult {
            verification_id,
            payment_id,
            payer: *payer,
            merchant: *merchant,
            amount,
            verification_type: verify_type,
            passed,
            checks: kept,
            verified_at: now,
            payment_ledger,
        };
        let result = VerificationResult {
            verification_id,
            payment_id,
            payer: *payer,
            merchant: *merchant,
            amount,
            verification_type: verify_type,
            passed,
            checks,
            verified_at: now,
            payment_ledger,
        };
        self.records.set(verification_id, record);
        assert(self@.records =~= m.records.insert(verification_id, result@));
        env.emit(Effect::ExtendEntry(DataKey::VerificationRecord(verification_id)));
        env.event(VerificationEvent::Done { verification_id, payment_id, passed });
        Ok(result)
    }
}

impl VerificationModel {
    /// Why a verifier cannot be added, if not.
    pub open spec fn add_verifier_error(self, verifier: Address) -> Option<VerificationError> {
        if self.admin is None {
            Some(VerificationError::NotInitialized)
        } else if self.verifiers.contains(verifier) {
            Some(VerificationError::VerifierAlreadyAdded)
        } else {
            None
        }
    }

    /// Why a verifier cannot be removed, if not.
    pub open spec fn remove_verifier_error(self, verifier: Address) -> Option<VerificationError> {
        if self.admin is None {
            Some(VerificationError::NotInitialized)
        } else if !self.verifiers.contains(verifier) {
            Some(VerificationError::VerifierNotFound)
        } else {
            None
        }
    }

    /// Why a merchant's configuration is refused, if it is.
    pub open spec fn set_merchant_error(self, config: MerchantConfig) -> Option<VerificationError> {
        if self.admin is None {
            Some(VerificationError::NotInitialized)
        } else if config.min_amount < 0 || config.max_amount < 0 {
            Some(VerificationError::InvalidAmount)
        } else {
            None
        }
    }

    /// Why a merchant cannot be deactivated, if not.
    pub open spec fn deactivate_error(self, merchant: Address) -> Option<VerificationError> {
        if self.admin is None {
            Some(VerificationError::NotInitialized)
        } else if !self.merchants.contains_key(merchant) {
            Some(VerificationError::MerchantNotFound)
        } else {
            None
        }
    }
}

/// The surroundings after the administrator's authorization was demanded, if
/// there is an administrator.
pub open spec fn admin_auth(
    m: VerificationModel,
    e: crate::env::EnvModel<DataKey, VerificationEvent>,
) -> crate::env::EnvModel<DataKey, VerificationEvent> {
    match m.admin {
        Some(admin) => e.auth(admin),
        None => e,
    }
}

impl PaymentVerification {
    /// Authorises an address to submit verification requests.
    pub fn add_verifier(&mut self, env: &mut VerificationEnv, verifier: &Address) -> (r: Result<
        (),
        VerificationError,
    >)
        requires
            old(self)@.wf(),
        ensures
            final(self)@.wf(),
            r == crate::env::outcome(old(self)@.add_verifier_error(*verifier), ()),
            final(self)@ == match r {
                Err(_) => old(self)@,
                Ok(_) => VerificationModel {
                    verifiers: old(self)@.verifiers.insert(*verifier),
                    ..old(self)@
                },
            },
            r is Ok ==> forall|who: Address|
                #[trigger] final(self)@.verifiers.contains(who) == (who == *verifier
                    || old(self)@.verifiers.contains(who)),
            final(env)@ == match r {
                Err(_) => admin_auth(old(self)@, old(env)@),
                Ok(_) => admin_auth(old(self)@, old(env)@).emit(Effect::ExtendInstance).emit(
                    Effect::ExtendEntry(DataKey::Verifier(*verifier)),
                ).event(VerificationEvent::VerifierAdded { verifier: *verifier }),
            },
    {
        self.require_admin(env)?;
        if self.verifiers.contains(verifier) {
            return Err(VerificationError::VerifierAlreadyAdded);
        }
        self.verifiers.insert(*verifier);
        env.emit(Effect::ExtendInstance);
        env.emit(Effect::ExtendEntry(DataKey::Verifier(*verifier)));
        env.event(VerificationEvent::VerifierAdded { verifier: *verifier });
        Ok(())
    }

    /// Ends a verifier's authorisation.
    pub fn remove_verifier(&mut self, env: &mut VerificationEnv, verifier: &Address) -> (r: Result<
        (),
        VerificationError,
    >)
        requires
            old(self)@.wf(),
        ensures
            final(self)@.wf(),
            r == crate::env::outcome(old(self)@.remove_verifier_error(*verifier), ()),
            final(self)@ == match r {
                Err(_) => old(self)@,
                Ok(_) => VerificationModel {
                    verifiers: old(self)@.verifiers.remove(*verifier),
                    ..old(self)@
                },
            },
            r is Ok ==> forall|who: Address|
                #[trigger] final(self)@.verifiers.contains(who) == (who != *verifier
                    && old(self)@.verifiers.contains(who)),
            final(env)@ == match r {
                Err(_) => admin_auth(old(self)@, old(env)@),
                Ok(_) => admin_auth(old(self)@, old(env)@).emit(Effect::ExtendInstance).event(
                    VerificationEvent::VerifierRemoved { verifier: *verifier },
                ),
            },
    {
        self.require_admin(env)?;
        if !self.verifiers.contains(verifier) {
            return Err(VerificationError::VerifierNotFound);
        }
        self.verifiers.remove(verifier);
        env.emit(Effect::ExtendInstance);
        env.event(VerificationEvent::VerifierRemoved { verifier: *verifier });
        Ok(())
    }

    /// Registers or updates a merchant's configuration.
    pub fn set_merchant_config(
        &mut self,
        env: &mut VerificationEnv,
        merchant: &Address,
        config: MerchantConfig,
    ) -> (r: Result<(), VerificationError>)
        requires
            old(self)@.wf(),
        ensures
            final(self)@.wf(),
            r == crate::env::outcome(old(self)@.set_merchant_error(config), ()),
            final(self)@ == match r {
                Err(_) => old(self)@,
                Ok(_) => VerificationModel {
                    merchants: old(self)@.merchants.insert(*merchant, config),
                    ..old(self)@
                },
            },
            r is Ok ==> final(self)@.merchants.contains_pair(*merchant, config) && forall|who: Address|
                who != *merchant ==> #[trigger] final(self)@.merchants[who] == old(self)@.merchants[who],
            final(env)@ == match r {
                Err(_) => admin_auth(old(self)@, old(env)@),
                Ok(_) => admin_auth(old(self)@, old(env)@).emit(Effect::ExtendInstance).emit(
                    Effect::ExtendEntry(DataKey::MerchantConfig(*merchant)),
                ).event(VerificationEvent::MerchantSet { merchant: *merchant }),
            },
    {
        self.require_admin(env)?;
        if config.min_amount < 0 || config.max_amount < 0 {
            return Err(VerificationError::InvalidAmount);
        }
        self.merchants.set(*merchant, config);
        env.emit(Effect::ExtendInstance);
        env.emit(Effect::ExtendEntry(DataKey::MerchantConfig(*merchant)));
        env.event(VerificationEvent::MerchantSet { merchant: *merchant });
        Ok(())
    }

    /// Deactivates a merchant and keeps its configuration.
    pub fn deactivate_merchant(&mut self, env: &mut VerificationEnv, merchant: &Address) -> (r:
        Result<(), VerificationError>)
        requires
            old(self)@.wf(),
        ensures
            final(self)@.wf(),
            r == crate::env::outcome(old(self)@.deactivate_error(*merchant), ()),
            final(self)@ == match r {
                Err(_) => old(self)@,
                Ok(_) => VerificationModel {
                    merchants: old(self)@.merchants.insert(
                        *merchant,
                        MerchantConfig { active: false, ..old(self)@.merchants[*merchant] },
                    ),
                    ..old(self)@
                },
            },
            r is Ok ==> ({
                let (before, after) = (old(self)@.merchants[*merchant], final(self)@.merchants[*merchant]);
                &&& !after.active && after.vault == before.vault
                &&& after.min_amount == before.min_amount && after.max_amount == before.max_amount
                &&& forall|who: Address|
                    who != *merchant ==> #[trigger] final(self)@.merchants[who]
                        == old(self)@.merchants[who]
            }),
            final(env)@ == match r {
                Err(_) => admin_auth(old(self)@, old(env)@),
                Ok(_) => admin_auth(old(self)@, old(env)@).emit(Effect::ExtendInstance).emit(
                    Effect::ExtendEntry(DataKey::MerchantConfig(*merchant)),
                ).event(VerificationEvent::MerchantDeactivated { merchant: *merchant }),
            },
    {
        self.require_admin(env)?;
        let mut config: MerchantConfig = match self.merchants.get(merchant) {
            Some(config) => *config,
            None => {
                return Err(VerificationError::MerchantNotFound);
            },
        };
        config.active = false;
        self.merchants.set(*merchant, config);
        env.emit(Effect::ExtendInstance);
        env.emit(Effect::ExtendEntry(DataKey::MerchantConfig(*merchant)));
        env.event(VerificationEvent::MerchantDeactivated { merchant: *merchant });
        Ok(())
    }

    /// Sets the duplicate-detection window in ledgers.
    pub fn set_duplicate_window(&mut self, env: &mut VerificationEnv, window: u32) -> (r: Result<
        (),
        VerificationError,
    >)
        requires
            old(self)@.wf(),
        ensures
            final(self)@.wf(),
            r == crate::env::outcome(old(self)@.admin_error(), ()),
            final(self)@ == match r {
                Err(_) => old(self)@,
                Ok(_) => VerificationModel { duplicate_window: window, ..old(self)@ },
            },
            r is Ok ==> final(self)@.duplicate_window == window && final(self)@.expiry_window == old(self)@.expiry_window,
            final(env)@ == match r {
                Err(_) => old(env)@,
                Ok(_) => old(env)@.auth(old(self)@.admin->0).emit(Effect::ExtendInstance),
            },
    {
        self.require_admin(env)?;
        env.emit(Effect::ExtendInstance);
        self.duplicate_window = window;
        Ok(())
    }

    /// Sets the payment expiry window in ledgers.
    pub fn set_expiry_window(&mut self, env: &mut VerificationEnv, window: u32) -> (r: Result<
        (),
        VerificationError,
    >)
        requires
            old(self)@.wf(),
        ensures
            final(self)@.wf(),
            r == crate::env::outcome(old(self)@.admin_error(), ()),
            final(self)@ == match r {
                Err(_) => old(self)@,
                Ok(_) => VerificationModel { expiry_window: window, ..old(self)@ },
            },
            r is Ok ==> final(self)@.expiry_window == window && final(self)@.duplicate_window == old(self)@.duplicate_window,
            final(env)@ == match r {
                Err(_) => old(env)@,
                Ok(_) => old(env)@.auth(old(self)@.admin->0).emit(Effect::ExtendInstance),
            },
    {
        self.require_admin(env)?;
        env.emit(Effect::ExtendInstance);
        self.expiry_window = window;
        Ok(())
    }

    /// The result of an earlier verification.
    pub fn get_verification(&self, verification_id: u64) -> (r: Result<
        &VerificationResult,
        VerificationError,
    >)
        ensures
            match r {
                Ok(v) => self@.records.contains_key(verification_id) && v@
                    == self@.records[verification_id],
                Err(e) => !self@.records.contains_key(verification_id) && e
                    == VerificationError::VerificationNotFound,
            },
    {
        match self.records.get(&verification_id) {
            Some(record) => Ok(record),
            None => Err(VerificationError::VerificationNotFound),
        }
    }

    /// A merchant's configuration.
    pub fn get_merchant_config(&self, merchant: &Address) -> (r: Result<
        MerchantConfig,
        VerificationError,
    >)
        ensures
            r == match self@.config(*merchant) {
                Some(config) => Ok(config),
                None => Err(VerificationError::MerchantNotFound),
            },
    {
        match self.merchants.get(merchant) {
            Some(config) => Ok(*config),
            None => Err(VerificationError::MerchantNotFound),
        }
    }

    /// Whether the address may submit verification requests.
    pub fn is_verifier(&self, verifier: &Address) -> (r: bool)
        ensures
            r == self@.verifiers.contains(*verifier),
    {
        self.verifiers.contains(verifier)
    }

    /// The duplicate-detection window in ledgers.
    pub fn get_duplicate_window(&self) -> (r: u32)
        ensures
            r == self@.duplicate_window,
    {
        self.duplicate_window
    }

    /// The payment expiry window in ledgers.
    pub fn get_expiry_window(&self) -> (r: u32)
        ensures
            r == self@.expiry_window,
    {
        self.expiry_window
    }
}

/// Running all checks passes exactly when each kind of check passes.
pub proof fn law_full_is_all_checks(
    m: VerificationModel,
    payer: Address,
    merchant: Address,
    amount: i128,
    payment_ledger: int,
    now: int,
)
    ensures
        all_passed(m.checks(VerificationType::Full, payer, merchant, amount, payment_ledger, now))
            == (all_passed(
            m.checks(VerificationType::Merchant, payer, merchant, amount, payment_ledger, now),
        ) && all_passed(
            m.checks(VerificationType::Amount, payer, merchant, amount, payment_ledger, now),
        ) && all_passed(
            m.checks(VerificationType::Duplicate, payer, merchant, amount, payment_ledger, now),
        ) && all_passed(
            m.checks(VerificationType::Expiry, payer, merchant, amount, payment_ledger, now),
        )),
{
    let config = m.config(merchant);
    let a = merchant_checks(config);
    let b = amount_checks(config, amount as int);
    let c = duplicate_checks(m.is_duplicate(payer, merchant, amount, now));
    let d = expiry_checks(m.is_expired(payment_ledger, now));
    lemma_all_passed_concat(a, b);
    lemma_all_passed_concat(a + b, c);
    lemma_all_passed_concat(a + b + c, d);
}

/// A payment accepted once is flagged as a duplicate when it is checked again
/// within the window.
pub proof fn law_repeat_within_window_fails(
    m: VerificationModel,
    kind: VerificationType,
    again: VerificationType,
    first_id: u64,
    payer: Address,
    merchant: Address,
    amount: i128,
    first_ledger: u32,
    second_ledger: u32,
    now: u32,
    later: u32,
)
    requires
        covers_duplicates(kind),
        covers_duplicates(again),
        now <= later,
        later - now < m.duplicate_window,
        !m.is_duplicate(payer, merchant, amount, now as int),
    ensures
        ({
            let after = m.verified(first_id, payer, merchant, amount, first_ledger, kind, now);
            !all_passed(
                after.checks(again, payer, merchant, amount, second_ledger as int, later as int),
            )
        }),
{
    let after = m.verified(first_id, payer, merchant, amount, first_ledger, kind, now);
    assert(after.is_duplicate(payer, merchant, amount, later as int));
    assert(!duplicate_checks(true)[0].passed);
    law_full_is_all_checks(
        after,
        payer,
        merchant,
        amount,
        second_ledger as int,
        later as int,
    );
}

/// A flagged duplicate does not extend the window, and once the window is
/// over the payment is accepted again.
pub proof fn law_window_ends(
    m: VerificationModel,
    kind: VerificationType,
    id: u64,
    payer: Address,
    merchant: Address,
    amount: i128,
    payment_ledger: u32,
    now: u32,
    later: u32,
)
    requires
        m.is_duplicate(payer, merchant, amount, now as int),
        later >= m.seen[PaymentKey { payer, merchant, amount }] + m.duplicate_window,
    ensures
        ({
            let after = m.verified(id, payer, merchant, amount, payment_ledger, kind, now);
            &&& after.seen == m.seen
            &&& !after.is_duplicate(payer, merchant, amount, later as int)
        }),
{
}

/// Accepting or refusing one payment leaves the duplicate check of every
/// payment with another payer, merchant or amount as it was.
pub proof fn law_payments_are_told_apart(
    m: VerificationModel,
    id: u64,
    payer: Address,
    merchant: Address,
    amount: i128,
    payment_ledger: u32,
    kind: VerificationType,
    now: u32,
    other_payer: Address,
    other_merchant: Address,
    other_amount: i128,
    later: int,
)
    requires
        other_payer != payer || other_merchant != merchant || other_amount != amount,
    ensures
        ({
            let after = m.verified(id, payer, merchant, amount, payment_ledger, kind, now);
            after.is_duplicate(other_payer, other_merchant, other_amount, later)
                == m.is_duplicate(other_payer, other_merchant, other_amount, later)
        }),
{
}

/// Where the duplicate check stands in the checks of a payment: exactly one
/// entry is of its name if the choice of checks covers duplicates, and none
/// otherwise. The entry says whether the payment is a duplicate.
pub proof fn law_one_duplicate_entry(
    m: VerificationModel,
    kind: VerificationType,
    payer: Address,
    merchant: Address,
    amount: i128,
    payment_ledger: int,
    now: int,
)
    ensures
        ({
            let checks = m.checks(kind, payer, merchant, amount, payment_ledger, now);
            let duplicate = m.is_duplicate(payer, merchant, amount, now);
            if covers_duplicates(kind) {
                exists|at: int|
                    {
                        &&& 0 <= at < checks.len()
                        &&& (#[trigger] checks[at]).name == CheckName::DuplicateCheck
                        &&& checks[at].passed == !duplicate
                        &&& forall|i: int|
                            0 <= i < checks.len() && i != at ==> (#[trigger] checks[i]).name
                                != CheckName::DuplicateCheck
                    }
            } else {
                forall|i: int|
                    0 <= i < checks.len() ==> (#[trigger] checks[i]).name
                        != CheckName::DuplicateCheck
            }
        }),
{
    let checks = m.checks(kind, payer, merchant, amount, payment_ledger, now);
    let duplicate = m.is_duplicate(payer, merchant, amount, now);
    let a = merchant_checks(m.config(merchant));
    let b = amount_checks(m.config(merchant), amount as int);
    let c = duplicate_checks(duplicate);
    let d = expiry_checks(m.is_expired(payment_ledger, now));
    if kind == VerificationType::Full {
        let at = (a.len() + b.len()) as int;
        assert(checks[at] == c[0]);
        assert forall|i: int| 0 <= i < checks.len() && i != at implies (#[trigger] checks[i]).name
            != CheckName::DuplicateCheck by {
            if i < a.len() {
                assert(checks[i] == a[i]);
            } else if i < at {
                assert(checks[i] == b[i - a.len()]);
            } else {
                assert(checks[i] == d[i - at - 1]);
            }
        }
    } else if kind == VerificationType::Duplicate {
        assert(checks[0] == c[0]);
    }
}

/// A call that verifies a payment, and the ledger at which it is made.
pub struct Request {
    pub payment_id: u64,
    pub payer: Address,
    pub merchant: Address,
    pub amount: i128,
    pub payment_ledger: u32,
    pub kind: VerificationType,
    pub now: u32,
}

/// Whether the request checks the payment for duplicates.
pub open spec fn checks_for_duplicates(r: Request, payment: PaymentKey) -> bool {
    &&& covers_duplicates(r.kind)
    &&& r.payer == payment.payer
    &&& r.merchant == payment.merchant
    &&& r.amount == payment.amount
}

impl VerificationModel {
    /// The state after a request.
    pub open spec fn after_request(self, r: Request) -> VerificationModel {
        self.verified(
            r.payment_id,
            r.payer,
            r.merchant,
            r.amount,
            r.payment_ledger,
            r.kind,
            r.now,
        )
    }

    /// The result of a request.
    pub open spec fn request_result(self, r: Request) -> ResultModel {
        self.result(
            r.payment_id,
            r.payer,
            r.merchant,
            r.amount,
            r.payment_ledger,
            r.kind,
            r.now,
        )
    }

    /// The state after a run of requests.
    pub open spec fn after_run(self, run: Seq<Request>) -> VerificationModel
        decreases run.len(),
    {
        if run.len() == 0 {
            self
        } else {
            self.after_run(run.drop_last()).after_request(run.last())
        }
    }
}

proof fn lemma_run_keeps_acceptance(
    m: VerificationModel,
    run: Seq<Request>,
    payment: PaymentKey,
    accepted: u32,
)
    requires
        m.seen.contains_key(payment),
        m.seen[payment] == accepted,
        forall|i: int|
            0 <= i < run.len() && checks_for_duplicates(#[trigger] run[i], payment) ==> accepted
                <= run[i].now < accepted + m.duplicate_window,
    ensures
        m.after_run(run).seen.contains_key(payment),
        m.after_run(run).seen[payment] == accepted,
        m.after_run(run).duplicate_window == m.duplicate_window,
    decreases run.len(),
{
    if run.len() > 0 {
        let before = run.drop_last();
        assert forall|i: int|
            0 <= i < before.len() && checks_for_duplicates(
                #[trigger] before[i],
                payment,
            ) implies accepted <= before[i].now < accepted + m.duplicate_window by {
            assert(before[i] == run[i]);
        }
        lemma_run_keeps_acceptance(m, before, payment, accepted);
        let last = run.last();
        assert(last == run[run.len() - 1]);
        if last.payer == payment.payer && last.merchant == payment.merchant && last.amount
            == payment.amount {
            assert(payment == PaymentKey {
                payer: last.payer,
                merchant: last.merchant,
                amount: last.amount,
            });
        }
    }
}

/// A payment accepted at one ledger is flagged by every later request that
/// checks it for duplicates before the window is over, however many there are
/// and whatever other payments are verified in between. None of them extends
/// the window: once as many ledgers have passed since the acceptance as the
/// window is long, the payment passes, and its window starts anew.
pub proof fn law_window_holds_over_a_run(
    m: VerificationModel,
    first: Request,
    run: Seq<Request>,
    last: Request,
)
    requires
        ({
            let payment = PaymentKey {
                payer: first.payer,
                merchant: first.merchant,
                amount: first.amount,
            };
            &&& covers_duplicates(first.kind)
            &&& !m.is_duplicate(first.payer, first.merchant, first.amount, first.now as int)
            &&& forall|i: int|
                0 <= i < run.len() && checks_for_duplicates(#[trigger] run[i], payment)
                    ==> first.now <= run[i].now < first.now + m.duplicate_window
            &&& checks_for_duplicates(last, payment)
            &&& last.now >= first.now + m.duplicate_window
        }),
    ensures
        ({
            let payment = PaymentKey {
                payer: first.payer,
                merchant: first.merchant,
                amount: first.amount,
            };
            let accepted = m.after_request(first);
            let ended = accepted.after_run(run);
            &&& forall|i: int|
                0 <= i < run.len() && checks_for_duplicates(#[trigger] run[i], payment) ==> {
                    let state = accepted.after_run(run.take(i));
                    let checks = state.checks(
                        VerificationType::Duplicate,
                        run[i].payer,
                        run[i].merchant,
                        run[i].amount,
                        run[i].payment_ledger as int,
                        run[i].now as int,
                    );
                    &&& checks == duplicate_checks(true)
                    &&& checks.len() == 1
                    &&& !all_passed(checks)
                    &&& !state.request_result(run[i]).passed
                    &&& state.after_request(run[i]).seen == state.seen
                }
            &&& ended.seen[payment] == first.now
            &&& ended.checks(
                VerificationType::Duplicate,
                last.payer,
                last.merchant,
                last.amount,
                last.payment_ledger as int,
                last.now as int,
            ) == duplicate_checks(false)
            &&& all_passed(duplicate_checks(false))
            &&& ended.after_request(last).seen == ended.seen.insert(payment, last.now)
        }),
{
    let payment = PaymentKey { payer: first.payer, merchant: first.merchant, amount: first.amount };
    let accepted = m.after_request(first);
    assert(accepted.seen[payment] == first.now);
    assert(!duplicate_checks(true)[0].passed);
    assert forall|i: int|
        0 <= i < run.len() && checks_for_duplicates(#[trigger] run[i], payment) implies {
        let state = accepted.after_run(run.take(i));
        let checks = state.checks(
            VerificationType::Duplicate,
            run[i].payer,
            run[i].merchant,
            run[i].amount,
            run[i].payment_ledger as int,
            run[i].now as int,
        );
        &&& checks == duplicate_checks(true)
        &&& checks.len() == 1
        &&& !all_passed(checks)
        &&& !state.request_result(run[i]).passed
        &&& state.after_request(run[i]).seen == state.seen
    } by {
        let before = run.take(i);
        let r = run[i];
        assert forall|j: int|
            0 <= j < before.len() && checks_for_duplicates(
                #[trigger] before[j],
                payment,
            ) implies first.now <= before[j].now < first.now + m.duplicate_window by {
            assert(before[j] == run[j]);
        }
        lemma_run_keeps_acceptance(accepted, before, payment, first.now);
        let state = accepted.after_run(before);
        assert(state.is_duplicate(r.payer, r.merchant, r.amount, r.now as int));
        law_full_is_all_checks(
            state,
            r.payer,
            r.merchant,
            r.amount,
            r.payment_ledger as int,
            r.now as int,
        );
    }
    lemma_run_keeps_acceptance(accepted, run, payment, first.now);
}

/// A stored result is what the verification returned, and later
/// verifications leave it as it is.
pub proof fn law_results_are_kept(
    m: VerificationModel,
    payment_id: u64,
    payer: Address,
    merchant: Address,
    amount: i128,
    payment_ledger: u32,
    kind: VerificationType,
    now: u32,
    id: u64,
)
    requires
        m.wf(),
        m.last_id < u64::MAX,
    ensures
        ({
            let after = m.verified(payment_id, payer, merchant, amount, payment_ledger, kind, now);
            let result = m.result(payment_id, payer, merchant, amount, payment_ledger, kind, now);
            &&& result.verification_id == m.last_id + 1
            &&& !m.records.contains_key(result.verification_id)
            &&& after.records.contains_key(result.verification_id)
            &&& after.records[result.verification_id] == result
            &&& m.records.contains_key(id) ==> after.records.contains_key(id) && after.records[id]
                == m.records[id]
        }),
{
}

/// An inactive or unknown merchant passes neither the merchant check nor the
/// full check.
pub proof fn law_inactive_merchant_fails(
    m: VerificationModel,
    payer: Address,
    merchant: Address,
    amount: i128,
    payment_ledger: int,
    now: int,
)
    requires
        m.config(merchant) matches Some(c) ==> !c.active,
    ensures
        !all_passed(
            m.checks(VerificationType::Merchant, payer, merchant, amount, payment_ledger, now),
        ),
        !all_passed(m.checks(VerificationType::Full, payer, merchant, amount, payment_ledger, now)),
{
    let a = merchant_checks(m.config(merchant));
    if m.config(merchant) is None {
        assert(!a[0].passed);
    } else {
        assert(!a[1].passed);
    }
    law_full_is_all_checks(m, payer, merchant, amount, payment_ledger, now);
}

/// Adding a verifier and removing it again restores the set of verifiers, and
/// each step is allowed after the other.
pub proof fn law_verifier_round_trip(m: VerificationModel, verifier: Address)
    requires
        m.add_verifier_error(verifier) is None,
    ensures
        ({
            let added = VerificationModel { verifiers: m.verifiers.insert(verifier), ..m };
            let removed = VerificationModel { verifiers: added.verifiers.remove(verifier), ..added };
            &&& added.remove_verifier_error(verifier) is None
            &&& !m.paused ==> added.verify_error(verifier) is None
            &&& removed == m
        }),
{
    let added = VerificationModel { verifiers: m.verifiers.insert(verifier), ..m };
    assert(added.verifiers.remove(verifier) =~= m.verifiers);
}

/// Each byte is mixed into the fingerprint by the exclusive or and a
/// multiplication modulo 2^64, in the order of the bytes.
pub proof fn law_fingerprint_steps(hash: u64, bytes: Seq<u8>, byte: u8)
    ensures
        fnv(hash, Seq::<u8>::empty()) == hash,
        fnv(hash, bytes.push(byte)) == ((fnv(hash, bytes) ^ (byte as u64)) * 1_099_511_628_211)
            % (u64::MAX + 1),
{
    lemma_fnv_push(hash, bytes, byte);
}

/// The fingerprint of a payment is made of the first sixteen bytes of the
/// payer, the first sixteen of the merchant and the sixteen of the amount.
pub proof fn law_fingerprint_of_payment(payer: Address, merchant: Address, amount: i128)
    ensures
        ({
            let bytes = payment_bytes(payer, merchant, amount);
            &&& fingerprint(payer, merchant, amount) == fnv(0xcbf2_9ce4_8422_2325, bytes)
            &&& bytes.len() == 48
            &&& forall|i: int| 0 <= i < 16 ==> #[trigger] bytes[i] == payer.text@[i]
            &&& forall|i: int| 16 <= i < 32 ==> #[trigger] bytes[i] == merchant.text@[i - 16]
            &&& bytes.skip(32) == le_bytes(twos_complement(amount), 16)
        }),
{
    law_bytes_lowest_first(twos_complement(amount), 16);
    assert(payment_bytes(payer, merchant, amount).skip(32) =~= le_bytes(
        twos_complement(amount),
        16,
    ));
}

/// An amount goes into the fingerprint as the number below 2^128 that differs
/// from it by a multiple of 2^128.
pub proof fn law_amount_bits(amount: i128)
    ensures
        0 <= twos_complement(amount) <= u128::MAX,
        amount >= 0 ==> twos_complement(amount) == amount,
        amount < 0 ==> twos_complement(amount) == u128::MAX + 1 + amount,
{
}

/// The bytes of a number stand lowest first: the first is its remainder by
/// 256, the others are those of its quotient.
pub proof fn law_bytes_lowest_first(n: int, count: nat)
    ensures
        le_bytes(n, count).len() == count,
        count > 0 ==> le_bytes(n, count)[0] == n % 256,
        count > 0 ==> le_bytes(n, count).skip(1) == le_bytes(n / 256, (count - 1) as nat),
    decreases count,
{
    if count > 0 {
        law_bytes_lowest_first(n / 256, (count - 1) as nat);
        assert(le_bytes(n, count).skip(1) =~= le_bytes(n / 256, (count - 1) as nat));
    }
}

/// For a registered merchant the amount check passes if and only if the amount
/// is at least the minimum, where there is one, and at most the maximum, where
/// there is one. The two bounds count independently of each other. For a
/// merchant that is not registered it fails, and so does the full check of an
/// amount outside the range.
pub proof fn law_amount_within_range(
    m: VerificationModel,
    payer: Address,
    merchant: Address,
    amount: i128,
    payment_ledger: int,
    now: int,
)
    ensures
        ({
            let checks = m.checks(
                VerificationType::Amount,
                payer,
                merchant,
                amount,
                payment_ledger,
                now,
            );
            let full = m.checks(
                VerificationType::Full,
                payer,
                merchant,
                amount,
                payment_ledger,
                now,
            );
            let known = m.merchants.contains_key(merchant);
            let c = m.merchants[merchant];
            let low = c.min_amount > 0 && amount < c.min_amount;
            let high = c.max_amount > 0 && amount > c.max_amount;
            &&& all_passed(checks) <==> known && !low && !high
            &&& known && (low || high) ==> !all_passed(full)
            &&& !known ==> !all_passed(full)
            &&& known ==> checks.len() == 2 && checks[0].name == CheckName::AmountMin
                && checks[1].name == CheckName::AmountMax && checks[0].passed == !low
                && checks[1].passed == !high && checks[0].detail == if low {
                CheckDetail::BelowMinimum
            } else {
                CheckDetail::Passed
            } && checks[1].detail == if high {
                CheckDetail::AboveMaximum
            } else {
                CheckDetail::Passed
            }
            &&& !known ==> checks.len() == 1 && checks[0] == (CheckResult {
                name: CheckName::AmountMerchantConfig,
                passed: false,
                detail: CheckDetail::MerchantNotConfigured,
            })
        }),
{
    let checks = m.checks(VerificationType::Amount, payer, merchant, amount, payment_ledger, now);
    law_full_is_all_checks(m, payer, merchant, amount, payment_ledger, now);
    if m.merchants.contains_key(merchant) {
        assert(checks.len() == 2);
        assert(all_passed(checks) <==> checks[0].passed && checks[1].passed);
    } else {
        assert(!checks[0].passed);
    }
}

/// The merchant check passes if and only if the merchant is registered and
/// active, and says which of the two is missing.
pub proof fn law_merchant_registered_and_active(
    m: VerificationModel,
    payer: Address,
    merchant: Address,
    amount: i128,
    payment_ledger: int,
    now: int,
)
    ensures
        ({
            let checks = m.checks(
                VerificationType::Merchant,
                payer,
                merchant,
                amount,
                payment_ledger,
                now,
            );
            let known = m.merchants.contains_key(merchant);
            let active = m.merchants[merchant].active;
            &&& all_passed(checks) <==> known && active
            &&& !known ==> checks.len() == 1 && checks[0] == (CheckResult {
                name: CheckName::MerchantRegistered,
                passed: false,
                detail: CheckDetail::MerchantNotRegistered,
            })
            &&& known ==> checks.len() == 2 && checks[0] == (CheckResult {
                name: CheckName::MerchantRegistered,
                passed: true,
                detail: CheckDetail::Passed,
            }) && checks[1] == (CheckResult {
                name: CheckName::MerchantActive,
                passed: active,
                detail: if active {
                    CheckDetail::Passed
                } else {
                    CheckDetail::MerchantInactive
                },
            })
        }),
{
    let checks = m.checks(VerificationType::Merchant, payer, merchant, amount, payment_ledger, now);
    if m.merchants.contains_key(merchant) {
        assert(all_passed(checks) <==> checks[0].passed && checks[1].passed);
    } else {
        assert(!checks[0].passed);
    }
}

/// A payment has expired once more ledgers have passed since it was made than
/// the window is long, and not before.
pub proof fn law_payment_expires(
    m: VerificationModel,
    payer: Address,
    merchant: Address,
    amount: i128,
    payment_ledger: int,
    now: int,
)
    ensures
        ({
            let checks = m.checks(
                VerificationType::Expiry,
                payer,
                merchant,
                amount,
                payment_ledger,
                now,
            );
            let expired = now > payment_ledger + m.expiry_window;
            &&& checks.len() == 1
            &&& all_passed(checks) <==> !expired
            &&& checks[0] == (CheckResult {
                name: CheckName::ExpiryCheck,
                passed: !expired,
                detail: if expired {
                    CheckDetail::Expired
                } else {
                    CheckDetail::Passed
                },
            })
        }),
{
    let checks = m.checks(VerificationType::Expiry, payer, merchant, amount, payment_ledger, now);
    assert(all_passed(checks) <==> checks[0].passed);
}

/// A payment is a duplicate exactly when one of the same payer, merchant and
/// amount was accepted and fewer ledgers have passed since than the window is
/// long. The check notes a payment that is none, at the ledger of the check,
/// and nothing otherwise.
pub proof fn law_duplicate_terms(
    m: VerificationModel,
    payer: Address,
    merchant: Address,
    amount: i128,
    payment_ledger: int,
    now: u32,
)
    ensures
        ({
            let checks = m.checks(
                VerificationType::Duplicate,
                payer,
                merchant,
                amount,
                payment_ledger,
                now as int,
            );
            let payment = PaymentKey { payer, merchant, amount };
            let duplicate = m.seen.contains_key(payment) && (if now >= m.seen[payment] {
                now - m.seen[payment]
            } else {
                0
            }) < m.duplicate_window;
            let after = m.noted(payer, merchant, amount, now);
            &&& checks.len() == 1
            &&& all_passed(checks) <==> !duplicate
            &&& checks[0] == (CheckResult {
                name: CheckName::DuplicateCheck,
                passed: !duplicate,
                detail: if duplicate {
                    CheckDetail::DuplicateDetected
                } else {
                    CheckDetail::Passed
                },
            })
            &&& duplicate ==> after == m
            &&& !duplicate ==> after.seen == m.seen.insert(payment, now)
            &&& (VerificationModel { seen: m.seen, ..after }) == m
        }),
{
    let checks = m.checks(
        VerificationType::Duplicate,
        payer,
        merchant,
        amount,
        payment_ledger,
        now as int,
    );
    assert(all_passed(checks) <==> checks[0].passed);
}

/// The full check runs the merchant, amount, duplicate and expiry checks in
/// that order, with the entries that each of them makes by itself.
pub proof fn law_full_check_in_order(
    m: VerificationModel,
    payer: Address,
    merchant: Address,
    amount: i128,
    payment_ledger: int,
    now: int,
)
    ensures
        m.checks(VerificationType::Full, payer, merchant, amount, payment_ledger, now) == m.checks(
            VerificationType::Merchant,
            payer,
            merchant,
            amount,
            payment_ledger,
            now,
        ) + m.checks(
            VerificationType::Amount,
            payer,
            merchant,
            amount,
            payment_ledger,
            now,
        ) + m.checks(
            VerificationType::Duplicate,
            payer,
            merchant,
            amount,
            payment_ledger,
            now,
        ) + m.checks(VerificationType::Expiry, payer, merchant, amount, payment_ledger, now),
{
}

/// A result tells of the payment as it was submitted, passes exactly when no
/// entry failed, and takes the next identifier. Verifying changes neither the
/// merchants, the verifiers nor the settings, and notes the payment only where
/// duplicates are checked.
pub proof fn law_result_tells_of_the_payment(
    m: VerificationModel,
    payment_id: u64,
    payer: Address,
    merchant: Address,
    amount: i128,
    payment_ledger: u32,
    kind: VerificationType,
    now: u32,
)
    requires
        m.last_id < u64::MAX,
    ensures
        ({
            let r = m.result(payment_id, payer, merchant, amount, payment_ledger, kind, now);
            let after = m.verified(payment_id, payer, merchant, amount, payment_ledger, kind, now);
            &&& r.verification_id == m.last_id + 1
            &&& r.payment_id == payment_id
            &&& r.payer == payer
            &&& r.merchant == merchant
            &&& r.amount == amount
            &&& r.verification_type == kind
            &&& r.verified_at == now
            &&& r.payment_ledger == payment_ledger
            &&& r.passed <==> forall|i: int|
                0 <= i < r.checks.len() ==> (#[trigger] r.checks[i]).passed
            &&& r.checks == m.checks(
                kind,
                payer,
                merchant,
                amount,
                payment_ledger as int,
                now as int,
            )
            &&& after.last_id == m.last_id + 1
            &&& after.records == m.records.insert((m.last_id + 1) as u64, r)
            &&& after.admin == m.admin
            &&& after.paused == m.paused
            &&& after.version == m.version
            &&& after.duplicate_window == m.duplicate_window
            &&& after.expiry_window == m.expiry_window
            &&& after.verifiers == m.verifiers
            &&& after.merchants == m.merchants
            &&& kind != VerificationType::Duplicate && kind != VerificationType::Full ==> after.seen
                == m.seen
            &&& kind == VerificationType::Duplicate || kind == VerificationType::Full ==> after.seen
                == m.noted(payer, merchant, amount, now).seen
        }),
{
}

/// A payment is verified at the wish of an authorised verifier while the
/// contract is not paused. Only an administrator changes verifiers, merchants
/// and settings; a merchant's bounds are not negative.
pub proof fn law_verification_conditions(
    m: VerificationModel,
    who: Address,
    merchant: Address,
    config: MerchantConfig,
)
    ensures
        m.verify_error(who) is None <==> !m.paused && m.verifiers.contains(who),
        !m.paused && !m.verifiers.contains(who) ==> m.verify_error(who) == Some(
            VerificationError::Unauthorized,
        ),
        m.admin_error() is None <==> m.admin is Some,
        m.add_verifier_error(who) is None <==> m.admin is Some && !m.verifiers.contains(who),
        m.remove_verifier_error(who) is None <==> m.admin is Some && m.verifiers.contains(who),
        m.set_merchant_error(config) is None <==> m.admin is Some && config.min_amount >= 0
            && config.max_amount >= 0,
        m.deactivate_error(merchant) is None <==> m.admin is Some && m.merchants.contains_key(
            merchant,
        ),
        m.admin is None ==> m.admin_error() == Some(VerificationError::NotInitialized)
            && m.add_verifier_error(who) == Some(VerificationError::NotInitialized)
            && m.remove_verifier_error(who) == Some(VerificationError::NotInitialized)
            && m.set_merchant_error(config) == Some(VerificationError::NotInitialized)
            && m.deactivate_error(merchant) == Some(VerificationError::NotInitialized),
        m.admin is Some && m.verifiers.contains(who) ==> m.add_verifier_error(who) == Some(
            VerificationError::VerifierAlreadyAdded,
        ),
        m.admin is Some && !m.verifiers.contains(who) ==> m.remove_verifier_error(who) == Some(
            VerificationError::VerifierNotFound,
        ),
        m.admin is Some && !m.merchants.contains_key(merchant) ==> m.deactivate_error(merchant)
            == Some(VerificationError::MerchantNotFound),
        m.merchants.contains_key(merchant) ==> m.config(merchant) == Some(m.merchants[merchant]),
        !m.merchants.contains_key(merchant) ==> m.config(merchant) is None,
{
}

/// Where no window is given, a payment counts as a duplicate for 120 ledgers
/// and expires after 60.
pub proof fn law_default_windows()
    ensures
        DEFAULT_DUPLICATE_WINDOW == 120,
        DEFAULT_EXPIRY_WINDOW == 60,
{
}

/// A paused contract verifies nothing.
pub proof fn law_pause_stops_verification(m: VerificationModel, verifier: Address)
    requires
        m.paused,
    ensures
        m.verify_error(verifier) == Some(VerificationError::ContractPaused),
{
}

/// The numbers under which callers see the values are fixed.
pub proof fn law_verification_type_numbers(v: VerificationType)
    ensures
        v is Amount ==> v.number() == 0,
        v is Merchant ==> v.number() == 1,
        v is Duplicate ==> v.number() == 2,
        v is Expiry ==> v.number() == 3,
        v is Full ==> v.number() == 4,
{
}

/// The texts of the values are fixed.
pub proof fn law_check_name_texts(v: CheckName)
    ensures
        v is AmountMerchantConfig ==> v.spelled() == "amount_merchant_config"@,
        v is AmountMin ==> v.spelled() == "amount_min"@,
        v is AmountMax ==> v.spelled() == "amount_max"@,
        v is MerchantRegistered ==> v.spelled() == "merchant_registered"@,
        v is MerchantActive ==> v.spelled() == "merchant_active"@,
        v is DuplicateCheck ==> v.spelled() == "duplicate_check"@,
        v is ExpiryCheck ==> v.spelled() == "expiry_check"@,
{
}

/// The texts of the values are fixed.
pub proof fn law_check_detail_texts(v: CheckDetail)
    ensures
        v is Passed ==> v.spelled() == "ok"@,
        v is MerchantNotConfigured ==> v.spelled() == "merchant not configured"@,
        v is BelowMinimum ==> v.spelled() == "amount below merchant minimum"@,
        v is AboveMaximum ==> v.spelled() == "amount exceeds merchant maximum"@,
        v is MerchantNotRegistered ==> v.spelled() == "merchant not registered"@,
        v is MerchantInactive ==> v.spelled() == "merchant is inactive"@,
        v is DuplicateDetected ==> v.spelled() == "duplicate payment detected within window"@,
        v is Expired ==> v.spelled() == "payment has expired"@,
{
}

/// The numbers under which callers see the values are fixed.
pub proof fn law_verification_error_numbers(v: VerificationError)
    ensures
        v is AlreadyInitialized ==> v.number() == 1,
        v is NotInitialized ==> v.number() == 2,
        v is Unauthorized ==> v.number() == 3,
        v is ContractPaused ==> v.number() == 4,
        v is MerchantNotFound ==> v.number() == 5,
        v is VerificationNotFound ==> v.number() == 6,
        v is VerifierAlreadyAdded ==> v.number() == 7,
        v is VerifierNotFound ==> v.number() == 8,
        v is MerchantAlreadyRegistered ==> v.number() == 9,
        v is InvalidAmount ==> v.number() == 10,
{
}

/// The topics under which the events are announced are fixed.
pub proof fn law_verification_event_topics(v: VerificationEvent)
    ensures
        v is Initialized ==> v.topic_names() == ("verify"@, "init"@),
        v is VerifierAdded ==> v.topic_names() == ("verify"@, "vrf_add"@),
        v is VerifierRemoved ==> v.topic_names() == ("verify"@, "vrf_rm"@),
        v is MerchantSet ==> v.topic_names() == ("verify"@, "merch_set"@),
        v is MerchantDeactivated ==> v.topic_names() == ("verify"@, "merch_off"@),
        v is Done ==> v.topic_names() == ("verify"@, "done"@),
        v is Paused ==> v.topic_names() == ("verify"@, "paused"@),
        v is Unpaused ==> v.topic_names() == ("verify"@, "unpaused"@),
        v is AdminTransferred ==> v.topic_names() == ("verify"@, "adm_xfer"@),
{
}

} // verus!
