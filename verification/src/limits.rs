//! Per-transaction, per-user and global payment limits.
//!
//! Spending is counted in windows of one day of ledgers. A window starts
//! with the first payment in it and is replaced by a fresh one once the day
//! has passed.
use crate::address::Address;
use crate::address::BytesN;
use crate::env::Effect;
use crate::env::Env;
use crate::table::AddressSet;
use crate::table::Table;
use vstd::prelude::*;

verus! {

/// Approximate ledgers per 24 hours at ~5 s/ledger.
pub const LEDGERS_PER_DAY: u32 = 17_280;

/// Keys of the stored entries.
#[derive(Clone, Copy, Debug, PartialEq, Eq)]
pub enum DataKey {
    /// The limits.
    Config,
    /// A user's spend window.
    UserWindow(Address),
    /// The spend window of all users together.
    GlobalWindow,
    /// An address that bypasses all limits.
    Whitelist(Address),
}

/// Configurable limit parameters.
#[derive(Clone, Copy, Debug, PartialEq, Eq)]
pub struct LimitConfig {
    /// Maximum amount a single user may send in one transaction.
    pub user_tx_limit: i128,
    /// Maximum amount a single user may send within one day window.
    pub user_daily_limit: i128,
    /// Maximum total amount all users may send within one day window.
    pub global_daily_limit: i128,
}

/// What was spent in a window.
#[derive(Clone, Copy, Debug, PartialEq, Eq)]
pub struct SpendWindow {
    /// Ledger sequence at which this window started.
    pub window_start: u32,
    /// Cumulative spend within the current window.
    pub spent: i128,
}

/// Failures of the limits contract.
#[derive(Clone, Copy, Debug, PartialEq, Eq, Structural)]
pub enum LimitError {
    AlreadyInitialized,
    NotInitialized,
    Unauthorized,
    ContractPaused,
    /// A single transaction exceeds the transaction limit.
    TxLimitExceeded,
    /// The user's spend would exceed its daily limit.
    UserDailyLimitExceeded,
    /// The total spend would exceed the global daily limit.
    GlobalDailyLimitExceeded,
    InvalidAmount,
    InvalidConfig,
    AddressAlreadyWhitelisted,
    AddressNotWhitelisted,
}

impl LimitError {
    /// The number under which callers see the failure.
    pub open spec fn number(self) -> u32 {
        match self {
            LimitError::AlreadyInitialized => 1,
            LimitError::NotInitialized => 2,
            LimitError::Unauthorized => 3,
            LimitError::ContractPaused => 4,
            LimitError::TxLimitExceeded => 5,
            LimitError::UserDailyLimitExceeded => 6,
            LimitError::GlobalDailyLimitExceeded => 7,
            LimitError::InvalidAmount => 8,
            LimitError::InvalidConfig => 9,
            LimitError::AddressAlreadyWhitelisted => 10,
            LimitError::AddressNotWhitelisted => 11,
        }
    }

    /// The number under which callers see the failure.
    pub fn code(&self) -> (r: u32)
        ensures
            r == self.number(),
    {
        match self {
            LimitError::AlreadyInitialized => 1,
            LimitError::NotInitialized => 2,
            LimitError::Unauthorized => 3,
            LimitError::ContractPaused => 4,
            LimitError::TxLimitExceeded => 5,
            LimitError::UserDailyLimitExceeded => 6,
            LimitError::GlobalDailyLimitExceeded => 7,
            LimitError::InvalidAmount => 8,
            LimitError::InvalidConfig => 9,
            LimitError::AddressAlreadyWhitelisted => 10,
            LimitError::AddressNotWhitelisted => 11,
        }
    }
}

/// What the limits contract announces.
#[derive(Clone, Copy, Debug, PartialEq, Eq)]
pub enum LimitEvent {
    Initialized { admin: Address },
    Recorded { payer: Address, amount: i128, user_spent: i128, global_spent: i128 },
    ConfigUpdated,
    WhitelistAdded { address: Address },
    WhitelistRemoved { address: Address },
    Paused,
    Unpaused,
    AdminTransferred { new_admin: Address },
}

impl LimitEvent {
    /// The two topics of the event.
    pub open spec fn topic_names(self) -> (Seq<char>, Seq<char>) {
        (
            "limits"@,
            match self {
                LimitEvent::Initialized { .. } => "init"@,
                LimitEvent::Recorded { .. } => "recorded"@,
                LimitEvent::ConfigUpdated => "cfg_upd"@,
                LimitEvent::WhitelistAdded { .. } => "wl_add"@,
                LimitEvent::WhitelistRemoved { .. } => "wl_rm"@,
                LimitEvent::Paused => "paused"@,
                LimitEvent::Unpaused => "unpaused"@,
                LimitEvent::AdminTransferred { .. } => "adm_xfer"@,
            },
        )
    }

    /// The two topics of the event.
    pub fn topics(&self) -> (r: (&'static str, &'static str))
        ensures
            (r.0@, r.1@) == self.topic_names(),
    {
        let name = match self {
            LimitEvent::Initialized { .. } => "init",
            LimitEvent::Recorded { .. } => "recorded",
            LimitEvent::ConfigUpdated => "cfg_upd",
            LimitEvent::WhitelistAdded { .. } => "wl_add",
            LimitEvent::WhitelistRemoved { .. } => "wl_rm",
            LimitEvent::Paused => "paused",
            LimitEvent::Unpaused => "unpaused",
            LimitEvent::AdminTransferred { .. } => "adm_xfer",
        };
        ("limits", name)
    }
}

/// The surroundings of a call of the limits contract.
pub type LimitEnv = Env<DataKey, LimitEvent>;

/// The state of the limits contract.
pub struct PaymentLimits {
    pub admin: Option<Address>,
    pub config: Option<LimitConfig>,
    pub paused: bool,
    pub version: u32,
    pub user_windows: Table<Address, SpendWindow>,
    pub global_window: Option<SpendWindow>,
    pub whitelist: AddressSet,
}

/// The mathematical value of the limits contract's state.
#[verifier::ext_equal]
pub struct LimitModel {
    pub admin: Option<Address>,
    pub config: Option<LimitConfig>,
    pub paused: bool,
    pub version: u32,
    pub user_windows: Map<Address, SpendWindow>,
    pub global_window: Option<SpendWindow>,
    pub whitelist: Set<Address>,
}

impl View for PaymentLimits {
    type V = LimitModel;

    open spec fn view(&self) -> LimitModel {
        LimitModel {
            admin: self.admin,
            config: self.config,
            paused: self.paused,
            version: self.version,
            user_windows: self.user_windows@,
            global_window: self.global_window,
            whitelist: self.whitelist@,
        }
    }
}

/// Whether all limits are positive.
pub open spec fn config_valid(c: LimitConfig) -> bool {
    c.user_tx_limit > 0 && c.user_daily_limit > 0 && c.global_daily_limit > 0
}

/// The window that counts at the ledger: the stored one, or a fresh one if
/// there is none or its day has passed.
pub open spec fn current_window(stored: Option<SpendWindow>, now: u32) -> SpendWindow {
    match stored {
        Some(w) => if now - w.window_start >= LEDGERS_PER_DAY {
            SpendWindow { window_start: now, spent: 0 }
        } else {
            w
        },
        None => SpendWindow { window_start: now, spent: 0 },
    }
}

/// The window after an amount was spent in it.
pub open spec fn spend(w: SpendWindow, amount: int) -> SpendWindow {
    SpendWindow { spent: (w.spent + amount) as i128, ..w }
}

/// What a limit still allows.
pub open spec fn allowance(limit: int, spent: int) -> int {
    if limit > spent {
        limit - spent
    } else {
        0
    }
}

impl LimitModel {
    /// Limits are positive, and no window counts less than nothing.
    pub open spec fn wf(self) -> bool {
        &&& self.admin is Some ==> self.config is Some
        &&& self.config matches Some(c) ==> config_valid(c)
        &&& forall|u: Address| #[trigger]
            self.user_windows.contains_key(u) ==> self.user_windows[u].spent >= 0
        &&& self.global_window matches Some(w) ==> w.spent >= 0
    }

    /// Why an administrative call is refused, if it is.
    pub open spec fn admin_error(self) -> Option<LimitError> {
        match self.admin {
            Some(_) => None,
            None => Some(LimitError::NotInitialized),
        }
    }

    /// The user's window that counts at the ledger.
    pub open spec fn user_window(self, user: Address, now: u32) -> SpendWindow {
        current_window(
            if self.user_windows.contains_key(user) {
                Some(self.user_windows[user])
            } else {
                None
            },
            now,
        )
    }

    /// The global window that counts at the ledger.
    pub open spec fn all_window(self, now: u32) -> SpendWindow {
        current_window(self.global_window, now)
    }

    /// Why a payment is refused, if it is.
    pub open spec fn payment_error(self, payer: Address, amount: int, now: u32) -> Option<
        LimitError,
    > {
        if self.paused {
            Some(LimitError::ContractPaused)
        } else if amount <= 0 {
            Some(LimitError::InvalidAmount)
        } else if self.whitelist.contains(payer) {
            None
        } else {
            match self.config {
                None => Some(LimitError::NotInitialized),
                Some(c) => if amount > c.user_tx_limit {
                    Some(LimitError::TxLimitExceeded)
                } else if self.user_window(payer, now).spent + amount > c.user_daily_limit {
                    Some(LimitError::UserDailyLimitExceeded)
                } else if self.all_window(now).spent + amount > c.global_daily_limit {
                    Some(LimitError::GlobalDailyLimitExceeded)
                } else {
                    None
                },
            }
        }
    }

    /// Whether the machine integers hold the sums of the limit checks.
    pub open spec fn payment_fits(self, payer: Address, amount: int, now: u32) -> bool {
        !self.paused && amount > 0 && !self.whitelist.contains(payer) ==> match self.config {
            None => true,
            Some(c) => amount <= c.user_tx_limit ==> {
                let user = self.user_window(payer, now).spent + amount;
                &&& user <= i128::MAX
                &&& user <= c.user_daily_limit ==> self.all_window(now).spent + amount <= i128::MAX
            },
        }
    }

    /// The state after a payment was let through.
    pub open spec fn recorded(self, payer: Address, amount: int, now: u32) -> LimitModel {
        if self.whitelist.contains(payer) {
            self
        } else {
            LimitModel {
                user_windows: self.user_windows.insert(
                    payer,
                    spend(self.user_window(payer, now), amount),
                ),
                global_window: Some(spend(self.all_window(now), amount)),
                ..self
            }
        }
    }

    /// Why a whitelisting is refused, if it is.
    pub open spec fn add_error(self, address: Address) -> Option<LimitError> {
        if self.admin is None {
            Some(LimitError::NotInitialized)
        } else if self.whitelist.contains(address) {
            Some(LimitError::AddressAlreadyWhitelisted)
        } else {
            None
        }
    }

    /// Why a removal from the whitelist is refused, if it is.
    pub open spec fn remove_error(self, address: Address) -> Option<LimitError> {
        if self.admin is None {
            Some(LimitError::NotInitialized)
        } else if !self.whitelist.contains(address) {
            Some(LimitError::AddressNotWhitelisted)
        } else {
            None
        }
    }

    /// What the user may still send in its window.
    pub open spec fn user_allowance(self, user: Address, now: u32) -> Result<i128, LimitError> {
        if self.whitelist.contains(user) {
            Ok(i128::MAX)
        } else {
            match self.config {
                None => Err(LimitError::NotInitialized),
                Some(c) => Ok(
                    allowance(
                        c.user_daily_limit as int,
                        self.user_window(user, now).spent as int,
                    ) as i128,
                ),
            }
        }
    }

    /// What all users together may still send in the global window.
    pub open spec fn global_allowance(self, now: u32) -> Result<i128, LimitError> {
        match self.config {
            None => Err(LimitError::NotInitialized),
            Some(c) => Ok(
                allowance(c.global_daily_limit as int, self.all_window(now).spent as int) as i128,
            ),
        }
    }
}

/// The surroundings after the administrator's authorization was demanded, if
/// there is an administrator.
pub open spec fn admin_auth(
    m: LimitModel,
    e: crate::env::EnvModel<DataKey, LimitEvent>,
) -> crate::env::EnvModel<DataKey, LimitEvent> {
    match m.admin {
        Some(admin) => e.auth(admin),
        None => e,
    }
}

impl PaymentLimits {
    /// The administrator, whose authorization is demanded.
    fn require_admin(&self, env: &mut LimitEnv) -> (r: Result<Address, LimitError>)
        ensures
            r == crate::env::outcome(self@.admin_error(), self@.admin->0),
            final(env)@ == match self@.admin {
                Some(admin) => old(env)@.auth(admin),
                None => old(env)@,
            },
    {
        match self.admin {
            Some(admin) => {
                env.require_auth(&admin);
                Ok(admin)
            },
            None => Err(LimitError::NotInitialized),
        }
    }

    /// Stops the contract's work until it is resumed.
    pub fn pause(&mut self, env: &mut LimitEnv) -> (r: Result<(), LimitError>)
        requires
            old(self)@.wf(),
        ensures
            final(self)@.wf(),
            r == crate::env::outcome(old(self)@.admin_error(), ()),
            final(self)@ == match r {
                Err(_) => old(self)@,
                Ok(_) => LimitModel { paused: true, ..old(self)@ },
            },
            r is Ok ==> final(self)@.paused && final(self)@.admin == old(self)@.admin,
            final(env)@ == match r {
                Err(_) => old(env)@,
                Ok(_) => old(env)@.auth(old(self)@.admin->0).event(LimitEvent::Paused),
            },
    {
        self.require_admin(env)?;
        self.paused = true;
        env.event(LimitEvent::Paused);
        Ok(())
    }

    /// Resumes the contract's work.
    pub fn unpause(&mut self, env: &mut LimitEnv) -> (r: Result<(), LimitError>)
        requires
            old(self)@.wf(),
        ensures
            final(self)@.wf(),
            r == crate::env::outcome(old(self)@.admin_error(), ()),
            final(self)@ == match r {
                Err(_) => old(self)@,
                Ok(_) => LimitModel { paused: false, ..old(self)@ },
            },
            r is Ok ==> !final(self)@.paused && final(self)@.admin == old(self)@.admin,
            final(env)@ == match r {
                Err(_) => old(env)@,
                Ok(_) => old(env)@.auth(old(self)@.admin->0).event(LimitEvent::Unpaused),
            },
    {
        self.require_admin(env)?;
        self.paused = false;
        env.event(LimitEvent::Unpaused);
        Ok(())
    }

    /// Replaces the contract's code and counts the version up.
    pub fn upgrade(&mut self, env: &mut LimitEnv, new_wasm_hash: &BytesN<32>) -> (r: Result<(), LimitError>)
        requires
            old(self)@.wf(),
            old(self)@.admin is Some ==> old(self)@.version < u32::MAX,
        ensures
            final(self)@.wf(),
            r == crate::env::outcome(old(self)@.admin_error(), ()),
            final(self)@ == match r {
                Err(_) => old(self)@,
                Ok(_) => LimitModel { version: (old(self)@.version + 1) as u32, ..old(self)@ },
            },
            r is Ok ==> final(self)@.version == old(self)@.version + 1 && final(self)@.admin == old(self)@.admin,
            final(env)@ == match r {
                Err(_) => old(env)@,
                Ok(_) => old(env)@.auth(old(self)@.admin->0).emit(Effect::Upgrade(*new_wasm_hash)),
            },
    {
        self.require_admin(env)?;
        env.emit(Effect::Upgrade(*new_wasm_hash));
        self.version = self.version + 1;
        Ok(())
    }

    /// Hands the administration over.
    pub fn transfer_admin(&mut self, env: &mut LimitEnv, new_admin: &Address) -> (r: Result<(), LimitError>)
        requires
            old(self)@.wf(),
        ensures
            final(self)@.wf(),
            r == crate::env::outcome(old(self)@.admin_error(), ()),
            final(self)@ == match r {
                Err(_) => old(self)@,
                Ok(_) => LimitModel { admin: Some(*new_admin), ..old(self)@ },
            },
            r is Ok ==> final(self)@.admin == Some(*new_admin) && final(self)@.paused == old(self)@.paused,
            final(env)@ == match r {
                Err(_) => old(env)@,
                Ok(_) => old(env)@.auth(old(self)@.admin->0).event(LimitEvent::AdminTransferred { new_admin: *new_admin }),
            },
    {
        self.require_admin(env)?;
        self.admin = Some(*new_admin);
        env.event(LimitEvent::AdminTransferred { new_admin: *new_admin });
        Ok(())
    }

    /// The administrator.
    pub fn get_admin(&self) -> (r: Result<Address, LimitError>)
        ensures
            r == crate::env::outcome(self@.admin_error(), self@.admin->0),
    {
        match self.admin {
            Some(admin) => Ok(admin),
            None => Err(LimitError::NotInitialized),
        }
    }

    /// Whether the contract's work is stopped.
    pub fn is_paused(&self) -> (r: bool)
        ensures
            r == self@.paused,
    {
        self.paused
    }

    /// The version of the contract's code.
    pub fn get_version(&self) -> (r: u32)
        ensures
            r == self@.version,
    {
        self.version
    }
}

/// The stored window if its day has not passed, else a fresh one.
fn load_window(stored: Option<SpendWindow>, now: u32) -> (r: SpendWindow)
    ensures
        r == current_window(stored, now),
{
    let window: SpendWindow = match stored {
        Some(window) => window,
        None => SpendWindow { window_start: now, spent: 0 },
    };
    if now.saturating_sub(window.window_start) >= LEDGERS_PER_DAY {
        SpendWindow { window_start: now, spent: 0 }
    } else {
        window
    }
}

/// Whether all limits are positive.
fn limits_positive(config: &LimitConfig) -> (r: bool)
    ensures
        r == config_valid(*config),
{
    config.user_tx_limit > 0 && config.user_daily_limit > 0 && config.global_daily_limit > 0
}

impl PaymentLimits {
    /// The contract before it is set up.
    pub fn new() -> (r: PaymentLimits)
        ensures
            r@ == (LimitModel {
                admin: None,
                config: None,
                paused: false,
                version: 1,
                user_windows: Map::<Address, SpendWindow>::empty(),
                global_window: None,
                whitelist: Set::<Address>::empty(),
            }),
            r@.wf(),
    {
        PaymentLimits {
            admin: None,
            config: None,
            paused: false,
            version: 1,
            user_windows: Table::new(),
            global_window: None,
            whitelist: AddressSet::new(),
        }
    }

    /// Sets the contract up, once.
    pub fn initialize(&mut self, env: &mut LimitEnv, admin: &Address, config: LimitConfig) -> (r:
        Result<(), LimitError>)
        requires
            old(self)@.wf(),
        ensures
            final(self)@.wf(),
            r == if old(self)@.admin is Some {
                Err::<(), LimitError>(LimitError::AlreadyInitialized)
            } else if !config_valid(config) {
                Err(LimitError::InvalidConfig)
            } else {
                Ok(())
            },
            final(self)@ == match r {
                Err(_) => old(self)@,
                Ok(_) => LimitModel {
                    admin: Some(*admin),
                    config: Some(config),
                    paused: false,
                    version: 1,
                    ..old(self)@
                },
            },
            r is Ok ==> final(self)@.admin == Some(*admin) && final(self)@.config == Some(config)
                && !final(self)@.paused && final(self)@.version == 1,
            final(env)@ == if old(self)@.admin is Some {
                old(env)@
            } else if r is Err {
                old(env)@.auth(*admin)
            } else {
                old(env)@.auth(*admin).emit(Effect::ExtendInstance).event(
                    LimitEvent::Initialized { admin: *admin },
                )
            },
    {
        if self.admin.is_some() {
            return Err(LimitError::AlreadyInitialized);
        }
        env.require_auth(admin);
        if !limits_positive(&config) {
            return Err(LimitError::InvalidConfig);
        }
        self.admin = Some(*admin);
        self.config = Some(config);
        self.paused = false;
        self.version = 1;
        env.emit(Effect::ExtendInstance);
        env.event(LimitEvent::Initialized { admin: *admin });
        Ok(())
    }

    /// Whether the machine integers hold the sums of the limit checks.
    pub fn payment_fits(&self, payer: &Address, amount: i128, now: u32) -> (r: bool)
        requires
            self@.wf(),
        ensures
            r == self@.payment_fits(*payer, amount as int, now),
    {
        if self.paused || amount <= 0 || self.whitelist.contains(payer) {
            return true;
        }
        match self.config {
            None => true,
            Some(config) => {
                if amount > config.user_tx_limit {
                    return true;
                }
                let user = self.get_user_window(payer, now);
                match user.spent.checked_add(amount) {
                    None => false,
                    Some(user_spent) => {
                        if user_spent > config.user_daily_limit {
                            return true;
                        }
                        self.get_global_window(now).spent.checked_add(amount).is_some()
                    },
                }
            },
        }
    }

    /// Records a payment, unless a limit would be breached. Whitelisted
    /// addresses bypass the limits.
    pub fn check_and_record(&mut self, env: &mut LimitEnv, payer: &Address, amount: i128) -> (r:
        Result<bool, LimitError>)
        requires
            old(self)@.wf(),
            old(self)@.payment_fits(*payer, amount as int, old(env)@.sequence),
        ensures
            final(self)@.wf(),
            ({
                let m = old(self)@;
                let now = old(env)@.sequence;
                &&& r == crate::env::outcome(m.payment_error(*payer, amount as int, now), true)
                &&& final(self)@ == match r {
                    Err(_) => m,
                    Ok(_) => m.recorded(*payer, amount as int, now),
                }
                &&& final(env)@ == if m.paused {
                    old(env)@
                } else if r is Err {
                    old(env)@.auth(*payer)
                } else if m.whitelist.contains(*payer) {
                    old(env)@.auth(*payer).emit(Effect::ExtendInstance)
                } else {
                    old(env)@.auth(*payer).emit(Effect::ExtendInstance).emit(
                        Effect::ExtendEntry(DataKey::UserWindow(*payer)),
                    ).emit(Effect::ExtendEntry(DataKey::GlobalWindow)).event(
                        LimitEvent::Recorded {
                            payer: *payer,
                            amount,
                            user_spent: spend(m.user_window(*payer, now), amount as int).spent,
                            global_spent: spend(m.all_window(now), amount as int).spent,
                        },
                    )
                }
            }),
    {
        if self.paused {
            return Err(LimitError::ContractPaused);
        }
        env.require_auth(payer);
        if amount <= 0 {
            return Err(LimitError::InvalidAmount);
        }
        if self.whitelist.contains(payer) {
            env.emit(Effect::ExtendInstance);
            return Ok(true);
        }
        let config: LimitConfig = self.get_config()?;
        if amount > config.user_tx_limit {
            return Err(LimitError::TxLimitExceeded);
        }
        let now: u32 = env.sequence;
        let mut user_window: SpendWindow = self.get_user_window(payer, now);
        let user_spent: i128 = user_window.spent + amount;
        if user_spent > config.user_daily_limit {
            return Err(LimitError::UserDailyLimitExceeded);
        }
        let mut global_window: SpendWindow = self.get_global_window(now);
        let global_spent: i128 = global_window.spent + amount;
        if global_spent > config.global_daily_limit {
            return Err(LimitError::GlobalDailyLimitExceeded);
        }
        user_window.spent = user_spent;
        global_window.spent = global_spent;
        self.user_windows.set(*payer, user_window);
        self.global_window = Some(global_window);
        env.emit(Effect::ExtendInstance);
        env.emit(Effect::ExtendEntry(DataKey::UserWindow(*payer)));
        env.emit(Effect::ExtendEntry(DataKey::GlobalWindow));
        env.event(LimitEvent::Recorded { payer: *payer, amount, user_spent, global_spent });
        Ok(true)
    }

    /// Replaces the limits.
    pub fn update_config(&mut self, env: &mut LimitEnv, config: LimitConfig) -> (r: Result<
        (),
        LimitError,
    >)
        requires
            old(self)@.wf(),
        ensures
            final(self)@.wf(),
            r == if old(self)@.admin is None {
                Err::<(), LimitError>(LimitError::NotInitialized)
            } else if !config_valid(config) {
                Err(LimitError::InvalidConfig)
            } else {
                Ok(())
            },
            final(self)@ == match r {
                Err(_) => old(self)@,
                Ok(_) => LimitModel { config: Some(config), ..old(self)@ },
            },
            r is Ok ==> final(self)@.config == Some(config) && final(self)@.user_windows == old(self)@.user_windows && final(self)@.global_window == old(self)@.global_window,
            final(env)@ == match r {
                Err(_) => admin_auth(old(self)@, old(env)@),
                Ok(_) => admin_auth(old(self)@, old(env)@).emit(Effect::ExtendInstance).event(
                    LimitEvent::ConfigUpdated,
                ),
            },
    {
        self.require_admin(env)?;
        if !limits_positive(&config) {
            return Err(LimitError::InvalidConfig);
        }
        self.config = Some(config);
        env.emit(Effect::ExtendInstance);
        env.event(LimitEvent::ConfigUpdated);
        Ok(())
    }

    /// Lets an address bypass all limits.
    pub fn add_to_whitelist(&mut self, env: &mut LimitEnv, address: &Address) -> (r: Result<
        (),
        LimitError,
    >)
        requires
            old(self)@.wf(),
        ensures
            final(self)@.wf(),
            r == crate::env::outcome(old(self)@.add_error(*address), ()),
            final(self)@ == match r {
                Err(_) => old(self)@,
                Ok(_) => LimitModel {
                    whitelist: old(self)@.whitelist.insert(*address),
                    ..old(self)@
                },
            },
            r is Ok ==> forall|who: Address|
                #[trigger] final(self)@.whitelist.contains(who) == (who == *address
                    || old(self)@.whitelist.contains(who)),
            final(env)@ == match r {
                Err(_) => admin_auth(old(self)@, old(env)@),
                Ok(_) => admin_auth(old(self)@, old(env)@).emit(Effect::ExtendInstance).emit(
                    Effect::ExtendEntry(DataKey::Whitelist(*address)),
                ).event(LimitEvent::WhitelistAdded { address: *address }),
            },
    {
        self.require_admin(env)?;
        if self.whitelist.contains(address) {
            return Err(LimitError::AddressAlreadyWhitelisted);
        }
        self.whitelist.insert(*address);
        env.emit(Effect::ExtendInstance);
        env.emit(Effect::ExtendEntry(DataKey::Whitelist(*address)));
        env.event(LimitEvent::WhitelistAdded { address: *address });
        Ok(())
    }

    /// Makes an address subject to the limits again.
    pub fn remove_from_whitelist(&mut self, env: &mut LimitEnv, address: &Address) -> (r: Result<
        (),
        LimitError,
    >)
        requires
            old(self)@.wf(),
        ensures
            final(self)@.wf(),
            r == crate::env::outcome(old(self)@.remove_error(*address), ()),
            final(self)@ == match r {
                Err(_) => old(self)@,
                Ok(_) => LimitModel {
                    whitelist: old(self)@.whitelist.remove(*address),
                    ..old(self)@
                },
            },
            r is Ok ==> forall|who: Address|
                #[trigger] final(self)@.whitelist.contains(who) == (who != *address
                    && old(self)@.whitelist.contains(who)),
            final(env)@ == match r {
                Err(_) => admin_auth(old(self)@, old(env)@),
                Ok(_) => admin_auth(old(self)@, old(env)@).emit(Effect::ExtendInstance).event(
                    LimitEvent::WhitelistRemoved { address: *address },
                ),
            },
    {
        self.require_admin(env)?;
        if !self.whitelist.contains(address) {
            return Err(LimitError::AddressNotWhitelisted);
        }
        self.whitelist.remove(address);
        env.emit(Effect::ExtendInstance);
        env.event(LimitEvent::WhitelistRemoved { address: *address });
        Ok(())
    }

    /// The limits.
    pub fn get_config(&self) -> (r: Result<LimitConfig, LimitError>)
        ensures
            r == match self@.config {
                Some(config) => Ok(config),
                None => Err(LimitError::NotInitialized),
            },
    {
        match self.config {
            Some(config) => Ok(config),
            None => Err(LimitError::NotInitialized),
        }
    }

    /// The user's window that counts at the ledger.
    pub fn get_user_window(&self, user: &Address, now: u32) -> (r: SpendWindow)
        ensures
            r == self@.user_window(*user, now),
    {
        let stored: Option<SpendWindow> = match self.user_windows.get(user) {
            Some(window) => Some(*window),
            None => None,
        };
        load_window(stored, now)
    }

    /// The global window that counts at the ledger.
    pub fn get_global_window(&self, now: u32) -> (r: SpendWindow)
        ensures
            r == self@.all_window(now),
    {
        load_window(self.global_window, now)
    }

    /// What the user may still send today.
    pub fn remaining_user_limit(&self, user: &Address, now: u32) -> (r: Result<i128, LimitError>)
        requires
            self@.wf(),
        ensures
            r == self@.user_allowance(*user, now),
    {
        if self.whitelist.contains(user) {
            return Ok(i128::MAX);
        }
        let config: LimitConfig = self.get_config()?;
        let window = self.get_user_window(user, now);
        let rest: i128 = config.user_daily_limit - window.spent;
        if rest > 0 {
            Ok(rest)
        } else {
            Ok(0)
        }
    }

    /// What all users together may still send today.
    pub fn remaining_global_limit(&self, now: u32) -> (r: Result<i128, LimitError>)
        requires
            self@.wf(),
        ensures
            r == self@.global_allowance(now),
    {
        let config: LimitConfig = self.get_config()?;
        let window = self.get_global_window(now);
        let rest: i128 = config.global_daily_limit - window.spent;
        if rest > 0 {
            Ok(rest)
        } else {
            Ok(0)
        }
    }

    /// Whether the address bypasses all limits.
    pub fn is_whitelisted(&self, address: &Address) -> (r: bool)
        ensures
            r == self@.whitelist.contains(*address),
    {
        self.whitelist.contains(address)
    }
}

/// A running contract lets a payment of an address that is not whitelisted
/// through exactly when it is positive and within the transaction limit, the
/// user's allowance and the global allowance.
pub proof fn law_payment_allowed_iff_within_limits(
    m: LimitModel,
    payer: Address,
    amount: int,
    now: u32,
)
    requires
        m.wf(),
        !m.paused,
        m.config is Some,
        !m.whitelist.contains(payer),
    ensures
        (m.payment_error(payer, amount, now) is None) == (0 < amount <= m.config->0.user_tx_limit
            && amount <= m.user_allowance(payer, now)->Ok_0 && amount <= m.global_allowance(
            now,
        )->Ok_0),
{
}

/// What a window that is stored, if one is, counts at a ledger: its spend until
/// a day of 17,280 ledgers has passed since it began, and nothing after.
pub open spec fn spent_at(stored: Option<SpendWindow>, now: u32) -> int {
    match stored {
        Some(w) => if now < w.window_start + 17_280 {
            w.spent as int
        } else {
            0
        },
        None => 0,
    }
}

/// When a stored window, if one is, began as seen from a ledger: the window
/// begins at the ledger itself once its day has passed.
pub open spec fn began_at(stored: Option<SpendWindow>, now: u32) -> u32 {
    match stored {
        Some(w) => if now < w.window_start + 17_280 {
            w.window_start
        } else {
            now
        },
        None => now,
    }
}

/// The payer's stored window, if there is one.
pub open spec fn stored_window(m: LimitModel, user: Address) -> Option<SpendWindow> {
    if m.user_windows.contains_key(user) {
        Some(m.user_windows[user])
    } else {
        None
    }
}

/// A payment of a payer that is not whitelisted passes if and only if it is
/// positive, within the limit of one payment, and within what the day's limits
/// of the payer and of all leave. Otherwise the first limit that it breaks is
/// reported, in that order.
pub proof fn law_payment_conditions(m: LimitModel, payer: Address, amount: int, now: u32)
    requires
        !m.paused,
        m.config is Some,
        !m.whitelist.contains(payer),
    ensures
        ({
            let c = m.config->0;
            let user = spent_at(stored_window(m, payer), now) + amount;
            let all = spent_at(m.global_window, now) + amount;
            let error = m.payment_error(payer, amount, now);
            &&& error is None <==> 0 < amount <= c.user_tx_limit && user <= c.user_daily_limit
                && all <= c.global_daily_limit
            &&& amount <= 0 ==> error == Some(LimitError::InvalidAmount)
            &&& amount > 0 && amount > c.user_tx_limit ==> error == Some(
                LimitError::TxLimitExceeded,
            )
            &&& 0 < amount <= c.user_tx_limit && user > c.user_daily_limit ==> error == Some(
                LimitError::UserDailyLimitExceeded,
            )
            &&& 0 < amount <= c.user_tx_limit && user <= c.user_daily_limit && all
                > c.global_daily_limit ==> error == Some(LimitError::GlobalDailyLimitExceeded)
        }),
{
}

/// A payment that passed is added to the payer's window and to the global one,
/// each of which begins anew once its day is over. Nothing else changes.
pub proof fn law_payment_is_counted(m: LimitModel, payer: Address, amount: int, now: u32)
    requires
        m.payment_error(payer, amount, now) is None,
        !m.whitelist.contains(payer),
        m.wf(),
    ensures
        ({
            let after = m.recorded(payer, amount, now);
            let user = after.user_windows[payer];
            &&& after.user_windows.contains_key(payer)
            &&& user.spent == spent_at(stored_window(m, payer), now) + amount
            &&& user.window_start == began_at(stored_window(m, payer), now)
            &&& after.global_window is Some
            &&& after.global_window->0.spent == spent_at(m.global_window, now) + amount
            &&& after.global_window->0.window_start == began_at(m.global_window, now)
            &&& after.user_windows.remove(payer) == m.user_windows.remove(payer)
            &&& (LimitModel {
                user_windows: m.user_windows,
                global_window: m.global_window,
                ..after
            }) == m
        }),
{
    let after = m.recorded(payer, amount, now);
    assert(after.user_windows.remove(payer) =~= m.user_windows.remove(payer));
}

/// A payment can be put to the limits as long as a machine integer holds it
/// together with what the two windows count.
pub proof fn law_ordinary_payments_fit(m: LimitModel, payer: Address, amount: int, now: u32)
    requires
        spent_at(stored_window(m, payer), now) + amount <= i128::MAX,
        spent_at(m.global_window, now) + amount <= i128::MAX,
    ensures
        m.payment_fits(payer, amount, now),
{
}

/// A payment that is held to the limits and within the one for a single
/// payment fits if and only if the sums that are compared with the daily
/// limits are machine integers. The sum of all users is compared only where
/// the user's own passed.
pub proof fn law_fitting_payments(m: LimitModel, payer: Address, amount: int, now: u32)
    requires
        !m.paused,
        m.config is Some,
        !m.whitelist.contains(payer),
        0 < amount <= m.config->0.user_tx_limit,
    ensures
        ({
            let own = spent_at(stored_window(m, payer), now) + amount;
            let all = spent_at(m.global_window, now) + amount;
            m.payment_fits(payer, amount, now) <==> own <= i128::MAX && (own
                > m.config->0.user_daily_limit || all <= i128::MAX)
        }),
{
}

/// What is left to a user is the daily limit without what the window counts,
/// and never less than nothing; likewise for all users together.
pub proof fn law_what_is_left(m: LimitModel, user: Address, now: u32)
    requires
        m.config is Some,
        m.wf(),
    ensures
        ({
            let c = m.config->0;
            let own = c.user_daily_limit - spent_at(stored_window(m, user), now);
            let all = c.global_daily_limit - spent_at(m.global_window, now);
            &&& !m.whitelist.contains(user) ==> m.user_allowance(user, now) is Ok
                && m.user_allowance(user, now)->Ok_0 == if own > 0 {
                own
            } else {
                0
            }
            &&& m.global_allowance(now) is Ok && m.global_allowance(now)->Ok_0 == if all > 0 {
                all
            } else {
                0
            }
            &&& m.user_window(user, now).spent == spent_at(stored_window(m, user), now)
            &&& m.user_window(user, now).window_start == began_at(stored_window(m, user), now)
            &&& m.all_window(now).spent == spent_at(m.global_window, now)
            &&& m.all_window(now).window_start == began_at(m.global_window, now)
        }),
{
}

/// Before the limits are set no payment passes but a whitelisted payer's, and
/// nothing is left. Only an administrator changes the whitelist. Every limit
/// is positive.
pub proof fn law_setup_conditions(
    m: LimitModel,
    who: Address,
    amount: int,
    now: u32,
    c: LimitConfig,
)
    ensures
        !m.paused && amount > 0 && !m.whitelist.contains(who) && m.config is None
            ==> m.payment_error(who, amount, now) == Some(LimitError::NotInitialized),
        m.config is None ==> m.global_allowance(now) == Err::<i128, LimitError>(
            LimitError::NotInitialized,
        ),
        m.config is None && !m.whitelist.contains(who) ==> m.user_allowance(who, now) == Err::<
            i128,
            LimitError,
        >(LimitError::NotInitialized),
        !m.paused && amount <= 0 ==> m.payment_error(who, amount, now) == Some(
            LimitError::InvalidAmount,
        ),
        m.admin_error() == if m.admin is Some {
            None
        } else {
            Some(LimitError::NotInitialized)
        },
        m.add_error(who) == if m.admin is None {
            Some(LimitError::NotInitialized)
        } else if m.whitelist.contains(who) {
            Some(LimitError::AddressAlreadyWhitelisted)
        } else {
            None
        },
        m.remove_error(who) == if m.admin is None {
            Some(LimitError::NotInitialized)
        } else if m.whitelist.contains(who) {
            None
        } else {
            Some(LimitError::AddressNotWhitelisted)
        },
        config_valid(c) <==> c.user_tx_limit > 0 && c.user_daily_limit > 0 && c.global_daily_limit
            > 0,
{
}

/// After every payment that was let through, the spend counted in the user's
/// window and in the global window is within the limits.
pub proof fn law_spend_stays_within_limits(m: LimitModel, payer: Address, amount: int, now: u32)
    requires
        m.wf(),
        m.payment_error(payer, amount, now) is None,
        !m.whitelist.contains(payer),
    ensures
        ({
            let after = m.recorded(payer, amount, now);
            &&& after.user_window(payer, now).spent <= m.config->0.user_daily_limit
            &&& after.all_window(now).spent <= m.config->0.global_daily_limit
            &&& after.user_window(payer, now).spent == m.user_window(payer, now).spent + amount
            &&& after.all_window(now).spent == m.all_window(now).spent + amount
        }),
{
}

/// A payment that is put to the limits, and the ledger at which it is.
pub struct Attempt {
    pub payer: Address,
    pub amount: i128,
    pub now: u32,
}

impl LimitModel {
    /// Whether the payment is let through.
    pub open spec fn allows(self, a: Attempt) -> bool {
        self.payment_error(a.payer, a.amount as int, a.now) is None
    }

    /// The state after the payment was let through or refused.
    pub open spec fn after_attempt(self, a: Attempt) -> LimitModel {
        if self.allows(a) {
            self.recorded(a.payer, a.amount as int, a.now)
        } else {
            self
        }
    }

    /// The state after the payments were put to the limits one after the
    /// other.
    pub open spec fn after_attempts(self, attempts: Seq<Attempt>) -> LimitModel
        decreases attempts.len(),
    {
        if attempts.len() == 0 {
            self
        } else {
            self.after_attempts(attempts.drop_last()).after_attempt(attempts.last())
        }
    }

    /// What the user was let through with in a run of payments.
    pub open spec fn sent_by(self, attempts: Seq<Attempt>, user: Address) -> int
        decreases attempts.len(),
    {
        if attempts.len() == 0 {
            0
        } else {
            let a = attempts.last();
            self.sent_by(attempts.drop_last(), user) + if a.payer == user && self.after_attempts(
                attempts.drop_last(),
            ).allows(a) {
                a.amount as int
            } else {
                0
            }
        }
    }

    /// What all users that are not whitelisted were let through with in a run
    /// of payments.
    pub open spec fn sent_by_all(self, attempts: Seq<Attempt>) -> int
        decreases attempts.len(),
    {
        if attempts.len() == 0 {
            0
        } else {
            let a = attempts.last();
            self.sent_by_all(attempts.drop_last()) + if !self.whitelist.contains(a.payer)
                && self.after_attempts(attempts.drop_last()).allows(a) {
                a.amount as int
            } else {
                0
            }
        }
    }
}

proof fn lemma_attempts_keep_settings(m: LimitModel, attempts: Seq<Attempt>)
    ensures
        m.after_attempts(attempts).config == m.config,
        m.after_attempts(attempts).whitelist == m.whitelist,
        m.after_attempts(attempts).paused == m.paused,
    decreases attempts.len(),
{
    if attempts.len() > 0 {
        lemma_attempts_keep_settings(m, attempts.drop_last());
    }
}

/// Within a user's window the window counts exactly what the user was let
/// through with, and that stays within the daily limit, however many payments
/// are tried and whoever else pays in between.
pub proof fn law_user_window_over_a_run(m: LimitModel, user: Address, attempts: Seq<Attempt>)
    requires
        m.config is Some,
        !m.whitelist.contains(user),
        m.user_windows.contains_key(user),
        m.user_windows[user].spent <= m.config->0.user_daily_limit,
        forall|i: int|
            0 <= i < attempts.len() && (#[trigger] attempts[i]).payer == user ==> attempts[i].now
                < m.user_windows[user].window_start + LEDGERS_PER_DAY,
    ensures
        ({
            let after = m.after_attempts(attempts);
            &&& after.user_windows.contains_key(user)
            &&& after.user_windows[user].window_start == m.user_windows[user].window_start
            &&& after.user_windows[user].spent == m.user_windows[user].spent + m.sent_by(
                attempts,
                user,
            )
            &&& after.user_windows[user].spent <= m.config->0.user_daily_limit
        }),
    decreases attempts.len(),
{
    if attempts.len() > 0 {
        let before = attempts.drop_last();
        assert forall|i: int| 0 <= i < before.len() && (#[trigger] before[i]).payer == user implies
            before[i].now < m.user_windows[user].window_start + LEDGERS_PER_DAY by {
            assert(before[i] == attempts[i]);
        }
        law_user_window_over_a_run(m, user, before);
        lemma_attempts_keep_settings(m, before);
        assert(attempts.last() == attempts[attempts.len() - 1]);
    }
}

/// Within the global window the window counts exactly what all users that are
/// not whitelisted were let through with, and that stays within the global
/// daily limit.
pub proof fn law_global_window_over_a_run(m: LimitModel, attempts: Seq<Attempt>)
    requires
        m.config is Some,
        m.global_window is Some,
        m.global_window->0.spent <= m.config->0.global_daily_limit,
        forall|i: int|
            0 <= i < attempts.len() ==> (#[trigger] attempts[i]).now
                < m.global_window->0.window_start + LEDGERS_PER_DAY,
    ensures
        ({
            let after = m.after_attempts(attempts);
            &&& after.global_window is Some
            &&& after.global_window->0.window_start == m.global_window->0.window_start
            &&& after.global_window->0.spent == m.global_window->0.spent + m.sent_by_all(attempts)
            &&& after.global_window->0.spent <= m.config->0.global_daily_limit
        }),
    decreases attempts.len(),
{
    if attempts.len() > 0 {
        let before = attempts.drop_last();
        assert forall|i: int| 0 <= i < before.len() implies (#[trigger] before[i]).now
            < m.global_window->0.window_start + LEDGERS_PER_DAY by {
            assert(before[i] == attempts[i]);
        }
        law_global_window_over_a_run(m, before);
        lemma_attempts_keep_settings(m, before);
        assert(attempts.last() == attempts[attempts.len() - 1]);
    }
}

/// From the payment that opens a user's window until a day has passed, the
/// user is let through with no more than the daily limit in all.
pub proof fn law_no_more_than_the_daily_limit(
    m: LimitModel,
    first: Attempt,
    attempts: Seq<Attempt>,
)
    requires
        m.allows(first),
        !m.whitelist.contains(first.payer),
        m.user_window(first.payer, first.now) == (SpendWindow {
            window_start: first.now,
            spent: 0,
        }),
        forall|i: int|
            0 <= i < attempts.len() && (#[trigger] attempts[i]).payer == first.payer
                ==> attempts[i].now < first.now + LEDGERS_PER_DAY,
    ensures
        first.amount + m.after_attempt(first).sent_by(attempts, first.payer)
            <= m.config->0.user_daily_limit,
{
    law_user_window_over_a_run(m.after_attempt(first), first.payer, attempts);
}

/// From the payment that opens the global window until a day has passed, all
/// users that are not whitelisted are let through with no more than the
/// global daily limit in all.
pub proof fn law_no_more_than_the_global_limit(
    m: LimitModel,
    first: Attempt,
    attempts: Seq<Attempt>,
)
    requires
        m.allows(first),
        !m.whitelist.contains(first.payer),
        m.all_window(first.now) == (SpendWindow { window_start: first.now, spent: 0 }),
        forall|i: int|
            0 <= i < attempts.len() ==> (#[trigger] attempts[i]).now < first.now
                + LEDGERS_PER_DAY,
    ensures
        first.amount + m.after_attempt(first).sent_by_all(attempts)
            <= m.config->0.global_daily_limit,
{
    law_global_window_over_a_run(m.after_attempt(first), attempts);
}

/// A payment counts against its payer and against nobody else.
pub proof fn law_users_are_independent(
    m: LimitModel,
    payer: Address,
    other: Address,
    amount: int,
    now: u32,
    later: u32,
)
    requires
        payer != other,
    ensures
        m.recorded(payer, amount, now).user_window(other, later) == m.user_window(other, later),
{
}

/// A whitelisted payer is let through whatever the limits, and counts against
/// no limit.
pub proof fn law_whitelist_bypasses_limits(m: LimitModel, payer: Address, amount: int, now: u32)
    requires
        m.whitelist.contains(payer),
        !m.paused,
        amount > 0,
    ensures
        m.payment_error(payer, amount, now) is None,
        m.recorded(payer, amount, now) == m,
        m.user_allowance(payer, now) == Ok::<i128, LimitError>(i128::MAX),
{
}

/// A window counts for one day of ledgers from its start, and afterwards the
/// user's whole allowance is back.
pub proof fn law_window_resets_after_a_day(m: LimitModel, user: Address, now: u32)
    requires
        m.wf(),
        m.config is Some,
        !m.whitelist.contains(user),
        m.user_windows.contains_key(user),
    ensures
        now < m.user_windows[user].window_start + LEDGERS_PER_DAY ==> m.user_window(user, now)
            == m.user_windows[user],
        now >= m.user_windows[user].window_start + LEDGERS_PER_DAY ==> m.user_allowance(user, now)
            == Ok::<i128, LimitError>(m.config->0.user_daily_limit),
{
}

/// A paused contract lets no payment through.
pub proof fn law_pause_stops_payments(m: LimitModel, payer: Address, amount: int, now: u32)
    requires
        m.paused,
    ensures
        m.payment_error(payer, amount, now) == Some(LimitError::ContractPaused),
{
}

/// Whitelisting an address and removing it again restores the whitelist.
pub proof fn law_whitelist_round_trip(m: LimitModel, address: Address)
    requires
        m.add_error(address) is None,
    ensures
        ({
            let added = LimitModel { whitelist: m.whitelist.insert(address), ..m };
            added.remove_error(address) is None && (LimitModel {
                whitelist: added.whitelist.remove(address),
                ..added
            }) == m
        }),
{
    let added = LimitModel { whitelist: m.whitelist.insert(address), ..m };
    assert(added.whitelist.remove(address) =~= m.whitelist);
}

/// The numbers under which callers see the values are fixed.
pub proof fn law_limit_error_numbers(v: LimitError)
    ensures
        v is AlreadyInitialized ==> v.number() == 1,
        v is NotInitialized ==> v.number() == 2,
        v is Unauthorized ==> v.number() == 3,
        v is ContractPaused ==> v.number() == 4,
        v is TxLimitExceeded ==> v.number() == 5,
        v is UserDailyLimitExceeded ==> v.number() == 6,
        v is GlobalDailyLimitExceeded ==> v.number() == 7,
        v is InvalidAmount ==> v.number() == 8,
        v is InvalidConfig ==> v.number() == 9,
        v is AddressAlreadyWhitelisted ==> v.number() == 10,
        v is AddressNotWhitelisted ==> v.number() == 11,
{
}

/// The topics under which the events are announced are fixed.
pub proof fn law_limit_event_topics(v: LimitEvent)
    ensures
        v is Initialized ==> v.topic_names() == ("limits"@, "init"@),
        v is Recorded ==> v.topic_names() == ("limits"@, "recorded"@),
        v is ConfigUpdated ==> v.topic_names() == ("limits"@, "cfg_upd"@),
        v is WhitelistAdded ==> v.topic_names() == ("limits"@, "wl_add"@),
        v is WhitelistRemoved ==> v.topic_names() == ("limits"@, "wl_rm"@),
        v is Paused ==> v.topic_names() == ("limits"@, "paused"@),
        v is Unpaused ==> v.topic_names() == ("limits"@, "unpaused"@),
        v is AdminTransferred ==> v.topic_names() == ("limits"@, "adm_xfer"@),
{
}

} // verus!
