//! Counters of payments: in total, per token, per merchant and per time
//! bucket.
//!
//! Counters stop at the end of their range instead of overflowing.
use crate::address::Address;
use crate::address::BytesN;
use crate::address::Key;
use crate::env::Effect;
use crate::env::Env;
use crate::num::saturating_add_i128;
use crate::num::saturating_add_u64;
use crate::table::AddressSet;
use crate::table::Table;
use vstd::prelude::*;

verus! {

/// Ledgers per bucket when nothing else is configured (~1 day at 5
/// s/ledger).
pub const DEFAULT_BUCKET_SIZE: u32 = 17_280;

/// Keys of the persistent entries.
#[derive(Clone, Copy, Debug, PartialEq, Eq)]
pub enum DataKey {
    /// An authorised recorder.
    Recorder(Address),
    /// Volume of a token.
    TokenVolume(Address),
    /// Payments in a token.
    TokenCount(Address),
    /// Volume of a merchant.
    MerchantVolume(Address),
    /// Payments to a merchant.
    MerchantCount(Address),
    /// Fees of a merchant.
    MerchantFees(Address),
    /// Volume of a time bucket.
    BucketVolume(u64),
    /// Payments of a time bucket.
    BucketCount(u64),
}

/// All global counters.
#[derive(Clone, Copy, Debug, PartialEq, Eq)]
pub struct GlobalStats {
    pub total_payment_count: u64,
    pub total_volume: i128,
    pub total_fees: i128,
    pub total_failed_count: u64,
    pub largest_payment: i128,
}

/// The counters of a token.
#[derive(Clone, Copy, Debug, PartialEq, Eq)]
pub struct TokenStats {
    pub token: Address,
    pub volume: i128,
    pub count: u64,
}

/// The counters of a merchant.
#[derive(Clone, Copy, Debug, PartialEq, Eq)]
pub struct MerchantStats {
    pub merchant: Address,
    pub volume: i128,
    pub count: u64,
    pub fees: i128,
}

/// The counters of a time bucket.
#[derive(Clone, Copy, Debug, PartialEq, Eq)]
pub struct BucketStats {
    pub bucket_index: u64,
    pub volume: i128,
    pub count: u64,
}

/// Failures of the analytics contract.
#[derive(Clone, Copy, Debug, PartialEq, Eq, Structural)]
pub enum AnalyticsError {
    AlreadyInitialized,
    NotInitialized,
    Unauthorized,
    ContractPaused,
    InvalidAmount,
    RecorderAlreadyAdded,
    RecorderNotFound,
}

impl AnalyticsError {
    /// The number under which callers see the failure.
    pub open spec fn number(self) -> u32 {
        match self {
            AnalyticsError::AlreadyInitialized => 1,
            AnalyticsError::NotInitialized => 2,
            AnalyticsError::Unauthorized => 3,
            AnalyticsError::ContractPaused => 4,
            AnalyticsError::InvalidAmount => 5,
            AnalyticsError::RecorderAlreadyAdded => 6,
            AnalyticsError::RecorderNotFound => 7,
        }
    }

    /// The number under which callers see the failure.
    pub fn code(&self) -> (r: u32)
        ensures
            r == self.number(),
    {
        match self {
            AnalyticsError::AlreadyInitialized => 1,
            AnalyticsError::NotInitialized => 2,
            AnalyticsError::Unauthorized => 3,
            AnalyticsError::ContractPaused => 4,
            AnalyticsError::InvalidAmount => 5,
            AnalyticsError::RecorderAlreadyAdded => 6,
            AnalyticsError::RecorderNotFound => 7,
        }
    }
}

/// What the analytics contract announces.
#[derive(Clone, Copy, Debug, PartialEq, Eq)]
pub enum AnalyticsEvent {
    Initialized { admin: Address },
    RecorderAdded { recorder: Address },
    RecorderRemoved { recorder: Address },
    Payment { token: Address, merchant: Address, amount: i128, fee: i128, bucket: u64 },
    Failure { token: Address, amount: i128 },
    BucketSizeUpdated { bucket_size: u32 },
    Paused,
    Unpaused,
    AdminTransferred { new_admin: Address },
}

impl AnalyticsEvent {
    /// The two topics of the event.
    pub open spec fn topic_names(self) -> (Seq<char>, Seq<char>) {
        (
            "analytics"@,
            match self {
                AnalyticsEvent::Initialized { .. } => "init"@,
                AnalyticsEvent::RecorderAdded { .. } => "rec_add"@,
                AnalyticsEvent::RecorderRemoved { .. } => "rec_rm"@,
                AnalyticsEvent::Payment { .. } => "payment"@,
                AnalyticsEvent::Failure { .. } => "failure"@,
                AnalyticsEvent::BucketSizeUpdated { .. } => "bkt_upd"@,
                AnalyticsEvent::Paused => "paused"@,
                AnalyticsEvent::Unpaused => "unpaused"@,
                AnalyticsEvent::AdminTransferred { .. } => "adm_xfer"@,
            },
        )
    }

    /// The two topics of the event.
    pub fn topics(&self) -> (r: (&'static str, &'static str))
        ensures
            (r.0@, r.1@) == self.topic_names(),
    {
        let name = match self {
            AnalyticsEvent::Initialized { .. } => "init",
            AnalyticsEvent::RecorderAdded { .. } => "rec_add",
            AnalyticsEvent::RecorderRemoved { .. } => "rec_rm",
            AnalyticsEvent::Payment { .. } => "payment",
            AnalyticsEvent::Failure { .. } => "failure",
            AnalyticsEvent::BucketSizeUpdated { .. } => "bkt_upd",
            AnalyticsEvent::Paused => "paused",
            AnalyticsEvent::Unpaused => "unpaused",
            AnalyticsEvent::AdminTransferred { .. } => "adm_xfer",
        };
        ("analytics", name)
    }
}

/// The surroundings of a call of the analytics contract.
pub type AnalyticsEnv = Env<DataKey, AnalyticsEvent>;

/// The state of the analytics contract.
pub struct PaymentAnalytics {
    pub admin: Option<Address>,
    pub paused: bool,
    pub version: u32,
    pub bucket_size: u32,
    pub totals: GlobalStats,
    pub recorders: AddressSet,
    pub token_volume: Table<Address, i128>,
    pub token_count: Table<Address, u64>,
    pub merchant_volume: Table<Address, i128>,
    pub merchant_count: Table<Address, u64>,
    pub merchant_fees: Table<Address, i128>,
    pub bucket_volume: Table<u64, i128>,
    pub bucket_count: Table<u64, u64>,
}

/// The mathematical value of the analytics contract's state.
#[verifier::ext_equal]
pub struct AnalyticsModel {
    pub admin: Option<Address>,
    pub paused: bool,
    pub version: u32,
    pub bucket_size: u32,
    pub totals: GlobalStats,
    pub recorders: Set<Address>,
    pub token_volume: Map<Address, i128>,
    pub token_count: Map<Address, u64>,
    pub merchant_volume: Map<Address, i128>,
    pub merchant_count: Map<Address, u64>,
    pub merchant_fees: Map<Address, i128>,
    pub bucket_volume: Map<u64, i128>,
    pub bucket_count: Map<u64, u64>,
}

impl View for PaymentAnalytics {
    type V = AnalyticsModel;

    open spec fn view(&self) -> AnalyticsModel {
        AnalyticsModel {
            admin: self.admin,
            paused: self.paused,
            version: self.version,
            bucket_size: self.bucket_size,
            totals: self.totals,
            recorders: self.recorders@,
            token_volume: self.token_volume@,
            token_count: self.token_count@,
            merchant_volume: self.merchant_volume@,
            merchant_count: self.merchant_count@,
            merchant_fees: self.merchant_fees@,
            bucket_volume: self.bucket_volume@,
            bucket_count: self.bucket_count@,
        }
    }
}

/// The amount counted under a key, zero if nothing was.
pub open spec fn amount_at<K>(m: Map<K, i128>, k: K) -> i128 {
    if m.contains_key(k) {
        m[k]
    } else {
        0
    }
}

/// The number counted under a key, zero if nothing was.
pub open spec fn count_at<K>(m: Map<K, u64>, k: K) -> u64 {
    if m.contains_key(k) {
        m[k]
    } else {
        0
    }
}

/// The amounts after more was counted under a key.
pub open spec fn more<K>(m: Map<K, i128>, k: K, delta: int) -> Map<K, i128> {
    m.insert(k, crate::num::sat_i128(amount_at(m, k) + delta))
}

/// The counts after one more was counted under a key.
pub open spec fn one_more<K>(m: Map<K, u64>, k: K) -> Map<K, u64> {
    m.insert(k, crate::num::sat_u64(count_at(m, k) + 1))
}

/// All counters at zero.
pub open spec fn no_totals() -> GlobalStats {
    GlobalStats {
        total_payment_count: 0,
        total_volume: 0,
        total_fees: 0,
        total_failed_count: 0,
        largest_payment: 0,
    }
}

impl AnalyticsModel {
    /// Buckets are not empty. Before the contract is set up there are no
    /// recorders.
    pub open spec fn wf(self) -> bool {
        &&& self.bucket_size > 0
        &&& self.admin is None ==> forall|a: Address| !(#[trigger] self.recorders.contains(a))
    }

    /// Why an administrative call is refused, if it is.
    pub open spec fn admin_error(self) -> Option<AnalyticsError> {
        match self.admin {
            Some(_) => None,
            None => Some(AnalyticsError::NotInitialized),
        }
    }

    /// Why a recorder cannot be added, if not.
    pub open spec fn add_recorder_error(self, who: Address) -> Option<AnalyticsError> {
        if self.admin is None {
            Some(AnalyticsError::NotInitialized)
        } else if self.recorders.contains(who) {
            Some(AnalyticsError::RecorderAlreadyAdded)
        } else {
            None
        }
    }

    /// Why a recorder cannot be removed, if not.
    pub open spec fn remove_recorder_error(self, who: Address) -> Option<AnalyticsError> {
        if self.admin is None {
            Some(AnalyticsError::NotInitialized)
        } else if !self.recorders.contains(who) {
            Some(AnalyticsError::RecorderNotFound)
        } else {
            None
        }
    }

    /// The bucket that a ledger falls into.
    pub open spec fn bucket(self, ledger: u32) -> u64 {
        (ledger / self.bucket_size) as u64
    }

    /// Why a payment is not counted, if it is not.
    pub open spec fn payment_error(self, recorder: Address, amount: int, fee: int) -> Option<
        AnalyticsError,
    > {
        if self.paused {
            Some(AnalyticsError::ContractPaused)
        } else if !self.recorders.contains(recorder) {
            Some(AnalyticsError::Unauthorized)
        } else if amount <= 0 || fee < 0 {
            Some(AnalyticsError::InvalidAmount)
        } else {
            None
        }
    }

    /// The state after a payment was counted.
    pub open spec fn paid(
        self,
        token: Address,
        merchant: Address,
        amount: i128,
        fee: i128,
        now: u32,
    ) -> AnalyticsModel {
        AnalyticsModel {
            totals: GlobalStats {
                total_payment_count: crate::num::sat_u64(self.totals.total_payment_count + 1),
                total_volume: crate::num::sat_i128(self.totals.total_volume + amount),
                total_fees: crate::num::sat_i128(self.totals.total_fees + fee),
                total_failed_count: self.totals.total_failed_count,
                largest_payment: if amount > self.totals.largest_payment {
                    amount
                } else {
                    self.totals.largest_payment
                },
            },
            token_volume: more(self.token_volume, token, amount as int),
            token_count: one_more(self.token_count, token),
            merchant_volume: more(self.merchant_volume, merchant, amount as int),
            merchant_count: one_more(self.merchant_count, merchant),
            merchant_fees: more(self.merchant_fees, merchant, fee as int),
            bucket_volume: more(self.bucket_volume, self.bucket(now), amount as int),
            bucket_count: one_more(self.bucket_count, self.bucket(now)),
            ..self
        }
    }

    /// The counters of a bucket.
    pub open spec fn bucket_stats(self, bucket_index: u64) -> BucketStats {
        BucketStats {
            bucket_index,
            volume: amount_at(self.bucket_volume, bucket_index),
            count: count_at(self.bucket_count, bucket_index),
        }
    }
}

/// The surroundings after the administrator's authorization was demanded, if
/// there is an administrator.
pub open spec fn admin_auth(
    m: AnalyticsModel,
    e: crate::env::EnvModel<DataKey, AnalyticsEvent>,
) -> crate::env::EnvModel<DataKey, AnalyticsEvent> {
    match m.admin {
        Some(admin) => e.auth(admin),
        None => e,
    }
}

impl PaymentAnalytics {
    /// The administrator, whose authorization is demanded.
    fn require_admin(&self, env: &mut AnalyticsEnv) -> (r: Result<Address, AnalyticsError>)
        ensures
            r == crate::env::outcome(self@.admin_error(), self@.admin->0),
            final(env)@ == match self@.admin {
                Some(admin) => old(env)@.auth(admin),
                None => old(env)@,
            },
    {
        match self.admin {
            Some(admin) => {
                env.require_auth(&admin);
                Ok(admin)
            },
            None => Err(AnalyticsError::NotInitialized),
        }
    }

    /// Stops the contract's work until it is resumed.
    pub fn pause(&mut self, env: &mut AnalyticsEnv) -> (r: Result<(), AnalyticsError>)
        requires
            old(self)@.wf(),
        ensures
            final(self)@.wf(),
            r == crate::env::outcome(old(self)@.admin_error(), ()),
            final(self)@ == match r {
                Err(_) => old(self)@,
                Ok(_) => AnalyticsModel { paused: true, ..old(self)@ },
            },
            r is Ok ==> final(self)@.paused && final(self)@.admin == old(self)@.admin,
            final(env)@ == match r {
                Err(_) => old(env)@,
                Ok(_) => old(env)@.auth(old(self)@.admin->0).event(AnalyticsEvent::Paused),
            },
    {
        self.require_admin(env)?;
        self.paused = true;
        env.event(AnalyticsEvent::Paused);
        Ok(())
    }

    /// Resumes the contract's work.
    pub fn unpause(&mut self, env: &mut AnalyticsEnv) -> (r: Result<(), AnalyticsError>)
        requires
            old(self)@.wf(),
        ensures
            final(self)@.wf(),
            r == crate::env::outcome(old(self)@.admin_error(), ()),
            final(self)@ == match r {
                Err(_) => old(self)@,
                Ok(_) => AnalyticsModel { paused: false, ..old(self)@ },
            },
            r is Ok ==> !final(self)@.paused && final(self)@.admin == old(self)@.admin,
            final(env)@ == match r {
                Err(_) => old(env)@,
                Ok(_) => old(env)@.auth(old(self)@.admin->0).event(AnalyticsEvent::Unpaused),
            },
    {
        self.require_admin(env)?;
        self.paused = false;
        env.event(AnalyticsEvent::Unpaused);
        Ok(())
    }

    /// Replaces the contract's code and counts the version up.
    pub fn upgrade(&mut self, env: &mut AnalyticsEnv, new_wasm_hash: &BytesN<32>) -> (r: Result<(), AnalyticsError>)
        requires
            old(self)@.wf(),
            old(self)@.admin is Some ==> old(self)@.version < u32::MAX,
        ensures
            final(self)@.wf(),
            r == crate::env::outcome(old(self)@.admin_error(), ()),
            final(self)@ == match r {
                Err(_) => old(self)@,
                Ok(_) => AnalyticsModel { version: (old(self)@.version + 1) as u32, ..old(self)@ },
            },
            r is Ok ==> final(self)@.version == old(self)@.version + 1 && final(self)@.admin == old(self)@.admin,
            final(env)@ == match r {
                Err(_) => old(env)@,
                Ok(_) => old(env)@.auth(old(self)@.admin->0).emit(Effect::Upgrade(*new_wasm_hash)),
            },
    {
        self.require_admin(env)?;
        env.emit(Effect::Upgrade(*new_wasm_hash));
        self.version = self.version + 1;
        Ok(())
    }

    /// Hands the administration over.
    pub fn transfer_admin(&mut self, env: &mut AnalyticsEnv, new_admin: &Address) -> (r: Result<(), AnalyticsError>)
        requires
            old(self)@.wf(),
        ensures
            final(self)@.wf(),
            r == crate::env::outcome(old(self)@.admin_error(), ()),
            final(self)@ == match r {
                Err(_) => old(self)@,
                Ok(_) => AnalyticsModel { admin: Some(*new_admin), ..old(self)@ },
            },
            r is Ok ==> final(self)@.admin == Some(*new_admin) && final(self)@.paused == old(self)@.paused,
            final(env)@ == match r {
                Err(_) => old(env)@,
                Ok(_) => old(env)@.auth(old(self)@.admin->0).event(AnalyticsEvent::AdminTransferred { new_admin: *new_admin }),
            },
    {
        self.require_admin(env)?;
        self.admin = Some(*new_admin);
        env.event(AnalyticsEvent::AdminTransferred { new_admin: *new_admin });
        Ok(())
    }

    /// The administrator.
    pub fn get_admin(&self) -> (r: Result<Address, AnalyticsError>)
        ensures
            r == crate::env::outcome(self@.admin_error(), self@.admin->0),
    {
        match self.admin {
            Some(admin) => Ok(admin),
            None => Err(AnalyticsError::NotInitialized),
        }
    }

    /// Whether the contract's work is stopped.
    pub fn is_paused(&self) -> (r: bool)
        ensures
            r == self@.paused,
    {
        self.paused
    }

    /// The version of the contract's code.
    pub fn get_version(&self) -> (r: u32)
        ensures
            r == self@.version,
    {
        self.version
    }
}

/// The amount stored under a key, zero if none is.
fn stored_amount<K: Key>(table: &Table<K, i128>, key: &K) -> (r: i128)
    ensures
        r == amount_at(table@, *key),
{
    match table.get(key) {
        Some(value) => *value,
        None => 0,
    }
}

/// The count stored under a key, zero if none is.
fn stored_count<K: Key>(table: &Table<K, u64>, key: &K) -> (r: u64)
    ensures
        r == count_at(table@, *key),
{
    match table.get(key) {
        Some(value) => *value,
        None => 0,
    }
}

/// Counts more under a key and returns the new amount.
fn count_amount<K: Key>(table: &mut Table<K, i128>, key: K, delta: i128) -> (r: i128)
    ensures
        final(table)@ == more(old(table)@, key, delta as int),
        r == amount_at(final(table)@, key),
{
    let value: i128 = saturating_add_i128(stored_amount(table, &key), delta);
    table.set(key, value);
    value
}

/// Counts one more under a key and returns the new count.
fn count_one<K: Key>(table: &mut Table<K, u64>, key: K) -> (r: u64)
    ensures
        final(table)@ == one_more(old(table)@, key),
        r == count_at(final(table)@, key),
{
    let value: u64 = saturating_add_u64(stored_count(table, &key), 1);
    table.set(key, value);
    value
}

impl PaymentAnalytics {
    /// The contract before it is set up.
    pub fn new() -> (r: PaymentAnalytics)
        ensures
            r@ == (AnalyticsModel {
                admin: None,
                paused: false,
                version: 1,
                bucket_size: DEFAULT_BUCKET_SIZE,
                totals: no_totals(),
                recorders: Set::<Address>::empty(),
                token_volume: Map::<Address, i128>::empty(),
                token_count: Map::<Address, u64>::empty(),
                merchant_volume: Map::<Address, i128>::empty(),
                merchant_count: Map::<Address, u64>::empty(),
                merchant_fees: Map::<Address, i128>::empty(),
                bucket_volume: Map::<u64, i128>::empty(),
                bucket_count: Map::<u64, u64>::empty(),
            }),
            r@.wf(),
    {
        PaymentAnalytics {
            admin: None,
            paused: false,
            version: 1,
            bucket_size: DEFAULT_BUCKET_SIZE,
            totals: GlobalStats {
                total_payment_count: 0,
                total_volume: 0,
                total_fees: 0,
                total_failed_count: 0,
                largest_payment: 0,
            },
            recorders: AddressSet::new(),
            token_volume: Table::new(),
            token_count: Table::new(),
            merchant_volume: Table::new(),
            merchant_count: Table::new(),
            merchant_fees: Table::new(),
            bucket_volume: Table::new(),
            bucket_count: Table::new(),
        }
    }

    /// Sets the contract up, once. A bucket size of zero means the default.
    pub fn initialize(&mut self, env: &mut AnalyticsEnv, admin: &Address, bucket_size: u32) -> (r:
        Result<(), AnalyticsError>)
        requires
            old(self)@.wf(),
        ensures
            final(self)@.wf(),
            r == if old(self)@.admin is Some {
                Err::<(), AnalyticsError>(AnalyticsError::AlreadyInitialized)
            } else {
                Ok(())
            },
            final(self)@ == match r {
                Err(_) => old(self)@,
                Ok(_) => AnalyticsModel {
                    admin: Some(*admin),
                    bucket_size: if bucket_size == 0 {
                        DEFAULT_BUCKET_SIZE
                    } else {
                        bucket_size
                    },
                    paused: false,
                    version: 1,
                    totals: no_totals(),
                    ..old(self)@
                },
            },
            r is Ok ==> ({
                let m = final(self)@;
                &&& m.admin == Some(*admin) && !m.paused && m.version == 1
                &&& bucket_size != 0 ==> m.bucket_size == bucket_size
                &&& bucket_size == 0 ==> m.bucket_size == 17_280
                &&& m.totals.total_failed_count == 0
            }),
            final(env)@ == match r {
                Err(_) => old(env)@,
                Ok(_) => old(env)@.auth(*admin).emit(Effect::ExtendInstance).event(
                    AnalyticsEvent::Initialized { admin: *admin },
                ),
            },
    {
        if self.admin.is_some() {
            return Err(AnalyticsError::AlreadyInitialized);
        }
        env.require_auth(admin);
        let size: u32 = if bucket_size == 0 {
            DEFAULT_BUCKET_SIZE
        } else {
            bucket_size
        };
        self.admin = Some(*admin);
        self.bucket_size = size;
        self.paused = false;
        self.version = 1;
        self.totals = GlobalStats {
            total_payment_count: 0,
            total_volume: 0,
            total_fees: 0,
            total_failed_count: 0,
            largest_payment: 0,
        };
        env.emit(Effect::ExtendInstance);
        env.event(AnalyticsEvent::Initialized { admin: *admin });
        Ok(())
    }

    /// Authorises an address to record payments.
    pub fn add_recorder(&mut self, env: &mut AnalyticsEnv, recorder: &Address) -> (r: Result<
        (),
        AnalyticsError,
    >)
        requires
            old(self)@.wf(),
        ensures
            final(self)@.wf(),
            r == crate::env::outcome(old(self)@.add_recorder_error(*recorder), ()),
            final(self)@ == match r {
                Err(_) => old(self)@,
                Ok(_) => AnalyticsModel {
                    recorders: old(self)@.recorders.insert(*recorder),
                    ..old(self)@
                },
            },
            r is Ok ==> forall|who: Address|
                #[trigger] final(self)@.recorders.contains(who) == (who == *recorder
                    || old(self)@.recorders.contains(who)),
            final(env)@ == match r {
                Err(_) => admin_auth(old(self)@, old(env)@),
                Ok(_) => admin_auth(old(self)@, old(env)@).emit(Effect::ExtendInstance).emit(
                    Effect::ExtendEntry(DataKey::Recorder(*recorder)),
                ).event(AnalyticsEvent::RecorderAdded { recorder: *recorder }),
            },
    {
        self.require_admin(env)?;
        if self.recorders.contains(recorder) {
            return Err(AnalyticsError::RecorderAlreadyAdded);
        }
        self.recorders.insert(*recorder);
        env.emit(Effect::ExtendInstance);
        env.emit(Effect::ExtendEntry(DataKey::Recorder(*recorder)));
        env.event(AnalyticsEvent::RecorderAdded { recorder: *recorder });
        Ok(())
    }

    /// Ends a recorder's authorisation.
    pub fn remove_recorder(&mut self, env: &mut AnalyticsEnv, recorder: &Address) -> (r: Result<
        (),
        AnalyticsError,
    >)
        requires
            old(self)@.wf(),
        ensures
            final(self)@.wf(),
            r == crate::env::outcome(old(self)@.remove_recorder_error(*recorder), ()),
            final(self)@ == match r {
                Err(_) => old(self)@,
                Ok(_) => AnalyticsModel {
                    recorders: old(self)@.recorders.remove(*recorder),
                    ..old(self)@
                },
            },
            r is Ok ==> forall|who: Address|
                #[trigger] final(self)@.recorders.contains(who) == (who != *recorder
                    && old(self)@.recorders.contains(who)),
            final(env)@ == match r {
                Err(_) => admin_auth(old(self)@, old(env)@),
                Ok(_) => admin_auth(old(self)@, old(env)@).emit(Effect::ExtendInstance).event(
                    AnalyticsEvent::RecorderRemoved { recorder: *recorder },
                ),
            },
    {
        self.require_admin(env)?;
        if !self.recorders.contains(recorder) {
            return Err(AnalyticsError::RecorderNotFound);
        }
        self.recorders.remove(recorder);
        env.emit(Effect::ExtendInstance);
        env.event(AnalyticsEvent::RecorderRemoved { recorder: *recorder });
        Ok(())
    }

    /// Counts a successful payment.
    pub fn record_payment(
        &mut self,
        env: &mut AnalyticsEnv,
        recorder: &Address,
        token: &Address,
        merchant: &Address,
        amount: i128,
        fee: i128,
    ) -> (r: Result<(), AnalyticsError>)
        requires
            old(self)@.wf(),
        ensures
            final(self)@.wf(),
            ({
                let m = old(self)@;
                let now = old(env)@.sequence;
                &&& r == crate::env::outcome(
                    m.payment_error(*recorder, amount as int, fee as int),
                    (),
                )
                &&& final(self)@ == match r {
                    Err(_) => m,
                    Ok(_) => m.paid(*token, *merchant, amount, fee, now),
                }
                &&& final(env)@ == if m.paused {
                    old(env)@
                } else if r is Err {
                    old(env)@.auth(*recorder)
                } else {
                    old(env)@.auth(*recorder).emit(Effect::ExtendInstance).emit(
                        Effect::ExtendEntry(DataKey::TokenVolume(*token)),
                    ).emit(Effect::ExtendEntry(DataKey::TokenCount(*token))).emit(
                        Effect::ExtendEntry(DataKey::MerchantVolume(*merchant)),
                    ).emit(Effect::ExtendEntry(DataKey::MerchantCount(*merchant))).emit(
                        Effect::ExtendEntry(DataKey::MerchantFees(*merchant)),
                    ).emit(Effect::ExtendEntry(DataKey::BucketVolume(m.bucket(now)))).emit(
                        Effect::ExtendEntry(DataKey::BucketCount(m.bucket(now))),
                    ).event(
                        AnalyticsEvent::Payment {
                            token: *token,
                            merchant: *merchant,
                            amount,
                            fee,
                            bucket: m.bucket(now),
                        },
                    )
                }
            }),
    {
        if self.paused {
            return Err(AnalyticsError::ContractPaused);
        }
        env.require_auth(recorder);
        if !self.recorders.contains(recorder) {
            return Err(AnalyticsError::Unauthorized);
        }
        if amount <= 0 {
            return Err(AnalyticsError::InvalidAmount);
        }
        if fee < 0 {
            return Err(AnalyticsError::InvalidAmount);
        }
        env.emit(Effect::ExtendInstance);
        self.totals.total_payment_count = saturating_add_u64(self.totals.total_payment_count, 1);
        self.totals.total_volume = saturating_add_i128(self.totals.total_volume, amount);
        self.totals.total_fees = saturating_add_i128(self.totals.total_fees, fee);
        if amount > self.totals.largest_payment {
            self.totals.largest_payment = amount;
        }
        let _ = count_amount(&mut self.token_volume, *token, amount);
        env.emit(Effect::ExtendEntry(DataKey::TokenVolume(*token)));
        let _ = count_one(&mut self.token_count, *token);
        env.emit(Effect::ExtendEntry(DataKey::TokenCount(*token)));
        let _ = count_amount(&mut self.merchant_volume, *merchant, amount);
        env.emit(Effect::ExtendEntry(DataKey::MerchantVolume(*merchant)));
        let _ = count_one(&mut self.merchant_count, *merchant);
        env.emit(Effect::ExtendEntry(DataKey::MerchantCount(*merchant)));
        let _ = count_amount(&mut self.merchant_fees, *merchant, fee);
        env.emit(Effect::ExtendEntry(DataKey::MerchantFees(*merchant)));
        let bucket: u64 = self.current_bucket_index(env.sequence);
        let _ = count_amount(&mut self.bucket_volume, bucket, amount);
        env.emit(Effect::ExtendEntry(DataKey::BucketVolume(bucket)));
        let _ = count_one(&mut self.bucket_count, bucket);
        env.emit(Effect::ExtendEntry(DataKey::BucketCount(bucket)));
        env.event(
            AnalyticsEvent::Payment { token: *token, merchant: *merchant, amount, fee, bucket },
        );
        Ok(())
    }

    /// Counts a failed payment attempt.
    pub fn record_failure(
        &mut self,
        env: &mut AnalyticsEnv,
        recorder: &Address,
        token: &Address,
        amount: i128,
    ) -> (r: Result<(), AnalyticsError>)
        requires
            old(self)@.wf(),
        ensures
            final(self)@.wf(),
            r == crate::env::outcome(old(self)@.payment_error(*recorder, amount as int, 0), ()),
            final(self)@ == match r {
                Err(_) => old(self)@,
                Ok(_) => AnalyticsModel {
                    totals: GlobalStats {
                        total_failed_count: crate::num::sat_u64(
                            old(self)@.totals.total_failed_count + 1,
                        ),
                        ..old(self)@.totals
                    },
                    ..old(self)@
                },
            },
            r is Ok ==> ({
                let (before, after) = (old(self)@.totals, final(self)@.totals);
                &&& before.total_failed_count < u64::MAX ==> after.total_failed_count
                    == before.total_failed_count + 1
                &&& before.total_failed_count == u64::MAX ==> after.total_failed_count == u64::MAX
                &&& after == (GlobalStats { total_failed_count: after.total_failed_count, ..before })
            }),
            final(env)@ == if old(self)@.paused {
                old(env)@
            } else if r is Err {
                old(env)@.auth(*recorder)
            } else {
                old(env)@.auth(*recorder).emit(Effect::ExtendInstance).event(
                    AnalyticsEvent::Failure { token: *token, amount },
                )
            },
    {
        if self.paused {
            return Err(AnalyticsError::ContractPaused);
        }
        env.require_auth(recorder);
        if !self.recorders.contains(recorder) {
            return Err(AnalyticsError::Unauthorized);
        }
        if amount <= 0 {
            return Err(AnalyticsError::InvalidAmount);
        }
        env.emit(Effect::ExtendInstance);
        self.totals.total_failed_count = saturating_add_u64(self.totals.total_failed_count, 1);
        env.event(AnalyticsEvent::Failure { token: *token, amount });
        Ok(())
    }

    /// Sets the ledgers per bucket; zero means the default. What was counted
    /// before stays where it is.
    pub fn set_bucket_size(&mut self, env: &mut AnalyticsEnv, bucket_size: u32) -> (r: Result<
        (),
        AnalyticsError,
    >)
        requires
            old(self)@.wf(),
        ensures
            final(self)@.wf(),
            ({
                let size = if bucket_size == 0 {
                    DEFAULT_BUCKET_SIZE
                } else {
                    bucket_size
                };
                &&& r == crate::env::outcome(old(self)@.admin_error(), ())
                &&& final(self)@ == match r {
                    Err(_) => old(self)@,
                    Ok(_) => AnalyticsModel { bucket_size: size, ..old(self)@ },
                }
                &&& final(env)@ == match r {
                    Err(_) => old(env)@,
                    Ok(_) => old(env)@.auth(old(self)@.admin->0).emit(
                        Effect::ExtendInstance,
                    ).event(AnalyticsEvent::BucketSizeUpdated { bucket_size: size }),
                }
            }),
            r is Ok ==> ({
                &&& bucket_size != 0 ==> final(self)@.bucket_size == bucket_size
                &&& bucket_size == 0 ==> final(self)@.bucket_size == 17_280
                &&& final(self)@.totals == old(self)@.totals
            }),
    {
        self.require_admin(env)?;
        env.emit(Effect::ExtendInstance);
        let size: u32 = if bucket_size == 0 {
            DEFAULT_BUCKET_SIZE
        } else {
            bucket_size
        };
        self.bucket_size = size;
        env.event(AnalyticsEvent::BucketSizeUpdated { bucket_size: size });
        Ok(())
    }

    /// All global counters.
    pub fn get_global_stats(&self) -> (r: GlobalStats)
        ensures
            r == self@.totals,
    {
        self.totals
    }

    /// The counters of a token.
    pub fn get_token_stats(&self, token: &Address) -> (r: TokenStats)
        ensures
            r == (TokenStats {
                token: *token,
                volume: amount_at(self@.token_volume, *token),
                count: count_at(self@.token_count, *token),
            }),
    {
        TokenStats {
            token: *token,
            volume: stored_amount(&self.token_volume, token),
            count: stored_count(&self.token_count, token),
        }
    }

    /// The counters of a merchant.
    pub fn get_merchant_stats(&self, merchant: &Address) -> (r: MerchantStats)
        ensures
            r == (MerchantStats {
                merchant: *merchant,
                volume: amount_at(self@.merchant_volume, *merchant),
                count: count_at(self@.merchant_count, *merchant),
                fees: amount_at(self@.merchant_fees, *merchant),
            }),
    {
        MerchantStats {
            merchant: *merchant,
            volume: stored_amount(&self.merchant_volume, merchant),
            count: stored_count(&self.merchant_count, merchant),
            fees: stored_amount(&self.merchant_fees, merchant),
        }
    }

    /// The counters of a time bucket.
    pub fn get_bucket_stats(&self, bucket_index: u64) -> (r: BucketStats)
        ensures
            r == self@.bucket_stats(bucket_index),
    {
        BucketStats {
            bucket_index,
            volume: stored_amount(&self.bucket_volume, &bucket_index),
            count: stored_count(&self.bucket_count, &bucket_index),
        }
    }

    /// The counters of the bucket that the ledger falls into.
    pub fn get_current_bucket_stats(&self, now: u32) -> (r: BucketStats)
        requires
            self@.wf(),
        ensures
            r == self@.bucket_stats(self@.bucket(now)),
    {
        let bucket: u64 = self.current_bucket_index(now);
        self.get_bucket_stats(bucket)
    }

    /// The bucket that the ledger falls into.
    pub fn current_bucket_index(&self, now: u32) -> (r: u64)
        requires
            self@.wf(),
        ensures
            r == self@.bucket(now),
    {
        (now / self.bucket_size) as u64
    }

    /// Whether the address may record payments.
    pub fn is_recorder(&self, recorder: &Address) -> (r: bool)
        ensures
            r == self@.recorders.contains(*recorder),
    {
        self.recorders.contains(recorder)
    }

    /// Ledgers per bucket.
    pub fn get_bucket_size(&self) -> (r: u32)
        ensures
            r == self@.bucket_size,
    {
        self.bucket_size
    }
}

/// A payment counts the same everywhere: in total, for its token, for its
/// merchant and in its bucket, up to the ends of the counters' ranges.
pub proof fn law_payment_counts_everywhere(
    m: AnalyticsModel,
    token: Address,
    merchant: Address,
    amount: i128,
    fee: i128,
    now: u32,
)
    ensures
        ({
            let after = m.paid(token, merchant, amount, fee, now);
            let bucket = m.bucket(now);
            &&& after.totals.total_volume == crate::num::sat_i128(m.totals.total_volume + amount)
            &&& amount_at(after.token_volume, token) == crate::num::sat_i128(
                amount_at(m.token_volume, token) + amount,
            )
            &&& amount_at(after.merchant_volume, merchant) == crate::num::sat_i128(
                amount_at(m.merchant_volume, merchant) + amount,
            )
            &&& amount_at(after.bucket_volume, bucket) == crate::num::sat_i128(
                amount_at(m.bucket_volume, bucket) + amount,
            )
            &&& after.totals.total_payment_count == crate::num::sat_u64(
                m.totals.total_payment_count + 1,
            )
            &&& count_at(after.token_count, token) == crate::num::sat_u64(
                count_at(m.token_count, token) + 1,
            )
            &&& count_at(after.merchant_count, merchant) == crate::num::sat_u64(
                count_at(m.merchant_count, merchant) + 1,
            )
            &&& count_at(after.bucket_count, bucket) == crate::num::sat_u64(
                count_at(m.bucket_count, bucket) + 1,
            )
            &&& after.totals.total_fees == crate::num::sat_i128(m.totals.total_fees + fee)
            &&& amount_at(after.merchant_fees, merchant) == crate::num::sat_i128(
                amount_at(m.merchant_fees, merchant) + fee,
            )
        }),
{
}

/// A payment changes no counter of another token, merchant or bucket.
pub proof fn law_payment_counts_nowhere_else(
    m: AnalyticsModel,
    token: Address,
    merchant: Address,
    amount: i128,
    fee: i128,
    now: u32,
    other: Address,
    bucket: u64,
)
    ensures
        ({
            let after = m.paid(token, merchant, amount, fee, now);
            &&& other != token ==> amount_at(after.token_volume, other) == amount_at(
                m.token_volume,
                other,
            ) && count_at(after.token_count, other) == count_at(m.token_count, other)
            &&& other != merchant ==> amount_at(after.merchant_volume, other) == amount_at(
                m.merchant_volume,
                other,
            ) && count_at(after.merchant_count, other) == count_at(m.merchant_count, other)
                && amount_at(after.merchant_fees, other) == amount_at(m.merchant_fees, other)
            &&& bucket != m.bucket(now) ==> after.bucket_stats(bucket) == m.bucket_stats(bucket)
            &&& after.totals.total_failed_count == m.totals.total_failed_count
        }),
{
}

/// The largest payment is never smaller than a payment that was counted, and
/// never shrinks.
pub proof fn law_largest_payment_is_largest(
    m: AnalyticsModel,
    token: Address,
    merchant: Address,
    amount: i128,
    fee: i128,
    now: u32,
)
    ensures
        ({
            let after = m.paid(token, merchant, amount, fee, now).totals.largest_payment;
            &&& after >= amount
            &&& after >= m.totals.largest_payment
            &&& after == amount || after == m.totals.largest_payment
        }),
{
}

/// A payment to be counted, and the ledger at which it is recorded.
pub struct Payment {
    pub token: Address,
    pub merchant: Address,
    pub amount: i128,
    pub fee: i128,
    pub now: u32,
}

/// What a counter counts: every payment, or those of one token, merchant or
/// bucket.
pub enum Scope {
    All,
    Token(Address),
    Merchant(Address),
    Bucket(u64),
}

impl AnalyticsModel {
    /// The state after the payments were counted one after the other.
    pub open spec fn after_payments(self, payments: Seq<Payment>) -> AnalyticsModel
        decreases payments.len(),
    {
        if payments.len() == 0 {
            self
        } else {
            let p = payments.last();
            self.after_payments(payments.drop_last()).paid(
                p.token,
                p.merchant,
                p.amount,
                p.fee,
                p.now,
            )
        }
    }

    /// Whether the payment falls within the scope.
    pub open spec fn within(self, p: Payment, scope: Scope) -> bool {
        match scope {
            Scope::All => true,
            Scope::Token(token) => p.token == token,
            Scope::Merchant(merchant) => p.merchant == merchant,
            Scope::Bucket(bucket) => self.bucket(p.now) == bucket,
        }
    }

    /// The sum of the amounts of the payments within the scope.
    pub open spec fn amounts(self, payments: Seq<Payment>, scope: Scope) -> int
        decreases payments.len(),
    {
        if payments.len() == 0 {
            0
        } else {
            self.amounts(payments.drop_last(), scope) + if self.within(payments.last(), scope) {
                payments.last().amount as int
            } else {
                0
            }
        }
    }

    /// The sum of the fees of the payments within the scope.
    pub open spec fn fees(self, payments: Seq<Payment>, scope: Scope) -> int
        decreases payments.len(),
    {
        if payments.len() == 0 {
            0
        } else {
            self.fees(payments.drop_last(), scope) + if self.within(payments.last(), scope) {
                payments.last().fee as int
            } else {
                0
            }
        }
    }

    /// How many of the payments are within the scope.
    pub open spec fn number(self, payments: Seq<Payment>, scope: Scope) -> int
        decreases payments.len(),
    {
        if payments.len() == 0 {
            0
        } else {
            self.number(payments.drop_last(), scope) + if self.within(payments.last(), scope) {
                1int
            } else {
                0
            }
        }
    }

    /// The volume counter of the scope.
    pub open spec fn volume_counter(self, scope: Scope) -> i128 {
        match scope {
            Scope::All => self.totals.total_volume,
            Scope::Token(token) => amount_at(self.token_volume, token),
            Scope::Merchant(merchant) => amount_at(self.merchant_volume, merchant),
            Scope::Bucket(bucket) => amount_at(self.bucket_volume, bucket),
        }
    }

    /// The payment counter of the scope.
    pub open spec fn payment_counter(self, scope: Scope) -> u64 {
        match scope {
            Scope::All => self.totals.total_payment_count,
            Scope::Token(token) => count_at(self.token_count, token),
            Scope::Merchant(merchant) => count_at(self.merchant_count, merchant),
            Scope::Bucket(bucket) => count_at(self.bucket_count, bucket),
        }
    }
}

/// Whether every payment is one that is counted: a positive amount and a fee
/// that is not negative.
pub open spec fn countable(payments: Seq<Payment>) -> bool {
    forall|i: int|
        0 <= i < payments.len() ==> (#[trigger] payments[i]).amount > 0 && payments[i].fee >= 0
}

proof fn lemma_countable_without_last(payments: Seq<Payment>)
    requires
        countable(payments),
        payments.len() > 0,
    ensures
        countable(payments.drop_last()),
        payments.last().amount > 0,
        payments.last().fee >= 0,
{
    let before = payments.drop_last();
    assert forall|i: int| 0 <= i < before.len() implies (#[trigger] before[i]).amount > 0
        && before[i].fee >= 0 by {
        assert(before[i] == payments[i]);
    }
    assert(payments.last() == payments[payments.len() - 1]);
}

proof fn lemma_sums_not_negative(m: AnalyticsModel, payments: Seq<Payment>, scope: Scope)
    requires
        countable(payments),
    ensures
        m.amounts(payments, scope) >= 0,
        m.fees(payments, scope) >= 0,
        m.number(payments, scope) >= 0,
    decreases payments.len(),
{
    if payments.len() > 0 {
        lemma_countable_without_last(payments);
        lemma_sums_not_negative(m, payments.drop_last(), scope);
    }
}

/// After any run of payments each counter has grown by what the payments
/// within its scope add up to, up to the end of the counter's range: volume
/// and count in total, for each token, each merchant and each bucket.
pub proof fn law_counters_add_up(m: AnalyticsModel, payments: Seq<Payment>, scope: Scope)
    requires
        countable(payments),
    ensures
        ({
            let after = m.after_payments(payments);
            &&& after.volume_counter(scope) == crate::num::sat_i128(
                m.volume_counter(scope) + m.amounts(payments, scope),
            )
            &&& after.payment_counter(scope) == crate::num::sat_u64(
                m.payment_counter(scope) + m.number(payments, scope),
            )
            &&& after.bucket_size == m.bucket_size
            &&& after.totals.total_failed_count == m.totals.total_failed_count
        }),
    decreases payments.len(),
{
    if payments.len() > 0 {
        lemma_countable_without_last(payments);
        law_counters_add_up(m, payments.drop_last(), scope);
        lemma_sums_not_negative(m, payments.drop_last(), scope);
    }
}

/// After any run of payments the fees in total and of each merchant have
/// grown by what the payments' fees add up to, up to the end of the counter's
/// range.
pub proof fn law_fees_add_up(m: AnalyticsModel, payments: Seq<Payment>, merchant: Address)
    requires
        countable(payments),
    ensures
        ({
            let after = m.after_payments(payments);
            &&& after.totals.total_fees == crate::num::sat_i128(
                m.totals.total_fees + m.fees(payments, Scope::All),
            )
            &&& amount_at(after.merchant_fees, merchant) == crate::num::sat_i128(
                amount_at(m.merchant_fees, merchant) + m.fees(
                    payments,
                    Scope::Merchant(merchant),
                ),
            )
        }),
    decreases payments.len(),
{
    if payments.len() > 0 {
        lemma_countable_without_last(payments);
        law_fees_add_up(m, payments.drop_last(), merchant);
        lemma_sums_not_negative(m, payments.drop_last(), Scope::All);
        lemma_sums_not_negative(m, payments.drop_last(), Scope::Merchant(merchant));
    }
}

/// After any run of payments the largest payment is at least as large as
/// every payment of the run and as the largest before, and it is one of them.
pub proof fn law_largest_of_a_run(m: AnalyticsModel, payments: Seq<Payment>)
    ensures
        ({
            let largest = m.after_payments(payments).totals.largest_payment;
            &&& largest >= m.totals.largest_payment
            &&& forall|i: int|
                0 <= i < payments.len() ==> largest >= (#[trigger] payments[i]).amount
            &&& largest == m.totals.largest_payment || exists|i: int|
                0 <= i < payments.len() && (#[trigger] payments[i]).amount == largest
        }),
    decreases payments.len(),
{
    if payments.len() > 0 {
        let before = payments.drop_last();
        law_largest_of_a_run(m, before);
        let largest = m.after_payments(payments).totals.largest_payment;
        let earlier = m.after_payments(before).totals.largest_payment;
        assert(payments.last() == payments[payments.len() - 1]);
        assert forall|i: int| 0 <= i < payments.len() implies largest >= (
        #[trigger] payments[i]).amount by {
            if i < before.len() {
                assert(before[i] == payments[i]);
            }
        }
        if largest == earlier && earlier != m.totals.largest_payment {
            let i = choose|i: int|
                0 <= i < before.len() && (#[trigger] before[i]).amount == earlier;
            assert(payments[i] == before[i]);
        }
    }
}

/// A ledger falls into the one bucket whose range of ledgers holds it.
pub proof fn law_buckets_partition_ledgers(m: AnalyticsModel, ledger: u32)
    requires
        m.wf(),
    ensures
        m.bucket(ledger) * m.bucket_size <= ledger < (m.bucket(ledger) + 1) * m.bucket_size,
{
    let l = ledger as int;
    let s = m.bucket_size as int;
    assert((l / s) * s <= l < (l / s + 1) * s) by (nonlinear_arith)
        requires
            s > 0,
            l >= 0,
    ;
}

/// A payment is counted at the wish of an authorised recorder while the contract
/// is not paused, for a positive amount and a fee that is not negative. Only an
/// administrator changes recorders. Where no size is given, a bucket holds a
/// day of ledgers.
pub proof fn law_counting_conditions(m: AnalyticsModel, who: Address, amount: int, fee: int)
    ensures
        m.payment_error(who, amount, fee) is None <==> !m.paused && m.recorders.contains(who)
            && amount > 0 && fee >= 0,
        !m.paused && !m.recorders.contains(who) ==> m.payment_error(who, amount, fee) == Some(
            AnalyticsError::Unauthorized,
        ),
        !m.paused && m.recorders.contains(who) && (amount <= 0 || fee < 0) ==> m.payment_error(
            who,
            amount,
            fee,
        ) == Some(AnalyticsError::InvalidAmount),
        m.admin_error() == if m.admin is Some {
            None
        } else {
            Some(AnalyticsError::NotInitialized)
        },
        m.add_recorder_error(who) == if m.admin is None {
            Some(AnalyticsError::NotInitialized)
        } else if m.recorders.contains(who) {
            Some(AnalyticsError::RecorderAlreadyAdded)
        } else {
            None
        },
        m.remove_recorder_error(who) == if m.admin is None {
            Some(AnalyticsError::NotInitialized)
        } else if m.recorders.contains(who) {
            None
        } else {
            Some(AnalyticsError::RecorderNotFound)
        },
        DEFAULT_BUCKET_SIZE == 24 * 60 * 60 / 5,
{
}

/// Before anything is counted every total is zero.
pub proof fn law_totals_start_at_zero()
    ensures
        no_totals().total_payment_count == 0,
        no_totals().total_volume == 0,
        no_totals().total_fees == 0,
        no_totals().total_failed_count == 0,
        no_totals().largest_payment == 0,
{
}

/// A single payment raises exactly the counters of its own token, merchant and
/// bucket, and those of all payments, by its amount, its fee and one, up to the
/// ends of their ranges. Settings and recorders stay as they were.
pub proof fn law_counters_of_one_payment(
    m: AnalyticsModel,
    token: Address,
    merchant: Address,
    amount: i128,
    fee: i128,
    now: u32,
    who: Address,
    bucket: u64,
)
    requires
        amount > 0,
        fee >= 0,
        m.wf(),
    ensures
        ({
            let after = m.paid(token, merchant, amount, fee, now);
            let own = bucket * m.bucket_size <= now < (bucket + 1) * m.bucket_size;
            let plus = |old: i128, more: int|
                if old + more > i128::MAX {
                    i128::MAX as int
                } else {
                    old + more
                };
            let one_more = |old: u64|
                if old == u64::MAX {
                    u64::MAX as int
                } else {
                    old + 1
                };
            let token_before = if m.token_volume.contains_key(who) {
                m.token_volume[who]
            } else {
                0i128
            };
            let token_count = if m.token_count.contains_key(who) {
                m.token_count[who]
            } else {
                0u64
            };
            let merchant_before = if m.merchant_volume.contains_key(who) {
                m.merchant_volume[who]
            } else {
                0i128
            };
            let merchant_count = if m.merchant_count.contains_key(who) {
                m.merchant_count[who]
            } else {
                0u64
            };
            let fees_before = if m.merchant_fees.contains_key(who) {
                m.merchant_fees[who]
            } else {
                0i128
            };
            let bucket_before = if m.bucket_volume.contains_key(bucket) {
                m.bucket_volume[bucket]
            } else {
                0i128
            };
            let bucket_count = if m.bucket_count.contains_key(bucket) {
                m.bucket_count[bucket]
            } else {
                0u64
            };
            &&& after.totals.total_volume == plus(m.totals.total_volume, amount as int)
            &&& after.totals.total_fees == plus(m.totals.total_fees, fee as int)
            &&& after.totals.total_payment_count == one_more(m.totals.total_payment_count)
            &&& after.totals.total_failed_count == m.totals.total_failed_count
            &&& who == token ==> after.token_volume[who] == plus(token_before, amount as int)
                && after.token_count[who] == one_more(token_count)
            &&& who == merchant ==> after.merchant_volume[who] == plus(
                merchant_before,
                amount as int,
            ) && after.merchant_count[who] == one_more(merchant_count) && after.merchant_fees[who]
                == plus(fees_before, fee as int)
            &&& own ==> after.bucket_volume[bucket] == plus(bucket_before, amount as int)
                && after.bucket_count[bucket] == one_more(bucket_count)
            &&& after.bucket_stats(bucket) == (BucketStats {
                bucket_index: bucket,
                volume: if own {
                    plus(bucket_before, amount as int) as i128
                } else {
                    bucket_before
                },
                count: if own {
                    one_more(bucket_count) as u64
                } else {
                    bucket_count
                },
            })
            &&& after.admin == m.admin
            &&& after.paused == m.paused
            &&& after.version == m.version
            &&& after.bucket_size == m.bucket_size
            &&& after.recorders == m.recorders
        }),
{
    law_buckets_partition_ledgers(m, now);
    let b = m.bucket(now) as int;
    let k = bucket as int;
    let size = m.bucket_size as int;
    if k * size <= now && now < (k + 1) * size {
        assert(b == k) by (nonlinear_arith)
            requires
                b * size <= now < (b + 1) * size,
                k * size <= now < (k + 1) * size,
                size > 0,
        ;
    }
}

/// A paused contract counts nothing.
pub proof fn law_pause_stops_counting(m: AnalyticsModel, recorder: Address, amount: int, fee: int)
    requires
        m.paused,
    ensures
        m.payment_error(recorder, amount, fee) == Some(AnalyticsError::ContractPaused),
{
}

/// The numbers under which callers see the values are fixed.
pub proof fn law_analytics_error_numbers(v: AnalyticsError)
    ensures
        v is AlreadyInitialized ==> v.number() == 1,
        v is NotInitialized ==> v.number() == 2,
        v is Unauthorized ==> v.number() == 3,
        v is ContractPaused ==> v.number() == 4,
        v is InvalidAmount ==> v.number() == 5,
        v is RecorderAlreadyAdded ==> v.number() == 6,
        v is RecorderNotFound ==> v.number() == 7,
{
}

/// The topics under which the events are announced are fixed.
pub proof fn law_analytics_event_topics(v: AnalyticsEvent)
    ensures
        v is Initialized ==> v.topic_names() == ("analytics"@, "init"@),
        v is RecorderAdded ==> v.topic_names() == ("analytics"@, "rec_add"@),
        v is RecorderRemoved ==> v.topic_names() == ("analytics"@, "rec_rm"@),
        v is Payment ==> v.topic_names() == ("analytics"@, "payment"@),
        v is Failure ==> v.topic_names() == ("analytics"@, "failure"@),
        v is BucketSizeUpdated ==> v.topic_names() == ("analytics"@, "bkt_upd"@),
        v is Paused ==> v.topic_names() == ("analytics"@, "paused"@),
        v is Unpaused ==> v.topic_names() == ("analytics"@, "unpaused"@),
        v is AdminTransferred ==> v.topic_names() == ("analytics"@, "adm_xfer"@),
{
}

} // verus!
