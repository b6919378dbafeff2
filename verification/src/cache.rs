//! The cache's keys, lifetimes and bookkeeping, and the steps of its
//! invalidations.
use crate::api_error::ApiError;
use crate::text::join2;
use crate::text::join3;
use vstd::prelude::*;

verus! {

/// Seconds by which a tag outlives the values it names.
pub const TAG_TTL_BUFFER_SECONDS: u64 = 60;

/// How many keys one page of a scan asks for.
pub const SCAN_PAGE_SIZE: u64 = 100;

/// What became of reads from the cache.
#[derive(Clone, Copy, Debug, PartialEq, Eq)]
pub struct CacheCounters {
    pub hits: u64,
    pub misses: u64,
    pub errors: u64,
}

/// How the store answered a read.
#[derive(Clone, Copy, Debug, PartialEq, Eq)]
pub enum GetReply {
    /// There is no connection to the store.
    Unavailable,
    /// The store failed.
    Failed,
    /// The store holds a value.
    Found,
    /// The store holds no value.
    Missing,
}

/// How the store answered a write or a deletion.
#[derive(Clone, Copy, Debug, PartialEq, Eq)]
pub enum WriteReply {
    /// There is no connection to the store.
    Unavailable,
    /// The store failed.
    Failed,
    /// The store did as it was told.
    Done,
}

impl GetReply {
    /// The name under which the answer is counted.
    pub open spec fn label(self) -> Seq<char> {
        match self {
            GetReply::Unavailable => "unavailable"@,
            GetReply::Failed => "error"@,
            GetReply::Found => "hit"@,
            GetReply::Missing => "miss"@,
        }
    }

    /// The name under which the answer is counted.
    pub fn outcome(&self) -> (r: &'static str)
        ensures
            r@ == self.label(),
    {
        match self {
            GetReply::Unavailable => "unavailable",
            GetReply::Failed => "error",
            GetReply::Found => "hit",
            GetReply::Missing => "miss",
        }
    }

    /// Whether the caller gets a value, or the failure it gets.
    pub fn result(&self) -> (r: Result<bool, ApiError>)
        ensures
            match r {
                Ok(found) => *self != GetReply::Failed && found == (*self == GetReply::Found),
                Err(e) => *self == GetReply::Failed && e
                    == crate::api_error::ApiError::InternalServerError,
            },
    {
        match self {
            GetReply::Unavailable => Ok(false),
            GetReply::Failed => Err(ApiError::InternalServerError),
            GetReply::Found => Ok(true),
            GetReply::Missing => Ok(false),
        }
    }
}

impl WriteReply {
    /// The name under which the answer is counted.
    pub open spec fn label(self) -> Seq<char> {
        match self {
            WriteReply::Unavailable => "unavailable"@,
            WriteReply::Failed => "error"@,
            WriteReply::Done => "ok"@,
        }
    }

    /// The name under which the answer is counted.
    pub fn outcome(&self) -> (r: &'static str)
        ensures
            r@ == self.label(),
    {
        match self {
            WriteReply::Unavailable => "unavailable",
            WriteReply::Failed => "error",
            WriteReply::Done => "ok",
        }
    }

    /// What the caller gets. A store that cannot be reached is no failure.
    pub fn result(&self) -> (r: Result<(), ApiError>)
        ensures
            match r {
                Ok(_) => *self != WriteReply::Failed,
                Err(e) => *self == WriteReply::Failed && e
                    == crate::api_error::ApiError::InternalServerError,
            },
    {
        match self {
            WriteReply::Failed => Err(ApiError::InternalServerError),
            _ => Ok(()),
        }
    }
}

/// A counter counted up, starting over after its maximum.
pub open spec fn next_count(n: u64) -> u64 {
    if n == u64::MAX {
        0
    } else {
        (n + 1) as u64
    }
}

impl CacheCounters {
    /// The counters after a read.
    pub open spec fn after(self, reply: GetReply) -> CacheCounters {
        match reply {
            GetReply::Unavailable => self,
            GetReply::Failed => CacheCounters { errors: next_count(self.errors), ..self },
            GetReply::Found => CacheCounters { hits: next_count(self.hits), ..self },
            GetReply::Missing => CacheCounters { misses: next_count(self.misses), ..self },
        }
    }

    /// Counters at zero.
    pub fn new() -> (r: CacheCounters)
        ensures
            r == (CacheCounters { hits: 0, misses: 0, errors: 0 }),
    {
        CacheCounters { hits: 0, misses: 0, errors: 0 }
    }

    /// Counts a read.
    pub fn record(&mut self, reply: &GetReply)
        ensures
            *final(self) == old(self).after(*reply),
    {
        match reply {
            GetReply::Unavailable => {},
            GetReply::Failed => {
                self.errors = self.errors.wrapping_add(1);
            },
            GetReply::Found => {
                self.hits = self.hits.wrapping_add(1);
            },
            GetReply::Missing => {
                self.misses = self.misses.wrapping_add(1);
            },
        }
    }

    /// How many reads the store answered.
    pub fn total_requests(&self) -> (r: u64)
        requires
            self.hits + self.misses <= u64::MAX,
        ensures
            r == self.hits + self.misses,
    {
        self.hits + self.misses
    }
}

/// What deleting everything cached for a payment takes.
#[derive(Debug)]
pub struct PaymentInvalidation {
    /// The key to delete.
    pub key: String,
    /// The pattern of the other keys to delete.
    pub pattern: String,
}

/// A tag that a key is registered under.
#[derive(Debug)]
pub struct TagRegistration {
    /// The key of the tag's set.
    pub tag_key: String,
    /// The new lifetime of the set in seconds.
    pub ttl_seconds: i64,
}

/// The cache's settings.
#[derive(Clone, Copy, Debug, PartialEq, Eq)]
pub struct CacheService {
    pub default_ttl_seconds: u64,
    pub hot_data_ttl_seconds: u64,
}

impl CacheService {
    /// The lifetime of a value in seconds.
    pub open spec fn lifetime(self, ttl_seconds: Option<u64>) -> u64 {
        match ttl_seconds {
            Some(ttl) => ttl,
            None => self.default_ttl_seconds,
        }
    }

    /// The lifetime of a value in seconds: as asked, else the default.
    pub fn ttl(&self, ttl_seconds: Option<u64>) -> (r: u64)
        ensures
            r == self.lifetime(ttl_seconds),
    {
        match ttl_seconds {
            Some(ttl) => ttl,
            None => self.default_ttl_seconds,
        }
    }

    /// The lifetime asked for a value that is read often.
    pub fn hot_ttl(&self) -> (r: Option<u64>)
        ensures
            r == Some(self.hot_data_ttl_seconds),
            self.lifetime(r) == self.hot_data_ttl_seconds,
    {
        Some(self.hot_data_ttl_seconds)
    }

    /// Cache key for a payment by UUID string.
    pub fn payment_key(payment_id: &str) -> (r: String)
        ensures
            r@ == "payment:"@ + payment_id@,
    {
        join2("payment:", payment_id)
    }

    /// Cache key for a user profile.
    pub fn profile_key(user_id: &str) -> (r: String)
        ensures
            r@ == "profile:"@ + user_id@,
    {
        join2("profile:", user_id)
    }

    /// Cache key for a dispute.
    pub fn dispute_key(dispute_id: &str) -> (r: String)
        ensures
            r@ == "dispute:"@ + dispute_id@,
    {
        join2("dispute:", dispute_id)
    }

    /// The key of a tag's set.
    pub fn tag_key(tag: &str) -> (r: String)
        ensures
            r@ == "tag:"@ + tag@,
    {
        join2("tag:", tag)
    }

    /// What deleting everything cached for a payment takes: the payment and
    /// its disputes.
    pub fn invalidate_payment(payment_id: &str) -> (r: PaymentInvalidation)
        ensures
            r.key@ == "payment:"@ + payment_id@,
            r.pattern@ == "dispute:payment:"@ + payment_id@ + ":*"@,
    {
        PaymentInvalidation {
            key: Self::payment_key(payment_id),
            pattern: join3("dispute:payment:", payment_id, ":*"),
        }
    }

    /// Under which tags a value is registered, and how long each tag's set
    /// lives: a little longer than the value.
    pub fn tag_registrations(&self, ttl_seconds: Option<u64>, tags: &Vec<String>) -> (r: Vec<
        TagRegistration,
    >)
        requires
            tags@.len() > 0 ==> self.lifetime(ttl_seconds) + TAG_TTL_BUFFER_SECONDS <= u64::MAX,
        ensures
            r@.len() == tags@.len(),
            forall|i: int|
                0 <= i < tags@.len() ==> (#[trigger] r@[i]).tag_key@ == "tag:"@ + tags@[i]@
                    && r@[i].ttl_seconds == ((self.lifetime(ttl_seconds)
                    + TAG_TTL_BUFFER_SECONDS) as u64) as i64,
    {
        let mut out: Vec<TagRegistration> = Vec::new();
        let mut i: usize = 0;
        while i < tags.len()
            invariant
                i <= tags@.len(),
                self.lifetime(ttl_seconds) + TAG_TTL_BUFFER_SECONDS <= u64::MAX || tags@.len() == 0,
                out@.len() == i,
                forall|j: int|
                    0 <= j < i ==> (#[trigger] out@[j]).tag_key@ == "tag:"@ + tags@[j]@
                        && out@[j].ttl_seconds == ((self.lifetime(ttl_seconds)
                        + TAG_TTL_BUFFER_SECONDS) as u64) as i64,
            decreases tags@.len() - i,
        {
            let ttl: u64 = self.ttl(ttl_seconds) + TAG_TTL_BUFFER_SECONDS;
            out.push(
                TagRegistration {
                    tag_key: Self::tag_key(tags[i].as_str()),
                    ttl_seconds: ttl as i64,
                },
            );
            i = i + 1;
        }
        out
    }
}

/// What an invalidation by tag does with the keys registered under the tag.
#[derive(Debug)]
pub struct TagInvalidation {
    /// The keys to delete, if there are any.
    pub members: Option<Vec<String>>,
    /// The key of the tag's set, which is deleted last.
    pub tag_key: String,
    /// How many keys are invalidated.
    pub count: u64,
}

/// The deletions of an invalidation by tag.
pub fn invalidate_tag(tag: &str, keys: Vec<String>) -> (r: TagInvalidation)
    ensures
        r.tag_key@ == "tag:"@ + tag@,
        r.count == keys@.len(),
        match r.members {
            Some(members) => keys@.len() > 0 && members == keys,
            None => keys@.len() == 0,
        },
{
    let count: u64 = keys.len() as u64;
    let tag_key = CacheService::tag_key(tag);
    if keys.len() == 0 {
        return TagInvalidation { members: None, tag_key, count };
    }
    TagInvalidation { members: Some(keys), tag_key, count }
}

/// A page whose keys are being deleted.
#[derive(Clone, Copy, Debug, PartialEq, Eq)]
pub struct PendingPage {
    /// Where the next page begins.
    pub next_cursor: u64,
    /// How many keys the page holds.
    pub count: u64,
}

/// An invalidation by pattern: pages of matching keys are fetched and deleted
/// until the store has no more.
#[derive(Clone, Copy, Debug, PartialEq, Eq)]
pub struct PatternScan {
    /// Where the next page begins.
    pub cursor: u64,
    /// How many keys were deleted.
    pub deleted: u64,
    /// The page that is being deleted, if one is.
    pub pending: Option<PendingPage>,
}

/// What an invalidation by pattern does next.
#[derive(Debug)]
pub enum ScanStep {
    /// Fetch the page at the cursor.
    Scan(u64),
    /// Delete the keys.
    Delete(Vec<String>),
    /// Report how many keys were deleted.
    Finish(u64),
}

impl PatternScan {
    /// The invalidation once a page is dealt with.
    pub open spec fn advanced(self, next_cursor: u64, count: int) -> PatternScan {
        PatternScan {
            cursor: next_cursor,
            deleted: (self.deleted + count) as u64,
            pending: None,
        }
    }

    /// What follows a page that was dealt with: the next page, or the end if
    /// the store's cursor is back at zero.
    pub open spec fn next_step(self) -> ScanStep {
        if self.cursor == 0 {
            ScanStep::Finish(self.deleted)
        } else {
            ScanStep::Scan(self.cursor)
        }
    }

    /// The beginning of an invalidation.
    pub fn start() -> (r: (PatternScan, ScanStep))
        ensures
            r.0 == (PatternScan { cursor: 0, deleted: 0, pending: None }),
            r.1 == ScanStep::Scan(0),
    {
        (PatternScan { cursor: 0, deleted: 0, pending: None }, ScanStep::Scan(0))
    }

    /// Deals with a page: its keys are deleted, if it has any.
    pub fn on_page(&mut self, next_cursor: u64, keys: Vec<String>) -> (r: ScanStep)
        requires
            old(self).pending is None,
        ensures
            if keys@.len() > 0 {
                &&& r == ScanStep::Delete(keys)
                &&& *final(self) == (PatternScan {
                    pending: Some(PendingPage { next_cursor, count: keys@.len() as u64 }),
                    ..*old(self)
                })
            } else {
                &&& *final(self) == old(self).advanced(next_cursor, 0)
                &&& r == final(self).next_step()
            },
    {
        if keys.len() > 0 {
            self.pending = Some(PendingPage { next_cursor, count: keys.len() as u64 });
            return ScanStep::Delete(keys);
        }
        self.advance(next_cursor, 0)
    }

    /// Counts the keys of a page that was deleted.
    pub fn on_deleted(&mut self) -> (r: ScanStep)
        requires
            old(self).pending matches Some(p) && old(self).deleted + p.count <= u64::MAX,
        ensures
            *final(self) == old(self).advanced(
                old(self).pending->0.next_cursor,
                old(self).pending->0.count as int,
            ),
            r == final(self).next_step(),
    {
        match self.pending {
            Some(page) => self.advance(page.next_cursor, page.count),
            None => ScanStep::Finish(self.deleted),
        }
    }

    fn advance(&mut self, next_cursor: u64, count: u64) -> (r: ScanStep)
        requires
            old(self).deleted + count <= u64::MAX,
        ensures
            *final(self) == old(self).advanced(next_cursor, count as int),
            r == final(self).next_step(),
    {
        self.deleted = self.deleted + count;
        self.cursor = next_cursor;
        self.pending = None;
        if self.cursor == 0 {
            ScanStep::Finish(self.deleted)
        } else {
            ScanStep::Scan(self.cursor)
        }
    }
}

/// A page as the store hands it out: where the next one begins, and how many
/// keys this one holds.
pub struct PageModel {
    pub next_cursor: u64,
    pub keys: nat,
}

/// How many keys the first `n` pages hold.
pub open spec fn keys_in(pages: Seq<PageModel>, n: int) -> int
    decreases n,
{
    if n <= 0 {
        0
    } else {
        keys_in(pages, n - 1) + pages[n - 1].keys
    }
}

/// The invalidation after the first `n` pages were dealt with.
pub open spec fn scanned(pages: Seq<PageModel>, n: int) -> PatternScan
    decreases n,
{
    if n <= 0 {
        PatternScan { cursor: 0, deleted: 0, pending: None }
    } else {
        scanned(pages, n - 1).advanced(pages[n - 1].next_cursor, pages[n - 1].keys as int)
    }
}

/// However the store pages its keys, the invalidation ends at the page whose
/// cursor is back at zero and reports the number of keys on all pages.
pub proof fn law_scan_reports_every_key(pages: Seq<PageModel>, n: int)
    requires
        0 < n <= pages.len(),
        keys_in(pages, n) <= u64::MAX,
    ensures
        scanned(pages, n).deleted == keys_in(pages, n),
        scanned(pages, n).next_step() == if pages[n - 1].next_cursor == 0 {
            ScanStep::Finish(keys_in(pages, n) as u64)
        } else {
            ScanStep::Scan(pages[n - 1].next_cursor)
        },
    decreases n,
{
    lemma_keys_in(pages, n - 1);
    if n > 1 {
        law_scan_reports_every_key(pages, n - 1);
    } else {
        assert(scanned(pages, 0).deleted == keys_in(pages, 0));
    }
}

proof fn lemma_keys_in(pages: Seq<PageModel>, n: int)
    ensures
        keys_in(pages, n) >= 0,
    decreases n,
{
    if n > 0 {
        lemma_keys_in(pages, n - 1);
    }
}

/// A read counts as a hit exactly when a value was found, as a miss exactly when
/// there was none, and as an error exactly when the store failed. Without a
/// connection nothing is counted. A counter at its maximum starts over.
pub proof fn law_reads_count_by_answer(counters: CacheCounters, reply: GetReply)
    ensures
        ({
            let after = counters.after(reply);
            let up = |n: u64|
                if n == u64::MAX {
                    0
                } else {
                    n + 1
                };
            &&& after.hits == if reply == GetReply::Found {
                up(counters.hits)
            } else {
                counters.hits as int
            }
            &&& after.misses == if reply == GetReply::Missing {
                up(counters.misses)
            } else {
                counters.misses as int
            }
            &&& after.errors == if reply == GetReply::Failed {
                up(counters.errors)
            } else {
                counters.errors as int
            }
        }),
{
}

/// A value lives as long as was asked, else for the default time. A tag outlives
/// its values by a minute.
pub proof fn law_lifetimes(cache: CacheService, ttl: Option<u64>)
    ensures
        ttl matches Some(t) ==> cache.lifetime(ttl) == t,
        ttl is None ==> cache.lifetime(ttl) == cache.default_ttl_seconds,
        TAG_TTL_BUFFER_SECONDS == 60,
{
}

/// A page that was dealt with is added to the count, and the scan goes on where
/// the store says, or ends where the store's cursor is back at zero.
pub proof fn law_scan_goes_on(scan: PatternScan, next_cursor: u64, count: int)
    requires
        0 <= count,
        scan.deleted + count <= u64::MAX,
    ensures
        ({
            let after = scan.advanced(next_cursor, count);
            &&& after.deleted == scan.deleted + count
            &&& after.cursor == next_cursor
            &&& after.pending is None
            &&& next_cursor == 0 ==> after.next_step() == ScanStep::Finish(
                (scan.deleted + count) as u64,
            )
            &&& next_cursor != 0 ==> after.next_step() == ScanStep::Scan(next_cursor)
        }),
{
}

/// Every read that the store answers counts once, as a hit or as a miss.
pub proof fn law_reads_count_once(counters: CacheCounters, reply: GetReply)
    requires
        counters.hits < u64::MAX,
        counters.misses < u64::MAX,
        counters.errors < u64::MAX,
    ensures
        ({
            let after = counters.after(reply);
            &&& after.hits + after.misses == counters.hits + counters.misses + if reply
                == GetReply::Found || reply == GetReply::Missing {
                1int
            } else {
                0
            }
            &&& after.errors == counters.errors + if reply == GetReply::Failed {
                1int
            } else {
                0
            }
        }),
{
}

/// The names under which the answers are counted are fixed.
pub proof fn law_get_reply_labels(v: GetReply)
    ensures
        v is Unavailable ==> v.label() == "unavailable"@,
        v is Failed ==> v.label() == "error"@,
        v is Found ==> v.label() == "hit"@,
        v is Missing ==> v.label() == "miss"@,
{
}

/// The names under which the answers are counted are fixed.
pub proof fn law_write_reply_labels(v: WriteReply)
    ensures
        v is Unavailable ==> v.label() == "unavailable"@,
        v is Failed ==> v.label() == "error"@,
        v is Done ==> v.label() == "ok"@,
{
}

} // verus!
