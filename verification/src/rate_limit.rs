//! Sliding-window rate limits and the decisions of the middleware that
//! applies them.
use crate::api_error::ApiError;
use crate::text::begins_with;
use crate::text::chars_of;
use crate::text::decimal_text;
use crate::text::owned;
use crate::text::replace_char;
use crate::text::without_prefix;
use crate::windows::LocalWindows;
use vstd::prelude::*;
use vstd::string::*;

verus! {

/// Whose requests are counted together.
#[derive(Clone, Copy, Debug, PartialEq, Eq, Structural)]
pub enum RateLimitScope {
    Ip,
    User,
    ApiKey,
}

/// A limit for the paths under a prefix.
#[derive(Debug)]
pub struct EndpointRateLimitConfig {
    pub path_prefix: String,
    pub max_requests: u32,
    pub window_ms: u64,
}

/// The limits.
#[derive(Debug)]
pub struct RateLimitConfig {
    pub window_ms: u64,
    pub max_requests: u32,
    pub scope: RateLimitScope,
    pub endpoint_limits: Vec<EndpointRateLimitConfig>,
    pub bypass_admin: bool,
}

/// Whether a request is let through, and what is left of the limit.
#[derive(Clone, Copy, Debug, PartialEq, Eq)]
pub struct RateLimitDecision {
    pub allowed: bool,
    pub limit: u32,
    pub remaining: u32,
    pub reset_after_seconds: u64,
}

/// What the shared store answers: whether the request was admitted, how many
/// are counted, and the time of the oldest.
#[derive(Clone, Copy, Debug, PartialEq, Eq)]
pub struct StoreReply {
    pub allowed: u8,
    pub count: u32,
    pub oldest_ts: u64,
}

/// Under which key a request is counted, and against which limit.
#[derive(Debug)]
pub struct LimitPlan {
    pub key: String,
    pub max_requests: u32,
    pub window_ms: u64,
}

/// The limiter: its configuration and the request times it counts itself.
pub struct RateLimitService {
    pub config: RateLimitConfig,
    pub windows: LocalWindows,
}

/// The name of a scope.
pub open spec fn scope_text(scope: RateLimitScope) -> Seq<char> {
    match scope {
        RateLimitScope::Ip => "ip"@,
        RateLimitScope::User => "user"@,
        RateLimitScope::ApiKey => "api_key"@,
    }
}

/// The name of a scope.
pub fn scope_name(scope: &RateLimitScope) -> (r: &'static str)
    ensures
        r@ == scope_text(*scope),
{
    match scope {
        RateLimitScope::Ip => "ip",
        RateLimitScope::User => "user",
        RateLimitScope::ApiKey => "api_key",
    }
}

/// Whether a limit applies to the path.
pub open spec fn applies(limit: EndpointRateLimitConfig, path: Seq<char>) -> bool {
    limit.path_prefix@.is_prefix_of(path)
}

/// Among the first `n` limits, the last one with the longest prefix that
/// applies to the path.
pub open spec fn endpoint_index(
    limits: Seq<EndpointRateLimitConfig>,
    path: Seq<char>,
    n: int,
) -> Option<int>
    decreases n,
{
    if n <= 0 {
        None
    } else {
        let before = endpoint_index(limits, path, n - 1);
        let better = match before {
            None => true,
            Some(i) => limits[n - 1].path_prefix@.len() >= limits[i].path_prefix@.len(),
        };
        if applies(limits[n - 1], path) && better {
            Some(n - 1)
        } else {
            before
        }
    }
}

impl RateLimitConfig {
    /// The index of the limit for the path, if one applies.
    pub open spec fn limit_index(self, path: Seq<char>) -> Option<int> {
        endpoint_index(self.endpoint_limits@, path, self.endpoint_limits@.len() as int)
    }

    /// The window that counts for the path.
    pub open spec fn window_for(self, path: Seq<char>) -> u64 {
        match self.limit_index(path) {
            Some(i) => self.endpoint_limits@[i].window_ms,
            None => self.window_ms,
        }
    }

    /// The number of requests allowed for the path.
    pub open spec fn max_for(self, path: Seq<char>) -> u32 {
        match self.limit_index(path) {
            Some(i) => self.endpoint_limits@[i].max_requests,
            None => self.max_requests,
        }
    }

    /// The key under which a request is counted.
    pub open spec fn key_for(
        self,
        scope_key: Seq<char>,
        path: Seq<char>,
        scope: RateLimitScope,
    ) -> Seq<char> {
        let bucket = match self.limit_index(path) {
            Some(i) => self.endpoint_limits@[i].path_prefix@,
            None => "global"@,
        };
        "rate_limit:"@ + scope_text(scope) + ":"@ + crate::text::replaced(bucket, '/', '_') + ":"@
            + scope_key
    }
}

/// The time at which a window that ends now began.
pub open spec fn window_start(now: u64, window_ms: u64) -> int {
    if now >= window_ms {
        now - window_ms
    } else {
        0
    }
}

/// The first `n` times without those that are not after `start`.
pub open spec fn kept(times: Seq<u64>, start: int, n: int) -> Seq<u64>
    decreases n,
{
    if n <= 0 {
        Seq::empty()
    } else if times[n - 1] > start {
        kept(times, start, n - 1).push(times[n - 1])
    } else {
        kept(times, start, n - 1)
    }
}

/// The times that count in the window that ends now.
pub open spec fn in_window(times: Seq<u64>, window_ms: u64, now: u64) -> Seq<u64> {
    kept(times, window_start(now, window_ms), times.len() as int)
}

/// Whether one more request is allowed now.
pub open spec fn admits(times: Seq<u64>, max_requests: u32, window_ms: u64, now: u64) -> bool {
    in_window(times, window_ms, now).len() < max_requests
}

/// The times that are counted after a request now.
pub open spec fn counted(times: Seq<u64>, max_requests: u32, window_ms: u64, now: u64) -> Seq<u64> {
    let current = in_window(times, window_ms, now);
    if admits(times, max_requests, window_ms, now) {
        current.push(now)
    } else {
        current
    }
}

/// Milliseconds as seconds, rounded up.
pub open spec fn seconds_up(ms: int) -> int {
    (ms + 999) / 1000
}

/// Seconds until the window is free again.
pub open spec fn reset_after(count: int, oldest: u64, window_ms: u64, now: u64) -> int {
    if count > 0 {
        let end = crate::num::sat_u64(oldest + window_ms);
        seconds_up(
            if end >= now {
                end - now
            } else {
                0
            },
        )
    } else {
        seconds_up(window_ms as int)
    }
}

/// What is left of a limit.
pub open spec fn left_of(max_requests: u32, count: int) -> u32 {
    if count < max_requests {
        (max_requests - count) as u32
    } else {
        0
    }
}

/// The decision on a request that the limiter counts itself.
pub open spec fn local_decision(
    times: Seq<u64>,
    max_requests: u32,
    window_ms: u64,
    now: u64,
) -> RateLimitDecision {
    let after = counted(times, max_requests, window_ms, now);
    RateLimitDecision {
        allowed: admits(times, max_requests, window_ms, now),
        limit: max_requests,
        remaining: left_of(max_requests, after.len() as int),
        reset_after_seconds: reset_after(
            after.len() as int,
            if after.len() > 0 {
                after[0]
            } else {
                now
            },
            window_ms,
            now,
        ) as u64,
    }
}

/// The decision on a request that the shared store counted.
pub open spec fn store_decision(
    reply: StoreReply,
    max_requests: u32,
    window_ms: u64,
    now: u64,
) -> RateLimitDecision {
    RateLimitDecision {
        allowed: reply.allowed == 1,
        limit: max_requests,
        remaining: left_of(max_requests, reply.count as int),
        reset_after_seconds: reset_after(
            reply.count as int,
            reply.oldest_ts,
            window_ms,
            now,
        ) as u64,
    }
}

/// The times counted under a key.
pub open spec fn times_at(windows: Map<Seq<char>, Seq<u64>>, key: Seq<char>) -> Seq<u64> {
    if windows.contains_key(key) {
        windows[key]
    } else {
        Seq::empty()
    }
}

/// No key counts more requests than a limit can allow.
pub open spec fn windows_wf(windows: Map<Seq<char>, Seq<u64>>) -> bool {
    forall|key: Seq<char>| #[trigger]
        windows.contains_key(key) ==> windows[key].len() <= u32::MAX
}

proof fn lemma_kept_bounds(times: Seq<u64>, start: int, n: int)
    requires
        0 <= n <= times.len(),
    ensures
        kept(times, start, n).len() <= n,
        forall|i: int| 0 <= i < kept(times, start, n).len() ==> kept(times, start, n)[i] > start,
    decreases n,
{
    if n > 0 {
        lemma_kept_bounds(times, start, n - 1);
    }
}

/// Milliseconds as seconds, rounded up.
fn round_up_seconds(ms: u64) -> (r: u64)
    ensures
        r == seconds_up(ms as int),
{
    if ms % 1000 == 0 {
        ms / 1000
    } else {
        ms / 1000 + 1
    }
}

/// Seconds until the window is free again.
fn seconds_to_reset(count: u32, oldest: u64, window_ms: u64, now: u64) -> (r: u64)
    ensures
        r == reset_after(count as int, oldest, window_ms, now),
{
    if count > 0 {
        let end: u64 = oldest.saturating_add(window_ms);
        let remaining: u64 = end.saturating_sub(now);
        round_up_seconds(remaining)
    } else {
        round_up_seconds(window_ms)
    }
}

/// Decides on a request that the shared store counted.
pub fn decide_store(reply: StoreReply, max_requests: u32, window_ms: u64, now: u64) -> (r:
    RateLimitDecision)
    ensures
        r == store_decision(reply, max_requests, window_ms, now),
{
    RateLimitDecision {
        allowed: reply.allowed == 1,
        limit: max_requests,
        remaining: max_requests.saturating_sub(reply.count),
        reset_after_seconds: seconds_to_reset(reply.count, reply.oldest_ts, window_ms, now),
    }
}

/// Counts a request among the times of its key and decides on it.
pub fn decide_local(times: &mut Vec<u64>, max_requests: u32, window_ms: u64, now: u64) -> (r:
    RateLimitDecision)
    requires
        old(times)@.len() <= u32::MAX,
    ensures
        final(times)@ == counted(old(times)@, max_requests, window_ms, now),
        final(times)@.len() <= u32::MAX,
        r == local_decision(old(times)@, max_requests, window_ms, now),
{
    let start: u64 = now.saturating_sub(window_ms);
    let mut current: Vec<u64> = Vec::new();
    let mut i: usize = 0;
    while i < times.len()
        invariant
            i <= times@.len(),
            *times == *old(times),
            start == window_start(now, window_ms),
            current@ == kept(times@, start as int, i as int),
        decreases times@.len() - i,
    {
        if times[i] > start {
            current.push(times[i]);
        }
        i = i + 1;
    }
    proof {
        lemma_kept_bounds(times@, start as int, times@.len() as int);
    }
    let allowed = (current.len() as u32) < max_requests;
    if allowed {
        current.push(now);
    }
    let count: u32 = current.len() as u32;
    let oldest: u64 = if current.len() > 0 {
        current[0]
    } else {
        now
    };
    *times = current;
    RateLimitDecision {
        allowed,
        limit: max_requests,
        remaining: max_requests.saturating_sub(count),
        reset_after_seconds: seconds_to_reset(count, oldest, window_ms, now),
    }
}

impl RateLimitService {
    /// A limiter that has counted nothing yet.
    pub fn new(config: RateLimitConfig) -> (r: RateLimitService)
        ensures
            r.config == config,
            r.windows@ == crate::windows::no_times(),
            windows_wf(r.windows@),
    {
        RateLimitService { config, windows: LocalWindows::new() }
    }

    /// The limit for the path, if one applies: of those with the longest
    /// prefix, the last.
    pub fn endpoint_limit(&self, path: &str) -> (r: Option<&EndpointRateLimitConfig>)
        ensures
            match (r, self.config.limit_index(path@)) {
                (Some(limit), Some(i)) => 0 <= i < self.config.endpoint_limits@.len() && *limit
                    == self.config.endpoint_limits@[i],
                (None, None) => true,
                _ => false,
            },
    {
        let mut best: Option<usize> = None;
        let mut i: usize = 0;
        while i < self.config.endpoint_limits.len()
            invariant
                i <= self.config.endpoint_limits@.len(),
                best matches Some(b) ==> b < i,
                endpoint_index(self.config.endpoint_limits@, path@, i as int) == match best {
                    Some(b) => Some(b as int),
                    None => None,
                },
            decreases self.config.endpoint_limits@.len() - i,
        {
            let prefix = self.config.endpoint_limits[i].path_prefix.as_str();
            if begins_with(path, prefix) {
                let longer = match best {
                    None => true,
                    Some(b) => chars_of(prefix).len() >= chars_of(
                        self.config.endpoint_limits[b].path_prefix.as_str(),
                    ).len(),
                };
                if longer {
                    best = Some(i);
                }
            }
            i = i + 1;
        }
        match best {
            Some(b) => Some(&self.config.endpoint_limits[b]),
            None => None,
        }
    }

    /// Under which key a request is counted, and against which limit.
    pub fn plan(&self, scope_key: &str, path: &str, scope: &RateLimitScope) -> (r: LimitPlan)
        ensures
            r.key@ == self.config.key_for(scope_key@, path@, *scope),
            r.max_requests == self.config.max_for(path@),
            r.window_ms == self.config.window_for(path@),
    {
        let endpoint = self.endpoint_limit(path);
        let window_ms: u64 = match endpoint {
            Some(limit) => limit.window_ms,
            None => self.config.window_ms,
        };
        let max_requests: u32 = match endpoint {
            Some(limit) => limit.max_requests,
            None => self.config.max_requests,
        };
        let bucket: String = match endpoint {
            Some(limit) => replace_char(limit.path_prefix.as_str(), '/', '_'),
            None => replace_char("global", '/', '_'),
        };
        let mut key = owned("rate_limit:");
        key.append(scope_name(scope));
        key.append(":");
        key.append(bucket.as_str());
        key.append(":");
        key.append(scope_key);
        LimitPlan { key, max_requests, window_ms }
    }

    /// Counts a request itself and decides on it.
    pub fn check_local(&mut self, key: String, max_requests: u32, window_ms: u64, now: u64) -> (r:
        RateLimitDecision)
        requires
            windows_wf(old(self).windows@),
        ensures
            final(self).config == old(self).config,
            windows_wf(final(self).windows@),
            ({
                let times = times_at(old(self).windows@, key@);
                &&& r == local_decision(times, max_requests, window_ms, now)
                &&& final(self).windows@ == old(self).windows@.insert(
                    key@,
                    counted(times, max_requests, window_ms, now),
                )
            }),
    {
        let ghost before = self.windows@;
        let mut times = self.windows.take(&key);
        let r = decide_local(&mut times, max_requests, window_ms, now);
        let ghost name = key@;
        self.windows.put(key, times);
        assert(self.windows@ =~= before.insert(name, times@));
        r
    }

    /// Decides on a request. The answer of the shared store counts; where the
    /// store gave none, the limiter counts the request itself.
    pub fn check_rate_limit(
        &mut self,
        scope_key: &str,
        path: &str,
        scope: &RateLimitScope,
        reply: Option<StoreReply>,
        now: u64,
    ) -> (r: RateLimitDecision)
        requires
            windows_wf(old(self).windows@),
        ensures
            final(self).config == old(self).config,
            windows_wf(final(self).windows@),
            ({
                let max = old(self).config.max_for(path@);
                let window = old(self).config.window_for(path@);
                let key = old(self).config.key_for(scope_key@, path@, *scope);
                let times = times_at(old(self).windows@, key);
                match reply {
                    Some(answer) => {
                        &&& r == store_decision(answer, max, window, now)
                        &&& final(self).windows@ == old(self).windows@
                    },
                    None => {
                        &&& r == local_decision(times, max, window, now)
                        &&& final(self).windows@ == old(self).windows@.insert(
                            key,
                            counted(times, max, window, now),
                        )
                    },
                }
            }),
    {
        let plan = self.plan(scope_key, path, scope);
        match reply {
            Some(answer) => decide_store(answer, plan.max_requests, plan.window_ms, now),
            None => self.check_local(plan.key, plan.max_requests, plan.window_ms, now),
        }
    }
}

/// Who is signed in.
#[derive(Debug)]
pub struct Session {
    pub user_id: String,
    pub is_admin: bool,
}

/// What a valid access token says.
#[derive(Debug)]
pub struct Claims {
    pub sub: String,
    pub is_admin: bool,
}

/// What the middleware knows of a request.
#[derive(Debug)]
pub struct RequestFacts {
    pub session: Option<Session>,
    /// The claims of the bearer token, if there is a valid one.
    pub claims: Option<Claims>,
    pub api_key: Option<String>,
    /// The address that the request came from.
    pub ip: String,
}

/// What the middleware does with a request before it is counted.
#[derive(Debug)]
pub enum Gate {
    /// Let it through uncounted.
    Bypass,
    /// Count it for the given caller.
    Limited(String),
}

/// The rate limit headers of a response.
#[derive(Debug)]
pub struct LimitHeaders {
    pub limit: String,
    pub remaining: String,
    pub reset: String,
}

/// Whether the request is made by an administrator who bypasses the limits. A
/// session counts before a token.
pub open spec fn bypasses(bypass_admin: bool, facts: RequestFacts) -> bool {
    bypass_admin && match facts.session {
        Some(session) => session.is_admin,
        None => match facts.claims {
            Some(claims) => claims.is_admin,
            None => false,
        },
    }
}

/// For whom the request is counted.
pub open spec fn counted_for(scope: RateLimitScope, facts: RequestFacts) -> Seq<char> {
    match scope {
        RateLimitScope::Ip => facts.ip@,
        RateLimitScope::User => match facts.session {
            Some(session) => session.user_id@,
            None => match facts.claims {
                Some(claims) => claims.sub@,
                None => facts.ip@,
            },
        },
        RateLimitScope::ApiKey => match facts.api_key {
            Some(key) => key@,
            None => facts.ip@,
        },
    }
}

/// The token in an authorization header, if it holds a bearer token.
pub fn bearer_token(header: &str) -> (r: Option<String>)
    ensures
        match r {
            Some(token) => header@ == "Bearer "@ + token@,
            None => !"Bearer "@.is_prefix_of(header@),
        },
{
    without_prefix(header, "Bearer ")
}

/// Decides whether a request is counted, and for whom.
pub fn rate_limit(config: &RateLimitConfig, facts: &RequestFacts) -> (r: Gate)
    ensures
        match r {
            Gate::Bypass => bypasses(config.bypass_admin, *facts),
            Gate::Limited(key) => !bypasses(config.bypass_admin, *facts) && key@ == counted_for(
                config.scope,
                *facts,
            ),
        },
{
    let mut is_admin = false;
    if config.bypass_admin {
        match &facts.session {
            Some(session) => {
                is_admin = session.is_admin;
            },
            None => match &facts.claims {
                Some(claims) => {
                    is_admin = claims.is_admin;
                },
                None => {},
            },
        }
    }
    if is_admin {
        return Gate::Bypass;
    }
    let key = match config.scope {
        RateLimitScope::Ip => facts.ip.clone(),
        RateLimitScope::User => match &facts.session {
            Some(session) => session.user_id.clone(),
            None => match &facts.claims {
                Some(claims) => claims.sub.clone(),
                None => facts.ip.clone(),
            },
        },
        RateLimitScope::ApiKey => match &facts.api_key {
            Some(key) => key.clone(),
            None => facts.ip.clone(),
        },
    };
    Gate::Limited(key)
}

/// The headers for a request that is let through, or the failure for one
/// that is not.
pub fn limit_response(decision: &RateLimitDecision) -> (r: Result<LimitHeaders, ApiError>)
    ensures
        match r {
            Ok(headers) => decision.allowed && headers.limit@ == crate::text::decimal(
                decision.limit as nat,
            ) && headers.remaining@ == crate::text::decimal(decision.remaining as nat)
                && headers.reset@ == crate::text::decimal(decision.reset_after_seconds as nat),
            Err(e) => !decision.allowed && e@ == crate::api_error::ApiErrorModel::RateLimit(
                "Too many requests"@,
            ),
        },
{
    if !decision.allowed {
        return Err(ApiError::RateLimit(owned("Too many requests")));
    }
    Ok(
        LimitHeaders {
            limit: decimal_text(decision.limit as u64),
            remaining: decimal_text(decision.remaining as u64),
            reset: decimal_text(decision.reset_after_seconds),
        },
    )
}

/// The limit that counts for a path applies to it, no limit that applies has
/// a longer prefix, and none of those with an equally long prefix comes
/// later.
pub proof fn law_longest_prefix_wins(
    limits: Seq<EndpointRateLimitConfig>,
    path: Seq<char>,
    n: int,
    j: int,
)
    requires
        0 <= j < n <= limits.len(),
        applies(limits[j], path),
    ensures
        match endpoint_index(limits, path, n) {
            Some(i) => {
                &&& 0 <= i < n
                &&& applies(limits[i], path)
                &&& limits[j].path_prefix@.len() <= limits[i].path_prefix@.len()
                &&& j > i ==> limits[j].path_prefix@.len() < limits[i].path_prefix@.len()
            },
            None => false,
        },
    decreases n,
{
    if j < n - 1 {
        law_longest_prefix_wins(limits, path, n - 1, j);
    } else {
        lemma_endpoint_index_applies(limits, path, n - 1);
    }
}

proof fn lemma_endpoint_index_applies(
    limits: Seq<EndpointRateLimitConfig>,
    path: Seq<char>,
    n: int,
)
    requires
        n <= limits.len(),
    ensures
        endpoint_index(limits, path, n) matches Some(i) ==> 0 <= i < n && applies(limits[i], path),
    decreases n,
{
    if n > 0 {
        lemma_endpoint_index_applies(limits, path, n - 1);
    }
}

/// The times counted after the first `n` requests of a caller.
pub open spec fn stored(ts: Seq<u64>, max_requests: u32, window_ms: u64, n: int) -> Seq<u64>
    decreases n,
{
    if n <= 0 {
        Seq::empty()
    } else {
        counted(stored(ts, max_requests, window_ms, n - 1), max_requests, window_ms, ts[n - 1])
    }
}

/// The times of those of the first `n` requests that were let through.
pub open spec fn granted(ts: Seq<u64>, max_requests: u32, window_ms: u64, n: int) -> Seq<u64>
    decreases n,
{
    if n <= 0 {
        Seq::empty()
    } else if admits(stored(ts, max_requests, window_ms, n - 1), max_requests, window_ms, ts[n - 1]) {
        granted(ts, max_requests, window_ms, n - 1).push(ts[n - 1])
    } else {
        granted(ts, max_requests, window_ms, n - 1)
    }
}

proof fn lemma_kept_push(times: Seq<u64>, t: u64, start: int)
    ensures
        kept(times.push(t), start, times.len() as int + 1) == if t > start {
            kept(times, start, times.len() as int).push(t)
        } else {
            kept(times, start, times.len() as int)
        },
{
    lemma_kept_prefix(times, t, start, times.len() as int);
}

proof fn lemma_kept_prefix(times: Seq<u64>, t: u64, start: int, n: int)
    requires
        0 <= n <= times.len(),
    ensures
        kept(times.push(t), start, n) == kept(times, start, n),
    decreases n,
{
    if n > 0 {
        lemma_kept_prefix(times, t, start, n - 1);
    }
}

/// Keeping what is after a later time makes an earlier cut unnecessary.
proof fn lemma_kept_twice(times: Seq<u64>, first: int, second: int, n: int)
    requires
        0 <= n <= times.len(),
        first <= second,
    ensures
        kept(kept(times, first, n), second, kept(times, first, n).len() as int) == kept(
            times,
            second,
            n,
        ),
    decreases n,
{
    if n > 0 {
        lemma_kept_twice(times, first, second, n - 1);
        if times[n - 1] > first {
            lemma_kept_push(kept(times, first, n - 1), times[n - 1], second);
        }
    }
}

proof fn lemma_kept_shrinks(times: Seq<u64>, first: int, second: int, n: int)
    requires
        0 <= n <= times.len(),
        first <= second,
    ensures
        kept(times, second, n).len() <= kept(times, first, n).len(),
    decreases n,
{
    if n > 0 {
        lemma_kept_shrinks(times, first, second, n - 1);
    }
}

/// What is counted after a request is what was let through in the window
/// that ends with it.
proof fn lemma_stored_is_granted(ts: Seq<u64>, max_requests: u32, window_ms: u64, n: int)
    requires
        0 < n <= ts.len(),
        window_ms > 0,
        forall|i: int, j: int| 0 <= i <= j < ts.len() ==> 0 < #[trigger] ts[i] <= #[trigger] ts[j],
    ensures
        stored(ts, max_requests, window_ms, n) == in_window(
            granted(ts, max_requests, window_ms, n),
            window_ms,
            ts[n - 1],
        ),
        stored(ts, max_requests, window_ms, n).len() <= max_requests,
    decreases n,
{
    let now = ts[n - 1];
    let start = window_start(now, window_ms);
    let before = stored(ts, max_requests, window_ms, n - 1);
    let let_through = granted(ts, max_requests, window_ms, n - 1);
    assert(ts[n - 1] <= ts[n - 1]);
    if n > 1 {
        lemma_stored_is_granted(ts, max_requests, window_ms, n - 1);
        let earlier = window_start(ts[n - 2], window_ms);
        assert(ts[n - 2] <= ts[n - 1]);
        lemma_kept_twice(let_through, earlier, start, let_through.len() as int);
    }
    lemma_kept_bounds(before, start, before.len() as int);
    lemma_kept_push(let_through, now, start);
}

/// However requests are spread over time, no more than the allowed number is
/// let through in any window: at every moment from the latest request on, the
/// requests let through within the window before it are within the limit.
pub proof fn law_never_more_than_allowed(
    ts: Seq<u64>,
    max_requests: u32,
    window_ms: u64,
    n: int,
    moment: u64,
)
    requires
        0 < n <= ts.len(),
        forall|i: int, j: int| 0 <= i <= j < ts.len() ==> 0 < #[trigger] ts[i] <= #[trigger] ts[j],
        moment >= ts[n - 1],
    ensures
        in_window(granted(ts, max_requests, window_ms, n), window_ms, moment).len()
            <= max_requests,
{
    let let_through = granted(ts, max_requests, window_ms, n);
    if window_ms == 0 {
        lemma_granted_before(ts, max_requests, window_ms, n);
        lemma_none_kept(
            let_through,
            window_start(moment, window_ms),
            let_through.len() as int,
        );
    } else {
        lemma_stored_is_granted(ts, max_requests, window_ms, n);
        lemma_kept_shrinks(
            let_through,
            window_start(ts[n - 1], window_ms),
            window_start(moment, window_ms),
            let_through.len() as int,
        );
    }
}

/// No request is let through later than the latest one.
proof fn lemma_granted_before(ts: Seq<u64>, max_requests: u32, window_ms: u64, n: int)
    requires
        0 < n <= ts.len(),
        forall|i: int, j: int| 0 <= i <= j < ts.len() ==> #[trigger] ts[i] <= #[trigger] ts[j],
    ensures
        forall|i: int|
            0 <= i < granted(ts, max_requests, window_ms, n).len() ==> #[trigger] granted(
                ts,
                max_requests,
                window_ms,
                n,
            )[i] <= ts[n - 1],
    decreases n,
{
    let before = granted(ts, max_requests, window_ms, n - 1);
    if n > 1 {
        lemma_granted_before(ts, max_requests, window_ms, n - 1);
        assert(ts[n - 2] <= ts[n - 1]);
    } else {
        assert(before.len() == 0);
    }
    let let_through = granted(ts, max_requests, window_ms, n);
    assert forall|i: int| 0 <= i < let_through.len() implies #[trigger] let_through[i]
        <= ts[n - 1] by {
        if i < before.len() {
            assert(let_through[i] == before[i]);
        }
    }
}

/// Once every counted request has left the window, requests are let through
/// again.
pub proof fn law_window_frees_up(times: Seq<u64>, max_requests: u32, window_ms: u64, now: u64)
    requires
        max_requests > 0,
        forall|i: int| 0 <= i < times.len() ==> #[trigger] times[i] + window_ms <= now,
    ensures
        admits(times, max_requests, window_ms, now),
{
    lemma_none_kept(times, window_start(now, window_ms), times.len() as int);
}

proof fn lemma_none_kept(times: Seq<u64>, start: int, n: int)
    requires
        0 <= n <= times.len(),
        forall|i: int| 0 <= i < times.len() ==> #[trigger] times[i] <= start,
    ensures
        kept(times, start, n).len() == 0,
    decreases n,
{
    if n > 0 {
        lemma_none_kept(times, start, n - 1);
        assert(times[n - 1] <= start);
    }
}

/// A request counts under its own key and under no other.
pub proof fn law_keys_are_independent(
    windows: Map<Seq<char>, Seq<u64>>,
    key: Seq<char>,
    other: Seq<char>,
    max_requests: u32,
    window_ms: u64,
    now: u64,
)
    requires
        key != other,
    ensures
        times_at(
            windows.insert(key, counted(times_at(windows, key), max_requests, window_ms, now)),
            other,
        ) == times_at(windows, other),
{
}

/// Two callers on the same path are counted under different keys, so that the
/// requests of one never change what is counted for the other.
pub proof fn law_callers_are_independent(
    config: RateLimitConfig,
    windows: Map<Seq<char>, Seq<u64>>,
    caller: Seq<char>,
    other: Seq<char>,
    path: Seq<char>,
    scope: RateLimitScope,
    now: u64,
)
    requires
        caller != other,
    ensures
        config.key_for(caller, path, scope) != config.key_for(other, path, scope),
        ({
            let key = config.key_for(caller, path, scope);
            let max = config.max_for(path);
            let window = config.window_for(path);
            times_at(
                windows.insert(key, counted(times_at(windows, key), max, window, now)),
                config.key_for(other, path, scope),
            ) == times_at(windows, config.key_for(other, path, scope))
        }),
{
    let bucket = match config.limit_index(path) {
        Some(i) => config.endpoint_limits@[i].path_prefix@,
        None => "global"@,
    };
    let front = "rate_limit:"@ + scope_text(scope) + ":"@ + crate::text::replaced(
        bucket,
        '/',
        '_',
    ) + ":"@;
    let one = front + caller;
    let two = front + other;
    if one == two {
        assert(caller =~= one.subrange(front.len() as int, one.len() as int));
        assert(other =~= two.subrange(front.len() as int, two.len() as int));
    }
}

proof fn lemma_kept_is_filter(times: Seq<u64>, window_ms: u64, now: u64, n: int)
    requires
        0 <= n <= times.len(),
    ensures
        kept(times, window_start(now, window_ms), n) == times.take(n).filter(
            |t: u64| t > 0 && t + window_ms > now,
        ),
    decreases n,
{
    reveal(Seq::filter);
    if n > 0 {
        lemma_kept_is_filter(times, window_ms, now, n - 1);
        assert(times.take(n).drop_last() =~= times.take(n - 1));
    }
}

/// A request is let through exactly when fewer requests than allowed lie within
/// the window that ends now, that is, less than the window's length ago. It is
/// counted if and only if it is let through, and what has left the window is
/// forgotten.
pub proof fn law_local_decision(times: Seq<u64>, max_requests: u32, window_ms: u64, now: u64)
    requires
        times.len() <= u32::MAX,
    ensures
        ({
            let current = times.filter(|t: u64| t > 0 && t + window_ms > now);
            let d = local_decision(times, max_requests, window_ms, now);
            let after = counted(times, max_requests, window_ms, now);
            &&& d.allowed <==> current.len() < max_requests
            &&& d.allowed ==> after == current.push(now)
            &&& !d.allowed ==> after == current
            &&& d.limit == max_requests
            &&& d.remaining == if after.len() < max_requests {
                max_requests - after.len()
            } else {
                0
            }
        }),
{
    lemma_kept_is_filter(times, window_ms, now, times.len() as int);
    assert(times.take(times.len() as int) =~= times);
    lemma_kept_bounds(times, window_start(now, window_ms), times.len() as int);
}

/// The time until the reset is what is left of the window that began with the
/// oldest counted request, or a whole window where none is counted, in seconds
/// and rounded up.
pub proof fn law_reset_is_rounded_up(count: int, oldest: u64, window_ms: u64, now: u64)
    requires
        oldest + window_ms <= u64::MAX,
        count >= 0,
    ensures
        ({
            let r = reset_after(count, oldest, window_ms, now);
            let ms = if count == 0 {
                window_ms as int
            } else if oldest + window_ms > now {
                oldest + window_ms - now
            } else {
                0
            };
            (r - 1) * 1000 < ms <= r * 1000
        }),
{
}

/// The decisions report the reset of what they counted: the limiter's own from
/// the oldest time that it keeps, the store's from the store's answer. The
/// store's word decides on a request that it counted.
pub proof fn law_decisions_report(
    times: Seq<u64>,
    reply: StoreReply,
    max_requests: u32,
    window_ms: u64,
    now: u64,
)
    ensures
        ({
            let d = store_decision(reply, max_requests, window_ms, now);
            &&& d.allowed <==> reply.allowed == 1
            &&& d.limit == max_requests
            &&& d.remaining == if reply.count < max_requests {
                max_requests - reply.count
            } else {
                0
            }
            &&& d.reset_after_seconds == reset_after(
                reply.count as int,
                reply.oldest_ts,
                window_ms,
                now,
            ) as u64
        }),
        ({
            let after = counted(times, max_requests, window_ms, now);
            let d = local_decision(times, max_requests, window_ms, now);
            &&& after.len() > 0 ==> d.reset_after_seconds == reset_after(
                1,
                after[0],
                window_ms,
                now,
            ) as u64
            &&& after.len() == 0 ==> d.reset_after_seconds == reset_after(
                0,
                now,
                window_ms,
                now,
            ) as u64
        }),
{
}

/// Which limit counts for a path: of the limits whose prefix the path begins
/// with, one with the longest prefix, with its own window and number; and the
/// general one where there is none. The key is made of the scope, the prefix
/// with underscores for slashes, and the caller.
pub proof fn law_limit_for_path(
    config: RateLimitConfig,
    path: Seq<char>,
    caller: Seq<char>,
    scope: RateLimitScope,
)
    ensures
        ({
            let limits = config.endpoint_limits@;
            let fits = |i: int|
                0 <= i < limits.len() && limits[i].path_prefix@.len() <= path.len()
                    && limits[i].path_prefix@ == path.take(
                    limits[i].path_prefix@.len() as int,
                );
            let name = match scope {
                RateLimitScope::Ip => "ip"@,
                RateLimitScope::User => "user"@,
                RateLimitScope::ApiKey => "api_key"@,
            };
            let key = config.key_for(caller, path, scope);
            match config.limit_index(path) {
                Some(i) => {
                    &&& fits(i)
                    &&& config.window_for(path) == limits[i].window_ms
                    &&& config.max_for(path) == limits[i].max_requests
                    &&& forall|j: int|
                        #![trigger limits[j]]
                        fits(j) ==> limits[j].path_prefix@.len() <= limits[i].path_prefix@.len()
                            && (j > i ==> limits[j].path_prefix@.len()
                            < limits[i].path_prefix@.len())
                    &&& key == "rate_limit:"@ + name + ":"@ + limits[i].path_prefix@.map_values(
                        |c: char|
                            if c == '/' {
                                '_'
                            } else {
                                c
                            },
                    ) + ":"@ + caller
                },
                None => {
                    &&& forall|j: int| #![trigger limits[j]] !fits(j)
                    &&& config.window_for(path) == config.window_ms
                    &&& config.max_for(path) == config.max_requests
                    &&& key == "rate_limit:"@ + name + ":"@ + "global"@ + ":"@ + caller
                },
            }
        }),
{
    let limits = config.endpoint_limits@;
    let n = limits.len() as int;
    lemma_endpoint_index_applies(limits, path, n);
    assert forall|j: int|
        #![trigger limits[j]]
        0 <= j < n && limits[j].path_prefix@.len() <= path.len() && limits[j].path_prefix@
            == path.take(limits[j].path_prefix@.len() as int) implies applies(limits[j], path) by {
        assert(path.take(limits[j].path_prefix@.len() as int) =~= path.subrange(
            0,
            limits[j].path_prefix@.len() as int,
        ));
    }
    match config.limit_index(path) {
        Some(i) => {
            assert(path.take(limits[i].path_prefix@.len() as int) =~= path.subrange(
                0,
                limits[i].path_prefix@.len() as int,
            ));
            assert forall|j: int|
                #![trigger limits[j]]
                0 <= j < n && applies(limits[j], path) implies limits[j].path_prefix@.len()
                <= limits[i].path_prefix@.len() && (j > i ==> limits[j].path_prefix@.len()
                < limits[i].path_prefix@.len()) by {
                law_longest_prefix_wins(limits, path, n, j);
            }
            assert(crate::text::replaced(limits[i].path_prefix@, '/', '_')
                =~= limits[i].path_prefix@.map_values(
                |c: char|
                    if c == '/' {
                        '_'
                    } else {
                        c
                    },
            ));
        },
        None => {
            assert forall|j: int| #![trigger limits[j]] 0 <= j < n implies !applies(
                limits[j],
                path,
            ) by {
                if applies(limits[j], path) {
                    law_longest_prefix_wins(limits, path, n, j);
                }
            }
            reveal_strlit("global");
            assert(crate::text::replaced("global"@, '/', '_') =~= "global"@);
        },
    }
}

/// A signed-in administrator passes uncounted where administrators may, and an
/// administrator's token counts only where nobody is signed in. By user, a
/// request is counted for who is signed in, else for the token's subject, else
/// for the address it came from; by key, for its key, else for the address;
/// and by address, for the address.
pub proof fn law_who_is_counted(bypass_admin: bool, facts: RequestFacts)
    ensures
        !bypass_admin ==> !bypasses(bypass_admin, facts),
        bypass_admin && facts.session is Some ==> bypasses(bypass_admin, facts)
            == facts.session->0.is_admin,
        bypass_admin && facts.session is None && facts.claims is Some ==> bypasses(
            bypass_admin,
            facts,
        ) == facts.claims->0.is_admin,
        bypass_admin && facts.session is None && facts.claims is None ==> !bypasses(
            bypass_admin,
            facts,
        ),
        counted_for(RateLimitScope::Ip, facts) == facts.ip@,
        facts.session is Some ==> counted_for(RateLimitScope::User, facts)
            == facts.session->0.user_id@,
        facts.session is None && facts.claims is Some ==> counted_for(RateLimitScope::User, facts)
            == facts.claims->0.sub@,
        facts.session is None && facts.claims is None ==> counted_for(RateLimitScope::User, facts)
            == facts.ip@,
        facts.api_key is Some ==> counted_for(RateLimitScope::ApiKey, facts) == facts.api_key->0@,
        facts.api_key is None ==> counted_for(RateLimitScope::ApiKey, facts) == facts.ip@,
{
}

/// A refused request is not counted: it leaves no trace but the pruning of
/// times that no longer count.
pub proof fn law_refused_request_is_not_counted(
    times: Seq<u64>,
    max_requests: u32,
    window_ms: u64,
    now: u64,
)
    requires
        !local_decision(times, max_requests, window_ms, now).allowed,
    ensures
        counted(times, max_requests, window_ms, now) == in_window(times, window_ms, now),
        local_decision(times, max_requests, window_ms, now).remaining == 0,
{
}

} // verus!
