//! Labels and alerts of the service's metrics.
use crate::paths::normalize_path;
use crate::text::decimal_text;
use crate::text::owned;
use crate::text::same_text;
use vstd::prelude::*;

verus! {

/// Alert severity levels
#[derive(Clone, Copy, Debug, PartialEq, Eq, Structural)]
pub enum AlertSeverity {
    Info,
    Warning,
    Critical,
}

/// How the error rate stands against the thresholds of a watched metric.
#[derive(Clone, Copy, Debug, PartialEq, Eq)]
pub struct ThresholdReading {
    /// Whether the rate is at or above the warning threshold.
    pub at_warning: bool,
    /// Whether the rate is at or above the critical threshold.
    pub at_critical: bool,
}

/// An alert that a reading raises.
#[derive(Clone, Copy, Debug)]
pub struct RaisedAlert {
    /// Which of the watched metrics raised it.
    pub index: usize,
    pub severity: AlertSeverity,
    pub title: &'static str,
}

/// The mathematical value of an alert.
pub struct RaisedAlertModel {
    pub index: int,
    pub severity: AlertSeverity,
    pub title: Seq<char>,
}

impl View for RaisedAlert {
    type V = RaisedAlertModel;

    open spec fn view(&self) -> RaisedAlertModel {
        RaisedAlertModel { index: self.index as int, severity: self.severity, title: self.title@ }
    }
}

/// The labels under which a request is counted.
#[derive(Debug)]
pub struct RequestLabels {
    pub path: String,
    pub status: String,
    /// The kind of error, if the request failed.
    pub error_type: Option<&'static str>,
}

/// The labels under which a rate limit decision is counted.
#[derive(Debug)]
pub struct RateLimitLabels {
    pub outcome: &'static str,
    pub path: String,
}

/// The metrics that are watched for alerts.
#[derive(Debug)]
pub struct MetricsService {
    pub watched: Vec<String>,
}

/// The alert that a reading of a metric raises, if it raises one. Only the
/// error rate raises alerts, and a critical reading comes before a warning.
pub open spec fn alert_for(metric: Seq<char>, reading: ThresholdReading, index: int) -> Option<
    RaisedAlertModel,
> {
    if metric != "error_rate"@ {
        None
    } else if reading.at_critical {
        Some(
            RaisedAlertModel {
                index,
                severity: AlertSeverity::Critical,
                title: "High Error Rate"@,
            },
        )
    } else if reading.at_warning {
        Some(
            RaisedAlertModel {
                index,
                severity: AlertSeverity::Warning,
                title: "Elevated Error Rate"@,
            },
        )
    } else {
        None
    }
}

/// The alerts that the first `n` readings raise, in order.
pub open spec fn alerts_for(
    watched: Seq<String>,
    readings: Seq<ThresholdReading>,
    n: int,
) -> Seq<RaisedAlertModel>
    decreases n,
{
    if n <= 0 {
        Seq::empty()
    } else {
        let before = alerts_for(watched, readings, n - 1);
        match alert_for(watched[n - 1]@, readings[n - 1], n - 1) {
            Some(alert) => before.push(alert),
            None => before,
        }
    }
}

/// The kind of error that a status stands for, if it stands for one.
pub open spec fn error_kind(status: u16) -> Option<Seq<char>> {
    if status >= 500 {
        Some("server_error"@)
    } else if status >= 400 {
        Some("client_error"@)
    } else {
        None
    }
}

/// The sum of the first `n` counts.
pub open spec fn count_sum(counts: Seq<u64>, n: int) -> int
    decreases n,
{
    if n <= 0 {
        0
    } else {
        count_sum(counts, n - 1) + counts[n - 1]
    }
}

proof fn lemma_count_sum(counts: Seq<u64>, i: int, n: int)
    requires
        0 <= i <= n,
    ensures
        0 <= count_sum(counts, i) <= count_sum(counts, n),
    decreases n,
{
    if i < n {
        lemma_count_sum(counts, i, n - 1);
    } else if n > 0 {
        lemma_count_sum(counts, n - 1, n - 1);
    }
}

impl MetricsService {
    /// Watches the error rate and the slowest requests.
    pub fn new() -> (r: MetricsService)
        ensures
            crate::text::string_texts(r.watched@) == seq!["error_rate"@, "request_duration_p99"@],
    {
        let r = MetricsService {
            watched: vec![owned("error_rate"), owned("request_duration_p99")],
        };
        assert(crate::text::string_texts(r.watched@)
            =~= seq!["error_rate"@, "request_duration_p99"@]);
        r
    }

    /// Seconds since the start.
    pub fn uptime(start: u64, now: u64) -> (r: u64)
        ensures
            r == if now >= start {
                (now - start) as u64
            } else {
                0
            },
    {
        now.saturating_sub(start)
    }

    /// Whether a machine integer holds the sum of the counts.
    pub fn counts_fit(counts: &Vec<u64>) -> (r: bool)
        ensures
            r == (count_sum(counts@, counts@.len() as int) <= u64::MAX),
    {
        let mut sum: u64 = 0;
        let mut i: usize = 0;
        while i < counts.len()
            invariant
                i <= counts@.len(),
                sum == count_sum(counts@, i as int),
            decreases counts@.len() - i,
        {
            sum = match sum.checked_add(counts[i]) {
                Some(next) => next,
                None => {
                    proof {
                        lemma_count_sum(counts@, i + 1, counts@.len() as int);
                    }
                    return false;
                },
            };
            i = i + 1;
        }
        true
    }

    /// The sum of the counts.
    pub fn total_count(counts: &Vec<u64>) -> (r: u64)
        requires
            count_sum(counts@, counts@.len() as int) <= u64::MAX,
        ensures
            r == count_sum(counts@, counts@.len() as int),
    {
        let mut sum: u64 = 0;
        let mut i: usize = 0;
        while i < counts.len()
            invariant
                i <= counts@.len(),
                count_sum(counts@, counts@.len() as int) <= u64::MAX,
                sum == count_sum(counts@, i as int),
            decreases counts@.len() - i,
        {
            proof {
                lemma_count_sum(counts@, i + 1, counts@.len() as int);
            }
            sum = sum + counts[i];
            i = i + 1;
        }
        sum
    }

    /// The path as a label, with placeholders for identifiers.
    pub fn normalize_path(path: &str) -> (r: String)
        ensures
            r@ == crate::paths::normalized(path@),
    {
        normalize_path(path)
    }

    /// The kind of error that a status stands for, if it stands for one.
    pub fn error_type(status: u16) -> (r: Option<&'static str>)
        ensures
            crate::text::opt_text(r) == error_kind(status),
    {
        if status >= 400 {
            if status >= 500 {
                Some("server_error")
            } else {
                Some("client_error")
            }
        } else {
            None
        }
    }

    /// The labels under which a request is counted.
    pub fn request_labels(path: &str, status: u16) -> (r: RequestLabels)
        ensures
            r.path@ == crate::paths::normalized(path@),
            r.status@ == crate::text::decimal(status as nat),
            crate::text::opt_text(r.error_type) == error_kind(status),
    {
        RequestLabels {
            path: normalize_path(path),
            status: decimal_text(status as u64),
            error_type: Self::error_type(status),
        }
    }

    /// The labels under which a rate limit decision is counted.
    pub fn rate_limit_labels(allowed: bool, path: &str) -> (r: RateLimitLabels)
        ensures
            r.outcome@ == if allowed {
                "allowed"@
            } else {
                "blocked"@
            },
            r.path@ == crate::paths::normalized(path@),
    {
        let outcome = if allowed {
            "allowed"
        } else {
            "blocked"
        };
        RateLimitLabels { outcome, path: normalize_path(path) }
    }

    /// The alerts that the readings of the watched metrics raise, in order.
    pub fn check_alerts(&self, readings: &Vec<ThresholdReading>) -> (r: Vec<RaisedAlert>)
        requires
            readings@.len() == self.watched@.len(),
        ensures
            r@.map_values(|a: RaisedAlert| a@) == alerts_for(
                self.watched@,
                readings@,
                readings@.len() as int,
            ),
    {
        let mut alerts: Vec<RaisedAlert> = Vec::new();
        let mut i: usize = 0;
        assert(alerts@.map_values(|a: RaisedAlert| a@) =~= Seq::empty());
        while i < readings.len()
            invariant
                i <= readings@.len(),
                readings@.len() == self.watched@.len(),
                alerts@.map_values(|a: RaisedAlert| a@) == alerts_for(
                    self.watched@,
                    readings@,
                    i as int,
                ),
            decreases readings@.len() - i,
        {
            let ghost before = alerts@;
            let reading: ThresholdReading = readings[i];
            if same_text(self.watched[i].as_str(), "error_rate") {
                if reading.at_critical {
                    let alert = RaisedAlert {
                        index: i,
                        severity: AlertSeverity::Critical,
                        title: "High Error Rate",
                    };
                    alerts.push(alert);
                    assert(alerts@.map_values(|a: RaisedAlert| a@) =~= before.map_values(
                        |a: RaisedAlert| a@,
                    ).push(alert@));
                } else if reading.at_warning {
                    let alert = RaisedAlert {
                        index: i,
                        severity: AlertSeverity::Warning,
                        title: "Elevated Error Rate",
                    };
                    alerts.push(alert);
                    assert(alerts@.map_values(|a: RaisedAlert| a@) =~= before.map_values(
                        |a: RaisedAlert| a@,
                    ).push(alert@));
                }
            }
            i = i + 1;
        }
        alerts
    }
}

/// A reading raises an alert exactly when the metric is the error rate and a
/// threshold is reached. It is critical exactly when the critical threshold is
/// reached.
pub proof fn law_alert_terms(metric: Seq<char>, reading: ThresholdReading, index: int)
    ensures
        ({
            let alert = alert_for(metric, reading, index);
            &&& alert is Some <==> metric == "error_rate"@ && (reading.at_critical
                || reading.at_warning)
            &&& alert is Some && reading.at_critical ==> alert->0.severity
                == AlertSeverity::Critical && alert->0.title == "High Error Rate"@
            &&& alert is Some && !reading.at_critical ==> alert->0.severity
                == AlertSeverity::Warning && alert->0.title == "Elevated Error Rate"@
            &&& alert is Some ==> alert->0.index == index
        }),
{
}

/// Each further metric adds the alert that its own reading raises, if any, after
/// those of the metrics before it.
pub proof fn law_alerts_in_order(
    watched: Seq<String>,
    readings: Seq<ThresholdReading>,
    metric: String,
    reading: ThresholdReading,
)
    requires
        watched.len() == readings.len(),
    ensures
        ({
            let n = watched.len() as int;
            let before = alerts_for(watched, readings, n);
            let after = alerts_for(watched.push(metric), readings.push(reading), n + 1);
            match alert_for(metric@, reading, n) {
                Some(alert) => after == before.push(alert),
                None => after == before,
            }
        }),
        alerts_for(watched, readings, 0).len() == 0,
{
    lemma_alerts_prefix(watched, readings, metric, reading, watched.len() as int);
    assert(watched.push(metric)[watched.len() as int] == metric);
    assert(readings.push(reading)[watched.len() as int] == reading);
}

proof fn lemma_alerts_prefix(
    watched: Seq<String>,
    readings: Seq<ThresholdReading>,
    metric: String,
    reading: ThresholdReading,
    n: int,
)
    requires
        0 <= n <= watched.len(),
        watched.len() == readings.len(),
    ensures
        alerts_for(watched.push(metric), readings.push(reading), n) == alerts_for(
            watched,
            readings,
            n,
        ),
    decreases n,
{
    if n > 0 {
        lemma_alerts_prefix(watched, readings, metric, reading, n - 1);
    }
}

/// Statuses from 500 on are the server's errors, those from 400 to 499 the
/// client's, and those below are none.
pub proof fn law_error_kinds(status: u16)
    ensures
        status < 400 ==> error_kind(status) is None,
        400 <= status < 500 ==> error_kind(status) == Some("client_error"@),
        status >= 500 ==> error_kind(status) == Some("server_error"@),
{
}

/// One more count adds itself to the sum.
pub proof fn law_counts_add_up(counts: Seq<u64>, count: u64)
    ensures
        count_sum(counts, 0) == 0,
        count_sum(counts.push(count), counts.len() as int + 1) == count_sum(
            counts,
            counts.len() as int,
        ) + count,
{
    lemma_count_sum_prefix(counts, count, counts.len() as int);
    assert(counts.push(count)[counts.len() as int] == count);
}

proof fn lemma_count_sum_prefix(counts: Seq<u64>, count: u64, n: int)
    requires
        0 <= n <= counts.len(),
    ensures
        count_sum(counts.push(count), n) == count_sum(counts, n),
    decreases n,
{
    if n > 0 {
        lemma_count_sum_prefix(counts, count, n - 1);
    }
}

/// Among the metrics that are watched by default only the error rate raises
/// an alert, and it raises at most one.
pub proof fn law_default_alerts(watched: Seq<String>, readings: Seq<ThresholdReading>)
    requires
        crate::text::string_texts(watched) == seq!["error_rate"@, "request_duration_p99"@],
        readings.len() == 2,
    ensures
        alerts_for(watched, readings, 2).len() <= 1,
        alerts_for(watched, readings, 2).len() == 1 <==> readings[0].at_critical
            || readings[0].at_warning,
{
    reveal_strlit("error_rate");
    reveal_strlit("request_duration_p99");
    assert("error_rate"@.len() == 10);
    assert("request_duration_p99"@.len() == 20);
    let names = crate::text::string_texts(watched);
    assert(names.len() == watched.len());
    assert(names[0] == watched[0]@);
    assert(names[1] == watched[1]@);
    reveal_with_fuel(alerts_for, 3);
}

} // verus!
