use vstd::prelude::*;

use crate::clock::now_unix_seconds;

verus! {

/// The fixed-point unit of every score: a score of 1.0 is `SCORE_SCALE`.
pub const SCORE_SCALE: u64 = 10_000_000_000_000_000;

/// The unit of a sub-signal (recency, README coverage, vulnerability penalty,
/// ...): a tenth of `SCORE_SCALE`, so that sub-signals weighted in tenths add
/// up to a dimension score with no rounding.
pub const SIGNAL_SCALE: u64 = 1_000_000_000_000_000;

/// Seconds in one day.
pub const SECONDS_PER_DAY: i64 = 86_400;

/// A snapshot of the quality signals of one package.
///
/// Times are whole seconds: `last_commit` since the Unix epoch, and
/// `issue_response_time` as a duration.
pub struct CrateMetrics {
    pub last_commit: Option<i64>,
    pub issue_response_time: Option<i64>,
    pub releases_per_year: u64,
    pub readme_length: u64,
    pub has_docs_rs: bool,
    pub has_examples: bool,
    pub cargo_audit_passed: bool,
    pub rustsec_vulnerabilities: u64,
    pub dependent_count: u64,
    pub recent_downloads: u64,
    pub total_downloads: u64,
    pub license: String,
}

/// The thresholds and the license list that the scoring formulas use.
pub struct CrateScorer {
    pub maintenance_threshold_days: i64,
    pub issue_response_threshold_days: i64,
    pub min_releases_per_year: u64,
    pub min_readme_length: u64,
    pub min_dependent_count: u64,
    pub recent_download_period_days: i64,
    pub recommended_licenses: Vec<String>,
}

/// Every dimension score of one package, and the weighted total.
#[derive(Clone, Copy, Debug, PartialEq, Eq, Structural)]
pub struct ScoreReport {
    pub maintenance: u64,
    pub documentation: u64,
    pub security: u64,
    pub dependents: u64,
    pub download_trend: u64,
    pub license: u64,
    pub total: u64,
}

// ----- the model -----

/// `a / b` rounded up.
pub open spec fn ceil_div(a: int, b: int) -> int {
    (a + b - 1) / b
}

/// `num / den` in units of `unit`, capped at one unit, rounded up: a positive
/// ratio never rounds to zero.
pub open spec fn capped_ratio(num: int, den: int, unit: int) -> int {
    if num >= den {
        unit
    } else {
        ceil_div(num * unit, den)
    }
}

/// Full signal up to `threshold` whole days, then `threshold / days`.
pub open spec fn recency_score(threshold: int, now: int, last_commit: int) -> int {
    let days = (now - last_commit) / (SECONDS_PER_DAY as int);
    if days <= threshold {
        SIGNAL_SCALE as int
    } else {
        capped_ratio(threshold, days, SIGNAL_SCALE as int)
    }
}

/// Full signal up to `threshold` days of response time, then `threshold / days`.
pub open spec fn responsiveness_score(threshold: int, response_secs: int) -> int {
    if response_secs <= threshold * (SECONDS_PER_DAY as int) {
        SIGNAL_SCALE as int
    } else {
        capped_ratio(threshold, response_secs / (SECONDS_PER_DAY as int), SIGNAL_SCALE as int)
    }
}

/// A missing signal contributes nothing.
pub open spec fn optional_score(present: bool, score: int) -> int {
    if present {
        score
    } else {
        0
    }
}

/// 0.4 of commit recency, 0.3 of issue responsiveness, 0.3 of release cadence.
pub open spec fn maintenance_score(s: &CrateScorer, m: &CrateMetrics, now: int) -> int {
    let recency = optional_score(
        m.last_commit is Some,
        recency_score(s.maintenance_threshold_days as int, now, m.last_commit->0 as int),
    );
    let responsiveness = optional_score(
        m.issue_response_time is Some,
        responsiveness_score(
            s.issue_response_threshold_days as int,
            m.issue_response_time->0 as int,
        ),
    );
    let cadence = capped_ratio(
        m.releases_per_year as int,
        s.min_releases_per_year as int,
        SIGNAL_SCALE as int,
    );
    4 * recency + 3 * responsiveness + 3 * cadence
}

pub open spec fn flag_score(b: bool) -> int {
    if b {
        SIGNAL_SCALE as int
    } else {
        0
    }
}

pub open spec fn documentation_score(s: &CrateScorer, m: &CrateMetrics) -> int {
    let readme = capped_ratio(
        m.readme_length as int,
        s.min_readme_length as int,
        SIGNAL_SCALE as int,
    );
    4 * readme + 3 * flag_score(m.has_docs_rs) + 3 * flag_score(m.has_examples)
}

/// Full signal with no known vulnerability, else `1 / (count + 1)` rounded up:
/// it falls as the count grows but never reaches zero.
pub open spec fn vulnerability_score(count: int) -> int {
    if count == 0 {
        SIGNAL_SCALE as int
    } else {
        ceil_div(SIGNAL_SCALE as int, count + 1)
    }
}

pub open spec fn security_score(m: &CrateMetrics) -> int {
    6 * flag_score(m.cargo_audit_passed) + 4 * vulnerability_score(
        m.rustsec_vulnerabilities as int,
    )
}

/// Zero below the threshold. At or above it `ln(count) / ln(threshold)` is at
/// least one, and the dimension is normalized to one.
pub open spec fn dependents_score(s: &CrateScorer, m: &CrateMetrics) -> int {
    if m.dependent_count < s.min_dependent_count {
        0
    } else {
        SCORE_SCALE as int
    }
}

pub open spec fn download_trend_score(m: &CrateMetrics) -> int {
    if m.total_downloads == 0 {
        0
    } else {
        capped_ratio(m.recent_downloads as int, m.total_downloads as int, SCORE_SCALE as int)
    }
}

pub open spec fn license_views(s: &CrateScorer) -> Seq<Seq<char>> {
    s.recommended_licenses@.map_values(|l: String| l@)
}

pub open spec fn license_score(s: &CrateScorer, m: &CrateMetrics) -> int {
    if license_views(s).contains(m.license@) {
        SCORE_SCALE as int
    } else {
        (SCORE_SCALE as int) / 2
    }
}

/// The fixed weights (in hundredths) applied to the six dimensions.
pub open spec fn weighted_total(
    maintenance: int,
    documentation: int,
    security: int,
    dependents: int,
    download_trend: int,
    license: int,
) -> int {
    (25 * maintenance + 20 * documentation + 15 * security + 15 * dependents + 15
        * download_trend + 10 * license) / 100
}

pub open spec fn total_score(s: &CrateScorer, m: &CrateMetrics, now: int) -> int {
    weighted_total(
        maintenance_score(s, m, now),
        documentation_score(s, m),
        security_score(m),
        dependents_score(s, m),
        download_trend_score(m),
        license_score(s, m),
    )
}

pub open spec fn report_of(s: &CrateScorer, m: &CrateMetrics, now: int) -> ScoreReport {
    ScoreReport {
        maintenance: maintenance_score(s, m, now) as u64,
        documentation: documentation_score(s, m) as u64,
        security: security_score(m) as u64,
        dependents: dependents_score(s, m) as u64,
        download_trend: download_trend_score(m) as u64,
        license: license_score(s, m) as u64,
        total: total_score(s, m, now) as u64,
    }
}

pub open spec fn in_unit(x: int) -> bool {
    0 <= x <= SCORE_SCALE as int
}

// ----- helpers -----

proof fn lemma_capped_ratio_in_unit(num: int, den: int, unit: int)
    requires
        0 <= num,
        0 < den,
        0 < unit,
    ensures
        0 <= capped_ratio(num, den, unit) <= unit,
        num > 0 ==> capped_ratio(num, den, unit) > 0,
{
    if num < den {
        assert(0 <= num * unit) by (nonlinear_arith)
            requires
                0 <= num,
                0 < unit,
        ;
        assert(num * unit + den - 1 < (unit + 1) * den) by (nonlinear_arith)
            requires
                num < den,
                0 < unit,
        ;
        assert(ceil_div(num * unit, den) <= unit) by (nonlinear_arith)
            requires
                num * unit + den - 1 < (unit + 1) * den,
                0 < den,
        ;
        assert(0 <= ceil_div(num * unit, den)) by (nonlinear_arith)
            requires
                0 <= num * unit,
                0 < den,
        ;
        if num > 0 {
            assert(num * unit >= 1) by (nonlinear_arith)
                requires
                    num > 0,
                    unit > 0,
            ;
            assert(ceil_div(num * unit, den) >= 1) by (nonlinear_arith)
                requires
                    num * unit >= 1,
                    0 < den,
            ;
        }
    }
}

proof fn lemma_vulnerability_in_unit(count: int)
    requires
        0 <= count,
    ensures
        1 <= vulnerability_score(count) <= SIGNAL_SCALE as int,
{
    let s = SIGNAL_SCALE as int;
    if count > 0 {
        assert(1 <= (s + count) / (count + 1) <= s) by (nonlinear_arith)
            requires
                count >= 1,
                s >= 1,
        ;
    }
}

/// `num / den` in units of `unit`, capped at one unit, rounded up.
fn capped_ratio_u64(num: u64, den: u64, unit: u64) -> (r: u64)
    requires
        den > 0,
        0 < unit <= SCORE_SCALE,
    ensures
        r as int == capped_ratio(num as int, den as int, unit as int),
{
    if num >= den {
        unit
    } else {
        proof {
            lemma_capped_ratio_in_unit(num as int, den as int, unit as int);
        }
        assert((num as int) * (unit as int) <= 0x1_0000_0000_0000_0000 * 10_000_000_000_000_000)
            by (nonlinear_arith)
            requires
                num < 0x1_0000_0000_0000_0000,
                unit <= 10_000_000_000_000_000,
        ;
        let wide: u128 = (num as u128) * (unit as u128) + (den as u128) - 1;
        (wide / (den as u128)) as u64
    }
}

impl CrateScorer {
    /// The thresholds are positive, small enough for exact arithmetic, and the
    /// dependents threshold is at least two, so that `ln(threshold)` is positive.
    pub open spec fn wf(&self) -> bool {
        &&& 1 <= self.maintenance_threshold_days <= 100_000
        &&& 1 <= self.issue_response_threshold_days <= 100_000
        &&& 1 <= self.min_releases_per_year
        &&& 1 <= self.min_readme_length
        &&& 2 <= self.min_dependent_count
    }

    /// The scorer that `new` builds.
    pub open spec fn is_standard(&self) -> bool {
        &&& self.maintenance_threshold_days == 90
        &&& self.issue_response_threshold_days == 7
        &&& self.min_releases_per_year == 2
        &&& self.min_readme_length == 500
        &&& self.min_dependent_count == 10
        &&& self.recent_download_period_days == 30
        &&& license_views(self) == seq!["MIT"@, "Apache-2.0"@, "BSD-3-Clause"@]
    }

    /// The scorer with the standard thresholds: 90 days since the last commit,
    /// 7 days of issue response, 2 releases a year, a 500-character README,
    /// 10 dependents, and the MIT, Apache-2.0 and BSD-3-Clause licenses.
    pub fn new() -> (r: Self)
        ensures
            r.wf(),
            r.is_standard(),
    {
        let mut licenses: Vec<String> = Vec::new();
        licenses.push(String::from_str("MIT"));
        licenses.push(String::from_str("Apache-2.0"));
        licenses.push(String::from_str("BSD-3-Clause"));
        let r = CrateScorer {
            maintenance_threshold_days: 90,
            issue_response_threshold_days: 7,
            min_releases_per_year: 2,
            min_readme_length: 500,
            min_dependent_count: 10,
            recent_download_period_days: 30,
            recommended_licenses: licenses,
        };
        assert(license_views(&r) =~= seq!["MIT"@, "Apache-2.0"@, "BSD-3-Clause"@]);
        r
    }

    /// Maintenance activity at the time `now` (seconds since the Unix epoch):
    /// 0.4 of commit recency, 0.3 of issue responsiveness, 0.3 of release cadence.
    pub fn score_maintenance_at(&self, metrics: &CrateMetrics, now: i64) -> (r: u64)
        requires
            self.wf(),
        ensures
            r as int == maintenance_score(self, metrics, now as int),
            in_unit(r as int),
    {
        let thr = self.maintenance_threshold_days;
        let recency: u64 = match metrics.last_commit {
            Some(last) => {
                let diff: i128 = (now as i128) - (last as i128);
                if diff <= 0 {
                    assert((diff as int) / (SECONDS_PER_DAY as int) <= 0);
                    SIGNAL_SCALE
                } else {
                    let days: u128 = (diff as u128) / (SECONDS_PER_DAY as u128);
                    if days <= thr as u128 {
                        SIGNAL_SCALE
                    } else {
                        proof {
                            lemma_capped_ratio_in_unit(thr as int, days as int, SIGNAL_SCALE as int);
                        }
                        (((thr as u128) * (SIGNAL_SCALE as u128) + days - 1) / days) as u64
                    }
                }
            },
            None => 0,
        };
        let ithr = self.issue_response_threshold_days;
        let responsiveness: u64 = match metrics.issue_response_time {
            Some(t) => {
                if (t as i128) <= (ithr as i128) * (SECONDS_PER_DAY as i128) {
                    SIGNAL_SCALE
                } else {
                    let days: u128 = (t as u128) / (SECONDS_PER_DAY as u128);
                    assert(days >= ithr) by (nonlinear_arith)
                        requires
                            t > ithr * 86_400,
                            days == t / 86_400,
                    ;
                    proof {
                        lemma_capped_ratio_in_unit(ithr as int, days as int, SIGNAL_SCALE as int);
                    }
                    if days <= ithr as u128 {
                        SIGNAL_SCALE
                    } else {
                        (((ithr as u128) * (SIGNAL_SCALE as u128) + days - 1) / days) as u64
                    }
                }
            },
            None => 0,
        };
        let cadence = capped_ratio_u64(
            metrics.releases_per_year,
            self.min_releases_per_year,
            SIGNAL_SCALE,
        );
        proof {
            lemma_capped_ratio_in_unit(
                metrics.releases_per_year as int,
                self.min_releases_per_year as int,
                SIGNAL_SCALE as int,
            );
        }
        4 * recency + 3 * responsiveness + 3 * cadence
    }

    /// Maintenance activity now, by the system clock: the score that
    /// `score_maintenance_at` gives for some time.
    pub fn score_maintenance(&self, metrics: &CrateMetrics) -> (r: u64)
        requires
            self.wf(),
        ensures
            exists|now: i64| r as int == #[trigger] maintenance_score(self, metrics, now as int),
            in_unit(r as int),
    {
        let now = now_unix_seconds();
        self.score_maintenance_at(metrics, now)
    }

    /// Documentation: 0.4 of README coverage, 0.3 for hosted docs, 0.3 for examples.
    pub fn score_documentation(&self, metrics: &CrateMetrics) -> (r: u64)
        requires
            self.wf(),
        ensures
            r as int == documentation_score(self, metrics),
            in_unit(r as int),
    {
        let readme = capped_ratio_u64(
            metrics.readme_length,
            self.min_readme_length,
            SIGNAL_SCALE,
        );
        proof {
            lemma_capped_ratio_in_unit(
                metrics.readme_length as int,
                self.min_readme_length as int,
                SIGNAL_SCALE as int,
            );
        }
        let docs: u64 = if metrics.has_docs_rs {
            SIGNAL_SCALE
        } else {
            0
        };
        let examples: u64 = if metrics.has_examples {
            SIGNAL_SCALE
        } else {
            0
        };
        4 * readme + 3 * docs + 3 * examples
    }

    /// Security: 0.6 for a passed audit, 0.4 of the vulnerability penalty.
    pub fn score_security(&self, metrics: &CrateMetrics) -> (r: u64)
        ensures
            r as int == security_score(metrics),
            in_unit(r as int),
    {
        let audit: u64 = if metrics.cargo_audit_passed {
            SIGNAL_SCALE
        } else {
            0
        };
        let count = metrics.rustsec_vulnerabilities;
        proof {
            lemma_vulnerability_in_unit(count as int);
        }
        let vulnerability: u64 = if count == 0 {
            SIGNAL_SCALE
        } else {
            (((SIGNAL_SCALE as u128) + (count as u128)) / ((count as u128) + 1)) as u64
        };
        6 * audit + 4 * vulnerability
    }

    /// Dependents: zero below the threshold, full at or above it.
    pub fn score_dependents(&self, metrics: &CrateMetrics) -> (r: u64)
        ensures
            r as int == dependents_score(self, metrics),
            in_unit(r as int),
    {
        if metrics.dependent_count < self.min_dependent_count {
            0
        } else {
            SCORE_SCALE
        }
    }

    /// Download trend: recent downloads over total downloads, capped at one;
    /// zero when there are no downloads at all.
    pub fn score_download_trend(&self, metrics: &CrateMetrics) -> (r: u64)
        ensures
            r as int == download_trend_score(metrics),
            in_unit(r as int),
    {
        if metrics.total_downloads == 0 {
            0
        } else {
            proof {
                lemma_capped_ratio_in_unit(
                    metrics.recent_downloads as int,
                    metrics.total_downloads as int,
                    SCORE_SCALE as int,
                );
            }
            capped_ratio_u64(metrics.recent_downloads, metrics.total_downloads, SCORE_SCALE)
        }
    }

    /// License: full score for a recommended license, half otherwise.
    pub fn score_license(&self, metrics: &CrateMetrics) -> (r: u64)
        ensures
            r as int == license_score(self, metrics),
            in_unit(r as int),
    {
        let mut i: usize = 0;
        while i < self.recommended_licenses.len()
            invariant
                i <= self.recommended_licenses@.len(),
                forall|k: int| 0 <= k < i ==> license_views(self)[k] != metrics.license@,
            decreases self.recommended_licenses@.len() - i,
        {
            if self.recommended_licenses[i] == metrics.license {
                assert(license_views(self)[i as int] == metrics.license@);
                return SCORE_SCALE;
            }
            i = i + 1;
        }
        assert(!license_views(self).contains(metrics.license@));
        SCORE_SCALE / 2
    }

    /// The weighted total at the time `now`: maintenance 0.25, documentation
    /// 0.20, security 0.15, dependents 0.15, download trend 0.15, license 0.10.
    pub fn calculate_total_score_at(&self, metrics: &CrateMetrics, now: i64) -> (r: u64)
        requires
            self.wf(),
        ensures
            r as int == total_score(self, metrics, now as int),
            in_unit(r as int),
    {
        let maintenance = self.score_maintenance_at(metrics, now);
        let documentation = self.score_documentation(metrics);
        let security = self.score_security(metrics);
        let dependents = self.score_dependents(metrics);
        let download_trend = self.score_download_trend(metrics);
        let license = self.score_license(metrics);
        (25 * maintenance + 20 * documentation + 15 * security + 15 * dependents + 15
            * download_trend + 10 * license) / 100
    }

    /// The weighted total now, by the system clock.
    pub fn calculate_total_score(&self, metrics: &CrateMetrics) -> (r: u64)
        requires
            self.wf(),
        ensures
            exists|now: i64| r as int == #[trigger] total_score(self, metrics, now as int),
            in_unit(r as int),
    {
        let now = now_unix_seconds();
        self.calculate_total_score_at(metrics, now)
    }

    /// Every dimension score and the total, at the time `now`.
    pub fn generate_score_report_at(&self, metrics: &CrateMetrics, now: i64) -> (r: ScoreReport)
        requires
            self.wf(),
        ensures
            r == report_of(self, metrics, now as int),
    {
        ScoreReport {
            maintenance: self.score_maintenance_at(metrics, now),
            documentation: self.score_documentation(metrics),
            security: self.score_security(metrics),
            dependents: self.score_dependents(metrics),
            download_trend: self.score_download_trend(metrics),
            license: self.score_license(metrics),
            total: self.calculate_total_score_at(metrics, now),
        }
    }

    /// Every dimension score and the total now, by the system clock.
    pub fn generate_score_report(&self, metrics: &CrateMetrics) -> (r: ScoreReport)
        requires
            self.wf(),
        ensures
            exists|now: i64| r == #[trigger] report_of(self, metrics, now as int),
    {
        let now = now_unix_seconds();
        self.generate_score_report_at(metrics, now)
    }
}

// ----- laws -----

proof fn lemma_recency_positive(s: &CrateScorer, now: int, last: int)
    requires
        s.wf(),
    ensures
        1 <= recency_score(s.maintenance_threshold_days as int, now, last) <= SIGNAL_SCALE as int,
{
    let thr = s.maintenance_threshold_days as int;
    let days = (now - last) / (SECONDS_PER_DAY as int);
    if days > thr {
        lemma_capped_ratio_in_unit(thr, days, SIGNAL_SCALE as int);
    }
}

proof fn lemma_responsiveness_positive(s: &CrateScorer, t: int)
    requires
        s.wf(),
    ensures
        1 <= responsiveness_score(s.issue_response_threshold_days as int, t)
            <= SIGNAL_SCALE as int,
{
    let ithr = s.issue_response_threshold_days as int;
    if t > ithr * 86_400 {
        let days = t / 86_400;
        assert(days >= ithr) by (nonlinear_arith)
            requires
                t > ithr * 86_400,
                days == t / 86_400,
        ;
        lemma_capped_ratio_in_unit(ithr, days, SIGNAL_SCALE as int);
    }
}

/// Each dimension score lies in the unit range.
pub proof fn lemma_dimensions_in_unit(s: &CrateScorer, m: &CrateMetrics, now: int)
    requires
        s.wf(),
    ensures
        in_unit(maintenance_score(s, m, now)),
        in_unit(documentation_score(s, m)),
        in_unit(security_score(m)),
        in_unit(dependents_score(s, m)),
        in_unit(download_trend_score(m)),
        in_unit(license_score(s, m)),
{
    if let Some(last) = m.last_commit {
        lemma_recency_positive(s, now, last as int);
    }
    if let Some(t) = m.issue_response_time {
        lemma_responsiveness_positive(s, t as int);
    }
    let u = SIGNAL_SCALE as int;
    lemma_capped_ratio_in_unit(m.releases_per_year as int, s.min_releases_per_year as int, u);
    lemma_capped_ratio_in_unit(m.readme_length as int, s.min_readme_length as int, u);
    if m.total_downloads != 0 {
        lemma_capped_ratio_in_unit(
            m.recent_downloads as int,
            m.total_downloads as int,
            SCORE_SCALE as int,
        );
    }
    lemma_vulnerability_in_unit(m.rustsec_vulnerabilities as int);
}

/// The total score of any metrics lies in the unit range.
pub proof fn lemma_total_in_unit(s: &CrateScorer, m: &CrateMetrics, now: int)
    requires
        s.wf(),
    ensures
        in_unit(total_score(s, m, now)),
{
    lemma_dimensions_in_unit(s, m, now);
}

/// The total of a score report is the weighted sum of its dimension scores.
pub proof fn lemma_report_weighted_sum(s: &CrateScorer, m: &CrateMetrics, now: int)
    requires
        s.wf(),
    ensures
        ({
            let r = report_of(s, m, now);
            r.total as int == weighted_total(
                r.maintenance as int,
                r.documentation as int,
                r.security as int,
                r.dependents as int,
                r.download_trend as int,
                r.license as int,
            )
        }),
{
    lemma_dimensions_in_unit(s, m, now);
    lemma_total_in_unit(s, m, now);
}

/// Dropping an optional signal (the last commit time, the issue response time)
/// never raises the maintenance score, and dropping one that was present
/// strictly lowers it: a present signal always counts for something.
pub proof fn lemma_missing_signal_lowers_maintenance(
    s: &CrateScorer,
    full: &CrateMetrics,
    partial: &CrateMetrics,
    now: int,
)
    requires
        s.wf(),
        partial.last_commit == full.last_commit || partial.last_commit is None,
        partial.issue_response_time == full.issue_response_time
            || partial.issue_response_time is None,
        partial.releases_per_year == full.releases_per_year,
    ensures
        maintenance_score(s, partial, now) <= maintenance_score(s, full, now),
        (full.last_commit is Some && partial.last_commit is None) || (
        full.issue_response_time is Some && partial.issue_response_time is None)
            ==> maintenance_score(s, partial, now) < maintenance_score(s, full, now),
{
    if let Some(last) = full.last_commit {
        lemma_recency_positive(s, now, last as int);
    }
    if let Some(t) = full.issue_response_time {
        lemma_responsiveness_positive(s, t as int);
    }
}

/// The vulnerability penalty is positive for every count and, with the audit
/// result fixed, the security score strictly falls as the count grows, for
/// counts up to the square root of the signal unit (over thirty million); past
/// that, neighbouring counts may round to the same unit.
pub proof fn lemma_security_falls_with_vulnerabilities(a: &CrateMetrics, b: &CrateMetrics)
    requires
        a.cargo_audit_passed == b.cargo_audit_passed,
        a.rustsec_vulnerabilities < b.rustsec_vulnerabilities,
        (b.rustsec_vulnerabilities + 1) * (b.rustsec_vulnerabilities + 1) <= SIGNAL_SCALE,
    ensures
        security_score(a) > 6 * flag_score(a.cargo_audit_passed),
        security_score(b) > 6 * flag_score(b.cargo_audit_passed),
        security_score(b) < security_score(a),
{
    let x = a.rustsec_vulnerabilities as int;
    let y = b.rustsec_vulnerabilities as int;
    let u = SIGNAL_SCALE as int;
    lemma_vulnerability_in_unit(x);
    lemma_vulnerability_in_unit(y);
    let q = (u + y) / (y + 1);
    assert(q * (y + 1) >= u && (q - 1) * (y + 1) < u) by (nonlinear_arith)
        requires
            q == (u + y) / (y + 1),
            y >= 1,
    ;
    if x == 0 {
        assert(q < u) by (nonlinear_arith)
            requires
                q == (u + y) / (y + 1),
                y >= 1,
                u >= 2,
        ;
    } else {
        assert(q >= y + 1) by (nonlinear_arith)
            requires
                q * (y + 1) >= u,
                (y + 1) * (y + 1) <= u,
                y >= 1,
        ;
        assert(u > q * (x + 1)) by (nonlinear_arith)
            requires
                (q - 1) * (y + 1) < u,
                q >= y + 1,
                1 <= x < y,
        ;
        assert((u + x) / (x + 1) >= q + 1) by (nonlinear_arith)
            requires
                u >= q * (x + 1) + 1,
                x >= 1,
        ;
    }
}

/// Below the dependents threshold the dependents score is zero, and the score
/// never decreases as the dependent count grows.
pub proof fn lemma_dependents_threshold(s: &CrateScorer, a: &CrateMetrics, b: &CrateMetrics)
    ensures
        a.dependent_count < s.min_dependent_count ==> dependents_score(s, a) == 0,
        a.dependent_count <= b.dependent_count ==> dependents_score(s, a) <= dependents_score(
            s,
            b,
        ),
{
}

/// With the standard scorer the license score is full for MIT, Apache-2.0 and
/// BSD-3-Clause, and half for any other license string, the empty one included.
pub proof fn lemma_standard_license_score(s: &CrateScorer, m: &CrateMetrics)
    requires
        s.is_standard(),
    ensures
        (m.license@ == "MIT"@ || m.license@ == "Apache-2.0"@ || m.license@ == "BSD-3-Clause"@)
            ==> license_score(s, m) == SCORE_SCALE as int,
        !(m.license@ == "MIT"@ || m.license@ == "Apache-2.0"@ || m.license@
            == "BSD-3-Clause"@) ==> license_score(s, m) == (SCORE_SCALE as int) / 2,
{
    let v = license_views(s);
    if m.license@ == "MIT"@ {
        assert(v[0] == m.license@);
    } else if m.license@ == "Apache-2.0"@ {
        assert(v[1] == m.license@);
    } else if m.license@ == "BSD-3-Clause"@ {
        assert(v[2] == m.license@);
    } else {
        assert(!v.contains(m.license@));
    }
}

} // verus!
