use crate_recommender::scorer::SECONDS_PER_DAY;
use crate_recommender::{CrateMetrics, CrateScorer, SCORE_SCALE};

const NOW: i64 = 1_700_000_000;
const MICRO: u64 = SCORE_SCALE / 1_000_000;

fn full_metrics() -> CrateMetrics {
    CrateMetrics {
        last_commit: Some(NOW - 30 * SECONDS_PER_DAY),
        issue_response_time: Some(3 * SECONDS_PER_DAY),
        releases_per_year: 4,
        readme_length: 1000,
        has_docs_rs: true,
        has_examples: true,
        cargo_audit_passed: true,
        rustsec_vulnerabilities: 0,
        dependent_count: 100,
        recent_downloads: 500,
        total_downloads: 1000,
        license: "MIT".to_string(),
    }
}

fn bare_metrics() -> CrateMetrics {
    CrateMetrics {
        last_commit: None,
        issue_response_time: None,
        releases_per_year: 0,
        readme_length: 0,
        has_docs_rs: false,
        has_examples: false,
        cargo_audit_passed: false,
        rustsec_vulnerabilities: 0,
        dependent_count: 0,
        recent_downloads: 0,
        total_downloads: 0,
        license: String::new(),
    }
}

#[test]
fn full_scenario_total_is_weighted_sum() {
    let s = CrateScorer::new();
    let m = full_metrics();
    let r = s.generate_score_report_at(&m, NOW);
    assert_eq!(r.maintenance, SCORE_SCALE);
    assert_eq!(r.documentation, SCORE_SCALE);
    assert_eq!(r.security, SCORE_SCALE);
    assert_eq!(r.dependents, SCORE_SCALE);
    assert_eq!(r.download_trend, SCORE_SCALE / 2);
    assert_eq!(r.license, SCORE_SCALE);
    assert_eq!(r.total, 925_000 * MICRO);
    assert_eq!(s.calculate_total_score_at(&m, NOW), 925_000 * MICRO);
}

#[test]
fn report_total_matches_weights() {
    let s = CrateScorer::new();
    let mut m = full_metrics();
    m.last_commit = Some(NOW - 200 * SECONDS_PER_DAY);
    m.rustsec_vulnerabilities = 3;
    m.license = "GPL-3.0".to_string();
    let r = s.generate_score_report_at(&m, NOW);
    let sum = 25 * r.maintenance
        + 20 * r.documentation
        + 15 * r.security
        + 15 * r.dependents
        + 15 * r.download_trend
        + 10 * r.license;
    assert_eq!(r.total, sum / 100);
    let f = r.total as f64 / SCORE_SCALE as f64;
    let g = sum as f64 / 100.0 / SCORE_SCALE as f64;
    assert!((f - g).abs() < 1e-5);
}

#[test]
fn total_stays_in_unit_range() {
    let s = CrateScorer::new();
    let mut m = full_metrics();
    m.recent_downloads = 5000;
    m.dependent_count = 1_000_000;
    let t = s.calculate_total_score_at(&m, NOW);
    assert!(t <= SCORE_SCALE);
    assert_eq!(s.calculate_total_score_at(&bare_metrics(), NOW), 110_000 * MICRO);
}

#[test]
fn recency_decays_after_ninety_days() {
    let s = CrateScorer::new();
    let mut m = bare_metrics();
    m.last_commit = Some(NOW - 90 * SECONDS_PER_DAY);
    assert_eq!(s.score_maintenance_at(&m, NOW), 400_000 * MICRO);
    m.last_commit = Some(NOW - 180 * SECONDS_PER_DAY);
    assert_eq!(s.score_maintenance_at(&m, NOW), 200_000 * MICRO);
    m.last_commit = Some(NOW + 5 * SECONDS_PER_DAY);
    assert_eq!(s.score_maintenance_at(&m, NOW), 400_000 * MICRO);
}

#[test]
fn responsiveness_decays_after_a_week() {
    let s = CrateScorer::new();
    let mut m = bare_metrics();
    m.issue_response_time = Some(7 * SECONDS_PER_DAY);
    assert_eq!(s.score_maintenance_at(&m, NOW), 300_000 * MICRO);
    m.issue_response_time = Some(14 * SECONDS_PER_DAY);
    assert_eq!(s.score_maintenance_at(&m, NOW), 150_000 * MICRO);
}

#[test]
fn missing_signals_lower_maintenance() {
    let s = CrateScorer::new();
    let full = full_metrics();
    let mut partial = full_metrics();
    partial.last_commit = None;
    let a = s.score_maintenance_at(&full, NOW);
    let b = s.score_maintenance_at(&partial, NOW);
    assert_eq!(a, SCORE_SCALE);
    assert_eq!(b, 600_000 * MICRO);
    partial.issue_response_time = None;
    assert_eq!(s.score_maintenance_at(&partial, NOW), 300_000 * MICRO);
    assert_eq!(s.score_maintenance(&partial), 300_000 * MICRO);
    assert_eq!(s.calculate_total_score(&partial), s.calculate_total_score_at(&partial, NOW));
    assert_eq!(s.generate_score_report(&partial).documentation, SCORE_SCALE);
}

#[test]
fn release_cadence_and_readme_are_capped() {
    let s = CrateScorer::new();
    let mut m = bare_metrics();
    m.releases_per_year = 1;
    assert_eq!(s.score_maintenance_at(&m, NOW), 150_000 * MICRO);
    m.readme_length = 250;
    assert_eq!(s.score_documentation(&m), 200_000 * MICRO);
    m.readme_length = 5000;
    m.has_docs_rs = true;
    assert_eq!(s.score_documentation(&m), 700_000 * MICRO);
}

#[test]
fn dependents_threshold() {
    let s = CrateScorer::new();
    let mut m = bare_metrics();
    for n in 0..10u64 {
        m.dependent_count = n;
        assert_eq!(s.score_dependents(&m), 0);
    }
    m.dependent_count = 10;
    assert_eq!(s.score_dependents(&m), SCORE_SCALE);
    m.dependent_count = 100_000;
    assert_eq!(s.score_dependents(&m), SCORE_SCALE);
}

#[test]
fn security_penalty_per_vulnerability() {
    let s = CrateScorer::new();
    let mut m = bare_metrics();
    assert_eq!(s.score_security(&m), 400_000 * MICRO);
    m.cargo_audit_passed = true;
    m.rustsec_vulnerabilities = 1;
    assert_eq!(s.score_security(&m), 800_000 * MICRO);
    m.rustsec_vulnerabilities = 3;
    assert_eq!(s.score_security(&m), 700_000 * MICRO);
    m.rustsec_vulnerabilities = u64::MAX;
    assert_eq!(s.score_security(&m), 600_000 * MICRO + 4);
}

#[test]
fn download_trend_cases() {
    let s = CrateScorer::new();
    let mut m = bare_metrics();
    m.recent_downloads = 10;
    assert_eq!(s.score_download_trend(&m), 0);
    m.total_downloads = 40;
    assert_eq!(s.score_download_trend(&m), 250_000 * MICRO);
    m.recent_downloads = 400;
    assert_eq!(s.score_download_trend(&m), SCORE_SCALE);
    m.recent_downloads = 1;
    m.total_downloads = 3;
    assert_eq!(s.score_download_trend(&m), SCORE_SCALE / 3 + 1);
    m.recent_downloads = u64::MAX - 1;
    m.total_downloads = u64::MAX;
    assert_eq!(s.score_download_trend(&m), SCORE_SCALE);
}

#[test]
fn license_scores() {
    let s = CrateScorer::new();
    let mut m = bare_metrics();
    for l in ["MIT", "Apache-2.0", "BSD-3-Clause"] {
        m.license = l.to_string();
        assert_eq!(s.score_license(&m), SCORE_SCALE);
    }
    for l in ["", "GPL-3.0", "mit", "MIT OR Apache-2.0"] {
        m.license = l.to_string();
        assert_eq!(s.score_license(&m), SCORE_SCALE / 2);
    }
}

#[test]
fn vulnerability_penalty_never_reaches_zero() {
    let s = CrateScorer::new();
    let mut m = bare_metrics();
    m.rustsec_vulnerabilities = 1_000_000;
    assert!(s.score_security(&m) > 0);
    m.rustsec_vulnerabilities = u64::MAX;
    assert!(s.score_security(&m) > 0);
}

#[test]
fn security_falls_between_neighbouring_counts() {
    let s = CrateScorer::new();
    let mut a = bare_metrics();
    let mut b = bare_metrics();
    a.rustsec_vulnerabilities = 2_000;
    b.rustsec_vulnerabilities = 2_001;
    assert!(s.score_security(&b) < s.score_security(&a));
    a.rustsec_vulnerabilities = 16_777_215;
    b.rustsec_vulnerabilities = 16_777_216;
    assert!(s.score_security(&b) < s.score_security(&a));
}

#[test]
fn very_old_signals_still_count() {
    let s = CrateScorer::new();
    let mut m = bare_metrics();
    let without = s.score_maintenance_at(&m, NOW);
    m.last_commit = Some(NOW - 95_000_000 * SECONDS_PER_DAY);
    assert!(s.score_maintenance_at(&m, NOW) > without);
    let mut r = bare_metrics();
    r.issue_response_time = Some(8_000_000 * SECONDS_PER_DAY);
    assert!(s.score_maintenance_at(&r, NOW) > without);
}
