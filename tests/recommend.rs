use crate_recommender::catalog::{
    default_crate_names, local_candidate_names, matching_crate_names, standard_catalog_entries,
};
use crate_recommender::ranking::sort_by_score_desc;
use crate_recommender::services::{
    candidates_from_search, choose_strategy, classify_failure, crate_info_from_detail,
    match_score, metrics_from_detail, rank_interpreted, rank_local, refill_names, reply_for,
    FailureClass,
    InterpreterError, Strategy, DEFAULT_MATCH_SCORE, DESCRIPTION_MATCH_SCORE, NAME_MATCH_SCORE,
};
use crate_recommender::{
    str_contains, CrateDetail, CrateInfo, CrateMetrics, CrateScorer, CratesIoCrate,
    CratesIoResponse, RecommendationResponse, SCORE_SCALE,
};

fn info(name: &str, description: &str, score: u64) -> CrateInfo {
    CrateInfo {
        name: name.to_string(),
        description: description.to_string(),
        version: "1.0.0".to_string(),
        downloads: 10,
        last_updated: "2024-01-01".to_string(),
        score,
        repository: None,
        documentation: None,
        keywords: vec![],
    }
}

fn names(v: &[CrateInfo]) -> Vec<String> {
    v.iter().map(|c| c.name.clone()).collect()
}

fn metrics(dependents: u64, license: &str) -> CrateMetrics {
    CrateMetrics {
        last_commit: None,
        issue_response_time: None,
        releases_per_year: 2,
        readme_length: 500,
        has_docs_rs: true,
        has_examples: true,
        cargo_audit_passed: true,
        rustsec_vulnerabilities: 0,
        dependent_count: dependents,
        recent_downloads: 0,
        total_downloads: 0,
        license: license.to_string(),
    }
}

#[test]
fn substring_containment() {
    assert!(str_contains("i need json serialization", "json"));
    assert!(str_contains("abc", ""));
    assert!(str_contains("abc", "abc"));
    assert!(!str_contains("ab", "abc"));
    assert!(!str_contains("serde", "serde_json"));
    assert!(str_contains("an identity", "id"));
}

#[test]
fn catalog_has_twenty_entries() {
    let c = standard_catalog_entries();
    assert_eq!(c.len(), 20);
    assert_eq!(c[0].name, "serde");
    assert_eq!(c[2].keywords.len(), 5);
    assert_eq!(c[19].name, "cargo-edit");
    assert_eq!(default_crate_names(), vec!["serde", "tokio", "anyhow"]);
}

#[test]
fn json_request_matches_serde_crates() {
    let c = standard_catalog_entries();
    let r = local_candidate_names("I need JSON serialization", &c);
    assert_eq!(r, vec!["serde", "serde_json"]);
}

#[test]
fn request_is_lower_cased_before_matching() {
    let c = standard_catalog_entries();
    assert_eq!(local_candidate_names("SERDE", &c), vec!["serde"]);
    assert_eq!(matching_crate_names("SERDE", &c), vec!["serde", "tokio", "anyhow"]);
}

#[test]
fn short_keyword_matches_inside_words() {
    let c = standard_catalog_entries();
    let r = local_candidate_names("a valid thing", &c);
    assert!(r.contains(&"uuid".to_string()));
}

#[test]
fn unmatched_request_falls_back_to_defaults() {
    let c = standard_catalog_entries();
    assert_eq!(local_candidate_names("xyz", &c), vec!["serde", "tokio", "anyhow"]);
    assert_eq!(local_candidate_names("q", &c).len(), 3);
    assert_eq!(local_candidate_names("zzz", &vec![]), vec!["serde", "tokio", "anyhow"]);
}

#[test]
fn match_scores() {
    assert_eq!(match_score("use serde please", "serde", ""), NAME_MATCH_SCORE);
    assert_eq!(match_score("json", "serde", "a json library"), DESCRIPTION_MATCH_SCORE);
    assert_eq!(match_score("json", "serde", "a data library"), DEFAULT_MATCH_SCORE);
}

#[test]
fn fallback_ranking_for_json_request() {
    let query = "I need json serialization";
    assert!(matches!(
        choose_strategy(Err(InterpreterError::QuotaExhausted)),
        Strategy::LocalFallback
    ));
    let wanted = local_candidate_names(query, &standard_catalog_entries());
    assert_eq!(wanted, vec!["serde", "serde_json"]);
    let fetched = vec![
        info(&wanted[0], "Use it when I NEED JSON SERIALIZATION of any data", 0),
        info(&wanted[1], "A JSON serialization file format", 0),
    ];
    let r = rank_local(query, fetched);
    assert_eq!(r.crates[0].name, "serde");
    assert!(r.crates[0].score == DESCRIPTION_MATCH_SCORE || r.crates[0].score == NAME_MATCH_SCORE);
    assert_eq!(r.crates[1].score, DEFAULT_MATCH_SCORE);
    assert!(r.explanation.contains("local keyword matching"));
}

#[test]
fn fallback_scores_are_from_the_three_levels() {
    let fetched = vec![
        info("tokio", "An event-driven runtime", 0),
        info("serde", "Serialization", 0),
        info("anyhow", "Use tokio with serde", 0),
    ];
    let r = rank_local("Tokio and SERDE", fetched);
    assert_eq!(names(&r.crates), vec!["tokio", "serde", "anyhow"]);
    for c in &r.crates {
        assert!([NAME_MATCH_SCORE, DESCRIPTION_MATCH_SCORE, DEFAULT_MATCH_SCORE].contains(&c.score));
    }
    assert_eq!(r.crates[2].score, DEFAULT_MATCH_SCORE);
}

#[test]
fn quota_failure_takes_fallback_path() {
    let s = choose_strategy(Err(InterpreterError::QuotaExhausted));
    assert!(matches!(s, Strategy::LocalFallback));
    let s = choose_strategy(Ok("a json library".to_string()));
    assert!(matches!(s, Strategy::Interpreted(ref t) if t == "a json library"));
}

#[test]
fn sort_is_stable_and_descending() {
    let v = vec![
        info("a", "", 5),
        info("b", "", 9),
        info("c", "", 5),
        info("d", "", 7),
        info("e", "", 9),
    ];
    let r = sort_by_score_desc(v);
    assert_eq!(names(&r), vec!["b", "e", "d", "a", "c"]);
    for w in r.windows(2) {
        assert!(w[0].score >= w[1].score);
    }
    assert!(sort_by_score_desc(vec![]).is_empty());
}

#[test]
fn interpreted_ranking_drops_unmeasured() {
    let s = CrateScorer::new();
    let candidates = vec![info("x", "", 0), info("y", "", 0), info("z", "", 0)];
    let m = vec![Some(metrics(0, "GPL-3.0")), None, Some(metrics(50, "MIT"))];
    let r = rank_interpreted(candidates, &m, &s, 1_700_000_000);
    assert_eq!(names(&r.crates), vec!["z", "x"]);
    assert_eq!(r.crates[0].score, SCORE_SCALE / 1000 * 675);
    assert_eq!(r.crates[1].score, SCORE_SCALE / 1000 * 475);
    assert!(r.explanation.contains("weighted score"));
}

#[test]
fn reply_classes() {
    let ok = RecommendationResponse { crates: vec![info("a", "", 1)], explanation: "x".to_string() };
    let r = reply_for(Ok(ok));
    assert_eq!(r.status, 200);
    assert_eq!(r.body.explanation, "x");
    let empty = RecommendationResponse { crates: vec![], explanation: "x".to_string() };
    let r = reply_for(Ok(empty));
    assert_eq!(r.status, 404);
    assert!(r.body.explanation.starts_with("No matching crates"));
    assert_eq!(reply_for(Err("error: insufficient_quota".to_string())).status, 503);
    assert_eq!(reply_for(Err("connection refused".to_string())).status, 502);
    let r = reply_for(Err("boom".to_string()));
    assert_eq!(r.status, 500);
    assert!(r.body.crates.is_empty());
    assert_eq!(classify_failure("insufficient_quota, connection"), FailureClass::QuotaExhausted);
    assert_eq!(classify_failure("Connection"), FailureClass::Internal);
}

#[test]
fn search_records_become_unscored_candidates() {
    let resp = CratesIoResponse {
        crates: vec![
            CratesIoCrate {
                name: "serde".to_string(),
                description: None,
                version: "1.0.0".to_string(),
                downloads: 7,
                updated_at: "2024".to_string(),
                repository: Some("https://github.com/serde-rs/serde".to_string()),
                documentation: None,
                keywords: vec!["serde".to_string()],
            },
            CratesIoCrate {
                name: "toml".to_string(),
                description: Some("TOML".to_string()),
                version: "0.8.0".to_string(),
                downloads: 3,
                updated_at: "2023".to_string(),
                repository: None,
                documentation: None,
                keywords: vec![],
            },
        ],
    };
    let r = candidates_from_search(resp);
    assert_eq!(names(&r), vec!["serde", "toml"]);
    assert_eq!(r[0].description, "");
    assert_eq!(r[1].description, "TOML");
    assert_eq!(r[0].score, 0);
    assert_eq!(r[0].keywords, vec!["serde"]);
}

fn detail() -> CrateDetail {
    CrateDetail {
        description: Some("Serialization".to_string()),
        newest_version: Some("1.0.200".to_string()),
        downloads: Some(1000),
        updated_at: None,
        repository: None,
        documentation: Some("https://docs.rs/serde".to_string()),
        readme: Some("héllo".to_string()),
        example_count: 0,
        dependent_count: Some(-4),
        recent_downloads: Some(100),
        version_count: Some(3),
        license: None,
    }
}

#[test]
fn detail_becomes_candidate_and_metrics() {
    let c = crate_info_from_detail("serde", detail());
    assert_eq!(c.name, "serde");
    assert_eq!(c.version, "1.0.200");
    assert_eq!(c.last_updated, "");
    assert_eq!(c.downloads, 1000);
    let m = metrics_from_detail(&detail(), None, Some(5));
    assert_eq!(m.releases_per_year, 3);
    assert_eq!(m.readme_length, 6);
    assert!(m.has_docs_rs);
    assert!(!m.has_examples);
    assert_eq!(m.dependent_count, 0);
    assert_eq!(m.recent_downloads, 100);
    assert_eq!(m.total_downloads, 1000);
    assert_eq!(m.license, "");
    assert_eq!(m.issue_response_time, Some(5));
    assert!(SCORE_SCALE > 0);
}

#[test]
fn defaults_are_fetched_only_when_nothing_was() {
    assert_eq!(refill_names(&vec![]), vec!["serde", "tokio", "anyhow"]);
    assert!(refill_names(&vec![info("clap", "", 0)]).is_empty());
}
