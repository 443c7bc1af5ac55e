use vstd::prelude::*;

verus! {

/// A free-text request for package recommendations.
pub struct RecommendationRequest {
    pub query: String,
    pub context: Option<String>,
}

/// A package under consideration. `score` is a fixed-point score (see
/// `SCORE_SCALE`); it is zero until the package is scored.
pub struct CrateInfo {
    pub name: String,
    pub description: String,
    pub version: String,
    pub downloads: u64,
    pub last_updated: String,
    pub score: u64,
    pub repository: Option<String>,
    pub documentation: Option<String>,
    pub keywords: Vec<String>,
}

/// The ranked candidates, best first, and how they were found.
pub struct RecommendationResponse {
    pub crates: Vec<CrateInfo>,
    pub explanation: String,
}

/// The registry's answer to a search.
pub struct CratesIoResponse {
    pub crates: Vec<CratesIoCrate>,
}

/// One package record of a registry search.
pub struct CratesIoCrate {
    pub name: String,
    pub description: Option<String>,
    pub version: String,
    pub downloads: u64,
    pub updated_at: String,
    pub repository: Option<String>,
    pub documentation: Option<String>,
    pub keywords: Vec<String>,
}

/// The registry's detailed record of one package, as far as it is present.
pub struct CrateDetail {
    pub description: Option<String>,
    pub newest_version: Option<String>,
    pub downloads: Option<i64>,
    pub updated_at: Option<String>,
    pub repository: Option<String>,
    pub documentation: Option<String>,
    pub readme: Option<String>,
    pub example_count: u64,
    pub dependent_count: Option<i64>,
    pub recent_downloads: Option<i64>,
    pub version_count: Option<u64>,
    pub license: Option<String>,
}

} // verus!
