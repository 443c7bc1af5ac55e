//! Package recommendation: a multi-dimensional quality scorer, a local keyword
//! catalog, and the strategy logic that ranks candidates for a request.
//!
//! Scores are fixed-point integers: `SCORE_SCALE` stands for a score of 1.0.

mod clock;
pub mod catalog;
pub mod models;
pub mod ranking;
pub mod scorer;
pub mod services;
pub mod text;

pub use models::{
    CrateDetail, CrateInfo, CratesIoCrate, CratesIoResponse, RecommendationRequest,
    RecommendationResponse,
};
pub use scorer::{CrateMetrics, CrateScorer, ScoreReport, SCORE_SCALE};
pub use text::str_contains;
