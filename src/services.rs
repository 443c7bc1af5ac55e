use vstd::prelude::*;
use vstd::string::*;
use vstd::utf8::encode_utf8;

use crate::catalog::{default_crate_names, default_names, string_views};
use crate::models::{CrateDetail, CrateInfo, CratesIoCrate, CratesIoResponse, RecommendationResponse};
use crate::ranking::{
    lemma_sort_desc_members, lemma_sort_desc_stable, non_increasing, score_is, sort_by_score_desc,
    sort_desc,
};
use crate::scorer::{total_score, CrateMetrics, CrateScorer, SCORE_SCALE};
use crate::text::{contains_seq, lower_of, str_contains, to_lower};

verus! {

/// Score of a fallback candidate whose name the request mentions.
pub const NAME_MATCH_SCORE: u64 = SCORE_SCALE / 10 * 9;

/// Score of a fallback candidate whose description contains the request.
pub const DESCRIPTION_MATCH_SCORE: u64 = SCORE_SCALE / 10 * 7;

/// Score of any other fallback candidate.
pub const DEFAULT_MATCH_SCORE: u64 = SCORE_SCALE / 10 * 5;

/// Why the language-model interpreter could not answer.
#[derive(Clone, Copy, Debug, PartialEq, Eq, Structural)]
pub enum InterpreterError {
    QuotaExhausted,
    Connectivity,
    Other,
}

/// The strategy that produces the candidate set: exactly one of the two.
pub enum Strategy {
    /// Search the registry with the interpreter's description of the need.
    Interpreted(String),
    /// Match the request against the local catalog.
    LocalFallback,
}

/// The class of a failure that reaches the caller.
#[derive(Clone, Copy, Debug, PartialEq, Eq, Structural)]
pub enum FailureClass {
    QuotaExhausted,
    Connectivity,
    Internal,
}

/// What to answer: a status code and a body.
pub struct HttpReply {
    pub status: u16,
    pub body: RecommendationResponse,
}

// ----- the model -----

pub open spec fn success_explanation() -> Seq<char> {
    "Ranked by a weighted score over maintenance, documentation, security, dependents, download trend and license."@
}

pub open spec fn fallback_explanation() -> Seq<char> {
    "The language model is unavailable; these results come from local keyword matching."@
}

pub open spec fn not_found_explanation() -> Seq<char> {
    "No matching crates were found. Try other keywords or give more context."@
}

pub open spec fn failure_explanation(c: FailureClass) -> Seq<char> {
    match c {
        FailureClass::QuotaExhausted => "The language model quota is used up. Please try again later or contact the administrator."@,
        FailureClass::Connectivity => "Could not reach an outside service. Please check the network or proxy settings."@,
        FailureClass::Internal => "Internal server error. Please try again later."@,
    }
}

pub open spec fn failure_status(c: FailureClass) -> u16 {
    match c {
        FailureClass::QuotaExhausted => 503,
        FailureClass::Connectivity => 502,
        FailureClass::Internal => 500,
    }
}

pub open spec fn failure_class(message: Seq<char>) -> FailureClass {
    if contains_seq(message, "insufficient_quota"@) {
        FailureClass::QuotaExhausted
    } else if contains_seq(message, "connection"@) {
        FailureClass::Connectivity
    } else {
        FailureClass::Internal
    }
}

/// The fallback score: the request names the package, or the package's
/// description contains the request, or neither.
pub open spec fn match_score_spec(
    query_lower: Seq<char>,
    name: Seq<char>,
    description_lower: Seq<char>,
) -> u64 {
    if contains_seq(query_lower, name) {
        NAME_MATCH_SCORE
    } else if contains_seq(description_lower, query_lower) {
        DESCRIPTION_MATCH_SCORE
    } else {
        DEFAULT_MATCH_SCORE
    }
}

pub open spec fn with_score(c: CrateInfo, v: u64) -> CrateInfo {
    CrateInfo { score: v, ..c }
}

pub open spec fn locally_scored(query_lower: Seq<char>, s: Seq<CrateInfo>) -> Seq<CrateInfo> {
    s.map_values(
        |c: CrateInfo|
            with_score(c, match_score_spec(query_lower, c.name@, lower_of(c.description@))),
    )
}

/// The candidates whose metrics are present, each scored by the scorer.
pub open spec fn scored_kept(
    s: &CrateScorer,
    now: int,
    c: Seq<CrateInfo>,
    m: Seq<Option<CrateMetrics>>,
) -> Seq<CrateInfo>
    decreases c.len(),
{
    if c.len() == 0 || m.len() == 0 {
        Seq::empty()
    } else {
        let prev = scored_kept(s, now, c.drop_last(), m.drop_last());
        match m.last() {
            Some(x) => prev.push(with_score(c.last(), total_score(s, &x, now) as u64)),
            None => prev,
        }
    }
}

pub open spec fn option_text(o: Option<String>) -> Seq<char> {
    match o {
        Some(s) => s@,
        None => Seq::empty(),
    }
}

pub open spec fn count_or_zero(v: Option<i64>) -> u64 {
    match v {
        Some(n) => if n >= 0 {
            n as u64
        } else {
            0
        },
        None => 0,
    }
}

/// `r` is the unscored candidate made from the search record `c`.
pub open spec fn is_candidate_of(r: CrateInfo, c: CratesIoCrate) -> bool {
    &&& r.name == c.name
    &&& r.description@ == option_text(c.description)
    &&& r.version == c.version
    &&& r.downloads == c.downloads
    &&& r.last_updated == c.updated_at
    &&& r.score == 0
    &&& r.repository == c.repository
    &&& r.documentation == c.documentation
    &&& r.keywords == c.keywords
}

// ----- helpers -----

fn text_or_empty(o: Option<String>) -> (r: String)
    ensures
        r@ == option_text(o),
{
    match o {
        Some(s) => s,
        None => String::new(),
    }
}

fn count_or_zero_exec(v: Option<i64>) -> (r: u64)
    ensures
        r == count_or_zero(v),
{
    match v {
        Some(n) => if n >= 0 {
            n as u64
        } else {
            0
        },
        None => 0,
    }
}

// ----- the strategy -----

/// Picks the strategy from the interpreter's outcome: its description when it
/// answered, the local fallback on any error. No retry.
pub fn choose_strategy(outcome: Result<String, InterpreterError>) -> (r: Strategy)
    ensures
        match outcome {
            Ok(t) => r == Strategy::Interpreted(t),
            Err(_) => r is LocalFallback,
        },
{
    match outcome {
        Ok(t) => Strategy::Interpreted(t),
        Err(_) => Strategy::LocalFallback,
    }
}

/// The fallback score of one candidate, from the lower-cased request and the
/// lower-cased description.
pub fn match_score(query_lower: &str, name: &str, description_lower: &str) -> (r: u64)
    ensures
        r == match_score_spec(query_lower@, name@, description_lower@),
{
    if str_contains(query_lower, name) {
        NAME_MATCH_SCORE
    } else if str_contains(description_lower, query_lower) {
        DESCRIPTION_MATCH_SCORE
    } else {
        DEFAULT_MATCH_SCORE
    }
}

/// The fallback ranking: each candidate gets its match score against the
/// lower-cased request, then all are ordered by descending score, stably.
pub fn rank_local(query: &str, candidates: Vec<CrateInfo>) -> (r: RecommendationResponse)
    ensures
        r.crates@ == sort_desc(locally_scored(lower_of(query@), candidates@)),
        non_increasing(r.crates@),
        forall|v: u64|
            #[trigger] r.crates@.filter(score_is(v)) == locally_scored(
                lower_of(query@),
                candidates@,
            ).filter(score_is(v)),
        r.explanation@ == fallback_explanation(),
{
    let query_lower = to_lower(query);
    let ghost orig = candidates@;
    let ghost q = lower_of(query@);
    let mut rest = candidates;
    let mut scored: Vec<CrateInfo> = Vec::new();
    let n = rest.len();
    let mut i: usize = 0;
    while rest.len() > 0
        invariant
            n == orig.len(),
            query_lower@ == q,
            i + rest@.len() == orig.len(),
            rest@ == orig.subrange(i as int, orig.len() as int),
            scored@ == locally_scored(q, orig.subrange(0, i as int)),
        decreases rest@.len(),
    {
        let mut c = rest.remove(0);
        let description_lower = to_lower(c.description.as_str());
        c.score = match_score(query_lower.as_str(), c.name.as_str(), description_lower.as_str());
        scored.push(c);
        i = i + 1;
        proof {
            assert(rest@ =~= orig.subrange(i as int, orig.len() as int));
            assert(scored@ =~= locally_scored(q, orig.subrange(0, i as int)));
        }
    }
    proof {
        assert(orig.subrange(0, i as int) =~= orig);
        assert forall|v: u64|
            #[trigger] sort_desc(scored@).filter(score_is(v)) == scored@.filter(score_is(v)) by {
            lemma_sort_desc_stable(scored@, v);
        }
    }
    RecommendationResponse {
        crates: sort_by_score_desc(scored),
        explanation: String::from_str(
            "The language model is unavailable; these results come from local keyword matching.",
        ),
    }
}

/// The interpreted ranking at the time `now`: candidates whose metrics could
/// not be fetched are dropped, the others get their total score, and all are
/// ordered by descending score, stably.
pub fn rank_interpreted(
    candidates: Vec<CrateInfo>,
    metrics: &Vec<Option<CrateMetrics>>,
    scorer: &CrateScorer,
    now: i64,
) -> (r: RecommendationResponse)
    requires
        candidates@.len() == metrics@.len(),
        scorer.wf(),
    ensures
        r.crates@ == sort_desc(scored_kept(scorer, now as int, candidates@, metrics@)),
        non_increasing(r.crates@),
        forall|v: u64|
            #[trigger] r.crates@.filter(score_is(v)) == scored_kept(
                scorer,
                now as int,
                candidates@,
                metrics@,
            ).filter(score_is(v)),
        r.explanation@ == success_explanation(),
{
    let ghost orig = candidates@;
    let mut rest = candidates;
    let mut kept: Vec<CrateInfo> = Vec::new();
    let n = rest.len();
    let mut i: usize = 0;
    while rest.len() > 0
        invariant
            n == orig.len(),
            n == metrics@.len(),
            scorer.wf(),
            i + rest@.len() == orig.len(),
            rest@ == orig.subrange(i as int, orig.len() as int),
            kept@ == scored_kept(
                scorer,
                now as int,
                orig.subrange(0, i as int),
                metrics@.subrange(0, i as int),
            ),
        decreases rest@.len(),
    {
        let mut c = rest.remove(0);
        proof {
            let pc = orig.subrange(0, i + 1);
            let pm = metrics@.subrange(0, i + 1);
            assert(pc.drop_last() =~= orig.subrange(0, i as int));
            assert(pm.drop_last() =~= metrics@.subrange(0, i as int));
            assert(pc.last() == c);
            assert(pm.last() == metrics@[i as int]);
        }
        match &metrics[i] {
            Some(m) => {
                c.score = scorer.calculate_total_score_at(m, now);
                kept.push(c);
            },
            None => {},
        }
        i = i + 1;
        proof {
            assert(rest@ =~= orig.subrange(i as int, orig.len() as int));
        }
    }
    proof {
        assert(orig.subrange(0, i as int) =~= orig);
        assert(metrics@.subrange(0, i as int) =~= metrics@);
        assert forall|v: u64|
            #[trigger] sort_desc(kept@).filter(score_is(v)) == kept@.filter(score_is(v)) by {
            lemma_sort_desc_stable(kept@, v);
        }
    }
    RecommendationResponse {
        crates: sort_by_score_desc(kept),
        explanation: String::from_str(
            "Ranked by a weighted score over maintenance, documentation, security, dependents, download trend and license.",
        ),
    }
}

/// The names still to fetch once the matched packages have been fetched: the
/// default packages when none of them could be had, else none.
pub fn refill_names(fetched: &Vec<CrateInfo>) -> (r: Vec<String>)
    ensures
        fetched@.len() == 0 ==> string_views(r@) == default_names(),
        fetched@.len() > 0 ==> r@.len() == 0,
{
    if fetched.len() == 0 {
        default_crate_names()
    } else {
        Vec::new()
    }
}

/// The class of a failure, from its message: a used-up quota, a connection
/// problem, or anything else.
pub fn classify_failure(message: &str) -> (r: FailureClass)
    ensures
        r == failure_class(message@),
{
    if str_contains(message, "insufficient_quota") {
        FailureClass::QuotaExhausted
    } else if str_contains(message, "connection") {
        FailureClass::Connectivity
    } else {
        FailureClass::Internal
    }
}

fn failure_reply(c: FailureClass) -> (r: HttpReply)
    ensures
        r.status == failure_status(c),
        r.body.crates@.len() == 0,
        r.body.explanation@ == failure_explanation(c),
{
    let (status, message): (u16, String) = match c {
        FailureClass::QuotaExhausted => (
            503,
            String::from_str(
                "The language model quota is used up. Please try again later or contact the administrator.",
            ),
        ),
        FailureClass::Connectivity => (
            502,
            String::from_str(
                "Could not reach an outside service. Please check the network or proxy settings.",
            ),
        ),
        FailureClass::Internal => (
            500,
            String::from_str("Internal server error. Please try again later."),
        ),
    };
    HttpReply { status, body: RecommendationResponse { crates: Vec::new(), explanation: message } }
}

/// The answer to a request: the ranked response with 200; an empty result with
/// 404 and a hint; a failure with the status and message of its class.
pub fn reply_for(outcome: Result<RecommendationResponse, String>) -> (r: HttpReply)
    ensures
        match outcome {
            Ok(resp) => if resp.crates@.len() == 0 {
                &&& r.status == 404
                &&& r.body.crates@.len() == 0
                &&& r.body.explanation@ == not_found_explanation()
            } else {
                r.status == 200 && r.body == resp
            },
            Err(m) => {
                &&& r.status == failure_status(failure_class(m@))
                &&& r.body.crates@.len() == 0
                &&& r.body.explanation@ == failure_explanation(failure_class(m@))
            },
        },
{
    match outcome {
        Ok(resp) => {
            if resp.crates.len() == 0 {
                HttpReply {
                    status: 404,
                    body: RecommendationResponse {
                        crates: Vec::new(),
                        explanation: String::from_str(
                            "No matching crates were found. Try other keywords or give more context.",
                        ),
                    },
                }
            } else {
                HttpReply { status: 200, body: resp }
            }
        },
        Err(m) => failure_reply(classify_failure(m.as_str())),
    }
}

// ----- registry records -----

/// The unscored candidates of a registry search, in its order.
pub fn candidates_from_search(response: CratesIoResponse) -> (r: Vec<CrateInfo>)
    ensures
        r@.len() == response.crates@.len(),
        forall|k: int| 0 <= k < r@.len() ==> is_candidate_of(#[trigger] r@[k], response.crates@[k]),
{
    let ghost orig = response.crates@;
    let mut rest = response.crates;
    let mut out: Vec<CrateInfo> = Vec::new();
    let n = rest.len();
    let mut i: usize = 0;
    while rest.len() > 0
        invariant
            n == orig.len(),
            i + rest@.len() == orig.len(),
            rest@ == orig.subrange(i as int, orig.len() as int),
            out@.len() == i,
            forall|k: int| 0 <= k < i ==> is_candidate_of(#[trigger] out@[k], orig[k]),
        decreases rest@.len(),
    {
        let c = rest.remove(0);
        assert(c == orig[i as int]);
        out.push(
            CrateInfo {
                name: c.name,
                description: text_or_empty(c.description),
                version: c.version,
                downloads: c.downloads,
                last_updated: c.updated_at,
                score: 0,
                repository: c.repository,
                documentation: c.documentation,
                keywords: c.keywords,
            },
        );
        i = i + 1;
        proof {
            assert(rest@ =~= orig.subrange(i as int, orig.len() as int));
        }
    }
    out
}

/// The unscored candidate for a package from its detailed registry record;
/// missing texts become empty, a missing or negative count becomes zero.
pub fn crate_info_from_detail(name: &str, detail: CrateDetail) -> (r: CrateInfo)
    ensures
        r.name@ == name@,
        r.description@ == option_text(detail.description),
        r.version@ == option_text(detail.newest_version),
        r.downloads == count_or_zero(detail.downloads),
        r.last_updated@ == option_text(detail.updated_at),
        r.score == 0,
        r.repository == detail.repository,
        r.documentation == detail.documentation,
        r.keywords@.len() == 0,
{
    CrateInfo {
        name: String::from_str(name),
        description: text_or_empty(detail.description),
        version: text_or_empty(detail.newest_version),
        downloads: count_or_zero_exec(detail.downloads),
        last_updated: text_or_empty(detail.updated_at),
        score: 0,
        repository: detail.repository,
        documentation: detail.documentation,
        keywords: Vec::new(),
    }
}

/// The quality metrics of a package from its detailed registry record and its
/// source-control activity. Hosted docs count when the documentation link
/// points to docs.rs; releases a year are the number of published versions.
pub fn metrics_from_detail(
    detail: &CrateDetail,
    last_commit: Option<i64>,
    issue_response_time: Option<i64>,
) -> (r: CrateMetrics)
    ensures
        r.last_commit == last_commit,
        r.issue_response_time == issue_response_time,
        r.releases_per_year == match detail.version_count {
            Some(v) => v,
            None => 0,
        },
        r.readme_length as int == match detail.readme {
            Some(t) => encode_utf8(t@).len(),
            None => 0,
        },
        r.has_docs_rs == match detail.documentation {
            Some(d) => contains_seq(d@, "docs.rs"@),
            None => false,
        },
        r.has_examples == (detail.example_count > 0),
        r.cargo_audit_passed,
        r.rustsec_vulnerabilities == 0,
        r.dependent_count == count_or_zero(detail.dependent_count),
        r.recent_downloads == count_or_zero(detail.recent_downloads),
        r.total_downloads == count_or_zero(detail.downloads),
        r.license@ == option_text(detail.license),
{
    let readme_length: u64 = match &detail.readme {
        Some(t) => t.as_str().as_bytes().len() as u64,
        None => 0,
    };
    let has_docs_rs = match &detail.documentation {
        Some(d) => str_contains(d.as_str(), "docs.rs"),
        None => false,
    };
    let license = match &detail.license {
        Some(l) => l.clone(),
        None => String::new(),
    };
    CrateMetrics {
        last_commit,
        issue_response_time,
        releases_per_year: match detail.version_count {
            Some(v) => v,
            None => 0,
        },
        readme_length,
        has_docs_rs,
        has_examples: detail.example_count > 0,
        cargo_audit_passed: true,
        rustsec_vulnerabilities: 0,
        dependent_count: count_or_zero_exec(detail.dependent_count),
        recent_downloads: count_or_zero_exec(detail.recent_downloads),
        total_downloads: count_or_zero_exec(detail.downloads),
        license,
    }
}

// ----- laws -----

/// After the fallback ranking every candidate's score is one of the three
/// match scores.
pub proof fn lemma_fallback_scores(query_lower: Seq<char>, candidates: Seq<CrateInfo>, k: int)
    requires
        0 <= k < sort_desc(locally_scored(query_lower, candidates)).len(),
    ensures
        ({
            let v = sort_desc(locally_scored(query_lower, candidates))[k].score;
            v == NAME_MATCH_SCORE || v == DESCRIPTION_MATCH_SCORE || v == DEFAULT_MATCH_SCORE
        }),
{
    let s = locally_scored(query_lower, candidates);
    lemma_sort_desc_members(s, k);
    let y = sort_desc(s)[k];
    let j = choose|j: int| 0 <= j < s.len() && s[j] == y;
    assert(s[j].score == match_score_spec(
        query_lower,
        candidates[j].name@,
        lower_of(candidates[j].description@),
    ));
}

} // verus!
