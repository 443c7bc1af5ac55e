use vstd::prelude::*;

use crate::text::{contains_seq, lower_of, str_contains, to_lower};

verus! {

/// A well-known package and the keywords that point to it.
pub struct CatalogEntry {
    pub name: String,
    pub keywords: Vec<String>,
}

pub open spec fn entry_view(e: CatalogEntry) -> (Seq<char>, Seq<Seq<char>>) {
    (e.name@, e.keywords@.map_values(|k: String| k@))
}

pub open spec fn catalog_view(c: Seq<CatalogEntry>) -> Seq<(Seq<char>, Seq<Seq<char>>)> {
    c.map_values(|e: CatalogEntry| entry_view(e))
}

pub open spec fn string_views(v: Seq<String>) -> Seq<Seq<char>> {
    v.map_values(|s: String| s@)
}

/// The request mentions the package's name or one of its keywords.
pub open spec fn entry_matches(query: Seq<char>, e: (Seq<char>, Seq<Seq<char>>)) -> bool {
    contains_seq(query, e.0) || exists|k: int| 0 <= k < e.1.len() && contains_seq(query, #[trigger] e.1[k])
}

/// The names of the matching entries, in catalog order.
pub open spec fn matching_names(query: Seq<char>, c: Seq<(Seq<char>, Seq<Seq<char>>)>) -> Seq<Seq<char>>
    decreases c.len(),
{
    if c.len() == 0 {
        Seq::empty()
    } else {
        let prev = matching_names(query, c.drop_last());
        if entry_matches(query, c.last()) {
            prev.push(c.last().0)
        } else {
            prev
        }
    }
}

/// The general-purpose packages offered when nothing in the catalog matches.
pub open spec fn default_names() -> Seq<Seq<char>> {
    seq!["serde"@, "tokio"@, "anyhow"@]
}

pub open spec fn local_names(query: Seq<char>, c: Seq<(Seq<char>, Seq<Seq<char>>)>) -> Seq<Seq<char>> {
    if matching_names(query, c).len() > 0 {
        matching_names(query, c)
    } else {
        default_names()
    }
}

pub open spec fn standard_catalog() -> Seq<(Seq<char>, Seq<Seq<char>>)> {
    seq![
        ("serde"@, seq!["json"@, "serialization"@, "deserialization"@, "data"@]),
        ("tokio"@, seq!["async"@, "concurrent"@, "async-await"@, "runtime"@]),
        ("axum"@, seq!["web"@, "http"@, "api"@, "server"@, "framework"@]),
        ("reqwest"@, seq!["http"@, "client"@, "request"@, "api"@]),
        ("chrono"@, seq!["date"@, "time"@, "datetime"@, "timezone"@]),
        ("clap"@, seq!["cli"@, "command-line"@, "argument"@, "parser"@]),
        ("sqlx"@, seq!["sql"@, "database"@, "postgres"@, "mysql"@]),
        ("tracing"@, seq!["logging"@, "debug"@, "diagnostics"@]),
        ("anyhow"@, seq!["error"@, "handling"@, "result"@]),
        ("futures"@, seq!["async"@, "stream"@, "future"@]),
        ("rand"@, seq!["random"@, "number"@, "generator"@]),
        ("regex"@, seq!["regular"@, "expression"@, "pattern"@, "matching"@]),
        ("serde_json"@, seq!["json"@, "serialization"@]),
        ("async-trait"@, seq!["async"@, "trait"@, "await"@]),
        ("thiserror"@, seq!["error"@, "handling"@, "derive"@]),
        ("uuid"@, seq!["unique"@, "identifier"@, "id"@]),
        ("env_logger"@, seq!["logging"@, "environment"@]),
        ("dotenv"@, seq!["environment"@, "configuration"@, "env"@]),
        ("cargo"@, seq!["package"@, "manager"@, "dependency"@]),
        ("cargo-edit"@, seq!["cargo"@, "add"@, "remove"@, "upgrade"@]),
    ]
}

fn keyword_list(words: &[&str]) -> (r: Vec<String>)
    ensures
        r@.len() == words@.len(),
        forall|k: int| 0 <= k < words@.len() ==> #[trigger] r@[k]@ == words@[k]@,
{
    let mut kws: Vec<String> = Vec::new();
    let mut i: usize = 0;
    while i < words.len()
        invariant
            i <= words@.len(),
            kws@.len() == i,
            forall|k: int| 0 <= k < i ==> #[trigger] kws@[k]@ == words@[k]@,
        decreases words@.len() - i,
    {
        kws.push(String::from_str(words[i]));
        i = i + 1;
    }
    kws
}

fn entry2(name: &str, a: &str, b: &str) -> (r: CatalogEntry)
    ensures
        entry_view(r) == (name@, seq![a@, b@]),
{
    let k = keyword_list(&[a, b]);
    let r = CatalogEntry { name: String::from_str(name), keywords: k };
    assert(entry_view(r).1 =~= seq![a@, b@]);
    r
}

fn entry3(name: &str, a: &str, b: &str, c: &str) -> (r: CatalogEntry)
    ensures
        entry_view(r) == (name@, seq![a@, b@, c@]),
{
    let k = keyword_list(&[a, b, c]);
    let r = CatalogEntry { name: String::from_str(name), keywords: k };
    assert(entry_view(r).1 =~= seq![a@, b@, c@]);
    r
}

fn entry4(name: &str, a: &str, b: &str, c: &str, d: &str) -> (r: CatalogEntry)
    ensures
        entry_view(r) == (name@, seq![a@, b@, c@, d@]),
{
    let k = keyword_list(&[a, b, c, d]);
    let r = CatalogEntry { name: String::from_str(name), keywords: k };
    assert(entry_view(r).1 =~= seq![a@, b@, c@, d@]);
    r
}

fn entry5(name: &str, a: &str, b: &str, c: &str, d: &str, e: &str) -> (r: CatalogEntry)
    ensures
        entry_view(r) == (name@, seq![a@, b@, c@, d@, e@]),
{
    let k = keyword_list(&[a, b, c, d, e]);
    let r = CatalogEntry { name: String::from_str(name), keywords: k };
    assert(entry_view(r).1 =~= seq![a@, b@, c@, d@, e@]);
    r
}

/// The catalog of well-known packages and their keywords.
pub fn standard_catalog_entries() -> (r: Vec<CatalogEntry>)
    ensures
        catalog_view(r@) == standard_catalog(),
{
    let mut c: Vec<CatalogEntry> = Vec::new();
    c.push(entry4("serde", "json", "serialization", "deserialization", "data"));
    c.push(entry4("tokio", "async", "concurrent", "async-await", "runtime"));
    c.push(entry5("axum", "web", "http", "api", "server", "framework"));
    c.push(entry4("reqwest", "http", "client", "request", "api"));
    c.push(entry4("chrono", "date", "time", "datetime", "timezone"));
    c.push(entry4("clap", "cli", "command-line", "argument", "parser"));
    c.push(entry4("sqlx", "sql", "database", "postgres", "mysql"));
    c.push(entry3("tracing", "logging", "debug", "diagnostics"));
    c.push(entry3("anyhow", "error", "handling", "result"));
    c.push(entry3("futures", "async", "stream", "future"));
    c.push(entry3("rand", "random", "number", "generator"));
    c.push(entry4("regex", "regular", "expression", "pattern", "matching"));
    c.push(entry2("serde_json", "json", "serialization"));
    c.push(entry3("async-trait", "async", "trait", "await"));
    c.push(entry3("thiserror", "error", "handling", "derive"));
    c.push(entry3("uuid", "unique", "identifier", "id"));
    c.push(entry2("env_logger", "logging", "environment"));
    c.push(entry3("dotenv", "environment", "configuration", "env"));
    c.push(entry3("cargo", "package", "manager", "dependency"));
    c.push(entry4("cargo-edit", "cargo", "add", "remove", "upgrade"));
    assert(catalog_view(c@) =~= standard_catalog());
    c
}

/// The general-purpose packages offered when nothing in the catalog matches.
pub fn default_crate_names() -> (r: Vec<String>)
    ensures
        string_views(r@) == default_names(),
        r@.len() == 3,
{
    let mut r: Vec<String> = Vec::new();
    r.push(String::from_str("serde"));
    r.push(String::from_str("tokio"));
    r.push(String::from_str("anyhow"));
    assert(string_views(r@) =~= default_names());
    r
}

fn entry_matches_exec(query_lower: &str, e: &CatalogEntry) -> (r: bool)
    ensures
        r == entry_matches(query_lower@, entry_view(*e)),
{
    if str_contains(query_lower, e.name.as_str()) {
        return true;
    }
    let ghost kv = entry_view(*e).1;
    let mut i: usize = 0;
    while i < e.keywords.len()
        invariant
            i <= e.keywords@.len(),
            kv == e.keywords@.map_values(|k: String| k@),
            forall|k: int| 0 <= k < i ==> !contains_seq(query_lower@, #[trigger] kv[k]),
        decreases e.keywords@.len() - i,
    {
        if str_contains(query_lower, e.keywords[i].as_str()) {
            assert(kv[i as int] == e.keywords@[i as int]@);
            assert(contains_seq(query_lower@, entry_view(*e).1[i as int]));
            assert(entry_matches(query_lower@, entry_view(*e)));
            return true;
        }
        assert(kv[i as int] == e.keywords@[i as int]@);
        i = i + 1;
    }
    false
}

/// The names of the catalog entries that an already lower-cased request
/// mentions, by name or by keyword, in catalog order; the default packages
/// when there is none.
pub fn matching_crate_names(query_lower: &str, catalog: &Vec<CatalogEntry>) -> (r: Vec<String>)
    ensures
        string_views(r@) == local_names(query_lower@, catalog_view(catalog@)),
        matching_names(query_lower@, catalog_view(catalog@)).len() == 0 ==> string_views(r@)
            == default_names(),
        r@.len() > 0,
{
    let ghost cv = catalog_view(catalog@);
    let mut names: Vec<String> = Vec::new();
    let mut i: usize = 0;
    while i < catalog.len()
        invariant
            i <= catalog@.len(),
            cv == catalog_view(catalog@),
            string_views(names@) == matching_names(query_lower@, cv.subrange(0, i as int)),
        decreases catalog@.len() - i,
    {
        let e = &catalog[i];
        let m = entry_matches_exec(query_lower, e);
        proof {
            let pre = cv.subrange(0, i + 1);
            assert(pre.drop_last() =~= cv.subrange(0, i as int));
            assert(pre.last() == entry_view(*e));
        }
        if m {
            names.push(e.name.clone());
            assert(string_views(names@) =~= matching_names(query_lower@, cv.subrange(0, i + 1)));
        }
        i = i + 1;
    }
    assert(cv.subrange(0, i as int) =~= cv);
    if names.len() == 0 {
        default_crate_names()
    } else {
        names
    }
}

/// The catalog packages that a request points to: its lower-cased text is
/// matched against each entry's name and keywords. Never empty.
pub fn local_candidate_names(query: &str, catalog: &Vec<CatalogEntry>) -> (r: Vec<String>)
    ensures
        string_views(r@) == local_names(lower_of(query@), catalog_view(catalog@)),
        matching_names(lower_of(query@), catalog_view(catalog@)).len() == 0 ==> string_views(r@)
            == default_names(),
        r@.len() > 0,
{
    let lowered = to_lower(query);
    matching_crate_names(lowered.as_str(), catalog)
}

/// Local search never comes back empty, whatever the request and the catalog.
pub proof fn lemma_local_names_non_empty(query: Seq<char>, c: Seq<(Seq<char>, Seq<Seq<char>>)>)
    ensures
        local_names(query, c).len() > 0,
{
}

} // verus!
