//! AFDocs datasource (<https://afdocs.dev>): the categories it reports, the
//! contract its report must meet and the check outputs built from it.
//!
//! AFDocs analyses a documentation website and reports how ready it is to be
//! consumed by AI agents. Each of its seven check categories is mapped to an
//! agent readiness check.

use vstd::prelude::*;

use crate::check::{CheckOutput, Metadata};
use crate::checks::opt_view;
use crate::github::MdRepository;
use crate::matching::views;
use crate::registry::{check_config, check_index, check_table, Datasource, DatasourceModel};
use crate::search::{first_index, lemma_first_index_at, lemma_first_index_none};
use crate::text::{
    self, collapse, kept_in_code, decimal, escape, seq_lt, string_views, strictly_sorted, text_leq,
    trim, uppercase,
};

verus! {

/// Minimum AFDocs category score required for a check to pass.
pub const AFDOCS_PASS_THRESHOLD: u64 = 70;

/// Maximum number of pages AFDocs is asked to sample.
pub const AFDOCS_MAX_LINKS: u64 = 20;

/// AFDocs check category.
#[derive(Debug, PartialEq, Eq)]
pub struct AfdocsCategory {
    pub id: &'static str,
    pub name: &'static str,
    pub checks: Vec<&'static str>,
}

/// Identifier, name and checks of a category.
pub type CategoryModel = (Seq<char>, Seq<char>, Seq<Seq<char>>);

impl AfdocsCategory {
    /// Identifier, name and checks of this category.
    pub open spec fn model(&self) -> CategoryModel {
        (self.id@, self.name@, views(self.checks@))
    }

    /// Return the AFDocs documentation url for this category.
    pub fn docs_url(&self) -> (r: String)
        ensures
            r@ == "https://afdocs.dev/checks/"@ + self.id@,
    {
        let mut r = text::to_owned_string("https://afdocs.dev/checks/");
        text::push_str(&mut r, self.id);
        r
    }
}

/// AFDocs categories and the checks they contain (AFDocs 0.20).
pub open spec fn category_table() -> Seq<CategoryModel> {
    seq![
        (
            "content-discoverability"@,
            "Content Discoverability"@,
            seq![
                "llms-txt-exists"@,
                "llms-txt-valid"@,
                "llms-txt-size"@,
                "llms-txt-links-resolve"@,
                "llms-txt-links-markdown"@,
                "llms-txt-directive-html"@,
                "llms-txt-directive-md"@,
            ],
        ),
        (
            "markdown-availability"@,
            "Markdown Availability"@,
            seq!["markdown-url-support"@, "content-negotiation"@],
        ),
        (
            "page-size"@,
            "Page Size and Truncation Risk"@,
            seq![
                "rendering-strategy"@,
                "page-size-markdown"@,
                "page-size-html"@,
                "content-start-position"@,
            ],
        ),
        (
            "content-structure"@,
            "Content Structure"@,
            seq![
                "tabbed-content-serialization"@,
                "section-header-quality"@,
                "markdown-code-fence-validity"@,
            ],
        ),
        (
            "url-stability"@,
            "URL Stability and Redirects"@,
            seq!["http-status-codes"@, "redirect-behavior"@],
        ),
        (
            "observability"@,
            "Observability and Content Health"@,
            seq!["llms-txt-coverage"@, "markdown-content-parity"@, "cache-header-hygiene"@],
        ),
        (
            "authentication"@,
            "Authentication and Access"@,
            seq!["auth-gate-detection"@, "auth-alternative-access"@],
        ),
    ]
}

/// AFDocs categories and the checks they contain (AFDocs 0.20).
pub fn categories() -> (r: Vec<AfdocsCategory>)
    ensures
        r@.map_values(|c: AfdocsCategory| c.model()) == category_table(),
{
    let mut r: Vec<AfdocsCategory> = Vec::new();
    r.push(
        AfdocsCategory {
            id: "content-discoverability",
            name: "Content Discoverability",
            checks: vec![
                "llms-txt-exists",
                "llms-txt-valid",
                "llms-txt-size",
                "llms-txt-links-resolve",
                "llms-txt-links-markdown",
                "llms-txt-directive-html",
                "llms-txt-directive-md",
            ],
        },
    );
    r.push(
        AfdocsCategory {
            id: "markdown-availability",
            name: "Markdown Availability",
            checks: vec!["markdown-url-support", "content-negotiation"],
        },
    );
    r.push(
        AfdocsCategory {
            id: "page-size",
            name: "Page Size and Truncation Risk",
            checks: vec![
                "rendering-strategy",
                "page-size-markdown",
                "page-size-html",
                "content-start-position",
            ],
        },
    );
    r.push(
        AfdocsCategory {
            id: "content-structure",
            name: "Content Structure",
            checks: vec![
                "tabbed-content-serialization",
                "section-header-quality",
                "markdown-code-fence-validity",
            ],
        },
    );
    r.push(
        AfdocsCategory {
            id: "url-stability",
            name: "URL Stability and Redirects",
            checks: vec!["http-status-codes", "redirect-behavior"],
        },
    );
    r.push(
        AfdocsCategory {
            id: "observability",
            name: "Observability and Content Health",
            checks: vec!["llms-txt-coverage", "markdown-content-parity", "cache-header-hygiene"],
        },
    );
    r.push(
        AfdocsCategory {
            id: "authentication",
            name: "Authentication and Access",
            checks: vec!["auth-gate-detection", "auth-alternative-access"],
        },
    );
    proof {
        assert(views(r@[0].checks@) =~= category_table()[0].2);
        assert(views(r@[1].checks@) =~= category_table()[1].2);
        assert(views(r@[2].checks@) =~= category_table()[2].2);
        assert(views(r@[3].checks@) =~= category_table()[3].2);
        assert(views(r@[4].checks@) =~= category_table()[4].2);
        assert(views(r@[5].checks@) =~= category_table()[5].2);
        assert(views(r@[6].checks@) =~= category_table()[6].2);
        assert(r@.map_values(|c: AfdocsCategory| c.model()) =~= category_table());
    }
    r
}


/// Identifiers of the AFDocs categories, in table order.
pub open spec fn category_ids() -> Seq<Seq<char>> {
    category_table().map_values(|c: CategoryModel| c.0)
}

/// Return the category with the id provided, if known.
pub fn category(id: &str) -> (r: Option<AfdocsCategory>)
    ensures
        r matches Some(c) ==> exists|i: int|
            0 <= i < category_table().len() && category_table()[i] == c.model()
                && category_table()[i].0 == id@,
        r is None <==> !category_ids().contains(id@),
{
    let all = categories();
    let ghost models = all@.map_values(|c: AfdocsCategory| c.model());
    let mut all = all;
    proof {
        assert(models.len() == all@.len());
        assert(category_table().len() == 7);
    }
    let mut i: usize = 0;
    while i < all.len()
        invariant
            i <= all@.len() == 7,
            models == category_table(),
            models == all@.map_values(|c: AfdocsCategory| c.model()),
            forall|j: int| 0 <= j < i ==> #[trigger] category_ids()[j] != id@,
        decreases all@.len() - i,
    {
        if text::eq_str(all[i].id, id) {
            let c = all.remove(i);
            proof {
                assert(models[i as int] == c.model());
                assert(category_ids()[i as int] == models[i as int].0);
                assert(category_ids().contains(id@));
            }
            return Some(c);
        }
        assert(models[i as int].0 == category_ids()[i as int]);
        i = i + 1;
    }
    proof {
        if category_ids().contains(id@) {
            let k = choose|k: int| 0 <= k < category_ids().len() && category_ids()[k] == id@;
            assert(category_ids()[k] != id@);
        }
    }
    None
}

/// Transport used to obtain an AFDocs report.
#[derive(Debug, Clone, Copy, PartialEq, Eq, Structural)]
pub enum AfdocsTransport {
    Unknown,
    Local,
    Runner,
}

impl Default for AfdocsTransport {
    fn default() -> (r: Self)
        ensures
            r == AfdocsTransport::Unknown,
    {
        AfdocsTransport::Unknown
    }
}

/// Label describing a transport.
pub open spec fn transport_label(t: AfdocsTransport) -> Seq<char> {
    match t {
        AfdocsTransport::Unknown => "unknown transport"@,
        AfdocsTransport::Local => "local binary"@,
        AfdocsTransport::Runner => "CLOMonitor runner"@,
    }
}

impl AfdocsTransport {
    /// Label describing this transport.
    pub fn label(self) -> (r: &'static str)
        ensures
            r@ == transport_label(self),
    {
        match self {
            AfdocsTransport::Unknown => "unknown transport",
            AfdocsTransport::Local => "local binary",
            AfdocsTransport::Runner => "CLOMonitor runner",
        }
    }
}

/// A category score reported by AFDocs, as the checks read it: the score
/// rounded to the nearest integer, whether it lies in the 0-100 range,
/// whether it reaches the pass threshold and how it is displayed.
#[derive(Debug, Clone, PartialEq)]
pub struct AfdocsScore {
    pub rounded: u64,
    pub in_range: bool,
    pub passes: bool,
    pub display: String,
}

/// AFDocs category score (no score when there was not enough data).
#[derive(Debug, Clone, PartialEq)]
pub struct AfdocsCategoryScore {
    pub score: Option<AfdocsScore>,
    pub grade: Option<String>,
}

/// AFDocs scoring information: scores by category and suggested fixes by
/// check.
#[derive(Debug, Clone, PartialEq)]
pub struct AfdocsScoring {
    pub category_scores: Vec<(String, AfdocsCategoryScore)>,
    pub resolutions: Vec<(String, String)>,
}

/// AFDocs check result.
#[derive(Debug, Clone, PartialEq)]
pub struct AfdocsResult {
    pub id: String,
    pub category: String,
    pub status: String,
    pub message: String,
}

/// AFDocs report (`afdocs check <url> --format json --score`).
#[derive(Debug, Clone, PartialEq)]
pub struct AfdocsReport {
    pub url: String,
    pub timestamp: String,
    pub results: Vec<AfdocsResult>,
    pub afdocs_version: Option<String>,
    pub sampling_strategy: Option<String>,
    pub scoring: Option<AfdocsScoring>,
    pub tested_pages: Option<u64>,
    pub transport: AfdocsTransport,
}

/// Ways an AFDocs report can break the output contract.
#[derive(Debug, Clone, PartialEq)]
pub enum AfdocsViolation {
    InvalidJson(String),
    ScoringMissing,
    UnexpectedCategoryScores { missing: Vec<String>, unexpected: Vec<String> },
    ScoreOutOfRange { category: String, score: String },
    UnknownStatus { status: String, check: String },
    UnknownCategory { category: String, check: String },
    CheckMissing { check: String },
    WrongCategory { check: String, found: String, expected: String },
    DuplicateCheck { check: String },
}

/// Contract violations, with the texts they hold.
pub enum ViolationModel {
    InvalidJson(Seq<char>),
    ScoringMissing,
    UnexpectedCategoryScores { missing: Seq<Seq<char>>, unexpected: Seq<Seq<char>> },
    ScoreOutOfRange { category: Seq<char>, score: Seq<char> },
    UnknownStatus { status: Seq<char>, check: Seq<char> },
    UnknownCategory { category: Seq<char>, check: Seq<char> },
    CheckMissing { check: Seq<char> },
    WrongCategory { check: Seq<char>, found: Seq<char>, expected: Seq<char> },
    DuplicateCheck { check: Seq<char> },
}

impl AfdocsViolation {
    /// The violation with the texts it holds.
    pub open spec fn model(&self) -> ViolationModel {
        match self {
            AfdocsViolation::InvalidJson(e) => ViolationModel::InvalidJson(e@),
            AfdocsViolation::ScoringMissing => ViolationModel::ScoringMissing,
            AfdocsViolation::UnexpectedCategoryScores { missing, unexpected } =>
                ViolationModel::UnexpectedCategoryScores {
                missing: string_views(missing@),
                unexpected: string_views(unexpected@),
            },
            AfdocsViolation::ScoreOutOfRange { category, score } =>
                ViolationModel::ScoreOutOfRange { category: category@, score: score@ },
            AfdocsViolation::UnknownStatus { status, check } => ViolationModel::UnknownStatus {
                status: status@,
                check: check@,
            },
            AfdocsViolation::UnknownCategory { category, check } =>
                ViolationModel::UnknownCategory { category: category@, check: check@ },
            AfdocsViolation::CheckMissing { check } => ViolationModel::CheckMissing {
                check: check@,
            },
            AfdocsViolation::WrongCategory { check, found, expected } =>
                ViolationModel::WrongCategory { check: check@, found: found@, expected: expected@ },
            AfdocsViolation::DuplicateCheck { check } => ViolationModel::DuplicateCheck {
                check: check@,
            },
        }
    }
}

/// Valid AFDocs check result statuses.
pub open spec fn is_status(s: Seq<char>) -> bool {
    s == "pass"@ || s == "warn"@ || s == "fail"@ || s == "skip"@ || s == "error"@
}

/// Category of each score.
pub open spec fn score_keys(sc: AfdocsScoring) -> Seq<Seq<char>> {
    sc.category_scores@.map_values(|p: (String, AfdocsCategoryScore)| p.0@)
}

/// The scores are given for exactly the known categories.
pub open spec fn keys_match(keys: Seq<Seq<char>>) -> bool {
    &&& forall|i: int| 0 <= i < category_ids().len() ==> keys.contains(#[trigger] category_ids()[i])
    &&& forall|i: int| 0 <= i < keys.len() ==> category_ids().contains(#[trigger] keys[i])
}

/// The score is out of the 0-100 range.
pub open spec fn out_of_range(p: (String, AfdocsCategoryScore)) -> bool {
    p.1.score matches Some(s) && !s.in_range
}

/// Category scores out of the 0-100 range.
pub open spec fn out_of_range_pred() -> spec_fn((String, AfdocsCategoryScore)) -> bool {
    |p: (String, AfdocsCategoryScore)| out_of_range(p)
}

/// The result has an unknown status or category.
pub open spec fn bad_result(r: AfdocsResult) -> bool {
    !is_status(r.status@) || !category_ids().contains(r.category@)
}

/// Results with an unknown status or category.
pub open spec fn bad_result_pred() -> spec_fn(AfdocsResult) -> bool {
    |r: AfdocsResult| bad_result(r)
}

/// Checks of the categories provided, each with its category.
pub open spec fn checks_of(table: Seq<CategoryModel>) -> Seq<(Seq<char>, Seq<char>)>
    decreases table.len(),
{
    if table.len() == 0 {
        Seq::empty()
    } else {
        let c = table.last();
        checks_of(table.drop_last()) + c.2.map_values(|k: Seq<char>| (k, c.0))
    }
}

/// Every expected check, with its category, in table order.
pub open spec fn expected_checks() -> Seq<(Seq<char>, Seq<char>)> {
    checks_of(category_table())
}

/// Results reported for the check provided.
pub open spec fn occurrences(results: Seq<AfdocsResult>, id: Seq<char>) -> Seq<AfdocsResult> {
    results.filter(|r: AfdocsResult| r.id@ == id)
}

/// The check is reported exactly once, in its category.
pub open spec fn check_ok(results: Seq<AfdocsResult>, kc: (Seq<char>, Seq<char>)) -> bool {
    let occ = occurrences(results, kc.0);
    occ.len() == 1 && occ[0].category@ == kc.1
}

/// Expected checks that are missing, repeated or in the wrong category.
pub open spec fn failing_check_pred(results: Seq<AfdocsResult>) -> spec_fn(
    (Seq<char>, Seq<char>),
) -> bool {
    |kc: (Seq<char>, Seq<char>)| !check_ok(results, kc)
}

/// The report meets the AFDocs output contract.
pub open spec fn conforms(rep: AfdocsReport) -> bool {
    match rep.scoring {
        None => false,
        Some(sc) => {
            &&& keys_match(score_keys(sc))
            &&& first_index(sc.category_scores@, out_of_range_pred()) is None
            &&& first_index(rep.results@, bad_result_pred()) is None
            &&& first_index(expected_checks(), failing_check_pred(rep.results@)) is None
        },
    }
}

/// The lists of missing and unexpected categories describe the score keys
/// provided, each sorted and without repeats.
pub open spec fn key_mismatch(
    keys: Seq<Seq<char>>,
    missing: Seq<Seq<char>>,
    unexpected: Seq<Seq<char>>,
) -> bool {
    &&& strictly_sorted(missing)
    &&& strictly_sorted(unexpected)
    &&& forall|t: Seq<char>|
        #![trigger missing.contains(t)]
        missing.contains(t) <==> (category_ids().contains(t) && !keys.contains(t))
    &&& forall|t: Seq<char>|
        #![trigger unexpected.contains(t)]
        unexpected.contains(t) <==> (keys.contains(t) && !category_ids().contains(t))
}

/// The violation reported for the first result with an unknown status or
/// category.
pub open spec fn result_violation(results: Seq<AfdocsResult>, v: ViolationModel) -> bool {
    match first_index(results, bad_result_pred()) {
        Some(i) => {
            let r = results[i];
            if !is_status(r.status@) {
                v == ViolationModel::UnknownStatus { status: r.status@, check: r.id@ }
            } else {
                v == ViolationModel::UnknownCategory { category: r.category@, check: r.id@ }
            }
        },
        None => false,
    }
}

/// The violation reported for the first expected check, in table order,
/// that is missing, repeated or in the wrong category.
pub open spec fn check_violation(results: Seq<AfdocsResult>, v: ViolationModel) -> bool {
    match first_index(expected_checks(), failing_check_pred(results)) {
        Some(k) => {
            let kc = expected_checks()[k];
            let occ = occurrences(results, kc.0);
            if occ.len() == 0 {
                v == ViolationModel::CheckMissing { check: kc.0 }
            } else if occ.len() == 1 {
                v == ViolationModel::WrongCategory {
                    check: kc.0,
                    found: occ[0].category@,
                    expected: kc.1,
                }
            } else {
                v == ViolationModel::DuplicateCheck { check: kc.0 }
            }
        },
        None => false,
    }
}

/// The violation reported for a report breaking the contract: the first one
/// found, checking the scoring, then the category scores, then each result,
/// then each expected check in table order.
pub open spec fn reported(rep: AfdocsReport, v: ViolationModel) -> bool {
    match rep.scoring {
        None => v == ViolationModel::ScoringMissing,
        Some(sc) => {
            let keys = score_keys(sc);
            if !keys_match(keys) {
                v matches ViolationModel::UnexpectedCategoryScores { missing, unexpected }
                    && key_mismatch(keys, missing, unexpected)
            } else {
                match first_index(sc.category_scores@, out_of_range_pred()) {
                    Some(i) => {
                        let p = sc.category_scores@[i];
                        v == ViolationModel::ScoreOutOfRange {
                            category: p.0@,
                            score: p.1.score->0.display@,
                        }
                    },
                    None => if first_index(rep.results@, bad_result_pred()) is Some {
                        result_violation(rep.results@, v)
                    } else {
                        check_violation(rep.results@, v)
                    },
                }
            }
        },
    }
}

/// Is the status a valid AFDocs check result status.
fn status_known(status: &str) -> (r: bool)
    ensures
        r == is_status(status@),
{
    text::eq_str(status, "pass") || text::eq_str(status, "warn") || text::eq_str(status, "fail")
        || text::eq_str(status, "skip") || text::eq_str(status, "error")
}

/// Is there a score for the category provided.
fn has_score_key(sc: &AfdocsScoring, id: &str) -> (r: bool)
    ensures
        r == score_keys(*sc).contains(id@),
{
    let mut i: usize = 0;
    while i < sc.category_scores.len()
        invariant
            i <= sc.category_scores@.len(),
            forall|j: int| 0 <= j < i ==> #[trigger] score_keys(*sc)[j] != id@,
        decreases sc.category_scores@.len() - i,
    {
        if text::eq_str(sc.category_scores[i].0.as_str(), id) {
            assert(score_keys(*sc)[i as int] == id@);
            return true;
        }
        i = i + 1;
    }
    false
}

/// Known categories that have no score.
fn missing_categories(sc: &AfdocsScoring) -> (r: Vec<String>)
    ensures
        forall|t: Seq<char>|
            #![trigger string_views(r@).contains(t)]
            string_views(r@).contains(t) <==> (category_ids().contains(t) && !score_keys(
                *sc,
            ).contains(t)),
{
    let cats = categories();
    let ghost ids = category_ids();
    proof {
        assert(cats@.map_values(|c: AfdocsCategory| c.model()).len() == cats@.len());
    }
    let mut missing: Vec<String> = Vec::new();
    let mut ci: usize = 0;
    while ci < cats.len()
        invariant
            ci <= cats@.len() == ids.len(),
            ids == category_ids(),
            cats@.map_values(|c: AfdocsCategory| c.model()) == category_table(),
            forall|t: Seq<char>|
                #![trigger string_views(missing@).contains(t)]
                string_views(missing@).contains(t) <==> (ids.take(ci as int).contains(t)
                    && !score_keys(*sc).contains(t)),
        decreases cats@.len() - ci,
    {
        proof {
            assert(category_table()[ci as int] == cats@[ci as int].model());
            assert(ids[ci as int] == cats@[ci as int].id@);
            assert(ids.take(ci + 1) =~= ids.take(ci as int).push(ids[ci as int]));
        }
        let ghost before = string_views(missing@);
        let absent = !has_score_key(sc, cats[ci].id);
        if absent {
            missing.push(text::to_owned_string(cats[ci].id));
        }
        proof {
            assert forall|t: Seq<char>|
                #![trigger string_views(missing@).contains(t)]
                string_views(missing@).contains(t) <==> (ids.take(ci + 1).contains(t)
                    && !score_keys(*sc).contains(t)) by {
                assert(before.contains(t) <==> (ids.take(ci as int).contains(t) && !score_keys(
                    *sc,
                ).contains(t)));
                vstd::seq_lib::lemma_seq_contains_after_push(ids.take(ci as int), ids[ci as int], t);
                if absent {
                    assert(string_views(missing@) =~= before.push(ids[ci as int]));
                    vstd::seq_lib::lemma_seq_contains_after_push(before, ids[ci as int], t);
                } else {
                    assert(string_views(missing@) =~= before);
                }
            }
        }
        ci = ci + 1;
    }
    proof {
        assert(ids.take(ids.len() as int) =~= ids);
    }
    missing
}

/// Score keys that are not known categories.
fn unexpected_categories(sc: &AfdocsScoring) -> (r: Vec<String>)
    ensures
        forall|t: Seq<char>|
            #![trigger string_views(r@).contains(t)]
            string_views(r@).contains(t) <==> (score_keys(*sc).contains(t)
                && !category_ids().contains(t)),
{
    let ghost keys = score_keys(*sc);
    let mut unexpected: Vec<String> = Vec::new();
    let mut ki: usize = 0;
    while ki < sc.category_scores.len()
        invariant
            ki <= sc.category_scores@.len() == keys.len(),
            keys == score_keys(*sc),
            forall|t: Seq<char>|
                #![trigger string_views(unexpected@).contains(t)]
                string_views(unexpected@).contains(t) <==> (keys.take(ki as int).contains(t)
                    && !category_ids().contains(t)),
        decreases sc.category_scores@.len() - ki,
    {
        let key = &sc.category_scores[ki].0;
        proof {
            assert(keys[ki as int] == key@);
            assert(keys.take(ki + 1) =~= keys.take(ki as int).push(keys[ki as int]));
        }
        let ghost before = string_views(unexpected@);
        let unknown = category(key.as_str()).is_none();
        if unknown {
            unexpected.push(key.clone());
        }
        proof {
            assert forall|t: Seq<char>|
                #![trigger string_views(unexpected@).contains(t)]
                string_views(unexpected@).contains(t) <==> (keys.take(ki + 1).contains(t)
                    && !category_ids().contains(t)) by {
                assert(before.contains(t) <==> (keys.take(ki as int).contains(t)
                    && !category_ids().contains(t)));
                vstd::seq_lib::lemma_seq_contains_after_push(keys.take(ki as int), keys[ki as int], t);
                if unknown {
                    assert(string_views(unexpected@) =~= before.push(keys[ki as int]));
                    vstd::seq_lib::lemma_seq_contains_after_push(before, keys[ki as int], t);
                } else {
                    assert(string_views(unexpected@) =~= before);
                }
            }
        }
        ki = ki + 1;
    }
    proof {
        assert(keys.take(keys.len() as int) =~= keys);
    }
    unexpected
}

/// Index of the first category score out of the 0-100 range.
fn first_out_of_range(sc: &AfdocsScoring) -> (r: Option<usize>)
    ensures
        match r {
            Some(i) => first_index(sc.category_scores@, out_of_range_pred()) == Some(i as int),
            None => first_index(sc.category_scores@, out_of_range_pred()) is None,
        },
        r matches Some(i) ==> i < sc.category_scores@.len() && out_of_range(
            sc.category_scores@[i as int],
        ),
{
    let mut i: usize = 0;
    while i < sc.category_scores.len()
        invariant
            i <= sc.category_scores@.len(),
            forall|j: int| 0 <= j < i ==> !out_of_range_pred()(#[trigger] sc.category_scores@[j]),
        decreases sc.category_scores@.len() - i,
    {
        if let Some(score) = &sc.category_scores[i].1.score {
            if !score.in_range {
                proof {
                    assert(out_of_range_pred()(sc.category_scores@[i as int]));
                    lemma_first_index_at(sc.category_scores@, out_of_range_pred(), i as int);
                }
                return Some(i);
            }
        }
        assert(!out_of_range_pred()(sc.category_scores@[i as int]));
        i = i + 1;
    }
    proof {
        lemma_first_index_none(sc.category_scores@, out_of_range_pred());
    }
    None
}

/// The violation for the first result with an unknown status or category.
fn result_violation_of(results: &Vec<AfdocsResult>) -> (r: Option<AfdocsViolation>)
    ensures
        r is None <==> first_index(results@, bad_result_pred()) is None,
        r matches Some(v) ==> result_violation(results@, v.model()),
{
    let mut i: usize = 0;
    while i < results.len()
        invariant
            i <= results@.len(),
            forall|j: int| 0 <= j < i ==> !bad_result_pred()(#[trigger] results@[j]),
        decreases results@.len() - i,
    {
        let r = &results[i];
        let known_status = status_known(r.status.as_str());
        let known_category = category(r.category.as_str()).is_some();
        if !known_status || !known_category {
            proof {
                assert(bad_result_pred()(results@[i as int]));
                lemma_first_index_at(results@, bad_result_pred(), i as int);
            }
            if !known_status {
                return Some(
                    AfdocsViolation::UnknownStatus { status: r.status.clone(), check: r.id.clone() },
                );
            }
            return Some(
                AfdocsViolation::UnknownCategory {
                    category: r.category.clone(),
                    check: r.id.clone(),
                },
            );
        }
        assert(!bad_result_pred()(results@[i as int]));
        i = i + 1;
    }
    proof {
        lemma_first_index_none(results@, bad_result_pred());
    }
    None
}

/// The violation for the first expected check, in table order, that is
/// missing, repeated or in the wrong category.
fn check_violation_of(results: &Vec<AfdocsResult>) -> (r: Option<AfdocsViolation>)
    ensures
        r is None <==> first_index(expected_checks(), failing_check_pred(results@)) is None,
        r matches Some(v) ==> check_violation(results@, v.model()),
{
    let expected = expected_check_list();
    let ghost exp = expected_checks();
    proof {
        assert(expected@.map_values(|p: (&'static str, &'static str)| (p.0@, p.1@)).len()
            == expected@.len());
    }
    let mut k: usize = 0;
    while k < expected.len()
        invariant
            k <= expected@.len() == exp.len(),
            exp == expected_checks(),
            expected@.map_values(|p: (&'static str, &'static str)| (p.0@, p.1@)) == exp,
            forall|j: int| 0 <= j < k ==> !failing_check_pred(results@)(#[trigger] exp[j]),
        decreases expected@.len() - k,
    {
        let (check_id, cat_id) = expected[k];
        proof {
            assert(exp[k as int] == (check_id@, cat_id@));
        }
        let (count, found) = occurrence_info(results, check_id);
        let found = match found {
            Some(f) => f,
            None => String::new(),
        };
        let in_category = text::eq_str(found.as_str(), cat_id);
        if count != 1 || !in_category {
            proof {
                assert(failing_check_pred(results@)(exp[k as int]));
                lemma_first_index_at(exp, failing_check_pred(results@), k as int);
            }
            if count == 0 {
                return Some(AfdocsViolation::CheckMissing { check: text::to_owned_string(check_id) });
            }
            if count > 1 {
                return Some(
                    AfdocsViolation::DuplicateCheck { check: text::to_owned_string(check_id) },
                );
            }
            return Some(
                AfdocsViolation::WrongCategory {
                    check: text::to_owned_string(check_id),
                    found,
                    expected: text::to_owned_string(cat_id),
                },
            );
        }
        assert(!failing_check_pred(results@)(exp[k as int]));
        k = k + 1;
    }
    proof {
        lemma_first_index_none(exp, failing_check_pred(results@));
    }
    None
}

/// Number of results reported for the check provided, and the category of
/// the first of them.
fn occurrence_info(results: &Vec<AfdocsResult>, id: &str) -> (r: (usize, Option<String>))
    ensures
        r.0 == occurrences(results@, id@).len(),
        r.0 > 0 ==> (r.1 matches Some(c) && c@ == occurrences(results@, id@)[0].category@),
{
    let mut count: usize = 0;
    let mut first: Option<String> = None;
    let mut i: usize = 0;
    while i < results.len()
        invariant
            i <= results@.len(),
            count <= i,
            count == occurrences(results@.take(i as int), id@).len(),
            count > 0 ==> (first matches Some(c) && c@ == occurrences(
                results@.take(i as int),
                id@,
            )[0].category@),
        decreases results@.len() - i,
    {
        proof {
            reveal_with_fuel(Seq::<_>::filter, 1);
            assert(results@.take(i + 1).drop_last() =~= results@.take(i as int));
        }
        if text::eq_str(results[i].id.as_str(), id) {
            if count == 0 {
                first = Some(results[i].category.clone());
            }
            count = count + 1;
        }
        i = i + 1;
    }
    proof {
        assert(results@.take(results@.len() as int) =~= results@);
    }
    (count, first)
}

/// Every expected check with its category, in table order.
fn expected_check_list() -> (r: Vec<(&'static str, &'static str)>)
    ensures
        r@.map_values(|p: (&'static str, &'static str)| (p.0@, p.1@)) == expected_checks(),
{
    let cats = categories();
    let ghost table = category_table();
    let mut r: Vec<(&'static str, &'static str)> = Vec::new();
    let mut ci: usize = 0;
    proof {
        assert(cats@.map_values(|c: AfdocsCategory| c.model()).len() == cats@.len());
    }
    while ci < cats.len()
        invariant
            ci <= cats@.len() == table.len(),
            table == category_table(),
            cats@.map_values(|c: AfdocsCategory| c.model()) == table,
            r@.map_values(|p: (&'static str, &'static str)| (p.0@, p.1@)) == checks_of(
                table.take(ci as int),
            ),
        decreases cats@.len() - ci,
    {
        let c = &cats[ci];
        let ghost base = checks_of(table.take(ci as int));
        proof {
            assert(table[ci as int] == c.model());
        }
        let mut j: usize = 0;
        while j < c.checks.len()
            invariant
                j <= c.checks@.len(),
                r@.map_values(|p: (&'static str, &'static str)| (p.0@, p.1@)) == base + views(
                    c.checks@,
                ).take(j as int).map_values(|k: Seq<char>| (k, c.id@)),
            decreases c.checks@.len() - j,
        {
            let ghost prev = r@;
            r.push((c.checks[j], c.id));
            proof {
                assert(r@.map_values(|p: (&'static str, &'static str)| (p.0@, p.1@)) =~= prev.map_values(
                    |p: (&'static str, &'static str)| (p.0@, p.1@),
                ).push((c.checks@[j as int]@, c.id@)));
                assert(views(c.checks@).take(j + 1).map_values(|k: Seq<char>| (k, c.id@))
                    =~= views(c.checks@).take(j as int).map_values(|k: Seq<char>| (k, c.id@)).push(
                    (c.checks@[j as int]@, c.id@),
                ));
            }
            j = j + 1;
        }
        proof {
            assert(table.take(ci + 1).drop_last() =~= table.take(ci as int));
            assert(table.take(ci + 1).last() == c.model());
            assert(views(c.checks@).take(c.checks@.len() as int) =~= views(c.checks@));
        }
        ci = ci + 1;
    }
    proof {
        assert(table.take(table.len() as int) =~= table);
    }
    r
}

impl AfdocsReport {
    /// Validate the report against the expected AFDocs contract.
    #[verifier::rlimit(40)]
    pub fn validate(&self) -> (r: Result<(), AfdocsViolation>)
        ensures
            r is Ok <==> conforms(*self),
            r matches Err(e) ==> reported(*self, e.model()),
    {
        // Scoring must be present and include exactly the known categories
        let sc = match &self.scoring {
            Some(sc) => sc,
            None => return Err(AfdocsViolation::ScoringMissing),
        };
        let ghost keys = score_keys(*sc);
        let missing = missing_categories(sc);
        let unexpected = unexpected_categories(sc);
        if missing.len() > 0 || unexpected.len() > 0 {
            proof {
                if missing.len() > 0 {
                    let t = string_views(missing@)[0];
                    assert(string_views(missing@).contains(t));
                    let i = choose|i: int| 0 <= i < category_ids().len() && category_ids()[i] == t;
                    assert(!keys.contains(category_ids()[i]));
                }
                if unexpected.len() > 0 {
                    let t = string_views(unexpected@)[0];
                    assert(string_views(unexpected@).contains(t));
                    let i = choose|i: int| 0 <= i < keys.len() && keys[i] == t;
                    assert(!category_ids().contains(keys[i]));
                }
            }
            let missing = text::sorted_distinct(missing);
            let unexpected = text::sorted_distinct(unexpected);
            return Err(AfdocsViolation::UnexpectedCategoryScores { missing, unexpected });
        }
        proof {
            assert forall|i: int| 0 <= i < category_ids().len() implies keys.contains(
                #[trigger] category_ids()[i],
            ) by {
                assert(!string_views(missing@).contains(category_ids()[i]));
                assert(category_ids().contains(category_ids()[i]));
            }
            assert forall|i: int| 0 <= i < keys.len() implies category_ids().contains(
                #[trigger] keys[i],
            ) by {
                assert(!string_views(unexpected@).contains(keys[i]));
                assert(keys.contains(keys[i]));
            }
        }
        // Category scores must be in range
        if let Some(i) = first_out_of_range(sc) {
            let p = &sc.category_scores[i];
            let score = match &p.1.score {
                Some(s) => s.display.clone(),
                None => String::new(),
            };
            return Err(AfdocsViolation::ScoreOutOfRange { category: p.0.clone(), score });
        }
        // Results must use known statuses and categories
        if let Some(v) = result_violation_of(&self.results) {
            return Err(v);
        }
        // Every expected check must be present exactly once in its category
        match check_violation_of(&self.results) {
            Some(v) => Err(v),
            None => Ok(()),
        }
    }
}

/// Where the website AFDocs analyses was found.
#[derive(Debug, Clone, Copy, PartialEq, Eq, Structural)]
pub enum AfdocsTargetSource {
    /// The `agentReadiness.url` entry of the CLOMonitor metadata file.
    Metadata,
    /// The repository homepage configured in GitHub.
    GithubHomepage,
}

/// Website AFDocs analyses.
#[derive(Debug, Clone, PartialEq)]
pub struct AfdocsTarget {
    pub source: AfdocsTargetSource,
    pub url: String,
}

/// The url provided, trimmed, unless it is blank.
pub open spec fn non_blank(url: Option<String>) -> Option<Seq<char>> {
    match url {
        Some(u) => if trim(u@).len() > 0 {
            Some(trim(u@))
        } else {
            None
        },
        None => None,
    }
}

/// The `agentReadiness.url` entry of the metadata provided.
pub open spec fn agent_readiness_url(cm_md: Option<Metadata>) -> Option<String> {
    match cm_md {
        Some(md) => match md.agent_readiness {
            Some(ar) => ar.url,
            None => None,
        },
        None => None,
    }
}

/// Website AFDocs should analyse: the metadata override when set and not
/// blank, else the repository homepage when not blank.
pub open spec fn target_of(cm_md: Option<Metadata>, gh_md: MdRepository) -> Option<
    (AfdocsTargetSource, Seq<char>),
> {
    match non_blank(agent_readiness_url(cm_md)) {
        Some(u) => Some((AfdocsTargetSource::Metadata, u)),
        None => match non_blank(gh_md.homepage_url) {
            Some(u) => Some((AfdocsTargetSource::GithubHomepage, u)),
            None => None,
        },
    }
}

/// The url provided, trimmed, unless it is blank.
fn non_blank_url(url: &Option<String>) -> (r: Option<String>)
    ensures
        opt_view(r) == non_blank(*url),
{
    match url {
        Some(u) => {
            let t = text::trim_str(u.as_str());
            if t.as_str().is_empty() {
                None
            } else {
                Some(t)
            }
        },
        None => None,
    }
}

/// Resolve the website AFDocs should analyse: the `agentReadiness.url`
/// override in the CLOMonitor metadata file or the repository homepage url in
/// GitHub.
pub fn afdocs_target(cm_md: Option<&Metadata>, gh_md: &MdRepository) -> (r: Option<AfdocsTarget>)
    ensures
        match r {
            Some(t) => target_of(
                match cm_md {
                    Some(md) => Some(*md),
                    None => None,
                },
                *gh_md,
            ) == Some((t.source, t.url@)),
            None => target_of(
                match cm_md {
                    Some(md) => Some(*md),
                    None => None,
                },
                *gh_md,
            ) is None,
        },
{
    // Prefer the metadata override when set
    if let Some(md) = cm_md {
        if let Some(ar) = &md.agent_readiness {
            if let Some(url) = non_blank_url(&ar.url) {
                return Some(AfdocsTarget { source: AfdocsTargetSource::Metadata, url });
            }
        }
    }
    // Fall back to the repository homepage configured in GitHub
    match non_blank_url(&gh_md.homepage_url) {
        Some(url) => Some(AfdocsTarget { source: AfdocsTargetSource::GithubHomepage, url }),
        None => None,
    }
}

/// AFDocs category the check provided is backed by, if any.
pub open spec fn afdocs_category_of(check_id: Seq<char>) -> Option<Seq<char>> {
    match check_index(check_id) {
        Some(k) => match check_table()[k].3 {
            Some(DatasourceModel::Afdocs(category)) => Some(category),
            _ => None,
        },
        None => None,
    }
}

/// The check is backed by a known AFDocs category.
pub open spec fn afdocs_backed(check_id: Seq<char>) -> bool {
    afdocs_category_of(check_id) matches Some(c) && category_ids().contains(c)
}

/// Score reported for a category when there was not enough data.
pub open spec fn no_score() -> AfdocsCategoryScore {
    AfdocsCategoryScore { score: None, grade: None }
}

/// Scores with the category key provided.
pub open spec fn keyed(id: Seq<char>) -> spec_fn((String, AfdocsCategoryScore)) -> bool {
    |p: (String, AfdocsCategoryScore)| p.0@ == id
}

/// Score the report gives the category provided (none when it gives none).
pub open spec fn score_of(rep: AfdocsReport, id: Seq<char>) -> AfdocsCategoryScore {
    match rep.scoring {
        Some(sc) => match first_index(sc.category_scores@, keyed(id)) {
            Some(i) => sc.category_scores@[i].1,
            None => no_score(),
        },
        None => no_score(),
    }
}

/// Copy of the category score provided.
fn copy_score(s: &AfdocsCategoryScore) -> (r: AfdocsCategoryScore)
    ensures
        r == *s,
{
    AfdocsCategoryScore {
        score: match &s.score {
            Some(v) => Some(
                AfdocsScore {
                    rounded: v.rounded,
                    in_range: v.in_range,
                    passes: v.passes,
                    display: v.display.clone(),
                },
            ),
            None => None,
        },
        grade: match &s.grade {
            Some(g) => Some(g.clone()),
            None => None,
        },
    }
}

/// Score the report gives the category provided.
fn category_score(rep: &AfdocsReport, id: &str) -> (r: AfdocsCategoryScore)
    ensures
        r == score_of(*rep, id@),
{
    let sc = match &rep.scoring {
        Some(sc) => sc,
        None => return AfdocsCategoryScore { score: None, grade: None },
    };
    let mut i: usize = 0;
    while i < sc.category_scores.len()
        invariant
            i <= sc.category_scores@.len(),
            rep.scoring == Some(*sc),
            forall|j: int| 0 <= j < i ==> !keyed(id@)(#[trigger] sc.category_scores@[j]),
        decreases sc.category_scores@.len() - i,
    {
        if text::eq_str(sc.category_scores[i].0.as_str(), id) {
            proof {
                assert(keyed(id@)(sc.category_scores@[i as int]));
                lemma_first_index_at(sc.category_scores@, keyed(id@), i as int);
            }
            return copy_score(&sc.category_scores[i].1);
        }
        assert(!keyed(id@)(sc.category_scores@[i as int]));
        i = i + 1;
    }
    proof {
        lemma_first_index_none(sc.category_scores@, keyed(id@));
    }
    AfdocsCategoryScore { score: None, grade: None }
}

/// AFDocs category result for a check.
pub enum AfdocsCategoryResult<'a> {
    /// No website url is available for the repository.
    NoTarget,
    /// The AFDocs report could not be obtained (with the error met).
    Failed(&'a String),
    /// The category results in a valid AFDocs report.
    Available { report: &'a AfdocsReport, category: AfdocsCategory, score: AfdocsCategoryScore },
}

/// Return the AFDocs category identifier the check provided is backed by.
fn check_category(check_id: &str) -> (r: &'static str)
    requires
        afdocs_category_of(check_id@) is Some,
    ensures
        Some(r@) == afdocs_category_of(check_id@),
{
    match check_config(check_id) {
        Some(c) => match c.datasource {
            Some(Datasource::Afdocs { category }) => category,
            _ => {
                assert(false);
                ""
            },
        },
        None => {
            assert(false);
            ""
        },
    }
}

/// Get the AFDocs category result backing the check provided, from the
/// report obtained (none when there was no website to analyse).
pub fn get_category<'a>(afdocs: Option<&'a Result<AfdocsReport, String>>, check_id: &str) -> (r:
    AfdocsCategoryResult<'a>)
    requires
        afdocs_backed(check_id@),
    ensures
        match afdocs {
            None => r is NoTarget,
            Some(Err(e)) => r matches AfdocsCategoryResult::Failed(x) && *x == *e,
            Some(Ok(rep)) => r matches AfdocsCategoryResult::Available { report, category, score }
                && *report == *rep && category.model().0 == afdocs_category_of(check_id@)->0
                && category_table().contains(category.model()) && score == score_of(
                *rep,
                category.model().0,
            ),
        },
{
    let category_id = check_category(check_id);
    let category = match category(category_id) {
        Some(c) => c,
        None => {
            assert(false);
            return AfdocsCategoryResult::NoTarget;
        },
    };
    proof {
        let i = choose|i: int|
            0 <= i < category_table().len() && category_table()[i] == category.model()
                && category_table()[i].0 == category_id@;
        assert(category_table()[i] == category.model());
    }
    match afdocs {
        None => AfdocsCategoryResult::NoTarget,
        Some(Err(err)) => AfdocsCategoryResult::Failed(err),
        Some(Ok(report)) => {
            let score = category_score(report, category.id);
            AfdocsCategoryResult::Available { report, category, score }
        },
    }
}

/// Upstream text made safe for the details markdown: white space collapsed
/// and markdown special characters escaped.
pub open spec fn md_text(s: Seq<char>) -> Seq<char> {
    escape(collapse(s))
}

/// Identifier made safe to render inside inline code.
pub open spec fn code_text(s: Seq<char>) -> Seq<char> {
    s.filter(kept_in_code())
}

/// The text held, or the default provided.
pub open spec fn text_or(o: Option<String>, default: Seq<char>) -> Seq<char> {
    match o {
        Some(s) => s@,
        None => default,
    }
}

/// Results of the category provided.
pub open spec fn in_category(results: Seq<AfdocsResult>, id: Seq<char>) -> Seq<AfdocsResult> {
    results.filter(|r: AfdocsResult| r.category@ == id)
}

/// Results with the `error` status.
pub open spec fn errored(results: Seq<AfdocsResult>) -> Seq<AfdocsResult> {
    results.filter(|r: AfdocsResult| r.status@ == "error"@)
}

/// Details text used when no website url could be found for the repository.
pub open spec fn no_target_details() -> Seq<char> {
    "# Agent readiness\n\nNo website URL found for this repository, so the AFDocs analysis could not be run.\n\nSet the repository homepage in GitHub or add an `agentReadiness.url` entry to the `.clomonitor.yml` metadata file (see <https://clomonitor.io/docs/topics/checks/#agent-readiness>) to point at the documentation site that should be analysed."@
}

/// Score section of the details.
pub open spec fn score_section(score: AfdocsCategoryScore) -> Seq<char> {
    match score.score {
        Some(v) => "**Score**: "@ + decimal(v.rounded as nat) + "/100"@ + match score.grade {
            Some(g) => " ("@ + md_text(g@) + ")"@,
            None => Seq::empty(),
        } + " (check passes with score >= 70)\n\n"@,
        None => "**Score**: n/a (insufficient data: fewer than 5 pages were discovered, so the checks in this category were not applicable and the check does not pass)\n\n"@,
    }
}

/// Warning section of the details, about the checks that errored.
pub open spec fn warning_section(errors: nat) -> Seq<char> {
    if errors > 0 {
        "**Warning**: "@ + decimal(errors)
            + " check(s) errored during collection and were excluded from the category score (see below).\n\n"@
    } else {
        Seq::empty()
    }
}

/// Line of the details describing a check result.
pub open spec fn check_line(r: AfdocsResult) -> Seq<char> {
    "- `"@ + uppercase(r.status@) + "` `"@ + code_text(r.id@) + "`: "@ + md_text(r.message@) + "\n"@
}

/// Lines describing the check results provided, in order.
pub open spec fn check_lines(results: Seq<AfdocsResult>) -> Seq<char>
    decreases results.len(),
{
    if results.len() == 0 {
        Seq::empty()
    } else {
        check_lines(results.drop_last()) + check_line(results.last())
    }
}

/// Resolutions for the check provided.
pub open spec fn resolves(id: Seq<char>) -> spec_fn((String, String)) -> bool {
    |p: (String, String)| p.0@ == id
}

/// Suggested fix for the check provided, if any.
pub open spec fn resolution_of(resolutions: Seq<(String, String)>, id: Seq<char>) -> Option<
    Seq<char>,
> {
    match first_index(resolutions, resolves(id)) {
        Some(i) => Some(resolutions[i].1@),
        None => None,
    }
}

/// Results that have a suggested fix.
pub open spec fn has_fix(resolutions: Seq<(String, String)>) -> spec_fn(AfdocsResult) -> bool {
    |r: AfdocsResult| resolution_of(resolutions, r.id@) is Some
}

/// Identifiers of the results that have a suggested fix, in order.
pub open spec fn fix_ids(results: Seq<AfdocsResult>, resolutions: Seq<(String, String)>) -> Seq<
    Seq<char>,
> {
    results.filter(has_fix(resolutions)).map_values(|r: AfdocsResult| r.id@)
}

/// Line describing the suggested fix of a check.
pub open spec fn fix_line(id: Seq<char>, resolutions: Seq<(String, String)>) -> Seq<char> {
    "- `"@ + code_text(id) + "`: "@ + md_text(resolution_of(resolutions, id)->0) + "\n"@
}

/// Lines describing the suggested fixes of the checks provided, in order.
pub open spec fn fix_lines(ids: Seq<Seq<char>>, resolutions: Seq<(String, String)>) -> Seq<char>
    decreases ids.len(),
{
    if ids.len() == 0 {
        Seq::empty()
    } else {
        fix_lines(ids.drop_last(), resolutions) + fix_line(ids.last(), resolutions)
    }
}

/// Suggested fixes section of the details: the fixes of the results
/// provided, sorted by check identifier.
pub open spec fn fixes_section(scoring: Option<AfdocsScoring>, results: Seq<AfdocsResult>) -> Seq<
    char,
> {
    match scoring {
        Some(sc) => {
            let ids = fix_ids(results, sc.resolutions@).sort_by(text_leq());
            if ids.len() > 0 {
                "**Suggested fixes**:\n\n"@ + fix_lines(ids, sc.resolutions@) + "\n"@
            } else {
                Seq::empty()
            }
        },
        None => Seq::empty(),
    }
}

/// Run information section of the details.
pub open spec fn run_section(rep: AfdocsReport) -> Seq<char> {
    "**Run**: AFDocs "@ + md_text(text_or(rep.afdocs_version, "unknown version"@)) + ", "@
        + transport_label(rep.transport) + ", "@ + md_text(
        text_or(rep.sampling_strategy, "deterministic"@),
    ) + " sampling, max 20 pages, "@ + match rep.tested_pages {
        Some(p) => decimal(p as nat),
        None => "n/a"@,
    } + " pages tested, "@ + md_text(rep.timestamp@) + ", target "@ + md_text(rep.url@) + "\n\n"@
}

/// Markdown details of a category result.
pub open spec fn details_text(rep: AfdocsReport, cat: CategoryModel, score: AfdocsCategoryScore) -> Seq<
    char,
> {
    let results = in_category(rep.results@, cat.0);
    "# "@ + cat.1 + " AFDocs category\n\n"@ + score_section(score) + warning_section(
        errored(results).len(),
    ) + "**Checks**:\n\n"@ + check_lines(results) + "\n"@ + fixes_section(rep.scoring, results)
        + run_section(rep) + "**Please see the [category documentation]("@
        + "https://afdocs.dev/checks/"@ + cat.0 + ") in afdocs.dev for more details**"@
}

/// Build the score section of the details.
fn score_section_text(score: &AfdocsCategoryScore) -> (r: String)
    ensures
        r@ == score_section(*score),
{
    match &score.score {
        Some(v) => {
            let mut r = text::to_owned_string("**Score**: ");
            text::push_decimal(&mut r, v.rounded);
            text::push_str(&mut r, "/100");
            let grade = match &score.grade {
                Some(g) => {
                    let mut part = text::to_owned_string(" (");
                    let escaped = text::escape_md(g.as_str());
                    text::push_str(&mut part, escaped.as_str());
                    text::push_str(&mut part, ")");
                    part
                },
                None => String::new(),
            };
            text::push_str(&mut r, grade.as_str());
            text::push_str(&mut r, " (check passes with score >= 70)\n\n");
            r
        },
        None => text::to_owned_string(
            "**Score**: n/a (insufficient data: fewer than 5 pages were discovered, so the checks in this category were not applicable and the check does not pass)\n\n",
        ),
    }
}

/// Build the line describing a check result.
fn check_line_text(r: &AfdocsResult) -> (s: String)
    ensures
        s@ == check_line(*r),
{
    let mut s = text::to_owned_string("- `");
    let status = text::to_uppercase(r.status.as_str());
    text::push_str(&mut s, status.as_str());
    text::push_str(&mut s, "` `");
    let id = text::code(r.id.as_str());
    text::push_str(&mut s, id.as_str());
    text::push_str(&mut s, "`: ");
    let message = text::escape_md(r.message.as_str());
    text::push_str(&mut s, message.as_str());
    text::push_str(&mut s, "\n");
    s
}

/// Suggested fix for the check provided, if any.
fn find_resolution<'a>(resolutions: &'a Vec<(String, String)>, id: &str) -> (r: Option<&'a String>)
    ensures
        match r {
            Some(f) => resolution_of(resolutions@, id@) == Some(f@),
            None => resolution_of(resolutions@, id@) is None,
        },
{
    let mut i: usize = 0;
    while i < resolutions.len()
        invariant
            i <= resolutions@.len(),
            forall|j: int| 0 <= j < i ==> !resolves(id@)(#[trigger] resolutions@[j]),
        decreases resolutions@.len() - i,
    {
        if text::eq_str(resolutions[i].0.as_str(), id) {
            proof {
                assert(resolves(id@)(resolutions@[i as int]));
                lemma_first_index_at(resolutions@, resolves(id@), i as int);
            }
            return Some(&resolutions[i].1);
        }
        assert(!resolves(id@)(resolutions@[i as int]));
        i = i + 1;
    }
    proof {
        lemma_first_index_none(resolutions@, resolves(id@));
    }
    None
}

/// The check lines, the number of checks that errored and the identifiers
/// of the checks with a suggested fix, over the results of a category.
fn results_summary(
    results: &Vec<AfdocsResult>,
    id: &str,
    resolutions: Option<&Vec<(String, String)>>,
) -> (r: (String, u64, Vec<String>))
    requires
        results@.len() < u64::MAX,
    ensures
        r.0@ == check_lines(in_category(results@, id@)),
        r.1 == errored(in_category(results@, id@)).len(),
        resolutions matches Some(res) ==> string_views(r.2@) == fix_ids(
            in_category(results@, id@),
            res@,
        ),
{
    let mut lines = String::new();
    let mut errors: u64 = 0;
    let mut ids: Vec<String> = Vec::new();
    let mut i: usize = 0;
    while i < results.len()
        invariant
            i <= results@.len() < u64::MAX,
            errors <= i,
            lines@ == check_lines(in_category(results@.take(i as int), id@)),
            errors == errored(in_category(results@.take(i as int), id@)).len(),
            resolutions matches Some(res) ==> string_views(ids@) == fix_ids(
                in_category(results@.take(i as int), id@),
                res@,
            ),
        decreases results@.len() - i,
    {
        let r = &results[i];
        let ghost prev = in_category(results@.take(i as int), id@);
        proof {
            reveal_with_fuel(Seq::<_>::filter, 1);
            assert(results@.take(i + 1).drop_last() =~= results@.take(i as int));
        }
        if text::eq_str(r.category.as_str(), id) {
            proof {
                assert(in_category(results@.take(i + 1), id@) =~= prev.push(*r));
                assert(prev.push(*r).drop_last() =~= prev);
            }
            let line = check_line_text(r);
            text::push_str(&mut lines, line.as_str());
            if text::eq_str(r.status.as_str(), "error") {
                errors = errors + 1;
            }
            if let Some(res) = resolutions {
                let ghost before = string_views(ids@);
                if find_resolution(res, r.id.as_str()).is_some() {
                    ids.push(r.id.clone());
                    proof {
                        assert(string_views(ids@) =~= before.push(r.id@));
                    }
                }
            }
        } else {
            proof {
                assert(in_category(results@.take(i + 1), id@) =~= prev);
            }
        }
        i = i + 1;
    }
    proof {
        assert(results@.take(results@.len() as int) =~= results@);
    }
    (lines, errors, ids)
}

/// Build the lines describing the suggested fixes of the checks provided.
#[verifier::rlimit(40)]
fn fix_lines_text(ids: &Vec<String>, resolutions: &Vec<(String, String)>) -> (r: String)
    requires
        forall|k: int|
            0 <= k < ids@.len() ==> resolution_of(resolutions@, #[trigger] string_views(ids@)[k])
                is Some,
    ensures
        r@ == fix_lines(string_views(ids@), resolutions@),
{
    let ghost sv = string_views(ids@);
    let mut r = String::new();
    let mut i: usize = 0;
    while i < ids.len()
        invariant
            i <= ids@.len() == sv.len(),
            sv == string_views(ids@),
            forall|k: int| 0 <= k < sv.len() ==> resolution_of(resolutions@, #[trigger] sv[k]) is Some,
            r@ == fix_lines(sv.take(i as int), resolutions@),
        decreases ids@.len() - i,
    {
        let id = &ids[i];
        proof {
            assert(sv[i as int] == id@);
            assert(sv.take(i + 1).drop_last() =~= sv.take(i as int));
            assert(resolution_of(resolutions@, sv[i as int]) is Some);
        }
        let fix = match find_resolution(resolutions, id.as_str()) {
            Some(f) => f,
            None => {
                assert(false);
                return r;
            },
        };
        let mut line = text::to_owned_string("- `");
        let code = text::code(id.as_str());
        text::push_str(&mut line, code.as_str());
        text::push_str(&mut line, "`: ");
        let escaped = text::escape_md(fix.as_str());
        text::push_str(&mut line, escaped.as_str());
        text::push_str(&mut line, "\n");
        text::push_str(&mut r, line.as_str());
        i = i + 1;
    }
    proof {
        assert(sv.take(sv.len() as int) =~= sv);
    }
    r
}

/// Build the suggested fixes section from the identifiers of the checks
/// with a fix.
fn fixes_section_text(ids: Vec<String>, resolutions: &Vec<(String, String)>) -> (r: String)
    requires
        forall|k: int|
            0 <= k < ids@.len() ==> resolution_of(resolutions@, #[trigger] string_views(ids@)[k])
                is Some,
    ensures
        r@ == ({
            let sorted = string_views(ids@).sort_by(text_leq());
            if sorted.len() > 0 {
                "**Suggested fixes**:\n\n"@ + fix_lines(sorted, resolutions@) + "\n"@
            } else {
                Seq::<char>::empty()
            }
        }),
{
    let ghost unsorted = string_views(ids@);
    let sorted = text::sort_strings(ids);
    let ghost sv = string_views(sorted@);
    proof {
        text::lemma_text_leq_total_ordering();
        unsorted.lemma_sort_by_ensures(text_leq());
        assert forall|k: int| 0 <= k < sv.len() implies resolution_of(resolutions@, #[trigger] sv[k])
            is Some by {
            assert(sv.to_multiset().count(sv[k]) > 0) by {
                sv.to_multiset_ensures();
                assert(sv.contains(sv[k]));
            }
            unsorted.to_multiset_ensures();
            assert(unsorted.contains(sv[k]));
            let j = choose|j: int| 0 <= j < unsorted.len() && unsorted[j] == sv[k];
            assert(resolution_of(resolutions@, unsorted[j]) is Some);
        }
    }
    if sorted.len() == 0 {
        return String::new();
    }
    let mut r = text::to_owned_string("**Suggested fixes**:\n\n");
    let lines = fix_lines_text(&sorted, resolutions);
    text::push_str(&mut r, lines.as_str());
    text::push_str(&mut r, "\n");
    r
}

/// The text held, escaped, or the default provided.
fn escaped_or(o: &Option<String>, default: &str) -> (r: String)
    ensures
        r@ == md_text(text_or(*o, default@)),
{
    match o {
        Some(s) => text::escape_md(s.as_str()),
        None => text::escape_md(default),
    }
}

/// Build the run information section of the details.
fn run_section_text(rep: &AfdocsReport) -> (r: String)
    ensures
        r@ == run_section(*rep),
{
    let mut r = text::to_owned_string("**Run**: AFDocs ");
    let version = escaped_or(&rep.afdocs_version, "unknown version");
    text::push_str(&mut r, version.as_str());
    text::push_str(&mut r, ", ");
    text::push_str(&mut r, rep.transport.label());
    text::push_str(&mut r, ", ");
    let sampling = escaped_or(&rep.sampling_strategy, "deterministic");
    text::push_str(&mut r, sampling.as_str());
    text::push_str(&mut r, " sampling, max 20 pages, ");
    let tested = match rep.tested_pages {
        Some(p) => {
            let mut t = String::new();
            text::push_decimal(&mut t, p);
            t
        },
        None => text::to_owned_string("n/a"),
    };
    text::push_str(&mut r, tested.as_str());
    text::push_str(&mut r, " pages tested, ");
    let timestamp = text::escape_md(rep.timestamp.as_str());
    text::push_str(&mut r, timestamp.as_str());
    text::push_str(&mut r, ", target ");
    let url = text::escape_md(rep.url.as_str());
    text::push_str(&mut r, url.as_str());
    text::push_str(&mut r, "\n\n");
    r
}

/// Build the markdown details for a category result.
pub fn details(report: &AfdocsReport, category: &AfdocsCategory, score: &AfdocsCategoryScore) -> (r:
    String)
    requires
        report.results@.len() < u64::MAX,
    ensures
        r@ == details_text(*report, category.model(), *score),
{
    let mut md = text::to_owned_string("# ");
    text::push_str(&mut md, category.name);
    text::push_str(&mut md, " AFDocs category\n\n");

    // Score
    let score_text = score_section_text(score);
    text::push_str(&mut md, score_text.as_str());

    // Errors
    let resolutions = match &report.scoring {
        Some(sc) => Some(&sc.resolutions),
        None => None,
    };
    let (lines, errors, ids) = results_summary(&report.results, category.id, resolutions);
    if errors > 0 {
        text::push_str(&mut md, "**Warning**: ");
        text::push_decimal(&mut md, errors);
        text::push_str(
            &mut md,
            " check(s) errored during collection and were excluded from the category score (see below).\n\n",
        );
    }
    let ghost upto_warning = md@;

    // Checks
    text::push_str(&mut md, "**Checks**:\n\n");
    text::push_str(&mut md, lines.as_str());
    text::push_str(&mut md, "\n");

    // Suggested fixes
    let ghost results = in_category(report.results@, category.id@);
    let fixes = match &report.scoring {
        Some(sc) => {
            proof {
                broadcast use vstd::seq_lib::group_filter_ensures;

                let pred = has_fix(sc.resolutions@);
                assert forall|k: int| 0 <= k < ids@.len() implies resolution_of(
                    sc.resolutions@,
                    #[trigger] string_views(ids@)[k],
                ) is Some by {
                    let f = results.filter(pred);
                    assert(string_views(ids@) == fix_ids(results, sc.resolutions@));
                    assert(string_views(ids@).len() == ids@.len());
                    assert(f.map_values(|r: AfdocsResult| r.id@).len() == f.len());
                    assert(fix_ids(results, sc.resolutions@) == f.map_values(|r: AfdocsResult| r.id@));
                    assert(fix_ids(results, sc.resolutions@)[k] == f[k].id@);
                    assert(pred(f[k]));
                }
            }
            fixes_section_text(ids, &sc.resolutions)
        },
        None => String::new(),
    };
    text::push_str(&mut md, fixes.as_str());

    // Run information
    let run = run_section_text(report);
    text::push_str(&mut md, run.as_str());
    text::push_str(&mut md, "**Please see the [category documentation](");
    let docs = category.docs_url();
    text::push_str(&mut md, docs.as_str());
    text::push_str(&mut md, ") in afdocs.dev for more details**");
    proof {
        assert(upto_warning == "# "@ + category.name@ + " AFDocs category\n\n"@ + score_section(
            *score,
        ) + warning_section(errored(results).len()));
    }
    md
}

/// Output of a check backed by an AFDocs category: not passed with an
/// explanation when there was no website to analyse, failed with the error
/// met getting the report, else passed when the category score reaches the
/// threshold, with the analysed url and the details.
pub open spec fn category_outcome<T>(o: CheckOutput<T>, result: AfdocsCategoryResult) -> bool {
    match result {
        AfdocsCategoryResult::NoTarget => {
            &&& !o.passed && opt_view(o.details) == Some(no_target_details())
            &&& o.url is None && o.value is None && !o.exempt && o.exemption_reason is None
            &&& !o.failed && o.fail_reason is None
        },
        AfdocsCategoryResult::Failed(err) => {
            &&& o.failed && opt_view(o.fail_reason) == Some(err@)
            &&& !o.passed && o.url is None && o.value is None && o.details is None
            &&& !o.exempt && o.exemption_reason is None
        },
        AfdocsCategoryResult::Available { report, category, score } => {
            &&& o.passed == (score.score matches Some(v) && v.passes)
            &&& opt_view(o.url) == Some(report.url@)
            &&& opt_view(o.details) == Some(details_text(*report, category.model(), score))
            &&& o.value is None && !o.exempt && o.exemption_reason is None
            &&& !o.failed && o.fail_reason is None
        },
    }
}

/// Build the check output of a category result.
pub fn check_output<T>(result: AfdocsCategoryResult) -> (r: CheckOutput<T>)
    requires
        result matches AfdocsCategoryResult::Available { report, .. } ==> report.results@.len()
            < u64::MAX,
    ensures
        category_outcome(r, result),
{
    match result {
        AfdocsCategoryResult::NoTarget => CheckOutput::not_passed().details(
            Some(
                text::to_owned_string(
                    "# Agent readiness\n\nNo website URL found for this repository, so the AFDocs analysis could not be run.\n\nSet the repository homepage in GitHub or add an `agentReadiness.url` entry to the `.clomonitor.yml` metadata file (see <https://clomonitor.io/docs/topics/checks/#agent-readiness>) to point at the documentation site that should be analysed.",
                ),
            ),
        ),
        AfdocsCategoryResult::Failed(err) => CheckOutput::failed().fail_reason(Some(err.clone())),
        AfdocsCategoryResult::Available { report, category, score } => {
            let passed = match &score.score {
                Some(v) => v.passes,
                None => false,
            };
            let mut output = CheckOutput::not_passed();
            output.passed = passed;
            output.url = Some(report.url.clone());
            output.details = Some(details(report, &category, &score));
            output
        },
    }
}

/// Debug rendering of a string: quoted, with special characters escaped
/// (`format!("{:?}")` on a `str`).
pub uninterp spec fn debug_text(s: Seq<char>) -> Seq<char>;

/// Calls `format!("{:?}")` on the string provided.
#[verifier::external_body]
fn debug_quoted(s: &str) -> (r: String)
    ensures
        r@ == debug_text(s@),
{
    format!("{s:?}")
}

/// The texts provided joined with commas.
pub open spec fn join_commas(items: Seq<Seq<char>>) -> Seq<char>
    decreases items.len(),
{
    if items.len() == 0 {
        Seq::empty()
    } else if items.len() == 1 {
        items[0]
    } else {
        join_commas(items.drop_last()) + ", "@ + items.last()
    }
}

/// Join the texts provided with commas.
fn join_with_commas(items: &Vec<String>) -> (r: String)
    ensures
        r@ == join_commas(string_views(items@)),
{
    let ghost v = string_views(items@);
    let mut r = String::new();
    let mut i: usize = 0;
    while i < items.len()
        invariant
            i <= items@.len(),
            v == string_views(items@),
            r@ == join_commas(v.take(i as int)),
        decreases items@.len() - i,
    {
        if i > 0 {
            text::push_str(&mut r, ", ");
        }
        text::push_str(&mut r, items[i].as_str());
        proof {
            assert(v.take(i + 1).drop_last() =~= v.take(i as int));
            if i == 0 {
                assert(v.take(1) =~= seq![v[0]]);
            }
        }
        i = i + 1;
    }
    proof {
        assert(v.take(items@.len() as int) =~= v);
    }
    r
}

/// Message describing a contract violation.
pub open spec fn violation_message(v: ViolationModel) -> Seq<char> {
    "AFDocs output contract violation: "@ + match v {
        ViolationModel::InvalidJson(e) => "invalid JSON ("@ + e + ")"@,
        ViolationModel::ScoringMissing => "scoring information missing"@,
        ViolationModel::UnexpectedCategoryScores { missing, unexpected } =>
            "unexpected category scores (missing: ["@ + join_commas(missing) + "], unexpected: ["@
            + join_commas(unexpected) + "])"@,
        ViolationModel::ScoreOutOfRange { category, score } => "category "@ + category + " score "@
            + score + " out of range (0-100)"@,
        ViolationModel::UnknownStatus { status, check } => "unknown status "@ + debug_text(status)
            + " in check "@ + check,
        ViolationModel::UnknownCategory { category, check } => "unknown category "@ + debug_text(
            category,
        ) + " in check "@ + check,
        ViolationModel::CheckMissing { check } => "check "@ + check + " missing"@,
        ViolationModel::WrongCategory { check, found, expected } => "check "@ + check
            + " reported in category "@ + debug_text(found) + " (expected "@ + debug_text(expected)
            + ")"@,
        ViolationModel::DuplicateCheck { check } => "check "@ + check + " reported more than once"@,
    }
}

impl AfdocsViolation {
    /// Message describing the contract violation.
    pub fn message(&self) -> (r: String)
        ensures
            r@ == violation_message(self.model()),
    {
        let detail = match self {
            AfdocsViolation::InvalidJson(e) => {
                let mut d = text::to_owned_string("invalid JSON (");
                text::push_str(&mut d, e.as_str());
                text::push_str(&mut d, ")");
                d
            },
            AfdocsViolation::ScoringMissing => text::to_owned_string("scoring information missing"),
            AfdocsViolation::UnexpectedCategoryScores { missing, unexpected } => {
                let mut d = text::to_owned_string("unexpected category scores (missing: [");
                let m = join_with_commas(missing);
                text::push_str(&mut d, m.as_str());
                text::push_str(&mut d, "], unexpected: [");
                let u = join_with_commas(unexpected);
                text::push_str(&mut d, u.as_str());
                text::push_str(&mut d, "])");
                d
            },
            AfdocsViolation::ScoreOutOfRange { category, score } => {
                let mut d = text::to_owned_string("category ");
                text::push_str(&mut d, category.as_str());
                text::push_str(&mut d, " score ");
                text::push_str(&mut d, score.as_str());
                text::push_str(&mut d, " out of range (0-100)");
                d
            },
            AfdocsViolation::UnknownStatus { status, check } => {
                let mut d = text::to_owned_string("unknown status ");
                let q = debug_quoted(status.as_str());
                text::push_str(&mut d, q.as_str());
                text::push_str(&mut d, " in check ");
                text::push_str(&mut d, check.as_str());
                d
            },
            AfdocsViolation::UnknownCategory { category, check } => {
                let mut d = text::to_owned_string("unknown category ");
                let q = debug_quoted(category.as_str());
                text::push_str(&mut d, q.as_str());
                text::push_str(&mut d, " in check ");
                text::push_str(&mut d, check.as_str());
                d
            },
            AfdocsViolation::CheckMissing { check } => {
                let mut d = text::to_owned_string("check ");
                text::push_str(&mut d, check.as_str());
                text::push_str(&mut d, " missing");
                d
            },
            AfdocsViolation::WrongCategory { check, found, expected } => {
                let mut d = text::to_owned_string("check ");
                text::push_str(&mut d, check.as_str());
                text::push_str(&mut d, " reported in category ");
                let f = debug_quoted(found.as_str());
                text::push_str(&mut d, f.as_str());
                text::push_str(&mut d, " (expected ");
                let e = debug_quoted(expected.as_str());
                text::push_str(&mut d, e.as_str());
                text::push_str(&mut d, ")");
                d
            },
            AfdocsViolation::DuplicateCheck { check } => {
                let mut d = text::to_owned_string("check ");
                text::push_str(&mut d, check.as_str());
                text::push_str(&mut d, " reported more than once");
                d
            },
        };
        let mut r = text::to_owned_string("AFDocs output contract violation: ");
        text::push_str(&mut r, detail.as_str());
        r
    }
}

} // verus!
