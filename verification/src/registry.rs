//! Registry of the checks the linter runs: their weight, the check sets
//! they belong to and the external datasource backing them, if any.

use vstd::prelude::*;

use crate::check::{exemption_for, find_exemption, CheckOutput, Metadata};
use crate::checks::opt_view;
use crate::search::{first_index, lemma_first_index_at, lemma_first_index_none};
use crate::text;

verus! {

/// Set of checks a repository can be linted against.
#[derive(Debug, Clone, Copy, PartialEq, Eq, Hash, Structural)]
pub enum CheckSet {
    Code,
    CodeLite,
    Community,
    Docs,
}

/// External datasource a check relies on.
#[derive(Debug, Clone, Copy, PartialEq, Eq)]
pub enum Datasource {
    /// AFDocs category the check maps to.
    Afdocs { category: &'static str },
    /// OpenSSF Scorecard check name.
    Scorecard { name: &'static str },
}

/// Datasource with the text it holds.
pub enum DatasourceModel {
    Afdocs(Seq<char>),
    Scorecard(Seq<char>),
}

impl Datasource {
    /// The datasource with the text it holds.
    pub open spec fn model(&self) -> DatasourceModel {
        match self {
            Datasource::Afdocs { category } => DatasourceModel::Afdocs(category@),
            Datasource::Scorecard { name } => DatasourceModel::Scorecard(name@),
        }
    }

    /// Return the AFDocs category identifier when this is an AFDocs datasource.
    pub fn afdocs_category(&self) -> (r: Option<&'static str>)
        ensures
            match self {
                Datasource::Afdocs { category } => r == Some(*category),
                Datasource::Scorecard { .. } => r is None,
            },
    {
        match self {
            Datasource::Afdocs { category } => Some(*category),
            Datasource::Scorecard { .. } => None,
        }
    }

    /// Return the scorecard check name when this is a scorecard datasource.
    pub fn scorecard_name(&self) -> (r: Option<&'static str>)
        ensures
            match self {
                Datasource::Scorecard { name } => r == Some(*name),
                Datasource::Afdocs { .. } => r is None,
            },
    {
        match self {
            Datasource::Scorecard { name } => Some(*name),
            Datasource::Afdocs { .. } => None,
        }
    }
}

/// Kind of external datasource.
#[derive(Debug, Clone, Copy, PartialEq, Eq, Structural)]
pub enum DatasourceKind {
    Afdocs,
    Scorecard,
}

/// The datasource is of the kind provided.
pub open spec fn is_kind(ds: Option<DatasourceModel>, kind: DatasourceKind) -> bool {
    match ds {
        Some(DatasourceModel::Afdocs(_)) => kind == DatasourceKind::Afdocs,
        Some(DatasourceModel::Scorecard(_)) => kind == DatasourceKind::Scorecard,
        None => false,
    }
}

/// Check configuration.
#[derive(Debug, Clone)]
pub struct CheckConfig {
    pub id: &'static str,
    pub weight: usize,
    pub check_sets: Vec<CheckSet>,
    pub datasource: Option<Datasource>,
}

/// Identifier, weight, check sets and datasource of a check.
pub type CheckModel = (Seq<char>, nat, Seq<CheckSet>, Option<DatasourceModel>);

impl CheckConfig {
    /// Identifier, weight, check sets and datasource of this check.
    pub open spec fn model(&self) -> CheckModel {
        (
            self.id@,
            self.weight as nat,
            self.check_sets@,
            match self.datasource {
                Some(ds) => Some(ds.model()),
                None => None,
            },
        )
    }
}

/// The checks the linter runs.
pub open spec fn check_table() -> Seq<CheckModel> {
    check_table_a() + check_table_b() + check_table_c() + check_table_d() + check_table_e() + check_table_f()
}

/// Part of the check table.
pub open spec fn check_table_a() -> Seq<CheckModel> {
    seq![
        ("adopters"@, 1, seq![CheckSet::Community], None),
        ("analytics"@, 0, seq![CheckSet::Community], None),
        ("artifacthub_badge"@, 1, seq![CheckSet::Code], None),
        ("authentication"@, 4, seq![CheckSet::Community], Some(DatasourceModel::Afdocs("authentication"@))),
        ("binary_artifacts"@, 2, seq![CheckSet::Code], Some(DatasourceModel::Scorecard("Binary-Artifacts"@))),
        ("changelog"@, 1, seq![CheckSet::Code], None),
        ("cla"@, 1, seq![CheckSet::Code, CheckSet::CodeLite], None),
    ]
}

/// Part of the check table.
pub open spec fn check_table_b() -> Seq<CheckModel> {
    seq![
        ("code_of_conduct"@, 2, seq![CheckSet::Community], None),
        ("code_review"@, 3, seq![CheckSet::Code], Some(DatasourceModel::Scorecard("Code-Review"@))),
        ("community_meeting"@, 3, seq![CheckSet::Community], None),
        ("content_discoverability"@, 4, seq![CheckSet::Community], Some(DatasourceModel::Afdocs("content-discoverability"@))),
        ("content_structure"@, 4, seq![CheckSet::Community], Some(DatasourceModel::Afdocs("content-structure"@))),
        ("contributing"@, 4, seq![CheckSet::Code, CheckSet::CodeLite, CheckSet::Community], None),
        ("dangerous_workflow"@, 2, seq![CheckSet::Code], Some(DatasourceModel::Scorecard("Dangerous-Workflow"@))),
    ]
}

/// Part of the check table.
pub open spec fn check_table_c() -> Seq<CheckModel> {
    seq![
        ("dco"@, 1, seq![CheckSet::Code, CheckSet::CodeLite], None),
        ("dependencies_policy"@, 2, seq![CheckSet::Code], None),
        ("dependency_update_tool"@, 2, seq![CheckSet::Code], Some(DatasourceModel::Scorecard("Dependency-Update-Tool"@))),
        ("github_discussions"@, 0, seq![CheckSet::Community], None),
        ("governance"@, 3, seq![CheckSet::Community], None),
        ("license_approved"@, 10, seq![CheckSet::Code, CheckSet::CodeLite, CheckSet::Docs], None),
        ("license_scanning"@, 5, seq![CheckSet::Code], None),
    ]
}

/// Part of the check table.
pub open spec fn check_table_d() -> Seq<CheckModel> {
    seq![
        ("license_spdx_id"@, 5, seq![CheckSet::Code, CheckSet::CodeLite, CheckSet::Docs], None),
        ("maintained"@, 3, seq![CheckSet::Code], Some(DatasourceModel::Scorecard("Maintained"@))),
        ("maintainers"@, 3, seq![CheckSet::Code, CheckSet::CodeLite], None),
        ("markdown_availability"@, 4, seq![CheckSet::Community], Some(DatasourceModel::Afdocs("markdown-availability"@))),
        ("observability"@, 4, seq![CheckSet::Community], Some(DatasourceModel::Afdocs("observability"@))),
        ("openssf_badge"@, 5, seq![CheckSet::Code], None),
        ("openssf_scorecard_badge"@, 5, seq![CheckSet::Code], None),
    ]
}

/// Part of the check table.
pub open spec fn check_table_e() -> Seq<CheckModel> {
    seq![
        ("page_size"@, 4, seq![CheckSet::Community], Some(DatasourceModel::Afdocs("page-size"@))),
        ("readme"@, 10, seq![CheckSet::Code, CheckSet::CodeLite, CheckSet::Community, CheckSet::Docs], None),
        ("recent_release"@, 3, seq![CheckSet::Code, CheckSet::CodeLite], None),
        ("roadmap"@, 1, seq![CheckSet::Community], None),
        ("sbom"@, 1, seq![CheckSet::Code], None),
        ("security_insights"@, 1, seq![CheckSet::Code], None),
        ("security_policy"@, 3, seq![CheckSet::Code, CheckSet::Community], None),
    ]
}

/// Part of the check table.
pub open spec fn check_table_f() -> Seq<CheckModel> {
    seq![
        ("signed_releases"@, 2, seq![CheckSet::Code], Some(DatasourceModel::Scorecard("Signed-Releases"@))),
        ("slack_presence"@, 0, seq![CheckSet::Community], None),
        ("summary_table"@, 1, seq![CheckSet::Community], None),
        ("token_permissions"@, 2, seq![CheckSet::Code], Some(DatasourceModel::Scorecard("Token-Permissions"@))),
        ("trademark_disclaimer"@, 5, seq![CheckSet::Community], None),
        ("url_stability"@, 4, seq![CheckSet::Community], Some(DatasourceModel::Afdocs("url-stability"@))),
        ("website"@, 5, seq![CheckSet::Community], None),
    ]
}

/// Identifiers of the registered checks, in table order.
pub open spec fn check_ids() -> Seq<Seq<char>> {
    check_table().map_values(|c: CheckModel| c.0)
}

/// Is the identifier the one provided.
pub open spec fn is_id(id: Seq<char>) -> spec_fn(Seq<char>) -> bool {
    |x: Seq<char>| x == id
}

/// Position in the table of the check provided.
pub open spec fn check_index(id: Seq<char>) -> Option<int> {
    first_index(check_ids(), is_id(id))
}

/// Check sets the check provided belongs to (none when it is not registered).
pub open spec fn check_sets_of(id: Seq<char>) -> Seq<CheckSet> {
    match check_index(id) {
        Some(k) => check_table()[k].2,
        None => Seq::empty(),
    }
}

/// The check belongs to none of the check sets provided.
pub open spec fn skipped(id: Seq<char>, sets: Seq<CheckSet>) -> bool {
    !exists|j: int| 0 <= j < sets.len() && check_sets_of(id).contains(#[trigger] sets[j])
}

/// Some check backed by a datasource of the kind provided is enabled for the
/// check sets provided and not exempt.
pub open spec fn needs_datasource(
    sets: Seq<CheckSet>,
    cm_md: Option<Metadata>,
    kind: DatasourceKind,
) -> bool {
    exists|k: int|
        0 <= k < check_table().len() && is_kind(#[trigger] check_table()[k].3, kind) && !skipped(
            check_table()[k].0,
            sets,
        ) && exemption_for(cm_md, check_table()[k].0) is None
}

/// Part of the check table.
fn checks_a() -> (r: Vec<CheckConfig>)
    ensures
        r@.map_values(|c: CheckConfig| c.model()) == check_table_a(),
{
    let mut r: Vec<CheckConfig> = Vec::new();
    r.push(CheckConfig { id: "adopters", weight: 1, check_sets: vec![CheckSet::Community], datasource: None });
    r.push(CheckConfig { id: "analytics", weight: 0, check_sets: vec![CheckSet::Community], datasource: None });
    r.push(CheckConfig { id: "artifacthub_badge", weight: 1, check_sets: vec![CheckSet::Code], datasource: None });
    r.push(CheckConfig { id: "authentication", weight: 4, check_sets: vec![CheckSet::Community], datasource: Some(Datasource::Afdocs { category: "authentication" }) });
    r.push(CheckConfig { id: "binary_artifacts", weight: 2, check_sets: vec![CheckSet::Code], datasource: Some(Datasource::Scorecard { name: "Binary-Artifacts" }) });
    r.push(CheckConfig { id: "changelog", weight: 1, check_sets: vec![CheckSet::Code], datasource: None });
    r.push(CheckConfig { id: "cla", weight: 1, check_sets: vec![CheckSet::Code, CheckSet::CodeLite], datasource: None });
    proof {
        assert(r@[0].check_sets@ =~= check_table_a()[0].2);
        assert(r@[1].check_sets@ =~= check_table_a()[1].2);
        assert(r@[2].check_sets@ =~= check_table_a()[2].2);
        assert(r@[3].check_sets@ =~= check_table_a()[3].2);
        assert(r@[4].check_sets@ =~= check_table_a()[4].2);
        assert(r@[5].check_sets@ =~= check_table_a()[5].2);
        assert(r@[6].check_sets@ =~= check_table_a()[6].2);
        assert(r@.map_values(|c: CheckConfig| c.model()) =~= check_table_a());
    }
    r
}

/// Part of the check table.
fn checks_b() -> (r: Vec<CheckConfig>)
    ensures
        r@.map_values(|c: CheckConfig| c.model()) == check_table_b(),
{
    let mut r: Vec<CheckConfig> = Vec::new();
    r.push(CheckConfig { id: "code_of_conduct", weight: 2, check_sets: vec![CheckSet::Community], datasource: None });
    r.push(CheckConfig { id: "code_review", weight: 3, check_sets: vec![CheckSet::Code], datasource: Some(Datasource::Scorecard { name: "Code-Review" }) });
    r.push(CheckConfig { id: "community_meeting", weight: 3, check_sets: vec![CheckSet::Community], datasource: None });
    r.push(CheckConfig { id: "content_discoverability", weight: 4, check_sets: vec![CheckSet::Community], datasource: Some(Datasource::Afdocs { category: "content-discoverability" }) });
    r.push(CheckConfig { id: "content_structure", weight: 4, check_sets: vec![CheckSet::Community], datasource: Some(Datasource::Afdocs { category: "content-structure" }) });
    r.push(CheckConfig { id: "contributing", weight: 4, check_sets: vec![CheckSet::Code, CheckSet::CodeLite, CheckSet::Community], datasource: None });
    r.push(CheckConfig { id: "dangerous_workflow", weight: 2, check_sets: vec![CheckSet::Code], datasource: Some(Datasource::Scorecard { name: "Dangerous-Workflow" }) });
    proof {
        assert(r@[0].check_sets@ =~= check_table_b()[0].2);
        assert(r@[1].check_sets@ =~= check_table_b()[1].2);
        assert(r@[2].check_sets@ =~= check_table_b()[2].2);
        assert(r@[3].check_sets@ =~= check_table_b()[3].2);
        assert(r@[4].check_sets@ =~= check_table_b()[4].2);
        assert(r@[5].check_sets@ =~= check_table_b()[5].2);
        assert(r@[6].check_sets@ =~= check_table_b()[6].2);
        assert(r@.map_values(|c: CheckConfig| c.model()) =~= check_table_b());
    }
    r
}

/// Part of the check table.
fn checks_c() -> (r: Vec<CheckConfig>)
    ensures
        r@.map_values(|c: CheckConfig| c.model()) == check_table_c(),
{
    let mut r: Vec<CheckConfig> = Vec::new();
    r.push(CheckConfig { id: "dco", weight: 1, check_sets: vec![CheckSet::Code, CheckSet::CodeLite], datasource: None });
    r.push(CheckConfig { id: "dependencies_policy", weight: 2, check_sets: vec![CheckSet::Code], datasource: None });
    r.push(CheckConfig { id: "dependency_update_tool", weight: 2, check_sets: vec![CheckSet::Code], datasource: Some(Datasource::Scorecard { name: "Dependency-Update-Tool" }) });
    r.push(CheckConfig { id: "github_discussions", weight: 0, check_sets: vec![CheckSet::Community], datasource: None });
    r.push(CheckConfig { id: "governance", weight: 3, check_sets: vec![CheckSet::Community], datasource: None });
    r.push(CheckConfig { id: "license_approved", weight: 10, check_sets: vec![CheckSet::Code, CheckSet::CodeLite, CheckSet::Docs], datasource: None });
    r.push(CheckConfig { id: "license_scanning", weight: 5, check_sets: vec![CheckSet::Code], datasource: None });
    proof {
        assert(r@[0].check_sets@ =~= check_table_c()[0].2);
        assert(r@[1].check_sets@ =~= check_table_c()[1].2);
        assert(r@[2].check_sets@ =~= check_table_c()[2].2);
        assert(r@[3].check_sets@ =~= check_table_c()[3].2);
        assert(r@[4].check_sets@ =~= check_table_c()[4].2);
        assert(r@[5].check_sets@ =~= check_table_c()[5].2);
        assert(r@[6].check_sets@ =~= check_table_c()[6].2);
        assert(r@.map_values(|c: CheckConfig| c.model()) =~= check_table_c());
    }
    r
}

/// Part of the check table.
fn checks_d() -> (r: Vec<CheckConfig>)
    ensures
        r@.map_values(|c: CheckConfig| c.model()) == check_table_d(),
{
    let mut r: Vec<CheckConfig> = Vec::new();
    r.push(CheckConfig { id: "license_spdx_id", weight: 5, check_sets: vec![CheckSet::Code, CheckSet::CodeLite, CheckSet::Docs], datasource: None });
    r.push(CheckConfig { id: "maintained", weight: 3, check_sets: vec![CheckSet::Code], datasource: Some(Datasource::Scorecard { name: "Maintained" }) });
    r.push(CheckConfig { id: "maintainers", weight: 3, check_sets: vec![CheckSet::Code, CheckSet::CodeLite], datasource: None });
    r.push(CheckConfig { id: "markdown_availability", weight: 4, check_sets: vec![CheckSet::Community], datasource: Some(Datasource::Afdocs { category: "markdown-availability" }) });
    r.push(CheckConfig { id: "observability", weight: 4, check_sets: vec![CheckSet::Community], datasource: Some(Datasource::Afdocs { category: "observability" }) });
    r.push(CheckConfig { id: "openssf_badge", weight: 5, check_sets: vec![CheckSet::Code], datasource: None });
    r.push(CheckConfig { id: "openssf_scorecard_badge", weight: 5, check_sets: vec![CheckSet::Code], datasource: None });
    proof {
        assert(r@[0].check_sets@ =~= check_table_d()[0].2);
        assert(r@[1].check_sets@ =~= check_table_d()[1].2);
        assert(r@[2].check_sets@ =~= check_table_d()[2].2);
        assert(r@[3].check_sets@ =~= check_table_d()[3].2);
        assert(r@[4].check_sets@ =~= check_table_d()[4].2);
        assert(r@[5].check_sets@ =~= check_table_d()[5].2);
        assert(r@[6].check_sets@ =~= check_table_d()[6].2);
        assert(r@.map_values(|c: CheckConfig| c.model()) =~= check_table_d());
    }
    r
}

/// Part of the check table.
fn checks_e() -> (r: Vec<CheckConfig>)
    ensures
        r@.map_values(|c: CheckConfig| c.model()) == check_table_e(),
{
    let mut r: Vec<CheckConfig> = Vec::new();
    r.push(CheckConfig { id: "page_size", weight: 4, check_sets: vec![CheckSet::Community], datasource: Some(Datasource::Afdocs { category: "page-size" }) });
    r.push(CheckConfig { id: "readme", weight: 10, check_sets: vec![CheckSet::Code, CheckSet::CodeLite, CheckSet::Community, CheckSet::Docs], datasource: None });
    r.push(CheckConfig { id: "recent_release", weight: 3, check_sets: vec![CheckSet::Code, CheckSet::CodeLite], datasource: None });
    r.push(CheckConfig { id: "roadmap", weight: 1, check_sets: vec![CheckSet::Community], datasource: None });
    r.push(CheckConfig { id: "sbom", weight: 1, check_sets: vec![CheckSet::Code], datasource: None });
    r.push(CheckConfig { id: "security_insights", weight: 1, check_sets: vec![CheckSet::Code], datasource: None });
    r.push(CheckConfig { id: "security_policy", weight: 3, check_sets: vec![CheckSet::Code, CheckSet::Community], datasource: None });
    proof {
        assert(r@[0].check_sets@ =~= check_table_e()[0].2);
        assert(r@[1].check_sets@ =~= check_table_e()[1].2);
        assert(r@[2].check_sets@ =~= check_table_e()[2].2);
        assert(r@[3].check_sets@ =~= check_table_e()[3].2);
        assert(r@[4].check_sets@ =~= check_table_e()[4].2);
        assert(r@[5].check_sets@ =~= check_table_e()[5].2);
        assert(r@[6].check_sets@ =~= check_table_e()[6].2);
        assert(r@.map_values(|c: CheckConfig| c.model()) =~= check_table_e());
    }
    r
}

/// Part of the check table.
fn checks_f() -> (r: Vec<CheckConfig>)
    ensures
        r@.map_values(|c: CheckConfig| c.model()) == check_table_f(),
{
    let mut r: Vec<CheckConfig> = Vec::new();
    r.push(CheckConfig { id: "signed_releases", weight: 2, check_sets: vec![CheckSet::Code], datasource: Some(Datasource::Scorecard { name: "Signed-Releases" }) });
    r.push(CheckConfig { id: "slack_presence", weight: 0, check_sets: vec![CheckSet::Community], datasource: None });
    r.push(CheckConfig { id: "summary_table", weight: 1, check_sets: vec![CheckSet::Community], datasource: None });
    r.push(CheckConfig { id: "token_permissions", weight: 2, check_sets: vec![CheckSet::Code], datasource: Some(Datasource::Scorecard { name: "Token-Permissions" }) });
    r.push(CheckConfig { id: "trademark_disclaimer", weight: 5, check_sets: vec![CheckSet::Community], datasource: None });
    r.push(CheckConfig { id: "url_stability", weight: 4, check_sets: vec![CheckSet::Community], datasource: Some(Datasource::Afdocs { category: "url-stability" }) });
    r.push(CheckConfig { id: "website", weight: 5, check_sets: vec![CheckSet::Community], datasource: None });
    proof {
        assert(r@[0].check_sets@ =~= check_table_f()[0].2);
        assert(r@[1].check_sets@ =~= check_table_f()[1].2);
        assert(r@[2].check_sets@ =~= check_table_f()[2].2);
        assert(r@[3].check_sets@ =~= check_table_f()[3].2);
        assert(r@[4].check_sets@ =~= check_table_f()[4].2);
        assert(r@[5].check_sets@ =~= check_table_f()[5].2);
        assert(r@[6].check_sets@ =~= check_table_f()[6].2);
        assert(r@.map_values(|c: CheckConfig| c.model()) =~= check_table_f());
    }
    r
}

/// The checks the linter runs.
pub fn checks() -> (r: Vec<CheckConfig>)
    ensures
        r@.map_values(|c: CheckConfig| c.model()) == check_table(),
{
    let mut r = checks_a();
    let ghost before = r@;
    let mut more = checks_b();
    let ghost added = more@;
    r.append(&mut more);
    proof {
        assert(r@.map_values(|c: CheckConfig| c.model()) =~= before.map_values(
            |c: CheckConfig| c.model(),
        ) + added.map_values(|c: CheckConfig| c.model()));
    }
    let ghost before = r@;
    let mut more = checks_c();
    let ghost added = more@;
    r.append(&mut more);
    proof {
        assert(r@.map_values(|c: CheckConfig| c.model()) =~= before.map_values(
            |c: CheckConfig| c.model(),
        ) + added.map_values(|c: CheckConfig| c.model()));
    }
    let ghost before = r@;
    let mut more = checks_d();
    let ghost added = more@;
    r.append(&mut more);
    proof {
        assert(r@.map_values(|c: CheckConfig| c.model()) =~= before.map_values(
            |c: CheckConfig| c.model(),
        ) + added.map_values(|c: CheckConfig| c.model()));
    }
    let ghost before = r@;
    let mut more = checks_e();
    let ghost added = more@;
    r.append(&mut more);
    proof {
        assert(r@.map_values(|c: CheckConfig| c.model()) =~= before.map_values(
            |c: CheckConfig| c.model(),
        ) + added.map_values(|c: CheckConfig| c.model()));
    }
    let ghost before = r@;
    let mut more = checks_f();
    let ghost added = more@;
    r.append(&mut more);
    proof {
        assert(r@.map_values(|c: CheckConfig| c.model()) =~= before.map_values(
            |c: CheckConfig| c.model(),
        ) + added.map_values(|c: CheckConfig| c.model()));
    }
    r
}

/// Return the configuration of the check provided, if registered.
pub fn check_config(id: &str) -> (r: Option<CheckConfig>)
    ensures
        match check_index(id@) {
            Some(k) => r matches Some(c) && c.model() == check_table()[k],
            None => r is None,
        },
{
    let mut all = checks();
    let ghost models = all@.map_values(|c: CheckConfig| c.model());
    let ghost p = is_id(id@);
    proof {
        assert(models.len() == all@.len());
    }
    let mut i: usize = 0;
    while i < all.len()
        invariant
            i <= all@.len() == check_table().len(),
            models == check_table(),
            models == all@.map_values(|c: CheckConfig| c.model()),
            p == is_id(id@),
            forall|j: int| 0 <= j < i ==> !p(#[trigger] check_ids()[j]),
        decreases all@.len() - i,
    {
        proof {
            assert(check_ids()[i as int] == models[i as int].0);
        }
        if text::eq_str(all[i].id, id) {
            proof {
                lemma_first_index_at(check_ids(), p, i as int);
            }
            let c = all.remove(i);
            return Some(c);
        }
        i = i + 1;
    }
    proof {
        lemma_first_index_none(check_ids(), p);
    }
    None
}

/// Check if the check provided does not belong to any of the check sets
/// provided, and should therefore be skipped.
pub fn should_skip_check(check_id: &str, check_sets: &[CheckSet]) -> (r: bool)
    ensures
        r == skipped(check_id@, check_sets@),
{
    let config = check_config(check_id);
    let sets = match config {
        Some(c) => c.check_sets,
        None => Vec::new(),
    };
    proof {
        assert(sets@ =~= check_sets_of(check_id@));
    }
    let mut j: usize = 0;
    while j < check_sets.len()
        invariant
            j <= check_sets@.len(),
            sets@ == check_sets_of(check_id@),
            forall|k: int| 0 <= k < j ==> !sets@.contains(#[trigger] check_sets@[k]),
        decreases check_sets@.len() - j,
    {
        let wanted = check_sets[j];
        let mut i: usize = 0;
        while i < sets.len()
            invariant
                i <= sets@.len(),
                j < check_sets@.len(),
                wanted == check_sets@[j as int],
                sets@ == check_sets_of(check_id@),
                forall|k: int| 0 <= k < i ==> sets@[k] != wanted,
            decreases sets@.len() - i,
        {
            if sets[i] == wanted {
                assert(sets@.contains(check_sets@[j as int]));
                return false;
            }
            i = i + 1;
        }
        proof {
            assert forall|k: int| 0 <= k < sets@.len() implies sets@[k] != wanted by {}
        }
        j = j + 1;
    }
    true
}

/// Does the datasource belong to the kind provided.
fn datasource_is(ds: &Option<Datasource>, kind: DatasourceKind) -> (r: bool)
    ensures
        r == is_kind(
            match ds {
                Some(d) => Some(d.model()),
                None => None,
            },
            kind,
        ),
{
    match ds {
        Some(Datasource::Afdocs { .. }) => kind == DatasourceKind::Afdocs,
        Some(Datasource::Scorecard { .. }) => kind == DatasourceKind::Scorecard,
        None => false,
    }
}

/// Check if any of the checks backed by a datasource of the kind provided is
/// enabled for the check sets requested and not exempt.
pub fn datasource_needed(
    check_sets: &[CheckSet],
    cm_md: Option<&Metadata>,
    kind: DatasourceKind,
) -> (r: bool)
    ensures
        r == needs_datasource(
            check_sets@,
            match cm_md {
                Some(md) => Some(*md),
                None => None,
            },
            kind,
        ),
{
    let ghost md = match cm_md {
        Some(md) => Some(*md),
        None => None,
    };
    let all = checks();
    let ghost models = all@.map_values(|c: CheckConfig| c.model());
    proof {
        assert(models.len() == all@.len());
    }
    let mut k: usize = 0;
    while k < all.len()
        invariant
            k <= all@.len() == check_table().len(),
            models == check_table(),
            models == all@.map_values(|c: CheckConfig| c.model()),
            md == match cm_md {
                Some(m) => Some(*m),
                None => None,
            },
            forall|j: int|
                0 <= j < k ==> !(is_kind(#[trigger] check_table()[j].3, kind) && !skipped(
                    check_table()[j].0,
                    check_sets@,
                ) && exemption_for(md, check_table()[j].0) is None),
        decreases all@.len() - k,
    {
        let c = &all[k];
        proof {
            assert(models[k as int] == c.model());
        }
        if datasource_is(&c.datasource, kind) && !should_skip_check(c.id, check_sets)
            && find_exemption(c.id, cm_md).is_none() {
            proof {
                assert(is_kind(check_table()[k as int].3, kind));
            }
            return true;
        }
        k = k + 1;
    }
    false
}

/// What to do with a check before running it.
pub enum CheckPlan<T> {
    /// The check belongs to none of the check sets requested.
    Skip,
    /// The check is exempt: this is its output.
    Done(CheckOutput<T>),
    /// The check must run.
    Run,
}

/// Decide what to do with a check before running it: skip it when it
/// belongs to none of the check sets requested, report it exempt when an
/// exemption is declared for it, else run it.
pub fn plan_check<T>(check_id: &str, check_sets: &[CheckSet], cm_md: Option<&Metadata>) -> (r:
    CheckPlan<T>)
    ensures
        skipped(check_id@, check_sets@) ==> r is Skip,
        !skipped(check_id@, check_sets@) ==> match exemption_for(
            match cm_md {
                Some(md) => Some(*md),
                None => None,
            },
            check_id@,
        ) {
            Some(e) => r == CheckPlan::Done(
                CheckOutput::<T> {
                    exempt: true,
                    exemption_reason: Some(e.reason),
                    ..CheckOutput::<T>::empty()
                },
            ),
            None => r is Run,
        },
{
    // Check if this check should be skipped
    if should_skip_check(check_id, check_sets) {
        return CheckPlan::Skip;
    }
    // Check if an exemption has been declared for this check
    if let Some(exemption) = find_exemption(check_id, cm_md) {
        return CheckPlan::Done(CheckOutput::exempt().exemption_reason(Some(exemption.reason)));
    }
    CheckPlan::Run
}

/// Output of a check that ran: its own output, or failed with the error it
/// returned.
pub fn ran_check_output<T>(outcome: Result<CheckOutput<T>, String>) -> (r: CheckOutput<T>)
    ensures
        match outcome {
            Ok(o) => r == o,
            Err(e) => r == (CheckOutput::<T> {
                failed: true,
                fail_reason: Some(e),
                ..CheckOutput::<T>::empty()
            }),
        },
{
    match outcome {
        Ok(output) => output,
        Err(err) => CheckOutput::failed().fail_reason(Some(err)),
    }
}

/// With no check set requested, no datasource is needed.
pub proof fn lemma_no_check_sets_need_nothing(cm_md: Option<Metadata>, kind: DatasourceKind)
    ensures
        !needs_datasource(Seq::empty(), cm_md, kind),
{
}

/// Exempting every check backed by a datasource of some kind makes that
/// datasource unneeded, whatever the check sets requested.
pub proof fn lemma_exempt_checks_need_nothing(
    sets: Seq<CheckSet>,
    cm_md: Option<Metadata>,
    kind: DatasourceKind,
)
    requires
        forall|k: int|
            0 <= k < check_table().len() && is_kind(#[trigger] check_table()[k].3, kind)
                ==> exemption_for(cm_md, check_table()[k].0) is Some,
    ensures
        !needs_datasource(sets, cm_md, kind),
{
}

/// Requesting more check sets never skips a check that fewer check sets
/// would run.
pub proof fn lemma_more_check_sets_skip_less(id: Seq<char>, fewer: Seq<CheckSet>, more: Seq<CheckSet>)
    requires
        forall|j: int| 0 <= j < fewer.len() ==> more.contains(#[trigger] fewer[j]),
    ensures
        skipped(id, more) ==> skipped(id, fewer),
{
    if !skipped(id, fewer) {
        let j = choose|j: int| 0 <= j < fewer.len() && check_sets_of(id).contains(#[trigger] fewer[j]);
        assert(more.contains(fewer[j]));
        let k = choose|k: int| 0 <= k < more.len() && more[k] == fewer[j];
        assert(check_sets_of(id).contains(more[k]));
    }
}

/// Requesting more check sets never makes a datasource unneeded.
pub proof fn lemma_more_check_sets_need_more(
    fewer: Seq<CheckSet>,
    more: Seq<CheckSet>,
    cm_md: Option<Metadata>,
    kind: DatasourceKind,
)
    requires
        forall|j: int| 0 <= j < fewer.len() ==> more.contains(#[trigger] fewer[j]),
    ensures
        needs_datasource(fewer, cm_md, kind) ==> needs_datasource(more, cm_md, kind),
{
    if needs_datasource(fewer, cm_md, kind) {
        let k = choose|k: int|
            0 <= k < check_table().len() && is_kind(#[trigger] check_table()[k].3, kind) && !skipped(
                check_table()[k].0,
                fewer,
            ) && exemption_for(cm_md, check_table()[k].0) is None;
        lemma_more_check_sets_skip_less(check_table()[k].0, fewer, more);
        assert(is_kind(check_table()[k].3, kind));
    }
}

} // verus!
