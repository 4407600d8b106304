//! Laws of the check registry: the checks are listed once each, the check
//! sets each check belongs to, and the external datasource results each one
//! reads.

use vstd::prelude::*;

use crate::registry::{
    check_ids, check_index, check_sets_of, is_id, check_table, skipped, CheckModel, CheckSet, DatasourceModel,
};
use crate::afdocs::afdocs_category_of;
use crate::scorecard::scorecard_name_of;
use crate::search::{first_index, lemma_first_index_at, lemma_first_index_none, lemma_first_index_some};
use crate::text::{lemma_seq_lt_irreflexive, lemma_seq_lt_transitive, seq_lt};

verus! {

/// Two sequences agreeing before the index provided and differing there, the
/// first one with the smaller character, are in lexicographic order.
proof fn lemma_lt_at(a: Seq<char>, b: Seq<char>, k: int)
    requires
        0 <= k < a.len(),
        k < b.len(),
        forall|i: int| 0 <= i < k ==> a[i] == b[i],
        (a[k] as int) < (b[k] as int),
    ensures
        seq_lt(a, b),
    decreases k,
{
    if k > 0 {
        assert(a[0] == b[0]);
        assert forall|i: int| 0 <= i < k - 1 implies a.drop_first()[i] == b.drop_first()[i] by {
            assert(a.drop_first()[i] == a[i + 1]);
        }
        lemma_lt_at(a.drop_first(), b.drop_first(), k - 1);
    }
}

/// Each check identifier comes before the next one in the table.
proof fn lemma_ids_ascending(k: int)
    requires
        0 <= k < check_ids().len() - 1,
    ensures
        seq_lt(check_ids()[k], check_ids()[k + 1]),
{
    assert(check_ids().len() == 42);

    if k == 0 {
        reveal_strlit("adopters");
        reveal_strlit("analytics");
        lemma_lt_at("adopters"@, "analytics"@, 1);
    } else if k == 1 {
        reveal_strlit("analytics");
        reveal_strlit("artifacthub_badge");
        lemma_lt_at("analytics"@, "artifacthub_badge"@, 1);
    } else if k == 2 {
        reveal_strlit("artifacthub_badge");
        reveal_strlit("authentication");
        lemma_lt_at("artifacthub_badge"@, "authentication"@, 1);
    } else if k == 3 {
        reveal_strlit("authentication");
        reveal_strlit("binary_artifacts");
        lemma_lt_at("authentication"@, "binary_artifacts"@, 0);
    } else if k == 4 {
        reveal_strlit("binary_artifacts");
        reveal_strlit("changelog");
        lemma_lt_at("binary_artifacts"@, "changelog"@, 0);
    } else if k == 5 {
        reveal_strlit("changelog");
        reveal_strlit("cla");
        lemma_lt_at("changelog"@, "cla"@, 1);
    } else if k == 6 {
        reveal_strlit("cla");
        reveal_strlit("code_of_conduct");
        lemma_lt_at("cla"@, "code_of_conduct"@, 1);
    } else if k == 7 {
        reveal_strlit("code_of_conduct");
        reveal_strlit("code_review");
        lemma_lt_at("code_of_conduct"@, "code_review"@, 5);
    } else if k == 8 {
        reveal_strlit("code_review");
        reveal_strlit("community_meeting");
        lemma_lt_at("code_review"@, "community_meeting"@, 2);
    } else if k == 9 {
        reveal_strlit("community_meeting");
        reveal_strlit("content_discoverability");
        lemma_lt_at("community_meeting"@, "content_discoverability"@, 2);
    } else if k == 10 {
        reveal_strlit("content_discoverability");
        reveal_strlit("content_structure");
        lemma_lt_at("content_discoverability"@, "content_structure"@, 8);
    } else if k == 11 {
        reveal_strlit("content_structure");
        reveal_strlit("contributing");
        lemma_lt_at("content_structure"@, "contributing"@, 4);
    } else if k == 12 {
        reveal_strlit("contributing");
        reveal_strlit("dangerous_workflow");
        lemma_lt_at("contributing"@, "dangerous_workflow"@, 0);
    } else if k == 13 {
        reveal_strlit("dangerous_workflow");
        reveal_strlit("dco");
        lemma_lt_at("dangerous_workflow"@, "dco"@, 1);
    } else if k == 14 {
        reveal_strlit("dco");
        reveal_strlit("dependencies_policy");
        lemma_lt_at("dco"@, "dependencies_policy"@, 1);
    } else if k == 15 {
        reveal_strlit("dependencies_policy");
        reveal_strlit("dependency_update_tool");
        lemma_lt_at("dependencies_policy"@, "dependency_update_tool"@, 9);
    } else if k == 16 {
        reveal_strlit("dependency_update_tool");
        reveal_strlit("github_discussions");
        lemma_lt_at("dependency_update_tool"@, "github_discussions"@, 0);
    } else if k == 17 {
        reveal_strlit("github_discussions");
        reveal_strlit("governance");
        lemma_lt_at("github_discussions"@, "governance"@, 1);
    } else if k == 18 {
        reveal_strlit("governance");
        reveal_strlit("license_approved");
        lemma_lt_at("governance"@, "license_approved"@, 0);
    } else if k == 19 {
        reveal_strlit("license_approved");
        reveal_strlit("license_scanning");
        lemma_lt_at("license_approved"@, "license_scanning"@, 8);
    } else if k == 20 {
        reveal_strlit("license_scanning");
        reveal_strlit("license_spdx_id");
        lemma_lt_at("license_scanning"@, "license_spdx_id"@, 9);
    } else if k == 21 {
        reveal_strlit("license_spdx_id");
        reveal_strlit("maintained");
        lemma_lt_at("license_spdx_id"@, "maintained"@, 0);
    } else if k == 22 {
        reveal_strlit("maintained");
        reveal_strlit("maintainers");
        lemma_lt_at("maintained"@, "maintainers"@, 9);
    } else if k == 23 {
        reveal_strlit("maintainers");
        reveal_strlit("markdown_availability");
        lemma_lt_at("maintainers"@, "markdown_availability"@, 2);
    } else if k == 24 {
        reveal_strlit("markdown_availability");
        reveal_strlit("observability");
        lemma_lt_at("markdown_availability"@, "observability"@, 0);
    } else if k == 25 {
        reveal_strlit("observability");
        reveal_strlit("openssf_badge");
        lemma_lt_at("observability"@, "openssf_badge"@, 1);
    } else if k == 26 {
        reveal_strlit("openssf_badge");
        reveal_strlit("openssf_scorecard_badge");
        lemma_lt_at("openssf_badge"@, "openssf_scorecard_badge"@, 8);
    } else if k == 27 {
        reveal_strlit("openssf_scorecard_badge");
        reveal_strlit("page_size");
        lemma_lt_at("openssf_scorecard_badge"@, "page_size"@, 0);
    } else if k == 28 {
        reveal_strlit("page_size");
        reveal_strlit("readme");
        lemma_lt_at("page_size"@, "readme"@, 0);
    } else if k == 29 {
        reveal_strlit("readme");
        reveal_strlit("recent_release");
        lemma_lt_at("readme"@, "recent_release"@, 2);
    } else if k == 30 {
        reveal_strlit("recent_release");
        reveal_strlit("roadmap");
        lemma_lt_at("recent_release"@, "roadmap"@, 1);
    } else if k == 31 {
        reveal_strlit("roadmap");
        reveal_strlit("sbom");
        lemma_lt_at("roadmap"@, "sbom"@, 0);
    } else if k == 32 {
        reveal_strlit("sbom");
        reveal_strlit("security_insights");
        lemma_lt_at("sbom"@, "security_insights"@, 1);
    } else if k == 33 {
        reveal_strlit("security_insights");
        reveal_strlit("security_policy");
        lemma_lt_at("security_insights"@, "security_policy"@, 9);
    } else if k == 34 {
        reveal_strlit("security_policy");
        reveal_strlit("signed_releases");
        lemma_lt_at("security_policy"@, "signed_releases"@, 1);
    } else if k == 35 {
        reveal_strlit("signed_releases");
        reveal_strlit("slack_presence");
        lemma_lt_at("signed_releases"@, "slack_presence"@, 1);
    } else if k == 36 {
        reveal_strlit("slack_presence");
        reveal_strlit("summary_table");
        lemma_lt_at("slack_presence"@, "summary_table"@, 1);
    } else if k == 37 {
        reveal_strlit("summary_table");
        reveal_strlit("token_permissions");
        lemma_lt_at("summary_table"@, "token_permissions"@, 0);
    } else if k == 38 {
        reveal_strlit("token_permissions");
        reveal_strlit("trademark_disclaimer");
        lemma_lt_at("token_permissions"@, "trademark_disclaimer"@, 1);
    } else if k == 39 {
        reveal_strlit("trademark_disclaimer");
        reveal_strlit("url_stability");
        lemma_lt_at("trademark_disclaimer"@, "url_stability"@, 0);
    } else if k == 40 {
        reveal_strlit("url_stability");
        reveal_strlit("website");
        lemma_lt_at("url_stability"@, "website"@, 0);
    }
}

/// The check identifiers are in strictly ascending order.
proof fn lemma_ids_sorted(a: int, b: int)
    requires
        0 <= a < b < check_ids().len(),
    ensures
        seq_lt(check_ids()[a], check_ids()[b]),
    decreases b - a,
{
    lemma_ids_ascending(b - 1);
    if a < b - 1 {
        lemma_ids_sorted(a, b - 1);
        lemma_seq_lt_transitive(check_ids()[a], check_ids()[b - 1], check_ids()[b]);
    }
}

/// Each check is listed once: the check identifiers are all different.
pub proof fn lemma_check_ids_distinct(a: int, b: int)
    requires
        0 <= a < check_ids().len(),
        0 <= b < check_ids().len(),
        a != b,
    ensures
        check_ids()[a] != check_ids()[b],
{
    if a < b {
        lemma_ids_sorted(a, b);
        if check_ids()[a] == check_ids()[b] {
            lemma_seq_lt_irreflexive(check_ids()[a]);
        }
    } else {
        lemma_ids_sorted(b, a);
        if check_ids()[a] == check_ids()[b] {
            lemma_seq_lt_irreflexive(check_ids()[a]);
        }
    }
}

/// The position found for a registered check identifier is its row.
pub proof fn lemma_check_index_of_row(k: int)
    requires
        0 <= k < check_table().len(),
    ensures
        check_index(check_table()[k].0) == Some(k),
{
    let id = check_table()[k].0;
    let p = is_id(id);
    assert(check_ids()[k] == id);
    assert forall|j: int| 0 <= j < k implies !p(#[trigger] check_ids()[j]) by {
        lemma_check_ids_distinct(j, k);
    }
    lemma_first_index_at(check_ids(), p, k);
    assert(check_index(id) == crate::search::first_index(check_ids(), p));
}


/// Checks each check set holds, as the checks declare them.
pub open spec fn checks_in_set(s: CheckSet) -> Seq<Seq<char>> {
    match s {
        CheckSet::Code => seq!["artifacthub_badge"@, "binary_artifacts"@, "changelog"@, "cla"@, "code_review"@, "contributing"@, "dangerous_workflow"@, "dco"@, "dependencies_policy"@, "dependency_update_tool"@, "license_approved"@, "license_scanning"@, "license_spdx_id"@, "maintained"@, "maintainers"@, "openssf_badge"@, "openssf_scorecard_badge"@, "readme"@, "recent_release"@, "sbom"@, "security_insights"@, "security_policy"@, "signed_releases"@, "token_permissions"@],
        CheckSet::CodeLite => seq!["cla"@, "contributing"@, "dco"@, "license_approved"@, "license_spdx_id"@, "maintainers"@, "readme"@, "recent_release"@],
        CheckSet::Community => seq!["adopters"@, "analytics"@, "authentication"@, "code_of_conduct"@, "community_meeting"@, "content_discoverability"@, "content_structure"@, "contributing"@, "github_discussions"@, "governance"@, "markdown_availability"@, "observability"@, "page_size"@, "readme"@, "roadmap"@, "security_policy"@, "slack_presence"@, "summary_table"@, "trademark_disclaimer"@, "url_stability"@, "website"@],
        CheckSet::Docs => seq!["license_approved"@, "license_spdx_id"@, "readme"@],
    }
}

/// A check declaring a check set is listed in it.
proof fn lemma_row_listed(k: int, s: CheckSet)
    requires
        0 <= k < check_table().len(),
        check_table()[k].2.contains(s),
    ensures
        checks_in_set(s).contains(check_table()[k].0),
{
    assert(check_table().len() == 42);
    if k == 0 {
        assert(check_table()[k].2 == seq![CheckSet::Community]);
        if s == CheckSet::Community { assert(checks_in_set(s)[0] == check_table()[k].0); }
    } else if k == 1 {
        assert(check_table()[k].2 == seq![CheckSet::Community]);
        if s == CheckSet::Community { assert(checks_in_set(s)[1] == check_table()[k].0); }
    } else if k == 2 {
        assert(check_table()[k].2 == seq![CheckSet::Code]);
        if s == CheckSet::Code { assert(checks_in_set(s)[0] == check_table()[k].0); }
    } else if k == 3 {
        assert(check_table()[k].2 == seq![CheckSet::Community]);
        if s == CheckSet::Community { assert(checks_in_set(s)[2] == check_table()[k].0); }
    } else if k == 4 {
        assert(check_table()[k].2 == seq![CheckSet::Code]);
        if s == CheckSet::Code { assert(checks_in_set(s)[1] == check_table()[k].0); }
    } else if k == 5 {
        assert(check_table()[k].2 == seq![CheckSet::Code]);
        if s == CheckSet::Code { assert(checks_in_set(s)[2] == check_table()[k].0); }
    } else if k == 6 {
        assert(check_table()[k].2 == seq![CheckSet::Code, CheckSet::CodeLite]);
        if s == CheckSet::Code { assert(checks_in_set(s)[3] == check_table()[k].0); }
        if s == CheckSet::CodeLite { assert(checks_in_set(s)[0] == check_table()[k].0); }
    } else if k == 7 {
        assert(check_table()[k].2 == seq![CheckSet::Community]);
        if s == CheckSet::Community { assert(checks_in_set(s)[3] == check_table()[k].0); }
    } else if k == 8 {
        assert(check_table()[k].2 == seq![CheckSet::Code]);
        if s == CheckSet::Code { assert(checks_in_set(s)[4] == check_table()[k].0); }
    } else if k == 9 {
        assert(check_table()[k].2 == seq![CheckSet::Community]);
        if s == CheckSet::Community { assert(checks_in_set(s)[4] == check_table()[k].0); }
    } else if k == 10 {
        assert(check_table()[k].2 == seq![CheckSet::Community]);
        if s == CheckSet::Community { assert(checks_in_set(s)[5] == check_table()[k].0); }
    } else if k == 11 {
        assert(check_table()[k].2 == seq![CheckSet::Community]);
        if s == CheckSet::Community { assert(checks_in_set(s)[6] == check_table()[k].0); }
    } else if k == 12 {
        assert(check_table()[k].2 == seq![CheckSet::Code, CheckSet::CodeLite, CheckSet::Community]);
        if s == CheckSet::Code { assert(checks_in_set(s)[5] == check_table()[k].0); }
        if s == CheckSet::CodeLite { assert(checks_in_set(s)[1] == check_table()[k].0); }
        if s == CheckSet::Community { assert(checks_in_set(s)[7] == check_table()[k].0); }
    } else if k == 13 {
        assert(check_table()[k].2 == seq![CheckSet::Code]);
        if s == CheckSet::Code { assert(checks_in_set(s)[6] == check_table()[k].0); }
    } else if k == 14 {
        assert(check_table()[k].2 == seq![CheckSet::Code, CheckSet::CodeLite]);
        if s == CheckSet::Code { assert(checks_in_set(s)[7] == check_table()[k].0); }
        if s == CheckSet::CodeLite { assert(checks_in_set(s)[2] == check_table()[k].0); }
    } else if k == 15 {
        assert(check_table()[k].2 == seq![CheckSet::Code]);
        if s == CheckSet::Code { assert(checks_in_set(s)[8] == check_table()[k].0); }
    } else if k == 16 {
        assert(check_table()[k].2 == seq![CheckSet::Code]);
        if s == CheckSet::Code { assert(checks_in_set(s)[9] == check_table()[k].0); }
    } else if k == 17 {
        assert(check_table()[k].2 == seq![CheckSet::Community]);
        if s == CheckSet::Community { assert(checks_in_set(s)[8] == check_table()[k].0); }
    } else if k == 18 {
        assert(check_table()[k].2 == seq![CheckSet::Community]);
        if s == CheckSet::Community { assert(checks_in_set(s)[9] == check_table()[k].0); }
    } else if k == 19 {
        assert(check_table()[k].2 == seq![CheckSet::Code, CheckSet::CodeLite, CheckSet::Docs]);
        if s == CheckSet::Code { assert(checks_in_set(s)[10] == check_table()[k].0); }
        if s == CheckSet::CodeLite { assert(checks_in_set(s)[3] == check_table()[k].0); }
        if s == CheckSet::Docs { assert(checks_in_set(s)[0] == check_table()[k].0); }
    } else if k == 20 {
        assert(check_table()[k].2 == seq![CheckSet::Code]);
        if s == CheckSet::Code { assert(checks_in_set(s)[11] == check_table()[k].0); }
    } else if k == 21 {
        assert(check_table()[k].2 == seq![CheckSet::Code, CheckSet::CodeLite, CheckSet::Docs]);
        if s == CheckSet::Code { assert(checks_in_set(s)[12] == check_table()[k].0); }
        if s == CheckSet::CodeLite { assert(checks_in_set(s)[4] == check_table()[k].0); }
        if s == CheckSet::Docs { assert(checks_in_set(s)[1] == check_table()[k].0); }
    } else if k == 22 {
        assert(check_table()[k].2 == seq![CheckSet::Code]);
        if s == CheckSet::Code { assert(checks_in_set(s)[13] == check_table()[k].0); }
    } else if k == 23 {
        assert(check_table()[k].2 == seq![CheckSet::Code, CheckSet::CodeLite]);
        if s == CheckSet::Code { assert(checks_in_set(s)[14] == check_table()[k].0); }
        if s == CheckSet::CodeLite { assert(checks_in_set(s)[5] == check_table()[k].0); }
    } else if k == 24 {
        assert(check_table()[k].2 == seq![CheckSet::Community]);
        if s == CheckSet::Community { assert(checks_in_set(s)[10] == check_table()[k].0); }
    } else if k == 25 {
        assert(check_table()[k].2 == seq![CheckSet::Community]);
        if s == CheckSet::Community { assert(checks_in_set(s)[11] == check_table()[k].0); }
    } else if k == 26 {
        assert(check_table()[k].2 == seq![CheckSet::Code]);
        if s == CheckSet::Code { assert(checks_in_set(s)[15] == check_table()[k].0); }
    } else if k == 27 {
        assert(check_table()[k].2 == seq![CheckSet::Code]);
        if s == CheckSet::Code { assert(checks_in_set(s)[16] == check_table()[k].0); }
    } else if k == 28 {
        assert(check_table()[k].2 == seq![CheckSet::Community]);
        if s == CheckSet::Community { assert(checks_in_set(s)[12] == check_table()[k].0); }
    } else if k == 29 {
        assert(check_table()[k].2 == seq![CheckSet::Code, CheckSet::CodeLite, CheckSet::Community, CheckSet::Docs]);
        if s == CheckSet::Code { assert(checks_in_set(s)[17] == check_table()[k].0); }
        if s == CheckSet::CodeLite { assert(checks_in_set(s)[6] == check_table()[k].0); }
        if s == CheckSet::Community { assert(checks_in_set(s)[13] == check_table()[k].0); }
        if s == CheckSet::Docs { assert(checks_in_set(s)[2] == check_table()[k].0); }
    } else if k == 30 {
        assert(check_table()[k].2 == seq![CheckSet::Code, CheckSet::CodeLite]);
        if s == CheckSet::Code { assert(checks_in_set(s)[18] == check_table()[k].0); }
        if s == CheckSet::CodeLite { assert(checks_in_set(s)[7] == check_table()[k].0); }
    } else if k == 31 {
        assert(check_table()[k].2 == seq![CheckSet::Community]);
        if s == CheckSet::Community { assert(checks_in_set(s)[14] == check_table()[k].0); }
    } else if k == 32 {
        assert(check_table()[k].2 == seq![CheckSet::Code]);
        if s == CheckSet::Code { assert(checks_in_set(s)[19] == check_table()[k].0); }
    } else if k == 33 {
        assert(check_table()[k].2 == seq![CheckSet::Code]);
        if s == CheckSet::Code { assert(checks_in_set(s)[20] == check_table()[k].0); }
    } else if k == 34 {
        assert(check_table()[k].2 == seq![CheckSet::Code, CheckSet::Community]);
        if s == CheckSet::Code { assert(checks_in_set(s)[21] == check_table()[k].0); }
        if s == CheckSet::Community { assert(checks_in_set(s)[15] == check_table()[k].0); }
    } else if k == 35 {
        assert(check_table()[k].2 == seq![CheckSet::Code]);
        if s == CheckSet::Code { assert(checks_in_set(s)[22] == check_table()[k].0); }
    } else if k == 36 {
        assert(check_table()[k].2 == seq![CheckSet::Community]);
        if s == CheckSet::Community { assert(checks_in_set(s)[16] == check_table()[k].0); }
    } else if k == 37 {
        assert(check_table()[k].2 == seq![CheckSet::Community]);
        if s == CheckSet::Community { assert(checks_in_set(s)[17] == check_table()[k].0); }
    } else if k == 38 {
        assert(check_table()[k].2 == seq![CheckSet::Code]);
        if s == CheckSet::Code { assert(checks_in_set(s)[23] == check_table()[k].0); }
    } else if k == 39 {
        assert(check_table()[k].2 == seq![CheckSet::Community]);
        if s == CheckSet::Community { assert(checks_in_set(s)[18] == check_table()[k].0); }
    } else if k == 40 {
        assert(check_table()[k].2 == seq![CheckSet::Community]);
        if s == CheckSet::Community { assert(checks_in_set(s)[19] == check_table()[k].0); }
    } else if k == 41 {
        assert(check_table()[k].2 == seq![CheckSet::Community]);
        if s == CheckSet::Community { assert(checks_in_set(s)[20] == check_table()[k].0); }
    }
}

/// Every check listed in a check set declares it.
proof fn lemma_listed_row(s: CheckSet, i: int)
    requires
        0 <= i < checks_in_set(s).len(),
    ensures
        exists|j: int|
            0 <= j < check_table().len() && check_ids()[j] == checks_in_set(s)[i]
                && #[trigger] check_table()[j].2.contains(s),
{
    assert(check_table().len() == 42);
    match s {
        CheckSet::Code => {
            if i == 0 {
                assert(check_ids()[2] == checks_in_set(s)[i] && check_table()[2].2[0] == s);
                assert(check_table()[2].2.contains(s));
            } else if i == 1 {
                assert(check_ids()[4] == checks_in_set(s)[i] && check_table()[4].2[0] == s);
                assert(check_table()[4].2.contains(s));
            } else if i == 2 {
                assert(check_ids()[5] == checks_in_set(s)[i] && check_table()[5].2[0] == s);
                assert(check_table()[5].2.contains(s));
            } else if i == 3 {
                assert(check_ids()[6] == checks_in_set(s)[i] && check_table()[6].2[0] == s);
                assert(check_table()[6].2.contains(s));
            } else if i == 4 {
                assert(check_ids()[8] == checks_in_set(s)[i] && check_table()[8].2[0] == s);
                assert(check_table()[8].2.contains(s));
            } else if i == 5 {
                assert(check_ids()[12] == checks_in_set(s)[i] && check_table()[12].2[0] == s);
                assert(check_table()[12].2.contains(s));
            } else if i == 6 {
                assert(check_ids()[13] == checks_in_set(s)[i] && check_table()[13].2[0] == s);
                assert(check_table()[13].2.contains(s));
            } else if i == 7 {
                assert(check_ids()[14] == checks_in_set(s)[i] && check_table()[14].2[0] == s);
                assert(check_table()[14].2.contains(s));
            } else if i == 8 {
                assert(check_ids()[15] == checks_in_set(s)[i] && check_table()[15].2[0] == s);
                assert(check_table()[15].2.contains(s));
            } else if i == 9 {
                assert(check_ids()[16] == checks_in_set(s)[i] && check_table()[16].2[0] == s);
                assert(check_table()[16].2.contains(s));
            } else if i == 10 {
                assert(check_ids()[19] == checks_in_set(s)[i] && check_table()[19].2[0] == s);
                assert(check_table()[19].2.contains(s));
            } else if i == 11 {
                assert(check_ids()[20] == checks_in_set(s)[i] && check_table()[20].2[0] == s);
                assert(check_table()[20].2.contains(s));
            } else if i == 12 {
                assert(check_ids()[21] == checks_in_set(s)[i] && check_table()[21].2[0] == s);
                assert(check_table()[21].2.contains(s));
            } else if i == 13 {
                assert(check_ids()[22] == checks_in_set(s)[i] && check_table()[22].2[0] == s);
                assert(check_table()[22].2.contains(s));
            } else if i == 14 {
                assert(check_ids()[23] == checks_in_set(s)[i] && check_table()[23].2[0] == s);
                assert(check_table()[23].2.contains(s));
            } else if i == 15 {
                assert(check_ids()[26] == checks_in_set(s)[i] && check_table()[26].2[0] == s);
                assert(check_table()[26].2.contains(s));
            } else if i == 16 {
                assert(check_ids()[27] == checks_in_set(s)[i] && check_table()[27].2[0] == s);
                assert(check_table()[27].2.contains(s));
            } else if i == 17 {
                assert(check_ids()[29] == checks_in_set(s)[i] && check_table()[29].2[0] == s);
                assert(check_table()[29].2.contains(s));
            } else if i == 18 {
                assert(check_ids()[30] == checks_in_set(s)[i] && check_table()[30].2[0] == s);
                assert(check_table()[30].2.contains(s));
            } else if i == 19 {
                assert(check_ids()[32] == checks_in_set(s)[i] && check_table()[32].2[0] == s);
                assert(check_table()[32].2.contains(s));
            } else if i == 20 {
                assert(check_ids()[33] == checks_in_set(s)[i] && check_table()[33].2[0] == s);
                assert(check_table()[33].2.contains(s));
            } else if i == 21 {
                assert(check_ids()[34] == checks_in_set(s)[i] && check_table()[34].2[0] == s);
                assert(check_table()[34].2.contains(s));
            } else if i == 22 {
                assert(check_ids()[35] == checks_in_set(s)[i] && check_table()[35].2[0] == s);
                assert(check_table()[35].2.contains(s));
            } else if i == 23 {
                assert(check_ids()[38] == checks_in_set(s)[i] && check_table()[38].2[0] == s);
                assert(check_table()[38].2.contains(s));
            }
        },
        CheckSet::CodeLite => {
            if i == 0 {
                assert(check_ids()[6] == checks_in_set(s)[i] && check_table()[6].2[1] == s);
                assert(check_table()[6].2.contains(s));
            } else if i == 1 {
                assert(check_ids()[12] == checks_in_set(s)[i] && check_table()[12].2[1] == s);
                assert(check_table()[12].2.contains(s));
            } else if i == 2 {
                assert(check_ids()[14] == checks_in_set(s)[i] && check_table()[14].2[1] == s);
                assert(check_table()[14].2.contains(s));
            } else if i == 3 {
                assert(check_ids()[19] == checks_in_set(s)[i] && check_table()[19].2[1] == s);
                assert(check_table()[19].2.contains(s));
            } else if i == 4 {
                assert(check_ids()[21] == checks_in_set(s)[i] && check_table()[21].2[1] == s);
                assert(check_table()[21].2.contains(s));
            } else if i == 5 {
                assert(check_ids()[23] == checks_in_set(s)[i] && check_table()[23].2[1] == s);
                assert(check_table()[23].2.contains(s));
            } else if i == 6 {
                assert(check_ids()[29] == checks_in_set(s)[i] && check_table()[29].2[1] == s);
                assert(check_table()[29].2.contains(s));
            } else if i == 7 {
                assert(check_ids()[30] == checks_in_set(s)[i] && check_table()[30].2[1] == s);
                assert(check_table()[30].2.contains(s));
            }
        },
        CheckSet::Community => {
            if i == 0 {
                assert(check_ids()[0] == checks_in_set(s)[i] && check_table()[0].2[0] == s);
                assert(check_table()[0].2.contains(s));
            } else if i == 1 {
                assert(check_ids()[1] == checks_in_set(s)[i] && check_table()[1].2[0] == s);
                assert(check_table()[1].2.contains(s));
            } else if i == 2 {
                assert(check_ids()[3] == checks_in_set(s)[i] && check_table()[3].2[0] == s);
                assert(check_table()[3].2.contains(s));
            } else if i == 3 {
                assert(check_ids()[7] == checks_in_set(s)[i] && check_table()[7].2[0] == s);
                assert(check_table()[7].2.contains(s));
            } else if i == 4 {
                assert(check_ids()[9] == checks_in_set(s)[i] && check_table()[9].2[0] == s);
                assert(check_table()[9].2.contains(s));
            } else if i == 5 {
                assert(check_ids()[10] == checks_in_set(s)[i] && check_table()[10].2[0] == s);
                assert(check_table()[10].2.contains(s));
            } else if i == 6 {
                assert(check_ids()[11] == checks_in_set(s)[i] && check_table()[11].2[0] == s);
                assert(check_table()[11].2.contains(s));
            } else if i == 7 {
                assert(check_ids()[12] == checks_in_set(s)[i] && check_table()[12].2[2] == s);
                assert(check_table()[12].2.contains(s));
            } else if i == 8 {
                assert(check_ids()[17] == checks_in_set(s)[i] && check_table()[17].2[0] == s);
                assert(check_table()[17].2.contains(s));
            } else if i == 9 {
                assert(check_ids()[18] == checks_in_set(s)[i] && check_table()[18].2[0] == s);
                assert(check_table()[18].2.contains(s));
            } else if i == 10 {
                assert(check_ids()[24] == checks_in_set(s)[i] && check_table()[24].2[0] == s);
                assert(check_table()[24].2.contains(s));
            } else if i == 11 {
                assert(check_ids()[25] == checks_in_set(s)[i] && check_table()[25].2[0] == s);
                assert(check_table()[25].2.contains(s));
            } else if i == 12 {
                assert(check_ids()[28] == checks_in_set(s)[i] && check_table()[28].2[0] == s);
                assert(check_table()[28].2.contains(s));
            } else if i == 13 {
                assert(check_ids()[29] == checks_in_set(s)[i] && check_table()[29].2[2] == s);
                assert(check_table()[29].2.contains(s));
            } else if i == 14 {
                assert(check_ids()[31] == checks_in_set(s)[i] && check_table()[31].2[0] == s);
                assert(check_table()[31].2.contains(s));
            } else if i == 15 {
                assert(check_ids()[34] == checks_in_set(s)[i] && check_table()[34].2[1] == s);
                assert(check_table()[34].2.contains(s));
            } else if i == 16 {
                assert(check_ids()[36] == checks_in_set(s)[i] && check_table()[36].2[0] == s);
                assert(check_table()[36].2.contains(s));
            } else if i == 17 {
                assert(check_ids()[37] == checks_in_set(s)[i] && check_table()[37].2[0] == s);
                assert(check_table()[37].2.contains(s));
            } else if i == 18 {
                assert(check_ids()[39] == checks_in_set(s)[i] && check_table()[39].2[0] == s);
                assert(check_table()[39].2.contains(s));
            } else if i == 19 {
                assert(check_ids()[40] == checks_in_set(s)[i] && check_table()[40].2[0] == s);
                assert(check_table()[40].2.contains(s));
            } else if i == 20 {
                assert(check_ids()[41] == checks_in_set(s)[i] && check_table()[41].2[0] == s);
                assert(check_table()[41].2.contains(s));
            }
        },
        CheckSet::Docs => {
            if i == 0 {
                assert(check_ids()[19] == checks_in_set(s)[i] && check_table()[19].2[2] == s);
                assert(check_table()[19].2.contains(s));
            } else if i == 1 {
                assert(check_ids()[21] == checks_in_set(s)[i] && check_table()[21].2[2] == s);
                assert(check_table()[21].2.contains(s));
            } else if i == 2 {
                assert(check_ids()[29] == checks_in_set(s)[i] && check_table()[29].2[3] == s);
                assert(check_table()[29].2.contains(s));
            }
        },
    }
}


/// A check runs for a repository linted against a single check set exactly
/// when it is one of the checks of that set (for instance, `license_scanning`
/// runs for code repositories and is skipped for community ones); any other
/// identifier is skipped.
#[verifier::spinoff_prover]
#[verifier::rlimit(40)]
pub proof fn lemma_checks_run_for_set(id: Seq<char>, s: CheckSet)
    ensures
        !skipped(id, seq![s]) <==> checks_in_set(s).contains(id),
{
    let sets = seq![s];
    if check_sets_of(id).contains(s) {
        assert(sets[0] == s);
    }
    assert(!skipped(id, sets) <==> check_sets_of(id).contains(s));
    if exists|k: int| 0 <= k < check_ids().len() && #[trigger] check_ids()[k] == id {
        let k = choose|k: int| 0 <= k < check_ids().len() && #[trigger] check_ids()[k] == id;
        assert(check_table()[k].0 == id);
        lemma_check_index_of_row(k);
        if check_table()[k].2.contains(s) {
            lemma_row_listed(k, s);
        }
        if checks_in_set(s).contains(id) {
            let i = choose|i: int| 0 <= i < checks_in_set(s).len() && checks_in_set(s)[i] == id;
            lemma_listed_row(s, i);
            let j = choose|j: int|
                0 <= j < check_table().len() && check_ids()[j] == checks_in_set(s)[i]
                    && #[trigger] check_table()[j].2.contains(s);
            if j != k {
                lemma_check_ids_distinct(j, k);
            }
        }
    } else {
        let p = is_id(id);
        lemma_first_index_none(check_ids(), p);
        assert(check_index(id) == first_index(check_ids(), p));
        if checks_in_set(s).contains(id) {
            let i = choose|i: int| 0 <= i < checks_in_set(s).len() && checks_in_set(s)[i] == id;
            lemma_listed_row(s, i);
            let j = choose|j: int|
                0 <= j < check_table().len() && check_ids()[j] == checks_in_set(s)[i]
                    && #[trigger] check_table()[j].2.contains(s);
            assert(check_ids()[j] == id);
        }
    }
}


/// Upper case of an ASCII lower case letter (other characters unchanged).
pub open spec fn ascii_upper(c: char) -> char {
    if 'a' <= c && c <= 'z' {
        ((c as u32) - 32) as char
    } else {
        c
    }
}

/// The identifier with its underscores turned into hyphens.
pub open spec fn hyphenated(id: Seq<char>) -> Seq<char> {
    Seq::new(id.len(), |i: int| if id[i] == '_' { '-' } else { id[i] })
}

/// The identifier with its underscores turned into hyphens and each word
/// capitalised (`dangerous_workflow` gives `Dangerous-Workflow`).
pub open spec fn title_hyphenated(id: Seq<char>) -> Seq<char> {
    Seq::new(
        id.len(),
        |i: int|
            if id[i] == '_' {
                '-'
            } else if i == 0 || id[i - 1] == '_' {
                ascii_upper(id[i])
            } else {
                id[i]
            },
    )
}

/// The datasource of a row is named after the check: a scorecard check name
/// is the check identifier in title case with hyphens, an AFDocs category the
/// check identifier with hyphens.
pub open spec fn datasource_named_after_check(row: CheckModel) -> bool {
    match row.3 {
        Some(DatasourceModel::Scorecard(name)) => name == title_hyphenated(row.0),
        Some(DatasourceModel::Afdocs(category)) => category == hyphenated(row.0),
        None => true,
    }
}

/// The `authentication` row's datasource is named after the check.
proof fn lemma_row_3_named()
    ensures
        datasource_named_after_check(check_table()[3]),
{
    assert(check_table()[3].0 == "authentication"@);
    reveal_strlit("authentication");
    reveal_strlit("authentication");
    assert(hyphenated("authentication"@) =~= "authentication"@);
}

/// The `binary_artifacts` row's datasource is named after the check.
proof fn lemma_row_4_named()
    ensures
        datasource_named_after_check(check_table()[4]),
        check_table()[4].0.len() == 16,
{
    assert(check_table()[4].0 == "binary_artifacts"@);
    reveal_strlit("binary_artifacts");
    reveal_strlit("Binary-Artifacts");
    assert(title_hyphenated("binary_artifacts"@) =~= "Binary-Artifacts"@);
}

/// The `code_review` row's datasource is named after the check.
proof fn lemma_row_8_named()
    ensures
        datasource_named_after_check(check_table()[8]),
        check_table()[8].0.len() == 11,
{
    assert(check_table()[8].0 == "code_review"@);
    reveal_strlit("code_review");
    reveal_strlit("Code-Review");
    assert(title_hyphenated("code_review"@) =~= "Code-Review"@);
}

/// The `content_discoverability` row's datasource is named after the check.
proof fn lemma_row_10_named()
    ensures
        datasource_named_after_check(check_table()[10]),
{
    assert(check_table()[10].0 == "content_discoverability"@);
    reveal_strlit("content_discoverability");
    reveal_strlit("content-discoverability");
    assert(hyphenated("content_discoverability"@) =~= "content-discoverability"@);
}

/// The `content_structure` row's datasource is named after the check.
proof fn lemma_row_11_named()
    ensures
        datasource_named_after_check(check_table()[11]),
{
    assert(check_table()[11].0 == "content_structure"@);
    reveal_strlit("content_structure");
    reveal_strlit("content-structure");
    assert(hyphenated("content_structure"@) =~= "content-structure"@);
}

/// The `dangerous_workflow` row's datasource is named after the check.
proof fn lemma_row_13_named()
    ensures
        datasource_named_after_check(check_table()[13]),
        check_table()[13].0.len() == 18,
{
    assert(check_table()[13].0 == "dangerous_workflow"@);
    reveal_strlit("dangerous_workflow");
    reveal_strlit("Dangerous-Workflow");
    assert(title_hyphenated("dangerous_workflow"@) =~= "Dangerous-Workflow"@);
}

/// The `dependency_update_tool` row's datasource is named after the check.
proof fn lemma_row_16_named()
    ensures
        datasource_named_after_check(check_table()[16]),
        check_table()[16].0.len() == 22,
{
    assert(check_table()[16].0 == "dependency_update_tool"@);
    reveal_strlit("dependency_update_tool");
    reveal_strlit("Dependency-Update-Tool");
    assert(title_hyphenated("dependency_update_tool"@) =~= "Dependency-Update-Tool"@);
}

/// The `maintained` row's datasource is named after the check.
proof fn lemma_row_22_named()
    ensures
        datasource_named_after_check(check_table()[22]),
        check_table()[22].0.len() == 10,
{
    assert(check_table()[22].0 == "maintained"@);
    reveal_strlit("maintained");
    reveal_strlit("Maintained");
    assert(title_hyphenated("maintained"@) =~= "Maintained"@);
}

/// The `markdown_availability` row's datasource is named after the check.
proof fn lemma_row_24_named()
    ensures
        datasource_named_after_check(check_table()[24]),
{
    assert(check_table()[24].0 == "markdown_availability"@);
    reveal_strlit("markdown_availability");
    reveal_strlit("markdown-availability");
    assert(hyphenated("markdown_availability"@) =~= "markdown-availability"@);
}

/// The `observability` row's datasource is named after the check.
proof fn lemma_row_25_named()
    ensures
        datasource_named_after_check(check_table()[25]),
{
    assert(check_table()[25].0 == "observability"@);
    reveal_strlit("observability");
    reveal_strlit("observability");
    assert(hyphenated("observability"@) =~= "observability"@);
}

/// The `page_size` row's datasource is named after the check.
proof fn lemma_row_28_named()
    ensures
        datasource_named_after_check(check_table()[28]),
{
    assert(check_table()[28].0 == "page_size"@);
    reveal_strlit("page_size");
    reveal_strlit("page-size");
    assert(hyphenated("page_size"@) =~= "page-size"@);
}

/// The `signed_releases` row's datasource is named after the check.
proof fn lemma_row_35_named()
    ensures
        datasource_named_after_check(check_table()[35]),
        check_table()[35].0.len() == 15,
{
    assert(check_table()[35].0 == "signed_releases"@);
    reveal_strlit("signed_releases");
    reveal_strlit("Signed-Releases");
    assert(title_hyphenated("signed_releases"@) =~= "Signed-Releases"@);
}

/// The `token_permissions` row's datasource is named after the check.
proof fn lemma_row_38_named()
    ensures
        datasource_named_after_check(check_table()[38]),
        check_table()[38].0.len() == 17,
{
    assert(check_table()[38].0 == "token_permissions"@);
    reveal_strlit("token_permissions");
    reveal_strlit("Token-Permissions");
    assert(title_hyphenated("token_permissions"@) =~= "Token-Permissions"@);
}

/// The `url_stability` row's datasource is named after the check.
proof fn lemma_row_40_named()
    ensures
        datasource_named_after_check(check_table()[40]),
{
    assert(check_table()[40].0 == "url_stability"@);
    reveal_strlit("url_stability");
    reveal_strlit("url-stability");
    assert(hyphenated("url_stability"@) =~= "url-stability"@);
}

/// Row of the scorecard-backed check whose identifier has the length
/// provided (the identifiers of these checks all have different lengths).
spec fn scorecard_row_by_len(n: nat) -> int {
    if n == 16 {
        4
    } else if n == 11 {
        8
    } else if n == 18 {
        13
    } else if n == 22 {
        16
    } else if n == 10 {
        22
    } else if n == 15 {
        35
    } else if n == 17 {
        38
    } else {
        -1
    }
}

/// Every row's datasource is named after its check.
proof fn lemma_row_datasource_named(k: int)
    requires
        0 <= k < check_table().len(),
    ensures
        datasource_named_after_check(check_table()[k]),
        check_table()[k].3 matches Some(DatasourceModel::Scorecard(_)) ==> scorecard_row_by_len(
            check_table()[k].0.len(),
        ) == k,
{
    assert(check_table().len() == 42);
    if k == 0 {
    } else if k == 1 {
    } else if k == 2 {
    } else if k == 3 {
        lemma_row_3_named();
    } else if k == 4 {
        lemma_row_4_named();
    } else if k == 5 {
    } else if k == 6 {
    } else if k == 7 {
    } else if k == 8 {
        lemma_row_8_named();
    } else if k == 9 {
    } else if k == 10 {
        lemma_row_10_named();
    } else if k == 11 {
        lemma_row_11_named();
    } else if k == 12 {
    } else if k == 13 {
        lemma_row_13_named();
    } else if k == 14 {
    } else if k == 15 {
    } else if k == 16 {
        lemma_row_16_named();
    } else if k == 17 {
    } else if k == 18 {
    } else if k == 19 {
    } else if k == 20 {
    } else if k == 21 {
    } else if k == 22 {
        lemma_row_22_named();
    } else if k == 23 {
    } else if k == 24 {
        lemma_row_24_named();
    } else if k == 25 {
        lemma_row_25_named();
    } else if k == 26 {
    } else if k == 27 {
    } else if k == 28 {
        lemma_row_28_named();
    } else if k == 29 {
    } else if k == 30 {
    } else if k == 31 {
    } else if k == 32 {
    } else if k == 33 {
    } else if k == 34 {
    } else if k == 35 {
        lemma_row_35_named();
    } else if k == 36 {
    } else if k == 37 {
    } else if k == 38 {
        lemma_row_38_named();
    } else if k == 39 {
    } else if k == 40 {
        lemma_row_40_named();
    } else if k == 41 {
    }
}

/// The registered row of a check found by its identifier holds that
/// identifier.
proof fn lemma_check_index_row(id: Seq<char>)
    ensures
        check_index(id) matches Some(k) ==> 0 <= k < check_ids().len() && check_ids()[k] == id,
{
    lemma_first_index_some(check_ids(), is_id(id));
}

/// The OpenSSF Scorecard check a check reads is the one named after it: its
/// identifier in title case with hyphens (`dangerous_workflow` reads
/// `Dangerous-Workflow`).
pub proof fn lemma_scorecard_name_follows_check(id: Seq<char>)
    ensures
        scorecard_name_of(id) matches Some(name) ==> name == title_hyphenated(id),
{
    lemma_check_index_row(id);
    if let Some(k) = check_index(id) {
        assert(check_ids()[k] == check_table()[k].0);
        lemma_row_datasource_named(k);
    }
}

/// Two rows reading the same OpenSSF Scorecard check are the same row.
proof fn lemma_scorecard_rows_distinct(ka: int, kb: int, name: Seq<char>)
    requires
        0 <= ka < check_table().len(),
        0 <= kb < check_table().len(),
        check_table()[ka].3 == Some(DatasourceModel::Scorecard(name)),
        check_table()[kb].3 == Some(DatasourceModel::Scorecard(name)),
    ensures
        ka == kb,
{
    lemma_row_datasource_named(ka);
    lemma_row_datasource_named(kb);
    assert(title_hyphenated(check_table()[ka].0).len() == check_table()[ka].0.len());
    assert(title_hyphenated(check_table()[kb].0).len() == check_table()[kb].0.len());
}

/// No two checks read the same OpenSSF Scorecard check.
pub proof fn lemma_scorecard_names_distinct(a: Seq<char>, b: Seq<char>)
    requires
        scorecard_name_of(a) is Some,
        scorecard_name_of(a) == scorecard_name_of(b),
    ensures
        a == b,
{
    lemma_check_index_row(a);
    lemma_check_index_row(b);
    let ka = check_index(a)->0;
    let kb = check_index(b)->0;
    let name = scorecard_name_of(a)->0;
    assert(check_table()[ka].3 == Some(DatasourceModel::Scorecard(name)));
    assert(check_table()[kb].3 == Some(DatasourceModel::Scorecard(name)));
    lemma_scorecard_rows_distinct(ka, kb, name);
    assert(check_ids()[ka] == check_table()[ka].0);
}

/// The AFDocs category a check reads is the one named after it: its
/// identifier with hyphens (`content_structure` reads `content-structure`).
pub proof fn lemma_afdocs_category_follows_check(id: Seq<char>)
    ensures
        afdocs_category_of(id) matches Some(category) ==> category == hyphenated(id),
{
    lemma_check_index_row(id);
    if let Some(k) = check_index(id) {
        assert(check_ids()[k] == check_table()[k].0);
        lemma_row_datasource_named(k);
    }
}

} // verus!
