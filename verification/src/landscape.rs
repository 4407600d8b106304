//! Foundation landscape datasource: the projects listed in a landscape and
//! their summary table information.

use vstd::prelude::*;

use crate::text;

verus! {

/// Extra information for a landscape item.
#[derive(Debug, Clone, PartialEq)]
pub struct ItemExtra {
    pub clomonitor_name: Option<String>,
    pub summary_business_use_case: Option<String>,
    pub summary_integration: Option<String>,
    pub summary_integrations: Option<String>,
    pub summary_intro_url: Option<String>,
    pub summary_use_case: Option<String>,
    pub summary_personas: Option<String>,
    pub summary_release_rate: Option<String>,
    pub summary_tags: Option<String>,
}

/// Landscape item.
#[derive(Debug, Clone, PartialEq)]
pub struct Item {
    pub extra: Option<ItemExtra>,
}

/// Landscape subcategory.
#[derive(Debug, Clone, PartialEq)]
pub struct SubCategory {
    pub items: Vec<Item>,
}

/// Landscape category.
#[derive(Debug, Clone, PartialEq)]
pub struct Category {
    pub subcategories: Vec<SubCategory>,
}

/// Foundation landscape information.
#[derive(Debug, Clone, PartialEq)]
pub struct Landscape {
    pub landscape: Vec<Category>,
}

/// Position of an item: its category, subcategory and place in the
/// subcategory.
pub type ItemPosition = (int, int, int);

/// The position designates an item of the landscape.
pub open spec fn valid_position(l: Landscape, p: ItemPosition) -> bool {
    &&& 0 <= p.0 < l.landscape@.len()
    &&& 0 <= p.1 < l.landscape@[p.0].subcategories@.len()
    &&& 0 <= p.2 < l.landscape@[p.0].subcategories@[p.1].items@.len()
}

/// Item at the position provided.
pub open spec fn item_at(l: Landscape, p: ItemPosition) -> Item {
    l.landscape@[p.0].subcategories@[p.1].items@[p.2]
}

/// The first position comes before the second one in the landscape.
pub open spec fn before(a: ItemPosition, b: ItemPosition) -> bool {
    ||| a.0 < b.0
    ||| a.0 == b.0 && a.1 < b.1
    ||| a.0 == b.0 && a.1 == b.1 && a.2 < b.2
}

/// The item is the project with the name provided.
pub open spec fn is_project(item: Item, name: Seq<char>) -> bool {
    item.extra matches Some(extra) && extra.clomonitor_name matches Some(n) && n@ == name
}

/// The position holds the project with the name provided and no earlier
/// position does.
pub open spec fn first_project_at(l: Landscape, name: Seq<char>, p: ItemPosition) -> bool {
    &&& valid_position(l, p)
    &&& is_project(item_at(l, p), name)
    &&& forall|q: ItemPosition|
        valid_position(l, q) && before(q, p) ==> !is_project(#[trigger] item_at(l, q), name)
}

/// The project with the name provided: the first item listing it.
pub open spec fn project_of(l: Landscape, name: Seq<char>) -> Option<Item> {
    if exists|p: ItemPosition| first_project_at(l, name, p) {
        Some(item_at(l, choose|p: ItemPosition| first_project_at(l, name, p)))
    } else {
        None
    }
}

/// At most one position is the first one holding a project.
proof fn lemma_first_project_unique(l: Landscape, name: Seq<char>, p: ItemPosition, q: ItemPosition)
    requires
        first_project_at(l, name, p),
        first_project_at(l, name, q),
    ensures
        p == q,
{
    if before(p, q) {
        assert(!is_project(item_at(l, p), name));
    } else if before(q, p) {
        assert(!is_project(item_at(l, q), name));
    }
}

/// Summary table information of a project.
#[derive(Debug, Clone, PartialEq)]
pub struct SummaryTable {
    pub personas: Option<String>,
    pub tags: Option<String>,
    pub use_case: Option<String>,
    pub business_use_case: Option<String>,
    pub release_date: Option<String>,
    pub integrations: Option<String>,
    pub intro_url: Option<String>,
}

/// Summary table built from the extra information of an item.
pub open spec fn summary_of(extra: ItemExtra) -> SummaryTable {
    SummaryTable {
        personas: extra.summary_personas,
        tags: extra.summary_tags,
        use_case: extra.summary_use_case,
        business_use_case: extra.summary_business_use_case,
        release_date: extra.summary_release_rate,
        integrations: extra.summary_integrations,
        intro_url: extra.summary_intro_url,
    }
}

/// The summary table holds no information.
pub open spec fn summary_empty(st: SummaryTable) -> bool {
    &&& st.personas is None
    &&& st.tags is None
    &&& st.use_case is None
    &&& st.business_use_case is None
    &&& st.release_date is None
    &&& st.integrations is None
    &&& st.intro_url is None
}

/// The project's summary table information, when it holds any.
pub open spec fn summary_table_of(l: Landscape, name: Seq<char>) -> Option<SummaryTable> {
    match project_of(l, name) {
        Some(item) => match item.extra {
            Some(extra) => if summary_empty(summary_of(extra)) {
                None
            } else {
                Some(summary_of(extra))
            },
            None => None,
        },
        None => None,
    }
}

/// Copy of an optional string.
fn copy_opt(o: &Option<String>) -> (r: Option<String>)
    ensures
        r == *o,
{
    match o {
        Some(s) => Some(s.clone()),
        None => None,
    }
}

impl SummaryTable {
    /// Build the summary table from the extra information of an item.
    pub fn from_extra(extra: &ItemExtra) -> (r: SummaryTable)
        ensures
            r == summary_of(*extra),
    {
        SummaryTable {
            personas: copy_opt(&extra.summary_personas),
            tags: copy_opt(&extra.summary_tags),
            use_case: copy_opt(&extra.summary_use_case),
            business_use_case: copy_opt(&extra.summary_business_use_case),
            release_date: copy_opt(&extra.summary_release_rate),
            integrations: copy_opt(&extra.summary_integrations),
            intro_url: copy_opt(&extra.summary_intro_url),
        }
    }

    /// Does the summary table hold no information.
    pub fn is_empty(&self) -> (r: bool)
        ensures
            r == summary_empty(*self),
    {
        self.personas.is_none() && self.tags.is_none() && self.use_case.is_none()
            && self.business_use_case.is_none() && self.release_date.is_none()
            && self.integrations.is_none() && self.intro_url.is_none()
    }

    /// Markdown rendering of the summary table.
    pub fn to_markdown(&self) -> (r: String)
        ensures
            r@ == summary_markdown(*self),
    {
        let mut r = text::to_owned_string("# Summary table information\n\n**Personas**: ");
        push_or_dash(&mut r, &self.personas);
        text::push_str(&mut r, "\n\n**Tags**: ");
        push_or_dash(&mut r, &self.tags);
        text::push_str(&mut r, "\n\n**Use case**: ");
        push_or_dash(&mut r, &self.use_case);
        text::push_str(&mut r, "\n\n**Business use case**: ");
        push_or_dash(&mut r, &self.business_use_case);
        text::push_str(&mut r, "\n\n**Release date**: ");
        push_or_dash(&mut r, &self.release_date);
        text::push_str(&mut r, "\n\n**Integrations**: ");
        push_or_dash(&mut r, &self.integrations);
        text::push_str(&mut r, "\n\n**Intro URL**: ");
        push_or_dash(&mut r, &self.intro_url);
        text::push_str(&mut r, "\n");
        r
    }
}

/// The text held, or a dash.
pub open spec fn or_dash(o: Option<String>) -> Seq<char> {
    match o {
        Some(s) => s@,
        None => "-"@,
    }
}

/// Markdown rendering of a summary table.
pub open spec fn summary_markdown(st: SummaryTable) -> Seq<char> {
    "# Summary table information\n\n**Personas**: "@ + or_dash(st.personas) + "\n\n**Tags**: "@
        + or_dash(st.tags) + "\n\n**Use case**: "@ + or_dash(st.use_case)
        + "\n\n**Business use case**: "@ + or_dash(st.business_use_case)
        + "\n\n**Release date**: "@ + or_dash(st.release_date) + "\n\n**Integrations**: "@
        + or_dash(st.integrations) + "\n\n**Intro URL**: "@ + or_dash(st.intro_url) + "\n"@
}

/// Append the text held, or a dash.
fn push_or_dash(r: &mut String, o: &Option<String>)
    ensures
        final(r)@ == old(r)@ + or_dash(*o),
{
    match o {
        Some(s) => text::push_str(r, s.as_str()),
        None => text::push_str(r, "-"),
    }
}

/// Is the item the project with the name provided.
fn item_is_project(item: &Item, name: &str) -> (r: bool)
    ensures
        r == is_project(*item, name@),
{
    match &item.extra {
        Some(extra) => match &extra.clomonitor_name {
            Some(n) => text::eq_str(n.as_str(), name),
            None => false,
        },
        None => false,
    }
}

impl Landscape {
    /// Return the requested project if available.
    pub fn get_project(&self, project_name: &str) -> (r: Option<&Item>)
        ensures
            match r {
                Some(item) => project_of(*self, project_name@) == Some(*item),
                None => project_of(*self, project_name@) is None,
            },
    {
        let ghost l = *self;
        let ghost name = project_name@;
        let mut i: usize = 0;
        while i < self.landscape.len()
            invariant
                l == *self,
                name == project_name@,
                i <= self.landscape@.len(),
                forall|q: ItemPosition|
                    valid_position(l, q) && q.0 < i ==> !is_project(#[trigger] item_at(l, q), name),
            decreases self.landscape@.len() - i,
        {
            let category = &self.landscape[i];
            let mut j: usize = 0;
            while j < category.subcategories.len()
                invariant
                    l == *self,
                    name == project_name@,
                    i < self.landscape@.len(),
                    *category == self.landscape@[i as int],
                    j <= category.subcategories@.len(),
                    forall|q: ItemPosition|
                        valid_position(l, q) && (q.0 < i || (q.0 == i && q.1 < j)) ==> !is_project(
                            #[trigger] item_at(l, q),
                            name,
                        ),
                decreases category.subcategories@.len() - j,
            {
                let subcategory = &category.subcategories[j];
                let mut k: usize = 0;
                while k < subcategory.items.len()
                    invariant
                        l == *self,
                        name == project_name@,
                        i < self.landscape@.len(),
                        *category == self.landscape@[i as int],
                        j < category.subcategories@.len(),
                        *subcategory == category.subcategories@[j as int],
                        k <= subcategory.items@.len(),
                        forall|q: ItemPosition|
                            valid_position(l, q) && (q.0 < i || (q.0 == i && q.1 < j) || (q.0 == i
                                && q.1 == j && q.2 < k)) ==> !is_project(#[trigger] item_at(l, q), name),
                    decreases subcategory.items@.len() - k,
                {
                    let item = &subcategory.items[k];
                    if item_is_project(item, project_name) {
                        proof {
                            let p: ItemPosition = (i as int, j as int, k as int);
                            assert(item_at(l, p) == *item);
                            assert forall|q: ItemPosition|
                                valid_position(l, q) && before(q, p) implies !is_project(
                                #[trigger] item_at(l, q),
                                name,
                            ) by {}
                            assert(first_project_at(l, name, p));
                            let c = choose|c: ItemPosition| first_project_at(l, name, c);
                            lemma_first_project_unique(l, name, p, c);
                        }
                        return Some(item);
                    }
                    k = k + 1;
                }
                j = j + 1;
            }
            i = i + 1;
        }
        proof {
            if exists|p: ItemPosition| first_project_at(l, name, p) {
                let p = choose|p: ItemPosition| first_project_at(l, name, p);
                assert(!is_project(item_at(l, p), name));
            }
        }
        None
    }

    /// Return the project's summary table information if available.
    pub fn get_summary_table_info(&self, project_name: &str) -> (r: Option<SummaryTable>)
        ensures
            r == summary_table_of(*self, project_name@),
    {
        // Prepare project's summary table from available info (if any)
        if let Some(project) = self.get_project(project_name) {
            if let Some(extra) = &project.extra {
                let summary_table = SummaryTable::from_extra(extra);
                if !summary_table.is_empty() {
                    return Some(summary_table);
                }
            }
        }
        None
    }
}


/// The summary table of a project shows each field of the project's
/// landscape entry under its own label: the use case is the entry's summary
/// use case, the business use case its summary business use case, and so on
/// for the personas, tags, release rate, integrations and intro url; a
/// project whose entry holds none of them has no summary table.
pub proof fn lemma_summary_fields_under_their_labels(l: Landscape, name: Seq<char>)
    ensures
        summary_table_of(l, name) matches Some(st) ==> project_of(l, name) matches Some(item)
            && item.extra matches Some(e) && st.use_case == e.summary_use_case
            && st.business_use_case == e.summary_business_use_case && st.personas
            == e.summary_personas && st.tags == e.summary_tags && st.release_date
            == e.summary_release_rate && st.integrations == e.summary_integrations
            && st.intro_url == e.summary_intro_url,
        project_of(l, name) matches Some(item) ==> (item.extra matches Some(e) && (
        e.summary_use_case is Some || e.summary_business_use_case is Some) ==> summary_table_of(
            l,
            name,
        ) is Some),
{
}

/// In the markdown of a summary table, the use case follows the use case
/// label and the business use case follows the business use case label.
pub proof fn lemma_summary_markdown_labels(st: SummaryTable)
    ensures
        exists|a: Seq<char>, b: Seq<char>|
            summary_markdown(st) == a + ("\n\n**Use case**: "@ + or_dash(st.use_case)
                + "\n\n**Business use case**: "@ + or_dash(st.business_use_case)) + b,
{
    let a = "# Summary table information\n\n**Personas**: "@ + or_dash(st.personas) + "\n\n**Tags**: "@
        + or_dash(st.tags);
    let b = "\n\n**Release date**: "@ + or_dash(st.release_date) + "\n\n**Integrations**: "@
        + or_dash(st.integrations) + "\n\n**Intro URL**: "@ + or_dash(st.intro_url) + "\n"@;
    let x = "\n\n**Use case**: "@ + or_dash(st.use_case) + "\n\n**Business use case**: "@ + or_dash(
        st.business_use_case,
    );
    assert(summary_markdown(st) =~= a + x + b);
}

} // verus!
