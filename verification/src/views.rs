//! Project views tracking: views are counted per project and day in a batch
//! that is periodically handed over, sorted, to be stored.

use vstd::prelude::*;

verus! {

/// Views counted for a project on a day.
#[derive(Debug, Clone, Copy, PartialEq, Eq, Structural)]
pub struct ViewEntry {
    /// Project identifier (the bits of its UUID).
    pub project: u128,
    /// Day the views happened (Julian day number).
    pub day: i32,
    /// Number of views.
    pub total: u32,
}

/// Key a view is counted under: the project and the day.
pub open spec fn key(e: ViewEntry) -> (u128, i32) {
    (e.project, e.day)
}

/// The first key comes before the second one (by project, then day).
pub open spec fn key_lt(a: (u128, i32), b: (u128, i32)) -> bool {
    a.0 < b.0 || (a.0 == b.0 && a.1 < b.1)
}

/// No two entries share a key.
pub open spec fn distinct_keys(es: Seq<ViewEntry>) -> bool {
    forall|i: int, j: int| 0 <= i < j < es.len() ==> key(#[trigger] es[i]) != key(#[trigger] es[j])
}

/// Entries sorted by key, each key appearing once.
pub open spec fn sorted_keys(es: Seq<ViewEntry>) -> bool {
    forall|i: int, j: int| 0 <= i < j < es.len() ==> key_lt(key(#[trigger] es[i]), key(#[trigger] es[j]))
}

/// Views counted by the entries, by key.
pub open spec fn counts(es: Seq<ViewEntry>) -> Map<(u128, i32), nat>
    decreases es.len(),
{
    if es.len() == 0 {
        Map::empty()
    } else {
        counts(es.drop_last()).insert(key(es.last()), es.last().total as nat)
    }
}

proof fn lemma_counts_dom(es: Seq<ViewEntry>, k: (u128, i32))
    ensures
        counts(es).dom().contains(k) <==> exists|j: int| 0 <= j < es.len() && key(#[trigger] es[j]) == k,
    decreases es.len(),
{
    if es.len() > 0 {
        lemma_counts_dom(es.drop_last(), k);
        if exists|j: int| 0 <= j < es.drop_last().len() && key(#[trigger] es.drop_last()[j]) == k {
            let j = choose|j: int| 0 <= j < es.drop_last().len() && key(#[trigger] es.drop_last()[j]) == k;
            assert(key(es[j]) == k);
        }
        if exists|j: int| 0 <= j < es.len() && key(#[trigger] es[j]) == k {
            let j = choose|j: int| 0 <= j < es.len() && key(#[trigger] es[j]) == k;
            if j < es.len() - 1 {
                assert(key(es.drop_last()[j]) == k);
            }
        }
    }
}

proof fn lemma_counts_at(es: Seq<ViewEntry>, j: int)
    requires
        distinct_keys(es),
        0 <= j < es.len(),
    ensures
        counts(es).dom().contains(key(es[j])),
        counts(es)[key(es[j])] == es[j].total as nat,
    decreases es.len(),
{
    if j < es.len() - 1 {
        assert(distinct_keys(es.drop_last()));
        assert(es.drop_last()[j] == es[j]);
        lemma_counts_at(es.drop_last(), j);
        assert(key(es[j]) != key(es.last()));
    }
}

proof fn lemma_counts_update(es: Seq<ViewEntry>, i: int, e: ViewEntry)
    requires
        distinct_keys(es),
        0 <= i < es.len(),
        key(e) == key(es[i]),
    ensures
        counts(es.update(i, e)) =~= counts(es).insert(key(e), e.total as nat),
    decreases es.len(),
{
    let u = es.update(i, e);
    if i == es.len() - 1 {
        assert(u.drop_last() =~= es.drop_last());
    } else {
        assert(distinct_keys(es.drop_last()));
        lemma_counts_update(es.drop_last(), i, e);
        assert(u.drop_last() =~= es.drop_last().update(i, e));
        assert(key(es.last()) != key(e));
    }
}

/// Position of the entry counting views under the key provided, if any.
fn find_key(entries: &Vec<ViewEntry>, project: u128, day: i32) -> (r: Option<usize>)
    ensures
        r matches Some(i) ==> i < entries@.len() && key(entries@[i as int]) == (project, day),
        r is None ==> forall|j: int| 0 <= j < entries@.len() ==> key(#[trigger] entries@[j]) != (project, day),
{
    let mut i: usize = 0;
    while i < entries.len()
        invariant
            i <= entries@.len(),
            forall|j: int| 0 <= j < i ==> key(#[trigger] entries@[j]) != (project, day),
        decreases entries@.len() - i,
    {
        if entries[i].project == project && entries[i].day == day {
            return Some(i);
        }
        i = i + 1;
    }
    None
}

/// Views counted since the batch was last handed over.
pub struct ViewsBatch {
    entries: Vec<ViewEntry>,
}

impl ViewsBatch {
    /// Views counted, by project and day.
    pub closed spec fn counts(&self) -> Map<(u128, i32), nat> {
        counts(self.entries@)
    }

    /// One entry per key, each counting views.
    #[verifier::type_invariant]
    spec fn well_formed(self) -> bool {
        &&& distinct_keys(self.entries@)
        &&& forall|i: int| 0 <= i < self.entries@.len() ==> (#[trigger] self.entries@[i]).total > 0
    }

    /// An empty batch.
    pub fn new() -> (r: ViewsBatch)
        ensures
            r.counts() == Map::<(u128, i32), nat>::empty(),
    {
        ViewsBatch { entries: Vec::new() }
    }

    /// Has no view been counted.
    pub fn is_empty(&self) -> (r: bool)
        ensures
            r <==> self.counts().dom().is_empty(),
    {
        proof {
            if self.entries@.len() > 0 {
                lemma_counts_dom(self.entries@, key(self.entries@[0]));
                assert(self.counts().dom().contains(key(self.entries@[0])));
            } else {
                assert(self.counts().dom() =~= Set::empty());
            }
        }
        self.entries.len() == 0
    }

    /// Number of views counted for the project on the day provided.
    pub fn total(&self, project: u128, day: i32) -> (r: u32)
        ensures
            r == if self.counts().dom().contains((project, day)) {
                self.counts()[(project, day)]
            } else {
                0
            },
    {
        proof {
            use_type_invariant(self);
        }
        match find_key(&self.entries, project, day) {
            Some(i) => {
                proof {
                    lemma_counts_at(self.entries@, i as int);
                }
                self.entries[i].total
            },
            None => {
                proof {
                    lemma_counts_dom(self.entries@, (project, day));
                }
                0
            },
        }
    }

    /// Count a view of the project on the day provided.
    pub fn record_view(&mut self, project: u128, day: i32)
        requires
            !old(self).counts().dom().contains((project, day)) || old(self).counts()[(project, day)]
                < u32::MAX,
        ensures
            final(self).counts() == old(self).counts().insert(
                (project, day),
                if old(self).counts().dom().contains((project, day)) {
                    old(self).counts()[(project, day)] + 1
                } else {
                    1
                },
            ),
    {
        proof {
            use_type_invariant(&*self);
        }
        let ghost before = self.entries@;
        let mut entries: Vec<ViewEntry> = Vec::new();
        std::mem::swap(&mut entries, &mut self.entries);
        match find_key(&entries, project, day) {
            Some(i) => {
                proof {
                    lemma_counts_at(before, i as int);
                }
                let updated = ViewEntry { project, day, total: entries[i].total + 1 };
                entries.set(i, updated);
                proof {
                    lemma_counts_update(before, i as int, updated);
                    assert(entries@ == before.update(i as int, updated));
                    assert forall|a: int, b: int|
                        0 <= a < b < entries@.len() implies key(#[trigger] entries@[a]) != key(
                        #[trigger] entries@[b],
                    ) by {
                        assert(key(entries@[a]) == key(before[a]));
                        assert(key(entries@[b]) == key(before[b]));
                    }
                    assert forall|j: int| 0 <= j < entries@.len() implies (#[trigger] entries@[j]).total > 0 by {
                        if j != i {
                            assert(entries@[j] == before[j]);
                        }
                    }
                }
            },
            None => {
                proof {
                    lemma_counts_dom(before, (project, day));
                }
                entries.push(ViewEntry { project, day, total: 1 });
                proof {
                    assert(entries@.drop_last() =~= before);
                    assert forall|a: int, b: int|
                        0 <= a < b < entries@.len() implies key(#[trigger] entries@[a]) != key(
                        #[trigger] entries@[b],
                    ) by {
                        assert(entries@[a] == before[a]);
                        if b < before.len() {
                            assert(entries@[b] == before[b]);
                        }
                    }
                    assert forall|j: int| 0 <= j < entries@.len() implies (#[trigger] entries@[j]).total > 0 by {
                        if j < before.len() {
                            assert(entries@[j] == before[j]);
                        }
                    }
                }
            },
        }
        self.entries = entries;
    }

    /// Hand the views counted over, sorted by project and day, leaving the
    /// batch empty.
    #[verifier::rlimit(40)]
    #[verifier::spinoff_prover]
    pub fn take(&mut self) -> (r: Vec<ViewEntry>)
        ensures
            final(self).counts() == Map::<(u128, i32), nat>::empty(),
            sorted_keys(r@),
            forall|k: (u128, i32)|
                old(self).counts().dom().contains(k) <==> exists|j: int|
                    0 <= j < r@.len() && key(#[trigger] r@[j]) == k,
            forall|j: int|
                0 <= j < r@.len() ==> old(self).counts()[key(#[trigger] r@[j])] == r@[j].total,
    {
        proof {
            use_type_invariant(&*self);
        }
        let mut entries: Vec<ViewEntry> = Vec::new();
        std::mem::swap(&mut entries, &mut self.entries);
        let ghost es = entries@;
        let mut sorted: Vec<ViewEntry> = Vec::new();
        let mut i: usize = 0;
        while i < entries.len()
            invariant
                i <= es.len(),
                entries@ == es,
                distinct_keys(es),
                sorted_keys(sorted@),
                same_entries(sorted@, es.take(i as int)),
            decreases es.len() - i,
        {
            let e = entries[i];
            // Position after the entries with a smaller key
            let mut p: usize = 0;
            while p < sorted.len() && (sorted[p].project < e.project || (sorted[p].project
                == e.project && sorted[p].day < e.day))
                invariant
                    p <= sorted@.len(),
                    forall|j: int| 0 <= j < p ==> key_lt(key(#[trigger] sorted@[j]), key(e)),
                decreases sorted@.len() - p,
            {
                p = p + 1;
            }
            let ghost old_sorted = sorted@;
            proof {
                lemma_take_distinct(es, i as int);
                lemma_insert_step(old_sorted, es.take(i as int), p as int, e);
            }
            sorted.insert(p, e);
            proof {
                assert(es.take(i as int).push(e) =~= es.take(i + 1));
            }
            i = i + 1;
        }
        proof {
            assert(es.take(es.len() as int) =~= es);
            lemma_same_entries_counts(sorted@, es);
            assert(counts(self.entries@) == Map::<(u128, i32), nat>::empty());
        }
        sorted
    }
}

/// The two sequences hold the same entries (each entry of one occurs in the
/// other).
pub open spec fn same_entries(a: Seq<ViewEntry>, b: Seq<ViewEntry>) -> bool {
    &&& forall|j: int| #![trigger a[j]] 0 <= j < a.len() ==> exists|m: int|
        0 <= m < b.len() && #[trigger] b[m] == a[j]
    &&& forall|m: int| #![trigger b[m]] 0 <= m < b.len() ==> exists|j: int|
        0 <= j < a.len() && #[trigger] a[j] == b[m]
}

proof fn lemma_take_distinct(es: Seq<ViewEntry>, i: int)
    requires
        distinct_keys(es),
        0 <= i < es.len(),
    ensures
        distinct_keys(es.take(i)),
        forall|m: int| 0 <= m < i ==> key(#[trigger] es.take(i)[m]) != key(es[i]),
{
    assert forall|m: int| 0 <= m < i implies key(#[trigger] es.take(i)[m]) != key(es[i]) by {
        assert(es.take(i)[m] == es[m]);
    }
    assert forall|a: int, b: int| 0 <= a < b < es.take(i).len() implies key(
        #[trigger] es.take(i)[a],
    ) != key(#[trigger] es.take(i)[b]) by {
        assert(es.take(i)[a] == es[a] && es.take(i)[b] == es[b]);
    }
}

proof fn lemma_insert_step(sorted: Seq<ViewEntry>, done: Seq<ViewEntry>, p: int, e: ViewEntry)
    requires
        sorted_keys(sorted),
        same_entries(sorted, done),
        forall|m: int| 0 <= m < done.len() ==> key(#[trigger] done[m]) != key(e),
        0 <= p <= sorted.len(),
        forall|j: int| 0 <= j < p ==> key_lt(key(#[trigger] sorted[j]), key(e)),
        p < sorted.len() ==> !key_lt(key(sorted[p]), key(e)),
    ensures
        sorted_keys(sorted.insert(p, e)),
        same_entries(sorted.insert(p, e), done.push(e)),
{
    lemma_insert_same_entries(sorted, done, p, e);
    if p < sorted.len() {
        assert(exists|m: int| 0 <= m < done.len() && #[trigger] done[m] == sorted[p]);
        let m = choose|m: int| 0 <= m < done.len() && #[trigger] done[m] == sorted[p];
        assert(key(done[m]) != key(e));
    }
    lemma_insert_sorted(sorted, p, e);
}

proof fn lemma_insert_sorted(sorted: Seq<ViewEntry>, p: int, e: ViewEntry)
    requires
        sorted_keys(sorted),
        0 <= p <= sorted.len(),
        forall|j: int| 0 <= j < p ==> key_lt(key(#[trigger] sorted[j]), key(e)),
        p < sorted.len() ==> key_lt(key(e), key(sorted[p])),
    ensures
        sorted_keys(sorted.insert(p, e)),
{
    sorted.insert_ensures(p, e);
    let s = sorted.insert(p, e);
    assert forall|a: int, b: int| 0 <= a < b < s.len() implies key_lt(
        key(#[trigger] s[a]),
        key(#[trigger] s[b]),
    ) by {
        if b < p {
            assert(s[a] == sorted[a] && s[b] == sorted[b]);
        } else if b == p {
            assert(s[a] == sorted[a]);
        } else if a < p {
            assert(s[a] == sorted[a] && s[b] == sorted[b - 1]);
        } else if a == p {
            assert(s[b] == sorted[b - 1]);
        } else {
            assert(s[a] == sorted[a - 1] && s[b] == sorted[b - 1]);
        }
    }
}

proof fn lemma_insert_same_entries(sorted: Seq<ViewEntry>, done: Seq<ViewEntry>, p: int, e: ViewEntry)
    requires
        same_entries(sorted, done),
        0 <= p <= sorted.len(),
    ensures
        same_entries(sorted.insert(p, e), done.push(e)),
{
    sorted.insert_ensures(p, e);
    let s = sorted.insert(p, e);
    let d = done.push(e);
    assert forall|j: int| #![trigger s[j]] 0 <= j < s.len() implies exists|m: int|
        0 <= m < d.len() && #[trigger] d[m] == s[j] by {
        if j == p {
            assert(d[done.len() as int] == s[j]);
        } else {
            let k = if j < p { j } else { j - 1 };
            assert(s[j] == sorted[k]);
            assert(exists|m: int| 0 <= m < done.len() && #[trigger] done[m] == sorted[k]);
            let m = choose|m: int| 0 <= m < done.len() && #[trigger] done[m] == sorted[k];
            assert(d[m] == s[j]);
        }
    }
    assert forall|m: int| #![trigger d[m]] 0 <= m < d.len() implies exists|j: int|
        0 <= j < s.len() && #[trigger] s[j] == d[m] by {
        if m < done.len() {
            assert(d[m] == done[m]);
            assert(exists|j: int| 0 <= j < sorted.len() && #[trigger] sorted[j] == done[m]);
            let j = choose|j: int| 0 <= j < sorted.len() && #[trigger] sorted[j] == done[m];
            if j < p {
                assert(s[j] == d[m]);
            } else {
                assert(s[j + 1] == d[m]);
            }
        } else {
            assert(s[p] == d[m]);
        }
    }
}

proof fn lemma_same_entries_counts(sorted: Seq<ViewEntry>, es: Seq<ViewEntry>)
    requires
        same_entries(sorted, es),
        distinct_keys(es),
    ensures
        forall|k: (u128, i32)|
            counts(es).dom().contains(k) <==> exists|j: int|
                0 <= j < sorted.len() && key(#[trigger] sorted[j]) == k,
        forall|j: int| 0 <= j < sorted.len() ==> counts(es)[key(#[trigger] sorted[j])] == sorted[j].total,
{
    assert forall|k: (u128, i32)| counts(es).dom().contains(k) <==> exists|j: int|
        0 <= j < sorted.len() && key(#[trigger] sorted[j]) == k by {
        lemma_counts_dom(es, k);
        if exists|m: int| 0 <= m < es.len() && key(#[trigger] es[m]) == k {
            let m = choose|m: int| 0 <= m < es.len() && key(#[trigger] es[m]) == k;
            let j = choose|j: int| 0 <= j < sorted.len() && #[trigger] sorted[j] == es[m];
            assert(key(sorted[j]) == k);
        }
        if exists|j: int| 0 <= j < sorted.len() && key(#[trigger] sorted[j]) == k {
            let j = choose|j: int| 0 <= j < sorted.len() && key(#[trigger] sorted[j]) == k;
            let m = choose|m: int| 0 <= m < es.len() && #[trigger] es[m] == sorted[j];
            assert(key(es[m]) == k);
        }
    }
    assert forall|j: int| 0 <= j < sorted.len() implies counts(es)[key(#[trigger] sorted[j])]
        == sorted[j].total by {
        let m = choose|m: int| 0 <= m < es.len() && #[trigger] es[m] == sorted[j];
        lemma_counts_at(es, m);
    }
}

} // verus!
