//! Snapshot retention policy: which daily snapshots of a project (or of the
//! stats) are kept and which ones can be removed.

use vstd::prelude::*;

verus! {

/// A calendar day, holding the values the retention policy reads from it.
#[derive(Clone, Copy, Debug, PartialEq, Eq, Structural)]
pub struct Day {
    /// Julian day number.
    pub julian: i32,
    /// Calendar year.
    pub year: i32,
    /// Calendar month (1 to 12).
    pub month: u8,
    /// ISO 8601 week-numbering year.
    pub iso_year: i32,
    /// ISO 8601 week number.
    pub iso_week: u8,
}

/// Year, month, ISO week-numbering year and ISO week of the day with the
/// Julian day number provided, as computed by the `time` crate (`None` when
/// the day is out of its range).
pub uninterp spec fn calendar_parts(julian: i32) -> Option<(i32, u8, i32, u8)>;

/// Calls `time::Date::from_julian_day` and reads the year, month and ISO week
/// date (year and week) of the resulting date. The contract only names that
/// result.
#[verifier::external_body]
fn julian_calendar_parts(julian: i32) -> (r: Option<(i32, u8, i32, u8)>)
    ensures
        r == calendar_parts(julian),
{
    match time::Date::from_julian_day(julian) {
        Ok(date) => {
            let (iso_year, iso_week, _) = date.to_iso_week_date();
            Some((date.year(), u8::from(date.month()), iso_year, iso_week))
        },
        Err(_) => None,
    }
}

impl Day {
    /// The day values agree with the calendar.
    pub open spec fn wf(self) -> bool {
        calendar_parts(self.julian) == Some((self.year, self.month, self.iso_year, self.iso_week))
    }

    /// Create the day with the Julian day number provided (`None` when it is
    /// out of the supported range).
    pub fn from_julian(julian: i32) -> (r: Option<Day>)
        ensures
            r is Some <==> calendar_parts(julian) is Some,
            r matches Some(d) ==> d.julian == julian && d.wf(),
    {
        match julian_calendar_parts(julian) {
            Some((year, month, iso_year, iso_week)) => Some(
                Day { julian, year, month, iso_year, iso_week },
            ),
            None => None,
        }
    }
}

/// Number of days from the day provided up to the reference day.
pub open spec fn age(ref_day: Day, d: Day) -> int {
    ref_day.julian - d.julian
}

/// The ISO week of `a` comes after the one of `b` (by ISO year, then week).
pub open spec fn later_week(a: Day, b: Day) -> bool {
    a.iso_year > b.iso_year || (a.iso_year == b.iso_year && a.iso_week > b.iso_week)
}

/// The month of `a` comes after the one of `b` (by year, then month).
pub open spec fn later_month(a: Day, b: Day) -> bool {
    a.year > b.year || (a.year == b.year && a.month > b.month)
}

/// Should the snapshot `s` be kept, given the last snapshot kept so far
/// (snapshots are visited from the most recent one).
///
/// Snapshots of the previous two days are kept, and so is the latest one of
/// each week in the last month, of each month in the last two years and of
/// each year before that.
pub open spec fn keep_next(ref_day: Day, last: Option<Day>, s: Day) -> bool {
    let age = age(ref_day, s);
    ||| age <= 2
    ||| age <= 30 && (last is None || later_week(last->0, s))
    ||| age <= 730 && (last is None || later_month(last->0, s))
    ||| last is None || last->0.year > s.year
}

/// Last element of a sequence, if any.
pub open spec fn last_of(s: Seq<Day>) -> Option<Day> {
    if s.len() == 0 {
        None
    } else {
        Some(s.last())
    }
}

/// Snapshots kept out of the ones provided (most recent first).
pub open spec fn kept(ref_day: Day, snapshots: Seq<Day>) -> Seq<Day>
    decreases snapshots.len(),
{
    if snapshots.len() == 0 {
        Seq::empty()
    } else {
        let prev = kept(ref_day, snapshots.drop_last());
        if keep_next(ref_day, last_of(prev), snapshots.last()) {
            prev.push(snapshots.last())
        } else {
            prev
        }
    }
}

/// Return the list of snapshots that we would like to keep.
pub fn get_snapshots_to_keep(ref_day: Day, snapshots: &[Day]) -> (r: Vec<Day>)
    ensures
        r@ == kept(ref_day, snapshots@),
{
    let mut keep: Vec<Day> = Vec::new();
    let mut i: usize = 0;
    while i < snapshots.len()
        invariant
            i <= snapshots@.len(),
            keep@ == kept(ref_day, snapshots@.take(i as int)),
        decreases snapshots@.len() - i,
    {
        let s = snapshots[i];
        let age: i64 = ref_day.julian as i64 - s.julian as i64;
        let last: Option<Day> = if keep.len() == 0 { None } else { Some(keep[keep.len() - 1]) };
        let k = age <= 2 || (age <= 30 && match last {
            None => true,
            Some(l) => l.iso_year > s.iso_year || (l.iso_year == s.iso_year && l.iso_week
                > s.iso_week),
        }) || (age <= 730 && match last {
            None => true,
            Some(l) => l.year > s.year || (l.year == s.year && l.month > s.month),
        }) || match last {
            None => true,
            Some(l) => l.year > s.year,
        };
        proof {
            assert(snapshots@.take(i + 1).drop_last() =~= snapshots@.take(i as int));
        }
        if k {
            keep.push(s);
        }
        i = i + 1;
    }
    proof {
        assert(snapshots@.take(snapshots@.len() as int) =~= snapshots@);
    }
    keep
}


/// Should a new snapshot be stored today: there is none yet, or the latest one
/// (snapshots come most recent first) is older than today.
pub fn needs_new_snapshot(today: Day, snapshots: &[Day]) -> (r: bool)
    ensures
        r == (snapshots@.len() == 0 || snapshots@[0].julian < today.julian),
{
    snapshots.len() == 0 || snapshots[0].julian < today.julian
}

/// Is the day provided among the ones given.
fn contains_day(days: &Vec<Day>, d: Day) -> (r: bool)
    ensures
        r == days@.contains(d),
{
    let mut i: usize = 0;
    while i < days.len()
        invariant
            i <= days@.len(),
            forall|j: int| 0 <= j < i ==> days@[j] != d,
        decreases days@.len() - i,
    {
        if days[i] == d {
            return true;
        }
        i = i + 1;
    }
    false
}

/// Snapshots the archiver removes: the ones the policy does not keep.
pub open spec fn to_delete(ref_day: Day, snapshots: Seq<Day>) -> Seq<Day> {
    let k = kept(ref_day, snapshots);
    snapshots.filter(|d: Day| !k.contains(d))
}

/// Return the snapshots no longer needed, in the order provided.
pub fn get_snapshots_to_delete(ref_day: Day, snapshots: &[Day]) -> (r: Vec<Day>)
    ensures
        r@ == to_delete(ref_day, snapshots@),
{
    let keep = get_snapshots_to_keep(ref_day, snapshots);
    let ghost k = keep@;
    let mut del: Vec<Day> = Vec::new();
    let mut i: usize = 0;
    while i < snapshots.len()
        invariant
            i <= snapshots@.len(),
            k == kept(ref_day, snapshots@),
            keep@ == k,
            del@ == snapshots@.take(i as int).filter(|d: Day| !k.contains(d)),
        decreases snapshots@.len() - i,
    {
        let s = snapshots[i];
        proof {
            reveal_with_fuel(Seq::<_>::filter, 1);
            assert(snapshots@.take(i + 1).drop_last() =~= snapshots@.take(i as int));
        }
        if !contains_day(&keep, s) {
            del.push(s);
        }
        i = i + 1;
    }
    proof {
        assert(snapshots@.take(snapshots@.len() as int) =~= snapshots@);
    }
    del
}

/// Every snapshot is either kept or removed, never both.
pub proof fn lemma_kept_or_deleted(ref_day: Day, snapshots: Seq<Day>, d: Day)
    requires
        snapshots.contains(d),
    ensures
        kept(ref_day, snapshots).contains(d) != to_delete(ref_day, snapshots).contains(d),
{
    let k = kept(ref_day, snapshots);
    let pred = |x: Day| !k.contains(x);
    snapshots.filter_lemma(pred);
    if !k.contains(d) {
        let i = choose|i: int| 0 <= i < snapshots.len() && snapshots[i] == d;
        assert(pred(snapshots[i]));
    }
}

/// `a` holds some of the elements of `b`, in the same order.
pub open spec fn is_subsequence(a: Seq<Day>, b: Seq<Day>) -> bool
    decreases b.len(),
{
    if b.len() == 0 {
        a.len() == 0
    } else if a.len() > 0 && a.last() == b.last() {
        is_subsequence(a.drop_last(), b.drop_last()) || is_subsequence(a, b.drop_last())
    } else {
        is_subsequence(a, b.drop_last())
    }
}

/// The snapshots kept are some of the snapshots provided, in the same order
/// (the policy never makes up or reorders snapshots).
pub proof fn lemma_kept_is_subsequence(ref_day: Day, snapshots: Seq<Day>)
    ensures
        is_subsequence(kept(ref_day, snapshots), snapshots),
    decreases snapshots.len(),
{
    if snapshots.len() > 0 {
        lemma_kept_is_subsequence(ref_day, snapshots.drop_last());
        let prev = kept(ref_day, snapshots.drop_last());
        if keep_next(ref_day, last_of(prev), snapshots.last()) {
            assert(prev.push(snapshots.last()).drop_last() =~= prev);
        }
    }
}

/// Snapshots taken in the previous two days (or later) are always kept.
pub proof fn lemma_recent_snapshots_kept(ref_day: Day, snapshots: Seq<Day>, i: int)
    requires
        0 <= i < snapshots.len(),
        age(ref_day, snapshots[i]) <= 2,
    ensures
        kept(ref_day, snapshots).contains(snapshots[i]),
    decreases snapshots.len(),
{
    let prev = kept(ref_day, snapshots.drop_last());
    if i == snapshots.len() - 1 {
        assert(keep_next(ref_day, last_of(prev), snapshots.last()));
        assert(kept(ref_day, snapshots)[prev.len() as int] == snapshots[i]);
    } else {
        lemma_recent_snapshots_kept(ref_day, snapshots.drop_last(), i);
        let k = choose|j: int| 0 <= j < prev.len() && prev[j] == snapshots[i];
        assert(kept(ref_day, snapshots)[k] == snapshots[i]);
    }
}

/// The first snapshot provided (the latest one) is always kept, and it comes
/// first in the result.
pub proof fn lemma_first_snapshot_kept(ref_day: Day, snapshots: Seq<Day>)
    requires
        snapshots.len() > 0,
    ensures
        kept(ref_day, snapshots).len() > 0,
        kept(ref_day, snapshots)[0] == snapshots[0],
    decreases snapshots.len(),
{
    let prev = kept(ref_day, snapshots.drop_last());
    if snapshots.len() > 1 {
        lemma_first_snapshot_kept(ref_day, snapshots.drop_last());
        assert(snapshots.drop_last()[0] == snapshots[0]);
        if keep_next(ref_day, last_of(prev), snapshots.last()) {
            assert(prev.push(snapshots.last())[0] == prev[0]);
        }
    } else {
        assert(prev.len() == 0);
        assert(keep_next(ref_day, last_of(prev), snapshots.last()));
    }
}

/// The last snapshot kept, if any, is one of the snapshots provided.
proof fn lemma_last_kept_is_given(ref_day: Day, snapshots: Seq<Day>)
    ensures
        kept(ref_day, snapshots).len() > 0 ==> exists|j: int|
            0 <= j < snapshots.len() && kept(ref_day, snapshots).last() == #[trigger] snapshots[j],
    decreases snapshots.len(),
{
    if snapshots.len() > 0 {
        let prev = kept(ref_day, snapshots.drop_last());
        lemma_last_kept_is_given(ref_day, snapshots.drop_last());
        if keep_next(ref_day, last_of(prev), snapshots.last()) {
            assert(kept(ref_day, snapshots).last() == snapshots[snapshots.len() - 1]);
        } else if prev.len() > 0 {
            let j = choose|j: int|
                0 <= j < snapshots.drop_last().len() && prev.last()
                    == #[trigger] snapshots.drop_last()[j];
            assert(kept(ref_day, snapshots).last() == snapshots[j]);
        }
    }
}

/// A snapshot of the last month that is the latest one of its ISO week is
/// kept. The snapshots come most recent first, so their ISO weeks never
/// increase along the list.
pub proof fn lemma_latest_of_week_kept(ref_day: Day, snapshots: Seq<Day>, i: int)
    requires
        forall|a: int, b: int|
            0 <= a < b < snapshots.len() ==> !later_week(#[trigger] snapshots[b], #[trigger] snapshots[a]),
        0 <= i < snapshots.len(),
        age(ref_day, snapshots[i]) <= 30,
        i == 0 || later_week(snapshots[i - 1], snapshots[i]),
    ensures
        kept(ref_day, snapshots).contains(snapshots[i]),
    decreases snapshots.len(),
{
    let prev = kept(ref_day, snapshots.drop_last());
    if i == snapshots.len() - 1 {
        lemma_last_kept_is_given(ref_day, snapshots.drop_last());
        if prev.len() > 0 {
            let j = choose|j: int|
                0 <= j < snapshots.drop_last().len() && prev.last()
                    == #[trigger] snapshots.drop_last()[j];
            assert(snapshots.drop_last()[j] == snapshots[j]);
            if j < i - 1 {
                assert(!later_week(snapshots[i - 1], snapshots[j]));
            }
            assert(later_week(prev.last(), snapshots[i]));
        }
        assert(keep_next(ref_day, last_of(prev), snapshots.last()));
        assert(kept(ref_day, snapshots)[prev.len() as int] == snapshots[i]);
    } else {
        let d = snapshots.drop_last();
        assert forall|a: int, b: int| 0 <= a < b < d.len() implies !later_week(
            #[trigger] d[b],
            #[trigger] d[a],
        ) by {
            assert(d[a] == snapshots[a] && d[b] == snapshots[b]);
        }
        if i > 0 {
            assert(d[i - 1] == snapshots[i - 1]);
        }
        lemma_latest_of_week_kept(ref_day, d, i);
        let k = choose|k: int| 0 <= k < prev.len() && prev[k] == d[i];
        assert(kept(ref_day, snapshots)[k] == snapshots[i]);
    }
}

/// A snapshot of the last two years that is the latest one of its month is
/// kept. The snapshots come most recent first, so their months never increase
/// along the list.
pub proof fn lemma_latest_of_month_kept(ref_day: Day, snapshots: Seq<Day>, i: int)
    requires
        forall|a: int, b: int|
            0 <= a < b < snapshots.len() ==> !later_month(#[trigger] snapshots[b], #[trigger] snapshots[a]),
        0 <= i < snapshots.len(),
        age(ref_day, snapshots[i]) <= 730,
        i == 0 || later_month(snapshots[i - 1], snapshots[i]),
    ensures
        kept(ref_day, snapshots).contains(snapshots[i]),
    decreases snapshots.len(),
{
    let prev = kept(ref_day, snapshots.drop_last());
    if i == snapshots.len() - 1 {
        lemma_last_kept_is_given(ref_day, snapshots.drop_last());
        if prev.len() > 0 {
            let j = choose|j: int|
                0 <= j < snapshots.drop_last().len() && prev.last()
                    == #[trigger] snapshots.drop_last()[j];
            assert(snapshots.drop_last()[j] == snapshots[j]);
            if j < i - 1 {
                assert(!later_month(snapshots[i - 1], snapshots[j]));
            }
            assert(later_month(prev.last(), snapshots[i]));
        }
        assert(keep_next(ref_day, last_of(prev), snapshots.last()));
        assert(kept(ref_day, snapshots)[prev.len() as int] == snapshots[i]);
    } else {
        let d = snapshots.drop_last();
        assert forall|a: int, b: int| 0 <= a < b < d.len() implies !later_month(
            #[trigger] d[b],
            #[trigger] d[a],
        ) by {
            assert(d[a] == snapshots[a] && d[b] == snapshots[b]);
        }
        if i > 0 {
            assert(d[i - 1] == snapshots[i - 1]);
        }
        lemma_latest_of_month_kept(ref_day, d, i);
        let k = choose|k: int| 0 <= k < prev.len() && prev[k] == d[i];
        assert(kept(ref_day, snapshots)[k] == snapshots[i]);
    }
}

/// Applying the policy to the snapshots it keeps keeps all of them: a second
/// pass of the archiver removes nothing more.
pub proof fn lemma_kept_idempotent(ref_day: Day, snapshots: Seq<Day>)
    ensures
        kept(ref_day, kept(ref_day, snapshots)) == kept(ref_day, snapshots),
    decreases snapshots.len(),
{
    if snapshots.len() > 0 {
        lemma_kept_idempotent(ref_day, snapshots.drop_last());
        let prev = kept(ref_day, snapshots.drop_last());
        let x = snapshots.last();
        if keep_next(ref_day, last_of(prev), x) {
            assert(prev.push(x).drop_last() =~= prev);
            assert(prev.push(x).last() == x);
        }
    }
}

} // verus!
