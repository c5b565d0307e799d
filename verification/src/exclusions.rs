//! Stored exclusions: the days and weeks that the user wants left out of the
//! goal recalculation, and the pruning of those too old to matter.
//!
//! The store itself is a table of rows kept elsewhere. The functions here
//! read the rows, and say which rows a write removes and what it adds.

use vstd::prelude::*;
use crate::calendar::{date_format, date_from_text, date_text, minus_days, Date};
use crate::error::EngineError;

verus! {

/// One row of the store: its id and the excluded date as the store holds it,
/// written as year, month and day. For an excluded week the date is the
/// Monday it starts on.
#[derive(Clone, Debug, PartialEq, Eq)]
pub struct ExclusionRow {
    pub id: i32,
    pub date: String,
}

/// One exclusion as read from the store: the row's id and the excluded date.
#[derive(Clone, Copy, Debug, PartialEq, Eq, Structural)]
pub struct ExclusionEntry {
    pub id: i32,
    pub date: Date,
}

/// An exclusion in numbers: the row's id and the day number of its date.
pub struct EntryModel {
    pub id: i32,
    pub day: int,
}

impl View for ExclusionEntry {
    type V = EntryModel;

    open spec fn view(&self) -> EntryModel {
        EntryModel { id: self.id, day: self.date@ }
    }
}

/// What a write does to the store: first it adds a date, then it prunes.
#[derive(Clone, Debug, PartialEq, Eq)]
pub struct ExclusionWrite {
    /// The date to add, written as year, month and day.
    pub insert: String,
    /// The rows to remove after that, by id and in the order of the store.
    pub delete: Vec<i32>,
    /// Whether the row just added is to be removed with them, because its
    /// date is too old to keep.
    pub delete_inserted: bool,
}

/// The date that a row holds, if its text is a date.
pub open spec fn row_date(row: ExclusionRow) -> Option<int> {
    date_from_text(row.date@, date_format())
}

/// Whether every row holds a date.
pub open spec fn all_dated(rows: Seq<ExclusionRow>) -> bool {
    forall|i: int| 0 <= i < rows.len() ==> (#[trigger] row_date(rows[i])) is Some
}

/// The exclusions that the rows hold, in the order of the store.
pub open spec fn entries_of(rows: Seq<ExclusionRow>) -> Seq<EntryModel> {
    rows.map_values(|row: ExclusionRow| EntryModel { id: row.id, day: row_date(row)->0 })
}

/// The exclusions of a list, in numbers.
pub open spec fn models_of(entries: Seq<ExclusionEntry>) -> Seq<EntryModel> {
    entries.map_values(|entry: ExclusionEntry| entry@)
}

/// The ids of the entries among the first `n` whose date lies strictly before
/// `limit`, in the order of the store.
pub open spec fn stale_ids(entries: Seq<EntryModel>, limit: int, n: nat) -> Seq<i32>
    decreases n,
{
    if n == 0 {
        Seq::empty()
    } else if entries[n - 1].day < limit {
        stale_ids(entries, limit, (n - 1) as nat).push(entries[n - 1].id)
    } else {
        stale_ids(entries, limit, (n - 1) as nat)
    }
}

/// The entries among the first `n` whose date does not lie before `limit`, in
/// the order of the store.
pub open spec fn fresh_entries(entries: Seq<EntryModel>, limit: int, n: nat) -> Seq<EntryModel>
    decreases n,
{
    if n == 0 {
        Seq::empty()
    } else if entries[n - 1].day < limit {
        fresh_entries(entries, limit, (n - 1) as nat)
    } else {
        fresh_entries(entries, limit, (n - 1) as nat).push(entries[n - 1])
    }
}

/// Whether `id` is the id of an entry among the first `n` whose date lies
/// strictly before `limit`.
pub open spec fn is_stale_id(entries: Seq<EntryModel>, limit: int, n: nat, id: i32) -> bool {
    exists|i: int| 0 <= i < n && (#[trigger] entries[i]).day < limit && entries[i].id == id
}

/// The store after a write that adds the day `added`, in a row with the id
/// `id`, and then prunes at `limit`: of the earlier entries and the new one,
/// those that do not lie before the limit.
pub open spec fn store_after(entries: Seq<EntryModel>, limit: int, added: int, id: i32) -> Seq<
    EntryModel,
> {
    fresh_entries(entries.push(EntryModel { id, day: added }), limit, entries.len() + 1)
}

/// Pruning removes every entry whose date lies strictly before the limit, and
/// no other: the id of each such entry is among those removed, each id
/// removed is that of such an entry, every other entry stays, and nothing
/// that stays lies before the limit.
pub proof fn lemma_pruning_removes_the_stale(entries: Seq<EntryModel>, limit: int, n: nat)
    requires
        n <= entries.len(),
    ensures
        forall|i: int|
            0 <= i < n && (#[trigger] entries[i]).day < limit ==> stale_ids(
                entries,
                limit,
                n,
            ).contains(entries[i].id),
        forall|j: int|
            0 <= j < stale_ids(entries, limit, n).len() ==> is_stale_id(
                entries,
                limit,
                n,
                #[trigger] stale_ids(entries, limit, n)[j],
            ),
        forall|j: int|
            0 <= j < fresh_entries(entries, limit, n).len() ==> (#[trigger] fresh_entries(
                entries,
                limit,
                n,
            )[j]).day >= limit,
        forall|i: int|
            0 <= i < n && (#[trigger] entries[i]).day >= limit ==> fresh_entries(
                entries,
                limit,
                n,
            ).contains(entries[i]),
        stale_ids(entries, limit, n).len() + fresh_entries(entries, limit, n).len() == n,
    decreases n,
{
    if n > 0 {
        let m = (n - 1) as nat;
        lemma_pruning_removes_the_stale(entries, limit, m);
        let ids_before = stale_ids(entries, limit, m);
        let ids = stale_ids(entries, limit, n);
        let kept_before = fresh_entries(entries, limit, m);
        let kept = fresh_entries(entries, limit, n);
        assert forall|i: int| 0 <= i < n && (#[trigger] entries[i]).day < limit implies ids.contains(
            entries[i].id,
        ) by {
            if i < m {
                assert(ids_before.contains(entries[i].id));
                let j = choose|j: int| 0 <= j < ids_before.len() && ids_before[j] == entries[i].id;
                assert(ids[j] == entries[i].id);
            } else {
                assert(ids[ids.len() - 1] == entries[i].id);
            }
        }
        assert forall|j: int| 0 <= j < ids.len() implies is_stale_id(
            entries,
            limit,
            n,
            #[trigger] ids[j],
        ) by {
            if j < ids_before.len() {
                assert(ids[j] == ids_before[j]);
                assert(is_stale_id(entries, limit, m, ids_before[j]));
                let i = choose|i: int|
                    0 <= i < m && (#[trigger] entries[i]).day < limit && entries[i].id
                        == ids_before[j];
                assert(0 <= i < n && entries[i].day < limit && entries[i].id == ids[j]);
            } else {
                assert(entries[m as int].day < limit && entries[m as int].id == ids[j]);
            }
        }
        assert forall|i: int| 0 <= i < n && (#[trigger] entries[i]).day >= limit implies kept.contains(
            entries[i],
        ) by {
            if i < m {
                assert(kept_before.contains(entries[i]));
                let j = choose|j: int| 0 <= j < kept_before.len() && kept_before[j] == entries[i];
                assert(kept[j] == entries[i]);
            } else {
                assert(kept[kept.len() - 1] == entries[i]);
            }
        }
    }
}

/// The entries that stay among the first of a list do not depend on the
/// entries that follow.
proof fn lemma_fresh_entries_of_prefix(
    entries: Seq<EntryModel>,
    longer: Seq<EntryModel>,
    limit: int,
    n: nat,
)
    requires
        n <= entries.len() <= longer.len(),
        forall|i: int| 0 <= i < entries.len() ==> entries[i] == longer[i],
    ensures
        fresh_entries(longer, limit, n) == fresh_entries(entries, limit, n),
        stale_ids(longer, limit, n) == stale_ids(entries, limit, n),
    decreases n,
{
    if n > 0 {
        lemma_fresh_entries_of_prefix(entries, longer, limit, (n - 1) as nat);
    }
}

/// After a write the store holds no entry that lies before the limit. Of the
/// earlier entries it holds exactly those that do not, in their order, and
/// after them the day that was added, unless that day lies before the limit
/// itself.
pub proof fn lemma_store_after_write(entries: Seq<EntryModel>, limit: int, added: int, id: i32)
    ensures
        forall|j: int|
            0 <= j < store_after(entries, limit, added, id).len() ==> (#[trigger] store_after(
                entries,
                limit,
                added,
                id,
            )[j]).day >= limit,
        forall|i: int|
            0 <= i < entries.len() && (#[trigger] entries[i]).day >= limit ==> store_after(
                entries,
                limit,
                added,
                id,
            ).contains(entries[i]),
        store_after(entries, limit, added, id) == if added < limit {
            fresh_entries(entries, limit, entries.len())
        } else {
            fresh_entries(entries, limit, entries.len()).push(EntryModel { id, day: added })
        },
{
    let longer = entries.push(EntryModel { id, day: added });
    lemma_fresh_entries_of_prefix(entries, longer, limit, entries.len());
    lemma_pruning_removes_the_stale(longer, limit, longer.len());
    let after = store_after(entries, limit, added, id);
    assert forall|i: int| 0 <= i < entries.len() && (#[trigger] entries[i]).day >= limit implies after.contains(
        entries[i],
    ) by {
        assert(longer[i] == entries[i]);
        assert(after.contains(longer[i]));
    }
}

/// Reads the rows of the store, in its order. Where a row holds no date the
/// result is `MalformedDate`.
pub fn read_entries(rows: &Vec<ExclusionRow>) -> (entries: Result<Vec<ExclusionEntry>, EngineError>)
    ensures
        entries is Ok <==> all_dated(rows@),
        entries is Err ==> entries == Err::<Vec<ExclusionEntry>, EngineError>(
            EngineError::MalformedDate,
        ),
        entries matches Ok(found) ==> models_of(found@) == entries_of(rows@),
{
    let mut found: Vec<ExclusionEntry> = Vec::new();
    let mut i: usize = 0;
    while i < rows.len()
        invariant
            i <= rows.len(),
            found@.len() == i,
            forall|j: int|
                0 <= j < i ==> row_date(rows@[j]) == Some((#[trigger] found@[j]).date@)
                    && found@[j].id == rows@[j].id,
        decreases rows.len() - i,
    {
        match Date::parse(rows[i].date.as_str()) {
            Ok(date) => {
                found.push(ExclusionEntry { id: rows[i].id, date });
            },
            Err(_) => {
                assert(row_date(rows@[i as int]) is None);
                return Err(EngineError::MalformedDate);
            },
        }
        i = i + 1;
    }
    assert forall|j: int| 0 <= j < rows@.len() implies (#[trigger] row_date(rows@[j])) is Some by {
        assert(row_date(rows@[j]) == Some(found@[j].date@));
    }
    assert(models_of(found@) =~= entries_of(rows@));
    Ok(found)
}

/// The dates of a list of exclusions, in its order.
pub fn dates_of(entries: &Vec<ExclusionEntry>) -> (dates: Vec<Date>)
    ensures
        dates@.len() == entries@.len(),
        forall|i: int| 0 <= i < dates@.len() ==> #[trigger] dates@[i] == entries@[i].date,
{
    let mut dates: Vec<Date> = Vec::new();
    let mut i: usize = 0;
    while i < entries.len()
        invariant
            i <= entries.len(),
            dates@.len() == i,
            forall|j: int| 0 <= j < i ==> #[trigger] dates@[j] == entries@[j].date,
        decreases entries.len() - i,
    {
        dates.push(entries[i].date);
        i = i + 1;
    }
    dates
}

/// The dates that the rows of the store hold, in its order. Where a row holds
/// no date the result is `MalformedDate`.
pub fn excluded_dates(rows: &Vec<ExclusionRow>) -> (dates: Result<Vec<Date>, EngineError>)
    ensures
        dates is Ok <==> all_dated(rows@),
        dates is Err ==> dates == Err::<Vec<Date>, EngineError>(EngineError::MalformedDate),
        dates matches Ok(found) ==> {
            &&& found@.len() == rows@.len()
            &&& forall|i: int|
                0 <= i < found@.len() ==> row_date(rows@[i]) == Some((#[trigger] found@[i])@)
        },
{
    match read_entries(rows) {
        Ok(entries) => {
            let dates = dates_of(&entries);
            assert(models_of(entries@).len() == entries@.len());
            assert(entries_of(rows@).len() == rows@.len());
            assert forall|i: int| 0 <= i < dates@.len() implies row_date(rows@[i]) == Some(
                (#[trigger] dates@[i])@,
            ) by {
                assert(models_of(entries@)[i] == entries_of(rows@)[i]);
                assert(row_date(rows@[i]) is Some);
            }
            Ok(dates)
        },
        Err(_) => Err(EngineError::MalformedDate),
    }
}

/// The ids of the exclusions whose date lies strictly before `limit`, in the
/// order of the list. An exclusion on the day `limit` itself is not among
/// them.
pub fn entries_before(entries: &Vec<ExclusionEntry>, limit: &Date) -> (ids: Vec<i32>)
    ensures
        ids@ == stale_ids(models_of(entries@), limit@, entries@.len()),
{
    let mut ids: Vec<i32> = Vec::new();
    let mut i: usize = 0;
    while i < entries.len()
        invariant
            i <= entries.len(),
            ids@ == stale_ids(models_of(entries@), limit@, i as nat),
        decreases entries.len() - i,
    {
        if entries[i].date.is_before(limit) {
            ids.push(entries[i].id);
        }
        i = i + 1;
    }
    ids
}

/// Why a store that keeps its entries for `horizon` days cannot be pruned on
/// the day `today`, if it cannot: the day `horizon` days back lies before the
/// calendar, or else a row holds no date.
pub open spec fn pruning_error(rows: Seq<ExclusionRow>, today: int, horizon: int) -> Option<
    EngineError,
> {
    if minus_days(today, horizon) is None {
        Some(EngineError::DateOutOfRange)
    } else if !all_dated(rows) {
        Some(EngineError::MalformedDate)
    } else {
        None
    }
}

/// The rows to prune on the day `today`, for a store that keeps its entries
/// for `horizon` days: the ids of the rows dated strictly more than that
/// many days back, in the order of the store.
pub fn stale_entries(rows: &Vec<ExclusionRow>, today: &Date, horizon: u64) -> (ids: Result<
    Vec<i32>,
    EngineError,
>)
    ensures
        match pruning_error(rows@, today@, horizon as int) {
            Some(error) => ids == Err::<Vec<i32>, EngineError>(error),
            None => ids matches Ok(found) && found@ == stale_ids(
                entries_of(rows@),
                today@ - horizon,
                rows@.len(),
            ),
        },
{
    let limit = match today.checked_sub_days(horizon) {
        Some(limit) => limit,
        None => {
            return Err(EngineError::DateOutOfRange);
        },
    };
    match read_entries(rows) {
        Ok(entries) => {
            assert(models_of(entries@).len() == entries@.len());
            Ok(entries_before(&entries, &limit))
        },
        Err(_) => Err(EngineError::MalformedDate),
    }
}

/// What excluding `date` on the day `today` does to a store that keeps its
/// entries for `horizon` days: `date` is added, and then the rows dated
/// strictly more than that many days back go, the row just added among them
/// if it is that old itself.
pub fn plan_exclusion(rows: &Vec<ExclusionRow>, date: &Date, today: &Date, horizon: u64) -> (write:
    Result<ExclusionWrite, EngineError>)
    ensures
        match pruning_error(rows@, today@, horizon as int) {
            Some(error) => write == Err::<ExclusionWrite, EngineError>(error),
            None => write matches Ok(w) && {
                &&& w.insert@ == date_text(date@)
                &&& w.delete@ == stale_ids(entries_of(rows@), today@ - horizon, rows@.len())
                &&& w.delete_inserted == (date@ < today@ - horizon)
            },
        },
{
    let limit = match today.checked_sub_days(horizon) {
        Some(limit) => limit,
        None => {
            return Err(EngineError::DateOutOfRange);
        },
    };
    match stale_entries(rows, today, horizon) {
        Ok(delete) => Ok(
            ExclusionWrite { insert: date.to_text(), delete, delete_inserted: date.is_before(&limit) },
        ),
        Err(error) => Err(error),
    }
}

} // verus!
