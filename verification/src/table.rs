//! Tables of rows kept in the order of their ids.
//!
//! A table is the in-memory form of one relation of the store. Its rows
//! carry distinct ids and stand in ascending order of them, so the oldest
//! row of any kind is the first one of that kind.

use vstd::prelude::*;

verus! {

/// A row of a table: a value with a mathematical view and an id.
pub trait Record: View + Clone + Sized {
    /// The id that a row's view carries.
    spec fn key(row: Self::V) -> int;

    /// The row's id.
    fn id(&self) -> (id: i64)
        ensures
            id == Self::key(self@),
    ;

    /// A clone of a row has the row's view.
    proof fn clone_keeps_view(row: Self, copy: Self)
        requires
            cloned::<Self>(row, copy),
        ensures
            copy@ == row@,
    ;
}

/// A row that is delivered once: it is pending until it is published.
pub trait Publishable: Record {
    /// Whether a row's view says that the row was delivered.
    spec fn published(row: Self::V) -> bool;

    /// The view of the row once it is delivered.
    spec fn delivered(row: Self::V) -> Self::V;

    /// Whether the row was delivered.
    fn is_published(&self) -> (published: bool)
        ensures
            published == Self::published(self@),
    ;

    /// Records that the row was delivered.
    fn publish(&mut self)
        ensures
            final(self)@ == Self::delivered(old(self)@),
    ;

    /// Delivery changes nothing but the flag.
    proof fn delivered_is_published(row: Self::V)
        ensures
            Self::published(Self::delivered(row)),
            Self::key(Self::delivered(row)) == Self::key(row),
            Self::published(row) ==> Self::delivered(row) == row,
    ;
}

/// The views of `rows`, in order.
pub open spec fn views<T: View>(rows: Seq<T>) -> Seq<T::V> {
    Seq::new(rows.len(), |i: int| rows[i]@)
}

/// Whether the ids of `rows` rise strictly from each row to the next.
pub open spec fn ascending<T: Record>(rows: Seq<T::V>) -> bool {
    forall|i: int, j: int|
        0 <= i < j < rows.len() ==> T::key(#[trigger] rows[i]) < T::key(#[trigger] rows[j])
}

/// Whether some row of `rows` has the id `id`.
pub open spec fn holds<T: Record>(rows: Seq<T::V>, id: int) -> bool {
    exists|i: int| 0 <= i < rows.len() && T::key(#[trigger] rows[i]) == id
}

/// The place in `rows` of a row with the id `id`.
pub open spec fn place<T: Record>(rows: Seq<T::V>, id: int) -> int {
    choose|i: int| 0 <= i < rows.len() && T::key(#[trigger] rows[i]) == id
}

/// The row of `rows` with the id `id`, if there is one.
pub open spec fn lookup<T: Record>(rows: Seq<T::V>, id: int) -> Option<T::V> {
    if holds::<T>(rows, id) {
        Some(rows[place::<T>(rows, id)])
    } else {
        None
    }
}

/// The id that a row appended to `rows` gets: one more than the last id,
/// and 1 in an empty table.
pub open spec fn following_key<T: Record>(rows: Seq<T::V>) -> int {
    if rows.len() == 0 {
        1
    } else {
        T::key(rows.last()) + 1
    }
}

/// Whether `rows` has room for `count` more rows: whether the ids that they
/// would get are all representable.
pub open spec fn has_room<T: Record>(rows: Seq<T::V>, count: int) -> bool {
    following_key::<T>(rows) + count - 1 <= i64::MAX
}

/// Whether some row of `rows` is still pending.
pub open spec fn has_pending<T: Publishable>(rows: Seq<T::V>) -> bool {
    exists|i: int| 0 <= i < rows.len() && !T::published(#[trigger] rows[i])
}

/// Whether the row at `i` is pending and no pending row of `rows` has a
/// smaller id.
pub open spec fn is_oldest_pending<T: Publishable>(rows: Seq<T::V>, i: int) -> bool {
    &&& 0 <= i < rows.len()
    &&& !T::published(rows[i])
    &&& forall|j: int|
        0 <= j < rows.len() && !T::published(#[trigger] rows[j]) ==> T::key(rows[i]) <= T::key(
            rows[j],
        )
}

/// The place of the pending row with the smallest id.
pub open spec fn oldest_pending_place<T: Publishable>(rows: Seq<T::V>) -> int {
    choose|i: int| is_oldest_pending::<T>(rows, i)
}

/// The pending row with the smallest id, if any row is pending.
pub open spec fn oldest_pending<T: Publishable>(rows: Seq<T::V>) -> Option<T::V> {
    if has_pending::<T>(rows) {
        Some(rows[oldest_pending_place::<T>(rows)])
    } else {
        None
    }
}

/// In a table with ascending ids the row at `i` is the one that its id
/// finds.
pub proof fn lemma_lookup_at<T: Record>(rows: Seq<T::V>, i: int)
    requires
        ascending::<T>(rows),
        0 <= i < rows.len(),
    ensures
        holds::<T>(rows, T::key(rows[i])),
        place::<T>(rows, T::key(rows[i])) == i,
        lookup::<T>(rows, T::key(rows[i])) == Some(rows[i]),
{
}

/// Appending a row whose id lies above the last id keeps the ids ascending.
pub proof fn lemma_ascending_push<T: Record>(rows: Seq<T::V>, row: T::V)
    requires
        ascending::<T>(rows),
        rows.len() == 0 || T::key(rows.last()) < T::key(row),
    ensures
        ascending::<T>(rows.push(row)),
{
}

/// Filtering keeps a sequence whose every element passes.
pub proof fn lemma_filter_all<A>(elements: Seq<A>, pred: spec_fn(A) -> bool)
    requires
        forall|i: int| 0 <= i < elements.len() ==> pred(#[trigger] elements[i]),
    ensures
        elements.filter(pred) == elements,
    decreases elements.len(),
{
    reveal(Seq::filter);
    if elements.len() > 0 {
        lemma_filter_all(elements.drop_last(), pred);
    }
}

/// In a table with ascending ids, a pending row before which every row is
/// published is the oldest pending one.
pub proof fn lemma_first_pending_is_oldest<T: Publishable>(rows: Seq<T::V>, i: int)
    requires
        ascending::<T>(rows),
        0 <= i < rows.len(),
        !T::published(rows[i]),
        forall|j: int| 0 <= j < i ==> T::published(#[trigger] rows[j]),
    ensures
        has_pending::<T>(rows),
        is_oldest_pending::<T>(rows, i),
        oldest_pending_place::<T>(rows) == i,
        oldest_pending::<T>(rows) == Some(rows[i]),
{
    assert(is_oldest_pending::<T>(rows, i));
}

/// Among the first `n` rows, if any is pending, one pending row has the
/// smallest id.
proof fn lemma_least_pending<T: Publishable>(rows: Seq<T::V>, n: int) -> (least: int)
    requires
        0 <= n <= rows.len(),
        exists|j: int| 0 <= j < n && !T::published(#[trigger] rows[j]),
    ensures
        0 <= least < n,
        !T::published(rows[least]),
        forall|j: int|
            0 <= j < n && !T::published(#[trigger] rows[j]) ==> T::key(rows[least]) <= T::key(
                rows[j],
            ),
    decreases n,
{
    if exists|j: int| 0 <= j < n - 1 && !T::published(#[trigger] rows[j]) {
        let before = lemma_least_pending::<T>(rows, n - 1);
        if !T::published(rows[n - 1]) && T::key(rows[n - 1]) < T::key(rows[before]) {
            n - 1
        } else {
            before
        }
    } else {
        n - 1
    }
}

/// The row that the selection of the oldest pending row yields is a row of
/// the table, is pending, and has the smallest id of all pending rows. The
/// selection yields nothing only if every row is published.
pub proof fn oldest_pending_is_minimal<T: Publishable>(rows: Seq<T::V>)
    ensures
        match oldest_pending::<T>(rows) {
            Some(row) => {
                &&& is_oldest_pending::<T>(rows, oldest_pending_place::<T>(rows))
                &&& row == rows[oldest_pending_place::<T>(rows)]
                &&& !T::published(row)
                &&& forall|j: int|
                    0 <= j < rows.len() && !T::published(#[trigger] rows[j]) ==> T::key(row)
                        <= T::key(rows[j])
            },
            None => forall|j: int| 0 <= j < rows.len() ==> T::published(#[trigger] rows[j]),
        },
{
    if has_pending::<T>(rows) {
        let least = lemma_least_pending::<T>(rows, rows.len() as int);
        assert(is_oldest_pending::<T>(rows, least));
    }
}

/// A published row is never the one that the selection of the oldest
/// pending row yields: in a well-formed table the selected row has another
/// id.
pub proof fn published_is_not_selected<T: Publishable>(rows: Seq<T::V>, i: int)
    requires
        ascending::<T>(rows),
        0 <= i < rows.len(),
        T::published(rows[i]),
    ensures
        match oldest_pending::<T>(rows) {
            Some(row) => T::key(row) != T::key(rows[i]),
            None => true,
        },
{
    oldest_pending_is_minimal::<T>(rows);
}

/// One relation of the store: its rows, in ascending order of their ids.
#[derive(Debug)]
pub struct Table<T: Record> {
    rows: Vec<T>,
}

impl<T: Record> View for Table<T> {
    type V = Seq<T::V>;

    closed spec fn view(&self) -> Seq<T::V> {
        views(self.rows@)
    }
}

impl<T: Record> Table<T> {
    /// A table is well formed when the ids of its rows ascend; then no two
    /// rows share an id.
    pub open spec fn wf(&self) -> bool {
        ascending::<T>(self@)
    }

    /// The empty table.
    pub fn new() -> (table: Self)
        ensures
            table@ == Seq::<T::V>::empty(),
            table.wf(),
    {
        let table = Table { rows: Vec::new() };
        table
    }

    /// The table that holds `rows`, or nothing if their ids do not ascend.
    pub fn from_rows(rows: Vec<T>) -> (table: Option<Self>)
        ensures
            match table {
                Some(table) => table@ == views(rows@) && table.wf(),
                None => !ascending::<T>(views(rows@)),
            },
    {
        let mut i: usize = 1;
        while i < rows.len()
            invariant
                1 <= i,
                forall|a: int, b: int|
                    0 <= a < b < i && b < rows.len() ==> T::key(#[trigger] views(rows@)[a])
                        < T::key(#[trigger] views(rows@)[b]),
            decreases rows.len() - i,
        {
            let before: i64 = rows[i - 1].id();
            let here: i64 = rows[i].id();
            if before >= here {
                proof {
                    let all = views(rows@);
                    assert(T::key(all[i - 1]) >= T::key(all[i as int]));
                }
                return None;
            }
            proof {
                let all = views(rows@);
                assert forall|a: int, b: int| 0 <= a < b < i + 1 && b < rows.len() implies T::key(
                    #[trigger] all[a],
                ) < T::key(#[trigger] all[b]) by {
                    if b == i {
                        if a < i - 1 {
                            assert(T::key(all[a]) < T::key(all[i - 1]));
                        }
                    }
                }
            }
            i = i + 1;
        }
        Some(Table { rows })
    }

    /// The number of rows.
    pub fn len(&self) -> (len: usize)
        ensures
            len == self@.len(),
    {
        self.rows.len()
    }

    /// The row at `i`, counting from the smallest id.
    pub fn row(&self, i: usize) -> (row: &T)
        requires
            i < self@.len(),
        ensures
            row@ == self@[i as int],
    {
        &self.rows[i]
    }

    /// A copy of every row, in ascending order of the ids.
    pub fn rows(&self) -> (rows: Vec<T>)
        ensures
            views(rows@) == self@,
    {
        let mut out: Vec<T> = Vec::new();
        let mut i: usize = 0;
        while i < self.rows.len()
            invariant
                i <= self.rows.len(),
                out.len() == i,
                forall|k: int| 0 <= k < i ==> (#[trigger] out[k])@ == self.rows[k]@,
            decreases self.rows.len() - i,
        {
            let copy = self.rows[i].clone();
            proof {
                T::clone_keeps_view(self.rows[i as int], copy);
            }
            out.push(copy);
            i = i + 1;
        }
        out
    }

    /// The id for the next row, unless the ids are used up.
    pub fn next_id(&self) -> (id: Option<i64>)
        ensures
            match id {
                Some(id) => id == following_key::<T>(self@),
                None => !has_room::<T>(self@, 1),
            },
    {
        let len: usize = self.rows.len();
        if len == 0 {
            Some(1)
        } else {
            let last: i64 = self.rows[len - 1].id();
            if last < i64::MAX {
                Some(last + 1)
            } else {
                None
            }
        }
    }

    /// Whether the table has room for `count` more rows.
    pub fn has_room_for(&self, count: usize) -> (room: bool)
        ensures
            room == has_room::<T>(self@, count as int),
    {
        let len: usize = self.rows.len();
        let next: i128 = if len == 0 {
            1
        } else {
            self.rows[len - 1].id() as i128 + 1
        };
        next + (count as i128) - 1 <= i64::MAX as i128
    }

    /// Appends `row`, whose id lies above every id of the table.
    pub(crate) fn append(&mut self, row: T)
        requires
            old(self).wf(),
            old(self)@.len() == 0 || T::key(old(self)@.last()) < T::key(row@),
        ensures
            final(self)@ == old(self)@.push(row@),
            final(self).wf(),
    {
        proof {
            lemma_ascending_push::<T>(self@, row@);
        }
        self.rows.push(row);
        assert(self@ =~= old(self)@.push(row@));
    }

    /// The place of the row with the id `id`, if the table holds one.
    pub fn position(&self, id: i64) -> (found: Option<usize>)
        requires
            self.wf(),
        ensures
            match found {
                Some(i) => holds::<T>(self@, id as int) && i == place::<T>(self@, id as int),
                None => !holds::<T>(self@, id as int),
            },
    {
        let mut low: usize = 0;
        let mut high: usize = self.rows.len();
        while low < high
            invariant
                self.wf(),
                low <= high <= self.rows.len(),
                forall|k: int| 0 <= k < low ==> T::key(#[trigger] self@[k]) < id,
                forall|k: int| high <= k < self@.len() ==> T::key(#[trigger] self@[k]) > id,
            decreases high - low,
        {
            let mid: usize = low + (high - low) / 2;
            let key: i64 = self.rows[mid].id();
            if key == id {
                proof {
                    lemma_lookup_at::<T>(self@, mid as int);
                }
                return Some(mid);
            }
            if key < id {
                assert forall|k: int| 0 <= k < mid + 1 implies T::key(#[trigger] self@[k])
                    < id by {
                    if k < mid {
                        assert(T::key(self@[k]) < T::key(self@[mid as int]));
                    }
                }
                low = mid + 1;
            } else {
                assert forall|k: int| mid <= k < self@.len() implies T::key(#[trigger] self@[k])
                    > id by {
                    if mid < k {
                        assert(T::key(self@[mid as int]) < T::key(self@[k]));
                    }
                }
                high = mid;
            }
        }
        None
    }

    /// A copy of the row with the id `id`, if the table holds one.
    pub fn get(&self, id: i64) -> (row: Option<T>)
        requires
            self.wf(),
        ensures
            match row {
                Some(row) => lookup::<T>(self@, id as int) == Some(row@),
                None => lookup::<T>(self@, id as int) is None,
            },
    {
        match self.position(id) {
            Some(i) => {
                let copy = self.rows[i].clone();
                proof {
                    T::clone_keeps_view(self.rows[i as int], copy);
                }
                Some(copy)
            },
            None => None,
        }
    }

    /// Puts `row` in the place of the row that has its id. Returns whether
    /// there was such a row; if not, the table is unchanged.
    pub fn replace(&mut self, row: T) -> (replaced: bool)
        requires
            old(self).wf(),
        ensures
            final(self).wf(),
            replaced == holds::<T>(old(self)@, T::key(row@)),
            final(self)@ == if replaced {
                old(self)@.update(place::<T>(old(self)@, T::key(row@)), row@)
            } else {
                old(self)@
            },
    {
        let id: i64 = row.id();
        match self.position(id) {
            Some(i) => {
                self.rows.set(i, row);
                assert(self@ =~= old(self)@.update(i as int, row@));
                true
            },
            None => false,
        }
    }

    /// Takes out the row with the id `id` and returns it, if the table
    /// holds one; if not, the table is unchanged.
    pub fn remove(&mut self, id: i64) -> (row: Option<T>)
        requires
            old(self).wf(),
        ensures
            final(self).wf(),
            match row {
                Some(row) => {
                    &&& lookup::<T>(old(self)@, id as int) == Some(row@)
                    &&& final(self)@ == old(self)@.remove(place::<T>(old(self)@, id as int))
                },
                None => {
                    &&& lookup::<T>(old(self)@, id as int) is None
                    &&& final(self)@ == old(self)@
                },
            },
    {
        match self.position(id) {
            Some(i) => {
                let row = self.rows.remove(i);
                assert(self@ =~= old(self)@.remove(i as int));
                Some(row)
            },
            None => None,
        }
    }
}

impl<T: Publishable> Table<T> {
    /// A copy of the pending row with the smallest id, if any row is
    /// pending.
    pub fn oldest_pending(&self) -> (row: Option<T>)
        requires
            self.wf(),
        ensures
            match row {
                Some(row) => oldest_pending::<T>(self@) == Some(row@),
                None => oldest_pending::<T>(self@) is None,
            },
    {
        let mut i: usize = 0;
        while i < self.rows.len()
            invariant
                self.wf(),
                i <= self.rows.len(),
                forall|j: int| 0 <= j < i ==> T::published(#[trigger] self@[j]),
            decreases self.rows.len() - i,
        {
            if !self.rows[i].is_published() {
                let copy = self.rows[i].clone();
                proof {
                    T::clone_keeps_view(self.rows[i as int], copy);
                    lemma_first_pending_is_oldest::<T>(self@, i as int);
                }
                return Some(copy);
            }
            i = i + 1;
        }
        None
    }

    /// Records that the row with the id `id` was delivered and returns a
    /// copy of it as it now stands, if the table holds one; if not, the
    /// table is unchanged.
    pub fn mark_published(&mut self, id: i64) -> (row: Option<T>)
        requires
            old(self).wf(),
        ensures
            final(self).wf(),
            match row {
                Some(row) => {
                    &&& holds::<T>(old(self)@, id as int)
                    &&& row@ == T::delivered(old(self)@[place::<T>(old(self)@, id as int)])
                    &&& final(self)@ == old(self)@.update(place::<T>(old(self)@, id as int), row@)
                },
                None => {
                    &&& !holds::<T>(old(self)@, id as int)
                    &&& final(self)@ == old(self)@
                },
            },
    {
        match self.position(id) {
            Some(i) => {
                let mut row = self.rows[i].clone();
                proof {
                    T::clone_keeps_view(self.rows[i as int], row);
                }
                row.publish();
                let copy = row.clone();
                proof {
                    T::clone_keeps_view(row, copy);
                    T::delivered_is_published(self@[i as int]);
                }
                self.replace(row);
                Some(copy)
            },
            None => None,
        }
    }
}

} // verus!
