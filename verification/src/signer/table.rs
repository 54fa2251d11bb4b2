//! Tables of rows with unique keys. A row is written once: writing a row
//! whose key the table already holds changes nothing.

use super::model::Row;
use vstd::prelude::*;

verus! {

/// Mathematical value of a table: the values of its rows, in the order in
/// which they were written.
pub open spec fn rows_view<T: Row>(rows: Seq<T>) -> Seq<T::V> {
    rows.map_values(|r: T| r@)
}

/// Whether the table holds a row with key `key`.
pub open spec fn has_key<T: Row>(rows: Seq<T::V>, key: T::Key) -> bool {
    exists|i: int| 0 <= i < rows.len() && #[trigger] T::key_of(rows[i]) == key
}

/// Whether no two rows of the table have the same key.
pub open spec fn unique<T: Row>(rows: Seq<T::V>) -> bool {
    forall|i: int, j: int|
        0 <= i < j < rows.len() ==> #[trigger] T::key_of(rows[i]) != #[trigger] T::key_of(rows[j])
}

/// The table after `row` was written to it: as before if it holds the row's
/// key, with the row at its end if not.
pub open spec fn inserted<T: Row>(rows: Seq<T::V>, row: T::V) -> Seq<T::V> {
    if has_key::<T>(rows, T::key_of(row)) {
        rows
    } else {
        rows.push(row)
    }
}

/// The table after each of `new_rows` was written to it, first to last.
pub open spec fn inserted_all<T: Row>(rows: Seq<T::V>, new_rows: Seq<T::V>) -> Seq<T::V>
    decreases new_rows.len(),
{
    if new_rows.len() == 0 {
        rows
    } else {
        inserted::<T>(inserted_all::<T>(rows, new_rows.drop_last()), new_rows.last())
    }
}

/// A write keeps every key that the table held, and adds the key written.
pub proof fn lemma_inserted_keys<T: Row>(rows: Seq<T::V>, row: T::V, key: T::Key)
    ensures
        has_key::<T>(inserted::<T>(rows, row), key) <==> has_key::<T>(rows, key) || key
            == T::key_of(row),
{
    let after = inserted::<T>(rows, row);
    if has_key::<T>(rows, key) {
        let i = choose|i: int| 0 <= i < rows.len() && #[trigger] T::key_of(rows[i]) == key;
        assert(T::key_of(after[i]) == key);
    }
    if key == T::key_of(row) && !has_key::<T>(rows, key) {
        assert(T::key_of(after[rows.len() as int]) == key);
    }
    if has_key::<T>(after, key) {
        let i = choose|i: int| 0 <= i < after.len() && #[trigger] T::key_of(after[i]) == key;
        if i < rows.len() {
            assert(T::key_of(rows[i]) == key);
        }
    }
}

/// A write keeps the keys of a table unique.
pub proof fn lemma_inserted_unique<T: Row>(rows: Seq<T::V>, row: T::V)
    requires
        unique::<T>(rows),
    ensures
        unique::<T>(inserted::<T>(rows, row)),
{
    let after = inserted::<T>(rows, row);
    assert forall|i: int, j: int| 0 <= i < j < after.len() implies #[trigger] T::key_of(after[i])
        != #[trigger] T::key_of(after[j]) by {
        if j == rows.len() {
            assert(T::key_of(rows[i]) != T::key_of(row));
        }
    }
}

/// Writing a row a second time changes nothing.
pub proof fn law_row_is_written_once<T: Row>(rows: Seq<T::V>, row: T::V)
    ensures
        inserted::<T>(inserted::<T>(rows, row), row) == inserted::<T>(rows, row),
{
    lemma_inserted_keys::<T>(rows, row, T::key_of(row));
}

/// Writing several rows keeps every key that the table held.
pub proof fn lemma_inserted_all_keeps<T: Row>(rows: Seq<T::V>, new_rows: Seq<T::V>, key: T::Key)
    requires
        has_key::<T>(rows, key),
    ensures
        has_key::<T>(inserted_all::<T>(rows, new_rows), key),
    decreases new_rows.len(),
{
    if new_rows.len() > 0 {
        lemma_inserted_all_keeps::<T>(rows, new_rows.drop_last(), key);
        lemma_inserted_keys::<T>(
            inserted_all::<T>(rows, new_rows.drop_last()),
            new_rows.last(),
            key,
        );
    }
}

/// Writing several rows keeps the keys of a table unique.
pub proof fn lemma_inserted_all_unique<T: Row>(rows: Seq<T::V>, new_rows: Seq<T::V>)
    requires
        unique::<T>(rows),
    ensures
        unique::<T>(inserted_all::<T>(rows, new_rows)),
    decreases new_rows.len(),
{
    if new_rows.len() > 0 {
        lemma_inserted_all_unique::<T>(rows, new_rows.drop_last());
        lemma_inserted_unique::<T>(inserted_all::<T>(rows, new_rows.drop_last()), new_rows.last());
    }
}

/// Writing rows whose keys the table all holds changes nothing.
pub proof fn lemma_inserted_all_present<T: Row>(rows: Seq<T::V>, new_rows: Seq<T::V>)
    requires
        forall|i: int|
            0 <= i < new_rows.len() ==> has_key::<T>(rows, T::key_of(#[trigger] new_rows[i])),
    ensures
        inserted_all::<T>(rows, new_rows) == rows,
    decreases new_rows.len(),
{
    if new_rows.len() > 0 {
        let front = new_rows.drop_last();
        assert forall|i: int| 0 <= i < front.len() implies has_key::<T>(
            rows,
            T::key_of(#[trigger] front[i]),
        ) by {
            assert(front[i] == new_rows[i]);
        }
        lemma_inserted_all_present::<T>(rows, front);
        assert(has_key::<T>(rows, T::key_of(new_rows[new_rows.len() - 1])));
    }
}

/// After several rows were written, the table holds the key of each.
pub proof fn lemma_inserted_all_holds<T: Row>(rows: Seq<T::V>, new_rows: Seq<T::V>, i: int)
    requires
        0 <= i < new_rows.len(),
    ensures
        has_key::<T>(inserted_all::<T>(rows, new_rows), T::key_of(new_rows[i])),
    decreases new_rows.len(),
{
    let front = new_rows.drop_last();
    let before = inserted_all::<T>(rows, front);
    if i < new_rows.len() - 1 {
        lemma_inserted_all_holds::<T>(rows, front, i);
        assert(front[i] == new_rows[i]);
        lemma_inserted_keys::<T>(before, new_rows.last(), T::key_of(new_rows[i]));
    } else {
        lemma_inserted_keys::<T>(before, new_rows.last(), T::key_of(new_rows[i]));
    }
}

/// Writing the same rows a second time changes nothing.
pub proof fn lemma_inserted_all_twice<T: Row>(rows: Seq<T::V>, new_rows: Seq<T::V>)
    ensures
        inserted_all::<T>(inserted_all::<T>(rows, new_rows), new_rows) == inserted_all::<T>(
            rows,
            new_rows,
        ),
{
    let once = inserted_all::<T>(rows, new_rows);
    assert forall|i: int| 0 <= i < new_rows.len() implies has_key::<T>(
        once,
        T::key_of(#[trigger] new_rows[i]),
    ) by {
        lemma_inserted_all_holds::<T>(rows, new_rows, i);
    }
    lemma_inserted_all_present::<T>(once, new_rows);
}

/// The place of the first row with the key of `row`, if the table holds
/// one.
pub fn find<T: Row>(rows: &Vec<T>, row: &T) -> (r: Option<usize>)
    ensures
        r is Some <==> has_key::<T>(rows_view(rows@), T::key_of(row@)),
        r matches Some(i) ==> i < rows.len() && T::key_of(rows@[i as int]@) == T::key_of(row@)
            && forall|j: int|
            0 <= j < i ==> T::key_of(#[trigger] rows_view(rows@)[j]) != T::key_of(row@),
{
    let mut i: usize = 0;
    while i < rows.len()
        invariant
            i <= rows.len(),
            forall|j: int|
                0 <= j < i ==> T::key_of(#[trigger] rows_view(rows@)[j]) != T::key_of(row@),
        decreases rows.len() - i,
    {
        if rows[i].same_key(row) {
            assert(T::key_of(rows_view(rows@)[i as int]) == T::key_of(row@));
            return Some(i);
        }
        i += 1;
    }
    None
}

/// Writes `row` to the table, unless the table holds its key. Says whether
/// the row was added.
pub fn insert<T: Row>(rows: &mut Vec<T>, row: T) -> (added: bool)
    ensures
        rows_view(final(rows)@) == inserted::<T>(rows_view(old(rows)@), row@),
        added == !has_key::<T>(rows_view(old(rows)@), T::key_of(row@)),
        unique::<T>(rows_view(old(rows)@)) ==> unique::<T>(rows_view(final(rows)@)),
{
    proof {
        lemma_inserted_unique_if::<T>(rows_view(rows@), row@);
    }
    match find(rows, &row) {
        Some(_) => false,
        None => {
            let ghost before = rows@;
            rows.push(row);
            assert(rows_view(rows@) =~= rows_view(before).push(row@));
            true
        },
    }
}

proof fn lemma_inserted_unique_if<T: Row>(rows: Seq<T::V>, row: T::V)
    ensures
        unique::<T>(rows) ==> unique::<T>(inserted::<T>(rows, row)),
{
    if unique::<T>(rows) {
        lemma_inserted_unique::<T>(rows, row);
    }
}

/// Writes a copy of each of `new_rows` to the table, first to last.
pub fn insert_all<T: Row>(rows: &mut Vec<T>, new_rows: &Vec<T>)
    ensures
        rows_view(final(rows)@) == inserted_all::<T>(rows_view(old(rows)@), rows_view(new_rows@)),
        unique::<T>(rows_view(old(rows)@)) ==> unique::<T>(rows_view(final(rows)@)),
{
    let ghost before = rows_view(rows@);
    let ghost news = rows_view(new_rows@);
    let mut i: usize = 0;
    assert(news.take(0) =~= Seq::empty());
    while i < new_rows.len()
        invariant
            i <= new_rows.len(),
            news == rows_view(new_rows@),
            rows_view(rows@) == inserted_all::<T>(before, news.take(i as int)),
            unique::<T>(before) ==> unique::<T>(rows_view(rows@)),
        decreases new_rows.len() - i,
    {
        proof {
            assert(news.take(i + 1).drop_last() =~= news.take(i as int));
            assert(news.take(i + 1).last() == new_rows@[i as int]@);
        }
        let row = new_rows[i].copy();
        insert(rows, row);
        i += 1;
    }
    assert(news.take(new_rows.len() as int) =~= news);
}

} // verus!
