//! The live filter: which entries of the catalog the list shows, and which
//! entry of the catalog stands behind a row of the list.
//!
//! The names are tested first, one mark for each entry; what the list shows
//! and where a row leads is then read off the marks.

use crate::app::BashCmd;
use crate::model::{
    kept, marked_positions, match_marks, match_positions, matching, name_matches, EntryView,
};
use crate::text::{contains_chars, contains_seq, lemma_contains_empty, lowercase_of, to_chars};
use vstd::prelude::*;

verus! {

/// One more mark at the end adds its own position, or none.
pub proof fn lemma_marks_push(marks: Seq<bool>, mark: bool)
    ensures
        marked_positions(marks.push(mark)) == if mark {
            marked_positions(marks).push(marks.len() as int)
        } else {
            marked_positions(marks)
        },
{
    assert(marks.push(mark).drop_last() =~= marks);
}

/// The marked positions lie within the marks, ascend, and are marked.
pub proof fn lemma_marked_positions(marks: Seq<bool>)
    ensures
        marked_positions(marks).len() <= marks.len(),
        forall|k: int|
            0 <= k < marked_positions(marks).len() ==> 0 <= #[trigger] marked_positions(marks)[k]
                < marks.len() && marks[marked_positions(marks)[k]],
        forall|j: int, k: int|
            0 <= j < k < marked_positions(marks).len() ==> marked_positions(marks)[j]
                < marked_positions(marks)[k],
    decreases marks.len(),
{
    if marks.len() > 0 {
        lemma_marked_positions(marks.drop_last());
    }
}

/// The positions marked among the first `n` marks open the positions marked
/// among them all.
pub proof fn lemma_positions_prefix(marks: Seq<bool>, n: int)
    requires
        0 <= n <= marks.len(),
    ensures
        marked_positions(marks.take(n)).is_prefix_of(marked_positions(marks)),
    decreases marks.len() - n,
{
    if n == marks.len() {
        assert(marks.take(n) =~= marks);
    } else {
        lemma_positions_prefix(marks, n + 1);
        lemma_marks_push(marks.take(n), marks[n]);
        assert(marks.take(n).push(marks[n]) =~= marks.take(n + 1));
    }
}

/// One more entry at the end of a catalog adds its own row to the list, or
/// none.
pub proof fn lemma_matching_push(catalog: Seq<EntryView>, filter: Seq<char>, entry: EntryView)
    ensures
        matching(catalog.push(entry), filter) == if name_matches(entry.name, filter) {
            matching(catalog, filter).push(entry)
        } else {
            matching(catalog, filter)
        },
{
    reveal(Seq::filter);
    assert(catalog.push(entry).drop_last() =~= catalog);
}

/// The entries kept by the marks of a filter are the entries that pass it:
/// the list is what stands at the matching positions of the catalog.
pub proof fn lemma_kept_is_matching(catalog: Seq<EntryView>, filter: Seq<char>)
    ensures
        kept(catalog, match_marks(catalog, filter)) == matching(catalog, filter),
    decreases catalog.len(),
{
    let marks = match_marks(catalog, filter);
    if catalog.len() == 0 {
        reveal(Seq::filter);
    } else {
        let before = catalog.drop_last();
        let last = catalog.last();
        lemma_kept_is_matching(before, filter);
        lemma_matching_push(before, filter, last);
        assert(before.push(last) =~= catalog);
        assert(marks.drop_last() =~= match_marks(before, filter));
        lemma_marked_positions(marks.drop_last());
    }
}

/// The list and the positions behind it go row by row: there are as many
/// positions as rows, each position lies in the catalog and ascends, and row
/// `k` shows the entry at position `k`, which passes the filter.
pub proof fn lemma_positions_rows(catalog: Seq<EntryView>, filter: Seq<char>)
    ensures
        match_positions(catalog, filter).len() == matching(catalog, filter).len(),
        forall|k: int|
            0 <= k < match_positions(catalog, filter).len() ==> {
                &&& 0 <= #[trigger] match_positions(catalog, filter)[k] < catalog.len()
                &&& matching(catalog, filter)[k] == catalog[match_positions(catalog, filter)[k]]
                &&& name_matches(catalog[match_positions(catalog, filter)[k]].name, filter)
            },
        forall|j: int, k: int|
            0 <= j < k < match_positions(catalog, filter).len() ==> match_positions(
                catalog,
                filter,
            )[j] < match_positions(catalog, filter)[k],
{
    lemma_kept_is_matching(catalog, filter);
    lemma_marked_positions(match_marks(catalog, filter));
}

/// Where every position is marked, every position is a marked position.
pub proof fn lemma_all_marked(marks: Seq<bool>)
    requires
        forall|i: int| 0 <= i < marks.len() ==> marks[i],
    ensures
        marked_positions(marks) == Seq::new(marks.len(), |i: int| i),
    decreases marks.len(),
{
    if marks.len() > 0 {
        lemma_all_marked(marks.drop_last());
    }
    assert(marked_positions(marks) =~= Seq::new(marks.len(), |i: int| i));
}

/// Tells whether the lowercase form of `name` contains `needle`.
pub fn name_contains(name: &str, needle: &[char]) -> (found: bool)
    ensures
        found == contains_seq(lowercase_of(name@), needle@),
{
    let lower = name.to_lowercase();
    let hay = to_chars(lower.as_str());
    contains_chars(hay.as_slice(), needle)
}

/// Tells whether `name` passes `filter`: whether its lowercase form contains
/// the lowercase form of the filter.
pub fn matches_filter(name: &str, filter: &str) -> (passed: bool)
    ensures
        passed == name_matches(name@, filter@),
        filter@.len() == 0 ==> passed,
{
    let lower = filter.to_lowercase();
    let needle = to_chars(lower.as_str());
    proof {
        if filter@.len() == 0 {
            assert(needle@ =~= Seq::<char>::empty());
            lemma_contains_empty(lowercase_of(name@));
        }
    }
    name_contains(name, needle.as_slice())
}

/// Marks the entries of `items` whose names pass `filter`.
pub fn mark_matching(items: &Vec<BashCmd>, filter: &str) -> (marks: Vec<bool>)
    ensures
        marks@ == match_marks(items.deep_view(), filter@),
        filter@.len() == 0 ==> forall|i: int| 0 <= i < marks.len() ==> marks[i],
{
    let lower = filter.to_lowercase();
    let needle = to_chars(lower.as_str());
    let mut marks: Vec<bool> = Vec::new();
    let mut i: usize = 0;
    while i < items.len()
        invariant
            i <= items.len(),
            needle@ == lowercase_of(filter@),
            filter@.len() == 0 ==> needle@.len() == 0,
            marks@ == match_marks(items.deep_view().take(i as int), filter@),
            filter@.len() == 0 ==> forall|j: int| 0 <= j < marks.len() ==> marks[j],
        decreases items.len() - i,
    {
        proof {
            if filter@.len() == 0 {
                assert(needle@ =~= Seq::<char>::empty());
                lemma_contains_empty(lowercase_of(items[i as int].name@));
            }
        }
        marks.push(name_contains(items[i].name.as_str(), needle.as_slice()));
        i += 1;
    }
    marks
}

/// The entries of `items` at the marked positions, in their order.
pub fn keep_marked(items: &Vec<BashCmd>, marks: &[bool]) -> (shown: Vec<BashCmd>)
    requires
        marks.len() == items.len(),
    ensures
        shown.deep_view() == kept(items.deep_view(), marks@),
{
    let mut shown: Vec<BashCmd> = Vec::new();
    let mut i: usize = 0;
    while i < items.len()
        invariant
            i <= items.len(),
            marks.len() == items.len(),
            shown.deep_view() == kept(items.deep_view(), marks@.take(i as int)),
        decreases items.len() - i,
    {
        let ghost before = shown.deep_view();
        proof {
            lemma_marks_push(marks@.take(i as int), marks[i as int]);
            assert(marks@.take(i as int).push(marks[i as int]) =~= marks@.take(i + 1));
        }
        if marks[i] {
            shown.push(items[i].clone());
            assert(shown.deep_view() =~= before.push(items[i as int]@));
        }
        i += 1;
    }
    assert(marks@.take(i as int) =~= marks@);
    shown
}

/// The position of the mark number `row`, counting the marks from 0, or
/// `None` where there are no more than `row` marks.
pub fn nth_marked(marks: &[bool], row: usize) -> (position: Option<usize>)
    ensures
        match position {
            Some(at) => row < marked_positions(marks@).len() && at == marked_positions(
                marks@,
            )[row as int] && at < marks.len(),
            None => row >= marked_positions(marks@).len(),
        },
{
    let mut rows: usize = 0;
    let mut i: usize = 0;
    while i < marks.len()
        invariant
            i <= marks.len(),
            rows <= row,
            rows <= i,
            marked_positions(marks@.take(i as int)).len() == rows,
        decreases marks.len() - i,
    {
        proof {
            lemma_marks_push(marks@.take(i as int), marks[i as int]);
            assert(marks@.take(i as int).push(marks[i as int]) =~= marks@.take(i + 1));
        }
        if marks[i] {
            if rows == row {
                proof {
                    lemma_positions_prefix(marks@, i + 1);
                    assert(marked_positions(marks@.take(i + 1))[row as int] == i);
                }
                return Some(i);
            }
            rows += 1;
        }
        i += 1;
    }
    assert(marks@.take(i as int) =~= marks@);
    None
}

/// The entries of `items` whose names pass `filter`, in their order. An
/// empty filter keeps them all.
pub fn filter_entries(items: &Vec<BashCmd>, filter: &str) -> (shown: Vec<BashCmd>)
    ensures
        shown.deep_view() == matching(items.deep_view(), filter@),
        filter@.len() == 0 ==> shown.deep_view() == items.deep_view(),
{
    let marks = mark_matching(items, filter);
    let shown = keep_marked(items, marks.as_slice());
    proof {
        lemma_kept_is_matching(items.deep_view(), filter@);
        if filter@.len() == 0 {
            lemma_all_marked(marks@);
            assert(shown.deep_view() =~= items.deep_view());
        }
    }
    shown
}

/// The position in `items` of the entry behind row `row` of the list that
/// `filter` leaves, or `None` where that list has no such row.
pub fn find_position(items: &Vec<BashCmd>, filter: &str, row: usize) -> (position: Option<usize>)
    ensures
        match position {
            Some(at) => row < match_positions(items.deep_view(), filter@).len() && at
                == match_positions(items.deep_view(), filter@)[row as int] && at < items.len(),
            None => row >= match_positions(items.deep_view(), filter@).len(),
        },
{
    let marks = mark_matching(items, filter);
    nth_marked(marks.as_slice(), row)
}

} // verus!
