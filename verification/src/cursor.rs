//! The selection cursor: which row of the list is highlighted.
//!
//! The cursor lives in a `ratatui::widgets::ListState`, so that the value the
//! session updates is the one a list widget is drawn with.

use crate::model::{next_index, previous_index, reconcile};
use ratatui::widgets::ListState;
use vstd::prelude::*;

verus! {

/// `ratatui::widgets::ListState`, carried as an opaque value.
#[verifier::external_type_specification]
#[verifier::external_body]
pub struct ExListState(ListState);

/// The index that a list state has selected, if any.
pub uninterp spec fn selected_of(state: ListState) -> Option<usize>;

/// `ListState::selected` hands out the selected index as it is stored.
pub assume_specification[ ListState::selected ](state: &ListState) -> (index: Option<usize>)
    ensures
        index == selected_of(*state),
;

/// `ListState::select` stores the given index as the selection.
pub assume_specification[ ListState::select ](state: &mut ListState, index: Option<usize>)
    ensures
        selected_of(*final(state)) == index,
;

/// A `ListState` made by `Default::default` has nothing selected.
pub assume_specification[ <ListState as Default>::default ]() -> (state: ListState)
    ensures
        selected_of(state) is None,
;

/// The cursor brought back into a list of `len` rows.
pub fn reconciled(cursor: Option<usize>, len: usize) -> (kept: Option<usize>)
    ensures
        kept == reconcile(cursor, len as nat),
{
    match cursor {
        Some(i) => if i < len {
            Some(i)
        } else if len == 0 {
            None
        } else {
            Some(0)
        },
        None => None,
    }
}

/// The row below `cursor` in a list of `len` rows, the first row below the
/// last.
pub fn row_below(cursor: Option<usize>, len: usize) -> (row: usize)
    requires
        len > 0,
    ensures
        row == next_index(cursor, len as nat),
{
    match cursor {
        Some(i) => if i >= len - 1 {
            0
        } else {
            i + 1
        },
        None => 0,
    }
}

/// The row above `cursor` in a list of `len` rows, the last row above the
/// first.
pub fn row_above(cursor: Option<usize>, len: usize) -> (row: usize)
    requires
        len > 0,
    ensures
        row == previous_index(cursor, len as nat),
{
    match cursor {
        Some(i) => if i == 0 {
            len - 1
        } else {
            i - 1
        },
        None => 0,
    }
}

} // verus!
