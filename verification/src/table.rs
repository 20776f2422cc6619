//! The selected row of the process table.

use ratatui::widgets::TableState;
use vstd::prelude::*;

verus! {

/// The row selected after moving down: the next one, or the first where none was selected.
pub open spec fn next_row_spec(selected: Option<usize>) -> Option<usize> {
    match selected {
        None => Some(0),
        Some(i) => if i < usize::MAX {
            Some((i + 1) as usize)
        } else {
            Some(i)
        },
    }
}

/// The row selected after moving up: the one before, or the last possible one where none was
/// selected.
pub open spec fn previous_row_spec(selected: Option<usize>) -> Option<usize> {
    match selected {
        None => Some(usize::MAX),
        Some(i) => if i > 0 {
            Some((i - 1) as usize)
        } else {
            Some(i)
        },
    }
}

/// `TableState::select_next`: selects the next row, or the first where none is selected. The row
/// number stays within `usize`; that there is such a row is not looked at.
#[verifier::external_body]
pub(crate) fn next_row(selected: Option<usize>) -> (r: Option<usize>)
    ensures
        r == next_row_spec(selected),
{
    let mut state = TableState::default().with_selected(selected);
    state.select_next();
    state.selected()
}

/// `TableState::select_previous`: selects the row before, or the row `usize::MAX` where none is
/// selected. The first row stays selected.
#[verifier::external_body]
pub(crate) fn previous_row(selected: Option<usize>) -> (r: Option<usize>)
    ensures
        r == previous_row_spec(selected),
{
    let mut state = TableState::default().with_selected(selected);
    state.select_previous();
    state.selected()
}

} // verus!
