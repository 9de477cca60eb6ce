use vstd::prelude::*;

verus! {

/// Settings and the selected row of a table of rows.
pub struct Table {
    pub selection: usize,
    pub resizable: bool,
    pub clickable: bool,
    pub num_rows: usize,
}

/// The selection after a row was clicked (or not): clicking the selected
/// row clears the selection to row 0, clicking another row selects it.
pub open spec fn selection_after(selection: usize, row_index: usize, clicked: bool) -> usize {
    if !clicked {
        selection
    } else if selection == row_index {
        0
    } else {
        row_index
    }
}

impl Default for Table {
    fn default() -> (res: Self)
        ensures
            res.selection == 0,
            res.resizable,
            res.clickable,
            res.num_rows == 0,
    {
        Table { selection: 0, resizable: true, clickable: true, num_rows: 0 }
    }
}

impl Table {
    /// Whether row `row_index` is drawn as selected.
    pub fn is_selected(&self, row_index: usize) -> (res: bool)
        ensures
            res == (self.selection == row_index),
    {
        self.selection == row_index
    }

    /// Updates the selection after row `row_index` was drawn; `clicked`
    /// tells whether that row was clicked in this frame.
    pub fn toggle_row_selection(&mut self, row_index: usize, clicked: bool)
        ensures
            final(self).selection == selection_after(old(self).selection, row_index, clicked),
            !clicked ==> final(self).selection == old(self).selection,
            clicked && old(self).selection == row_index ==> final(self).selection == 0,
            clicked && old(self).selection != row_index ==> final(self).selection == row_index,
            final(self).resizable == old(self).resizable,
            final(self).clickable == old(self).clickable,
            final(self).num_rows == old(self).num_rows,
    {
        if clicked {
            if self.selection == row_index {
                self.selection = 0;
            } else {
                self.selection = row_index;
            }
        }
    }
}

/// After a click on row `r`, that row is selected unless it already was, in
/// which case the selection falls back to row 0; a second click on the same
/// row therefore clears any selection of a row other than 0.
pub proof fn law_click_selects_or_clears(selection: usize, r: usize)
    ensures
        selection != r ==> selection_after(selection, r, true) == r,
        selection == r ==> selection_after(selection, r, true) == 0,
        selection != r ==> selection_after(selection_after(selection, r, true), r, true) == 0,
        selection_after(selection, r, false) == selection,
{
}

} // verus!
