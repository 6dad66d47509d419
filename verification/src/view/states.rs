//! Where the cursor stands in one sheet.
use crate::model::Sheet;
use vstd::prelude::*;

verus! {

/// The height of the rows of a sheet when displayed as a table.
pub const ITEM_HEIGHT: u16 = 1;

/// The selection and scroll offset of a table.
#[derive(Clone, Copy, Debug, PartialEq, Eq, Structural)]
pub struct TableState {
    /// The first row that is drawn.
    pub offset: usize,
    /// The selected row, if any.
    pub selected: Option<usize>,
    /// The selected column, if any.
    pub selected_column: Option<usize>,
}

impl TableState {
    /// The state after a row, or none, was selected: losing the selection
    /// also scrolls back to the top.
    pub open spec fn spec_select(self, index: Option<usize>) -> TableState {
        TableState {
            selected: index,
            offset: if index is None {
                0
            } else {
                self.offset
            },
            ..self
        }
    }

    /// The selected cell: a row and a column, where both are selected.
    pub open spec fn spec_selected_cell(&self) -> Option<(usize, usize)> {
        match (self.selected, self.selected_column) {
            (Some(r), Some(c)) => Some((r, c)),
            _ => None,
        }
    }

    /// The column right of the selected one, or the first.
    pub open spec fn next_column(self) -> usize {
        match self.selected_column {
            Some(c) => if c == usize::MAX {
                c
            } else {
                (c + 1) as usize
            },
            None => 0,
        }
    }

    /// The column left of the selected one, or the last one possible.
    pub open spec fn previous_column(self) -> usize {
        match self.selected_column {
            Some(c) => if c == 0 {
                0
            } else {
                (c - 1) as usize
            },
            None => usize::MAX,
        }
    }

    /// Selects a row, or none.
    pub fn select(&mut self, index: Option<usize>)
        ensures
            *final(self) == old(self).spec_select(index),
    {
        self.selected = index;
        if index.is_none() {
            self.offset = 0;
        }
    }

    /// The selected row, if any.
    pub fn selected(&self) -> (r: Option<usize>)
        ensures
            r == self.selected,
    {
        self.selected
    }

    /// The selected cell, if a row and a column are selected.
    #[verifier::when_used_as_spec(spec_selected_cell)]
    pub fn selected_cell(&self) -> (r: Option<(usize, usize)>)
        ensures
            r == self.spec_selected_cell(),
    {
        match (self.selected, self.selected_column) {
            (Some(r), Some(c)) => Some((r, c)),
            _ => None,
        }
    }

    /// Moves to the column on the right; with none selected, to the first.
    pub fn select_next_column(&mut self)
        ensures
            *final(self) == (TableState {
                selected_column: Some(old(self).next_column()),
                ..*old(self)
            }),
    {
        let next = match self.selected_column {
            Some(c) => if c == usize::MAX {
                c
            } else {
                c + 1
            },
            None => 0,
        };
        self.selected_column = Some(next);
    }

    /// Moves to the column on the left; with none selected, to the last one
    /// possible.
    pub fn select_previous_column(&mut self)
        ensures
            *final(self) == (TableState {
                selected_column: Some(old(self).previous_column()),
                ..*old(self)
            }),
    {
        let previous = match self.selected_column {
            Some(c) => if c == 0 {
                0
            } else {
                c - 1
            },
            None => usize::MAX,
        };
        self.selected_column = Some(previous);
    }
}

/// The position of a scrollbar.
#[derive(Clone, Copy, Debug, PartialEq, Eq, Structural)]
pub struct ScrollbarState {
    /// The total length of the scrollable content.
    pub content_length: usize,
    /// The current position within the scrollable content.
    pub position: usize,
    /// The length of content in the current viewport.
    pub viewport_content_length: usize,
}

/// A struct to track the view states of sheets.
#[derive(Clone, Copy, Debug, PartialEq, Eq, Structural)]
pub struct SheetState {
    /// The state of the table used to display the sheet.
    pub table_state: TableState,
    /// The state of the scrollbar displayed alongside the sheet.
    pub scroll_state: ScrollbarState,
    /// The number of rows visible on the screen, for scrolling by half of
    /// them.
    pub visible_row_num: u16,
}

/// The index of the last of `rows` rows; 0 where there is none.
pub open spec fn last_index(rows: nat) -> usize {
    if rows == 0 {
        0
    } else {
        (rows - 1) as usize
    }
}

impl SheetState {
    /// The state of a sheet of `rows` rows that was never looked at: the
    /// last row selected, no column, the scrollbar at the end, and no
    /// visible rows known yet.
    pub open spec fn spec_new(rows: nat) -> SheetState {
        SheetState {
            table_state: TableState {
                offset: 0,
                selected: Some(last_index(rows)),
                selected_column: None,
            },
            scroll_state: ScrollbarState {
                content_length: last_index(rows),
                position: last_index(rows),
                viewport_content_length: 0,
            },
            visible_row_num: 0,
        }
    }

    /// The state with the given row selected and the scrollbar beside it
    /// (rows are one line high, so the position of the bar is the row).
    pub open spec fn at_row(self, row: usize) -> SheetState {
        SheetState {
            table_state: self.table_state.spec_select(Some(row)),
            scroll_state: ScrollbarState { position: row, ..self.scroll_state },
            ..self
        }
    }

    /// The state without a selected column, and so without a selected cell.
    pub open spec fn without_cell(self) -> SheetState {
        SheetState {
            table_state: TableState { selected_column: None, ..self.table_state },
            ..self
        }
    }

    /// The selected row, or 0 while none is selected.
    pub open spec fn row_or_zero(self) -> usize {
        match self.table_state.selected {
            Some(r) => r,
            None => 0,
        }
    }

    /// The row that is `count` below the selected one, but never beyond the
    /// last of `rows` rows.
    pub open spec fn row_below(self, count: usize, rows: nat) -> usize {
        let target = self.row_or_zero() + count;
        if target <= last_index(rows) {
            target as usize
        } else {
            last_index(rows)
        }
    }

    /// The row that is `count` above the selected one, but never above the
    /// first.
    pub open spec fn row_above(self, count: usize) -> usize {
        if self.row_or_zero() >= count {
            (self.row_or_zero() - count) as usize
        } else {
            0
        }
    }

    /// Half of the visible rows, but at least one.
    pub open spec fn half_page(self) -> usize {
        if self.visible_row_num / 2 >= 1 {
            (self.visible_row_num / 2) as usize
        } else {
            1
        }
    }

    /// Creates the state of a sheet that is looked at for the first time.
    pub fn new(sheet: &Sheet) -> (r: SheetState)
        ensures
            r == Self::spec_new(sheet@.len()),
    {
        let len = sheet.transactions.len();
        let last = if len == 0 {
            0
        } else {
            len - 1
        };
        SheetState {
            table_state: TableState { offset: 0, selected: Some(last), selected_column: None },
            scroll_state: ScrollbarState {
                content_length: last,
                position: last,
                viewport_content_length: 0,
            },
            visible_row_num: 0,
        }
    }

    /// Gives up the selected cell: the row stays selected, the column does
    /// not.
    pub fn deselect_cell(&mut self)
        ensures
            *final(self) == old(self).without_cell(),
            final(self).table_state.spec_selected_cell() is None,
    {
        self.table_state.selected_column = None;
    }

    /// Scrolls to the given row of the table.
    pub fn scroll_to_row(&mut self, row: usize)
        ensures
            *final(self) == old(self).at_row(row),
    {
        self.table_state.select(Some(row));
        self.scroll_state.position = row;
    }

    /// Takes the number of visible rows from the height of the area the
    /// table is drawn in: the border takes two of its lines.
    pub fn update_visible_row_num(&mut self, height: u16)
        requires
            height >= 2,
        ensures
            *final(self) == (SheetState {
                visible_row_num: (height - 2) as u16,
                ..*old(self)
            }),
    {
        self.visible_row_num = height - 2;
    }
}

} // verus!
