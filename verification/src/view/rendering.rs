//! What is worked out before a sheet is drawn: which rows fit, how they are
//! numbered, and how wide the column of numbers is. The drawing itself is
//! left to the host.
use crate::strings::decimal_text;
use vstd::prelude::*;

verus! {

/// The space to the right of the row numbers.
pub const NUMBER_PADDING_RIGHT: u16 = 2;

/// The lines of the table area that hold no row: the border above and
/// below, and the header.
pub const FRAME_LINES: usize = 3;

/// The number of decimal digits of a number.
pub fn digits(n: usize) -> (r: u16)
    ensures
        r == decimal_text(n as nat).len(),
        1 <= r <= 20,
    decreases n,
{
    if n < 10 {
        1
    } else {
        let shorter = digits(n / 10);
        proof {
            lemma_digits_bound(n as nat);
        }
        shorter + 1
    }
}

/// A number below 2^64 has at most twenty digits.
pub proof fn lemma_digits_bound(n: nat)
    requires
        n <= usize::MAX,
    ensures
        1 <= decimal_text(n).len() <= 20,
{
    reveal_with_fuel(decimal_text, 21);
    assert(usize::MAX <= 0xffff_ffff_ffff_ffff);
}

/// The width of the column of row numbers for a sheet of `rows` rows: room
/// for the digits of the largest number, the border, and the padding.
pub open spec fn spec_number_width(rows: nat) -> nat {
    if rows == 0 {
        1
    } else {
        decimal_text(rows).len() + 1 + NUMBER_PADDING_RIGHT as nat
    }
}

/// The width of the column of row numbers.
pub fn number_width(rows: usize) -> (r: u16)
    ensures
        r == spec_number_width(rows as nat),
{
    if rows == 0 {
        1
    } else {
        digits(rows) + 1 + NUMBER_PADDING_RIGHT
    }
}

/// The rows that are drawn, from the first to before the last: those from
/// the scroll offset on that fit into the height of the area.
pub open spec fn spec_visible_rows(offset: usize, rows: usize, height: u16) -> (usize, usize) {
    let room = height - FRAME_LINES;
    if offset >= rows {
        (offset, offset)
    } else if rows - offset <= room {
        (offset, rows)
    } else {
        (offset, (offset + room) as usize)
    }
}

/// The rows that are drawn in an area of the given height.
pub fn visible_rows(offset: usize, rows: usize, height: u16) -> (r: (usize, usize))
    requires
        height >= FRAME_LINES,
    ensures
        r == spec_visible_rows(offset, rows, height),
        r.0 <= r.1,
        r.1 - r.0 <= height - FRAME_LINES,
{
    let room = height as usize - FRAME_LINES;
    if offset >= rows {
        (offset, offset)
    } else if rows - offset <= room {
        (offset, rows)
    } else {
        (offset, offset + room)
    }
}

/// The number shown beside a row.
#[derive(Clone, Copy, Debug, PartialEq, Eq, Structural)]
pub enum RowNumber {
    /// The selected row: its own number, counted from 1.
    Selected(usize),
    /// A row while another is selected: its distance from that one.
    Distance(usize),
    /// A row while none is selected: its own number, counted from 1.
    Absolute(usize),
}

/// The number beside row `row` while `cursor` is selected.
pub open spec fn spec_row_number(row: usize, cursor: Option<usize>) -> RowNumber {
    match cursor {
        Some(position) => if position == row {
            RowNumber::Selected((row + 1) as usize)
        } else if position < row {
            RowNumber::Distance((row - position) as usize)
        } else {
            RowNumber::Distance((position - row) as usize)
        },
        None => RowNumber::Absolute((row + 1) as usize),
    }
}

/// The number beside a row.
pub fn row_number(row: usize, cursor: Option<usize>) -> (r: RowNumber)
    requires
        row < usize::MAX,
    ensures
        r == spec_row_number(row, cursor),
{
    match cursor {
        Some(position) => {
            if position == row {
                RowNumber::Selected(row + 1)
            } else if position < row {
                RowNumber::Distance(row - position)
            } else {
                RowNumber::Distance(position - row)
            }
        },
        None => RowNumber::Absolute(row + 1),
    }
}

} // verus!
