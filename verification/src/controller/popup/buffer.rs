//! The editable text of an input popup. The editing itself is done by
//! `tui_textarea::TextArea`; this file holds what is taken on trust about it.
use tui_textarea::Input;
use tui_textarea::Key;
use tui_textarea::TextArea;
use vstd::prelude::*;

verus! {

/// A `tui_textarea::TextArea`, kept closed: lines of text, a cursor, and
/// editing state (selection, history, yank buffer) that is not modelled.
#[verifier::external_body]
#[derive(Debug)]
pub struct TextBuffer {
    area: TextArea<'static>,
}

/// The lines that a text buffer holds, as `TextArea::lines` returns them.
pub uninterp spec fn buffer_lines(buffer: TextBuffer) -> Seq<Seq<char>>;

/// The row and column of the cursor, as `TextArea::cursor` returns them.
pub uninterp spec fn buffer_cursor(buffer: TextBuffer) -> (usize, usize);

/// Whether a selection is going on, as `TextArea::is_selecting` tells.
pub uninterp spec fn buffer_selecting(buffer: TextBuffer) -> bool;

/// The keys that a text buffer reacts to.
#[derive(Clone, Copy, Debug, PartialEq, Eq, Structural)]
pub enum EditKey {
    Char(char),
    Backspace,
    Delete,
    Tab,
    Left,
    Right,
    Up,
    Down,
    Home,
    End,
    PageUp,
    PageDown,
}

/// The views of a run of strings.
pub open spec fn line_views(lines: Seq<String>) -> Seq<Seq<char>> {
    Seq::new(lines.len(), |i: int| lines[i]@)
}

/// Whether a text holds no line break of either kind.
pub open spec fn single_line(text: Seq<char>) -> bool {
    !text.contains('\n') && !text.contains('\r')
}

/// The character that a key puts into the text: the key is a character
/// other than a line break, pressed with neither control nor alt.
pub open spec fn plain_char(key: EditKey, ctrl: bool, alt: bool) -> Option<char> {
    match key {
        EditKey::Char(c) => if !ctrl && !alt && c != '\n' && c != '\r' {
            Some(c)
        } else {
            None
        },
        _ => None,
    }
}

/// Whether a cursor stands in the lines: in one of them, at or before its
/// end.
pub open spec fn cursor_within(lines: Seq<Seq<char>>, cursor: (usize, usize)) -> bool {
    cursor.0 < lines.len() && cursor.1 <= lines[cursor.0 as int].len()
}

/// The lines with a character put in at the cursor.
pub open spec fn with_char(lines: Seq<Seq<char>>, cursor: (usize, usize), c: char) -> Seq<
    Seq<char>,
> {
    lines.update(cursor.0 as int, lines[cursor.0 as int].insert(cursor.1 as int, c))
}

/// Whether a key is the plain backspace: pressed with neither control nor
/// alt.
pub open spec fn plain_backspace(key: EditKey, ctrl: bool, alt: bool) -> bool {
    key == EditKey::Backspace && !ctrl && !alt
}

/// The lines with the character before the cursor taken out. At the very
/// start of the text there is none, and the lines stay.
pub open spec fn without_char(lines: Seq<Seq<char>>, cursor: (usize, usize)) -> Seq<Seq<char>> {
    if cursor.1 > 0 {
        lines.update(cursor.0 as int, lines[cursor.0 as int].remove(cursor.1 - 1))
    } else {
        lines
    }
}

/// Whether a key is the plain delete: pressed with neither control nor alt.
pub open spec fn plain_delete(key: EditKey, ctrl: bool, alt: bool) -> bool {
    key == EditKey::Delete && !ctrl && !alt
}

/// The lines with the character at the cursor taken out. At the end of a
/// line there is none, and the lines stay.
pub open spec fn without_next(lines: Seq<Seq<char>>, cursor: (usize, usize)) -> Seq<Seq<char>> {
    if cursor.1 < lines[cursor.0 as int].len() {
        lines.update(cursor.0 as int, lines[cursor.0 as int].remove(cursor.1 as int))
    } else {
        lines
    }
}

/// Whether a key only moves the cursor: an arrow, home or end, pressed with
/// no modifier held.
pub open spec fn cursor_key(key: EditKey, ctrl: bool, alt: bool, shift: bool) -> bool {
    &&& !ctrl && !alt && !shift
    &&& key == EditKey::Left || key == EditKey::Right || key == EditKey::Up || key
        == EditKey::Down || key == EditKey::Home || key == EditKey::End
}

/// The column in a line that is nearest to `col`: `col` itself, or the end
/// of the line where that comes before.
pub open spec fn fit_column(col: usize, line: Seq<char>) -> usize {
    if col <= line.len() {
        col
    } else {
        line.len() as usize
    }
}

/// Where a cursor key takes a cursor that stands in the lines.
///
/// Left and right go one character back and on, and over the end of a line
/// into the line before or after; at the very start and the very end of the
/// text they stay. Up and down go to the line before or after, as far into
/// it as the column reaches; in the first and the last line they stay. Home
/// and end go to the start and the end of the line.
pub open spec fn moved_cursor(lines: Seq<Seq<char>>, cursor: (usize, usize), key: EditKey) -> (
    usize,
    usize,
) {
    let row = cursor.0;
    let col = cursor.1;
    match key {
        EditKey::Left => if col > 0 {
            (row, (col - 1) as usize)
        } else if row > 0 {
            ((row - 1) as usize, lines[row - 1].len() as usize)
        } else {
            cursor
        },
        EditKey::Right => if col < lines[row as int].len() {
            (row, (col + 1) as usize)
        } else if row + 1 < lines.len() {
            ((row + 1) as usize, 0)
        } else {
            cursor
        },
        EditKey::Up => if row > 0 {
            ((row - 1) as usize, fit_column(col, lines[row - 1]))
        } else {
            cursor
        },
        EditKey::Down => if row + 1 < lines.len() {
            ((row + 1) as usize, fit_column(col, lines[row + 1]))
        } else {
            cursor
        },
        EditKey::Home => (row, 0),
        EditKey::End => (row, lines[row as int].len() as usize),
        _ => cursor,
    }
}

impl TextBuffer {
    /// Calls `TextArea::default`: one empty line, the cursor at its start,
    /// nothing selected.
    #[verifier::external_body]
    pub(crate) fn new() -> (r: TextBuffer)
        ensures
            buffer_lines(r) == seq![Seq::<char>::empty()],
            buffer_cursor(r) == (0usize, 0usize),
            !buffer_selecting(r),
    {
        TextBuffer { area: TextArea::default() }
    }

    /// Calls `TextArea::insert_str`, which puts the text in at the cursor
    /// and ends any selection. Of the text only this is claimed: into a
    /// buffer of one empty line, a text without line breaks goes as that one
    /// line, and the cursor stands behind it.
    #[verifier::external_body]
    pub(crate) fn insert_str(&mut self, text: &str)
        ensures
            !buffer_selecting(*final(self)),
            buffer_lines(*old(self)) == seq![Seq::<char>::empty()] && single_line(text@) ==> {
                &&& buffer_lines(*final(self)) == seq![text@]
                &&& buffer_cursor(*final(self)) == (0usize, text@.len() as usize)
            },
    {
        self.area.insert_str(text);
    }

    /// Calls `TextArea::lines` and copies what it returns.
    #[verifier::external_body]
    pub(crate) fn lines(&self) -> (r: Vec<String>)
        ensures
            line_views(r@) == buffer_lines(*self),
    {
        self.area.lines().to_vec()
    }

    /// Calls `TextArea::cursor`.
    #[verifier::external_body]
    pub(crate) fn cursor(&self) -> (r: (usize, usize))
        ensures
            r == buffer_cursor(*self),
    {
        self.area.cursor()
    }

    /// Calls `TextArea::input` with the key and the modifiers held. This is
    /// claimed, and only while nothing is selected and the cursor stands in
    /// the lines:
    /// - a plain character goes in at the cursor, and the cursor moves
    ///   behind it;
    /// - a plain backspace takes out the character before the cursor and
    ///   moves the cursor back, and does nothing at the very start of the
    ///   text;
    /// - a plain delete takes out the character at the cursor, and does
    ///   nothing at the very end of the text;
    /// - an arrow, home or end without modifiers leaves the lines and takes
    ///   the cursor where [`moved_cursor`] says;
    /// - after each of these nothing is selected.
    ///
    /// What backspace and delete do across the end of a line, and what tab,
    /// the page keys and the keys with modifiers do, is not claimed: much
    /// of it depends on editing state that is not modelled.
    #[verifier::external_body]
    pub(crate) fn input(&mut self, key: EditKey, ctrl: bool, alt: bool, shift: bool)
        ensures
            match plain_char(key, ctrl, alt) {
                Some(c) => !buffer_selecting(*old(self)) && cursor_within(
                    buffer_lines(*old(self)),
                    buffer_cursor(*old(self)),
                ) ==> {
                    &&& buffer_lines(*final(self)) == with_char(
                        buffer_lines(*old(self)),
                        buffer_cursor(*old(self)),
                        c,
                    )
                    &&& buffer_cursor(*final(self)).0 == buffer_cursor(*old(self)).0
                    &&& buffer_cursor(*final(self)).1 == buffer_cursor(*old(self)).1 + 1
                    &&& !buffer_selecting(*final(self))
                },
                None => true,
            },
            plain_backspace(key, ctrl, alt) && !buffer_selecting(*old(self)) && cursor_within(
                buffer_lines(*old(self)),
                buffer_cursor(*old(self)),
            ) && (buffer_cursor(*old(self)).1 > 0 || buffer_cursor(*old(self)).0 == 0) ==> {
                &&& buffer_lines(*final(self)) == without_char(
                    buffer_lines(*old(self)),
                    buffer_cursor(*old(self)),
                )
                &&& buffer_cursor(*final(self)).0 == buffer_cursor(*old(self)).0
                &&& buffer_cursor(*final(self)).1 == (if buffer_cursor(*old(self)).1 > 0 {
                    buffer_cursor(*old(self)).1 - 1
                } else {
                    0
                })
                &&& !buffer_selecting(*final(self))
            },
            plain_delete(key, ctrl, alt) && !buffer_selecting(*old(self)) && cursor_within(
                buffer_lines(*old(self)),
                buffer_cursor(*old(self)),
            ) && (buffer_cursor(*old(self)).1 < buffer_lines(*old(self))[buffer_cursor(
                *old(self),
            ).0 as int].len() || buffer_cursor(*old(self)).0 + 1 == buffer_lines(
                *old(self),
            ).len()) ==> {
                &&& buffer_lines(*final(self)) == without_next(
                    buffer_lines(*old(self)),
                    buffer_cursor(*old(self)),
                )
                &&& buffer_cursor(*final(self)) == buffer_cursor(*old(self))
                &&& !buffer_selecting(*final(self))
            },
            cursor_key(key, ctrl, alt, shift) && !buffer_selecting(*old(self)) && cursor_within(
                buffer_lines(*old(self)),
                buffer_cursor(*old(self)),
            ) ==> {
                &&& buffer_lines(*final(self)) == buffer_lines(*old(self))
                &&& buffer_cursor(*final(self)) == moved_cursor(
                    buffer_lines(*old(self)),
                    buffer_cursor(*old(self)),
                    key,
                )
                &&& !buffer_selecting(*final(self))
            },
    {
        let key = match key {
            EditKey::Char(c) => Key::Char(c),
            EditKey::Backspace => Key::Backspace,
            EditKey::Delete => Key::Delete,
            EditKey::Tab => Key::Tab,
            EditKey::Left => Key::Left,
            EditKey::Right => Key::Right,
            EditKey::Up => Key::Up,
            EditKey::Down => Key::Down,
            EditKey::Home => Key::Home,
            EditKey::End => Key::End,
            EditKey::PageUp => Key::PageUp,
            EditKey::PageDown => Key::PageDown,
        };
        self.area.input(Input { key, ctrl, alt, shift });
    }
}

} // verus!
