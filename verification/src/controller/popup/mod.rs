//! Popups: while one is open it takes every key.
//!
//! A popup is one of three things: a line of text to edit and submit, a text
//! to read, or a question to answer with yes or no. What a submitted text or
//! an answer does is named by a value ([`InputCallback`],
//! [`ConfirmCallback`]) that the popup owns and carries along.
use crate::event::KeyCode;
use crate::event::KeyEvent;
use crate::event::KeyEventKind;
use crate::model::dates::date_fault;
use crate::model::dates::float_error_text;
use crate::model::dates::parsed_date;
use crate::model::dates::today;
use crate::model::error::fault_message;
use crate::model::sheets::parser_total;
use crate::model::sheets::parses;
use crate::model::sheets::TransactionView;
use crate::model::Amount;
use crate::model::Model;
use crate::model::ModelView;
use crate::model::ParseTransactionMemberError;
use crate::model::Transaction;
use chrono::NaiveDate;
use std::num::ParseFloatError;
use vstd::prelude::*;

pub mod buffer;
pub mod defaults;
pub mod text;

use buffer::buffer_lines;
use buffer::single_line;
use buffer::EditKey;
use buffer::TextBuffer;
use text::collapse;
use text::collapsed;

verus! {

/// What a submitted line of text is for.
#[derive(Debug)]
pub enum InputCallback {
    /// The new content of the cell `(sheet_index, row, col)`.
    UpdateMember { sheet_index: usize, row: usize, col: usize },
    /// The new name of a sheet.
    RenameSheet { sheet_index: usize },
    /// The date of a row to be put in before row `row`: the first of three
    /// questions.
    NewRowDate { sheet_index: usize, row: usize },
    /// The label of that row: the second question.
    NewRowLabel { sheet_index: usize, row: usize, date: NaiveDate },
    /// The amount of that row: the third question.
    NewRowAmount { sheet_index: usize, row: usize, date: NaiveDate, label: String },
}

/// An [`InputCallback`] as a mathematical value.
pub enum InputCallbackView {
    UpdateMember { sheet_index: usize, row: usize, col: usize },
    RenameSheet { sheet_index: usize },
    NewRowDate { sheet_index: usize, row: usize },
    NewRowLabel { sheet_index: usize, row: usize, date: NaiveDate },
    NewRowAmount { sheet_index: usize, row: usize, date: NaiveDate, label: Seq<char> },
}

impl View for InputCallback {
    type V = InputCallbackView;

    open spec fn view(&self) -> InputCallbackView {
        match self {
            InputCallback::UpdateMember { sheet_index, row, col } => InputCallbackView::UpdateMember {
                sheet_index: *sheet_index,
                row: *row,
                col: *col,
            },
            InputCallback::RenameSheet { sheet_index } => InputCallbackView::RenameSheet {
                sheet_index: *sheet_index,
            },
            InputCallback::NewRowDate { sheet_index, row } => InputCallbackView::NewRowDate {
                sheet_index: *sheet_index,
                row: *row,
            },
            InputCallback::NewRowLabel { sheet_index, row, date } => InputCallbackView::NewRowLabel {
                sheet_index: *sheet_index,
                row: *row,
                date: *date,
            },
            InputCallback::NewRowAmount {
                sheet_index,
                row,
                date,
                label,
            } => InputCallbackView::NewRowAmount {
                sheet_index: *sheet_index,
                row: *row,
                date: *date,
                label: label@,
            },
        }
    }
}

impl InputCallback {
    /// Whether what the callback points at exists in the model.
    pub fn fits_model(&self, model: &Model) -> (r: bool)
        ensures
            r == self@.fits(model@),
    {
        match self {
            InputCallback::UpdateMember { sheet_index, row, col } => {
                match model.get_sheet(*sheet_index) {
                    Some(sheet) => *row < sheet.transactions.len(),
                    None => false,
                }
            },
            InputCallback::RenameSheet { sheet_index } => model.get_sheet(*sheet_index).is_some(),
            InputCallback::NewRowDate { sheet_index, row } => {
                match model.get_sheet(*sheet_index) {
                    Some(sheet) => *row <= sheet.transactions.len(),
                    None => false,
                }
            },
            InputCallback::NewRowLabel { sheet_index, row, date } => {
                match model.get_sheet(*sheet_index) {
                    Some(sheet) => *row <= sheet.transactions.len(),
                    None => false,
                }
            },
            InputCallback::NewRowAmount { sheet_index, row, date, label } => {
                match model.get_sheet(*sheet_index) {
                    Some(sheet) => *row <= sheet.transactions.len(),
                    None => false,
                }
            },
        }
    }
}

impl Clone for InputCallback {
    fn clone(&self) -> (r: InputCallback)
        ensures
            r@ == self@,
    {
        match self {
            InputCallback::UpdateMember { sheet_index, row, col } => InputCallback::UpdateMember {
                sheet_index: *sheet_index,
                row: *row,
                col: *col,
            },
            InputCallback::RenameSheet { sheet_index } => InputCallback::RenameSheet {
                sheet_index: *sheet_index,
            },
            InputCallback::NewRowDate { sheet_index, row } => InputCallback::NewRowDate {
                sheet_index: *sheet_index,
                row: *row,
            },
            InputCallback::NewRowLabel { sheet_index, row, date } => InputCallback::NewRowLabel {
                sheet_index: *sheet_index,
                row: *row,
                date: *date,
            },
            InputCallback::NewRowAmount { sheet_index, row, date, label } => InputCallback::NewRowAmount {
                sheet_index: *sheet_index,
                row: *row,
                date: *date,
                label: label.clone(),
            },
        }
    }
}

/// What the answer to a question is for.
#[derive(Clone, Copy, Debug, PartialEq, Eq, Structural)]
pub enum ConfirmCallback {
    /// On yes, the secondary sheet with this index is removed.
    DeleteSheet { sheet_index: usize },
}

/// The value of an optional string.
pub open spec fn opt_view(text: Option<String>) -> Option<Seq<char>> {
    match text {
        Some(s) => Some(s@),
        None => None,
    }
}

/// A popup that shows a text.
pub struct InfoView {
    pub text: Seq<char>,
    pub title: Seq<char>,
    pub subtitle: Option<Seq<char>>,
    pub error: Option<Seq<char>>,
}

/// A popup that takes a line of text. Of the text being edited it holds the
/// lines, where the cursor stands, and whether a selection is going on.
pub struct InputView {
    pub lines: Seq<Seq<char>>,
    pub cursor: (usize, usize),
    pub selecting: bool,
    pub on_submit: InputCallbackView,
    pub title: Seq<char>,
    pub subtitle: Option<Seq<char>>,
    pub error: Option<Seq<char>>,
}

/// A popup that asks for yes or no.
pub struct ConfirmView {
    pub prompt: Seq<char>,
    pub on_submit: ConfirmCallback,
    pub title: Seq<char>,
    pub subtitle: Option<Seq<char>>,
    pub error: Option<Seq<char>>,
}

/// A popup as a mathematical value.
pub enum PopupView {
    Input(InputView),
    Info(InfoView),
    Confirm(ConfirmView),
}

impl InputCallbackView {
    /// Whether what the callback points at exists in the model.
    pub open spec fn fits(self, model: ModelView) -> bool {
        match self {
            InputCallbackView::UpdateMember { sheet_index, row, col } => model.has_row(
                sheet_index as int,
                row as int,
            ),
            InputCallbackView::RenameSheet { sheet_index } => sheet_index < model.count(),
            InputCallbackView::NewRowDate { sheet_index, row } => sheet_index < model.count() && row
                <= model.sheet(sheet_index as int).len(),
            InputCallbackView::NewRowLabel { sheet_index, row, date } => sheet_index
                < model.count() && row <= model.sheet(sheet_index as int).len(),
            InputCallbackView::NewRowAmount { sheet_index, row, date, label } => sheet_index
                < model.count() && row <= model.sheet(sheet_index as int).len(),
        }
    }

    /// Whether a submitted text is handed to the number parser.
    pub open spec fn needs_amount(self) -> bool {
        match self {
            InputCallbackView::UpdateMember { sheet_index, row, col } => col == 2,
            InputCallbackView::NewRowAmount { sheet_index, row, date, label } => true,
            _ => false,
        }
    }

    /// What submitting `text` in the popup `popup` does: the popup that is
    /// open afterwards, if any, and the model. `parsed` is what the number
    /// parser made of the text and `today` the date of the day; each counts
    /// only where the callback asks for it.
    pub open spec fn outcome(
        self,
        popup: InputView,
        text: Seq<char>,
        model: ModelView,
        parsed: Result<Amount, ParseFloatError>,
        today: NaiveDate,
    ) -> (Option<PopupView>, ModelView) {
        match self {
            InputCallbackView::UpdateMember { sheet_index, row, col } => {
                let (next, told) = model.edited(
                    sheet_index as int,
                    row as int,
                    col as int,
                    text,
                    parsed,
                );
                match told {
                    None => (None, next),
                    Some(message) => (Some(PopupView::Input(popup.with_error(message))), model),
                }
            },
            InputCallbackView::RenameSheet { sheet_index } => (
                None,
                model.with_name(sheet_index as int, text),
            ),
            InputCallbackView::NewRowDate { sheet_index, row } => {
                if text.len() == 0 {
                    (Some(PopupView::Input(InputView::ask_label(sheet_index, row, today))), model)
                } else {
                    match parsed_date(text) {
                        Ok(date) => (
                            Some(PopupView::Input(InputView::ask_label(sheet_index, row, date))),
                            model,
                        ),
                        Err(e) => (
                            Some(PopupView::Input(popup.with_error(fault_message(date_fault(e))))),
                            model,
                        ),
                    }
                }
            },
            InputCallbackView::NewRowLabel { sheet_index, row, date } => (
                Some(PopupView::Input(InputView::ask_amount(sheet_index, row, date, text))),
                model,
            ),
            InputCallbackView::NewRowAmount { sheet_index, row, date, label } => {
                match parsed {
                    Ok(amount) => (
                        None,
                        model.with_rows(
                            sheet_index as int,
                            model.sheet(sheet_index as int).transactions.insert(
                                row as int,
                                TransactionView { label, date, amount: amount@ },
                            ),
                        ),
                    ),
                    Err(e) => (
                        Some(PopupView::Input(popup.with_error(float_error_text(e)))),
                        model,
                    ),
                }
            },
        }
    }
}

impl ConfirmCallback {
    /// Whether what the callback points at exists in the model.
    pub open spec fn fits(self, model: ModelView) -> bool {
        match self {
            ConfirmCallback::DeleteSheet { sheet_index } => 0 < sheet_index < model.count(),
        }
    }

    /// The model after the question was answered.
    pub open spec fn outcome(self, choice: bool, model: ModelView) -> ModelView {
        match self {
            ConfirmCallback::DeleteSheet { sheet_index } => if choice {
                ModelView { sheets: model.sheets.remove(sheet_index - 1), ..model }
            } else {
                model
            },
        }
    }

    /// Whether what the callback points at exists in the model.
    pub fn fits_model(&self, model: &Model) -> (r: bool)
        requires
            model.wf(),
        ensures
            r == self.fits(model@),
    {
        match self {
            ConfirmCallback::DeleteSheet { sheet_index } => 0 < *sheet_index && *sheet_index
                < model.sheet_count(),
        }
    }

    /// Acts on the answer to the question.
    pub fn call(&self, choice: bool, model: &mut Model)
        requires
            self.fits(old(model)@),
            old(model).wf(),
        ensures
            final(model)@ == self.outcome(choice, old(model)@),
            final(model).wf(),
    {
        match self {
            ConfirmCallback::DeleteSheet { sheet_index } => {
                if choice {
                    model.delete_sheet(*sheet_index);
                }
            },
        }
    }
}

impl InputView {
    /// An empty input popup of the given title and callback.
    pub open spec fn fresh(title: Seq<char>, on_submit: InputCallbackView) -> InputView {
        InputView {
            lines: seq![Seq::<char>::empty()],
            cursor: (0, 0),
            selecting: false,
            on_submit,
            title,
            subtitle: None,
            error: None,
        }
    }

    /// The popup with another text being edited.
    pub open spec fn with_buffer(self, other: InputView) -> InputView {
        InputView { lines: other.lines, cursor: other.cursor, selecting: other.selecting, ..self }
    }

    /// Whether `after` is what a key that is neither enter nor escape
    /// leaves of the text being edited. A key that the text buffer has no
    /// use for, and a key that is released, leaves it as it is. While
    /// nothing is selected, a plain character goes in at the cursor, and the
    /// cursor moves behind it; backspace takes out the character before the
    /// cursor, and delete the one at the cursor; the arrows, home and end,
    /// without modifiers, move the cursor and change nothing else. What the
    /// other keys do (tab, the page keys, selecting with shift, the
    /// shortcuts with control and alt) is left to the text buffer.
    pub open spec fn edited_by(self, key: KeyEvent, after: InputView) -> bool {
        &&& edit_key(key.code) is None || key.kind == KeyEventKind::Release ==> {
            &&& after.lines == self.lines
            &&& after.cursor == self.cursor
            &&& after.selecting == self.selecting
        }
        &&& match typed_char(key) {
            Some(c) => !self.selecting && buffer::cursor_within(self.lines, self.cursor) ==> {
                &&& after.lines == buffer::with_char(self.lines, self.cursor, c)
                &&& after.cursor.0 == self.cursor.0
                &&& after.cursor.1 == self.cursor.1 + 1
                &&& !after.selecting
            },
            None => true,
        }
        &&& backspace_pressed(key) && !self.selecting && buffer::cursor_within(
            self.lines,
            self.cursor,
        ) && (self.cursor.1 > 0 || self.cursor.0 == 0) ==> {
            &&& after.lines == buffer::without_char(self.lines, self.cursor)
            &&& after.cursor.0 == self.cursor.0
            &&& after.cursor.1 == (if self.cursor.1 > 0 {
                self.cursor.1 - 1
            } else {
                0
            })
            &&& !after.selecting
        }
        &&& delete_pressed(key) && !self.selecting && buffer::cursor_within(
            self.lines,
            self.cursor,
        ) && (self.cursor.1 < self.lines[self.cursor.0 as int].len() || self.cursor.0 + 1
            == self.lines.len()) ==> {
            &&& after.lines == buffer::without_next(self.lines, self.cursor)
            &&& after.cursor == self.cursor
            &&& !after.selecting
        }
        &&& match cursor_pressed(key) {
            Some(k) => !self.selecting && buffer::cursor_within(self.lines, self.cursor) ==> {
                &&& after.lines == self.lines
                &&& after.cursor == buffer::moved_cursor(self.lines, self.cursor, k)
                &&& !after.selecting
            },
            None => true,
        }
    }

    /// The popup with an error message.
    pub open spec fn with_error(self, message: Seq<char>) -> InputView {
        InputView { error: Some(message), ..self }
    }

    /// The popup that asks for the date of a new row.
    pub open spec fn ask_date(sheet_index: usize, row: usize) -> InputView {
        InputView {
            subtitle: Some("(Date - leave blank for today)"@),
            ..Self::fresh("Insert row"@, InputCallbackView::NewRowDate { sheet_index, row })
        }
    }

    /// The popup that asks for the label of a new row.
    pub open spec fn ask_label(sheet_index: usize, row: usize, date: NaiveDate) -> InputView {
        InputView {
            subtitle: Some("(Label)"@),
            ..Self::fresh("Insert row"@, InputCallbackView::NewRowLabel { sheet_index, row, date })
        }
    }

    /// The popup that asks for the amount of a new row.
    pub open spec fn ask_amount(
        sheet_index: usize,
        row: usize,
        date: NaiveDate,
        label: Seq<char>,
    ) -> InputView {
        InputView {
            subtitle: Some("(Amount)"@),
            ..Self::fresh(
                "Insert row"@,
                InputCallbackView::NewRowAmount { sheet_index, row, date, label },
            )
        }
    }
}

impl PopupView {
    /// Whether what the popup points at exists in the model.
    pub open spec fn fits(self, model: ModelView) -> bool {
        match self {
            PopupView::Input(p) => p.on_submit.fits(model),
            PopupView::Info(p) => true,
            PopupView::Confirm(p) => p.on_submit.fits(model),
        }
    }

    /// The popup with another title.
    pub open spec fn with_title(self, title: Seq<char>) -> PopupView {
        match self {
            PopupView::Input(p) => PopupView::Input(InputView { title, ..p }),
            PopupView::Info(p) => PopupView::Info(InfoView { title, ..p }),
            PopupView::Confirm(p) => PopupView::Confirm(ConfirmView { title, ..p }),
        }
    }

    /// The popup with a subtitle.
    pub open spec fn with_subtitle(self, subtitle: Seq<char>) -> PopupView {
        match self {
            PopupView::Input(p) => PopupView::Input(InputView { subtitle: Some(subtitle), ..p }),
            PopupView::Info(p) => PopupView::Info(InfoView { subtitle: Some(subtitle), ..p }),
            PopupView::Confirm(p) => PopupView::Confirm(
                ConfirmView { subtitle: Some(subtitle), ..p },
            ),
        }
    }

    /// The popup with an error message.
    pub open spec fn with_error(self, error: Seq<char>) -> PopupView {
        match self {
            PopupView::Input(p) => PopupView::Input(InputView { error: Some(error), ..p }),
            PopupView::Info(p) => PopupView::Info(InfoView { error: Some(error), ..p }),
            PopupView::Confirm(p) => PopupView::Confirm(ConfirmView { error: Some(error), ..p }),
        }
    }

    /// Whether `after` is the popup `self` with the text `text` added: an
    /// info popup shows it, a question asks it, and an input popup has it
    /// put in at the cursor (of which only this is known: into an empty
    /// buffer, a text without line breaks goes as the one line, with the
    /// cursor behind it).
    pub open spec fn text_added(self, text: Seq<char>, after: PopupView) -> bool {
        match self {
            PopupView::Input(p) => {
                &&& after matches PopupView::Input(q)
                &&& q == p.with_buffer(q)
                &&& !q.selecting
                &&& p.lines == seq![Seq::<char>::empty()] && single_line(text) ==> q.lines
                    == seq![text] && q.cursor == (0usize, text.len() as usize)
            },
            PopupView::Info(p) => after == PopupView::Info(InfoView { text, ..p }),
            PopupView::Confirm(p) => after == PopupView::Confirm(ConfirmView { prompt: text, ..p }),
        }
    }
}

/// The value of an optional popup.
pub open spec fn popup_view(popup: Option<Popup>) -> Option<PopupView> {
    match popup {
        Some(p) => Some(p@),
        None => None,
    }
}

/// What a key does to an info popup: escape and `q` close it, any other key
/// leaves it open.
pub open spec fn info_step(popup: InfoView, key: KeyEvent) -> Option<PopupView> {
    if key.code == KeyCode::Esc || key.code == KeyCode::Char('q') {
        None
    } else {
        Some(PopupView::Info(popup))
    }
}

/// What a key does to a question: `y` and enter answer yes, `n` answers no,
/// escape and `q` close it unanswered, any other key leaves it open. The
/// callback is invoked for an answer only.
pub open spec fn confirm_step(popup: ConfirmView, key: KeyEvent, model: ModelView) -> (
    Option<PopupView>,
    ModelView,
) {
    if key.code == KeyCode::Char('y') || key.code == KeyCode::Enter {
        (None, popup.on_submit.outcome(true, model))
    } else if key.code == KeyCode::Char('n') {
        (None, popup.on_submit.outcome(false, model))
    } else if key.code == KeyCode::Char('q') || key.code == KeyCode::Esc {
        (None, model)
    } else {
        (Some(PopupView::Confirm(popup)), model)
    }
}

/// Whether `after` and `model_after` are what submitting the text of an
/// input popup leaves, given the answers of the number parser and of the
/// clock.
pub open spec fn submitted<P: Fn(String) -> Result<Amount, ParseFloatError>>(
    parse: P,
    popup: InputView,
    model: ModelView,
    parsed: Result<Amount, ParseFloatError>,
    today: NaiveDate,
    after: Option<PopupView>,
    model_after: ModelView,
) -> bool {
    &&& popup.on_submit.needs_amount() ==> parses(parse, collapsed(popup.lines), parsed)
    &&& (after, model_after) == popup.on_submit.outcome(
        popup,
        collapsed(popup.lines),
        model,
        parsed,
        today,
    )
}

/// Whether `after` and `model_after` are what a key leaves of an open popup
/// and the model.
///
/// Enter submits the text of an input popup: its lines are joined by spaces,
/// line breaks are taken out, and the callback decides. Escape closes the
/// popup and invokes nothing. Any other key goes to the text buffer: the
/// popup stays as it is but for the text being edited.
pub open spec fn popup_step<P: Fn(String) -> Result<Amount, ParseFloatError>>(
    parse: P,
    before: PopupView,
    key: KeyEvent,
    model: ModelView,
    after: Option<PopupView>,
    model_after: ModelView,
) -> bool {
    match before {
        PopupView::Info(p) => after == info_step(p, key) && model_after == model,
        PopupView::Confirm(p) => (after, model_after) == confirm_step(p, key, model),
        PopupView::Input(p) => {
            if key.code == KeyCode::Enter {
                exists|parsed: Result<Amount, ParseFloatError>, today: NaiveDate| #[trigger]
                    submitted(parse, p, model, parsed, today, after, model_after)
            } else if key.code == KeyCode::Esc {
                after is None && model_after == model
            } else {
                &&& model_after == model
                &&& after matches Some(PopupView::Input(q))
                &&& q == p.with_buffer(q)
                &&& p.edited_by(key, q)
            }
        },
    }
}

/// Escape closes every popup, and the model is as it was: no callback is
/// invoked, whatever was typed.
pub proof fn lemma_cancel_changes_nothing<P: Fn(String) -> Result<Amount, ParseFloatError>>(
    parse: P,
    before: PopupView,
    key: KeyEvent,
    model: ModelView,
    after: Option<PopupView>,
    model_after: ModelView,
)
    requires
        key.code == KeyCode::Esc,
        popup_step(parse, before, key, model, after, model_after),
    ensures
        after is None,
        model_after == model,
{
}

/// The callback of a question is invoked for an answer only: a key that is
/// neither yes (`y`, enter) nor no (`n`) leaves the model as it was.
pub proof fn lemma_unanswered_changes_nothing(popup: ConfirmView, key: KeyEvent, model: ModelView)
    requires
        key.code != KeyCode::Char('y'),
        key.code != KeyCode::Enter,
        key.code != KeyCode::Char('n'),
    ensures
        confirm_step(popup, key, model).1 == model,
{
}

/// Whether the text being edited is the one line `text`, with the cursor
/// behind it and nothing selected: as it is after the popup was opened with
/// that text, and after plain typing.
pub open spec fn holds_line(popup: InputView, text: Seq<char>) -> bool {
    &&& popup.lines == seq![text]
    &&& popup.cursor == (0usize, text.len() as usize)
    &&& !popup.selecting
}

/// A plain character typed behind a line is added to the line, and nothing
/// else changes.
pub proof fn lemma_typed_char_appends<P: Fn(String) -> Result<Amount, ParseFloatError>>(
    parse: P,
    popup: InputView,
    text: Seq<char>,
    key: KeyEvent,
    c: char,
    model: ModelView,
    after: Option<PopupView>,
    model_after: ModelView,
)
    requires
        holds_line(popup, text),
        text.len() < usize::MAX,
        typed_char(key) == Some(c),
        popup_step(parse, PopupView::Input(popup), key, model, after, model_after),
    ensures
        model_after == model,
        after matches Some(PopupView::Input(q)) && holds_line(q, text.push(c)) && q
            == popup.with_buffer(q),
{
    assert(buffer::with_char(seq![text], (0usize, text.len() as usize), c) =~= seq![text.push(c)])
        by {
        assert(text.insert(text.len() as int, c) =~= text.push(c));
    }
}

/// Backspace behind a line takes its last character away, and nothing else
/// changes; behind an empty line it changes nothing at all.
pub proof fn lemma_backspace_removes<P: Fn(String) -> Result<Amount, ParseFloatError>>(
    parse: P,
    popup: InputView,
    text: Seq<char>,
    key: KeyEvent,
    model: ModelView,
    after: Option<PopupView>,
    model_after: ModelView,
)
    requires
        holds_line(popup, text),
        text.len() <= usize::MAX,
        backspace_pressed(key),
        popup_step(parse, PopupView::Input(popup), key, model, after, model_after),
    ensures
        model_after == model,
        after matches Some(PopupView::Input(q)) && q == popup.with_buffer(q) && holds_line(
            q,
            if text.len() > 0 {
                text.drop_last()
            } else {
                text
            },
        ),
{
    if text.len() > 0 {
        assert(buffer::without_char(seq![text], (0usize, text.len() as usize)) =~= seq![
            text.drop_last(),
        ]) by {
            assert(text.remove(text.len() - 1) =~= text.drop_last());
        }
    }
}

/// In a single line the cursor keys do what their names say, and change
/// nothing but where the cursor stands: left and right go one character
/// back and on and stop at the ends, home and end go to the ends, up and
/// down stay.
pub proof fn lemma_cursor_in_line<P: Fn(String) -> Result<Amount, ParseFloatError>>(
    parse: P,
    popup: InputView,
    text: Seq<char>,
    key: KeyEvent,
    model: ModelView,
    after: Option<PopupView>,
    model_after: ModelView,
)
    requires
        popup.lines == seq![text],
        popup.cursor.0 == 0,
        popup.cursor.1 <= text.len() <= usize::MAX,
        !popup.selecting,
        cursor_pressed(key) is Some,
        popup_step(parse, PopupView::Input(popup), key, model, after, model_after),
    ensures
        model_after == model,
        after matches Some(PopupView::Input(q)) && q == popup.with_buffer(q) && q.lines
            == popup.lines && !q.selecting && q.cursor.0 == 0 && q.cursor.1 == (
        if key.code == KeyCode::Left {
            if popup.cursor.1 > 0 {
                popup.cursor.1 - 1
            } else {
                0
            }
        } else if key.code == KeyCode::Right {
            if popup.cursor.1 < text.len() {
                popup.cursor.1 + 1
            } else {
                popup.cursor.1 as int
            }
        } else if key.code == KeyCode::Home {
            0
        } else if key.code == KeyCode::End {
            text.len() as int
        } else {
            popup.cursor.1 as int
        }),
{
}

/// Delete takes out the character at the cursor and leaves the cursor
/// where it is; at the end of the text it changes nothing.
pub proof fn lemma_delete_removes<P: Fn(String) -> Result<Amount, ParseFloatError>>(
    parse: P,
    popup: InputView,
    text: Seq<char>,
    key: KeyEvent,
    model: ModelView,
    after: Option<PopupView>,
    model_after: ModelView,
)
    requires
        popup.lines == seq![text],
        popup.cursor.0 == 0,
        popup.cursor.1 <= text.len(),
        !popup.selecting,
        delete_pressed(key),
        popup_step(parse, PopupView::Input(popup), key, model, after, model_after),
    ensures
        model_after == model,
        after matches Some(PopupView::Input(q)) && q == popup.with_buffer(q) && q.cursor
            == popup.cursor && !q.selecting && q.lines == seq![
            if popup.cursor.1 < text.len() {
                text.remove(popup.cursor.1 as int)
            } else {
                text
            },
        ],
{
    if popup.cursor.1 < text.len() {
        assert(buffer::without_next(seq![text], popup.cursor) =~= seq![
            text.remove(popup.cursor.1 as int),
        ]);
    }
}

/// Whether `steps` are the states that an input popup goes through while
/// the keys are pressed one after the other, none of them closing it: one
/// state before each key, and one after the last.
pub open spec fn keys_lead<P: Fn(String) -> Result<Amount, ParseFloatError>>(
    parse: P,
    model: ModelView,
    keys: Seq<KeyEvent>,
    steps: Seq<InputView>,
) -> bool {
    &&& steps.len() == keys.len() + 1
    &&& forall|i: int|
        #![trigger keys[i]]
        0 <= i < keys.len() ==> popup_step(
            parse,
            PopupView::Input(steps[i]),
            keys[i],
            model,
            Some(PopupView::Input(steps[i + 1])),
            model,
        )
}

/// The characters that a run of plainly typed keys puts into the text.
pub open spec fn typed_text(keys: Seq<KeyEvent>) -> Seq<char>
    decreases keys.len(),
{
    if keys.len() == 0 {
        Seq::empty()
    } else {
        match typed_char(keys.last()) {
            Some(c) => typed_text(keys.drop_last()).push(c),
            None => typed_text(keys.drop_last()),
        }
    }
}

/// What is typed is what the popup holds: plain characters typed behind a
/// line are added to it in the order in which they were typed, and nothing
/// else changes.
pub proof fn lemma_typing_appends<P: Fn(String) -> Result<Amount, ParseFloatError>>(
    parse: P,
    model: ModelView,
    text: Seq<char>,
    keys: Seq<KeyEvent>,
    steps: Seq<InputView>,
    count: int,
)
    requires
        keys_lead(parse, model, keys, steps),
        holds_line(steps[0], text),
        text.len() + keys.len() < usize::MAX,
        forall|i: int| 0 <= i < keys.len() ==> typed_char(#[trigger] keys[i]) is Some,
        0 <= count <= keys.len(),
    ensures
        holds_line(steps[count], text + typed_text(keys.take(count))),
        steps[count] == steps[0].with_buffer(steps[count]),
        typed_text(keys.take(count)).len() == count,
    decreases count,
{
    if count == 0 {
        assert(keys.take(0) =~= Seq::<KeyEvent>::empty());
        assert(text + typed_text(keys.take(0)) =~= text);
    } else {
        lemma_typing_appends(parse, model, text, keys, steps, count - 1);
        let key = keys[count - 1];
        let so_far = text + typed_text(keys.take(count - 1));
        assert(keys.take(count).drop_last() =~= keys.take(count - 1));
        assert(keys.take(count).last() == key);
        lemma_typed_char_appends(
            parse,
            steps[count - 1],
            so_far,
            key,
            typed_char(key)->0,
            model,
            Some(PopupView::Input(steps[count])),
            model,
        );
        assert(so_far.push(typed_char(key)->0) =~= text + typed_text(keys.take(count)));
    }
}

/// Submitting the new name of a sheet closes the popup, and the sheet has
/// exactly the submitted text as its name: the lines joined by spaces,
/// without line breaks.
pub proof fn lemma_rename_round_trip<P: Fn(String) -> Result<Amount, ParseFloatError>>(
    parse: P,
    popup: InputView,
    key: KeyEvent,
    model: ModelView,
    after: Option<PopupView>,
    model_after: ModelView,
)
    requires
        key.code == KeyCode::Enter,
        popup.on_submit matches InputCallbackView::RenameSheet { sheet_index },
        popup.on_submit.fits(model),
        popup_step(parse, PopupView::Input(popup), key, model, after, model_after),
    ensures
        after is None,
        model_after == model.with_name(popup.on_submit->RenameSheet_sheet_index as int, collapsed(popup.lines)),
        model_after.sheet(popup.on_submit->RenameSheet_sheet_index as int).name == collapsed(
            popup.lines,
        ),
        single_line(collapsed(popup.lines)),
{
    text::lemma_stripped_single_line(text::joined(popup.lines));
}

/// Plainly typed text holds no line break.
pub proof fn lemma_typed_text_single_line(keys: Seq<KeyEvent>)
    ensures
        single_line(typed_text(keys)),
    decreases keys.len(),
{
    if keys.len() > 0 {
        lemma_typed_text_single_line(keys.drop_last());
        let rest = typed_text(keys.drop_last());
        match typed_char(keys.last()) {
            Some(c) => {
                assert forall|i: int| 0 <= i < rest.push(c).len() implies rest.push(c)[i] != '\n'
                    && rest.push(c)[i] != '\r' by {
                    if i < rest.len() {
                        assert(rest.contains(rest[i]));
                    }
                }
            },
            None => {},
        }
    }
}

/// From the keys to the model: a popup for renaming a sheet is opened with
/// the name it has, the user types behind it and presses enter; then the
/// popup is closed, and the name of the sheet is the old name with what was
/// typed behind it.
pub proof fn lemma_typed_name_round_trip<P: Fn(String) -> Result<Amount, ParseFloatError>>(
    parse: P,
    model: ModelView,
    text: Seq<char>,
    keys: Seq<KeyEvent>,
    steps: Seq<InputView>,
    enter: KeyEvent,
    sheet_index: usize,
    after: Option<PopupView>,
    model_after: ModelView,
)
    requires
        keys_lead(parse, model, keys, steps),
        holds_line(steps[0], text),
        single_line(text),
        text.len() + keys.len() < usize::MAX,
        forall|i: int| 0 <= i < keys.len() ==> typed_char(#[trigger] keys[i]) is Some,
        steps[0].on_submit == (InputCallbackView::RenameSheet { sheet_index }),
        sheet_index < model.count(),
        enter.code == KeyCode::Enter,
        popup_step(parse, PopupView::Input(steps.last()), enter, model, after, model_after),
    ensures
        after is None,
        model_after == model.with_name(sheet_index as int, text + typed_text(keys)),
        model_after.sheet(sheet_index as int).name == text + typed_text(keys),
{
    let n = keys.len() as int;
    lemma_typing_appends(parse, model, text, keys, steps, n);
    assert(keys.take(n) =~= keys);
    let whole = text + typed_text(keys);
    lemma_typed_text_single_line(keys);
    assert(single_line(whole)) by {
        assert forall|i: int| 0 <= i < whole.len() implies whole[i] != '\n' && whole[i]
            != '\r' by {
            if i < text.len() {
                assert(text.contains(text[i]));
            } else {
                assert(typed_text(keys).contains(typed_text(keys)[i - text.len()]));
            }
        }
    }
    text::lemma_single_line_collapses_to_itself(whole);
}

/// Submitting the new label of a transaction closes the popup, and the
/// transaction has exactly the submitted text as its label.
pub proof fn lemma_label_round_trip<P: Fn(String) -> Result<Amount, ParseFloatError>>(
    parse: P,
    popup: InputView,
    key: KeyEvent,
    model: ModelView,
    after: Option<PopupView>,
    model_after: ModelView,
    sheet_index: usize,
    row: usize,
)
    requires
        key.code == KeyCode::Enter,
        popup.on_submit == (InputCallbackView::UpdateMember { sheet_index, row, col: 1 }),
        popup.on_submit.fits(model),
        popup_step(parse, PopupView::Input(popup), key, model, after, model_after),
    ensures
        after is None,
        model_after.sheet(sheet_index as int).transactions[row as int].label == collapsed(
            popup.lines,
        ),
        model_after.count() == model.count(),
{
}

/// Submitting a text as the date of a transaction closes the popup exactly
/// if the text is a date, and then the transaction has that date; a text
/// that is no date changes nothing in the model.
pub proof fn lemma_date_round_trip<P: Fn(String) -> Result<Amount, ParseFloatError>>(
    parse: P,
    popup: InputView,
    key: KeyEvent,
    model: ModelView,
    after: Option<PopupView>,
    model_after: ModelView,
    sheet_index: usize,
    row: usize,
)
    requires
        key.code == KeyCode::Enter,
        popup.on_submit == (InputCallbackView::UpdateMember { sheet_index, row, col: 0 }),
        popup.on_submit.fits(model),
        popup_step(parse, PopupView::Input(popup), key, model, after, model_after),
    ensures
        after is None <==> parsed_date(collapsed(popup.lines)) is Ok,
        after is None ==> Ok::<NaiveDate, chrono::ParseError>(
            model_after.sheet(sheet_index as int).transactions[row as int].date,
        ) == parsed_date(collapsed(popup.lines)),
        after is Some ==> model_after == model,
{
}

/// Submitting a text that the number parser takes closes the popup, and the
/// transaction has the amount that the parser made of the text.
pub proof fn lemma_amount_round_trip<P: Fn(String) -> Result<Amount, ParseFloatError>>(
    parse: P,
    popup: InputView,
    key: KeyEvent,
    model: ModelView,
    after: Option<PopupView>,
    model_after: ModelView,
    sheet_index: usize,
    row: usize,
)
    requires
        key.code == KeyCode::Enter,
        popup.on_submit == (InputCallbackView::UpdateMember { sheet_index, row, col: 2 }),
        popup.on_submit.fits(model),
        popup_step(parse, PopupView::Input(popup), key, model, after, model_after),
        after is None,
    ensures
        exists|amount: Amount|
            #[trigger] parses(parse, collapsed(popup.lines), Ok(amount)) && model_after.sheet(
                sheet_index as int,
            ).transactions[row as int].amount == amount@,
{
    let (parsed, today) = choose|parsed: Result<Amount, ParseFloatError>, today: NaiveDate| #[trigger]
        submitted(parse, popup, model, parsed, today, after, model_after);
    assert(parsed is Ok);
    assert(parses(parse, collapsed(popup.lines), Ok(parsed->Ok_0)));
}

/// A submitted text that its column cannot hold changes nothing in the
/// model: the popup stays, as it was but for the message.
pub proof fn lemma_rejected_changes_nothing<P: Fn(String) -> Result<Amount, ParseFloatError>>(
    parse: P,
    popup: InputView,
    key: KeyEvent,
    model: ModelView,
    after: Option<PopupView>,
    model_after: ModelView,
)
    requires
        key.code == KeyCode::Enter,
        popup.on_submit is UpdateMember || popup.on_submit is NewRowAmount,
        popup_step(parse, PopupView::Input(popup), key, model, after, model_after),
        after is Some,
    ensures
        model_after == model,
        after matches Some(PopupView::Input(q)) && q.error is Some && q == popup.with_error(
            q.error->0,
        ),
{
}

/// The answer of the number parser where it was asked, and any answer
/// where it was not.
pub open spec fn answer_of(parsed: Option<Result<Amount, ParseFloatError>>) -> Result<
    Amount,
    ParseFloatError,
> {
    match parsed {
        Some(answer) => answer,
        None => arbitrary(),
    }
}

/// What every popup can do.
pub trait PopupBehaviour: Sized {
    /// The popup that this value is.
    spec fn popup(self) -> PopupView;

    /// Handles the given key event. This is necessary since the popups
    /// hijack the controls while visible.
    fn handle_key_event<P: Fn(String) -> Result<Amount, ParseFloatError>>(
        self,
        key_event: &KeyEvent,
        model: &mut Model,
        parse: &P,
    ) -> (r: Option<Popup>)
        requires
            parser_total(*parse),
            old(model).wf(),
            self.popup().fits(old(model)@),
        ensures
            popup_step(
                *parse,
                self.popup(),
                *key_event,
                old(model)@,
                popup_view(r),
                final(model)@,
            ),
            final(model).wf(),
            r matches Some(p) ==> p@.fits(final(model)@),
    ;

    /// Adds some text to the popup.
    fn with_text(self, text: &str) -> (r: Popup)
        ensures
            self.popup().text_added(text@, r@),
    ;

    /// Adds a title to the popup.
    fn with_title(self, title: &str) -> (r: Popup)
        ensures
            r@ == self.popup().with_title(title@),
    ;

    /// Adds a subtitle to the popup.
    fn with_subtitle(self, subtitle: &str) -> (r: Popup)
        ensures
            r@ == self.popup().with_subtitle(subtitle@),
    ;

    /// Adds an error message to the popup.
    fn with_error(self, error: &str) -> (r: Popup)
        ensures
            r@ == self.popup().with_error(error@),
    ;
}

/// The popup that is open.
#[derive(Debug)]
pub enum Popup {
    InputPopup(InputPopup),
    InfoPopup(InfoPopup),
    ConfirmPopup(ConfirmPopup),
}

impl View for Popup {
    type V = PopupView;

    open spec fn view(&self) -> PopupView {
        match self {
            Popup::InputPopup(p) => PopupView::Input(p@),
            Popup::InfoPopup(p) => PopupView::Info(p@),
            Popup::ConfirmPopup(p) => PopupView::Confirm(p@),
        }
    }
}

/// A popup that shows a text.
#[derive(Debug)]
pub struct InfoPopup(pub Box<InfoPopupInner>);

/// What an info popup holds.
#[derive(Debug)]
pub struct InfoPopupInner {
    pub text: String,
    pub title: String,
    pub subtitle: Option<String>,
    pub error: Option<String>,
}

impl View for InfoPopupInner {
    type V = InfoView;

    open spec fn view(&self) -> InfoView {
        InfoView {
            text: self.text@,
            title: self.title@,
            subtitle: opt_view(self.subtitle),
            error: opt_view(self.error),
        }
    }
}

impl View for InfoPopup {
    type V = InfoView;

    open spec fn view(&self) -> InfoView {
        self.0@
    }
}

impl Default for InfoPopupInner {
    /// An info popup with nothing in it.
    fn default() -> (r: InfoPopupInner)
        ensures
            r@ == (InfoView {
                text: Seq::empty(),
                title: Seq::empty(),
                subtitle: None,
                error: None,
            }),
    {
        InfoPopupInner { text: String::new(), title: String::new(), subtitle: None, error: None }
    }
}

impl InfoPopupInner {
    /// The text that is shown.
    pub fn text(&self) -> (r: &String)
        ensures
            *r == self.text,
    {
        &self.text
    }

    /// The title.
    pub fn title(&self) -> (r: &String)
        ensures
            *r == self.title,
    {
        &self.title
    }

    /// The subtitle, if there is one.
    pub fn subtitle(&self) -> (r: Option<&String>)
        ensures
            r is Some <==> self.subtitle is Some,
            r matches Some(s) ==> *s == self.subtitle->0,
    {
        match &self.subtitle {
            Some(s) => Some(s),
            None => None,
        }
    }

    /// The error message, if there is one.
    pub fn error(&self) -> (r: Option<&String>)
        ensures
            r is Some <==> self.error is Some,
            r matches Some(s) ==> *s == self.error->0,
    {
        match &self.error {
            Some(s) => Some(s),
            None => None,
        }
    }
}

impl InfoPopup {
    /// An info popup with nothing in it.
    pub fn new() -> (r: InfoPopup)
        ensures
            r@ == (InfoView {
                text: Seq::empty(),
                title: Seq::empty(),
                subtitle: None,
                error: None,
            }),
    {
        InfoPopup(Box::new(InfoPopupInner::default()))
    }
}

impl PopupBehaviour for InfoPopup {
    open spec fn popup(self) -> PopupView {
        PopupView::Info(self@)
    }

    fn handle_key_event<P: Fn(String) -> Result<Amount, ParseFloatError>>(
        self,
        key_event: &KeyEvent,
        model: &mut Model,
        parse: &P,
    ) -> (r: Option<Popup>) {
        match key_event.code {
            KeyCode::Esc => None,
            KeyCode::Char(c) => {
                if c == 'q' {
                    None
                } else {
                    Some(Popup::InfoPopup(self))
                }
            },
            _ => Some(Popup::InfoPopup(self)),
        }
    }

    fn with_text(self, text: &str) -> (r: Popup) {
        let mut popup = self;
        popup.0.text = text.to_string();
        Popup::InfoPopup(popup)
    }

    fn with_title(self, title: &str) -> (r: Popup) {
        let mut popup = self;
        popup.0.title = title.to_string();
        Popup::InfoPopup(popup)
    }

    fn with_subtitle(self, subtitle: &str) -> (r: Popup) {
        let mut popup = self;
        popup.0.subtitle = Some(subtitle.to_string());
        Popup::InfoPopup(popup)
    }

    fn with_error(self, error: &str) -> (r: Popup) {
        let mut popup = self;
        popup.0.error = Some(error.to_string());
        Popup::InfoPopup(popup)
    }
}

/// A popup that takes a line of text.
#[derive(Debug)]
pub struct InputPopup(pub Box<InputPopupInner>);

/// What an input popup holds.
#[derive(Debug)]
pub struct InputPopupInner {
    pub text_area: TextBuffer,
    pub on_submit: InputCallback,
    pub title: String,
    pub subtitle: Option<String>,
    pub error: Option<String>,
}

impl View for InputPopupInner {
    type V = InputView;

    open spec fn view(&self) -> InputView {
        InputView {
            lines: buffer_lines(self.text_area),
            cursor: buffer::buffer_cursor(self.text_area),
            selecting: buffer::buffer_selecting(self.text_area),
            on_submit: self.on_submit@,
            title: self.title@,
            subtitle: opt_view(self.subtitle),
            error: opt_view(self.error),
        }
    }
}

impl View for InputPopup {
    type V = InputView;

    open spec fn view(&self) -> InputView {
        self.0@
    }
}

/// The key of the text buffer that a key code stands for, if any. Enter and
/// escape never reach the buffer, and it has no use for the rest.
pub open spec fn edit_key(code: KeyCode) -> Option<EditKey> {
    match code {
        KeyCode::Char(c) => Some(EditKey::Char(c)),
        KeyCode::Backspace => Some(EditKey::Backspace),
        KeyCode::Delete => Some(EditKey::Delete),
        KeyCode::Tab => Some(EditKey::Tab),
        KeyCode::Left => Some(EditKey::Left),
        KeyCode::Right => Some(EditKey::Right),
        KeyCode::Up => Some(EditKey::Up),
        KeyCode::Down => Some(EditKey::Down),
        KeyCode::Home => Some(EditKey::Home),
        KeyCode::End => Some(EditKey::End),
        KeyCode::PageUp => Some(EditKey::PageUp),
        KeyCode::PageDown => Some(EditKey::PageDown),
        _ => None,
    }
}

/// The character that a key event puts into the text being edited: the key
/// is pressed, not released, and is a character other than a line break,
/// with neither control nor alt held.
pub open spec fn typed_char(key: KeyEvent) -> Option<char> {
    match edit_key(key.code) {
        Some(k) => if key.kind != KeyEventKind::Release {
            buffer::plain_char(k, key.modifiers.control, key.modifiers.alt)
        } else {
            None
        },
        None => None,
    }
}

/// Whether a key event is a plain backspace: pressed, not released, with
/// neither control nor alt held.
pub open spec fn backspace_pressed(key: KeyEvent) -> bool {
    key.code == KeyCode::Backspace && key.kind != KeyEventKind::Release && !key.modifiers.control
        && !key.modifiers.alt
}

/// Whether a key event is a plain delete: pressed, not released, with
/// neither control nor alt held.
pub open spec fn delete_pressed(key: KeyEvent) -> bool {
    key.code == KeyCode::Delete && key.kind != KeyEventKind::Release && !key.modifiers.control
        && !key.modifiers.alt
}

/// The cursor key that a key event is, if it is one: an arrow, home or end,
/// pressed, not released, with none of control, alt and shift held.
pub open spec fn cursor_pressed(key: KeyEvent) -> Option<EditKey> {
    match edit_key(key.code) {
        Some(k) => if key.kind != KeyEventKind::Release && buffer::cursor_key(
            k,
            key.modifiers.control,
            key.modifiers.alt,
            key.modifiers.shift,
        ) {
            Some(k)
        } else {
            None
        },
        None => None,
    }
}

/// The key of the text buffer that a key code stands for, if any.
pub fn to_edit_key(code: KeyCode) -> (r: Option<EditKey>)
    ensures
        r == edit_key(code),
{
    match code {
        KeyCode::Char(c) => Some(EditKey::Char(c)),
        KeyCode::Backspace => Some(EditKey::Backspace),
        KeyCode::Delete => Some(EditKey::Delete),
        KeyCode::Tab => Some(EditKey::Tab),
        KeyCode::Left => Some(EditKey::Left),
        KeyCode::Right => Some(EditKey::Right),
        KeyCode::Up => Some(EditKey::Up),
        KeyCode::Down => Some(EditKey::Down),
        KeyCode::Home => Some(EditKey::Home),
        KeyCode::End => Some(EditKey::End),
        KeyCode::PageUp => Some(EditKey::PageUp),
        KeyCode::PageDown => Some(EditKey::PageDown),
        _ => None,
    }
}

impl InputPopupInner {
    /// Creates a new, empty text input popup with the given callback.
    pub fn new(title: &str, on_submit: InputCallback) -> (r: InputPopupInner)
        ensures
            r@ == InputView::fresh(title@, on_submit@),
    {
        InputPopupInner {
            text_area: TextBuffer::new(),
            on_submit,
            title: title.to_string(),
            subtitle: None,
            error: None,
        }
    }

    /// The title.
    pub fn title(&self) -> (r: &String)
        ensures
            *r == self.title,
    {
        &self.title
    }

    /// The subtitle, if there is one.
    pub fn subtitle(&self) -> (r: Option<&String>)
        ensures
            r is Some <==> self.subtitle is Some,
            r matches Some(s) ==> *s == self.subtitle->0,
    {
        match &self.subtitle {
            Some(s) => Some(s),
            None => None,
        }
    }

    /// The error message, if there is one.
    pub fn error(&self) -> (r: Option<&String>)
        ensures
            r is Some <==> self.error is Some,
            r matches Some(s) ==> *s == self.error->0,
    {
        match &self.error {
            Some(s) => Some(s),
            None => None,
        }
    }

    /// The lines of the text being edited.
    pub fn lines(&self) -> (r: Vec<String>)
        ensures
            buffer::line_views(r@) == self@.lines,
    {
        self.text_area.lines()
    }

    /// The row and column of the cursor in the text being edited.
    pub fn cursor(&self) -> (r: (usize, usize))
        ensures
            r == self@.cursor,
    {
        self.text_area.cursor()
    }
}

impl InputPopup {
    /// A new, empty text input popup with the given callback.
    pub fn new(title: &str, on_submit: InputCallback) -> (r: InputPopup)
        ensures
            r@ == InputView::fresh(title@, on_submit@),
    {
        InputPopup(Box::new(InputPopupInner::new(title, on_submit)))
    }

    /// The popup with an error message that is already a string.
    pub fn with_message(self, message: String) -> (r: Popup)
        ensures
            r@ == PopupView::Input(self@.with_error(message@)),
    {
        let mut popup = self;
        popup.0.error = Some(message);
        Popup::InputPopup(popup)
    }

    /// What submitting `text` does, given what the number parser made of it
    /// (`parsed`, asked for where the callback needs an amount) and the date
    /// of the day. Where the text is turned down, the popup that comes back
    /// says why: its message is not empty.
    pub fn settle(
        self,
        text: String,
        model: &mut Model,
        parsed: Option<Result<Amount, ParseFloatError>>,
        today: NaiveDate,
    ) -> (r: Option<Popup>)
        requires
            old(model).wf(),
            self@.on_submit.fits(old(model)@),
            self@.on_submit.needs_amount() ==> parsed is Some,
        ensures
            (popup_view(r), final(model)@) == self@.on_submit.outcome(
                self@,
                text@,
                old(model)@,
                answer_of(parsed),
                today,
            ),
            final(model).wf(),
            r matches Some(p) ==> p@.fits(final(model)@),
            popup_view(r) matches Some(PopupView::Input(q)) ==> (q.error matches Some(message)
                ==> message.len() > 0),
    {
        let callback = self.0.on_submit.clone();
        match callback {
            InputCallback::UpdateMember { sheet_index, row, col } => {
                let ghost before = model@.sheet(sheet_index as int).transactions[row as int];
                let outcome = if col == 0 {
                    let sheet = model.sheet_mut(sheet_index);
                    let ghost rows = sheet.transactions@;
                    let transaction = &mut sheet.transactions[row];
                    proof {
                        assert(crate::model::sheets::transaction_views(
                            rows.update(row as int, *final(transaction)),
                        ) =~= crate::model::sheets::transaction_views(rows).update(
                            row as int,
                            final(transaction)@,
                        ));
                    }
                    transaction.update_date(text.as_str())
                } else if col == 1 {
                    let sheet = model.sheet_mut(sheet_index);
                    let ghost rows = sheet.transactions@;
                    let transaction = &mut sheet.transactions[row];
                    proof {
                        assert(crate::model::sheets::transaction_views(
                            rows.update(row as int, *final(transaction)),
                        ) =~= crate::model::sheets::transaction_views(rows).update(
                            row as int,
                            final(transaction)@,
                        ));
                    }
                    transaction.update_label(text);
                    Ok(())
                } else if col == 2 {
                    match parsed {
                        Some(answer) => {
                            let sheet = model.sheet_mut(sheet_index);
                            let ghost rows = sheet.transactions@;
                            let transaction = &mut sheet.transactions[row];
                            proof {
                                assert(crate::model::sheets::transaction_views(
                                    rows.update(row as int, *final(transaction)),
                                ) =~= crate::model::sheets::transaction_views(rows).update(
                                    row as int,
                                    final(transaction)@,
                                ));
                            }
                            transaction.set_amount(answer)
                        },
                        None => Ok(()),
                    }
                } else {
                    Ok(())
                };
                match outcome {
                    Ok(()) => None,
                    Err(e) => {
                        proof {
                            crate::model::lemma_same_transaction(
                                old(model)@,
                                sheet_index as int,
                                row as int,
                            );
                        }
                        Some(self.with_message(e.message))
                    },
                }
            },
            InputCallback::RenameSheet { sheet_index } => {
                let sheet = model.sheet_mut(sheet_index);
                sheet.name = text;
                None
            },
            InputCallback::NewRowDate { sheet_index, row } => {
                if text.as_str().unicode_len() == 0 {
                    Some(defaults::ask_label(sheet_index, row, today))
                } else {
                    match Transaction::parse_date(text.as_str()) {
                        Ok(date) => Some(defaults::ask_label(sheet_index, row, date)),
                        Err(e) => Some(self.with_message(e.message)),
                    }
                }
            },
            InputCallback::NewRowLabel { sheet_index, row, date } => {
                Some(defaults::ask_amount(sheet_index, row, date, text))
            },
            InputCallback::NewRowAmount { sheet_index, row, date, label } => {
                match parsed {
                    Some(answer) => match Transaction::amount_from(answer) {
                        Ok(amount) => {
                            model.insert_row(sheet_index, row, Transaction { label, date, amount });
                            None
                        },
                        Err(e) => Some(self.with_message(e.message)),
                    },
                    None => None,
                }
            },
        }
    }
}

impl PopupBehaviour for InputPopup {
    open spec fn popup(self) -> PopupView {
        PopupView::Input(self@)
    }

    /// Enter submits the text, escape discards it, any other key edits it.
    fn handle_key_event<P: Fn(String) -> Result<Amount, ParseFloatError>>(
        self,
        key_event: &KeyEvent,
        model: &mut Model,
        parse: &P,
    ) -> (r: Option<Popup>) {
        match key_event.code {
            KeyCode::Enter => {
                let lines = self.0.text_area.lines();
                let text = collapse(&lines);
                let needs_amount = match &self.0.on_submit {
                    InputCallback::UpdateMember { sheet_index, row, col } => *col == 2,
                    InputCallback::NewRowAmount { sheet_index, row, date, label } => true,
                    _ => false,
                };
                let parsed = if needs_amount {
                    let asked = text.clone();
                    let answer = parse(asked);
                    assert(parses(*parse, text@, answer));
                    Some(answer)
                } else {
                    None
                };
                let date = today();
                let ghost before = self@;
                let r = self.settle(text, model, parsed, date);
                proof {
                    assert(submitted(
                        *parse,
                        before,
                        old(model)@,
                        answer_of(parsed),
                        date,
                        popup_view(r),
                        model@,
                    ));
                }
                r
            },
            KeyCode::Esc => None,
            _ => {
                let mut popup = self;
                match to_edit_key(key_event.code) {
                    Some(key) => {
                        if key_event.kind != KeyEventKind::Release {
                            popup.0.text_area.input(
                                key,
                                key_event.modifiers.control,
                                key_event.modifiers.alt,
                                key_event.modifiers.shift,
                            );
                        }
                    },
                    None => {},
                }
                Some(Popup::InputPopup(popup))
            },
        }
    }

    fn with_text(self, initial: &str) -> (r: Popup) {
        let mut popup = self;
        popup.0.text_area.insert_str(initial);
        Popup::InputPopup(popup)
    }

    fn with_title(self, title: &str) -> (r: Popup) {
        let mut popup = self;
        popup.0.title = title.to_string();
        Popup::InputPopup(popup)
    }

    fn with_subtitle(self, subtitle: &str) -> (r: Popup) {
        let mut popup = self;
        popup.0.subtitle = Some(subtitle.to_string());
        Popup::InputPopup(popup)
    }

    fn with_error(self, error: &str) -> (r: Popup) {
        let mut popup = self;
        popup.0.error = Some(error.to_string());
        Popup::InputPopup(popup)
    }
}

/// A popup that asks for yes or no.
#[derive(Debug)]
pub struct ConfirmPopup(pub Box<ConfirmPopupInner>);

/// What a question holds.
#[derive(Debug)]
pub struct ConfirmPopupInner {
    pub prompt: String,
    pub on_submit: ConfirmCallback,
    pub title: String,
    pub subtitle: Option<String>,
    pub error: Option<String>,
}

impl View for ConfirmPopupInner {
    type V = ConfirmView;

    open spec fn view(&self) -> ConfirmView {
        ConfirmView {
            prompt: self.prompt@,
            on_submit: self.on_submit,
            title: self.title@,
            subtitle: opt_view(self.subtitle),
            error: opt_view(self.error),
        }
    }
}

impl View for ConfirmPopup {
    type V = ConfirmView;

    open spec fn view(&self) -> ConfirmView {
        self.0@
    }
}

impl ConfirmPopupInner {
    /// A question with the given title, prompt and callback.
    pub fn new(title: &str, prompt: &str, on_submit: ConfirmCallback) -> (r: ConfirmPopupInner)
        ensures
            r@ == (ConfirmView {
                prompt: prompt@,
                on_submit,
                title: title@,
                subtitle: None,
                error: None,
            }),
    {
        ConfirmPopupInner {
            prompt: prompt.to_string(),
            on_submit,
            title: title.to_string(),
            subtitle: None,
            error: None,
        }
    }

    /// The question that is asked.
    pub fn prompt(&self) -> (r: &String)
        ensures
            *r == self.prompt,
    {
        &self.prompt
    }

    /// The title.
    pub fn title(&self) -> (r: &String)
        ensures
            *r == self.title,
    {
        &self.title
    }

    /// The subtitle, if there is one.
    pub fn subtitle(&self) -> (r: Option<&String>)
        ensures
            r is Some <==> self.subtitle is Some,
            r matches Some(s) ==> *s == self.subtitle->0,
    {
        match &self.subtitle {
            Some(s) => Some(s),
            None => None,
        }
    }

    /// The error message, if there is one.
    pub fn error(&self) -> (r: Option<&String>)
        ensures
            r is Some <==> self.error is Some,
            r matches Some(s) ==> *s == self.error->0,
    {
        match &self.error {
            Some(s) => Some(s),
            None => None,
        }
    }
}

impl ConfirmPopup {
    /// A question with the given title, prompt and callback.
    pub fn new(title: &str, prompt: &str, on_submit: ConfirmCallback) -> (r: ConfirmPopup)
        ensures
            r@ == (ConfirmView {
                prompt: prompt@,
                on_submit,
                title: title@,
                subtitle: None,
                error: None,
            }),
    {
        ConfirmPopup(Box::new(ConfirmPopupInner::new(title, prompt, on_submit)))
    }
}

impl PopupBehaviour for ConfirmPopup {
    open spec fn popup(self) -> PopupView {
        PopupView::Confirm(self@)
    }

    fn handle_key_event<P: Fn(String) -> Result<Amount, ParseFloatError>>(
        self,
        key_event: &KeyEvent,
        model: &mut Model,
        parse: &P,
    ) -> (r: Option<Popup>) {
        match key_event.code {
            KeyCode::Enter => {
                self.0.on_submit.call(true, model);
                None
            },
            KeyCode::Esc => None,
            KeyCode::Char(c) => {
                if c == 'y' {
                    self.0.on_submit.call(true, model);
                    None
                } else if c == 'n' {
                    self.0.on_submit.call(false, model);
                    None
                } else if c == 'q' {
                    None
                } else {
                    Some(Popup::ConfirmPopup(self))
                }
            },
            _ => Some(Popup::ConfirmPopup(self)),
        }
    }

    fn with_text(self, text: &str) -> (r: Popup) {
        let mut popup = self;
        popup.0.prompt = text.to_string();
        Popup::ConfirmPopup(popup)
    }

    fn with_title(self, title: &str) -> (r: Popup) {
        let mut popup = self;
        popup.0.title = title.to_string();
        Popup::ConfirmPopup(popup)
    }

    fn with_subtitle(self, subtitle: &str) -> (r: Popup) {
        let mut popup = self;
        popup.0.subtitle = Some(subtitle.to_string());
        Popup::ConfirmPopup(popup)
    }

    fn with_error(self, error: &str) -> (r: Popup) {
        let mut popup = self;
        popup.0.error = Some(error.to_string());
        Popup::ConfirmPopup(popup)
    }
}

impl Popup {
    /// Whether what the popup points at exists in the model.
    pub fn fits_model(&self, model: &Model) -> (r: bool)
        requires
            model.wf(),
        ensures
            r == self@.fits(model@),
    {
        match self {
            Popup::InputPopup(p) => p.0.on_submit.fits_model(model),
            Popup::InfoPopup(p) => true,
            Popup::ConfirmPopup(p) => p.0.on_submit.fits_model(model),
        }
    }
}

impl PopupBehaviour for Popup {
    open spec fn popup(self) -> PopupView {
        self@
    }

    fn handle_key_event<P: Fn(String) -> Result<Amount, ParseFloatError>>(
        self,
        key_event: &KeyEvent,
        model: &mut Model,
        parse: &P,
    ) -> (r: Option<Popup>) {
        match self {
            Popup::InputPopup(p) => p.handle_key_event(key_event, model, parse),
            Popup::InfoPopup(p) => p.handle_key_event(key_event, model, parse),
            Popup::ConfirmPopup(p) => p.handle_key_event(key_event, model, parse),
        }
    }

    fn with_text(self, text: &str) -> (r: Popup) {
        match self {
            Popup::InputPopup(p) => p.with_text(text),
            Popup::InfoPopup(p) => p.with_text(text),
            Popup::ConfirmPopup(p) => p.with_text(text),
        }
    }

    fn with_title(self, title: &str) -> (r: Popup) {
        match self {
            Popup::InputPopup(p) => p.with_title(title),
            Popup::InfoPopup(p) => p.with_title(title),
            Popup::ConfirmPopup(p) => p.with_title(title),
        }
    }

    fn with_subtitle(self, subtitle: &str) -> (r: Popup) {
        match self {
            Popup::InputPopup(p) => p.with_subtitle(subtitle),
            Popup::InfoPopup(p) => p.with_subtitle(subtitle),
            Popup::ConfirmPopup(p) => p.with_subtitle(subtitle),
        }
    }

    fn with_error(self, error: &str) -> (r: Popup) {
        match self {
            Popup::InputPopup(p) => p.with_error(error),
            Popup::InfoPopup(p) => p.with_error(error),
            Popup::ConfirmPopup(p) => p.with_error(error),
        }
    }
}

} // verus!
