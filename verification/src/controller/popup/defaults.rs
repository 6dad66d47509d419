//! The popups that the default bindings open.
use super::ConfirmCallback;
use super::ConfirmPopup;
use super::ConfirmView;
use super::InfoPopup;
use super::InfoView;
use super::InputCallback;
use super::InputCallbackView;
use super::InputPopup;
use super::InputView;
use super::Popup;
use super::PopupBehaviour;
use super::PopupView;
use crate::controller::state::ControllerState;
use crate::controller::state::StateView;
use crate::model::Model;
use crate::model::ModelView;
use crate::view::View;
use crate::view::ViewState;
use chrono::NaiveDate;
use vstd::prelude::*;
use vstd::view::View as _;

verus! {

/// The text of the help popup.
pub const HELP_TEXT: &'static str = "Keymap help

General
    Press <q> to quit.
    Press <?> to open this window.
    Press <Esc> to close any popup.
        (You can press <q> to close popups without text input, like this one)

Navigation
    [h j k l]/[← ↑ ↓ →] for moving.
    (count)[j k]/[↑ ↓] can be used when moving up and down.
    [H L]/<S-←><S-→> for moving between sheets
    <C-u>/<Pgup> and <C-d>/<Pgdn> for scrolling.
    <gg>/<Home> and <G>/<End> for first and last rows.

Manipulation
    <i> - change the value of the selected cell
    <y> - yank/copy the current line
    <d> - delete the current line
        NOTE: There is currently no undo button.
    <p> - put/paste the last yanked/deleted line below
    <P> - put/paste the last yanked/deleted line above
    <o> - insert new row below
    <O> - insert new row above
    <C-t> - create a new sheet
    <C-r> - rename the current sheet
";

/// The popup that asks for the date of a row to be put in before `row`.
pub fn ask_date(sheet_index: usize, row: usize) -> (r: Popup)
    ensures
        r@ == PopupView::Input(InputView::ask_date(sheet_index, row)),
{
    InputPopup::new("Insert row", InputCallback::NewRowDate { sheet_index, row }).with_subtitle(
        "(Date - leave blank for today)",
    )
}

/// The popup that asks for the label of the new row.
pub fn ask_label(sheet_index: usize, row: usize, date: NaiveDate) -> (r: Popup)
    ensures
        r@ == PopupView::Input(InputView::ask_label(sheet_index, row, date)),
{
    InputPopup::new(
        "Insert row",
        InputCallback::NewRowLabel { sheet_index, row, date },
    ).with_subtitle("(Label)")
}

/// The popup that asks for the amount of the new row.
pub fn ask_amount(sheet_index: usize, row: usize, date: NaiveDate, label: String) -> (r: Popup)
    ensures
        r@ == PopupView::Input(InputView::ask_amount(sheet_index, row, date, label@)),
{
    InputPopup::new(
        "Insert row",
        InputCallback::NewRowAmount { sheet_index, row, date, label },
    ).with_subtitle("(Amount)")
}

/// The help popup.
pub open spec fn help_popup() -> PopupView {
    PopupView::Info(InfoView { text: HELP_TEXT@, title: "Help"@, subtitle: None, error: None })
}

/// The question that is asked before a sheet is removed.
pub open spec fn delete_question(sheet_index: usize) -> PopupView {
    PopupView::Confirm(
        ConfirmView {
            prompt: "Delete this sheet and all its rows?"@,
            on_submit: ConfirmCallback::DeleteSheet { sheet_index },
            title: "Delete sheet"@,
            subtitle: None,
            error: None,
        },
    )
}

/// The state with the given popup open.
pub open spec fn with_popup(state: StateView, popup: PopupView) -> StateView {
    StateView { popup: Some(popup), ..state }
}

/// Whether `popup` is an empty input popup of the given title and callback
/// that `text` was put into.
pub open spec fn prefilled(
    title: Seq<char>,
    on_submit: InputCallbackView,
    text: Seq<char>,
    popup: PopupView,
) -> bool {
    PopupView::Input(InputView::fresh(title, on_submit)).text_added(text, popup)
}

/// Opens the help popup.
pub fn help(_view: &mut View, _model: &mut Model, cs: &mut ControllerState)
    ensures
        *final(_view) == *old(_view),
        *final(_model) == *old(_model),
        final(cs)@ == with_popup(old(cs)@, help_popup()),
{
    cs.popup = Some(InfoPopup::new().with_text(HELP_TEXT).with_title("Help"));
}

/// Whether the states after are those of [`insert_action`] on the states
/// before.
pub open spec fn insert_action_done(
    view: ViewState,
    model: ModelView,
    state: StateView,
    view_after: ViewState,
    model_after: ModelView,
    state_after: StateView,
) -> bool {
    let index = view.selected_sheet;
    let sheet = model.sheet(index as int);
    &&& view_after == view.looked_at(sheet)
    &&& model_after == model
    &&& match view.selected_cell(sheet) {
        Some((row, col)) => if row < sheet.len() {
            &&& state_after.popup matches Some(popup)
            &&& state_after == with_popup(state, popup)
            &&& prefilled(
                "Insert/Update value"@,
                InputCallbackView::UpdateMember { sheet_index: index, row, col },
                sheet.transactions[row as int].member_text(col as int),
                popup,
            )
        } else {
            state_after == state
        },
        None => state_after == state,
    }
}

/// Whether, where the selected cell is a date, the popup that was opened
/// for it holds the date as its one line, with the cursor behind it.
pub open spec fn date_shown(view: ViewState, model: ModelView, state_after: StateView) -> bool {
    let sheet = model.sheet(view.selected_sheet as int);
    match view.selected_cell(sheet) {
        Some((row, col)) => row < sheet.len() && col == 0 ==> {
            &&& state_after.popup matches Some(PopupView::Input(p))
            &&& super::holds_line(p, sheet.transactions[row as int].member_text(0))
        },
        None => true,
    }
}

/// Opens a popup that asks for a new value of the selected cell, filled
/// with the value that the cell has. Without a selected cell in the sheet
/// nothing is opened.
pub fn insert_action(view: &mut View, model: &mut Model, cs: &mut ControllerState)
    requires
        old(view).selected_sheet < old(model)@.count(),
    ensures
        *final(model) == *old(model),
        final(view).selected_sheet == old(view).selected_sheet,
        insert_action_done(
            old(view)@,
            old(model)@,
            old(cs)@,
            final(view)@,
            final(model)@,
            final(cs)@,
        ),
        old(cs)@.popup is None ==> (final(cs)@.popup matches Some(p) ==> p.fits(final(model)@)),
        date_shown(old(view)@, old(model)@, final(cs)@),
{
    let sheet_index = view.selected_sheet;
    let sheet = view.get_selected_sheet(model);
    match view.get_selected_cell(sheet) {
        Some((row, col)) => {
            if row < sheet.transactions.len() {
                let cell_contents = crate::view::get_string_of_transaction_member(
                    &sheet.transactions[row],
                    col,
                );
                cs.popup = Some(
                    InputPopup::new(
                        "Insert/Update value",
                        InputCallback::UpdateMember { sheet_index, row, col },
                    ).with_text(cell_contents.as_str()),
                );
            }
        },
        None => {},
    }
}

/// Whether the states after are those of [`rename_sheet`] on the states
/// before.
pub open spec fn rename_sheet_done(
    view: ViewState,
    model: ModelView,
    state: StateView,
    state_after: StateView,
) -> bool {
    let index = view.selected_sheet;
    &&& state_after.popup matches Some(popup)
    &&& state_after == with_popup(state, popup)
    &&& prefilled(
        "Rename sheet"@,
        InputCallbackView::RenameSheet { sheet_index: index },
        model.sheet(index as int).name,
        popup,
    )
}

/// Opens a popup that asks for a new name of the selected sheet, filled
/// with the name that it has.
pub fn rename_sheet(view: &mut View, model: &mut Model, cs: &mut ControllerState)
    requires
        old(view).selected_sheet < old(model)@.count(),
    ensures
        *final(model) == *old(model),
        *final(view) == *old(view),
        rename_sheet_done(old(view)@, old(model)@, old(cs)@, final(cs)@),
        final(cs)@.popup matches Some(p) && p.fits(final(model)@),
{
    let sheet_index = view.selected_sheet;
    let name = view.get_selected_sheet(model).name.clone();
    cs.popup = Some(
        InputPopup::new("Rename sheet", InputCallback::RenameSheet { sheet_index }).with_text(
            name.as_str(),
        ),
    );
}

/// The row before which a new row goes that is asked for below the
/// selected one: the row after the selected one, or the end of the sheet.
pub open spec fn row_below(selected: Option<usize>, rows: nat) -> usize {
    let row = match selected {
        Some(r) => r,
        None => 0,
    };
    if row + 1 <= rows {
        (row + 1) as usize
    } else {
        rows as usize
    }
}

/// The row before which a new row goes that is asked for above the
/// selected one: the selected row, or the end of the sheet.
pub open spec fn row_above(selected: Option<usize>, rows: nat) -> usize {
    let row = match selected {
        Some(r) => r,
        None => 0,
    };
    if row <= rows {
        row
    } else {
        rows as usize
    }
}

/// Opens the first of the three popups that ask for a new row below the
/// selected one.
pub fn new_row_below(view: &mut View, model: &mut Model, cs: &mut ControllerState)
    requires
        old(view).selected_sheet < old(model)@.count(),
    ensures
        *final(model) == *old(model),
        final(view).selected_sheet == old(view).selected_sheet,
        final(view)@ == old(view)@.looked_at(old(model)@.sheet(old(view).selected_sheet as int)),
        final(cs)@ == with_popup(
            old(cs)@,
            PopupView::Input(
                InputView::ask_date(
                    old(view).selected_sheet,
                    row_below(
                        old(view)@.selected_row(old(model)@.sheet(old(view).selected_sheet as int)),
                        old(model)@.sheet(old(view).selected_sheet as int).len(),
                    ),
                ),
            ),
        ),
        final(cs)@.popup matches Some(p) && p.fits(final(model)@),
{
    let sheet_index = view.selected_sheet;
    let sheet = view.get_selected_sheet(model);
    let row = match view.get_selected_row(sheet) {
        Some(r) => r,
        None => 0,
    };
    let len = sheet.transactions.len();
    let target = if row < len {
        row + 1
    } else {
        len
    };
    cs.popup = Some(ask_date(sheet_index, target));
}

/// Opens the first of the three popups that ask for a new row above the
/// selected one.
pub fn new_row_above(view: &mut View, model: &mut Model, cs: &mut ControllerState)
    requires
        old(view).selected_sheet < old(model)@.count(),
    ensures
        *final(model) == *old(model),
        final(view).selected_sheet == old(view).selected_sheet,
        final(view)@ == old(view)@.looked_at(old(model)@.sheet(old(view).selected_sheet as int)),
        final(cs)@ == with_popup(
            old(cs)@,
            PopupView::Input(
                InputView::ask_date(
                    old(view).selected_sheet,
                    row_above(
                        old(view)@.selected_row(old(model)@.sheet(old(view).selected_sheet as int)),
                        old(model)@.sheet(old(view).selected_sheet as int).len(),
                    ),
                ),
            ),
        ),
        final(cs)@.popup matches Some(p) && p.fits(final(model)@),
{
    let sheet_index = view.selected_sheet;
    let sheet = view.get_selected_sheet(model);
    let row = match view.get_selected_row(sheet) {
        Some(r) => r,
        None => 0,
    };
    let len = sheet.transactions.len();
    let target = if row <= len {
        row
    } else {
        len
    };
    cs.popup = Some(ask_date(sheet_index, target));
}

/// Asks whether the selected sheet is to be removed. The main sheet cannot
/// be removed, so for it nothing is asked.
pub fn delete_sheet(view: &mut View, model: &mut Model, cs: &mut ControllerState)
    requires
        old(view).selected_sheet < old(model)@.count(),
    ensures
        *final(model) == *old(model),
        *final(view) == *old(view),
        final(cs)@ == (if old(view).selected_sheet == 0 {
            old(cs)@
        } else {
            with_popup(old(cs)@, delete_question(old(view).selected_sheet))
        }),
        old(view).selected_sheet > 0 ==> (final(cs)@.popup matches Some(p) && p.fits(
            final(model)@,
        )),
{
    let sheet_index = view.selected_sheet;
    if sheet_index > 0 {
        cs.popup = Some(
            Popup::ConfirmPopup(
                ConfirmPopup::new(
                    "Delete sheet",
                    "Delete this sheet and all its rows?",
                    ConfirmCallback::DeleteSheet { sheet_index },
                ),
            ),
        );
    }
}

} // verus!
