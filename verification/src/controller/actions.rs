//! What a binding can do.
use crate::controller::popup::defaults;
use crate::controller::state::ControllerState;
use crate::controller::state::StateView;
use crate::model::swapped;
use crate::model::Model;
use crate::model::ModelView;
use crate::view::next_index;
use crate::view::previous_index;
use crate::view::states::last_index;
use crate::view::View;
use crate::view::ViewState;
use vstd::prelude::*;
use vstd::view::View as _;

verus! {

/// What a binding does when it is taken.
#[derive(Clone, Copy, Debug, PartialEq, Eq, Structural)]
pub enum Action {
    /// Ask to leave the program.
    Quit,
    /// Forget what is pending.
    Cancel,
    /// Take the character as the start of a command of several keys.
    Seed(char),
    /// Go down by one row.
    NextRow,
    /// Go up by one row.
    PreviousRow,
    /// Go down by the pending count.
    DownByCount,
    /// Go up by the pending count.
    UpByCount,
    /// Go one column to the left.
    PreviousColumn,
    /// Go one column to the right.
    NextColumn,
    /// Go to the first row.
    FirstRow,
    /// Go to the last row.
    LastRow,
    /// Go down by half a screen.
    HalfDown,
    /// Go up by half a screen.
    HalfUp,
    /// Show the sheet before this one.
    PreviousSheet,
    /// Show the sheet after this one.
    NextSheet,
    /// Exchange the selected row with the one below, and follow it.
    MoveRowDown,
    /// Exchange the selected row with the one above, and follow it.
    MoveRowUp,
    /// Copy the selected row.
    Yank,
    /// Take the selected row out and keep it.
    DeleteRow,
    /// Put the kept row in below the selected one.
    PasteBelow,
    /// Put the kept row in above the selected one.
    PasteAbove,
    /// Ask for a new value of the selected cell.
    EditCell,
    /// Ask for a new row below the selected one.
    NewRowBelow,
    /// Ask for a new row above the selected one.
    NewRowAbove,
    /// Add a sheet.
    CreateSheet,
    /// Ask for a new name of the sheet.
    RenameSheet,
    /// Ask whether the sheet is to be removed.
    DeleteSheet,
    /// Show the key bindings.
    Help,
}

/// The selected row of the selected sheet, where it is a row of the sheet.
pub open spec fn valid_row(view: ViewState, model: ModelView) -> Option<usize> {
    let sheet = model.sheet(view.selected_sheet as int);
    match view.selected_row(sheet) {
        Some(row) => if row < sheet.len() {
            Some(row)
        } else {
            None
        },
        None => None,
    }
}

/// The row below `row`, or `row` itself where it is the last of `rows`.
pub open spec fn below(row: usize, rows: nat) -> int {
    if row + 1 == rows {
        row as int
    } else {
        row + 1
    }
}

/// The row above `row`, or `row` itself where it is the first.
pub open spec fn above(row: usize) -> int {
    if row == 0 {
        0
    } else {
        row - 1
    }
}

impl Action {
    /// Whether the action works on the selected row: it moves, copies,
    /// deletes, pastes beside or edits it.
    pub open spec fn needs_row(self) -> bool {
        self is MoveRowDown || self is MoveRowUp || self is Yank || self is DeleteRow
            || self is PasteBelow || self is PasteAbove || self is EditCell
    }

    /// Whether the action moves the selection from row to row.
    pub open spec fn moves_row(self) -> bool {
        self is NextRow || self is PreviousRow || self is DownByCount || self is UpByCount
            || self is FirstRow || self is LastRow || self is HalfDown || self is HalfUp
    }

    /// Whether the pending input is left alone after the action: only the
    /// start of a command of several keys has to stay.
    pub open spec fn reseeds(self) -> bool {
        self is Seed
    }

    /// Whether the states after are those that the action leaves of the
    /// states before. An action that needs a selected row, or a selected
    /// cell, and finds none in the sheet changes nothing but the view, which
    /// has looked at the sheet.
    pub open spec fn acted(
        self,
        view: ViewState,
        model: ModelView,
        state: StateView,
        view_after: ViewState,
        model_after: ModelView,
        state_after: StateView,
    ) -> bool {
        let index = view.selected_sheet;
        let sheet = model.sheet(index as int);
        let rows = sheet.transactions;
        match self {
            Action::Quit => {
                &&& view_after == view
                &&& model_after == model
                &&& state_after == (StateView { exit: true, ..state })
            },
            Action::Cancel => view_after == view && model_after == model && state_after == state,
            Action::Seed(c) => {
                &&& view_after == view
                &&& model_after == model
                &&& state_after == state.accumulated(c)
            },
            Action::NextRow => {
                &&& view_after == view.moved_down(sheet, 1)
                &&& model_after == model
                &&& state_after == state
            },
            Action::PreviousRow => {
                &&& view_after == view.moved_up(sheet, 1)
                &&& model_after == model
                &&& state_after == state
            },
            Action::DownByCount => {
                &&& view_after == view.moved_down(sheet, state.count() as usize)
                &&& model_after == model
                &&& state_after == state
            },
            Action::UpByCount => {
                &&& view_after == view.moved_up(sheet, state.count() as usize)
                &&& model_after == model
                &&& state_after == state
            },
            Action::PreviousColumn => {
                &&& view_after == view.column_left(sheet)
                &&& model_after == model
                &&& state_after == state
            },
            Action::NextColumn => {
                &&& view_after == view.column_right(sheet)
                &&& model_after == model
                &&& state_after == state
            },
            Action::FirstRow => {
                &&& view_after == view.at_row(sheet, 0)
                &&& model_after == model
                &&& state_after == state
            },
            Action::LastRow => {
                &&& view_after == view.at_row(sheet, last_index(sheet.len()))
                &&& model_after == model
                &&& state_after == state
            },
            Action::HalfDown => {
                &&& view_after == view.moved_down(sheet, view.state_of(sheet).half_page())
                &&& model_after == model
                &&& state_after == state
            },
            Action::HalfUp => {
                &&& view_after == view.moved_up(sheet, view.state_of(sheet).half_page())
                &&& model_after == model
                &&& state_after == state
            },
            Action::PreviousSheet => {
                &&& view_after == view.with_selected(
                    previous_index(index as int, model.count() as int) as usize,
                )
                &&& model_after == model
                &&& state_after == state
            },
            Action::NextSheet => {
                &&& view_after == view.with_selected(
                    next_index(index as int, model.count() as int) as usize,
                )
                &&& model_after == model
                &&& state_after == state
            },
            Action::MoveRowDown => {
                &&& state_after == state
                &&& match valid_row(view, model) {
                    Some(row) => {
                        &&& model_after == model.with_rows(
                            index as int,
                            swapped(rows, row as int, below(row, sheet.len())),
                        )
                        &&& view_after == view.looked_at(sheet).moved_down(
                            model_after.sheet(index as int),
                            1,
                        )
                    },
                    None => model_after == model && view_after == view.looked_at(sheet),
                }
            },
            Action::MoveRowUp => {
                &&& state_after == state
                &&& match valid_row(view, model) {
                    Some(row) => {
                        &&& model_after == model.with_rows(
                            index as int,
                            swapped(rows, row as int, above(row)),
                        )
                        &&& view_after == view.looked_at(sheet).moved_up(
                            model_after.sheet(index as int),
                            1,
                        )
                    },
                    None => model_after == model && view_after == view.looked_at(sheet),
                }
            },
            Action::Yank => {
                &&& view_after == view.looked_at(sheet)
                &&& model_after == model
                &&& match valid_row(view, model) {
                    Some(row) => state_after == (StateView {
                        register: Some(rows[row as int]),
                        ..state
                    }),
                    None => state_after == state,
                }
            },
            Action::DeleteRow => {
                &&& view_after == view.looked_at(sheet)
                &&& match valid_row(view, model) {
                    Some(row) => {
                        &&& model_after == model.with_rows(index as int, rows.remove(row as int))
                        &&& state_after == (StateView { register: Some(rows[row as int]), ..state })
                    },
                    None => model_after == model && state_after == state,
                }
            },
            Action::PasteBelow => {
                &&& state_after == state
                &&& match (valid_row(view, model), state.register) {
                    (Some(row), Some(kept)) => {
                        &&& model_after == model.with_rows(
                            index as int,
                            rows.insert(row + 1, kept),
                        )
                        &&& view_after == view.looked_at(sheet).moved_down(
                            model_after.sheet(index as int),
                            1,
                        )
                    },
                    _ => model_after == model && view_after == view.looked_at(sheet),
                }
            },
            Action::PasteAbove => {
                &&& state_after == state
                &&& view_after == view.looked_at(sheet)
                &&& match (valid_row(view, model), state.register) {
                    (Some(row), Some(kept)) => model_after == model.with_rows(
                        index as int,
                        rows.insert(row as int, kept),
                    ),
                    _ => model_after == model,
                }
            },
            Action::EditCell => defaults::insert_action_done(
                view,
                model,
                state,
                view_after,
                model_after,
                state_after,
            ),
            Action::NewRowBelow => {
                &&& view_after == view.looked_at(sheet)
                &&& model_after == model
                &&& state_after == defaults::with_popup(
                    state,
                    crate::controller::popup::PopupView::Input(
                        crate::controller::popup::InputView::ask_date(
                            index,
                            defaults::row_below(view.selected_row(sheet), sheet.len()),
                        ),
                    ),
                )
            },
            Action::NewRowAbove => {
                &&& view_after == view.looked_at(sheet)
                &&& model_after == model
                &&& state_after == defaults::with_popup(
                    state,
                    crate::controller::popup::PopupView::Input(
                        crate::controller::popup::InputView::ask_date(
                            index,
                            defaults::row_above(view.selected_row(sheet), sheet.len()),
                        ),
                    ),
                )
            },
            Action::CreateSheet => {
                &&& view_after == view
                &&& state_after == state
                &&& if model.count() < usize::MAX {
                    exists|date: chrono::NaiveDate| model_after == #[trigger] model.with_new_sheet(date)
                } else {
                    model_after == model
                }
            },
            Action::RenameSheet => {
                &&& view_after == view
                &&& model_after == model
                &&& defaults::rename_sheet_done(view, model, state, state_after)
            },
            Action::DeleteSheet => {
                &&& view_after == view
                &&& model_after == model
                &&& state_after == (if index == 0 {
                    state
                } else {
                    defaults::with_popup(state, defaults::delete_question(index))
                })
            },
            Action::Help => {
                &&& view_after == view
                &&& model_after == model
                &&& state_after == defaults::with_popup(state, defaults::help_popup())
            },
        }
    }

    /// Carries the action out. It is meant for the time when no popup is
    /// open.
    pub fn run(self, view: &mut View, model: &mut Model, cs: &mut ControllerState)
        requires
            old(model).wf(),
            old(view).selected_sheet < old(model)@.count(),
            old(cs)@.popup is None,
        ensures
            final(model).wf(),
            final(view).selected_sheet < final(model)@.count(),
            final(cs)@.popup matches Some(p) ==> p.fits(final(model)@),
            self.acted(
                old(view)@,
                old(model)@,
                old(cs)@,
                final(view)@,
                final(model)@,
                final(cs)@,
            ),
    {
        let sheet_index = view.selected_sheet;
        match self {
            Action::Quit => {
                cs.exit = true;
            },
            Action::Cancel => {},
            Action::Seed(c) => {
                cs.accumulate(c);
            },
            Action::NextRow => {
                view.next_row(model);
            },
            Action::PreviousRow => {
                view.previous_row(model);
            },
            Action::DownByCount => {
                view.down_by(cs.get_count_amount(), model);
            },
            Action::UpByCount => {
                view.up_by(cs.get_count_amount(), model);
            },
            Action::PreviousColumn => {
                view.previous_column(model);
            },
            Action::NextColumn => {
                view.next_column(model);
            },
            Action::FirstRow => {
                view.first_row(model);
            },
            Action::LastRow => {
                view.last_row(model);
            },
            Action::HalfDown => {
                view.half_down(model);
            },
            Action::HalfUp => {
                view.half_up(model);
            },
            Action::PreviousSheet => {
                view.previous_sheet(model);
            },
            Action::NextSheet => {
                view.next_sheet(model);
            },
            Action::MoveRowDown => {
                let sheet = view.get_selected_sheet(model);
                let len = sheet.transactions.len();
                match view.get_selected_row(sheet) {
                    Some(row) => {
                        if row < len {
                            model.move_transaction_down(sheet_index, row);
                            view.next_row(model);
                        }
                    },
                    None => {},
                }
            },
            Action::MoveRowUp => {
                let sheet = view.get_selected_sheet(model);
                let len = sheet.transactions.len();
                match view.get_selected_row(sheet) {
                    Some(row) => {
                        if row < len {
                            model.move_transaction_up(sheet_index, row);
                            view.previous_row(model);
                        }
                    },
                    None => {},
                }
            },
            Action::Yank => {
                let sheet = view.get_selected_sheet(model);
                let len = sheet.transactions.len();
                match view.get_selected_row(sheet) {
                    Some(row) => {
                        if row < len {
                            cs.register = Some(model.copy_row(sheet_index, row));
                        }
                    },
                    None => {},
                }
            },
            Action::DeleteRow => {
                let sheet = view.get_selected_sheet(model);
                let len = sheet.transactions.len();
                match view.get_selected_row(sheet) {
                    Some(row) => {
                        if row < len {
                            cs.register = Some(model.delete_row(sheet_index, row));
                        }
                    },
                    None => {},
                }
            },
            Action::PasteBelow => {
                let sheet = view.get_selected_sheet(model);
                let len = sheet.transactions.len();
                match view.get_selected_row(sheet) {
                    Some(row) => {
                        if row < len {
                            match &cs.register {
                                Some(kept) => {
                                    let transaction = kept.clone();
                                    model.insert_row(sheet_index, row + 1, transaction);
                                    view.next_row(model);
                                },
                                None => {},
                            }
                        }
                    },
                    None => {},
                }
            },
            Action::PasteAbove => {
                let sheet = view.get_selected_sheet(model);
                let len = sheet.transactions.len();
                match view.get_selected_row(sheet) {
                    Some(row) => {
                        if row < len {
                            match &cs.register {
                                Some(kept) => {
                                    let transaction = kept.clone();
                                    model.insert_row(sheet_index, row, transaction);
                                },
                                None => {},
                            }
                        }
                    },
                    None => {},
                }
            },
            Action::EditCell => {
                defaults::insert_action(view, model, cs);
            },
            Action::NewRowBelow => {
                defaults::new_row_below(view, model, cs);
            },
            Action::NewRowAbove => {
                defaults::new_row_above(view, model, cs);
            },
            Action::CreateSheet => {
                if model.sheet_count() < usize::MAX {
                    model.create_sheet();
                }
            },
            Action::RenameSheet => {
                defaults::rename_sheet(view, model, cs);
            },
            Action::DeleteSheet => {
                defaults::delete_sheet(view, model, cs);
            },
            Action::Help => {
                defaults::help(view, model, cs);
            },
        }
    }
}

/// An action that works on the selected row changes nothing where the
/// selected sheet has no such row: the model, the pending input, the popup
/// and the kept row are as they were, and the same row, if any, is selected.
/// That is so in a sheet without rows, and where the selection is none or
/// points behind the last row.
pub proof fn lemma_no_row_no_effect(
    action: Action,
    view: ViewState,
    model: ModelView,
    state: StateView,
    view_after: ViewState,
    model_after: ModelView,
    state_after: StateView,
)
    requires
        action.needs_row(),
        valid_row(view, model) is None,
        action.acted(view, model, state, view_after, model_after, state_after),
    ensures
        model_after == model,
        state_after == state,
        view_after == view.looked_at(model.sheet(view.selected_sheet as int)),
        view_after.selected_row(model.sheet(view.selected_sheet as int)) == view.selected_row(
            model.sheet(view.selected_sheet as int),
        ),
        view_after.selected_cell(model.sheet(view.selected_sheet as int)) == view.selected_cell(
            model.sheet(view.selected_sheet as int),
        ),
        view_after.selected_sheet == view.selected_sheet,
{
}

/// An action that moves the selection from row to row changes nothing at
/// all in a sheet without rows.
pub proof fn lemma_no_rows_no_move(
    action: Action,
    view: ViewState,
    model: ModelView,
    state: StateView,
    view_after: ViewState,
    model_after: ModelView,
    state_after: StateView,
)
    requires
        action.moves_row(),
        model.sheet(view.selected_sheet as int).len() == 0,
        action.acted(view, model, state, view_after, model_after, state_after),
    ensures
        view_after == view,
        model_after == model,
        state_after == state,
{
}

} // verus!
