//! This module handles input from the user, and directs the model and the
//! view accordingly.
//!
//! A key goes one of three ways. While a popup is open, the popup gets it and
//! nothing else does. Otherwise the bindings are tried in order, and the
//! first that fits acts. A key that no binding takes is accumulated: a digit
//! towards a count, anything else as the start of a command.
use crate::event::Event;
use crate::event::KeyCode;
use crate::event::KeyEvent;
use crate::event::KeyEventKind;
use crate::model::sheets::parser_total;
use crate::model::Amount;
use crate::model::Model;
use crate::model::ModelView;
use crate::view::View;
use crate::view::ViewState;
use std::num::ParseFloatError;
use vstd::prelude::*;
use vstd::view::View as _;

pub mod actions;
pub mod bindings;
pub mod commands;
pub mod keymap;
pub mod popup;
pub mod state;
pub mod tokens;

pub use state::ControllerState;

use actions::Action;
use keymap::first_fit;
use keymap::BindingTable;
use keymap::KeyMap;
use popup::popup_step;
use popup::PopupBehaviour;
use state::is_digit;
use state::StateView;
use tokens::token_of;

verus! {

/// The controller: what is pending, the bindings, and the host's parser of
/// amounts.
pub struct Controller<P: Fn(String) -> Result<Amount, ParseFloatError>> {
    pub state: ControllerState,
    pub keymaps: BindingTable,
    pub parse_amount: P,
}

/// The index of the last sheet, or the given index where that is a sheet.
pub open spec fn kept_in(index: usize, count: nat) -> usize {
    if index < count {
        index
    } else {
        (count - 1) as usize
    }
}

/// The state after a key that no binding took. Escape and backspace forget
/// what is pending. A digit is added to the count. Any other key that stands
/// for characters starts a new command with them. The rest is dropped.
pub open spec fn fallen_back(state: StateView, key: KeyEvent) -> StateView {
    if key.code == KeyCode::Esc || key.code == KeyCode::Backspace {
        state.reset()
    } else {
        match token_of(key) {
            Some(token) => match key.code {
                KeyCode::Char(c) => if is_digit(c) && !key.modifiers.control {
                    state.accumulated(c)
                } else {
                    state.with_sequence(token)
                },
                _ => state.with_sequence(token),
            },
            None => state,
        }
    }
}

/// Whether the states after are those that a binding's action, and the
/// reset that follows it, leave of the states before.
pub open spec fn rule_taken(
    action: Action,
    view: ViewState,
    model: ModelView,
    state: StateView,
    view_after: ViewState,
    model_after: ModelView,
    state_after: StateView,
) -> bool {
    exists|acted: StateView| #[trigger]
        action.acted(view, model, state, view_after, model_after, acted) && state_after == (
        if action.reseeds() {
            acted
        } else {
            acted.reset()
        })
}

/// Whether the states after are those that a key press leaves of the states
/// before.
///
/// With a popup open the key goes to the popup: of the controller's state
/// only the popup changes, no binding is looked at, and the view changes
/// only where the sheet it showed is gone. Without a popup the first binding
/// that fits acts, and what is pending is reset unless the action is the
/// start of a command. Where no binding fits, the key is accumulated.
pub open spec fn key_handled<P: Fn(String) -> Result<Amount, ParseFloatError>>(
    parse: P,
    rules: Seq<KeyMap>,
    key: KeyEvent,
    view: ViewState,
    model: ModelView,
    state: StateView,
    view_after: ViewState,
    model_after: ModelView,
    state_after: StateView,
) -> bool {
    match state.popup {
        Some(popup) => {
            &&& popup_step(parse, popup, key, model, state_after.popup, model_after)
            &&& state_after == (StateView { popup: state_after.popup, ..state })
            &&& view_after == view.with_selected(
                kept_in(view.selected_sheet, model_after.count()),
            )
        },
        None => match first_fit(rules, key, state) {
            Some(i) => rule_taken(
                rules[i].action,
                view,
                model,
                state,
                view_after,
                model_after,
                state_after,
            ),
            None => {
                &&& view_after == view
                &&& model_after == model
                &&& state_after == fallen_back(state, key)
            },
        },
    }
}

/// While a popup is open it gets every key and no binding acts: what the
/// key leaves does not depend on the bindings, and of the controller's
/// state nothing but the popup changes.
pub proof fn lemma_modal_exclusive<P: Fn(String) -> Result<Amount, ParseFloatError>>(
    parse: P,
    rules: Seq<KeyMap>,
    other_rules: Seq<KeyMap>,
    key: KeyEvent,
    view: ViewState,
    model: ModelView,
    state: StateView,
    view_after: ViewState,
    model_after: ModelView,
    state_after: StateView,
)
    requires
        state.popup is Some,
        key_handled(parse, rules, key, view, model, state, view_after, model_after, state_after),
    ensures
        key_handled(
            parse,
            other_rules,
            key,
            view,
            model,
            state,
            view_after,
            model_after,
            state_after,
        ),
        popup_step(parse, state.popup->0, key, model, state_after.popup, model_after),
        state_after.digits == state.digits,
        state_after.chars == state.chars,
        state_after.exit == state.exit,
        state_after.register == state.register,
        view_after.states == view.states,
{
}

/// With the default bindings, `g` pressed twice goes to the first row, and
/// does so once: the first `g` changes nothing but to be kept, the second
/// goes to the first row of the sheet and clears what was kept.
pub proof fn lemma_double_g<P: Fn(String) -> Result<Amount, ParseFloatError>>(
    parse: P,
    rules: Seq<KeyMap>,
    key: KeyEvent,
    view: ViewState,
    model: ModelView,
    state: StateView,
    view_first: ViewState,
    model_first: ModelView,
    state_first: StateView,
    view_second: ViewState,
    model_second: ModelView,
    state_second: StateView,
)
    requires
        bindings::is_default(rules),
        key.code == KeyCode::Char('g'),
        !key.modifiers.control,
        state.popup is None,
        !(state.chars.len() > 0 && state.chars.last() == 'g'),
        key_handled(parse, rules, key, view, model, state, view_first, model_first, state_first),
        key_handled(
            parse,
            rules,
            key,
            view_first,
            model_first,
            state_first,
            view_second,
            model_second,
            state_second,
        ),
    ensures
        view_first == view,
        model_first == model,
        state_first == state.accumulated('g'),
        view_second == view.at_row(model.sheet(view.selected_sheet as int), 0),
        model_second == model,
        state_second == state.reset(),
{
    bindings::lemma_default_table(rules, key, state);
    bindings::lemma_default_table(rules, key, state_first);
    assert(state.accumulated('g').chars.last() == 'g');
}

/// With the default bindings, `g` followed by a character that no binding
/// takes goes nowhere, and what is pending afterwards is that character
/// alone.
pub proof fn lemma_g_then_other<P: Fn(String) -> Result<Amount, ParseFloatError>>(
    parse: P,
    rules: Seq<KeyMap>,
    key: KeyEvent,
    other: KeyEvent,
    c: char,
    view: ViewState,
    model: ModelView,
    state: StateView,
    view_first: ViewState,
    model_first: ModelView,
    state_first: StateView,
    view_second: ViewState,
    model_second: ModelView,
    state_second: StateView,
)
    requires
        bindings::is_default(rules),
        key.code == KeyCode::Char('g'),
        !key.modifiers.control,
        other.code == KeyCode::Char(c),
        !is_digit(c),
        !other.modifiers.control,
        bindings::default_action(other, state.accumulated('g')) is None,
        state.popup is None,
        !(state.chars.len() > 0 && state.chars.last() == 'g'),
        key_handled(parse, rules, key, view, model, state, view_first, model_first, state_first),
        key_handled(
            parse,
            rules,
            other,
            view_first,
            model_first,
            state_first,
            view_second,
            model_second,
            state_second,
        ),
    ensures
        view_second == view,
        model_second == model,
        state_second.chars == seq![c],
        state_second.digits == Seq::<u32>::empty(),
{
    bindings::lemma_default_table(rules, key, state);
    bindings::lemma_default_table(rules, other, state_first);
}

/// Whether a key is one of the two for moving down: `j` without control, or
/// the arrow down with neither shift nor control as the one modifier held.
pub open spec fn moves_down(key: KeyEvent) -> bool {
    ||| key.code == KeyCode::Char('j') && !key.modifiers.control
    ||| key.code == KeyCode::Down && key.modifiers != crate::event::KeyModifiers::spec_shift()
        && key.modifiers != crate::event::KeyModifiers::spec_control()
}

/// With the default bindings, a letter with control held that has no binding
/// of its own does nothing: it is accumulated as the token `<C-x>`, and
/// neither the model nor the view changes. So control and `q` does not
/// quit, and control and `j` does not move.
pub proof fn lemma_control_letter_is_a_token<P: Fn(String) -> Result<Amount, ParseFloatError>>(
    parse: P,
    rules: Seq<KeyMap>,
    key: KeyEvent,
    c: char,
    view: ViewState,
    model: ModelView,
    state: StateView,
    view_after: ViewState,
    model_after: ModelView,
    state_after: StateView,
)
    requires
        bindings::is_default(rules),
        key.code == KeyCode::Char(c),
        key.modifiers.control,
        c != 'c' && c != 'd' && c != 'u' && c != 't' && c != 'r',
        state.popup is None,
        key_handled(parse, rules, key, view, model, state, view_after, model_after, state_after),
    ensures
        view_after == view,
        model_after == model,
        state_after == state.with_sequence(seq!['<', 'C', '-', c, '>']),
        state_after.exit == state.exit,
{
    bindings::lemma_default_table(rules, key, state);
}

/// With the default bindings and a count pending, the key for moving down
/// moves the selection down by the count, stopping at the last row, and
/// clears the count.
pub proof fn lemma_count_then_down<P: Fn(String) -> Result<Amount, ParseFloatError>>(
    parse: P,
    rules: Seq<KeyMap>,
    key: KeyEvent,
    view: ViewState,
    model: ModelView,
    state: StateView,
    view_after: ViewState,
    model_after: ModelView,
    state_after: StateView,
)
    requires
        bindings::is_default(rules),
        moves_down(key),
        state.popup is None,
        state.has_count(),
        key_handled(parse, rules, key, view, model, state, view_after, model_after, state_after),
    ensures
        view_after == view.moved_down(
            model.sheet(view.selected_sheet as int),
            state.count() as usize,
        ),
        model_after == model,
        state_after == state.reset(),
        !state_after.has_count(),
{
    bindings::lemma_default_table(rules, key, state);
}

/// With the default bindings and no count pending, the key for moving down
/// moves the selection down by one row.
pub proof fn lemma_bare_down<P: Fn(String) -> Result<Amount, ParseFloatError>>(
    parse: P,
    rules: Seq<KeyMap>,
    key: KeyEvent,
    view: ViewState,
    model: ModelView,
    state: StateView,
    view_after: ViewState,
    model_after: ModelView,
    state_after: StateView,
)
    requires
        bindings::is_default(rules),
        moves_down(key),
        state.popup is None,
        !state.has_count(),
        key_handled(parse, rules, key, view, model, state, view_after, model_after, state_after),
    ensures
        view_after == view.moved_down(model.sheet(view.selected_sheet as int), 1),
        model_after == model,
        state_after == state.reset(),
{
    bindings::lemma_default_table(rules, key, state);
}

/// With the default bindings, a digit that is pressed while no popup is open
/// is added to the count, and nothing else happens.
pub proof fn lemma_digit_counts<P: Fn(String) -> Result<Amount, ParseFloatError>>(
    parse: P,
    rules: Seq<KeyMap>,
    key: KeyEvent,
    c: char,
    view: ViewState,
    model: ModelView,
    state: StateView,
    view_after: ViewState,
    model_after: ModelView,
    state_after: StateView,
)
    requires
        bindings::is_default(rules),
        key.code == KeyCode::Char(c),
        is_digit(c),
        !key.modifiers.control,
        state.popup is None,
        key_handled(parse, rules, key, view, model, state, view_after, model_after, state_after),
    ensures
        view_after == view,
        model_after == model,
        state_after == state.accumulated(c),
        state_after.digits == state.digits.push(state::digit_value(c)),
{
    bindings::lemma_default_table(rules, key, state);
}

impl<P: Fn(String) -> Result<Amount, ParseFloatError>> Controller<P> {
    /// What must hold between the controller, the model and the view: the
    /// model is well formed, the selected sheet exists, what an open popup
    /// points at exists, and the parser takes any text.
    pub open spec fn wf(&self, model: &Model, view: &View) -> bool {
        &&& model.wf()
        &&& view.selected_sheet < model@.count()
        &&& parser_total(self.parse_amount)
        &&& self.state@.popup matches Some(p) ==> p.fits(model@)
    }

    /// Whether the controller, the model and the view fit together, as far
    /// as that can be tested: all of [`Controller::wf`] but that the parser
    /// takes any text.
    pub fn is_ready(&self, model: &Model, view: &View) -> (r: bool)
        ensures
            r && parser_total(self.parse_amount) <==> self.wf(model, view),
    {
        if model.sheets.len() == usize::MAX {
            return false;
        }
        if view.selected_sheet >= model.sheet_count() {
            return false;
        }
        match &self.state.popup {
            Some(popup) => popup.fits_model(model),
            None => true,
        }
    }

    /// A controller with the default bindings, nothing pending and no popup.
    pub fn new(parse_amount: P) -> (r: Controller<P>)
        ensures
            r.state@ == StateView::initial(),
            r.parse_amount == parse_amount,
            bindings::is_default(r.keymaps.rules@),
    {
        Controller {
            state: ControllerState::default(),
            keymaps: bindings::default_bindings(),
            parse_amount,
        }
    }

    /// A controller with the given bindings, nothing pending and no popup.
    pub fn with_keymaps(keymaps: BindingTable, parse_amount: P) -> (r: Controller<P>)
        ensures
            r.state@ == StateView::initial(),
            r.parse_amount == parse_amount,
            r.keymaps == keymaps,
    {
        Controller { state: ControllerState::default(), keymaps, parse_amount }
    }

    /// Forgets the pending digits and characters.
    pub fn reset_command(&mut self)
        ensures
            final(self).state@ == old(self).state@.reset(),
            final(self).keymaps == old(self).keymaps,
            final(self).parse_amount == old(self).parse_amount,
    {
        self.state.reset();
    }

    /// Takes an event from the terminal. Only key presses count: releases,
    /// repeats and everything that is no key change nothing.
    pub fn handle_events(&mut self, event: &Event, model: &mut Model, view: &mut View)
        requires
            old(self).wf(old(model), old(view)),
        ensures
            final(self).wf(final(model), final(view)),
            final(self).keymaps == old(self).keymaps,
            final(self).parse_amount == old(self).parse_amount,
            old(self).state.exit ==> final(self).state.exit,
            match *event {
                Event::Key(key) => if key.kind == KeyEventKind::Press {
                    key_handled(
                        old(self).parse_amount,
                        old(self).keymaps.rules@,
                        key,
                        old(view)@,
                        old(model)@,
                        old(self).state@,
                        final(view)@,
                        final(model)@,
                        final(self).state@,
                    )
                } else {
                    &&& *final(view) == *old(view)
                    &&& *final(model) == *old(model)
                    &&& final(self).state == old(self).state
                },
                Event::Other => {
                    &&& *final(view) == *old(view)
                    &&& *final(model) == *old(model)
                    &&& final(self).state == old(self).state
                },
            },
    {
        match event {
            Event::Key(key_event) => {
                if key_event.kind == KeyEventKind::Press {
                    self.handle_key_event(key_event, model, view);
                }
            },
            Event::Other => {},
        }
    }

    /// Takes a key press.
    pub fn handle_key_event(&mut self, key_event: &KeyEvent, model: &mut Model, view: &mut View)
        requires
            old(self).wf(old(model), old(view)),
        ensures
            final(self).wf(final(model), final(view)),
            final(self).keymaps == old(self).keymaps,
            final(self).parse_amount == old(self).parse_amount,
            old(self).state.exit ==> final(self).state.exit,
            key_handled(
                old(self).parse_amount,
                old(self).keymaps.rules@,
                *key_event,
                old(view)@,
                old(model)@,
                old(self).state@,
                final(view)@,
                final(model)@,
                final(self).state@,
            ),
    {
        match self.state.popup.take() {
            Some(popup) => {
                self.state.popup = popup.handle_key_event(key_event, model, &self.parse_amount);
                let count = model.sheet_count();
                if view.selected_sheet >= count {
                    view.selected_sheet = count - 1;
                }
                return ;
            },
            None => {},
        }
        if !self.try_action(key_event, model, view) {
            self.accumulate_key(key_event);
        }
    }

    /// Looks for the first binding that fits the key and, where there is
    /// one, carries out its action and resets what is pending (unless the
    /// action is the start of a command). Tells whether a binding was taken.
    pub fn try_action(&mut self, key_event: &KeyEvent, model: &mut Model, view: &mut View) -> (r:
        bool)
        requires
            old(self).wf(old(model), old(view)),
            old(self).state@.popup is None,
        ensures
            final(self).wf(final(model), final(view)),
            final(self).keymaps == old(self).keymaps,
            final(self).parse_amount == old(self).parse_amount,
            old(self).state.exit ==> final(self).state.exit,
            match first_fit(old(self).keymaps.rules@, *key_event, old(self).state@) {
                Some(i) => r && rule_taken(
                    old(self).keymaps.rules@[i].action,
                    old(view)@,
                    old(model)@,
                    old(self).state@,
                    final(view)@,
                    final(model)@,
                    final(self).state@,
                ),
                None => {
                    &&& !r
                    &&& *final(view) == *old(view)
                    &&& *final(model) == *old(model)
                    &&& final(self).state == old(self).state
                },
            },
    {
        match self.keymaps.find(key_event, &self.state) {
            Some(i) => {
                proof {
                    keymap::lemma_first_fit(self.keymaps.rules@, *key_event, self.state@);
                }
                let action = self.keymaps.rules[i].action;
                action.run(view, model, &mut self.state);
                let ghost acted = self.state@;
                if !matches!(action, Action::Seed(_)) {
                    self.state.reset();
                }
                proof {
                    assert(action.acted(
                        old(view)@,
                        old(model)@,
                        old(self).state@,
                        view@,
                        model@,
                        acted,
                    ));
                }
                true
            },
            None => false,
        }
    }

    /// Accumulates a key that no binding took.
    pub fn accumulate_key(&mut self, key_event: &KeyEvent)
        ensures
            final(self).state@ == fallen_back(old(self).state@, *key_event),
            final(self).keymaps == old(self).keymaps,
            final(self).parse_amount == old(self).parse_amount,
            final(self).state.exit == old(self).state.exit,
    {
        match key_event.code {
            KeyCode::Esc => {
                self.state.reset();
                return ;
            },
            KeyCode::Backspace => {
                self.state.reset();
                return ;
            },
            KeyCode::Char(c) => {
                if c >= '0' && c <= '9' && !key_event.modifiers.control {
                    self.state.accumulate(c);
                    return ;
                }
            },
            _ => {},
        }
        match tokens::key_token(key_event) {
            Some(token) => {
                self.state.begin_sequence(token);
            },
            None => {},
        }
    }
}

} // verus!
