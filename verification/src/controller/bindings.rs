//! The default bindings.
//!
//! A letter does its work only while control is not held, and an arrow only
//! while control is not the one modifier held: with control they are other
//! keys, of which a few have bindings of their own and the rest have none,
//! so that they are accumulated like any key without a binding.
use crate::controller::actions::Action;
use crate::controller::keymap::first_fit;
use crate::controller::keymap::lemma_first_fit;
use crate::controller::keymap::BindingTable;
use crate::controller::keymap::KeyMap;
use crate::controller::keymap::KeyMapBuilder;
use crate::controller::keymap::Pred;
use crate::controller::keymap::Predicate;
use crate::controller::state::StateView;
use crate::controller::tokens::modified_char;
use crate::controller::tokens::special_key;
use crate::event::KeyCode;
use crate::event::KeyEvent;
use crate::event::KeyModifiers;
use vstd::prelude::*;

verus! {

/// A binding as a mathematical value.
pub struct Binding {
    pub keys: Seq<KeyCode>,
    pub guard: Option<Predicate>,
    pub action: Action,
}

/// Whether a binding is the one described.
pub open spec fn described(rule: KeyMap, binding: Binding) -> bool {
    &&& rule.keys@ == binding.keys
    &&& rule.action == binding.action
    &&& match binding.guard {
        Some(guard) => (rule.predicate matches Some(p) && *p.0 == guard),
        None => rule.predicate is None,
    }
}

/// The guard "control is held".
pub open spec fn with_control() -> Predicate {
    Predicate::Modifiers(KeyModifiers::spec_control())
}

/// The guard "control is held, and no other modifier".
pub open spec fn only_control() -> Predicate {
    Predicate::ExactModifiers(KeyModifiers::spec_control())
}

/// The guard "shift is held, and no other modifier".
pub open spec fn only_shift() -> Predicate {
    Predicate::ExactModifiers(KeyModifiers::spec_shift())
}

/// The guard "control is not held": the guard of the letters.
pub open spec fn without_control() -> Predicate {
    Predicate::Not(Pred(Box::new(with_control())))
}

/// The guard "control is not the one modifier held": the guard of the
/// arrows.
pub open spec fn not_only_control() -> Predicate {
    Predicate::Not(Pred(Box::new(only_control())))
}

/// The guard "a count is pending, and `rest` holds".
pub open spec fn counting(rest: Predicate) -> Predicate {
    Predicate::And(Pred(Box::new(Predicate::CountPending)), Pred(Box::new(rest)))
}

/// The guard "the character accumulated last is `g`, and `rest` holds".
pub open spec fn after_g(rest: Predicate) -> Predicate {
    Predicate::And(Pred(Box::new(Predicate::LastChar('g'))), Pred(Box::new(rest)))
}

/// The number of default bindings.
pub open spec fn default_count() -> nat {
    42
}

/// The key of default binding `i`.
pub open spec fn default_key(i: int) -> KeyCode {
    if i == 0 {
        KeyCode::Char('c')
    } else if i == 1 {
        KeyCode::Char('d')
    } else if i == 2 {
        KeyCode::Char('u')
    } else if i == 3 {
        KeyCode::Char('t')
    } else if i == 4 {
        KeyCode::Char('r')
    } else if i == 5 {
        KeyCode::Delete
    } else if i == 6 {
        KeyCode::Up
    } else if i == 7 {
        KeyCode::Down
    } else if i == 8 {
        KeyCode::Left
    } else if i == 9 {
        KeyCode::Right
    } else if i == 10 {
        KeyCode::Char('j')
    } else if i == 11 {
        KeyCode::Down
    } else if i == 12 {
        KeyCode::Char('k')
    } else if i == 13 {
        KeyCode::Up
    } else if i == 14 {
        KeyCode::Char('g')
    } else if i == 15 {
        KeyCode::Char('g')
    } else if i == 16 {
        KeyCode::Char('q')
    } else if i == 17 {
        KeyCode::Char('j')
    } else if i == 18 {
        KeyCode::Char('k')
    } else if i == 19 {
        KeyCode::Char('h')
    } else if i == 20 {
        KeyCode::Char('l')
    } else if i == 21 {
        KeyCode::Char('i')
    } else if i == 22 {
        KeyCode::Char('G')
    } else if i == 23 {
        KeyCode::Char('H')
    } else if i == 24 {
        KeyCode::Char('L')
    } else if i == 25 {
        KeyCode::Char('J')
    } else if i == 26 {
        KeyCode::Char('K')
    } else if i == 27 {
        KeyCode::Char('y')
    } else if i == 28 {
        KeyCode::Char('d')
    } else if i == 29 {
        KeyCode::Char('p')
    } else if i == 30 {
        KeyCode::Char('P')
    } else if i == 31 {
        KeyCode::Char('o')
    } else if i == 32 {
        KeyCode::Char('O')
    } else if i == 33 {
        KeyCode::Char('?')
    } else if i == 34 {
        KeyCode::Down
    } else if i == 35 {
        KeyCode::Up
    } else if i == 36 {
        KeyCode::Left
    } else if i == 37 {
        KeyCode::Right
    } else if i == 38 {
        KeyCode::End
    } else if i == 39 {
        KeyCode::Home
    } else if i == 40 {
        KeyCode::PageDown
    } else {
        KeyCode::PageUp
    }
}

/// The guard of default binding `i`, if it has one.
pub open spec fn default_guard(i: int) -> Option<Predicate> {
    if i == 0 {
        Some(with_control())
    } else if i == 1 {
        Some(with_control())
    } else if i == 2 {
        Some(with_control())
    } else if i == 3 {
        Some(with_control())
    } else if i == 4 {
        Some(with_control())
    } else if i == 5 {
        Some(only_control())
    } else if i == 6 {
        Some(only_shift())
    } else if i == 7 {
        Some(only_shift())
    } else if i == 8 {
        Some(only_shift())
    } else if i == 9 {
        Some(only_shift())
    } else if i == 10 {
        Some(counting(without_control()))
    } else if i == 11 {
        Some(counting(not_only_control()))
    } else if i == 12 {
        Some(counting(without_control()))
    } else if i == 13 {
        Some(counting(not_only_control()))
    } else if i == 14 {
        Some(after_g(without_control()))
    } else if i == 15 {
        Some(without_control())
    } else if i == 16 {
        Some(without_control())
    } else if i == 17 {
        Some(without_control())
    } else if i == 18 {
        Some(without_control())
    } else if i == 19 {
        Some(without_control())
    } else if i == 20 {
        Some(without_control())
    } else if i == 21 {
        Some(without_control())
    } else if i == 22 {
        Some(without_control())
    } else if i == 23 {
        Some(without_control())
    } else if i == 24 {
        Some(without_control())
    } else if i == 25 {
        Some(without_control())
    } else if i == 26 {
        Some(without_control())
    } else if i == 27 {
        Some(without_control())
    } else if i == 28 {
        Some(without_control())
    } else if i == 29 {
        Some(without_control())
    } else if i == 30 {
        Some(without_control())
    } else if i == 31 {
        Some(without_control())
    } else if i == 32 {
        Some(without_control())
    } else if i == 33 {
        Some(without_control())
    } else if i == 34 {
        Some(not_only_control())
    } else if i == 35 {
        Some(not_only_control())
    } else if i == 36 {
        Some(not_only_control())
    } else if i == 37 {
        Some(not_only_control())
    } else if i == 38 {
        None
    } else if i == 39 {
        None
    } else if i == 40 {
        None
    } else {
        None
    }
}

/// The action of default binding `i`.
pub open spec fn default_deed(i: int) -> Action {
    if i == 0 {
        Action::Quit
    } else if i == 1 {
        Action::HalfDown
    } else if i == 2 {
        Action::HalfUp
    } else if i == 3 {
        Action::CreateSheet
    } else if i == 4 {
        Action::RenameSheet
    } else if i == 5 {
        Action::DeleteSheet
    } else if i == 6 {
        Action::MoveRowUp
    } else if i == 7 {
        Action::MoveRowDown
    } else if i == 8 {
        Action::PreviousSheet
    } else if i == 9 {
        Action::NextSheet
    } else if i == 10 {
        Action::DownByCount
    } else if i == 11 {
        Action::DownByCount
    } else if i == 12 {
        Action::UpByCount
    } else if i == 13 {
        Action::UpByCount
    } else if i == 14 {
        Action::FirstRow
    } else if i == 15 {
        Action::Seed('g')
    } else if i == 16 {
        Action::Quit
    } else if i == 17 {
        Action::NextRow
    } else if i == 18 {
        Action::PreviousRow
    } else if i == 19 {
        Action::PreviousColumn
    } else if i == 20 {
        Action::NextColumn
    } else if i == 21 {
        Action::EditCell
    } else if i == 22 {
        Action::LastRow
    } else if i == 23 {
        Action::PreviousSheet
    } else if i == 24 {
        Action::NextSheet
    } else if i == 25 {
        Action::MoveRowDown
    } else if i == 26 {
        Action::MoveRowUp
    } else if i == 27 {
        Action::Yank
    } else if i == 28 {
        Action::DeleteRow
    } else if i == 29 {
        Action::PasteBelow
    } else if i == 30 {
        Action::PasteAbove
    } else if i == 31 {
        Action::NewRowBelow
    } else if i == 32 {
        Action::NewRowAbove
    } else if i == 33 {
        Action::Help
    } else if i == 34 {
        Action::NextRow
    } else if i == 35 {
        Action::PreviousRow
    } else if i == 36 {
        Action::PreviousColumn
    } else if i == 37 {
        Action::NextColumn
    } else if i == 38 {
        Action::LastRow
    } else if i == 39 {
        Action::FirstRow
    } else if i == 40 {
        Action::HalfDown
    } else {
        Action::HalfUp
    }
}

/// The default bindings, in their order: first the keys with control, then
/// the arrows with shift, then what depends on a pending count or on the
/// character before, then the plain letters and arrows, and last the keys
/// that do the same whatever is held.
pub open spec fn default_binding(i: int) -> Binding {
    Binding { keys: seq![default_key(i)], guard: default_guard(i), action: default_deed(i) }
}

/// Whether a table holds the default bindings, in their order.
pub open spec fn is_default(rules: Seq<KeyMap>) -> bool {
    &&& rules.len() == default_count()
    &&& forall|i: int| 0 <= i < default_count() ==> described(#[trigger] rules[i], default_binding(i))
}

/// Whether a described binding fits a key event in a state.
pub open spec fn takes(binding: Binding, key: KeyEvent, state: StateView) -> bool {
    &&& binding.keys.contains(key.code)
    &&& match binding.guard {
        Some(guard) => guard.holds(key, state),
        None => true,
    }
}

/// A binding fits where its description does.
pub proof fn lemma_described(rule: KeyMap, binding: Binding, key: KeyEvent, state: StateView)
    requires
        described(rule, binding),
    ensures
        rule.fits(key, state) == takes(binding, key, state),
{
}

/// A single key is the only key of its binding.
pub proof fn lemma_one_key(key: KeyCode, code: KeyCode)
    ensures
        seq![key].contains(code) <==> code == key,
{
    if code == key {
        assert(seq![key][0] == code);
    }
}

/// What the guards of the default bindings ask for.
pub proof fn lemma_guards(key: KeyEvent, state: StateView)
    ensures
        with_control().holds(key, state) == key.modifiers.control,
        only_control().holds(key, state) == (key.modifiers == KeyModifiers::spec_control()),
        only_shift().holds(key, state) == (key.modifiers == KeyModifiers::spec_shift()),
        without_control().holds(key, state) == !key.modifiers.control,
        not_only_control().holds(key, state) == (key.modifiers != KeyModifiers::spec_control()),
        counting(without_control()).holds(key, state) == (state.digits.len() > 0
            && !key.modifiers.control),
        counting(not_only_control()).holds(key, state) == (state.digits.len() > 0
            && key.modifiers != KeyModifiers::spec_control()),
        after_g(without_control()).holds(key, state) == (state.chars.len() > 0
            && state.chars.last() == 'g' && !key.modifiers.control),
{
    reveal_with_fuel(Predicate::holds, 4);
}

/// What the default bindings do with a key, written out: the action that is
/// taken, if any.
///
/// With control held, `c` quits, `d` and `u` scroll by half a screen, `t`
/// adds a sheet and `r` renames one, and no other letter does anything;
/// control and delete, and nothing else held, removes a sheet. Without
/// control the letters do their work: `j` and `k` move by the count where
/// one is pending, and by one row else; the second `g` in a row goes to the
/// first row, and the first is kept as the start of that command. The
/// arrows with shift, and nothing else held, move the row or change the
/// sheet; with control, and nothing else held, they do nothing; else they
/// move like `h`, `j`, `k` and `l`. Home, end and the page keys do the same
/// whatever is held.
pub open spec fn default_action(key: KeyEvent, state: StateView) -> Option<Action> {
    let control = key.modifiers.control;
    let only_control = key.modifiers == KeyModifiers::spec_control();
    let only_shift = key.modifiers == KeyModifiers::spec_shift();
    let counting = state.digits.len() > 0;
    match key.code {
        KeyCode::Char(c) => {
            if control {
                if c == 'c' {
                    Some(Action::Quit)
                } else if c == 'd' {
                    Some(Action::HalfDown)
                } else if c == 'u' {
                    Some(Action::HalfUp)
                } else if c == 't' {
                    Some(Action::CreateSheet)
                } else if c == 'r' {
                    Some(Action::RenameSheet)
                } else {
                    None
                }
            } else if c == 'j' {
                Some(
                    if counting {
                        Action::DownByCount
                    } else {
                        Action::NextRow
                    },
                )
            } else if c == 'k' {
                Some(
                    if counting {
                        Action::UpByCount
                    } else {
                        Action::PreviousRow
                    },
                )
            } else if c == 'g' {
                Some(
                    if state.chars.len() > 0 && state.chars.last() == 'g' {
                        Action::FirstRow
                    } else {
                        Action::Seed('g')
                    },
                )
            } else if c == 'q' {
                Some(Action::Quit)
            } else if c == 'h' {
                Some(Action::PreviousColumn)
            } else if c == 'l' {
                Some(Action::NextColumn)
            } else if c == 'i' {
                Some(Action::EditCell)
            } else if c == 'G' {
                Some(Action::LastRow)
            } else if c == 'H' {
                Some(Action::PreviousSheet)
            } else if c == 'L' {
                Some(Action::NextSheet)
            } else if c == 'J' {
                Some(Action::MoveRowDown)
            } else if c == 'K' {
                Some(Action::MoveRowUp)
            } else if c == 'y' {
                Some(Action::Yank)
            } else if c == 'd' {
                Some(Action::DeleteRow)
            } else if c == 'p' {
                Some(Action::PasteBelow)
            } else if c == 'P' {
                Some(Action::PasteAbove)
            } else if c == 'o' {
                Some(Action::NewRowBelow)
            } else if c == 'O' {
                Some(Action::NewRowAbove)
            } else if c == '?' {
                Some(Action::Help)
            } else {
                None
            }
        },
        KeyCode::Delete => if only_control {
            Some(Action::DeleteSheet)
        } else {
            None
        },
        KeyCode::Up => if only_shift {
            Some(Action::MoveRowUp)
        } else if only_control {
            None
        } else if counting {
            Some(Action::UpByCount)
        } else {
            Some(Action::PreviousRow)
        },
        KeyCode::Down => if only_shift {
            Some(Action::MoveRowDown)
        } else if only_control {
            None
        } else if counting {
            Some(Action::DownByCount)
        } else {
            Some(Action::NextRow)
        },
        KeyCode::Left => if only_shift {
            Some(Action::PreviousSheet)
        } else if only_control {
            None
        } else {
            Some(Action::PreviousColumn)
        },
        KeyCode::Right => if only_shift {
            Some(Action::NextSheet)
        } else if only_control {
            None
        } else {
            Some(Action::NextColumn)
        },
        KeyCode::End => Some(Action::LastRow),
        KeyCode::Home => Some(Action::FirstRow),
        KeyCode::PageDown => Some(Action::HalfDown),
        KeyCode::PageUp => Some(Action::HalfUp),
        _ => None,
    }
}

/// The action of the binding that a table takes for a key, if it takes one.
pub open spec fn chosen(rules: Seq<KeyMap>, key: KeyEvent, state: StateView) -> Option<Action> {
    match first_fit(rules, key, state) {
        Some(i) => Some(rules[i].action),
        None => None,
    }
}

/// Whether binding `i` of the default bindings fits.
pub open spec fn default_takes(i: int, key: KeyEvent, state: StateView) -> bool {
    takes(default_binding(i), key, state)
}

/// Whether binding `i` of the default bindings fits, written out: the key
/// is its key, and its guard, if it has one, holds.
proof fn lemma_default_takes(i: int, key: KeyEvent, state: StateView)
    requires
        0 <= i < default_count(),
    ensures
        default_takes(i, key, state) == (key.code == default_key(i) && match default_guard(i) {
            Some(guard) => guard.holds(key, state),
            None => true,
        }),
{
    lemma_one_key(default_key(i), key.code);
}

/// The default bindings do what [`default_action`] says.
pub proof fn lemma_default_table(rules: Seq<KeyMap>, key: KeyEvent, state: StateView)
    requires
        is_default(rules),
    ensures
        chosen(rules, key, state) == default_action(key, state),
{
    lemma_first_fit(rules, key, state);
    lemma_guards(key, state);
    lemma_described(rules[0], default_binding(0), key, state);
    lemma_default_takes(0, key, state);
    lemma_described(rules[1], default_binding(1), key, state);
    lemma_default_takes(1, key, state);
    lemma_described(rules[2], default_binding(2), key, state);
    lemma_default_takes(2, key, state);
    lemma_described(rules[3], default_binding(3), key, state);
    lemma_default_takes(3, key, state);
    lemma_described(rules[4], default_binding(4), key, state);
    lemma_default_takes(4, key, state);
    lemma_described(rules[5], default_binding(5), key, state);
    lemma_default_takes(5, key, state);
    lemma_described(rules[6], default_binding(6), key, state);
    lemma_default_takes(6, key, state);
    lemma_described(rules[7], default_binding(7), key, state);
    lemma_default_takes(7, key, state);
    lemma_described(rules[8], default_binding(8), key, state);
    lemma_default_takes(8, key, state);
    lemma_described(rules[9], default_binding(9), key, state);
    lemma_default_takes(9, key, state);
    lemma_described(rules[10], default_binding(10), key, state);
    lemma_default_takes(10, key, state);
    lemma_described(rules[11], default_binding(11), key, state);
    lemma_default_takes(11, key, state);
    lemma_described(rules[12], default_binding(12), key, state);
    lemma_default_takes(12, key, state);
    lemma_described(rules[13], default_binding(13), key, state);
    lemma_default_takes(13, key, state);
    lemma_described(rules[14], default_binding(14), key, state);
    lemma_default_takes(14, key, state);
    lemma_described(rules[15], default_binding(15), key, state);
    lemma_default_takes(15, key, state);
    lemma_described(rules[16], default_binding(16), key, state);
    lemma_default_takes(16, key, state);
    lemma_described(rules[17], default_binding(17), key, state);
    lemma_default_takes(17, key, state);
    lemma_described(rules[18], default_binding(18), key, state);
    lemma_default_takes(18, key, state);
    lemma_described(rules[19], default_binding(19), key, state);
    lemma_default_takes(19, key, state);
    lemma_described(rules[20], default_binding(20), key, state);
    lemma_default_takes(20, key, state);
    lemma_described(rules[21], default_binding(21), key, state);
    lemma_default_takes(21, key, state);
    lemma_described(rules[22], default_binding(22), key, state);
    lemma_default_takes(22, key, state);
    lemma_described(rules[23], default_binding(23), key, state);
    lemma_default_takes(23, key, state);
    lemma_described(rules[24], default_binding(24), key, state);
    lemma_default_takes(24, key, state);
    lemma_described(rules[25], default_binding(25), key, state);
    lemma_default_takes(25, key, state);
    lemma_described(rules[26], default_binding(26), key, state);
    lemma_default_takes(26, key, state);
    lemma_described(rules[27], default_binding(27), key, state);
    lemma_default_takes(27, key, state);
    lemma_described(rules[28], default_binding(28), key, state);
    lemma_default_takes(28, key, state);
    lemma_described(rules[29], default_binding(29), key, state);
    lemma_default_takes(29, key, state);
    lemma_described(rules[30], default_binding(30), key, state);
    lemma_default_takes(30, key, state);
    lemma_described(rules[31], default_binding(31), key, state);
    lemma_default_takes(31, key, state);
    lemma_described(rules[32], default_binding(32), key, state);
    lemma_default_takes(32, key, state);
    lemma_described(rules[33], default_binding(33), key, state);
    lemma_default_takes(33, key, state);
    lemma_described(rules[34], default_binding(34), key, state);
    lemma_default_takes(34, key, state);
    lemma_described(rules[35], default_binding(35), key, state);
    lemma_default_takes(35, key, state);
    lemma_described(rules[36], default_binding(36), key, state);
    lemma_default_takes(36, key, state);
    lemma_described(rules[37], default_binding(37), key, state);
    lemma_default_takes(37, key, state);
    lemma_described(rules[38], default_binding(38), key, state);
    lemma_default_takes(38, key, state);
    lemma_described(rules[39], default_binding(39), key, state);
    lemma_default_takes(39, key, state);
    lemma_described(rules[40], default_binding(40), key, state);
    lemma_default_takes(40, key, state);
    lemma_described(rules[41], default_binding(41), key, state);
    lemma_default_takes(41, key, state);
}

/// A press of a character key with the given modifiers held.
pub open spec fn char_key(c: char, modifiers: KeyModifiers) -> KeyEvent {
    KeyEvent::spec_new(KeyCode::Char(c), modifiers)
}

/// With the default bindings, a key that is no character does what the
/// character does that it stands for: an arrow what its letter does, a page
/// key what the letter with control does.
pub proof fn lemma_special_keys_as_letters(key: KeyEvent, c: char, state: StateView)
    requires
        !(key.code is Char),
    ensures
        special_key(key) == Some(seq![c]) ==> default_action(key, state) == default_action(
            char_key(c, KeyModifiers::spec_none()),
            state,
        ),
        special_key(key) == Some(modified_char(c, KeyModifiers::spec_control()))
            ==> default_action(key, state) == default_action(
            char_key(c, KeyModifiers::spec_control()),
            state,
        ),
{
    match special_key(key) {
        Some(token) => {
            if token == seq![c] {
                assert(token[0] == c);
                assert(token.len() == 1);
            }
            if token == modified_char(c, KeyModifiers::spec_control()) {
                assert(token[3] == c);
                assert(token.len() == 5);
            }
        },
        None => {},
    }
}

/// The guard "control is held".
fn make_with_control() -> (r: Predicate)
    ensures
        r == with_control(),
{
    Predicate::Modifiers(KeyModifiers::control())
}

/// The guard "control is held, and no other modifier".
fn make_only_control() -> (r: Predicate)
    ensures
        r == only_control(),
{
    Predicate::ExactModifiers(KeyModifiers::control())
}

/// The guard "shift is held, and no other modifier".
fn make_only_shift() -> (r: Predicate)
    ensures
        r == only_shift(),
{
    Predicate::ExactModifiers(KeyModifiers::shift())
}

/// The guard "control is not held".
fn make_without_control() -> (r: Predicate)
    ensures
        r == without_control(),
{
    Predicate::Not(Pred::new(make_with_control()))
}

/// The guard "control is not the one modifier held".
fn make_not_only_control() -> (r: Predicate)
    ensures
        r == not_only_control(),
{
    Predicate::Not(Pred::new(make_only_control()))
}

/// The guard "a count is pending, and `rest` holds".
fn make_counting(rest: Predicate) -> (r: Predicate)
    ensures
        r == counting(rest),
{
    Predicate::And(Pred::new(Predicate::CountPending), Pred::new(rest))
}

/// The guard "the character accumulated last is `g`, and `rest` holds".
fn make_after_g(rest: Predicate) -> (r: Predicate)
    ensures
        r == after_g(rest),
{
    Predicate::And(Pred::new(Predicate::LastChar('g')), Pred::new(rest))
}

/// A binding for one key.
fn bind(key: KeyCode, guard: Option<Predicate>, action: Action) -> (r: KeyMap)
    ensures
        described(r, Binding { keys: seq![key], guard, action }),
{
    let mut keys: Vec<KeyCode> = Vec::new();
    keys.push(key);
    assert(keys@ =~= seq![key]);
    let builder = KeyMapBuilder::new(keys);
    match guard {
        Some(g) => builder.when(Pred::new(g)).do_action(action),
        None => builder.do_action(action),
    }
}

/// Registers the bindings of the keys with control and of the arrows with
/// shift. They come first.
fn register_modified(table: &mut BindingTable)
    requires
        old(table).rules@.len() == 0,
    ensures
        final(table).rules@.len() == 10,
        forall|i: int|
            0 <= i < 10 ==> described(#[trigger] final(table).rules@[i], default_binding(i)),
{
    table.register(bind(KeyCode::Char('c'), Some(make_with_control()), Action::Quit));
    table.register(bind(KeyCode::Char('d'), Some(make_with_control()), Action::HalfDown));
    table.register(bind(KeyCode::Char('u'), Some(make_with_control()), Action::HalfUp));
    table.register(bind(KeyCode::Char('t'), Some(make_with_control()), Action::CreateSheet));
    table.register(bind(KeyCode::Char('r'), Some(make_with_control()), Action::RenameSheet));
    table.register(bind(KeyCode::Delete, Some(make_only_control()), Action::DeleteSheet));
    table.register(bind(KeyCode::Up, Some(make_only_shift()), Action::MoveRowUp));
    table.register(bind(KeyCode::Down, Some(make_only_shift()), Action::MoveRowDown));
    table.register(bind(KeyCode::Left, Some(make_only_shift()), Action::PreviousSheet));
    table.register(bind(KeyCode::Right, Some(make_only_shift()), Action::NextSheet));
}

/// Registers the bindings that depend on a pending count or on the
/// character before. They stand before the plain bindings for the same keys.
fn register_pending(table: &mut BindingTable)
    requires
        old(table).rules@.len() == 10,
    ensures
        final(table).rules@.len() == 16,
        forall|i: int| 0 <= i < 10 ==> final(table).rules@[i] == old(table).rules@[i],
        forall|i: int|
            10 <= i < 16 ==> described(#[trigger] final(table).rules@[i], default_binding(i)),
{
    table.register(bind(KeyCode::Char('j'), Some(make_counting(make_without_control())), Action::DownByCount));
    table.register(bind(KeyCode::Down, Some(make_counting(make_not_only_control())), Action::DownByCount));
    table.register(bind(KeyCode::Char('k'), Some(make_counting(make_without_control())), Action::UpByCount));
    table.register(bind(KeyCode::Up, Some(make_counting(make_not_only_control())), Action::UpByCount));
    table.register(bind(KeyCode::Char('g'), Some(make_after_g(make_without_control())), Action::FirstRow));
    table.register(bind(KeyCode::Char('g'), Some(make_without_control()), Action::Seed('g')));
}

/// Registers the bindings of the plain letters.
fn register_letters(table: &mut BindingTable)
    requires
        old(table).rules@.len() == 16,
    ensures
        final(table).rules@.len() == 34,
        forall|i: int| 0 <= i < 16 ==> final(table).rules@[i] == old(table).rules@[i],
        forall|i: int|
            16 <= i < 34 ==> described(#[trigger] final(table).rules@[i], default_binding(i)),
{
    table.register(bind(KeyCode::Char('q'), Some(make_without_control()), Action::Quit));
    table.register(bind(KeyCode::Char('j'), Some(make_without_control()), Action::NextRow));
    table.register(bind(KeyCode::Char('k'), Some(make_without_control()), Action::PreviousRow));
    table.register(bind(KeyCode::Char('h'), Some(make_without_control()), Action::PreviousColumn));
    table.register(bind(KeyCode::Char('l'), Some(make_without_control()), Action::NextColumn));
    table.register(bind(KeyCode::Char('i'), Some(make_without_control()), Action::EditCell));
    table.register(bind(KeyCode::Char('G'), Some(make_without_control()), Action::LastRow));
    table.register(bind(KeyCode::Char('H'), Some(make_without_control()), Action::PreviousSheet));
    table.register(bind(KeyCode::Char('L'), Some(make_without_control()), Action::NextSheet));
    table.register(bind(KeyCode::Char('J'), Some(make_without_control()), Action::MoveRowDown));
    table.register(bind(KeyCode::Char('K'), Some(make_without_control()), Action::MoveRowUp));
    table.register(bind(KeyCode::Char('y'), Some(make_without_control()), Action::Yank));
    table.register(bind(KeyCode::Char('d'), Some(make_without_control()), Action::DeleteRow));
    table.register(bind(KeyCode::Char('p'), Some(make_without_control()), Action::PasteBelow));
    table.register(bind(KeyCode::Char('P'), Some(make_without_control()), Action::PasteAbove));
    table.register(bind(KeyCode::Char('o'), Some(make_without_control()), Action::NewRowBelow));
    table.register(bind(KeyCode::Char('O'), Some(make_without_control()), Action::NewRowAbove));
    table.register(bind(KeyCode::Char('?'), Some(make_without_control()), Action::Help));
}

/// Registers the bindings of the plain arrows and of the keys that do the
/// same whatever is held.
fn register_others(table: &mut BindingTable)
    requires
        old(table).rules@.len() == 34,
    ensures
        final(table).rules@.len() == 42,
        forall|i: int| 0 <= i < 34 ==> final(table).rules@[i] == old(table).rules@[i],
        forall|i: int|
            34 <= i < 42 ==> described(#[trigger] final(table).rules@[i], default_binding(i)),
{
    table.register(bind(KeyCode::Down, Some(make_not_only_control()), Action::NextRow));
    table.register(bind(KeyCode::Up, Some(make_not_only_control()), Action::PreviousRow));
    table.register(bind(KeyCode::Left, Some(make_not_only_control()), Action::PreviousColumn));
    table.register(bind(KeyCode::Right, Some(make_not_only_control()), Action::NextColumn));
    table.register(bind(KeyCode::End, None, Action::LastRow));
    table.register(bind(KeyCode::Home, None, Action::FirstRow));
    table.register(bind(KeyCode::PageDown, None, Action::HalfDown));
    table.register(bind(KeyCode::PageUp, None, Action::HalfUp));
}

/// The table of the default bindings.
pub fn default_bindings() -> (r: BindingTable)
    ensures
        is_default(r.rules@),
{
    let mut table = BindingTable::new();
    register_modified(&mut table);
    register_pending(&mut table);
    register_letters(&mut table);
    register_others(&mut table);
    table
}

} // verus!
