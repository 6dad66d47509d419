//! The characters that a key stands for when no binding takes it.
//!
//! A plain character stands for itself. A character with control held, and
//! the keys that are no characters, stand for a token in angle brackets, or
//! for the letter that does the same: so they can be part of a pending
//! command like any letter.
use crate::event::KeyCode;
use crate::event::KeyEvent;
use crate::event::KeyModifiers;
use vstd::prelude::*;

verus! {

/// The token of a character pressed with modifiers: `<C-x>` with control
/// held, `<x>` without.
pub open spec fn modified_char(c: char, modifiers: KeyModifiers) -> Seq<char> {
    if modifiers.control {
        seq!['<', 'C', '-', c, '>']
    } else {
        seq!['<', c, '>']
    }
}

/// The characters that a key that is no character stands for, if any.
pub open spec fn special_key(event: KeyEvent) -> Option<Seq<char>> {
    let control = event.modifiers == KeyModifiers::spec_control();
    let shift = event.modifiers == KeyModifiers::spec_shift();
    match event.code {
        KeyCode::Up => Some(
            if control {
                seq!['<', 'C', '-', 'k', '>']
            } else if shift {
                seq!['K']
            } else {
                seq!['k']
            },
        ),
        KeyCode::Down => Some(
            if control {
                seq!['<', 'C', '-', 'j', '>']
            } else if shift {
                seq!['J']
            } else {
                seq!['j']
            },
        ),
        KeyCode::Left => Some(
            if control {
                seq!['<', 'C', '-', 'h', '>']
            } else if shift {
                seq!['H']
            } else {
                seq!['h']
            },
        ),
        KeyCode::Right => Some(
            if control {
                seq!['<', 'C', '-', 'l', '>']
            } else if shift {
                seq!['L']
            } else {
                seq!['l']
            },
        ),
        KeyCode::Delete => if control {
            Some(seq!['<', 'C', '-', 'D', 'e', 'l', '>'])
        } else {
            None
        },
        KeyCode::PageUp => Some(seq!['<', 'C', '-', 'u', '>']),
        KeyCode::PageDown => Some(seq!['<', 'C', '-', 'd', '>']),
        KeyCode::Home => Some(seq!['g', 'g']),
        KeyCode::End => Some(seq!['G']),
        _ => None,
    }
}

/// The characters that a key stands for, if any.
pub open spec fn token_of(event: KeyEvent) -> Option<Seq<char>> {
    match event.code {
        KeyCode::Char(c) => Some(
            if event.modifiers.control {
                modified_char(c, event.modifiers)
            } else {
                seq![c]
            },
        ),
        _ => special_key(event),
    }
}

/// Appends the token of a character pressed with modifiers.
pub fn handle_modified_char(out: &mut Vec<char>, c: char, modifiers: KeyModifiers)
    ensures
        final(out)@ == old(out)@ + modified_char(c, modifiers),
{
    out.push('<');
    if modifiers.control {
        out.push('C');
        out.push('-');
    }
    out.push(c);
    out.push('>');
    assert(out@ =~= old(out)@ + modified_char(c, modifiers));
}

/// Appends the characters that a key that is no character stands for, and
/// tells whether it stands for any.
pub fn handle_special_key(out: &mut Vec<char>, key_event: &KeyEvent) -> (r: bool)
    ensures
        match special_key(*key_event) {
            Some(token) => r && final(out)@ == old(out)@ + token,
            None => !r && final(out)@ == old(out)@,
        },
{
    let control = key_event.modifiers == KeyModifiers::control();
    let shift = key_event.modifiers == KeyModifiers::shift();
    let held = KeyModifiers::control();
    let r = match key_event.code {
        KeyCode::Up => {
            if control {
                handle_modified_char(out, 'k', held);
            } else if shift {
                out.push('K');
            } else {
                out.push('k');
            }
            true
        },
        KeyCode::Down => {
            if control {
                handle_modified_char(out, 'j', held);
            } else if shift {
                out.push('J');
            } else {
                out.push('j');
            }
            true
        },
        KeyCode::Left => {
            if control {
                handle_modified_char(out, 'h', held);
            } else if shift {
                out.push('H');
            } else {
                out.push('h');
            }
            true
        },
        KeyCode::Right => {
            if control {
                handle_modified_char(out, 'l', held);
            } else if shift {
                out.push('L');
            } else {
                out.push('l');
            }
            true
        },
        KeyCode::Delete => {
            if control {
                out.push('<');
                out.push('C');
                out.push('-');
                out.push('D');
                out.push('e');
                out.push('l');
                out.push('>');
                true
            } else {
                false
            }
        },
        KeyCode::PageUp => {
            handle_modified_char(out, 'u', held);
            true
        },
        KeyCode::PageDown => {
            handle_modified_char(out, 'd', held);
            true
        },
        KeyCode::Home => {
            out.push('g');
            out.push('g');
            true
        },
        KeyCode::End => {
            out.push('G');
            true
        },
        _ => false,
    };
    proof {
        match special_key(*key_event) {
            Some(token) => {
                assert(out@ =~= old(out)@ + token);
            },
            None => {},
        }
    }
    r
}

/// The characters that a key stands for, if any.
pub fn key_token(key_event: &KeyEvent) -> (r: Option<Vec<char>>)
    ensures
        match token_of(*key_event) {
            Some(token) => r is Some && r->0@ == token,
            None => r is None,
        },
{
    let mut out: Vec<char> = Vec::new();
    match key_event.code {
        KeyCode::Char(c) => {
            if key_event.modifiers.control {
                handle_modified_char(&mut out, c, key_event.modifiers);
            } else {
                out.push(c);
            }
            assert(out@ =~= token_of(*key_event)->0);
            Some(out)
        },
        _ => {
            if handle_special_key(&mut out, key_event) {
                assert(out@ =~= special_key(*key_event)->0);
                Some(out)
            } else {
                None
            }
        },
    }
}

} // verus!
