//! What the controller remembers between keys: the digits of a count, the
//! characters of a command that is not complete yet, the open popup, the
//! request to exit, and the row that was copied last.
use crate::controller::popup::popup_view;
use crate::controller::popup::Popup;
use crate::controller::popup::PopupView;
use crate::model::sheets::TransactionView;
use crate::model::Transaction;
use vstd::prelude::*;

verus! {

/// The state of the controller.
#[derive(Debug)]
pub struct ControllerState {
    /// The digits typed since the last key that was no digit.
    pub last_nums: Vec<u32>,
    /// The characters typed towards a command of several keys.
    pub last_chars: Vec<char>,
    /// The popup that is open, if any.
    pub popup: Option<Popup>,
    /// Whether the user asked to leave. Once set it stays set.
    pub exit: bool,
    /// The row that was copied or deleted last.
    pub register: Option<Transaction>,
}

/// The state of the controller as a mathematical value.
pub struct StateView {
    pub digits: Seq<u32>,
    pub chars: Seq<char>,
    pub popup: Option<PopupView>,
    pub exit: bool,
    pub register: Option<TransactionView>,
}

/// The value of an optional transaction.
pub open spec fn register_view(register: Option<Transaction>) -> Option<TransactionView> {
    match register {
        Some(t) => Some(t@),
        None => None,
    }
}

impl View for ControllerState {
    type V = StateView;

    open spec fn view(&self) -> StateView {
        StateView {
            digits: self.last_nums@,
            chars: self.last_chars@,
            popup: popup_view(self.popup),
            exit: self.exit,
            register: register_view(self.register),
        }
    }
}

/// The number that a run of decimal digits spells, most significant first.
pub open spec fn decimal_value(digits: Seq<u32>) -> nat
    decreases digits.len(),
{
    if digits.len() == 0 {
        0
    } else {
        decimal_value(digits.drop_last()) * 10 + digits.last() as nat
    }
}

/// The count that a run of digits resolves to: the number they spell, or
/// the largest 32-bit number where they spell more.
pub open spec fn resolved(digits: Seq<u32>) -> nat {
    if decimal_value(digits) <= u32::MAX {
        decimal_value(digits)
    } else {
        u32::MAX as nat
    }
}

/// Whether a character is one of the ten decimal digits.
pub open spec fn is_digit(c: char) -> bool {
    '0' <= c && c <= '9'
}

/// The value of a decimal digit.
pub open spec fn digit_value(c: char) -> u32 {
    (c as u32 - '0' as u32) as u32
}

impl StateView {
    /// The state at the start: nothing typed, nothing open.
    pub open spec fn initial() -> StateView {
        StateView {
            digits: Seq::empty(),
            chars: Seq::empty(),
            popup: None,
            exit: false,
            register: None,
        }
    }

    /// Whether a count was typed. A typed `0` is a count; no digit is none.
    pub open spec fn has_count(self) -> bool {
        self.digits.len() > 0
    }

    /// The count that the typed digits resolve to.
    pub open spec fn count(self) -> nat {
        resolved(self.digits)
    }

    /// The state with neither digits nor characters pending.
    pub open spec fn reset(self) -> StateView {
        StateView { digits: Seq::empty(), chars: Seq::empty(), ..self }
    }

    /// The state after a character was taken as part of a command: it is
    /// appended to the pending characters, and the pending digits go.
    pub open spec fn with_literal(self, c: char) -> StateView {
        StateView { digits: Seq::empty(), chars: self.chars.push(c), ..self }
    }

    /// The state after a character key was accumulated: a digit is appended
    /// to the pending digits and the pending characters go; any other
    /// character is taken as part of a command.
    pub open spec fn accumulated(self, c: char) -> StateView {
        if is_digit(c) {
            StateView { digits: self.digits.push(digit_value(c)), chars: Seq::empty(), ..self }
        } else {
            self.with_literal(c)
        }
    }

    /// The state after a run of characters was taken as a new command: they
    /// replace the pending characters, and the pending digits go.
    pub open spec fn with_sequence(self, token: Seq<char>) -> StateView {
        StateView { digits: Seq::empty(), chars: token, ..self }
    }

    /// The state after the keys of `keys` were accumulated one by one.
    pub open spec fn typed(self, keys: Seq<char>) -> StateView
        decreases keys.len(),
    {
        if keys.len() == 0 {
            self
        } else {
            self.typed(keys.drop_last()).accumulated(keys.last())
        }
    }

    /// What is shown of the pending input: the characters, then the digits.
    pub open spec fn status(self) -> Seq<char> {
        self.chars + digit_chars(self.digits)
    }
}

/// The characters of a run of digits, each digit by itself.
pub open spec fn digit_chars(digits: Seq<u32>) -> Seq<char>
    decreases digits.len(),
{
    if digits.len() == 0 {
        Seq::empty()
    } else {
        digit_chars(digits.drop_last()) + crate::strings::decimal_text(digits.last() as nat)
    }
}

/// The values of a run of digit characters.
pub open spec fn digit_values(keys: Seq<char>) -> Seq<u32> {
    Seq::new(keys.len(), |i: int| digit_value(keys[i]))
}

/// Digits typed one after the other are the pending digits, in the order in
/// which they were typed: so the count is the number they spell in base ten
/// (or the largest 32-bit number, where they spell more), and there is a
/// count exactly if a digit was typed, be it `0`.
pub proof fn lemma_typed_digits(state: StateView, keys: Seq<char>)
    requires
        forall|i: int| 0 <= i < keys.len() ==> is_digit(#[trigger] keys[i]),
    ensures
        state.typed(keys).digits == state.digits + digit_values(keys),
        keys.len() > 0 ==> state.typed(keys).chars == Seq::<char>::empty(),
        state.digits.len() == 0 ==> state.typed(keys).count() == resolved(digit_values(keys)),
        state.digits.len() == 0 ==> (state.typed(keys).has_count() <==> keys.len() > 0),
    decreases keys.len(),
{
    if keys.len() == 0 {
        assert(state.digits + digit_values(keys) =~= state.digits);
        assert(digit_values(keys) =~= Seq::<u32>::empty());
    } else {
        let shorter = keys.drop_last();
        lemma_typed_digits(state, shorter);
        assert(state.typed(keys) == state.typed(shorter).accumulated(keys.last()));
        assert(digit_values(keys) =~= digit_values(shorter).push(digit_value(keys.last())));
        assert((state.digits + digit_values(shorter)).push(digit_value(keys.last()))
            =~= state.digits + digit_values(keys));
        if state.digits.len() == 0 {
            assert(state.digits + digit_values(keys) =~= digit_values(keys));
        }
    }
}

/// A count that fits in 32 bits is the number that its digits spell.
pub proof fn lemma_resolved_exact(digits: Seq<u32>)
    requires
        decimal_value(digits) <= u32::MAX,
    ensures
        resolved(digits) == decimal_value(digits),
{
}

/// A key that is no digit ends the count: after it no digit is pending.
pub proof fn lemma_count_ends(state: StateView, c: char)
    requires
        !is_digit(c),
    ensures
        !state.accumulated(c).has_count(),
        state.accumulated(c).chars == state.chars.push(c),
{
}

impl Default for ControllerState {
    fn default() -> (r: ControllerState)
        ensures
            r@ == StateView::initial(),
    {
        ControllerState {
            last_nums: Vec::new(),
            last_chars: Vec::new(),
            popup: None,
            exit: false,
            register: None,
        }
    }
}

impl ControllerState {
    /// Whether a count was typed.
    pub fn has_count(&self) -> (r: bool)
        ensures
            r == self@.has_count(),
    {
        self.last_nums.len() > 0
    }

    /// The count that the typed digits resolve to: they are folded, most
    /// significant first, in base ten, and the result stops at the largest
    /// 32-bit number rather than wrap. Without digits the count is 0; ask
    /// [`ControllerState::has_count`] to tell that from a typed `0`.
    pub fn get_count_amount(&self) -> (r: usize)
        ensures
            r == self@.count(),
    {
        let mut acc: u32 = 0;
        let mut i: usize = 0;
        while i < self.last_nums.len()
            invariant
                i <= self.last_nums.len(),
                acc == resolved(self.last_nums@.take(i as int)),
            decreases self.last_nums.len() - i,
        {
            let d = self.last_nums[i];
            proof {
                assert(self.last_nums@.take(i as int + 1).drop_last() =~= self.last_nums@.take(
                    i as int,
                ));
                assert(self.last_nums@.take(i as int + 1).last() == d);
                let v = decimal_value(self.last_nums@.take(i as int));
                assert(v > u32::MAX ==> v * 10 + d > u32::MAX) by (nonlinear_arith)
                    requires
                        d >= 0,
                ;
            }
            let scaled = if acc > u32::MAX / 10 {
                u32::MAX
            } else {
                acc * 10
            };
            acc = if d > u32::MAX - scaled {
                u32::MAX
            } else {
                scaled + d
            };
            i += 1;
        }
        proof {
            assert(self.last_nums@.take(self.last_nums.len() as int) =~= self.last_nums@);
        }
        acc as usize
    }

    /// The count that the typed digits resolve to; another name for
    /// [`ControllerState::get_count_amount`].
    pub fn resolved_count(&self) -> (r: usize)
        ensures
            r == self@.count(),
    {
        self.get_count_amount()
    }

    /// Forgets the pending digits and characters.
    pub fn reset(&mut self)
        ensures
            final(self)@ == old(self)@.reset(),
    {
        self.last_chars.clear();
        self.last_nums.clear();
    }

    /// Takes a character as part of a command.
    pub fn accumulate_literal(&mut self, c: char)
        ensures
            final(self)@ == old(self)@.with_literal(c),
    {
        self.last_chars.push(c);
        self.last_nums.clear();
    }

    /// Accumulates a character key: a digit goes to the count, any other
    /// character to the command.
    pub fn accumulate(&mut self, c: char)
        ensures
            final(self)@ == old(self)@.accumulated(c),
    {
        if c >= '0' && c <= '9' {
            self.last_nums.push(c as u32 - '0' as u32);
            self.last_chars.clear();
        } else {
            self.accumulate_literal(c);
        }
    }

    /// Starts a new command with the given characters.
    pub fn begin_sequence(&mut self, token: Vec<char>)
        ensures
            final(self)@ == old(self)@.with_sequence(token@),
    {
        self.last_chars = token;
        self.last_nums.clear();
    }

    /// The pending input as it is shown: the characters, then the digits.
    pub fn status_text(&self) -> (r: String)
        ensures
            r@ == self@.status(),
    {
        let mut out = String::new();
        let mut i: usize = 0;
        while i < self.last_chars.len()
            invariant
                i <= self.last_chars.len(),
                out@ == self.last_chars@.take(i as int),
            decreases self.last_chars.len() - i,
        {
            out.push(self.last_chars[i]);
            proof {
                assert(self.last_chars@.take(i as int + 1) =~= self.last_chars@.take(
                    i as int,
                ).push(self.last_chars@[i as int]));
            }
            i += 1;
        }
        proof {
            assert(self.last_chars@.take(self.last_chars.len() as int) =~= self.last_chars@);
        }
        let mut j: usize = 0;
        while j < self.last_nums.len()
            invariant
                j <= self.last_nums.len(),
                out@ == self.last_chars@ + digit_chars(self.last_nums@.take(j as int)),
            decreases self.last_nums.len() - j,
        {
            proof {
                assert(self.last_nums@.take(j as int + 1).drop_last() =~= self.last_nums@.take(
                    j as int,
                ));
            }
            crate::strings::push_decimal(&mut out, self.last_nums[j] as usize);
            proof {
                assert(out@ =~= self.last_chars@ + digit_chars(
                    self.last_nums@.take(j as int + 1),
                ));
            }
            j += 1;
        }
        proof {
            assert(self.last_nums@.take(self.last_nums.len() as int) =~= self.last_nums@);
        }
        out
    }
}

} // verus!
