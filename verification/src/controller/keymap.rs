//! Key bindings: which keys, under which condition, do what.
//!
//! Bindings are tried in the order in which they were registered, and the
//! first one that fits is taken. A binding without a guard fits whenever its
//! key does, so a guarded binding for the same key has to stand before it:
//! behind it, it would never be reached.
use crate::controller::actions::Action;
use crate::controller::state::ControllerState;
use crate::controller::state::StateView;
use crate::event::KeyCode;
use crate::event::KeyEvent;
use crate::event::KeyModifiers;
use vstd::prelude::*;

verus! {

/// A condition on the key that was pressed and on what is pending.
#[derive(Debug)]
pub enum Predicate {
    /// All of these modifiers are held (others may be held too).
    Modifiers(KeyModifiers),
    /// Exactly these modifiers are held.
    ExactModifiers(KeyModifiers),
    /// A count is pending.
    CountPending,
    /// Characters of a command are pending.
    CharsPending,
    /// The character that was accumulated last is this one.
    LastChar(char),
    /// Both conditions hold.
    And(Pred, Pred),
    /// One of the conditions holds.
    Or(Pred, Pred),
    /// The condition does not hold.
    Not(Pred),
}

/// A guard: a condition that can be combined with others.
#[derive(Debug)]
pub struct Pred(pub Box<Predicate>);

impl Predicate {
    /// Whether the condition holds of a key event in a state.
    pub open spec fn holds(self, event: KeyEvent, state: StateView) -> bool
        decreases self,
    {
        match self {
            Predicate::Modifiers(m) => event.modifiers.spec_contains(m),
            Predicate::ExactModifiers(m) => event.modifiers == m,
            Predicate::CountPending => state.digits.len() > 0,
            Predicate::CharsPending => state.chars.len() > 0,
            Predicate::LastChar(c) => state.chars.len() > 0 && state.chars.last() == c,
            Predicate::And(a, b) => (*a.0).holds(event, state) && (*b.0).holds(event, state),
            Predicate::Or(a, b) => (*a.0).holds(event, state) || (*b.0).holds(event, state),
            Predicate::Not(a) => !(*a.0).holds(event, state),
        }
    }

    /// Evaluates the condition. Nothing is changed by it.
    pub fn evaluate(&self, event: &KeyEvent, controller_state: &ControllerState) -> (r: bool)
        ensures
            r == self.holds(*event, controller_state@),
        decreases self,
    {
        match self {
            Predicate::Modifiers(m) => event.modifiers.contains(*m),
            Predicate::ExactModifiers(m) => event.modifiers == *m,
            Predicate::CountPending => controller_state.last_nums.len() > 0,
            Predicate::CharsPending => controller_state.last_chars.len() > 0,
            Predicate::LastChar(c) => {
                let n = controller_state.last_chars.len();
                n > 0 && controller_state.last_chars[n - 1] == *c
            },
            Predicate::And(a, b) => a.0.evaluate(event, controller_state) && b.0.evaluate(
                event,
                controller_state,
            ),
            Predicate::Or(a, b) => a.0.evaluate(event, controller_state) || b.0.evaluate(
                event,
                controller_state,
            ),
            Predicate::Not(a) => !a.0.evaluate(event, controller_state),
        }
    }

    /// A copy of the condition.
    pub fn duplicate(&self) -> (r: Predicate)
        ensures
            r == *self,
        decreases self,
    {
        match self {
            Predicate::Modifiers(m) => Predicate::Modifiers(*m),
            Predicate::ExactModifiers(m) => Predicate::ExactModifiers(*m),
            Predicate::CountPending => Predicate::CountPending,
            Predicate::CharsPending => Predicate::CharsPending,
            Predicate::LastChar(c) => Predicate::LastChar(*c),
            Predicate::And(a, b) => Predicate::And(
                Pred(Box::new(a.0.duplicate())),
                Pred(Box::new(b.0.duplicate())),
            ),
            Predicate::Or(a, b) => Predicate::Or(
                Pred(Box::new(a.0.duplicate())),
                Pred(Box::new(b.0.duplicate())),
            ),
            Predicate::Not(a) => Predicate::Not(Pred(Box::new(a.0.duplicate()))),
        }
    }
}

impl Clone for Pred {
    fn clone(&self) -> (r: Pred)
        ensures
            r == *self,
    {
        Pred(Box::new(self.0.duplicate()))
    }
}

impl Pred {
    /// Whether the guard holds of a key event in a state.
    pub open spec fn holds(self, event: KeyEvent, state: StateView) -> bool {
        (*self.0).holds(event, state)
    }

    /// The guard that holds where the condition does.
    pub fn new(predicate: Predicate) -> (r: Pred)
        ensures
            *r.0 == predicate,
    {
        Pred(Box::new(predicate))
    }

    /// Evaluates the guard. Nothing is changed by it.
    pub fn evaluate(&self, event: &KeyEvent, controller_state: &ControllerState) -> (r: bool)
        ensures
            r == self.holds(*event, controller_state@),
    {
        self.0.evaluate(event, controller_state)
    }

    /// The guard that holds where both do.
    pub fn and(self, other: Pred) -> (r: Pred)
        ensures
            *r.0 == Predicate::And(self, other),
            forall|event: KeyEvent, state: StateView|
                #[trigger] r.holds(event, state) == (self.holds(event, state) && other.holds(
                    event,
                    state,
                )),
    {
        Pred(Box::new(Predicate::And(self, other)))
    }

    /// The guard that holds where one of the two does.
    pub fn or(self, other: Pred) -> (r: Pred)
        ensures
            *r.0 == Predicate::Or(self, other),
            forall|event: KeyEvent, state: StateView|
                #[trigger] r.holds(event, state) == (self.holds(event, state) || other.holds(
                    event,
                    state,
                )),
    {
        Pred(Box::new(Predicate::Or(self, other)))
    }

    /// The guard that holds where this one does not.
    pub fn not(self) -> (r: Pred)
        ensures
            *r.0 == Predicate::Not(self),
            forall|event: KeyEvent, state: StateView|
                #[trigger] r.holds(event, state) == !self.holds(event, state),
    {
        Pred(Box::new(Predicate::Not(self)))
    }

    /// The condition inside the guard.
    pub fn into_inner(self) -> (r: Box<Predicate>)
        ensures
            r == self.0,
    {
        self.0
    }
}

/// One binding: a set of keys, an optional guard, and what to do.
#[derive(Debug)]
pub struct KeyMap {
    /// The keys that the binding is for. A key that is listed twice counts
    /// once. They are kept as a list: vstd knows how std's hash sets behave
    /// for elements that are integers, not for an enum with a derived hash.
    pub keys: Vec<KeyCode>,
    /// The guard; without one the binding fits whenever its key does.
    pub predicate: Option<Pred>,
    /// What is done when the binding is taken.
    pub action: Action,
}

impl KeyMap {
    /// Whether the binding has a guard.
    pub open spec fn guarded(self) -> bool {
        self.predicate is Some
    }

    /// Whether the guard, if there is one, holds.
    pub open spec fn guard_holds(self, event: KeyEvent, state: StateView) -> bool {
        match self.predicate {
            Some(p) => p.holds(event, state),
            None => true,
        }
    }

    /// Whether the binding fits a key event in a state: the key is one of
    /// its keys, and its guard holds.
    pub open spec fn fits(self, event: KeyEvent, state: StateView) -> bool {
        self.keys@.contains(event.code) && self.guard_holds(event, state)
    }

    /// Whether the binding fits a key event in a state.
    pub fn matches(&self, event: &KeyEvent, controller_state: &ControllerState) -> (r: bool)
        ensures
            r == self.fits(*event, controller_state@),
    {
        let mut found = false;
        let mut i: usize = 0;
        while i < self.keys.len() && !found
            invariant
                i <= self.keys.len(),
                found ==> self.keys@.contains(event.code),
                !found ==> forall|j: int| 0 <= j < i ==> self.keys@[j] != event.code,
            decreases self.keys.len() - i + (if found { 0int } else { 1int }),
        {
            if self.keys[i] == event.code {
                found = true;
                proof {
                    assert(self.keys@[i as int] == event.code);
                }
            } else {
                i += 1;
            }
        }
        if !found {
            return false;
        }
        match &self.predicate {
            Some(p) => p.evaluate(event, controller_state),
            None => true,
        }
    }
}

/// A binding in the making: keys and guard first, the action last.
#[derive(Debug)]
pub struct KeyMapBuilder {
    pub keys: Vec<KeyCode>,
    pub predicate: Option<Pred>,
}

impl KeyMapBuilder {
    /// Starts a binding for the given keys.
    pub fn new(keys: Vec<KeyCode>) -> (r: KeyMapBuilder)
        ensures
            r.keys == keys,
            r.predicate is None,
    {
        KeyMapBuilder { keys, predicate: None }
    }

    /// Gives the binding a guard, in place of the one it had.
    pub fn when(self, pred: Pred) -> (r: KeyMapBuilder)
        ensures
            r.keys == self.keys,
            r.predicate == Some(pred),
    {
        KeyMapBuilder { keys: self.keys, predicate: Some(pred) }
    }

    /// Completes the binding.
    pub fn do_action(self, action: Action) -> (r: KeyMap)
        ensures
            r == (KeyMap { keys: self.keys, predicate: self.predicate, action }),
    {
        KeyMap { keys: self.keys, predicate: self.predicate, action }
    }
}

/// The index of the first binding that fits, if any does.
pub open spec fn first_fit(rules: Seq<KeyMap>, event: KeyEvent, state: StateView) -> Option<int>
    decreases rules.len(),
{
    if rules.len() == 0 {
        None
    } else {
        match first_fit(rules.drop_last(), event, state) {
            Some(i) => Some(i),
            None => if rules.last().fits(event, state) {
                Some(rules.len() - 1)
            } else {
                None
            },
        }
    }
}

/// What [`first_fit`] returns is the least index of a binding that fits.
pub proof fn lemma_first_fit(rules: Seq<KeyMap>, event: KeyEvent, state: StateView)
    ensures
        match first_fit(rules, event, state) {
            Some(i) => {
                &&& 0 <= i < rules.len()
                &&& rules[i].fits(event, state)
                &&& forall|j: int| 0 <= j < i ==> !(#[trigger] rules[j]).fits(event, state)
            },
            None => forall|j: int| 0 <= j < rules.len() ==> !(#[trigger] rules[j]).fits(event, state),
        },
    decreases rules.len(),
{
    if rules.len() > 0 {
        lemma_first_fit(rules.drop_last(), event, state);
        assert forall|j: int| 0 <= j < rules.len() - 1 implies rules.drop_last()[j] == rules[j] by {
        }
        match first_fit(rules.drop_last(), event, state) {
            Some(i) => {
                assert(rules.drop_last()[i] == rules[i]);
                assert forall|j: int| 0 <= j < i implies !(#[trigger] rules[j]).fits(
                    event,
                    state,
                ) by {
                    assert(rules.drop_last()[j] == rules[j]);
                }
            },
            None => {
                assert forall|j: int| 0 <= j < rules.len() - 1 implies !(#[trigger] rules[j]).fits(
                    event,
                    state,
                ) by {
                    assert(rules.drop_last()[j] == rules[j]);
                }
            },
        }
    }
}

/// The least index of a binding that fits is what [`first_fit`] returns.
pub proof fn lemma_first_fit_is(rules: Seq<KeyMap>, event: KeyEvent, state: StateView, i: int)
    requires
        0 <= i < rules.len(),
        rules[i].fits(event, state),
        forall|j: int| 0 <= j < i ==> !(#[trigger] rules[j]).fits(event, state),
    ensures
        first_fit(rules, event, state) == Some(i),
{
    lemma_first_fit(rules, event, state);
}

/// No binding fits exactly where [`first_fit`] returns none.
pub proof fn lemma_first_fit_none(rules: Seq<KeyMap>, event: KeyEvent, state: StateView)
    requires
        forall|j: int| 0 <= j < rules.len() ==> !(#[trigger] rules[j]).fits(event, state),
    ensures
        first_fit(rules, event, state) is None,
{
    lemma_first_fit(rules, event, state);
}

/// The order of the bindings decides. Let a binding with a guard stand
/// before a binding without one, both for the key that was pressed, and let
/// no other binding before the second fit. Then the first is taken where
/// its guard holds, and the second where it does not.
pub proof fn lemma_guarded_first(
    rules: Seq<KeyMap>,
    first: int,
    second: int,
    event: KeyEvent,
    state: StateView,
)
    requires
        0 <= first < second < rules.len(),
        rules[first].guarded(),
        !rules[second].guarded(),
        rules[first].keys@.contains(event.code),
        rules[second].keys@.contains(event.code),
        forall|k: int| 0 <= k < second && k != first ==> !(#[trigger] rules[k]).fits(event, state),
    ensures
        rules[first].guard_holds(event, state) ==> first_fit(rules, event, state) == Some(first),
        !rules[first].guard_holds(event, state) ==> first_fit(rules, event, state) == Some(second),
{
    if rules[first].guard_holds(event, state) {
        lemma_first_fit_is(rules, event, state, first);
    } else {
        lemma_first_fit_is(rules, event, state, second);
    }
}

/// The same for a table of just the two bindings: the guarded one, then the
/// unguarded one.
pub proof fn lemma_guarded_then_unguarded(
    guarded: KeyMap,
    unguarded: KeyMap,
    event: KeyEvent,
    state: StateView,
)
    requires
        guarded.guarded(),
        !unguarded.guarded(),
        guarded.keys@.contains(event.code),
        unguarded.keys@.contains(event.code),
    ensures
        first_fit(seq![guarded, unguarded], event, state) == Some(
            if guarded.guard_holds(event, state) {
                0int
            } else {
                1int
            },
        ),
{
    lemma_guarded_first(seq![guarded, unguarded], 0, 1, event, state);
}

/// In the other order the guard is never asked: a binding without a guard
/// shadows every binding for the same key that stands behind it.
pub proof fn lemma_unguarded_shadows(
    rules: Seq<KeyMap>,
    first: int,
    second: int,
    event: KeyEvent,
    state: StateView,
)
    requires
        0 <= first < second < rules.len(),
        !rules[first].guarded(),
        rules[first].keys@.contains(event.code),
    ensures
        first_fit(rules, event, state) != Some(second),
{
    lemma_first_fit(rules, event, state);
}

/// The bindings, in the order in which they were registered.
#[derive(Debug)]
pub struct BindingTable {
    pub rules: Vec<KeyMap>,
}

impl BindingTable {
    /// A table without bindings.
    pub fn new() -> (r: BindingTable)
        ensures
            r.rules@ == Seq::<KeyMap>::empty(),
    {
        BindingTable { rules: Vec::new() }
    }

    /// Registers a binding behind those that are there.
    pub fn register(&mut self, rule: KeyMap)
        ensures
            final(self).rules@ == old(self).rules@.push(rule),
    {
        self.rules.push(rule);
    }

    /// The index of the first binding that fits the key event in the state.
    pub fn find(&self, event: &KeyEvent, controller_state: &ControllerState) -> (r: Option<usize>)
        ensures
            match r {
                Some(i) => first_fit(self.rules@, *event, controller_state@) == Some(i as int),
                None => first_fit(self.rules@, *event, controller_state@) is None,
            },
    {
        let mut i: usize = 0;
        while i < self.rules.len()
            invariant
                i <= self.rules.len(),
                forall|j: int|
                    0 <= j < i ==> !(#[trigger] self.rules@[j]).fits(*event, controller_state@),
            decreases self.rules.len() - i,
        {
            if self.rules[i].matches(event, controller_state) {
                proof {
                    lemma_first_fit_is(self.rules@, *event, controller_state@, i as int);
                }
                return Some(i);
            }
            i += 1;
        }
        proof {
            lemma_first_fit_none(self.rules@, *event, controller_state@);
        }
        None
    }

    /// The first binding that fits the key event in the state: bindings are
    /// tried in the order of registration, and the first match wins.
    pub fn dispatch(&self, event: &KeyEvent, controller_state: &ControllerState) -> (r: Option<
        &KeyMap,
    >)
        ensures
            match first_fit(self.rules@, *event, controller_state@) {
                Some(i) => r == Some(&self.rules@[i]),
                None => r is None,
            },
    {
        match self.find(event, controller_state) {
            Some(i) => {
                proof {
                    lemma_first_fit(self.rules@, *event, controller_state@);
                }
                Some(&self.rules[i])
            },
            None => None,
        }
    }
}

} // verus!
