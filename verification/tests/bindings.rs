use tallysheet::controller::actions::Action;
use tallysheet::controller::bindings::default_bindings;
use tallysheet::controller::keymap::BindingTable;
use tallysheet::controller::keymap::KeyMap;
use tallysheet::controller::keymap::KeyMapBuilder;
use tallysheet::controller::keymap::Pred;
use tallysheet::controller::keymap::Predicate;
use tallysheet::controller::state::ControllerState;
use tallysheet::event::KeyCode;
use tallysheet::event::KeyEvent;
use tallysheet::event::KeyModifiers;

fn press(c: char) -> KeyEvent {
    KeyEvent::new(KeyCode::Char(c), KeyModifiers::none())
}

fn held(c: char, modifiers: KeyModifiers) -> KeyEvent {
    KeyEvent::new(KeyCode::Char(c), modifiers)
}

fn pending(keys: &str) -> ControllerState {
    let mut state = ControllerState::default();
    for c in keys.chars() {
        state.accumulate(c);
    }
    state
}

fn rule(keys: Vec<KeyCode>, guard: Option<Predicate>, action: Action) -> KeyMap {
    let builder = KeyMapBuilder::new(keys);
    match guard {
        Some(g) => builder.when(Pred::new(g)).do_action(action),
        None => builder.do_action(action),
    }
}

fn table(rules: Vec<KeyMap>) -> BindingTable {
    let mut table = BindingTable::new();
    for r in rules {
        table.register(r);
    }
    table
}

fn action_for(table: &BindingTable, event: &KeyEvent, state: &ControllerState) -> Option<Action> {
    table.dispatch(event, state).map(|rule| rule.action)
}

#[test]
fn single_conditions_read_the_key_and_the_state() {
    let nothing = ControllerState::default();
    let control = held('a', KeyModifiers::control());
    let control_shift = held(
        'a',
        KeyModifiers { shift: true, control: true, alt: false, logo: false, hyper: false, meta: false },
    );
    assert!(Pred::new(Predicate::Modifiers(KeyModifiers::control())).evaluate(&control, &nothing));
    assert!(Pred::new(Predicate::Modifiers(KeyModifiers::control())).evaluate(&control_shift, &nothing));
    assert!(!Pred::new(Predicate::Modifiers(KeyModifiers::control())).evaluate(&press('a'), &nothing));
    assert!(Pred::new(Predicate::ExactModifiers(KeyModifiers::control())).evaluate(&control, &nothing));
    assert!(!Pred::new(Predicate::ExactModifiers(KeyModifiers::control())).evaluate(&control_shift, &nothing));
    assert!(!Pred::new(Predicate::CountPending).evaluate(&press('a'), &nothing));
    assert!(Pred::new(Predicate::CountPending).evaluate(&press('a'), &pending("0")));
    assert!(!Pred::new(Predicate::CharsPending).evaluate(&press('a'), &pending("12")));
    assert!(Pred::new(Predicate::CharsPending).evaluate(&press('a'), &pending("x")));
    assert!(Pred::new(Predicate::LastChar('g')).evaluate(&press('a'), &pending("xg")));
    assert!(!Pred::new(Predicate::LastChar('g')).evaluate(&press('a'), &pending("gx")));
    assert!(!Pred::new(Predicate::LastChar('g')).evaluate(&press('g'), &nothing));
}

#[test]
fn conditions_combine() {
    let control = || Pred::new(Predicate::Modifiers(KeyModifiers::control()));
    let chars = || Pred::new(Predicate::CharsPending);
    let plain = press('a');
    let with_control = held('a', KeyModifiers::control());
    let empty = ControllerState::default();
    let some = pending("x");
    for (event, state, c, p) in [
        (&plain, &empty, false, false),
        (&plain, &some, false, true),
        (&with_control, &empty, true, false),
        (&with_control, &some, true, true),
    ] {
        assert_eq!(control().and(chars()).evaluate(event, state), c && p);
        assert_eq!(control().or(chars()).evaluate(event, state), c || p);
        assert_eq!(control().not().evaluate(event, state), !c);
        assert_eq!(control().and(chars()).not().evaluate(event, state), !(c && p));
        assert_eq!(control().not().or(chars().not()).evaluate(event, state), !c || !p);
    }
    let copy = control().and(chars()).clone();
    assert!(copy.evaluate(&with_control, &some));
    assert!(matches!(*control().not().into_inner(), Predicate::Not(_)));
    assert!(matches!(*control().into_inner(), Predicate::Modifiers(_)));
}

#[test]
fn a_binding_needs_its_key_and_its_guard() {
    let guarded = rule(
        vec![KeyCode::Char('j'), KeyCode::Down],
        Some(Predicate::CountPending),
        Action::DownByCount,
    );
    assert!(guarded.matches(&press('j'), &pending("3")));
    assert!(guarded.matches(&KeyEvent::new(KeyCode::Down, KeyModifiers::none()), &pending("3")));
    assert!(!guarded.matches(&press('j'), &pending("")));
    assert!(!guarded.matches(&press('k'), &pending("3")));
    let free = rule(vec![KeyCode::Char('j')], None, Action::NextRow);
    assert!(free.matches(&press('j'), &pending("")));
    assert!(free.matches(&press('j'), &pending("3")));
    assert!(!free.matches(&press('J'), &pending("")));
    let keyless = rule(vec![], None, Action::Quit);
    assert!(!keyless.matches(&press('q'), &pending("")));
}

#[test]
fn the_guarded_binding_goes_first() {
    let bindings = table(vec![
        rule(vec![KeyCode::Char('j')], Some(Predicate::CountPending), Action::DownByCount),
        rule(vec![KeyCode::Char('j')], None, Action::NextRow),
    ]);
    assert_eq!(action_for(&bindings, &press('j'), &pending("5")), Some(Action::DownByCount));
    assert_eq!(action_for(&bindings, &press('j'), &pending("")), Some(Action::NextRow));
    assert_eq!(action_for(&bindings, &press('k'), &pending("5")), None);
    assert_eq!(bindings.find(&press('j'), &pending("5")), Some(0));
    assert_eq!(bindings.find(&press('j'), &pending("")), Some(1));
    assert_eq!(bindings.find(&press('k'), &pending("")), None);
}

#[test]
fn an_unguarded_binding_shadows_what_follows() {
    let bindings = table(vec![
        rule(vec![KeyCode::Char('j')], None, Action::NextRow),
        rule(vec![KeyCode::Char('j')], Some(Predicate::CountPending), Action::DownByCount),
    ]);
    assert_eq!(action_for(&bindings, &press('j'), &pending("5")), Some(Action::NextRow));
    assert_eq!(action_for(&bindings, &press('j'), &pending("")), Some(Action::NextRow));
}

#[test]
fn an_empty_table_takes_nothing() {
    let bindings = BindingTable::new();
    assert!(bindings.dispatch(&press('q'), &pending("")).is_none());
}

#[test]
fn the_default_bindings_are_as_listed() {
    let bindings = default_bindings();
    assert_eq!(bindings.rules.len(), 42);
    let none = pending("");
    let count = pending("3");
    let after_g = pending("g");
    let control = KeyModifiers::control();
    let shift = KeyModifiers::shift();
    let plain = KeyModifiers::none();
    let both = KeyModifiers { shift: true, control: true, alt: false, logo: false, hyper: false, meta: false };
    let cases = [
        (KeyCode::Char('q'), control, &none, None),
        (KeyCode::Char('j'), control, &none, None),
        (KeyCode::Char('j'), control, &count, None),
        (KeyCode::Char('j'), both, &count, None),
        (KeyCode::Char('g'), control, &after_g, None),
        (KeyCode::Char('y'), both, &none, None),
        (KeyCode::Char('?'), control, &none, None),
        (KeyCode::Up, control, &none, None),
        (KeyCode::Down, control, &count, None),
        (KeyCode::Left, control, &none, None),
        (KeyCode::Right, control, &none, None),
        (KeyCode::Up, both, &count, Some(Action::UpByCount)),
        (KeyCode::Left, both, &none, Some(Action::PreviousColumn)),
        (KeyCode::Char('j'), KeyModifiers::alt(), &none, Some(Action::NextRow)),
        (KeyCode::Char('k'), shift, &count, Some(Action::UpByCount)),
        (KeyCode::Home, control, &none, Some(Action::FirstRow)),
        (KeyCode::End, control, &none, Some(Action::LastRow)),
        (KeyCode::PageUp, control, &none, Some(Action::HalfUp)),
        (KeyCode::PageDown, both, &none, Some(Action::HalfDown)),
        (KeyCode::Char('c'), control, &none, Some(Action::Quit)),
        (KeyCode::Char('c'), plain, &none, None),
        (KeyCode::Char('c'), both, &none, Some(Action::Quit)),
        (KeyCode::Char('d'), control, &none, Some(Action::HalfDown)),
        (KeyCode::Char('d'), plain, &none, Some(Action::DeleteRow)),
        (KeyCode::Char('u'), control, &none, Some(Action::HalfUp)),
        (KeyCode::Char('u'), plain, &none, None),
        (KeyCode::Char('t'), control, &none, Some(Action::CreateSheet)),
        (KeyCode::Char('r'), control, &none, Some(Action::RenameSheet)),
        (KeyCode::Delete, control, &none, Some(Action::DeleteSheet)),
        (KeyCode::Delete, both, &none, None),
        (KeyCode::Delete, plain, &none, None),
        (KeyCode::Up, shift, &none, Some(Action::MoveRowUp)),
        (KeyCode::Down, shift, &count, Some(Action::MoveRowDown)),
        (KeyCode::Left, shift, &none, Some(Action::PreviousSheet)),
        (KeyCode::Right, shift, &none, Some(Action::NextSheet)),
        (KeyCode::Char('j'), plain, &count, Some(Action::DownByCount)),
        (KeyCode::Down, plain, &count, Some(Action::DownByCount)),
        (KeyCode::Char('k'), plain, &count, Some(Action::UpByCount)),
        (KeyCode::Up, plain, &count, Some(Action::UpByCount)),
        (KeyCode::Char('j'), plain, &none, Some(Action::NextRow)),
        (KeyCode::Down, both, &none, Some(Action::NextRow)),
        (KeyCode::Char('k'), plain, &none, Some(Action::PreviousRow)),
        (KeyCode::Up, plain, &none, Some(Action::PreviousRow)),
        (KeyCode::Char('g'), plain, &none, Some(Action::Seed('g'))),
        (KeyCode::Char('g'), plain, &after_g, Some(Action::FirstRow)),
        (KeyCode::Char('q'), plain, &none, Some(Action::Quit)),
        (KeyCode::Char('h'), plain, &none, Some(Action::PreviousColumn)),
        (KeyCode::Left, plain, &none, Some(Action::PreviousColumn)),
        (KeyCode::Char('l'), plain, &none, Some(Action::NextColumn)),
        (KeyCode::Right, plain, &none, Some(Action::NextColumn)),
        (KeyCode::Char('i'), plain, &none, Some(Action::EditCell)),
        (KeyCode::Char('G'), shift, &none, Some(Action::LastRow)),
        (KeyCode::End, plain, &none, Some(Action::LastRow)),
        (KeyCode::Home, plain, &none, Some(Action::FirstRow)),
        (KeyCode::Char('H'), shift, &none, Some(Action::PreviousSheet)),
        (KeyCode::Char('L'), shift, &none, Some(Action::NextSheet)),
        (KeyCode::Char('J'), shift, &none, Some(Action::MoveRowDown)),
        (KeyCode::Char('K'), shift, &none, Some(Action::MoveRowUp)),
        (KeyCode::Char('y'), plain, &none, Some(Action::Yank)),
        (KeyCode::Char('p'), plain, &none, Some(Action::PasteBelow)),
        (KeyCode::Char('P'), shift, &none, Some(Action::PasteAbove)),
        (KeyCode::Char('o'), plain, &none, Some(Action::NewRowBelow)),
        (KeyCode::Char('O'), shift, &none, Some(Action::NewRowAbove)),
        (KeyCode::PageDown, plain, &none, Some(Action::HalfDown)),
        (KeyCode::PageUp, plain, &none, Some(Action::HalfUp)),
        (KeyCode::Char('?'), shift, &none, Some(Action::Help)),
        (KeyCode::Char('z'), plain, &none, None),
        (KeyCode::Char('5'), plain, &none, None),
        (KeyCode::Esc, plain, &none, None),
        (KeyCode::Enter, plain, &none, None),
        (KeyCode::Tab, plain, &none, None),
    ];
    for (code, modifiers, state, expected) in cases {
        let event = KeyEvent::new(code, modifiers);
        assert_eq!(action_for(&bindings, &event, state), expected, "{:?}", event);
    }
}
