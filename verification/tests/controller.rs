use chrono::NaiveDate;
use std::num::ParseFloatError;
use tallysheet::controller::actions::Action;
use tallysheet::controller::keymap::BindingTable;
use tallysheet::controller::keymap::KeyMapBuilder;
use tallysheet::controller::keymap::Pred;
use tallysheet::controller::keymap::Predicate;
use tallysheet::controller::popup::ConfirmCallback;
use tallysheet::controller::popup::ConfirmPopup;
use tallysheet::controller::popup::InputCallback;
use tallysheet::controller::popup::InputPopup;
use tallysheet::controller::popup::Popup;
use tallysheet::controller::Controller;
use tallysheet::event::Event;
use tallysheet::event::KeyCode;
use tallysheet::event::KeyEvent;
use tallysheet::event::KeyEventKind;
use tallysheet::event::KeyModifiers;
use tallysheet::model::Amount;
use tallysheet::model::Model;
use tallysheet::model::Sheet;
use tallysheet::model::Transaction;
use tallysheet::view::View;

type Parser = fn(String) -> Result<Amount, ParseFloatError>;

fn parse_amount(text: String) -> Result<Amount, ParseFloatError> {
    text.parse::<f64>().map(|x| Amount::new(x.to_bits(), x.to_string()))
}

struct Desk {
    controller: Controller<Parser>,
    model: Model,
    view: View,
}

fn line(label: &str) -> Transaction {
    Transaction {
        label: label.to_string(),
        date: NaiveDate::from_ymd_opt(2024, 1, 1).unwrap(),
        amount: Amount::new(2.0f64.to_bits(), "2".to_string()),
    }
}

fn desk(rows: usize, others: usize) -> Desk {
    let sheet = |name: String, n: usize| Sheet::new(name, (0..n).map(|i| line(&format!("r{}", i))).collect());
    let model = Model {
        main_sheet: sheet("Sheet0".to_string(), rows),
        sheets: (0..others).map(|i| sheet(format!("Sheet{}", i + 1), 2)).collect(),
        filename: None,
    };
    let mut desk = Desk { controller: Controller::new(parse_amount as Parser), model, view: View::new() };
    desk.view.first_row(&desk.model);
    desk
}

impl Desk {
    fn send(&mut self, event: KeyEvent) {
        self.controller.handle_events(&Event::Key(event), &mut self.model, &mut self.view);
    }

    fn press(&mut self, code: KeyCode) {
        self.send(KeyEvent::new(code, KeyModifiers::none()));
    }

    fn hold(&mut self, modifiers: KeyModifiers, code: KeyCode) {
        self.send(KeyEvent::new(code, modifiers));
    }

    fn keys(&mut self, text: &str) {
        for c in text.chars() {
            self.press(KeyCode::Char(c));
        }
    }

    fn row(&mut self) -> Option<usize> {
        let sheet = self.view.get_selected_sheet(&self.model);
        self.view.get_selected_row(sheet)
    }

    fn cell(&mut self) -> Option<(usize, usize)> {
        let sheet = self.view.get_selected_sheet(&self.model);
        self.view.get_selected_cell(sheet)
    }

    fn labels(&self) -> Vec<String> {
        let sheet = self.view.get_selected_sheet(&self.model);
        sheet.transactions.iter().map(|t| t.label.clone()).collect()
    }

    fn pending(&self) -> String {
        self.controller.state.status_text()
    }

    fn popup_lines(&self) -> Option<Vec<String>> {
        match &self.controller.state.popup {
            Some(Popup::InputPopup(p)) => Some(p.0.lines()),
            _ => None,
        }
    }
}

#[test]
fn a_new_controller_has_nothing_pending() {
    let desk = desk(3, 0);
    assert!(desk.controller.state.last_nums.is_empty());
    assert!(desk.controller.state.last_chars.is_empty());
    assert!(desk.controller.state.popup.is_none());
    assert!(!desk.controller.state.exit);
    assert!(desk.controller.state.register.is_none());
    assert_eq!(desk.controller.keymaps.rules.len(), 42);
}

#[test]
fn q_and_control_c_ask_to_leave() {
    let mut one = desk(3, 0);
    one.keys("q");
    assert!(one.controller.state.exit);
    assert!(one.controller.state.popup.is_none());
    one.keys("jk5");
    assert!(one.controller.state.exit);
    let mut two = desk(3, 0);
    two.hold(KeyModifiers::control(), KeyCode::Char('c'));
    assert!(two.controller.state.exit);
    let mut three = desk(3, 0);
    three.keys("c");
    assert!(!three.controller.state.exit);
    assert_eq!(three.pending(), "c");
}

#[test]
fn only_key_presses_count() {
    let mut desk = desk(3, 0);
    for kind in [KeyEventKind::Release, KeyEventKind::Repeat] {
        desk.send(KeyEvent { code: KeyCode::Char('q'), modifiers: KeyModifiers::none(), kind });
        desk.send(KeyEvent { code: KeyCode::Char('j'), modifiers: KeyModifiers::none(), kind });
        desk.send(KeyEvent { code: KeyCode::Char('7'), modifiers: KeyModifiers::none(), kind });
    }
    desk.controller.handle_events(&Event::Other, &mut desk.model, &mut desk.view);
    assert!(!desk.controller.state.exit);
    assert_eq!(desk.row(), Some(0));
    assert_eq!(desk.pending(), "");
}

#[test]
fn a_count_moves_by_that_many_rows() {
    let mut desk = desk(30, 0);
    desk.keys("10");
    assert_eq!(desk.controller.state.get_count_amount(), 10);
    assert_eq!(desk.pending(), "10");
    assert_eq!(desk.row(), Some(0));
    desk.keys("j");
    assert_eq!(desk.row(), Some(10));
    assert!(!desk.controller.state.has_count());
    assert_eq!(desk.pending(), "");
    desk.keys("j");
    assert_eq!(desk.row(), Some(11));
    desk.keys("3k");
    assert_eq!(desk.row(), Some(8));
    desk.keys("k");
    assert_eq!(desk.row(), Some(7));
    desk.keys("4");
    desk.press(KeyCode::Down);
    assert_eq!(desk.row(), Some(11));
    desk.keys("2");
    desk.press(KeyCode::Up);
    assert_eq!(desk.row(), Some(9));
}

#[test]
fn a_count_stops_at_the_ends_of_the_sheet() {
    let mut desk = desk(30, 0);
    desk.keys("25j");
    assert_eq!(desk.row(), Some(25));
    desk.keys("10j");
    assert_eq!(desk.row(), Some(29));
    desk.keys("99999999999k");
    assert_eq!(desk.row(), Some(0));
    desk.keys("0j");
    assert_eq!(desk.row(), Some(0));
    assert_eq!(desk.pending(), "");
}

#[test]
fn g_twice_goes_to_the_first_row_once() {
    let mut desk = desk(9, 0);
    desk.keys("G");
    assert_eq!(desk.row(), Some(8));
    desk.keys("g");
    assert_eq!(desk.row(), Some(8));
    assert_eq!(desk.pending(), "g");
    desk.keys("g");
    assert_eq!(desk.row(), Some(0));
    assert_eq!(desk.pending(), "");
    desk.keys("G");
    desk.keys("g");
    assert_eq!(desk.row(), Some(8));
    desk.keys("g");
    assert_eq!(desk.row(), Some(0));
}

#[test]
fn g_then_another_character_goes_nowhere() {
    let mut desk = desk(9, 0);
    desk.keys("G");
    desk.keys("gz");
    assert_eq!(desk.row(), Some(8));
    assert_eq!(desk.controller.state.last_chars, vec!['z']);
    desk.keys("g");
    assert_eq!(desk.controller.state.last_chars, vec!['z', 'g']);
    assert_eq!(desk.row(), Some(8));
    desk.keys("g");
    assert_eq!(desk.row(), Some(0));
    desk.keys("G");
    desk.keys("gk");
    assert_eq!(desk.row(), Some(7));
    assert_eq!(desk.pending(), "");
    desk.keys("g7g");
    assert_eq!(desk.row(), Some(7));
    assert_eq!(desk.pending(), "g");
}

#[test]
fn keys_without_binding_are_accumulated() {
    let mut desk = desk(3, 0);
    desk.keys("z");
    assert_eq!(desk.pending(), "z");
    desk.keys("x");
    assert_eq!(desk.pending(), "x");
    desk.hold(KeyModifiers::control(), KeyCode::Char('x'));
    assert_eq!(desk.pending(), "<C-x>");
    desk.keys("12");
    assert_eq!(desk.pending(), "12");
    desk.keys("z");
    assert_eq!(desk.pending(), "z");
    assert!(!desk.controller.state.has_count());
    desk.keys("3");
    desk.hold(KeyModifiers::control(), KeyCode::Char('4'));
    assert_eq!(desk.pending(), "<C-4>");
    desk.press(KeyCode::F(5));
    desk.press(KeyCode::Tab);
    desk.press(KeyCode::Enter);
    desk.press(KeyCode::Delete);
    assert_eq!(desk.pending(), "<C-4>");
    assert_eq!(desk.row(), Some(0));
}

#[test]
fn escape_and_backspace_forget_what_is_pending() {
    let mut desk = desk(9, 0);
    desk.keys("12");
    desk.press(KeyCode::Esc);
    assert_eq!(desk.pending(), "");
    desk.keys("j");
    assert_eq!(desk.row(), Some(1));
    desk.keys("g");
    desk.press(KeyCode::Backspace);
    assert_eq!(desk.pending(), "");
    desk.keys("g");
    assert_eq!(desk.row(), Some(1));
    assert_eq!(desk.pending(), "g");
}

#[test]
fn the_arrows_and_page_keys_move_like_the_letters() {
    let mut desk = desk(40, 0);
    desk.press(KeyCode::Down);
    desk.press(KeyCode::Down);
    assert_eq!(desk.row(), Some(2));
    desk.press(KeyCode::Up);
    assert_eq!(desk.row(), Some(1));
    desk.press(KeyCode::End);
    assert_eq!(desk.row(), Some(39));
    desk.press(KeyCode::Home);
    assert_eq!(desk.row(), Some(0));
    desk.view.sheet_states[0].state.update_visible_row_num(12);
    desk.press(KeyCode::PageDown);
    assert_eq!(desk.row(), Some(5));
    desk.hold(KeyModifiers::control(), KeyCode::Char('d'));
    assert_eq!(desk.row(), Some(10));
    desk.hold(KeyModifiers::control(), KeyCode::Char('u'));
    assert_eq!(desk.row(), Some(5));
    desk.press(KeyCode::PageUp);
    assert_eq!(desk.row(), Some(0));
    assert_eq!(desk.cell(), None);
    desk.keys("l");
    desk.press(KeyCode::Right);
    assert_eq!(desk.cell(), Some((0, 1)));
    desk.keys("h");
    assert_eq!(desk.cell(), Some((0, 0)));
    desk.press(KeyCode::Left);
    assert_eq!(desk.cell(), Some((0, 0)));
}

#[test]
fn sheets_are_cycled_with_h_and_l() {
    let mut desk = desk(3, 2);
    desk.keys("L");
    assert_eq!(desk.view.selected_sheet, 1);
    desk.keys("LL");
    assert_eq!(desk.view.selected_sheet, 0);
    desk.keys("H");
    assert_eq!(desk.view.selected_sheet, 2);
    desk.hold(KeyModifiers::shift(), KeyCode::Right);
    assert_eq!(desk.view.selected_sheet, 0);
    desk.hold(KeyModifiers::shift(), KeyCode::Left);
    assert_eq!(desk.view.selected_sheet, 2);
    for _ in 0..3 {
        desk.keys("L");
    }
    assert_eq!(desk.view.selected_sheet, 2);
}

#[test]
fn rows_are_moved_with_the_selection() {
    let mut desk = desk(4, 0);
    desk.keys("J");
    assert_eq!(desk.labels(), vec!["r1", "r0", "r2", "r3"]);
    assert_eq!(desk.row(), Some(1));
    desk.hold(KeyModifiers::shift(), KeyCode::Down);
    assert_eq!(desk.labels(), vec!["r1", "r2", "r0", "r3"]);
    assert_eq!(desk.row(), Some(2));
    desk.keys("K");
    assert_eq!(desk.labels(), vec!["r1", "r0", "r2", "r3"]);
    assert_eq!(desk.row(), Some(1));
    desk.hold(KeyModifiers::shift(), KeyCode::Up);
    desk.keys("K");
    assert_eq!(desk.labels(), vec!["r0", "r1", "r2", "r3"]);
    assert_eq!(desk.row(), Some(0));
    desk.keys("GJ");
    assert_eq!(desk.labels(), vec!["r0", "r1", "r2", "r3"]);
    assert_eq!(desk.row(), Some(3));
}

#[test]
fn rows_are_copied_cut_and_pasted() {
    let mut desk = desk(3, 0);
    desk.keys("p");
    desk.keys("P");
    assert_eq!(desk.labels(), vec!["r0", "r1", "r2"]);
    desk.keys("y");
    assert_eq!(desk.controller.state.register.as_ref().unwrap().label, "r0");
    desk.keys("jp");
    assert_eq!(desk.labels(), vec!["r0", "r1", "r0", "r2"]);
    assert_eq!(desk.row(), Some(2));
    desk.keys("Gd");
    assert_eq!(desk.labels(), vec!["r0", "r1", "r0"]);
    assert_eq!(desk.controller.state.register.as_ref().unwrap().label, "r2");
    desk.keys("ggP");
    assert_eq!(desk.labels(), vec!["r2", "r0", "r1", "r0"]);
    assert_eq!(desk.row(), Some(0));
    desk.keys("P");
    assert_eq!(desk.labels(), vec!["r2", "r2", "r0", "r1", "r0"]);
}

#[test]
fn an_empty_sheet_has_no_row_to_act_on() {
    let mut desk = desk(0, 0);
    desk.keys("y");
    assert!(desk.controller.state.register.is_none());
    desk.keys("dJKjkG");
    desk.keys("gg");
    assert!(desk.labels().is_empty());
    desk.keys("li");
    assert!(desk.controller.state.popup.is_none());
    desk.controller.state.register = Some(line("kept"));
    let selected = desk.row();
    desk.keys("p");
    assert!(desk.labels().is_empty());
    desk.keys("P");
    assert!(desk.labels().is_empty());
    desk.keys("JKyd");
    desk.keys("3j2k");
    desk.press(KeyCode::PageDown);
    desk.press(KeyCode::Home);
    desk.press(KeyCode::End);
    assert!(desk.labels().is_empty());
    assert_eq!(desk.row(), selected);
    assert_eq!(desk.controller.state.register.as_ref().unwrap().label, "kept");
    assert!(desk.controller.state.popup.is_none());
    assert_eq!(desk.pending(), "");
}

#[test]
fn the_only_row_can_be_deleted_and_nothing_pasted_above_nothing() {
    let mut desk = desk(1, 0);
    desk.keys("d");
    assert!(desk.labels().is_empty());
    assert_eq!(desk.controller.state.register.as_ref().unwrap().label, "r0");
    desk.keys("P");
    assert!(desk.labels().is_empty());
    desk.keys("p");
    assert!(desk.labels().is_empty());
    desk.keys("O");
    desk.press(KeyCode::Enter);
    desk.keys("new");
    desk.press(KeyCode::Enter);
    desk.keys("1");
    desk.press(KeyCode::Enter);
    assert_eq!(desk.labels(), vec!["new"]);
    desk.keys("ggP");
    assert_eq!(desk.labels(), vec!["r0", "new"]);
}

#[test]
fn a_row_behind_the_last_is_no_row() {
    let mut desk = desk(2, 0);
    desk.keys("y");
    let sheet = desk.view.get_selected_sheet(&desk.model);
    desk.view.get_state_of(sheet).table_state.selected = Some(2);
    desk.keys("P");
    desk.keys("p");
    desk.keys("d");
    desk.keys("J");
    assert_eq!(desk.labels(), vec!["r0", "r1"]);
    assert_eq!(desk.controller.state.register.as_ref().unwrap().label, "r0");
    assert_eq!(desk.row(), Some(2));
}

#[test]
fn letters_with_control_are_other_keys() {
    let mut desk = desk(5, 0);
    desk.hold(KeyModifiers::control(), KeyCode::Char('q'));
    assert!(!desk.controller.state.exit);
    assert_eq!(desk.pending(), "<C-q>");
    desk.hold(KeyModifiers::control(), KeyCode::Char('j'));
    assert_eq!(desk.row(), Some(0));
    assert_eq!(desk.pending(), "<C-j>");
    desk.hold(KeyModifiers::control(), KeyCode::Down);
    assert_eq!(desk.row(), Some(0));
    assert_eq!(desk.pending(), "<C-j>");
    desk.hold(KeyModifiers::control(), KeyCode::Right);
    assert_eq!(desk.cell(), None);
    assert_eq!(desk.pending(), "<C-l>");
    desk.keys("3");
    desk.hold(KeyModifiers::control(), KeyCode::Char('j'));
    assert_eq!(desk.row(), Some(0));
    assert_eq!(desk.pending(), "<C-j>");
    desk.hold(KeyModifiers::control(), KeyCode::Char('g'));
    desk.hold(KeyModifiers::control(), KeyCode::Char('g'));
    assert_eq!(desk.pending(), "<C-g>");
    desk.hold(KeyModifiers::control(), KeyCode::Char('y'));
    assert!(desk.controller.state.register.is_none());
    let control_shift =
        KeyModifiers { shift: true, control: true, alt: false, logo: false, hyper: false, meta: false };
    desk.hold(control_shift, KeyCode::Down);
    assert_eq!(desk.row(), Some(1));
    desk.hold(KeyModifiers::alt(), KeyCode::Char('j'));
    assert_eq!(desk.row(), Some(2));
    desk.hold(control_shift, KeyCode::Char('j'));
    assert_eq!(desk.row(), Some(2));
    assert_eq!(desk.pending(), "<C-j>");
    desk.hold(KeyModifiers::control(), KeyCode::Char('c'));
    assert!(desk.controller.state.exit);
}

#[test]
fn while_a_popup_is_open_no_binding_acts() {
    let mut desk = desk(5, 1);
    desk.hold(KeyModifiers::control(), KeyCode::Char('r'));
    assert_eq!(desk.popup_lines(), Some(vec!["Sheet0".to_string()]));
    assert_eq!(desk.pending(), "");
    desk.keys("q");
    assert!(!desk.controller.state.exit);
    assert_eq!(desk.popup_lines(), Some(vec!["Sheet0q".to_string()]));
    desk.keys("j1dL?");
    assert_eq!(desk.popup_lines(), Some(vec!["Sheet0qj1dL?".to_string()]));
    assert_eq!(desk.row(), Some(0));
    assert_eq!(desk.view.selected_sheet, 0);
    assert_eq!(desk.labels().len(), 5);
    assert_eq!(desk.pending(), "");
    assert!(desk.controller.state.register.is_none());
    desk.press(KeyCode::Esc);
    assert!(desk.controller.state.popup.is_none());
    assert_eq!(desk.model.main_sheet.name, "Sheet0");
    desk.keys("q");
    assert!(desk.controller.state.exit);
}

#[test]
fn a_sheet_is_renamed_through_the_popup() {
    let mut desk = desk(5, 1);
    desk.keys("L");
    desk.hold(KeyModifiers::control(), KeyCode::Char('r'));
    match &desk.controller.state.popup {
        Some(Popup::InputPopup(p)) => assert_eq!(p.0.title(), "Rename sheet"),
        _ => panic!("no input popup"),
    }
    for _ in 0..6 {
        desk.press(KeyCode::Backspace);
    }
    desk.keys("Cash 2024");
    desk.press(KeyCode::Enter);
    assert!(desk.controller.state.popup.is_none());
    assert_eq!(desk.model.sheet_titles(), vec!["Sheet0".to_string(), "Cash 2024".to_string()]);
}

#[test]
fn a_cell_is_edited_through_the_popup() {
    let mut desk = desk(3, 0);
    desk.keys("i");
    assert!(desk.controller.state.popup.is_none());
    desk.keys("jll");
    desk.keys("i");
    assert_eq!(desk.popup_lines(), Some(vec!["r1".to_string()]));
    desk.keys("!");
    desk.press(KeyCode::Enter);
    assert!(desk.controller.state.popup.is_none());
    assert_eq!(desk.labels(), vec!["r0", "r1!", "r2"]);
    desk.keys("hi");
    assert_eq!(desk.popup_lines(), Some(vec!["2024-01-01".to_string()]));
    desk.press(KeyCode::Backspace);
    desk.keys("9");
    desk.press(KeyCode::Enter);
    assert_eq!(desk.model.main_sheet.transactions[1].date, NaiveDate::from_ymd_opt(2024, 1, 9).unwrap());
    desk.keys("lli");
    assert_eq!(desk.popup_lines(), Some(vec!["2".to_string()]));
    desk.keys(".5e1");
    desk.press(KeyCode::Enter);
    assert!(desk.controller.state.popup.is_none());
    assert_eq!(f64::from_bits(desk.model.main_sheet.transactions[1].amount.bits), 25.0);
    assert_eq!(desk.model.main_sheet.transactions[1].amount.text, "25");
    desk.keys("i");
    desk.keys("x");
    desk.press(KeyCode::Enter);
    match &desk.controller.state.popup {
        Some(Popup::InputPopup(p)) => {
            assert_eq!(p.0.error(), Some(&"invalid float literal".to_string()));
            assert_eq!(p.0.lines(), vec!["25x".to_string()]);
        }
        _ => panic!("no input popup"),
    }
    desk.press(KeyCode::Esc);
    assert_eq!(f64::from_bits(desk.model.main_sheet.transactions[1].amount.bits), 25.0);
}

#[test]
fn a_row_is_added_below_and_above() {
    let mut desk = desk(2, 0);
    desk.keys("o");
    desk.keys("2024-06-07");
    desk.press(KeyCode::Enter);
    desk.keys("below");
    desk.press(KeyCode::Enter);
    desk.keys("12");
    desk.press(KeyCode::Enter);
    assert!(desk.controller.state.popup.is_none());
    assert_eq!(desk.labels(), vec!["r0", "below", "r1"]);
    assert_eq!(desk.model.main_sheet.transactions[1].amount.text, "12");
    desk.keys("O");
    desk.press(KeyCode::Enter);
    desk.keys("above");
    desk.press(KeyCode::Enter);
    desk.keys("-1");
    desk.press(KeyCode::Enter);
    assert_eq!(desk.labels(), vec!["above", "r0", "below", "r1"]);
    desk.keys("Go");
    desk.press(KeyCode::Enter);
    desk.press(KeyCode::Enter);
    desk.keys("0");
    desk.press(KeyCode::Enter);
    assert_eq!(desk.labels(), vec!["above", "r0", "below", "r1", ""]);
}

#[test]
fn sheets_are_created_and_deleted() {
    let mut desk = desk(2, 0);
    desk.hold(KeyModifiers::control(), KeyCode::Char('t'));
    desk.hold(KeyModifiers::control(), KeyCode::Char('t'));
    assert_eq!(
        desk.model.sheet_titles(),
        vec!["Sheet0".to_string(), "Sheet1".to_string(), "Sheet2".to_string()]
    );
    desk.hold(KeyModifiers::control(), KeyCode::Delete);
    assert!(desk.controller.state.popup.is_none());
    desk.keys("LL");
    assert_eq!(desk.view.selected_sheet, 2);
    desk.hold(KeyModifiers::control(), KeyCode::Delete);
    assert!(matches!(desk.controller.state.popup, Some(Popup::ConfirmPopup(_))));
    desk.keys("n");
    assert!(desk.controller.state.popup.is_none());
    assert_eq!(desk.model.sheet_count(), 3);
    desk.hold(KeyModifiers::control(), KeyCode::Delete);
    desk.keys("x");
    assert!(matches!(desk.controller.state.popup, Some(Popup::ConfirmPopup(_))));
    desk.keys("y");
    assert!(desk.controller.state.popup.is_none());
    assert_eq!(desk.model.sheet_titles(), vec!["Sheet0".to_string(), "Sheet1".to_string()]);
    assert_eq!(desk.view.selected_sheet, 1);
    desk.hold(KeyModifiers::control(), KeyCode::Delete);
    desk.press(KeyCode::Enter);
    assert_eq!(desk.model.sheet_titles(), vec!["Sheet0".to_string()]);
    assert_eq!(desk.view.selected_sheet, 0);
    assert_eq!(desk.labels(), vec!["r0", "r1"]);
}

#[test]
fn help_is_shown_until_it_is_closed() {
    let mut desk = desk(2, 0);
    desk.hold(KeyModifiers::shift(), KeyCode::Char('?'));
    match &desk.controller.state.popup {
        Some(Popup::InfoPopup(p)) => {
            assert_eq!(p.0.title(), "Help");
            assert!(p.0.text().starts_with("Keymap help\n\nGeneral\n    Press <q> to quit.\n"));
            assert!(p.0.text().contains("<C-r> - rename the current sheet\n"));
            assert!(p.0.text().contains("[h j k l]/[← ↑ ↓ →] for moving."));
        }
        _ => panic!("no info popup"),
    }
    desk.keys("j");
    assert!(desk.controller.state.popup.is_some());
    assert_eq!(desk.row(), Some(0));
    desk.keys("q");
    assert!(desk.controller.state.popup.is_none());
    assert!(!desk.controller.state.exit);
}

#[test]
fn other_bindings_can_be_given() {
    let mut table = BindingTable::new();
    table.register(
        KeyMapBuilder::new(vec![KeyCode::Char('x')])
            .when(Pred::new(Predicate::CharsPending).and(Pred::new(Predicate::LastChar('z'))))
            .do_action(Action::Quit),
    );
    table.register(KeyMapBuilder::new(vec![KeyCode::Char('x')]).do_action(Action::LastRow));
    let mut desk = desk(6, 0);
    desk.controller = Controller::with_keymaps(table, parse_amount as Parser);
    desk.keys("x");
    assert_eq!(desk.row(), Some(5));
    assert!(!desk.controller.state.exit);
    desk.keys("j");
    assert_eq!(desk.row(), Some(5));
    assert_eq!(desk.pending(), "j");
    desk.keys("z");
    desk.keys("x");
    assert!(desk.controller.state.exit);
    desk.controller.state.last_chars = vec!['a'];
    desk.controller.reset_command();
    assert_eq!(desk.pending(), "");
    assert!(!desk.controller.try_action(
        &KeyEvent::new(KeyCode::Char('y'), KeyModifiers::none()),
        &mut desk.model,
        &mut desk.view
    ));
    desk.controller.accumulate_key(&KeyEvent::new(KeyCode::Home, KeyModifiers::none()));
    assert_eq!(desk.pending(), "gg");
}

#[test]
fn the_count_has_two_names() {
    let mut desk = desk(3, 0);
    desk.keys("42");
    assert_eq!(desk.controller.state.resolved_count(), 42);
    assert_eq!(desk.controller.state.get_count_amount(), 42);
}

#[test]
fn readiness_is_a_matter_of_indices() {
    let mut desk = desk(3, 1);
    assert!(desk.controller.is_ready(&desk.model, &desk.view));
    desk.view.selected_sheet = 1;
    assert!(desk.controller.is_ready(&desk.model, &desk.view));
    desk.view.selected_sheet = 2;
    assert!(!desk.controller.is_ready(&desk.model, &desk.view));
    desk.view.selected_sheet = 0;
    let rename = |sheet_index: usize| {
        Some(Popup::InputPopup(InputPopup::new("x", InputCallback::RenameSheet { sheet_index })))
    };
    desk.controller.state.popup = rename(1);
    assert!(desk.controller.is_ready(&desk.model, &desk.view));
    desk.controller.state.popup = rename(2);
    assert!(!desk.controller.is_ready(&desk.model, &desk.view));
    let delete = |sheet_index: usize| {
        Some(Popup::ConfirmPopup(ConfirmPopup::new("x", "?", ConfirmCallback::DeleteSheet { sheet_index })))
    };
    desk.controller.state.popup = delete(1);
    assert!(desk.controller.is_ready(&desk.model, &desk.view));
    desk.controller.state.popup = delete(0);
    assert!(!desk.controller.is_ready(&desk.model, &desk.view));
    desk.controller.state.popup = delete(2);
    assert!(!desk.controller.is_ready(&desk.model, &desk.view));
}

#[test]
fn callbacks_fit_where_their_target_is() {
    let desk = desk(3, 1);
    let date = NaiveDate::from_ymd_opt(2024, 1, 1).unwrap();
    let cases = [
        (InputCallback::UpdateMember { sheet_index: 0, row: 2, col: 9 }, true),
        (InputCallback::UpdateMember { sheet_index: 0, row: 3, col: 0 }, false),
        (InputCallback::UpdateMember { sheet_index: 1, row: 1, col: 0 }, true),
        (InputCallback::UpdateMember { sheet_index: 2, row: 0, col: 0 }, false),
        (InputCallback::RenameSheet { sheet_index: 1 }, true),
        (InputCallback::RenameSheet { sheet_index: 2 }, false),
        (InputCallback::NewRowDate { sheet_index: 0, row: 3 }, true),
        (InputCallback::NewRowDate { sheet_index: 0, row: 4 }, false),
        (InputCallback::NewRowLabel { sheet_index: 1, row: 2, date }, true),
        (InputCallback::NewRowLabel { sheet_index: 1, row: 3, date }, false),
        (InputCallback::NewRowAmount { sheet_index: 0, row: 0, date, label: "x".to_string() }, true),
        (InputCallback::NewRowAmount { sheet_index: 5, row: 0, date, label: "x".to_string() }, false),
    ];
    for (callback, expected) in cases {
        assert_eq!(callback.fits_model(&desk.model), expected, "{:?}", callback);
        assert_eq!(callback.clone().fits_model(&desk.model), expected);
    }
}
