use chrono::NaiveDate;
use std::num::ParseFloatError;
use tallysheet::controller::popup::defaults::ask_amount;
use tallysheet::controller::popup::defaults::ask_date;
use tallysheet::controller::popup::defaults::ask_label;
use tallysheet::controller::popup::text::collapse;
use tallysheet::controller::popup::ConfirmCallback;
use tallysheet::controller::popup::ConfirmPopup;
use tallysheet::controller::popup::ConfirmPopupInner;
use tallysheet::controller::popup::InfoPopup;
use tallysheet::controller::popup::InfoPopupInner;
use tallysheet::controller::popup::InputCallback;
use tallysheet::controller::popup::InputPopup;
use tallysheet::controller::popup::InputPopupInner;
use tallysheet::controller::popup::Popup;
use tallysheet::controller::popup::PopupBehaviour;
use tallysheet::event::KeyCode;
use tallysheet::event::KeyEvent;
use tallysheet::event::KeyEventKind;
use tallysheet::event::KeyModifiers;
use tallysheet::model::Amount;
use tallysheet::model::Model;
use tallysheet::model::Sheet;
use tallysheet::model::Transaction;

fn amount_of(text: String) -> Result<Amount, ParseFloatError> {
    text.parse::<f64>().map(|x| Amount::new(x.to_bits(), x.to_string()))
}

fn must_not_parse(_text: String) -> Result<Amount, ParseFloatError> {
    panic!("the number parser was asked")
}

fn key(code: KeyCode) -> KeyEvent {
    KeyEvent::new(code, KeyModifiers::none())
}

fn entry(label: &str) -> Transaction {
    Transaction {
        label: label.to_string(),
        date: NaiveDate::from_ymd_opt(2024, 1, 1).unwrap(),
        amount: Amount::new(1.0f64.to_bits(), "1".to_string()),
    }
}

fn books() -> Model {
    Model {
        main_sheet: Sheet::new("Sheet0".to_string(), vec![entry("a"), entry("b")]),
        sheets: vec![
            Sheet::new("Sheet1".to_string(), vec![entry("c")]),
            Sheet::new("Sheet2".to_string(), vec![entry("d")]),
        ],
        filename: None,
    }
}

fn summary(model: &Model) -> Vec<(String, Vec<String>)> {
    (0..model.sheet_count())
        .map(|i| {
            let sheet = model.get_sheet(i).unwrap();
            (sheet.name.clone(), sheet.transactions.iter().map(|t| t.label.clone()).collect())
        })
        .collect()
}

fn type_text(mut popup: Popup, text: &str, model: &mut Model) -> Popup {
    for c in text.chars() {
        popup = popup.handle_key_event(&key(KeyCode::Char(c)), model, &must_not_parse).unwrap();
    }
    popup
}

fn input_of(popup: &Popup) -> &InputPopupInner {
    match popup {
        Popup::InputPopup(p) => &p.0,
        _ => panic!("not an input popup"),
    }
}

#[test]
fn lines_collapse_to_one() {
    let lines = |parts: &[&str]| parts.iter().map(|s| s.to_string()).collect::<Vec<String>>();
    assert_eq!(collapse(&lines(&["hello"])), "hello");
    assert_eq!(collapse(&lines(&["a", "b", "c"])), "a b c");
    assert_eq!(collapse(&lines(&[""])), "");
    assert_eq!(collapse(&lines(&["", ""])), " ");
    assert_eq!(collapse(&lines(&[])), "");
    assert_eq!(collapse(&lines(&["a\nb", "c\r\nd\r"])), "ab cd");
    assert_eq!(collapse(&lines(&["tab\there", "é→"])), "tab\there é→");
}

#[test]
fn an_info_popup_closes_on_escape_and_q_only() {
    let mut model = books();
    let before = summary(&model);
    let make = || InfoPopup::new().with_text("read me").with_title("Note");
    assert!(make().handle_key_event(&key(KeyCode::Esc), &mut model, &must_not_parse).is_none());
    assert!(make().handle_key_event(&key(KeyCode::Char('q')), &mut model, &must_not_parse).is_none());
    for code in [KeyCode::Enter, KeyCode::Char('x'), KeyCode::Char('Q'), KeyCode::Backspace, KeyCode::Up] {
        let still = make().handle_key_event(&key(code), &mut model, &must_not_parse).unwrap();
        match still {
            Popup::InfoPopup(p) => {
                assert_eq!(p.0.text(), "read me");
                assert_eq!(p.0.title(), "Note");
                assert_eq!(p.0.subtitle(), None);
                assert_eq!(p.0.error(), None);
            }
            _ => panic!("not an info popup"),
        }
    }
    assert_eq!(summary(&model), before);
}

#[test]
fn popups_take_titles_subtitles_and_errors() {
    let info = InfoPopup::new().with_subtitle("sub").with_error("bad").with_title("T").with_text("body");
    match info {
        Popup::InfoPopup(p) => {
            assert_eq!(p.0.text(), "body");
            assert_eq!(p.0.title(), "T");
            assert_eq!(p.0.subtitle(), Some(&"sub".to_string()));
            assert_eq!(p.0.error(), Some(&"bad".to_string()));
        }
        _ => panic!("not an info popup"),
    }
    let empty = InfoPopupInner::default();
    assert_eq!(empty.text(), "");
    assert_eq!(empty.title(), "");
    let question = ConfirmPopup::new("Sure?", "Really?", ConfirmCallback::DeleteSheet { sheet_index: 1 })
        .with_text("Do it?")
        .with_title("Q")
        .with_subtitle("s")
        .with_error("e");
    match question {
        Popup::ConfirmPopup(p) => {
            assert_eq!(p.0.prompt(), "Do it?");
            assert_eq!(p.0.title(), "Q");
            assert_eq!(p.0.subtitle(), Some(&"s".to_string()));
            assert_eq!(p.0.error(), Some(&"e".to_string()));
            assert_eq!(p.0.on_submit, ConfirmCallback::DeleteSheet { sheet_index: 1 });
        }
        _ => panic!("not a question"),
    }
    let plain = ConfirmPopupInner::new("Sure?", "Really?", ConfirmCallback::DeleteSheet { sheet_index: 2 });
    assert_eq!(plain.title(), "Sure?");
    assert_eq!(plain.prompt(), "Really?");
    assert_eq!(plain.subtitle(), None);
    assert_eq!(plain.error(), None);
    let input = InputPopup::new("Name", InputCallback::RenameSheet { sheet_index: 0 })
        .with_title("New name")
        .with_subtitle("(short)")
        .with_error("taken");
    let inner = input_of(&input);
    assert_eq!(inner.title(), "New name");
    assert_eq!(inner.subtitle(), Some(&"(short)".to_string()));
    assert_eq!(inner.error(), Some(&"taken".to_string()));
    assert_eq!(inner.lines(), vec!["".to_string()]);
    assert_eq!(inner.cursor(), (0, 0));
}

#[test]
fn a_question_acts_on_an_answer_only() {
    let ask = || Popup::ConfirmPopup(ConfirmPopup::new("Delete", "?", ConfirmCallback::DeleteSheet { sheet_index: 1 }));
    for code in [KeyCode::Char('y'), KeyCode::Enter] {
        let mut model = books();
        assert!(ask().handle_key_event(&key(code), &mut model, &must_not_parse).is_none());
        assert_eq!(model.sheet_titles(), vec!["Sheet0".to_string(), "Sheet2".to_string()]);
    }
    for code in [KeyCode::Char('n'), KeyCode::Char('q'), KeyCode::Esc] {
        let mut model = books();
        assert!(ask().handle_key_event(&key(code), &mut model, &must_not_parse).is_none());
        assert_eq!(summary(&model), summary(&books()));
    }
    for code in [KeyCode::Char('Y'), KeyCode::Char('x'), KeyCode::Tab, KeyCode::Backspace] {
        let mut model = books();
        let still = ask().handle_key_event(&key(code), &mut model, &must_not_parse).unwrap();
        assert!(matches!(still, Popup::ConfirmPopup(_)));
        assert_eq!(summary(&model), summary(&books()));
    }
}

#[test]
fn a_new_input_popup_is_empty_and_takes_text() {
    let fresh = InputPopupInner::new("Rename sheet", InputCallback::RenameSheet { sheet_index: 0 });
    assert_eq!(fresh.title(), "Rename sheet");
    assert_eq!(fresh.subtitle(), None);
    assert_eq!(fresh.error(), None);
    assert_eq!(fresh.lines(), vec!["".to_string()]);
    let filled = InputPopup::new("Rename sheet", InputCallback::RenameSheet { sheet_index: 0 }).with_text("Sheet0");
    assert_eq!(input_of(&filled).lines(), vec!["Sheet0".to_string()]);
    assert_eq!(input_of(&filled).cursor(), (0, 6));
    let unicode = InputPopup::new("x", InputCallback::RenameSheet { sheet_index: 0 }).with_text("é→ü");
    assert_eq!(input_of(&unicode).lines(), vec!["é→ü".to_string()]);
    assert_eq!(input_of(&unicode).cursor(), (0, 3));
}

#[test]
fn keys_edit_the_text() {
    let mut model = books();
    let popup = InputPopup::new("x", InputCallback::RenameSheet { sheet_index: 0 }).with_text("ab");
    let popup = type_text(popup, "cd", &mut model);
    assert_eq!(input_of(&popup).lines(), vec!["abcd".to_string()]);
    let popup = popup.handle_key_event(&key(KeyCode::Backspace), &mut model, &must_not_parse).unwrap();
    assert_eq!(input_of(&popup).lines(), vec!["abc".to_string()]);
    let popup = popup.handle_key_event(&key(KeyCode::Home), &mut model, &must_not_parse).unwrap();
    let popup = type_text(popup, "X", &mut model);
    assert_eq!(input_of(&popup).lines(), vec!["Xabc".to_string()]);
    assert_eq!(input_of(&popup).cursor(), (0, 1));
    let popup = popup.handle_key_event(&key(KeyCode::Delete), &mut model, &must_not_parse).unwrap();
    assert_eq!(input_of(&popup).lines(), vec!["Xbc".to_string()]);
    let popup = popup.handle_key_event(&key(KeyCode::End), &mut model, &must_not_parse).unwrap();
    let popup = popup.handle_key_event(&key(KeyCode::Left), &mut model, &must_not_parse).unwrap();
    let popup = type_text(popup, "-", &mut model);
    assert_eq!(input_of(&popup).lines(), vec!["Xb-c".to_string()]);
    assert_eq!(input_of(&popup).cursor(), (0, 3));
    let mut popup = popup;
    for (code, expected) in [
        (KeyCode::Right, (0, 4)),
        (KeyCode::Right, (0, 4)),
        (KeyCode::Up, (0, 4)),
        (KeyCode::Down, (0, 4)),
        (KeyCode::Home, (0, 0)),
        (KeyCode::Left, (0, 0)),
        (KeyCode::Right, (0, 1)),
        (KeyCode::End, (0, 4)),
        (KeyCode::Delete, (0, 4)),
        (KeyCode::Left, (0, 3)),
    ] {
        popup = popup.handle_key_event(&key(code), &mut model, &must_not_parse).unwrap();
        assert_eq!(input_of(&popup).cursor(), expected, "{:?}", code);
        assert_eq!(input_of(&popup).lines(), vec!["Xb-c".to_string()]);
    }
    let shifted = KeyEvent::new(KeyCode::Char('Q'), KeyModifiers::shift());
    let popup = popup.handle_key_event(&shifted, &mut model, &must_not_parse).unwrap();
    assert_eq!(input_of(&popup).lines(), vec!["Xb-Qc".to_string()]);
    for code in [KeyCode::F(2), KeyCode::Insert, KeyCode::Null, KeyCode::Other, KeyCode::BackTab] {
        let same = InputPopup::new("x", InputCallback::RenameSheet { sheet_index: 0 })
            .with_text("keep")
            .handle_key_event(&key(code), &mut model, &must_not_parse)
            .unwrap();
        assert_eq!(input_of(&same).lines(), vec!["keep".to_string()]);
    }
    let released = KeyEvent { code: KeyCode::Char('z'), modifiers: KeyModifiers::none(), kind: KeyEventKind::Release };
    let same = InputPopup::new("x", InputCallback::RenameSheet { sheet_index: 0 })
        .with_text("keep")
        .handle_key_event(&released, &mut model, &must_not_parse)
        .unwrap();
    assert_eq!(input_of(&same).lines(), vec!["keep".to_string()]);
    assert_eq!(summary(&model), summary(&books()));
}

#[test]
fn escape_discards_the_text_and_calls_nothing() {
    let callbacks = [
        InputCallback::RenameSheet { sheet_index: 1 },
        InputCallback::UpdateMember { sheet_index: 0, row: 0, col: 1 },
        InputCallback::UpdateMember { sheet_index: 0, row: 0, col: 2 },
        InputCallback::NewRowDate { sheet_index: 0, row: 1 },
        InputCallback::NewRowAmount {
            sheet_index: 0,
            row: 1,
            date: NaiveDate::from_ymd_opt(2024, 2, 2).unwrap(),
            label: "x".to_string(),
        },
    ];
    for callback in callbacks {
        let mut model = books();
        let popup = InputPopup::new("x", callback).with_text("12");
        let popup = type_text(popup, "34", &mut model);
        assert!(popup.handle_key_event(&key(KeyCode::Esc), &mut model, &must_not_parse).is_none());
        assert_eq!(summary(&model), summary(&books()));
        assert_eq!(f64::from_bits(model.main_sheet.transactions[0].amount.bits), 1.0);
    }
}

#[test]
fn a_submitted_name_is_the_name_of_the_sheet() {
    let mut model = books();
    let popup = InputPopup::new("Rename sheet", InputCallback::RenameSheet { sheet_index: 2 }).with_text("Sheet2");
    let popup = type_text(popup, " (old)", &mut model);
    assert!(popup.handle_key_event(&key(KeyCode::Enter), &mut model, &must_not_parse).is_none());
    assert_eq!(
        model.sheet_titles(),
        vec!["Sheet0".to_string(), "Sheet1".to_string(), "Sheet2 (old)".to_string()]
    );
}

#[test]
fn a_submitted_text_of_several_lines_is_joined() {
    let mut model = books();
    let popup = InputPopup::new("Rename sheet", InputCallback::RenameSheet { sheet_index: 0 }).with_text("one");
    let newline = KeyEvent::new(KeyCode::Char('m'), KeyModifiers::control());
    let popup = popup.handle_key_event(&newline, &mut model, &must_not_parse).unwrap();
    let popup = type_text(popup, "two", &mut model);
    assert_eq!(input_of(&popup).lines(), vec!["one".to_string(), "two".to_string()]);
    assert!(popup.handle_key_event(&key(KeyCode::Enter), &mut model, &must_not_parse).is_none());
    assert_eq!(model.main_sheet.name, "one two");
}

#[test]
fn a_submitted_label_is_the_label_of_the_row() {
    let mut model = books();
    let popup = InputPopup::new("Insert/Update value", InputCallback::UpdateMember { sheet_index: 0, row: 1, col: 1 })
        .with_text("b");
    let popup = type_text(popup, "read", &mut model);
    assert!(popup.handle_key_event(&key(KeyCode::Enter), &mut model, &must_not_parse).is_none());
    assert_eq!(summary(&model)[0].1, vec!["a".to_string(), "bread".to_string()]);
}

#[test]
fn a_submitted_date_or_amount_is_parsed() {
    let mut model = books();
    let popup = InputPopup::new("v", InputCallback::UpdateMember { sheet_index: 1, row: 0, col: 0 }).with_text("2023-07-09");
    assert!(popup.handle_key_event(&key(KeyCode::Enter), &mut model, &must_not_parse).is_none());
    assert_eq!(model.sheets[0].transactions[0].date, NaiveDate::from_ymd_opt(2023, 7, 9).unwrap());
    let popup = InputPopup::new("v", InputCallback::UpdateMember { sheet_index: 1, row: 0, col: 2 }).with_text("-7.25");
    assert!(popup.handle_key_event(&key(KeyCode::Enter), &mut model, &amount_of).is_none());
    assert_eq!(f64::from_bits(model.sheets[0].transactions[0].amount.bits), -7.25);
    assert_eq!(model.sheets[0].transactions[0].amount.text, "-7.25");
    let popup = InputPopup::new("v", InputCallback::UpdateMember { sheet_index: 1, row: 0, col: 5 }).with_text("any");
    assert!(popup.handle_key_event(&key(KeyCode::Enter), &mut model, &must_not_parse).is_none());
    assert_eq!(summary(&model)[1].1, vec!["c".to_string()]);
}

#[test]
fn a_rejected_text_stays_with_a_message() {
    let mut model = books();
    let popup = InputPopup::new("v", InputCallback::UpdateMember { sheet_index: 0, row: 0, col: 0 })
        .with_subtitle("(date)")
        .with_text("2024-02-31");
    let again = popup.handle_key_event(&key(KeyCode::Enter), &mut model, &must_not_parse).unwrap();
    let inner = input_of(&again);
    assert_eq!(inner.error(), Some(&"Date is out of range".to_string()));
    assert_eq!(inner.lines(), vec!["2024-02-31".to_string()]);
    assert_eq!(inner.title(), "v");
    assert_eq!(inner.subtitle(), Some(&"(date)".to_string()));
    assert_eq!(model.main_sheet.transactions[0].date, NaiveDate::from_ymd_opt(2024, 1, 1).unwrap());
    let again = again.handle_key_event(&key(KeyCode::Backspace), &mut model, &must_not_parse).unwrap();
    let again = again.handle_key_event(&key(KeyCode::Backspace), &mut model, &must_not_parse).unwrap();
    let again = type_text(again, "29", &mut model);
    assert!(again.handle_key_event(&key(KeyCode::Enter), &mut model, &must_not_parse).is_none());
    assert_eq!(model.main_sheet.transactions[0].date, NaiveDate::from_ymd_opt(2024, 2, 29).unwrap());
    let popup = InputPopup::new("v", InputCallback::UpdateMember { sheet_index: 0, row: 0, col: 2 }).with_text("1,5");
    let again = popup.handle_key_event(&key(KeyCode::Enter), &mut model, &amount_of).unwrap();
    assert_eq!(input_of(&again).error(), Some(&"invalid float literal".to_string()));
    assert_eq!(input_of(&again).lines(), vec!["1,5".to_string()]);
    assert_eq!(f64::from_bits(model.main_sheet.transactions[0].amount.bits), 1.0);
}

#[test]
fn a_new_row_is_asked_for_in_three_steps() {
    let mut model = books();
    let first = ask_date(0, 1);
    assert_eq!(input_of(&first).title(), "Insert row");
    assert_eq!(input_of(&first).subtitle(), Some(&"(Date - leave blank for today)".to_string()));
    let first = type_text(first, "2024-05-06", &mut model);
    let second = first.handle_key_event(&key(KeyCode::Enter), &mut model, &must_not_parse).unwrap();
    assert_eq!(input_of(&second).subtitle(), Some(&"(Label)".to_string()));
    assert_eq!(input_of(&second).lines(), vec!["".to_string()]);
    assert!(matches!(
        input_of(&second).on_submit,
        InputCallback::NewRowLabel { sheet_index: 0, row: 1, .. }
    ));
    let second = type_text(second, "cake", &mut model);
    let third = second.handle_key_event(&key(KeyCode::Enter), &mut model, &must_not_parse).unwrap();
    assert_eq!(input_of(&third).subtitle(), Some(&"(Amount)".to_string()));
    assert_eq!(summary(&model), summary(&books()));
    let third = type_text(third, "3.5x", &mut model);
    let third = third.handle_key_event(&key(KeyCode::Enter), &mut model, &amount_of).unwrap();
    assert_eq!(input_of(&third).error(), Some(&"invalid float literal".to_string()));
    assert_eq!(summary(&model), summary(&books()));
    let third = third.handle_key_event(&key(KeyCode::Backspace), &mut model, &must_not_parse).unwrap();
    assert!(third.handle_key_event(&key(KeyCode::Enter), &mut model, &amount_of).is_none());
    assert_eq!(summary(&model)[0].1, vec!["a".to_string(), "cake".to_string(), "b".to_string()]);
    let row = &model.main_sheet.transactions[1];
    assert_eq!(row.date, NaiveDate::from_ymd_opt(2024, 5, 6).unwrap());
    assert_eq!(f64::from_bits(row.amount.bits), 3.5);
    assert_eq!(row.amount.text, "3.5");
}

#[test]
fn a_blank_date_is_today() {
    let mut model = books();
    let before = chrono::Local::now().date_naive();
    let second = ask_date(1, 0).handle_key_event(&key(KeyCode::Enter), &mut model, &must_not_parse).unwrap();
    let after = chrono::Local::now().date_naive();
    match &input_of(&second).on_submit {
        InputCallback::NewRowLabel { sheet_index, row, date } => {
            assert_eq!((*sheet_index, *row), (1, 0));
            assert!(before <= *date && *date <= after);
        }
        _ => panic!("not the label step"),
    }
}

#[test]
fn a_wrong_date_is_asked_for_again() {
    let mut model = books();
    let first = type_text(ask_date(0, 0), "soon", &mut model);
    let again = first.handle_key_event(&key(KeyCode::Enter), &mut model, &must_not_parse).unwrap();
    assert_eq!(input_of(&again).error(), Some(&"Invalid characters found".to_string()));
    assert_eq!(input_of(&again).lines(), vec!["soon".to_string()]);
    assert!(matches!(input_of(&again).on_submit, InputCallback::NewRowDate { sheet_index: 0, row: 0 }));
}

#[test]
fn the_later_steps_can_be_opened_directly() {
    let date = NaiveDate::from_ymd_opt(2020, 2, 29).unwrap();
    let label = ask_label(2, 1, date);
    assert!(matches!(input_of(&label).on_submit, InputCallback::NewRowLabel { sheet_index: 2, row: 1, .. }));
    let mut model = books();
    let amount = type_text(ask_amount(2, 1, date, "leap".to_string()), "29", &mut model);
    assert!(amount.handle_key_event(&key(KeyCode::Enter), &mut model, &amount_of).is_none());
    assert_eq!(summary(&model)[2].1, vec!["d".to_string(), "leap".to_string()]);
    assert_eq!(model.sheets[1].transactions[1].date, date);
    assert_eq!(model.sheets[1].transactions[1].amount.text, "29");
}

#[test]
fn the_cursor_goes_from_line_to_line() {
    let mut model = books();
    let newline = KeyEvent::new(KeyCode::Char('m'), KeyModifiers::control());
    let mut popup = InputPopup::new("x", InputCallback::RenameSheet { sheet_index: 0 }).with_text("abcd");
    popup = popup.handle_key_event(&newline, &mut model, &must_not_parse).unwrap();
    popup = type_text(popup, "ef", &mut model);
    assert_eq!(input_of(&popup).lines(), vec!["abcd".to_string(), "ef".to_string()]);
    assert_eq!(input_of(&popup).cursor(), (1, 2));
    for (code, expected) in [
        (KeyCode::Right, (1, 2)),
        (KeyCode::Down, (1, 2)),
        (KeyCode::Up, (0, 2)),
        (KeyCode::Up, (0, 2)),
        (KeyCode::End, (0, 4)),
        (KeyCode::Down, (1, 2)),
        (KeyCode::Home, (1, 0)),
        (KeyCode::Left, (0, 4)),
        (KeyCode::Right, (1, 0)),
        (KeyCode::Right, (1, 1)),
        (KeyCode::Left, (1, 0)),
    ] {
        popup = popup.handle_key_event(&key(code), &mut model, &must_not_parse).unwrap();
        assert_eq!(input_of(&popup).cursor(), expected, "{:?}", code);
        assert_eq!(input_of(&popup).lines(), vec!["abcd".to_string(), "ef".to_string()]);
    }
    popup = popup.handle_key_event(&key(KeyCode::Delete), &mut model, &must_not_parse).unwrap();
    assert_eq!(input_of(&popup).lines(), vec!["abcd".to_string(), "f".to_string()]);
    assert_eq!(input_of(&popup).cursor(), (1, 0));
    popup = popup.handle_key_event(&key(KeyCode::End), &mut model, &must_not_parse).unwrap();
    popup = popup.handle_key_event(&key(KeyCode::Delete), &mut model, &must_not_parse).unwrap();
    assert_eq!(input_of(&popup).lines(), vec!["abcd".to_string(), "f".to_string()]);
    assert_eq!(input_of(&popup).cursor(), (1, 1));
}

#[test]
fn a_message_is_never_empty() {
    let mut model = books();
    for (col, text) in [(0, ""), (0, "x"), (0, "2024-01-01x"), (2, ""), (2, "x"), (2, "1..2")] {
        let popup = InputPopup::new("v", InputCallback::UpdateMember { sheet_index: 0, row: 0, col })
            .with_text(text);
        let again = popup.handle_key_event(&key(KeyCode::Enter), &mut model, &amount_of).unwrap();
        assert!(!input_of(&again).error().unwrap().is_empty(), "{:?}", text);
    }
}
