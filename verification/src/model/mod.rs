//! The sheets and their transactions. Nothing here knows of keys or cursors.
use std::num::ParseFloatError;
use vstd::prelude::*;

pub mod dates;
pub mod error;
pub mod sheets;

pub use error::Error;
pub use error::ParseTransactionMemberError;
pub use sheets::Amount;
pub use sheets::Sheet;
pub use sheets::Transaction;

use crate::strings::decimal_text;
use crate::strings::push_decimal;
use dates::parsed_date;
use sheets::outcome_message;
use sheets::parser_total;
use sheets::parses;
use sheets::transaction_views;
use sheets::SheetView;
use sheets::TransactionView;

verus! {

/// The id of a sheet: its name.
pub type SheetId = String;

/// The internal state of the program.
#[derive(Debug)]
pub struct Model {
    /// The main sheet: the one that all other sheets feed into.
    pub main_sheet: Sheet,
    /// The secondary sheets: single accounts, events and the like.
    pub sheets: Vec<Sheet>,
    /// The file being worked on, if any. Without one the work is not saved.
    pub filename: Option<String>,
}

/// The model as a mathematical value. Sheet 0 is the main sheet, sheet `i`
/// for `i >= 1` is the secondary sheet `i - 1`.
pub struct ModelView {
    pub main_sheet: SheetView,
    pub sheets: Seq<SheetView>,
    pub filename: Option<Seq<char>>,
}

/// The values of a run of sheets.
pub open spec fn sheet_views(sheets: Seq<Sheet>) -> Seq<SheetView> {
    Seq::new(sheets.len(), |i: int| sheets[i]@)
}

/// The value of an optional string.
pub open spec fn text_view(text: Option<String>) -> Option<Seq<char>> {
    match text {
        Some(s) => Some(s@),
        None => None,
    }
}

impl View for Model {
    type V = ModelView;

    open spec fn view(&self) -> ModelView {
        ModelView {
            main_sheet: self.main_sheet@,
            sheets: sheet_views(self.sheets@),
            filename: text_view(self.filename),
        }
    }
}

impl ModelView {
    /// The number of sheets, the main sheet included.
    pub open spec fn count(self) -> nat {
        1 + self.sheets.len()
    }

    /// The sheet with the given index.
    pub open spec fn sheet(self, index: int) -> SheetView {
        if index == 0 {
            self.main_sheet
        } else {
            self.sheets[index - 1]
        }
    }

    /// Whether `(sheet_index, row)` names a transaction.
    pub open spec fn has_row(self, sheet_index: int, row: int) -> bool {
        0 <= sheet_index < self.count() && 0 <= row < self.sheet(sheet_index).len()
    }

    /// The model with sheet `index` replaced.
    pub open spec fn with_sheet(self, index: int, sheet: SheetView) -> ModelView {
        if index == 0 {
            ModelView { main_sheet: sheet, ..self }
        } else {
            ModelView { sheets: self.sheets.update(index - 1, sheet), ..self }
        }
    }

    /// The model with the rows of sheet `index` replaced.
    pub open spec fn with_rows(self, index: int, rows: Seq<TransactionView>) -> ModelView {
        self.with_sheet(index, SheetView { transactions: rows, ..self.sheet(index) })
    }

    /// The model with sheet `index` renamed.
    pub open spec fn with_name(self, index: int, name: Seq<char>) -> ModelView {
        self.with_sheet(index, SheetView { name, ..self.sheet(index) })
    }

    /// The model with one transaction replaced.
    pub open spec fn with_transaction(
        self,
        sheet_index: int,
        row: int,
        transaction: TransactionView,
    ) -> ModelView {
        self.with_rows(
            sheet_index,
            self.sheet(sheet_index).transactions.update(row, transaction),
        )
    }

    /// The model after the cell `(sheet_index, row, col)` was given the text
    /// `new`, and what the user is told. Column 0 is the date, 1 the label,
    /// 2 the amount (`parsed` is what the number parser made of `new`); any
    /// other column takes the text and changes nothing.
    pub open spec fn edited(
        self,
        sheet_index: int,
        row: int,
        col: int,
        new: Seq<char>,
        parsed: Result<Amount, ParseFloatError>,
    ) -> (ModelView, Option<Seq<char>>) {
        let before = self.sheet(sheet_index).transactions[row];
        if col == 0 {
            let (next, message) = before.with_parsed_date(parsed_date(new));
            (self.with_transaction(sheet_index, row, next), message)
        } else if col == 1 {
            (
                self.with_transaction(sheet_index, row, TransactionView { label: new, ..before }),
                None,
            )
        } else if col == 2 {
            let (next, message) = before.with_parsed_amount(parsed);
            (self.with_transaction(sheet_index, row, next), message)
        } else {
            (self, None)
        }
    }

    /// The model with one more secondary sheet: named by its number, with a
    /// single empty transaction of the given date.
    pub open spec fn with_new_sheet(self, date: chrono::NaiveDate) -> ModelView {
        ModelView {
            sheets: self.sheets.push(
                SheetView {
                    name: default_name(self.count()),
                    transactions: seq![
                        TransactionView {
                            label: Seq::empty(),
                            date,
                            amount: sheets::AmountView::zero(),
                        },
                    ],
                },
            ),
            ..self
        }
    }

    /// The names of all sheets, in order.
    pub open spec fn titles(self) -> Seq<Seq<char>> {
        Seq::new(self.count(), |i: int| self.sheet(i).name)
    }
}

/// A run of rows with the rows `a` and `b` exchanged.
pub open spec fn swapped(rows: Seq<TransactionView>, a: int, b: int) -> Seq<TransactionView> {
    rows.update(a, rows[b]).update(b, rows[a])
}

/// The name that a new sheet gets when `n` secondary sheets exist already.
pub open spec fn default_name(n: nat) -> Seq<char> {
    "Sheet"@ + decimal_text(n)
}

/// Whether a model and a message are what an edit of one cell leaves, given
/// `parsed` as the answer of the number parser (asked only for column 2).
pub open spec fn edit_outcome<P: Fn(String) -> Result<Amount, ParseFloatError>>(
    parse: P,
    before: ModelView,
    sheet_index: int,
    row: int,
    col: int,
    new: Seq<char>,
    parsed: Result<Amount, ParseFloatError>,
    after: ModelView,
    told: Option<Seq<char>>,
) -> bool {
    &&& col == 2 ==> parses(parse, new, parsed)
    &&& after == before.edited(sheet_index, row, col, new, parsed).0
    &&& told == before.edited(sheet_index, row, col, new, parsed).1
}

/// The label and the amount of row `i` of the sample account that stands in
/// for a file's contents: five rows that repeat.
pub open spec fn sample_row(i: int) -> (Seq<char>, sheets::AmountView) {
    if i % 5 == 0 {
        ("foo"@, sheets::AmountView { bits: 0x402e_0000_0000_0000, text: "15"@ })
    } else if i % 5 == 1 {
        ("bar"@, sheets::AmountView { bits: 0x4034_0000_0000_0000, text: "20"@ })
    } else if i % 5 == 3 {
        ("baz"@, sheets::AmountView { bits: 0xc094_39c2_5aee_6320, text: "-1294.4398"@ })
    } else {
        ("baz"@, sheets::AmountView { bits: 0x4094_39c2_5aee_6320, text: "1294.4398"@ })
    }
}

/// Whether a sheet is the sample main sheet: "Sheet0", 21 empty rows.
pub open spec fn is_sample_main(sheet: SheetView) -> bool {
    &&& sheet.name == "Sheet0"@
    &&& sheet.len() == 21
    &&& forall|i: int|
        0 <= i < 21 ==> (#[trigger] sheet.transactions[i]).label == Seq::<char>::empty()
            && sheet.transactions[i].amount == sheets::AmountView::zero()
}

/// Whether a sheet is the sample account: "Sheet1", 105 rows as
/// [`sample_row`] lists them.
pub open spec fn is_sample_account(sheet: SheetView) -> bool {
    &&& sheet.name == "Sheet1"@
    &&& sheet.len() == 105
    &&& forall|i: int|
        0 <= i < 105 ==> (#[trigger] sheet.transactions[i]).label == sample_row(i).0
            && sheet.transactions[i].amount == sample_row(i).1
}

/// Putting a transaction where it already stands changes nothing.
pub proof fn lemma_same_transaction(model: ModelView, sheet_index: int, row: int)
    requires
        model.has_row(sheet_index, row),
    ensures
        model.with_transaction(
            sheet_index,
            row,
            model.sheet(sheet_index).transactions[row],
        ) == model,
{
    let sheet = model.sheet(sheet_index);
    assert(sheet.transactions.update(row, sheet.transactions[row]) =~= sheet.transactions);
    if sheet_index > 0 {
        assert(model.sheets.update(sheet_index - 1, sheet) =~= model.sheets);
    }
}

impl Model {
    /// What must hold of a model: its sheets can be counted.
    pub open spec fn wf(&self) -> bool {
        self.sheets@.len() < usize::MAX
    }

    /// A new session. Without a file name it is a scratch session: one main
    /// sheet "Sheet0" with a single empty row. With a file name the sheets
    /// are the sample ones; reading the file itself is left to the host.
    pub fn new(filename: Option<String>) -> (r: Model)
        ensures
            r.wf(),
            r@.filename == text_view(filename),
            filename is None ==> {
                &&& r@.sheets.len() == 0
                &&& r@.main_sheet.name == "Sheet0"@
                &&& r@.main_sheet.len() == 1
                &&& r@.main_sheet.transactions[0].label == Seq::<char>::empty()
                &&& r@.main_sheet.transactions[0].amount == sheets::AmountView::zero()
            },
            filename is Some ==> {
                &&& r@.sheets.len() == 1
                &&& is_sample_main(r@.main_sheet)
                &&& is_sample_account(r@.sheets[0])
            },
    {
        match filename {
            Some(filename) => {
                let (main_sheet, sheets) = Self::load_sheets(filename.as_str());
                Model { main_sheet, sheets, filename: Some(filename) }
            },
            None => {
                let mut rows: Vec<Transaction> = Vec::new();
                rows.push(Transaction::default());
                Model {
                    main_sheet: Sheet::new("Sheet0".to_string(), rows),
                    sheets: Vec::new(),
                    filename: None,
                }
            },
        }
    }

    /// The sheets of a file. No file is read yet: the result is the sample
    /// main sheet and one sample account, dated today.
    fn load_sheets(filename: &str) -> (r: (Sheet, Vec<Sheet>))
        ensures
            is_sample_main(r.0@),
            r.1@.len() == 1,
            is_sample_account(r.1@[0]@),
    {
        let mut t_m: Vec<Transaction> = Vec::new();
        let mut t_s: Vec<Transaction> = Vec::new();
        let mut round: usize = 0;
        while round < 21
            invariant
                round <= 21,
                t_m@.len() == round,
                t_s@.len() == 5 * round,
                forall|i: int|
                    0 <= i < t_m@.len() ==> (#[trigger] t_m@[i])@.label == Seq::<char>::empty()
                        && t_m@[i]@.amount == sheets::AmountView::zero(),
                forall|i: int|
                    0 <= i < t_s@.len() ==> (#[trigger] t_s@[i])@.label == sample_row(i).0
                        && t_s@[i]@.amount == sample_row(i).1,
            decreases 21 - round,
        {
            t_m.push(Transaction::default());
            t_s.push(
                Transaction {
                    label: "foo".to_string(),
                    date: dates::today(),
                    amount: Amount::new(0x402e_0000_0000_0000, "15".to_string()),
                },
            );
            t_s.push(
                Transaction {
                    label: "bar".to_string(),
                    date: dates::today(),
                    amount: Amount::new(0x4034_0000_0000_0000, "20".to_string()),
                },
            );
            t_s.push(
                Transaction {
                    label: "baz".to_string(),
                    date: dates::today(),
                    amount: Amount::new(0x4094_39c2_5aee_6320, "1294.4398".to_string()),
                },
            );
            t_s.push(
                Transaction {
                    label: "baz".to_string(),
                    date: dates::today(),
                    amount: Amount::new(0xc094_39c2_5aee_6320, "-1294.4398".to_string()),
                },
            );
            t_s.push(
                Transaction {
                    label: "baz".to_string(),
                    date: dates::today(),
                    amount: Amount::new(0x4094_39c2_5aee_6320, "1294.4398".to_string()),
                },
            );
            round += 1;
        }
        let main_sheet = Sheet::new("Sheet0".to_string(), t_m);
        let account = Sheet::new("Sheet1".to_string(), t_s);
        let mut sheets: Vec<Sheet> = Vec::new();
        sheets.push(account);
        (main_sheet, sheets)
    }

    /// Returns the titles of all the sheets.
    pub fn sheet_titles(&self) -> (titles: Vec<String>)
        ensures
            titles@.len() == self@.count(),
            forall|i: int| 0 <= i < titles@.len() ==> (#[trigger] titles@[i])@ == self@.sheet(i).name,
    {
        let mut titles: Vec<String> = Vec::new();
        titles.push(self.main_sheet.name.clone());
        let mut i: usize = 0;
        while i < self.sheets.len()
            invariant
                i <= self.sheets.len(),
                titles@.len() == i + 1,
                forall|j: int|
                    0 <= j < titles@.len() ==> (#[trigger] titles@[j])@ == self@.sheet(j).name,
            decreases self.sheets.len() - i,
        {
            titles.push(self.sheets[i].name.clone());
            i += 1;
        }
        titles
    }

    /// Gets a sheet by index, where 0 is the main sheet and `i >= 1` the
    /// secondary sheet `i - 1`.
    pub fn get_sheet(&self, index: usize) -> (r: Option<&Sheet>)
        ensures
            index < self@.count() <==> r is Some,
            r matches Some(sheet) ==> sheet@ == self@.sheet(index as int) && *sheet == (if index
                == 0 {
                self.main_sheet
            } else {
                self.sheets@[index - 1]
            }),
    {
        if index == 0 {
            Some(&self.main_sheet)
        } else if index - 1 < self.sheets.len() {
            Some(&self.sheets[index - 1])
        } else {
            None
        }
    }

    /// Gets a sheet by index for changing it in place.
    pub fn get_sheet_mut(&mut self, index: usize) -> (r: Option<&mut Sheet>)
        ensures
            index < old(self)@.count() <==> r is Some,
            r is None ==> *final(self) == *old(self),
            r matches Some(sheet) ==> {
                &&& sheet@ == old(self)@.sheet(index as int)
                &&& final(self)@ == old(self)@.with_sheet(index as int, final(sheet)@)
                &&& final(self).sheets@.len() == old(self).sheets@.len()
            },
    {
        if index == 0 {
            Some(&mut self.main_sheet)
        } else if index - 1 < self.sheets.len() {
            let ghost before = self.sheets@;
            let sheet = &mut self.sheets[index - 1];
            proof {
                assert(sheet_views(before.update(index - 1, *final(sheet))) =~= sheet_views(
                    before,
                ).update(index - 1, final(sheet)@));
            }
            Some(sheet)
        } else {
            None
        }
    }

    /// The sheet with the given index, which must exist, for changing it in
    /// place.
    pub(crate) fn sheet_mut(&mut self, index: usize) -> (sheet: &mut Sheet)
        requires
            index < old(self)@.count(),
        ensures
            sheet@ == old(self)@.sheet(index as int),
            final(self)@ == old(self)@.with_sheet(index as int, final(sheet)@),
            final(self).sheets@.len() == old(self).sheets@.len(),
    {
        if index == 0 {
            &mut self.main_sheet
        } else {
            let ghost before = self.sheets@;
            let sheet = &mut self.sheets[index - 1];
            proof {
                assert(sheet_views(before.update(index - 1, *final(sheet))) =~= sheet_views(
                    before,
                ).update(index - 1, final(sheet)@));
            }
            sheet
        }
    }

    /// The main sheet, for changing it in place.
    pub fn get_main_sheet_mut(&mut self) -> (r: &mut Sheet)
        ensures
            *r == old(self).main_sheet,
            *final(self) == (Model { main_sheet: *final(r), ..*old(self) }),
    {
        &mut self.main_sheet
    }

    /// The main sheet.
    pub fn get_main_sheet(&self) -> (r: &Sheet)
        ensures
            *r == self.main_sheet,
    {
        &self.main_sheet
    }

    /// Pushes a new sheet to the list of secondary sheets, named "Sheet"
    /// followed by its index.
    pub fn create_sheet(&mut self)
        requires
            old(self)@.count() < usize::MAX,
        ensures
            final(self).wf(),
            exists|date: chrono::NaiveDate| final(self)@ == old(self)@.with_new_sheet(date),
    {
        let mut name = "Sheet".to_string();
        push_decimal(&mut name, self.sheets.len() + 1);
        let first = Transaction::default();
        let mut rows: Vec<Transaction> = Vec::new();
        let ghost date = first.date;
        rows.push(first);
        let ghost before = self.sheets@;
        let sheet = Sheet::new(name, rows);
        self.sheets.push(sheet);
        proof {
            assert(sheet@.transactions =~= old(self)@.with_new_sheet(date).sheets.last().transactions);
            assert(sheet_views(before.push(sheet)) =~= sheet_views(before).push(sheet@));
        }
    }

    /// Removes the secondary sheet with the given index. The main sheet
    /// cannot be removed.
    pub fn delete_sheet(&mut self, index: usize)
        requires
            0 < index < old(self)@.count(),
        ensures
            final(self).sheets@.len() == old(self).sheets@.len() - 1,
            final(self)@ == (ModelView {
                sheets: old(self)@.sheets.remove(index - 1),
                ..old(self)@
            }),
    {
        let ghost before = self.sheets@;
        let _ = self.sheets.remove(index - 1);
        proof {
            assert(sheet_views(before.remove(index - 1)) =~= sheet_views(before).remove(index - 1));
        }
    }

    /// Gives the cell `(sheet_index, row, col)` the text `new`: column 0
    /// reads it as a date, column 1 takes it as the label, column 2 hands it
    /// to the number parser. A text that its column cannot hold changes
    /// nothing and comes back as a message.
    pub fn update_transaction_member<P: Fn(String) -> Result<Amount, ParseFloatError>>(
        &mut self,
        sheet_index: usize,
        row: usize,
        col: usize,
        new: String,
        parse: &P,
    ) -> (r: Result<(), ParseTransactionMemberError>)
        requires
            old(self)@.has_row(sheet_index as int, row as int),
            parser_total(*parse),
        ensures
            final(self).sheets@.len() == old(self).sheets@.len(),
            r matches Err(e) ==> e@.len() > 0,
            exists|parsed: Result<Amount, ParseFloatError>| #[trigger]
                edit_outcome(
                    *parse,
                    old(self)@,
                    sheet_index as int,
                    row as int,
                    col as int,
                    new@,
                    parsed,
                    final(self)@,
                    outcome_message(r),
                ),
    {
        let ghost mut witness: Result<Amount, ParseFloatError> = arbitrary();
        let ghost si = sheet_index as int;
        if col > 2 {
            assert(edit_outcome(
                *parse,
                old(self)@,
                si,
                row as int,
                col as int,
                new@,
                witness,
                self@,
                None,
            ));
            return Ok(());
        }
        let sheet = self.sheet_mut(sheet_index);
        let ghost rows = sheet.transactions@;
        let transaction = &mut sheet.transactions[row];
        proof {
            assert(transaction_views(rows.update(row as int, *final(transaction)))
                =~= transaction_views(rows).update(row as int, final(transaction)@));
        }
        let ghost before = transaction@;
        let r = if col == 0 {
            transaction.update_date(new.as_str())
        } else if col == 1 {
            transaction.update_label(new);
            Ok(())
        } else {
            let r = transaction.update_amount(new.as_str(), parse);
            proof {
                witness = choose|parsed: Result<Amount, ParseFloatError>| #[trigger]
                    parses(*parse, new@, parsed) && transaction@ == before.with_parsed_amount(
                        parsed,
                    ).0 && outcome_message(r) == before.with_parsed_amount(parsed).1;
            }
            r
        };
        proof {
            assert(edit_outcome(
                *parse,
                old(self)@,
                si,
                row as int,
                col as int,
                new@,
                witness,
                self@,
                outcome_message(r),
            ));
        }
        r
    }

    /// Exchanges a row with the one above it. The first row stays.
    pub fn move_transaction_up(&mut self, sheet_index: usize, row: usize)
        requires
            old(self)@.has_row(sheet_index as int, row as int),
        ensures
            final(self).sheets@.len() == old(self).sheets@.len(),
            final(self)@ == old(self)@.with_rows(
                sheet_index as int,
                swapped(
                    old(self)@.sheet(sheet_index as int).transactions,
                    row as int,
                    if row == 0 {
                        0
                    } else {
                        row - 1
                    },
                ),
            ),
    {
        let sheet = self.sheet_mut(sheet_index);
        let ghost rows = sheet.transactions@;
        if row > 0 {
            let moved = sheet.transactions.remove(row);
            sheet.transactions.insert(row - 1, moved);
        }
        proof {
            assert(transaction_views(sheet.transactions@) =~= swapped(
                transaction_views(rows),
                row as int,
                if row == 0 {
                    0
                } else {
                    row - 1
                },
            ));
        }
    }

    /// Exchanges a row with the one below it. The last row stays.
    pub fn move_transaction_down(&mut self, sheet_index: usize, row: usize)
        requires
            old(self)@.has_row(sheet_index as int, row as int),
        ensures
            final(self).sheets@.len() == old(self).sheets@.len(),
            final(self)@ == old(self)@.with_rows(
                sheet_index as int,
                swapped(
                    old(self)@.sheet(sheet_index as int).transactions,
                    row as int,
                    if row + 1 == old(self)@.sheet(sheet_index as int).len() {
                        row as int
                    } else {
                        row + 1
                    },
                ),
            ),
    {
        let sheet = self.sheet_mut(sheet_index);
        let ghost rows = sheet.transactions@;
        if row < sheet.transactions.len() - 1 {
            let moved = sheet.transactions.remove(row);
            sheet.transactions.insert(row + 1, moved);
        }
        proof {
            assert(transaction_views(sheet.transactions@) =~= swapped(
                transaction_views(rows),
                row as int,
                if row + 1 == rows.len() {
                    row as int
                } else {
                    row + 1
                },
            ));
        }
    }

    /// Takes a row out of a sheet and returns it.
    pub fn delete_row(&mut self, sheet_index: usize, row: usize) -> (r: Transaction)
        requires
            old(self)@.has_row(sheet_index as int, row as int),
        ensures
            final(self).sheets@.len() == old(self).sheets@.len(),
            r@ == old(self)@.sheet(sheet_index as int).transactions[row as int],
            final(self)@ == old(self)@.with_rows(
                sheet_index as int,
                old(self)@.sheet(sheet_index as int).transactions.remove(row as int),
            ),
    {
        let sheet = self.sheet_mut(sheet_index);
        let ghost rows = sheet.transactions@;
        let taken = sheet.transactions.remove(row);
        proof {
            assert(transaction_views(sheet.transactions@) =~= transaction_views(rows).remove(
                row as int,
            ));
        }
        taken
    }

    /// Puts a transaction into a sheet, before the row with the given
    /// index.
    pub fn insert_row(&mut self, sheet_index: usize, row: usize, value: Transaction)
        requires
            sheet_index < old(self)@.count(),
            row <= old(self)@.sheet(sheet_index as int).len(),
        ensures
            final(self).sheets@.len() == old(self).sheets@.len(),
            final(self)@ == old(self)@.with_rows(
                sheet_index as int,
                old(self)@.sheet(sheet_index as int).transactions.insert(row as int, value@),
            ),
    {
        let sheet = self.sheet_mut(sheet_index);
        let ghost rows = sheet.transactions@;
        sheet.transactions.insert(row, value);
        proof {
            assert(transaction_views(sheet.transactions@) =~= transaction_views(rows).insert(
                row as int,
                value@,
            ));
        }
    }

    /// A copy of a row.
    pub fn copy_row(&mut self, sheet_index: usize, row: usize) -> (r: Transaction)
        requires
            old(self)@.has_row(sheet_index as int, row as int),
        ensures
            *final(self) == *old(self),
            r@ == old(self)@.sheet(sheet_index as int).transactions[row as int],
    {
        if sheet_index == 0 {
            self.main_sheet.transactions[row].clone()
        } else {
            self.sheets[sheet_index - 1].transactions[row].clone()
        }
    }

    /// Returns the number of sheets.
    pub fn sheet_count(&self) -> (r: usize)
        requires
            self.wf(),
        ensures
            r == self@.count(),
    {
        1 + self.sheets.len()
    }
}

} // verus!
