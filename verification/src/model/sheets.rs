//! Sheets, transactions and amounts.
use super::dates::date_text;
use super::dates::parse_date_text;
use super::dates::parsed_date;
use super::dates::print_date;
use super::dates::today;
use super::error::ParseTransactionMemberError;
use chrono::NaiveDate;
use std::num::ParseFloatError;
use vstd::prelude::*;

verus! {

/// A signed amount of money. The engine never computes with amounts: it
/// stores them, copies them and shows them. So an amount is kept as the bit
/// pattern of the binary64 number (`bits`) together with the decimal text
/// that the host printed for it (`text`).
#[derive(Debug)]
pub struct Amount {
    pub bits: u64,
    pub text: String,
}

/// An amount as a mathematical value.
pub struct AmountView {
    pub bits: u64,
    pub text: Seq<char>,
}

impl View for Amount {
    type V = AmountView;

    open spec fn view(&self) -> AmountView {
        AmountView { bits: self.bits, text: self.text@ }
    }
}

impl AmountView {
    /// Positive zero, printed as `0`.
    pub open spec fn zero() -> AmountView {
        AmountView { bits: 0, text: "0"@ }
    }
}

impl Amount {
    /// The amount with the given bit pattern and decimal text.
    pub fn new(bits: u64, text: String) -> (r: Amount)
        ensures
            r@ == (AmountView { bits, text: text@ }),
    {
        Amount { bits, text }
    }

    /// Positive zero.
    pub fn zero() -> (r: Amount)
        ensures
            r@ == AmountView::zero(),
    {
        Amount { bits: 0, text: "0".to_string() }
    }
}

impl Clone for Amount {
    fn clone(&self) -> (r: Amount)
        ensures
            r@ == self@,
    {
        Amount { bits: self.bits, text: self.text.clone() }
    }
}

/// Whether `answer` is something that the host's number parser may return
/// for `text`.
pub open spec fn parses<P: Fn(String) -> Result<Amount, ParseFloatError>>(
    parse: P,
    text: Seq<char>,
    answer: Result<Amount, ParseFloatError>,
) -> bool {
    exists|t: String| t@ == text && call_ensures(parse, (t,), answer)
}

/// Whether the host's number parser accepts every text as input.
pub open spec fn parser_total<P: Fn(String) -> Result<Amount, ParseFloatError>>(parse: P) -> bool {
    forall|t: String| call_requires(parse, (t,))
}

/// A single transaction that the user can record.
#[derive(Debug)]
pub struct Transaction {
    /// Whatever label the user chooses to give it.
    pub label: String,
    /// The date of the transaction.
    pub date: NaiveDate,
    /// The amount of the transaction.
    pub amount: Amount,
}

/// A transaction as a mathematical value.
pub struct TransactionView {
    pub label: Seq<char>,
    pub date: NaiveDate,
    pub amount: AmountView,
}

impl View for Transaction {
    type V = TransactionView;

    open spec fn view(&self) -> TransactionView {
        TransactionView { label: self.label@, date: self.date, amount: self.amount@ }
    }
}

impl TransactionView {
    /// The text of the cell in column `index`: date, label, amount; nothing
    /// beyond.
    pub open spec fn member_text(self, index: int) -> Seq<char> {
        if index == 0 {
            date_text(self.date)
        } else if index == 1 {
            self.label
        } else if index == 2 {
            self.amount.text
        } else {
            Seq::empty()
        }
    }

    /// The transaction after its date was set from what the date parser made
    /// of a text, and what the user is told.
    pub open spec fn with_parsed_date(
        self,
        parsed: Result<NaiveDate, chrono::ParseError>,
    ) -> (TransactionView, Option<Seq<char>>) {
        match parsed {
            Ok(date) => (TransactionView { date, ..self }, None),
            Err(e) => (
                self,
                Some(super::error::fault_message(super::dates::date_fault(e))),
            ),
        }
    }

    /// The transaction after its amount was set from what the number parser
    /// made of a text, and what the user is told.
    pub open spec fn with_parsed_amount(
        self,
        parsed: Result<Amount, ParseFloatError>,
    ) -> (TransactionView, Option<Seq<char>>) {
        match parsed {
            Ok(amount) => (TransactionView { amount: amount@, ..self }, None),
            Err(e) => (self, Some(super::dates::float_error_text(e))),
        }
    }
}

/// What a `Result` of an edit tells the user: nothing, or the message.
pub open spec fn outcome_message(r: Result<(), ParseTransactionMemberError>) -> Option<Seq<char>> {
    match r {
        Ok(_) => None,
        Err(e) => Some(e@),
    }
}

impl Default for Transaction {
    /// An unlabelled transaction of amount zero, dated today.
    fn default() -> (r: Transaction)
        ensures
            r@.label == Seq::<char>::empty(),
            r@.amount == AmountView::zero(),
    {
        Transaction { label: String::new(), date: today(), amount: Amount::zero() }
    }
}

impl Clone for Transaction {
    fn clone(&self) -> (r: Transaction)
        ensures
            r@ == self@,
    {
        Transaction { label: self.label.clone(), date: self.date, amount: self.amount.clone() }
    }
}

impl Transaction {
    /// Replaces the label.
    pub fn update_label(&mut self, new_value: String)
        ensures
            final(self)@ == (TransactionView { label: new_value@, ..old(self)@ }),
    {
        self.label = new_value;
    }

    /// Reads `new_value` as a date (`%Y-%m-%d`) and stores it. A text that is
    /// no date leaves the transaction as it was.
    pub fn update_date(&mut self, new_value: &str) -> (r: Result<(), ParseTransactionMemberError>)
        ensures
            final(self)@ == old(self)@.with_parsed_date(parsed_date(new_value@)).0,
            outcome_message(r) == old(self)@.with_parsed_date(parsed_date(new_value@)).1,
            r matches Err(e) ==> e@.len() > 0,
    {
        match parse_date_text(new_value) {
            Ok(date) => {
                self.date = date;
                Ok(())
            },
            Err(e) => Err(ParseTransactionMemberError::from(e)),
        }
    }

    /// Stores what the number parser made of a text. A failure leaves the
    /// transaction as it was.
    pub fn set_amount(&mut self, parsed: Result<Amount, ParseFloatError>) -> (r: Result<
        (),
        ParseTransactionMemberError,
    >)
        ensures
            final(self)@ == old(self)@.with_parsed_amount(parsed).0,
            outcome_message(r) == old(self)@.with_parsed_amount(parsed).1,
            r matches Err(e) ==> e@.len() > 0,
    {
        match parsed {
            Ok(amount) => {
                self.amount = amount;
                Ok(())
            },
            Err(e) => Err(ParseTransactionMemberError::from(e)),
        }
    }

    /// Hands `new_value` to the host's number parser and stores the amount
    /// that comes back.
    pub fn update_amount<P: Fn(String) -> Result<Amount, ParseFloatError>>(
        &mut self,
        new_value: &str,
        parse: &P,
    ) -> (r: Result<(), ParseTransactionMemberError>)
        requires
            parser_total(*parse),
        ensures
            exists|parsed: Result<Amount, ParseFloatError>| #[trigger]
                parses(*parse, new_value@, parsed) && final(self)@ == old(
                    self,
                )@.with_parsed_amount(parsed).0 && outcome_message(r) == old(
                    self,
                )@.with_parsed_amount(parsed).1,
            r matches Err(e) ==> e@.len() > 0,
    {
        let text = new_value.to_string();
        let parsed = parse(text);
        assert(parses(*parse, new_value@, parsed));
        self.set_amount(parsed)
    }

    /// Reads a text as a date (`%Y-%m-%d`).
    pub fn parse_date(s: &str) -> (r: Result<NaiveDate, ParseTransactionMemberError>)
        ensures
            match parsed_date(s@) {
                Ok(date) => r == Ok::<NaiveDate, ParseTransactionMemberError>(date),
                Err(e) => r is Err && r->Err_0@ == super::error::fault_message(
                    super::dates::date_fault(e),
                ),
            },
            r matches Err(e) ==> e@.len() > 0,
    {
        match parse_date_text(s) {
            Ok(date) => Ok(date),
            Err(e) => Err(ParseTransactionMemberError::from(e)),
        }
    }

    /// Turns what the number parser made of a text into an amount or a
    /// message.
    pub fn amount_from(parsed: Result<Amount, ParseFloatError>) -> (r: Result<
        Amount,
        ParseTransactionMemberError,
    >)
        ensures
            match parsed {
                Ok(amount) => r == Ok::<Amount, ParseTransactionMemberError>(amount),
                Err(e) => r is Err && r->Err_0@ == super::dates::float_error_text(e),
            },
            r matches Err(e) ==> e@.len() > 0,
    {
        match parsed {
            Ok(amount) => Ok(amount),
            Err(e) => Err(ParseTransactionMemberError::from(e)),
        }
    }

    /// Hands a text to the host's number parser.
    pub fn parse_amount<P: Fn(String) -> Result<Amount, ParseFloatError>>(s: &str, parse: &P) -> (r:
        Result<Amount, ParseTransactionMemberError>)
        requires
            parser_total(*parse),
        ensures
            exists|parsed: Result<Amount, ParseFloatError>| #[trigger]
                parses(*parse, s@, parsed) && match parsed {
                    Ok(amount) => r == Ok::<Amount, ParseTransactionMemberError>(amount),
                    Err(e) => r is Err && r->Err_0@ == super::dates::float_error_text(e),
                },
            r matches Err(e) ==> e@.len() > 0,
    {
        let parsed = parse(s.to_string());
        assert(parses(*parse, s@, parsed));
        Self::amount_from(parsed)
    }

    /// The text of the cell in column `index`. A date is printed on one
    /// line.
    pub fn member_text(&self, index: usize) -> (r: String)
        ensures
            r@ == self@.member_text(index as int),
            index == 0 ==> !r@.contains('\n') && !r@.contains('\r'),
    {
        if index == 0 {
            print_date(&self.date)
        } else if index == 1 {
            self.label.clone()
        } else if index == 2 {
            self.amount.text.clone()
        } else {
            String::new()
        }
    }
}

/// A single sheet, representing any series of transactions the user wants to
/// record.
#[derive(Debug)]
pub struct Sheet {
    /// The name of the sheet.
    pub name: String,
    /// All of the transactions recorded in the sheet.
    pub transactions: Vec<Transaction>,
}

/// A sheet as a mathematical value.
pub struct SheetView {
    pub name: Seq<char>,
    pub transactions: Seq<TransactionView>,
}

/// The values of a run of transactions.
pub open spec fn transaction_views(transactions: Seq<Transaction>) -> Seq<TransactionView> {
    Seq::new(transactions.len(), |i: int| transactions[i]@)
}

impl View for Sheet {
    type V = SheetView;

    open spec fn view(&self) -> SheetView {
        SheetView { name: self.name@, transactions: transaction_views(self.transactions@) }
    }
}

impl SheetView {
    /// The number of rows.
    pub open spec fn len(self) -> nat {
        self.transactions.len()
    }
}

impl Sheet {
    /// A sheet of the given name and rows.
    pub fn new(name: String, transactions: Vec<Transaction>) -> (r: Sheet)
        ensures
            r@ == (SheetView { name: name@, transactions: transaction_views(transactions@) }),
    {
        Sheet { name, transactions }
    }
}

impl Clone for Sheet {
    fn clone(&self) -> (r: Sheet)
        ensures
            r@ == self@,
    {
        let mut transactions: Vec<Transaction> = Vec::new();
        let mut i: usize = 0;
        while i < self.transactions.len()
            invariant
                i <= self.transactions.len(),
                transactions.len() == i,
                forall|j: int| 0 <= j < i ==> transactions@[j]@ == self.transactions@[j]@,
            decreases self.transactions.len() - i,
        {
            transactions.push(self.transactions[i].clone());
            i += 1;
        }
        assert(transaction_views(transactions@) =~= transaction_views(self.transactions@));
        Sheet { name: self.name.clone(), transactions }
    }
}

} // verus!
