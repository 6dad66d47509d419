//! What can go wrong when a cell is edited.
use super::dates::date_fault;
use super::dates::fault_of;
use super::dates::float_error_text;
use super::dates::print_float_error;
use super::dates::DateFault;
use chrono::ParseError;
use std::num::ParseFloatError;
use vstd::prelude::*;

verus! {

/// The sentence shown to the user for each category of date error.
pub open spec fn fault_message(fault: DateFault) -> Seq<char> {
    match fault {
        DateFault::OutOfRange => "Date is out of range"@,
        DateFault::Impossible => "Date is impossible"@,
        DateFault::NotEnough => "Not enough information"@,
        DateFault::Invalid => "Invalid characters found"@,
        DateFault::TooShort => "Input too short"@,
        DateFault::TooLong => "Input too long"@,
        DateFault::BadFormat => "Bad format"@,
        DateFault::Unlisted => "Error parsing date from input"@,
    }
}

/// Every category of date error has a sentence that is not empty.
pub proof fn lemma_fault_message_not_empty(fault: DateFault)
    ensures
        fault_message(fault).len() > 0,
{
    reveal_strlit("Date is out of range");
    reveal_strlit("Date is impossible");
    reveal_strlit("Not enough information");
    reveal_strlit("Invalid characters found");
    reveal_strlit("Input too short");
    reveal_strlit("Input too long");
    reveal_strlit("Bad format");
    reveal_strlit("Error parsing date from input");
}

/// The sentence for a category of date error, as an owned string.
pub fn message_for(fault: DateFault) -> (r: String)
    ensures
        r@ == fault_message(fault),
        r@.len() > 0,
{
    proof {
        lemma_fault_message_not_empty(fault);
    }
    match fault {
        DateFault::OutOfRange => "Date is out of range".to_string(),
        DateFault::Impossible => "Date is impossible".to_string(),
        DateFault::NotEnough => "Not enough information".to_string(),
        DateFault::Invalid => "Invalid characters found".to_string(),
        DateFault::TooShort => "Input too short".to_string(),
        DateFault::TooLong => "Input too long".to_string(),
        DateFault::BadFormat => "Bad format".to_string(),
        DateFault::Unlisted => "Error parsing date from input".to_string(),
    }
}

/// A text that could not be read as the date or the amount of a transaction.
/// The message is for the user; nothing else is recorded.
#[derive(Debug)]
pub struct ParseTransactionMemberError {
    pub message: String,
}

impl View for ParseTransactionMemberError {
    type V = Seq<char>;

    open spec fn view(&self) -> Seq<char> {
        self.message@
    }
}

impl ParseTransactionMemberError {
    /// The message, as `Display` would print it.
    pub fn to_text(&self) -> (r: String)
        ensures
            r@ == self@,
    {
        self.message.clone()
    }
}

impl vstd::std_specs::convert::FromSpecImpl<ParseError> for ParseTransactionMemberError {
    open spec fn obeys_from_spec() -> bool {
        false
    }

    open spec fn from_spec(v: ParseError) -> Self {
        choose|e: Self| e@ == fault_message(date_fault(v))
    }
}

impl From<ParseError> for ParseTransactionMemberError {
    /// A date error becomes the sentence of its category.
    fn from(value: ParseError) -> (r: Self)
        ensures
            r@ == fault_message(date_fault(value)),
            r@.len() > 0,
    {
        let fault = fault_of(&value);
        ParseTransactionMemberError { message: message_for(fault) }
    }
}

impl vstd::std_specs::convert::FromSpecImpl<ParseFloatError> for ParseTransactionMemberError {
    open spec fn obeys_from_spec() -> bool {
        false
    }

    open spec fn from_spec(v: ParseFloatError) -> Self {
        choose|e: Self| e@ == float_error_text(v)
    }
}

impl From<ParseFloatError> for ParseTransactionMemberError {
    /// A number error becomes what the standard library prints for it.
    fn from(value: ParseFloatError) -> (r: Self)
        ensures
            r@ == float_error_text(value),
            r@.len() > 0,
    {
        ParseTransactionMemberError { message: print_float_error(&value) }
    }
}

/// The errors of the model.
#[derive(Debug)]
pub enum Error {
    /// A cell was given a text that its column cannot hold.
    UpdateTransactionMemberError { message: String },
    /// A row could not be moved.
    MoveRowError,
}

impl Error {
    /// What `Display` would print for the error.
    pub open spec fn text(&self) -> Seq<char> {
        match self {
            Error::UpdateTransactionMemberError { message } => message@,
            Error::MoveRowError => "There was a problem when moving the row"@,
        }
    }

    /// The error as a sentence for the user.
    pub fn to_text(&self) -> (r: String)
        ensures
            r@ == self.text(),
    {
        match self {
            Error::UpdateTransactionMemberError { message } => message.clone(),
            Error::MoveRowError => "There was a problem when moving the row".to_string(),
        }
    }
}

impl vstd::std_specs::convert::FromSpecImpl<ParseError> for Error {
    open spec fn obeys_from_spec() -> bool {
        false
    }

    open spec fn from_spec(v: ParseError) -> Self {
        choose|e: Self| e is UpdateTransactionMemberError && e.text() == fault_message(date_fault(v))
    }
}

impl From<ParseError> for Error {
    fn from(value: ParseError) -> (r: Self)
        ensures
            r is UpdateTransactionMemberError,
            r.text() == fault_message(date_fault(value)),
    {
        let fault = fault_of(&value);
        Error::UpdateTransactionMemberError { message: message_for(fault) }
    }
}

impl vstd::std_specs::convert::FromSpecImpl<ParseFloatError> for Error {
    open spec fn obeys_from_spec() -> bool {
        false
    }

    open spec fn from_spec(v: ParseFloatError) -> Self {
        choose|e: Self| e is UpdateTransactionMemberError && e.text() == float_error_text(v)
    }
}

impl From<ParseFloatError> for Error {
    fn from(value: ParseFloatError) -> (r: Self)
        ensures
            r is UpdateTransactionMemberError,
            r.text() == float_error_text(value),
            r.text().len() > 0,
    {
        Error::UpdateTransactionMemberError { message: print_float_error(&value) }
    }
}

} // verus!
