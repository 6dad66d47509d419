//! The calendar and the number parser are not ours: dates come from `chrono`,
//! and amounts are parsed by the host. This file holds what is taken on trust
//! about them.
use chrono::format::ParseErrorKind;
use chrono::Local;
use chrono::NaiveDate;
use chrono::ParseError;
use std::num::ParseFloatError;
use std::str::FromStr;
use vstd::prelude::*;

verus! {

/// `chrono::NaiveDate`: a calendar date, carried through unopened.
#[verifier::external_type_specification]
#[verifier::external_body]
pub struct ExNaiveDate(NaiveDate);

/// `chrono::ParseError`: why a text was not a date.
#[verifier::external_type_specification]
#[verifier::external_body]
pub struct ExParseError(ParseError);

/// `std::num::ParseFloatError`: why a text was not a number.
#[verifier::external_type_specification]
#[verifier::external_body]
pub struct ExParseFloatError(ParseFloatError);

/// The categories of `chrono::format::ParseErrorKind`.
#[derive(Clone, Copy, Debug, PartialEq, Eq, Structural)]
pub enum DateFault {
    OutOfRange,
    Impossible,
    NotEnough,
    Invalid,
    TooShort,
    TooLong,
    BadFormat,
    /// A category that `chrono` may add later.
    Unlisted,
}

/// What `NaiveDate::from_str` makes of a text.
pub uninterp spec fn parsed_date(text: Seq<char>) -> Result<NaiveDate, ParseError>;

/// What `NaiveDate::to_string` prints for a date.
pub uninterp spec fn date_text(date: NaiveDate) -> Seq<char>;

/// The category that `ParseError::kind` reports.
pub uninterp spec fn date_fault(error: ParseError) -> DateFault;

/// What `ParseFloatError::to_string` prints.
pub uninterp spec fn float_error_text(error: ParseFloatError) -> Seq<char>;

/// Calls `NaiveDate::from_str`, which reads `%Y-%m-%d`. The result depends on
/// the text alone; it is known here only by the name [`parsed_date`].
#[verifier::external_body]
pub(crate) fn parse_date_text(text: &str) -> (r: Result<NaiveDate, ParseError>)
    ensures
        r == parsed_date(text@),
{
    NaiveDate::from_str(text)
}

/// Calls `Local::now` and keeps the local calendar date. Nothing is claimed
/// of the result: it is whatever the clock and the time zone say.
#[verifier::external_body]
pub(crate) fn today() -> NaiveDate {
    NaiveDate::from(Local::now().naive_local())
}

/// Calls `NaiveDate::to_string`, which prints `%Y-%m-%d`: a year, a month
/// and a day in digits, with dashes between and at most a sign before. The
/// text is known here by the name [`date_text`], and as a text without line
/// breaks.
#[verifier::external_body]
pub(crate) fn print_date(date: &NaiveDate) -> (r: String)
    ensures
        r@ == date_text(*date),
        !r@.contains('\n'),
        !r@.contains('\r'),
{
    date.to_string()
}

/// Calls `ParseError::kind` and tells its variants apart, one for one.
#[verifier::external_body]
pub(crate) fn fault_of(error: &ParseError) -> (r: DateFault)
    ensures
        r == date_fault(*error),
{
    match error.kind() {
        ParseErrorKind::OutOfRange => DateFault::OutOfRange,
        ParseErrorKind::Impossible => DateFault::Impossible,
        ParseErrorKind::NotEnough => DateFault::NotEnough,
        ParseErrorKind::Invalid => DateFault::Invalid,
        ParseErrorKind::TooShort => DateFault::TooShort,
        ParseErrorKind::TooLong => DateFault::TooLong,
        ParseErrorKind::BadFormat => DateFault::BadFormat,
        _ => DateFault::Unlisted,
    }
}

/// Calls `ParseFloatError::to_string`, which prints one of two sentences:
/// that the text was empty, or that it is no number. The text is known here
/// by the name [`float_error_text`], and as a text that is not empty.
#[verifier::external_body]
pub(crate) fn print_float_error(error: &ParseFloatError) -> (r: String)
    ensures
        r@ == float_error_text(*error),
        r@.len() > 0,
{
    error.to_string()
}

} // verus!
