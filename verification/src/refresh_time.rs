//! The time at which an actor's record was last refreshed, as the records
//! hold it: local calendar time in the form `YYYY-MM-DD HH:MM:SS`.

use vstd::prelude::*;
use crate::error::{AppError, AppErrorView, IntegrityFault};

verus! {

/// `chrono::ParseError`, the error of `chrono`'s parsing functions. Only its
/// presence is looked at.
#[verifier::external_type_specification]
#[verifier::external_body]
pub struct ExTimeParseError(chrono::ParseError);

/// What `chrono::NaiveDateTime::parse_from_str` reads in a text under the
/// format `%Y-%m-%d %H:%M:%S`, as the seconds from 1970-01-01 00:00:00 to the
/// calendar time read (`NaiveDateTime::and_utc`, then `DateTime::timestamp`);
/// `None` where the text is not of that format.
pub uninterp spec fn refresh_seconds(text: Seq<char>) -> Option<i64>;

/// Calls `chrono::NaiveDateTime::parse_from_str` with the format
/// `%Y-%m-%d %H:%M:%S` and hands the calendar time out in seconds. The contract
/// names the result `refresh_seconds` of the text.
#[verifier::external_body]
fn read_refresh_time(text: &str) -> (read: Result<i64, chrono::ParseError>)
    ensures
        match read {
            Ok(seconds) => refresh_seconds(text@) == Some(seconds),
            Err(_) => refresh_seconds(text@) is None,
        },
{
    match chrono::NaiveDateTime::parse_from_str(text, "%Y-%m-%d %H:%M:%S") {
        Ok(time) => Ok(time.and_utc().timestamp()),
        Err(e) => Err(e),
    }
}

/// Reads the machine's clock with `chrono::Local::now` and writes the local
/// calendar time with the format `%Y-%m-%d %H:%M:%S`. Nothing is stated of the
/// text: it depends on the clock and the time zone.
#[verifier::external_body]
fn write_local_now() -> String {
    chrono::Local::now().naive_local().format("%Y-%m-%d %H:%M:%S").to_string()
}

/// Reads a stored refresh time, in seconds from 1970-01-01 00:00:00 on the
/// calendar it was written in. A text that is not of the form
/// `YYYY-MM-DD HH:MM:SS` is a fault of the record: `DataIntegrity(Timestamp)`.
pub fn parse_refresh_time(text: &str) -> (read: Result<i64, AppError>)
    ensures
        match read {
            Ok(seconds) => refresh_seconds(text@) == Some(seconds),
            Err(e) => refresh_seconds(text@) is None && e@ == AppErrorView::DataIntegrity(
                IntegrityFault::Timestamp,
            ),
        },
{
    match read_refresh_time(text) {
        Ok(seconds) => Ok(seconds),
        Err(_) => Err(AppError::DataIntegrity(IntegrityFault::Timestamp)),
    }
}

/// The present time as a refresh time, checked to be one before it is handed
/// out: a text that `parse_refresh_time` reads, or `DataIntegrity(Timestamp)`.
pub fn current_refresh_time() -> (now: Result<String, AppError>)
    ensures
        match now {
            Ok(text) => refresh_seconds(text@) is Some,
            Err(e) => e@ == AppErrorView::DataIntegrity(IntegrityFault::Timestamp),
        },
{
    let text = write_local_now();
    match parse_refresh_time(text.as_str()) {
        Ok(_) => Ok(text),
        Err(e) => Err(e),
    }
}

} // verus!
