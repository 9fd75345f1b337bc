//! Timestamps and the chrono calls the engine relies on.
//!
//! The engine keeps every instant as whole seconds since the Unix epoch, in
//! UTC.  Parsing a listing's datetime strings and rendering an instant with a
//! strftime-style format are done by chrono behind the trusted functions
//! below; everything that decides or composes is verified code working on
//! plain `i64` seconds.

use vstd::prelude::*;

use std::fmt::Write;

verus! {

/// An instant: whole seconds since the Unix epoch, in UTC.
#[derive(Debug, Clone, Copy, PartialEq, Eq, Structural)]
pub struct Timestamp {
    pub seconds: i64,
}

/// What `chrono::DateTime::parse_from_str` resolves a (string, format) pair
/// to: the instant in epoch seconds, or nothing when the string does not
/// match the format.  The result depends on the two arguments alone.
pub uninterp spec fn parse_tz_of(s: Seq<char>, fmt: Seq<char>) -> Option<int>;

/// What `chrono::NaiveDateTime::parse_from_str` resolves a (string, format)
/// pair to, the naive result read as UTC.  The result depends on the two
/// arguments alone.
pub uninterp spec fn parse_naive_of(s: Seq<char>, fmt: Seq<char>) -> Option<int>;

/// What rendering a UTC instant with a strftime-style format yields.  The
/// result depends on the two arguments alone.
pub uninterp spec fn fmt_utc_of(seconds: int, fmt: Seq<char>) -> Seq<char>;

/// What rendering a UTC instant as an RFC 2822 date string yields.  The
/// result depends on the instant alone.
pub uninterp spec fn rfc2822_of(seconds: int) -> Seq<char>;

/// Relies on `chrono::DateTime::parse_from_str`: parses a datetime string
/// against a timezone-aware format; the parsed instant's epoch seconds are
/// a function of the string and the format alone.
#[verifier::external_body]
pub(crate) fn parse_datetime_tz(s: &str, fmt: &str) -> (r: Option<i64>)
    ensures
        r is Some <==> parse_tz_of(s@, fmt@) is Some,
        r matches Some(seconds) ==> parse_tz_of(s@, fmt@) == Some(seconds as int),
{
    chrono::DateTime::parse_from_str(s, fmt).ok().map(|dt| dt.timestamp())
}

/// Relies on `chrono::NaiveDateTime::parse_from_str`: parses a datetime
/// string against a timezone-naive format; the result, read as UTC, is a
/// function of the string and the format alone.
#[verifier::external_body]
pub(crate) fn parse_datetime_naive(s: &str, fmt: &str) -> (r: Option<i64>)
    ensures
        r is Some <==> parse_naive_of(s@, fmt@) is Some,
        r matches Some(seconds) ==> parse_naive_of(s@, fmt@) == Some(seconds as int),
{
    chrono::NaiveDateTime::parse_from_str(s, fmt).ok().map(|dt| dt.and_utc().timestamp())
}

/// Relies on `chrono::DateTime::format`: renders the UTC instant with a
/// strftime-style format.  An instant chrono cannot represent, or a format
/// string chrono refuses, yields the empty string instead of a panic.
#[verifier::external_body]
pub(crate) fn format_utc(seconds: i64, fmt: &str) -> (r: String)
    ensures
        r@ == fmt_utc_of(seconds as int, fmt@),
{
    match chrono::DateTime::<chrono::Utc>::from_timestamp(seconds, 0) {
        Some(dt) => {
            let mut out = String::new();
            match write!(out, "{}", dt.format(fmt)) {
                Ok(()) => out,
                Err(_) => String::new(),
            }
        },
        None => String::new(),
    }
}

/// Relies on `chrono::format::Fixed::RFC2822`: renders the UTC instant as an
/// RFC 2822 date string.  An instant outside the years 0 through 9999, or
/// outside chrono's range, yields the empty string instead of a panic.
#[verifier::external_body]
pub(crate) fn rfc2822_utc(seconds: i64) -> (r: String)
    ensures
        r@ == rfc2822_of(seconds as int),
{
    match chrono::DateTime::<chrono::Utc>::from_timestamp(seconds, 0) {
        Some(dt) => {
            let items = std::iter::once(chrono::format::Item::Fixed(
                chrono::format::Fixed::RFC2822,
            ));
            let mut out = String::new();
            match write!(out, "{}", dt.format_with_items(items)) {
                Ok(()) => out,
                Err(_) => String::new(),
            }
        },
        None => String::new(),
    }
}

} // verus!
