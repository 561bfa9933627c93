//! Validation of the values that a caller hands over as text: the board
//! position, the test channel and the target, and the choice of a log level.

use std::num::ParseIntError;
use std::str::FromStr;
use vstd::prelude::*;

verus! {

/// The highest board position.
pub const TSS_MAX: u8 = 7;

/// The highest test channel and the highest target.
pub const CHANNEL_MAX: u8 = 3;

/// How much is logged.
#[derive(Clone, Copy, Debug, PartialEq, Eq, Structural)]
pub enum LogLevel {
    Error,
    Warn,
    Info,
    Debug,
    Trace,
}

/// The error with which std refuses to parse an integer.
#[verifier::external_type_specification]
#[verifier::external_body]
pub struct ExParseIntError(ParseIntError);

pub open spec fn is_digit(c: char) -> bool {
    48 <= (c as u32) <= 57
}

pub open spec fn digit_value(c: char) -> nat {
    ((c as u32) - 48) as nat
}

/// The number that a sequence of decimal digits writes.
pub open spec fn decimal_value(digits: Seq<char>) -> nat
    decreases digits.len(),
{
    if digits.len() == 0 {
        0
    } else {
        decimal_value(digits.drop_last()) * 10 + digit_value(digits.last())
    }
}

/// The text without one leading plus sign.
pub open spec fn unsigned_part(s: Seq<char>) -> Seq<char> {
    if s.len() > 0 && s[0] == '+' {
        s.skip(1)
    } else {
        s
    }
}

/// The `u8` that a text writes: an optional plus sign, then one or more
/// decimal digits and nothing else, with a value of at most 255.
pub open spec fn decimal_u8(s: Seq<char>) -> Option<u8> {
    let d = unsigned_part(s);
    if d.len() > 0 && (forall|i: int| 0 <= i < d.len() ==> is_digit(#[trigger] d[i]))
        && decimal_value(d) <= 255 {
        Some(decimal_value(d) as u8)
    } else {
        None
    }
}

/// What a validation owes for the text `s`: success if it writes a number
/// up to `max`, the complaint if it writes a greater one, and some error if it
/// writes none.
pub open spec fn validation(s: Seq<char>, max: u8, complaint: Seq<char>, r: Result<(), String>) -> bool {
    match decimal_u8(s) {
        Some(v) => if v <= max {
            r.is_ok()
        } else {
            r matches Err(m) && m@ == complaint
        },
        None => r.is_err(),
    }
}

/// `u8::from_str` of std. Believed of it, as its documentation says: it
/// accepts an optional plus sign followed by decimal digits only, at least
/// one of them, and returns their value if that fits in a `u8`; any other
/// text is an error.
#[verifier::external_body]
fn parse_u8(s: &str) -> (r: Result<u8, ParseIntError>)
    ensures
        match r {
            Ok(v) => decimal_u8(s@) == Some(v),
            Err(_) => decimal_u8(s@).is_none(),
        },
{
    u8::from_str(s)
}

/// `to_string` of std on a `ParseIntError`: the error in std's own words,
/// of which nothing is claimed.
#[verifier::external_body]
fn parse_error_text(e: &ParseIntError) -> (r: String) {
    e.to_string()
}

fn validate_range(s: &str, max: u8, complaint: &str) -> (r: Result<(), String>)
    ensures
        validation(s@, max, complaint@, r),
{
    match parse_u8(s) {
        Ok(v) => {
            if v <= max {
                Ok(())
            } else {
                Err(complaint.to_owned())
            }
        },
        Err(e) => Err(parse_error_text(&e)),
    }
}

/// Accepts a board position from 0 to 7.
pub fn validate_tss(s: &str) -> (r: Result<(), String>)
    ensures
        validation(s@, TSS_MAX, "TSS not in valid range 0 - 7"@, r),
{
    validate_range(s, TSS_MAX, "TSS not in valid range 0 - 7")
}

/// Accepts a target from 0 to 3.
pub fn validate_target(s: &str) -> (r: Result<(), String>)
    ensures
        validation(s@, CHANNEL_MAX, "Target not in valid range 0 - 3"@, r),
{
    validate_range(s, CHANNEL_MAX, "Target not in valid range 0 - 3")
}

/// Accepts a test channel from 0 to 3.
pub fn validate_test_channel(s: &str) -> (r: Result<(), String>)
    ensures
        validation(s@, CHANNEL_MAX, "Test channel not in valid range 0 - 3"@, r),
{
    validate_range(s, CHANNEL_MAX, "Test channel not in valid range 0 - 3")
}

/// The level to log at: the one asked for, or `Error` where none was.
pub fn set_log_level(verbosity: &Option<LogLevel>) -> (r: LogLevel)
    ensures
        r == match *verbosity {
            Some(level) => level,
            None => LogLevel::Error,
        },
{
    match verbosity {
        Some(level) => *level,
        None => LogLevel::Error,
    }
}

} // verus!
