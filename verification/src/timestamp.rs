//! Timestamps in the basic iCalendar form, `YYYYMMDDTHHMMSS`.
//!
//! A timestamp property carries its value as text. The library accepts one
//! shape only: four digits of year, two of month, two of day, the letter `T`,
//! then two digits each of hour, minute and second. Which of the texts of that
//! shape name a real date and time is chrono's decision.

use chrono::Datelike;
use chrono::Timelike;
use crate::text::text_of;
use vstd::prelude::*;
use vstd::string::StringSliceAdditionalSpecFns;
use vstd::utf8::{is_ascii_chars, is_ascii_chars_encode_utf8};

verus! {

/// A date and a time of day, read as UTC.
///
/// A leap second is held the way chrono holds it: `second` is 59 and
/// `nanosecond` is one thousand million or more.
#[derive(Clone, Copy, Debug, PartialEq, Eq, Structural)]
pub struct UtcTimestamp {
    pub year: i32,
    pub month: u32,
    pub day: u32,
    pub hour: u32,
    pub minute: u32,
    pub second: u32,
    pub nanosecond: u32,
}

/// The strftime pattern of the basic form.
pub const BASIC_FORMAT: &'static str = "%Y%m%dT%H%M%S";

/// Number of characters in a basic-form timestamp.
pub const BASIC_LEN: usize = 15;

/// Where the letter `T` stands in a basic-form timestamp.
pub const T_INDEX: usize = 8;

/// `c` is one of the ten ASCII digits.
pub open spec fn is_digit(c: char) -> bool {
    '0' <= c <= '9'
}

/// `text` has the shape `YYYYMMDDTHHMMSS`: fifteen characters, the ninth the
/// capital letter `T`, every other one an ASCII digit.
pub open spec fn is_basic_date_time(text: Seq<char>) -> bool {
    &&& text.len() == BASIC_LEN
    &&& text[T_INDEX as int] == 'T'
    &&& forall|i: int| 0 <= i < BASIC_LEN && i != T_INDEX ==> is_digit(#[trigger] text[i])
}

/// What `chrono::NaiveDateTime::parse_from_str` makes of `text` under the
/// strftime pattern `format`: the fields of the date and time it returns, or
/// `None` where it returns an error.
pub uninterp spec fn parsed_date_time(text: Seq<char>, format: Seq<char>) -> Option<UtcTimestamp>;

/// The timestamp that a parse of `text` is taken for: the parse's own result
/// where `text` has the basic shape, no value otherwise.
pub open spec fn accepted(text: Seq<char>, parsed: Option<UtcTimestamp>) -> Option<UtcTimestamp> {
    if is_basic_date_time(text) {
        parsed
    } else {
        None
    }
}

/// `text` has the basic shape and names a date and a time of day.
pub open spec fn is_well_formed_timestamp(text: Seq<char>) -> bool {
    is_basic_date_time(text) && parsed_date_time(text, BASIC_FORMAT@) is Some
}

/// The timestamp that an optional property value stands for.
pub open spec fn timestamp_of(value: Option<Seq<char>>) -> Option<UtcTimestamp> {
    match value {
        Some(text) => accepted(text, parsed_date_time(text, BASIC_FORMAT@)),
        None => None,
    }
}

/// Calls `chrono::NaiveDateTime::parse_from_str` on `text` with the strftime
/// pattern `format`, and reads the fields of the date and time it returns.
///
/// Trusted: the contract only gives the outcome its name, `parsed_date_time`.
/// That claims that the outcome depends on the two texts and on nothing else.
#[verifier::external_body]
fn parse_naive_date_time(text: &str, format: &str) -> (parsed: Option<UtcTimestamp>)
    ensures
        parsed == parsed_date_time(text@, format@),
{
    match chrono::NaiveDateTime::parse_from_str(text, format) {
        Ok(t) => Some(
            UtcTimestamp {
                year: t.year(),
                month: t.month(),
                day: t.day(),
                hour: t.hour(),
                minute: t.minute(),
                second: t.second(),
                nanosecond: t.nanosecond(),
            },
        ),
        Err(_) => None,
    }
}

/// Whether `text` has the shape `YYYYMMDDTHHMMSS`.
pub fn has_basic_shape(text: &str) -> (yes: bool)
    ensures
        yes == is_basic_date_time(text@),
{
    if !text.is_ascii() {
        assert(!is_basic_date_time(text@)) by {
            if is_basic_date_time(text@) {
                assert forall|i: int| 0 <= i < text@.len() implies '\0' <= #[trigger] text@[i]
                    <= '\u{7f}' by {
                    if i != T_INDEX {
                        assert(is_digit(text@[i]));
                    }
                }
            }
        }
        return false;
    }
    let bytes = text.as_bytes();
    proof {
        is_ascii_chars_encode_utf8(text@);
    }
    if bytes.len() != BASIC_LEN {
        return false;
    }
    let mut i: usize = 0;
    while i < BASIC_LEN
        invariant
            i <= BASIC_LEN,
            is_ascii_chars(text@),
            text@.len() == BASIC_LEN,
            bytes@ == text.spec_bytes(),
            bytes@.len() == BASIC_LEN,
            i > T_INDEX ==> text@[T_INDEX as int] == 'T',
            forall|k: int| 0 <= k < i && k != T_INDEX ==> is_digit(#[trigger] text@[k]),
        decreases BASIC_LEN - i,
    {
        let byte = bytes[i];
        let fits = if i == T_INDEX {
            byte == 0x54
        } else {
            0x30 <= byte && byte <= 0x39
        };
        proof {
            let c = text@[i as int];
            is_ascii_chars_encode_utf8(text@);
            assert('\0' <= c <= '\u{7f}');
            assert(c as u8 == byte);
            assert(fits == if i == T_INDEX {
                c == 'T'
            } else {
                is_digit(c)
            });
        }
        if !fits {
            return false;
        }
        i += 1;
    }
    true
}

/// Decides what a parse of `text` counts for: `parsed` itself where `text`
/// has the basic shape, no value otherwise.
pub fn accept_parsed(text: &str, parsed: Option<UtcTimestamp>) -> (timestamp: Option<UtcTimestamp>)
    ensures
        timestamp == accepted(text@, parsed),
{
    if has_basic_shape(text) {
        parsed
    } else {
        None
    }
}

/// Reads an optional property value as a UTC timestamp.
///
/// An absent value, a text of another shape than `YYYYMMDDTHHMMSS`, and a
/// text of that shape that names no date and time all give `None`; no input
/// is an error.
pub fn parse_ical_utc_date_time(value: Option<String>) -> (timestamp: Option<UtcTimestamp>)
    ensures
        timestamp == timestamp_of(text_of(value)),
        value is None ==> timestamp is None,
        value matches Some(text) && !is_basic_date_time(text@) ==> timestamp is None,
{
    match value {
        Some(text) => {
            let parsed = parse_naive_date_time(text.as_str(), BASIC_FORMAT);
            accept_parsed(text.as_str(), parsed)
        },
        None => None,
    }
}

} // verus!
