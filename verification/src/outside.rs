//! The outside values that the library carries or asks for: identifiers from
//! `uuid`, the clock and the calendar from `chrono`, and lists written as
//! JSON by `serde_json`.

use vstd::prelude::*;
use crate::text::texts;

verus! {

/// `uuid::Uuid`, an identifier that the library carries without looking
/// inside.
#[verifier::external_type_specification]
#[verifier::external_body]
pub struct ExUuid(uuid::Uuid);

/// `Clone` for `uuid::Uuid`; nothing is claimed of the copy.
pub assume_specification[ <uuid::Uuid as Clone>::clone ](id: &uuid::Uuid) -> uuid::Uuid;

/// `serde_json::Error`, the failure of the JSON writer.
#[verifier::external_type_specification]
#[verifier::external_body]
pub struct ExJsonError(serde_json::Error);

/// The JSON text that `serde_json::to_string` writes for a list of strings.
pub uninterp spec fn json_list_text(list: Seq<Seq<char>>) -> Seq<char>;

/// `serde_json::to_string` on a list of strings: it succeeds, and the result
/// is the JSON text of the list. The writer fails only where its sink or the
/// value's own serializer fails; here the sink is a vector in memory and the
/// value a sequence of strings, neither of which does.
#[verifier::external_body]
pub(crate) fn json_list(list: &Vec<String>) -> (r: Result<String, serde_json::Error>)
    ensures
        r is Ok,
        r matches Ok(text) ==> text@ == json_list_text(texts(list@)),
{
    serde_json::to_string(list)
}

/// The list of strings that `serde_json::from_str` reads from a JSON text,
/// if it reads one.
pub uninterp spec fn json_list_parsed(text: Seq<char>) -> Option<Seq<Seq<char>>>;

/// `serde_json::from_str` for a list of strings: it succeeds exactly on the
/// texts that hold such a list, and the result is the list read.
#[verifier::external_body]
pub(crate) fn parse_json_list(text: &str) -> (r: Result<Vec<String>, serde_json::Error>)
    ensures
        match r {
            Ok(list) => json_list_parsed(text@) == Some(texts(list@)),
            Err(_) => json_list_parsed(text@) is None,
        },
{
    serde_json::from_str(text)
}

/// `ToString::to_string` of a `serde_json::Error`: the error in words.
/// Nothing is claimed of the words.
#[verifier::external_body]
pub(crate) fn json_error_text(e: &serde_json::Error) -> String {
    e.to_string()
}

/// A day of the calendar, as year, month and day of the month.
#[derive(Clone, Copy, Debug, PartialEq, Eq, Structural)]
pub struct CalendarDate {
    pub year: i32,
    pub month: u32,
    pub day: u32,
}

impl CalendarDate {
    /// Whether the month and the day lie in the ranges of a calendar.
    pub open spec fn in_calendar_range(&self) -> bool {
        1 <= self.month <= 12 && 1 <= self.day <= 31
    }

    /// Whether this day comes later than `other`.
    pub open spec fn is_after(&self, other: CalendarDate) -> bool {
        self.year > other.year || (self.year == other.year && (self.month > other.month || (
        self.month == other.month && self.day > other.day)))
    }

    /// Tells whether this day comes later than `other`.
    pub fn later_than(&self, other: &CalendarDate) -> (r: bool)
        ensures
            r == self.is_after(*other),
    {
        self.year > other.year || (self.year == other.year && (self.month > other.month || (
        self.month == other.month && self.day > other.day)))
    }
}

/// `uuid::Uuid::new_v4`: a random identifier; nothing is claimed of its value.
#[verifier::external_body]
pub(crate) fn fresh_id() -> uuid::Uuid {
    uuid::Uuid::new_v4()
}

/// `chrono::Utc::now`, as milliseconds since the Unix epoch
/// (`DateTime::timestamp_millis`); nothing is claimed of its value.
#[verifier::external_body]
pub(crate) fn now() -> i64 {
    chrono::Utc::now().timestamp_millis()
}

/// `chrono::Local::now` and `DateTime::date_naive`: today's date in the local
/// time zone. Of its value only the ranges that `Datelike::month` and
/// `Datelike::day` document are claimed.
#[verifier::external_body]
pub(crate) fn today() -> (d: CalendarDate)
    ensures
        d.in_calendar_range(),
{
    let local = chrono::Local::now().date_naive();
    CalendarDate {
        year: chrono::Datelike::year(&local),
        month: chrono::Datelike::month(&local),
        day: chrono::Datelike::day(&local),
    }
}

} // verus!
