//! Calendar date and time of day, without a time zone.
use chrono::{Datelike, Timelike};
use vstd::prelude::*;

verus! {

/// A date and a time of day, as the fields a calendar shows.
#[derive(Debug, Clone, Copy, PartialEq, Eq, Structural)]
pub struct DateTime {
    pub year: i32,
    /// 1 to 12.
    pub month: u32,
    /// 1 to 31.
    pub day: u32,
    /// 0 to 23.
    pub hour: u32,
    /// 0 to 59.
    pub minute: u32,
    /// 0 to 59.
    pub second: u32,
}

/// The date and time that `text` spells in the layout `layout` (chrono's
/// `strftime` syntax), if it spells one.
pub uninterp spec fn parsed_date_time_of(text: Seq<char>, layout: Seq<char>) -> Option<DateTime>;

/// Relies on `chrono::NaiveDateTime::parse_from_str`, which reads `text` in
/// the layout `layout` and fails when it does not fit; the fields are read
/// back with chrono's `Datelike` and `Timelike` accessors.
#[verifier::external_body]
pub(crate) fn parse_date_time(text: &str, layout: &str) -> (r: Option<DateTime>)
    ensures
        r == parsed_date_time_of(text@, layout@),
{
    let t = chrono::NaiveDateTime::parse_from_str(text, layout).ok()?;
    Some(DateTime {
        year: t.year(),
        month: t.month(),
        day: t.day(),
        hour: t.hour(),
        minute: t.minute(),
        second: t.second(),
    })
}

} // verus!
