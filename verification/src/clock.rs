//! Wall-clock readings, as far as the stopwatch looks at them.

use chrono::Timelike;
use vstd::prelude::*;

verus! {

/// chrono's date and time without a time zone. Nothing of what it holds is
/// known here; it is handed to chrono and back.
#[verifier::external_type_specification]
#[verifier::external_body]
pub struct ExNaiveDateTime(chrono::NaiveDateTime);

/// A time of day as hours, minutes and seconds.
pub open spec fn is_time_of_day(hms: (u8, u8, u8)) -> bool {
    hms.0 < 24 && hms.1 < 60 && hms.2 < 60
}

/// `chrono::Timelike::hour` on a `NaiveDateTime`: the hour of the day, which
/// chrono documents as a number from 0 to 23.
#[verifier::external_body]
fn hour_of(d: &chrono::NaiveDateTime) -> (hour: u32)
    ensures
        hour < 24,
{
    d.hour()
}

/// `chrono::Timelike::minute` on a `NaiveDateTime`: the minute of the hour,
/// which chrono documents as a number from 0 to 59.
#[verifier::external_body]
fn minute_of(d: &chrono::NaiveDateTime) -> (minute: u32)
    ensures
        minute < 60,
{
    d.minute()
}

/// `chrono::Timelike::second` on a `NaiveDateTime`: the second of the minute,
/// which chrono documents as a number from 0 to 59 (a leap second shows in
/// the nanoseconds, not here).
#[verifier::external_body]
fn second_of(d: &chrono::NaiveDateTime) -> (second: u32)
    ensures
        second < 60,
{
    d.second()
}

/// The time of day that a date and time shows. Which one it is rests with
/// chrono; whatever it is, it is a time of day.
pub fn time_of_day(d: &chrono::NaiveDateTime) -> (hms: (u8, u8, u8))
    ensures
        is_time_of_day(hms),
{
    let hour: u32 = hour_of(d);
    let minute: u32 = minute_of(d);
    let second: u32 = second_of(d);
    (hour as u8, minute as u8, second as u8)
}

} // verus!
