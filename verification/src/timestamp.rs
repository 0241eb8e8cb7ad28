//! Timestamp resolver: turns the abstract timestamp mode plus the session
//! clock and the ambient clock readings into a concrete "elapsed-since"
//! instant, or its explicit absence. The resolver itself is pure; the
//! ambient readings come in as arguments, from the trusted clock items below.

use vstd::prelude::*;

use crate::fields::{days_in_month, valid_date, CalendarDate, TimestampMode};
use chrono::{Datelike, Timelike};

verus! {

/// Relies on chrono::Utc::now and chrono::DateTime::timestamp: the current
/// instant as non-leap seconds since the epoch. Of a clock reading nothing
/// can be promised. Hazard: chrono's conversion of the system time panics
/// when the host clock reads before the epoch — an environment pathology,
/// not reachable from any input of this library.
#[verifier::external_body]
fn now_epoch_seconds() -> i64 {
    chrono::Utc::now().timestamp()
}

/// Relies on chrono::Local::now and the Timelike accessors hour, minute and
/// second, documented as 0 to 23, 0 to 59 and 0 to 59: the local wall-clock
/// time of day, with the local offset in effect at call time. (A leap second
/// is carried in chrono's nanosecond part, never in `second`.) Hazard: the
/// offset lookup inside chrono panics on a host clock before the epoch or on
/// corrupt time-zone data — environment pathologies, not reachable from any
/// input of this library.
#[verifier::external_body]
fn local_time_of_day() -> (r: (u32, u32, u32))
    ensures
        r.0 < 24,
        r.1 < 60,
        r.2 < 60,
{
    let local = chrono::Local::now();
    (local.hour(), local.minute(), local.second())
}

/// The epoch second of 00:00:00 UTC on the given calendar date. What the
/// value is takes a calendar to state; it depends on the date alone.
pub uninterp spec fn epoch_of_midnight(year: int, month: int, day: int) -> int;

/// Relies on chrono's NaiveDate::from_ymd_opt, NaiveDate::and_hms_opt,
/// NaiveDateTime::and_utc and DateTime::timestamp: the epoch second of
/// midnight UTC on the given date. A function of the date alone; both
/// `expect`s are unreachable on a well-formed date.
#[verifier::external_body]
fn midnight_utc_epoch(year: i32, month: u8, day: u8) -> (r: i64)
    requires
        valid_date(year as int, month as int, day as int),
    ensures
        r as int == epoch_of_midnight(year as int, month as int, day as int),
{
    let date = chrono::NaiveDate::from_ymd_opt(year, month as u32, day as u32).expect(
        "a well-formed calendar date",
    );
    let midnight = date.and_hms_opt(0, 0, 0).expect("midnight is a valid time of day");
    midnight.and_utc().timestamp()
}

/// Relies on chrono::Utc::now, DateTime::date_naive and the Datelike
/// accessors: the current date in UTC. chrono documents the month as 1 to 12
/// and the day as a day that exists in that month of that year. Hazard: the
/// conversion of the system time inside chrono panics when the host clock
/// reads before the epoch — an environment pathology, not reachable from any
/// input of this library.
#[verifier::external_body]
fn utc_today_raw() -> (r: (i32, u32, u32))
    ensures
        1 <= r.1 <= 12,
        1 <= r.2 <= days_in_month(r.0 as int, r.1 as int),
{
    let today = chrono::Utc::now().date_naive();
    (today.year(), today.month(), today.day())
}

/// Turns a raw date reading into the date-picker value: the date itself when
/// its year lies in the picker's range, the epoch date otherwise. The result
/// is pinned for every reading, so a fallback can only come from an
/// out-of-range year, never from a whim of the caller.
pub fn date_from_reading(year: i32, month: u32, day: u32) -> (r: CalendarDate)
    requires
        1 <= month <= 12,
        1 <= day <= days_in_month(year as int, month as int),
    ensures
        r == if 0 <= year <= 9999 {
            (CalendarDate { year, month: month as u8, day: day as u8 })
        } else {
            (CalendarDate { year: 1970, month: 1u8, day: 1u8 })
        },
        r.wf(),
{
    if 0 <= year && year <= 9999 {
        CalendarDate { year, month: month as u8, day: day as u8 }
    } else {
        CalendarDate::epoch()
    }
}

/// The current UTC date, for presetting the date picker: the trusted reading
/// above, turned into a well-formed date by `date_from_reading`.
pub fn current_utc_date() -> (r: CalendarDate)
    ensures
        r.wf(),
{
    let (y, m, d): (i32, u32, u32) = utc_today_raw();
    date_from_reading(y, m, d)
}

/// The session clock: the instant the session started and the instant of the
/// last successful presence push, the latter overwritten on every push.
#[derive(Debug, Clone, Copy, PartialEq, Eq, Structural)]
pub struct SessionClock {
    pub session_started_at: i64,
    pub last_update_at: i64,
}

impl SessionClock {
    /// The clock at session startup: nothing was pushed yet, so both marks
    /// sit at the startup instant.
    pub fn start(now: i64) -> (r: SessionClock)
        ensures
            r.session_started_at == now,
            r.last_update_at == now,
    {
        SessionClock { session_started_at: now, last_update_at: now }
    }
}

/// What each mode resolves to: explicit absence, local midnight of the
/// current day (the current instant minus the seconds elapsed since local
/// midnight), midnight UTC of the chosen date, or one of the two session
/// clock marks.
pub open spec fn resolved_start(
    mode: TimestampMode,
    date: CalendarDate,
    clock: SessionClock,
    now_utc: int,
    day_offset: int,
) -> Option<int> {
    match mode {
        TimestampMode::NoTimestamp => None,
        TimestampMode::LocalDayStart => Some(now_utc - day_offset),
        TimestampMode::CustomDate => Some(
            epoch_of_midnight(date.year as int, date.month as int, date.day as int),
        ),
        TimestampMode::SinceSessionStart => Some(clock.session_started_at as int),
        TimestampMode::SinceLastUpdate => Some(clock.last_update_at as int),
    }
}

pub open spec fn start_value(r: Option<i64>) -> Option<int> {
    match r {
        Some(v) => Some(v as int),
        None => None,
    }
}

/// Resolves the timestamp mode into the presence "start" marker. No error
/// case: every mode produces a value or explicit absence.
pub fn resolve_timestamp(
    mode: TimestampMode,
    date: &CalendarDate,
    clock: &SessionClock,
    now_utc: i64,
    day_offset: u32,
) -> (r: Option<i64>)
    requires
        mode is CustomDate ==> date.wf(),
        mode is LocalDayStart ==> now_utc >= i64::MIN + 86400,
        day_offset < 86400,
    ensures
        start_value(r) == resolved_start(mode, *date, *clock, now_utc as int, day_offset as int),
{
    match mode {
        TimestampMode::NoTimestamp => None,
        TimestampMode::LocalDayStart => Some(now_utc - day_offset as i64),
        TimestampMode::CustomDate => Some(midnight_utc_epoch(date.year, date.month, date.day)),
        TimestampMode::SinceSessionStart => Some(clock.session_started_at),
        TimestampMode::SinceLastUpdate => Some(clock.last_update_at),
    }
}

/// The seconds elapsed since local midnight, derived from a local wall-clock
/// reading: each hour counts 3600 seconds, each minute 60.
pub fn seconds_since_local_midnight(hour: u32, minute: u32, second: u32) -> (r: u32)
    requires
        hour < 24,
        minute < 60,
        second < 60,
    ensures
        r == 3600 * hour + 60 * minute + second,
        r < 86400,
{
    hour * 3600 + minute * 60 + second
}

/// Clamps a clock instant away from the far lower edge of the representable
/// range, so that subtracting a day's worth of seconds cannot underflow; any
/// real reading is far from that edge and passes through unchanged.
pub fn clamp_clock_instant(raw: i64) -> (r: i64)
    ensures
        r as int == if raw < i64::MIN + 86400 {
            i64::MIN + 86400
        } else {
            raw as int
        },
        r >= i64::MIN + 86400,
{
    if raw < i64::MIN + 86400 {
        i64::MIN + 86400
    } else {
        raw
    }
}

/// Reads the ambient clocks: the current UTC instant (clamped by
/// `clamp_clock_instant`) and the seconds elapsed since local midnight,
/// derived by `seconds_since_local_midnight` from the local hour, minute and
/// second in effect at call time. The readings themselves are ambient, so
/// only their bounds can be promised here; what is computed from them is
/// contracted in the two functions above.
pub fn read_clock() -> (r: (i64, u32))
    ensures
        r.0 >= i64::MIN + 86400,
        r.1 < 86400,
{
    let now: i64 = clamp_clock_instant(now_epoch_seconds());
    let (hour, minute, second): (u32, u32, u32) = local_time_of_day();
    let day_offset: u32 = seconds_since_local_midnight(hour, minute, second);
    (now, day_offset)
}

/// After a successful push has stamped the session clock — from then on the
/// clock's last-update mark never falls below the push instant — resolving
/// the SinceLastUpdate mode returns an instant at least that push instant.
pub proof fn lemma_since_last_update_after_send(
    mode: TimestampMode,
    date: CalendarDate,
    clock: SessionClock,
    now_utc: int,
    day_offset: int,
    sent_at: int,
)
    requires
        mode is SinceLastUpdate,
        sent_at <= clock.last_update_at,
    ensures
        resolved_start(mode, date, clock, now_utc, day_offset) matches Some(v) && v >= sent_at,
{
}

} // verus!
