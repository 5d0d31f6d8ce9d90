//! Reset instants and the "resets at" text shown beside a quota window.
use chrono::{Local, TimeZone, Utc};
use std::time::{SystemTime, UNIX_EPOCH};
use vstd::prelude::*;
use vstd::string::StringExecFns;

use crate::text::{dec, dec2, dec2_text, dec_text};

verus! {

/// Seconds from the Unix epoch to -262143-01-01 00:00:00 UTC, chrono's
/// earliest date.
pub const MIN_UTC_SECS: i64 = -8334601228800;

/// Seconds from the Unix epoch to 262142-12-31 23:59:59 UTC, chrono's
/// latest second.
pub const MAX_UTC_SECS: i64 = 8210266876799;

/// Whether chrono represents the instant `secs` seconds after the Unix
/// epoch: its dates run from year -262143 to year 262142.
pub open spec fn utc_timestamp_valid(secs: i64) -> bool {
    MIN_UTC_SECS <= secs <= MAX_UTC_SECS
}

/// Calls `chrono::TimeZone::timestamp_opt` on `Utc` with zero nanoseconds
/// and reports whether it gave a single instant. chrono's
/// `DateTime::from_timestamp` gives one exactly when the day falls between
/// `NaiveDate::MIN` (-262143-01-01) and `NaiveDate::MAX` (262142-12-31),
/// which is the range `utc_timestamp_valid` states.
#[verifier::external_body]
fn utc_timestamp_exists(secs: i64) -> (r: bool)
    ensures
        r == utc_timestamp_valid(secs),
{
    Utc.timestamp_opt(secs, 0).single().is_some()
}

#[verifier::external_type_specification]
#[verifier::external_body]
pub struct ExSystemTime(SystemTime);

/// Calls `SystemTime::now`. Nothing is claimed: the value is the clock's.
#[verifier::external_body]
fn system_now() -> (r: SystemTime) {
    SystemTime::now()
}

/// Calls `SystemTime::duration_since(UNIX_EPOCH)` and splits the distance
/// into whole seconds and nanoseconds: `Ok` for a time after the epoch,
/// `Err` (the error's `duration()`) for a time before it. Claims only what
/// `Duration::subsec_nanos` documents: the nanoseconds are below one
/// billion.
#[verifier::external_body]
fn since_epoch(t: &SystemTime) -> (r: Result<(u64, u32), (u64, u32)>)
    ensures
        match r {
            Ok(d) => d.1 < 1_000_000_000,
            Err(d) => d.1 < 1_000_000_000,
        },
{
    match t.duration_since(UNIX_EPOCH) {
        Ok(d) => Ok((d.as_secs(), d.subsec_nanos())),
        Err(e) => Err((e.duration().as_secs(), e.duration().subsec_nanos())),
    }
}

/// The nanoseconds from the epoch that a clock reading stands for.
pub open spec fn clock_nanos(reading: Result<(u64, u32), (u64, u32)>) -> int {
    match reading {
        Ok(d) => d.0 * 1_000_000_000 + d.1,
        Err(d) => -(d.0 * 1_000_000_000 + d.1),
    }
}

/// The largest distance from the epoch, in nanoseconds, that a clock
/// reading gives.
pub open spec fn clock_limit() -> int {
    u64::MAX * 1_000_000_000 + 999_999_999
}

/// Whether `now` (nanoseconds from the epoch) is a possible clock reading.
pub open spec fn clock_range(now: int) -> bool {
    -clock_limit() <= now <= clock_limit()
}

/// Whether a clock reading has its nanoseconds below one second, as
/// `since_epoch` gives it.
pub open spec fn valid_reading(reading: Result<(u64, u32), (u64, u32)>) -> bool {
    match reading {
        Ok(d) => d.1 < 1_000_000_000,
        Err(d) => d.1 < 1_000_000_000,
    }
}

fn reading_nanos(reading: Result<(u64, u32), (u64, u32)>) -> (r: i128)
    requires
        valid_reading(reading),
    ensures
        r == clock_nanos(reading),
        clock_range(r as int),
{
    match reading {
        Ok(d) => (d.0 as i128) * 1_000_000_000 + (d.1 as i128),
        Err(d) => -((d.0 as i128) * 1_000_000_000 + (d.1 as i128)),
    }
}

/// The whole minutes left from `now` (nanoseconds from the epoch) until the
/// instant `at` (seconds from the epoch), none when it is past: chrono's
/// `(at - now).num_minutes()`, which truncates towards zero, clamped at
/// zero.
pub open spec fn minutes_left(at: i64, now: int) -> nat {
    let d = at * 1_000_000_000 - now;
    if d <= 0 {
        0
    } else {
        (d / 60_000_000_000) as nat
    }
}

/// Minutes left never exceed the range of `i64`.
pub proof fn lemma_minutes_left_bound(at: i64, now: int)
    requires
        utc_timestamp_valid(at),
        clock_range(now),
    ensures
        minutes_left(at, now) <= i64::MAX,
{
    let d = at * 1_000_000_000 - now;
    if d > 0 {
        let bound: int = 8210266876799 * 1_000_000_000 + clock_limit();
        assert(d <= bound);
        let top: int = 60_000_000_000 * (i64::MAX as int);
        assert(bound <= top);
        vstd::arithmetic::div_mod::lemma_div_is_ordered(d, top, 60_000_000_000);
        vstd::arithmetic::div_mod::lemma_div_multiples_vanish(i64::MAX as int, 60_000_000_000);
    }
}

/// The whole minutes from `now` until `at`, clamped at zero.
pub fn minutes_until(at: UtcTime, now: i128) -> (r: i64)
    requires
        clock_range(now as int),
    ensures
        r as int == minutes_left(at.secs(), now as int),
{
    proof {
        use_type_invariant(&at);
        lemma_minutes_left_bound(at.secs(), now as int);
    }
    let d: i128 = (at.timestamp() as i128) * 1_000_000_000 - now;
    if d <= 0 {
        0
    } else {
        (d / 60_000_000_000) as i64
    }
}

/// The two strftime patterns used for reset instants.
pub open spec fn clock_pattern(with_date: bool) -> Seq<char> {
    if with_date {
        "%d/%m %H:%M"@
    } else {
        "%H:%M"@
    }
}

/// Whether `c` is an ASCII digit.
pub open spec fn is_digit(c: char) -> bool {
    '0' <= c && c <= '9'
}

/// The shape of a local time formatted by `clock_pattern(with_date)`:
/// "dd/mm HH:MM" or "HH:MM", every field two digits.
pub open spec fn clock_shape(t: Seq<char>, with_date: bool) -> bool {
    if with_date {
        &&& t.len() == 11
        &&& t[2] == '/' && t[5] == ' ' && t[8] == ':'
        &&& forall|i: int| 0 <= i < 11 && i != 2 && i != 5 && i != 8 ==> is_digit(#[trigger] t[i])
    } else {
        &&& t.len() == 5
        &&& t[2] == ':'
        &&& forall|i: int| 0 <= i < 5 && i != 2 ==> is_digit(#[trigger] t[i])
    }
}

/// Calls chrono's `with_timezone(&Local)` and `format(pattern)` on the
/// instant `at`. Which local time comes out depends on the machine's time
/// zone and is not stated; what is claimed is the shape that chrono's
/// strftime documentation gives `%d`, `%m`, `%H` and `%M` (two digits,
/// zero-padded). `requires` keeps out the instants for which
/// `timestamp_opt(..).unwrap()` panics, and patterns other than the two
/// used here.
#[verifier::external_body]
fn local_clock_text(at: i64, pattern: &str) -> (r: String)
    requires
        utc_timestamp_valid(at),
        pattern@ == clock_pattern(true) || pattern@ == clock_pattern(false),
    ensures
        pattern@ == clock_pattern(true) ==> clock_shape(r@, true),
        pattern@ == clock_pattern(false) ==> clock_shape(r@, false),
{
    Utc.timestamp_opt(at, 0).unwrap().with_timezone(&Local).format(pattern).to_string()
}

/// An instant in UTC, to the second, that chrono can represent.
#[derive(Copy, Clone, Debug)]
pub struct UtcTime {
    secs: i64,
}

impl UtcTime {
    #[verifier::type_invariant]
    spec fn representable(self) -> bool {
        utc_timestamp_valid(self.secs)
    }

    /// Seconds since the Unix epoch.
    pub closed spec fn secs(self) -> i64 {
        self.secs
    }

    /// The instant `secs` seconds after the epoch.
    pub closed spec fn at(secs: i64) -> UtcTime {
        UtcTime { secs }
    }

    /// The instant `secs` seconds after the epoch, when chrono can represent it.
    pub fn from_timestamp(secs: i64) -> (r: Option<UtcTime>)
        ensures
            r == (if utc_timestamp_valid(secs) {
                Some(UtcTime::at(secs))
            } else {
                None
            }),
            r matches Some(t) ==> t.secs() == secs,
    {
        if utc_timestamp_exists(secs) {
            Some(UtcTime { secs })
        } else {
            None
        }
    }

    /// Seconds since the Unix epoch.
    pub fn timestamp(&self) -> (r: i64)
        ensures
            r == self.secs(),
    {
        self.secs
    }
}

/// How long until a reset, from a non-negative number of minutes:
/// "{d}d{h}h" from a day on, "{h}h{mm}" from an hour on, else "{m}min".
pub open spec fn left_text(mins: nat) -> Seq<char> {
    if mins >= 1440 {
        dec(mins / 1440) + "d"@ + dec((mins % 1440) / 60) + "h"@
    } else if mins >= 60 {
        dec(mins / 60) + "h"@ + dec2(mins % 60)
    } else {
        dec(mins) + "min"@
    }
}

/// The reset text: the local time, then the time left in brackets.
pub open spec fn reset_phrase_text(time: Seq<char>, mins: nat) -> Seq<char> {
    time + " ("@ + left_text(mins) + ")"@
}

/// Minutes clamped at zero.
pub open spec fn clamp_minutes(mins: int) -> nat {
    if mins < 0 {
        0
    } else {
        mins as nat
    }
}

/// Builds the reset text from the local time text and the minutes left
/// (negative minutes count as zero).
pub fn reset_phrase(time: &str, mins: i64) -> (r: String)
    ensures
        r@ == reset_phrase_text(time@, clamp_minutes(mins as int)),
{
    let m: u64 = if mins < 0 {
        0
    } else {
        mins as u64
    };
    let mut left;
    if m >= 1440 {
        left = dec_text(m / 1440);
        left.append("d");
        let hours = dec_text((m % 1440) / 60);
        left.append(hours.as_str());
        left.append("h");
    } else if m >= 60 {
        left = dec_text(m / 60);
        left.append("h");
        let rest = dec2_text(m % 60);
        left.append(rest.as_str());
    } else {
        left = dec_text(m);
        left.append("min");
    }
    let mut r = String::from_str(time);
    r.append(" (");
    r.append(left.as_str());
    r.append(")");
    r
}

/// Whether `s` has the form of the reset text of `at` seen at the instant
/// `now` (nanoseconds from the epoch): exactly the minutes left until `at`,
/// after a local time of the matching shape ("dd/mm HH:MM" from a day on,
/// else "HH:MM"). Which local time is not tied to `at` here: it depends on
/// the machine's time zone.
pub open spec fn reset_form_at(s: Seq<char>, at: UtcTime, now: int) -> bool {
    exists|time: Seq<char>|
        clock_shape(time, minutes_left(at.secs(), now) >= 1440) && s == reset_phrase_text(
            time,
            minutes_left(at.secs(), now),
        )
}

/// Whether `s` has the form of the reset text of `at` (see
/// `reset_form_at`) for some possible clock reading; the minutes left are
/// then within the range of `i64`. Any well-shaped local time passes.
pub open spec fn reset_form_for(s: Seq<char>, at: UtcTime) -> bool {
    exists|now: int|
        clock_range(now) && minutes_left(at.secs(), now) <= i64::MAX && reset_form_at(s, at, now)
}

/// The reset text for `at` seen at `now` (nanoseconds from the epoch): the
/// local time ("%d/%m %H:%M" from a day on, else "%H:%M") and the time left.
pub fn fmt_reset_from(at: UtcTime, now: i128) -> (r: String)
    requires
        clock_range(now as int),
    ensures
        reset_form_at(r@, at, now as int),
{
    let mins = minutes_until(at, now);
    proof {
        use_type_invariant(&at);
    }
    let pattern = if mins >= 1440 {
        "%d/%m %H:%M"
    } else {
        "%H:%M"
    };
    proof {
        reveal_strlit("%d/%m %H:%M");
        reveal_strlit("%H:%M");
        assert(clock_pattern(true).len() == 11);
        assert(clock_pattern(false).len() == 5);
    }
    let time = local_clock_text(at.timestamp(), pattern);
    let r = reset_phrase(time.as_str(), mins);
    assert(clock_shape(time@, mins >= 1440));
    assert(r@ == reset_phrase_text(time@, clamp_minutes(mins as int)));
    r
}

/// The reset text for `at`, measured from the current time.
pub fn fmt_reset(at: UtcTime) -> (r: String)
    ensures
        reset_form_for(r@, at),
        exists|reading: Result<(u64, u32), (u64, u32)>|
            valid_reading(reading) && reset_form_at(r@, at, clock_nanos(reading)),
{
    let t = system_now();
    let reading = since_epoch(&t);
    let r = fmt_reset_at(at, reading);
    assert(valid_reading(reading) && reset_form_at(r@, at, clock_nanos(reading)));
    r
}

/// The reset text for `at` seen at the clock reading `reading` (whole
/// seconds and nanoseconds after the epoch for `Ok`, before it for `Err`).
pub fn fmt_reset_at(at: UtcTime, reading: Result<(u64, u32), (u64, u32)>) -> (r: String)
    requires
        valid_reading(reading),
    ensures
        reset_form_at(r@, at, clock_nanos(reading)),
        reset_form_for(r@, at),
{
    let now = reading_nanos(reading);
    let r = fmt_reset_from(at, now);
    proof {
        use_type_invariant(&at);
        lemma_minutes_left_bound(at.secs(), now as int);
    }
    r
}

} // verus!
