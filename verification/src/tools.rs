//! Identifier and elapsed-time helpers: parsing snowflake strings,
//! reading the creation instant a snowflake encodes, and breaking an
//! elapsed span of seconds down into calendar-free units.  The
//! breakdowns use a fixed average year length and integer division
//! only, so the same two instants always give the same text.

use vstd::prelude::*;
use vstd::string::*;
use crate::text::{
    spec_parses_as_u64, spec_digits_of, spec_dec_value, spec_decimal, parse_u64_decimal,
    u64_to_string,
};

verus! {

/// Milliseconds between the unix epoch and the platform's epoch;
/// snowflake timestamps count from the latter.
pub const PLATFORM_EPOCH_MILLIS: u64 = 1420070400000;

/// A fixed average year of 365.242189 days, in whole seconds.  Using
/// a constant rather than calendar arithmetic keeps the age
/// computation reproducible bit for bit.
pub const AVERAGE_YEAR_SECONDS: u64 = 31556925;

/// Seconds per day, hour and minute.
pub const DAY_SECONDS: u64 = 86400;

pub const HOUR_SECONDS: u64 = 3600;

pub const MINUTE_SECONDS: u64 = 60;

/// Parses a string as a nonzero snowflake identifier: an optional
/// plus sign, then digits, denoting a value in `1 ..= u64::MAX`.
pub fn to_snowflake(snowflake_string: &str) -> (r: Option<u64>)
    ensures
        r is Some <==> spec_parses_as_u64(snowflake_string@) && spec_dec_value(
            spec_digits_of(snowflake_string@),
        ) != 0,
        r matches Some(v) ==> v == spec_dec_value(spec_digits_of(snowflake_string@)) && v != 0,
{
    match parse_u64_decimal(snowflake_string) {
        Some(v) => {
            if v != 0 {
                Some(v)
            } else {
                None
            }
        },
        None => None,
    }
}

/// The creation instant a snowflake encodes, in seconds since the
/// unix epoch: the top 42 bits count milliseconds from the
/// platform's epoch.
pub open spec fn spec_created_seconds(id: u64) -> int {
    (id as int / 4194304 + PLATFORM_EPOCH_MILLIS) / 1000
}

/// Reads the creation instant out of a snowflake identifier.
pub fn snowflake_created_seconds(id: u64) -> (t: i64)
    ensures
        t == spec_created_seconds(id),
        t >= 0,
{
    // The timestamp field is the identifier with its low 22 bits
    // dropped, i.e. division by 2^22.
    let millis: u64 = id / 4194304 + PLATFORM_EPOCH_MILLIS;
    (millis / 1000) as i64
}

/// The span between two instants, clamped to zero when the second
/// precedes the first.
pub open spec fn spec_elapsed(created: int, now: int) -> int {
    if now >= created {
        now - created
    } else {
        0
    }
}

/// An elapsed span in whole average years, then days, hours, minutes
/// and seconds, each reduced from the remainder of the previous
/// unit.
pub struct AgeBreakdown {
    pub years: u64,
    pub days: u64,
    pub hours: u64,
    pub minutes: u64,
    pub seconds: u64,
}

/// Whether a breakdown is the decomposition of `elapsed` seconds,
/// years first.
pub open spec fn spec_age_breakdown(a: AgeBreakdown, elapsed: int) -> bool {
    let r1 = elapsed % AVERAGE_YEAR_SECONDS as int;
    let r2 = r1 % DAY_SECONDS as int;
    let r3 = r2 % HOUR_SECONDS as int;
    &&& a.years == elapsed / AVERAGE_YEAR_SECONDS as int
    &&& a.days == r1 / DAY_SECONDS as int
    &&& a.hours == r2 / HOUR_SECONDS as int
    &&& a.minutes == r3 / MINUTE_SECONDS as int
    &&& a.seconds == r3 % MINUTE_SECONDS as int
}

/// Decomposes the span between a creation instant and "now".
pub fn age_breakdown(created: i64, now: i64) -> (a: AgeBreakdown)
    requires
        created >= 0,
    ensures
        spec_age_breakdown(a, spec_elapsed(created as int, now as int)),
{
    let elapsed: u64 = if now >= created {
        (now - created) as u64
    } else {
        0
    };
    let years: u64 = elapsed / AVERAGE_YEAR_SECONDS;
    let r1: u64 = elapsed % AVERAGE_YEAR_SECONDS;
    let days: u64 = r1 / DAY_SECONDS;
    let r2: u64 = r1 % DAY_SECONDS;
    let hours: u64 = r2 / HOUR_SECONDS;
    let r3: u64 = r2 % HOUR_SECONDS;
    let minutes: u64 = r3 / MINUTE_SECONDS;
    let seconds: u64 = r3 % MINUTE_SECONDS;
    AgeBreakdown { years, days, hours, minutes, seconds }
}

/// The rendered age line, years first.
pub open spec fn spec_age_text(elapsed: int) -> Seq<char> {
    let r1 = elapsed % AVERAGE_YEAR_SECONDS as int;
    let r2 = r1 % DAY_SECONDS as int;
    let r3 = r2 % HOUR_SECONDS as int;
    spec_decimal((elapsed / AVERAGE_YEAR_SECONDS as int) as nat) + " years, "@ + spec_decimal(
        (r1 / DAY_SECONDS as int) as nat,
    ) + " days, "@ + spec_decimal((r2 / HOUR_SECONDS as int) as nat) + " hours, "@ + spec_decimal(
        (r3 / MINUTE_SECONDS as int) as nat,
    ) + " minutes, "@ + spec_decimal((r3 % MINUTE_SECONDS as int) as nat) + " seconds"@
}

/// The age of an account, computed from the creation instant its
/// identifier encodes and the given "now", rendered as text.
pub fn user_account_age(user_id: u64, now: i64) -> (s: String)
    ensures
        s@ == spec_age_text(spec_elapsed(spec_created_seconds(user_id), now as int)),
{
    let created = snowflake_created_seconds(user_id);
    let a = age_breakdown(created, now);
    let s = u64_to_string(a.years).concat(" years, ").concat(
        u64_to_string(a.days).as_str(),
    ).concat(" days, ").concat(u64_to_string(a.hours).as_str()).concat(" hours, ").concat(
        u64_to_string(a.minutes).as_str(),
    ).concat(" minutes, ").concat(u64_to_string(a.seconds).as_str()).concat(" seconds");
    proof {
        assert(s@ =~= spec_age_text(spec_elapsed(created as int, now as int)));
    }
    s
}

/// The rendered duration line, days first.
pub open spec fn spec_duration_text(elapsed: int) -> Seq<char> {
    let r2 = elapsed % DAY_SECONDS as int;
    let r3 = r2 % HOUR_SECONDS as int;
    spec_decimal((elapsed / DAY_SECONDS as int) as nat) + " days, "@ + spec_decimal(
        (r2 / HOUR_SECONDS as int) as nat,
    ) + " hours, "@ + spec_decimal((r3 / MINUTE_SECONDS as int) as nat) + " minutes, "@
        + spec_decimal((r3 % MINUTE_SECONDS as int) as nat) + " seconds"@
}

/// An elapsed span of seconds rendered as whole days, hours, minutes
/// and seconds; spans that would be negative render as zero.
pub fn duration_text(start: i64, now: i64) -> (s: String)
    requires
        start >= 0,
    ensures
        s@ == spec_duration_text(spec_elapsed(start as int, now as int)),
{
    let elapsed: u64 = if now >= start {
        (now - start) as u64
    } else {
        0
    };
    let days: u64 = elapsed / DAY_SECONDS;
    let r2: u64 = elapsed % DAY_SECONDS;
    let hours: u64 = r2 / HOUR_SECONDS;
    let r3: u64 = r2 % HOUR_SECONDS;
    let minutes: u64 = r3 / MINUTE_SECONDS;
    let seconds: u64 = r3 % MINUTE_SECONDS;
    let s = u64_to_string(days).concat(" days, ").concat(u64_to_string(hours).as_str()).concat(
        " hours, ",
    ).concat(u64_to_string(minutes).as_str()).concat(" minutes, ").concat(
        u64_to_string(seconds).as_str(),
    ).concat(" seconds");
    proof {
        assert(s@ =~= spec_duration_text(spec_elapsed(start as int, now as int)));
    }
    s
}

} // verus!
