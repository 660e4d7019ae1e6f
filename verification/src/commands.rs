//! The computational cores of the slash commands: dice totals,
//! random picks, the coin and yes/no answers, the latency colour
//! thresholds, and the fortune cooldown bookkeeping.  Randomness
//! enters only through two trusted draws whose results are known to
//! lie in the requested closed range; everything downstream of a
//! draw is verified for every value the range admits.

use vstd::prelude::*;
use vstd::string::*;
use crate::format::AccentColor;
use crate::store::{KeyValueStore, Scope, spec_value, spec_set_state};
use crate::text::{
    spec_decimal, spec_parses_as_u64, spec_digits_of, spec_dec_value, parse_u64_decimal,
    u64_to_string,
};

verus! {

// ---------------------------------------------------------------------------
// Random draws (trusted)
// ---------------------------------------------------------------------------

/// Relies on rand: `rand::distr::Uniform::new_inclusive(lo, hi)`
/// only fails when `lo > hi`, and a sample from it lies in the
/// closed range `[lo, hi]`.  Nothing more is assumed of a random
/// value.
#[verifier::external_body]
fn random_u64_in(lo: u64, hi: u64) -> (r: u64)
    requires
        lo <= hi,
    ensures
        lo <= r <= hi,
{
    let mut generator = rand::rng();
    let range = rand::distr::Uniform::new_inclusive(lo, hi).unwrap();
    rand::distr::Distribution::sample(&range, &mut generator)
}

/// Relies on rand: `rand::distr::Uniform::new_inclusive(lo, hi)`
/// only fails when `lo > hi`, and a sample from it lies in the
/// closed range `[lo, hi]`.
#[verifier::external_body]
fn random_i64_in(lo: i64, hi: i64) -> (r: i64)
    requires
        lo <= hi,
    ensures
        lo <= r <= hi,
{
    let mut generator = rand::rng();
    let range = rand::distr::Uniform::new_inclusive(lo, hi).unwrap();
    rand::distr::Distribution::sample(&range, &mut generator)
}

// ---------------------------------------------------------------------------
// Dice and random picks
// ---------------------------------------------------------------------------

/// Rolls `rolls` dice of `sides` sides each and adds `offset`.  The
/// dice are rolled individually, so the total lies between one and
/// `sides` per die.
pub fn roll_dice(rolls: u8, sides: u8, offset: i32) -> (total: i64)
    requires
        sides >= 1,
    ensures
        rolls as int + offset as int <= total <= rolls as int * sides as int + offset as int,
{
    let mut sum: i64 = 0;
    let mut i: u8 = 0;
    while i < rolls
        invariant
            0 <= i <= rolls,
            sides >= 1,
            i as int <= sum <= i as int * sides as int,
            sum <= 65025,
        decreases rolls - i,
    {
        let die = random_u64_in(1, sides as u64);
        proof {
            assert(sum + die <= (i + 1) as int * sides as int && (i + 1) as int * sides as int
                <= 65025) by (nonlinear_arith)
                requires
                    sum <= i as int * sides as int,
                    die <= sides as int,
                    0 <= i as int <= 254,
                    1 <= sides as int <= 255,
            ;
        }
        sum = sum + die as i64;
        i = i + 1;
    }
    sum + offset as i64
}

/// Picks a number from the closed range, or nothing when the range
/// is empty or reversed.
pub fn pick_number(lower: i32, upper: i32) -> (r: Option<i32>)
    ensures
        r is Some <==> lower < upper,
        r matches Some(v) ==> lower <= v <= upper,
{
    if upper <= lower {
        None
    } else {
        let v = random_i64_in(lower as i64, upper as i64);
        Some(v as i32)
    }
}

/// The face a coin toss shows for a drawn number.
pub fn coin_face(n: i64) -> (s: &'static str)
    ensures
        n > 0 ==> s@ == "Heads"@,
        n <= 0 ==> s@ == "Tails"@,
{
    if n > 0 {
        "Heads"
    } else {
        "Tails"
    }
}

/// Flips a coin.
pub fn coinflip() -> (s: &'static str)
    ensures
        s@ == "Heads"@ || s@ == "Tails"@,
{
    let n = random_i64_in(0, 1);
    coin_face(n)
}

/// The answer the yes/no oracle gives for a drawn number: a rare
/// "Maybe" on one, otherwise yes on even and no on odd.
pub fn yes_no_answer(n: i64) -> (s: &'static str)
    requires
        n >= 0,
    ensures
        n == 1 ==> s@ == "Maybe"@,
        n != 1 && n % 2 == 0 ==> s@ == "Yes"@,
        n != 1 && n % 2 != 0 ==> s@ == "No"@,
{
    if n == 1 {
        "Maybe"
    } else if n % 2 == 0 {
        "Yes"
    } else {
        "No"
    }
}

/// Draws a yes/no answer.
pub fn yesno() -> (s: &'static str)
    ensures
        s@ == "Yes"@ || s@ == "No"@ || s@ == "Maybe"@,
{
    let n = random_i64_in(1, 1000);
    yes_no_answer(n)
}

/// Picks one entry of a non-empty list; an empty list yields
/// nothing.
pub fn pick_fortune(fortunes: &Vec<String>) -> (r: Option<String>)
    ensures
        r is Some <==> fortunes@.len() > 0,
        r matches Some(s) ==> exists|i: int| 0 <= i < fortunes@.len() && s@ == fortunes@[i]@,
{
    if fortunes.len() == 0 {
        None
    } else {
        let i = random_u64_in(0, (fortunes.len() - 1) as u64);
        let s = fortunes[i as usize].clone();
        proof {
            assert(s@ == fortunes@[i as int]@);
        }
        Some(s)
    }
}

// ---------------------------------------------------------------------------
// Latency colour
// ---------------------------------------------------------------------------

/// The accent colour of a latency report: green up to 150 ms, gold
/// up to 800 ms, red beyond.
pub fn latency_colour(latency_ms: i64) -> (c: AccentColor)
    ensures
        latency_ms <= 150 ==> c == AccentColor::DarkGreen,
        150 < latency_ms <= 800 ==> c == AccentColor::Gold,
        latency_ms > 800 ==> c == AccentColor::DarkRed,
{
    if latency_ms <= 150 {
        AccentColor::DarkGreen
    } else if latency_ms <= 800 {
        AccentColor::Gold
    } else {
        AccentColor::DarkRed
    }
}

// ---------------------------------------------------------------------------
// Fortune cooldown
// ---------------------------------------------------------------------------

/// The instant a stored cooldown string denotes: the denoted number
/// when it is a decimal in `i64` range, zero for anything else.
pub open spec fn spec_timestamp_of(s: Seq<char>) -> int {
    if spec_parses_as_u64(s) && spec_dec_value(spec_digits_of(s)) <= i64::MAX {
        spec_dec_value(spec_digits_of(s))
    } else {
        0
    }
}

/// Reads a stored cooldown instant back, falling back to zero.
fn parse_timestamp(s: &str) -> (t: i64)
    ensures
        t == spec_timestamp_of(s@),
        t >= 0,
{
    match parse_u64_decimal(s) {
        Some(v) => {
            if v <= i64::MAX as u64 {
                v as i64
            } else {
                0
            }
        },
        None => 0,
    }
}

/// Whether a user may receive a fortune now, and what to tell them
/// otherwise.
pub enum FortuneDecision {
    /// No cooldown applies: hand a fortune out.
    Ready,
    /// The user must wait; the remaining span, its breakdown, and
    /// the previous fortune when one is stored.
    Cooldown { remaining: i64, hours: i64, minutes: i64, seconds: i64, previous: Option<String> },
}

/// Decides the fortune cooldown: a user with no recorded instant is
/// ready; otherwise the elapsed span since the recorded instant
/// (clamped to zero should the record lie in the future) must reach
/// `cooldown` seconds.
pub fn fortune_check(store: &KeyValueStore, user_id: u64, cooldown: i64, now: i64) -> (r:
    FortuneDecision)
    requires
        store.wf(),
        cooldown >= 0,
        now >= 0,
    ensures
        ({
            let id = spec_decimal(user_id as nat);
            let last = spec_value(store@, Scope::User, id, "fortune_last_time"@);
            let prev = spec_value(store@, Scope::User, id, "fortune_last"@);
            &&& last is None ==> r is Ready
            &&& last matches Some(t) ==> {
                let elapsed = if now >= spec_timestamp_of(t) {
                    now - spec_timestamp_of(t)
                } else {
                    0
                };
                if elapsed < cooldown {
                    &&& r matches FortuneDecision::Cooldown {
                        remaining,
                        hours,
                        minutes,
                        seconds,
                        previous,
                    }
                    &&& remaining == cooldown - elapsed
                    &&& hours == remaining / 3600
                    &&& minutes == (remaining % 3600) / 60
                    &&& seconds == remaining % 60
                    &&& match prev {
                        Some(p) => previous matches Some(ps) && ps@ == p,
                        None => previous is None,
                    }
                } else {
                    r is Ready
                }
            }
        }),
{
    let id = u64_to_string(user_id);
    let previous = store.get_user_value(id.as_str(), "fortune_last");
    let previous_time = store.get_user_value(id.as_str(), "fortune_last_time");
    match previous_time {
        None => FortuneDecision::Ready,
        Some(t) => {
            let last = parse_timestamp(t.as_str());
            let elapsed: i64 = if now >= last {
                now - last
            } else {
                0
            };
            if elapsed < cooldown {
                let remaining = cooldown - elapsed;
                FortuneDecision::Cooldown {
                    remaining,
                    hours: remaining / 3600,
                    minutes: (remaining % 3600) / 60,
                    seconds: remaining % 60,
                    previous,
                }
            } else {
                FortuneDecision::Ready
            }
        },
    }
}

/// Records a freshly served fortune and the instant it was served.
pub fn fortune_record(store: &mut KeyValueStore, user_id: u64, fortune: &str, now: i64)
    requires
        old(store).wf(),
        now >= 0,
    ensures
        final(store).wf(),
        ({
            let id = spec_decimal(user_id as nat);
            let mid = spec_set_state(
                old(store)@,
                Scope::User,
                id,
                "fortune_last"@,
                fortune@,
                now as int,
            );
            final(store)@ == spec_set_state(
                mid,
                Scope::User,
                id,
                "fortune_last_time"@,
                spec_decimal(now as nat),
                now as int,
            )
        }),
{
    let id = u64_to_string(user_id);
    store.set_user_value(id.as_str(), "fortune_last", fortune, now);
    let now_text = u64_to_string(now as u64);
    store.set_user_value(id.as_str(), "fortune_last_time", now_text.as_str(), now);
}

/// Whether an upsert must reach storage: it must unless the
/// identical value is already stored.
pub fn should_write(existing: &Option<String>, value: &str) -> (b: bool)
    ensures
        b == match existing {
            Some(e) => e@ != value@,
            None => true,
        },
{
    match existing {
        Some(e) => !crate::text::str_eq(e.as_str(), value),
        None => true,
    }
}

} // verus!
