//! Decimal rendering and parsing, and the elapsed-time breakdowns.

use discord_bot::text::{i64_to_string, message_link, u64_to_string, user_mention};
use discord_bot::tools::{
    duration_text, snowflake_created_seconds, to_snowflake, user_account_age,
};

#[test]
fn renders_decimals() {
    assert_eq!(u64_to_string(0), "0");
    assert_eq!(u64_to_string(7), "7");
    assert_eq!(u64_to_string(1234567890), "1234567890");
    assert_eq!(u64_to_string(u64::MAX), "18446744073709551615");
}

#[test]
fn renders_signed_decimals() {
    assert_eq!(i64_to_string(0), "0");
    assert_eq!(i64_to_string(-1), "-1");
    assert_eq!(i64_to_string(i64::MIN), "-9223372036854775808");
    assert_eq!(i64_to_string(i64::MAX), "9223372036854775807");
}

#[test]
fn parses_snowflake_strings() {
    assert_eq!(to_snowflake("42"), Some(42));
    assert_eq!(to_snowflake("+42"), Some(42));
    assert_eq!(to_snowflake("0042"), Some(42));
    assert_eq!(to_snowflake("18446744073709551615"), Some(u64::MAX));
}

#[test]
fn rejects_malformed_snowflake_strings() {
    assert_eq!(to_snowflake(""), None);
    assert_eq!(to_snowflake("+"), None);
    assert_eq!(to_snowflake("0"), None);
    assert_eq!(to_snowflake("-42"), None);
    assert_eq!(to_snowflake("42a"), None);
    assert_eq!(to_snowflake("4 2"), None);
    // One past u64::MAX.
    assert_eq!(to_snowflake("18446744073709551616"), None);
    // Far past it.
    assert_eq!(to_snowflake("999999999999999999999999999"), None);
}

#[test]
fn rendering_then_parsing_round_trips() {
    for id in [1u64, 9, 10, 4194304, 175928847299117063, u64::MAX] {
        assert_eq!(to_snowflake(&u64_to_string(id)), Some(id));
    }
}

#[test]
fn reads_the_creation_instant_out_of_a_snowflake() {
    // The zero identifier carries the platform epoch itself.
    assert_eq!(snowflake_created_seconds(0), 1420070400);
    // 2^22 is one millisecond past the epoch.
    assert_eq!(snowflake_created_seconds(4194304), 1420070400);
    // A real identifier: 175928847299117063 >> 22 = 41944705796 ms.
    assert_eq!(
        snowflake_created_seconds(175928847299117063),
        (41944705796u64 + 1420070400000) as i64 / 1000
    );
}

#[test]
fn account_age_decomposes_elapsed_seconds() {
    // Identifier 0 was created at the platform epoch.
    let created = 1420070400i64;
    // One average year, one day, one hour, one minute, one second.
    let now = created + 31556925 + 86400 + 3600 + 60 + 1;
    assert_eq!(
        user_account_age(0, now),
        "1 years, 1 days, 1 hours, 1 minutes, 1 seconds"
    );
    assert_eq!(
        user_account_age(0, created),
        "0 years, 0 days, 0 hours, 0 minutes, 0 seconds"
    );
    // A clock behind the creation instant clamps to zero.
    assert_eq!(
        user_account_age(0, 0),
        "0 years, 0 days, 0 hours, 0 minutes, 0 seconds"
    );
}

#[test]
fn duration_decomposes_elapsed_seconds() {
    assert_eq!(duration_text(0, 90061), "1 days, 1 hours, 1 minutes, 1 seconds");
    assert_eq!(duration_text(100, 100), "0 days, 0 hours, 0 minutes, 0 seconds");
    assert_eq!(
        duration_text(0, 2 * 86400 + 3 * 3600 + 4 * 60 + 5),
        "2 days, 3 hours, 4 minutes, 5 seconds"
    );
}

#[test]
fn renders_mentions_and_links() {
    assert_eq!(user_mention(42), "<@42>");
    assert_eq!(
        message_link(1, 2, 3),
        "https://discord.com/channels/1/2/3"
    );
}
