//! The key-value store: round trips, write suppression, deletion,
//! and scope separation.

use discord_bot::store::KeyValueStore;

#[test]
fn set_then_get_returns_value() {
    let mut store = KeyValueStore::new();
    store.set_guild_value("1001", "config.track_msg_edits", "42", 10);
    let got = store.get_guild_value("1001", "config.track_msg_edits");
    assert_eq!(got.as_deref(), Some("42"));

    store.set_user_value("7", "fortune_last", "a cookie", 11);
    let got = store.get_user_value("7", "fortune_last");
    assert_eq!(got.as_deref(), Some("a cookie"));
}

#[test]
fn get_missing_returns_none() {
    let store = KeyValueStore::new();
    assert_eq!(store.get_guild_value("1001", "config.track_msg_edits"), None);
}

#[test]
fn set_overwrites_changed_value() {
    let mut store = KeyValueStore::new();
    store.set_guild_value("1001", "stats.name", "Old Name", 10);
    store.set_guild_value("1001", "stats.name", "New Name", 20);
    let got = store.get_guild_value("1001", "stats.name");
    assert_eq!(got.as_deref(), Some("New Name"));
}

#[test]
fn identical_set_is_suppressed() {
    let mut store = KeyValueStore::new();
    store.set_guild_value("1001", "stats.name", "Example", 10);
    assert_eq!(store.write_count(), 1);
    // The second identical write never reaches storage.
    store.set_guild_value("1001", "stats.name", "Example", 999);
    assert_eq!(store.write_count(), 1);
    // A changed value does.
    store.set_guild_value("1001", "stats.name", "Renamed", 1000);
    assert_eq!(store.write_count(), 2);
}

#[test]
fn delete_missing_is_false_and_harmless() {
    let mut store = KeyValueStore::new();
    assert!(!store.delete_guild_value("1001", "config.track_joinleaves"));
    assert_eq!(store.get_guild_value("1001", "config.track_joinleaves"), None);
}

#[test]
fn delete_existing_is_true_and_get_finds_nothing() {
    let mut store = KeyValueStore::new();
    store.set_guild_value("1001", "config.track_joinleaves", "42", 10);
    assert!(store.delete_guild_value("1001", "config.track_joinleaves"));
    assert_eq!(store.get_guild_value("1001", "config.track_joinleaves"), None);
    // Deleting one key leaves the rest alone.
    store.set_guild_value("1001", "a", "1", 10);
    store.set_guild_value("1001", "b", "2", 10);
    assert!(store.delete_guild_value("1001", "a"));
    assert_eq!(store.get_guild_value("1001", "b").as_deref(), Some("2"));
}

#[test]
fn guild_and_user_scopes_do_not_collide() {
    let mut store = KeyValueStore::new();
    store.set_guild_value("12345", "shared.key", "guild value", 10);
    assert_eq!(store.get_user_value("12345", "shared.key"), None);

    store.set_user_value("12345", "shared.key", "user value", 11);
    assert_eq!(
        store.get_guild_value("12345", "shared.key").as_deref(),
        Some("guild value")
    );
    assert_eq!(
        store.get_user_value("12345", "shared.key").as_deref(),
        Some("user value")
    );

    assert!(store.delete_user_value("12345", "shared.key"));
    assert_eq!(
        store.get_guild_value("12345", "shared.key").as_deref(),
        Some("guild value")
    );
}

#[test]
fn get_all_returns_only_the_scope_identifier_asked_for() {
    let mut store = KeyValueStore::new();
    store.set_guild_value("1", "k1", "v1", 10);
    store.set_guild_value("1", "k2", "v2", 10);
    store.set_guild_value("2", "k3", "v3", 10);
    store.set_user_value("1", "k4", "v4", 10);

    let mut all = store.get_all_guild_values("1");
    all.sort();
    assert_eq!(
        all,
        vec![
            ("k1".to_string(), "v1".to_string()),
            ("k2".to_string(), "v2".to_string())
        ]
    );
    let user_all = store.get_all_user_values("1");
    assert_eq!(user_all, vec![("k4".to_string(), "v4".to_string())]);
    assert_eq!(store.get_all_guild_values("3"), vec![]);
}

#[test]
fn store_to_snowflake_parses_nonzero_identifiers() {
    let store = KeyValueStore::new();
    assert_eq!(store.to_snowflake("42"), Some(42));
    assert_eq!(store.to_snowflake("0"), None);
    assert_eq!(store.to_snowflake("not a number"), None);
}
