//! The event router end to end: configuration gating, cache
//! reconciliation, edit dedup, and the notifications that come out.

use discord_bot::config::{disable, enable, resolve, EnableOutcome, Feature};
use discord_bot::events::{
    apply_writes, event_dispatcher, Event, MemberInfo, MessageSnapshot, TransportEnv, UserInfo,
};
use discord_bot::format::AccentColor;
use discord_bot::store::KeyValueStore;

const NOW: i64 = 1700000000;

fn quiet_env() -> TransportEnv {
    TransportEnv {
        cached_message: None,
        fetched_message: None,
    }
}

fn snapshot(author_id: u64, bot: bool, content: &str) -> MessageSnapshot {
    MessageSnapshot {
        author_id,
        author_is_bot: bot,
        content: content.to_string(),
    }
}

fn user(id: u64) -> UserInfo {
    UserInfo {
        id,
        name: "somebody".to_string(),
        discriminator: None,
        global_name: Some("Some Body".to_string()),
        avatar_url: None,
    }
}

fn store_with_edits_tracked(guild: u64, channel: u64) -> KeyValueStore {
    let mut store = KeyValueStore::new();
    let outcome = enable(&mut store, guild, Feature::TrackMsgEdits, channel, true, true, NOW);
    assert_eq!(outcome, EnableOutcome::Enabled);
    store
}

#[test]
fn identical_edit_content_is_suppressed() {
    let store = store_with_edits_tracked(10, 77);
    let event = Event::MessageUpdate {
        channel_id: 5,
        message_id: 6,
        guild_id: Some(10),
        old_if_available: Some(snapshot(1, false, "same words")),
        new: Some(snapshot(1, false, "same words")),
    };
    let out = event_dispatcher(&store, &event, &quiet_env(), NOW);
    assert_eq!(out.notifications.len(), 0);
    assert_eq!(out.warnings.len(), 0);
}

#[test]
fn changed_edit_content_notifies_exactly_once() {
    let store = store_with_edits_tracked(10, 77);
    let event = Event::MessageUpdate {
        channel_id: 5,
        message_id: 6,
        guild_id: Some(10),
        old_if_available: Some(snapshot(1, false, "before")),
        new: Some(snapshot(1, false, "after")),
    };
    let out = event_dispatcher(&store, &event, &quiet_env(), NOW);
    assert_eq!(out.notifications.len(), 1);
    let n = &out.notifications[0];
    assert_eq!(n.channel_id, 77);
    assert_eq!(n.payload.color, AccentColor::DarkTeal);
    assert_eq!(n.payload.description, "**Old:** before\n\n**New:** after\n");
    assert_eq!(n.payload.footer.as_deref(), Some("Message ID: 6"));
}

#[test]
fn edit_without_cached_old_content_marks_it_unavailable() {
    let store = store_with_edits_tracked(10, 77);
    let event = Event::MessageUpdate {
        channel_id: 5,
        message_id: 6,
        guild_id: Some(10),
        old_if_available: None,
        new: Some(snapshot(1, false, "after")),
    };
    let out = event_dispatcher(&store, &event, &quiet_env(), NOW);
    assert_eq!(out.notifications.len(), 1);
    assert_eq!(
        out.notifications[0].payload.description,
        "**Old content unavailable.** \n**New:** after"
    );
}

#[test]
fn events_without_a_guild_notify_nobody() {
    // Tracking is on for the guild, but these events carry none.
    let store = store_with_edits_tracked(10, 77);
    let update = Event::MessageUpdate {
        channel_id: 5,
        message_id: 6,
        guild_id: None,
        old_if_available: Some(snapshot(1, false, "before")),
        new: Some(snapshot(1, false, "after")),
    };
    let out = event_dispatcher(&store, &update, &quiet_env(), NOW);
    assert_eq!(out.notifications.len(), 0);
    assert_eq!(out.warnings.len(), 0);

    let delete = Event::MessageDelete {
        channel_id: 5,
        message_id: 6,
        guild_id: None,
    };
    let env = TransportEnv {
        cached_message: Some(snapshot(1, false, "gone")),
        fetched_message: None,
    };
    let out = event_dispatcher(&store, &delete, &env, NOW);
    assert_eq!(out.notifications.len(), 0);
}

#[test]
fn disabled_tracking_notifies_nobody() {
    let store = KeyValueStore::new();
    let event = Event::MessageUpdate {
        channel_id: 5,
        message_id: 6,
        guild_id: Some(10),
        old_if_available: Some(snapshot(1, false, "before")),
        new: Some(snapshot(1, false, "after")),
    };
    let out = event_dispatcher(&store, &event, &quiet_env(), NOW);
    assert_eq!(out.notifications.len(), 0);
}

#[test]
fn missing_snapshot_and_failed_fetch_drop_with_one_warning() {
    let store = store_with_edits_tracked(10, 77);
    let event = Event::MessageUpdate {
        channel_id: 5,
        message_id: 6,
        guild_id: Some(10),
        old_if_available: None,
        new: None,
    };
    // The fetch fails too.
    let out = event_dispatcher(&store, &event, &quiet_env(), NOW);
    assert!(out.fetch_attempted);
    assert_eq!(out.notifications.len(), 0);
    assert_eq!(out.warnings.len(), 1);
    assert_eq!(out.warnings[0], "Failed to log edit, fetch failed");
}

#[test]
fn missing_snapshot_with_successful_fetch_notifies() {
    let store = store_with_edits_tracked(10, 77);
    let event = Event::MessageUpdate {
        channel_id: 5,
        message_id: 6,
        guild_id: Some(10),
        old_if_available: None,
        new: None,
    };
    let env = TransportEnv {
        cached_message: None,
        fetched_message: Some(snapshot(1, false, "fetched words")),
    };
    let out = event_dispatcher(&store, &event, &env, NOW);
    assert!(out.fetch_attempted);
    assert_eq!(out.warnings.len(), 0);
    assert_eq!(out.notifications.len(), 1);
}

#[test]
fn bot_authors_are_excluded() {
    let store = store_with_edits_tracked(10, 77);
    let event = Event::MessageUpdate {
        channel_id: 5,
        message_id: 6,
        guild_id: Some(10),
        old_if_available: Some(snapshot(1, true, "before")),
        new: Some(snapshot(1, true, "after")),
    };
    let out = event_dispatcher(&store, &event, &quiet_env(), NOW);
    assert_eq!(out.notifications.len(), 0);

    let delete = Event::MessageDelete {
        channel_id: 5,
        message_id: 6,
        guild_id: Some(10),
    };
    let env = TransportEnv {
        cached_message: Some(snapshot(1, true, "gone")),
        fetched_message: None,
    };
    let out = event_dispatcher(&store, &delete, &env, NOW);
    assert_eq!(out.notifications.len(), 0);
}

#[test]
fn deleted_message_notifies_with_cached_content() {
    let store = store_with_edits_tracked(10, 77);
    let delete = Event::MessageDelete {
        channel_id: 5,
        message_id: 6,
        guild_id: Some(10),
    };
    let env = TransportEnv {
        cached_message: Some(snapshot(9, false, "the lost words")),
        fetched_message: None,
    };
    let out = event_dispatcher(&store, &delete, &env, NOW);
    assert_eq!(out.notifications.len(), 1);
    let p = &out.notifications[0].payload;
    assert_eq!(p.color, AccentColor::DarkRed);
    assert_eq!(p.description, "**Text:** the lost words");
    assert_eq!(p.fields[0].value, "<@9>");
    assert_eq!(p.fields[1].name, "Message:");
    assert_eq!(p.fields[1].value, "https://discord.com/channels/10/5/6");
}

#[test]
fn deleted_message_survives_a_cache_miss() {
    let store = store_with_edits_tracked(10, 77);
    let delete = Event::MessageDelete {
        channel_id: 5,
        message_id: 6,
        guild_id: Some(10),
    };
    let out = event_dispatcher(&store, &delete, &quiet_env(), NOW);
    assert_eq!(out.notifications.len(), 1);
    let p = &out.notifications[0].payload;
    assert_eq!(p.description, "**Old content unavailable.**");
    assert_eq!(p.fields[0].value, "Unknown");
    assert_eq!(p.fields[1].name, "Channel:");
    assert_eq!(p.fields[1].value, "<#5>");
}

#[test]
fn member_join_tracking_end_to_end() {
    let mut store = KeyValueStore::new();
    let outcome = enable(&mut store, 10, Feature::TrackJoinLeaves, 55, true, true, NOW);
    assert_eq!(outcome, EnableOutcome::Enabled);
    assert_eq!(resolve(&store, 10, Feature::TrackJoinLeaves), Some(55));

    let joined = Event::GuildMemberAddition {
        guild_id: 10,
        user: user(175928847299117063),
    };
    let out = event_dispatcher(&store, &joined, &quiet_env(), NOW);
    assert_eq!(out.notifications.len(), 1);
    let n = &out.notifications[0];
    assert_eq!(n.channel_id, 55);
    let p = &n.payload;
    assert_eq!(p.color, AccentColor::DarkGreen);
    assert_eq!(p.fields[0].value, "<@175928847299117063>");
    assert_eq!(p.fields[1].value, "175928847299117063");
    assert_eq!(p.fields[3].value, "None (next gen account)");
    // Created 1462015105; elapsed 237984895 s = 7 years, 197 days,
    // 18 hours, 13 minutes, 40 seconds under the fixed average year.
    assert_eq!(p.fields[5].name, "Account age:");
    assert_eq!(p.fields[5].value, "7 years, 197 days, 18 hours, 13 minutes, 40 seconds");

    // Disable and replay: nothing goes out any more.
    disable(&mut store, 10, Feature::TrackJoinLeaves);
    let replay = Event::GuildMemberAddition {
        guild_id: 10,
        user: user(175928847299117063),
    };
    let out = event_dispatcher(&store, &replay, &quiet_env(), NOW);
    assert_eq!(out.notifications.len(), 0);
}

#[test]
fn member_removal_reports_membership_duration() {
    let mut store = KeyValueStore::new();
    enable(&mut store, 10, Feature::TrackJoinLeaves, 55, true, true, NOW);
    let removed = Event::GuildMemberRemoval {
        guild_id: 10,
        user: user(42),
        member: Some(MemberInfo {
            nickname: Some("nick".to_string()),
            joined_at: Some(NOW - 90061),
        }),
    };
    let out = event_dispatcher(&store, &removed, &quiet_env(), NOW);
    assert_eq!(out.notifications.len(), 1);
    let p = &out.notifications[0].payload;
    assert_eq!(p.color, AccentColor::DarkRed);
    assert_eq!(p.fields[5].value, "nick");
    assert_eq!(p.fields[6].value, "1 days, 1 hours, 1 minutes, 1 seconds");

    // Without member data the duration is unknown, not an error.
    let removed = Event::GuildMemberRemoval {
        guild_id: 10,
        user: user(42),
        member: None,
    };
    let out = event_dispatcher(&store, &removed, &quiet_env(), NOW);
    assert_eq!(out.notifications.len(), 1);
    assert_eq!(out.notifications[0].payload.fields[6].value, "Unknown");
}

#[test]
fn enable_refuses_without_permission_and_writes_nothing() {
    let mut store = KeyValueStore::new();
    let outcome = enable(&mut store, 10, Feature::TrackJoinLeaves, 55, true, false, NOW);
    assert_eq!(outcome, EnableOutcome::NoSendPermission);
    assert_eq!(store.get_guild_value("10", "config.track_joinleaves"), None);
    assert_eq!(resolve(&store, 10, Feature::TrackJoinLeaves), None);

    let outcome = enable(&mut store, 10, Feature::TrackJoinLeaves, 55, false, false, NOW);
    assert_eq!(outcome, EnableOutcome::ChannelNotFound);
    assert_eq!(store.get_guild_value("10", "config.track_joinleaves"), None);
}

#[test]
fn malformed_stored_channel_counts_as_disabled() {
    let mut store = KeyValueStore::new();
    store.set_guild_value("10", "config.track_msg_edits", "not a channel", NOW);
    assert_eq!(resolve(&store, 10, Feature::TrackMsgEdits), None);
    let event = Event::MessageUpdate {
        channel_id: 5,
        message_id: 6,
        guild_id: Some(10),
        old_if_available: Some(snapshot(1, false, "before")),
        new: Some(snapshot(1, false, "after")),
    };
    let out = event_dispatcher(&store, &event, &quiet_env(), NOW);
    assert_eq!(out.notifications.len(), 0);
}

#[test]
fn guild_create_records_first_join_then_reconnect() {
    let mut store = KeyValueStore::new();
    let created = Event::GuildCreate {
        guild_id: 10,
        guild_name: "Example Guild".to_string(),
    };
    let out = event_dispatcher(&store, &created, &quiet_env(), NOW);
    assert_eq!(out.notifications.len(), 0);
    assert_eq!(out.infos, vec!["Joined guild \"Example Guild\" ID 10"]);
    assert_eq!(out.writes.len(), 3);
    assert_eq!(out.writes[0].key, "stats.first_join");
    assert_eq!(out.writes[1].key, "stats.last_join");
    assert_eq!(out.writes[2].key, "stats.name");
    assert_eq!(out.writes[2].value, "Example Guild");

    apply_writes(&mut store, &out.writes, NOW);
    assert_eq!(
        store.get_guild_value("10", "stats.name").as_deref(),
        Some("Example Guild")
    );

    // The same guild again: a reconnect, no first-join write.
    let out = event_dispatcher(&store, &created, &quiet_env(), NOW + 5);
    assert_eq!(out.infos, vec!["Reconnected to guild \"Example Guild\" ID 10"]);
    assert_eq!(out.writes.len(), 2);
    assert_eq!(out.writes[0].key, "stats.last_join");

    // Applying the reconnect refreshes the last-join instant but
    // suppresses the unchanged name: exactly one write reaches
    // storage.
    let before = store.write_count();
    apply_writes(&mut store, &out.writes, NOW + 5);
    assert_eq!(store.write_count(), before + 1);
}

#[test]
fn guild_delete_distinguishes_outage_from_removal() {
    let mut store = KeyValueStore::new();
    store.set_guild_value("10", "stats.name", "Cached Name", NOW);

    let outage = Event::GuildDelete {
        guild_id: 10,
        guild_name: None,
        unavailable: true,
    };
    let out = event_dispatcher(&store, &outage, &quiet_env(), NOW);
    assert_eq!(out.infos, vec!["Guild unavailable: \"Cached Name\" ID 10"]);
    assert_eq!(out.writes.len(), 0);

    let removal = Event::GuildDelete {
        guild_id: 10,
        guild_name: Some("Fresh Name".to_string()),
        unavailable: false,
    };
    let out = event_dispatcher(&store, &removal, &quiet_env(), NOW);
    assert_eq!(out.infos, vec!["Removed from guild: \"Fresh Name\" ID 10"]);
    assert_eq!(out.writes.len(), 1);
    assert_eq!(out.writes[0].key, "stats.kicked_from");
    assert_eq!(out.writes[0].value, "");
}

#[test]
fn guild_update_refreshes_the_cached_name() {
    let mut store = KeyValueStore::new();
    store.set_guild_value("10", "stats.name", "Old", NOW);
    let update = Event::GuildUpdate {
        guild_id: 10,
        guild_name: "New".to_string(),
    };
    let out = event_dispatcher(&store, &update, &quiet_env(), NOW);
    assert_eq!(out.notifications.len(), 0);
    assert_eq!(out.writes.len(), 1);
    apply_writes(&mut store, &out.writes, NOW);
    assert_eq!(store.get_guild_value("10", "stats.name").as_deref(), Some("New"));
}

#[test]
fn unhandled_events_do_nothing() {
    let store = store_with_edits_tracked(10, 77);
    let out = event_dispatcher(&store, &Event::Other, &quiet_env(), NOW);
    assert_eq!(out.notifications.len(), 0);
    assert_eq!(out.writes.len(), 0);
    assert_eq!(out.infos.len(), 0);
    assert_eq!(out.warnings.len(), 0);

    let out = event_dispatcher(&store, &Event::Resume, &quiet_env(), NOW);
    assert_eq!(out.notifications.len(), 0);
    assert_eq!(out.infos, vec!["Reconnected to gateway"]);

    let ready = Event::Ready {
        bot_name: "botto".to_string(),
        bot_id: 99,
    };
    let out = event_dispatcher(&store, &ready, &quiet_env(), NOW);
    assert_eq!(out.infos, vec!["Authenticated as botto ID 99"]);
}
