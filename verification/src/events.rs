//! The event envelope vocabulary and the dispatcher that routes one
//! decoded platform event at a time: it consults the per-guild
//! configuration, reconciles the payload against the transport's
//! cache, suppresses no-op edits, and emits at most one notification
//! per qualifying event.

use vstd::prelude::*;
use vstd::string::*;
use crate::format::{
    Payload, spec_message_deleted_payload, spec_message_edited_payload, spec_member_joined_payload,
    spec_member_removed_payload, format_message_deleted, format_message_edited,
    format_member_joined, format_member_removed,
};
use crate::store::{
    KeyValueStore, StoreView, Scope, spec_value, spec_set_state,
};
use crate::config::{Feature, spec_resolve, resolve};
use crate::text::{spec_decimal, u64_to_string, str_eq};

verus! {

/// A locally cached or freshly fetched single-message snapshot.
pub struct MessageSnapshot {
    pub author_id: u64,
    pub author_is_bot: bool,
    pub content: String,
}

pub ghost struct MessageSnapshotView {
    pub author_id: u64,
    pub author_is_bot: bool,
    pub content: Seq<char>,
}

impl View for MessageSnapshot {
    type V = MessageSnapshotView;

    open spec fn view(&self) -> MessageSnapshotView {
        MessageSnapshotView {
            author_id: self.author_id,
            author_is_bot: self.author_is_bot,
            content: self.content@,
        }
    }
}

/// The identity fields of the user an event concerns.
pub struct UserInfo {
    pub id: u64,
    pub name: String,
    /// Legacy four-digit tag; newer accounts have none.
    pub discriminator: Option<u16>,
    pub global_name: Option<String>,
    pub avatar_url: Option<String>,
}

pub ghost struct UserInfoView {
    pub id: u64,
    pub name: Seq<char>,
    pub discriminator: Option<u16>,
    pub global_name: Option<Seq<char>>,
    pub avatar_url: Option<Seq<char>>,
}

impl View for UserInfo {
    type V = UserInfoView;

    open spec fn view(&self) -> UserInfoView {
        UserInfoView {
            id: self.id,
            name: self.name@,
            discriminator: self.discriminator,
            global_name: match self.global_name {
                Some(ref s) => Some(s@),
                None => None,
            },
            avatar_url: match self.avatar_url {
                Some(ref s) => Some(s@),
                None => None,
            },
        }
    }
}

/// Guild-membership data for a removal event, when still available.
pub struct MemberInfo {
    pub nickname: Option<String>,
    pub joined_at: Option<i64>,
}

pub ghost struct MemberInfoView {
    pub nickname: Option<Seq<char>>,
    pub joined_at: Option<i64>,
}

impl View for MemberInfo {
    type V = MemberInfoView;

    open spec fn view(&self) -> MemberInfoView {
        MemberInfoView {
            nickname: match self.nickname {
                Some(ref s) => Some(s@),
                None => None,
            },
            joined_at: self.joined_at,
        }
    }
}

/// The closed vocabulary of platform events this core reacts to; the
/// transport's other event kinds all map to `Other` and are ignored.
pub enum Event {
    Ready { bot_name: String, bot_id: u64 },
    GuildCreate { guild_id: u64, guild_name: String },
    GuildDelete { guild_id: u64, guild_name: Option<String>, unavailable: bool },
    MessageDelete { channel_id: u64, message_id: u64, guild_id: Option<u64> },
    MessageUpdate {
        channel_id: u64,
        message_id: u64,
        guild_id: Option<u64>,
        old_if_available: Option<MessageSnapshot>,
        new: Option<MessageSnapshot>,
    },
    GuildMemberAddition { guild_id: u64, user: UserInfo },
    GuildMemberRemoval { guild_id: u64, user: UserInfo, member: Option<MemberInfo> },
    GuildUpdate { guild_id: u64, guild_name: String },
    Resume,
    Other,
}

/// What the transport would answer during this dispatch: the local
/// cache's snapshot for the event's message, and what a fallback
/// fetch would return (`None` when the fetch fails).
pub struct TransportEnv {
    pub cached_message: Option<MessageSnapshot>,
    pub fetched_message: Option<MessageSnapshot>,
}

pub open spec fn spec_snapshot(o: Option<MessageSnapshot>) -> Option<MessageSnapshotView> {
    match o {
        Some(m) => Some(m@),
        None => None,
    }
}

/// One guild-scoped store write the dispatcher decided on.
pub struct WriteOp {
    pub guild_id: u64,
    pub key: String,
    pub value: String,
}

/// One outbound notification: a destination channel and the payload
/// to send there.
pub struct Notification {
    pub channel_id: u64,
    pub payload: Payload,
}

/// Everything one dispatch decided: the notifications to send, the
/// store writes to apply, the log lines to emit, and whether a
/// fallback fetch was issued.
pub struct DispatchOutcome {
    pub notifications: Vec<Notification>,
    pub writes: Vec<WriteOp>,
    pub infos: Vec<String>,
    pub warnings: Vec<String>,
    pub fetch_attempted: bool,
}

// ---------------------------------------------------------------------------
// Log lines
// ---------------------------------------------------------------------------

pub open spec fn spec_ready_info(bot_name: Seq<char>, bot_id: u64) -> Seq<char> {
    "Authenticated as "@ + bot_name + " ID "@ + spec_decimal(bot_id as nat)
}

pub open spec fn spec_joined_info(guild_name: Seq<char>, guild_id: u64) -> Seq<char> {
    "Joined guild \""@ + guild_name + "\" ID "@ + spec_decimal(guild_id as nat)
}

pub open spec fn spec_reconnected_info(guild_name: Seq<char>, guild_id: u64) -> Seq<char> {
    "Reconnected to guild \""@ + guild_name + "\" ID "@ + spec_decimal(guild_id as nat)
}

pub open spec fn spec_unavailable_info(guild_name: Seq<char>, guild_id: u64) -> Seq<char> {
    "Guild unavailable: \""@ + guild_name + "\" ID "@ + spec_decimal(guild_id as nat)
}

pub open spec fn spec_removed_info(guild_name: Seq<char>, guild_id: u64) -> Seq<char> {
    "Removed from guild: \""@ + guild_name + "\" ID "@ + spec_decimal(guild_id as nat)
}

pub open spec fn spec_resume_info() -> Seq<char> {
    "Reconnected to gateway"@
}

pub open spec fn spec_fetch_failed_warning() -> Seq<char> {
    "Failed to log edit, fetch failed"@
}

/// A guild log line: a prefix, the quoted guild name, and the
/// guild's identifier.
fn guild_info(prefix: &str, guild_name: &str, guild_id: u64) -> (s: String)
    ensures
        s@ == prefix@ + guild_name@ + "\" ID "@ + spec_decimal(guild_id as nat),
{
    let s = String::from_str(prefix).concat(guild_name).concat("\" ID ").concat(
        u64_to_string(guild_id).as_str(),
    );
    proof {
        assert(s@ =~= prefix@ + guild_name@ + "\" ID "@ + spec_decimal(guild_id as nat));
    }
    s
}

/// The display name used when a guild disappears: the payload's
/// embedded name if still available, else the last cached name, else
/// a placeholder.
pub open spec fn spec_guild_display_name(
    pre: StoreView,
    guild_id: u64,
    guild_name: Option<Seq<char>>,
) -> Seq<char> {
    match guild_name {
        Some(n) => n,
        None => match spec_value(pre, Scope::Guild, spec_decimal(guild_id as nat), "stats.name"@) {
            Some(v) => v,
            None => "Unknown"@,
        },
    }
}

// ---------------------------------------------------------------------------
// What each event kind decides
// ---------------------------------------------------------------------------

pub open spec fn spec_writeop(w: WriteOp, guild_id: u64, key: Seq<char>, value: Seq<char>) -> bool {
    w.guild_id == guild_id && w.key@ == key && w.value@ == value
}

/// An outcome that does nothing at all.
pub open spec fn spec_quiet(out: DispatchOutcome) -> bool {
    &&& out.notifications@.len() == 0
    &&& out.writes@.len() == 0
    &&& out.infos@.len() == 0
    &&& out.warnings@.len() == 0
    &&& !out.fetch_attempted
}

/// Gateway authentication: one log line, nothing else.
pub open spec fn spec_dispatch_ready(bot_name: Seq<char>, bot_id: u64, out: DispatchOutcome) -> bool {
    &&& out.notifications@.len() == 0
    &&& out.writes@.len() == 0
    &&& out.warnings@.len() == 0
    &&& !out.fetch_attempted
    &&& out.infos@.len() == 1
    &&& out.infos@[0]@ == spec_ready_info(bot_name, bot_id)
}

/// Joining a guild: record the first-seen instant when absent, log
/// join or reconnect accordingly, and always refresh the last-seen
/// instant and the cached guild name.
pub open spec fn spec_dispatch_guild_create(
    pre: StoreView,
    guild_id: u64,
    guild_name: Seq<char>,
    now: int,
    out: DispatchOutcome,
) -> bool {
    let first = spec_value(pre, Scope::Guild, spec_decimal(guild_id as nat), "stats.first_join"@);
    &&& out.notifications@.len() == 0
    &&& out.warnings@.len() == 0
    &&& !out.fetch_attempted
    &&& out.infos@.len() == 1
    &&& first is None ==> {
        &&& out.infos@[0]@ == spec_joined_info(guild_name, guild_id)
        &&& out.writes@.len() == 3
        &&& spec_writeop(out.writes@[0], guild_id, "stats.first_join"@, spec_decimal(now as nat))
        &&& spec_writeop(out.writes@[1], guild_id, "stats.last_join"@, spec_decimal(now as nat))
        &&& spec_writeop(out.writes@[2], guild_id, "stats.name"@, guild_name)
    }
    &&& first is Some ==> {
        &&& out.infos@[0]@ == spec_reconnected_info(guild_name, guild_id)
        &&& out.writes@.len() == 2
        &&& spec_writeop(out.writes@[0], guild_id, "stats.last_join"@, spec_decimal(now as nat))
        &&& spec_writeop(out.writes@[1], guild_id, "stats.name"@, guild_name)
    }
}

/// Leaving a guild: log under the best-known display name; a real
/// removal (not a transient outage) additionally persists a marker.
pub open spec fn spec_dispatch_guild_delete(
    pre: StoreView,
    guild_id: u64,
    guild_name: Option<Seq<char>>,
    unavailable: bool,
    out: DispatchOutcome,
) -> bool {
    let display = spec_guild_display_name(pre, guild_id, guild_name);
    &&& out.notifications@.len() == 0
    &&& out.warnings@.len() == 0
    &&& !out.fetch_attempted
    &&& out.infos@.len() == 1
    &&& unavailable ==> {
        &&& out.writes@.len() == 0
        &&& out.infos@[0]@ == spec_unavailable_info(display, guild_id)
    }
    &&& !unavailable ==> {
        &&& out.writes@.len() == 1
        &&& spec_writeop(out.writes@[0], guild_id, "stats.kicked_from"@, Seq::empty())
        &&& out.infos@[0]@ == spec_removed_info(display, guild_id)
    }
}

/// A deleted message: nothing without a guild or with the feature
/// disabled; a cached bot author is excluded; otherwise exactly one
/// notification to the configured channel, with the cached content
/// or an unavailability marker.
pub open spec fn spec_dispatch_message_delete(
    pre: StoreView,
    channel_id: u64,
    message_id: u64,
    guild_id: Option<u64>,
    cached: Option<MessageSnapshotView>,
    out: DispatchOutcome,
) -> bool {
    &&& out.writes@.len() == 0
    &&& out.infos@.len() == 0
    &&& out.warnings@.len() == 0
    &&& !out.fetch_attempted
    &&& guild_id is None ==> out.notifications@.len() == 0
    &&& guild_id matches Some(g) ==> match spec_resolve(pre, g, Feature::TrackMsgEdits) {
        None => out.notifications@.len() == 0,
        Some(c) => match cached {
            Some(m) => {
                if m.author_is_bot {
                    out.notifications@.len() == 0
                } else {
                    &&& out.notifications@.len() == 1
                    &&& out.notifications@[0].channel_id == c
                    &&& out.notifications@[0].payload@ == spec_message_deleted_payload(
                        g,
                        channel_id,
                        message_id,
                        Some(m),
                    )
                }
            },
            None => {
                &&& out.notifications@.len() == 1
                &&& out.notifications@[0].channel_id == c
                &&& out.notifications@[0].payload@ == spec_message_deleted_payload(
                    g,
                    channel_id,
                    message_id,
                    None,
                )
            },
        },
    }
}

/// An edited message: nothing without a guild or with the feature
/// disabled.  A missing "after" snapshot costs one fetch; a failed
/// fetch drops the event with one warning.  Bot authors and
/// byte-identical content are suppressed; everything else produces
/// exactly one notification to the configured channel.
pub open spec fn spec_dispatch_message_update(
    pre: StoreView,
    channel_id: u64,
    message_id: u64,
    guild_id: Option<u64>,
    old_content: Option<Seq<char>>,
    fresh: Option<MessageSnapshotView>,
    fetched: Option<MessageSnapshotView>,
    out: DispatchOutcome,
) -> bool {
    &&& out.writes@.len() == 0
    &&& out.infos@.len() == 0
    &&& guild_id is None ==> spec_quiet(out)
    &&& guild_id matches Some(g) ==> match spec_resolve(pre, g, Feature::TrackMsgEdits) {
        None => spec_quiet(out),
        Some(c) => {
            &&& out.fetch_attempted == (fresh is None)
            &&& match (if fresh is Some {
                fresh
            } else {
                fetched
            }) {
                None => {
                    &&& out.notifications@.len() == 0
                    &&& out.warnings@.len() == 1
                    &&& out.warnings@[0]@ == spec_fetch_failed_warning()
                },
                Some(m) => {
                    &&& out.warnings@.len() == 0
                    &&& if m.author_is_bot {
                        out.notifications@.len() == 0
                    } else {
                        match old_content {
                            Some(o) => {
                                if o == m.content {
                                    out.notifications@.len() == 0
                                } else {
                                    &&& out.notifications@.len() == 1
                                    &&& out.notifications@[0].channel_id == c
                                    &&& out.notifications@[0].payload@
                                        == spec_message_edited_payload(
                                        g,
                                        channel_id,
                                        message_id,
                                        Some(o),
                                        m,
                                    )
                                }
                            },
                            None => {
                                &&& out.notifications@.len() == 1
                                &&& out.notifications@[0].channel_id == c
                                &&& out.notifications@[0].payload@ == spec_message_edited_payload(
                                    g,
                                    channel_id,
                                    message_id,
                                    None,
                                    m,
                                )
                            },
                        }
                    }
                },
            }
        },
    }
}

/// A member joining: gated by the join/leave toggle; when enabled,
/// exactly one notification with the member's identity and computed
/// account age.
pub open spec fn spec_dispatch_member_added(
    pre: StoreView,
    guild_id: u64,
    user: UserInfoView,
    now: int,
    out: DispatchOutcome,
) -> bool {
    &&& out.writes@.len() == 0
    &&& out.infos@.len() == 0
    &&& out.warnings@.len() == 0
    &&& !out.fetch_attempted
    &&& match spec_resolve(pre, guild_id, Feature::TrackJoinLeaves) {
        None => out.notifications@.len() == 0,
        Some(c) => {
            &&& out.notifications@.len() == 1
            &&& out.notifications@[0].channel_id == c
            &&& out.notifications@[0].payload@ == spec_member_joined_payload(user, now)
        },
    }
}

/// A member leaving: gated by the join/leave toggle; when enabled,
/// exactly one notification, with the membership duration marked
/// unknown rather than failing when the join instant is missing.
pub open spec fn spec_dispatch_member_removed(
    pre: StoreView,
    guild_id: u64,
    user: UserInfoView,
    member: Option<MemberInfoView>,
    now: int,
    out: DispatchOutcome,
) -> bool {
    &&& out.writes@.len() == 0
    &&& out.infos@.len() == 0
    &&& out.warnings@.len() == 0
    &&& !out.fetch_attempted
    &&& match spec_resolve(pre, guild_id, Feature::TrackJoinLeaves) {
        None => out.notifications@.len() == 0,
        Some(c) => {
            &&& out.notifications@.len() == 1
            &&& out.notifications@[0].channel_id == c
            &&& out.notifications@[0].payload@ == spec_member_removed_payload(user, member, now)
        },
    }
}

/// A guild profile update: only refreshes the cached display name.
pub open spec fn spec_dispatch_guild_update(
    guild_id: u64,
    guild_name: Seq<char>,
    out: DispatchOutcome,
) -> bool {
    &&& out.notifications@.len() == 0
    &&& out.infos@.len() == 0
    &&& out.warnings@.len() == 0
    &&& !out.fetch_attempted
    &&& out.writes@.len() == 1
    &&& spec_writeop(out.writes@[0], guild_id, "stats.name"@, guild_name)
}

/// A gateway resume: one log line, nothing else.
pub open spec fn spec_dispatch_resume(out: DispatchOutcome) -> bool {
    &&& out.notifications@.len() == 0
    &&& out.writes@.len() == 0
    &&& out.warnings@.len() == 0
    &&& !out.fetch_attempted
    &&& out.infos@.len() == 1
    &&& out.infos@[0]@ == spec_resume_info()
}

// ---------------------------------------------------------------------------
// The dispatcher
// ---------------------------------------------------------------------------

/// An outcome with nothing decided yet.
fn empty_outcome() -> (out: DispatchOutcome)
    ensures
        spec_quiet(out),
{
    DispatchOutcome {
        notifications: Vec::new(),
        writes: Vec::new(),
        infos: Vec::new(),
        warnings: Vec::new(),
        fetch_attempted: false,
    }
}

/// Routes one decoded platform event.  The store is read, never
/// written: every write this event calls for is returned in
/// `writes`, to be applied with `apply_writes` and mirrored to
/// durable storage by the caller.
pub fn event_dispatcher(
    store: &KeyValueStore,
    event: &Event,
    env: &TransportEnv,
    now: i64,
) -> (out: DispatchOutcome)
    requires
        store.wf(),
        now >= 0,
    ensures
        event matches Event::Ready { bot_name, bot_id } ==> spec_dispatch_ready(
            bot_name@,
            *bot_id,
            out,
        ),
        event matches Event::GuildCreate { guild_id, guild_name } ==> spec_dispatch_guild_create(
            store@,
            *guild_id,
            guild_name@,
            now as int,
            out,
        ),
        event matches Event::GuildDelete { guild_id, guild_name, unavailable }
            ==> spec_dispatch_guild_delete(
            store@,
            *guild_id,
            match guild_name {
                Some(n) => Some(n@),
                None => None,
            },
            *unavailable,
            out,
        ),
        event matches Event::MessageDelete { channel_id, message_id, guild_id }
            ==> spec_dispatch_message_delete(
            store@,
            *channel_id,
            *message_id,
            *guild_id,
            spec_snapshot(env.cached_message),
            out,
        ),
        event matches Event::MessageUpdate {
            channel_id,
            message_id,
            guild_id,
            old_if_available,
            new,
        } ==> spec_dispatch_message_update(
            store@,
            *channel_id,
            *message_id,
            *guild_id,
            match old_if_available {
                Some(o) => Some(o.content@),
                None => None,
            },
            spec_snapshot(*new),
            spec_snapshot(env.fetched_message),
            out,
        ),
        event matches Event::GuildMemberAddition { guild_id, user } ==> spec_dispatch_member_added(
            store@,
            *guild_id,
            user@,
            now as int,
            out,
        ),
        event matches Event::GuildMemberRemoval { guild_id, user, member }
            ==> spec_dispatch_member_removed(
            store@,
            *guild_id,
            user@,
            match member {
                Some(m) => Some(m@),
                None => None,
            },
            now as int,
            out,
        ),
        event matches Event::GuildUpdate { guild_id, guild_name } ==> spec_dispatch_guild_update(
            *guild_id,
            guild_name@,
            out,
        ),
        event matches Event::Resume ==> spec_dispatch_resume(out),
        event matches Event::Other ==> spec_quiet(out),
{
    match event {
        Event::Ready { bot_name, bot_id } => {
            let mut out = empty_outcome();
            let line = String::from_str("Authenticated as ").concat(bot_name.as_str()).concat(
                " ID ",
            ).concat(u64_to_string(*bot_id).as_str());
            proof {
                assert(line@ =~= spec_ready_info(bot_name@, *bot_id));
            }
            out.infos.push(line);
            out
        },
        Event::GuildCreate { guild_id, guild_name } => {
            let g = *guild_id;
            let id = u64_to_string(g);
            let now_text = u64_to_string(now as u64);
            let mut out = empty_outcome();
            let seen_before = store.get_guild_value(id.as_str(), "stats.first_join");
            if seen_before.is_none() {
                out.writes.push(
                    WriteOp {
                        guild_id: g,
                        key: String::from_str("stats.first_join"),
                        value: now_text.clone(),
                    },
                );
                out.infos.push(guild_info("Joined guild \"", guild_name.as_str(), g));
            } else {
                out.infos.push(guild_info("Reconnected to guild \"", guild_name.as_str(), g));
            }
            out.writes.push(
                WriteOp {
                    guild_id: g,
                    key: String::from_str("stats.last_join"),
                    value: now_text,
                },
            );
            out.writes.push(
                WriteOp {
                    guild_id: g,
                    key: String::from_str("stats.name"),
                    value: guild_name.clone(),
                },
            );
            out
        },
        Event::GuildDelete { guild_id, guild_name, unavailable } => {
            let g = *guild_id;
            let id = u64_to_string(g);
            let mut out = empty_outcome();
            let display: String = match guild_name {
                Some(n) => n.clone(),
                None => match store.get_guild_value(id.as_str(), "stats.name") {
                    Some(v) => v,
                    None => String::from_str("Unknown"),
                },
            };
            if *unavailable {
                out.infos.push(guild_info("Guild unavailable: \"", display.as_str(), g));
            } else {
                out.writes.push(
                    WriteOp {
                        guild_id: g,
                        key: String::from_str("stats.kicked_from"),
                        value: String::new(),
                    },
                );
                out.infos.push(guild_info("Removed from guild: \"", display.as_str(), g));
            }
            out
        },
        Event::MessageDelete { channel_id, message_id, guild_id } => {
            let mut out = empty_outcome();
            let g = match guild_id {
                Some(g) => *g,
                None => {
                    return out;
                },
            };
            let c = match resolve(store, g, Feature::TrackMsgEdits) {
                Some(c) => c,
                None => {
                    return out;
                },
            };
            if let Some(m) = &env.cached_message {
                if m.author_is_bot {
                    return out;
                }
            }
            let payload = format_message_deleted(g, *channel_id, *message_id, &env.cached_message);
            out.notifications.push(Notification { channel_id: c, payload });
            out
        },
        Event::MessageUpdate { channel_id, message_id, guild_id, old_if_available, new } => {
            let mut out = empty_outcome();
            let g = match guild_id {
                Some(g) => *g,
                None => {
                    return out;
                },
            };
            let c = match resolve(store, g, Feature::TrackMsgEdits) {
                Some(c) => c,
                None => {
                    return out;
                },
            };
            // Two-step lookup policy: take the event's own snapshot
            // when present; on a miss issue exactly one fetch; on
            // fetch failure degrade to a warning and drop the event.
            let effective: &Option<MessageSnapshot> = if new.is_some() {
                new
            } else {
                out.fetch_attempted = true;
                &env.fetched_message
            };
            let m = match effective {
                Some(m) => m,
                None => {
                    out.warnings.push(String::from_str("Failed to log edit, fetch failed"));
                    return out;
                },
            };
            if m.author_is_bot {
                return out;
            }
            let old_content: Option<String> = match old_if_available {
                Some(o) => Some(o.content.clone()),
                None => None,
            };
            if let Some(o) = &old_content {
                if str_eq(o.as_str(), m.content.as_str()) {
                    // The text did not change: suppress the
                    // notification entirely.
                    return out;
                }
            }
            let payload = format_message_edited(g, *channel_id, *message_id, &old_content, m);
            out.notifications.push(Notification { channel_id: c, payload });
            out
        },
        Event::GuildMemberAddition { guild_id, user } => {
            let mut out = empty_outcome();
            let c = match resolve(store, *guild_id, Feature::TrackJoinLeaves) {
                Some(c) => c,
                None => {
                    return out;
                },
            };
            let payload = format_member_joined(user, now);
            out.notifications.push(Notification { channel_id: c, payload });
            out
        },
        Event::GuildMemberRemoval { guild_id, user, member } => {
            let mut out = empty_outcome();
            let c = match resolve(store, *guild_id, Feature::TrackJoinLeaves) {
                Some(c) => c,
                None => {
                    return out;
                },
            };
            let payload = format_member_removed(user, member, now);
            out.notifications.push(Notification { channel_id: c, payload });
            out
        },
        Event::GuildUpdate { guild_id, guild_name } => {
            let mut out = empty_outcome();
            out.writes.push(
                WriteOp {
                    guild_id: *guild_id,
                    key: String::from_str("stats.name"),
                    value: guild_name.clone(),
                },
            );
            out
        },
        Event::Resume => {
            let mut out = empty_outcome();
            out.infos.push(String::from_str("Reconnected to gateway"));
            out
        },
        Event::Other => empty_outcome(),
    }
}

// ---------------------------------------------------------------------------
// Applying the decided writes
// ---------------------------------------------------------------------------

/// The store after replaying a list of guild-scoped writes in order,
/// each through the suppressing `set`.
pub open spec fn spec_apply_writes(v: StoreView, ws: Seq<WriteOp>, now: int) -> StoreView
    decreases ws.len(),
{
    if ws.len() == 0 {
        v
    } else {
        spec_apply_writes(
            spec_set_state(
                v,
                Scope::Guild,
                spec_decimal(ws[0].guild_id as nat),
                ws[0].key@,
                ws[0].value@,
                now,
            ),
            ws.drop_first(),
            now,
        )
    }
}

/// Replays the writes a dispatch decided on, in order, through the
/// store's suppressing `set`.
pub fn apply_writes(store: &mut KeyValueStore, writes: &Vec<WriteOp>, now: i64)
    requires
        old(store).wf(),
    ensures
        final(store).wf(),
        final(store)@ == spec_apply_writes(old(store)@, writes@, now as int),
{
    let ghost orig = store@;
    proof {
        assert(writes@.skip(0) =~= writes@);
    }
    let n = writes.len();
    let mut i: usize = 0;
    while i < n
        invariant
            0 <= i <= n,
            n == writes@.len(),
            store.wf(),
            spec_apply_writes(orig, writes@, now as int) == spec_apply_writes(
                store@,
                writes@.skip(i as int),
                now as int,
            ),
        decreases n - i,
    {
        let w = &writes[i];
        let id = u64_to_string(w.guild_id);
        let ghost pre = store@;
        store.set_guild_value(id.as_str(), w.key.as_str(), w.value.as_str(), now);
        proof {
            assert(writes@.skip(i as int)[0] == writes@[i as int]);
            assert(writes@.skip(i as int).drop_first() =~= writes@.skip(i as int + 1));
        }
        i = i + 1;
    }
    proof {
        assert(writes@.skip(n as int) =~= Seq::<WriteOp>::empty());
    }
}

} // verus!
