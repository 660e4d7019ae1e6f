//! Feature configuration: a thin semantic layer over the store.  A
//! feature is enabled for a guild exactly when a channel reference is
//! stored under its key; a missing or malformed stored value means
//! "disabled" rather than an error, so a bad value degrades safely.

use vstd::prelude::*;
use vstd::string::*;
use crate::store::{KeyValueStore, StoreView, Scope, spec_value, spec_set_post, spec_delete_post};
use crate::text::{
    spec_decimal, spec_parses_as_u64, spec_digits_of, spec_dec_value, u64_to_string,
    lemma_decimal_round_trip,
};

verus! {

/// The per-guild feature toggles this core routes on.
#[derive(Clone, Copy, PartialEq, Eq, Structural, Debug)]
pub enum Feature {
    /// Member join/leave notifications.
    TrackJoinLeaves,
    /// Message edit and deletion notifications.
    TrackMsgEdits,
}

/// The store key a feature's destination channel is kept under.
pub open spec fn spec_feature_key(f: Feature) -> Seq<char> {
    match f {
        Feature::TrackJoinLeaves => "config.track_joinleaves"@,
        Feature::TrackMsgEdits => "config.track_msg_edits"@,
    }
}

/// The store key a feature's destination channel is kept under.
pub fn feature_key(f: Feature) -> (s: &'static str)
    ensures
        s@ == spec_feature_key(f),
{
    match f {
        Feature::TrackJoinLeaves => "config.track_joinleaves",
        Feature::TrackMsgEdits => "config.track_msg_edits",
    }
}

/// The channel a stored string refers to: a nonzero snowflake
/// numeral, anything else counting as "no channel".
pub open spec fn spec_channel_of(s: Seq<char>) -> Option<u64> {
    if spec_parses_as_u64(s) && spec_dec_value(spec_digits_of(s)) != 0 {
        Some(spec_dec_value(spec_digits_of(s)) as u64)
    } else {
        None
    }
}

/// Where a feature's notifications go for a guild: the channel the
/// stored value resolves to, or `None` when the feature is disabled
/// or the stored value is malformed.
pub open spec fn spec_resolve(v: StoreView, guild_id: u64, f: Feature) -> Option<u64> {
    match spec_value(v, Scope::Guild, spec_decimal(guild_id as nat), spec_feature_key(f)) {
        Some(s) => spec_channel_of(s),
        None => None,
    }
}

/// Looks a feature's destination channel up.  `None` means the
/// feature is disabled for this guild.
pub fn resolve(store: &KeyValueStore, guild_id: u64, feature: Feature) -> (r: Option<u64>)
    requires
        store.wf(),
    ensures
        r == spec_resolve(store@, guild_id, feature),
{
    let id = u64_to_string(guild_id);
    match store.get_guild_value(id.as_str(), feature_key(feature)) {
        Some(v) => crate::tools::to_snowflake(v.as_str()),
        None => None,
    }
}

/// Why an `enable` request was turned down, or that it was not.
#[derive(Clone, Copy, PartialEq, Eq, Structural, Debug)]
pub enum EnableOutcome {
    /// The feature is now enabled and routed to the requested channel.
    Enabled,
    /// The requested channel does not exist in the guild.
    ChannelNotFound,
    /// The bot may not send messages to the requested channel.
    NoSendPermission,
}

/// Enables a feature, but only after the caller has checked that the
/// destination channel exists and is writable; a rejected request
/// writes nothing at all.
pub fn enable(
    store: &mut KeyValueStore,
    guild_id: u64,
    feature: Feature,
    channel_id: u64,
    channel_exists: bool,
    can_send: bool,
    now: i64,
) -> (r: EnableOutcome)
    requires
        old(store).wf(),
        channel_id != 0,
    ensures
        final(store).wf(),
        r == EnableOutcome::Enabled <==> channel_exists && can_send,
        !channel_exists ==> r == EnableOutcome::ChannelNotFound,
        channel_exists && !can_send ==> r == EnableOutcome::NoSendPermission,
        r != EnableOutcome::Enabled ==> *final(store) == *old(store),
        r == EnableOutcome::Enabled ==> spec_set_post(
            old(store)@,
            final(store)@,
            Scope::Guild,
            spec_decimal(guild_id as nat),
            spec_feature_key(feature),
            spec_decimal(channel_id as nat),
            now as int,
        ) && spec_resolve(final(store)@, guild_id, feature) == Some(channel_id),
{
    if !channel_exists {
        return EnableOutcome::ChannelNotFound;
    }
    if !can_send {
        return EnableOutcome::NoSendPermission;
    }
    let id = u64_to_string(guild_id);
    let ch = u64_to_string(channel_id);
    store.set_guild_value(id.as_str(), feature_key(feature), ch.as_str(), now);
    proof {
        crate::store::lemma_set_then_get(
            old(store)@,
            store@,
            Scope::Guild,
            spec_decimal(guild_id as nat),
            spec_feature_key(feature),
            spec_decimal(channel_id as nat),
            now as int,
        );
        lemma_decimal_round_trip(channel_id);
    }
    EnableOutcome::Enabled
}

/// Disables a feature: an unconditional, idempotent delete.  Reports
/// whether a stored value existed.
pub fn disable(store: &mut KeyValueStore, guild_id: u64, feature: Feature) -> (existed: bool)
    requires
        old(store).wf(),
    ensures
        final(store).wf(),
        spec_delete_post(
            old(store)@,
            final(store)@,
            Scope::Guild,
            spec_decimal(guild_id as nat),
            spec_feature_key(feature),
            existed,
        ),
        spec_resolve(final(store)@, guild_id, feature) is None,
{
    let id = u64_to_string(guild_id);
    store.delete_guild_value(id.as_str(), feature_key(feature))
}

} // verus!
