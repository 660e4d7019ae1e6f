//! The notification formatter: a pure mapping from resolved event
//! data to a payload of title, description, ordered fields and an
//! accent colour.  It is total over every field combination the
//! router can hand it, the "unavailable" placeholders included.

use vstd::prelude::*;
use vstd::string::*;
use crate::events::{
    MessageSnapshot, MessageSnapshotView, UserInfo, UserInfoView, MemberInfo, MemberInfoView,
};
use crate::text::{
    spec_decimal, spec_user_mention, spec_channel_mention, spec_message_link, u64_to_string,
    user_mention, channel_mention, message_link,
};
use crate::tools::{
    spec_age_text, spec_duration_text, spec_elapsed, spec_created_seconds, user_account_age,
    duration_text,
};

verus! {

/// The accent colour of a payload, keyed by event kind and severity:
/// destructive events use the red family, informational joins green.
#[derive(Clone, Copy, PartialEq, Eq, Structural, Debug)]
pub enum AccentColor {
    DarkGreen,
    DarkRed,
    DarkTeal,
    DarkOrange,
    Gold,
    BlitzBlue,
}

/// One titled line of a payload.
pub struct Field {
    pub name: String,
    pub value: String,
    pub inline: bool,
}

#[verifier::ext_equal]
pub ghost struct FieldView {
    pub name: Seq<char>,
    pub value: Seq<char>,
    pub inline: bool,
}

impl DeepView for Field {
    type V = FieldView;

    open spec fn deep_view(&self) -> FieldView {
        FieldView { name: self.name@, value: self.value@, inline: self.inline }
    }
}

/// A formatted notification payload.
pub struct Payload {
    pub title: String,
    pub description: String,
    pub fields: Vec<Field>,
    pub color: AccentColor,
    pub footer: Option<String>,
    pub thumbnail: Option<String>,
}

#[verifier::ext_equal]
pub ghost struct PayloadView {
    pub title: Seq<char>,
    pub description: Seq<char>,
    pub fields: Seq<FieldView>,
    pub color: AccentColor,
    pub footer: Option<Seq<char>>,
    pub thumbnail: Option<Seq<char>>,
}

impl View for Payload {
    type V = PayloadView;

    open spec fn view(&self) -> PayloadView {
        PayloadView {
            title: self.title@,
            description: self.description@,
            fields: self.fields.deep_view(),
            color: self.color,
            footer: match self.footer {
                Some(ref s) => Some(s@),
                None => None,
            },
            thumbnail: match self.thumbnail {
                Some(ref s) => Some(s@),
                None => None,
            },
        }
    }
}

// ---------------------------------------------------------------------------
// Small shared pieces
// ---------------------------------------------------------------------------

pub open spec fn spec_field(name: Seq<char>, value: Seq<char>, inline: bool) -> FieldView {
    FieldView { name, value, inline }
}

fn field(name: &str, value: String, inline: bool) -> (f: Field)
    ensures
        f.deep_view() == spec_field(name@, value@, inline),
{
    Field { name: String::from_str(name), value, inline }
}

/// The rendered legacy tag, or the placeholder for accounts that
/// have none.
pub open spec fn spec_discriminator_text(d: Option<u16>) -> Seq<char> {
    match d {
        Some(v) => spec_decimal(v as nat),
        None => "None (next gen account)"@,
    }
}

fn discriminator_text(d: Option<u16>) -> (s: String)
    ensures
        s@ == spec_discriminator_text(d),
{
    match d {
        Some(v) => {
            let s = u64_to_string(v as u64);
            proof {
                assert(v as u64 as nat == v as nat);
            }
            s
        },
        None => String::from_str("None (next gen account)"),
    }
}

/// An optional string, or the empty string in its place.
pub open spec fn spec_opt_str(o: Option<Seq<char>>) -> Seq<char> {
    match o {
        Some(s) => s,
        None => Seq::empty(),
    }
}

fn string_or_empty(o: &Option<String>) -> (s: String)
    ensures
        o matches Some(x) ==> s@ == x@,
        o is None ==> s@ == Seq::<char>::empty(),
{
    match o {
        Some(x) => x.clone(),
        None => String::new(),
    }
}

/// The membership-duration line of a removal notice: unknown when no
/// member data or join instant survived, the elapsed breakdown
/// otherwise.  A join instant before the epoch counts as the epoch.
pub open spec fn spec_membership_age(member: Option<MemberInfoView>, now: int) -> Seq<char> {
    match member {
        Some(m) => match m.joined_at {
            Some(j) => spec_duration_text(
                spec_elapsed(
                    if j < 0 {
                        0
                    } else {
                        j as int
                    },
                    now,
                ),
            ),
            None => "Unknown"@,
        },
        None => "Unknown"@,
    }
}

fn membership_age(member: &Option<MemberInfo>, now: i64) -> (s: String)
    ensures
        s@ == spec_membership_age(
            match member {
                Some(m) => Some(m@),
                None => None,
            },
            now as int,
        ),
{
    match member {
        Some(m) => match m.joined_at {
            Some(j) => {
                let j0: i64 = if j < 0 {
                    0
                } else {
                    j
                };
                duration_text(j0, now)
            },
            None => String::from_str("Unknown"),
        },
        None => String::from_str("Unknown"),
    }
}

/// The server-nickname line of a removal notice.
pub open spec fn spec_server_nickname(member: Option<MemberInfoView>) -> Seq<char> {
    match member {
        Some(m) => spec_opt_str(m.nickname),
        None => Seq::empty(),
    }
}

fn server_nickname(member: &Option<MemberInfo>) -> (s: String)
    ensures
        s@ == spec_server_nickname(
            match member {
                Some(m) => Some(m@),
                None => None,
            },
        ),
{
    match member {
        Some(m) => string_or_empty(&m.nickname),
        None => String::new(),
    }
}

// ---------------------------------------------------------------------------
// Message deleted
// ---------------------------------------------------------------------------

/// The payload for a deleted message.  A cache miss keeps the
/// notification but marks the content unavailable and falls back
/// from a message link to a channel mention.
pub open spec fn spec_message_deleted_payload(
    guild_id: u64,
    channel_id: u64,
    message_id: u64,
    cached: Option<MessageSnapshotView>,
) -> PayloadView {
    PayloadView {
        title: "\u{1f4ac}\u{1f5d1}\u{fe0f} Message deleted"@,
        description: match cached {
            Some(m) => "**Text:** "@ + m.content,
            None => "**Old content unavailable.**"@,
        },
        fields: seq![
            spec_field(
                "Author:"@,
                match cached {
                    Some(m) => spec_user_mention(m.author_id),
                    None => "Unknown"@,
                },
                true,
            ),
            match cached {
                Some(m) => spec_field(
                    "Message:"@,
                    spec_message_link(guild_id, channel_id, message_id),
                    true,
                ),
                None => spec_field("Channel:"@, spec_channel_mention(channel_id), true),
            },
        ],
        color: AccentColor::DarkRed,
        footer: Some("Message ID: "@ + spec_decimal(message_id as nat)),
        thumbnail: None,
    }
}

/// Builds the notification for a deleted message.
pub fn format_message_deleted(
    guild_id: u64,
    channel_id: u64,
    message_id: u64,
    cached: &Option<MessageSnapshot>,
) -> (p: Payload)
    ensures
        p@ == spec_message_deleted_payload(
            guild_id,
            channel_id,
            message_id,
            crate::events::spec_snapshot(*cached),
        ),
{
    let mut fields: Vec<Field> = Vec::new();
    let description: String;
    match cached {
        Some(m) => {
            description = String::from_str("**Text:** ").concat(m.content.as_str());
            fields.push(field("Author:", user_mention(m.author_id), true));
            fields.push(
                field("Message:", message_link(guild_id, channel_id, message_id), true),
            );
        },
        None => {
            description = String::from_str("**Old content unavailable.**");
            fields.push(field("Author:", String::from_str("Unknown"), true));
            fields.push(field("Channel:", channel_mention(channel_id), true));
        },
    }
    let footer = String::from_str("Message ID: ").concat(u64_to_string(message_id).as_str());
    let p = Payload {
        title: String::from_str("\u{1f4ac}\u{1f5d1}\u{fe0f} Message deleted"),
        description,
        fields,
        color: AccentColor::DarkRed,
        footer: Some(footer),
        thumbnail: None,
    };
    proof {
        let s = spec_message_deleted_payload(
            guild_id,
            channel_id,
            message_id,
            crate::events::spec_snapshot(*cached),
        );
        assert(p@.fields =~= s.fields);
        assert(p@ =~= s);
    }
    p
}

// ---------------------------------------------------------------------------
// Message edited
// ---------------------------------------------------------------------------

/// The payload for an edited message, with the old content or its
/// unavailability marker beside the new content.
pub open spec fn spec_message_edited_payload(
    guild_id: u64,
    channel_id: u64,
    message_id: u64,
    old_content: Option<Seq<char>>,
    new: MessageSnapshotView,
) -> PayloadView {
    PayloadView {
        title: "\u{1f4ac}\u{270f}\u{fe0f} Message edited"@,
        description: match old_content {
            Some(o) => "**Old:** "@ + o + "\n\n**New:** "@ + new.content + "\n"@,
            None => "**Old content unavailable.** \n**New:** "@ + new.content,
        },
        fields: seq![
            spec_field("Author:"@, spec_user_mention(new.author_id), true),
            spec_field("Message:"@, spec_message_link(guild_id, channel_id, message_id), true),
        ],
        color: AccentColor::DarkTeal,
        footer: Some("Message ID: "@ + spec_decimal(message_id as nat)),
        thumbnail: None,
    }
}

/// Builds the notification for an edited message.
pub fn format_message_edited(
    guild_id: u64,
    channel_id: u64,
    message_id: u64,
    old_content: &Option<String>,
    new: &MessageSnapshot,
) -> (p: Payload)
    ensures
        p@ == spec_message_edited_payload(
            guild_id,
            channel_id,
            message_id,
            match old_content {
                Some(o) => Some(o@),
                None => None,
            },
            new@,
        ),
{
    let description: String = match old_content {
        Some(o) => String::from_str("**Old:** ").concat(o.as_str()).concat(
            "\n\n**New:** ",
        ).concat(new.content.as_str()).concat("\n"),
        None => String::from_str("**Old content unavailable.** \n**New:** ").concat(
            new.content.as_str(),
        ),
    };
    let mut fields: Vec<Field> = Vec::new();
    fields.push(field("Author:", user_mention(new.author_id), true));
    fields.push(field("Message:", message_link(guild_id, channel_id, message_id), true));
    let footer = String::from_str("Message ID: ").concat(u64_to_string(message_id).as_str());
    let p = Payload {
        title: String::from_str("\u{1f4ac}\u{270f}\u{fe0f} Message edited"),
        description,
        fields,
        color: AccentColor::DarkTeal,
        footer: Some(footer),
        thumbnail: None,
    };
    proof {
        let s = spec_message_edited_payload(
            guild_id,
            channel_id,
            message_id,
            match *old_content {
                Some(ref o) => Some(o@),
                None => None,
            },
            new@,
        );
        assert(p@.fields =~= s.fields);
        assert(p@ =~= s);
    }
    p
}

// ---------------------------------------------------------------------------
// Member joined / removed
// ---------------------------------------------------------------------------

/// The payload for a member joining: identity fields and the
/// computed account age.
pub open spec fn spec_member_joined_payload(user: UserInfoView, now: int) -> PayloadView {
    PayloadView {
        title: "\u{1f44b} User joined"@,
        description: Seq::empty(),
        fields: seq![
            spec_field("User:"@, spec_user_mention(user.id), false),
            spec_field("ID:"@, spec_decimal(user.id as nat), false),
            spec_field("User name:"@, user.name, false),
            spec_field("Discriminator:"@, spec_discriminator_text(user.discriminator), false),
            spec_field("Global nickname:"@, spec_opt_str(user.global_name), false),
            spec_field(
                "Account age:"@,
                spec_age_text(spec_elapsed(spec_created_seconds(user.id), now)),
                false,
            ),
        ],
        color: AccentColor::DarkGreen,
        footer: None,
        thumbnail: Some(spec_opt_str(user.avatar_url)),
    }
}

/// Builds the notification for a member who joined.
pub fn format_member_joined(user: &UserInfo, now: i64) -> (p: Payload)
    ensures
        p@ == spec_member_joined_payload(user@, now as int),
{
    let mut fields: Vec<Field> = Vec::new();
    fields.push(field("User:", user_mention(user.id), false));
    fields.push(field("ID:", u64_to_string(user.id), false));
    fields.push(field("User name:", user.name.clone(), false));
    fields.push(field("Discriminator:", discriminator_text(user.discriminator), false));
    fields.push(field("Global nickname:", string_or_empty(&user.global_name), false));
    fields.push(field("Account age:", user_account_age(user.id, now), false));
    let p = Payload {
        title: String::from_str("\u{1f44b} User joined"),
        description: String::new(),
        fields,
        color: AccentColor::DarkGreen,
        footer: None,
        thumbnail: Some(string_or_empty(&user.avatar_url)),
    };
    proof {
        let s = spec_member_joined_payload(user@, now as int);
        assert(p@.fields =~= s.fields);
        assert(p@ =~= s);
    }
    p
}

/// The payload for a member leaving: identity fields, the server
/// nickname and membership duration when still known, and the
/// account age.  A missing join instant must not fail the whole
/// notification; it renders as unknown.
pub open spec fn spec_member_removed_payload(
    user: UserInfoView,
    member: Option<MemberInfoView>,
    now: int,
) -> PayloadView {
    PayloadView {
        title: "\u{1f6aa} User left"@,
        description: Seq::empty(),
        fields: seq![
            spec_field("User:"@, spec_user_mention(user.id), false),
            spec_field("ID:"@, spec_decimal(user.id as nat), false),
            spec_field("User name:"@, user.name, false),
            spec_field("Discriminator:"@, spec_discriminator_text(user.discriminator), false),
            spec_field("Global nickname:"@, spec_opt_str(user.global_name), false),
            spec_field("Server nickname:"@, spec_server_nickname(member), false),
            spec_field("Server membership age:"@, spec_membership_age(member, now), false),
            spec_field(
                "Account age:"@,
                spec_age_text(spec_elapsed(spec_created_seconds(user.id), now)),
                false,
            ),
        ],
        color: AccentColor::DarkRed,
        footer: None,
        thumbnail: Some(spec_opt_str(user.avatar_url)),
    }
}

/// Builds the notification for a member who left or was removed.
pub fn format_member_removed(user: &UserInfo, member: &Option<MemberInfo>, now: i64) -> (p: Payload)
    ensures
        p@ == spec_member_removed_payload(
            user@,
            match member {
                Some(m) => Some(m@),
                None => None,
            },
            now as int,
        ),
{
    let mut fields: Vec<Field> = Vec::new();
    fields.push(field("User:", user_mention(user.id), false));
    fields.push(field("ID:", u64_to_string(user.id), false));
    fields.push(field("User name:", user.name.clone(), false));
    fields.push(field("Discriminator:", discriminator_text(user.discriminator), false));
    fields.push(field("Global nickname:", string_or_empty(&user.global_name), false));
    fields.push(field("Server nickname:", server_nickname(member), false));
    fields.push(field("Server membership age:", membership_age(member, now), false));
    fields.push(field("Account age:", user_account_age(user.id, now), false));
    let p = Payload {
        title: String::from_str("\u{1f6aa} User left"),
        description: String::new(),
        fields,
        color: AccentColor::DarkRed,
        footer: None,
        thumbnail: Some(string_or_empty(&user.avatar_url)),
    };
    proof {
        let s = spec_member_removed_payload(
            user@,
            match *member {
                Some(ref m) => Some(m@),
                None => None,
            },
            now as int,
        );
        assert(p@.fields =~= s.fields);
        assert(p@ =~= s);
    }
    p
}

} // verus!
