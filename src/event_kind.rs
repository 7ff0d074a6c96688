use vstd::prelude::*;
use vstd::string::StringExecFns;

verus! {

/// The kind of a gateway event, one per known `t` tag.
#[derive(Debug, Clone, Copy, PartialEq, Eq, Structural)]
pub enum EventKind {
    Ready,
    Resumed,
    ApplicationCommandCreate,
    ApplicationCommandUpdate,
    ApplicationCommandDelete,
    ApplicationCommandPermissionsUpdate,
    ChannelCreate,
    ChannelUpdate,
    ChannelDelete,
    ChannelPinsUpdate,
    ThreadCreate,
    ThreadUpdate,
    ThreadDelete,
    ThreadListSync,
    ThreadMemberUpdate,
    ThreadMembersUpdate,
    GuildCreate,
    GuildUpdate,
    GuildDelete,
    GuildBanAdd,
    GuildBanRemove,
    GuildEmojisUpdate,
    GuildIntegrationsUpdate,
    GuildJoinRequestUpdate,
    GuildJoinRequestDelete,
    GuildMemberAdd,
    GuildMemberRemove,
    GuildMemberUpdate,
    GuildMembersChunk,
    GuildRoleCreate,
    GuildRoleUpdate,
    GuildRoleDelete,
    InviteCreate,
    InviteDelete,
    MessageCreate,
    MessageUpdate,
    MessageDelete,
    MessageDeleteBulk,
    MessageReactionAdd,
    MessageReactionRemove,
    MessageReactionRemoveAll,
    MessageReactionRemoveEmoji,
    PresenceUpdate,
    StageInstanceCreate,
    StageInstanceUpdate,
    StageInstanceDelete,
    TypingStart,
    UserUpdate,
    VoiceChannelStatusUpdate,
    VoiceStateUpdate,
    VoiceServerUpdate,
    WebhookUpdate,
}

/// The tag of each kind: its name in upper snake case.
pub open spec fn kind_name(k: EventKind) -> Seq<char> {
    match k {
        EventKind::Ready => "READY"@,
        EventKind::Resumed => "RESUMED"@,
        EventKind::ApplicationCommandCreate => "APPLICATION_COMMAND_CREATE"@,
        EventKind::ApplicationCommandUpdate => "APPLICATION_COMMAND_UPDATE"@,
        EventKind::ApplicationCommandDelete => "APPLICATION_COMMAND_DELETE"@,
        EventKind::ApplicationCommandPermissionsUpdate => "APPLICATION_COMMAND_PERMISSIONS_UPDATE"@,
        EventKind::ChannelCreate => "CHANNEL_CREATE"@,
        EventKind::ChannelUpdate => "CHANNEL_UPDATE"@,
        EventKind::ChannelDelete => "CHANNEL_DELETE"@,
        EventKind::ChannelPinsUpdate => "CHANNEL_PINS_UPDATE"@,
        EventKind::ThreadCreate => "THREAD_CREATE"@,
        EventKind::ThreadUpdate => "THREAD_UPDATE"@,
        EventKind::ThreadDelete => "THREAD_DELETE"@,
        EventKind::ThreadListSync => "THREAD_LIST_SYNC"@,
        EventKind::ThreadMemberUpdate => "THREAD_MEMBER_UPDATE"@,
        EventKind::ThreadMembersUpdate => "THREAD_MEMBERS_UPDATE"@,
        EventKind::GuildCreate => "GUILD_CREATE"@,
        EventKind::GuildUpdate => "GUILD_UPDATE"@,
        EventKind::GuildDelete => "GUILD_DELETE"@,
        EventKind::GuildBanAdd => "GUILD_BAN_ADD"@,
        EventKind::GuildBanRemove => "GUILD_BAN_REMOVE"@,
        EventKind::GuildEmojisUpdate => "GUILD_EMOJIS_UPDATE"@,
        EventKind::GuildIntegrationsUpdate => "GUILD_INTEGRATIONS_UPDATE"@,
        EventKind::GuildJoinRequestUpdate => "GUILD_JOIN_REQUEST_UPDATE"@,
        EventKind::GuildJoinRequestDelete => "GUILD_JOIN_REQUEST_DELETE"@,
        EventKind::GuildMemberAdd => "GUILD_MEMBER_ADD"@,
        EventKind::GuildMemberRemove => "GUILD_MEMBER_REMOVE"@,
        EventKind::GuildMemberUpdate => "GUILD_MEMBER_UPDATE"@,
        EventKind::GuildMembersChunk => "GUILD_MEMBERS_CHUNK"@,
        EventKind::GuildRoleCreate => "GUILD_ROLE_CREATE"@,
        EventKind::GuildRoleUpdate => "GUILD_ROLE_UPDATE"@,
        EventKind::GuildRoleDelete => "GUILD_ROLE_DELETE"@,
        EventKind::InviteCreate => "INVITE_CREATE"@,
        EventKind::InviteDelete => "INVITE_DELETE"@,
        EventKind::MessageCreate => "MESSAGE_CREATE"@,
        EventKind::MessageUpdate => "MESSAGE_UPDATE"@,
        EventKind::MessageDelete => "MESSAGE_DELETE"@,
        EventKind::MessageDeleteBulk => "MESSAGE_DELETE_BULK"@,
        EventKind::MessageReactionAdd => "MESSAGE_REACTION_ADD"@,
        EventKind::MessageReactionRemove => "MESSAGE_REACTION_REMOVE"@,
        EventKind::MessageReactionRemoveAll => "MESSAGE_REACTION_REMOVE_ALL"@,
        EventKind::MessageReactionRemoveEmoji => "MESSAGE_REACTION_REMOVE_EMOJI"@,
        EventKind::PresenceUpdate => "PRESENCE_UPDATE"@,
        EventKind::StageInstanceCreate => "STAGE_INSTANCE_CREATE"@,
        EventKind::StageInstanceUpdate => "STAGE_INSTANCE_UPDATE"@,
        EventKind::StageInstanceDelete => "STAGE_INSTANCE_DELETE"@,
        EventKind::TypingStart => "TYPING_START"@,
        EventKind::UserUpdate => "USER_UPDATE"@,
        EventKind::VoiceChannelStatusUpdate => "VOICE_CHANNEL_STATUS_UPDATE"@,
        EventKind::VoiceStateUpdate => "VOICE_STATE_UPDATE"@,
        EventKind::VoiceServerUpdate => "VOICE_SERVER_UPDATE"@,
        EventKind::WebhookUpdate => "WEBHOOK_UPDATE"@,
    }
}

/// The kind that a tag names, if any.
pub open spec fn kind_of_name(t: Seq<char>) -> Option<EventKind> {
    if t == "READY"@ {
        Some(EventKind::Ready)
    } else if t == "RESUMED"@ {
        Some(EventKind::Resumed)
    } else if t == "APPLICATION_COMMAND_CREATE"@ {
        Some(EventKind::ApplicationCommandCreate)
    } else if t == "APPLICATION_COMMAND_UPDATE"@ {
        Some(EventKind::ApplicationCommandUpdate)
    } else if t == "APPLICATION_COMMAND_DELETE"@ {
        Some(EventKind::ApplicationCommandDelete)
    } else if t == "APPLICATION_COMMAND_PERMISSIONS_UPDATE"@ {
        Some(EventKind::ApplicationCommandPermissionsUpdate)
    } else if t == "CHANNEL_CREATE"@ {
        Some(EventKind::ChannelCreate)
    } else if t == "CHANNEL_UPDATE"@ {
        Some(EventKind::ChannelUpdate)
    } else if t == "CHANNEL_DELETE"@ {
        Some(EventKind::ChannelDelete)
    } else if t == "CHANNEL_PINS_UPDATE"@ {
        Some(EventKind::ChannelPinsUpdate)
    } else if t == "THREAD_CREATE"@ {
        Some(EventKind::ThreadCreate)
    } else if t == "THREAD_UPDATE"@ {
        Some(EventKind::ThreadUpdate)
    } else if t == "THREAD_DELETE"@ {
        Some(EventKind::ThreadDelete)
    } else if t == "THREAD_LIST_SYNC"@ {
        Some(EventKind::ThreadListSync)
    } else if t == "THREAD_MEMBER_UPDATE"@ {
        Some(EventKind::ThreadMemberUpdate)
    } else if t == "THREAD_MEMBERS_UPDATE"@ {
        Some(EventKind::ThreadMembersUpdate)
    } else if t == "GUILD_CREATE"@ {
        Some(EventKind::GuildCreate)
    } else if t == "GUILD_UPDATE"@ {
        Some(EventKind::GuildUpdate)
    } else if t == "GUILD_DELETE"@ {
        Some(EventKind::GuildDelete)
    } else if t == "GUILD_BAN_ADD"@ {
        Some(EventKind::GuildBanAdd)
    } else if t == "GUILD_BAN_REMOVE"@ {
        Some(EventKind::GuildBanRemove)
    } else if t == "GUILD_EMOJIS_UPDATE"@ {
        Some(EventKind::GuildEmojisUpdate)
    } else if t == "GUILD_INTEGRATIONS_UPDATE"@ {
        Some(EventKind::GuildIntegrationsUpdate)
    } else if t == "GUILD_JOIN_REQUEST_UPDATE"@ {
        Some(EventKind::GuildJoinRequestUpdate)
    } else if t == "GUILD_JOIN_REQUEST_DELETE"@ {
        Some(EventKind::GuildJoinRequestDelete)
    } else if t == "GUILD_MEMBER_ADD"@ {
        Some(EventKind::GuildMemberAdd)
    } else if t == "GUILD_MEMBER_REMOVE"@ {
        Some(EventKind::GuildMemberRemove)
    } else if t == "GUILD_MEMBER_UPDATE"@ {
        Some(EventKind::GuildMemberUpdate)
    } else if t == "GUILD_MEMBERS_CHUNK"@ {
        Some(EventKind::GuildMembersChunk)
    } else if t == "GUILD_ROLE_CREATE"@ {
        Some(EventKind::GuildRoleCreate)
    } else if t == "GUILD_ROLE_UPDATE"@ {
        Some(EventKind::GuildRoleUpdate)
    } else if t == "GUILD_ROLE_DELETE"@ {
        Some(EventKind::GuildRoleDelete)
    } else if t == "INVITE_CREATE"@ {
        Some(EventKind::InviteCreate)
    } else if t == "INVITE_DELETE"@ {
        Some(EventKind::InviteDelete)
    } else if t == "MESSAGE_CREATE"@ {
        Some(EventKind::MessageCreate)
    } else if t == "MESSAGE_UPDATE"@ {
        Some(EventKind::MessageUpdate)
    } else if t == "MESSAGE_DELETE"@ {
        Some(EventKind::MessageDelete)
    } else if t == "MESSAGE_DELETE_BULK"@ {
        Some(EventKind::MessageDeleteBulk)
    } else if t == "MESSAGE_REACTION_ADD"@ {
        Some(EventKind::MessageReactionAdd)
    } else if t == "MESSAGE_REACTION_REMOVE"@ {
        Some(EventKind::MessageReactionRemove)
    } else if t == "MESSAGE_REACTION_REMOVE_ALL"@ {
        Some(EventKind::MessageReactionRemoveAll)
    } else if t == "MESSAGE_REACTION_REMOVE_EMOJI"@ {
        Some(EventKind::MessageReactionRemoveEmoji)
    } else if t == "PRESENCE_UPDATE"@ {
        Some(EventKind::PresenceUpdate)
    } else if t == "STAGE_INSTANCE_CREATE"@ {
        Some(EventKind::StageInstanceCreate)
    } else if t == "STAGE_INSTANCE_UPDATE"@ {
        Some(EventKind::StageInstanceUpdate)
    } else if t == "STAGE_INSTANCE_DELETE"@ {
        Some(EventKind::StageInstanceDelete)
    } else if t == "TYPING_START"@ {
        Some(EventKind::TypingStart)
    } else if t == "USER_UPDATE"@ {
        Some(EventKind::UserUpdate)
    } else if t == "VOICE_CHANNEL_STATUS_UPDATE"@ {
        Some(EventKind::VoiceChannelStatusUpdate)
    } else if t == "VOICE_STATE_UPDATE"@ {
        Some(EventKind::VoiceStateUpdate)
    } else if t == "VOICE_SERVER_UPDATE"@ {
        Some(EventKind::VoiceServerUpdate)
    } else if t == "WEBHOOK_UPDATE"@ {
        Some(EventKind::WebhookUpdate)
    } else {
        None
    }
}

impl EventKind {
    /// The tag of this kind.
    pub fn name(self) -> (r: &'static str)
        ensures
            r@ == kind_name(self),
    {
        match self {
            EventKind::Ready => "READY",
            EventKind::Resumed => "RESUMED",
            EventKind::ApplicationCommandCreate => "APPLICATION_COMMAND_CREATE",
            EventKind::ApplicationCommandUpdate => "APPLICATION_COMMAND_UPDATE",
            EventKind::ApplicationCommandDelete => "APPLICATION_COMMAND_DELETE",
            EventKind::ApplicationCommandPermissionsUpdate => "APPLICATION_COMMAND_PERMISSIONS_UPDATE",
            EventKind::ChannelCreate => "CHANNEL_CREATE",
            EventKind::ChannelUpdate => "CHANNEL_UPDATE",
            EventKind::ChannelDelete => "CHANNEL_DELETE",
            EventKind::ChannelPinsUpdate => "CHANNEL_PINS_UPDATE",
            EventKind::ThreadCreate => "THREAD_CREATE",
            EventKind::ThreadUpdate => "THREAD_UPDATE",
            EventKind::ThreadDelete => "THREAD_DELETE",
            EventKind::ThreadListSync => "THREAD_LIST_SYNC",
            EventKind::ThreadMemberUpdate => "THREAD_MEMBER_UPDATE",
            EventKind::ThreadMembersUpdate => "THREAD_MEMBERS_UPDATE",
            EventKind::GuildCreate => "GUILD_CREATE",
            EventKind::GuildUpdate => "GUILD_UPDATE",
            EventKind::GuildDelete => "GUILD_DELETE",
            EventKind::GuildBanAdd => "GUILD_BAN_ADD",
            EventKind::GuildBanRemove => "GUILD_BAN_REMOVE",
            EventKind::GuildEmojisUpdate => "GUILD_EMOJIS_UPDATE",
            EventKind::GuildIntegrationsUpdate => "GUILD_INTEGRATIONS_UPDATE",
            EventKind::GuildJoinRequestUpdate => "GUILD_JOIN_REQUEST_UPDATE",
            EventKind::GuildJoinRequestDelete => "GUILD_JOIN_REQUEST_DELETE",
            EventKind::GuildMemberAdd => "GUILD_MEMBER_ADD",
            EventKind::GuildMemberRemove => "GUILD_MEMBER_REMOVE",
            EventKind::GuildMemberUpdate => "GUILD_MEMBER_UPDATE",
            EventKind::GuildMembersChunk => "GUILD_MEMBERS_CHUNK",
            EventKind::GuildRoleCreate => "GUILD_ROLE_CREATE",
            EventKind::GuildRoleUpdate => "GUILD_ROLE_UPDATE",
            EventKind::GuildRoleDelete => "GUILD_ROLE_DELETE",
            EventKind::InviteCreate => "INVITE_CREATE",
            EventKind::InviteDelete => "INVITE_DELETE",
            EventKind::MessageCreate => "MESSAGE_CREATE",
            EventKind::MessageUpdate => "MESSAGE_UPDATE",
            EventKind::MessageDelete => "MESSAGE_DELETE",
            EventKind::MessageDeleteBulk => "MESSAGE_DELETE_BULK",
            EventKind::MessageReactionAdd => "MESSAGE_REACTION_ADD",
            EventKind::MessageReactionRemove => "MESSAGE_REACTION_REMOVE",
            EventKind::MessageReactionRemoveAll => "MESSAGE_REACTION_REMOVE_ALL",
            EventKind::MessageReactionRemoveEmoji => "MESSAGE_REACTION_REMOVE_EMOJI",
            EventKind::PresenceUpdate => "PRESENCE_UPDATE",
            EventKind::StageInstanceCreate => "STAGE_INSTANCE_CREATE",
            EventKind::StageInstanceUpdate => "STAGE_INSTANCE_UPDATE",
            EventKind::StageInstanceDelete => "STAGE_INSTANCE_DELETE",
            EventKind::TypingStart => "TYPING_START",
            EventKind::UserUpdate => "USER_UPDATE",
            EventKind::VoiceChannelStatusUpdate => "VOICE_CHANNEL_STATUS_UPDATE",
            EventKind::VoiceStateUpdate => "VOICE_STATE_UPDATE",
            EventKind::VoiceServerUpdate => "VOICE_SERVER_UPDATE",
            EventKind::WebhookUpdate => "WEBHOOK_UPDATE",
        }
    }

    /// The kind whose tag is `tag`; `None` for a tag that names no kind.
    pub fn from_name(tag: &str) -> (r: Option<EventKind>)
        ensures
            r == kind_of_name(tag@),
    {
        let t = String::from_str(tag);
        if t == String::from_str("READY") {
            Some(EventKind::Ready)
        } else if t == String::from_str("RESUMED") {
            Some(EventKind::Resumed)
        } else if t == String::from_str("APPLICATION_COMMAND_CREATE") {
            Some(EventKind::ApplicationCommandCreate)
        } else if t == String::from_str("APPLICATION_COMMAND_UPDATE") {
            Some(EventKind::ApplicationCommandUpdate)
        } else if t == String::from_str("APPLICATION_COMMAND_DELETE") {
            Some(EventKind::ApplicationCommandDelete)
        } else if t == String::from_str("APPLICATION_COMMAND_PERMISSIONS_UPDATE") {
            Some(EventKind::ApplicationCommandPermissionsUpdate)
        } else if t == String::from_str("CHANNEL_CREATE") {
            Some(EventKind::ChannelCreate)
        } else if t == String::from_str("CHANNEL_UPDATE") {
            Some(EventKind::ChannelUpdate)
        } else if t == String::from_str("CHANNEL_DELETE") {
            Some(EventKind::ChannelDelete)
        } else if t == String::from_str("CHANNEL_PINS_UPDATE") {
            Some(EventKind::ChannelPinsUpdate)
        } else if t == String::from_str("THREAD_CREATE") {
            Some(EventKind::ThreadCreate)
        } else if t == String::from_str("THREAD_UPDATE") {
            Some(EventKind::ThreadUpdate)
        } else if t == String::from_str("THREAD_DELETE") {
            Some(EventKind::ThreadDelete)
        } else if t == String::from_str("THREAD_LIST_SYNC") {
            Some(EventKind::ThreadListSync)
        } else if t == String::from_str("THREAD_MEMBER_UPDATE") {
            Some(EventKind::ThreadMemberUpdate)
        } else if t == String::from_str("THREAD_MEMBERS_UPDATE") {
            Some(EventKind::ThreadMembersUpdate)
        } else if t == String::from_str("GUILD_CREATE") {
            Some(EventKind::GuildCreate)
        } else if t == String::from_str("GUILD_UPDATE") {
            Some(EventKind::GuildUpdate)
        } else if t == String::from_str("GUILD_DELETE") {
            Some(EventKind::GuildDelete)
        } else if t == String::from_str("GUILD_BAN_ADD") {
            Some(EventKind::GuildBanAdd)
        } else if t == String::from_str("GUILD_BAN_REMOVE") {
            Some(EventKind::GuildBanRemove)
        } else if t == String::from_str("GUILD_EMOJIS_UPDATE") {
            Some(EventKind::GuildEmojisUpdate)
        } else if t == String::from_str("GUILD_INTEGRATIONS_UPDATE") {
            Some(EventKind::GuildIntegrationsUpdate)
        } else if t == String::from_str("GUILD_JOIN_REQUEST_UPDATE") {
            Some(EventKind::GuildJoinRequestUpdate)
        } else if t == String::from_str("GUILD_JOIN_REQUEST_DELETE") {
            Some(EventKind::GuildJoinRequestDelete)
        } else if t == String::from_str("GUILD_MEMBER_ADD") {
            Some(EventKind::GuildMemberAdd)
        } else if t == String::from_str("GUILD_MEMBER_REMOVE") {
            Some(EventKind::GuildMemberRemove)
        } else if t == String::from_str("GUILD_MEMBER_UPDATE") {
            Some(EventKind::GuildMemberUpdate)
        } else if t == String::from_str("GUILD_MEMBERS_CHUNK") {
            Some(EventKind::GuildMembersChunk)
        } else if t == String::from_str("GUILD_ROLE_CREATE") {
            Some(EventKind::GuildRoleCreate)
        } else if t == String::from_str("GUILD_ROLE_UPDATE") {
            Some(EventKind::GuildRoleUpdate)
        } else if t == String::from_str("GUILD_ROLE_DELETE") {
            Some(EventKind::GuildRoleDelete)
        } else if t == String::from_str("INVITE_CREATE") {
            Some(EventKind::InviteCreate)
        } else if t == String::from_str("INVITE_DELETE") {
            Some(EventKind::InviteDelete)
        } else if t == String::from_str("MESSAGE_CREATE") {
            Some(EventKind::MessageCreate)
        } else if t == String::from_str("MESSAGE_UPDATE") {
            Some(EventKind::MessageUpdate)
        } else if t == String::from_str("MESSAGE_DELETE") {
            Some(EventKind::MessageDelete)
        } else if t == String::from_str("MESSAGE_DELETE_BULK") {
            Some(EventKind::MessageDeleteBulk)
        } else if t == String::from_str("MESSAGE_REACTION_ADD") {
            Some(EventKind::MessageReactionAdd)
        } else if t == String::from_str("MESSAGE_REACTION_REMOVE") {
            Some(EventKind::MessageReactionRemove)
        } else if t == String::from_str("MESSAGE_REACTION_REMOVE_ALL") {
            Some(EventKind::MessageReactionRemoveAll)
        } else if t == String::from_str("MESSAGE_REACTION_REMOVE_EMOJI") {
            Some(EventKind::MessageReactionRemoveEmoji)
        } else if t == String::from_str("PRESENCE_UPDATE") {
            Some(EventKind::PresenceUpdate)
        } else if t == String::from_str("STAGE_INSTANCE_CREATE") {
            Some(EventKind::StageInstanceCreate)
        } else if t == String::from_str("STAGE_INSTANCE_UPDATE") {
            Some(EventKind::StageInstanceUpdate)
        } else if t == String::from_str("STAGE_INSTANCE_DELETE") {
            Some(EventKind::StageInstanceDelete)
        } else if t == String::from_str("TYPING_START") {
            Some(EventKind::TypingStart)
        } else if t == String::from_str("USER_UPDATE") {
            Some(EventKind::UserUpdate)
        } else if t == String::from_str("VOICE_CHANNEL_STATUS_UPDATE") {
            Some(EventKind::VoiceChannelStatusUpdate)
        } else if t == String::from_str("VOICE_STATE_UPDATE") {
            Some(EventKind::VoiceStateUpdate)
        } else if t == String::from_str("VOICE_SERVER_UPDATE") {
            Some(EventKind::VoiceServerUpdate)
        } else if t == String::from_str("WEBHOOK_UPDATE") {
            Some(EventKind::WebhookUpdate)
        } else {
            None
        }
    }
}

/// A few characters of a tag; no two tags share them.
pub open spec fn tag_sig(s: Seq<char>) -> (nat, char, char) {
    (
        s.len(),
        if s.len() >= 4 { s[s.len() - 4] } else { ' ' },
        if s.len() >= 10 { s[s.len() - 10] } else { ' ' },
    )
}

/// Every kind's tag names that kind, and `UNKNOWN` names none.
pub proof fn lemma_names_distinct()
    ensures
        forall|k: EventKind| #[trigger] kind_of_name(kind_name(k)) == Some(k),
        kind_of_name("UNKNOWN"@) is None,
{
    reveal_strlit("READY");
    reveal_strlit("RESUMED");
    reveal_strlit("APPLICATION_COMMAND_CREATE");
    reveal_strlit("APPLICATION_COMMAND_UPDATE");
    reveal_strlit("APPLICATION_COMMAND_DELETE");
    reveal_strlit("APPLICATION_COMMAND_PERMISSIONS_UPDATE");
    reveal_strlit("CHANNEL_CREATE");
    reveal_strlit("CHANNEL_UPDATE");
    reveal_strlit("CHANNEL_DELETE");
    reveal_strlit("CHANNEL_PINS_UPDATE");
    reveal_strlit("THREAD_CREATE");
    reveal_strlit("THREAD_UPDATE");
    reveal_strlit("THREAD_DELETE");
    reveal_strlit("THREAD_LIST_SYNC");
    reveal_strlit("THREAD_MEMBER_UPDATE");
    reveal_strlit("THREAD_MEMBERS_UPDATE");
    reveal_strlit("GUILD_CREATE");
    reveal_strlit("GUILD_UPDATE");
    reveal_strlit("GUILD_DELETE");
    reveal_strlit("GUILD_BAN_ADD");
    reveal_strlit("GUILD_BAN_REMOVE");
    reveal_strlit("GUILD_EMOJIS_UPDATE");
    reveal_strlit("GUILD_INTEGRATIONS_UPDATE");
    reveal_strlit("GUILD_JOIN_REQUEST_UPDATE");
    reveal_strlit("GUILD_JOIN_REQUEST_DELETE");
    reveal_strlit("GUILD_MEMBER_ADD");
    reveal_strlit("GUILD_MEMBER_REMOVE");
    reveal_strlit("GUILD_MEMBER_UPDATE");
    reveal_strlit("GUILD_MEMBERS_CHUNK");
    reveal_strlit("GUILD_ROLE_CREATE");
    reveal_strlit("GUILD_ROLE_UPDATE");
    reveal_strlit("GUILD_ROLE_DELETE");
    reveal_strlit("INVITE_CREATE");
    reveal_strlit("INVITE_DELETE");
    reveal_strlit("MESSAGE_CREATE");
    reveal_strlit("MESSAGE_UPDATE");
    reveal_strlit("MESSAGE_DELETE");
    reveal_strlit("MESSAGE_DELETE_BULK");
    reveal_strlit("MESSAGE_REACTION_ADD");
    reveal_strlit("MESSAGE_REACTION_REMOVE");
    reveal_strlit("MESSAGE_REACTION_REMOVE_ALL");
    reveal_strlit("MESSAGE_REACTION_REMOVE_EMOJI");
    reveal_strlit("PRESENCE_UPDATE");
    reveal_strlit("STAGE_INSTANCE_CREATE");
    reveal_strlit("STAGE_INSTANCE_UPDATE");
    reveal_strlit("STAGE_INSTANCE_DELETE");
    reveal_strlit("TYPING_START");
    reveal_strlit("USER_UPDATE");
    reveal_strlit("VOICE_CHANNEL_STATUS_UPDATE");
    reveal_strlit("VOICE_STATE_UPDATE");
    reveal_strlit("VOICE_SERVER_UPDATE");
    reveal_strlit("WEBHOOK_UPDATE");
    reveal_strlit("UNKNOWN");
    assert(tag_sig("READY"@) == (5nat, 'E', ' '));
    assert(tag_sig("RESUMED"@) == (7nat, 'U', ' '));
    assert(tag_sig("APPLICATION_COMMAND_CREATE"@) == (26nat, 'E', 'A'));
    assert(tag_sig("APPLICATION_COMMAND_UPDATE"@) == (26nat, 'D', 'A'));
    assert(tag_sig("APPLICATION_COMMAND_DELETE"@) == (26nat, 'L', 'A'));
    assert(tag_sig("APPLICATION_COMMAND_PERMISSIONS_UPDATE"@) == (38nat, 'D', 'O'));
    assert(tag_sig("CHANNEL_CREATE"@) == (14nat, 'E', 'N'));
    assert(tag_sig("CHANNEL_UPDATE"@) == (14nat, 'D', 'N'));
    assert(tag_sig("CHANNEL_DELETE"@) == (14nat, 'L', 'N'));
    assert(tag_sig("CHANNEL_PINS_UPDATE"@) == (19nat, 'D', 'I'));
    assert(tag_sig("THREAD_CREATE"@) == (13nat, 'E', 'E'));
    assert(tag_sig("THREAD_UPDATE"@) == (13nat, 'D', 'E'));
    assert(tag_sig("THREAD_DELETE"@) == (13nat, 'L', 'E'));
    assert(tag_sig("THREAD_LIST_SYNC"@) == (16nat, 'S', '_'));
    assert(tag_sig("THREAD_MEMBER_UPDATE"@) == (20nat, 'D', 'B'));
    assert(tag_sig("THREAD_MEMBERS_UPDATE"@) == (21nat, 'D', 'E'));
    assert(tag_sig("GUILD_CREATE"@) == (12nat, 'E', 'I'));
    assert(tag_sig("GUILD_UPDATE"@) == (12nat, 'D', 'I'));
    assert(tag_sig("GUILD_DELETE"@) == (12nat, 'L', 'I'));
    assert(tag_sig("GUILD_BAN_ADD"@) == (13nat, '_', 'L'));
    assert(tag_sig("GUILD_BAN_REMOVE"@) == (16nat, 'M', 'B'));
    assert(tag_sig("GUILD_EMOJIS_UPDATE"@) == (19nat, 'D', 'J'));
    assert(tag_sig("GUILD_INTEGRATIONS_UPDATE"@) == (25nat, 'D', 'O'));
    assert(tag_sig("GUILD_JOIN_REQUEST_UPDATE"@) == (25nat, 'D', 'E'));
    assert(tag_sig("GUILD_JOIN_REQUEST_DELETE"@) == (25nat, 'L', 'E'));
    assert(tag_sig("GUILD_MEMBER_ADD"@) == (16nat, '_', 'M'));
    assert(tag_sig("GUILD_MEMBER_REMOVE"@) == (19nat, 'M', 'B'));
    assert(tag_sig("GUILD_MEMBER_UPDATE"@) == (19nat, 'D', 'B'));
    assert(tag_sig("GUILD_MEMBERS_CHUNK"@) == (19nat, 'H', 'B'));
    assert(tag_sig("GUILD_ROLE_CREATE"@) == (17nat, 'E', 'O'));
    assert(tag_sig("GUILD_ROLE_UPDATE"@) == (17nat, 'D', 'O'));
    assert(tag_sig("GUILD_ROLE_DELETE"@) == (17nat, 'L', 'O'));
    assert(tag_sig("INVITE_CREATE"@) == (13nat, 'E', 'I'));
    assert(tag_sig("INVITE_DELETE"@) == (13nat, 'L', 'I'));
    assert(tag_sig("MESSAGE_CREATE"@) == (14nat, 'E', 'A'));
    assert(tag_sig("MESSAGE_UPDATE"@) == (14nat, 'D', 'A'));
    assert(tag_sig("MESSAGE_DELETE"@) == (14nat, 'L', 'A'));
    assert(tag_sig("MESSAGE_DELETE_BULK"@) == (19nat, 'B', 'E'));
    assert(tag_sig("MESSAGE_REACTION_ADD"@) == (20nat, '_', 'A'));
    assert(tag_sig("MESSAGE_REACTION_REMOVE"@) == (23nat, 'M', 'I'));
    assert(tag_sig("MESSAGE_REACTION_REMOVE_ALL"@) == (27nat, '_', 'R'));
    assert(tag_sig("MESSAGE_REACTION_REMOVE_EMOJI"@) == (29nat, 'M', 'M'));
    assert(tag_sig("PRESENCE_UPDATE"@) == (15nat, 'D', 'N'));
    assert(tag_sig("STAGE_INSTANCE_CREATE"@) == (21nat, 'E', 'N'));
    assert(tag_sig("STAGE_INSTANCE_UPDATE"@) == (21nat, 'D', 'N'));
    assert(tag_sig("STAGE_INSTANCE_DELETE"@) == (21nat, 'L', 'N'));
    assert(tag_sig("TYPING_START"@) == (12nat, 'T', 'P'));
    assert(tag_sig("USER_UPDATE"@) == (11nat, 'D', 'S'));
    assert(tag_sig("VOICE_CHANNEL_STATUS_UPDATE"@) == (27nat, 'D', 'T'));
    assert(tag_sig("VOICE_STATE_UPDATE"@) == (18nat, 'D', 'A'));
    assert(tag_sig("VOICE_SERVER_UPDATE"@) == (19nat, 'D', 'V'));
    assert(tag_sig("WEBHOOK_UPDATE"@) == (14nat, 'D', 'O'));
    assert(tag_sig("UNKNOWN"@) == (7nat, 'N', ' '));
    assert forall|k: EventKind| #[trigger] kind_of_name(kind_name(k)) == Some(k) by {
        match k {
            EventKind::Ready => {},
            EventKind::Resumed => {},
            EventKind::ApplicationCommandCreate => {},
            EventKind::ApplicationCommandUpdate => {},
            EventKind::ApplicationCommandDelete => {},
            EventKind::ApplicationCommandPermissionsUpdate => {},
            EventKind::ChannelCreate => {},
            EventKind::ChannelUpdate => {},
            EventKind::ChannelDelete => {},
            EventKind::ChannelPinsUpdate => {},
            EventKind::ThreadCreate => {},
            EventKind::ThreadUpdate => {},
            EventKind::ThreadDelete => {},
            EventKind::ThreadListSync => {},
            EventKind::ThreadMemberUpdate => {},
            EventKind::ThreadMembersUpdate => {},
            EventKind::GuildCreate => {},
            EventKind::GuildUpdate => {},
            EventKind::GuildDelete => {},
            EventKind::GuildBanAdd => {},
            EventKind::GuildBanRemove => {},
            EventKind::GuildEmojisUpdate => {},
            EventKind::GuildIntegrationsUpdate => {},
            EventKind::GuildJoinRequestUpdate => {},
            EventKind::GuildJoinRequestDelete => {},
            EventKind::GuildMemberAdd => {},
            EventKind::GuildMemberRemove => {},
            EventKind::GuildMemberUpdate => {},
            EventKind::GuildMembersChunk => {},
            EventKind::GuildRoleCreate => {},
            EventKind::GuildRoleUpdate => {},
            EventKind::GuildRoleDelete => {},
            EventKind::InviteCreate => {},
            EventKind::InviteDelete => {},
            EventKind::MessageCreate => {},
            EventKind::MessageUpdate => {},
            EventKind::MessageDelete => {},
            EventKind::MessageDeleteBulk => {},
            EventKind::MessageReactionAdd => {},
            EventKind::MessageReactionRemove => {},
            EventKind::MessageReactionRemoveAll => {},
            EventKind::MessageReactionRemoveEmoji => {},
            EventKind::PresenceUpdate => {},
            EventKind::StageInstanceCreate => {},
            EventKind::StageInstanceUpdate => {},
            EventKind::StageInstanceDelete => {},
            EventKind::TypingStart => {},
            EventKind::UserUpdate => {},
            EventKind::VoiceChannelStatusUpdate => {},
            EventKind::VoiceStateUpdate => {},
            EventKind::VoiceServerUpdate => {},
            EventKind::WebhookUpdate => {},
        }
    }
}

} // verus!
