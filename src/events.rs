use vstd::prelude::*;

use crate::text::str_eq;

verus! {

/// The logical type of a dispatched gateway event.
#[derive(Debug, Clone, Copy, PartialEq, Eq, Hash, Structural)]
pub enum Event {
    Hello,
    Ready,
    Resumed,
    Reconnect,
    InvalidSession,
    ApplicationCommandPermissionsUpdate,
    AutoModerationRuleCreate,
    AutoModerationRuleUpdate,
    AutoModerationRuleDelete,
    AutoModerationActionExecution,
    ChannelCreate,
    ChannelUpdate,
    ChannelDelete,
    ChannelPinsUpdate,
    ThreadCreate,
    ThreadUpdate,
    ThreadDelete,
    ThreadListSync,
    ThreadMemberUpdate,
    ThreadMembersUpdate,
    EntitlementCreate,
    EntitlementUpdate,
    EntitlementDelete,
    GuildCreate,
    GuildUpdate,
    GuildDelete,
    GuildAuditLogEntryCreate,
    GuildBanAdd,
    GuildBanRemove,
    GuildEmojisUpdate,
    GuildStickersUpdate,
    GuildIntegrationsUpdate,
    GuildMemberAdd,
    GuildMemberRemove,
    GuildMemberUpdate,
    GuildMembersChunk,
    GuildRoleCreate,
    GuildRoleUpdate,
    GuildRoleDelete,
    GuildScheduledEventCreate,
    GuildScheduledEventUpdate,
    GuildScheduledEventDelete,
    GuildScheduledEventUserAdd,
    GuildScheduledEventUserRemove,
    IntegrationCreate,
    IntegrationUpdate,
    IntegrationDelete,
    InteractionCreate,
    InviteCreate,
    InviteDelete,
    MessageCreate,
    MessageUpdate,
    MessageDelete,
    MessageDeleteBulk,
    MessageReactionAdd,
    MessageReactionRemove,
    MessageReactionRemoveAll,
    MessageReactionRemoveEmoji,
    PresenceUpdate,
    StageInstanceCreate,
    StageInstanceUpdate,
    StageInstanceDelete,
    TypingStart,
    UserUpdate,
    VoiceStateUpdate,
    VoiceServerUpdate,
    WebhooksUpdate,
}

/// The wire name under which the gateway dispatches each event type.
pub open spec fn event_name(e: Event) -> Seq<char> {
    match e {
        Event::Hello => "HELLO"@,
        Event::Ready => "READY"@,
        Event::Resumed => "RESUMED"@,
        Event::Reconnect => "RECONNECT"@,
        Event::InvalidSession => "INVALID_SESSION"@,
        Event::ApplicationCommandPermissionsUpdate => "APPLICATION_COMMAND_PERMISSIONS_UPDATE"@,
        Event::AutoModerationRuleCreate => "AUTO_MODERATION_RULE_CREATE"@,
        Event::AutoModerationRuleUpdate => "AUTO_MODERATION_RULE_UPDATE"@,
        Event::AutoModerationRuleDelete => "AUTO_MODERATION_RULE_DELETE"@,
        Event::AutoModerationActionExecution => "AUTO_MODERATION_ACTION_EXECUTION"@,
        Event::ChannelCreate => "CHANNEL_CREATE"@,
        Event::ChannelUpdate => "CHANNEL_UPDATE"@,
        Event::ChannelDelete => "CHANNEL_DELETE"@,
        Event::ChannelPinsUpdate => "CHANNEL_PINS_UPDATE"@,
        Event::ThreadCreate => "THREAD_CREATE"@,
        Event::ThreadUpdate => "THREAD_UPDATE"@,
        Event::ThreadDelete => "THREAD_DELETE"@,
        Event::ThreadListSync => "THREAD_LIST_SYNC"@,
        Event::ThreadMemberUpdate => "THREAD_MEMBER_UPDATE"@,
        Event::ThreadMembersUpdate => "THREAD_MEMBERS_UPDATE"@,
        Event::EntitlementCreate => "ENTITLEMENT_CREATE"@,
        Event::EntitlementUpdate => "ENTITLEMENT_UPDATE"@,
        Event::EntitlementDelete => "ENTITLEMENT_DELETE"@,
        Event::GuildCreate => "GUILD_CREATE"@,
        Event::GuildUpdate => "GUILD_UPDATE"@,
        Event::GuildDelete => "GUILD_DELETE"@,
        Event::GuildAuditLogEntryCreate => "GUILD_AUDIT_LOG_ENTRY_CREATE"@,
        Event::GuildBanAdd => "GUILD_BAN_ADD"@,
        Event::GuildBanRemove => "GUILD_BAN_REMOVE"@,
        Event::GuildEmojisUpdate => "GUILD_EMOJIS_UPDATE"@,
        Event::GuildStickersUpdate => "GUILD_STICKERS_UPDATE"@,
        Event::GuildIntegrationsUpdate => "GUILD_INTEGRATIONS_UPDATE"@,
        Event::GuildMemberAdd => "GUILD_MEMBER_ADD"@,
        Event::GuildMemberRemove => "GUILD_MEMBER_REMOVE"@,
        Event::GuildMemberUpdate => "GUILD_MEMBER_UPDATE"@,
        Event::GuildMembersChunk => "GUILD_MEMBERS_CHUNK"@,
        Event::GuildRoleCreate => "GUILD_ROLE_CREATE"@,
        Event::GuildRoleUpdate => "GUILD_ROLE_UPDATE"@,
        Event::GuildRoleDelete => "GUILD_ROLE_DELETE"@,
        Event::GuildScheduledEventCreate => "GUILD_SCHEDULED_EVENT_CREATE"@,
        Event::GuildScheduledEventUpdate => "GUILD_SCHEDULED_EVENT_UPDATE"@,
        Event::GuildScheduledEventDelete => "GUILD_SCHEDULED_EVENT_DELETE"@,
        Event::GuildScheduledEventUserAdd => "GUILD_SCHEDULED_EVENT_USER_ADD"@,
        Event::GuildScheduledEventUserRemove => "GUILD_SCHEDULED_EVENT_USER_REMOVE"@,
        Event::IntegrationCreate => "INTEGRATION_CREATE"@,
        Event::IntegrationUpdate => "INTEGRATION_UPDATE"@,
        Event::IntegrationDelete => "INTEGRATION_DELETE"@,
        Event::InteractionCreate => "INTERACTION_CREATE"@,
        Event::InviteCreate => "INVITE_CREATE"@,
        Event::InviteDelete => "INVITE_DELETE"@,
        Event::MessageCreate => "MESSAGE_CREATE"@,
        Event::MessageUpdate => "MESSAGE_UPDATE"@,
        Event::MessageDelete => "MESSAGE_DELETE"@,
        Event::MessageDeleteBulk => "MESSAGE_DELETE_BULK"@,
        Event::MessageReactionAdd => "MESSAGE_REACTION_ADD"@,
        Event::MessageReactionRemove => "MESSAGE_REACTION_REMOVE"@,
        Event::MessageReactionRemoveAll => "MESSAGE_REACTION_REMOVE_ALL"@,
        Event::MessageReactionRemoveEmoji => "MESSAGE_REACTION_REMOVE_EMOJI"@,
        Event::PresenceUpdate => "PRESENCE_UPDATE"@,
        Event::StageInstanceCreate => "STAGE_INSTANCE_CREATE"@,
        Event::StageInstanceUpdate => "STAGE_INSTANCE_UPDATE"@,
        Event::StageInstanceDelete => "STAGE_INSTANCE_DELETE"@,
        Event::TypingStart => "TYPING_START"@,
        Event::UserUpdate => "USER_UPDATE"@,
        Event::VoiceStateUpdate => "VOICE_STATE_UPDATE"@,
        Event::VoiceServerUpdate => "VOICE_SERVER_UPDATE"@,
        Event::WebhooksUpdate => "WEBHOOKS_UPDATE"@,
    }
}

impl Event {
    /// Resolves a dispatch name (such as `MESSAGE_CREATE`) to its event type.
    pub fn from_name(s: &str) -> (r: Result<Event, ()>)
        ensures
            r matches Ok(e) ==> event_name(e) == s@,
            r is Err ==> forall|e: Event| event_name(e) != s@,
    {
        if str_eq(s, "HELLO") {
            return Ok(Event::Hello);
        }
        if str_eq(s, "READY") {
            return Ok(Event::Ready);
        }
        if str_eq(s, "RESUMED") {
            return Ok(Event::Resumed);
        }
        if str_eq(s, "RECONNECT") {
            return Ok(Event::Reconnect);
        }
        if str_eq(s, "INVALID_SESSION") {
            return Ok(Event::InvalidSession);
        }
        if str_eq(s, "APPLICATION_COMMAND_PERMISSIONS_UPDATE") {
            return Ok(Event::ApplicationCommandPermissionsUpdate);
        }
        if str_eq(s, "AUTO_MODERATION_RULE_CREATE") {
            return Ok(Event::AutoModerationRuleCreate);
        }
        if str_eq(s, "AUTO_MODERATION_RULE_UPDATE") {
            return Ok(Event::AutoModerationRuleUpdate);
        }
        if str_eq(s, "AUTO_MODERATION_RULE_DELETE") {
            return Ok(Event::AutoModerationRuleDelete);
        }
        if str_eq(s, "AUTO_MODERATION_ACTION_EXECUTION") {
            return Ok(Event::AutoModerationActionExecution);
        }
        if str_eq(s, "CHANNEL_CREATE") {
            return Ok(Event::ChannelCreate);
        }
        if str_eq(s, "CHANNEL_UPDATE") {
            return Ok(Event::ChannelUpdate);
        }
        if str_eq(s, "CHANNEL_DELETE") {
            return Ok(Event::ChannelDelete);
        }
        if str_eq(s, "CHANNEL_PINS_UPDATE") {
            return Ok(Event::ChannelPinsUpdate);
        }
        if str_eq(s, "THREAD_CREATE") {
            return Ok(Event::ThreadCreate);
        }
        if str_eq(s, "THREAD_UPDATE") {
            return Ok(Event::ThreadUpdate);
        }
        if str_eq(s, "THREAD_DELETE") {
            return Ok(Event::ThreadDelete);
        }
        if str_eq(s, "THREAD_LIST_SYNC") {
            return Ok(Event::ThreadListSync);
        }
        if str_eq(s, "THREAD_MEMBER_UPDATE") {
            return Ok(Event::ThreadMemberUpdate);
        }
        if str_eq(s, "THREAD_MEMBERS_UPDATE") {
            return Ok(Event::ThreadMembersUpdate);
        }
        if str_eq(s, "ENTITLEMENT_CREATE") {
            return Ok(Event::EntitlementCreate);
        }
        if str_eq(s, "ENTITLEMENT_UPDATE") {
            return Ok(Event::EntitlementUpdate);
        }
        if str_eq(s, "ENTITLEMENT_DELETE") {
            return Ok(Event::EntitlementDelete);
        }
        if str_eq(s, "GUILD_CREATE") {
            return Ok(Event::GuildCreate);
        }
        if str_eq(s, "GUILD_UPDATE") {
            return Ok(Event::GuildUpdate);
        }
        if str_eq(s, "GUILD_DELETE") {
            return Ok(Event::GuildDelete);
        }
        if str_eq(s, "GUILD_AUDIT_LOG_ENTRY_CREATE") {
            return Ok(Event::GuildAuditLogEntryCreate);
        }
        if str_eq(s, "GUILD_BAN_ADD") {
            return Ok(Event::GuildBanAdd);
        }
        if str_eq(s, "GUILD_BAN_REMOVE") {
            return Ok(Event::GuildBanRemove);
        }
        if str_eq(s, "GUILD_EMOJIS_UPDATE") {
            return Ok(Event::GuildEmojisUpdate);
        }
        if str_eq(s, "GUILD_STICKERS_UPDATE") {
            return Ok(Event::GuildStickersUpdate);
        }
        if str_eq(s, "GUILD_INTEGRATIONS_UPDATE") {
            return Ok(Event::GuildIntegrationsUpdate);
        }
        if str_eq(s, "GUILD_MEMBER_ADD") {
            return Ok(Event::GuildMemberAdd);
        }
        if str_eq(s, "GUILD_MEMBER_REMOVE") {
            return Ok(Event::GuildMemberRemove);
        }
        if str_eq(s, "GUILD_MEMBER_UPDATE") {
            return Ok(Event::GuildMemberUpdate);
        }
        if str_eq(s, "GUILD_MEMBERS_CHUNK") {
            return Ok(Event::GuildMembersChunk);
        }
        if str_eq(s, "GUILD_ROLE_CREATE") {
            return Ok(Event::GuildRoleCreate);
        }
        if str_eq(s, "GUILD_ROLE_UPDATE") {
            return Ok(Event::GuildRoleUpdate);
        }
        if str_eq(s, "GUILD_ROLE_DELETE") {
            return Ok(Event::GuildRoleDelete);
        }
        if str_eq(s, "GUILD_SCHEDULED_EVENT_CREATE") {
            return Ok(Event::GuildScheduledEventCreate);
        }
        if str_eq(s, "GUILD_SCHEDULED_EVENT_UPDATE") {
            return Ok(Event::GuildScheduledEventUpdate);
        }
        if str_eq(s, "GUILD_SCHEDULED_EVENT_DELETE") {
            return Ok(Event::GuildScheduledEventDelete);
        }
        if str_eq(s, "GUILD_SCHEDULED_EVENT_USER_ADD") {
            return Ok(Event::GuildScheduledEventUserAdd);
        }
        if str_eq(s, "GUILD_SCHEDULED_EVENT_USER_REMOVE") {
            return Ok(Event::GuildScheduledEventUserRemove);
        }
        if str_eq(s, "INTEGRATION_CREATE") {
            return Ok(Event::IntegrationCreate);
        }
        if str_eq(s, "INTEGRATION_UPDATE") {
            return Ok(Event::IntegrationUpdate);
        }
        if str_eq(s, "INTEGRATION_DELETE") {
            return Ok(Event::IntegrationDelete);
        }
        if str_eq(s, "INTERACTION_CREATE") {
            return Ok(Event::InteractionCreate);
        }
        if str_eq(s, "INVITE_CREATE") {
            return Ok(Event::InviteCreate);
        }
        if str_eq(s, "INVITE_DELETE") {
            return Ok(Event::InviteDelete);
        }
        if str_eq(s, "MESSAGE_CREATE") {
            return Ok(Event::MessageCreate);
        }
        if str_eq(s, "MESSAGE_UPDATE") {
            return Ok(Event::MessageUpdate);
        }
        if str_eq(s, "MESSAGE_DELETE") {
            return Ok(Event::MessageDelete);
        }
        if str_eq(s, "MESSAGE_DELETE_BULK") {
            return Ok(Event::MessageDeleteBulk);
        }
        if str_eq(s, "MESSAGE_REACTION_ADD") {
            return Ok(Event::MessageReactionAdd);
        }
        if str_eq(s, "MESSAGE_REACTION_REMOVE") {
            return Ok(Event::MessageReactionRemove);
        }
        if str_eq(s, "MESSAGE_REACTION_REMOVE_ALL") {
            return Ok(Event::MessageReactionRemoveAll);
        }
        if str_eq(s, "MESSAGE_REACTION_REMOVE_EMOJI") {
            return Ok(Event::MessageReactionRemoveEmoji);
        }
        if str_eq(s, "PRESENCE_UPDATE") {
            return Ok(Event::PresenceUpdate);
        }
        if str_eq(s, "STAGE_INSTANCE_CREATE") {
            return Ok(Event::StageInstanceCreate);
        }
        if str_eq(s, "STAGE_INSTANCE_UPDATE") {
            return Ok(Event::StageInstanceUpdate);
        }
        if str_eq(s, "STAGE_INSTANCE_DELETE") {
            return Ok(Event::StageInstanceDelete);
        }
        if str_eq(s, "TYPING_START") {
            return Ok(Event::TypingStart);
        }
        if str_eq(s, "USER_UPDATE") {
            return Ok(Event::UserUpdate);
        }
        if str_eq(s, "VOICE_STATE_UPDATE") {
            return Ok(Event::VoiceStateUpdate);
        }
        if str_eq(s, "VOICE_SERVER_UPDATE") {
            return Ok(Event::VoiceServerUpdate);
        }
        if str_eq(s, "WEBHOOKS_UPDATE") {
            return Ok(Event::WebhooksUpdate);
        }
        Err(())
    }
}

/// The character at `k`, or a space past either end.
pub open spec fn char_or_space(s: Seq<char>, k: int) -> char {
    if 0 <= k < s.len() {
        s[k]
    } else {
        ' '
    }
}

/// A few characters that tell the wire names apart: the length, the first
/// and seventh characters, and the fourth from the end.
pub open spec fn fingerprint(s: Seq<char>) -> (nat, char, char, char) {
    (s.len(), char_or_space(s, 0), char_or_space(s, 6), char_or_space(s, s.len() - 4))
}

/// The fingerprint of each event type's wire name.
pub open spec fn event_fingerprint(e: Event) -> (nat, char, char, char) {
    match e {
        Event::Hello => (5, 'H', ' ', 'E'),
        Event::Ready => (5, 'R', ' ', 'E'),
        Event::Resumed => (7, 'R', 'D', 'U'),
        Event::Reconnect => (9, 'R', 'E', 'N'),
        Event::InvalidSession => (15, 'I', 'D', 'S'),
        Event::ApplicationCommandPermissionsUpdate => (38, 'A', 'A', 'D'),
        Event::AutoModerationRuleCreate => (27, 'A', 'O', 'E'),
        Event::AutoModerationRuleUpdate => (27, 'A', 'O', 'D'),
        Event::AutoModerationRuleDelete => (27, 'A', 'O', 'L'),
        Event::AutoModerationActionExecution => (32, 'A', 'O', 'T'),
        Event::ChannelCreate => (14, 'C', 'L', 'E'),
        Event::ChannelUpdate => (14, 'C', 'L', 'D'),
        Event::ChannelDelete => (14, 'C', 'L', 'L'),
        Event::ChannelPinsUpdate => (19, 'C', 'L', 'D'),
        Event::ThreadCreate => (13, 'T', '_', 'E'),
        Event::ThreadUpdate => (13, 'T', '_', 'D'),
        Event::ThreadDelete => (13, 'T', '_', 'L'),
        Event::ThreadListSync => (16, 'T', '_', 'S'),
        Event::ThreadMemberUpdate => (20, 'T', '_', 'D'),
        Event::ThreadMembersUpdate => (21, 'T', '_', 'D'),
        Event::EntitlementCreate => (18, 'E', 'E', 'E'),
        Event::EntitlementUpdate => (18, 'E', 'E', 'D'),
        Event::EntitlementDelete => (18, 'E', 'E', 'L'),
        Event::GuildCreate => (12, 'G', 'C', 'E'),
        Event::GuildUpdate => (12, 'G', 'U', 'D'),
        Event::GuildDelete => (12, 'G', 'D', 'L'),
        Event::GuildAuditLogEntryCreate => (28, 'G', 'A', 'E'),
        Event::GuildBanAdd => (13, 'G', 'B', '_'),
        Event::GuildBanRemove => (16, 'G', 'B', 'M'),
        Event::GuildEmojisUpdate => (19, 'G', 'E', 'D'),
        Event::GuildStickersUpdate => (21, 'G', 'S', 'D'),
        Event::GuildIntegrationsUpdate => (25, 'G', 'I', 'D'),
        Event::GuildMemberAdd => (16, 'G', 'M', '_'),
        Event::GuildMemberRemove => (19, 'G', 'M', 'M'),
        Event::GuildMemberUpdate => (19, 'G', 'M', 'D'),
        Event::GuildMembersChunk => (19, 'G', 'M', 'H'),
        Event::GuildRoleCreate => (17, 'G', 'R', 'E'),
        Event::GuildRoleUpdate => (17, 'G', 'R', 'D'),
        Event::GuildRoleDelete => (17, 'G', 'R', 'L'),
        Event::GuildScheduledEventCreate => (28, 'G', 'S', 'E'),
        Event::GuildScheduledEventUpdate => (28, 'G', 'S', 'D'),
        Event::GuildScheduledEventDelete => (28, 'G', 'S', 'L'),
        Event::GuildScheduledEventUserAdd => (30, 'G', 'S', '_'),
        Event::GuildScheduledEventUserRemove => (33, 'G', 'S', 'M'),
        Event::IntegrationCreate => (18, 'I', 'A', 'E'),
        Event::IntegrationUpdate => (18, 'I', 'A', 'D'),
        Event::IntegrationDelete => (18, 'I', 'A', 'L'),
        Event::InteractionCreate => (18, 'I', 'C', 'E'),
        Event::InviteCreate => (13, 'I', '_', 'E'),
        Event::InviteDelete => (13, 'I', '_', 'L'),
        Event::MessageCreate => (14, 'M', 'E', 'E'),
        Event::MessageUpdate => (14, 'M', 'E', 'D'),
        Event::MessageDelete => (14, 'M', 'E', 'L'),
        Event::MessageDeleteBulk => (19, 'M', 'E', 'B'),
        Event::MessageReactionAdd => (20, 'M', 'E', '_'),
        Event::MessageReactionRemove => (23, 'M', 'E', 'M'),
        Event::MessageReactionRemoveAll => (27, 'M', 'E', '_'),
        Event::MessageReactionRemoveEmoji => (29, 'M', 'E', 'M'),
        Event::PresenceUpdate => (15, 'P', 'C', 'D'),
        Event::StageInstanceCreate => (21, 'S', 'I', 'E'),
        Event::StageInstanceUpdate => (21, 'S', 'I', 'D'),
        Event::StageInstanceDelete => (21, 'S', 'I', 'L'),
        Event::TypingStart => (12, 'T', '_', 'T'),
        Event::UserUpdate => (11, 'U', 'P', 'D'),
        Event::VoiceStateUpdate => (18, 'V', 'S', 'D'),
        Event::VoiceServerUpdate => (19, 'V', 'S', 'D'),
        Event::WebhooksUpdate => (15, 'W', 'K', 'D'),
    }
}

proof fn lemma_fingerprint_of_name(e: Event)
    ensures
        fingerprint(event_name(e)) == event_fingerprint(e),
{
    match e {
        Event::Hello => {
            reveal_strlit("HELLO");
        },
        Event::Ready => {
            reveal_strlit("READY");
        },
        Event::Resumed => {
            reveal_strlit("RESUMED");
        },
        Event::Reconnect => {
            reveal_strlit("RECONNECT");
        },
        Event::InvalidSession => {
            reveal_strlit("INVALID_SESSION");
        },
        Event::ApplicationCommandPermissionsUpdate => {
            reveal_strlit("APPLICATION_COMMAND_PERMISSIONS_UPDATE");
        },
        Event::AutoModerationRuleCreate => {
            reveal_strlit("AUTO_MODERATION_RULE_CREATE");
        },
        Event::AutoModerationRuleUpdate => {
            reveal_strlit("AUTO_MODERATION_RULE_UPDATE");
        },
        Event::AutoModerationRuleDelete => {
            reveal_strlit("AUTO_MODERATION_RULE_DELETE");
        },
        Event::AutoModerationActionExecution => {
            reveal_strlit("AUTO_MODERATION_ACTION_EXECUTION");
        },
        Event::ChannelCreate => {
            reveal_strlit("CHANNEL_CREATE");
        },
        Event::ChannelUpdate => {
            reveal_strlit("CHANNEL_UPDATE");
        },
        Event::ChannelDelete => {
            reveal_strlit("CHANNEL_DELETE");
        },
        Event::ChannelPinsUpdate => {
            reveal_strlit("CHANNEL_PINS_UPDATE");
        },
        Event::ThreadCreate => {
            reveal_strlit("THREAD_CREATE");
        },
        Event::ThreadUpdate => {
            reveal_strlit("THREAD_UPDATE");
        },
        Event::ThreadDelete => {
            reveal_strlit("THREAD_DELETE");
        },
        Event::ThreadListSync => {
            reveal_strlit("THREAD_LIST_SYNC");
        },
        Event::ThreadMemberUpdate => {
            reveal_strlit("THREAD_MEMBER_UPDATE");
        },
        Event::ThreadMembersUpdate => {
            reveal_strlit("THREAD_MEMBERS_UPDATE");
        },
        Event::EntitlementCreate => {
            reveal_strlit("ENTITLEMENT_CREATE");
        },
        Event::EntitlementUpdate => {
            reveal_strlit("ENTITLEMENT_UPDATE");
        },
        Event::EntitlementDelete => {
            reveal_strlit("ENTITLEMENT_DELETE");
        },
        Event::GuildCreate => {
            reveal_strlit("GUILD_CREATE");
        },
        Event::GuildUpdate => {
            reveal_strlit("GUILD_UPDATE");
        },
        Event::GuildDelete => {
            reveal_strlit("GUILD_DELETE");
        },
        Event::GuildAuditLogEntryCreate => {
            reveal_strlit("GUILD_AUDIT_LOG_ENTRY_CREATE");
        },
        Event::GuildBanAdd => {
            reveal_strlit("GUILD_BAN_ADD");
        },
        Event::GuildBanRemove => {
            reveal_strlit("GUILD_BAN_REMOVE");
        },
        Event::GuildEmojisUpdate => {
            reveal_strlit("GUILD_EMOJIS_UPDATE");
        },
        Event::GuildStickersUpdate => {
            reveal_strlit("GUILD_STICKERS_UPDATE");
        },
        Event::GuildIntegrationsUpdate => {
            reveal_strlit("GUILD_INTEGRATIONS_UPDATE");
        },
        Event::GuildMemberAdd => {
            reveal_strlit("GUILD_MEMBER_ADD");
        },
        Event::GuildMemberRemove => {
            reveal_strlit("GUILD_MEMBER_REMOVE");
        },
        Event::GuildMemberUpdate => {
            reveal_strlit("GUILD_MEMBER_UPDATE");
        },
        Event::GuildMembersChunk => {
            reveal_strlit("GUILD_MEMBERS_CHUNK");
        },
        Event::GuildRoleCreate => {
            reveal_strlit("GUILD_ROLE_CREATE");
        },
        Event::GuildRoleUpdate => {
            reveal_strlit("GUILD_ROLE_UPDATE");
        },
        Event::GuildRoleDelete => {
            reveal_strlit("GUILD_ROLE_DELETE");
        },
        Event::GuildScheduledEventCreate => {
            reveal_strlit("GUILD_SCHEDULED_EVENT_CREATE");
        },
        Event::GuildScheduledEventUpdate => {
            reveal_strlit("GUILD_SCHEDULED_EVENT_UPDATE");
        },
        Event::GuildScheduledEventDelete => {
            reveal_strlit("GUILD_SCHEDULED_EVENT_DELETE");
        },
        Event::GuildScheduledEventUserAdd => {
            reveal_strlit("GUILD_SCHEDULED_EVENT_USER_ADD");
        },
        Event::GuildScheduledEventUserRemove => {
            reveal_strlit("GUILD_SCHEDULED_EVENT_USER_REMOVE");
        },
        Event::IntegrationCreate => {
            reveal_strlit("INTEGRATION_CREATE");
        },
        Event::IntegrationUpdate => {
            reveal_strlit("INTEGRATION_UPDATE");
        },
        Event::IntegrationDelete => {
            reveal_strlit("INTEGRATION_DELETE");
        },
        Event::InteractionCreate => {
            reveal_strlit("INTERACTION_CREATE");
        },
        Event::InviteCreate => {
            reveal_strlit("INVITE_CREATE");
        },
        Event::InviteDelete => {
            reveal_strlit("INVITE_DELETE");
        },
        Event::MessageCreate => {
            reveal_strlit("MESSAGE_CREATE");
        },
        Event::MessageUpdate => {
            reveal_strlit("MESSAGE_UPDATE");
        },
        Event::MessageDelete => {
            reveal_strlit("MESSAGE_DELETE");
        },
        Event::MessageDeleteBulk => {
            reveal_strlit("MESSAGE_DELETE_BULK");
        },
        Event::MessageReactionAdd => {
            reveal_strlit("MESSAGE_REACTION_ADD");
        },
        Event::MessageReactionRemove => {
            reveal_strlit("MESSAGE_REACTION_REMOVE");
        },
        Event::MessageReactionRemoveAll => {
            reveal_strlit("MESSAGE_REACTION_REMOVE_ALL");
        },
        Event::MessageReactionRemoveEmoji => {
            reveal_strlit("MESSAGE_REACTION_REMOVE_EMOJI");
        },
        Event::PresenceUpdate => {
            reveal_strlit("PRESENCE_UPDATE");
        },
        Event::StageInstanceCreate => {
            reveal_strlit("STAGE_INSTANCE_CREATE");
        },
        Event::StageInstanceUpdate => {
            reveal_strlit("STAGE_INSTANCE_UPDATE");
        },
        Event::StageInstanceDelete => {
            reveal_strlit("STAGE_INSTANCE_DELETE");
        },
        Event::TypingStart => {
            reveal_strlit("TYPING_START");
        },
        Event::UserUpdate => {
            reveal_strlit("USER_UPDATE");
        },
        Event::VoiceStateUpdate => {
            reveal_strlit("VOICE_STATE_UPDATE");
        },
        Event::VoiceServerUpdate => {
            reveal_strlit("VOICE_SERVER_UPDATE");
        },
        Event::WebhooksUpdate => {
            reveal_strlit("WEBHOOKS_UPDATE");
        },
    }
}

/// No two event types share a wire name, so each name resolves to exactly
/// its own event type.
pub proof fn lemma_event_names_distinct(a: Event, b: Event)
    ensures
        event_name(a) == event_name(b) ==> a == b,
{
    lemma_fingerprint_of_name(a);
    lemma_fingerprint_of_name(b);
}

/// Looking up an event type's own wire name gives back that event type:
/// any result that meets the lookup's contract on `event_name(e)` is `Ok(e)`.
pub proof fn lemma_name_round_trip(e: Event, r: Result<Event, ()>)
    requires
        r matches Ok(x) ==> event_name(x) == event_name(e),
        r is Err ==> forall|x: Event| event_name(x) != event_name(e),
    ensures
        r == Ok::<Event, ()>(e),
{
    match r {
        Ok(x) => lemma_event_names_distinct(x, e),
        Err(_) => {
            assert(r is Err);
            let n = event_name(e);
            assert(forall|x: Event| #[trigger] event_name(x) != n);
            assert(event_name(e) != n);
        },
    }
}

impl std::str::FromStr for Event {
    type Err = ();

    fn from_str(s: &str) -> (r: Result<Event, ()>)
        ensures
            r matches Ok(e) ==> event_name(e) == s@,
            r is Err ==> forall|e: Event| event_name(e) != s@,
    {
        Event::from_name(s)
    }
}

} // verus!
