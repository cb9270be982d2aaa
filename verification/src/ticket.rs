//! Ticket channels: what opening one asks of the platform.

use crate::config::ModMailConfig;
use crate::prompts::Button;
use crate::text::{decimal_int, decimal_nat, push_decimal_i64, push_decimal_u64};
use vstd::prelude::*;
use vstd::string::StringExecFns;

verus! {

/// Permission bit: seeing the channel.
pub const VIEW_CHANNEL: u64 = 0x400;

/// Permission bit: sending messages.
pub const SEND_MESSAGES: u64 = 0x800;

/// Permission bit: reading earlier messages.
pub const READ_MESSAGE_HISTORY: u64 = 0x1_0000;

/// Permission bit: opening a public thread.
pub const CREATE_PUBLIC_THREADS: u64 = 0x8_0000_0000;

/// Permission bit: opening a private thread.
pub const CREATE_PRIVATE_THREADS: u64 = 0x10_0000_0000;

/// Every permission bit that the platform defines.
pub const ALL_PERMISSIONS: u64 = 0x7_7FFF_FFFF_FFFF;

/// What the moderators and the ticket's member may do in a ticket channel:
/// view it, send to it and read its history.
pub const PARTICIPANT_ALLOW: u64 = 0x1_0C00;

/// What they may not: open threads, public or private.
pub const PARTICIPANT_DENY: u64 = 0x18_0000_0000;

/// Whom a permission overwrite applies to.
#[derive(Debug, PartialEq, Eq, Clone, Copy)]
pub enum OverwriteTarget {
    Role(u64),
    Member(u64),
}

/// A per-channel access rule that overrides the guild's defaults.
#[derive(Debug, PartialEq, Eq, Clone, Copy)]
pub struct PermissionOverwrite {
    pub allow: u64,
    pub deny: u64,
    pub target: OverwriteTarget,
}

/// The text channel to create for a ticket.
#[derive(Debug, PartialEq, Eq, Clone)]
pub struct ChannelRequest {
    pub name: String,
    /// The category under which the channel is created.
    pub category: u64,
    pub overwrites: Vec<PermissionOverwrite>,
}

/// What a request to open a ticket leads to.
#[derive(Debug, PartialEq, Eq, Clone)]
pub enum TicketPlan {
    /// No channel is created; the invoker is told why.
    Rejected { reply: String },
    /// One channel is created, and a first message with the close button is
    /// posted in it.
    Open { channel: ChannelRequest, message: String, close_button: Button },
}

/// A title was given and it is not empty.
pub open spec fn title_given(title: Option<String>) -> bool {
    title matches Some(t) && t@.len() > 0
}

/// The access rules of a ticket channel: the guild's default role, whose id
/// is the guild's, is denied everything; the moderator role and the
/// ticket's member may take part but not open threads.
pub open spec fn ticket_overwrites(guild_id: u64, mod_role: u64, member: u64) -> Seq<
    PermissionOverwrite,
> {
    seq![
        PermissionOverwrite { allow: 0, deny: ALL_PERMISSIONS, target: OverwriteTarget::Role(guild_id) },
        PermissionOverwrite {
            allow: PARTICIPANT_ALLOW,
            deny: PARTICIPANT_DENY,
            target: OverwriteTarget::Role(mod_role),
        },
        PermissionOverwrite {
            allow: PARTICIPANT_ALLOW,
            deny: PARTICIPANT_DENY,
            target: OverwriteTarget::Member(member),
        },
    ]
}

/// The reply to a request that came without a title.
pub open spec fn missing_title_reply() -> Seq<char> {
    "modmail must include a title!"@
}

/// The name of a self-service ticket channel: who asked, and when.
pub open spec fn self_service_name(author_name: Seq<char>, now_secs: i64) -> Seq<char> {
    author_name + "-"@ + decimal_int(now_secs as int)
}

/// The name of an admin-initiated ticket channel: the title, and whom it is
/// about.
pub open spec fn admin_name(title: Seq<char>, target: u64) -> Seq<char> {
    title + "-"@ + decimal_nat(target as nat)
}

/// The first message of a ticket: its title, and what the button under it
/// does.
pub open spec fn opening_message(title: Seq<char>) -> Seq<char> {
    "# Title: "@ + title + " \n Click here to delete the channel"@
}

/// The reply to an admin request that names nobody.
pub open spec fn missing_target_reply() -> Seq<char> {
    "modmail must include a user!"@
}

/// The reply to a request made outside a guild.
pub open spec fn outside_guild_reply() -> Seq<char> {
    "modmail can only be used in a server!"@
}

/// The button is the one that closes a ticket.
pub open spec fn is_close_button(button: Button) -> bool {
    &&& button.custom_id@ == "modmail_button"@
    &&& button.label@ == "Close Mod-Mail"@
    &&& button.emoji is None
}

/// The reply that points the invoker to the channel just created.
pub open spec fn created_reply(channel_id: u64) -> Seq<char> {
    "Mod Mail Channel made at <#"@ + decimal_nat(channel_id as nat) + ">"@
}

/// Whether a title was given and is not empty.
pub fn has_title(title: &Option<String>) -> (given: bool)
    ensures
        given == title_given(*title),
{
    match title {
        Some(t) => !t.as_str().is_empty(),
        None => false,
    }
}

fn overwrites_for(guild_id: u64, mod_role: u64, member: u64) -> (overwrites: Vec<PermissionOverwrite>)
    ensures
        overwrites@ == ticket_overwrites(guild_id, mod_role, member),
{
    let mut overwrites: Vec<PermissionOverwrite> = Vec::new();
    overwrites.push(
        PermissionOverwrite { allow: 0, deny: ALL_PERMISSIONS, target: OverwriteTarget::Role(guild_id) },
    );
    overwrites.push(
        PermissionOverwrite {
            allow: PARTICIPANT_ALLOW,
            deny: PARTICIPANT_DENY,
            target: OverwriteTarget::Role(mod_role),
        },
    );
    overwrites.push(
        PermissionOverwrite {
            allow: PARTICIPANT_ALLOW,
            deny: PARTICIPANT_DENY,
            target: OverwriteTarget::Member(member),
        },
    );
    assert(overwrites@ =~= ticket_overwrites(guild_id, mod_role, member));
    overwrites
}

fn close_button() -> (button: Button)
    ensures
        is_close_button(button),
{
    Button {
        custom_id: String::from_str("modmail_button"),
        label: String::from_str("Close Mod-Mail"),
        emoji: None,
    }
}

fn missing_title() -> (plan: TicketPlan)
    ensures
        plan matches TicketPlan::Rejected { reply } && reply@ == missing_title_reply(),
{
    TicketPlan::Rejected { reply: String::from_str("modmail must include a title!") }
}

fn missing_target() -> (plan: TicketPlan)
    ensures
        plan matches TicketPlan::Rejected { reply } && reply@ == missing_target_reply(),
{
    TicketPlan::Rejected { reply: String::from_str("modmail must include a user!") }
}

fn outside_guild() -> (plan: TicketPlan)
    ensures
        plan matches TicketPlan::Rejected { reply } && reply@ == outside_guild_reply(),
{
    TicketPlan::Rejected { reply: String::from_str("modmail can only be used in a server!") }
}

fn opening(title: &str) -> (message: String)
    ensures
        message@ == opening_message(title@),
{
    let mut message = String::from_str("# Title: ");
    message.append(title);
    message.append(" \n Click here to delete the channel");
    message
}

/// A member asks for a ticket of their own. Without a title, or with an
/// empty one, nothing is created and the member is told so; the same
/// holds, with a reply of its own, for a request made outside a guild.
/// Otherwise exactly one channel is asked for: named after the member and
/// the current time, under the configured category, closed to the guild's
/// default role and open to the moderators and the member. Its first
/// message shows the title over the close button.
pub fn modmail(
    title: Option<String>,
    author_name: &str,
    author_id: u64,
    guild_id: Option<u64>,
    now_secs: i64,
    config: &ModMailConfig,
) -> (plan: TicketPlan)
    ensures
        match plan {
            TicketPlan::Rejected { reply } => if !title_given(title) {
                reply@ == missing_title_reply()
            } else {
                guild_id is None && reply@ == outside_guild_reply()
            },
            TicketPlan::Open { channel, message, close_button } => {
                &&& title_given(title)
                &&& guild_id is Some
                &&& channel.name@ == self_service_name(author_name@, now_secs)
                &&& channel.category == config.channel_id
                &&& channel.overwrites@ == ticket_overwrites(
                    guild_id->0,
                    config.mod_role,
                    author_id,
                )
                &&& message@ == opening_message(title->0@)
                &&& is_close_button(close_button)
            },
        },
{
    if !has_title(&title) {
        return missing_title();
    }
    match (title, guild_id) {
        (Some(t), Some(guild)) => {
            let mut name = author_name.to_owned();
            name.append("-");
            push_decimal_i64(&mut name, now_secs);
            TicketPlan::Open {
                channel: ChannelRequest {
                    name,
                    category: config.channel_id,
                    overwrites: overwrites_for(guild, config.mod_role, author_id),
                },
                message: opening(t.as_str()),
                close_button: close_button(),
            }
        },
        _ => outside_guild(),
    }
}

/// A moderator opens a ticket about `suspect`. Nothing is created, and the
/// moderator is told why, where the title is missing or empty, else where
/// nobody is named, else where the request is made outside a guild.
/// Otherwise exactly one channel is asked for: named after the title and
/// the member, under the configured category, closed to the guild's
/// default role and open to the moderators and the member. Its first
/// message shows the title over the close button.
pub fn modmail_admin(
    title: Option<String>,
    suspect: Option<u64>,
    guild_id: Option<u64>,
    config: &ModMailConfig,
) -> (plan: TicketPlan)
    ensures
        match plan {
            TicketPlan::Rejected { reply } => if !title_given(title) {
                reply@ == missing_title_reply()
            } else if suspect is None {
                reply@ == missing_target_reply()
            } else {
                guild_id is None && reply@ == outside_guild_reply()
            },
            TicketPlan::Open { channel, message, close_button } => {
                &&& title_given(title)
                &&& suspect is Some
                &&& guild_id is Some
                &&& channel.name@ == admin_name(title->0@, suspect->0)
                &&& channel.category == config.channel_id
                &&& channel.overwrites@ == ticket_overwrites(
                    guild_id->0,
                    config.mod_role,
                    suspect->0,
                )
                &&& message@ == opening_message(title->0@)
                &&& is_close_button(close_button)
            },
        },
{
    if !has_title(&title) {
        return missing_title();
    }
    let member = match suspect {
        Some(member) => member,
        None => {
            return missing_target();
        },
    };
    match (title, guild_id) {
        (Some(t), Some(guild)) => {
            let message = opening(t.as_str());
            let mut name = t;
            name.append("-");
            push_decimal_u64(&mut name, member);
            TicketPlan::Open {
                channel: ChannelRequest {
                    name,
                    category: config.channel_id,
                    overwrites: overwrites_for(guild, config.mod_role, member),
                },
                message,
                close_button: close_button(),
            }
        },
        _ => outside_guild(),
    }
}

/// The access rules of a ticket are made of the platform's permission bits:
/// the participants may view, send and read the history, they may not open
/// threads of either kind, and what the default role is denied covers each
/// of these bits.
pub proof fn law_ticket_permissions()
    ensures
        PARTICIPANT_ALLOW == VIEW_CHANNEL | SEND_MESSAGES | READ_MESSAGE_HISTORY,
        PARTICIPANT_DENY == CREATE_PUBLIC_THREADS | CREATE_PRIVATE_THREADS,
        PARTICIPANT_ALLOW & PARTICIPANT_DENY == 0,
        ALL_PERMISSIONS & PARTICIPANT_ALLOW == PARTICIPANT_ALLOW,
        ALL_PERMISSIONS & PARTICIPANT_DENY == PARTICIPANT_DENY,
{
    assert(0x1_0C00u64 == 0x400u64 | 0x800u64 | 0x1_0000u64) by (bit_vector);
    assert(0x18_0000_0000u64 == 0x8_0000_0000u64 | 0x10_0000_0000u64) by (bit_vector);
    assert(0x1_0C00u64 & 0x18_0000_0000u64 == 0) by (bit_vector);
    assert(0x7_7FFF_FFFF_FFFFu64 & 0x1_0C00u64 == 0x1_0C00u64) by (bit_vector);
    assert(0x7_7FFF_FFFF_FFFFu64 & 0x18_0000_0000u64 == 0x18_0000_0000u64) by (bit_vector);
}

/// The reply sent once the ticket's channel exists.
pub fn ticket_created_reply(channel_id: u64) -> (reply: String)
    ensures
        reply@ == created_reply(channel_id),
{
    let mut reply = String::from_str("Mod Mail Channel made at <#");
    push_decimal_u64(&mut reply, channel_id);
    reply.append(">");
    reply
}

} // verus!
