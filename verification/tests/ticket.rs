use guild_steward::config::ModMailConfig;
use guild_steward::prompts::Button;
use guild_steward::ticket::{
    has_title, modmail, modmail_admin, ticket_created_reply, ChannelRequest, OverwriteTarget,
    PermissionOverwrite, TicketPlan, ALL_PERMISSIONS, CREATE_PRIVATE_THREADS, CREATE_PUBLIC_THREADS,
    PARTICIPANT_ALLOW, PARTICIPANT_DENY, READ_MESSAGE_HISTORY, SEND_MESSAGES, VIEW_CHANNEL,
};
use serenity::all::{GuildId, Permissions, RoleId};

fn config() -> ModMailConfig {
    ModMailConfig { channel_id: 900, mod_role: 33 }
}

fn expected_overwrites(guild: u64, member: u64) -> Vec<PermissionOverwrite> {
    vec![
        PermissionOverwrite {
            allow: 0,
            deny: 0x7_7FFF_FFFF_FFFF,
            target: OverwriteTarget::Role(guild),
        },
        PermissionOverwrite {
            allow: (1 << 10) | (1 << 11) | (1 << 16),
            deny: (1 << 35) | (1 << 36),
            target: OverwriteTarget::Role(33),
        },
        PermissionOverwrite {
            allow: (1 << 10) | (1 << 11) | (1 << 16),
            deny: (1 << 35) | (1 << 36),
            target: OverwriteTarget::Member(member),
        },
    ]
}

fn close_button() -> Button {
    Button {
        custom_id: String::from("modmail_button"),
        label: String::from("Close Mod-Mail"),
        emoji: None,
    }
}

#[test]
fn permission_bits_are_those_of_the_platform_library() {
    assert_eq!(VIEW_CHANNEL, Permissions::VIEW_CHANNEL.bits());
    assert_eq!(SEND_MESSAGES, Permissions::SEND_MESSAGES.bits());
    assert_eq!(READ_MESSAGE_HISTORY, Permissions::READ_MESSAGE_HISTORY.bits());
    assert_eq!(CREATE_PUBLIC_THREADS, Permissions::CREATE_PUBLIC_THREADS.bits());
    assert_eq!(CREATE_PRIVATE_THREADS, Permissions::CREATE_PRIVATE_THREADS.bits());
    assert_eq!(ALL_PERMISSIONS, Permissions::all().bits());
    assert_eq!(0, Permissions::empty().bits());
    assert_eq!(
        PARTICIPANT_ALLOW,
        (Permissions::VIEW_CHANNEL | Permissions::SEND_MESSAGES | Permissions::READ_MESSAGE_HISTORY)
            .bits()
    );
    assert_eq!(
        PARTICIPANT_DENY,
        (Permissions::CREATE_PUBLIC_THREADS | Permissions::CREATE_PRIVATE_THREADS).bits()
    );
}

#[test]
fn default_role_has_the_id_of_its_guild() {
    assert_eq!(GuildId::new(4711).everyone_role(), RoleId::new(4711));
}

#[test]
fn ticket_without_title_is_rejected() {
    let plan = modmail(None, "ada", 5, Some(1), 1_700_000_000, &config());
    assert_eq!(plan, TicketPlan::Rejected { reply: String::from("modmail must include a title!") });
}

#[test]
fn ticket_with_empty_title_is_rejected() {
    let plan = modmail(Some(String::new()), "ada", 5, Some(1), 1_700_000_000, &config());
    assert_eq!(plan, TicketPlan::Rejected { reply: String::from("modmail must include a title!") });
}

#[test]
fn ticket_without_title_is_rejected_outside_a_guild_too() {
    let plan = modmail(None, "ada", 5, None, 1_700_000_000, &config());
    assert_eq!(plan, TicketPlan::Rejected { reply: String::from("modmail must include a title!") });
}

#[test]
fn ticket_outside_a_guild_is_rejected() {
    let plan = modmail(Some(String::from("Help me")), "ada", 5, None, 1_700_000_000, &config());
    assert_eq!(
        plan,
        TicketPlan::Rejected { reply: String::from("modmail can only be used in a server!") }
    );
}

#[test]
fn ticket_with_title_asks_for_one_channel() {
    let plan = modmail(Some(String::from("Help me")), "ada", 5, Some(4711), 1_700_000_000, &config());
    assert_eq!(
        plan,
        TicketPlan::Open {
            channel: ChannelRequest {
                name: String::from("ada-1700000000"),
                category: 900,
                overwrites: expected_overwrites(4711, 5),
            },
            message: String::from("# Title: Help me \n Click here to delete the channel"),
            close_button: close_button(),
        }
    );
}

#[test]
fn ticket_denies_the_default_role_everything() {
    match modmail(Some(String::from("t")), "ada", 5, Some(4711), 0, &config()) {
        TicketPlan::Open { channel, .. } => {
            assert_eq!(channel.overwrites.len(), 3);
            assert_eq!(channel.overwrites[0].target, OverwriteTarget::Role(4711));
            assert_eq!(channel.overwrites[0].allow, 0);
            assert_eq!(channel.overwrites[0].deny, Permissions::all().bits());
            assert_eq!(channel.name, "ada-0");
        },
        other => panic!("unexpected {:?}", other),
    }
}

#[test]
fn ticket_name_carries_a_time_before_the_epoch() {
    match modmail(Some(String::from("t")), "bob", 5, Some(1), -42, &config()) {
        TicketPlan::Open { channel, .. } => assert_eq!(channel.name, "bob--42"),
        other => panic!("unexpected {:?}", other),
    }
    match modmail(Some(String::from("t")), "bob", 5, Some(1), i64::MIN, &config()) {
        TicketPlan::Open { channel, .. } => assert_eq!(channel.name, "bob--9223372036854775808"),
        other => panic!("unexpected {:?}", other),
    }
    match modmail(Some(String::from("t")), "", 5, Some(1), i64::MAX, &config()) {
        TicketPlan::Open { channel, .. } => assert_eq!(channel.name, "-9223372036854775807"),
        other => panic!("unexpected {:?}", other),
    }
}

#[test]
fn admin_ticket_without_title_is_rejected() {
    let expected = TicketPlan::Rejected { reply: String::from("modmail must include a title!") };
    assert_eq!(modmail_admin(None, Some(8), Some(1), &config()), expected);
    assert_eq!(modmail_admin(None, None, None, &config()), expected);
    assert_eq!(modmail_admin(Some(String::new()), None, Some(1), &config()), expected);
}

#[test]
fn admin_ticket_about_nobody_is_rejected() {
    let expected = TicketPlan::Rejected { reply: String::from("modmail must include a user!") };
    assert_eq!(modmail_admin(Some(String::from("spam")), None, Some(1), &config()), expected);
    assert_eq!(modmail_admin(Some(String::from("spam")), None, None, &config()), expected);
}

#[test]
fn admin_ticket_outside_a_guild_is_rejected() {
    assert_eq!(
        modmail_admin(Some(String::from("spam")), Some(8), None, &config()),
        TicketPlan::Rejected { reply: String::from("modmail can only be used in a server!") }
    );
}

#[test]
fn admin_ticket_shows_its_title() {
    let title = "a title that is a good deal longer than the line under it";
    match modmail_admin(Some(String::from(title)), Some(8), Some(1), &config()) {
        TicketPlan::Open { message, close_button, .. } => {
            assert!(message.contains(title));
            assert_eq!(close_button.custom_id, "modmail_button");
        },
        other => panic!("unexpected {:?}", other),
    }
}

#[test]
fn admin_ticket_is_named_after_title_and_member() {
    let plan = modmail_admin(Some(String::from("spam")), Some(8), Some(4711), &config());
    assert_eq!(
        plan,
        TicketPlan::Open {
            channel: ChannelRequest {
                name: String::from("spam-8"),
                category: 900,
                overwrites: expected_overwrites(4711, 8),
            },
            message: String::from("# Title: spam \n Click here to delete the channel"),
            close_button: close_button(),
        }
    );
}

#[test]
fn admin_ticket_name_holds_the_whole_member_id() {
    match modmail_admin(Some(String::from("x")), Some(u64::MAX), Some(1), &config()) {
        TicketPlan::Open { channel, .. } => assert_eq!(channel.name, "x-18446744073709551615"),
        other => panic!("unexpected {:?}", other),
    }
    match modmail_admin(Some(String::from("x")), Some(1_000_000), Some(1), &config()) {
        TicketPlan::Open { channel, .. } => assert_eq!(channel.name, "x-1000000"),
        other => panic!("unexpected {:?}", other),
    }
}

#[test]
fn title_must_be_there_and_not_empty() {
    assert!(!has_title(&None));
    assert!(!has_title(&Some(String::new())));
    assert!(has_title(&Some(String::from(" "))));
    assert!(has_title(&Some(String::from("a title"))));
}

#[test]
fn created_reply_mentions_the_channel() {
    assert_eq!(ticket_created_reply(123456789), "Mod Mail Channel made at <#123456789>");
    assert_eq!(ticket_created_reply(0), "Mod Mail Channel made at <#0>");
    assert_eq!(ticket_created_reply(10), "Mod Mail Channel made at <#10>");
    assert_eq!(ticket_created_reply(u64::MAX), "Mod Mail Channel made at <#18446744073709551615>");
}
