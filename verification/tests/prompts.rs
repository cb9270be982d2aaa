use guild_steward::config::{RoleButton, RoleChoice, RoleConfig};
use guild_steward::prompts::{
    create_role_button, initrolechannel, Button, PromptError, RoleChannelPlan, RolePrompt,
    BUTTONS_PER_ROW,
};
use indexmap::IndexMap;

fn group(message: &str, count: usize) -> RoleChoice {
    let mut options = IndexMap::new();
    for i in 0..count {
        options.insert(
            format!("id_{i}"),
            RoleButton { emoji: format!("e{i}"), label: format!("label {i}"), role_id: 100 + i as u64 },
        );
    }
    RoleChoice { message: String::from(message), options }
}

fn shown(i: usize) -> Button {
    Button { custom_id: format!("id_{i}"), label: format!("label {i}"), emoji: Some(format!("e{i}")) }
}

#[test]
fn role_button_shows_id_emoji_and_label() {
    let data = RoleButton { emoji: String::from("🌱"), label: String::from("Gardener"), role_id: 9 };
    assert_eq!(
        create_role_button("garden", &data),
        Some(Button {
            custom_id: String::from("garden"),
            label: String::from("Gardener"),
            emoji: Some(String::from("🌱")),
        })
    );
}

fn with_emoji(emoji: &str) -> RoleButton {
    RoleButton { emoji: String::from(emoji), label: String::from("l"), role_id: 1 }
}

#[test]
fn role_button_takes_a_custom_emoji_mention() {
    assert!(create_role_button("a", &with_emoji("<:sprout:600404340292059257>")).is_some());
    assert!(create_role_button("a", &with_emoji("<a:sprout:600404340292059257>")).is_some());
}

#[test]
fn role_button_is_not_made_of_what_is_no_emoji() {
    assert_eq!(create_role_button("a", &with_emoji("")), None);
    assert_eq!(create_role_button("a", &with_emoji("<:sprout:600404340292059257")), None);
    assert_eq!(create_role_button("a", &with_emoji("<:sprout:many>")), None);
    assert_eq!(create_role_button("a", &with_emoji("<:sprout:0>")), None);
    assert_eq!(create_role_button("a", &with_emoji("<sprout>")), None);
}

#[test]
fn prompts_fail_on_the_first_emoji_that_is_none() {
    let mut first = group("first", 7);
    let mut second = group("second", 3);
    first.options.insert(String::from("id_6"), with_emoji("<late"));
    second.options.insert(String::from("id_0"), with_emoji("<later"));
    first.options.insert(String::from("id_2"), with_emoji("<early"));
    let config = RoleConfig { choices: vec![group("fine", 2), first, second] };
    assert_eq!(
        initrolechannel(&config),
        Err(PromptError::BadEmoji { emoji: String::from("<early") })
    );
}

#[test]
fn prompts_fail_on_a_later_group() {
    let mut second = group("second", 3);
    second.options.insert(String::from("id_2"), with_emoji(""));
    let config = RoleConfig { choices: vec![group("fine", 6), second] };
    assert_eq!(initrolechannel(&config), Err(PromptError::BadEmoji { emoji: String::new() }));
}

#[test]
fn prompts_follow_the_groups() {
    let config = RoleConfig { choices: vec![group("first", 2), group("second", 1)] };
    assert_eq!(
        initrolechannel(&config),
        Ok(RoleChannelPlan {
            prompts: vec![
                RolePrompt { content: String::from("first"), rows: vec![vec![shown(0), shown(1)]] },
                RolePrompt { content: String::from("second"), rows: vec![vec![shown(0)]] },
            ],
            reply: String::from("Role channel initialised"),
        })
    );
}

#[test]
fn prompts_put_five_buttons_in_a_row() {
    assert_eq!(BUTTONS_PER_ROW, 5);
    let config = RoleConfig { choices: vec![group("many", 12)] };
    let prompts = initrolechannel(&config).unwrap().prompts;
    assert_eq!(prompts.len(), 1);
    let rows = &prompts[0].rows;
    assert_eq!(rows.iter().map(|r| r.len()).collect::<Vec<_>>(), vec![5, 5, 2]);
    let flat: Vec<Button> = rows.iter().flatten().cloned().collect();
    assert_eq!(flat, (0..12).map(shown).collect::<Vec<_>>());
}

#[test]
fn prompts_fill_the_last_row_exactly() {
    for (count, expected) in [(0usize, vec![]), (1, vec![1]), (5, vec![5]), (6, vec![5, 1]), (10, vec![5, 5])] {
        let config = RoleConfig { choices: vec![group("g", count)] };
        let prompts = initrolechannel(&config).unwrap().prompts;
        assert_eq!(prompts[0].rows.iter().map(|r| r.len()).collect::<Vec<usize>>(), expected);
        assert_eq!(prompts[0].content, "g");
    }
}

#[test]
fn prompts_of_no_group_are_none() {
    assert_eq!(
        initrolechannel(&RoleConfig { choices: Vec::new() }),
        Ok(RoleChannelPlan { prompts: Vec::new(), reply: String::from("Role channel initialised") })
    );
}
