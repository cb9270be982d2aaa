//! The role-selection prompts that a role channel is filled with.

use crate::config::{option_entries, options_get_index, options_len, RoleButton, RoleChoice, RoleConfig};
use serenity::all::ReactionType;
use vstd::prelude::*;
use vstd::string::StringExecFns;

verus! {

/// How many buttons go into one row of a message.
pub const BUTTONS_PER_ROW: usize = 5;

/// A button to put on a message.
#[derive(Debug, PartialEq, Eq, Clone)]
pub struct Button {
    pub custom_id: String,
    pub label: String,
    pub emoji: Option<String>,
}

/// One prompt message: its text and its rows of buttons.
#[derive(Debug, PartialEq, Eq, Clone)]
pub struct RolePrompt {
    pub content: String,
    pub rows: Vec<Vec<Button>>,
}

/// What repopulating a role channel posts, and what the invoker is told
/// once it is posted.
#[derive(Debug, PartialEq, Eq, Clone)]
pub struct RoleChannelPlan {
    pub prompts: Vec<RolePrompt>,
    pub reply: String,
}

/// Why the prompts could not be laid out.
#[derive(Debug, PartialEq, Eq, Clone)]
pub enum PromptError {
    /// This configured emoji is neither a unicode emoji nor the mention of
    /// a custom one, so no button can show it.
    BadEmoji { emoji: String },
}

impl Button {
    /// The button presents the role button configured under `id`.
    pub open spec fn presents(self, id: Seq<char>, button: RoleButton) -> bool {
        &&& self.custom_id@ == id
        &&& self.label@ == button.label@
        &&& self.emoji matches Some(emoji)
        &&& emoji@ == button.emoji@
    }
}

/// How many rows hold `count` buttons.
pub open spec fn row_count(count: nat) -> nat {
    (count + 4) / 5
}

/// The rows hold exactly the entries, in order, five to a row and the rest
/// in the last row.
pub open spec fn rows_present(rows: Seq<Vec<Button>>, entries: Seq<(Seq<char>, RoleButton)>) -> bool {
    &&& rows.len() == row_count(entries.len())
    &&& forall|r: int|
        0 <= r < rows.len() ==> (#[trigger] rows[r])@.len() == if entries.len() - 5 * r < 5 {
            entries.len() - 5 * r
        } else {
            5
        }
    &&& forall|r: int, c: int|
        0 <= r < rows.len() && 0 <= c < rows[r]@.len() ==> (#[trigger] rows[r]@[c]).presents(
            entries[5 * r + c].0,
            entries[5 * r + c].1,
        )
}

/// One row holds exactly the entries, in order.
pub open spec fn row_presents(row: Seq<Button>, entries: Seq<(Seq<char>, RoleButton)>) -> bool {
    &&& row.len() == entries.len()
    &&& forall|c: int| 0 <= c < row.len() ==> (#[trigger] row[c]).presents(entries[c].0, entries[c].1)
}

/// Whether the platform library reads the text as an emoji that a button
/// can show.
pub uninterp spec fn emoji_parses(emoji: Seq<char>) -> bool;

/// serenity's `ReactionType::from_str`: whether the text parses as a
/// reaction emoji.
#[verifier::external_body]
fn is_reaction_emoji(emoji: &str) -> (ok: bool)
    ensures
        ok == emoji_parses(emoji@),
{
    emoji.parse::<ReactionType>().is_ok()
}

/// Every button of the group has an emoji that can be shown.
pub open spec fn group_parses(entries: Seq<(Seq<char>, RoleButton)>) -> bool {
    forall|k: int| 0 <= k < entries.len() ==> emoji_parses((#[trigger] entries[k]).1.emoji@)
}

/// `k` is the first button of the group whose emoji cannot be shown.
pub open spec fn first_unparsed(entries: Seq<(Seq<char>, RoleButton)>, k: int) -> bool {
    &&& 0 <= k < entries.len()
    &&& !emoji_parses(entries[k].1.emoji@)
    &&& group_parses(entries.take(k))
}

/// Every button of every group has an emoji that can be shown.
pub open spec fn config_parses(groups: Seq<RoleChoice>) -> bool {
    forall|g: int| 0 <= g < groups.len() ==> group_parses(option_entries((#[trigger] groups[g]).options))
}

/// `emoji` is the first emoji of the configuration, in document order,
/// that cannot be shown.
pub open spec fn first_bad_emoji(groups: Seq<RoleChoice>, emoji: Seq<char>) -> bool {
    exists|g: int, k: int|
        {
            &&& 0 <= g < groups.len()
            &&& config_parses(groups.take(g))
            &&& #[trigger] first_unparsed(option_entries(groups[g].options), k)
            &&& emoji == option_entries(groups[g].options)[k].1.emoji@
        }
}

/// The button for the role configured under `choice_id`; none where the
/// configured emoji cannot be shown.
pub fn create_role_button(choice_id: &str, choice_data: &RoleButton) -> (button: Option<Button>)
    ensures
        match button {
            Some(b) => emoji_parses(choice_data.emoji@) && b.presents(choice_id@, *choice_data),
            None => !emoji_parses(choice_data.emoji@),
        },
{
    if is_reaction_emoji(choice_data.emoji.as_str()) {
        Some(
            Button {
                custom_id: choice_id.to_owned(),
                label: choice_data.label.clone(),
                emoji: Some(choice_data.emoji.clone()),
            },
        )
    } else {
        None
    }
}

/// The buttons of one group, five to a row; or the first emoji of the
/// group that cannot be shown.
fn button_rows(group: &RoleChoice) -> (r: Result<Vec<Vec<Button>>, PromptError>)
    ensures
        match r {
            Ok(rows) => {
                &&& group_parses(option_entries(group.options))
                &&& rows_present(rows@, option_entries(group.options))
            },
            Err(PromptError::BadEmoji { emoji }) => exists|k: int|
                #[trigger] first_unparsed(option_entries(group.options), k) && emoji@
                    == option_entries(group.options)[k].1.emoji@,
        },
{
    let ghost entries = option_entries(group.options);
    let n = options_len(&group.options);
    let mut rows: Vec<Vec<Button>> = Vec::new();
    let mut row: Vec<Button> = Vec::new();
    let mut k: usize = 0;
    while k < n
        invariant
            k <= n,
            n == entries.len(),
            entries == option_entries(group.options),
            group_parses(entries.take(k as int)),
            rows@.len() == k / 5,
            row@.len() == k % 5,
            forall|r: int| 0 <= r < rows@.len() ==> (#[trigger] rows@[r])@.len() == 5,
            forall|r: int, c: int|
                0 <= r < rows@.len() && 0 <= c < 5 ==> (#[trigger] rows@[r]@[c]).presents(
                    entries[5 * r + c].0,
                    entries[5 * r + c].1,
                ),
            forall|c: int|
                0 <= c < row@.len() ==> (#[trigger] row@[c]).presents(
                    entries[5 * (k as int / 5) + c].0,
                    entries[5 * (k as int / 5) + c].1,
                ),
        decreases n - k,
    {
        match options_get_index(&group.options, k) {
            Some((id, data)) => {
                match create_role_button(id.as_str(), data) {
                    Some(button) => {
                        row.push(button);
                        if row.len() == BUTTONS_PER_ROW {
                            rows.push(row);
                            row = Vec::new();
                        }
                    },
                    None => {
                        assert(first_unparsed(entries, k as int));
                        return Err(PromptError::BadEmoji { emoji: data.emoji.clone() });
                    },
                }
            },
            None => {
                assert(false);
            },
        }
        proof {
            assert forall|j: int| 0 <= j < k + 1 implies emoji_parses(
                (#[trigger] entries.take(k as int + 1)[j]).1.emoji@,
            ) by {
                if j < k {
                    assert(entries.take(k as int)[j] == entries[j]);
                }
            }
        }
        k += 1;
    }
    if row.len() > 0 {
        rows.push(row);
    }
    proof {
        assert(entries.take(n as int) =~= entries);
    }
    Ok(rows)
}

/// All buttons of one group in a single row; or the first emoji of the
/// group that cannot be shown.
pub(crate) fn button_row(group: &RoleChoice) -> (r: Result<Vec<Button>, PromptError>)
    ensures
        match r {
            Ok(row) => {
                &&& group_parses(option_entries(group.options))
                &&& row_presents(row@, option_entries(group.options))
            },
            Err(PromptError::BadEmoji { emoji }) => exists|k: int|
                #[trigger] first_unparsed(option_entries(group.options), k) && emoji@
                    == option_entries(group.options)[k].1.emoji@,
        },
{
    let ghost entries = option_entries(group.options);
    let n = options_len(&group.options);
    let mut row: Vec<Button> = Vec::new();
    let mut k: usize = 0;
    while k < n
        invariant
            k <= n,
            n == entries.len(),
            entries == option_entries(group.options),
            group_parses(entries.take(k as int)),
            row@.len() == k,
            forall|c: int| 0 <= c < k ==> (#[trigger] row@[c]).presents(entries[c].0, entries[c].1),
        decreases n - k,
    {
        match options_get_index(&group.options, k) {
            Some((id, data)) => {
                match create_role_button(id.as_str(), data) {
                    Some(button) => {
                        row.push(button);
                    },
                    None => {
                        assert(first_unparsed(entries, k as int));
                        return Err(PromptError::BadEmoji { emoji: data.emoji.clone() });
                    },
                }
            },
            None => {
                assert(false);
            },
        }
        proof {
            assert forall|j: int| 0 <= j < k + 1 implies emoji_parses(
                (#[trigger] entries.take(k as int + 1)[j]).1.emoji@,
            ) by {
                if j < k {
                    assert(entries.take(k as int)[j] == entries[j]);
                }
            }
        }
        k += 1;
    }
    proof {
        assert(entries.take(n as int) =~= entries);
    }
    Ok(row)
}

/// One more group whose emojis can all be shown keeps that true of the
/// groups so far.
pub(crate) proof fn lemma_config_parses_step(groups: Seq<RoleChoice>, g: int)
    requires
        0 <= g < groups.len(),
        config_parses(groups.take(g)),
        group_parses(option_entries(groups[g].options)),
    ensures
        config_parses(groups.take(g + 1)),
{
    assert forall|h: int| 0 <= h < g + 1 implies group_parses(
        option_entries((#[trigger] groups.take(g + 1)[h]).options),
    ) by {
        if h < g {
            assert(groups.take(g)[h] == groups[h]);
        }
    }
}

/// The prompts that repopulate a role channel once it has been emptied:
/// one message for each configured group, in order, showing the group's
/// text over its buttons, five to a row. Fails on the first configured
/// emoji, in document order, that no button can show.
pub fn initrolechannel(config: &RoleConfig) -> (r: Result<RoleChannelPlan, PromptError>)
    ensures
        match r {
            Ok(plan) => {
                &&& config_parses(config.choices@)
                &&& plan.reply@ == "Role channel initialised"@
                &&& plan.prompts@.len() == config.choices@.len()
                &&& forall|g: int|
                    0 <= g < plan.prompts@.len() ==> {
                        &&& (#[trigger] plan.prompts@[g]).content@ == config.choices@[g].message@
                        &&& rows_present(
                            plan.prompts@[g].rows@,
                            option_entries(config.choices@[g].options),
                        )
                    }
            },
            Err(PromptError::BadEmoji { emoji }) => first_bad_emoji(config.choices@, emoji@),
        },
{
    let mut prompts: Vec<RolePrompt> = Vec::new();
    let mut g: usize = 0;
    while g < config.choices.len()
        invariant
            g <= config.choices.len(),
            prompts@.len() == g,
            config_parses(config.choices@.take(g as int)),
            forall|i: int|
                0 <= i < g ==> {
                    &&& (#[trigger] prompts@[i]).content@ == config.choices@[i].message@
                    &&& rows_present(prompts@[i].rows@, option_entries(config.choices@[i].options))
                },
        decreases config.choices.len() - g,
    {
        let group = &config.choices[g];
        match button_rows(group) {
            Ok(rows) => {
                prompts.push(RolePrompt { content: group.message.clone(), rows });
            },
            Err(e) => {
                return Err(e);
            },
        }
        proof {
            lemma_config_parses_step(config.choices@, g as int);
        }
        g += 1;
    }
    proof {
        assert(config.choices@.take(g as int) =~= config.choices@);
    }
    Ok(RoleChannelPlan { prompts, reply: String::from_str("Role channel initialised") })
}

} // verus!
