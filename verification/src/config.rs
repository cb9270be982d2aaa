//! Configuration documents, as plain values.

use indexmap::IndexMap;
use vstd::prelude::*;

verus! {

#[verifier::external_type_specification]
#[verifier::external_body]
#[verifier::reject_recursive_types(K)]
#[verifier::reject_recursive_types(V)]
#[verifier::reject_recursive_types(S)]
pub struct ExIndexMap<K, V, S>(IndexMap<K, V, S>);

/// One selectable role: how its button looks and which role it toggles.
#[derive(Debug, PartialEq, Eq, Clone)]
pub struct RoleButton {
    pub emoji: String,
    pub label: String,
    pub role_id: u64,
}

/// A prompt with the buttons offered under it, keyed by button id, in
/// document order.
#[derive(Debug, PartialEq)]
pub struct RoleChoice {
    pub message: String,
    pub options: IndexMap<String, RoleButton>,
}

/// The role-choice document: every group of selectable roles.
#[derive(Debug, PartialEq)]
pub struct RoleConfig {
    pub choices: Vec<RoleChoice>,
}

/// A wall-clock time of day.
#[derive(Debug, PartialEq, Eq, Clone, Copy)]
pub struct TimeOfDay {
    pub hour: u8,
    pub minute: u8,
    pub second: u8,
}

/// Which channel is emptied every day, and when.
#[derive(Debug, PartialEq, Eq, Clone, Copy)]
pub struct PurgeTimerConfig {
    pub channel_id: u64,
    pub time: TimeOfDay,
}

/// Where ticket channels are created and which role moderates them.
#[derive(Debug, PartialEq, Eq, Clone, Copy)]
pub struct ModMailConfig {
    pub channel_id: u64,
    pub mod_role: u64,
}

/// Which guild is swept for unverified members and which role marks a
/// verified one.
#[derive(Debug, PartialEq, Eq, Clone, Copy)]
pub struct VerificationConfig {
    pub guild_id: u64,
    pub verification_role: u64,
}

/// What an option table holds: its button ids with their buttons, in
/// insertion order.
pub uninterp spec fn option_entries(options: IndexMap<String, RoleButton>) -> Seq<
    (Seq<char>, RoleButton),
>;

/// `IndexMap::len`: the number of entries in the table.
#[verifier::external_body]
pub(crate) fn options_len(options: &IndexMap<String, RoleButton>) -> (n: usize)
    ensures
        n == option_entries(*options).len(),
{
    options.len()
}

/// `IndexMap::get_index`: the entry at position `index` of the insertion
/// order, and nothing from `len` on.
#[verifier::external_body]
pub(crate) fn options_get_index(options: &IndexMap<String, RoleButton>, index: usize) -> (r: Option<
    (&String, &RoleButton),
>)
    ensures
        match r {
            Some((id, button)) => {
                &&& index < option_entries(*options).len()
                &&& id@ == option_entries(*options)[index as int].0
                &&& *button == option_entries(*options)[index as int].1
            },
            None => index >= option_entries(*options).len(),
        },
{
    options.get_index(index)
}

impl RoleChoice {
    /// The group's buttons as (button id, role id), in document order.
    pub open spec fn bindings(&self) -> Seq<(Seq<char>, u64)> {
        option_entries(self.options).map_values(|e: (Seq<char>, RoleButton)| (e.0, e.1.role_id))
    }
}

} // verus!
