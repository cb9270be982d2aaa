//! Routing of inbound interactions, and the role toggle that a role button
//! sets off.

use crate::config::{option_entries, PurgeTimerConfig, RoleConfig, TimeOfDay};
use crate::prompts::{
    button_row, config_parses, first_bad_emoji, lemma_config_parses_step, row_presents, Button,
    PromptError, RolePrompt,
};
use crate::registry::{build_outcome, lookup, RegistryError, RoleRegistry};
use crate::schedule::{
    daily_period, has_role, time_until, wait_nanos, Delay, LoopTiming, Moment, Schedule,
    NANOS_PER_SECOND,
};
use vstd::prelude::*;
use vstd::string::StringExecFns;

verus! {

/// An inbound interaction, as far as routing reads it.
#[derive(Debug, PartialEq, Eq, Clone)]
pub enum Interaction {
    /// A press on a message component: the component's custom id and the
    /// channel of the message it sits on.
    Component { custom_id: String, channel_id: u64 },
    /// Any other kind of interaction.
    Other,
}

/// What is done about an interaction.
#[derive(Debug, PartialEq, Eq, Clone, Copy)]
pub enum Route {
    /// Not a component press: logged, nothing else happens.
    Unsupported,
    /// The close button of a ticket: this channel, and no other, is deleted.
    CloseTicket { channel_id: u64 },
    /// A role button: this role is toggled for the acting member.
    ToggleRole { role_id: u64 },
    /// A component that nothing here owns: logged and dropped.
    Unrecognized,
}

/// The custom id of the button that closes a ticket.
pub open spec fn close_button_id() -> Seq<char> {
    "modmail_button"@
}

/// Where an interaction goes, given the registry's mapping. The close
/// button is looked for first, then the role buttons.
pub open spec fn route_of(mapping: Map<Seq<char>, u64>, interaction: Interaction) -> Route {
    match interaction {
        Interaction::Other => Route::Unsupported,
        Interaction::Component { custom_id, channel_id } => {
            if custom_id@ == close_button_id() {
                Route::CloseTicket { channel_id }
            } else {
                match lookup(mapping, custom_id@) {
                    Some(role_id) => Route::ToggleRole { role_id },
                    None => Route::Unrecognized,
                }
            }
        },
    }
}

/// The event handler: it owns the role-choice configuration and the
/// registry built from it, and decides what each platform event leads to.
pub struct Handler {
    roles: RoleConfig,
    registry: RoleRegistry,
}

impl Handler {
    #[verifier::type_invariant]
    spec fn registry_is_of_roles(&self) -> bool {
        build_outcome(self.roles.choices@) matches Ok(mapping) && mapping == self.registry@
    }

    /// The role-choice configuration that the handler was made from.
    pub closed spec fn roles(&self) -> RoleConfig {
        self.roles
    }

    /// The handler routes by the registry of its own configuration.
    pub open spec fn consistent(&self) -> bool {
        build_outcome(self.roles().choices@) matches Ok(mapping) && mapping == self.mapping()
    }

    /// The mapping from button id to role id that routing consults.
    pub closed spec fn mapping(&self) -> Map<Seq<char>, u64> {
        self.registry@
    }

    /// A handler for the configured role buttons. Fails, as building the
    /// registry does, when two buttons share an id.
    pub fn new(roles: RoleConfig) -> (r: Result<Handler, RegistryError>)
        ensures
            match r {
                Ok(handler) => handler.roles() == roles && handler.consistent(),
                Err(RegistryError::DuplicateButton { button_id }) => build_outcome(
                    roles.choices@,
                ) matches Err(id) && id == button_id@,
            },
    {
        match RoleRegistry::build(&roles.choices) {
            Ok(registry) => Ok(Handler { roles, registry }),
            Err(e) => Err(e),
        }
    }

    /// Classifies one inbound interaction. An interaction that nothing owns
    /// is dropped, never an error.
    pub fn interaction_create(&self, interaction: &Interaction) -> (route: Route)
        ensures
            route == route_of(self.mapping(), *interaction),
            self.consistent(),
    {
        proof {
            use_type_invariant(self);
        }
        match interaction {
            Interaction::Other => Route::Unsupported,
            Interaction::Component { custom_id, channel_id } => {
                let close = String::from_str("modmail_button");
                if *custom_id == close {
                    Route::CloseTicket { channel_id: *channel_id }
                } else {
                    match self.registry.resolve(custom_id.as_str()) {
                        Some(role_id) => Route::ToggleRole { role_id },
                        None => Route::Unrecognized,
                    }
                }
            },
        }
    }

    /// The timing of the two maintenance loops, as seen when the platform
    /// reports the connection ready at `now`: the sweep first fires at the
    /// next midnight, the purge at the next occurrence of its configured
    /// time, and both then fire daily. There is no timing for a reading
    /// that cannot be represented or a purge time that does not exist.
    pub fn ready(&self, now: &Moment, purge: &PurgeTimerConfig) -> (plan: Option<Schedule>)
        ensures
            plan is Some <==> now.representable() && purge.time.valid(),
            plan matches Some(s) ==> {
                &&& s.sweep.period == (Delay { secs: 86_400, nanos: 0 })
                &&& s.purge.period == (Delay { secs: 86_400, nanos: 0 })
                &&& s.sweep.first.nanos < NANOS_PER_SECOND
                &&& s.purge.first.nanos < NANOS_PER_SECOND
                &&& s.sweep.first.total_nanos() == wait_nanos(
                    *now,
                    TimeOfDay { hour: 0, minute: 0, second: 0 },
                )
                &&& s.purge.first.total_nanos() == wait_nanos(*now, purge.time)
            },
    {
        let midnight = TimeOfDay { hour: 0, minute: 0, second: 0 };
        let sweep_first = match time_until(now, &midnight) {
            Some(d) => d,
            None => {
                return None;
            },
        };
        let purge_first = match time_until(now, &purge.time) {
            Some(d) => d,
            None => {
                return None;
            },
        };
        Some(
            Schedule {
                sweep: LoopTiming { first: sweep_first, period: daily_period() },
                purge: LoopTiming { first: purge_first, period: daily_period() },
            },
        )
    }

    /// The prompts of the role channel in their plain layout: one message
    /// for each configured group, in order, with all of the group's buttons
    /// in a single row. Fails on the first configured emoji, in document
    /// order, that no button can show.
    pub fn initialise_role_channel(&self) -> (r: Result<Vec<RolePrompt>, PromptError>)
        ensures
            self.consistent(),
            match r {
                Ok(prompts) => {
                    &&& config_parses(self.roles().choices@)
                    &&& prompts@.len() == self.roles().choices@.len()
                    &&& forall|g: int|
                        0 <= g < prompts@.len() ==> {
                            &&& (#[trigger] prompts@[g]).content@
                                == self.roles().choices@[g].message@
                            &&& prompts@[g].rows@.len() == 1
                            &&& row_presents(
                                prompts@[g].rows@[0]@,
                                option_entries(self.roles().choices@[g].options),
                            )
                        }
                },
                Err(PromptError::BadEmoji { emoji }) => first_bad_emoji(
                    self.roles().choices@,
                    emoji@,
                ),
            },
    {
        proof {
            use_type_invariant(self);
        }
        let mut prompts: Vec<RolePrompt> = Vec::new();
        let mut g: usize = 0;
        while g < self.roles.choices.len()
            invariant
                g <= self.roles.choices.len(),
                prompts@.len() == g,
                self.consistent(),
                config_parses(self.roles.choices@.take(g as int)),
                forall|i: int|
                    0 <= i < g ==> {
                        &&& (#[trigger] prompts@[i]).content@ == self.roles.choices@[i].message@
                        &&& prompts@[i].rows@.len() == 1
                        &&& row_presents(
                            prompts@[i].rows@[0]@,
                            option_entries(self.roles.choices@[i].options),
                        )
                    },
            decreases self.roles.choices.len() - g,
        {
            let group = &self.roles.choices[g];
            match button_row(group) {
                Ok(row) => {
                    let mut rows: Vec<Vec<Button>> = Vec::new();
                    rows.push(row);
                    prompts.push(RolePrompt { content: group.message.clone(), rows });
                },
                Err(e) => {
                    return Err(e);
                },
            }
            proof {
                lemma_config_parses_step(self.roles.choices@, g as int);
            }
            g += 1;
        }
        proof {
            assert(self.roles.choices@.take(g as int) =~= self.roles.choices@);
        }
        Ok(prompts)
    }

    /// The role-choice configuration that the handler was made from.
    pub fn role_config(&self) -> (roles: &RoleConfig)
        ensures
            *roles == self.roles(),
            self.consistent(),
    {
        proof {
            use_type_invariant(self);
        }
        &self.roles
    }
}

/// Whether a member holds a role.
#[derive(Debug, PartialEq, Eq, Clone, Copy, Structural)]
pub enum Membership {
    HasRole,
    LacksRole,
}

/// What a toggle does to the role.
#[derive(Debug, PartialEq, Eq, Clone, Copy, Structural)]
pub enum RoleChange {
    Added,
    Removed,
}

/// The outcome of a toggle: the change to ask of the platform, and where
/// the member stands once it is made.
#[derive(Debug, PartialEq, Eq, Clone, Copy)]
pub struct Toggle {
    pub change: RoleChange,
    pub next: Membership,
}

/// Where a member with these roles stands towards `role`.
pub open spec fn membership_in(roles: Seq<u64>, role: u64) -> Membership {
    if roles.contains(role) {
        Membership::HasRole
    } else {
        Membership::LacksRole
    }
}

/// The transition rule: a held role is removed, a missing one added.
pub open spec fn toggled(current: Membership) -> Toggle {
    match current {
        Membership::HasRole => Toggle { change: RoleChange::Removed, next: Membership::LacksRole },
        Membership::LacksRole => Toggle { change: RoleChange::Added, next: Membership::HasRole },
    }
}

/// The acknowledgment sent to the acting member, naming action and role.
pub open spec fn reply_text(change: RoleChange, role_name: Seq<char>) -> Seq<char> {
    match change {
        RoleChange::Added => "You added"@ + " "@ + role_name,
        RoleChange::Removed => "You removed"@ + " "@ + role_name,
    }
}

/// Where a member with these roles stands towards `role`.
pub fn membership(roles: &Vec<u64>, role: u64) -> (m: Membership)
    ensures
        m == membership_in(roles@, role),
{
    if has_role(roles, role) {
        Membership::HasRole
    } else {
        Membership::LacksRole
    }
}

/// One toggle event for a member who currently stands at `current`.
pub fn toggle(current: Membership) -> (t: Toggle)
    ensures
        t == toggled(current),
{
    match current {
        Membership::HasRole => Toggle { change: RoleChange::Removed, next: Membership::LacksRole },
        Membership::LacksRole => Toggle { change: RoleChange::Added, next: Membership::HasRole },
    }
}

/// The acknowledgment for a change made to the role called `role_name`.
pub fn toggle_reply(change: RoleChange, role_name: &str) -> (reply: String)
    ensures
        reply@ == reply_text(change, role_name@),
{
    let mut reply = match change {
        RoleChange::Added => String::from_str("You added"),
        RoleChange::Removed => String::from_str("You removed"),
    };
    reply.append(" ");
    reply.append(role_name);
    reply
}

/// Pressing the close button leads to the deletion of the channel that the
/// button sits in, and of that channel alone, whatever the registry holds.
pub proof fn law_close_button_deletes_its_channel(
    mapping: Map<Seq<char>, u64>,
    custom_id: String,
    channel_id: u64,
)
    requires
        custom_id@ == close_button_id(),
    ensures
        route_of(mapping, Interaction::Component { custom_id, channel_id }) == (Route::CloseTicket {
            channel_id,
        }),
{
}

/// A toggle adds the role to a member who lacks it and removes it from one
/// who holds it, and a second toggle undoes the first.
pub proof fn law_toggle_flips_and_returns(current: Membership)
    ensures
        current == Membership::LacksRole ==> toggled(current) == (Toggle {
            change: RoleChange::Added,
            next: Membership::HasRole,
        }),
        current == Membership::HasRole ==> toggled(current) == (Toggle {
            change: RoleChange::Removed,
            next: Membership::LacksRole,
        }),
        toggled(toggled(current).next).next == current,
{
}

} // verus!
