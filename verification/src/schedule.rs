//! Wall-clock arithmetic for the daily maintenance loops, and the
//! verification sweep that one of them runs.

use crate::config::{TimeOfDay, VerificationConfig};
use crate::text::{decimal_int, push_decimal_i64};
use chrono::{DateTime, Days};
use vstd::prelude::*;

verus! {

pub const NANOS_PER_SECOND: u32 = 1_000_000_000;

pub const SECONDS_PER_DAY: i64 = 86_400;

pub const NANOS_PER_DAY: i64 = 86_400_000_000_000;

/// How long a member must have been in the guild before a sweep verifies
/// them: three days.
pub const GRACE_PERIOD_SECONDS: i64 = 259_200;

/// The first second of the earliest calendar day that can be reckoned with.
pub const EARLIEST_SECOND: i64 = -8_334_601_228_800;

/// The last second of the latest calendar day that can be reckoned with.
pub const LATEST_SECOND: i64 = 8_210_266_876_799;

/// A reading of the UTC wall clock: seconds since the Unix epoch and the
/// nanoseconds into that second.
#[derive(Debug, PartialEq, Eq, Clone, Copy)]
pub struct Moment {
    pub secs: i64,
    pub nanos: u32,
}

/// A non-negative span of time.
#[derive(Debug, PartialEq, Eq, Clone, Copy)]
pub struct Delay {
    pub secs: u64,
    pub nanos: u32,
}

/// When a loop first fires and how long it then waits between firings.
#[derive(Debug, PartialEq, Eq, Clone, Copy)]
pub struct LoopTiming {
    pub first: Delay,
    pub period: Delay,
}

/// The timing of the two maintenance loops.
#[derive(Debug, PartialEq, Eq, Clone, Copy)]
pub struct Schedule {
    pub sweep: LoopTiming,
    pub purge: LoopTiming,
}

impl TimeOfDay {
    /// The fields name a second of the day.
    pub open spec fn valid(self) -> bool {
        self.hour < 24 && self.minute < 60 && self.second < 60
    }

    /// Seconds from midnight to this time of day.
    pub open spec fn second_of_day(self) -> int {
        self.hour * 3600 + self.minute * 60 + self.second
    }
}

impl Moment {
    /// The reading lies on a calendar day that can be reckoned with, and
    /// its nanoseconds stay within the second.
    pub open spec fn representable(self) -> bool {
        EARLIEST_SECOND <= self.secs <= LATEST_SECOND && self.nanos < NANOS_PER_SECOND
    }

    /// Nanoseconds from the preceding UTC midnight to this reading.
    pub open spec fn nanos_into_day(self) -> int {
        (self.secs as int % 86_400) * 1_000_000_000 + self.nanos
    }
}

impl Delay {
    pub open spec fn total_nanos(self) -> int {
        self.secs * 1_000_000_000 + self.nanos
    }
}

/// From `now`, the nanoseconds until the clock next shows `at`: nothing if
/// it shows it right now, and less than a day in any case.
pub open spec fn wait_nanos(now: Moment, at: TimeOfDay) -> int {
    let ahead = at.second_of_day() * 1_000_000_000 - now.nanos_into_day();
    if ahead < 0 {
        ahead + NANOS_PER_DAY
    } else {
        ahead
    }
}

/// chrono's `DateTime::from_timestamp`, `DateTime::date_naive`,
/// `NaiveDate::and_hms_opt` and `NaiveDateTime::signed_duration_since`:
/// how many nanoseconds the given time of day, taken on the calendar day of
/// the reading, lies after the reading (negative where it lies before).
/// There is an answer exactly when the reading is on a day that chrono can
/// represent and hour, minute and second name a second of the day.
#[verifier::external_body]
fn offset_within_day(secs: i64, nanos: u32, hour: u32, minute: u32, second: u32) -> (offset: Option<
    i64,
>)
    requires
        nanos < NANOS_PER_SECOND,
    ensures
        match offset {
            Some(ahead) => {
                &&& EARLIEST_SECOND <= secs <= LATEST_SECOND
                &&& hour < 24 && minute < 60 && second < 60
                &&& ahead == (hour * 3600 + minute * 60 + second - secs as int % 86_400)
                    * 1_000_000_000 - nanos
            },
            None => !(EARLIEST_SECOND <= secs <= LATEST_SECOND && hour < 24 && minute < 60
                && second < 60),
        },
{
    let now = DateTime::from_timestamp(secs, nanos)?;
    let at = now.date_naive().and_hms_opt(hour, minute, second)?;
    at.signed_duration_since(now.naive_utc()).num_nanoseconds()
}

/// chrono's `DateTime::from_timestamp`, `DateTime::checked_add_days` and
/// `DateTime::timestamp`: the reading `days` calendar days later, in
/// seconds since the epoch, where both days can be represented.
#[verifier::external_body]
fn days_later(secs: i64, nanos: u32, days: u64) -> (later: Option<i64>)
    requires
        nanos < NANOS_PER_SECOND,
    ensures
        match later {
            Some(t) => {
                &&& EARLIEST_SECOND <= secs
                &&& secs + days * SECONDS_PER_DAY <= LATEST_SECOND
                &&& t == secs + days * SECONDS_PER_DAY
            },
            None => !(EARLIEST_SECOND <= secs && secs + days * SECONDS_PER_DAY <= LATEST_SECOND),
        },
{
    let next = DateTime::from_timestamp(secs, nanos)?.checked_add_days(Days::new(days))?;
    Some(next.timestamp())
}

/// How long to wait from `now` until the clock next shows `at`. There is no
/// answer for a reading that cannot be represented or a time of day that
/// does not exist.
pub fn time_until(now: &Moment, at: &TimeOfDay) -> (wait: Option<Delay>)
    ensures
        wait is Some <==> now.representable() && at.valid(),
        wait matches Some(d) ==> d.nanos < NANOS_PER_SECOND && d.total_nanos() == wait_nanos(
            *now,
            *at,
        ),
{
    if now.nanos >= NANOS_PER_SECOND {
        return None;
    }
    let hour: u32 = at.hour as u32;
    let minute: u32 = at.minute as u32;
    let second: u32 = at.second as u32;
    match offset_within_day(now.secs, now.nanos, hour, minute, second) {
        None => None,
        Some(ahead) => {
            let start: i64 = if ahead < 0 {
                ahead + NANOS_PER_DAY
            } else {
                ahead
            };
            let secs: u64 = (start / 1_000_000_000) as u64;
            let nanos: u32 = (start % 1_000_000_000) as u32;
            Some(Delay { secs, nanos })
        },
    }
}

/// The wait computed by `wait_nanos` is shorter than a day and ends exactly
/// when the clock shows the wanted time of day.
pub proof fn law_wait_ends_at_time_of_day(now: Moment, at: TimeOfDay)
    requires
        now.representable(),
        at.valid(),
    ensures
        0 <= wait_nanos(now, at) < NANOS_PER_DAY,
        (now.nanos_into_day() + wait_nanos(now, at)) % (NANOS_PER_DAY as int) == at.second_of_day()
            * 1_000_000_000,
{
}

/// The pause between two firings of a maintenance loop: a day.
pub fn daily_period() -> (period: Delay)
    ensures
        period == (Delay { secs: 86_400, nanos: 0 }),
{
    Delay { secs: 86_400, nanos: 0 }
}

/// The text that announces the purge after the one just done.
pub open spec fn announcement_text(next_purge: int) -> Seq<char> {
    "Channel will be purged in <t:"@ + decimal_int(next_purge) + ":R>"@
}

/// The message posted after a purge that finished at `now`: it points at
/// the same time one day later. There is none where that day cannot be
/// represented.
pub fn purge_announcement(now: &Moment) -> (message: Option<String>)
    ensures
        message is Some <==> now.representable() && now.secs + SECONDS_PER_DAY <= LATEST_SECOND,
        message matches Some(text) ==> text@ == announcement_text(now.secs + SECONDS_PER_DAY),
{
    if now.nanos >= NANOS_PER_SECOND {
        return None;
    }
    match days_later(now.secs, now.nanos, 1) {
        None => None,
        Some(next_purge) => {
            let mut text = String::from_str("Channel will be purged in <t:");
            push_decimal_i64(&mut text, next_purge);
            text.append(":R>");
            Some(text)
        },
    }
}

/// What a sweep reads of a guild member.
#[derive(Debug, PartialEq, Eq, Clone)]
pub struct MemberRecord {
    pub user_id: u64,
    pub roles: Vec<u64>,
    /// When the member joined, in seconds since the epoch, where known.
    pub joined_at: Option<i64>,
}

impl MemberRecord {
    /// The member lacks `role` and joined more than the grace period
    /// before `now`.
    pub open spec fn due(self, role: u64, now: i64) -> bool {
        &&& !self.roles@.contains(role)
        &&& self.joined_at matches Some(joined)
        &&& now - joined > GRACE_PERIOD_SECONDS
    }
}

/// The user ids of the members that are due, in the order of the list.
pub open spec fn sweep_grants(members: Seq<MemberRecord>, role: u64, now: i64) -> Seq<u64>
    decreases members.len(),
{
    if members.len() == 0 {
        Seq::empty()
    } else if members.last().due(role, now) {
        sweep_grants(members.drop_last(), role, now).push(members.last().user_id)
    } else {
        sweep_grants(members.drop_last(), role, now)
    }
}

/// Whether `role` is among `roles`.
pub fn has_role(roles: &Vec<u64>, role: u64) -> (held: bool)
    ensures
        held == roles@.contains(role),
{
    let mut i: usize = 0;
    while i < roles.len()
        invariant
            i <= roles.len(),
            forall|j: int| 0 <= j < i ==> roles@[j] != role,
        decreases roles.len() - i,
    {
        if roles[i] == role {
            return true;
        }
        i += 1;
    }
    false
}

/// One tick of the verification sweep: the members to grant the verified
/// role to, given the member list as fetched at `now` (seconds since the
/// epoch).
pub fn verification_sweep(members: &Vec<MemberRecord>, config: &VerificationConfig, now: i64) -> (grants:
    Vec<u64>)
    ensures
        grants@ == sweep_grants(members@, config.verification_role, now),
{
    let role = config.verification_role;
    let mut grants: Vec<u64> = Vec::new();
    let mut i: usize = 0;
    while i < members.len()
        invariant
            i <= members.len(),
            role == config.verification_role,
            grants@ == sweep_grants(members@.take(i as int), role, now),
        decreases members.len() - i,
    {
        let member = &members[i];
        proof {
            assert(members@.take(i as int + 1).drop_last() =~= members@.take(i as int));
        }
        let overdue = match member.joined_at {
            Some(joined) => now as i128 - joined as i128 > GRACE_PERIOD_SECONDS as i128,
            None => false,
        };
        if overdue && !has_role(&member.roles, role) {
            grants.push(member.user_id);
        }
        i += 1;
    }
    proof {
        assert(members@.take(i as int) =~= members@);
    }
    grants
}

/// No two members of the list share a user id.
pub open spec fn user_ids_distinct(members: Seq<MemberRecord>) -> bool {
    forall|i: int, j: int|
        0 <= i < j < members.len() ==> (#[trigger] members[i]).user_id != (
        #[trigger] members[j]).user_id
}

/// Some member that is due has this user id.
pub open spec fn names_due_member(members: Seq<MemberRecord>, role: u64, now: i64, id: u64) -> bool {
    exists|i: int|
        0 <= i < members.len() && (#[trigger] members[i]).due(role, now) && members[i].user_id == id
}

/// A sweep grants the role to every member that is due and to nobody else:
/// each grant names a due member, and in a list without repeated user ids a
/// member that already holds the role, or joined within the grace period,
/// is not named.
pub proof fn law_sweep_grants_only_the_due(members: Seq<MemberRecord>, role: u64, now: i64)
    ensures
        forall|i: int|
            0 <= i < members.len() && (#[trigger] members[i]).due(role, now) ==> sweep_grants(
                members,
                role,
                now,
            ).contains(members[i].user_id),
        forall|k: int|
            0 <= k < sweep_grants(members, role, now).len() ==> names_due_member(
                members,
                role,
                now,
                #[trigger] sweep_grants(members, role, now)[k],
            ),
        user_ids_distinct(members) ==> forall|i: int|
            0 <= i < members.len() && !(#[trigger] members[i]).due(role, now) ==> !sweep_grants(
                members,
                role,
                now,
            ).contains(members[i].user_id),
    decreases members.len(),
{
    let grants = sweep_grants(members, role, now);
    if members.len() > 0 {
        let front = members.drop_last();
        let last = members.last();
        let before = sweep_grants(front, role, now);
        law_sweep_grants_only_the_due(front, role, now);
        assert forall|i: int| 0 <= i < members.len() && (#[trigger] members[i]).due(
            role,
            now,
        ) implies grants.contains(members[i].user_id) by {
            if i < front.len() {
                assert(front[i] == members[i]);
                let k = choose|k: int| 0 <= k < before.len() && before[k] == front[i].user_id;
                assert(grants[k] == members[i].user_id);
            } else {
                assert(grants[grants.len() - 1] == members[i].user_id);
            }
        }
        assert forall|k: int| 0 <= k < grants.len() implies names_due_member(
            members,
            role,
            now,
            #[trigger] grants[k],
        ) by {
            if k < before.len() {
                assert(grants[k] == before[k]);
                assert(names_due_member(front, role, now, before[k]));
                let i = choose|i: int|
                    0 <= i < front.len() && (#[trigger] front[i]).due(role, now)
                        && front[i].user_id == before[k];
                assert(members[i] == front[i]);
            } else {
                assert(members[members.len() - 1].due(role, now));
            }
        }
        if user_ids_distinct(members) {
            assert forall|i: int| 0 <= i < members.len() && !(#[trigger] members[i]).due(
                role,
                now,
            ) implies !grants.contains(members[i].user_id) by {
                if grants.contains(members[i].user_id) {
                    let k = choose|k: int| 0 <= k < grants.len() && grants[k] == members[i].user_id;
                    assert(names_due_member(members, role, now, grants[k]));
                    let j = choose|j: int|
                        0 <= j < members.len() && (#[trigger] members[j]).due(role, now)
                            && members[j].user_id == grants[k];
                    assert(i != j);
                    if i < j {
                        assert(members[i].user_id != members[j].user_id);
                    } else {
                        assert(members[j].user_id != members[i].user_id);
                    }
                }
            }
        }
    }
}

} // verus!
