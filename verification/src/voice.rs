//! Voice commands: what each does about the voice connection it finds.

use vstd::prelude::*;
use vstd::string::StringExecFns;

verus! {

/// What joining a voice channel still has to set on the connection.
#[derive(Debug, PartialEq, Eq, Clone)]
pub struct JoinPlan {
    /// Deafen the connection.
    pub deafen: bool,
    /// Lift the mute from the connection.
    pub unmute: bool,
    pub reply: String,
}

/// What a command does that needs a voice connection.
#[derive(Debug, PartialEq, Eq, Clone)]
pub enum VoicePlan {
    /// Go ahead with the connection at hand.
    Proceed,
    /// There is no connection in this guild: only reply.
    NotConnected { reply: String },
}

/// After joining: a connection that hears is deafened, a muted one is
/// unmuted, and the invoker is told that the join worked.
pub fn join_vc(is_deaf: bool, is_mute: bool) -> (plan: JoinPlan)
    ensures
        plan.deafen == !is_deaf,
        plan.unmute == is_mute,
        plan.reply@ == "Successfully joined VC!"@,
{
    JoinPlan { deafen: !is_deaf, unmute: is_mute, reply: String::from_str("Successfully joined VC!") }
}

/// Leaving: with a connection in the guild it is removed, without one the
/// invoker is told that there is none.
pub fn leave_vc(connected: bool) -> (plan: VoicePlan)
    ensures
        match plan {
            VoicePlan::Proceed => connected,
            VoicePlan::NotConnected { reply } => !connected && reply@ == "Not in VC"@,
        },
{
    if connected {
        VoicePlan::Proceed
    } else {
        VoicePlan::NotConnected { reply: String::from_str("Not in VC") }
    }
}

/// The reply once the connection was asked to go: that it went, or why it
/// did not.
pub open spec fn left_text(failure: Option<Seq<char>>) -> Seq<char> {
    match failure {
        None => "Left VC"@,
        Some(cause) => "Failed: "@ + cause,
    }
}

/// The reply to a leave command, given what removing the connection
/// reported.
pub fn leave_reply(failure: Option<&str>) -> (reply: String)
    ensures
        reply@ == left_text(
            match failure {
                Some(cause) => Some(cause@),
                None => None,
            },
        ),
{
    match failure {
        None => String::from_str("Left VC"),
        Some(cause) => {
            let mut reply = String::from_str("Failed: ");
            reply.append(cause);
            reply
        },
    }
}

/// Playing: with a connection in the guild the track is queued on it,
/// without one the invoker is told that there is none.
pub fn play_yt(connected: bool) -> (plan: VoicePlan)
    ensures
        match plan {
            VoicePlan::Proceed => connected,
            VoicePlan::NotConnected { reply } => !connected && reply@ == "Not in a VC"@,
        },
{
    if connected {
        VoicePlan::Proceed
    } else {
        VoicePlan::NotConnected { reply: String::from_str("Not in a VC") }
    }
}

/// The reply once a track was queued.
pub fn playing_reply() -> (reply: String)
    ensures
        reply@ == "Playing song"@,
{
    String::from_str("Playing song")
}

} // verus!
