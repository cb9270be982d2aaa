use guild_steward::voice::{join_vc, leave_reply, leave_vc, play_yt, playing_reply, JoinPlan, VoicePlan};

#[test]
fn joining_deafens_a_hearing_connection() {
    assert_eq!(
        join_vc(false, false),
        JoinPlan { deafen: true, unmute: false, reply: String::from("Successfully joined VC!") }
    );
}

#[test]
fn joining_unmutes_a_muted_connection() {
    assert_eq!(
        join_vc(true, true),
        JoinPlan { deafen: false, unmute: true, reply: String::from("Successfully joined VC!") }
    );
    assert_eq!(
        join_vc(false, true),
        JoinPlan { deafen: true, unmute: true, reply: String::from("Successfully joined VC!") }
    );
    assert_eq!(
        join_vc(true, false),
        JoinPlan { deafen: false, unmute: false, reply: String::from("Successfully joined VC!") }
    );
}

#[test]
fn leaving_needs_a_connection() {
    assert_eq!(leave_vc(true), VoicePlan::Proceed);
    assert_eq!(leave_vc(false), VoicePlan::NotConnected { reply: String::from("Not in VC") });
}

#[test]
fn leaving_reports_how_it_went() {
    assert_eq!(leave_reply(None), "Left VC");
    assert_eq!(leave_reply(Some("NoCall")), "Failed: NoCall");
    assert_eq!(leave_reply(Some("")), "Failed: ");
}

#[test]
fn playing_needs_a_connection() {
    assert_eq!(play_yt(true), VoicePlan::Proceed);
    assert_eq!(play_yt(false), VoicePlan::NotConnected { reply: String::from("Not in a VC") });
    assert_eq!(playing_reply(), "Playing song");
}
