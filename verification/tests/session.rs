use united_cinemas::codec::{SdpKind, SessionDescription};
use united_cinemas::session::{
    ice_server_urls, on_state_change, plan_steps, Negotiation, PeerState, Role, SessionError,
    StateAction, Step, RTCP_BUFFER_BYTES,
};
use united_cinemas::tracks::TrackKind;

const ALL_STATES: [PeerState; 7] = [
    PeerState::Unspecified,
    PeerState::New,
    PeerState::Connecting,
    PeerState::Connected,
    PeerState::Disconnected,
    PeerState::Failed,
    PeerState::Closed,
];

fn answer() -> SessionDescription {
    SessionDescription { kind: SdpKind::Answer, sdp: "v=0\r\n".to_owned() }
}

#[test]
fn one_public_stun_server() {
    assert_eq!(ice_server_urls(), vec!["stun:stun.l.google.com:19302".to_owned()]);
    assert_eq!(RTCP_BUFFER_BYTES, 1500);
}

#[test]
fn a_closed_broadcaster_is_unregistered() {
    assert_eq!(on_state_change(Role::Broadcaster, PeerState::Closed), StateAction::Unregister);
}

#[test]
fn other_broadcaster_states_are_only_logged() {
    for state in ALL_STATES {
        if state != PeerState::Closed {
            assert_eq!(on_state_change(Role::Broadcaster, state), StateAction::LogOnly);
        }
    }
}

#[test]
fn viewer_states_are_only_logged() {
    for state in ALL_STATES {
        assert_eq!(on_state_change(Role::Viewer, state), StateAction::LogOnly);
    }
}

#[test]
fn the_broadcaster_plan() {
    assert_eq!(
        plan_steps(Role::Broadcaster),
        vec![
            Step::CreatePeerConnection,
            Step::AddTransceiver(TrackKind::Video),
            Step::AddTransceiver(TrackKind::Audio),
            Step::AttachTrackHandlers,
            Step::WatchConnectionState(Role::Broadcaster),
            Step::SetRemoteDescription,
            Step::CreateAnswer,
            Step::WatchGathering,
            Step::SetLocalDescription,
            Step::AwaitGathering,
            Step::ReadLocalDescription,
        ]
    );
}

#[test]
fn the_viewer_plan() {
    assert_eq!(
        plan_steps(Role::Viewer),
        vec![
            Step::CreatePeerConnection,
            Step::AddTrack(TrackKind::Video),
            Step::AddTrack(TrackKind::Audio),
            Step::DrainRtcp(TrackKind::Video),
            Step::DrainRtcp(TrackKind::Audio),
            Step::WatchConnectionState(Role::Viewer),
            Step::SetRemoteDescription,
            Step::CreateAnswer,
            Step::WatchGathering,
            Step::SetLocalDescription,
            Step::AwaitGathering,
            Step::ReadLocalDescription,
        ]
    );
}

#[test]
fn a_negotiation_takes_its_plan_in_order() {
    for role in [Role::Broadcaster, Role::Viewer] {
        let plan = plan_steps(role);
        let mut negotiation = Negotiation::new(role);
        let mut taken = Vec::new();
        let mut step = negotiation.current();
        while let Some(now) = step {
            assert!(!negotiation.is_complete());
            taken.push(now);
            step = negotiation.advance(true);
        }
        assert_eq!(taken, plan);
        assert!(negotiation.is_complete());
        assert!(!negotiation.has_failed());
        assert_eq!(negotiation.current(), None);
        assert_eq!(negotiation.advance(true), None);
        assert!(negotiation.is_complete());
    }
}

#[test]
fn a_negotiation_stops_at_the_first_failure() {
    let mut negotiation = Negotiation::new(Role::Broadcaster);
    assert_eq!(negotiation.current(), Some(Step::CreatePeerConnection));
    assert_eq!(negotiation.advance(true), Some(Step::AddTransceiver(TrackKind::Video)));
    assert_eq!(negotiation.advance(true), Some(Step::AddTransceiver(TrackKind::Audio)));
    assert_eq!(negotiation.advance(false), None);
    assert!(negotiation.has_failed());
    assert!(!negotiation.is_complete());
    assert_eq!(negotiation.current(), None);
    assert_eq!(negotiation.advance(true), None);
    assert!(negotiation.has_failed());
    assert_eq!(negotiation.finish(Some(answer())).unwrap_err(), SessionError::Incomplete);
}

#[test]
fn the_gathering_notifier_is_taken_before_the_local_description_is_set() {
    for role in [Role::Broadcaster, Role::Viewer] {
        let plan = plan_steps(role);
        let place = |step: Step| plan.iter().position(|s| *s == step).unwrap();
        assert!(place(Step::WatchGathering) < place(Step::SetLocalDescription));
        assert!(place(Step::SetLocalDescription) < place(Step::AwaitGathering));
        assert!(place(Step::WatchConnectionState(role)) < place(Step::SetRemoteDescription));
        assert!(place(Step::SetRemoteDescription) < place(Step::CreateAnswer));
        assert_eq!(place(Step::ReadLocalDescription), plan.len() - 1);
    }
}

#[test]
fn a_complete_negotiation_gives_its_local_description() {
    let mut negotiation = Negotiation::new(Role::Viewer);
    while negotiation.current().is_some() {
        negotiation.advance(true);
    }
    let description = negotiation.finish(Some(answer())).unwrap();
    assert_eq!(description.kind, SdpKind::Answer);
    assert_eq!(description.sdp, "v=0\r\n");
}

#[test]
fn no_local_description_is_an_error() {
    let mut negotiation = Negotiation::new(Role::Viewer);
    while negotiation.current().is_some() {
        negotiation.advance(true);
    }
    assert_eq!(negotiation.finish(None).unwrap_err(), SessionError::NoLocalDescription);
}

#[test]
fn an_unfinished_negotiation_gives_no_answer() {
    let negotiation = Negotiation::new(Role::Broadcaster);
    assert_eq!(negotiation.finish(Some(answer())).unwrap_err(), SessionError::Incomplete);
    assert_eq!(negotiation.finish(None).unwrap_err(), SessionError::Incomplete);
}
