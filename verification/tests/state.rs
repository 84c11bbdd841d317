use arpad_rust::connection::ConnectionState;
use arpad_rust::modes::button::Button;
use arpad_rust::modes::guid::TrackGuid;
use arpad_rust::modes::mode_manager::{
    Barrier, DownstreamRoute, ManagerRequest, ModeAction, ModeManagerCore, State, TransitionRequest, UpstreamRoute,
};

#[test]
fn heartbeat_and_timeout() {
    let mut c = ConnectionState::new(100);
    assert!(c.on_heartbeat(101));
    assert!(!c.on_heartbeat(102));
    assert!(!c.should_timeout(105, 3));
    assert!(c.should_timeout(106, 3));
    // Reported once until the next heartbeat.
    assert!(!c.should_timeout(200, 3));
    assert!(!c.on_heartbeat(201));
    assert!(!c.should_timeout(50, 3));
    assert!(c.should_timeout(205, 3));
}

#[test]
fn button_toggles() {
    let mut b = Button::new();
    assert!(!b.is_on());
    assert!(b.toggle());
    assert!(!b.toggle());
    b.set(true);
    assert!(b.is_on());
}

#[test]
fn mode_transition_runs_through_both_barriers() {
    let mut m = ModeManagerCore::new();
    assert_eq!(m.on_downstream(None), DownstreamRoute::HandleDirect);
    let mut up: Vec<ManagerRequest> = Vec::new();
    let (req, barrier) = m
        .apply_mode_action(
            ModeAction::Transition(TransitionRequest::ToReaperSends { selected_track_guid: TrackGuid { bits: 7 } }),
            &mut up,
        )
        .unwrap();
    assert_eq!(up, vec![ManagerRequest::QueryAll, ManagerRequest::Barrier(barrier)]);
    assert_eq!(req, TransitionRequest::ToReaperSends { selected_track_guid: TrackGuid { bits: 7 } });
    assert_eq!(m.curr_state, State::WaitingBarrierFromUpstream { barrier });
    // Messages from downstream are dropped; from upstream, coalesced.
    assert_eq!(m.on_downstream(None), DownstreamRoute::Discard);
    assert_eq!(m.on_upstream(None), UpstreamRoute::HandleCoalesced);
    // A stale barrier is forwarded as it is.
    let mut other_counter = 40u64;
    let stale = Barrier::new(&mut other_counter);
    assert_eq!(m.on_upstream(Some(stale)), UpstreamRoute::ForwardBarrier(stale));
    assert_eq!(m.on_upstream(Some(barrier)), UpstreamRoute::FlushThenReflect(barrier));
    assert!(!m.listens_upstream());
    assert_eq!(m.on_downstream(Some(stale)), DownstreamRoute::Discard);
    assert_eq!(m.curr_state, State::WaitingBarrierFromDownstream { barrier });
    assert_eq!(m.on_downstream(Some(barrier)), DownstreamRoute::Discard);
    assert_eq!(m.curr_state, State::Active);
    assert_eq!(m.apply_mode_action(ModeAction::NoAction, &mut up), None);
    assert_eq!(up.len(), 2);
}
