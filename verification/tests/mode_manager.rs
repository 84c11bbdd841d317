use arpad_rust::midi::v1m::{
    BottomScribbleStripLine1TextMsg, ChannelFaderMsg, DownstreamMsg, TopScribbleStripLine1TextMsg,
    TopScribbleStripLine2TextMsg,
};
use arpad_rust::modes::mode_manager::{
    Barrier, DownstreamRoute, IoCoalescing, ManagerRequest, ModeAction, ModeManagerCore, State, ToV1m,
    TransitionRequest, UpstreamRoute,
};

#[test]
fn barrier_ids_are_unique() {
    let mut counter = 0u64;
    let a = Barrier::new(&mut counter);
    let b = Barrier::new(&mut counter);
    assert_ne!(a, b);
}

#[test]
fn flush_into_batches_scribble_and_preserves_non_scribble_before_batches() {
    let mut io_coalescing = IoCoalescing::new();

    // Queue: scribble, non-scribble, scribble, scribble
    io_coalescing.send_to_v1m(DownstreamMsg::TopScribbleStripLine1Text(TopScribbleStripLine1TextMsg {
        idx: 0,
        text: "A".to_string(),
    }));
    io_coalescing.send_to_v1m(DownstreamMsg::ChannelFader(ChannelFaderMsg { idx: 0, value: 0.5f64.to_bits() }));
    io_coalescing.send_to_v1m(DownstreamMsg::TopScribbleStripLine2Text(TopScribbleStripLine2TextMsg {
        idx: 0,
        text: "B".to_string(),
    }));
    io_coalescing.send_to_v1m(DownstreamMsg::BottomScribbleStripLine1Text(BottomScribbleStripLine1TextMsg {
        idx: 0,
        text: "C".to_string(),
    }));

    let mut io = Vec::<DownstreamMsg>::new();
    io_coalescing.flush_into(&mut io);

    let mut it = io.into_iter();
    let first = it.next().unwrap();
    assert!(
        matches!(first, DownstreamMsg::ChannelFader(_)),
        "expected non-scribble first, got {:?}",
        first
    );
    let second = it.next().unwrap();
    assert!(
        matches!(second, DownstreamMsg::TopScribbleStripBatch(_)),
        "expected top scribble batch second, got {:?}",
        second
    );
    let third = it.next().unwrap();
    assert!(
        matches!(third, DownstreamMsg::BottomScribbleStripBatch(_)),
        "expected bottom scribble batch third, got {:?}",
        third
    );
    assert!(it.next().is_none());
}

fn start_transition(m: &mut ModeManagerCore) -> Barrier {
    let mut up: Vec<ManagerRequest> = Vec::new();
    let (_, barrier) = m
        .apply_mode_action(
            ModeAction::Transition(TransitionRequest::ToReaperVolumePan { selected_track_guid: None }),
            &mut up,
        )
        .expect("a transition draws a barrier");
    barrier
}

#[test]
fn transition_sends_queryall_then_barrier_and_enters_waiting_upstream() {
    let mut manager = ModeManagerCore::new();
    let mut reaper_out: Vec<ManagerRequest> = Vec::new();
    manager.apply_mode_action(ModeAction::NoAction, &mut reaper_out);
    assert!(reaper_out.is_empty());
    manager.apply_mode_action(
        ModeAction::Transition(TransitionRequest::ToReaperVolumePan { selected_track_guid: None }),
        &mut reaper_out,
    );

    let mut sent = reaper_out.into_iter();
    assert!(matches!(sent.next(), Some(ManagerRequest::QueryAll)));
    let barrier = match sent.next() {
        Some(ManagerRequest::Barrier(b)) => b,
        other => panic!("expected a barrier, got {:?}", other),
    };
    assert!(sent.next().is_none());

    assert!(matches!(
        manager.curr_state,
        State::WaitingBarrierFromUpstream { barrier: b } if b == barrier
    ));
}

#[test]
fn expected_upstream_barrier_flushes_then_sends_downstream_barrier() {
    let mut manager = ModeManagerCore::new();
    let expected = start_transition(&mut manager);
    let mut io_coalescing = IoCoalescing::new();
    // Upstream updates while waiting are coalesced: sixteen updates of one fader leave one.
    for i in 0..16 {
        assert_eq!(manager.on_upstream(None), UpstreamRoute::HandleCoalesced);
        io_coalescing.send_to_v1m(DownstreamMsg::ChannelFader(ChannelFaderMsg {
            idx: 0,
            value: (i as f64 / 16.0).to_bits(),
        }));
    }
    let mut v1m_out: Vec<DownstreamMsg> = Vec::new();
    assert_eq!(
        manager.on_upstream_barrier(expected, &mut io_coalescing, &mut v1m_out),
        UpstreamRoute::FlushThenReflect(expected)
    );

    // The coalesced update, then the barrier.
    let mut it = v1m_out.into_iter();
    match it.next() {
        Some(DownstreamMsg::ChannelFader(m)) => assert_eq!(f64::from_bits(m.value), 15.0 / 16.0),
        other => panic!("expected the coalesced fader update, got {:?}", other),
    }
    match it.next() {
        Some(DownstreamMsg::Barrier(b)) => assert_eq!(b, expected),
        other => panic!("expected DownstreamMsg::Barrier, got {:?}", other),
    }
    assert!(it.next().is_none());
    assert!(matches!(
        manager.curr_state,
        State::WaitingBarrierFromDownstream { barrier: b } if b == expected
    ));
}

#[test]
fn waiting_downstream_ignores_wrong_barrier_and_activates_on_match() {
    let mut manager = ModeManagerCore::new();
    let expected = start_transition(&mut manager);
    manager.on_upstream(Some(expected));

    let mut elsewhere = 1000u64;
    let wrong = Barrier::new(&mut elsewhere);
    assert_ne!(wrong, expected);
    assert_eq!(manager.on_downstream(Some(wrong)), DownstreamRoute::Discard);
    assert!(matches!(
        manager.curr_state,
        State::WaitingBarrierFromDownstream { barrier: b } if b == expected
    ));

    manager.on_downstream(Some(expected));
    assert!(matches!(manager.curr_state, State::Active));
}

#[test]
fn waiting_downstream_does_not_process_upstream_messages() {
    let mut manager = ModeManagerCore::new();
    let expected = start_transition(&mut manager);
    assert!(manager.listens_upstream());
    manager.on_upstream(Some(expected));
    // Frozen: only downstream is read until the barrier comes back.
    assert!(!manager.listens_upstream());
    assert!(manager.listens_downstream());
}

#[test]
fn second_transition_after_returning_active_works_and_uses_new_barrier() {
    let mut manager = ModeManagerCore::new();

    let barrier1 = start_transition(&mut manager);
    manager.on_upstream(Some(barrier1));
    assert!(matches!(
        manager.curr_state,
        State::WaitingBarrierFromDownstream { barrier: b } if b == barrier1
    ));
    manager.on_downstream(Some(barrier1));
    assert!(matches!(manager.curr_state, State::Active));

    let barrier2 = start_transition(&mut manager);
    assert_ne!(barrier1, barrier2, "expected unique barrier per transition");
    assert!(matches!(
        manager.curr_state,
        State::WaitingBarrierFromUpstream { barrier: b } if b == barrier2
    ));
    manager.on_upstream(Some(barrier2));
    assert!(matches!(
        manager.curr_state,
        State::WaitingBarrierFromDownstream { barrier: b } if b == barrier2
    ));
    manager.on_downstream(Some(barrier2));
    assert!(matches!(manager.curr_state, State::Active));
}

#[test]
fn barriers_follow_their_counter_and_wrap_at_the_end() {
    let mut counter = u64::MAX - 1;
    let a = Barrier::new(&mut counter);
    assert_eq!(counter, u64::MAX);
    let b = Barrier::new(&mut counter);
    assert_eq!(counter, 0);
    assert_ne!(a, b);
    let mut again = u64::MAX - 1;
    assert_eq!(Barrier::new(&mut again), a);
}

#[test]
fn unexpected_upstream_barrier_is_forwarded_and_flushes_nothing() {
    let mut manager = ModeManagerCore::new();
    let expected = start_transition(&mut manager);
    let mut io_coalescing = IoCoalescing::new();
    io_coalescing.send_to_v1m(DownstreamMsg::ChannelFader(ChannelFaderMsg { idx: 1, value: 0 }));
    let mut elsewhere = 77u64;
    let other = Barrier::new(&mut elsewhere);
    let mut v1m_out: Vec<DownstreamMsg> = Vec::new();
    assert_eq!(
        manager.on_upstream_barrier(other, &mut io_coalescing, &mut v1m_out),
        UpstreamRoute::ForwardBarrier(other)
    );
    assert!(matches!(v1m_out.as_slice(), [DownstreamMsg::Barrier(b)] if *b == other));
    let mut rest: Vec<DownstreamMsg> = Vec::new();
    io_coalescing.flush_into(&mut rest);
    assert!(matches!(rest.as_slice(), [DownstreamMsg::ChannelFader(m)] if m.idx == 1));
    assert!(matches!(
        manager.curr_state,
        State::WaitingBarrierFromUpstream { barrier: b } if b == expected
    ));
}
