use arpad_rust::modes::timer_scheduler::{SchedulerCmd, TimerKey, TimerTable};

#[test]
fn latest_schedule_of_a_key_wins() {
    let mut t = TimerTable::new();
    assert!(t.apply(SchedulerCmd::Schedule { key: TimerKey { encoder_idx: 3 }, delay_ms: 500, msg: "first" }, 1000));
    assert!(t.apply(SchedulerCmd::Schedule { key: TimerKey { encoder_idx: 3 }, delay_ms: 800, msg: "second" }, 1100));
    // Not due before 1900.
    assert!(t.take_due(1899).is_empty());
    assert_eq!(t.take_due(1900), vec!["second"]);
    // Sent once only.
    assert!(t.take_due(5000).is_empty());
}

#[test]
fn timers_of_different_keys_are_independent() {
    let mut t = TimerTable::new();
    t.apply(SchedulerCmd::Schedule { key: TimerKey { encoder_idx: 1 }, delay_ms: 10, msg: 1 }, 0);
    t.apply(SchedulerCmd::Schedule { key: TimerKey { encoder_idx: 2 }, delay_ms: 20, msg: 2 }, 0);
    t.apply(SchedulerCmd::Schedule { key: TimerKey { encoder_idx: 3 }, delay_ms: 30, msg: 3 }, 0);
    t.apply(SchedulerCmd::Cancel { key: TimerKey { encoder_idx: 2 } }, 0);
    assert_eq!(t.take_due(25), vec![1]);
    assert_eq!(t.take_due(30), vec![3]);
}

#[test]
fn clear_all_and_shutdown() {
    let mut t = TimerTable::new();
    t.apply(SchedulerCmd::Schedule { key: TimerKey { encoder_idx: 0 }, delay_ms: 0, msg: 'a' }, 7);
    assert!(t.apply(SchedulerCmd::ClearAll, 7));
    assert!(t.take_due(100).is_empty());
    assert!(!t.apply(SchedulerCmd::Shutdown, 8));
}
