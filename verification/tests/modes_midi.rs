use arpad_rust::midi::{Mode, ModeManager};

type NoteCb = Box<dyn Fn(u8, u8) -> Result<(), String>>;
type CcCb = Box<dyn Fn(u8) -> Result<(), String>>;

fn note_ok(note: u8, velocity: u8) -> Result<(), String> {
    if velocity == 0 { Err(format!("note {} off", note)) } else { Ok(()) }
}

fn cc_even(value: u8) -> Result<(), String> {
    if value % 2 == 0 { Ok(()) } else { Err("odd".to_string()) }
}

#[test]
fn mode_calls_bound_callbacks() {
    let mut m: Mode<NoteCb, CcCb> = Mode::new();
    assert_eq!(m.call_note(0, 60, 100), Err("Not implemented".to_string()));
    m.bind_note(0, Box::new(note_ok));
    assert_eq!(m.call_note(0, 60, 100), Ok(()));
    assert_eq!(m.call_note(0, 60, 0), Err("note 60 off".to_string()));
    assert_eq!(m.call_note(1, 60, 100), Err("Not implemented".to_string()));
    // A channel's first controller gets the channel its own table.
    m.bind_cc(3, 7, Box::new(cc_even));
    assert_eq!(m.call_cc(3, 7, 4), Ok(()));
    assert_eq!(m.call_cc(3, 7, 5), Err("odd".to_string()));
    assert_eq!(m.call_cc(3, 8, 4), Err("Not implemented".to_string()));
    // Nothing is bound on the channel named like the controller.
    assert_eq!(m.call_cc(7, 7, 4), Err("Not implemented".to_string()));
    m.bind_cc(3, 3, Box::new(cc_even));
    assert_eq!(m.call_cc(3, 3, 2), Ok(()));
    assert_eq!(m.call_cc(3, 7, 2), Ok(()));
}

#[test]
fn mode_manager_runs_midi_bytes() {
    let mut mm: ModeManager<NoteCb, CcCb> = ModeManager::new();
    mm.bind_note(0, 0, Box::new(note_ok));
    mm.bind_cc(1, 2, 5, Box::new(cc_even));
    // Note On, channel 1 (numbered 0), through midi_msg.
    assert_eq!(mm.try_run(0, &[0x90, 60, 100]), Some(Ok(())));
    assert_eq!(mm.call_cc(1, 2, 5, 3), Err("odd".to_string()));
    assert_eq!(mm.try_run(1, &[0xB2, 5, 6]), Some(Ok(())));
    // A program change is no message the tables handle.
    assert_eq!(mm.try_run(0, &[0xC0, 5]), None);
    // Incomplete bytes do not parse.
    assert_eq!(mm.try_run(0, &[0x90]), None);
}
