# arpad_rust

A bridge between hardware control surfaces (iCON V1-M, Behringer X-Touch) and the
Reaper DAW. The library in `src/` is written in Verus: its functions carry contracts and are
proved against them. The few that call outside crates (the MIDI short-message factory
and reader of `helgoboss-midi`, and `midi-msg`'s parser) are trusted wrappers whose
contracts are taken as given; each says in its doc comment what it claims.

## Layout

- `src/midi/`: MIDI short messages (`base`), the scribble-strip text compaction
  (`compact`, `text`), the two surfaces (`v1m`, `xtouch`: what their input bytes mean
  and what bytes show a message), and per-mode tables of note and controller callbacks.
- `src/modes/`: the mode manager and its barrier protocol, the coalescing output buffer,
  the sends mode, the faders-and-buttons core, the X-Touch and V1-M volume-and-pan
  modes, the
  channel strip (widgets and their layers, plugin router and registry, plugin adapters,
  scribble-strip ticks), the parameters of each supported plugin, the timer scheduler
  and the surface reset. `track_data` models what the DAW reports of its tracks.
- `src/connection.rs`: the heartbeat watchdog's state.
- `src/table.rs`: small key-value tables read as maps.
- `app/`: the program around the library: MIDI ports, OSC, threads, the loops that
  perform what the modes decide, and the floating-point conversions (fader positions,
  pans, meter levels, plugin parameter values).
- `tests/`: tests of the library.
