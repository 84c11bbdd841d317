//! MIDI short messages: the three bytes that address a control of a device, built and
//! read with `helgoboss_midi`.
use vstd::prelude::*;

use helgoboss_midi::{
    Channel, ControllerNumber, KeyNumber, RawShortMessage, ShortMessage as _,
    ShortMessageFactory, StructuredShortMessage, U14, U7,
};

verus! {

/// A channel message as it was read: the status nibble's kind, then the channel, then
/// the data. `PitchBend` carries the 14-bit value.
#[derive(Clone, Copy, Debug, PartialEq, Eq, Structural)]
pub enum ShortMessage {
    NoteOff(u8, u8, u8),
    NoteOn(u8, u8, u8),
    ControlChange(u8, u8, u8),
    PitchBend(u8, u16),
    Other,
}

/// The three bytes of a channel message of kind `kind` (the high nibble of its status
/// byte, shifted) on channel `channel`.
pub open spec fn channel_bytes(kind: u8, channel: u8, d1: u8, d2: u8) -> Seq<u8> {
    seq![(kind + channel) as u8, d1, d2]
}

/// How a short message reads: `None` for a status byte below 0x80, which no message has.
pub open spec fn read_short_message(status: u8, d1: u8, d2: u8) -> Option<ShortMessage> {
    if status < 0x80 {
        None
    } else {
        let kind = status / 16;
        let channel = (status % 16) as u8;
        Some(
            if kind == 8 {
                ShortMessage::NoteOff(channel, d1, d2)
            } else if kind == 9 {
                ShortMessage::NoteOn(channel, d1, d2)
            } else if kind == 11 {
                ShortMessage::ControlChange(channel, d1, d2)
            } else if kind == 14 {
                ShortMessage::PitchBend(channel, (d1 + d2 * 128) as u16)
            } else {
                ShortMessage::Other
            },
        )
    }
}

/// Builds a Note On with `helgoboss_midi` (`ShortMessageFactory::note_on`, then
/// `to_bytes`): status 0x90 plus the channel, the key, the velocity. The crate panics on a
/// channel above 15 or a key or velocity above 127.
#[verifier::external_body]
fn helgoboss_note_on(channel: u8, key: u8, velocity: u8) -> (r: [u8; 3])
    requires
        channel < 16,
        key < 128,
        velocity < 128,
    ensures
        r@ == channel_bytes(0x90, channel, key, velocity),
{
    let m = RawShortMessage::note_on(Channel::new(channel), KeyNumber::new(key), U7::new(velocity));
    let b = m.to_bytes();
    [b.0, b.1.get(), b.2.get()]
}

/// Builds a Note Off with `helgoboss_midi` (`ShortMessageFactory::note_off`, then
/// `to_bytes`): status 0x80 plus the channel, the key, the velocity.
#[verifier::external_body]
fn helgoboss_note_off(channel: u8, key: u8, velocity: u8) -> (r: [u8; 3])
    requires
        channel < 16,
        key < 128,
        velocity < 128,
    ensures
        r@ == channel_bytes(0x80, channel, key, velocity),
{
    let m = RawShortMessage::note_off(Channel::new(channel), KeyNumber::new(key), U7::new(velocity));
    let b = m.to_bytes();
    [b.0, b.1.get(), b.2.get()]
}

/// Builds a Control Change with `helgoboss_midi` (`ShortMessageFactory::control_change`,
/// then `to_bytes`): status 0xB0 plus the channel, the controller, the value.
#[verifier::external_body]
fn helgoboss_control_change(channel: u8, controller: u8, value: u8) -> (r: [u8; 3])
    requires
        channel < 16,
        controller < 128,
        value < 128,
    ensures
        r@ == channel_bytes(0xB0, channel, controller, value),
{
    let m = RawShortMessage::control_change(
        Channel::new(channel),
        ControllerNumber::new(controller),
        U7::new(value),
    );
    let b = m.to_bytes();
    [b.0, b.1.get(), b.2.get()]
}

/// Builds a Channel Pressure with `helgoboss_midi` (`ShortMessageFactory::channel_pressure`,
/// then `to_bytes`): status 0xD0 plus the channel, the amount, and 0.
#[verifier::external_body]
fn helgoboss_channel_pressure(channel: u8, amount: u8) -> (r: [u8; 3])
    requires
        channel < 16,
        amount < 128,
    ensures
        r@ == channel_bytes(0xD0, channel, amount, 0),
{
    let m = RawShortMessage::channel_pressure(Channel::new(channel), U7::new(amount));
    let b = m.to_bytes();
    [b.0, b.1.get(), b.2.get()]
}

/// Builds a Pitch Bend Change with `helgoboss_midi`
/// (`ShortMessageFactory::pitch_bend_change`, then `to_bytes`): status 0xE0 plus the
/// channel, the low seven bits of the value, the high seven bits.
#[verifier::external_body]
fn helgoboss_pitch_bend(channel: u8, value: u16) -> (r: [u8; 3])
    requires
        channel < 16,
        value < 16384,
    ensures
        r@ == channel_bytes(0xE0, channel, (value % 128) as u8, (value / 128) as u8),
{
    let m = RawShortMessage::pitch_bend_change(Channel::new(channel), U14::new(value));
    let b = m.to_bytes();
    [b.0, b.1.get(), b.2.get()]
}

/// Reads three bytes with `helgoboss_midi` (`RawShortMessage::from_bytes`, then
/// `to_structured`), keeping the kinds this library reacts to. The crate refuses a status
/// byte below 0x80 (`Err`, here `None`); its `U7::new` panics on a data byte above 127.
#[verifier::external_body]
fn helgoboss_read(status: u8, d1: u8, d2: u8) -> (r: Option<ShortMessage>)
    requires
        d1 < 128,
        d2 < 128,
    ensures
        r == read_short_message(status, d1, d2),
{
    let m = RawShortMessage::from_bytes((status, U7::new(d1), U7::new(d2))).ok()?;
    Some(match m.to_structured() {
        StructuredShortMessage::NoteOff { channel: c, key_number: k, velocity: v } => ShortMessage::NoteOff(c.get(), k.get(), v.get()),
        StructuredShortMessage::NoteOn { channel: c, key_number: k, velocity: v } => ShortMessage::NoteOn(c.get(), k.get(), v.get()),
        StructuredShortMessage::ControlChange { channel: c, controller_number: n, control_value: v } => ShortMessage::ControlChange(c.get(), n.get(), v.get()),
        StructuredShortMessage::PitchBendChange { channel: c, pitch_bend_value: v } => ShortMessage::PitchBend(c.get(), v.get()),
        _ => ShortMessage::Other,
    })
}

/// Reads the three bytes of an incoming MIDI message.
pub fn read_message(status: u8, d1: u8, d2: u8) -> (r: Option<ShortMessage>)
    requires
        d1 < 128,
        d2 < 128,
    ensures
        r == read_short_message(status, d1, d2),
{
    helgoboss_read(status, d1, d2)
}

#[derive(Debug, Clone, Copy, PartialEq, Eq, Hash, Structural)]
pub struct NoteOn {
    pub channel: u8,
    pub key_number: u8,
}

impl NoteOn {
    /// The Note On that sets this control to `value`.
    pub fn message(&self, value: u8) -> (r: [u8; 3])
        requires
            self.channel < 16,
            self.key_number < 128,
            value < 128,
        ensures
            r@ == channel_bytes(0x90, self.channel, self.key_number, value),
    {
        helgoboss_note_on(self.channel, self.key_number, value)
    }
}

#[derive(Debug, Clone, Copy, PartialEq, Eq, Hash, Structural)]
pub struct NoteOff {
    pub channel: u8,
    pub key_number: u8,
}

impl NoteOff {
    /// The Note Off that sets this control to `value`.
    pub fn message(&self, value: u8) -> (r: [u8; 3])
        requires
            self.channel < 16,
            self.key_number < 128,
            value < 128,
        ensures
            r@ == channel_bytes(0x80, self.channel, self.key_number, value),
    {
        helgoboss_note_off(self.channel, self.key_number, value)
    }
}

#[derive(Debug, Clone, Copy, PartialEq, Eq, Hash, Structural)]
pub struct ControlChange {
    pub channel: u8,
    pub controller_number: u8,
}

impl ControlChange {
    /// The Control Change that sets this control to `value`.
    pub fn message(&self, value: u8) -> (r: [u8; 3])
        requires
            self.channel < 16,
            self.controller_number < 128,
            value < 128,
        ensures
            r@ == channel_bytes(0xB0, self.channel, self.controller_number, value),
    {
        helgoboss_control_change(self.channel, self.controller_number, value)
    }
}

#[derive(Debug, Clone, Copy, PartialEq, Eq, Hash, Structural)]
pub struct ChannelPressure {
    pub channel: u8,
}

impl ChannelPressure {
    /// The Channel Pressure that sets this control to `value`.
    pub fn message(&self, value: u8) -> (r: [u8; 3])
        requires
            self.channel < 16,
            value < 128,
        ensures
            r@ == channel_bytes(0xD0, self.channel, value, 0),
    {
        helgoboss_channel_pressure(self.channel, value)
    }
}

#[derive(Debug, Clone, Copy, PartialEq, Eq, Hash, Structural)]
pub struct PitchBend {
    pub channel: u8,
}

impl PitchBend {
    /// The Pitch Bend Change that sets this control to the 14-bit `value`.
    pub fn message(&self, value: u16) -> (r: [u8; 3])
        requires
            self.channel < 16,
            value < 16384,
        ensures
            r@ == channel_bytes(0xE0, self.channel, (value % 128) as u8, (value / 128) as u8),
    {
        helgoboss_pitch_bend(self.channel, value)
    }
}

} // verus!
