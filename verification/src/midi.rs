//! Live MIDI messages as plain values.
//!
//! A message holds what a status byte and its data bytes say, already taken
//! apart: channels, keys and values as integers. Turning bytes into messages
//! and back is left to the MIDI codec of the caller.

use vstd::prelude::*;

verus! {

/// Raw value of a pitch bend that bends nothing.
pub const BEND_CENTER: u16 = 0x2000;

/// Largest raw value of a pitch bend.
pub const BEND_MAX: u16 = 0x3FFF;

/// Which piece of the time code a quarter-frame message carries.
#[derive(Clone, Copy, Debug, PartialEq, Eq, Structural)]
pub enum MtcQuarterFrameMessage {
    FramesLow,
    FramesHigh,
    SecondsLow,
    SecondsHigh,
    MinutesLow,
    MinutesHigh,
    HoursLow,
    HoursHigh,
}

/// A channel message.
#[derive(Clone, Copy, Debug, PartialEq, Eq, Structural)]
pub enum MidiMessage {
    NoteOff { key: u8, vel: u8 },
    NoteOn { key: u8, vel: u8 },
    Aftertouch { key: u8, vel: u8 },
    Controller { controller: u8, value: u8 },
    ProgramChange { program: u8 },
    ChannelAftertouch { vel: u8 },
    /// The bend as its raw value, `BEND_CENTER` meaning no bend.
    PitchBend { bend: u16 },
}

/// A system common message.
#[derive(Clone, Debug, PartialEq, Eq)]
pub enum SystemCommon {
    SysEx(Vec<u8>),
    MidiTimeCodeQuarterFrame(MtcQuarterFrameMessage, u8),
    SongPosition(u16),
    SongSelect(u8),
    TuneRequest,
    Undefined(u8, Vec<u8>),
}

/// A system realtime message.
#[derive(Clone, Copy, Debug, PartialEq, Eq, Structural)]
pub enum SystemRealtime {
    TimingClock,
    Start,
    Continue,
    Stop,
    ActiveSensing,
    Reset,
    Undefined(u8),
}

/// A message of a live MIDI connection.
#[derive(Clone, Debug, PartialEq, Eq)]
pub enum LiveEvent {
    Midi { channel: u8, message: MidiMessage },
    Common(SystemCommon),
    Realtime(SystemRealtime),
}

/// The signed bend that a raw value stands for.
pub open spec fn bend_value(raw: u16) -> int {
    raw as int - BEND_CENTER as int
}

/// The raw value of a signed bend, which is first brought into the range
/// of bends.
pub open spec fn bend_raw(value: i16) -> u16 {
    if value < -0x2000 {
        0u16
    } else if value > 0x1FFF {
        BEND_MAX
    } else {
        (value as int + BEND_CENTER as int) as u16
    }
}

/// The signed bend that a raw value stands for.
pub fn bend_as_int(raw: u16) -> (value: i32)
    ensures
        value as int == bend_value(raw),
{
    let wide: i32 = raw as i32;
    wide - 0x2000
}

/// The raw value of a signed bend, which is first brought into the range
/// of bends.
pub fn bend_from_int(value: i16) -> (raw: u16)
    ensures
        raw == bend_raw(value),
        raw <= BEND_MAX,
{
    if value < -0x2000 {
        0
    } else if value > 0x1FFF {
        BEND_MAX
    } else {
        let wide: i32 = value as i32;
        (wide + 0x2000) as u16
    }
}

/// A raw bend within the range of bends is the raw value of the signed bend
/// it stands for.
pub proof fn lemma_bend_round_trip(raw: u16)
    requires
        raw <= BEND_MAX,
    ensures
        -0x2000 <= bend_value(raw) <= 0x1FFF,
        bend_raw(bend_value(raw) as i16) == raw,
{
}

} // verus!
