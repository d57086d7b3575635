//! Triggers: controls that fire on one kind of MIDI message.
//!
//! A trigger either wants one exact message or every message of a kind whose
//! value lies on one side of a threshold. Its hash keys say under which
//! message it is to be filed so that a lookup by an incoming message, and by
//! that message with its value blanked, finds every trigger it fires.

use vstd::prelude::*;
use crate::controls::Control;
use crate::midi::{
    bend_as_int, bend_from_int, bend_raw, bend_value, LiveEvent, MidiMessage,
    MtcQuarterFrameMessage, SystemCommon, SystemRealtime, BEND_CENTER, BEND_MAX,
};

verus! {

/// How the value of a message is held against the value a trigger wants.
#[derive(Clone, Copy, Debug, PartialEq, Eq, Structural)]
pub enum ValueMatchType {
    Exact,
    ThresholdOrAbove,
    ThresholdOrBelow,
}

impl ValueMatchType {
    /// Whether an observed value satisfies a wanted one.
    pub open spec fn accepts(self, observed: int, wanted: int) -> bool {
        match self {
            ValueMatchType::Exact => observed == wanted,
            ValueMatchType::ThresholdOrAbove => observed >= wanted,
            ValueMatchType::ThresholdOrBelow => observed <= wanted,
        }
    }

    /// Whether a whole side of the wanted value satisfies it.
    pub open spec fn is_threshold(self) -> bool {
        self != ValueMatchType::Exact
    }

    /// Whether an observed value satisfies a wanted one.
    pub fn matches(self, observed: i32, wanted: i32) -> (accepted: bool)
        ensures
            accepted == self.accepts(observed as int, wanted as int),
    {
        match self {
            ValueMatchType::Exact => observed == wanted,
            ValueMatchType::ThresholdOrAbove => observed >= wanted,
            ValueMatchType::ThresholdOrBelow => observed <= wanted,
        }
    }

    /// Whether a whole side of the wanted value satisfies it.
    pub fn threshold(self) -> (is: bool)
        ensures
            is == self.is_threshold(),
    {
        match self {
            ValueMatchType::Exact => false,
            _ => true,
        }
    }
}

/// Something that a MIDI message can fire.
pub trait Trigger {
    /// Whether `event` fires this trigger.
    spec fn triggered_by(&self, event: LiveEvent) -> bool;

    /// Whether `event` fires this trigger.
    fn is_triggered_by(&self, event: &LiveEvent) -> (fired: bool)
        ensures
            fired == self.triggered_by(*event),
    ;
}


/// Fires on a note-on of one key of one channel.
#[derive(Clone, Copy, Debug)]
pub struct TriggerNoteOn {
    pub channel: u8,
    pub note: u8,
    pub velocity: u8,
    pub match_type: ValueMatchType,
}

impl TriggerNoteOn {
    /// The note-on of this trigger's key and channel with the given velocity.
    pub open spec fn message_with(&self, value: u8) -> LiveEvent {
        LiveEvent::Midi {
            channel: self.channel,
            message: MidiMessage::NoteOn { key: self.note, vel: value },
        }
    }

    fn event_with(&self, value: u8) -> (event: LiveEvent)
        ensures
            event == self.message_with(value),
    {
        LiveEvent::Midi {
            channel: self.channel,
            message: MidiMessage::NoteOn { key: self.note, vel: value },
        }
    }
}

impl Trigger for TriggerNoteOn {
    open spec fn triggered_by(&self, event: LiveEvent) -> bool {
        match event {
            LiveEvent::Midi { channel, message: MidiMessage::NoteOn { key, vel } } => {
                &&& self.channel == channel
                &&& self.note == key
                &&& self.match_type.accepts(vel as int, self.velocity as int)
            },
            _ => false,
        }
    }

    fn is_triggered_by(&self, event: &LiveEvent) -> (fired: bool) {
        match event {
            LiveEvent::Midi { channel, message: MidiMessage::NoteOn { key, vel } } => {
                self.channel == *channel
                    && self.note == *key
                    && self.match_type.matches(*vel as i32, self.velocity as i32)
            },
            _ => false,
        }
    }
}

impl Control for TriggerNoteOn {
    open spec fn handles(&self, event: LiveEvent) -> bool {
        self.triggered_by(event)
    }

    open spec fn threshold_key(&self) -> Option<LiveEvent> {
        if self.match_type.is_threshold() {
            Some(self.message_with(0))
        } else {
            None
        }
    }

    open spec fn exact_key(&self) -> Option<LiveEvent> {
        if self.match_type == ValueMatchType::Exact {
            Some(self.message_with(self.velocity))
        } else {
            None
        }
    }

    fn handle_midi_event_inner(&self, event: &LiveEvent) -> (fired: bool) {
        self.is_triggered_by(event)
    }

    fn threshold_hash_key_inner(&self) -> (key: Option<LiveEvent>) {
        if self.match_type.threshold() {
            Some(self.event_with(0))
        } else {
            None
        }
    }

    fn exact_hash_key_inner(&self) -> (key: Option<LiveEvent>) {
        if self.match_type.threshold() {
            None
        } else {
            Some(self.event_with(self.velocity))
        }
    }
}

/// Fires on a note-off of one key of one channel.
#[derive(Clone, Copy, Debug)]
pub struct TriggerNoteOff {
    pub channel: u8,
    pub note: u8,
    pub velocity: u8,
    pub match_type: ValueMatchType,
}

impl TriggerNoteOff {
    /// The note-off of this trigger's key and channel with the given velocity.
    pub open spec fn message_with(&self, value: u8) -> LiveEvent {
        LiveEvent::Midi {
            channel: self.channel,
            message: MidiMessage::NoteOff { key: self.note, vel: value },
        }
    }

    fn event_with(&self, value: u8) -> (event: LiveEvent)
        ensures
            event == self.message_with(value),
    {
        LiveEvent::Midi {
            channel: self.channel,
            message: MidiMessage::NoteOff { key: self.note, vel: value },
        }
    }
}

impl Trigger for TriggerNoteOff {
    open spec fn triggered_by(&self, event: LiveEvent) -> bool {
        match event {
            LiveEvent::Midi { channel, message: MidiMessage::NoteOff { key, vel } } => {
                &&& self.channel == channel
                &&& self.note == key
                &&& self.match_type.accepts(vel as int, self.velocity as int)
            },
            _ => false,
        }
    }

    fn is_triggered_by(&self, event: &LiveEvent) -> (fired: bool) {
        match event {
            LiveEvent::Midi { channel, message: MidiMessage::NoteOff { key, vel } } => {
                self.channel == *channel
                    && self.note == *key
                    && self.match_type.matches(*vel as i32, self.velocity as i32)
            },
            _ => false,
        }
    }
}

impl Control for TriggerNoteOff {
    open spec fn handles(&self, event: LiveEvent) -> bool {
        self.triggered_by(event)
    }

    open spec fn threshold_key(&self) -> Option<LiveEvent> {
        if self.match_type.is_threshold() {
            Some(self.message_with(0))
        } else {
            None
        }
    }

    open spec fn exact_key(&self) -> Option<LiveEvent> {
        if self.match_type == ValueMatchType::Exact {
            Some(self.message_with(self.velocity))
        } else {
            None
        }
    }

    fn handle_midi_event_inner(&self, event: &LiveEvent) -> (fired: bool) {
        self.is_triggered_by(event)
    }

    fn threshold_hash_key_inner(&self) -> (key: Option<LiveEvent>) {
        if self.match_type.threshold() {
            Some(self.event_with(0))
        } else {
            None
        }
    }

    fn exact_hash_key_inner(&self) -> (key: Option<LiveEvent>) {
        if self.match_type.threshold() {
            None
        } else {
            Some(self.event_with(self.velocity))
        }
    }
}

/// Fires on the aftertouch of one key of one channel.
#[derive(Clone, Copy, Debug)]
pub struct TriggerAftertouch {
    pub channel: u8,
    pub note: u8,
    pub pressure: u8,
    pub match_type: ValueMatchType,
}

impl TriggerAftertouch {
    /// The aftertouch of this trigger's key and channel with the given pressure.
    pub open spec fn message_with(&self, value: u8) -> LiveEvent {
        LiveEvent::Midi {
            channel: self.channel,
            message: MidiMessage::Aftertouch { key: self.note, vel: value },
        }
    }

    fn event_with(&self, value: u8) -> (event: LiveEvent)
        ensures
            event == self.message_with(value),
    {
        LiveEvent::Midi {
            channel: self.channel,
            message: MidiMessage::Aftertouch { key: self.note, vel: value },
        }
    }
}

impl Trigger for TriggerAftertouch {
    open spec fn triggered_by(&self, event: LiveEvent) -> bool {
        match event {
            LiveEvent::Midi { channel, message: MidiMessage::Aftertouch { key, vel } } => {
                &&& self.channel == channel
                &&& self.note == key
                &&& self.match_type.accepts(vel as int, self.pressure as int)
            },
            _ => false,
        }
    }

    fn is_triggered_by(&self, event: &LiveEvent) -> (fired: bool) {
        match event {
            LiveEvent::Midi { channel, message: MidiMessage::Aftertouch { key, vel } } => {
                self.channel == *channel
                    && self.note == *key
                    && self.match_type.matches(*vel as i32, self.pressure as i32)
            },
            _ => false,
        }
    }
}

impl Control for TriggerAftertouch {
    open spec fn handles(&self, event: LiveEvent) -> bool {
        self.triggered_by(event)
    }

    open spec fn threshold_key(&self) -> Option<LiveEvent> {
        if self.match_type.is_threshold() {
            Some(self.message_with(0))
        } else {
            None
        }
    }

    open spec fn exact_key(&self) -> Option<LiveEvent> {
        if self.match_type == ValueMatchType::Exact {
            Some(self.message_with(self.pressure))
        } else {
            None
        }
    }

    fn handle_midi_event_inner(&self, event: &LiveEvent) -> (fired: bool) {
        self.is_triggered_by(event)
    }

    fn threshold_hash_key_inner(&self) -> (key: Option<LiveEvent>) {
        if self.match_type.threshold() {
            Some(self.event_with(0))
        } else {
            None
        }
    }

    fn exact_hash_key_inner(&self) -> (key: Option<LiveEvent>) {
        if self.match_type.threshold() {
            None
        } else {
            Some(self.event_with(self.pressure))
        }
    }
}

/// Fires on a change of one controller of one channel.
#[derive(Clone, Copy, Debug)]
pub struct TriggerController {
    pub channel: u8,
    pub controller: u8,
    pub value: u8,
    pub match_type: ValueMatchType,
}

impl TriggerController {
    /// The change of this trigger's controller and channel to the given value.
    pub open spec fn message_with(&self, value: u8) -> LiveEvent {
        LiveEvent::Midi {
            channel: self.channel,
            message: MidiMessage::Controller { controller: self.controller, value },
        }
    }

    fn event_with(&self, value: u8) -> (event: LiveEvent)
        ensures
            event == self.message_with(value),
    {
        LiveEvent::Midi {
            channel: self.channel,
            message: MidiMessage::Controller { controller: self.controller, value },
        }
    }
}

impl Trigger for TriggerController {
    open spec fn triggered_by(&self, event: LiveEvent) -> bool {
        match event {
            LiveEvent::Midi { channel, message: MidiMessage::Controller { controller, value } } => {
                &&& self.channel == channel
                &&& self.controller == controller
                &&& self.match_type.accepts(value as int, self.value as int)
            },
            _ => false,
        }
    }

    fn is_triggered_by(&self, event: &LiveEvent) -> (fired: bool) {
        match event {
            LiveEvent::Midi { channel, message: MidiMessage::Controller { controller, value } } => {
                self.channel == *channel
                    && self.controller == *controller
                    && self.match_type.matches(*value as i32, self.value as i32)
            },
            _ => false,
        }
    }
}

impl Control for TriggerController {
    open spec fn handles(&self, event: LiveEvent) -> bool {
        self.triggered_by(event)
    }

    open spec fn threshold_key(&self) -> Option<LiveEvent> {
        if self.match_type.is_threshold() {
            Some(self.message_with(0))
        } else {
            None
        }
    }

    open spec fn exact_key(&self) -> Option<LiveEvent> {
        if self.match_type == ValueMatchType::Exact {
            Some(self.message_with(self.value))
        } else {
            None
        }
    }

    fn handle_midi_event_inner(&self, event: &LiveEvent) -> (fired: bool) {
        self.is_triggered_by(event)
    }

    fn threshold_hash_key_inner(&self) -> (key: Option<LiveEvent>) {
        if self.match_type.threshold() {
            Some(self.event_with(0))
        } else {
            None
        }
    }

    fn exact_hash_key_inner(&self) -> (key: Option<LiveEvent>) {
        if self.match_type.threshold() {
            None
        } else {
            Some(self.event_with(self.value))
        }
    }
}

/// Fires on a program change of one channel.
#[derive(Clone, Copy, Debug)]
pub struct TriggerProgramChange {
    pub channel: u8,
    pub program: u8,
    pub match_type: ValueMatchType,
}

impl TriggerProgramChange {
    /// The change of this trigger's channel to the given program.
    pub open spec fn message_with(&self, value: u8) -> LiveEvent {
        LiveEvent::Midi {
            channel: self.channel,
            message: MidiMessage::ProgramChange { program: value },
        }
    }

    fn event_with(&self, value: u8) -> (event: LiveEvent)
        ensures
            event == self.message_with(value),
    {
        LiveEvent::Midi {
            channel: self.channel,
            message: MidiMessage::ProgramChange { program: value },
        }
    }
}

impl Trigger for TriggerProgramChange {
    open spec fn triggered_by(&self, event: LiveEvent) -> bool {
        match event {
            LiveEvent::Midi { channel, message: MidiMessage::ProgramChange { program } } => {
                &&& self.channel == channel
                &&& self.match_type.accepts(program as int, self.program as int)
            },
            _ => false,
        }
    }

    fn is_triggered_by(&self, event: &LiveEvent) -> (fired: bool) {
        match event {
            LiveEvent::Midi { channel, message: MidiMessage::ProgramChange { program } } => {
                self.channel == *channel
                    && self.match_type.matches(*program as i32, self.program as i32)
            },
            _ => false,
        }
    }
}

impl Control for TriggerProgramChange {
    open spec fn handles(&self, event: LiveEvent) -> bool {
        self.triggered_by(event)
    }

    open spec fn threshold_key(&self) -> Option<LiveEvent> {
        if self.match_type.is_threshold() {
            Some(self.message_with(0))
        } else {
            None
        }
    }

    open spec fn exact_key(&self) -> Option<LiveEvent> {
        if self.match_type == ValueMatchType::Exact {
            Some(self.message_with(self.program))
        } else {
            None
        }
    }

    fn handle_midi_event_inner(&self, event: &LiveEvent) -> (fired: bool) {
        self.is_triggered_by(event)
    }

    fn threshold_hash_key_inner(&self) -> (key: Option<LiveEvent>) {
        if self.match_type.threshold() {
            Some(self.event_with(0))
        } else {
            None
        }
    }

    fn exact_hash_key_inner(&self) -> (key: Option<LiveEvent>) {
        if self.match_type.threshold() {
            None
        } else {
            Some(self.event_with(self.program))
        }
    }
}

/// Fires on the aftertouch of one channel.
#[derive(Clone, Copy, Debug)]
pub struct TriggerChannelAftertouch {
    pub channel: u8,
    pub pressure: u8,
    pub match_type: ValueMatchType,
}

impl TriggerChannelAftertouch {
    /// The aftertouch of this trigger's channel with the given pressure.
    pub open spec fn message_with(&self, value: u8) -> LiveEvent {
        LiveEvent::Midi {
            channel: self.channel,
            message: MidiMessage::ChannelAftertouch { vel: value },
        }
    }

    fn event_with(&self, value: u8) -> (event: LiveEvent)
        ensures
            event == self.message_with(value),
    {
        LiveEvent::Midi {
            channel: self.channel,
            message: MidiMessage::ChannelAftertouch { vel: value },
        }
    }
}

impl Trigger for TriggerChannelAftertouch {
    open spec fn triggered_by(&self, event: LiveEvent) -> bool {
        match event {
            LiveEvent::Midi { channel, message: MidiMessage::ChannelAftertouch { vel } } => {
                &&& self.channel == channel
                &&& self.match_type.accepts(vel as int, self.pressure as int)
            },
            _ => false,
        }
    }

    fn is_triggered_by(&self, event: &LiveEvent) -> (fired: bool) {
        match event {
            LiveEvent::Midi { channel, message: MidiMessage::ChannelAftertouch { vel } } => {
                self.channel == *channel
                    && self.match_type.matches(*vel as i32, self.pressure as i32)
            },
            _ => false,
        }
    }
}

impl Control for TriggerChannelAftertouch {
    open spec fn handles(&self, event: LiveEvent) -> bool {
        self.triggered_by(event)
    }

    open spec fn threshold_key(&self) -> Option<LiveEvent> {
        if self.match_type.is_threshold() {
            Some(self.message_with(0))
        } else {
            None
        }
    }

    open spec fn exact_key(&self) -> Option<LiveEvent> {
        if self.match_type == ValueMatchType::Exact {
            Some(self.message_with(self.pressure))
        } else {
            None
        }
    }

    fn handle_midi_event_inner(&self, event: &LiveEvent) -> (fired: bool) {
        self.is_triggered_by(event)
    }

    fn threshold_hash_key_inner(&self) -> (key: Option<LiveEvent>) {
        if self.match_type.threshold() {
            Some(self.event_with(0))
        } else {
            None
        }
    }

    fn exact_hash_key_inner(&self) -> (key: Option<LiveEvent>) {
        if self.match_type.threshold() {
            None
        } else {
            Some(self.event_with(self.pressure))
        }
    }
}

/// Fires on a pitch bend of one channel. The wanted bend is signed, zero
/// meaning no bend.
#[derive(Clone, Copy, Debug)]
pub struct TriggerPitchBend {
    pub channel: u8,
    pub value: i16,
    pub match_type: ValueMatchType,
}

impl TriggerPitchBend {
    /// The pitch bend of this trigger's channel with the given raw bend.
    pub open spec fn message_with(&self, value: u16) -> LiveEvent {
        LiveEvent::Midi { channel: self.channel, message: MidiMessage::PitchBend { bend: value } }
    }

    fn event_with(&self, value: u16) -> (event: LiveEvent)
        ensures
            event == self.message_with(value),
    {
        LiveEvent::Midi { channel: self.channel, message: MidiMessage::PitchBend { bend: value } }
    }
}

impl Trigger for TriggerPitchBend {
    open spec fn triggered_by(&self, event: LiveEvent) -> bool {
        match event {
            LiveEvent::Midi { channel, message: MidiMessage::PitchBend { bend } } => {
                &&& self.channel == channel
                &&& self.match_type.accepts(bend_value(bend), self.value as int)
            },
            _ => false,
        }
    }

    fn is_triggered_by(&self, event: &LiveEvent) -> (fired: bool) {
        match event {
            LiveEvent::Midi { channel, message: MidiMessage::PitchBend { bend } } => {
                self.channel == *channel
                    && self.match_type.matches(bend_as_int(*bend), self.value as i32)
            },
            _ => false,
        }
    }
}

impl Control for TriggerPitchBend {
    open spec fn handles(&self, event: LiveEvent) -> bool {
        self.triggered_by(event)
    }

    open spec fn threshold_key(&self) -> Option<LiveEvent> {
        if self.match_type.is_threshold() {
            Some(self.message_with(BEND_CENTER))
        } else {
            None
        }
    }

    open spec fn exact_key(&self) -> Option<LiveEvent> {
        if self.match_type == ValueMatchType::Exact {
            Some(self.message_with(bend_raw(self.value)))
        } else {
            None
        }
    }

    fn handle_midi_event_inner(&self, event: &LiveEvent) -> (fired: bool) {
        self.is_triggered_by(event)
    }

    fn threshold_hash_key_inner(&self) -> (key: Option<LiveEvent>) {
        if self.match_type.threshold() {
            Some(self.event_with(BEND_CENTER))
        } else {
            None
        }
    }

    fn exact_hash_key_inner(&self) -> (key: Option<LiveEvent>) {
        if self.match_type.threshold() {
            None
        } else {
            Some(self.event_with(bend_from_int(self.value)))
        }
    }
}

/// Fires on one kind of time-code quarter frame.
#[derive(Clone, Copy, Debug)]
pub struct TriggerMtcQuarterFrame {
    pub message: MtcQuarterFrameMessage,
    pub value: u8,
    pub match_type: ValueMatchType,
}

impl TriggerMtcQuarterFrame {
    /// The quarter frame of this trigger's kind with the given value.
    pub open spec fn message_with(&self, value: u8) -> LiveEvent {
        LiveEvent::Common(SystemCommon::MidiTimeCodeQuarterFrame(self.message, value))
    }

    fn event_with(&self, value: u8) -> (event: LiveEvent)
        ensures
            event == self.message_with(value),
    {
        LiveEvent::Common(SystemCommon::MidiTimeCodeQuarterFrame(self.message, value))
    }
}

impl Trigger for TriggerMtcQuarterFrame {
    open spec fn triggered_by(&self, event: LiveEvent) -> bool {
        match event {
            LiveEvent::Common(SystemCommon::MidiTimeCodeQuarterFrame(message, value)) => {
                &&& self.message == message
                &&& self.match_type.accepts(value as int, self.value as int)
            },
            _ => false,
        }
    }

    fn is_triggered_by(&self, event: &LiveEvent) -> (fired: bool) {
        match event {
            LiveEvent::Common(SystemCommon::MidiTimeCodeQuarterFrame(message, value)) => {
                self.message == *message
                    && self.match_type.matches(*value as i32, self.value as i32)
            },
            _ => false,
        }
    }
}

impl Control for TriggerMtcQuarterFrame {
    open spec fn handles(&self, event: LiveEvent) -> bool {
        self.triggered_by(event)
    }

    open spec fn threshold_key(&self) -> Option<LiveEvent> {
        if self.match_type.is_threshold() {
            Some(self.message_with(0))
        } else {
            None
        }
    }

    open spec fn exact_key(&self) -> Option<LiveEvent> {
        if self.match_type == ValueMatchType::Exact {
            Some(self.message_with(self.value))
        } else {
            None
        }
    }

    fn handle_midi_event_inner(&self, event: &LiveEvent) -> (fired: bool) {
        self.is_triggered_by(event)
    }

    fn threshold_hash_key_inner(&self) -> (key: Option<LiveEvent>) {
        if self.match_type.threshold() {
            Some(self.event_with(0))
        } else {
            None
        }
    }

    fn exact_hash_key_inner(&self) -> (key: Option<LiveEvent>) {
        if self.match_type.threshold() {
            None
        } else {
            Some(self.event_with(self.value))
        }
    }
}

/// Fires on a song position.
#[derive(Clone, Copy, Debug)]
pub struct TriggerSongPosition {
    pub position: u16,
    pub match_type: ValueMatchType,
}

impl TriggerSongPosition {
    /// The song position message for the given position.
    pub open spec fn message_with(&self, value: u16) -> LiveEvent {
        LiveEvent::Common(SystemCommon::SongPosition(value))
    }

    fn event_with(&self, value: u16) -> (event: LiveEvent)
        ensures
            event == self.message_with(value),
    {
        LiveEvent::Common(SystemCommon::SongPosition(value))
    }
}

impl Trigger for TriggerSongPosition {
    open spec fn triggered_by(&self, event: LiveEvent) -> bool {
        match event {
            LiveEvent::Common(SystemCommon::SongPosition(position)) => {
                &&& self.match_type.accepts(position as int, self.position as int)
            },
            _ => false,
        }
    }

    fn is_triggered_by(&self, event: &LiveEvent) -> (fired: bool) {
        match event {
            LiveEvent::Common(SystemCommon::SongPosition(position)) => {
                self.match_type.matches(*position as i32, self.position as i32)
            },
            _ => false,
        }
    }
}

impl Control for TriggerSongPosition {
    open spec fn handles(&self, event: LiveEvent) -> bool {
        self.triggered_by(event)
    }

    open spec fn threshold_key(&self) -> Option<LiveEvent> {
        if self.match_type.is_threshold() {
            Some(self.message_with(0))
        } else {
            None
        }
    }

    open spec fn exact_key(&self) -> Option<LiveEvent> {
        if self.match_type == ValueMatchType::Exact {
            Some(self.message_with(self.position))
        } else {
            None
        }
    }

    fn handle_midi_event_inner(&self, event: &LiveEvent) -> (fired: bool) {
        self.is_triggered_by(event)
    }

    fn threshold_hash_key_inner(&self) -> (key: Option<LiveEvent>) {
        if self.match_type.threshold() {
            Some(self.event_with(0))
        } else {
            None
        }
    }

    fn exact_hash_key_inner(&self) -> (key: Option<LiveEvent>) {
        if self.match_type.threshold() {
            None
        } else {
            Some(self.event_with(self.position))
        }
    }
}

/// Fires on the selection of a song.
#[derive(Clone, Copy, Debug)]
pub struct TriggerSongSelect {
    pub song: u8,
    pub match_type: ValueMatchType,
}

impl TriggerSongSelect {
    /// The selection of the given song.
    pub open spec fn message_with(&self, value: u8) -> LiveEvent {
        LiveEvent::Common(SystemCommon::SongSelect(value))
    }

    fn event_with(&self, value: u8) -> (event: LiveEvent)
        ensures
            event == self.message_with(value),
    {
        LiveEvent::Common(SystemCommon::SongSelect(value))
    }
}

impl Trigger for TriggerSongSelect {
    open spec fn triggered_by(&self, event: LiveEvent) -> bool {
        match event {
            LiveEvent::Common(SystemCommon::SongSelect(song)) => {
                &&& self.match_type.accepts(song as int, self.song as int)
            },
            _ => false,
        }
    }

    fn is_triggered_by(&self, event: &LiveEvent) -> (fired: bool) {
        match event {
            LiveEvent::Common(SystemCommon::SongSelect(song)) => {
                self.match_type.matches(*song as i32, self.song as i32)
            },
            _ => false,
        }
    }
}

impl Control for TriggerSongSelect {
    open spec fn handles(&self, event: LiveEvent) -> bool {
        self.triggered_by(event)
    }

    open spec fn threshold_key(&self) -> Option<LiveEvent> {
        if self.match_type.is_threshold() {
            Some(self.message_with(0))
        } else {
            None
        }
    }

    open spec fn exact_key(&self) -> Option<LiveEvent> {
        if self.match_type == ValueMatchType::Exact {
            Some(self.message_with(self.song))
        } else {
            None
        }
    }

    fn handle_midi_event_inner(&self, event: &LiveEvent) -> (fired: bool) {
        self.is_triggered_by(event)
    }

    fn threshold_hash_key_inner(&self) -> (key: Option<LiveEvent>) {
        if self.match_type.threshold() {
            Some(self.event_with(0))
        } else {
            None
        }
    }

    fn exact_hash_key_inner(&self) -> (key: Option<LiveEvent>) {
        if self.match_type.threshold() {
            None
        } else {
            Some(self.event_with(self.song))
        }
    }
}

/// Fires on a tune request.
#[derive(Clone, Copy, Debug)]
pub struct TriggerTuneRequest {}

impl Trigger for TriggerTuneRequest {
    open spec fn triggered_by(&self, event: LiveEvent) -> bool {
        event == LiveEvent::Common(SystemCommon::TuneRequest)
    }

    fn is_triggered_by(&self, event: &LiveEvent) -> (fired: bool) {
        match event {
            LiveEvent::Common(SystemCommon::TuneRequest) => true,
            _ => false,
        }
    }
}

impl Control for TriggerTuneRequest {
    open spec fn handles(&self, event: LiveEvent) -> bool {
        self.triggered_by(event)
    }

    open spec fn threshold_key(&self) -> Option<LiveEvent> {
        None
    }

    open spec fn exact_key(&self) -> Option<LiveEvent> {
        Some(LiveEvent::Common(SystemCommon::TuneRequest))
    }

    fn handle_midi_event_inner(&self, event: &LiveEvent) -> (fired: bool) {
        self.is_triggered_by(event)
    }

    fn threshold_hash_key_inner(&self) -> (key: Option<LiveEvent>) {
        None
    }

    fn exact_hash_key_inner(&self) -> (key: Option<LiveEvent>) {
        Some(LiveEvent::Common(SystemCommon::TuneRequest))
    }
}

/// Fires on a timing clock.
#[derive(Clone, Copy, Debug)]
pub struct TriggerTimingClock {}

impl Trigger for TriggerTimingClock {
    open spec fn triggered_by(&self, event: LiveEvent) -> bool {
        event == LiveEvent::Realtime(SystemRealtime::TimingClock)
    }

    fn is_triggered_by(&self, event: &LiveEvent) -> (fired: bool) {
        match event {
            LiveEvent::Realtime(SystemRealtime::TimingClock) => true,
            _ => false,
        }
    }
}

impl Control for TriggerTimingClock {
    open spec fn handles(&self, event: LiveEvent) -> bool {
        self.triggered_by(event)
    }

    open spec fn threshold_key(&self) -> Option<LiveEvent> {
        None
    }

    open spec fn exact_key(&self) -> Option<LiveEvent> {
        Some(LiveEvent::Realtime(SystemRealtime::TimingClock))
    }

    fn handle_midi_event_inner(&self, event: &LiveEvent) -> (fired: bool) {
        self.is_triggered_by(event)
    }

    fn threshold_hash_key_inner(&self) -> (key: Option<LiveEvent>) {
        None
    }

    fn exact_hash_key_inner(&self) -> (key: Option<LiveEvent>) {
        Some(LiveEvent::Realtime(SystemRealtime::TimingClock))
    }
}

/// Fires on a start.
#[derive(Clone, Copy, Debug)]
pub struct TriggerStart {}

impl Trigger for TriggerStart {
    open spec fn triggered_by(&self, event: LiveEvent) -> bool {
        event == LiveEvent::Realtime(SystemRealtime::Start)
    }

    fn is_triggered_by(&self, event: &LiveEvent) -> (fired: bool) {
        match event {
            LiveEvent::Realtime(SystemRealtime::Start) => true,
            _ => false,
        }
    }
}

impl Control for TriggerStart {
    open spec fn handles(&self, event: LiveEvent) -> bool {
        self.triggered_by(event)
    }

    open spec fn threshold_key(&self) -> Option<LiveEvent> {
        None
    }

    open spec fn exact_key(&self) -> Option<LiveEvent> {
        Some(LiveEvent::Realtime(SystemRealtime::Start))
    }

    fn handle_midi_event_inner(&self, event: &LiveEvent) -> (fired: bool) {
        self.is_triggered_by(event)
    }

    fn threshold_hash_key_inner(&self) -> (key: Option<LiveEvent>) {
        None
    }

    fn exact_hash_key_inner(&self) -> (key: Option<LiveEvent>) {
        Some(LiveEvent::Realtime(SystemRealtime::Start))
    }
}

/// Fires on a continue.
#[derive(Clone, Copy, Debug)]
pub struct TriggerContinue {}

impl Trigger for TriggerContinue {
    open spec fn triggered_by(&self, event: LiveEvent) -> bool {
        event == LiveEvent::Realtime(SystemRealtime::Continue)
    }

    fn is_triggered_by(&self, event: &LiveEvent) -> (fired: bool) {
        match event {
            LiveEvent::Realtime(SystemRealtime::Continue) => true,
            _ => false,
        }
    }
}

impl Control for TriggerContinue {
    open spec fn handles(&self, event: LiveEvent) -> bool {
        self.triggered_by(event)
    }

    open spec fn threshold_key(&self) -> Option<LiveEvent> {
        None
    }

    open spec fn exact_key(&self) -> Option<LiveEvent> {
        Some(LiveEvent::Realtime(SystemRealtime::Continue))
    }

    fn handle_midi_event_inner(&self, event: &LiveEvent) -> (fired: bool) {
        self.is_triggered_by(event)
    }

    fn threshold_hash_key_inner(&self) -> (key: Option<LiveEvent>) {
        None
    }

    fn exact_hash_key_inner(&self) -> (key: Option<LiveEvent>) {
        Some(LiveEvent::Realtime(SystemRealtime::Continue))
    }
}

/// Fires on a stop.
#[derive(Clone, Copy, Debug)]
pub struct TriggerStop {}

impl Trigger for TriggerStop {
    open spec fn triggered_by(&self, event: LiveEvent) -> bool {
        event == LiveEvent::Realtime(SystemRealtime::Stop)
    }

    fn is_triggered_by(&self, event: &LiveEvent) -> (fired: bool) {
        match event {
            LiveEvent::Realtime(SystemRealtime::Stop) => true,
            _ => false,
        }
    }
}

impl Control for TriggerStop {
    open spec fn handles(&self, event: LiveEvent) -> bool {
        self.triggered_by(event)
    }

    open spec fn threshold_key(&self) -> Option<LiveEvent> {
        None
    }

    open spec fn exact_key(&self) -> Option<LiveEvent> {
        Some(LiveEvent::Realtime(SystemRealtime::Stop))
    }

    fn handle_midi_event_inner(&self, event: &LiveEvent) -> (fired: bool) {
        self.is_triggered_by(event)
    }

    fn threshold_hash_key_inner(&self) -> (key: Option<LiveEvent>) {
        None
    }

    fn exact_hash_key_inner(&self) -> (key: Option<LiveEvent>) {
        Some(LiveEvent::Realtime(SystemRealtime::Stop))
    }
}

/// Fires on an active sensing.
#[derive(Clone, Copy, Debug)]
pub struct TriggerActiveSensing {}

impl Trigger for TriggerActiveSensing {
    open spec fn triggered_by(&self, event: LiveEvent) -> bool {
        event == LiveEvent::Realtime(SystemRealtime::ActiveSensing)
    }

    fn is_triggered_by(&self, event: &LiveEvent) -> (fired: bool) {
        match event {
            LiveEvent::Realtime(SystemRealtime::ActiveSensing) => true,
            _ => false,
        }
    }
}

impl Control for TriggerActiveSensing {
    open spec fn handles(&self, event: LiveEvent) -> bool {
        self.triggered_by(event)
    }

    open spec fn threshold_key(&self) -> Option<LiveEvent> {
        None
    }

    open spec fn exact_key(&self) -> Option<LiveEvent> {
        Some(LiveEvent::Realtime(SystemRealtime::ActiveSensing))
    }

    fn handle_midi_event_inner(&self, event: &LiveEvent) -> (fired: bool) {
        self.is_triggered_by(event)
    }

    fn threshold_hash_key_inner(&self) -> (key: Option<LiveEvent>) {
        None
    }

    fn exact_hash_key_inner(&self) -> (key: Option<LiveEvent>) {
        Some(LiveEvent::Realtime(SystemRealtime::ActiveSensing))
    }
}

/// Fires on a reset.
#[derive(Clone, Copy, Debug)]
pub struct TriggerReset {}

impl Trigger for TriggerReset {
    open spec fn triggered_by(&self, event: LiveEvent) -> bool {
        event == LiveEvent::Realtime(SystemRealtime::Reset)
    }

    fn is_triggered_by(&self, event: &LiveEvent) -> (fired: bool) {
        match event {
            LiveEvent::Realtime(SystemRealtime::Reset) => true,
            _ => false,
        }
    }
}

impl Control for TriggerReset {
    open spec fn handles(&self, event: LiveEvent) -> bool {
        self.triggered_by(event)
    }

    open spec fn threshold_key(&self) -> Option<LiveEvent> {
        None
    }

    open spec fn exact_key(&self) -> Option<LiveEvent> {
        Some(LiveEvent::Realtime(SystemRealtime::Reset))
    }

    fn handle_midi_event_inner(&self, event: &LiveEvent) -> (fired: bool) {
        self.is_triggered_by(event)
    }

    fn threshold_hash_key_inner(&self) -> (key: Option<LiveEvent>) {
        None
    }

    fn exact_hash_key_inner(&self) -> (key: Option<LiveEvent>) {
        Some(LiveEvent::Realtime(SystemRealtime::Reset))
    }
}

/// Any of the triggers.
#[derive(Clone, Copy, Debug)]
pub enum TriggerMidiMessage {
    // Channel messages
    NoteOn(TriggerNoteOn),
    NoteOff(TriggerNoteOff),
    Aftertouch(TriggerAftertouch),
    Controller(TriggerController),
    ProgramChange(TriggerProgramChange),
    ChannelAftertouch(TriggerChannelAftertouch),
    PitchBend(TriggerPitchBend),
    // System common
    MtcQuarterFrame(TriggerMtcQuarterFrame),
    SongPosition(TriggerSongPosition),
    SongSelect(TriggerSongSelect),
    TuneRequest(TriggerTuneRequest),
    // System realtime
    TimingClock(TriggerTimingClock),
    Start(TriggerStart),
    Continue(TriggerContinue),
    Stop(TriggerStop),
    ActiveSensing(TriggerActiveSensing),
    Reset(TriggerReset),
}

impl Control for TriggerMidiMessage {
    open spec fn handles(&self, event: LiveEvent) -> bool {
        match *self {
            TriggerMidiMessage::NoteOn(t) => t.handles(event),
            TriggerMidiMessage::NoteOff(t) => t.handles(event),
            TriggerMidiMessage::Aftertouch(t) => t.handles(event),
            TriggerMidiMessage::Controller(t) => t.handles(event),
            TriggerMidiMessage::ProgramChange(t) => t.handles(event),
            TriggerMidiMessage::ChannelAftertouch(t) => t.handles(event),
            TriggerMidiMessage::PitchBend(t) => t.handles(event),
            TriggerMidiMessage::MtcQuarterFrame(t) => t.handles(event),
            TriggerMidiMessage::SongPosition(t) => t.handles(event),
            TriggerMidiMessage::SongSelect(t) => t.handles(event),
            TriggerMidiMessage::TuneRequest(t) => t.handles(event),
            TriggerMidiMessage::TimingClock(t) => t.handles(event),
            TriggerMidiMessage::Start(t) => t.handles(event),
            TriggerMidiMessage::Continue(t) => t.handles(event),
            TriggerMidiMessage::Stop(t) => t.handles(event),
            TriggerMidiMessage::ActiveSensing(t) => t.handles(event),
            TriggerMidiMessage::Reset(t) => t.handles(event),
        }
    }

    open spec fn threshold_key(&self) -> Option<LiveEvent> {
        match *self {
            TriggerMidiMessage::NoteOn(t) => t.threshold_key(),
            TriggerMidiMessage::NoteOff(t) => t.threshold_key(),
            TriggerMidiMessage::Aftertouch(t) => t.threshold_key(),
            TriggerMidiMessage::Controller(t) => t.threshold_key(),
            TriggerMidiMessage::ProgramChange(t) => t.threshold_key(),
            TriggerMidiMessage::ChannelAftertouch(t) => t.threshold_key(),
            TriggerMidiMessage::PitchBend(t) => t.threshold_key(),
            TriggerMidiMessage::MtcQuarterFrame(t) => t.threshold_key(),
            TriggerMidiMessage::SongPosition(t) => t.threshold_key(),
            TriggerMidiMessage::SongSelect(t) => t.threshold_key(),
            TriggerMidiMessage::TuneRequest(t) => t.threshold_key(),
            TriggerMidiMessage::TimingClock(t) => t.threshold_key(),
            TriggerMidiMessage::Start(t) => t.threshold_key(),
            TriggerMidiMessage::Continue(t) => t.threshold_key(),
            TriggerMidiMessage::Stop(t) => t.threshold_key(),
            TriggerMidiMessage::ActiveSensing(t) => t.threshold_key(),
            TriggerMidiMessage::Reset(t) => t.threshold_key(),
        }
    }

    open spec fn exact_key(&self) -> Option<LiveEvent> {
        match *self {
            TriggerMidiMessage::NoteOn(t) => t.exact_key(),
            TriggerMidiMessage::NoteOff(t) => t.exact_key(),
            TriggerMidiMessage::Aftertouch(t) => t.exact_key(),
            TriggerMidiMessage::Controller(t) => t.exact_key(),
            TriggerMidiMessage::ProgramChange(t) => t.exact_key(),
            TriggerMidiMessage::ChannelAftertouch(t) => t.exact_key(),
            TriggerMidiMessage::PitchBend(t) => t.exact_key(),
            TriggerMidiMessage::MtcQuarterFrame(t) => t.exact_key(),
            TriggerMidiMessage::SongPosition(t) => t.exact_key(),
            TriggerMidiMessage::SongSelect(t) => t.exact_key(),
            TriggerMidiMessage::TuneRequest(t) => t.exact_key(),
            TriggerMidiMessage::TimingClock(t) => t.exact_key(),
            TriggerMidiMessage::Start(t) => t.exact_key(),
            TriggerMidiMessage::Continue(t) => t.exact_key(),
            TriggerMidiMessage::Stop(t) => t.exact_key(),
            TriggerMidiMessage::ActiveSensing(t) => t.exact_key(),
            TriggerMidiMessage::Reset(t) => t.exact_key(),
        }
    }

    fn handle_midi_event_inner(&self, event: &LiveEvent) -> (fired: bool) {
        match self {
            TriggerMidiMessage::NoteOn(t) => t.handle_midi_event_inner(event),
            TriggerMidiMessage::NoteOff(t) => t.handle_midi_event_inner(event),
            TriggerMidiMessage::Aftertouch(t) => t.handle_midi_event_inner(event),
            TriggerMidiMessage::Controller(t) => t.handle_midi_event_inner(event),
            TriggerMidiMessage::ProgramChange(t) => t.handle_midi_event_inner(event),
            TriggerMidiMessage::ChannelAftertouch(t) => t.handle_midi_event_inner(event),
            TriggerMidiMessage::PitchBend(t) => t.handle_midi_event_inner(event),
            TriggerMidiMessage::MtcQuarterFrame(t) => t.handle_midi_event_inner(event),
            TriggerMidiMessage::SongPosition(t) => t.handle_midi_event_inner(event),
            TriggerMidiMessage::SongSelect(t) => t.handle_midi_event_inner(event),
            TriggerMidiMessage::TuneRequest(t) => t.handle_midi_event_inner(event),
            TriggerMidiMessage::TimingClock(t) => t.handle_midi_event_inner(event),
            TriggerMidiMessage::Start(t) => t.handle_midi_event_inner(event),
            TriggerMidiMessage::Continue(t) => t.handle_midi_event_inner(event),
            TriggerMidiMessage::Stop(t) => t.handle_midi_event_inner(event),
            TriggerMidiMessage::ActiveSensing(t) => t.handle_midi_event_inner(event),
            TriggerMidiMessage::Reset(t) => t.handle_midi_event_inner(event),
        }
    }

    fn threshold_hash_key_inner(&self) -> (key: Option<LiveEvent>) {
        match self {
            TriggerMidiMessage::NoteOn(t) => t.threshold_hash_key_inner(),
            TriggerMidiMessage::NoteOff(t) => t.threshold_hash_key_inner(),
            TriggerMidiMessage::Aftertouch(t) => t.threshold_hash_key_inner(),
            TriggerMidiMessage::Controller(t) => t.threshold_hash_key_inner(),
            TriggerMidiMessage::ProgramChange(t) => t.threshold_hash_key_inner(),
            TriggerMidiMessage::ChannelAftertouch(t) => t.threshold_hash_key_inner(),
            TriggerMidiMessage::PitchBend(t) => t.threshold_hash_key_inner(),
            TriggerMidiMessage::MtcQuarterFrame(t) => t.threshold_hash_key_inner(),
            TriggerMidiMessage::SongPosition(t) => t.threshold_hash_key_inner(),
            TriggerMidiMessage::SongSelect(t) => t.threshold_hash_key_inner(),
            TriggerMidiMessage::TuneRequest(t) => t.threshold_hash_key_inner(),
            TriggerMidiMessage::TimingClock(t) => t.threshold_hash_key_inner(),
            TriggerMidiMessage::Start(t) => t.threshold_hash_key_inner(),
            TriggerMidiMessage::Continue(t) => t.threshold_hash_key_inner(),
            TriggerMidiMessage::Stop(t) => t.threshold_hash_key_inner(),
            TriggerMidiMessage::ActiveSensing(t) => t.threshold_hash_key_inner(),
            TriggerMidiMessage::Reset(t) => t.threshold_hash_key_inner(),
        }
    }

    fn exact_hash_key_inner(&self) -> (key: Option<LiveEvent>) {
        match self {
            TriggerMidiMessage::NoteOn(t) => t.exact_hash_key_inner(),
            TriggerMidiMessage::NoteOff(t) => t.exact_hash_key_inner(),
            TriggerMidiMessage::Aftertouch(t) => t.exact_hash_key_inner(),
            TriggerMidiMessage::Controller(t) => t.exact_hash_key_inner(),
            TriggerMidiMessage::ProgramChange(t) => t.exact_hash_key_inner(),
            TriggerMidiMessage::ChannelAftertouch(t) => t.exact_hash_key_inner(),
            TriggerMidiMessage::PitchBend(t) => t.exact_hash_key_inner(),
            TriggerMidiMessage::MtcQuarterFrame(t) => t.exact_hash_key_inner(),
            TriggerMidiMessage::SongPosition(t) => t.exact_hash_key_inner(),
            TriggerMidiMessage::SongSelect(t) => t.exact_hash_key_inner(),
            TriggerMidiMessage::TuneRequest(t) => t.exact_hash_key_inner(),
            TriggerMidiMessage::TimingClock(t) => t.exact_hash_key_inner(),
            TriggerMidiMessage::Start(t) => t.exact_hash_key_inner(),
            TriggerMidiMessage::Continue(t) => t.exact_hash_key_inner(),
            TriggerMidiMessage::Stop(t) => t.exact_hash_key_inner(),
            TriggerMidiMessage::ActiveSensing(t) => t.exact_hash_key_inner(),
            TriggerMidiMessage::Reset(t) => t.exact_hash_key_inner(),
        }
    }
}

/// The message with its value blanked: the value of a channel message, of a
/// quarter frame, of a song position or of a song selection becomes zero, a
/// pitch bend becomes no bend, and every other message stays as it is.
pub open spec fn without_value(event: LiveEvent) -> LiveEvent {
    match event {
        LiveEvent::Midi { channel, message } => LiveEvent::Midi {
            channel,
            message: match message {
                MidiMessage::NoteOn { key, vel } => MidiMessage::NoteOn { key, vel: 0 },
                MidiMessage::NoteOff { key, vel } => MidiMessage::NoteOff { key, vel: 0 },
                MidiMessage::Aftertouch { key, vel } => MidiMessage::Aftertouch { key, vel: 0 },
                MidiMessage::Controller { controller, value } => MidiMessage::Controller {
                    controller,
                    value: 0,
                },
                MidiMessage::ProgramChange { program } => MidiMessage::ProgramChange { program: 0 },
                MidiMessage::ChannelAftertouch { vel } => MidiMessage::ChannelAftertouch { vel: 0 },
                MidiMessage::PitchBend { bend } => MidiMessage::PitchBend { bend: BEND_CENTER },
            },
        },
        LiveEvent::Common(SystemCommon::MidiTimeCodeQuarterFrame(message, _)) => LiveEvent::Common(
            SystemCommon::MidiTimeCodeQuarterFrame(message, 0),
        ),
        LiveEvent::Common(SystemCommon::SongPosition(_)) => LiveEvent::Common(
            SystemCommon::SongPosition(0),
        ),
        LiveEvent::Common(SystemCommon::SongSelect(_)) => LiveEvent::Common(
            SystemCommon::SongSelect(0),
        ),
        _ => event,
    }
}

/// The message with its value blanked, under which the triggers that want a
/// threshold are filed.
pub fn live_event_without_value(event: LiveEvent) -> (blank: LiveEvent)
    ensures
        blank == without_value(event),
{
    match event {
        LiveEvent::Midi { channel, message } => {
            let message = match message {
                MidiMessage::NoteOn { key, vel: _ } => MidiMessage::NoteOn { key, vel: 0 },
                MidiMessage::NoteOff { key, vel: _ } => MidiMessage::NoteOff { key, vel: 0 },
                MidiMessage::Aftertouch { key, vel: _ } => MidiMessage::Aftertouch { key, vel: 0 },
                MidiMessage::Controller { controller, value: _ } => MidiMessage::Controller {
                    controller,
                    value: 0,
                },
                MidiMessage::ProgramChange { program: _ } => MidiMessage::ProgramChange {
                    program: 0,
                },
                MidiMessage::ChannelAftertouch { vel: _ } => MidiMessage::ChannelAftertouch {
                    vel: 0,
                },
                MidiMessage::PitchBend { bend: _ } => MidiMessage::PitchBend { bend: BEND_CENTER },
            };
            LiveEvent::Midi { channel, message }
        },
        LiveEvent::Common(common) => {
            let common = match common {
                SystemCommon::MidiTimeCodeQuarterFrame(message, _) => {
                    SystemCommon::MidiTimeCodeQuarterFrame(message, 0)
                },
                SystemCommon::SongPosition(_) => SystemCommon::SongPosition(0),
                SystemCommon::SongSelect(_) => SystemCommon::SongSelect(0),
                other => other,
            };
            LiveEvent::Common(common)
        },
        LiveEvent::Realtime(realtime) => LiveEvent::Realtime(realtime),
    }
}

/// Whether the bend of a pitch-bend message lies within the range of bends;
/// every other message passes.
pub open spec fn bend_in_range(event: LiveEvent) -> bool {
    match event {
        LiveEvent::Midi { channel, message: MidiMessage::PitchBend { bend } } => bend <= BEND_MAX,
        _ => true,
    }
}

/// A trigger has exactly one of the two hash keys: the exact key if it
/// wants one exact message, the threshold key if it wants a threshold.
pub proof fn lemma_one_key(trigger: TriggerMidiMessage)
    ensures
        trigger.exact_key() is Some <==> trigger.threshold_key() is None,
{
}

/// Blanking a message that is blank already changes nothing.
pub proof fn lemma_blank_once(event: LiveEvent)
    ensures
        without_value(without_value(event)) == without_value(event),
{
}

/// The two lookups find every trigger that a message fires: the message
/// itself is the exact key of the trigger, or the message with its value
/// blanked is its threshold key.
pub proof fn lemma_lookup_finds(trigger: TriggerMidiMessage, event: LiveEvent)
    requires
        trigger.handles(event),
        bend_in_range(event),
    ensures
        trigger.exact_key() == Some(event) || trigger.threshold_key() == Some(without_value(event)),
{
}

/// A trigger filed under an exact key is fired by that very message, unless
/// it wants a bend outside the range of bends, which no message carries.
pub proof fn lemma_exact_key_fires(trigger: TriggerMidiMessage)
    requires
        trigger.exact_key() is Some,
        trigger matches TriggerMidiMessage::PitchBend(t) ==> -0x2000 <= t.value <= 0x1FFF,
    ensures
        trigger.handles(trigger.exact_key()->0),
{
}

} // verus!
