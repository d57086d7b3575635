//! Controls: what a MIDI surface can do, and how incoming messages find the
//! controls they fire.

use vstd::prelude::*;
use crate::error::Error;
use crate::midi::LiveEvent;
use crate::table::{is_first_named, none_named, position_of};

pub mod trigger;

pub use trigger::{
    live_event_without_value, Trigger, TriggerActiveSensing, TriggerAftertouch,
    TriggerChannelAftertouch, TriggerContinue, TriggerController, TriggerMidiMessage,
    TriggerMtcQuarterFrame, TriggerNoteOff, TriggerNoteOn, TriggerPitchBend,
    TriggerProgramChange, TriggerReset, TriggerSongPosition, TriggerSongSelect, TriggerStart,
    TriggerStop, TriggerTimingClock, TriggerTuneRequest, ValueMatchType,
};

verus! {

/// A control of a MIDI surface.
///
/// A control is filed under its hash keys: under the exact key it is looked
/// up by an incoming message as it is, under the threshold key by the
/// message with its value blanked.
pub trait Control {
    /// Whether `event` fires this control.
    spec fn handles(&self, event: LiveEvent) -> bool;

    /// The message with blank value under which this control is filed, if it
    /// wants a threshold.
    spec fn threshold_key(&self) -> Option<LiveEvent>;

    /// The message under which this control is filed, if it wants one exact
    /// message.
    spec fn exact_key(&self) -> Option<LiveEvent>;

    /// Handles a message, telling whether it fired this control.
    fn handle_midi_event_inner(&self, event: &LiveEvent) -> (fired: bool)
        ensures
            fired == self.handles(*event),
    ;

    /// The message with blank value under which this control is filed, if it
    /// wants a threshold.
    fn threshold_hash_key_inner(&self) -> (key: Option<LiveEvent>)
        ensures
            key == self.threshold_key(),
    ;

    /// The message under which this control is filed, if it wants one exact
    /// message.
    fn exact_hash_key_inner(&self) -> (key: Option<LiveEvent>)
        ensures
            key == self.exact_key(),
    ;
}

/// A trigger as it is configured.
#[derive(Clone, Copy, Debug)]
pub struct TriggerConfig {
    pub command: TriggerMidiMessage,
    pub auto_indicate: bool,
}

impl Control for TriggerConfig {
    open spec fn handles(&self, event: LiveEvent) -> bool {
        self.command.handles(event)
    }

    open spec fn threshold_key(&self) -> Option<LiveEvent> {
        self.command.threshold_key()
    }

    open spec fn exact_key(&self) -> Option<LiveEvent> {
        self.command.exact_key()
    }

    fn handle_midi_event_inner(&self, event: &LiveEvent) -> (fired: bool) {
        self.command.handle_midi_event_inner(event)
    }

    fn threshold_hash_key_inner(&self) -> (key: Option<LiveEvent>) {
        self.command.threshold_hash_key_inner()
    }

    fn exact_hash_key_inner(&self) -> (key: Option<LiveEvent>) {
        self.command.exact_hash_key_inner()
    }
}

/// Any of the controls.
#[derive(Clone, Copy, Debug)]
pub enum ControlType {
    Trigger(TriggerConfig),
}

impl Control for ControlType {
    open spec fn handles(&self, event: LiveEvent) -> bool {
        match *self {
            ControlType::Trigger(c) => c.handles(event),
        }
    }

    open spec fn threshold_key(&self) -> Option<LiveEvent> {
        match *self {
            ControlType::Trigger(c) => c.threshold_key(),
        }
    }

    open spec fn exact_key(&self) -> Option<LiveEvent> {
        match *self {
            ControlType::Trigger(c) => c.exact_key(),
        }
    }

    fn handle_midi_event_inner(&self, event: &LiveEvent) -> (fired: bool) {
        match self {
            ControlType::Trigger(c) => c.handle_midi_event_inner(event),
        }
    }

    fn threshold_hash_key_inner(&self) -> (key: Option<LiveEvent>) {
        match self {
            ControlType::Trigger(c) => c.threshold_hash_key_inner(),
        }
    }

    fn exact_hash_key_inner(&self) -> (key: Option<LiveEvent>) {
        match self {
            ControlType::Trigger(c) => c.exact_hash_key_inner(),
        }
    }
}

/// Position of the first port that is known under the name `wanted`. A port
/// whose name could not be read is passed over.
///
/// Fails exactly when no port has that name.
pub fn find_port(names: &Vec<Option<String>>, wanted: &str) -> (found: Result<usize, Error>)
    ensures
        match found {
            Ok(i) => is_first_named(names@, i as int, wanted@),
            Err(e) => e == Error::DeviceNotFound && none_named(names@, wanted@),
        },
{
    match position_of(names, wanted) {
        Some(i) => Ok(i),
        None => Err(Error::DeviceNotFound),
    }
}

} // verus!
