use audio_registry::controls::{
    find_port, live_event_without_value, Control, ControlType, Trigger, TriggerActiveSensing,
    TriggerAftertouch, TriggerChannelAftertouch, TriggerConfig, TriggerContinue,
    TriggerController, TriggerMidiMessage, TriggerMtcQuarterFrame, TriggerNoteOff, TriggerNoteOn,
    TriggerPitchBend, TriggerProgramChange, TriggerReset, TriggerSongPosition, TriggerSongSelect,
    TriggerStart, TriggerStop, TriggerTimingClock, TriggerTuneRequest, ValueMatchType,
};
use audio_registry::Error;
use audio_registry::midi::{
    bend_as_int, bend_from_int, LiveEvent, MidiMessage, MtcQuarterFrameMessage, SystemCommon,
    SystemRealtime, BEND_CENTER, BEND_MAX,
};

fn note_on(channel: u8, key: u8, vel: u8) -> LiveEvent {
    LiveEvent::Midi { channel, message: MidiMessage::NoteOn { key, vel } }
}

fn channel_message(channel: u8, message: MidiMessage) -> LiveEvent {
    LiveEvent::Midi { channel, message }
}

fn every_kind_of_message() -> Vec<LiveEvent> {
    vec![
        channel_message(1, MidiMessage::NoteOff { key: 60, vel: 64 }),
        channel_message(1, MidiMessage::NoteOn { key: 60, vel: 64 }),
        channel_message(1, MidiMessage::Aftertouch { key: 60, vel: 64 }),
        channel_message(1, MidiMessage::Controller { controller: 7, value: 64 }),
        channel_message(1, MidiMessage::ProgramChange { program: 64 }),
        channel_message(1, MidiMessage::ChannelAftertouch { vel: 64 }),
        channel_message(1, MidiMessage::PitchBend { bend: 0x2040 }),
        LiveEvent::Common(SystemCommon::SysEx(vec![1, 2, 3])),
        LiveEvent::Common(SystemCommon::MidiTimeCodeQuarterFrame(MtcQuarterFrameMessage::SecondsLow, 5)),
        LiveEvent::Common(SystemCommon::SongPosition(64)),
        LiveEvent::Common(SystemCommon::SongSelect(64)),
        LiveEvent::Common(SystemCommon::TuneRequest),
        LiveEvent::Common(SystemCommon::Undefined(0xF4, vec![9])),
        LiveEvent::Realtime(SystemRealtime::TimingClock),
        LiveEvent::Realtime(SystemRealtime::Start),
        LiveEvent::Realtime(SystemRealtime::Continue),
        LiveEvent::Realtime(SystemRealtime::Stop),
        LiveEvent::Realtime(SystemRealtime::ActiveSensing),
        LiveEvent::Realtime(SystemRealtime::Reset),
        LiveEvent::Realtime(SystemRealtime::Undefined(0xF9)),
    ]
}

fn every_trigger(match_type: ValueMatchType) -> Vec<TriggerMidiMessage> {
    vec![
        TriggerMidiMessage::NoteOff(TriggerNoteOff { channel: 1, note: 60, velocity: 64, match_type }),
        TriggerMidiMessage::NoteOn(TriggerNoteOn { channel: 1, note: 60, velocity: 64, match_type }),
        TriggerMidiMessage::Aftertouch(TriggerAftertouch { channel: 1, note: 60, pressure: 64, match_type }),
        TriggerMidiMessage::Controller(TriggerController { channel: 1, controller: 7, value: 64, match_type }),
        TriggerMidiMessage::ProgramChange(TriggerProgramChange { channel: 1, program: 64, match_type }),
        TriggerMidiMessage::ChannelAftertouch(TriggerChannelAftertouch { channel: 1, pressure: 64, match_type }),
        TriggerMidiMessage::PitchBend(TriggerPitchBend { channel: 1, value: 0x40, match_type }),
        TriggerMidiMessage::MtcQuarterFrame(TriggerMtcQuarterFrame {
            message: MtcQuarterFrameMessage::SecondsLow,
            value: 5,
            match_type,
        }),
        TriggerMidiMessage::SongPosition(TriggerSongPosition { position: 64, match_type }),
        TriggerMidiMessage::SongSelect(TriggerSongSelect { song: 64, match_type }),
        TriggerMidiMessage::TuneRequest(TriggerTuneRequest {}),
        TriggerMidiMessage::TimingClock(TriggerTimingClock {}),
        TriggerMidiMessage::Start(TriggerStart {}),
        TriggerMidiMessage::Continue(TriggerContinue {}),
        TriggerMidiMessage::Stop(TriggerStop {}),
        TriggerMidiMessage::ActiveSensing(TriggerActiveSensing {}),
        TriggerMidiMessage::Reset(TriggerReset {}),
    ]
}

#[test]
fn exact_note_on_wants_its_velocity() {
    let trigger = TriggerNoteOn { channel: 0, note: 0x59, velocity: 0x7F, match_type: ValueMatchType::Exact };
    assert!(trigger.is_triggered_by(&note_on(0, 0x59, 0x7F)));
    assert!(!trigger.is_triggered_by(&note_on(0, 0x59, 0x7E)));
    assert!(!trigger.is_triggered_by(&note_on(1, 0x59, 0x7F)));
    assert!(!trigger.is_triggered_by(&note_on(0, 0x5A, 0x7F)));
    assert!(!trigger.is_triggered_by(&channel_message(0, MidiMessage::NoteOff { key: 0x59, vel: 0x7F })));
    assert_eq!(trigger.exact_hash_key_inner(), Some(note_on(0, 0x59, 0x7F)));
    assert_eq!(trigger.threshold_hash_key_inner(), None);
}

#[test]
fn note_on_at_or_above_a_threshold() {
    let trigger =
        TriggerNoteOn { channel: 0, note: 0x5A, velocity: 0x0F, match_type: ValueMatchType::ThresholdOrAbove };
    assert!(trigger.is_triggered_by(&note_on(0, 0x5A, 0x0F)));
    assert!(trigger.is_triggered_by(&note_on(0, 0x5A, 0x7F)));
    assert!(!trigger.is_triggered_by(&note_on(0, 0x5A, 0x0E)));
    assert_eq!(trigger.exact_hash_key_inner(), None);
    assert_eq!(trigger.threshold_hash_key_inner(), Some(note_on(0, 0x5A, 0)));
}

#[test]
fn note_on_at_or_below_a_threshold() {
    let trigger =
        TriggerNoteOn { channel: 0, note: 0x5B, velocity: 0x40, match_type: ValueMatchType::ThresholdOrBelow };
    assert!(trigger.is_triggered_by(&note_on(0, 0x5B, 0x40)));
    assert!(trigger.is_triggered_by(&note_on(0, 0x5B, 0)));
    assert!(!trigger.is_triggered_by(&note_on(0, 0x5B, 0x41)));
    assert_eq!(trigger.threshold_hash_key_inner(), Some(note_on(0, 0x5B, 0)));
}

#[test]
fn match_types_compare_as_integers() {
    assert!(ValueMatchType::Exact.matches(3, 3));
    assert!(!ValueMatchType::Exact.matches(3, 4));
    assert!(ValueMatchType::ThresholdOrAbove.matches(4, 3));
    assert!(ValueMatchType::ThresholdOrAbove.matches(3, 3));
    assert!(!ValueMatchType::ThresholdOrAbove.matches(2, 3));
    assert!(ValueMatchType::ThresholdOrBelow.matches(-8, -7));
    assert!(!ValueMatchType::ThresholdOrBelow.matches(-6, -7));
    assert!(!ValueMatchType::Exact.threshold());
    assert!(ValueMatchType::ThresholdOrAbove.threshold());
    assert!(ValueMatchType::ThresholdOrBelow.threshold());
}

#[test]
fn pitch_bend_is_signed_around_the_center() {
    assert_eq!(bend_as_int(BEND_CENTER), 0);
    assert_eq!(bend_as_int(0), -0x2000);
    assert_eq!(bend_as_int(BEND_MAX), 0x1FFF);
    assert_eq!(bend_from_int(0), BEND_CENTER);
    assert_eq!(bend_from_int(-0x2000), 0);
    assert_eq!(bend_from_int(0x1FFF), BEND_MAX);
    assert_eq!(bend_from_int(i16::MIN), 0);
    assert_eq!(bend_from_int(i16::MAX), BEND_MAX);
    assert_eq!(bend_from_int(-1), 0x1FFF);
    for raw in [0u16, 1, 0x1FFF, 0x2000, 0x2001, 0x3FFF] {
        assert_eq!(bend_from_int(bend_as_int(raw) as i16), raw);
    }
}

#[test]
fn pitch_bend_trigger_compares_the_signed_bend() {
    let up = TriggerPitchBend { channel: 2, value: 100, match_type: ValueMatchType::ThresholdOrAbove };
    assert!(up.is_triggered_by(&channel_message(2, MidiMessage::PitchBend { bend: 0x2000 + 100 })));
    assert!(up.is_triggered_by(&channel_message(2, MidiMessage::PitchBend { bend: BEND_MAX })));
    assert!(!up.is_triggered_by(&channel_message(2, MidiMessage::PitchBend { bend: 0x2000 + 99 })));
    assert!(!up.is_triggered_by(&channel_message(3, MidiMessage::PitchBend { bend: BEND_MAX })));
    assert_eq!(
        up.threshold_hash_key_inner(),
        Some(channel_message(2, MidiMessage::PitchBend { bend: BEND_CENTER }))
    );
    let exact = TriggerPitchBend { channel: 2, value: -5, match_type: ValueMatchType::Exact };
    assert_eq!(
        exact.exact_hash_key_inner(),
        Some(channel_message(2, MidiMessage::PitchBend { bend: 0x2000 - 5 }))
    );
    assert!(exact.is_triggered_by(&channel_message(2, MidiMessage::PitchBend { bend: 0x2000 - 5 })));
}

#[test]
fn quarter_frame_trigger_wants_its_kind() {
    let trigger = TriggerMtcQuarterFrame {
        message: MtcQuarterFrameMessage::HoursHigh,
        value: 1,
        match_type: ValueMatchType::ThresholdOrBelow,
    };
    let frame = |message, value| LiveEvent::Common(SystemCommon::MidiTimeCodeQuarterFrame(message, value));
    assert!(trigger.is_triggered_by(&frame(MtcQuarterFrameMessage::HoursHigh, 1)));
    assert!(trigger.is_triggered_by(&frame(MtcQuarterFrameMessage::HoursHigh, 0)));
    assert!(!trigger.is_triggered_by(&frame(MtcQuarterFrameMessage::HoursHigh, 2)));
    assert!(!trigger.is_triggered_by(&frame(MtcQuarterFrameMessage::HoursLow, 1)));
    assert_eq!(trigger.threshold_hash_key_inner(), Some(frame(MtcQuarterFrameMessage::HoursHigh, 0)));
}

#[test]
fn each_trigger_fires_on_its_own_kind_of_message_only() {
    let events = every_kind_of_message();
    for trigger in every_trigger(ValueMatchType::Exact) {
        let fired: Vec<&LiveEvent> =
            events.iter().filter(|event| trigger.handle_midi_event_inner(event)).collect();
        assert_eq!(fired.len(), 1, "{trigger:?} fired on {fired:?}");
        assert_eq!(trigger.exact_hash_key_inner().as_ref(), Some(fired[0]));
        assert_eq!(trigger.threshold_hash_key_inner(), None);
    }
}

#[test]
fn the_two_lookups_find_every_trigger_that_fires() {
    let mut events = every_kind_of_message();
    events.push(channel_message(1, MidiMessage::NoteOn { key: 60, vel: 0 }));
    events.push(channel_message(1, MidiMessage::NoteOn { key: 60, vel: 127 }));
    events.push(channel_message(1, MidiMessage::Controller { controller: 7, value: 3 }));
    events.push(channel_message(1, MidiMessage::PitchBend { bend: 0 }));
    events.push(LiveEvent::Common(SystemCommon::SongPosition(0x3FFF)));
    for match_type in [ValueMatchType::Exact, ValueMatchType::ThresholdOrAbove, ValueMatchType::ThresholdOrBelow] {
        for trigger in every_trigger(match_type) {
            assert_ne!(
                trigger.exact_hash_key_inner().is_some(),
                trigger.threshold_hash_key_inner().is_some()
            );
            for event in &events {
                if trigger.handle_midi_event_inner(event) {
                    let by_exact = trigger.exact_hash_key_inner().as_ref() == Some(event);
                    let blank = live_event_without_value(event.clone());
                    let by_threshold = trigger.threshold_hash_key_inner() == Some(blank);
                    assert!(by_exact || by_threshold, "{trigger:?} is not found by {event:?}");
                }
            }
        }
    }
}

#[test]
fn blanking_zeroes_the_value_and_keeps_the_rest() {
    assert_eq!(live_event_without_value(note_on(3, 60, 99)), note_on(3, 60, 0));
    assert_eq!(
        live_event_without_value(channel_message(3, MidiMessage::NoteOff { key: 60, vel: 99 })),
        channel_message(3, MidiMessage::NoteOff { key: 60, vel: 0 })
    );
    assert_eq!(
        live_event_without_value(channel_message(3, MidiMessage::Aftertouch { key: 60, vel: 99 })),
        channel_message(3, MidiMessage::Aftertouch { key: 60, vel: 0 })
    );
    assert_eq!(
        live_event_without_value(channel_message(3, MidiMessage::Controller { controller: 7, value: 99 })),
        channel_message(3, MidiMessage::Controller { controller: 7, value: 0 })
    );
    assert_eq!(
        live_event_without_value(channel_message(3, MidiMessage::ProgramChange { program: 99 })),
        channel_message(3, MidiMessage::ProgramChange { program: 0 })
    );
    assert_eq!(
        live_event_without_value(channel_message(3, MidiMessage::ChannelAftertouch { vel: 99 })),
        channel_message(3, MidiMessage::ChannelAftertouch { vel: 0 })
    );
    assert_eq!(
        live_event_without_value(channel_message(3, MidiMessage::PitchBend { bend: 7 })),
        channel_message(3, MidiMessage::PitchBend { bend: BEND_CENTER })
    );
    assert_eq!(
        live_event_without_value(LiveEvent::Common(SystemCommon::MidiTimeCodeQuarterFrame(
            MtcQuarterFrameMessage::MinutesHigh,
            9
        ))),
        LiveEvent::Common(SystemCommon::MidiTimeCodeQuarterFrame(MtcQuarterFrameMessage::MinutesHigh, 0))
    );
    assert_eq!(
        live_event_without_value(LiveEvent::Common(SystemCommon::SongPosition(999))),
        LiveEvent::Common(SystemCommon::SongPosition(0))
    );
    assert_eq!(
        live_event_without_value(LiveEvent::Common(SystemCommon::SongSelect(9))),
        LiveEvent::Common(SystemCommon::SongSelect(0))
    );
}

#[test]
fn blanking_leaves_messages_without_value_alone() {
    for event in [
        LiveEvent::Common(SystemCommon::TuneRequest),
        LiveEvent::Common(SystemCommon::SysEx(vec![1, 2, 3])),
        LiveEvent::Common(SystemCommon::Undefined(0xF5, vec![4])),
        LiveEvent::Realtime(SystemRealtime::Start),
        LiveEvent::Realtime(SystemRealtime::Undefined(0xFD)),
    ] {
        assert_eq!(live_event_without_value(event.clone()), event);
    }
    for event in every_kind_of_message() {
        let blank = live_event_without_value(event);
        assert_eq!(live_event_without_value(blank.clone()), blank);
    }
}

#[test]
fn configured_controls_pass_on_to_their_trigger() {
    let command = TriggerMidiMessage::NoteOn(TriggerNoteOn {
        channel: 0,
        note: 0x59,
        velocity: 0x7F,
        match_type: ValueMatchType::Exact,
    });
    let control = ControlType::Trigger(TriggerConfig { command, auto_indicate: false });
    assert!(control.handle_midi_event_inner(&note_on(0, 0x59, 0x7F)));
    assert!(!control.handle_midi_event_inner(&note_on(0, 0x59, 0x10)));
    assert_eq!(control.exact_hash_key_inner(), Some(note_on(0, 0x59, 0x7F)));
    assert_eq!(control.threshold_hash_key_inner(), None);

    let command = TriggerMidiMessage::Controller(TriggerController {
        channel: 4,
        controller: 1,
        value: 64,
        match_type: ValueMatchType::ThresholdOrAbove,
    });
    let config = TriggerConfig { command, auto_indicate: true };
    assert!(config.handle_midi_event_inner(&channel_message(4, MidiMessage::Controller { controller: 1, value: 64 })));
    assert!(!config.handle_midi_event_inner(&channel_message(4, MidiMessage::Controller { controller: 1, value: 63 })));
    assert_eq!(config.exact_hash_key_inner(), None);
    assert_eq!(
        config.threshold_hash_key_inner(),
        Some(channel_message(4, MidiMessage::Controller { controller: 1, value: 0 }))
    );
}

#[test]
fn port_is_found_by_its_name() {
    let names = vec![
        Some("Midi Through".to_string()),
        None,
        Some("X-TOUCH MINI".to_string()),
        Some("X-TOUCH MINI".to_string()),
    ];
    assert_eq!(find_port(&names, "X-TOUCH MINI"), Ok(2));
    assert_eq!(find_port(&names, "Midi Through"), Ok(0));
}

#[test]
fn missing_port_is_a_device_that_was_not_found() {
    let names = vec![Some("Midi Through".to_string()), None, Some("x-touch mini".to_string())];
    assert_eq!(find_port(&names, "X-TOUCH MINI"), Err(Error::DeviceNotFound));
    assert_eq!(find_port(&names, ""), Err(Error::DeviceNotFound));
    assert_eq!(find_port(&vec![], "X-TOUCH MINI"), Err(Error::DeviceNotFound));
}
