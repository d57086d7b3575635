use audio_registry::{
    Activation, DeviceInfo, DeviceProbe, DeviceState, DeviceStateKind, Error, ProcessEntry,
    ProcessTable, SessionInfo, SessionProbe, SessionState, ValueKind, DEVICE_STATE_ACTIVE,
    DEVICE_STATE_DISABLED, DEVICE_STATE_NOTPRESENT, DEVICE_STATE_UNPLUGGED,
};
use std::cell::Cell;
use std::rc::Rc;

/// A handle that counts how often it was released.
#[derive(Debug)]
struct Held {
    tag: u32,
    released: Rc<Cell<u32>>,
}

impl Drop for Held {
    fn drop(&mut self) {
        self.released.set(self.released.get() + 1);
    }
}

fn held(tag: u32, released: &Rc<Cell<u32>>) -> Held {
    Held { tag, released: released.clone() }
}

fn device_table() -> ProcessTable {
    ProcessTable::from_entries(vec![ProcessEntry {
        pid: 100,
        parent: None,
        name: "music.exe".to_string(),
    }])
}

fn probe_of(instance_id: &str, pid: u32, name: &str, state: i32, subscription: Held) -> SessionProbe<Held> {
    SessionProbe {
        instance_id: instance_id.to_string(),
        id: String::new(),
        state,
        pid,
        display_name: name.to_string(),
        subscription,
    }
}

fn active_device(released: &Rc<Cell<u32>>) -> DeviceInfo<Held, Held> {
    let probe = DeviceProbe {
        name: "Speakers".to_string(),
        state: DEVICE_STATE_ACTIVE,
        activation: Some(Activation {
            handle: held(1, released),
            sessions: vec![
                probe_of("s1", 100, "", 1, held(11, released)),
                probe_of("s2", 300, "Game", 0, held(12, released)),
            ],
        }),
    };
    DeviceInfo::new("spk1".to_string(), probe, &device_table()).unwrap()
}

#[test]
fn only_the_active_state_needs_a_handle() {
    assert!(DeviceInfo::<u8, u8>::needs_handle(DEVICE_STATE_ACTIVE));
    assert!(!DeviceInfo::<u8, u8>::needs_handle(DEVICE_STATE_DISABLED));
    assert!(!DeviceInfo::<u8, u8>::needs_handle(DEVICE_STATE_NOTPRESENT));
    assert!(!DeviceInfo::<u8, u8>::needs_handle(DEVICE_STATE_UNPLUGGED));
    assert!(!DeviceInfo::<u8, u8>::needs_handle(0));
    assert!(!DeviceInfo::<u8, u8>::needs_handle(3));
}

#[test]
fn translate_state_maps_each_wire_value() {
    assert!(matches!(
        DeviceInfo::<u8, u8>::translate_state(DEVICE_STATE_ACTIVE, Some(9)),
        Ok(DeviceState::Active(9))
    ));
    assert!(matches!(
        DeviceInfo::<u8, u8>::translate_state(DEVICE_STATE_DISABLED, None),
        Ok(DeviceState::Disabled)
    ));
    assert!(matches!(
        DeviceInfo::<u8, u8>::translate_state(DEVICE_STATE_NOTPRESENT, None),
        Ok(DeviceState::NotPresent)
    ));
    assert!(matches!(
        DeviceInfo::<u8, u8>::translate_state(DEVICE_STATE_UNPLUGGED, Some(9)),
        Ok(DeviceState::Unplugged)
    ));
}

#[test]
fn translate_state_rejects_unknown_values_and_missing_handles() {
    assert!(matches!(
        DeviceInfo::<u8, u8>::translate_state(16, Some(9)),
        Err(Error::UnrecognizedValue(ValueKind::DeviceState))
    ));
    assert!(matches!(
        DeviceInfo::<u8, u8>::translate_state(0, None),
        Err(Error::UnrecognizedValue(ValueKind::DeviceState))
    ));
    assert!(matches!(
        DeviceInfo::<u8, u8>::translate_state(DEVICE_STATE_ACTIVE, None),
        Err(Error::MissingReply)
    ));
}

#[test]
fn active_device_opens_with_its_sessions() {
    let released = Rc::new(Cell::new(0));
    let device = active_device(&released);
    assert_eq!(device.id(), "spk1");
    assert_eq!(device.name(), "Speakers");
    assert!(device.is_active());
    assert_eq!(device.state().kind(), DeviceStateKind::Active);
    assert!(matches!(device.state(), DeviceState::Active(h) if h.tag == 1));
    assert_eq!(device.sessions().len(), 2);
    let s1 = device.session(&"s1".to_string()).unwrap();
    assert_eq!(s1.display_name(), Some(&"music.exe".to_string()));
    assert_eq!(s1.pid(), 100);
    assert_eq!(s1.subscription().tag, 11);
    let s2 = device.session(&"s2".to_string()).unwrap();
    assert_eq!(s2.display_name(), Some(&"Game".to_string()));
    assert_eq!(s2.state(), SessionState::Inactive);
    assert!(device.session(&"s3".to_string()).is_none());
    assert_eq!(released.get(), 0);
    drop(device);
    assert_eq!(released.get(), 3);
}

#[test]
fn idle_device_opens_without_sessions() {
    for (raw, kind) in [
        (DEVICE_STATE_DISABLED, DeviceStateKind::Disabled),
        (DEVICE_STATE_NOTPRESENT, DeviceStateKind::NotPresent),
        (DEVICE_STATE_UNPLUGGED, DeviceStateKind::Unplugged),
    ] {
        let probe: DeviceProbe<u8, u8> =
            DeviceProbe { name: "Mic".to_string(), state: raw, activation: None };
        let device = DeviceInfo::new("mic1".to_string(), probe, &ProcessTable::new()).unwrap();
        assert_eq!(device.state().kind(), kind);
        assert!(!device.is_active());
        assert_eq!(device.sessions().len(), 0);
    }
}

#[test]
fn idle_device_drops_an_activation_it_was_given() {
    let released = Rc::new(Cell::new(0));
    let probe = DeviceProbe {
        name: "Mic".to_string(),
        state: DEVICE_STATE_UNPLUGGED,
        activation: Some(Activation {
            handle: held(1, &released),
            sessions: vec![probe_of("s1", 100, "", 1, held(2, &released))],
        }),
    };
    let device = DeviceInfo::new("mic1".to_string(), probe, &device_table()).unwrap();
    assert!(!device.is_active());
    assert_eq!(device.sessions().len(), 0);
    assert_eq!(released.get(), 2);
}

#[test]
fn device_with_unknown_state_is_rejected() {
    let probe: DeviceProbe<u8, u8> =
        DeviceProbe { name: "Mic".to_string(), state: 3, activation: None };
    let opened = DeviceInfo::new("mic1".to_string(), probe, &ProcessTable::new());
    assert!(matches!(opened, Err(Error::UnrecognizedValue(ValueKind::DeviceState))));
}

#[test]
fn active_device_without_activation_is_rejected() {
    let probe: DeviceProbe<u8, u8> =
        DeviceProbe { name: "Mic".to_string(), state: DEVICE_STATE_ACTIVE, activation: None };
    let opened = DeviceInfo::new("mic1".to_string(), probe, &ProcessTable::new());
    assert!(matches!(opened, Err(Error::MissingReply)));
}

#[test]
fn device_with_a_rejected_session_is_rejected_and_releases_everything() {
    let released = Rc::new(Cell::new(0));
    let probe = DeviceProbe {
        name: "Speakers".to_string(),
        state: DEVICE_STATE_ACTIVE,
        activation: Some(Activation {
            handle: held(1, &released),
            sessions: vec![
                probe_of("s1", 100, "", 1, held(11, &released)),
                probe_of("s2", 100, "", 9, held(12, &released)),
                probe_of("s3", 100, "", 1, held(13, &released)),
            ],
        }),
    };
    let opened = DeviceInfo::new("spk1".to_string(), probe, &device_table());
    assert!(matches!(opened, Err(Error::UnrecognizedValue(ValueKind::SessionState))));
    drop(opened);
    assert_eq!(released.get(), 4);
}

#[test]
fn later_session_of_the_same_instance_id_replaces_the_earlier() {
    let released = Rc::new(Cell::new(0));
    let probe = DeviceProbe {
        name: "Speakers".to_string(),
        state: DEVICE_STATE_ACTIVE,
        activation: Some(Activation {
            handle: held(1, &released),
            sessions: vec![
                probe_of("s1", 100, "first", 1, held(11, &released)),
                probe_of("s1", 100, "second", 1, held(12, &released)),
            ],
        }),
    };
    let device = DeviceInfo::new("spk1".to_string(), probe, &device_table()).unwrap();
    assert_eq!(device.sessions().len(), 1);
    let s1 = device.session(&"s1".to_string()).unwrap();
    assert_eq!(s1.display_name(), Some(&"second".to_string()));
    assert_eq!(s1.subscription().tag, 12);
    assert_eq!(released.get(), 1);
}

#[test]
fn deactivation_clears_the_sessions_and_releases_them() {
    let released = Rc::new(Cell::new(0));
    let mut device = active_device(&released);
    assert_eq!(device.set_state(DEVICE_STATE_DISABLED, None, &device_table()), Ok(()));
    assert!(!device.is_active());
    assert_eq!(device.state().kind(), DeviceStateKind::Disabled);
    assert_eq!(device.sessions().len(), 0);
    assert_eq!(released.get(), 3);
    assert_eq!(device.id(), "spk1");
    assert_eq!(device.name(), "Speakers");
}

#[test]
fn active_report_on_an_active_device_changes_nothing() {
    let released = Rc::new(Cell::new(0));
    let mut device = active_device(&released);
    let offered = Activation {
        handle: held(2, &released),
        sessions: vec![probe_of("s9", 100, "", 1, held(21, &released))],
    };
    assert_eq!(device.set_state(DEVICE_STATE_ACTIVE, Some(offered), &device_table()), Ok(()));
    assert!(matches!(device.state(), DeviceState::Active(h) if h.tag == 1));
    assert_eq!(device.sessions().len(), 2);
    assert!(device.session(&"s9".to_string()).is_none());
    // what was offered is released, what is held is not
    assert_eq!(released.get(), 2);
    assert_eq!(device.set_state(DEVICE_STATE_ACTIVE, None, &device_table()), Ok(()));
    assert_eq!(device.sessions().len(), 2);
    assert_eq!(released.get(), 2);
}

#[test]
fn activation_of_an_idle_device_takes_handle_and_sessions() {
    let released = Rc::new(Cell::new(0));
    let probe = DeviceProbe { name: "Speakers".to_string(), state: DEVICE_STATE_UNPLUGGED, activation: None };
    let mut device: DeviceInfo<Held, Held> =
        DeviceInfo::new("spk1".to_string(), probe, &device_table()).unwrap();
    let activation = Activation {
        handle: held(5, &released),
        sessions: vec![probe_of("s1", 100, "", 1, held(51, &released))],
    };
    assert_eq!(device.set_state(DEVICE_STATE_ACTIVE, Some(activation), &device_table()), Ok(()));
    assert!(matches!(device.state(), DeviceState::Active(h) if h.tag == 5));
    assert_eq!(device.sessions().len(), 1);
    assert_eq!(
        device.session(&"s1".to_string()).unwrap().display_name(),
        Some(&"music.exe".to_string())
    );
    assert_eq!(released.get(), 0);
}

#[test]
fn failed_state_changes_leave_the_device_as_it_was() {
    let released = Rc::new(Cell::new(0));
    let mut device = active_device(&released);
    assert_eq!(
        device.set_state(7, None, &device_table()),
        Err(Error::UnrecognizedValue(ValueKind::DeviceState))
    );
    assert!(device.is_active());
    assert_eq!(device.sessions().len(), 2);
    assert_eq!(released.get(), 0);

    let probe = DeviceProbe { name: "Mic".to_string(), state: DEVICE_STATE_DISABLED, activation: None };
    let mut idle: DeviceInfo<Held, Held> =
        DeviceInfo::new("mic1".to_string(), probe, &device_table()).unwrap();
    assert_eq!(idle.set_state(DEVICE_STATE_ACTIVE, None, &device_table()), Err(Error::MissingReply));
    assert_eq!(idle.state().kind(), DeviceStateKind::Disabled);
    let bad = Activation {
        handle: held(5, &released),
        sessions: vec![probe_of("s1", 100, "", 77, held(51, &released))],
    };
    assert_eq!(
        idle.set_state(DEVICE_STATE_ACTIVE, Some(bad), &device_table()),
        Err(Error::UnrecognizedValue(ValueKind::SessionState))
    );
    assert_eq!(idle.state().kind(), DeviceStateKind::Disabled);
    assert_eq!(idle.sessions().len(), 0);
    assert_eq!(released.get(), 2);
}

#[test]
fn activate_is_a_no_op_on_an_active_device() {
    let released = Rc::new(Cell::new(0));
    let mut device = active_device(&released);
    let offered = Activation { handle: held(2, &released), sessions: vec![] };
    assert_eq!(device.activate(offered, &device_table()), Ok(()));
    assert!(matches!(device.state(), DeviceState::Active(h) if h.tag == 1));
    assert_eq!(device.sessions().len(), 2);
    assert_eq!(released.get(), 1);
}

#[test]
fn sessions_can_be_inserted_renamed_and_removed() {
    let released = Rc::new(Cell::new(0));
    let table = device_table();
    let mut device = active_device(&released);
    let extra = SessionInfo::new(probe_of("s3", 100, "Call", 1, held(13, &released)), &table).unwrap();
    assert!(device.insert_session(extra).is_none());
    assert_eq!(device.sessions().len(), 3);

    let again = SessionInfo::new(probe_of("s3", 100, "Call 2", 1, held(14, &released)), &table).unwrap();
    let replaced = device.insert_session(again).unwrap();
    assert_eq!(replaced.subscription().tag, 13);
    assert_eq!(device.sessions().len(), 3);
    drop(replaced);
    assert_eq!(released.get(), 1);

    assert!(device.rename_session(&"s3".to_string(), Some(String::new()), &table));
    assert_eq!(
        device.session(&"s3".to_string()).unwrap().display_name(),
        Some(&"music.exe".to_string())
    );
    assert!(!device.rename_session(&"nope".to_string(), Some("x".to_string()), &table));

    assert!(device.set_session_state(&"s3".to_string(), SessionState::Inactive));
    assert_eq!(device.session(&"s3".to_string()).unwrap().state(), SessionState::Inactive);
    assert!(!device.set_session_state(&"nope".to_string(), SessionState::Inactive));

    let removed = device.remove_session(&"s3".to_string()).unwrap();
    assert_eq!(removed.subscription().tag, 14);
    assert!(device.remove_session(&"s3".to_string()).is_none());
    assert_eq!(device.sessions().len(), 2);
}

#[test]
fn idle_device_hands_an_inserted_session_back() {
    let released = Rc::new(Cell::new(0));
    let table = device_table();
    let probe = DeviceProbe { name: "Mic".to_string(), state: DEVICE_STATE_DISABLED, activation: None };
    let mut idle: DeviceInfo<Held, Held> = DeviceInfo::new("mic1".to_string(), probe, &table).unwrap();
    let session = SessionInfo::new(probe_of("s1", 100, "", 1, held(1, &released)), &table).unwrap();
    let back = idle.insert_session(session).unwrap();
    assert_eq!(back.instance_id(), "s1");
    assert_eq!(idle.sessions().len(), 0);
    assert_eq!(released.get(), 0);
}
