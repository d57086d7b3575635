use audio_registry::{
    find_sessions_for_pid, handle_device_event, handle_session_event, request_for,
    sessions_owned_by, Activation, DeviceEvent, DeviceInfo, DeviceMap, DeviceOutcome, DeviceProbe,
    DeviceState, DeviceStateKind, DisconnectReason, EDataFlow, ERole, Error, ProcessEntry,
    ProcessTable, Reply, Request, SessionEvent, SessionOutcome, SessionProbe,
    SessionSimpleVolumeChangedEvent, SessionState, ValueKind, DEVICE_STATE_ACTIVE,
    DEVICE_STATE_DISABLED, DEVICE_STATE_UNPLUGGED,
};
use std::cell::Cell;
use std::collections::HashSet;
use std::rc::Rc;

/// A handle that counts how often it was released.
#[derive(Debug)]
struct Token {
    tag: u32,
    released: Rc<Cell<u32>>,
}

impl Drop for Token {
    fn drop(&mut self) {
        self.released.set(self.released.get() + 1);
    }
}

type Registry = DeviceMap<Token, Token>;

fn token(tag: u32, released: &Rc<Cell<u32>>) -> Token {
    Token { tag, released: released.clone() }
}

fn processes() -> ProcessTable {
    ProcessTable::from_entries(vec![
        ProcessEntry { pid: 100, parent: None, name: "music.exe".to_string() },
        ProcessEntry { pid: 101, parent: Some(100), name: "helper.exe".to_string() },
        ProcessEntry { pid: 200, parent: None, name: "game.exe".to_string() },
    ])
}

fn session(instance_id: &str, pid: u32, name: &str, tag: u32, released: &Rc<Cell<u32>>) -> SessionProbe<Token> {
    SessionProbe {
        instance_id: instance_id.to_string(),
        id: String::new(),
        state: 1,
        pid,
        display_name: name.to_string(),
        subscription: token(tag, released),
    }
}

fn idle(name: &str, state: u32) -> Reply<Token, Token> {
    Reply::Device(DeviceProbe { name: name.to_string(), state, activation: None })
}

fn active(name: &str, tag: u32, sessions: Vec<SessionProbe<Token>>, released: &Rc<Cell<u32>>) -> Reply<Token, Token> {
    Reply::Device(DeviceProbe {
        name: name.to_string(),
        state: DEVICE_STATE_ACTIVE,
        activation: Some(Activation { handle: token(tag, released), sessions }),
    })
}

fn ids(registry: &Registry) -> HashSet<String> {
    let devices = registry.devices();
    (0..devices.len()).map(|i| devices.key_at(i).clone()).collect()
}

fn names(list: &[&str]) -> HashSet<String> {
    list.iter().map(|s| s.to_string()).collect()
}

fn pairs(list: Vec<(String, String)>) -> HashSet<(String, String)> {
    let n = list.len();
    let set: HashSet<(String, String)> = list.into_iter().collect();
    assert_eq!(set.len(), n, "a pair was reported twice");
    set
}

fn add(registry: &mut Registry, id: &str, reply: Reply<Token, Token>) -> Result<DeviceOutcome, Error> {
    handle_device_event(id, DeviceEvent::DeviceAdded, registry, reply, &processes())
}

fn spk1_with_s1(released: &Rc<Cell<u32>>) -> Registry {
    let mut registry = Registry::new();
    let reply = active("Speakers", 1, vec![session("s1", 100, "", 11, released)], released);
    assert_eq!(add(&mut registry, "spk1", reply), Ok(DeviceOutcome::DeviceAdded));
    registry
}

#[test]
fn new_registry_is_empty() {
    let registry = Registry::new();
    assert_eq!(registry.devices().len(), 0);
    assert!(registry.get(&"spk1".to_string()).is_none());
    for role in [ERole::Console, ERole::Multimedia, ERole::Communications] {
        for flow in [EDataFlow::Render, EDataFlow::Capture] {
            assert!(registry.default_device_id(flow, role).is_none());
            assert!(registry.get_default_device(flow, role).is_none());
        }
    }
}

#[test]
fn upsert_inserts_and_replaces() {
    let table = processes();
    let mut registry: DeviceMap<u8, u8> = DeviceMap::new();
    let first = DeviceInfo::new(
        "mic1".to_string(),
        DeviceProbe { name: "Mic".to_string(), state: DEVICE_STATE_DISABLED, activation: None },
        &table,
    )
    .unwrap();
    assert!(registry.upsert_device(first).is_none());
    let second = DeviceInfo::new(
        "mic1".to_string(),
        DeviceProbe { name: "Mic again".to_string(), state: DEVICE_STATE_UNPLUGGED, activation: None },
        &table,
    )
    .unwrap();
    let replaced = registry.upsert_device(second).unwrap();
    assert_eq!(replaced.name(), "Mic");
    assert_eq!(registry.devices().len(), 1);
    assert_eq!(registry.get(&"mic1".to_string()).unwrap().name(), "Mic again");
}

#[test]
fn remove_hands_the_entry_back_once() {
    let released = Rc::new(Cell::new(0));
    let mut registry = spk1_with_s1(&released);
    let removed = registry.remove_device(&"spk1".to_string()).unwrap();
    assert_eq!(removed.id(), "spk1");
    assert_eq!(removed.sessions().len(), 1);
    assert_eq!(released.get(), 0);
    drop(removed);
    assert_eq!(released.get(), 2);
    assert!(registry.remove_device(&"spk1".to_string()).is_none());
    assert_eq!(registry.devices().len(), 0);
}

#[test]
fn default_is_read_back_even_when_the_device_is_unknown() {
    let mut registry = Registry::new();
    let outcome = handle_device_event(
        "X",
        DeviceEvent::DefaultDeviceChanged(EDataFlow::Render, ERole::Console),
        &mut registry,
        Reply::Nothing,
        &processes(),
    );
    assert_eq!(outcome, Ok(DeviceOutcome::DefaultChanged));
    assert_eq!(
        registry.default_device_id(EDataFlow::Render, ERole::Console),
        Some(&"X".to_string())
    );
    // the reference dangles: the device itself is unknown, which is no error
    assert!(registry.get_default_device(EDataFlow::Render, ERole::Console).is_none());
    assert!(registry.default_device_id(EDataFlow::Capture, ERole::Console).is_none());
    assert!(registry.default_device_id(EDataFlow::Render, ERole::Multimedia).is_none());

    assert_eq!(add(&mut registry, "X", idle("Headset", DEVICE_STATE_DISABLED)), Ok(DeviceOutcome::DeviceAdded));
    let device = registry.get_default_device(EDataFlow::Render, ERole::Console).unwrap();
    assert_eq!(device.id(), "X");
    assert_eq!(device.name(), "Headset");
}

#[test]
fn default_for_all_flows_fans_out() {
    let mut registry = Registry::new();
    registry.set_default(EDataFlow::Capture, ERole::Multimedia, "old".to_string());
    registry.set_default(EDataFlow::All, ERole::Multimedia, "both".to_string());
    assert_eq!(
        registry.default_device_id(EDataFlow::Render, ERole::Multimedia),
        Some(&"both".to_string())
    );
    assert_eq!(
        registry.default_device_id(EDataFlow::Capture, ERole::Multimedia),
        Some(&"both".to_string())
    );
    assert!(registry.default_device_id(EDataFlow::Render, ERole::Console).is_none());
    assert!(registry.default_device_id(EDataFlow::Capture, ERole::Communications).is_none());
}

#[test]
fn each_cell_of_the_default_table_is_its_own() {
    let mut registry = Registry::new();
    let mut n = 0;
    for role in [ERole::Console, ERole::Multimedia, ERole::Communications] {
        for flow in [EDataFlow::Render, EDataFlow::Capture] {
            registry.set_default(flow, role, format!("dev{n}"));
            n += 1;
        }
    }
    let mut n = 0;
    for role in [ERole::Console, ERole::Multimedia, ERole::Communications] {
        for flow in [EDataFlow::Render, EDataFlow::Capture] {
            assert_eq!(registry.default_device_id(flow, role), Some(&format!("dev{n}")));
            n += 1;
        }
    }
    registry.set_default(EDataFlow::Render, ERole::Console, "latest".to_string());
    assert_eq!(
        registry.default_device_id(EDataFlow::Render, ERole::Console),
        Some(&"latest".to_string())
    );
    assert_eq!(
        registry.default_device_id(EDataFlow::Capture, ERole::Console),
        Some(&"dev1".to_string())
    );
}

#[test]
fn device_set_follows_additions_and_removals() {
    let released = Rc::new(Cell::new(0));
    let table = processes();
    let mut registry = Registry::new();
    assert_eq!(add(&mut registry, "a", idle("A", DEVICE_STATE_DISABLED)), Ok(DeviceOutcome::DeviceAdded));
    let reply = active("B", 2, vec![session("s1", 100, "", 21, &released)], &released);
    assert_eq!(add(&mut registry, "b", reply), Ok(DeviceOutcome::DeviceAdded));
    assert_eq!(ids(&registry), names(&["a", "b"]));

    // events about sessions, states and defaults do not change the set
    assert_eq!(
        handle_session_event(
            &mut registry,
            "b",
            "s1",
            SessionEvent::DisplayNameChanged("Radio".to_string()),
            &table
        ),
        SessionOutcome::Applied
    );
    assert_eq!(
        handle_session_event(
            &mut registry,
            "c",
            "s1",
            SessionEvent::SessionDisconnected(DisconnectReason::FormatChanged),
            &table
        ),
        SessionOutcome::DeviceNotFound
    );
    assert_eq!(
        handle_device_event("a", DeviceEvent::DeviceStateChanged(DEVICE_STATE_UNPLUGGED), &mut registry, Reply::Nothing, &table),
        Ok(DeviceOutcome::StateChanged)
    );
    assert_eq!(
        handle_device_event(
            "zzz",
            DeviceEvent::DefaultDeviceChanged(EDataFlow::All, ERole::Console),
            &mut registry,
            Reply::Nothing,
            &table
        ),
        Ok(DeviceOutcome::DefaultChanged)
    );
    assert_eq!(ids(&registry), names(&["a", "b"]));

    assert_eq!(add(&mut registry, "c", idle("C", DEVICE_STATE_DISABLED)), Ok(DeviceOutcome::DeviceAdded));
    assert_eq!(
        handle_device_event("a", DeviceEvent::DeviceRemoved, &mut registry, Reply::Nothing, &table),
        Ok(DeviceOutcome::DeviceRemoved)
    );
    assert_eq!(ids(&registry), names(&["b", "c"]));
    assert_eq!(
        handle_device_event("a", DeviceEvent::DeviceRemoved, &mut registry, Reply::Nothing, &table),
        Ok(DeviceOutcome::DeviceNotFound)
    );
    assert_eq!(add(&mut registry, "a", idle("A", DEVICE_STATE_DISABLED)), Ok(DeviceOutcome::DeviceAdded));
    assert_eq!(add(&mut registry, "a", idle("A2", DEVICE_STATE_DISABLED)), Ok(DeviceOutcome::DeviceAdded));
    assert_eq!(ids(&registry), names(&["a", "b", "c"]));
    assert_eq!(registry.get(&"a".to_string()).unwrap().name(), "A2");

    // an addition that fails adds nothing
    assert_eq!(add(&mut registry, "d", Reply::Failed(-3)), Err(Error::Platform(-3)));
    assert_eq!(add(&mut registry, "d", Reply::Nothing), Err(Error::MissingReply));
    assert_eq!(
        add(&mut registry, "d", idle("D", 3)),
        Err(Error::UnrecognizedValue(ValueKind::DeviceState))
    );
    assert_eq!(ids(&registry), names(&["a", "b", "c"]));
}

#[test]
fn removing_a_device_releases_what_it_held() {
    let released = Rc::new(Cell::new(0));
    let mut registry = spk1_with_s1(&released);
    assert_eq!(
        handle_device_event("spk1", DeviceEvent::DeviceRemoved, &mut registry, Reply::Nothing, &processes()),
        Ok(DeviceOutcome::DeviceRemoved)
    );
    assert_eq!(released.get(), 2);
}

#[test]
fn replacing_a_device_releases_what_the_old_entry_held() {
    let released = Rc::new(Cell::new(0));
    let mut registry = spk1_with_s1(&released);
    let reply = active("Speakers", 2, vec![], &released);
    assert_eq!(add(&mut registry, "spk1", reply), Ok(DeviceOutcome::DeviceAdded));
    assert_eq!(released.get(), 2);
    assert!(matches!(
        registry.get(&"spk1".to_string()).unwrap().state(),
        DeviceState::Active(h) if h.tag == 2
    ));
}

#[test]
fn active_report_twice_is_the_same_as_once() {
    let released = Rc::new(Cell::new(0));
    let table = processes();
    let mut registry = Registry::new();
    assert_eq!(add(&mut registry, "spk1", idle("Speakers", DEVICE_STATE_UNPLUGGED)), Ok(DeviceOutcome::DeviceAdded));
    let event = DeviceEvent::DeviceStateChanged(DEVICE_STATE_ACTIVE);
    assert_eq!(request_for(&registry, "spk1", &event), Request::Activate);
    let first = Reply::Activated(Activation {
        handle: token(1, &released),
        sessions: vec![session("s1", 100, "", 11, &released), session("s2", 200, "Game", 12, &released)],
    });
    assert_eq!(
        handle_device_event("spk1", event.clone(), &mut registry, first, &table),
        Ok(DeviceOutcome::StateChanged)
    );
    assert_eq!(request_for(&registry, "spk1", &event), Request::Nothing);
    let second = Reply::Activated(Activation {
        handle: token(2, &released),
        sessions: vec![session("s3", 100, "", 21, &released)],
    });
    assert_eq!(
        handle_device_event("spk1", event.clone(), &mut registry, second, &table),
        Ok(DeviceOutcome::StateChanged)
    );
    let device = registry.get(&"spk1".to_string()).unwrap();
    assert!(matches!(device.state(), DeviceState::Active(h) if h.tag == 1));
    assert_eq!(device.sessions().len(), 2);
    assert_eq!(device.session(&"s1".to_string()).unwrap().subscription().tag, 11);
    assert_eq!(device.session(&"s2".to_string()).unwrap().subscription().tag, 12);
    assert!(device.session(&"s3".to_string()).is_none());
    // only what the second report offered was released
    assert_eq!(released.get(), 2);
    assert_eq!(
        handle_device_event("spk1", event, &mut registry, Reply::Failed(-1), &table),
        Ok(DeviceOutcome::StateChanged)
    );
    assert_eq!(registry.get(&"spk1".to_string()).unwrap().sessions().len(), 2);
}

#[test]
fn failed_activation_leaves_the_device_idle_and_is_reported() {
    let released = Rc::new(Cell::new(0));
    let table = processes();
    let mut registry = Registry::new();
    assert_eq!(add(&mut registry, "spk1", idle("Speakers", DEVICE_STATE_DISABLED)), Ok(DeviceOutcome::DeviceAdded));
    let event = DeviceEvent::DeviceStateChanged(DEVICE_STATE_ACTIVE);
    assert_eq!(
        handle_device_event("spk1", event.clone(), &mut registry, Reply::Failed(-9), &table),
        Err(Error::Platform(-9))
    );
    assert_eq!(
        handle_device_event("spk1", event.clone(), &mut registry, Reply::Nothing, &table),
        Err(Error::MissingReply)
    );
    let mut bad = session("s1", 100, "", 11, &released);
    bad.state = 5;
    let reply = Reply::Activated(Activation { handle: token(1, &released), sessions: vec![bad] });
    assert_eq!(
        handle_device_event("spk1", event, &mut registry, reply, &table),
        Err(Error::UnrecognizedValue(ValueKind::SessionState))
    );
    let device = registry.get(&"spk1".to_string()).unwrap();
    assert_eq!(device.state().kind(), DeviceStateKind::Disabled);
    assert_eq!(device.sessions().len(), 0);
    assert_eq!(released.get(), 2);
    assert_eq!(
        handle_device_event("spk1", DeviceEvent::DeviceStateChanged(99), &mut registry, Reply::Nothing, &table),
        Err(Error::UnrecognizedValue(ValueKind::DeviceState))
    );
    assert_eq!(registry.get(&"spk1".to_string()).unwrap().state().kind(), DeviceStateKind::Disabled);
}

#[test]
fn deactivation_through_the_reconciler_clears_the_sessions() {
    let released = Rc::new(Cell::new(0));
    let mut registry = spk1_with_s1(&released);
    let event = DeviceEvent::DeviceStateChanged(DEVICE_STATE_UNPLUGGED);
    assert_eq!(request_for(&registry, "spk1", &event), Request::Nothing);
    assert_eq!(
        handle_device_event("spk1", event, &mut registry, Reply::Nothing, &processes()),
        Ok(DeviceOutcome::StateChanged)
    );
    let device = registry.get(&"spk1".to_string()).unwrap();
    assert_eq!(device.state().kind(), DeviceStateKind::Unplugged);
    assert_eq!(device.sessions().len(), 0);
    assert_eq!(released.get(), 2);
    // a late event for one of the cleared sessions is dropped
    assert_eq!(
        handle_session_event(
            &mut registry,
            "spk1",
            "s1",
            SessionEvent::StateChanged(SessionState::Inactive),
            &processes()
        ),
        SessionOutcome::SessionNotFound
    );
}

#[test]
fn state_change_of_an_unknown_device_is_dropped() {
    let released = Rc::new(Cell::new(0));
    let mut registry = Registry::new();
    let event = DeviceEvent::DeviceStateChanged(DEVICE_STATE_ACTIVE);
    assert_eq!(request_for(&registry, "ghost", &event), Request::Nothing);
    let reply = Reply::Activated(Activation { handle: token(1, &released), sessions: vec![] });
    assert_eq!(
        handle_device_event("ghost", event, &mut registry, reply, &processes()),
        Ok(DeviceOutcome::DeviceNotFound)
    );
    assert_eq!(registry.devices().len(), 0);
    assert_eq!(released.get(), 1);
}

#[test]
fn empty_display_name_resolves_to_the_process_name_and_disconnect_removes_the_session() {
    let released = Rc::new(Cell::new(0));
    let table = processes();
    let mut registry = spk1_with_s1(&released);
    {
        let device = registry.get(&"spk1".to_string()).unwrap();
        assert!(device.is_active());
        let s1 = device.session(&"s1".to_string()).unwrap();
        assert_eq!(s1.pid(), 100);
        assert_eq!(s1.display_name(), Some(&"music.exe".to_string()));
    }
    assert_eq!(
        handle_session_event(
            &mut registry,
            "spk1",
            "s1",
            SessionEvent::SessionDisconnected(DisconnectReason::DeviceRemoval),
            &table
        ),
        SessionOutcome::Disconnected
    );
    let device = registry.get(&"spk1".to_string()).unwrap();
    assert!(device.session(&"s1".to_string()).is_none());
    assert_eq!(device.sessions().len(), 0);
    assert!(device.is_active());
    assert_eq!(released.get(), 1);
}

#[test]
fn second_disconnect_is_dropped() {
    let released = Rc::new(Cell::new(0));
    let table = processes();
    let mut registry = Registry::new();
    let reply = active(
        "Speakers",
        1,
        vec![session("s1", 100, "", 11, &released), session("s2", 200, "", 12, &released)],
        &released,
    );
    assert_eq!(add(&mut registry, "spk1", reply), Ok(DeviceOutcome::DeviceAdded));
    for reason in [
        DisconnectReason::DeviceRemoval,
        DisconnectReason::ServerShutdown,
        DisconnectReason::FormatChanged,
        DisconnectReason::SessionLogoff,
        DisconnectReason::SessionDisconnected,
        DisconnectReason::ExclusiveModeOverride,
        DisconnectReason::SessionExpired,
    ] {
        let outcome = handle_session_event(
            &mut registry,
            "spk1",
            "s1",
            SessionEvent::SessionDisconnected(reason),
            &table,
        );
        let expected = if reason == DisconnectReason::DeviceRemoval {
            SessionOutcome::Disconnected
        } else {
            SessionOutcome::SessionNotFound
        };
        assert_eq!(outcome, expected);
        let device = registry.get(&"spk1".to_string()).unwrap();
        assert!(device.session(&"s1".to_string()).is_none());
        assert!(device.session(&"s2".to_string()).is_some());
        assert_eq!(released.get(), 1);
    }
}

#[test]
fn session_events_change_only_what_they_name() {
    let released = Rc::new(Cell::new(0));
    let table = processes();
    let mut registry = Registry::new();
    let reply = active(
        "Speakers",
        1,
        vec![session("s1", 100, "One", 11, &released), session("s2", 200, "Two", 12, &released)],
        &released,
    );
    assert_eq!(add(&mut registry, "spk1", reply), Ok(DeviceOutcome::DeviceAdded));

    let quiet = [
        SessionEvent::SimpleVolumeChanged(SessionSimpleVolumeChangedEvent {
            volume_bits: 0.5f32.to_bits(),
            mute: true,
        }),
        SessionEvent::IconPathChanged("icon.ico".to_string()),
        SessionEvent::GroupingParamChanged(42),
    ];
    for event in quiet {
        assert_eq!(
            handle_session_event(&mut registry, "spk1", "s1", event, &table),
            SessionOutcome::Applied
        );
    }
    {
        let device = registry.get(&"spk1".to_string()).unwrap();
        let s1 = device.session(&"s1".to_string()).unwrap();
        assert_eq!(s1.display_name(), Some(&"One".to_string()));
        assert_eq!(s1.state(), SessionState::Active);
    }
    assert_eq!(
        handle_session_event(
            &mut registry,
            "spk1",
            "s1",
            SessionEvent::DisplayNameChanged(String::new()),
            &table
        ),
        SessionOutcome::Applied
    );
    assert_eq!(
        handle_session_event(
            &mut registry,
            "spk1",
            "s2",
            SessionEvent::StateChanged(SessionState::Inactive),
            &table
        ),
        SessionOutcome::Applied
    );
    let device = registry.get(&"spk1".to_string()).unwrap();
    let s1 = device.session(&"s1".to_string()).unwrap();
    let s2 = device.session(&"s2".to_string()).unwrap();
    assert_eq!(s1.display_name(), Some(&"music.exe".to_string()));
    assert_eq!(s1.state(), SessionState::Active);
    assert_eq!(s2.display_name(), Some(&"Two".to_string()));
    assert_eq!(s2.state(), SessionState::Inactive);
    assert_eq!(released.get(), 0);
}

#[test]
fn session_event_for_missing_entities_is_dropped() {
    let released = Rc::new(Cell::new(0));
    let table = processes();
    let mut registry = spk1_with_s1(&released);
    assert_eq!(
        handle_session_event(
            &mut registry,
            "nowhere",
            "s1",
            SessionEvent::DisplayNameChanged("x".to_string()),
            &table
        ),
        SessionOutcome::DeviceNotFound
    );
    assert_eq!(
        handle_session_event(
            &mut registry,
            "spk1",
            "s9",
            SessionEvent::DisplayNameChanged("x".to_string()),
            &table
        ),
        SessionOutcome::SessionNotFound
    );
    let device = registry.get(&"spk1".to_string()).unwrap();
    assert_eq!(
        device.session(&"s1".to_string()).unwrap().display_name(),
        Some(&"music.exe".to_string())
    );
}

#[test]
fn created_session_is_added_to_an_active_device() {
    let released = Rc::new(Cell::new(0));
    let table = processes();
    let mut registry = spk1_with_s1(&released);
    let event = DeviceEvent::SessionCreated("s2".to_string());
    assert_eq!(request_for(&registry, "spk1", &event), Request::OpenSession);
    let reply = Reply::Session(Some(session("s2", 101, "", 12, &released)));
    assert_eq!(
        handle_device_event("spk1", event, &mut registry, reply, &table),
        Ok(DeviceOutcome::SessionCreated)
    );
    let device = registry.get(&"spk1".to_string()).unwrap();
    assert_eq!(device.sessions().len(), 2);
    let s2 = device.session(&"s2".to_string()).unwrap();
    assert_eq!(s2.display_name(), Some(&"helper.exe".to_string()));
    assert_eq!(s2.pid(), 101);
    assert_eq!(released.get(), 0);
}

#[test]
fn created_session_that_cannot_be_applied_is_dropped_or_reported() {
    let released = Rc::new(Cell::new(0));
    let table = processes();
    let mut registry = spk1_with_s1(&released);
    assert_eq!(add(&mut registry, "mic1", idle("Mic", DEVICE_STATE_DISABLED)), Ok(DeviceOutcome::DeviceAdded));
    let created = || DeviceEvent::SessionCreated("s2".to_string());

    assert_eq!(request_for(&registry, "ghost", &created()), Request::Nothing);
    assert_eq!(
        handle_device_event("ghost", created(), &mut registry, Reply::Nothing, &table),
        Ok(DeviceOutcome::DeviceNotFound)
    );
    assert_eq!(request_for(&registry, "mic1", &created()), Request::Nothing);
    let reply = Reply::Session(Some(session("s2", 101, "", 12, &released)));
    assert_eq!(
        handle_device_event("mic1", created(), &mut registry, reply, &table),
        Ok(DeviceOutcome::DeviceNotActive)
    );
    assert_eq!(released.get(), 1);
    assert_eq!(
        handle_device_event("spk1", created(), &mut registry, Reply::Session(None), &table),
        Ok(DeviceOutcome::SessionNotFound)
    );
    let other = Reply::Session(Some(session("s7", 101, "", 13, &released)));
    assert_eq!(
        handle_device_event("spk1", created(), &mut registry, other, &table),
        Ok(DeviceOutcome::SessionNotFound)
    );
    assert_eq!(released.get(), 2);
    assert_eq!(
        handle_device_event("spk1", created(), &mut registry, Reply::Failed(-4), &table),
        Err(Error::Platform(-4))
    );
    assert_eq!(
        handle_device_event("spk1", created(), &mut registry, Reply::Nothing, &table),
        Err(Error::MissingReply)
    );
    let mut bad = session("s2", 101, "", 14, &released);
    bad.state = -2;
    assert_eq!(
        handle_device_event("spk1", created(), &mut registry, Reply::Session(Some(bad)), &table),
        Err(Error::UnrecognizedValue(ValueKind::SessionState))
    );
    assert_eq!(released.get(), 3);
    assert_eq!(registry.get(&"spk1".to_string()).unwrap().sessions().len(), 1);
    assert_eq!(registry.get(&"mic1".to_string()).unwrap().sessions().len(), 0);
}

#[test]
fn requests_for_events_that_need_nothing() {
    let released = Rc::new(Cell::new(0));
    let registry = spk1_with_s1(&released);
    assert_eq!(request_for(&registry, "new", &DeviceEvent::DeviceAdded), Request::OpenDevice);
    assert_eq!(request_for(&registry, "spk1", &DeviceEvent::DeviceAdded), Request::OpenDevice);
    assert_eq!(request_for(&registry, "spk1", &DeviceEvent::DeviceRemoved), Request::Nothing);
    assert_eq!(
        request_for(&registry, "spk1", &DeviceEvent::DefaultDeviceChanged(EDataFlow::All, ERole::Console)),
        Request::Nothing
    );
    assert_eq!(
        request_for(&registry, "spk1", &DeviceEvent::DeviceStateChanged(DEVICE_STATE_ACTIVE)),
        Request::Nothing
    );
    assert_eq!(
        request_for(&registry, "spk1", &DeviceEvent::DeviceStateChanged(DEVICE_STATE_DISABLED)),
        Request::Nothing
    );
    assert_eq!(request_for(&registry, "spk1", &DeviceEvent::DeviceStateChanged(77)), Request::Nothing);
}

#[test]
fn focus_on_a_parent_finds_the_session_of_its_child() {
    let released = Rc::new(Cell::new(0));
    let mut registry = Registry::new();
    let reply = active("Speakers", 1, vec![session("sid-101", 101, "", 11, &released)], &released);
    assert_eq!(add(&mut registry, "spk1", reply), Ok(DeviceOutcome::DeviceAdded));
    let found = find_sessions_for_pid(100, &registry, &processes());
    assert_eq!(found, vec![("spk1".to_string(), "sid-101".to_string())]);
    assert_eq!(find_sessions_for_pid(101, &registry, &processes()), found);
    assert!(find_sessions_for_pid(200, &registry, &processes()).is_empty());
    assert!(find_sessions_for_pid(100, &registry, &ProcessTable::new()).is_empty());
}

#[test]
fn focus_scans_every_device() {
    let released = Rc::new(Cell::new(0));
    let table = processes();
    let mut registry = Registry::new();
    let spk = active(
        "Speakers",
        1,
        vec![
            session("a", 100, "", 11, &released),
            session("b", 200, "", 12, &released),
            session("c", 101, "", 13, &released),
        ],
        &released,
    );
    assert_eq!(add(&mut registry, "spk1", spk), Ok(DeviceOutcome::DeviceAdded));
    let hp = active(
        "Headphones",
        2,
        vec![session("a", 101, "", 21, &released), session("d", 999, "", 22, &released)],
        &released,
    );
    assert_eq!(add(&mut registry, "hp1", hp), Ok(DeviceOutcome::DeviceAdded));
    assert_eq!(add(&mut registry, "mic1", idle("Mic", DEVICE_STATE_DISABLED)), Ok(DeviceOutcome::DeviceAdded));

    let expected: HashSet<(String, String)> = [("spk1", "a"), ("spk1", "c"), ("hp1", "a")]
        .iter()
        .map(|(d, s)| (d.to_string(), s.to_string()))
        .collect();
    assert_eq!(pairs(find_sessions_for_pid(100, &registry, &table)), expected);

    let expected: HashSet<(String, String)> =
        [("spk1".to_string(), "b".to_string())].into_iter().collect();
    assert_eq!(pairs(find_sessions_for_pid(200, &registry, &table)), expected);

    let chosen: HashSet<u32> = [999, 200].into_iter().collect();
    let expected: HashSet<(String, String)> = [("spk1", "b"), ("hp1", "d")]
        .iter()
        .map(|(d, s)| (d.to_string(), s.to_string()))
        .collect();
    assert_eq!(pairs(sessions_owned_by(&registry, &chosen)), expected);
    assert!(sessions_owned_by(&registry, &HashSet::new()).is_empty());
}
