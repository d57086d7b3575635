//! The reconciler: how each event changes the registry.
//!
//! Applying an event never calls the platform. Where an event can only be
//! applied with something the platform has to provide, [`request_for`] says
//! what that is, the caller obtains it, and hands it in as a [`Reply`].

use vstd::prelude::*;
use crate::device::{device_of, Activation, DeviceInfo, DeviceProbe, DeviceStateKind, DeviceView};
use crate::error::Error;
use crate::event::{DeviceEvent, Event, SessionEvent};
use crate::focus::{find_sessions_for_pid, pair_views};
use crate::kinds::{EDataFlow, ERole};
use crate::process::{tree, ProcessTable, ProcessView};
use crate::registry::{DeviceMap, RegistryView};
use crate::session::{session_of, SessionInfo, SessionProbe};
use crate::table::reversed;

verus! {

/// What the platform has to be asked before a device event is applied.
#[derive(Clone, Copy, Debug, PartialEq, Eq, Structural)]
pub enum Request {
    /// The event can be applied as it is.
    Nothing,
    /// Open the device and read its name and state; if the state can only be
    /// entered with a handle, activate the device as for `Activate`.
    OpenDevice,
    /// Acquire the device's session-management handle, subscribe to its
    /// session-created notifications and, once subscribed, enumerate and
    /// open the sessions that exist on it.
    Activate,
    /// Enumerate the sessions of the device and open the one that the event
    /// names, if it is among them.
    OpenSession,
}

/// What the platform gave in answer to a [`Request`].
#[derive(Debug)]
pub enum Reply<M, S> {
    /// Nothing was asked.
    Nothing,
    /// The platform call failed with this result code.
    Failed(i32),
    /// Answer to `OpenDevice`.
    Device(DeviceProbe<M, S>),
    /// Answer to `Activate`.
    Activated(Activation<M, S>),
    /// Answer to `OpenSession`; none if no session of that instance id was
    /// found.
    Session(Option<SessionProbe<S>>),
}

/// What applying a device event did.
#[derive(Clone, Copy, Debug, PartialEq, Eq, Structural)]
pub enum DeviceOutcome {
    DefaultChanged,
    DeviceAdded,
    DeviceRemoved,
    StateChanged,
    SessionCreated,
    /// The event names a device that the registry does not hold; it was
    /// dropped.
    DeviceNotFound,
    /// A session was announced on a device that is not active; the event was
    /// dropped.
    DeviceNotActive,
    /// The announced session was not among those of the device; the event
    /// was dropped.
    SessionNotFound,
}

/// What applying a session event did.
#[derive(Clone, Copy, Debug, PartialEq, Eq, Structural)]
pub enum SessionOutcome {
    /// The session is known; the event was applied to it.
    Applied,
    /// The session was taken out of its device.
    Disconnected,
    /// The event names a device that the registry does not hold; it was
    /// dropped.
    DeviceNotFound,
    /// The event names a session that its device does not hold; it was
    /// dropped.
    SessionNotFound,
}

impl<M, S> Reply<M, S> {
    /// The activation that this reply carries, if any.
    pub open spec fn activation(self) -> Option<Activation<M, S>> {
        match self {
            Reply::Activated(a) => Some(a),
            _ => None,
        }
    }
}

impl<M, S> RegistryView<M, S> {
    /// This registry with `device` stored under `id`.
    pub open spec fn with_device_at(self, id: Seq<char>, device: DeviceView<M, S>) -> Self {
        RegistryView { devices: self.devices.insert(id, device), ..self }
    }

    /// Whether the device `id` is known, is not active, and is reported to
    /// be in the active state.
    pub open spec fn awaits_activation(self, id: Seq<char>, new_state: u32) -> bool {
        &&& self.devices.contains_key(id)
        &&& !(self.devices[id].state is Active)
        &&& DeviceStateKind::decode(new_state as int) == Some(DeviceStateKind::Active)
    }

    /// What the platform has to be asked before `event` is applied.
    pub open spec fn request(self, id: Seq<char>, event: DeviceEvent) -> Request {
        match event {
            DeviceEvent::DeviceAdded => Request::OpenDevice,
            DeviceEvent::DeviceStateChanged(new_state) => if self.awaits_activation(id, new_state) {
                Request::Activate
            } else {
                Request::Nothing
            },
            DeviceEvent::SessionCreated(_) => if self.devices.contains_key(id)
                && self.devices[id].state is Active {
                Request::OpenSession
            } else {
                Request::Nothing
            },
            _ => Request::Nothing,
        }
    }

    /// The registry after a device event, and what applying it did.
    ///
    /// An event about an unknown device is dropped, except that a default
    /// may be assigned to a device that is not known yet. A failure leaves
    /// the registry as it was.
    pub open spec fn device_step(
        self,
        id: Seq<char>,
        event: DeviceEvent,
        reply: Reply<M, S>,
        procs: Map<u32, ProcessView>,
    ) -> (Self, Result<DeviceOutcome, Error>) {
        match event {
            DeviceEvent::DefaultDeviceChanged(flow, role) => (
                self.with_default(flow, role, id),
                Ok(DeviceOutcome::DefaultChanged),
            ),
            DeviceEvent::DeviceAdded => match reply {
                Reply::Device(probe) => match device_of(id, probe, procs) {
                    Ok(device) => (self.with_device_at(id, device), Ok(DeviceOutcome::DeviceAdded)),
                    Err(e) => (self, Err(e)),
                },
                Reply::Failed(code) => (self, Err(Error::Platform(code))),
                _ => (self, Err(Error::MissingReply)),
            },
            DeviceEvent::DeviceRemoved => if self.devices.contains_key(id) {
                (self.without_device(id), Ok(DeviceOutcome::DeviceRemoved))
            } else {
                (self, Ok(DeviceOutcome::DeviceNotFound))
            },
            DeviceEvent::DeviceStateChanged(new_state) => if !self.devices.contains_key(id) {
                (self, Ok(DeviceOutcome::DeviceNotFound))
            } else if reply is Failed && self.awaits_activation(id, new_state) {
                (self, Err(Error::Platform(reply->Failed_0)))
            } else {
                match self.devices[id].with_state(new_state, reply.activation(), procs) {
                    Ok(device) => (
                        self.with_device_at(id, device),
                        Ok(DeviceOutcome::StateChanged),
                    ),
                    Err(e) => (self, Err(e)),
                }
            },
            DeviceEvent::SessionCreated(instance_id) => if !self.devices.contains_key(id) {
                (self, Ok(DeviceOutcome::DeviceNotFound))
            } else if !(self.devices[id].state is Active) {
                (self, Ok(DeviceOutcome::DeviceNotActive))
            } else {
                match reply {
                    Reply::Failed(code) => (self, Err(Error::Platform(code))),
                    Reply::Session(Some(probe)) => if probe.instance_id@ == instance_id@ {
                        match session_of(probe, procs) {
                            Ok(session) => (
                                self.with_device_at(id, self.devices[id].with_session(session)),
                                Ok(DeviceOutcome::SessionCreated),
                            ),
                            Err(e) => (self, Err(e)),
                        }
                    } else {
                        (self, Ok(DeviceOutcome::SessionNotFound))
                    },
                    Reply::Session(None) => (self, Ok(DeviceOutcome::SessionNotFound)),
                    _ => (self, Err(Error::MissingReply)),
                }
            },
        }
    }

    /// The registry after a session event, and what applying it did.
    ///
    /// An event about an unknown device or session is dropped.
    pub open spec fn session_step(
        self,
        id: Seq<char>,
        instance_id: Seq<char>,
        event: SessionEvent,
        procs: Map<u32, ProcessView>,
    ) -> (Self, SessionOutcome) {
        if !self.devices.contains_key(id) {
            (self, SessionOutcome::DeviceNotFound)
        } else if !self.devices[id].sessions.contains_key(instance_id) {
            (self, SessionOutcome::SessionNotFound)
        } else {
            match event {
                SessionEvent::DisplayNameChanged(name) => (
                    self.with_device_at(
                        id,
                        self.devices[id].with_renamed_session(instance_id, Some(name@), procs),
                    ),
                    SessionOutcome::Applied,
                ),
                SessionEvent::StateChanged(state) => (
                    self.with_device_at(
                        id,
                        self.devices[id].with_session_state(instance_id, state),
                    ),
                    SessionOutcome::Applied,
                ),
                SessionEvent::SessionDisconnected(_) => (
                    self.with_device_at(id, self.devices[id].without_session(instance_id)),
                    SessionOutcome::Disconnected,
                ),
                _ => (self, SessionOutcome::Applied),
            }
        }
    }
}

/// One step of a run: an event, what the platform replied to it where that
/// applies, and the process snapshot it was applied with.
pub enum Step<M, S> {
    /// An event about the device of the given id.
    Device(Seq<char>, DeviceEvent, Reply<M, S>, Map<u32, ProcessView>),
    /// An event about the session of the given device id and instance id.
    Session(Seq<char>, Seq<char>, SessionEvent, Map<u32, ProcessView>),
}

impl<M, S> Step<M, S> {
    /// Whether this step adds a device that the platform opened with
    /// success.
    pub open spec fn adds(self) -> bool {
        match self {
            Step::Device(id, DeviceEvent::DeviceAdded, Reply::Device(probe), procs) => device_of(
                id,
                probe,
                procs,
            ) is Ok,
            _ => false,
        }
    }

    /// Whether this step removes a device.
    pub open spec fn removes(self) -> bool {
        match self {
            Step::Device(_, DeviceEvent::DeviceRemoved, _, _) => true,
            _ => false,
        }
    }

    /// The id of the device that this step is about.
    pub open spec fn device_id(self) -> Seq<char> {
        match self {
            Step::Device(id, _, _, _) => id,
            Step::Session(id, _, _, _) => id,
        }
    }
}

impl<M, S> RegistryView<M, S> {
    /// The registry after one step.
    pub open spec fn step(self, step: Step<M, S>) -> Self {
        match step {
            Step::Device(id, event, reply, procs) => self.device_step(id, event, reply, procs).0,
            Step::Session(id, instance_id, event, procs) => self.session_step(
                id,
                instance_id,
                event,
                procs,
            ).0,
        }
    }

    /// The registry after a run of steps, applied in order.
    pub open spec fn run(self, steps: Seq<Step<M, S>>) -> Self
        decreases steps.len(),
    {
        if steps.len() == 0 {
            self
        } else {
            self.run(steps.drop_last()).step(steps.last())
        }
    }
}

/// What the platform has to be asked before `device_event` is applied.
pub fn request_for<M, S>(
    device_map: &DeviceMap<M, S>,
    device_id: &str,
    device_event: &DeviceEvent,
) -> (request: Request)
    ensures
        request == device_map@.request(device_id@, *device_event),
{
    let id = device_id.to_owned();
    match device_event {
        DeviceEvent::DeviceAdded => Request::OpenDevice,
        DeviceEvent::DeviceStateChanged(new_state) => match device_map.get(&id) {
            Some(device) => if !device.is_active() && DeviceInfo::<M, S>::needs_handle(*new_state) {
                Request::Activate
            } else {
                Request::Nothing
            },
            None => Request::Nothing,
        },
        DeviceEvent::SessionCreated(_) => match device_map.get(&id) {
            Some(device) => if device.is_active() {
                Request::OpenSession
            } else {
                Request::Nothing
            },
            None => Request::Nothing,
        },
        _ => Request::Nothing,
    }
}

/// Applies a device event to the registry.
///
/// `reply` is what the platform gave in answer to the event's request. What
/// of it the registry does not keep is dropped, and thereby released.
pub fn handle_device_event<M, S>(
    device_id: &str,
    device_event: DeviceEvent,
    device_map: &mut DeviceMap<M, S>,
    reply: Reply<M, S>,
    table: &ProcessTable,
) -> (outcome: Result<DeviceOutcome, Error>)
    ensures
        final(device_map)@ == old(device_map)@.device_step(
            device_id@,
            device_event,
            reply,
            table@,
        ).0,
        outcome == old(device_map)@.device_step(device_id@, device_event, reply, table@).1,
{
    let id = device_id.to_owned();
    let ghost before = device_map@;
    proof {
        use_type_invariant(&*device_map);
        device_map.lemma_wf();
    }
    match device_event {
        DeviceEvent::DefaultDeviceChanged(flow, role) => {
            device_map.set_default(flow, role, id);
            Ok(DeviceOutcome::DefaultChanged)
        },
        DeviceEvent::DeviceAdded => match reply {
            Reply::Device(probe) => match DeviceInfo::new(id, probe, table) {
                Ok(device) => {
                    device_map.upsert_device(device);
                    Ok(DeviceOutcome::DeviceAdded)
                },
                Err(e) => Err(e),
            },
            Reply::Failed(code) => Err(Error::Platform(code)),
            _ => Err(Error::MissingReply),
        },
        DeviceEvent::DeviceRemoved => match device_map.remove_device(&id) {
            Some(_) => Ok(DeviceOutcome::DeviceRemoved),
            None => {
                proof {
                    assert(before.devices.remove(id@) =~= before.devices);
                }
                Ok(DeviceOutcome::DeviceNotFound)
            },
        },
        DeviceEvent::DeviceStateChanged(new_state) => match device_map.remove_device(&id) {
            None => {
                proof {
                    assert(before.devices.remove(id@) =~= before.devices);
                }
                Ok(DeviceOutcome::DeviceNotFound)
            },
            Some(device) => {
                let mut device = device;
                let awaits = DeviceInfo::<M, S>::needs_handle(new_state) && !device.is_active();
                let done = match reply {
                    Reply::Failed(code) => if awaits {
                        Err(Error::Platform(code))
                    } else {
                        device.set_state(new_state, None, table)
                    },
                    Reply::Activated(a) => device.set_state(new_state, Some(a), table),
                    _ => device.set_state(new_state, None, table),
                };
                device_map.upsert_device(device);
                proof {
                    assert(before.devices.remove(id@).insert(id@, device@) =~= before.devices.insert(
                        id@,
                        device@,
                    ));
                    assert(before.devices.insert(id@, before.devices[id@]) =~= before.devices);
                }
                match done {
                    Ok(()) => Ok(DeviceOutcome::StateChanged),
                    Err(e) => Err(e),
                }
            },
        },
        DeviceEvent::SessionCreated(instance_id) => match device_map.remove_device(&id) {
            None => {
                proof {
                    assert(before.devices.remove(id@) =~= before.devices);
                }
                Ok(DeviceOutcome::DeviceNotFound)
            },
            Some(device) => {
                let mut device = device;
                let outcome = if !device.is_active() {
                    Ok(DeviceOutcome::DeviceNotActive)
                } else {
                    match reply {
                        Reply::Failed(code) => Err(Error::Platform(code)),
                        Reply::Session(Some(probe)) => if probe.instance_id == instance_id {
                            match SessionInfo::new(probe, table) {
                                Ok(session) => {
                                    device.insert_session(session);
                                    Ok(DeviceOutcome::SessionCreated)
                                },
                                Err(e) => Err(e),
                            }
                        } else {
                            Ok(DeviceOutcome::SessionNotFound)
                        },
                        Reply::Session(None) => Ok(DeviceOutcome::SessionNotFound),
                        _ => Err(Error::MissingReply),
                    }
                };
                device_map.upsert_device(device);
                proof {
                    assert(before.devices.remove(id@).insert(id@, device@) =~= before.devices.insert(
                        id@,
                        device@,
                    ));
                    assert(before.devices.insert(id@, before.devices[id@]) =~= before.devices);
                }
                outcome
            },
        },
    }
}

/// Applies a session event to the registry.
///
/// A disconnected session is taken out of its device and dropped, which
/// releases its subscription, whatever the reason of the disconnect.
pub fn handle_session_event<M, S>(
    device_map: &mut DeviceMap<M, S>,
    device_id: &str,
    session_instance_id: &str,
    session_event: SessionEvent,
    table: &ProcessTable,
) -> (outcome: SessionOutcome)
    ensures
        final(device_map)@ == old(device_map)@.session_step(
            device_id@,
            session_instance_id@,
            session_event,
            table@,
        ).0,
        outcome == old(device_map)@.session_step(
            device_id@,
            session_instance_id@,
            session_event,
            table@,
        ).1,
{
    let id = device_id.to_owned();
    let instance_id = session_instance_id.to_owned();
    let ghost before = device_map@;
    proof {
        use_type_invariant(&*device_map);
        device_map.lemma_wf();
    }
    match device_map.get(&id) {
        None => {
            return SessionOutcome::DeviceNotFound;
        },
        Some(device) => {
            if device.session(&instance_id).is_none() {
                return SessionOutcome::SessionNotFound;
            }
        },
    }
    match session_event {
        SessionEvent::DisplayNameChanged(name) => {
            let mut device = device_map.remove_device(&id).unwrap();
            device.rename_session(&instance_id, Some(name), table);
            device_map.upsert_device(device);
            proof {
                assert(before.devices.remove(id@).insert(id@, device@) =~= before.devices.insert(
                    id@,
                    device@,
                ));
            }
            SessionOutcome::Applied
        },
        SessionEvent::StateChanged(state) => {
            let mut device = device_map.remove_device(&id).unwrap();
            device.set_session_state(&instance_id, state);
            device_map.upsert_device(device);
            proof {
                assert(before.devices.remove(id@).insert(id@, device@) =~= before.devices.insert(
                    id@,
                    device@,
                ));
            }
            SessionOutcome::Applied
        },
        SessionEvent::SessionDisconnected(_) => {
            let mut device = device_map.remove_device(&id).unwrap();
            device.remove_session(&instance_id);
            device_map.upsert_device(device);
            proof {
                assert(before.devices.remove(id@).insert(id@, device@) =~= before.devices.insert(
                    id@,
                    device@,
                ));
            }
            SessionOutcome::Disconnected
        },
        _ => SessionOutcome::Applied,
    }
}

/// What applying an event did.
#[derive(Debug)]
pub enum Reconciled {
    /// What a device event did, or why it could not be applied.
    Device(Result<DeviceOutcome, Error>),
    /// What a session event did.
    Session(SessionOutcome),
    /// The sessions that the newly focused process or one of its
    /// descendants owns, as pairs of device id and session instance id.
    Focus(Vec<(String, String)>),
}

/// Applies one event of the queue to the registry.
///
/// Device and session events change the registry as [`handle_device_event`]
/// and [`handle_session_event`] say; a change of focus changes nothing and
/// reports the sessions of the focused process tree.
pub fn reconcile<M, S>(
    event: Event,
    device_map: &mut DeviceMap<M, S>,
    reply: Reply<M, S>,
    table: &ProcessTable,
) -> (done: Reconciled)
    ensures
        match event {
            Event::Device(id, device_event) => {
                let stepped = old(device_map)@.device_step(id@, device_event, reply, table@);
                &&& final(device_map)@ == stepped.0
                &&& done matches Reconciled::Device(outcome) && outcome == stepped.1
            },
            Event::Session(id, instance_id, session_event) => {
                let stepped = old(device_map)@.session_step(
                    id@,
                    instance_id@,
                    session_event,
                    table@,
                );
                &&& final(device_map)@ == stepped.0
                &&& done matches Reconciled::Session(outcome) && outcome == stepped.1
            },
            Event::ActiveWindowChange(pid) => {
                &&& final(device_map)@ == old(device_map)@
                &&& done matches Reconciled::Focus(sessions) && pair_views(
                    sessions@,
                ).no_duplicates() && pair_views(sessions@).to_set() == old(
                    device_map,
                )@.owned_sessions(tree(table@, pid))
            },
        },
{
    match event {
        Event::Device(id, device_event) => Reconciled::Device(
            handle_device_event(id.as_str(), device_event, device_map, reply, table),
        ),
        Event::Session(id, instance_id, session_event) => Reconciled::Session(
            handle_session_event(
                device_map,
                id.as_str(),
                instance_id.as_str(),
                session_event,
                table,
            ),
        ),
        Event::ActiveWindowChange(pid) => Reconciled::Focus(
            find_sessions_for_pid(pid, device_map, table),
        ),
    }
}

/// The run that fills a registry at start: every enumerated device is
/// added with what opening it gave, then every default is assigned.
pub open spec fn init_steps<M, S>(
    devices: Seq<(String, Reply<M, S>)>,
    defaults: Seq<(EDataFlow, ERole, String)>,
    procs: Map<u32, ProcessView>,
) -> Seq<Step<M, S>> {
    Seq::new(
        devices.len() + defaults.len(),
        |i: int|
            if i < devices.len() {
                Step::Device(devices[i].0@, DeviceEvent::DeviceAdded, devices[i].1, procs)
            } else {
                let assignment = defaults[i - devices.len()];
                Step::Device(
                    assignment.2@,
                    DeviceEvent::DefaultDeviceChanged(assignment.0, assignment.1),
                    Reply::Nothing,
                    procs,
                )
            },
    )
}

/// The registry at start, from a full enumeration of the devices and of the
/// defaults.
///
/// A device that could not be opened is left out; the others are added in
/// the order of the enumeration. A default may name a device that was left
/// out.
pub fn init_device_map<M, S>(
    devices: Vec<(String, Reply<M, S>)>,
    defaults: Vec<(EDataFlow, ERole, String)>,
    table: &ProcessTable,
) -> (device_map: DeviceMap<M, S>)
    ensures
        device_map@ == RegistryView::<M, S>::empty().run(init_steps(devices@, defaults@, table@)),
{
    let ghost steps = init_steps(devices@, defaults@, table@);
    let ghost opened = devices@;
    let ghost assigned = defaults@;
    let mut device_map: DeviceMap<M, S> = DeviceMap::new();
    let mut rest = reversed(devices);
    let ghost mut done: int = 0;
    proof {
        assert(steps.subrange(0, 0) =~= Seq::<Step<M, S>>::empty());
    }
    while rest.len() > 0
        invariant
            steps == init_steps(opened, assigned, table@),
            0 <= done,
            done + rest@.len() == opened.len(),
            forall|j: int| 0 <= j < rest@.len() ==> rest@[j] == opened[opened.len() - 1 - j],
            device_map@ == RegistryView::<M, S>::empty().run(steps.subrange(0, done)),
        decreases rest.len(),
    {
        let (id, reply) = rest.pop().unwrap();
        proof {
            assert((id, reply) == opened[done]);
            assert(steps.subrange(0, done + 1).drop_last() =~= steps.subrange(0, done));
            assert(steps.subrange(0, done + 1).last() == steps[done]);
        }
        let _ = handle_device_event(
            id.as_str(),
            DeviceEvent::DeviceAdded,
            &mut device_map,
            reply,
            table,
        );
        proof {
            done = done + 1;
        }
    }
    let mut rest = reversed(defaults);
    let ghost mut set: int = 0;
    while rest.len() > 0
        invariant
            steps == init_steps(opened, assigned, table@),
            0 <= set,
            set + rest@.len() == assigned.len(),
            forall|j: int| 0 <= j < rest@.len() ==> rest@[j] == assigned[assigned.len() - 1 - j],
            device_map@ == RegistryView::<M, S>::empty().run(
                steps.subrange(0, opened.len() + set),
            ),
        decreases rest.len(),
    {
        let (flow, role, id) = rest.pop().unwrap();
        proof {
            let upto = opened.len() + set;
            assert((flow, role, id) == assigned[set]);
            assert(steps.subrange(0, upto + 1).drop_last() =~= steps.subrange(0, upto));
            assert(steps.subrange(0, upto + 1).last() == steps[upto]);
        }
        let _ = handle_device_event(
            id.as_str(),
            DeviceEvent::DefaultDeviceChanged(flow, role),
            &mut device_map,
            Reply::Nothing,
            table,
        );
        proof {
            set = set + 1;
        }
    }
    proof {
        assert(steps.subrange(0, opened.len() + set) =~= steps);
    }
    device_map
}

} // verus!
