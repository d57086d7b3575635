//! What holds of the registry over whole runs of events.
//!
//! Each law is stated over the registry's view and the step functions that
//! the reconciler's contracts use, so it holds of every registry that the
//! reconciler can produce.

use vstd::prelude::*;
use crate::error::{Error, ValueKind};
use crate::device::{
    device_of, sessions_of, sessions_wf, Activation, DeviceProbe, DeviceStateKind, DeviceView,
    DEVICE_STATE_ACTIVE,
};
use crate::event::{DeviceEvent, SessionEvent};
use crate::kinds::{DisconnectReason, EDataFlow, ERole};
use crate::process::ProcessView;
use crate::reconciler::{DeviceOutcome, Reply, Request, SessionOutcome, Step};
use crate::registry::RegistryView;
use crate::session::{session_of, SessionProbe};

verus! {

/// The ids that a run leaves, going by its additions and removals alone.
pub open spec fn ids_after<M, S>(ids: Set<Seq<char>>, steps: Seq<Step<M, S>>) -> Set<Seq<char>>
    decreases steps.len(),
{
    if steps.len() == 0 {
        ids
    } else {
        let earlier = ids_after(ids, steps.drop_last());
        let step = steps.last();
        if step.adds() {
            earlier.insert(step.device_id())
        } else if step.removes() {
            earlier.remove(step.device_id())
        } else {
            earlier
        }
    }
}

/// A step changes the set of known devices only by adding the device it
/// opened or by removing the device it names.
pub proof fn lemma_step_ids<M, S>(registry: RegistryView<M, S>, step: Step<M, S>)
    ensures
        registry.step(step).devices.dom() == (if step.adds() {
            registry.devices.dom().insert(step.device_id())
        } else if step.removes() {
            registry.devices.dom().remove(step.device_id())
        } else {
            registry.devices.dom()
        }),
{
    let after = registry.step(step).devices.dom();
    let ids = registry.devices.dom();
    let id = step.device_id();
    if step.adds() {
        assert(after =~= ids.insert(id));
    } else if step.removes() {
        assert(after =~= ids.remove(id));
    } else {
        assert(after =~= ids);
    }
}

/// After any run of events, the devices that the registry knows are those
/// it knew before, with every device added and every device removed in the
/// order of the run. Events about sessions, states and defaults, and
/// additions that failed, do not change which devices are known.
pub proof fn lemma_run_ids<M, S>(registry: RegistryView<M, S>, steps: Seq<Step<M, S>>)
    ensures
        registry.run(steps).devices.dom() == ids_after(registry.devices.dom(), steps),
    decreases steps.len(),
{
    if steps.len() > 0 {
        lemma_run_ids(registry, steps.drop_last());
        lemma_step_ids(registry.run(steps.drop_last()), steps.last());
    }
}

/// Reporting the active state twice in a row is the same as reporting it
/// once: the second report, with the same reply, leaves the registry as the
/// first left it; and once the first has succeeded, so does a second report
/// with any reply.
pub proof fn lemma_active_report_idempotent<M, S>(
    registry: RegistryView<M, S>,
    id: Seq<char>,
    reply: Reply<M, S>,
    procs: Map<u32, ProcessView>,
    other_reply: Reply<M, S>,
    other_procs: Map<u32, ProcessView>,
)
    ensures
        ({
            let event = DeviceEvent::DeviceStateChanged(DEVICE_STATE_ACTIVE);
            let once = registry.device_step(id, event, reply, procs);
            &&& once.0.device_step(id, event, reply, procs).0 == once.0
            &&& once.1 is Ok ==> once.0.device_step(id, event, other_reply, other_procs).0
                == once.0
        }),
{
    let event = DeviceEvent::DeviceStateChanged(DEVICE_STATE_ACTIVE);
    let once = registry.device_step(id, event, reply, procs);
    let twice = once.0.device_step(id, event, reply, procs);
    let again = once.0.device_step(id, event, other_reply, other_procs);
    if registry.devices.contains_key(id) {
        if once.1 is Ok {
            assert(once.0.devices[id].state is Active);
            assert(twice.0.devices =~= once.0.devices);
            assert(again.0.devices =~= once.0.devices);
        } else {
            assert(once.0 == registry);
        }
    }
}

/// A disconnected session is gone from its device, and disconnecting it
/// once more, for whatever reason, changes nothing and is no error: the
/// event is dropped.
pub proof fn lemma_disconnect<M, S>(
    registry: RegistryView<M, S>,
    id: Seq<char>,
    instance_id: Seq<char>,
    reason: DisconnectReason,
    procs: Map<u32, ProcessView>,
    other_reason: DisconnectReason,
    other_procs: Map<u32, ProcessView>,
)
    ensures
        ({
            let once = registry.session_step(
                id,
                instance_id,
                SessionEvent::SessionDisconnected(reason),
                procs,
            );
            let twice = once.0.session_step(
                id,
                instance_id,
                SessionEvent::SessionDisconnected(other_reason),
                other_procs,
            );
            &&& once.0.devices.contains_key(id) ==> !once.0.devices[id].sessions.contains_key(
                instance_id,
            )
            &&& once.0.devices.dom() == registry.devices.dom()
            &&& twice.0 == once.0
            &&& twice.1 != SessionOutcome::Disconnected
            &&& twice.1 != SessionOutcome::Applied
        }),
{
    let once = registry.session_step(
        id,
        instance_id,
        SessionEvent::SessionDisconnected(reason),
        procs,
    );
    if registry.devices.contains_key(id) && registry.devices[id].sessions.contains_key(
        instance_id,
    ) {
        assert(once.0.devices.dom() =~= registry.devices.dom());
    }
}

/// Only the named session leaves: a disconnect changes no other session and
/// no other device.
pub proof fn lemma_disconnect_frame<M, S>(
    registry: RegistryView<M, S>,
    id: Seq<char>,
    instance_id: Seq<char>,
    reason: DisconnectReason,
    procs: Map<u32, ProcessView>,
)
    ensures
        ({
            let after = registry.session_step(
                id,
                instance_id,
                SessionEvent::SessionDisconnected(reason),
                procs,
            ).0;
            &&& after.defaults == registry.defaults
            &&& forall|d: Seq<char>|
                d != id && registry.devices.contains_key(d) ==> after.devices.contains_key(d)
                    && #[trigger] after.devices[d] == registry.devices[d]
            &&& forall|s: Seq<char>|
                s != instance_id && registry.devices.contains_key(id)
                    && #[trigger] registry.devices[id].sessions.contains_key(s)
                    ==> after.devices[id].sessions.contains_key(s) && after.devices[id].sessions[s]
                    == registry.devices[id].sessions[s]
        }),
{
}

/// A default that was assigned is the default that is read, whether or not
/// the registry knows the device: its id is reported in either case, and the
/// device itself exactly when it is known. An assignment for the wildcard
/// flow is read back for both real flows.
pub proof fn lemma_default_round_trip<M, S>(
    registry: RegistryView<M, S>,
    flow: EDataFlow,
    role: ERole,
    id: Seq<char>,
    reply: Reply<M, S>,
    procs: Map<u32, ProcessView>,
    read: EDataFlow,
)
    requires
        read != EDataFlow::All,
        flow == read || flow == EDataFlow::All,
    ensures
        ({
            let stepped = registry.device_step(
                id,
                DeviceEvent::DefaultDeviceChanged(flow, role),
                reply,
                procs,
            );
            let after = stepped.0;
            &&& stepped.1 == Ok::<DeviceOutcome, Error>(DeviceOutcome::DefaultChanged)
            &&& after.devices == registry.devices
            &&& after.default_id(read, role) == Some(id)
            &&& after.default_device(read, role) == (if registry.devices.contains_key(id) {
                Some(registry.devices[id])
            } else {
                None::<DeviceView<M, S>>
            })
        }),
{
}

/// Assigning a default leaves every other cell of the table as it was.
pub proof fn lemma_default_frame<M, S>(
    registry: RegistryView<M, S>,
    flow: EDataFlow,
    role: ERole,
    id: Seq<char>,
    other_flow: EDataFlow,
    other_role: ERole,
)
    requires
        other_role != role || (flow != EDataFlow::All && other_flow != flow),
    ensures
        registry.with_default(flow, role, id).default_id(other_flow, other_role)
            == registry.default_id(other_flow, other_role),
{
}

/// A step changes nothing but the device it names, and the defaults only
/// where it assigns one: every other device keeps its state and its
/// sessions, so that no session ever passes from one device to another.
pub proof fn lemma_step_frame<M, S>(registry: RegistryView<M, S>, step: Step<M, S>)
    ensures
        forall|d: Seq<char>|
            d != step.device_id() && registry.devices.contains_key(d) ==> registry.step(
                step,
            ).devices.contains_key(d) && #[trigger] registry.step(step).devices[d]
                == registry.devices[d],
        forall|d: Seq<char>|
            d != step.device_id() && #[trigger] registry.step(step).devices.contains_key(d)
                ==> registry.devices.contains_key(d),
        !(step matches Step::Device(_, DeviceEvent::DefaultDeviceChanged(_, _), _, _))
            ==> registry.step(step).defaults == registry.defaults,
{
}

/// Whether a reply is an answer to a request: a failure answers every
/// request, and the answer to the opening of a device brings an activation
/// if the device reports the active state.
pub open spec fn answers<M, S>(reply: Reply<M, S>, request: Request) -> bool {
    match request {
        Request::Nothing => true,
        Request::OpenDevice => reply is Failed || (reply matches Reply::Device(probe)
            && (DeviceStateKind::decode(probe.state as int) == Some(DeviceStateKind::Active)
            ==> probe.activation is Some)),
        Request::Activate => reply is Failed || reply is Activated,
        Request::OpenSession => reply is Failed || reply is Session,
    }
}

/// Where nothing has to be asked of the platform, the reply does not
/// matter: the event is applied the same way with every reply.
pub proof fn lemma_nothing_asked<M, S>(
    registry: RegistryView<M, S>,
    id: Seq<char>,
    event: DeviceEvent,
    reply: Reply<M, S>,
    other: Reply<M, S>,
    procs: Map<u32, ProcessView>,
)
    requires
        registry.request(id, event) == Request::Nothing,
    ensures
        registry.device_step(id, event, reply, procs) == registry.device_step(
            id,
            event,
            other,
            procs,
        ),
{
}

/// An event that comes with an answer to its request never fails for want
/// of a reply.
pub proof fn lemma_answered<M, S>(
    registry: RegistryView<M, S>,
    id: Seq<char>,
    event: DeviceEvent,
    reply: Reply<M, S>,
    procs: Map<u32, ProcessView>,
)
    requires
        answers(reply, registry.request(id, event)),
    ensures
        registry.device_step(id, event, reply, procs).1 != Err::<DeviceOutcome, Error>(
            Error::MissingReply,
        ),
{
    match reply {
        Reply::Device(probe) => {
            if probe.activation is Some {
                lemma_rejected_sessions(probe.activation->0.sessions@, procs);
            }
        },
        Reply::Activated(activation) => {
            lemma_rejected_sessions(activation.sessions@, procs);
        },
        _ => {},
    }
}

/// Sessions are only ever rejected for a state outside the known set.
pub proof fn lemma_rejected_sessions<S>(probes: Seq<SessionProbe<S>>, procs: Map<u32, ProcessView>)
    ensures
        sessions_of(probes, procs) matches Err(e) ==> e == Error::UnrecognizedValue(
            ValueKind::SessionState,
        ),
    decreases probes.len(),
{
    if probes.len() > 0 {
        lemma_rejected_sessions(probes.drop_last(), procs);
    }
}

/// A session that opens carries what its probe reported, under the probe's
/// instance id, and with a display name that is not empty.
pub proof fn lemma_opened_session<S>(probe: SessionProbe<S>, procs: Map<u32, ProcessView>)
    ensures
        session_of(probe, procs) matches Ok(session) ==> {
            &&& session.named()
            &&& session.instance_id == probe.instance_id@
            &&& session.id == probe.id@
            &&& session.pid == probe.pid
            &&& session.subscription == probe.subscription
        },
{
}

/// The sessions that a list of probes opens are each stored under their own
/// instance id, with a display name that is not empty.
pub proof fn lemma_opened_sessions<S>(probes: Seq<SessionProbe<S>>, procs: Map<u32, ProcessView>)
    ensures
        sessions_of(probes, procs) matches Ok(sessions) ==> sessions_wf(sessions),
    decreases probes.len(),
{
    if probes.len() > 0 {
        lemma_opened_sessions(probes.drop_last(), procs);
    }
}

/// A state report leaves a well-formed device well formed and under its id:
/// afterwards it holds sessions only if it is active.
pub proof fn lemma_state_report<M, S>(
    device: DeviceView<M, S>,
    new_state: u32,
    activation: Option<Activation<M, S>>,
    procs: Map<u32, ProcessView>,
)
    requires
        device.wf(),
    ensures
        device.with_state(new_state, activation, procs) matches Ok(after) ==> after.wf()
            && after.id == device.id && after.name == device.name,
{
    if activation is Some {
        lemma_opened_sessions(activation->0.sessions@, procs);
    }
}

/// A device that opens is well formed and carries the given id.
pub proof fn lemma_opened_device<M, S>(
    id: Seq<char>,
    probe: DeviceProbe<M, S>,
    procs: Map<u32, ProcessView>,
)
    ensures
        device_of(id, probe, procs) matches Ok(device) ==> device.wf() && device.id == id
            && device.name == probe.name@,
{
    lemma_state_report(DeviceView::<M, S>::blank(id, probe.name@), probe.state, probe.activation, procs);
}

/// Every step leaves a well-formed registry well formed: each device is
/// stored under its own id, holds sessions only while it is active, each
/// session under its own instance id and with a display name that is not
/// empty, and no default is assigned to the wildcard flow.
pub proof fn lemma_step_wf<M, S>(registry: RegistryView<M, S>, step: Step<M, S>)
    requires
        registry.wf(),
    ensures
        registry.step(step).wf(),
{
    let after = registry.step(step);
    match step {
        Step::Device(id, event, reply, procs) => {
            match event {
                DeviceEvent::DeviceAdded => {
                    if reply is Device {
                        lemma_opened_device(id, reply->Device_0, procs);
                    }
                },
                DeviceEvent::DeviceStateChanged(new_state) => {
                    if registry.devices.contains_key(id) {
                        lemma_state_report(
                            registry.devices[id],
                            new_state,
                            reply.activation(),
                            procs,
                        );
                    }
                },
                DeviceEvent::SessionCreated(_) => {
                    match reply {
                        Reply::Session(Some(probe)) => {
                            lemma_opened_session(probe, procs);
                        },
                        _ => {},
                    }
                },
                _ => {},
            }
        },
        Step::Session(id, instance_id, event, procs) => {},
    }
    assert(after.devices.dom().finite());
    assert forall|k: Seq<char>| #[trigger] after.devices.contains_key(k) implies after.devices[k].id
        == k && after.devices[k].wf() by {
        if registry.devices.contains_key(k) {
            assert(registry.devices[k].wf());
        }
    }
}

/// Every run leaves a well-formed registry well formed; the empty registry
/// is well formed, and so is whatever a run makes of it.
pub proof fn lemma_run_wf<M, S>(registry: RegistryView<M, S>, steps: Seq<Step<M, S>>)
    requires
        registry.wf(),
    ensures
        registry.run(steps).wf(),
        RegistryView::<M, S>::empty().wf(),
    decreases steps.len(),
{
    if steps.len() > 0 {
        lemma_run_wf(registry, steps.drop_last());
        lemma_step_wf(registry.run(steps.drop_last()), steps.last());
    }
}

} // verus!
