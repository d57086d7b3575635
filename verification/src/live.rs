//! Applying events with the host's own process table.
//!
//! Only a few events read the process table: a change of focus, and whatever
//! brings a session without a reported display name. For those a fresh
//! snapshot is taken, so that a name is never resolved against a process
//! that has since exited; every other event is applied without one.

use vstd::prelude::*;
use crate::device::{device_of, sessions_of, Activation, DeviceView};
use crate::event::{DeviceEvent, Event, SessionEvent};
use crate::focus::pair_views;
use crate::process::{tree, ProcessTable, ProcessView};
use crate::reconciler::{reconcile, Reconciled, Reply};
use crate::registry::{DeviceMap, RegistryView};
use crate::session::{session_of, SessionProbe};

verus! {

/// Every probe of the list reports a display name.
pub open spec fn all_named<S>(probes: Seq<SessionProbe<S>>) -> bool {
    forall|i: int| 0 <= i < probes.len() ==> (#[trigger] probes[i]).display_name@.len() > 0
}

impl<M, S> Reply<M, S> {
    /// Whether this reply brings a session without a reported display name.
    pub open spec fn brings_unnamed(self) -> bool {
        match self {
            Reply::Device(probe) => probe.activation is Some && !all_named(
                probe.activation->0.sessions@,
            ),
            Reply::Activated(activation) => !all_named(activation.sessions@),
            Reply::Session(Some(probe)) => probe.display_name@.len() == 0,
            _ => false,
        }
    }

    /// Whether this reply brings a session without a reported display name.
    pub fn needs_processes(&self) -> (needed: bool)
        ensures
            needed == self.brings_unnamed(),
    {
        match self {
            Reply::Device(probe) => match &probe.activation {
                Some(activation) => any_unnamed(&activation.sessions),
                None => false,
            },
            Reply::Activated(activation) => any_unnamed(&activation.sessions),
            Reply::Session(Some(probe)) => probe.display_name.as_str().is_empty(),
            _ => false,
        }
    }
}

/// Whether one of the probes reports no display name.
pub fn any_unnamed<S>(probes: &Vec<SessionProbe<S>>) -> (found: bool)
    ensures
        found == !all_named(probes@),
{
    let mut i: usize = 0;
    while i < probes.len()
        invariant
            i <= probes.len(),
            forall|j: int| 0 <= j < i ==> (#[trigger] probes@[j]).display_name@.len() > 0,
        decreases probes.len() - i,
    {
        if probes[i].display_name.as_str().is_empty() {
            return true;
        }
        i += 1;
    }
    false
}

impl Event {
    /// Whether applying this event reads the process table, whatever the
    /// reply: a change of focus does, and so does a display name that
    /// changed to nothing.
    pub open spec fn reads_processes(self) -> bool {
        match self {
            Event::ActiveWindowChange(_) => true,
            Event::Session(_, _, SessionEvent::DisplayNameChanged(name)) => name@.len() == 0,
            _ => false,
        }
    }

    /// Whether applying this event reads the process table, whatever the
    /// reply.
    pub fn needs_processes(&self) -> (needed: bool)
        ensures
            needed == self.reads_processes(),
    {
        match self {
            Event::ActiveWindowChange(_) => true,
            Event::Session(_, _, SessionEvent::DisplayNameChanged(name)) => {
                name.as_str().is_empty()
            },
            _ => false,
        }
    }
}

/// What [`reconcile`] promises of an event applied with the process table
/// `procs`.
pub open spec fn reconciled<M, S>(
    before: RegistryView<M, S>,
    after: RegistryView<M, S>,
    event: Event,
    reply: Reply<M, S>,
    procs: Map<u32, ProcessView>,
    done: Reconciled,
) -> bool {
    match event {
        Event::Device(id, device_event) => {
            let stepped = before.device_step(id@, device_event, reply, procs);
            &&& after == stepped.0
            &&& done matches Reconciled::Device(outcome) && outcome == stepped.1
        },
        Event::Session(id, instance_id, session_event) => {
            let stepped = before.session_step(id@, instance_id@, session_event, procs);
            &&& after == stepped.0
            &&& done matches Reconciled::Session(outcome) && outcome == stepped.1
        },
        Event::ActiveWindowChange(pid) => {
            &&& after == before
            &&& done matches Reconciled::Focus(sessions) && pair_views(sessions@).no_duplicates()
                && pair_views(sessions@).to_set() == before.owned_sessions(tree(procs, pid))
        },
    }
}

/// Applies one event of the queue with the host's own process table.
///
/// An event that reads the process table is applied with a snapshot taken
/// for it, and so with one of the tables the host may report. Every other
/// event is applied as it would be with any table at all.
pub fn reconcile_live<M, S>(event: Event, device_map: &mut DeviceMap<M, S>, reply: Reply<M, S>) -> (done:
    Reconciled)
    ensures
        exists|procs: Map<u32, ProcessView>|
            reconciled(old(device_map)@, final(device_map)@, event, reply, procs, done),
        !event.reads_processes() && !reply.brings_unnamed() ==> forall|procs: Map<u32, ProcessView>|
            reconciled(old(device_map)@, final(device_map)@, event, reply, procs, done),
{
    let read = event.needs_processes() || reply.needs_processes();
    let table = if read {
        ProcessTable::snapshot()
    } else {
        ProcessTable::new()
    };
    let ghost before = device_map@;
    let done = reconcile(event, device_map, reply, &table);
    proof {
        assert(reconciled(before, device_map@, event, reply, table@, done));
        if !read {
            assert forall|procs: Map<u32, ProcessView>|
                reconciled(before, device_map@, event, reply, procs, done) by {
                lemma_step_without_processes(before, event, reply, table@, procs);
            }
        }
    }
    done
}

/// Sessions that all report a display name open the same way with every
/// process table.
pub proof fn lemma_named_sessions<S>(
    probes: Seq<SessionProbe<S>>,
    procs: Map<u32, ProcessView>,
    other: Map<u32, ProcessView>,
)
    requires
        all_named(probes),
    ensures
        sessions_of(probes, procs) == sessions_of(probes, other),
    decreases probes.len(),
{
    if probes.len() > 0 {
        assert(all_named(probes.drop_last())) by {
            assert forall|i: int| 0 <= i < probes.drop_last().len() implies (
            #[trigger] probes.drop_last()[i]).display_name@.len() > 0 by {
                assert(probes.drop_last()[i] == probes[i]);
            }
        }
        lemma_named_sessions(probes.drop_last(), procs, other);
        assert(probes.last() == probes[probes.len() - 1]);
        assert(session_of(probes.last(), procs) == session_of(probes.last(), other));
    }
}

/// A state report with sessions that all report a display name gives the
/// same device with every process table.
pub proof fn lemma_named_activation<M, S>(
    device: DeviceView<M, S>,
    new_state: u32,
    activation: Option<Activation<M, S>>,
    procs: Map<u32, ProcessView>,
    other: Map<u32, ProcessView>,
)
    requires
        activation is Some ==> all_named(activation->0.sessions@),
    ensures
        device.with_state(new_state, activation, procs) == device.with_state(
            new_state,
            activation,
            other,
        ),
{
    if activation is Some {
        lemma_named_sessions(activation->0.sessions@, procs, other);
    }
}

/// An event that does not read the process table, with a reply that brings
/// no session without a display name, is applied the same way with every
/// process table.
pub proof fn lemma_step_without_processes<M, S>(
    registry: RegistryView<M, S>,
    event: Event,
    reply: Reply<M, S>,
    procs: Map<u32, ProcessView>,
    other: Map<u32, ProcessView>,
)
    requires
        !event.reads_processes(),
        !reply.brings_unnamed(),
    ensures
        match event {
            Event::Device(id, device_event) => registry.device_step(
                id@,
                device_event,
                reply,
                procs,
            ) == registry.device_step(id@, device_event, reply, other),
            Event::Session(id, instance_id, session_event) => registry.session_step(
                id@,
                instance_id@,
                session_event,
                procs,
            ) == registry.session_step(id@, instance_id@, session_event, other),
            Event::ActiveWindowChange(_) => false,
        },
{
    match event {
        Event::Device(id, device_event) => {
            match device_event {
                DeviceEvent::DeviceAdded => {
                    match reply {
                        Reply::Device(probe) => {
                            lemma_named_activation(
                                DeviceView::<M, S>::blank(id@, probe.name@),
                                probe.state,
                                probe.activation,
                                procs,
                                other,
                            );
                            assert(device_of(id@, probe, procs) == device_of(id@, probe, other));
                        },
                        _ => {},
                    }
                },
                DeviceEvent::DeviceStateChanged(new_state) => {
                    if registry.devices.contains_key(id@) {
                        lemma_named_activation(
                            registry.devices[id@],
                            new_state,
                            reply.activation(),
                            procs,
                            other,
                        );
                    }
                },
                _ => {},
            }
        },
        _ => {},
    }
}

} // verus!
