//! One audio session of a device.

use vstd::prelude::*;
use crate::error::{Error, ValueKind};
use crate::kinds::SessionState;
use crate::process::{ProcessTable, ProcessView};

verus! {

/// What the platform reported of a session when it was opened and its
/// notifications were subscribed to.
///
/// `S` is the scoped subscription: whoever owns it keeps the session's
/// notifications alive, and dropping it releases them.
#[derive(Debug)]
pub struct SessionProbe<S> {
    pub instance_id: String,
    pub id: String,
    pub state: i32,
    pub pid: u32,
    pub display_name: String,
    pub subscription: S,
}

/// A session entry of the registry.
#[derive(Debug)]
pub struct SessionInfo<S> {
    pub(crate) instance_id: String,
    pub(crate) id: String,
    pub(crate) display_name: Option<String>,
    pub(crate) state: SessionState,
    pub(crate) pid: u32,
    pub(crate) subscription: S,
}

/// The mathematical content of a session entry.
pub struct SessionView<S> {
    pub instance_id: Seq<char>,
    pub id: Seq<char>,
    pub display_name: Option<Seq<char>>,
    pub state: SessionState,
    pub pid: u32,
    pub subscription: S,
}

/// The display name a session ends up with: the reported one unless it is
/// missing or empty, else the name of the owning process unless that is
/// unknown or empty, else none.
pub open spec fn resolved_name(
    reported: Option<Seq<char>>,
    pid: u32,
    procs: Map<u32, ProcessView>,
) -> Option<Seq<char>> {
    if reported is Some && reported->0.len() > 0 {
        reported
    } else if procs.contains_key(pid) && procs[pid].name.len() > 0 {
        Some(procs[pid].name)
    } else {
        None
    }
}

/// Whether resolving a reported name has to consult the process table.
pub open spec fn needs_lookup(reported: Option<Seq<char>>) -> bool {
    !(reported is Some && reported->0.len() > 0)
}

/// The entry a probe gives rise to, or the reason it is rejected.
pub open spec fn session_of<S>(probe: SessionProbe<S>, procs: Map<u32, ProcessView>) -> Result<
    SessionView<S>,
    Error,
> {
    match SessionState::decode(probe.state as int) {
        None => Err(Error::UnrecognizedValue(ValueKind::SessionState)),
        Some(state) => Ok(
            SessionView {
                instance_id: probe.instance_id@,
                id: probe.id@,
                display_name: resolved_name(Some(probe.display_name@), probe.pid, procs),
                state,
                pid: probe.pid,
                subscription: probe.subscription,
            },
        ),
    }
}

/// Whether a reported display name is missing or empty, so that resolving it
/// has to consult the process table.
pub fn name_needs_lookup(reported: &Option<String>) -> (needed: bool)
    ensures
        needed == needs_lookup(
            match *reported {
                Some(name) => Some(name@),
                None => None,
            },
        ),
{
    match reported {
        Some(name) => name.as_str().is_empty(),
        None => true,
    }
}

/// Resolves a reported display name against a process snapshot.
pub fn resolve_display_name(reported: Option<String>, pid: u32, table: &ProcessTable) -> (name:
    Option<String>)
    ensures
        (match name {
            Some(n) => Some(n@),
            None => None,
        }) == resolved_name(
            match reported {
                Some(r) => Some(r@),
                None => None,
            },
            pid,
            table@,
        ),
{
    if !name_needs_lookup(&reported) {
        return reported;
    }
    match table.name_of(pid) {
        Some(process_name) => {
            if process_name.as_str().is_empty() {
                None
            } else {
                Some(process_name)
            }
        },
        None => None,
    }
}

impl<S> View for SessionInfo<S> {
    type V = SessionView<S>;

    closed spec fn view(&self) -> SessionView<S> {
        SessionView {
            instance_id: self.instance_id@,
            id: self.id@,
            display_name: match self.display_name {
                Some(name) => Some(name@),
                None => None,
            },
            state: self.state,
            pid: self.pid,
            subscription: self.subscription,
        }
    }
}

impl<S> SessionInfo<S> {
    /// The display name, when there is one, is not empty.
    #[verifier::type_invariant]
    pub open spec fn wf(&self) -> bool {
        self@.named()
    }

    /// Opens a session entry from what the platform reported.
    ///
    /// Fails, retaining nothing, exactly when the reported state is outside
    /// the known set. An empty reported display name is resolved through the
    /// process snapshot.
    pub fn new(probe: SessionProbe<S>, table: &ProcessTable) -> (opened: Result<Self, Error>)
        ensures
            match session_of(probe, table@) {
                Ok(view) => opened is Ok && opened->Ok_0@ == view,
                Err(e) => opened is Err && opened->Err_0 == e,
            },
            opened is Ok ==> opened->Ok_0@.named(),
    {
        let state = match SessionState::try_from(probe.state) {
            Ok(state) => state,
            Err(e) => {
                return Err(e);
            },
        };
        let display_name = resolve_display_name(Some(probe.display_name), probe.pid, table);
        Ok(
            SessionInfo {
                instance_id: probe.instance_id,
                id: probe.id,
                display_name,
                state,
                pid: probe.pid,
                subscription: probe.subscription,
            },
        )
    }

    /// Replaces the display name by the resolution of `new_display_name`.
    pub fn set_display_name(&mut self, new_display_name: Option<String>, table: &ProcessTable)
        ensures
            final(self)@ == old(self)@.renamed(
                match new_display_name {
                    Some(name) => Some(name@),
                    None => None,
                },
                table@,
            ),
            final(self)@.named(),
    {
        let resolved = resolve_display_name(new_display_name, self.pid, table);
        self.display_name = resolved;
    }

    /// Records a new lifecycle state.
    pub fn set_state(&mut self, state: SessionState)
        ensures
            final(self)@ == old(self)@.in_state(state),
    {
        proof {
            use_type_invariant(&*self);
        }
        self.state = state;
    }

    /// Identifier of this session instance, the key it is stored under.
    pub fn instance_id(&self) -> (id: &String)
        ensures
            id@ == self@.instance_id,
    {
        &self.instance_id
    }

    /// The session's secondary identifier.
    pub fn id(&self) -> (id: &String)
        ensures
            id@ == self@.id,
    {
        &self.id
    }

    /// The display name, if one is known; never empty.
    pub fn display_name(&self) -> (name: Option<&String>)
        ensures
            match name {
                Some(n) => self@.display_name == Some(n@) && n@.len() > 0,
                None => self@.display_name is None,
            },
    {
        proof {
            use_type_invariant(self);
        }
        self.display_name.as_ref()
    }

    /// The lifecycle state last recorded.
    pub fn state(&self) -> (state: SessionState)
        ensures
            state == self@.state,
    {
        self.state
    }

    /// Id of the process that owns the session.
    pub fn pid(&self) -> (pid: u32)
        ensures
            pid == self@.pid,
    {
        self.pid
    }

    /// The subscription that keeps this session's notifications alive.
    pub fn subscription(&self) -> (subscription: &S)
        ensures
            *subscription == self@.subscription,
    {
        &self.subscription
    }
}

impl<S> SessionView<S> {
    /// The display name, when there is one, is not empty.
    pub open spec fn named(self) -> bool {
        self.display_name is Some ==> self.display_name->0.len() > 0
    }

    /// This session with its display name resolved anew.
    pub open spec fn renamed(self, reported: Option<Seq<char>>, procs: Map<u32, ProcessView>) -> Self {
        SessionView { display_name: resolved_name(reported, self.pid, procs), ..self }
    }

    /// This session in another lifecycle state.
    pub open spec fn in_state(self, state: SessionState) -> Self {
        SessionView { state, ..self }
    }
}

} // verus!
