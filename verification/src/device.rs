//! One audio endpoint and its lifecycle.

use vstd::prelude::*;
use crate::error::{Error, ValueKind};
use crate::kinds::SessionState;
use crate::process::{ProcessTable, ProcessView};
use crate::session::{session_of, SessionInfo, SessionProbe, SessionView};
use crate::table::{reversed, Table};

verus! {

/// Wire value of the active device state.
pub const DEVICE_STATE_ACTIVE: u32 = 1;

/// Wire value of the disabled device state.
pub const DEVICE_STATE_DISABLED: u32 = 2;

/// Wire value of the state of a device that is not present.
pub const DEVICE_STATE_NOTPRESENT: u32 = 4;

/// Wire value of the unplugged device state.
pub const DEVICE_STATE_UNPLUGGED: u32 = 8;

/// Lifecycle state of a device, without what an active device holds.
#[derive(Clone, Copy, Debug, PartialEq, Eq, Structural)]
pub enum DeviceStateKind {
    Active,
    Disabled,
    NotPresent,
    Unplugged,
}

/// Lifecycle state of a device.
///
/// `M` is the scoped session-management handle of an active device, together
/// with its subscription to session-created notifications. A device holds one
/// exactly while it is active; dropping it releases both.
#[derive(Debug)]
pub enum DeviceState<M> {
    Active(M),
    Disabled,
    NotPresent,
    Unplugged,
}

/// What activating a device gave: its handle, and every session that existed
/// on the device once the subscription was in place.
#[derive(Debug)]
pub struct Activation<M, S> {
    pub handle: M,
    pub sessions: Vec<SessionProbe<S>>,
}

/// What the platform reported of a device when it was opened.
#[derive(Debug)]
pub struct DeviceProbe<M, S> {
    pub name: String,
    pub state: u32,
    pub activation: Option<Activation<M, S>>,
}

/// A device entry of the registry.
#[derive(Debug)]
pub struct DeviceInfo<M, S> {
    pub(crate) id: String,
    pub(crate) name: String,
    pub(crate) state: DeviceState<M>,
    pub(crate) session_map: Table<SessionInfo<S>>,
}

/// The mathematical content of a device entry.
pub struct DeviceView<M, S> {
    pub id: Seq<char>,
    pub name: Seq<char>,
    pub state: DeviceState<M>,
    pub sessions: Map<Seq<char>, SessionView<S>>,
}

impl DeviceStateKind {
    /// The state a wire value stands for, if any.
    pub open spec fn decode(value: int) -> Option<DeviceStateKind> {
        if value == 1 {
            Some(DeviceStateKind::Active)
        } else if value == 2 {
            Some(DeviceStateKind::Disabled)
        } else if value == 4 {
            Some(DeviceStateKind::NotPresent)
        } else if value == 8 {
            Some(DeviceStateKind::Unplugged)
        } else {
            None
        }
    }

    /// Decodes a wire value, rejecting anything outside the known set.
    pub fn try_from(value: u32) -> (r: Result<DeviceStateKind, Error>)
        ensures
            r == match DeviceStateKind::decode(value as int) {
                Some(kind) => Ok::<DeviceStateKind, Error>(kind),
                None => Err(Error::UnrecognizedValue(ValueKind::DeviceState)),
            },
    {
        if value == DEVICE_STATE_ACTIVE {
            Ok(DeviceStateKind::Active)
        } else if value == DEVICE_STATE_DISABLED {
            Ok(DeviceStateKind::Disabled)
        } else if value == DEVICE_STATE_NOTPRESENT {
            Ok(DeviceStateKind::NotPresent)
        } else if value == DEVICE_STATE_UNPLUGGED {
            Ok(DeviceStateKind::Unplugged)
        } else {
            Err(Error::UnrecognizedValue(ValueKind::DeviceState))
        }
    }

    /// The state of this kind that holds nothing; for the active kind, which
    /// cannot do without a handle, the state of a device that is not present.
    pub open spec fn idle<M>(self) -> DeviceState<M> {
        match self {
            DeviceStateKind::Active => DeviceState::NotPresent,
            DeviceStateKind::Disabled => DeviceState::Disabled,
            DeviceStateKind::NotPresent => DeviceState::NotPresent,
            DeviceStateKind::Unplugged => DeviceState::Unplugged,
        }
    }
}

impl<M> DeviceState<M> {
    /// The kind of this state.
    pub open spec fn spec_kind(self) -> DeviceStateKind {
        match self {
            DeviceState::Active(_) => DeviceStateKind::Active,
            DeviceState::Disabled => DeviceStateKind::Disabled,
            DeviceState::NotPresent => DeviceStateKind::NotPresent,
            DeviceState::Unplugged => DeviceStateKind::Unplugged,
        }
    }

    /// The kind of this state.
    pub fn kind(&self) -> (kind: DeviceStateKind)
        ensures
            kind == self.spec_kind(),
            (kind == DeviceStateKind::Active) == (*self is Active),
    {
        match self {
            DeviceState::Active(_) => DeviceStateKind::Active,
            DeviceState::Disabled => DeviceStateKind::Disabled,
            DeviceState::NotPresent => DeviceStateKind::NotPresent,
            DeviceState::Unplugged => DeviceStateKind::Unplugged,
        }
    }
}

/// The state a reported wire value leads to, given the handle that was
/// acquired for it, if any.
pub open spec fn translated<M>(new_state: u32, handle: Option<M>) -> Result<DeviceState<M>, Error> {
    match DeviceStateKind::decode(new_state as int) {
        None => Err(Error::UnrecognizedValue(ValueKind::DeviceState)),
        Some(DeviceStateKind::Active) => match handle {
            Some(h) => Ok(DeviceState::Active(h)),
            None => Err(Error::MissingReply),
        },
        Some(kind) => Ok(kind.idle()),
    }
}

/// The session map that a list of probes gives rise to, later probes
/// replacing earlier ones of the same instance id; or the reason the first
/// unacceptable probe is rejected.
pub open spec fn sessions_of<S>(probes: Seq<SessionProbe<S>>, procs: Map<u32, ProcessView>) -> Result<
    Map<Seq<char>, SessionView<S>>,
    Error,
>
    decreases probes.len(),
{
    if probes.len() == 0 {
        Ok(Map::empty())
    } else {
        match sessions_of(probes.drop_last(), procs) {
            Err(e) => Err(e),
            Ok(sessions) => match session_of(probes.last(), procs) {
                Err(e) => Err(e),
                Ok(session) => Ok(sessions.insert(session.instance_id, session)),
            },
        }
    }
}

/// Every session is stored under its own instance id and has no empty name.
pub open spec fn sessions_wf<S>(sessions: Map<Seq<char>, SessionView<S>>) -> bool {
    &&& sessions.dom().finite()
    &&& forall|k: Seq<char>| #[trigger]
        sessions.contains_key(k) ==> sessions[k].instance_id == k && sessions[k].named()
}

/// The views of the sessions of a table.
pub open spec fn session_views<S>(table: Map<Seq<char>, SessionInfo<S>>) -> Map<
    Seq<char>,
    SessionView<S>,
> {
    table.map_values(|s: SessionInfo<S>| s@)
}

impl<M, S> DeviceView<M, S> {
    /// A device holds sessions only while it is active, each under its own
    /// instance id.
    pub open spec fn wf(self) -> bool {
        &&& sessions_wf(self.sessions)
        &&& !(self.state is Active) ==> self.sessions == Map::<Seq<char>, SessionView<S>>::empty()
    }

    /// A device that was just opened and holds nothing yet.
    pub open spec fn blank(id: Seq<char>, name: Seq<char>) -> Self {
        DeviceView { id, name, state: DeviceState::NotPresent, sessions: Map::empty() }
    }

    /// This device after an activation was offered to it: unchanged when it
    /// is active already, else active with the sessions of the activation.
    pub open spec fn activated(self, activation: Activation<M, S>, procs: Map<u32, ProcessView>) -> Result<
        Self,
        Error,
    > {
        if self.state is Active {
            Ok(self)
        } else {
            match sessions_of(activation.sessions@, procs) {
                Err(e) => Err(e),
                Ok(sessions) => Ok(
                    DeviceView { state: DeviceState::Active(activation.handle), sessions, ..self },
                ),
            }
        }
    }

    /// This device after the platform reported the state `new_state`.
    ///
    /// A report of the active state leaves an active device as it is and
    /// activates any other; every other state drops the handle and clears the
    /// sessions.
    pub open spec fn with_state(
        self,
        new_state: u32,
        activation: Option<Activation<M, S>>,
        procs: Map<u32, ProcessView>,
    ) -> Result<Self, Error> {
        match DeviceStateKind::decode(new_state as int) {
            None => Err(Error::UnrecognizedValue(ValueKind::DeviceState)),
            Some(DeviceStateKind::Active) => if self.state is Active {
                Ok(self)
            } else {
                match activation {
                    None => Err(Error::MissingReply),
                    Some(a) => self.activated(a, procs),
                }
            },
            Some(kind) => Ok(DeviceView { state: kind.idle(), sessions: Map::empty(), ..self }),
        }
    }

    /// This device with `session` stored under its instance id, if the
    /// device is active; else this device.
    pub open spec fn with_session(self, session: SessionView<S>) -> Self {
        if self.state is Active {
            DeviceView { sessions: self.sessions.insert(session.instance_id, session), ..self }
        } else {
            self
        }
    }

    /// This device without the session `instance_id`.
    pub open spec fn without_session(self, instance_id: Seq<char>) -> Self {
        DeviceView { sessions: self.sessions.remove(instance_id), ..self }
    }

    /// This device with the display name of the session `instance_id`
    /// resolved anew, if it holds that session; else this device.
    pub open spec fn with_renamed_session(
        self,
        instance_id: Seq<char>,
        reported: Option<Seq<char>>,
        procs: Map<u32, ProcessView>,
    ) -> Self {
        if self.sessions.contains_key(instance_id) {
            DeviceView {
                sessions: self.sessions.insert(
                    instance_id,
                    self.sessions[instance_id].renamed(reported, procs),
                ),
                ..self
            }
        } else {
            self
        }
    }

    /// This device with the session `instance_id` in the given lifecycle
    /// state, if it holds that session; else this device.
    pub open spec fn with_session_state(self, instance_id: Seq<char>, state: SessionState) -> Self {
        if self.sessions.contains_key(instance_id) {
            DeviceView {
                sessions: self.sessions.insert(
                    instance_id,
                    self.sessions[instance_id].in_state(state),
                ),
                ..self
            }
        } else {
            self
        }
    }
}

/// The entry that opening a device gives rise to, or the reason it fails.
pub open spec fn device_of<M, S>(
    id: Seq<char>,
    probe: DeviceProbe<M, S>,
    procs: Map<u32, ProcessView>,
) -> Result<DeviceView<M, S>, Error> {
    DeviceView::blank(id, probe.name@).with_state(probe.state, probe.activation, procs)
}

impl<M, S> View for DeviceInfo<M, S> {
    type V = DeviceView<M, S>;

    closed spec fn view(&self) -> DeviceView<M, S> {
        DeviceView {
            id: self.id@,
            name: self.name@,
            state: self.state,
            sessions: session_views(self.session_map@),
        }
    }
}

impl<M, S> DeviceInfo<M, S> {
    /// The entry's view is well formed.
    #[verifier::type_invariant]
    pub open spec fn wf(&self) -> bool {
        self@.wf()
    }

    /// A table without sessions, with the fact that its view holds none.
    fn no_sessions() -> (sessions: Table<SessionInfo<S>>)
        ensures
            sessions@ == Map::<Seq<char>, SessionInfo<S>>::empty(),
            session_views(sessions@) == Map::<Seq<char>, SessionView<S>>::empty(),
            sessions_wf(session_views(sessions@)),
    {
        let sessions = Table::new();
        proof {
            assert(session_views(sessions@) =~= Map::<Seq<char>, SessionView<S>>::empty());
        }
        sessions
    }

    /// Whether a reported wire state can only be entered with a handle, so
    /// that the device has to be activated before the report is applied.
    pub fn needs_handle(new_state: u32) -> (needed: bool)
        ensures
            needed == (DeviceStateKind::decode(new_state as int) == Some(DeviceStateKind::Active)),
    {
        new_state == DEVICE_STATE_ACTIVE
    }

    /// The state a reported wire value leads to.
    ///
    /// The active state takes the handle that was acquired for it and fails
    /// without one; every other state drops the handle it is given. A value
    /// outside the known set is rejected.
    pub fn translate_state(new_state: u32, handle: Option<M>) -> (state: Result<
        DeviceState<M>,
        Error,
    >)
        ensures
            state == translated(new_state, handle),
    {
        let kind = match DeviceStateKind::try_from(new_state) {
            Ok(kind) => kind,
            Err(e) => {
                return Err(e);
            },
        };
        match kind {
            DeviceStateKind::Active => match handle {
                Some(h) => Ok(DeviceState::Active(h)),
                None => Err(Error::MissingReply),
            },
            DeviceStateKind::Disabled => Ok(DeviceState::Disabled),
            DeviceStateKind::NotPresent => Ok(DeviceState::NotPresent),
            DeviceStateKind::Unplugged => Ok(DeviceState::Unplugged),
        }
    }

    /// Opens a device entry from what the platform reported.
    ///
    /// Fails, retaining nothing, when the reported state is outside the known
    /// set, when it is the active state and no activation came with it, or
    /// when one of the activation's sessions is rejected.
    pub fn new(id: String, probe: DeviceProbe<M, S>, table: &ProcessTable) -> (opened: Result<
        Self,
        Error,
    >)
        ensures
            match device_of(id@, probe, table@) {
                Ok(view) => opened is Ok && opened->Ok_0@ == view,
                Err(e) => opened is Err && opened->Err_0 == e,
            },
    {
        let DeviceProbe { name, state, activation } = probe;
        let mut device = DeviceInfo {
            id,
            name,
            state: DeviceState::NotPresent,
            session_map: Self::no_sessions(),
        };
        match device.set_state(state, activation, table) {
            Ok(()) => Ok(device),
            Err(e) => Err(e),
        }
    }

    /// Applies a reported state.
    ///
    /// A report of the active state leaves an active device as it is and
    /// otherwise activates it with the activation that came with the report.
    /// Any other state drops the handle and clears the sessions, for which no
    /// further notification would arrive. On failure the device is left as it
    /// was.
    pub fn set_state(
        &mut self,
        new_state: u32,
        activation: Option<Activation<M, S>>,
        table: &ProcessTable,
    ) -> (done: Result<(), Error>)
        ensures
            match old(self)@.with_state(new_state, activation, table@) {
                Ok(view) => done is Ok && final(self)@ == view,
                Err(e) => done == Err::<(), Error>(e) && final(self)@ == old(self)@,
            },
    {
        proof {
            use_type_invariant(&*self);
        }
        if Self::needs_handle(new_state) {
            if self.is_active() {
                return Ok(());
            }
            return match activation {
                None => Err(Error::MissingReply),
                Some(a) => self.activate(a, table),
            };
        }
        match Self::translate_state(new_state, None) {
            Err(e) => Err(e),
            Ok(state) => {
                self.session_map = Self::no_sessions();
                self.state = state;
                Ok(())
            },
        }
    }

    /// Makes the device active with the given handle and the sessions that
    /// existed on it, unless it is active already, in which case nothing
    /// changes and the activation is dropped. On failure the device is left
    /// as it was.
    pub fn activate(&mut self, activation: Activation<M, S>, table: &ProcessTable) -> (done: Result<
        (),
        Error,
    >)
        ensures
            match old(self)@.activated(activation, table@) {
                Ok(view) => done is Ok && final(self)@ == view,
                Err(e) => done == Err::<(), Error>(e) && final(self)@ == old(self)@,
            },
    {
        proof {
            use_type_invariant(&*self);
        }
        if self.is_active() {
            return Ok(());
        }
        let Activation { handle, sessions } = activation;
        match open_sessions(sessions, table) {
            Err(e) => Err(e),
            Ok(opened) => {
                self.state = DeviceState::Active(handle);
                self.session_map = opened;
                Ok(())
            },
        }
    }

    /// The platform's id of the device, the key it is stored under.
    pub fn id(&self) -> (id: &String)
        ensures
            id@ == self@.id,
    {
        &self.id
    }

    /// The human-readable name of the device.
    pub fn name(&self) -> (name: &String)
        ensures
            name@ == self@.name,
    {
        &self.name
    }

    /// The lifecycle state, with the handle of an active device.
    pub fn state(&self) -> (state: &DeviceState<M>)
        ensures
            *state == self@.state,
    {
        &self.state
    }

    /// Whether the device is active.
    pub fn is_active(&self) -> (active: bool)
        ensures
            active == (self@.state is Active),
    {
        match self.state {
            DeviceState::Active(_) => true,
            _ => false,
        }
    }

    /// The sessions of the device, by instance id.
    pub fn sessions(&self) -> (sessions: &Table<SessionInfo<S>>)
        ensures
            session_views(sessions@) == self@.sessions,
            self@.wf(),
    {
        proof {
            use_type_invariant(self);
        }
        &self.session_map
    }

    /// The session stored under `instance_id`, if any.
    pub fn session(&self, instance_id: &String) -> (session: Option<&SessionInfo<S>>)
        ensures
            match session {
                Some(s) => self@.sessions.contains_key(instance_id@) && self@.sessions[instance_id@]
                    == s@,
                None => !self@.sessions.contains_key(instance_id@),
            },
    {
        self.session_map.get(instance_id)
    }

    /// Stores a session under its instance id if the device is active.
    ///
    /// Hands back the session it replaces, or, if the device is not active,
    /// the given session itself.
    pub fn insert_session(&mut self, session: SessionInfo<S>) -> (returned: Option<SessionInfo<S>>)
        ensures
            final(self)@ == old(self)@.with_session(session@),
            match returned {
                Some(s) => if old(self)@.state is Active {
                    old(self)@.sessions.contains_key(session@.instance_id) && old(
                        self,
                    )@.sessions[session@.instance_id] == s@
                } else {
                    s == session
                },
                None => old(self)@.state is Active && !old(self)@.sessions.contains_key(
                    session@.instance_id,
                ),
            },
    {
        proof {
            use_type_invariant(&*self);
            use_type_invariant(&session);
        }
        if !self.is_active() {
            return Some(session);
        }
        let key = session.instance_id().clone();
        let mut sessions = Self::no_sessions();
        core::mem::swap(&mut self.session_map, &mut sessions);
        let ghost before = sessions@;
        let replaced = sessions.insert(key, session);
        proof {
            assert(session_views(sessions@) =~= session_views(before).insert(
                session@.instance_id,
                session@,
            ));
            assert(session_views(sessions@).dom() =~= sessions@.dom());
        }
        self.session_map = sessions;
        replaced
    }

    /// Takes the session `instance_id` out of the device, handing it back.
    pub fn remove_session(&mut self, instance_id: &String) -> (removed: Option<SessionInfo<S>>)
        ensures
            final(self)@ == old(self)@.without_session(instance_id@),
            match removed {
                Some(s) => old(self)@.sessions.contains_key(instance_id@) && old(
                    self,
                )@.sessions[instance_id@] == s@ && s@.instance_id == instance_id@,
                None => !old(self)@.sessions.contains_key(instance_id@),
            },
    {
        proof {
            use_type_invariant(&*self);
        }
        let mut sessions = Self::no_sessions();
        core::mem::swap(&mut self.session_map, &mut sessions);
        let ghost before = sessions@;
        let removed = sessions.remove(instance_id);
        proof {
            assert(session_views(sessions@) =~= session_views(before).remove(instance_id@));
            assert(session_views(sessions@).dom() =~= sessions@.dom());
            if !(self.state is Active) {
                assert(session_views(sessions@) =~= Map::<Seq<char>, SessionView<S>>::empty());
            }
        }
        self.session_map = sessions;
        removed
    }
}

impl<M, S> DeviceInfo<M, S> {
    /// Resolves the display name of the session `instance_id` anew. Tells
    /// whether the device holds that session; if not, nothing changes.
    pub fn rename_session(
        &mut self,
        instance_id: &String,
        new_display_name: Option<String>,
        table: &ProcessTable,
    ) -> (held: bool)
        ensures
            held == old(self)@.sessions.contains_key(instance_id@),
            final(self)@ == old(self)@.with_renamed_session(
                instance_id@,
                match new_display_name {
                    Some(name) => Some(name@),
                    None => None,
                },
                table@,
            ),
    {
        proof {
            use_type_invariant(&*self);
        }
        let mut sessions = Self::no_sessions();
        core::mem::swap(&mut self.session_map, &mut sessions);
        let ghost before = sessions@;
        let held = match sessions.remove(instance_id) {
            None => {
                proof {
                    assert(sessions@ =~= before);
                }
                false
            },
            Some(session) => {
                let mut session = session;
                session.set_display_name(new_display_name, table);
                sessions.insert(instance_id.clone(), session);
                proof {
                    assert(session_views(sessions@) =~= session_views(before).insert(
                        instance_id@,
                        session@,
                    ));
                    assert(session_views(sessions@).dom() =~= sessions@.dom());
                }
                true
            },
        };
        self.session_map = sessions;
        held
    }

    /// Records a new lifecycle state of the session `instance_id`. Tells
    /// whether the device holds that session; if not, nothing changes.
    pub fn set_session_state(&mut self, instance_id: &String, state: SessionState) -> (held: bool)
        ensures
            held == old(self)@.sessions.contains_key(instance_id@),
            final(self)@ == old(self)@.with_session_state(instance_id@, state),
    {
        proof {
            use_type_invariant(&*self);
        }
        let mut sessions = Self::no_sessions();
        core::mem::swap(&mut self.session_map, &mut sessions);
        let ghost before = sessions@;
        let held = match sessions.remove(instance_id) {
            None => {
                proof {
                    assert(sessions@ =~= before);
                }
                false
            },
            Some(session) => {
                let mut session = session;
                proof {
                    use_type_invariant(&session);
                }
                session.set_state(state);
                sessions.insert(instance_id.clone(), session);
                proof {
                    assert(session_views(sessions@) =~= session_views(before).insert(
                        instance_id@,
                        session@,
                    ));
                    assert(session_views(sessions@).dom() =~= sessions@.dom());
                }
                true
            },
        };
        self.session_map = sessions;
        held
    }
}

/// Type tag of a property that holds nothing.
pub const VT_EMPTY: u16 = 0;

/// Type tag of a property that holds text.
pub const VT_LPWSTR: u16 = 31;

/// What the property store gave for the friendly name of a device.
#[derive(Debug)]
pub enum NameProperty {
    /// The property could not be read.
    Unreadable,
    /// The property was read: the type tag of what it holds, and the text it
    /// holds where the tag is that of text.
    Read(u16, String),
}

/// The name that a friendly-name property stands for: a property that could
/// not be read gives the name "Unknown"; an empty one and one of another type
/// than text are errors.
pub open spec fn device_name_of(property: NameProperty) -> Result<Seq<char>, Error> {
    match property {
        NameProperty::Unreadable => Ok("Unknown"@),
        NameProperty::Read(tag, text) => if tag == VT_EMPTY {
            Err(Error::EmptyProperty)
        } else if tag != VT_LPWSTR {
            Err(Error::UnexpectedPropertyType(tag))
        } else {
            Ok(text@)
        },
    }
}

/// The human-readable name of a device, from its friendly-name property.
pub fn get_device_name(property: NameProperty) -> (name: Result<String, Error>)
    ensures
        match device_name_of(property) {
            Ok(text) => name is Ok && name->Ok_0@ == text,
            Err(e) => name == Err::<String, Error>(e),
        },
{
    match property {
        NameProperty::Unreadable => Ok("Unknown".to_owned()),
        NameProperty::Read(tag, text) => if tag == VT_EMPTY {
            Err(Error::EmptyProperty)
        } else if tag != VT_LPWSTR {
            Err(Error::UnexpectedPropertyType(tag))
        } else {
            Ok(text)
        },
    }
}

/// Opens an entry for each probe, later probes replacing earlier ones of the
/// same instance id. Fails on the first probe that is rejected.
pub fn open_sessions<S>(probes: Vec<SessionProbe<S>>, table: &ProcessTable) -> (opened: Result<
    Table<SessionInfo<S>>,
    Error,
>)
    ensures
        match sessions_of(probes@, table@) {
            Ok(sessions) => opened is Ok && session_views(opened->Ok_0@) == sessions,
            Err(e) => opened is Err && opened->Err_0 == e,
        },
        opened is Ok ==> sessions_wf(session_views(opened->Ok_0@)),
{
    let ghost all = probes@;
    let mut rest = reversed(probes);
    let mut sessions: Table<SessionInfo<S>> = Table::new();
    let ghost mut done: int = 0;
    proof {
        assert(all.subrange(0, 0) =~= Seq::<SessionProbe<S>>::empty());
        assert(session_views(sessions@) =~= Map::<Seq<char>, SessionView<S>>::empty());
    }
    while rest.len() > 0
        invariant
            all == probes@,
            0 <= done,
            done + rest@.len() == all.len(),
            forall|j: int| 0 <= j < rest@.len() ==> rest@[j] == all[all.len() - 1 - j],
            sessions_of(all.subrange(0, done), table@) == Ok::<
                Map<Seq<char>, SessionView<S>>,
                Error,
            >(session_views(sessions@)),
            sessions_wf(session_views(sessions@)),
        decreases rest.len(),
    {
        let probe = rest.pop().unwrap();
        proof {
            assert(probe == all[done]);
            assert(all.subrange(0, done + 1).drop_last() =~= all.subrange(0, done));
            assert(all.subrange(0, done + 1).last() == probe);
        }
        match SessionInfo::new(probe, table) {
            Err(e) => {
                proof {
                    assert(sessions_of(all.subrange(0, done + 1), table@) is Err);
                    assert(sessions_of(all.subrange(0, done + 1), table@)->Err_0 == e);
                    lemma_sessions_of_fails(all, done + 1, table@);
                }
                return Err(e);
            },
            Ok(session) => {
                let ghost before = sessions@;
                let key = session.instance_id().clone();
                sessions.insert(key, session);
                proof {
                    assert(session_views(sessions@) =~= session_views(before).insert(
                        session@.instance_id,
                        session@,
                    ));
                    assert(session_views(sessions@).dom() =~= sessions@.dom());
                    assert(sessions_of(all.subrange(0, done + 1), table@) == Ok::<
                        Map<Seq<char>, SessionView<S>>,
                        Error,
                    >(session_views(sessions@)));
                    done = done + 1;
                }
            },
        }
    }
    proof {
        assert(all.subrange(0, done) =~= all);
    }
    Ok(sessions)
}

/// Once a prefix of the probes is rejected, the whole list is rejected for
/// the same reason.
pub proof fn lemma_sessions_of_fails<S>(
    probes: Seq<SessionProbe<S>>,
    upto: int,
    procs: Map<u32, ProcessView>,
)
    requires
        0 <= upto <= probes.len(),
        sessions_of(probes.subrange(0, upto), procs) is Err,
    ensures
        sessions_of(probes, procs) == sessions_of(probes.subrange(0, upto), procs),
    decreases probes.len() - upto,
{
    if upto == probes.len() {
        assert(probes.subrange(0, upto) =~= probes);
    } else {
        assert(probes.subrange(0, upto + 1).drop_last() =~= probes.subrange(0, upto));
        lemma_sessions_of_fails(probes, upto + 1, procs);
    }
}

} // verus!
