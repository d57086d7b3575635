//! The event envelope, and the adapters that turn platform notifications
//! into events.
//!
//! An adapter never touches the registry: it decodes what the platform
//! handed to the callback and says which events are to be queued, in order.

use vstd::prelude::*;
use crate::error::{Error, ValueKind};
use crate::kinds::{DisconnectReason, EDataFlow, ERole, SessionState};

verus! {

/// New volume and mute state of a session. The volume is carried as the bit
/// pattern of the single-precision scalar that the platform reported.
#[derive(Clone, Debug, PartialEq, Eq)]
pub struct SessionSimpleVolumeChangedEvent {
    pub volume_bits: u32,
    pub mute: bool,
}

/// A notification about one session.
#[derive(Clone, Debug, PartialEq, Eq)]
pub enum SessionEvent {
    SimpleVolumeChanged(SessionSimpleVolumeChangedEvent),
    DisplayNameChanged(String),
    IconPathChanged(String),
    GroupingParamChanged(u128),
    StateChanged(SessionState),
    SessionDisconnected(DisconnectReason),
}

/// A notification about one device. A state change carries the wire value
/// of the new state.
#[derive(Clone, Debug, PartialEq, Eq)]
pub enum DeviceEvent {
    DefaultDeviceChanged(EDataFlow, ERole),
    DeviceAdded,
    DeviceRemoved,
    DeviceStateChanged(u32),
    SessionCreated(String),
}

/// Everything that travels through the queue to the reconciler.
#[derive(Clone, Debug, PartialEq, Eq)]
pub enum Event {
    /// A device id and what happened to that device.
    Device(String, DeviceEvent),
    /// A device id, a session instance id and what happened to that session.
    Session(String, String, SessionEvent),
    /// The process that owns the window which now has the focus.
    ActiveWindowChange(u32),
}

/// Adapter for the notifications about devices.
#[derive(Clone, Debug)]
pub struct MMNotificationClient {}

/// Adapter for the session-created notifications of one device.
#[derive(Clone, Debug)]
pub struct AudioSessionNotification {
    pub device_id: String,
}

/// Adapter for the notifications of one session.
#[derive(Clone, Debug)]
pub struct AudioSessionEvents {
    pub device_id: String,
    pub session_instance_id: String,
}

/// Wire value of a true boolean.
pub const TRUE: i32 = 1;

/// What a default-device notification decodes to: the flow is examined
/// first, then the role.
pub open spec fn default_changed(flow: i32, role: i32) -> Result<DeviceEvent, Error> {
    match EDataFlow::decode(flow as int) {
        None => Err(Error::UnrecognizedValue(ValueKind::Flow)),
        Some(f) => match ERole::decode(role as int) {
            None => Err(Error::UnrecognizedValue(ValueKind::Role)),
            Some(r) => Ok(DeviceEvent::DefaultDeviceChanged(f, r)),
        },
    }
}

/// The events that a reported session state gives rise to: an expired
/// session is disconnected, with a reason of its own, before its state change
/// is passed on.
pub open spec fn state_events(state: SessionState) -> Seq<SessionEvent> {
    if state == SessionState::Expired {
        seq![
            SessionEvent::SessionDisconnected(DisconnectReason::SessionExpired),
            SessionEvent::StateChanged(state),
        ]
    } else {
        seq![SessionEvent::StateChanged(state)]
    }
}

impl MMNotificationClient {
    /// The default device of a role for a flow changed.
    ///
    /// Fails exactly when the flow or the role is outside its known set.
    pub fn on_default_device_changed(&self, flow: i32, role: i32, default_device_id: String) -> (event:
        Result<Event, Error>)
        ensures
            match default_changed(flow, role) {
                Ok(e) => event == Ok::<Event, Error>(Event::Device(default_device_id, e)),
                Err(e) => event == Err::<Event, Error>(e),
            },
    {
        let flow = match EDataFlow::try_from(flow) {
            Ok(flow) => flow,
            Err(e) => {
                return Err(e);
            },
        };
        let role = match ERole::try_from(role) {
            Ok(role) => role,
            Err(e) => {
                return Err(e);
            },
        };
        Ok(Event::Device(default_device_id, DeviceEvent::DefaultDeviceChanged(flow, role)))
    }

    /// A device appeared.
    pub fn on_device_added(&self, device_id: String) -> (event: Event)
        ensures
            event == Event::Device(device_id, DeviceEvent::DeviceAdded),
    {
        Event::Device(device_id, DeviceEvent::DeviceAdded)
    }

    /// A device went away.
    pub fn on_device_removed(&self, device_id: String) -> (event: Event)
        ensures
            event == Event::Device(device_id, DeviceEvent::DeviceRemoved),
    {
        Event::Device(device_id, DeviceEvent::DeviceRemoved)
    }

    /// A device changed its state; the wire value is decoded when the event
    /// is applied.
    pub fn on_device_state_changed(&self, device_id: String, new_state: u32) -> (event: Event)
        ensures
            event == Event::Device(device_id, DeviceEvent::DeviceStateChanged(new_state)),
    {
        Event::Device(device_id, DeviceEvent::DeviceStateChanged(new_state))
    }
}

impl AudioSessionNotification {
    /// A session was created on the device; nothing is queued when the
    /// platform names no session.
    pub fn on_session_created(&self, session_instance_id: Option<String>) -> (event: Option<Event>)
        ensures
            event == match session_instance_id {
                Some(id) => Some(Event::Device(self.device_id, DeviceEvent::SessionCreated(id))),
                None => None,
            },
    {
        match session_instance_id {
            Some(id) => Some(Event::Device(self.device_id.clone(), DeviceEvent::SessionCreated(id))),
            None => None,
        }
    }
}

impl AudioSessionEvents {
    /// The event that carries `event` for this adapter's session.
    pub open spec fn envelope(&self, event: SessionEvent) -> Event {
        Event::Session(self.device_id, self.session_instance_id, event)
    }

    fn wrap(&self, event: SessionEvent) -> (wrapped: Event)
        ensures
            wrapped == self.envelope(event),
    {
        Event::Session(self.device_id.clone(), self.session_instance_id.clone(), event)
    }

    /// The display name changed.
    pub fn on_display_name_changed(&self, new_display_name: String) -> (event: Event)
        ensures
            event == self.envelope(SessionEvent::DisplayNameChanged(new_display_name)),
    {
        self.wrap(SessionEvent::DisplayNameChanged(new_display_name))
    }

    /// The icon path changed.
    pub fn on_icon_path_changed(&self, new_icon_path: String) -> (event: Event)
        ensures
            event == self.envelope(SessionEvent::IconPathChanged(new_icon_path)),
    {
        self.wrap(SessionEvent::IconPathChanged(new_icon_path))
    }

    /// Volume or mute changed; the session is muted exactly when the
    /// reported flag is the wire value of true.
    pub fn on_simple_volume_changed(&self, new_volume_bits: u32, new_mute: i32) -> (event: Event)
        ensures
            event == self.envelope(
                SessionEvent::SimpleVolumeChanged(
                    SessionSimpleVolumeChangedEvent {
                        volume_bits: new_volume_bits,
                        mute: new_mute == TRUE,
                    },
                ),
            ),
    {
        self.wrap(
            SessionEvent::SimpleVolumeChanged(
                SessionSimpleVolumeChangedEvent {
                    volume_bits: new_volume_bits,
                    mute: new_mute == TRUE,
                },
            ),
        )
    }

    /// The grouping parameter changed.
    pub fn on_grouping_param_changed(&self, new_grouping_param: u128) -> (event: Event)
        ensures
            event == self.envelope(SessionEvent::GroupingParamChanged(new_grouping_param)),
    {
        self.wrap(SessionEvent::GroupingParamChanged(new_grouping_param))
    }

    /// The session changed its state.
    ///
    /// Fails exactly when the state is outside the known set. A session that
    /// expired is disconnected first, since the platform does not always say
    /// so itself.
    pub fn on_state_changed(&self, new_state: i32) -> (events: Result<Vec<Event>, Error>)
        ensures
            match SessionState::decode(new_state as int) {
                None => events == Err::<Vec<Event>, Error>(
                    Error::UnrecognizedValue(ValueKind::SessionState),
                ),
                Some(state) => events is Ok && events->Ok_0@ == state_events(state).map_values(
                    |e: SessionEvent| self.envelope(e),
                ),
            },
    {
        let state = match SessionState::try_from(new_state) {
            Ok(state) => state,
            Err(e) => {
                return Err(e);
            },
        };
        let mut events: Vec<Event> = Vec::new();
        if state == SessionState::Expired {
            events.push(
                self.wrap(SessionEvent::SessionDisconnected(DisconnectReason::SessionExpired)),
            );
        }
        events.push(self.wrap(SessionEvent::StateChanged(state)));
        proof {
            assert(events@ =~= state_events(state).map_values(|e: SessionEvent| self.envelope(e)));
        }
        Ok(events)
    }

    /// The session was disconnected.
    ///
    /// Fails exactly when the reason is outside the known set.
    pub fn on_session_disconnected(&self, disconnect_reason: i32) -> (event: Result<Event, Error>)
        ensures
            match DisconnectReason::decode(disconnect_reason as int) {
                None => event == Err::<Event, Error>(
                    Error::UnrecognizedValue(ValueKind::DisconnectReason),
                ),
                Some(reason) => event == Ok::<Event, Error>(
                    self.envelope(SessionEvent::SessionDisconnected(reason)),
                ),
            },
    {
        match DisconnectReason::try_from(disconnect_reason) {
            Ok(reason) => Ok(self.wrap(SessionEvent::SessionDisconnected(reason))),
            Err(e) => Err(e),
        }
    }
}

} // verus!
