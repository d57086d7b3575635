//! A notification-driven registry of audio endpoints and of the per-process
//! audio sessions that run on them, together with the correlation between the
//! process that owns keyboard focus and the sessions it controls.
//!
//! The registry is a plain value: producers turn platform callbacks into
//! [`Event`]s, a single consumer folds them into a [`DeviceMap`], and every
//! step is described by a contract over the registry's mathematical view.
//! What the platform has to provide for an event is asked of the caller, who
//! hands it in as a [`Reply`]; the handles in it are owned by the registry
//! from then on and released when their entry goes.
//!
//! Beside the registry stand the triggers of a MIDI control surface
//! ([`controls`]), which say which incoming message fires which control.

pub mod controls;
pub mod device;
pub mod error;
pub mod event;
pub mod focus;
pub mod kinds;
pub mod laws;
pub mod live;
pub mod midi;
pub mod process;
pub mod query;
pub mod reconciler;
pub mod registry;
pub mod session;
pub mod table;
pub mod text;

pub use device::{
    get_device_name, Activation, DeviceInfo, DeviceProbe, DeviceState, DeviceStateKind,
    DeviceView, NameProperty, DEVICE_STATE_ACTIVE, DEVICE_STATE_DISABLED,
    DEVICE_STATE_NOTPRESENT, DEVICE_STATE_UNPLUGGED, VT_EMPTY, VT_LPWSTR,
};
pub use error::{Error, ValueKind, BAD_VALUE, ELEMENT_NOT_FOUND};
pub use event::{
    AudioSessionEvents, AudioSessionNotification, DeviceEvent, Event, MMNotificationClient,
    SessionEvent, SessionSimpleVolumeChangedEvent,
};
pub use focus::{find_sessions_for_pid, sessions_owned_by};
pub use kinds::{DisconnectReason, EDataFlow, ERole, SessionState};
pub use live::reconcile_live;
pub use process::{pid_and_child_pids, ProcessEntry, ProcessTable, ProcessView};
pub use query::{active_devices, default_device_name, default_device_names};
pub use reconciler::{
    handle_device_event, handle_session_event, init_device_map, reconcile, request_for,
    DeviceOutcome, Reconciled, Reply, Request, SessionOutcome,
};
pub use registry::{DeviceMap, RegistryView};
pub use session::{SessionInfo, SessionProbe, SessionView};
pub use table::Table;
pub use text::wide_string;
