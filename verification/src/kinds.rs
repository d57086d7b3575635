//! The small closed vocabularies of the audio platform, and their wire values.

use vstd::prelude::*;
use crate::error::{Error, ValueKind};

verus! {

/// Direction of audio data relative to a device.
///
/// `All` only ever appears in notifications; it never indexes the table of
/// default devices.
#[derive(Clone, Copy, Debug, PartialEq, Eq, Structural)]
pub enum EDataFlow {
    Render,
    Capture,
    All,
}

/// Usage category a default device is chosen for.
#[derive(Clone, Copy, Debug, PartialEq, Eq, Structural)]
pub enum ERole {
    Console,
    Multimedia,
    Communications,
}

/// Lifecycle state of a session.
#[derive(Clone, Copy, Debug, PartialEq, Eq, Structural)]
pub enum SessionState {
    Active,
    Inactive,
    Expired,
}

/// Why a session went away.
///
/// `SessionExpired` has no wire value: it marks the disconnect that is
/// synthesised when a session reports the `Expired` state.
#[derive(Clone, Copy, Debug, PartialEq, Eq, Structural)]
pub enum DisconnectReason {
    DeviceRemoval,
    ServerShutdown,
    FormatChanged,
    SessionLogoff,
    SessionDisconnected,
    ExclusiveModeOverride,
    SessionExpired,
}

impl EDataFlow {
    /// The flow a wire value stands for, if any.
    pub open spec fn decode(value: int) -> Option<EDataFlow> {
        if value == 0 {
            Some(EDataFlow::Render)
        } else if value == 1 {
            Some(EDataFlow::Capture)
        } else if value == 2 {
            Some(EDataFlow::All)
        } else {
            None
        }
    }

    /// The wire value of a flow.
    pub open spec fn wire(self) -> int {
        match self {
            EDataFlow::Render => 0,
            EDataFlow::Capture => 1,
            EDataFlow::All => 2,
        }
    }

    /// Decodes a wire value, rejecting anything outside the known set.
    pub fn try_from(value: i32) -> (r: Result<EDataFlow, Error>)
        ensures
            r == match EDataFlow::decode(value as int) {
                Some(flow) => Ok::<EDataFlow, Error>(flow),
                None => Err(Error::UnrecognizedValue(ValueKind::Flow)),
            },
    {
        if value == 0 {
            Ok(EDataFlow::Render)
        } else if value == 1 {
            Ok(EDataFlow::Capture)
        } else if value == 2 {
            Ok(EDataFlow::All)
        } else {
            Err(Error::UnrecognizedValue(ValueKind::Flow))
        }
    }

    /// Column of this flow in the table of default devices.
    pub fn index(self) -> (column: usize)
        requires
            self != EDataFlow::All,
        ensures
            column as int == self.wire(),
            column < 2,
    {
        match self {
            EDataFlow::Render => 0,
            _ => 1,
        }
    }

    /// Wire value of this flow.
    pub fn to_wire(self) -> (value: i32)
        ensures
            value as int == self.wire(),
            EDataFlow::decode(value as int) == Some(self),
    {
        match self {
            EDataFlow::Render => 0,
            EDataFlow::Capture => 1,
            EDataFlow::All => 2,
        }
    }
}

impl ERole {
    /// The role a wire value stands for, if any.
    pub open spec fn decode(value: int) -> Option<ERole> {
        if value == 0 {
            Some(ERole::Console)
        } else if value == 1 {
            Some(ERole::Multimedia)
        } else if value == 2 {
            Some(ERole::Communications)
        } else {
            None
        }
    }

    /// The wire value of a role, which is also its row in the table of
    /// default devices.
    pub open spec fn wire(self) -> int {
        match self {
            ERole::Console => 0,
            ERole::Multimedia => 1,
            ERole::Communications => 2,
        }
    }

    /// Decodes a wire value, rejecting anything outside the known set.
    pub fn try_from(value: i32) -> (r: Result<ERole, Error>)
        ensures
            r == match ERole::decode(value as int) {
                Some(role) => Ok::<ERole, Error>(role),
                None => Err(Error::UnrecognizedValue(ValueKind::Role)),
            },
    {
        if value == 0 {
            Ok(ERole::Console)
        } else if value == 1 {
            Ok(ERole::Multimedia)
        } else if value == 2 {
            Ok(ERole::Communications)
        } else {
            Err(Error::UnrecognizedValue(ValueKind::Role))
        }
    }

    /// Row of this role in the table of default devices.
    pub fn index(self) -> (row: usize)
        ensures
            row as int == self.wire(),
            row < 3,
    {
        match self {
            ERole::Console => 0,
            ERole::Multimedia => 1,
            ERole::Communications => 2,
        }
    }

    /// Wire value of this role.
    pub fn to_wire(self) -> (value: i32)
        ensures
            value as int == self.wire(),
            ERole::decode(value as int) == Some(self),
    {
        match self {
            ERole::Console => 0,
            ERole::Multimedia => 1,
            ERole::Communications => 2,
        }
    }
}

impl SessionState {
    /// The session state a wire value stands for, if any.
    pub open spec fn decode(value: int) -> Option<SessionState> {
        if value == 0 {
            Some(SessionState::Inactive)
        } else if value == 1 {
            Some(SessionState::Active)
        } else if value == 2 {
            Some(SessionState::Expired)
        } else {
            None
        }
    }

    /// Decodes a wire value, rejecting anything outside the known set.
    pub fn try_from(value: i32) -> (r: Result<SessionState, Error>)
        ensures
            r == match SessionState::decode(value as int) {
                Some(state) => Ok::<SessionState, Error>(state),
                None => Err(Error::UnrecognizedValue(ValueKind::SessionState)),
            },
    {
        if value == 0 {
            Ok(SessionState::Inactive)
        } else if value == 1 {
            Ok(SessionState::Active)
        } else if value == 2 {
            Ok(SessionState::Expired)
        } else {
            Err(Error::UnrecognizedValue(ValueKind::SessionState))
        }
    }
}

impl DisconnectReason {
    /// The disconnect reason a wire value stands for, if any.
    pub open spec fn decode(value: int) -> Option<DisconnectReason> {
        if value == 0 {
            Some(DisconnectReason::DeviceRemoval)
        } else if value == 1 {
            Some(DisconnectReason::ServerShutdown)
        } else if value == 2 {
            Some(DisconnectReason::FormatChanged)
        } else if value == 3 {
            Some(DisconnectReason::SessionLogoff)
        } else if value == 4 {
            Some(DisconnectReason::SessionDisconnected)
        } else if value == 5 {
            Some(DisconnectReason::ExclusiveModeOverride)
        } else {
            None
        }
    }

    /// Decodes a wire value, rejecting anything outside the known set.
    pub fn try_from(reason: i32) -> (r: Result<DisconnectReason, Error>)
        ensures
            r == match DisconnectReason::decode(reason as int) {
                Some(decoded) => Ok::<DisconnectReason, Error>(decoded),
                None => Err(Error::UnrecognizedValue(ValueKind::DisconnectReason)),
            },
    {
        if reason == 0 {
            Ok(DisconnectReason::DeviceRemoval)
        } else if reason == 1 {
            Ok(DisconnectReason::ServerShutdown)
        } else if reason == 2 {
            Ok(DisconnectReason::FormatChanged)
        } else if reason == 3 {
            Ok(DisconnectReason::SessionLogoff)
        } else if reason == 4 {
            Ok(DisconnectReason::SessionDisconnected)
        } else if reason == 5 {
            Ok(DisconnectReason::ExclusiveModeOverride)
        } else {
            Err(Error::UnrecognizedValue(ValueKind::DisconnectReason))
        }
    }
}

} // verus!
