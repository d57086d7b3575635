//! Errors surfaced by the registry.

use vstd::prelude::*;

verus! {

/// Result code reported when a looked-up property holds nothing.
pub const ELEMENT_NOT_FOUND: i32 = -2147319765;

/// Result code reported when a platform value lies outside its known set.
pub const BAD_VALUE: i32 = -2147479468;

/// The family of platform values a raw number was expected to belong to.
#[derive(Clone, Copy, Debug, PartialEq, Eq, Structural)]
pub enum ValueKind {
    Flow,
    Role,
    SessionState,
    DisconnectReason,
    DeviceState,
}

/// Everything that can go wrong while an event is applied.
#[derive(Clone, Copy, Debug, PartialEq, Eq, Structural)]
pub enum Error {
    /// A device that had to be present was not.
    DeviceNotFound,
    /// A raw platform value was outside the known set for its kind.
    UnrecognizedValue(ValueKind),
    /// A platform call failed with the given result code.
    Platform(i32),
    /// An event that needs the platform's reply to be applied came without
    /// that reply.
    MissingReply,
    /// A property that had to hold a value was empty.
    EmptyProperty,
    /// A property held a value of another type than text; the type tag of
    /// what it held is given.
    UnexpectedPropertyType(u16),
}

impl Error {
    /// The result code that stands for this error at the platform boundary,
    /// for the errors that have one.
    pub open spec fn spec_code(self) -> Option<i32> {
        match self {
            Error::UnrecognizedValue(_) => Some(BAD_VALUE),
            Error::UnexpectedPropertyType(_) => Some(BAD_VALUE),
            Error::EmptyProperty => Some(ELEMENT_NOT_FOUND),
            Error::Platform(code) => Some(code),
            Error::DeviceNotFound => None,
            Error::MissingReply => None,
        }
    }

    /// Result code to hand back to the platform for this error, if it has
    /// one.
    pub fn code(&self) -> (code: Option<i32>)
        ensures
            code == self.spec_code(),
    {
        match self {
            Error::UnrecognizedValue(_) => Some(BAD_VALUE),
            Error::UnexpectedPropertyType(_) => Some(BAD_VALUE),
            Error::EmptyProperty => Some(ELEMENT_NOT_FOUND),
            Error::Platform(code) => Some(*code),
            Error::DeviceNotFound => None,
            Error::MissingReply => None,
        }
    }
}

} // verus!
