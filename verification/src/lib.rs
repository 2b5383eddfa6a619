//! Display enumeration and configuration.
//!
//! The library discovers the displays attached to a host machine, represents a
//! display's current mode (resolution, refresh rate, position) as a record with
//! a field-presence bitmask, and merges sparse configuration requests into that
//! record for committing through the platform's mode-change call. The platform
//! round-trips themselves (device enumeration, settings query, mode commit) are
//! performed by the surrounding program; the library holds every decision made
//! on their outcomes: classifying status codes, advancing the enumeration
//! cursor, merging requests, and rendering the listing.

use vstd::prelude::*;

pub mod config;
pub mod display;
pub mod options;
pub mod render;

verus! {

/// The platform status code reported when a device-enumeration index has no
/// corresponding device: the normal end of the display list, not a failure.
pub const ERROR_INVALID_HANDLE: i32 = 6;

/// A failed platform round-trip, carrying the native status code for
/// diagnostics.
#[derive(Debug, Clone, Copy, PartialEq, Eq)]
pub enum Error {
    Win32(i32),
}

impl Error {
    /// The native status code carried by this error.
    pub fn code(&self) -> (c: i32)
        ensures
            *self == Error::Win32(c),
    {
        match self {
            Error::Win32(c) => *c,
        }
    }

    /// Relies on `std::io::Error::last_os_error` and `raw_os_error`: reads the
    /// calling thread's last platform status code. The code depends on platform
    /// state, so nothing is promised of its value.
    #[verifier::external_body]
    pub fn last_os_error() -> Error {
        Error::Win32(std::io::Error::last_os_error().raw_os_error().unwrap_or(0))
    }
}

/// The enumeration taxonomy: the platform's invalid-handle status is the
/// sequence's normal termination signal; every other status is a real failure
/// that carries the native code.
#[derive(Debug, Clone, Copy, PartialEq, Eq)]
pub enum EnumStatus {
    EndOfEnumeration,
    PlatformFailure(i32),
}

/// How a platform status code from a device-resolution call is classified.
pub open spec fn classify_spec(code: i32) -> EnumStatus {
    if code == ERROR_INVALID_HANDLE {
        EnumStatus::EndOfEnumeration
    } else {
        EnumStatus::PlatformFailure(code)
    }
}

/// Classify a platform status code from a device-resolution call: the
/// invalid-handle code means the enumeration is exhausted; anything else is a
/// platform failure carrying that code.
pub fn classify(code: i32) -> (s: EnumStatus)
    ensures
        s == classify_spec(code),
{
    if code == ERROR_INVALID_HANDLE {
        EnumStatus::EndOfEnumeration
    } else {
        EnumStatus::PlatformFailure(code)
    }
}

} // verus!
