//! Failures that end the monitor before it listens, and the exit code of
//! each.

use crate::capture::CaptureError;
use crate::interface::ConfigurationError;
use vstd::prelude::*;

verus! {

/// A failure at startup. None of them is retried.
#[derive(Clone, Copy, Debug, PartialEq, Eq, Structural)]
pub enum StartupError {
    /// The interface asked for cannot be used.
    Configuration(ConfigurationError),
    /// The capture channel cannot be opened.
    Capture(CaptureError),
    /// The storage file cannot be opened, or its schema not ensured.
    Storage,
}

/// The kinds of failure that the exit code tells apart.
#[derive(Clone, Copy, Debug, PartialEq, Eq, Structural)]
pub enum FailureClass {
    InterfaceNotFound,
    PermissionDenied,
    UnsupportedChannelType,
    DeviceError,
    Storage,
}

impl StartupError {
    /// The class of the failure.
    pub open spec fn class(self) -> FailureClass {
        match self {
            StartupError::Configuration(ConfigurationError::InterfaceNotFound) => {
                FailureClass::InterfaceNotFound
            },
            StartupError::Capture(CaptureError::PermissionDenied) => FailureClass::PermissionDenied,
            StartupError::Capture(CaptureError::UnsupportedChannelType) => {
                FailureClass::UnsupportedChannelType
            },
            StartupError::Capture(CaptureError::DeviceError) => FailureClass::DeviceError,
            StartupError::Storage => FailureClass::Storage,
        }
    }

    /// The exit code of the failure: 3 for an interface that is not found, 4
    /// to 6 for the three ways in which opening the channel fails, 7 for
    /// storage.
    pub open spec fn code(self) -> u8 {
        match self.class() {
            FailureClass::InterfaceNotFound => 3,
            FailureClass::PermissionDenied => 4,
            FailureClass::UnsupportedChannelType => 5,
            FailureClass::DeviceError => 6,
            FailureClass::Storage => 7,
        }
    }

    /// The code with which the process exits on this failure. It is never
    /// zero, and never 1 or 2, which stand for a failure of another kind and
    /// for a fault in the arguments.
    pub fn exit_code(&self) -> (code: u8)
        ensures
            code == self.code(),
            code > 2,
    {
        match self {
            StartupError::Configuration(ConfigurationError::InterfaceNotFound) => 3,
            StartupError::Capture(CaptureError::PermissionDenied) => 4,
            StartupError::Capture(CaptureError::UnsupportedChannelType) => 5,
            StartupError::Capture(CaptureError::DeviceError) => 6,
            StartupError::Storage => 7,
        }
    }
}

/// Failures of different classes exit with different codes, and failures of
/// one class with the same.
pub proof fn lemma_exit_code_tells_classes_apart(one: StartupError, other: StartupError)
    ensures
        one.code() == other.code() <==> one.class() == other.class(),
{
}

} // verus!
