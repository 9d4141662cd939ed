//! The capture channel: how it is to be opened, and what an attempt to open
//! it came to.

use vstd::prelude::*;

verus! {

/// How a capture channel is opened.
#[derive(Clone, Copy, Debug, PartialEq, Eq, Structural)]
pub struct CaptureConfig {
    /// Whether the interface delivers every frame it sees, not only those
    /// addressed to the host.
    pub promiscuous: bool,
    /// How long a receive call waits for a frame, in milliseconds; `None`
    /// lets it wait without limit.
    pub read_timeout_millis: Option<u64>,
}

impl Default for CaptureConfig {
    /// The configuration of the monitor: promiscuous, and without a read
    /// timeout.
    fn default() -> (config: CaptureConfig)
        ensures
            config == (CaptureConfig { promiscuous: true, read_timeout_millis: None }),
    {
        CaptureConfig { promiscuous: true, read_timeout_millis: None }
    }
}

/// Why a capture channel could not be opened.
#[derive(Clone, Copy, Debug, PartialEq, Eq, Structural)]
pub enum CaptureError {
    /// The process lacks the privilege to capture on the interface.
    PermissionDenied,
    /// The link layer of the interface is not Ethernet.
    UnsupportedChannelType,
    /// The operating system or the device failed.
    DeviceError,
}

/// What the operating system answered to the attempt to open a channel.
#[derive(Clone, Copy, Debug, PartialEq, Eq, Structural)]
pub enum OpenOutcome {
    /// An Ethernet channel was opened.
    Ethernet,
    /// A channel of another link layer was opened.
    OtherLinkLayer,
    /// The attempt was refused; `permission_denied` says whether for want of
    /// privilege.
    Refused { permission_denied: bool },
}

/// The failure that an outcome amounts to, if any.
pub open spec fn failure_of(outcome: OpenOutcome) -> Option<CaptureError> {
    match outcome {
        OpenOutcome::Ethernet => None,
        OpenOutcome::OtherLinkLayer => Some(CaptureError::UnsupportedChannelType),
        OpenOutcome::Refused { permission_denied } => if permission_denied {
            Some(CaptureError::PermissionDenied)
        } else {
            Some(CaptureError::DeviceError)
        },
    }
}

/// Judges the attempt to open a channel: only an Ethernet channel will do.
pub fn check_opened(outcome: OpenOutcome) -> (opened: Result<(), CaptureError>)
    ensures
        opened is Ok <==> outcome == OpenOutcome::Ethernet,
        opened matches Err(error) ==> failure_of(outcome) == Some(error),
{
    match outcome {
        OpenOutcome::Ethernet => Ok(()),
        OpenOutcome::OtherLinkLayer => Err(CaptureError::UnsupportedChannelType),
        OpenOutcome::Refused { permission_denied } => {
            if permission_denied {
                Err(CaptureError::PermissionDenied)
            } else {
                Err(CaptureError::DeviceError)
            }
        },
    }
}

/// What a failed receive call means for the channel.
#[derive(Clone, Copy, Debug, PartialEq, Eq, Structural)]
pub enum ReceiveError {
    /// The read failed, but the channel is still there: the next read may
    /// succeed.
    Transient,
    /// The channel is closed or its device is gone: no read will succeed.
    ChannelLost,
}

/// The system's error number for "no such device or address".
pub const ERRNO_NO_DEVICE_OR_ADDRESS: i32 = 6;

/// The system's error number for "bad file descriptor": the channel is
/// closed.
pub const ERRNO_BAD_DESCRIPTOR: i32 = 9;

/// The system's error number for "no such device".
pub const ERRNO_NO_DEVICE: i32 = 19;

/// Whether the system's error number says that the channel is gone for good.
pub open spec fn is_unrecoverable(os_error: Option<i32>) -> bool {
    os_error == Some(ERRNO_NO_DEVICE_OR_ADDRESS) || os_error == Some(ERRNO_BAD_DESCRIPTOR)
        || os_error == Some(ERRNO_NO_DEVICE)
}

/// Judges a failed receive call by the error number that the system gave,
/// if it gave one. The channel counts as lost where the device is gone or
/// the channel is closed; any other failure is transient.
pub fn judge_receive_failure(os_error: Option<i32>) -> (error: ReceiveError)
    ensures
        error == if is_unrecoverable(os_error) {
            ReceiveError::ChannelLost
        } else {
            ReceiveError::Transient
        },
{
    match os_error {
        Some(code) => {
            if code == ERRNO_NO_DEVICE_OR_ADDRESS || code == ERRNO_BAD_DESCRIPTOR || code
                == ERRNO_NO_DEVICE {
                ReceiveError::ChannelLost
            } else {
                ReceiveError::Transient
            }
        },
        None => ReceiveError::Transient,
    }
}

} // verus!
