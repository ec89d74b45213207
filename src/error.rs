//! The errors of the library, and the messages that report them.
use vstd::prelude::*;

verus! {

/// Why the controller interface could not be opened or used.
#[derive(Clone, Copy, Debug, PartialEq, Eq, Structural)]
pub enum AccessFailure {
    /// The interface path does not exist: the kernel module is not loaded.
    PathAbsent,
    /// The process lacks the privilege to open the interface.
    PermissionDenied,
    /// Opening, seeking, reading or writing failed otherwise.
    Io,
}

/// Why the kernel module that exposes the interface could not be loaded.
#[derive(Clone, Copy, Debug, PartialEq, Eq, Structural)]
pub enum SetupFailure {
    /// The module-loading command could not be launched.
    LaunchFailed,
    /// The module-loading command ran and reported failure.
    ExitFailure,
}

/// Every failure the library reports.
#[derive(Clone, Copy, Debug, PartialEq, Eq, Structural)]
pub enum LedError {
    /// Loading the kernel module failed; no register access is possible.
    SetupError(SetupFailure),
    /// The controller interface could not be opened, sought, read or written.
    HardwareAccessError(AccessFailure),
    /// A sleep/wake notification did not carry the expected boolean.
    SignalDecodeError,
    /// The subscription to the notification bus could not be established.
    ConnectionError,
}

/// The human-readable message for `e`.
pub open spec fn error_message(e: LedError) -> Seq<char> {
    match e {
        LedError::SetupError(SetupFailure::LaunchFailed) => "could not launch modprobe to load ec_sys"@,
        LedError::SetupError(SetupFailure::ExitFailure) => "loading ec_sys failed; run as root"@,
        LedError::HardwareAccessError(AccessFailure::PathAbsent) =>
            "EC interface /sys/kernel/debug/ec/ec0/io is absent: the ec_sys module is not loaded"@,
        LedError::HardwareAccessError(AccessFailure::PermissionDenied) =>
            "cannot open EC interface /sys/kernel/debug/ec/ec0/io: permission denied, run as root"@,
        LedError::HardwareAccessError(AccessFailure::Io) => "I/O error on EC interface /sys/kernel/debug/ec/ec0/io"@,
        LedError::SignalDecodeError => "PrepareForSleep signal did not carry a boolean"@,
        LedError::ConnectionError => "cannot subscribe to PrepareForSleep on the system bus"@,
    }
}

impl LedError {
    /// A message that tells the causes apart: a missing interface, missing
    /// privilege, a failed module load, a bad notification, no bus.
    pub fn message(&self) -> (r: String)
        ensures
            r@ == error_message(*self),
    {
        match self {
            LedError::SetupError(SetupFailure::LaunchFailed) => "could not launch modprobe to load ec_sys".to_owned(),
            LedError::SetupError(SetupFailure::ExitFailure) => "loading ec_sys failed; run as root".to_owned(),
            LedError::HardwareAccessError(AccessFailure::PathAbsent) =>
                "EC interface /sys/kernel/debug/ec/ec0/io is absent: the ec_sys module is not loaded".to_owned(),
            LedError::HardwareAccessError(AccessFailure::PermissionDenied) =>
                "cannot open EC interface /sys/kernel/debug/ec/ec0/io: permission denied, run as root".to_owned(),
            LedError::HardwareAccessError(AccessFailure::Io) =>
                "I/O error on EC interface /sys/kernel/debug/ec/ec0/io".to_owned(),
            LedError::SignalDecodeError => "PrepareForSleep signal did not carry a boolean".to_owned(),
            LedError::ConnectionError => "cannot subscribe to PrepareForSleep on the system bus".to_owned(),
        }
    }
}

} // verus!
