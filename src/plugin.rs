use vstd::prelude::*;

verus! {

/// The minimum severity that a logging plugin lets through, from the most
/// restrictive (`Off`) to the most permissive (`Trace`).
#[derive(Clone, Copy, Debug, PartialEq, Eq, Structural)]
pub enum LogLevel {
    Off,
    Error,
    Warn,
    Info,
    Debug,
    Trace,
}

/// A capability module that the application builder can receive.
#[derive(Clone, Copy, Debug, PartialEq, Eq, Structural)]
pub enum Plugin {
    /// Handling of deep links into the application.
    DeepLink,
    /// Persistent key-value storage.
    Store,
    /// Information on the operating system.
    Os,
    /// User notifications.
    Notification,
    /// Biometric authentication, present on mobile platforms only.
    Biometric,
    /// Diagnostic logging at the given minimum severity.
    Log(LogLevel),
}

} // verus!
