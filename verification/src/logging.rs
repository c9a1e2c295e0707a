//! Where a log message goes. Every message is written to standard error;
//! the driver, loaded into someone else's process, also raises warnings and
//! errors as dialogs, while the service, which nobody watches, raises only
//! errors, as desktop notifications.

use crate::fmt::{decimal, push_decimal};
use vstd::prelude::*;

verus! {

#[derive(Debug, Clone, Copy, PartialEq, Eq, Structural)]
pub enum LogLevel {
    Info,
    Warning,
    Error,
}

/// How messages beyond the log reach the user.
#[derive(Debug, Clone, Copy, PartialEq, Eq, Structural)]
pub enum LogMode {
    /// Warnings and errors open a dialog (the driver's mode).
    Dialog,
    /// Errors become one desktop notification (the service's mode).
    Notify,
}

/// Where a message goes besides the log.
#[derive(Debug, Clone, Copy, PartialEq, Eq, Structural)]
pub enum LogRoute {
    LogOnly,
    Dialog,
    Notification,
}

/// Switches to notifications; the service does this at startup.
pub fn use_notifications(mode: &mut LogMode)
    ensures
        *final(mode) == LogMode::Notify,
{
    *mode = LogMode::Notify;
}

pub open spec fn route_of(mode: LogMode, level: LogLevel) -> LogRoute {
    match (mode, level) {
        (LogMode::Notify, LogLevel::Error) => LogRoute::Notification,
        (LogMode::Notify, _) => LogRoute::LogOnly,
        (LogMode::Dialog, LogLevel::Info) => LogRoute::LogOnly,
        (LogMode::Dialog, _) => LogRoute::Dialog,
    }
}

pub fn route(mode: LogMode, level: LogLevel) -> (r: LogRoute)
    ensures
        r == route_of(mode, level),
{
    match (mode, level) {
        (LogMode::Notify, LogLevel::Error) => LogRoute::Notification,
        (LogMode::Notify, _) => LogRoute::LogOnly,
        (LogMode::Dialog, LogLevel::Info) => LogRoute::LogOnly,
        (LogMode::Dialog, _) => LogRoute::Dialog,
    }
}

pub open spec fn level_name(level: LogLevel) -> Seq<char> {
    match level {
        LogLevel::Info => "Info"@,
        LogLevel::Warning => "Warning"@,
        LogLevel::Error => "Error"@,
    }
}

/// The log line of a message: `[maestrod <seconds> <level>] <message>`.
pub fn log_line(secs: u64, level: LogLevel, message: &str) -> (s: String)
    ensures
        s@ == "[maestrod "@ + decimal(secs as nat) + " "@ + level_name(level) + "] "@ + message@,
{
    let mut s = String::from_str("[maestrod ");
    push_decimal(&mut s, secs);
    s.append(" ");
    s.append(
        match level {
            LogLevel::Info => "Info",
            LogLevel::Warning => "Warning",
            LogLevel::Error => "Error",
        },
    );
    s.append("] ");
    s.append(message);
    s
}

/// The service never opens a dialog, and tells the user about errors only.
pub proof fn law_service_never_opens_dialogs(level: LogLevel)
    ensures
        route_of(LogMode::Notify, level) != LogRoute::Dialog,
        route_of(LogMode::Notify, level) == LogRoute::Notification <==> level == LogLevel::Error,
{
}

} // verus!
