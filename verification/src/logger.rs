//! The diagnostics route: leveled text lines forwarded to the host's own
//! sinks through the operation table.

use vstd::prelude::*;

use crate::glue::HostCall;
use crate::glue::Runtime;
use crate::glue::UniBridgeGlue;

verus! {

/// Log severities, from most to least severe.
#[derive(Clone, Copy, PartialEq, Eq, Debug)]
pub enum Level {
    Error,
    Warn,
    Info,
    Debug,
    Trace,
}

/// The error returned when the diagnostics route is registered twice.
#[derive(Clone, Copy, PartialEq, Eq, Debug)]
pub struct SetLoggerError;

/// Whether a line at `level` passes the route's fixed threshold: everything
/// at `Info` severity or above is forwarded, the rest is dropped.
pub open spec fn spec_enabled(level: Level) -> bool {
    match level {
        Level::Error => true,
        Level::Warn => true,
        Level::Info => true,
        _ => false,
    }
}

/// The host sink that receives a line at `level`: the error sink for
/// `Error`, the warning sink for `Warn`, the info sink for everything else.
pub open spec fn sink_of(level: Level) -> HostCall {
    match level {
        Level::Error => HostCall::ErrorLine,
        Level::Warn => HostCall::WarnLine,
        _ => HostCall::InfoLine,
    }
}

/// Whether a line at `level` is forwarded to the host.
#[verifier::when_used_as_spec(spec_enabled)]
pub fn enabled(level: Level) -> (b: bool)
    ensures
        b == spec_enabled(level),
{
    match level {
        Level::Error => true,
        Level::Warn => true,
        Level::Info => true,
        _ => false,
    }
}

/// Registers the diagnostics route.  Fails, leaving the registration as it
/// was, if a route was already registered.
pub fn init(rt: &mut Runtime) -> (r: Result<(), SetLoggerError>)
    ensures
        final(rt).glue == old(rt).glue,
        final(rt).installed == old(rt).installed,
        final(rt).logger_installed,
        r is Ok <==> !old(rt).logger_installed,
{
    if rt.logger_installed {
        Err(SetLoggerError)
    } else {
        rt.logger_installed = true;
        Ok(())
    }
}

/// Routes one line to the host sink for its severity — provided the route
/// is registered and the severity passes the threshold; otherwise nothing
/// is sent and no host call is issued.
pub fn log_line(rt: &mut Runtime, level: Level, message: &str)
    requires
        old(rt).installed,
    ensures
        final(rt).installed,
        final(rt).logger_installed == old(rt).logger_installed,
        if old(rt).logger_installed && spec_enabled(level) {
            UniBridgeGlue::logs_only(old(rt).glue, final(rt).glue, sink_of(level))
        } else {
            final(rt).glue == old(rt).glue
        },
{
    if rt.logger_installed && enabled(level) {
        match level {
            Level::Error => rt.glue.error_log(message),
            Level::Warn => rt.glue.warn_log(message),
            _ => rt.glue.info_log(message),
        }
    }
}

} // verus!
