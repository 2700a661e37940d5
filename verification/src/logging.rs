//! How the process-wide logging sink is assembled from the settings.
//!
//! The settings choose a transport, a minimum severity and, for the terminal
//! transport, whether a local timestamp leads each line. [`mk_logger`] turns
//! them into a [`LoggerPlan`]; the program builds the sink the plan describes.
//! Whatever the transport, records pass an asynchronous buffering stage, so
//! that logging never blocks the caller on I/O, and a severity filter in front
//! of it.

use vstd::prelude::*;

verus! {

/// `std::io::Error`, carried through and never inspected.
#[verifier::external_type_specification]
#[verifier::external_body]
pub struct ExIoError(std::io::Error);

/// Where log records are sent.
#[derive(Clone, Copy, Debug, PartialEq, Eq, Structural)]
pub enum LogMethod {
    /// Structured lines on standard output.
    Stdio,
    /// The local syslog facility.
    Syslog,
}

/// Severity of a record, most severe first.
#[derive(Clone, Copy, Debug, PartialEq, Eq, Structural)]
pub enum LogLevel {
    Critical,
    Error,
    Warning,
    Info,
    Debug,
    Trace,
}

/// The logging section of the settings.
#[derive(Clone, Copy, Debug, PartialEq, Eq, Structural)]
pub struct LogSettings {
    /// Records less severe than this are dropped.
    pub level: LogLevel,
    /// Transport to use.
    pub method: LogMethod,
    /// Whether terminal lines carry a local timestamp.
    pub timestamp: bool,
}

/// Syslog facility class under which records are filed.
#[derive(Clone, Copy, Debug, PartialEq, Eq, Structural)]
pub enum Facility {
    Kern,
    User,
    Mail,
    Daemon,
    Auth,
    Syslog,
    Lpr,
    News,
    Uucp,
    Cron,
    AuthPriv,
    Ftp,
    Local0,
    Local1,
    Local2,
    Local3,
    Local4,
    Local5,
    Local6,
    Local7,
}

/// What leads each line of the terminal transport.
#[derive(Clone, Copy, Debug, PartialEq, Eq, Structural)]
pub enum Timestamp {
    /// The local time of the record.
    Local,
    /// Nothing: no timestamp field is written at all. For environments in
    /// which an outer supervisor already stamps each captured line.
    Omitted,
}

/// The end of the sink: where a record that passed the filter is written.
#[derive(Clone, Copy, Debug, PartialEq, Eq, Structural)]
pub enum Transport {
    /// The local syslog socket. Timestamps are the transport's business.
    Syslog { facility: Facility },
    /// One structured line per record on standard output.
    Terminal { timestamp: Timestamp },
}

/// A logging sink, described: a severity filter in front of an asynchronous
/// buffering stage in front of the transport.
#[derive(Clone, Copy, Debug, PartialEq, Eq, Structural)]
pub struct LoggerPlan {
    /// Records less severe than this never reach the transport.
    pub min_level: LogLevel,
    /// The transport behind the buffering stage.
    pub transport: Transport,
}

/// The timestamp policy of the terminal transport for a settings toggle.
pub open spec fn timestamp_policy(enabled: bool) -> Timestamp {
    if enabled {
        Timestamp::Local
    } else {
        Timestamp::Omitted
    }
}

/// The transport that a logging method selects.
pub open spec fn transport_of(method: LogMethod, timestamp: bool) -> Transport {
    match method {
        LogMethod::Syslog => Transport::Syslog { facility: Facility::User },
        LogMethod::Stdio => Transport::Terminal { timestamp: timestamp_policy(timestamp) },
    }
}

/// The sink that the settings ask for.
pub open spec fn logger_plan(settings: LogSettings) -> LoggerPlan {
    LoggerPlan {
        min_level: settings.level,
        transport: transport_of(settings.method, settings.timestamp),
    }
}

impl LoggerPlan {
    /// Whether building the sink can fail. Only the syslog transport can be
    /// unavailable; a terminal sink is always built.
    pub open spec fn spec_fallible(&self) -> bool {
        self.transport is Syslog
    }

    /// Whether building the sink can fail.
    #[verifier::when_used_as_spec(spec_fallible)]
    pub fn fallible(&self) -> (b: bool)
        ensures
            b == self.spec_fallible(),
    {
        match self.transport {
            Transport::Syslog { .. } => true,
            Transport::Terminal { .. } => false,
        }
    }
}

/// A timestamp function that writes nothing, for when the timestamp is to be
/// left out of the output: `out` is returned as it came and the call
/// succeeds.
pub fn timestamp_none(out: &mut Vec<u8>) -> (r: Result<(), std::io::Error>)
    ensures
        r is Ok,
        final(out)@ == old(out)@,
{
    Ok(())
}

/// Plans the logging sink for `settings`.
///
/// Syslog goes to the user-level facility and has no timestamp policy of its
/// own. The terminal transport stamps lines with the local time when
/// `settings.timestamp` is set and writes no timestamp field when it is not.
/// The filter is `settings.level` for either.
pub fn mk_logger(settings: &LogSettings) -> (plan: LoggerPlan)
    ensures
        plan == logger_plan(*settings),
        plan.min_level == settings.level,
        plan.transport is Syslog <==> settings.method is Syslog,
        plan.transport matches Transport::Syslog { facility } ==> facility == Facility::User,
        plan.transport matches Transport::Terminal { timestamp } ==> (timestamp is Local
            <==> settings.timestamp),
{
    let transport = match settings.method {
        LogMethod::Syslog => Transport::Syslog { facility: Facility::User },
        LogMethod::Stdio => {
            let timestamp = if settings.timestamp {
                Timestamp::Local
            } else {
                Timestamp::Omitted
            };
            Transport::Terminal { timestamp }
        },
    };
    LoggerPlan { min_level: settings.level, transport }
}

} // verus!
