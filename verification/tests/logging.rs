use gateway_supervisor::logging::{
    mk_logger, timestamp_none, Facility, LogLevel, LogMethod, LogSettings, LoggerPlan, Timestamp,
    Transport,
};

fn settings(level: LogLevel, method: LogMethod, timestamp: bool) -> LogSettings {
    LogSettings { level, method, timestamp }
}

#[test]
fn stdio_with_timestamp_plans_local_time() {
    let plan = mk_logger(&settings(LogLevel::Info, LogMethod::Stdio, true));
    assert_eq!(
        plan,
        LoggerPlan {
            min_level: LogLevel::Info,
            transport: Transport::Terminal { timestamp: Timestamp::Local },
        }
    );
}

#[test]
fn stdio_without_timestamp_plans_no_timestamp_field() {
    let plan = mk_logger(&settings(LogLevel::Debug, LogMethod::Stdio, false));
    assert_eq!(
        plan,
        LoggerPlan {
            min_level: LogLevel::Debug,
            transport: Transport::Terminal { timestamp: Timestamp::Omitted },
        }
    );
}

#[test]
fn syslog_goes_to_the_user_facility_whatever_the_timestamp_toggle() {
    for timestamp in [false, true] {
        let plan = mk_logger(&settings(LogLevel::Warning, LogMethod::Syslog, timestamp));
        assert_eq!(
            plan,
            LoggerPlan {
                min_level: LogLevel::Warning,
                transport: Transport::Syslog { facility: Facility::User },
            }
        );
    }
}

#[test]
fn the_filter_is_the_configured_level() {
    let levels = [
        LogLevel::Critical,
        LogLevel::Error,
        LogLevel::Warning,
        LogLevel::Info,
        LogLevel::Debug,
        LogLevel::Trace,
    ];
    for level in levels {
        for method in [LogMethod::Stdio, LogMethod::Syslog] {
            assert_eq!(mk_logger(&settings(level, method, true)).min_level, level);
        }
    }
}

#[test]
fn only_the_syslog_sink_can_fail_to_build() {
    assert!(mk_logger(&settings(LogLevel::Info, LogMethod::Syslog, true)).fallible());
    assert!(!mk_logger(&settings(LogLevel::Info, LogMethod::Stdio, true)).fallible());
    assert!(!mk_logger(&settings(LogLevel::Info, LogMethod::Stdio, false)).fallible());
}

#[test]
fn timestamp_none_writes_nothing_into_an_empty_field() {
    let mut out: Vec<u8> = Vec::new();
    assert!(timestamp_none(&mut out).is_ok());
    assert!(out.is_empty());
}

#[test]
fn timestamp_none_leaves_what_was_written_before() {
    let mut out: Vec<u8> = vec![b'I', b'N', b'F', b'O'];
    assert!(timestamp_none(&mut out).is_ok());
    assert_eq!(out, vec![b'I', b'N', b'F', b'O']);
}
