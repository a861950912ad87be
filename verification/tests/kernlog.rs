use kernlog::{format_line, priority, KernelLog, KernelLogInitError, LevelFilter, Severity};

const ALL_SEVERITIES: [Severity; 5] = [
    Severity::Error,
    Severity::Warn,
    Severity::Info,
    Severity::Debug,
    Severity::Trace,
];

const ALL_FILTERS: [LevelFilter; 6] = [
    LevelFilter::Off,
    LevelFilter::Error,
    LevelFilter::Warn,
    LevelFilter::Info,
    LevelFilter::Debug,
    LevelFilter::Trace,
];

#[test]
fn log_to_kernel() {
    let r = kernlog::init(None, Ok(()), Ok(()));
    assert!(matches!(r, Ok(LevelFilter::Trace)));
    let sink = KernelLog::new();
    let line = sink.log(Severity::Debug, "kernlog", 1, "hello, world!");
    assert_eq!(line.unwrap(), "<6>kernlog[1]: hello, world!\n");
}

#[test]
fn severity_mapping_totality() {
    assert_eq!(priority(Severity::Error), 3);
    assert_eq!(priority(Severity::Warn), 4);
    assert_eq!(priority(Severity::Info), 5);
    assert_eq!(priority(Severity::Debug), 6);
    assert_eq!(priority(Severity::Trace), 7);
    let sink = KernelLog::new();
    for (i, s) in ALL_SEVERITIES.iter().enumerate() {
        let line = sink.log(*s, "t", 1, "m").unwrap();
        let expected = format!("<{}>", i + 3);
        assert_eq!(&line[..3], expected.as_str());
    }
}

#[test]
fn threshold_filtering_all_pairs() {
    for (fi, f) in ALL_FILTERS.iter().enumerate() {
        let sink = KernelLog::with_level(*f);
        for (si, s) in ALL_SEVERITIES.iter().enumerate() {
            let severity_rank = si + 1;
            let filter_rank = fi;
            let expected = severity_rank <= filter_rank;
            assert_eq!(sink.enabled(*s), expected);
            assert_eq!(sink.log(*s, "t", 1, "m").is_some(), expected);
        }
    }
}

#[test]
fn threshold_info_write_counts() {
    let sink = KernelLog::with_level(LevelFilter::Info);
    let mut writes = 0;
    for s in ALL_SEVERITIES.iter() {
        if sink.log(*s, "t", 1, "m").is_some() {
            writes += 1;
        }
    }
    assert_eq!(writes, 3);
    assert!(sink.log(Severity::Debug, "t", 1, "m").is_none());
    assert!(sink.log(Severity::Trace, "t", 1, "m").is_none());
    assert!(sink.log(Severity::Error, "t", 1, "m").is_some());
    assert!(sink.log(Severity::Warn, "t", 1, "m").is_some());
    assert!(sink.log(Severity::Info, "t", 1, "m").is_some());
}

#[test]
fn line_format_exactness() {
    let sink = KernelLog::with_level(LevelFilter::Info);
    let line = sink.log(Severity::Info, "svc", 1234, "started").unwrap();
    assert_eq!(line, "<5>svc[1234]: started\n");
    assert_eq!(format_line(Severity::Info, "svc", 1234, "started"), "<5>svc[1234]: started\n");
}

#[test]
fn line_format_edge_values() {
    assert_eq!(format_line(Severity::Error, "", 0, ""), "<3>[0]: \n");
    assert_eq!(
        format_line(Severity::Trace, "a", u32::MAX, "x"),
        "<7>a[4294967295]: x\n"
    );
}

#[test]
fn environment_fallback() {
    let bogus = KernelLog::from_env(Some("bogus"));
    assert_eq!(bogus.level(), LevelFilter::Trace);
    for s in ALL_SEVERITIES.iter() {
        assert!(bogus.enabled(*s));
    }
    let absent = KernelLog::from_env(None);
    assert_eq!(absent.level(), LevelFilter::Trace);
}

#[test]
fn environment_parses_level_names() {
    assert_eq!(KernelLog::from_env(Some("off")).level(), LevelFilter::Off);
    assert_eq!(KernelLog::from_env(Some("ERROR")).level(), LevelFilter::Error);
    assert_eq!(KernelLog::from_env(Some("WaRn")).level(), LevelFilter::Warn);
    assert_eq!(KernelLog::from_env(Some("info")).level(), LevelFilter::Info);
    assert_eq!(KernelLog::from_env(Some("Debug")).level(), LevelFilter::Debug);
    assert_eq!(KernelLog::from_env(Some("TRACE")).level(), LevelFilter::Trace);
    assert_eq!(
        kernlog::filter_from_env_value(Some("warn")),
        LevelFilter::Warn
    );
    assert_eq!(kernlog::filter_from_env_value(None), LevelFilter::Trace);
    assert_eq!(
        kernlog::filter_from_env_value(Some("warning")),
        LevelFilter::Trace
    );
}

#[test]
fn flush_is_noop() {
    let sink = KernelLog::new();
    for _ in 0..100 {
        sink.flush();
    }
    let line = sink.log(Severity::Info, "svc", 7, "still works");
    assert_eq!(line.unwrap(), "<5>svc[7]: still works\n");
}

#[test]
fn device_open_failure_is_io_error() {
    let e = std::io::Error::new(std::io::ErrorKind::NotFound, "no such device");
    let r = kernlog::init(None, Err(e), Ok(()));
    assert!(matches!(r, Err(KernelLogInitError::Io(_))));
    let e2 = std::io::Error::new(std::io::ErrorKind::PermissionDenied, "not allowed");
    let converted = KernelLogInitError::from(e2);
    assert!(matches!(converted, KernelLogInitError::Io(_)));
}

#[test]
fn init_reads_environment_text() {
    let r = kernlog::init(Some("Error"), Ok(()), Ok(()));
    assert!(matches!(r, Ok(LevelFilter::Error)));
    let r = kernlog::init(Some("bogus"), Ok(()), Ok(()));
    assert!(matches!(r, Ok(LevelFilter::Trace)));
}
