use nucleo_h743zi::logger::{enabled, LogFilter, LogLevel, EXAMPLE_LOG_FILTER};

#[test]
fn example_filter_is_info() {
    assert_eq!(EXAMPLE_LOG_FILTER, LogFilter::Info);
}

#[test]
fn info_filter_prints_info_and_warnings_only() {
    // The serial example logs an info and a warning each second: both print.
    assert!(enabled(LogLevel::Info, EXAMPLE_LOG_FILTER));
    assert!(enabled(LogLevel::Warn, EXAMPLE_LOG_FILTER));
    assert!(enabled(LogLevel::Error, EXAMPLE_LOG_FILTER));
    assert!(!enabled(LogLevel::Debug, EXAMPLE_LOG_FILTER));
    assert!(!enabled(LogLevel::Trace, EXAMPLE_LOG_FILTER));
}

#[test]
fn off_and_trace_filters() {
    for level in [LogLevel::Error, LogLevel::Warn, LogLevel::Info, LogLevel::Debug, LogLevel::Trace] {
        assert!(!enabled(level, LogFilter::Off));
        assert!(enabled(level, LogFilter::Trace));
    }
}

#[test]
fn filter_boundaries() {
    assert!(enabled(LogLevel::Error, LogFilter::Error));
    assert!(!enabled(LogLevel::Warn, LogFilter::Error));
    assert!(enabled(LogLevel::Debug, LogFilter::Debug));
    assert!(!enabled(LogLevel::Trace, LogFilter::Debug));
}

#[test]
fn more_severe_records_pass_when_verbose_ones_do() {
    let levels = [LogLevel::Error, LogLevel::Warn, LogLevel::Info, LogLevel::Debug, LogLevel::Trace];
    let filters = [LogFilter::Off, LogFilter::Error, LogFilter::Warn, LogFilter::Info, LogFilter::Debug, LogFilter::Trace];
    for f in filters {
        for (i, a) in levels.iter().enumerate() {
            for b in &levels[..=i] {
                if enabled(*a, f) {
                    assert!(enabled(*b, f));
                }
            }
        }
    }
}
