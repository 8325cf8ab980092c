use multi_logging::util::level::{Level, LevelFilter};

#[test]
fn level_names() {
    assert_eq!(Level::Error.as_str(), "ERROR");
    assert_eq!(Level::Warn.as_str(), "WARN");
    assert_eq!(Level::Info.as_str(), "INFO");
    assert_eq!(Level::Debug.as_str(), "DEBUG");
    assert_eq!(Level::Trace.as_str(), "TRACE");
    assert_eq!(Level::Error.as_str_lower(), "error");
    assert_eq!(Level::Warn.as_str_lower(), "warn");
    assert_eq!(Level::Info.as_str_lower(), "info");
    assert_eq!(Level::Debug.as_str_lower(), "debug");
    assert_eq!(Level::Trace.as_str_lower(), "trace");
}

#[test]
fn level_indices_follow_severity() {
    assert_eq!(Level::Error.index(), 0);
    assert_eq!(Level::Warn.index(), 1);
    assert_eq!(Level::Info.index(), 2);
    assert_eq!(Level::Debug.index(), 3);
    assert_eq!(Level::Trace.index(), 4);
}

#[test]
fn filter_ranks() {
    assert_eq!(LevelFilter::Off.rank(), 0);
    assert_eq!(LevelFilter::Error.rank(), 1);
    assert_eq!(LevelFilter::Trace.rank(), 5);
}

#[test]
fn filter_passes_levels_up_to_its_own() {
    assert!(LevelFilter::Info.passes(Level::Error));
    assert!(LevelFilter::Info.passes(Level::Warn));
    assert!(LevelFilter::Info.passes(Level::Info));
    assert!(!LevelFilter::Info.passes(Level::Debug));
    assert!(!LevelFilter::Info.passes(Level::Trace));
}

#[test]
fn off_passes_nothing_and_trace_passes_everything() {
    for l in [Level::Error, Level::Warn, Level::Info, Level::Debug, Level::Trace] {
        assert!(!LevelFilter::Off.passes(l));
        assert!(LevelFilter::Trace.passes(l));
    }
}

#[test]
fn a_more_verbose_filter_passes_at_least_as_much() {
    let filters = [
        LevelFilter::Off,
        LevelFilter::Error,
        LevelFilter::Warn,
        LevelFilter::Info,
        LevelFilter::Debug,
        LevelFilter::Trace,
    ];
    let levels = [Level::Error, Level::Warn, Level::Info, Level::Debug, Level::Trace];
    for i in 0..filters.len() {
        for j in i..filters.len() {
            for l in levels {
                if filters[i].passes(l) {
                    assert!(filters[j].passes(l));
                }
            }
        }
    }
}
