use service_logger::level::{level_from_name, Level};

#[test]
fn severity_filter_order() {
    assert!(Level::Error.passes(Level::Info));
    assert!(Level::Warn.passes(Level::Info));
    assert!(Level::Info.passes(Level::Info));
    assert!(!Level::Debug.passes(Level::Info));
    assert!(!Level::Trace.passes(Level::Info));
    assert!(Level::Trace.passes(Level::Trace));
    assert!(!Level::Warn.passes(Level::Error));
}

#[test]
fn level_names() {
    assert_eq!(level_from_name("error"), Level::Error);
    assert_eq!(level_from_name("warn"), Level::Warn);
    assert_eq!(level_from_name("info"), Level::Info);
    assert_eq!(level_from_name("debug"), Level::Debug);
    assert_eq!(level_from_name("trace"), Level::Trace);
    assert_eq!(level_from_name("WARN"), Level::Info);
    assert_eq!(level_from_name(""), Level::Info);
}
