use service_logger::file_logger::{FileAction, FileLogger, FileLoggerConfig, FileSinkState};
use service_logger::level::Level;
use service_logger::mailbox::{Delivery, MailboxError};
use service_logger::BackgroundLoggerMessage;

fn line(m: &BackgroundLoggerMessage) -> String {
    match m {
        BackgroundLoggerMessage::String(s) => s.clone(),
        BackgroundLoggerMessage::Flush => "<flush>".to_string(),
    }
}

#[test]
fn below_minimum_is_never_enqueued() {
    let (tx, rx) = crossbeam::channel::bounded(8);
    let logger = FileLogger::new(Level::Info, tx);
    assert!(matches!(logger.log(Level::Debug, "hidden"), Delivery::Filtered));
    assert!(matches!(logger.log(Level::Trace, "hidden"), Delivery::Filtered));
    assert_eq!(rx.len(), 0);
    assert!(matches!(logger.log(Level::Warn, "shown"), Delivery::Queued));
    assert_eq!(rx.len(), 1);
    assert_eq!(line(&rx.try_recv().unwrap()), "shown\n");
}

#[test]
fn entries_arrive_in_order_while_capacity_lasts() {
    let (tx, rx) = crossbeam::channel::bounded(4);
    let logger = FileLogger::new(Level::Trace, tx);
    for i in 0..4 {
        assert!(matches!(logger.log(Level::Info, &format!("m{}", i)), Delivery::Queued));
    }
    let got: Vec<String> = rx.try_iter().map(|m| line(&m)).collect();
    assert_eq!(got, vec!["m0\n", "m1\n", "m2\n", "m3\n"]);
}

#[test]
fn excess_entries_are_dropped_and_handed_back() {
    let (tx, rx) = crossbeam::channel::bounded(2);
    let logger = FileLogger::new(Level::Info, tx);
    assert!(matches!(logger.log(Level::Info, "a"), Delivery::Queued));
    assert!(matches!(logger.log(Level::Info, "b"), Delivery::Queued));
    match logger.log(Level::Info, "c") {
        Delivery::Dropped(e) => {
            assert!(e.is_full());
            assert_eq!(line(&e.into_inner()), "c\n");
        }
        _ => panic!("a full mailbox must refuse the entry"),
    }
    match logger.flush() {
        Err(MailboxError::Full(BackgroundLoggerMessage::Flush)) => {}
        other => panic!("unexpected {:?}", other),
    }
    let got: Vec<String> = rx.try_iter().map(|m| line(&m)).collect();
    assert_eq!(got, vec!["a\n", "b\n"]);
}

#[test]
fn disconnected_mailbox_hands_back() {
    let (tx, rx) = crossbeam::channel::bounded(2);
    drop(rx);
    let logger = FileLogger::new(Level::Info, tx);
    match logger.log(Level::Error, "x") {
        Delivery::Dropped(e) => assert!(!e.is_full()),
        _ => panic!("a disconnected mailbox must refuse the entry"),
    }
}

#[test]
fn config_defaults() {
    let c = FileLoggerConfig::new("/tmp/x.log".to_string());
    assert_eq!(c.max_line_count, 100_000);
    assert_eq!(c.max_log_level, Level::Info);
    assert_eq!(c.path, "/tmp/x.log");
}

fn entry(s: &str) -> BackgroundLoggerMessage {
    BackgroundLoggerMessage::String(s.to_string())
}

#[test]
fn no_rotation_up_to_threshold_plus_one() {
    let mut st = FileSinkState::new(3);
    for i in 0..4 {
        assert_eq!(
            st.on_message(&entry(&format!("{}", i))),
            FileAction::Append { rotate_first: false }
        );
    }
    assert_eq!(st.line_count(), 4);
}

#[test]
fn rotation_after_threshold() {
    let mut st = FileSinkState::new(3);
    for _ in 0..4 {
        st.on_message(&entry("x"));
    }
    assert_eq!(st.on_message(&entry("y")), FileAction::Append { rotate_first: true });
    assert_eq!(st.line_count(), 1);
    assert_eq!(st.on_message(&entry("z")), FileAction::Append { rotate_first: false });
    assert_eq!(st.line_count(), 2);
}

#[test]
fn flush_does_not_rotate_or_count() {
    let mut st = FileSinkState::new(0);
    assert_eq!(st.on_message(&BackgroundLoggerMessage::Flush), FileAction::Flush);
    assert_eq!(st.line_count(), 0);
    assert_eq!(st.on_message(&entry("a")), FileAction::Append { rotate_first: false });
    assert_eq!(st.on_message(&BackgroundLoggerMessage::Flush), FileAction::Flush);
    assert_eq!(st.on_message(&entry("b")), FileAction::Append { rotate_first: true });
}
