use service_logger::level::Level;
use service_logger::mailbox::Delivery;
use service_logger::redis_log_message::LogMessage;
use service_logger::redis_logger::{
    PublishStep, RedisLogger, RedisLoggerBackgroundService, RedisLoggerConfig, BATCH_SIZE,
};
use service_logger::BackgroundLoggerMessage;

fn worker() -> RedisLoggerBackgroundService {
    let config = RedisLoggerConfig::new(
        "redis://127.0.0.1/".to_string(),
        "g".to_string(),
        "0".to_string(),
    );
    RedisLoggerBackgroundService::new(&config)
}

fn entry(s: &str) -> BackgroundLoggerMessage {
    BackgroundLoggerMessage::String(s.to_string())
}

#[test]
fn config_defaults_to_info() {
    let c = RedisLoggerConfig::new("c".to_string(), "g".to_string(), "7".to_string());
    assert_eq!(c.max_log_level, Level::Info);
    assert_eq!(c.index, "7");
    assert_eq!(c.group_name, "g");
    assert_eq!(c.redis_connection_string, "c");
}

#[test]
fn full_batch_triggers_one_publish() {
    let mut w = worker();
    for i in 0..BATCH_SIZE - 1 {
        assert!(!w.on_message(entry(&format!("{}", i)), Level::Info, 0));
    }
    assert!(w.on_message(entry("last"), Level::Info, 0));
    assert_eq!(w.pending(), 500);
    assert_eq!(w.payloads().len(), 500);
}

#[test]
fn elapsed_interval_triggers_publish_of_single_entry() {
    let mut w = worker();
    assert!(w.on_message(entry("only"), Level::Info, 11));
    let p = w.payloads();
    assert_eq!(p.len(), 1);
    assert_eq!(w.start_publish(), PublishStep::Publish);
    assert_eq!(w.on_outcome(true), PublishStep::Done);
    assert_eq!(w.pending(), 0);
}

#[test]
fn interval_boundary_does_not_trigger() {
    let mut w = worker();
    assert!(!w.on_message(entry("x"), Level::Info, 10));
}

#[test]
fn flush_request_triggers_publish() {
    let mut w = worker();
    assert!(w.on_message(BackgroundLoggerMessage::Flush, Level::Info, 0));
    assert_eq!(w.pending(), 0);
}

#[test]
fn payloads_route_by_severity_in_order() {
    let mut w = worker();
    w.on_message(entry("e"), Level::Error, 0);
    w.on_message(entry("w"), Level::Warn, 0);
    w.on_message(entry("i"), Level::Info, 0);
    w.on_message(entry("d"), Level::Debug, 0);
    let p = w.payloads();
    let channels: Vec<&str> = p.iter().map(|(c, _)| c.as_str()).collect();
    assert_eq!(
        channels,
        vec![
            "monitoring-nomad:g.stderr",
            "monitoring-nomad:g.warn",
            "monitoring-nomad:g.stdout",
            "monitoring-nomad:g.stdout"
        ]
    );
    let first = LogMessage::redis_deserialize(&p[0].1).unwrap();
    assert_eq!(first.message, "e");
    assert_eq!(first.group, "g");
    assert_eq!(first.index, "0");
    assert_eq!(first.channel_name, "monitoring-nomad:g.stderr");
    assert_eq!(first.metadata, None);
    let last = LogMessage::redis_deserialize(&p[3].1).unwrap();
    assert_eq!(last.message, "d");
}

#[test]
fn payload_text_is_exact() {
    let mut w = worker();
    w.on_message(entry("hi\n"), Level::Error, 0);
    let p = w.payloads();
    assert_eq!(
        p[0].1,
        "AwAAAAAAAABoaQoBAAAAAAAAAGcBAAAAAAAAADAZAAAAAAAAAG1vbml0b3Jpbmctbm9tYWQ6Zy5zdGRlcnIA"
    );
}

#[test]
fn failed_publishes_keep_the_batch_until_success() {
    let mut w = worker();
    w.on_message(entry("a"), Level::Info, 0);
    w.on_message(entry("b"), Level::Warn, 0);
    let before = w.payloads();
    assert_eq!(w.start_publish(), PublishStep::Publish);
    assert_eq!(w.on_outcome(false), PublishStep::Backoff);
    assert_eq!(w.on_outcome(false), PublishStep::Backoff);
    assert_eq!(w.pending(), 2);
    assert_eq!(w.on_outcome(true), PublishStep::Publish);
    assert_eq!(w.payloads(), before);
    assert_eq!(w.on_outcome(false), PublishStep::Backoff);
    assert_eq!(w.on_outcome(true), PublishStep::Publish);
    assert_eq!(w.pending(), 2);
    assert_eq!(w.on_outcome(true), PublishStep::Done);
    assert_eq!(w.pending(), 0);
    assert_eq!(w.on_outcome(true), PublishStep::Done);
}

#[test]
fn three_receive_failures_stop_the_worker() {
    let mut w = worker();
    assert!(!w.on_recv_error());
    assert!(!w.on_recv_error());
    w.on_message(entry("a"), Level::Info, 0);
    assert!(!w.on_recv_error());
    assert!(!w.on_recv_error());
    assert!(w.on_recv_error());
    assert_eq!(w.pending(), 1);
}

#[test]
fn facade_filters_and_tags_level() {
    let (tx, rx) = crossbeam::channel::bounded(4);
    let logger = RedisLogger::new(Level::Info, tx);
    assert!(matches!(logger.log(Level::Debug, "no"), Delivery::Filtered));
    assert_eq!(rx.len(), 0);
    assert!(matches!(logger.log(Level::Warn, "yes"), Delivery::Queued));
    assert!(logger.flush().is_ok());
    let (m, l) = rx.try_recv().unwrap();
    assert_eq!(l, Level::Warn);
    assert!(matches!(m, BackgroundLoggerMessage::String(ref s) if s == "yes\n"));
    let (m, l) = rx.try_recv().unwrap();
    assert_eq!(l, Level::Info);
    assert!(matches!(m, BackgroundLoggerMessage::Flush));
}

#[test]
fn facade_drops_on_full_mailbox() {
    let (tx, rx) = crossbeam::channel::bounded(1);
    let logger = RedisLogger::new(Level::Trace, tx);
    assert!(matches!(logger.log(Level::Info, "a"), Delivery::Queued));
    match logger.log(Level::Error, "b") {
        Delivery::Dropped(e) => {
            assert!(e.is_full());
            let (m, l) = e.into_inner();
            assert_eq!(l, Level::Error);
            assert!(matches!(m, BackgroundLoggerMessage::String(ref s) if s == "b\n"));
        }
        _ => panic!("a full mailbox must refuse the entry"),
    }
    assert_eq!(rx.len(), 1);
}
