use service_logger::console_logger::{ConsoleLogger, ConsoleLoggerConfig, ConsoleStream};
use service_logger::level::Level;
use service_logger::{
    format_log, BackendConfig, EnvError, InitError, ServiceLogger, ServiceLoggerEnv, ServiceLoggerKind,
};

#[test]
fn format_appends_newline() {
    assert_eq!(format_log("hello"), "hello\n");
    assert_eq!(format_log(""), "\n");
}

#[test]
fn second_install_fails_and_keeps_first() {
    let mut s = ServiceLogger::new();
    assert_eq!(s.installed_kind(), None);
    let c = s.init_file("/tmp/a.log".to_string(), None, Level::Warn).ok().unwrap();
    assert_eq!(c.max_line_count, 100_000);
    assert_eq!(c.max_log_level, Level::Warn);
    assert_eq!(s.installed_kind(), Some(ServiceLoggerKind::FileLogger));
    assert!(matches!(
        s.init_console(None),
        Err(InitError::AlreadyInstalled(ServiceLoggerKind::FileLogger))
    ));
    assert!(matches!(
        s.init_redis("c".to_string(), "g".to_string(), "0".to_string()),
        Err(InitError::AlreadyInstalled(ServiceLoggerKind::FileLogger))
    ));
    assert_eq!(s.installed_kind(), Some(ServiceLoggerKind::FileLogger));
}

#[test]
fn init_file_keeps_given_threshold() {
    let mut s = ServiceLogger::new();
    let c = s.init_file("p".to_string(), Some(7), Level::Info).ok().unwrap();
    assert_eq!(c.max_line_count, 7);
}

#[test]
fn init_redis_and_console() {
    let mut s = ServiceLogger::new();
    let c = s.init_redis("c".to_string(), "g".to_string(), "3".to_string()).ok().unwrap();
    assert_eq!(c.index, "3");
    let mut s = ServiceLogger::new();
    let c = s.init_console(Some("debug")).ok().unwrap();
    assert_eq!(c.max_log_level, Level::Debug);
}

#[test]
fn console_config_from_rust_log() {
    assert_eq!(ConsoleLoggerConfig::from_rust_log(None).max_log_level, Level::Info);
    assert_eq!(ConsoleLoggerConfig::from_rust_log(Some("trace")).max_log_level, Level::Trace);
    assert_eq!(ConsoleLoggerConfig::from_rust_log(Some("bogus")).max_log_level, Level::Info);
    assert_eq!(ConsoleLoggerConfig::new(Level::Error).max_log_level, Level::Error);
}

#[test]
fn console_routes_errors_to_stderr() {
    let logger = ConsoleLogger::new(ConsoleLoggerConfig::new(Level::Warn));
    assert!(logger.enabled(Level::Error));
    assert!(!logger.enabled(Level::Info));
    let l = logger.log(Level::Error, "boom");
    assert_eq!(l.text, "boom\n");
    assert_eq!(l.stream, ConsoleStream::Stderr);
    assert_eq!(logger.log(Level::Warn, "w").stream, ConsoleStream::Stdout);
}

#[test]
fn log_kind_names() {
    assert_eq!(ServiceLoggerKind::from_name(Some("FILE")), ServiceLoggerKind::FileLogger);
    assert_eq!(ServiceLoggerKind::from_name(Some("REDIS")), ServiceLoggerKind::RedisLogger);
    assert_eq!(ServiceLoggerKind::from_name(Some("file")), ServiceLoggerKind::ConsoleLogger);
    assert_eq!(ServiceLoggerKind::from_name(None), ServiceLoggerKind::ConsoleLogger);
}

fn env(kind: ServiceLoggerKind) -> ServiceLoggerEnv {
    ServiceLoggerEnv {
        log_path: None,
        max_line_count: None,
        log_redis_connection_string: None,
        log_kind: kind,
        group_name: None,
        alloc_index: None,
    }
}

#[test]
fn env_selects_file_backend() {
    let mut s = ServiceLogger::new();
    let mut e = env(ServiceLoggerKind::FileLogger);
    assert!(matches!(
        s.init_from_env(env(ServiceLoggerKind::FileLogger), None),
        Err(EnvError::MissingLogPath)
    ));
    assert_eq!(s.installed_kind(), None);
    e.log_path = Some("/var/log/x.log".to_string());
    e.max_line_count = Some(12);
    match s.init_from_env(e, None) {
        Ok(BackendConfig::File(c)) => {
            assert_eq!(c.path, "/var/log/x.log");
            assert_eq!(c.max_line_count, 12);
            assert_eq!(c.max_log_level, Level::Info);
        }
        _ => panic!("expected the file backend"),
    }
    assert!(matches!(
        s.init_from_env(env(ServiceLoggerKind::ConsoleLogger), None),
        Err(EnvError::Init(InitError::AlreadyInstalled(ServiceLoggerKind::FileLogger)))
    ));
}

#[test]
fn env_selects_redis_backend() {
    let mut s = ServiceLogger::new();
    let mut e = env(ServiceLoggerKind::RedisLogger);
    e.group_name = Some("g".to_string());
    assert!(matches!(s.init_from_env(e, None), Err(EnvError::MissingRedisConnectionString)));
    let mut e = env(ServiceLoggerKind::RedisLogger);
    e.log_redis_connection_string = Some("redis://h/".to_string());
    assert!(matches!(s.init_from_env(e, None), Err(EnvError::MissingGroupName)));
    let mut e = env(ServiceLoggerKind::RedisLogger);
    e.log_redis_connection_string = Some("redis://h/".to_string());
    e.group_name = Some("g".to_string());
    match s.init_from_env(e, None) {
        Ok(BackendConfig::Redis(c)) => {
            assert_eq!(c.index, "0");
            assert_eq!(c.group_name, "g");
            assert_eq!(c.redis_connection_string, "redis://h/");
        }
        _ => panic!("expected the pub/sub backend"),
    }
    assert_eq!(s.installed_kind(), Some(ServiceLoggerKind::RedisLogger));
}

#[test]
fn env_selects_console_backend() {
    let mut s = ServiceLogger::new();
    match s.init_from_env(env(ServiceLoggerKind::ConsoleLogger), Some("error")) {
        Ok(BackendConfig::Console(c)) => assert_eq!(c.max_log_level, Level::Error),
        _ => panic!("expected the console backend"),
    }
}
