use vstd::prelude::*;

pub mod console_logger;
pub mod file_logger;
pub mod level;
pub mod mailbox;
pub mod redis_log_message;
pub mod redis_logger;

use crate::console_logger::ConsoleLoggerConfig;
use crate::file_logger::FileLoggerConfig;
use crate::level::Level;
use crate::redis_logger::RedisLoggerConfig;

verus! {

/// A message carried by a sink's mailbox.
#[derive(Debug)]
pub enum BackgroundLoggerMessage {
    /// A rendered log line.
    String(String),
    /// Flush whatever the worker holds.
    Flush,
}

/// The backend that a process logs to.
#[derive(Debug, Clone, Copy, PartialEq, Eq, Structural)]
pub enum ServiceLoggerKind {
    ConsoleLogger,
    FileLogger,
    RedisLogger,
}

/// Why a backend could not be installed.
#[derive(Debug, Clone, Copy, PartialEq, Eq, Structural)]
pub enum InitError {
    /// A backend is installed already; it stays in place.
    AlreadyInstalled(ServiceLoggerKind),
}

/// Default rollover threshold of the file sink, in lines.
pub const DEFAULT_MAX_LINE_COUNT: usize = 100_000;

/// Renders a log call's message as one line of the sink.
pub open spec fn log_line(args: Seq<char>) -> Seq<char> {
    args.push('\n')
}

pub fn format_log(args: &str) -> (r: String)
    ensures
        r@ == log_line(args@),
{
    let mut s = String::from_str(args);
    s.append("\n");
    proof {
        reveal_strlit("\n");
    }
    assert(s@ =~= log_line(args@));
    s
}

/// The process-wide handle through which one backend is installed, once.
pub struct ServiceLogger {
    installed: Option<ServiceLoggerKind>,
}

impl ServiceLogger {
    /// The backend installed so far, if any.
    pub closed spec fn installed(&self) -> Option<ServiceLoggerKind> {
        self.installed
    }

    pub fn new() -> (r: ServiceLogger)
        ensures
            r.installed() is None,
    {
        ServiceLogger { installed: None }
    }

    pub fn installed_kind(&self) -> (r: Option<ServiceLoggerKind>)
        ensures
            r == self.installed(),
    {
        self.installed
    }

    fn install(&mut self, kind: ServiceLoggerKind) -> (r: Result<(), InitError>)
        ensures
            match old(self).installed() {
                Some(k) => r == Err::<(), InitError>(InitError::AlreadyInstalled(k))
                    && final(self).installed() == old(self).installed(),
                None => r is Ok && final(self).installed() == Some(kind),
            },
    {
        match self.installed {
            Some(k) => Err(InitError::AlreadyInstalled(k)),
            None => {
                self.installed = Some(kind);
                Ok(())
            },
        }
    }

    /// Installs the console backend; `rust_log` is the configured level name.
    pub fn init_console(&mut self, rust_log: Option<&str>) -> (r: Result<ConsoleLoggerConfig, InitError>)
        ensures
            match old(self).installed() {
                Some(k) => r == Err::<ConsoleLoggerConfig, InitError>(InitError::AlreadyInstalled(k))
                    && final(self).installed() == old(self).installed(),
                None => final(self).installed() == Some(ServiceLoggerKind::ConsoleLogger)
                    && (r matches Ok(c) && c.max_log_level == console_logger::configured_level(
                    rust_log,
                )),
            },
    {
        self.install(ServiceLoggerKind::ConsoleLogger)?;
        Ok(ConsoleLoggerConfig::from_rust_log(rust_log))
    }

    /// Installs the file backend; the rollover threshold defaults to
    /// `DEFAULT_MAX_LINE_COUNT` lines.
    pub fn init_file(
        &mut self,
        path: String,
        max_line_count: Option<usize>,
        max_log_level: Level,
    ) -> (r: Result<FileLoggerConfig, InitError>)
        ensures
            match old(self).installed() {
                Some(k) => r == Err::<FileLoggerConfig, InitError>(InitError::AlreadyInstalled(k))
                    && final(self).installed() == old(self).installed(),
                None => final(self).installed() == Some(ServiceLoggerKind::FileLogger)
                    && (r matches Ok(c) && c.path == path && c.max_log_level == max_log_level
                    && c.max_line_count == match max_line_count {
                    Some(n) => n,
                    None => DEFAULT_MAX_LINE_COUNT,
                }),
            },
    {
        self.install(ServiceLoggerKind::FileLogger)?;
        let max_line_count = match max_line_count {
            Some(n) => n,
            None => DEFAULT_MAX_LINE_COUNT,
        };
        Ok(FileLoggerConfig { max_log_level, path, max_line_count })
    }

    /// Installs the pub/sub backend.
    pub fn init_redis(
        &mut self,
        redis_connection_string: String,
        group_name: String,
        alloc_index: String,
    ) -> (r: Result<RedisLoggerConfig, InitError>)
        ensures
            match old(self).installed() {
                Some(k) => r == Err::<RedisLoggerConfig, InitError>(InitError::AlreadyInstalled(k))
                    && final(self).installed() == old(self).installed(),
                None => final(self).installed() == Some(ServiceLoggerKind::RedisLogger)
                    && (r matches Ok(c) && c.redis_connection_string == redis_connection_string
                    && c.group_name == group_name && c.index == alloc_index && c.max_log_level
                    == Level::Info),
            },
    {
        self.install(ServiceLoggerKind::RedisLogger)?;
        Ok(RedisLoggerConfig::new(redis_connection_string, group_name, alloc_index))
    }
}

/// Why the environment did not configure a backend.
#[derive(Debug, Clone, Copy, PartialEq, Eq, Structural)]
pub enum EnvError {
    /// The file backend was selected without a log path.
    MissingLogPath,
    /// The pub/sub backend was selected without a connection string.
    MissingRedisConnectionString,
    /// The pub/sub backend was selected without a group name.
    MissingGroupName,
    /// A backend is installed already.
    Init(InitError),
}

/// The configuration of the backend that was installed.
pub enum BackendConfig {
    Console(ConsoleLoggerConfig),
    File(FileLoggerConfig),
    Redis(RedisLoggerConfig),
}

impl ServiceLogger {
    /// Installs the backend that the environment selects; `rust_log` is the
    /// configured console level name. Files are logged from `Info` up, and a
    /// missing shard index means "0".
    pub fn init_from_env(&mut self, env: ServiceLoggerEnv, rust_log: Option<&str>) -> (r: Result<
        BackendConfig,
        EnvError,
    >)
        ensures
            r matches Err(EnvError::Init(_)) ==> old(self).installed() is Some,
            r matches Err(EnvError::Init(InitError::AlreadyInstalled(k))) ==> Some(k) == old(
                self,
            ).installed(),
            r is Err ==> final(self).installed() == old(self).installed(),
            r is Ok ==> old(self).installed() is None && final(self).installed() == Some(
                env.log_kind,
            ),
            match env.log_kind {
                ServiceLoggerKind::ConsoleLogger => match old(self).installed() {
                    Some(k) => r == Err::<BackendConfig, EnvError>(
                        EnvError::Init(InitError::AlreadyInstalled(k)),
                    ),
                    None => r matches Ok(BackendConfig::Console(c)) && c.max_log_level
                        == console_logger::configured_level(rust_log),
                },
                ServiceLoggerKind::FileLogger => match env.log_path {
                    None => r == Err::<BackendConfig, EnvError>(EnvError::MissingLogPath),
                    Some(path) => match old(self).installed() {
                        Some(k) => r == Err::<BackendConfig, EnvError>(
                        EnvError::Init(InitError::AlreadyInstalled(k)),
                    ),
                        None => r matches Ok(BackendConfig::File(c)) && c.path == path
                            && c.max_log_level == Level::Info && c.max_line_count
                            == match env.max_line_count {
                            Some(n) => n,
                            None => DEFAULT_MAX_LINE_COUNT,
                        },
                    },
                },
                ServiceLoggerKind::RedisLogger => match (
                    env.log_redis_connection_string,
                    env.group_name,
                ) {
                    (None, _) => r == Err::<BackendConfig, EnvError>(
                        EnvError::MissingRedisConnectionString,
                    ),
                    (Some(_), None) => r == Err::<BackendConfig, EnvError>(
                        EnvError::MissingGroupName,
                    ),
                    (Some(conn), Some(group)) => match old(self).installed() {
                        Some(k) => r == Err::<BackendConfig, EnvError>(
                        EnvError::Init(InitError::AlreadyInstalled(k)),
                    ),
                        None => r matches Ok(BackendConfig::Redis(c))
                            && c.redis_connection_string == conn && c.group_name == group
                            && c.max_log_level == Level::Info && c.index@ == match env.alloc_index {
                            Some(i) => i@,
                            None => "0"@,
                        },
                    },
                },
            },
    {
        match env.log_kind {
            ServiceLoggerKind::ConsoleLogger => match self.init_console(rust_log) {
                Ok(c) => Ok(BackendConfig::Console(c)),
                Err(e) => Err(EnvError::Init(e)),
            },
            ServiceLoggerKind::FileLogger => {
                let path = match env.log_path {
                    Some(p) => p,
                    None => return Err(EnvError::MissingLogPath),
                };
                match self.init_file(path, env.max_line_count, Level::Info) {
                    Ok(c) => Ok(BackendConfig::File(c)),
                    Err(e) => Err(EnvError::Init(e)),
                }
            },
            ServiceLoggerKind::RedisLogger => {
                let conn = match env.log_redis_connection_string {
                    Some(c) => c,
                    None => return Err(EnvError::MissingRedisConnectionString),
                };
                let group = match env.group_name {
                    Some(g) => g,
                    None => return Err(EnvError::MissingGroupName),
                };
                let index = match env.alloc_index {
                    Some(i) => i,
                    None => String::from_str("0"),
                };
                match self.init_redis(conn, group, index) {
                    Ok(c) => Ok(BackendConfig::Redis(c)),
                    Err(e) => Err(EnvError::Init(e)),
                }
            },
        }
    }
}

/// The backend a `LOG_KIND` value selects: "FILE", "REDIS", otherwise the console.
pub open spec fn kind_named(name: Option<Seq<char>>) -> ServiceLoggerKind {
    match name {
        Some(n) => if n == seq!['F', 'I', 'L', 'E'] {
            ServiceLoggerKind::FileLogger
        } else if n == seq!['R', 'E', 'D', 'I', 'S'] {
            ServiceLoggerKind::RedisLogger
        } else {
            ServiceLoggerKind::ConsoleLogger
        },
        None => ServiceLoggerKind::ConsoleLogger,
    }
}

/// The logging settings of a process, as its environment gives them.
#[derive(Debug)]
pub struct ServiceLoggerEnv {
    pub log_path: Option<String>,
    pub max_line_count: Option<usize>,
    pub log_redis_connection_string: Option<String>,
    pub log_kind: ServiceLoggerKind,
    pub group_name: Option<String>,
    pub alloc_index: Option<String>,
}

impl ServiceLoggerKind {
    /// Reads a `LOG_KIND` value.
    pub fn from_name(name: Option<&str>) -> (r: ServiceLoggerKind)
        ensures
            r == kind_named(
                match name {
                    Some(n) => Some(n@),
                    None => None,
                },
            ),
    {
        proof {
            reveal_strlit("FILE");
            reveal_strlit("REDIS");
            assert("FILE"@ =~= seq!['F', 'I', 'L', 'E']);
            assert("REDIS"@ =~= seq!['R', 'E', 'D', 'I', 'S']);
        }
        match name {
            Some(n) => if level::chars_equal(n, "FILE") {
                ServiceLoggerKind::FileLogger
            } else if level::chars_equal(n, "REDIS") {
                ServiceLoggerKind::RedisLogger
            } else {
                ServiceLoggerKind::ConsoleLogger
            },
            None => ServiceLoggerKind::ConsoleLogger,
        }
    }
}

} // verus!
