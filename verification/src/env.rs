//! Settings of the engine's environment.

use vstd::prelude::*;
use crate::error::{DatabaseError, LogLevel};

verus! {

/// 1 KB in bytes.
pub const KILOBYTE: u64 = 1024;

/// 1 MB in bytes.
pub const MEGABYTE: u64 = 1048576;

/// 1 GB in bytes.
pub const GIGABYTE: u64 = 1073741824;

/// 1 TB in bytes.
pub const TERABYTE: u64 = 1099511627776;

/// The engine allows 32767 readers; the layer stays a little below.
pub const DEFAULT_MAX_READERS: u64 = 32000;

/// Space that a read transaction may hold back before it is reported.
pub const MAX_SAFE_READER_SPACE: u64 = 10737418240;

/// Named tables that an environment can hold.
pub const MAX_DBS: u64 = 256;

/// Length of the list of freed pages that the engine searches before it
/// allocates new ones.
pub const RP_AUGMENT_LIMIT: u64 = 262144;

/// Smallest page size the layer asks for.
pub const MIN_PAGE_SIZE: usize = 4096;

/// Largest page size the engine takes.
pub const MAX_PAGE_SIZE: usize = 65536;

/// How an environment is opened.
#[derive(Clone, Copy, Debug, PartialEq, Eq, Structural)]
pub enum DatabaseEnvKind {
    /// Read-only environment.
    RO,
    /// Read-write environment.
    RW,
}

impl DatabaseEnvKind {
    /// Whether the environment is opened for writing.
    pub fn is_rw(&self) -> (rw: bool)
        ensures
            rw == (*self == DatabaseEnvKind::RW),
    {
        match self {
            DatabaseEnvKind::RW => true,
            DatabaseEnvKind::RO => false,
        }
    }
}

/// Who opens the database.
#[derive(Clone, Debug, PartialEq, Eq)]
pub struct ClientVersion {
    pub version: String,
    pub git_sha: String,
    pub build_timestamp: String,
}

impl ClientVersion {
    /// The version of a client that gives none: three empty strings.
    pub fn empty() -> (v: ClientVersion)
        ensures
            v.version@ == Seq::<char>::empty(),
            v.git_sha@ == Seq::<char>::empty(),
            v.build_timestamp@ == Seq::<char>::empty(),
    {
        ClientVersion {
            version: String::new(),
            git_sha: String::new(),
            build_timestamp: String::new(),
        }
    }
}

/// The page size of a new database.
#[derive(Clone, Copy, Debug, PartialEq, Eq, Structural)]
pub enum PageSize {
    /// The smallest the engine accepts.
    MinimalAcceptable,
    /// This many bytes.
    Fixed(usize),
}

/// Size settings of the database file, in bytes. `None` leaves the engine's
/// default in place.
#[derive(Clone, Copy, Debug, PartialEq, Eq, Structural)]
pub struct Geometry {
    /// Lower bound of the file's size.
    pub size_lower: Option<u64>,
    /// Upper bound of the file's size.
    pub size_upper: Option<u64>,
    pub growth_step: Option<i64>,
    pub shrink_threshold: Option<i64>,
    pub page_size: Option<PageSize>,
}

/// How long a read transaction may stay open.
#[derive(Clone, Copy, Debug, PartialEq, Eq, Structural)]
pub enum MaxReadTransactionDuration {
    /// As long as it likes.
    Unbounded,
    /// This long.
    Bounded { secs: u64, nanos: u32 },
}

/// What the engine does with its writes before it reports them done.
#[derive(Clone, Copy, Debug, PartialEq, Eq, Structural)]
pub enum SyncMode {
    Durable,
    NoMetaSync,
    SafeNoSync,
    UtterlyNoSync,
}

/// Access mode of an environment.
#[derive(Clone, Copy, Debug, PartialEq, Eq, Structural)]
pub enum Mode {
    ReadOnly,
    ReadWrite { sync_mode: SyncMode },
}

/// What the engine is told when a reader holds back the file's growth.
#[derive(Clone, Copy, Debug, PartialEq, Eq, Structural)]
pub enum HandleSlowReadersReturnCode {
    /// Leave the reader alone and go on.
    ProceedWithoutKillingReader,
}

/// The page size of the machine, clamped to what the layer accepts.
pub open spec fn clamped_page_size(os_page_size: usize) -> usize {
    if os_page_size < MIN_PAGE_SIZE {
        MIN_PAGE_SIZE
    } else if os_page_size > MAX_PAGE_SIZE {
        MAX_PAGE_SIZE
    } else {
        os_page_size
    }
}

/// Brings a page size into the range from `MIN_PAGE_SIZE` to `MAX_PAGE_SIZE`.
pub fn clamp_page_size(os_page_size: usize) -> (size: usize)
    ensures
        size == clamped_page_size(os_page_size),
{
    if os_page_size < MIN_PAGE_SIZE {
        MIN_PAGE_SIZE
    } else if os_page_size > MAX_PAGE_SIZE {
        MAX_PAGE_SIZE
    } else {
        os_page_size
    }
}

/// `page_size::get`: the memory page size of the machine this runs on.
/// Nothing is claimed of the number.
#[verifier::external_body]
fn os_page_size() -> (size: usize) {
    page_size::get()
}

/// The page size used for a new database on this machine.
pub fn default_page_size() -> (size: usize)
    ensures
        MIN_PAGE_SIZE <= size <= MAX_PAGE_SIZE,
        exists|os: usize| size == clamped_page_size(os),
{
    let os: usize = os_page_size();
    clamp_page_size(os)
}

/// Arguments for opening a database.
#[derive(Clone, Debug, PartialEq, Eq)]
pub struct DatabaseArguments {
    /// Client version that accesses the database.
    pub client_version: ClientVersion,
    /// Size settings of the database file.
    pub geometry: Geometry,
    /// Log level of the engine. `None` keeps the engine's default.
    pub log_level: Option<LogLevel>,
    /// Longest life of a read transaction. `None` keeps the engine's default.
    pub max_read_transaction_duration: Option<MaxReadTransactionDuration>,
    /// Whether the environment is opened by this process alone. `None` keeps
    /// the engine's default, which is cooperative.
    pub exclusive: Option<bool>,
}

/// Reads an unsigned 64-bit number as a signed one of the same bits.
pub open spec fn reinterpret_signed(n: u64) -> i64 {
    if n <= i64::MAX {
        n as i64
    } else {
        (n - 0x1_0000_0000_0000_0000) as i64
    }
}

/// Computes `reinterpret_signed`.
pub fn to_signed(n: u64) -> (s: i64)
    ensures
        s == reinterpret_signed(n),
{
    if n <= 0x7fff_ffff_ffff_ffff {
        n as i64
    } else {
        let below: u64 = u64::MAX - n;
        -(below as i64) - 1
    }
}

impl Default for DatabaseArguments {
    /// The default arguments of a client that gives no version.
    fn default() -> (args: DatabaseArguments)
        ensures
            args.client_version.version@ == Seq::<char>::empty(),
            args.geometry.size_lower == Some(0u64),
            args.geometry.size_upper == Some((4 * TERABYTE) as u64),
            args.geometry.growth_step == Some((4 * GIGABYTE) as i64),
            args.geometry.shrink_threshold == Some(0i64),
            exists|os: usize|
                args.geometry.page_size == Some(PageSize::Fixed(clamped_page_size(os))),
            args.log_level.is_none(),
            args.max_read_transaction_duration.is_none(),
            args.exclusive.is_none(),
    {
        DatabaseArguments::new(ClientVersion::empty())
    }
}

impl DatabaseArguments {
    /// Arguments with the layer's defaults: a file of up to 4 TB that grows
    /// in steps of 4 GB and never shrinks, with this machine's page size.
    pub fn new(client_version: ClientVersion) -> (args: DatabaseArguments)
        ensures
            args.client_version == client_version,
            args.geometry.size_lower == Some(0u64),
            args.geometry.size_upper == Some((4 * TERABYTE) as u64),
            args.geometry.growth_step == Some((4 * GIGABYTE) as i64),
            args.geometry.shrink_threshold == Some(0i64),
            exists|os: usize|
                args.geometry.page_size == Some(PageSize::Fixed(clamped_page_size(os))),
            args.log_level.is_none(),
            args.max_read_transaction_duration.is_none(),
            args.exclusive.is_none(),
    {
        let page: usize = default_page_size();
        DatabaseArguments {
            client_version,
            geometry: Geometry {
                size_lower: Some(0),
                size_upper: Some(4 * TERABYTE),
                growth_step: Some(to_signed(4 * GIGABYTE)),
                shrink_threshold: Some(0),
                page_size: Some(PageSize::Fixed(page)),
            },
            log_level: None,
            max_read_transaction_duration: None,
            exclusive: None,
        }
    }

    /// Sets the largest size of the database file, in bytes. `None` changes
    /// nothing.
    pub fn with_geometry_max_size(self, max_size: Option<u64>) -> (args: DatabaseArguments)
        ensures
            max_size.is_none() ==> args == self,
            max_size.is_some() ==> args == (DatabaseArguments {
                geometry: Geometry {
                    size_lower: Some(0u64),
                    size_upper: max_size,
                    ..self.geometry
                },
                ..self
            }),
    {
        let mut args = self;
        if let Some(upper) = max_size {
            args.geometry.size_lower = Some(0);
            args.geometry.size_upper = Some(upper);
        }
        args
    }

    /// Sets the step by which the database file grows, in bytes. `None`
    /// changes nothing.
    pub fn with_growth_step(self, growth_step: Option<u64>) -> (args: DatabaseArguments)
        ensures
            growth_step.is_none() ==> args == self,
            growth_step.is_some() ==> args == (DatabaseArguments {
                geometry: Geometry {
                    growth_step: Some(reinterpret_signed(growth_step.unwrap())),
                    ..self.geometry
                },
                ..self
            }),
    {
        let mut args = self;
        if let Some(step) = growth_step {
            args.geometry.growth_step = Some(to_signed(step));
        }
        args
    }

    /// Sets the log level.
    pub fn with_log_level(self, log_level: Option<LogLevel>) -> (args: DatabaseArguments)
        ensures
            args == (DatabaseArguments { log_level, ..self }),
    {
        let mut args = self;
        args.log_level = log_level;
        args
    }

    /// Sets the longest life of a read transaction.
    pub fn with_max_read_transaction_duration(
        self,
        max_read_transaction_duration: Option<MaxReadTransactionDuration>,
    ) -> (args: DatabaseArguments)
        ensures
            args == (DatabaseArguments { max_read_transaction_duration, ..self }),
    {
        let mut args = self;
        args.max_read_transaction_duration = max_read_transaction_duration;
        args
    }

    /// Sets whether the environment is opened by this process alone.
    pub fn with_exclusive(self, exclusive: Option<bool>) -> (args: DatabaseArguments)
        ensures
            args == (DatabaseArguments { exclusive, ..self }),
    {
        let mut args = self;
        args.exclusive = exclusive;
        args
    }

    /// The client version.
    pub fn client_version(&self) -> (v: &ClientVersion)
        ensures
            *v == self.client_version,
    {
        &self.client_version
    }
}

/// Which reader holds back the growth of the database file.
#[derive(Clone, Copy, Debug, PartialEq, Eq, Structural)]
pub enum SlowReader {
    /// A transaction of this process.
    CurrentProcess,
    /// A transaction of another process.
    ExternalProcess,
}

/// Whether a reader that holds back `space` bytes is worth a warning, and
/// whose reader it is.
pub open spec fn slow_reader(space: u64, current_process: bool) -> Option<SlowReader> {
    if space > MAX_SAFE_READER_SPACE {
        if current_process {
            Some(SlowReader::CurrentProcess)
        } else {
            Some(SlowReader::ExternalProcess)
        }
    } else {
        None
    }
}

/// Answers the engine when a reader holds back `space` bytes: the reader is
/// never killed, and it is named once it holds back more than
/// `MAX_SAFE_READER_SPACE`.
pub fn handle_slow_readers(space: u64, current_process: bool) -> (answer: (
    HandleSlowReadersReturnCode,
    Option<SlowReader>,
))
    ensures
        answer.0 == HandleSlowReadersReturnCode::ProceedWithoutKillingReader,
        answer.1 == slow_reader(space, current_process),
{
    let who = if space > MAX_SAFE_READER_SPACE {
        if current_process {
            Some(SlowReader::CurrentProcess)
        } else {
            Some(SlowReader::ExternalProcess)
        }
    } else {
        None
    };
    (HandleSlowReadersReturnCode::ProceedWithoutKillingReader, who)
}

/// The number the engine knows a log level by.
pub open spec fn log_level_number(level: LogLevel) -> u8 {
    match level {
        LogLevel::Fatal => 0,
        LogLevel::Error => 1,
        LogLevel::Warn => 2,
        LogLevel::Notice => 3,
        LogLevel::Verbose => 4,
        LogLevel::Debug => 5,
        LogLevel::Trace => 6,
        LogLevel::Extra => 7,
    }
}

/// Levels above `Notice` need an engine built for debugging.
pub open spec fn log_level_available(level: LogLevel, debug_build: bool) -> bool {
    debug_build || log_level_number(level) <= 3
}

/// Flags of an environment. What is not listed keeps the engine's default.
#[derive(Clone, Copy, Debug, PartialEq, Eq, Structural)]
pub struct EnvironmentFlags {
    pub mode: Mode,
    /// Read-ahead off: it helps linear scans and hurts random access.
    pub no_rdahead: bool,
    pub coalesce: bool,
    pub exclusive: bool,
}

/// Everything the engine is told before an environment is opened.
#[derive(Clone, Copy, Debug, PartialEq, Eq, Structural)]
pub struct EnvironmentConfig {
    /// Whether the file is mapped writable.
    pub write_map: bool,
    pub max_dbs: u64,
    pub geometry: Geometry,
    pub flags: EnvironmentFlags,
    pub max_readers: u64,
    pub rp_augment_limit: u64,
    /// The engine's number of the log level, where one is set.
    pub log_level: Option<u8>,
    pub max_read_transaction_duration: Option<MaxReadTransactionDuration>,
}

/// The settings with which an environment of `kind` is opened under `args`.
pub open spec fn environment_config(
    kind: DatabaseEnvKind,
    args: DatabaseArguments,
) -> EnvironmentConfig {
    EnvironmentConfig {
        write_map: kind == DatabaseEnvKind::RW,
        max_dbs: MAX_DBS,
        geometry: args.geometry,
        flags: EnvironmentFlags {
            mode: match kind {
                DatabaseEnvKind::RO => Mode::ReadOnly,
                DatabaseEnvKind::RW => Mode::ReadWrite { sync_mode: SyncMode::Durable },
            },
            no_rdahead: true,
            coalesce: true,
            exclusive: match args.exclusive {
                Some(e) => e,
                None => false,
            },
        },
        max_readers: DEFAULT_MAX_READERS,
        rp_augment_limit: RP_AUGMENT_LIMIT,
        log_level: match args.log_level {
            Some(l) => Some(log_level_number(l)),
            None => None,
        },
        max_read_transaction_duration: args.max_read_transaction_duration,
    }
}

/// An environment as the layer sees it: how it was opened and with which
/// settings. The engine's handle lives with the caller.
#[derive(Clone, Copy, Debug, PartialEq, Eq, Structural)]
pub struct DatabaseEnv {
    pub kind: DatabaseEnvKind,
    pub config: EnvironmentConfig,
    /// Whether the advisory lock file is held; it is for writers.
    pub holds_lock: bool,
}

/// How the opening of an environment of `kind` under `args` ends before the
/// engine is asked. A writer needs the advisory lock: where it was refused,
/// the opening ends with the refusal's message, before anything else is
/// looked at. A reader takes no lock, and `lock` is not consulted. A log
/// level that the engine's build does not offer ends the opening next.
pub open spec fn opening(
    kind: DatabaseEnvKind,
    args: DatabaseArguments,
    lock: Result<(), String>,
    debug_build: bool,
) -> Result<DatabaseEnv, DatabaseError> {
    if kind == DatabaseEnvKind::RW && lock is Err {
        Err(DatabaseError::Other(lock->Err_0))
    } else {
        match args.log_level {
            Some(l) if !log_level_available(l, debug_build) => Err(
                DatabaseError::LogLevelUnavailable(l),
            ),
            _ => Ok(
                DatabaseEnv {
                    kind,
                    config: environment_config(kind, args),
                    holds_lock: kind == DatabaseEnvKind::RW,
                },
            ),
        }
    }
}

impl DatabaseEnv {
    /// Settles how an environment of `kind` is opened under `args`, on the
    /// answer to the request for the advisory lock, which is made for a
    /// writer only.
    ///
    /// Fails with `Other` where a writer's lock was refused, and with
    /// `LogLevelUnavailable` where `args` names a log level above `Notice`
    /// and the engine is not built for debugging. Tables are not created
    /// here.
    pub fn open(
        kind: DatabaseEnvKind,
        args: DatabaseArguments,
        lock: Result<(), String>,
        debug_build: bool,
    ) -> (r: Result<DatabaseEnv, DatabaseError>)
        ensures
            r == opening(kind, args, lock, debug_build),
    {
        let holds_lock = kind.is_rw();
        if holds_lock {
            if let Err(message) = lock {
                return Err(DatabaseError::Other(message));
            }
        }
        let mode = match kind {
            DatabaseEnvKind::RO => Mode::ReadOnly,
            DatabaseEnvKind::RW => Mode::ReadWrite { sync_mode: SyncMode::Durable },
        };
        let log_level: Option<u8> = match args.log_level {
            Some(level) => {
                let available = if debug_build {
                    true
                } else {
                    match level {
                        LogLevel::Fatal | LogLevel::Error | LogLevel::Warn | LogLevel::Notice => true,
                        _ => false,
                    }
                };
                if !available {
                    return Err(DatabaseError::LogLevelUnavailable(level));
                }
                Some(
                    match level {
                        LogLevel::Fatal => 0,
                        LogLevel::Error => 1,
                        LogLevel::Warn => 2,
                        LogLevel::Notice => 3,
                        LogLevel::Verbose => 4,
                        LogLevel::Debug => 5,
                        LogLevel::Trace => 6,
                        LogLevel::Extra => 7,
                    },
                )
            },
            None => None,
        };
        let exclusive = match args.exclusive {
            Some(e) => e,
            None => false,
        };
        Ok(
            DatabaseEnv {
                kind,
                config: EnvironmentConfig {
                    write_map: holds_lock,
                    max_dbs: MAX_DBS,
                    geometry: args.geometry,
                    flags: EnvironmentFlags { mode, no_rdahead: true, coalesce: true, exclusive },
                    max_readers: DEFAULT_MAX_READERS,
                    rp_augment_limit: RP_AUGMENT_LIMIT,
                    log_level,
                    max_read_transaction_duration: args.max_read_transaction_duration,
                },
                holds_lock,
            },
        )
    }

    /// Reads the engine's answer to the opening of the environment with
    /// these settings. A failure becomes `Open`.
    pub fn open_result(self, reply: Result<(), i32>) -> (r: Result<DatabaseEnv, DatabaseError>)
        ensures
            match reply {
                Ok(_) => r == Ok::<DatabaseEnv, DatabaseError>(self),
                Err(code) => r == Err::<DatabaseEnv, DatabaseError>(DatabaseError::Open(code)),
            },
    {
        match reply {
            Ok(_) => Ok(self),
            Err(code) => Err(DatabaseError::Open(code)),
        }
    }
}

} // verus!
