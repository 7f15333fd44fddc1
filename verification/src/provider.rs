//! The provider: it owns the environment's settings and the schema, decides
//! how a database is prepared, and closes each unit of work with a commit.

use vstd::prelude::*;
use crate::env::{
    clamped_page_size,
    ClientVersion,
    DatabaseArguments,
    DatabaseEnv,
    DatabaseEnvKind,
    EnvironmentConfig,
    EnvironmentFlags,
    Geometry,
    Mode,
    PageSize,
    SyncMode,
    DEFAULT_MAX_READERS,
    GIGABYTE,
    MAX_DBS,
    RP_AUGMENT_LIMIT,
    TERABYTE,
};
use crate::error::DatabaseError;
use crate::tables::{creation_flags, CreateDb, TableSet};
use crate::tx::{LibmdbxTx, RO, RW};

verus! {

/// The engine's code for success.
pub const MDBX_SUCCESS: i32 = 0;

/// The engine's code for a true answer.
pub const MDBX_RESULT_TRUE: i32 = -1;

/// Bytes that the engine may hold back before it syncs to disk: 2 GB.
pub const SYNC_BYTES: u64 = 2147483648;

/// Reads an engine code that answers a question: success means no, the
/// true code means yes, and any other code is the error itself.
pub fn mdbx_result(err_code: i32) -> (r: Result<bool, i32>)
    ensures
        r == if err_code == MDBX_SUCCESS {
            Ok::<bool, i32>(false)
        } else if err_code == MDBX_RESULT_TRUE {
            Ok::<bool, i32>(true)
        } else {
            Err::<bool, i32>(err_code)
        },
{
    if err_code == MDBX_SUCCESS {
        Ok(false)
    } else if err_code == MDBX_RESULT_TRUE {
        Ok(true)
    } else {
        Err(err_code)
    }
}

/// What is wrong with the version marker of a database.
#[derive(Clone, Copy, Debug, PartialEq, Eq, Structural)]
pub enum DatabaseVersionError {
    /// There is no marker.
    MissingFile,
    /// The marker holds no version.
    MalformedFile,
    /// The marker holds another version than this layer writes.
    VersionMismatch { version: u64 },
    /// The marker could not be read.
    Io,
}

/// Why no provider could be made.
#[derive(Clone, Debug, PartialEq, Eq)]
pub enum InitError {
    /// The directory could not be created.
    Io,
    /// The version marker does not fit.
    Version(DatabaseVersionError),
    /// The engine refused the sync threshold, with this code.
    SyncBytes(i32),
    /// The environment, a transaction or a table failed.
    Database(DatabaseError),
}

/// What is done at the database's location before the environment opens.
#[derive(Clone, Copy, Debug, PartialEq, Eq, Structural)]
pub enum Preparation {
    /// The location is empty: its directory is created.
    CreateDirectory,
    /// A database without a version marker: the marker is written.
    CreateVersionFile,
    /// A database with a fitting marker: nothing to do.
    Nothing,
}

/// The preparation of a location, from whether it is empty and, where it is
/// not, from the check of its version marker.
pub open spec fn preparation(empty: bool, version: Result<(), DatabaseVersionError>) -> Result<
    Preparation,
    InitError,
> {
    if empty {
        Ok(Preparation::CreateDirectory)
    } else {
        match version {
            Ok(_) => Ok(Preparation::Nothing),
            Err(DatabaseVersionError::MissingFile) => Ok(Preparation::CreateVersionFile),
            Err(e) => Err(InitError::Version(e)),
        }
    }
}

/// Decides how a location is prepared. An empty location gets its
/// directory, whatever `version` says; a database whose marker is missing
/// gets one; any other fault of the marker ends the start.
pub fn prepare(empty: bool, version: Result<(), DatabaseVersionError>) -> (r: Result<
    Preparation,
    InitError,
>)
    ensures
        r == preparation(empty, version),
{
    if empty {
        Ok(Preparation::CreateDirectory)
    } else {
        match version {
            Ok(_) => Ok(Preparation::Nothing),
            Err(DatabaseVersionError::MissingFile) => Ok(Preparation::CreateVersionFile),
            Err(e) => Err(InitError::Version(e)),
        }
    }
}

/// The settings with which a provider opens its environment, on a machine
/// whose clamped page size is `page_size`: a file of 0 to 4 TB that grows in
/// steps of 4 GB and never shrinks, mapped writable and synced durably,
/// shared with other processes, with the engine's own log level and no
/// limit of the layer's on the life of a read transaction.
pub open spec fn provider_config(page_size: usize) -> EnvironmentConfig {
    EnvironmentConfig {
        write_map: true,
        max_dbs: MAX_DBS,
        geometry: Geometry {
            size_lower: Some(0u64),
            size_upper: Some((4 * TERABYTE) as u64),
            growth_step: Some((4 * GIGABYTE) as i64),
            shrink_threshold: Some(0i64),
            page_size: Some(PageSize::Fixed(page_size)),
        },
        flags: EnvironmentFlags {
            mode: Mode::ReadWrite { sync_mode: SyncMode::Durable },
            no_rdahead: true,
            coalesce: true,
            exclusive: false,
        },
        max_readers: DEFAULT_MAX_READERS,
        rp_augment_limit: RP_AUGMENT_LIMIT,
        log_level: None,
        max_read_transaction_duration: None,
    }
}

/// What the materialisation of a schema does next.
#[derive(Debug, PartialEq, Eq)]
pub enum Creation {
    /// The engine is to make sure that this table exists.
    Create(CreateDb),
    /// Every table exists: the transaction is to be committed.
    Commit,
}

/// Whether the reply at `at` is the first refusal among `replies`.
pub open spec fn first_refusal(replies: Seq<Result<(), i32>>, at: int) -> bool {
    &&& 0 <= at < replies.len()
    &&& replies[at] is Err
    &&& forall|j: int| 0 <= j < at ==> (#[trigger] replies[j]) is Ok
}

/// The provider of a database with the given schema.
#[derive(Debug, PartialEq, Eq)]
pub struct LibmdbxProvider {
    env: DatabaseEnv,
    tables: TableSet,
}

impl LibmdbxProvider {
    /// The environment's settings.
    pub closed spec fn env(&self) -> DatabaseEnv {
        self.env
    }

    /// The schema.
    pub closed spec fn tables(&self) -> TableSet {
        self.tables
    }

    /// The provider of a database with the schema `tables`, at a location
    /// that is `empty` or not and whose version marker was found as
    /// `version` says, on the answer `lock` to the request for the advisory
    /// lock.
    ///
    /// The location is prepared as `preparation` says, and a fault of the
    /// marker other than its absence ends the start with that fault; an
    /// empty location gets its directory whatever `version` says. A refused
    /// lock ends the start next, with its message. Otherwise the environment
    /// is to be opened for reading and writing with `provider_config`, and
    /// the preparation comes back with the provider.
    pub fn init_db(
        tables: TableSet,
        empty: bool,
        version: Result<(), DatabaseVersionError>,
        lock: Result<(), String>,
        debug_build: bool,
    ) -> (r: Result<(Preparation, LibmdbxProvider), InitError>)
        ensures
            match preparation(empty, version) {
                Err(e) => r == Err::<(Preparation, LibmdbxProvider), InitError>(e),
                Ok(step) => match lock {
                    Err(message) => r == Err::<(Preparation, LibmdbxProvider), InitError>(
                        InitError::Database(DatabaseError::Other(message)),
                    ),
                    Ok(_) => r matches Ok((s, p)) && {
                        &&& s == step
                        &&& p.tables() == tables
                        &&& p.env().kind == DatabaseEnvKind::RW
                        &&& p.env().holds_lock
                        &&& exists|os: usize|
                            p.env().config == provider_config(clamped_page_size(os))
                    },
                },
            },
    {
        let step = match prepare(empty, version) {
            Ok(step) => step,
            Err(e) => {
                return Err(e);
            },
        };
        let args = DatabaseArguments::new(ClientVersion::empty()).with_log_level(None);
        let ghost page = args.geometry.page_size;
        match DatabaseEnv::open(DatabaseEnvKind::RW, args, lock, debug_build) {
            Ok(env) => {
                proof {
                    let os = choose|os: usize| page == Some(PageSize::Fixed(clamped_page_size(os)));
                    assert(env.config == provider_config(clamped_page_size(os)));
                }
                Ok((step, LibmdbxProvider { env, tables }))
            },
            Err(e) => Err(InitError::Database(e)),
        }
    }

    /// The settings with which the environment is opened.
    pub fn database_env(&self) -> (env: &DatabaseEnv)
        ensures
            *env == self.env(),
    {
        &self.env
    }

    /// The schema.
    pub fn table_set(&self) -> (tables: &TableSet)
        ensures
            *tables == self.tables(),
    {
        &self.tables
    }

    /// The requests that create the schema's tables, inside `txn`.
    pub fn create_tables(&self, txn: &LibmdbxTx<'_, RW>) -> (requests: Vec<CreateDb>)
        ensures
            requests@.len() == self.tables()@.len(),
            forall|i: int|
                0 <= i < self.tables()@.len() ==> (#[trigger] requests@[i]).name@
                    == self.tables()@[i].name@ && requests@[i].flags == creation_flags(
                    self.tables()@[i].table_type,
                ),
    {
        self.tables.create_tables(txn)
    }

    /// What the materialisation of the schema does next, inside `txn`, on
    /// the engine's answers so far to the requests for the tables in the
    /// registry's order.
    ///
    /// The first refusal ends it with `CreateTable`; no further table is
    /// asked for and no commit, so that none of the creations takes effect.
    /// While every answer is good and tables are left, the next table is
    /// asked for. The commit is asked for exactly when every table has a
    /// good answer.
    pub fn create_tables_step(&self, txn: &LibmdbxTx<'_, RW>, replies: &[Result<(), i32>]) -> (r:
        Result<Creation, DatabaseError>)
        ensures
            forall|at: int|
                first_refusal(replies@, at) && at < self.tables()@.len() ==> r == Err::<
                    Creation,
                    DatabaseError,
                >(DatabaseError::CreateTable(replies@[at]->Err_0)),
            (forall|j: int|
                0 <= j < replies@.len() && j < self.tables()@.len() ==> (#[trigger] replies@[j]) is Ok)
                ==> if replies@.len() < self.tables()@.len() {
                r matches Ok(Creation::Create(request)) && request.name@
                    == self.tables()@[replies@.len() as int].name@ && request.flags
                    == creation_flags(self.tables()@[replies@.len() as int].table_type)
            } else {
                r == Ok::<Creation, DatabaseError>(Creation::Commit)
            },
    {
        let n: usize = self.tables.num_tables();
        let mut at: usize = 0;
        while at < replies.len() && at < n
            invariant
                n == self.tables@.len(),
                at <= replies@.len(),
                at <= n,
                forall|j: int| 0 <= j < at ==> (#[trigger] replies@[j]) is Ok,
            decreases replies@.len() - at,
        {
            match txn.create_table_result(replies[at]) {
                Ok(_) => {},
                Err(e) => {
                    assert(first_refusal(replies@, at as int));
                    assert forall|other: int|
                        first_refusal(replies@, other) && other < n implies other == at by {
                        if other < at {
                            assert(replies@[other] is Ok);
                        } else if other > at {
                            assert(replies@[at as int] is Ok);
                        }
                    }
                    return Err(e);
                },
            }
            at += 1;
        }
        assert forall|other: int| first_refusal(replies@, other) && other < n implies false by {
            assert(replies@[other] is Ok);
        }
        if replies.len() < n {
            Ok(Creation::Create(txn.create_table(self.tables.table(replies.len()))))
        } else {
            Ok(Creation::Commit)
        }
    }

    /// A read transaction, on the engine's answer to the request to begin
    /// one. A refusal becomes `InitTx`. The transaction has used no table
    /// yet, and the limit on its life is in force.
    pub fn ro_tx<'a>(&'a self, begun: Result<(), i32>) -> (r: Result<
        LibmdbxTx<'a, RO>,
        DatabaseError,
    >)
        ensures
            match begun {
                Ok(_) => r matches Ok(tx) && {
                    &&& tx.wf()
                    &&& tx.tables() == self.tables()
                    &&& forall|t: usize| tx.cached(t).is_none()
                    &&& tx.resolutions() == 0
                    &&& !tx.timeout_disabled()
                },
                Err(code) => r matches Err(e) && e == DatabaseError::InitTx(code),
            },
    {
        LibmdbxTx::new_ro_tx(&self.tables, begun)
    }

    /// A write transaction, on the engine's answer to the request to begin
    /// one. A refusal becomes `InitTx`. The transaction has used no table
    /// yet.
    pub fn rw_tx<'a>(&'a self, begun: Result<(), i32>) -> (r: Result<
        LibmdbxTx<'a, RW>,
        DatabaseError,
    >)
        ensures
            match begun {
                Ok(_) => r matches Ok(tx) && {
                    &&& tx.wf()
                    &&& tx.tables() == self.tables()
                    &&& forall|t: usize| tx.cached(t).is_none()
                    &&& tx.resolutions() == 0
                    &&& !tx.timeout_disabled()
                },
                Err(code) => r matches Err(e) && e == DatabaseError::InitTx(code),
            },
    {
        LibmdbxTx::new_rw_tx(&self.tables, begun)
    }

    /// Closes a unit of writing: the transaction ends with the engine's
    /// answer to its commit, and the work's result is handed on where the
    /// commit succeeded. A failed commit becomes `Commit`, and the result is
    /// dropped.
    pub fn write<R>(&self, tx: LibmdbxTx<'_, RW>, res: R, committed: Result<bool, i32>) -> (r: Result<
        R,
        DatabaseError,
    >)
        ensures
            match committed {
                Ok(_) => r == Ok::<R, DatabaseError>(res),
                Err(code) => r == Err::<R, DatabaseError>(DatabaseError::Commit(code)),
            },
    {
        match tx.commit(committed) {
            Ok(_) => Ok(res),
            Err(e) => Err(e),
        }
    }

    /// Closes a unit of reading: the snapshot is released with the engine's
    /// answer, and the work's result is handed on where that succeeded.
    pub fn read<R>(&self, tx: LibmdbxTx<'_, RO>, res: R, committed: Result<bool, i32>) -> (r: Result<
        R,
        DatabaseError,
    >)
        ensures
            match committed {
                Ok(_) => r == Ok::<R, DatabaseError>(res),
                Err(code) => r == Err::<R, DatabaseError>(DatabaseError::Commit(code)),
            },
    {
        match tx.commit(committed) {
            Ok(_) => Ok(res),
            Err(e) => Err(e),
        }
    }
}

} // verus!
