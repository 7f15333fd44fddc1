//! Transactions as the layer sees them. A transaction keeps the handles of
//! the tables it has used, says what the engine is to be asked, and reads
//! the engine's answers. The caller performs each request.

use vstd::prelude::*;
use core::marker::PhantomData;
use crate::codecs::{zstd_compressed, COMPRESSION_LEVEL};
use crate::error::{
    DatabaseError,
    DatabaseWriteError,
    DatabaseWriteOperation,
    DecodeError,
    EncodeError,
};
use crate::portable::put_bytes;
use crate::tables::{creation_flags, CreateDb, Table, TableDet, TableSet, TableType};
use crate::traits::{decompressing, WrapCompress, WrapDecompress, WrapEncode};

verus! {

/// The capability of a transaction: to read, or to read and write.
pub trait TransactionKind {
    /// Whether transactions of this kind may write.
    spec fn is_rw() -> bool;

    /// Tells whether transactions of this kind may write.
    fn writes() -> (rw: bool)
        ensures
            rw == Self::is_rw(),
    ;
}

/// Marker of read-only transactions.
#[derive(Debug)]
pub struct RO;

/// Marker of read-write transactions.
#[derive(Debug)]
pub struct RW;

impl TransactionKind for RO {
    open spec fn is_rw() -> bool {
        false
    }

    fn writes() -> (rw: bool) {
        false
    }
}

impl TransactionKind for RW {
    open spec fn is_rw() -> bool {
        true
    }

    fn writes() -> (rw: bool) {
        true
    }
}

/// The number of handles that a cache holds.
pub open spec fn filled(handles: Seq<Option<u32>>) -> nat
    decreases handles.len(),
{
    if handles.len() == 0 {
        0
    } else {
        filled(handles.drop_last()) + if handles.last().is_some() {
            1nat
        } else {
            0nat
        }
    }
}

/// A cache holds no more handles than it has slots.
pub proof fn lemma_filled_bound(handles: Seq<Option<u32>>)
    ensures
        filled(handles) <= handles.len(),
    decreases handles.len(),
{
    if handles.len() > 0 {
        lemma_filled_bound(handles.drop_last());
    }
}

/// Filling an empty slot adds one handle.
pub proof fn lemma_filled_update(handles: Seq<Option<u32>>, at: int, dbi: u32)
    requires
        0 <= at < handles.len(),
        handles[at].is_none(),
    ensures
        filled(handles.update(at, Some(dbi))) == filled(handles) + 1,
    decreases handles.len(),
{
    let after = handles.update(at, Some(dbi));
    if at == handles.len() - 1 {
        assert(after.drop_last() =~= handles.drop_last());
    } else {
        lemma_filled_update(handles.drop_last(), at, dbi);
        assert(after.drop_last() =~= handles.drop_last().update(at, Some(dbi)));
    }
}

/// A cache of empty slots holds no handle.
pub proof fn lemma_filled_none(handles: Seq<Option<u32>>)
    requires
        forall|i: int| 0 <= i < handles.len() ==> (#[trigger] handles[i]).is_none(),
    ensures
        filled(handles) == 0,
    decreases handles.len(),
{
    if handles.len() > 0 {
        lemma_filled_none(handles.drop_last());
    }
}

/// The cache after the engine gave `dbi` for the table at `table`: an empty
/// slot takes the handle, a filled slot keeps its own.
pub open spec fn after_resolve(handles: Seq<Option<u32>>, table: int, dbi: u32) -> Seq<
    Option<u32>,
> {
    if 0 <= table < handles.len() && handles[table].is_none() {
        handles.update(table, Some(dbi))
    } else {
        handles
    }
}

/// A table's handle is taken from the engine once. After the first answer
/// the slot holds the handle that the engine gave, so a lookup is served
/// from the cache with the handle that asking again would give; a second
/// answer changes nothing and counts for nothing; and no other slot is
/// touched.
pub proof fn lemma_handle_resolved_once(
    handles: Seq<Option<u32>>,
    table: int,
    first: u32,
    second: u32,
)
    requires
        0 <= table < handles.len(),
        handles[table].is_none(),
    ensures
        after_resolve(handles, table, first)[table] == Some(first),
        filled(after_resolve(handles, table, first)) == filled(handles) + 1,
        after_resolve(after_resolve(handles, table, first), table, second) == after_resolve(
            handles,
            table,
            first,
        ),
        forall|other: int|
            0 <= other < handles.len() && other != table ==> after_resolve(
                handles,
                table,
                first,
            )[other] == handles[other],
        filled(after_resolve(handles, table, first)) <= handles.len(),
{
    lemma_filled_update(handles, table, first);
    lemma_filled_bound(after_resolve(handles, table, first));
}

/// A transaction over the tables of a registry. It owns the cache of table
/// handles: one slot for each table, at the table's position, filled when
/// the table is first used. Handles are not shared between transactions.
pub struct LibmdbxTx<'a, K: TransactionKind> {
    tables: &'a TableSet,
    handles: Vec<Option<u32>>,
    timeout_disabled: bool,
    kind: PhantomData<K>,
}

/// A request to the engine: open the table of this name.
#[derive(Debug, PartialEq, Eq)]
pub struct OpenDb {
    pub name: String,
}

/// What a transaction asks next.
#[derive(Debug, PartialEq, Eq)]
pub enum Ask<R> {
    /// The table has not been used in this transaction: the engine is to
    /// open it, and the answer goes to `resolve_dbi`.
    Open(OpenDb),
    /// The table's handle is cached: this is what the engine is to do.
    Engine(R),
}

/// How the engine treats a key that is already there.
#[derive(Clone, Copy, Debug, PartialEq, Eq, Structural)]
pub struct WriteFlags {
    pub no_overwrite: bool,
    pub no_dup_data: bool,
    pub current: bool,
    pub append: bool,
    pub append_dup: bool,
}

/// The flags of an upsert: the value is written whether or not the key is
/// there.
pub open spec fn upsert_flags() -> WriteFlags {
    WriteFlags {
        no_overwrite: false,
        no_dup_data: false,
        current: false,
        append: false,
        append_dup: false,
    }
}

/// A request to the engine: look a key up.
#[derive(Debug, PartialEq, Eq)]
pub struct Get {
    pub dbi: u32,
    pub key: Vec<u8>,
}

/// A request to the engine: write a value under a key.
#[derive(Debug, PartialEq, Eq)]
pub struct Put {
    pub dbi: u32,
    pub key: Vec<u8>,
    pub value: Vec<u8>,
    pub flags: WriteFlags,
}

/// A request to the engine: delete a key, or one value of a key.
#[derive(Debug, PartialEq, Eq)]
pub struct Del {
    pub dbi: u32,
    pub key: Vec<u8>,
    /// Where given, only the entry with this value leaves.
    pub value: Option<Vec<u8>>,
}

/// A request to the engine: remove every entry of a table.
#[derive(Clone, Copy, Debug, PartialEq, Eq, Structural)]
pub struct ClearDb {
    pub dbi: u32,
}

/// A request to the engine: the statistics of a table.
#[derive(Clone, Copy, Debug, PartialEq, Eq, Structural)]
pub struct DbStat {
    pub dbi: u32,
}

/// A request to the engine: a cursor over a table.
#[derive(Clone, Copy, Debug, PartialEq, Eq, Structural)]
pub struct OpenCursor {
    pub dbi: u32,
}

/// Reads a stored value: the frame is decompressed and decoded.
pub fn decode_one<V: WrapDecompress>(bytes: &[u8]) -> (r: Result<V, DatabaseError>)
    ensures
        match r {
            Ok(v) => decompressing::<V>(bytes@) == Ok::<V::V, DecodeError>(v@),
            Err(e) => exists|d: DecodeError|
                e == DatabaseError::Decode(d) && decompressing::<V>(bytes@) == Err::<
                    V::V,
                    DecodeError,
                >(d),
        },
{
    V::decompress_wrapped(bytes)
}

impl<'a, K: TransactionKind> LibmdbxTx<'a, K> {
    /// The registry whose tables the transaction works on.
    pub closed spec fn tables(&self) -> TableSet {
        *self.tables
    }

    /// The cache: the handle of each table, by the table's position.
    pub closed spec fn handles(&self) -> Seq<Option<u32>> {
        self.handles@
    }

    /// How many handles the transaction has taken from the engine: each
    /// fills one slot of the cache.
    pub open spec fn resolutions(&self) -> nat {
        filled(self.handles())
    }

    /// Whether the limit on the transaction's life has been lifted.
    pub closed spec fn timeout_disabled(&self) -> bool {
        self.timeout_disabled
    }

    /// What holds of every transaction: the cache has one slot for each
    /// table of a registry.
    pub open spec fn wf(&self) -> bool {
        &&& self.tables().wf()
        &&& self.handles().len() == self.tables()@.len()
    }

    #[verifier::type_invariant]
    closed spec fn inv(&self) -> bool {
        &&& self.tables.wf()
        &&& self.handles@.len() == self.tables@.len()
    }

    /// Whether the registry has a table at `table`.
    pub open spec fn known(&self, table: usize) -> bool {
        table < self.tables()@.len()
    }

    /// The cached handle of the table at `table`.
    pub open spec fn cached(&self, table: usize) -> Option<u32> {
        if table < self.handles().len() {
            self.handles()[table as int]
        } else {
            None
        }
    }

    /// Whether `r` sends the caller to the engine to open the table at
    /// `table`, by the table's name.
    pub open spec fn opens<R>(&self, table: usize, r: Result<Ask<R>, DatabaseError>) -> bool {
        r matches Ok(Ask::Open(open)) && open.name@ == self.tables()@[table as int].name@
    }

    /// Whether the transaction may write.
    pub fn is_rw(&self) -> (rw: bool)
        ensures
            rw == K::is_rw(),
    {
        K::writes()
    }

    /// A transaction that has used no table yet.
    fn fresh(tables: &'a TableSet) -> (tx: Self)
        ensures
            tx.wf(),
            tx.tables() == *tables,
            forall|t: usize| tx.cached(t).is_none(),
            tx.resolutions() == 0,
            !tx.timeout_disabled(),
    {
        let n: usize = tables.num_tables();
        let mut handles: Vec<Option<u32>> = Vec::new();
        let mut i: usize = 0;
        while i < n
            invariant
                i <= n,
                handles@.len() == i,
                forall|k: int| 0 <= k < i ==> (#[trigger] handles@[k]).is_none(),
            decreases n - i,
        {
            handles.push(None);
            i += 1;
        }
        proof {
            lemma_filled_none(handles@);
        }
        LibmdbxTx { tables, handles, timeout_disabled: false, kind: PhantomData }
    }

    /// Starts a transaction on the engine's answer to the request to begin
    /// one: a refusal becomes `InitTx`.
    fn begin(tables: &'a TableSet, begun: Result<(), i32>) -> (r: Result<Self, DatabaseError>)
        ensures
            match begun {
                Ok(_) => r matches Ok(tx) && {
                    &&& tx.wf()
                    &&& tx.tables() == *tables
                    &&& forall|t: usize| tx.cached(t).is_none()
                    &&& tx.resolutions() == 0
                    &&& !tx.timeout_disabled()
                },
                Err(code) => r matches Err(e) && e == DatabaseError::InitTx(code),
            },
    {
        match begun {
            Ok(_) => Ok(Self::fresh(tables)),
            Err(code) => Err(DatabaseError::InitTx(code)),
        }
    }

    /// The handle of the table at `table`: from the cache once the table
    /// has been used, else the engine is to open the table by its name.
    /// `UnknownTable` exactly where the registry has no such position.
    pub fn get_dbi(&self, table: usize) -> (r: Result<Ask<u32>, DatabaseError>)
        ensures
            self.wf(),
            !self.known(table) ==> r == Err::<Ask<u32>, DatabaseError>(DatabaseError::UnknownTable),
            self.known(table) ==> match self.cached(table) {
                Some(dbi) => r == Ok::<Ask<u32>, DatabaseError>(Ask::Engine(dbi)),
                None => self.opens(table, r),
            },
    {
        proof {
            use_type_invariant(self);
        }
        if table >= self.handles.len() {
            return Err(DatabaseError::UnknownTable);
        }
        match self.handles[table] {
            Some(dbi) => Ok(Ask::Engine(dbi)),
            None => Ok(Ask::Open(OpenDb { name: self.tables.name(table).clone() })),
        }
    }

    /// Takes the engine's answer to a request to open the table at `table`.
    ///
    /// A refusal becomes `Open` and leaves the cache as it was. A handle
    /// fills the table's slot, and counts as one resolution, where the slot
    /// was empty; a slot that is filled keeps its handle. The other slots
    /// stay as they were.
    pub fn resolve_dbi(&mut self, table: usize, reply: Result<u32, i32>) -> (r: Result<
        u32,
        DatabaseError,
    >)
        ensures
            final(self).wf(),
            final(self).tables() == old(self).tables(),
            final(self).timeout_disabled() == old(self).timeout_disabled(),
            match reply {
                Err(code) => {
                    &&& r == Err::<u32, DatabaseError>(DatabaseError::Open(code))
                    &&& final(self).handles() == old(self).handles()
                },
                Ok(dbi) => {
                    &&& final(self).handles() == after_resolve(
                        old(self).handles(),
                        table as int,
                        dbi,
                    )
                    &&& r == if !old(self).known(table) {
                        Err::<u32, DatabaseError>(DatabaseError::UnknownTable)
                    } else {
                        match old(self).cached(table) {
                            Some(kept) => Ok::<u32, DatabaseError>(kept),
                            None => Ok::<u32, DatabaseError>(dbi),
                        }
                    }
                    &&& old(self).known(table) ==> final(self).cached(table) == r.ok()
                    &&& final(self).resolutions() == old(self).resolutions() + if old(
                        self,
                    ).known(table) && old(self).cached(table).is_none() {
                        1nat
                    } else {
                        0nat
                    }
                },
            },
    {
        proof {
            use_type_invariant(&*self);
        }
        match reply {
            Err(code) => Err(DatabaseError::Open(code)),
            Ok(dbi) => {
                if table >= self.handles.len() {
                    return Err(DatabaseError::UnknownTable);
                }
                match self.handles[table] {
                    Some(kept) => Ok(kept),
                    None => {
                        proof {
                            lemma_filled_update(self.handles@, table as int, dbi);
                        }
                        self.handles[table] = Some(dbi);
                        Ok(dbi)
                    },
                }
            },
        }
    }

    /// The lookup of a key in `table`, whose keys are of the key's type.
    pub fn get<Key: WrapEncode, V>(&self, table: &Table<Key, V>, key: &Key) -> (r: Result<
        Ask<Get>,
        DatabaseError,
    >)
        ensures
            !self.known(table.position()) ==> r == Err::<Ask<Get>, DatabaseError>(DatabaseError::UnknownTable),
            self.known(table.position()) ==> match self.cached(table.position()) {
                Some(dbi) => r matches Ok(Ask::Engine(request)) && request.dbi == dbi
                    && request.key@ == Key::encoding(key@),
                None => self.opens(table.position(), r),
            },
    {
        match self.get_dbi(table.at()) {
            Err(e) => Err(e),
            Ok(Ask::Open(open)) => Ok(Ask::Open(open)),
            Ok(Ask::Engine(dbi)) => {
                let mut encoded: Vec<u8> = Vec::new();
                key.encode_wrapped(&mut encoded);
                assert(encoded@ =~= Key::encoding(key@));
                Ok(Ask::Engine(Get { dbi, key: encoded }))
            },
        }
    }

    /// The lookup of a key that is encoded already.
    pub fn get_by_encoded_key(&self, table: usize, key: &[u8]) -> (r: Result<
        Ask<Get>,
        DatabaseError,
    >)
        ensures
            !self.known(table) ==> r == Err::<Ask<Get>, DatabaseError>(DatabaseError::UnknownTable),
            self.known(table) ==> match self.cached(table) {
                Some(dbi) => r matches Ok(Ask::Engine(request)) && request.dbi == dbi
                    && request.key@ == key@,
                None => self.opens(table, r),
            },
    {
        match self.get_dbi(table) {
            Err(e) => Err(e),
            Ok(Ask::Open(open)) => Ok(Ask::Open(open)),
            Ok(Ask::Engine(dbi)) => {
                let mut copy: Vec<u8> = Vec::new();
                put_bytes(key, 0, key.len(), &mut copy);
                assert(key@.subrange(0, key@.len() as int) =~= key@);
                Ok(Ask::Engine(Get { dbi, key: copy }))
            },
        }
    }

    /// Reads the engine's answer to a lookup in `table`, as a value of the
    /// table's value type. A failure of the engine becomes `Read`; no entry
    /// gives `None`; the bytes of an entry are decompressed and decoded, and
    /// bytes that hold no value give `Decode`, never `None`.
    pub fn get_result<Key, V: WrapDecompress>(
        &self,
        table: &Table<Key, V>,
        reply: Result<Option<Vec<u8>>, i32>,
    ) -> (r: Result<Option<V>, DatabaseError>)
        ensures
            match reply {
                Err(code) => r == Err::<Option<V>, DatabaseError>(DatabaseError::Read(code)),
                Ok(None) => r == Ok::<Option<V>, DatabaseError>(None),
                Ok(Some(bytes)) => match decompressing::<V>(bytes@) {
                    Ok(v) => r matches Ok(Some(found)) && found@ == v,
                    Err(d) => r == Err::<Option<V>, DatabaseError>(DatabaseError::Decode(d)),
                },
            },
    {
        match reply {
            Err(code) => Err(DatabaseError::Read(code)),
            Ok(None) => Ok(None),
            Ok(Some(bytes)) => match decode_one::<V>(bytes.as_slice()) {
                Ok(v) => Ok(Some(v)),
                Err(e) => Err(e),
            },
        }
    }

    /// Ends the transaction on the engine's answer to the commit: whether
    /// anything was written. A failure becomes `Commit`.
    pub fn commit(self, reply: Result<bool, i32>) -> (r: Result<bool, DatabaseError>)
        ensures
            match reply {
                Ok(wrote) => r == Ok::<bool, DatabaseError>(wrote),
                Err(code) => r == Err::<bool, DatabaseError>(DatabaseError::Commit(code)),
            },
    {
        match reply {
            Ok(wrote) => Ok(wrote),
            Err(code) => Err(DatabaseError::Commit(code)),
        }
    }

    /// Ends the transaction: what it wrote is dropped.
    pub fn abort(self) {
    }

    /// The request for a cursor over the table at `table`.
    pub fn new_cursor(&self, table: usize) -> (r: Result<Ask<OpenCursor>, DatabaseError>)
        ensures
            !self.known(table) ==> r == Err::<Ask<OpenCursor>, DatabaseError>(
                DatabaseError::UnknownTable,
            ),
            self.known(table) ==> match self.cached(table) {
                Some(dbi) => r == Ok::<Ask<OpenCursor>, DatabaseError>(
                    Ask::Engine(OpenCursor { dbi }),
                ),
                None => self.opens(table, r),
            },
    {
        match self.get_dbi(table) {
            Err(e) => Err(e),
            Ok(Ask::Open(open)) => Ok(Ask::Open(open)),
            Ok(Ask::Engine(dbi)) => Ok(Ask::Engine(OpenCursor { dbi })),
        }
    }

    /// The request for a cursor that reads the table at `table`.
    pub fn cursor_read(&self, table: usize) -> (r: Result<Ask<OpenCursor>, DatabaseError>)
        ensures
            !self.known(table) ==> r == Err::<Ask<OpenCursor>, DatabaseError>(
                DatabaseError::UnknownTable,
            ),
            self.known(table) ==> match self.cached(table) {
                Some(dbi) => r == Ok::<Ask<OpenCursor>, DatabaseError>(
                    Ask::Engine(OpenCursor { dbi }),
                ),
                None => self.opens(table, r),
            },
    {
        self.new_cursor(table)
    }

    /// The request for a cursor that reads the duplicates of the table at
    /// `table`. `UnknownTable` where the registry has no such position,
    /// `NotDupSort` where the table holds one value under each key.
    pub fn cursor_dup_read(&self, table: usize) -> (r: Result<Ask<OpenCursor>, DatabaseError>)
        ensures
            !self.known(table) ==> r == Err::<Ask<OpenCursor>, DatabaseError>(
                DatabaseError::UnknownTable,
            ),
            self.known(table) && self.tables()@[table as int].table_type != TableType::DupSort
                ==> r == Err::<Ask<OpenCursor>, DatabaseError>(DatabaseError::NotDupSort),
            self.known(table) && self.tables()@[table as int].table_type == TableType::DupSort
                ==> match self.cached(table) {
                Some(dbi) => r == Ok::<Ask<OpenCursor>, DatabaseError>(
                    Ask::Engine(OpenCursor { dbi }),
                ),
                None => self.opens(table, r),
            },
    {
        proof {
            use_type_invariant(self);
        }
        if table >= self.tables.num_tables() {
            Err(DatabaseError::UnknownTable)
        } else {
            match self.tables.table_type(table) {
                TableType::DupSort => self.new_cursor(table),
                TableType::Table => Err(DatabaseError::NotDupSort),
            }
        }
    }

    /// The request for the number of entries of the table at `table`: the
    /// engine's statistics, not a scan.
    pub fn entries(&self, table: usize) -> (r: Result<Ask<DbStat>, DatabaseError>)
        ensures
            !self.known(table) ==> r == Err::<Ask<DbStat>, DatabaseError>(
                DatabaseError::UnknownTable,
            ),
            self.known(table) ==> match self.cached(table) {
                Some(dbi) => r == Ok::<Ask<DbStat>, DatabaseError>(Ask::Engine(DbStat { dbi })),
                None => self.opens(table, r),
            },
    {
        match self.get_dbi(table) {
            Err(e) => Err(e),
            Ok(Ask::Open(open)) => Ok(Ask::Open(open)),
            Ok(Ask::Engine(dbi)) => Ok(Ask::Engine(DbStat { dbi })),
        }
    }

    /// Reads the engine's answer to a request for statistics: the number of
    /// entries. A failure becomes `Stats`.
    pub fn entries_result(&self, reply: Result<usize, i32>) -> (r: Result<usize, DatabaseError>)
        ensures
            match reply {
                Ok(n) => r == Ok::<usize, DatabaseError>(n),
                Err(code) => r == Err::<usize, DatabaseError>(DatabaseError::Stats(code)),
            },
    {
        match reply {
            Ok(n) => Ok(n),
            Err(code) => Err(DatabaseError::Stats(code)),
        }
    }
}

impl<'a> LibmdbxTx<'a, RO> {
    /// A read transaction over `tables`, on the engine's answer to the
    /// request to begin one. A refusal becomes `InitTx`.
    pub fn new_ro_tx(tables: &'a TableSet, begun: Result<(), i32>) -> (r: Result<
        LibmdbxTx<'a, RO>,
        DatabaseError,
    >)
        ensures
            match begun {
                Ok(_) => r matches Ok(tx) && {
                    &&& tx.wf()
                    &&& tx.tables() == *tables
                    &&& forall|t: usize| tx.cached(t).is_none()
                    &&& tx.resolutions() == 0
                    &&& !tx.timeout_disabled()
                },
                Err(code) => r matches Err(e) && e == DatabaseError::InitTx(code),
            },
    {
        Self::begin(tables, begun)
    }

    /// Lifts the limit on the transaction's life, for a long scan. While the
    /// transaction is open the engine cannot reclaim the pages it reads.
    pub fn disable_long_read_transaction_safety(&mut self)
        ensures
            final(self).timeout_disabled(),
            final(self).tables() == old(self).tables(),
            final(self).handles() == old(self).handles(),
    {
        proof {
            use_type_invariant(&*self);
        }
        self.timeout_disabled = true;
    }
}

impl<'a> LibmdbxTx<'a, RW> {
    /// A write transaction over `tables`, on the engine's answer to the
    /// request to begin one. A refusal becomes `InitTx`.
    pub fn new_rw_tx(tables: &'a TableSet, begun: Result<(), i32>) -> (r: Result<
        LibmdbxTx<'a, RW>,
        DatabaseError,
    >)
        ensures
            match begun {
                Ok(_) => r matches Ok(tx) && {
                    &&& tx.wf()
                    &&& tx.tables() == *tables
                    &&& forall|t: usize| tx.cached(t).is_none()
                    &&& tx.resolutions() == 0
                    &&& !tx.timeout_disabled()
                },
                Err(code) => r matches Err(e) && e == DatabaseError::InitTx(code),
            },
    {
        Self::begin(tables, begun)
    }

    /// The request that makes sure that `table` exists, with the flags of
    /// its type.
    pub fn create_table(&self, table: &TableDet) -> (request: CreateDb)
        ensures
            request.name@ == table.name@,
            request.flags == creation_flags(table.table_type),
    {
        CreateDb { name: table.name.clone(), flags: table.flags() }
    }

    /// Reads the engine's answer to a request to create a table. A failure
    /// becomes `CreateTable`.
    pub fn create_table_result(&self, reply: Result<(), i32>) -> (r: Result<(), DatabaseError>)
        ensures
            match reply {
                Ok(_) => r.is_ok(),
                Err(code) => r == Err::<(), DatabaseError>(DatabaseError::CreateTable(code)),
            },
    {
        match reply {
            Ok(_) => Ok(()),
            Err(code) => Err(DatabaseError::CreateTable(code)),
        }
    }

    /// The upsert of `value` under `key` in `table`: the key
    /// is encoded, the value encoded and compressed. The stored bytes read
    /// back as `value`. Where the compressor gives no frame, `Encode`.
    pub fn put<Key: WrapEncode, V: WrapCompress>(
        &self,
        table: &Table<Key, V>,
        key: &Key,
        value: &V,
    ) -> (r: Result<Ask<Put>, DatabaseError>)
        ensures
            !self.known(table.position()) ==> r == Err::<Ask<Put>, DatabaseError>(DatabaseError::UnknownTable),
            self.known(table.position()) ==> match self.cached(table.position()) {
                None => self.opens(table.position(), r),
                Some(dbi) => match r {
                    Ok(Ask::Engine(request)) => {
                        &&& request.dbi == dbi
                        &&& request.key@ == Key::encoding(key@)
                        &&& request.value@ == zstd_compressed(
                            V::encoding(value@),
                            COMPRESSION_LEVEL,
                        )
                        &&& decompressing::<V>(request.value@) == Ok::<V::V, DecodeError>(value@)
                        &&& request.flags == upsert_flags()
                    },
                    Ok(Ask::Open(_)) => false,
                    Err(e) => e == DatabaseError::Encode(EncodeError::Compression),
                },
            },
    {
        match self.get_dbi(table.at()) {
            Err(e) => Err(e),
            Ok(Ask::Open(open)) => Ok(Ask::Open(open)),
            Ok(Ask::Engine(dbi)) => {
                let mut encoded: Vec<u8> = Vec::new();
                key.encode_wrapped(&mut encoded);
                assert(encoded@ =~= Key::encoding(key@));
                let mut frame: Vec<u8> = Vec::new();
                match value.compress_to_buf_wrapped(&mut frame) {
                    Ok(_) => {
                        assert(frame@ =~= zstd_compressed(V::encoding(value@), COMPRESSION_LEVEL));
                        Ok(
                            Ask::Engine(
                                Put {
                                    dbi,
                                    key: encoded,
                                    value: frame,
                                    flags: WriteFlags {
                                        no_overwrite: false,
                                        no_dup_data: false,
                                        current: false,
                                        append: false,
                                        append_dup: false,
                                    },
                                },
                            ),
                        )
                    },
                    Err(e) => Err(DatabaseError::Encode(e)),
                }
            },
        }
    }

    /// Reads the engine's answer to a put into the table at `table`. A
    /// failure becomes `Write`, with the operation, the table's name and the
    /// encoded key; the value is left out. `UnknownTable` where the put
    /// failed and the registry has no such position.
    pub fn put_result(&self, table: usize, key: Vec<u8>, reply: Result<(), i32>) -> (r: Result<
        (),
        DatabaseError,
    >)
        ensures
            match reply {
                Ok(_) => r.is_ok(),
                Err(code) => if self.known(table) {
                    r matches Err(DatabaseError::Write(w)) && {
                        &&& w.code == code
                        &&& w.operation == DatabaseWriteOperation::Put
                        &&& w.table_name@ == self.tables()@[table as int].name@
                        &&& w.key@ == key@
                    }
                } else {
                    r == Err::<(), DatabaseError>(DatabaseError::UnknownTable)
                },
            },
    {
        proof {
            use_type_invariant(self);
        }
        match reply {
            Ok(_) => Ok(()),
            Err(code) => {
                if table < self.tables.num_tables() {
                    Err(
                        DatabaseError::Write(
                            DatabaseWriteError {
                                code,
                                operation: DatabaseWriteOperation::Put,
                                table_name: self.tables.name(table).clone(),
                                key,
                            },
                        ),
                    )
                } else {
                    Err(DatabaseError::UnknownTable)
                }
            },
        }
    }

    /// The deletion of `key` from `table`. With a value, only
    /// the entry that holds exactly this value leaves; without, the key
    /// leaves whatever it holds. Where the compressor gives no frame for the
    /// value, `Encode`.
    pub fn delete<Key: WrapEncode, V: WrapCompress>(
        &self,
        table: &Table<Key, V>,
        key: &Key,
        value: Option<&V>,
    ) -> (r: Result<Ask<Del>, DatabaseError>)
        ensures
            !self.known(table.position()) ==> r == Err::<Ask<Del>, DatabaseError>(DatabaseError::UnknownTable),
            self.known(table.position()) ==> match self.cached(table.position()) {
                None => self.opens(table.position(), r),
                Some(dbi) => match r {
                    Ok(Ask::Engine(request)) => {
                        &&& request.dbi == dbi
                        &&& request.key@ == Key::encoding(key@)
                        &&& match value {
                            Some(v) => request.value matches Some(frame) && frame@
                                == zstd_compressed(V::encoding(v@), COMPRESSION_LEVEL),
                            None => request.value.is_none(),
                        }
                    },
                    Ok(Ask::Open(_)) => false,
                    Err(e) => value.is_some() && e == DatabaseError::Encode(
                        EncodeError::Compression,
                    ),
                },
            },
    {
        match self.get_dbi(table.at()) {
            Err(e) => Err(e),
            Ok(Ask::Open(open)) => Ok(Ask::Open(open)),
            Ok(Ask::Engine(dbi)) => {
                let mut encoded: Vec<u8> = Vec::new();
                key.encode_wrapped(&mut encoded);
                assert(encoded@ =~= Key::encoding(key@));
                match value {
                    None => Ok(Ask::Engine(Del { dbi, key: encoded, value: None })),
                    Some(v) => {
                        let mut frame: Vec<u8> = Vec::new();
                        match v.compress_to_buf_wrapped(&mut frame) {
                            Ok(_) => {
                                assert(frame@ =~= zstd_compressed(
                                    V::encoding(v@),
                                    COMPRESSION_LEVEL,
                                ));
                                Ok(Ask::Engine(Del { dbi, key: encoded, value: Some(frame) }))
                            },
                            Err(e) => Err(DatabaseError::Encode(e)),
                        }
                    },
                }
            },
        }
    }

    /// Reads the engine's answer to a deletion from the table at `table`:
    /// whether an entry left. A failure becomes `Write`, with the operation,
    /// the table's name and the encoded key; no value is carried.
    /// `UnknownTable` where the deletion failed and the registry has no such
    /// position.
    pub fn delete_result(&self, table: usize, key: Vec<u8>, reply: Result<bool, i32>) -> (r: Result<
        bool,
        DatabaseError,
    >)
        ensures
            match reply {
                Ok(deleted) => r == Ok::<bool, DatabaseError>(deleted),
                Err(code) => if self.known(table) {
                    r matches Err(DatabaseError::Write(w)) && {
                        &&& w.code == code
                        &&& w.operation == DatabaseWriteOperation::Delete
                        &&& w.table_name@ == self.tables()@[table as int].name@
                        &&& w.key@ == key@
                    }
                } else {
                    r == Err::<bool, DatabaseError>(DatabaseError::UnknownTable)
                },
            },
    {
        proof {
            use_type_invariant(self);
        }
        match reply {
            Ok(deleted) => Ok(deleted),
            Err(code) => {
                if table < self.tables.num_tables() {
                    Err(
                        DatabaseError::Write(
                            DatabaseWriteError {
                                code,
                                operation: DatabaseWriteOperation::Delete,
                                table_name: self.tables.name(table).clone(),
                                key,
                            },
                        ),
                    )
                } else {
                    Err(DatabaseError::UnknownTable)
                }
            },
        }
    }

    /// The request that removes every entry of the table at `table`.
    pub fn clear(&self, table: usize) -> (r: Result<Ask<ClearDb>, DatabaseError>)
        ensures
            !self.known(table) ==> r == Err::<Ask<ClearDb>, DatabaseError>(
                DatabaseError::UnknownTable,
            ),
            self.known(table) ==> match self.cached(table) {
                Some(dbi) => r == Ok::<Ask<ClearDb>, DatabaseError>(Ask::Engine(ClearDb { dbi })),
                None => self.opens(table, r),
            },
    {
        match self.get_dbi(table) {
            Err(e) => Err(e),
            Ok(Ask::Open(open)) => Ok(Ask::Open(open)),
            Ok(Ask::Engine(dbi)) => Ok(Ask::Engine(ClearDb { dbi })),
        }
    }

    /// Reads the engine's answer to a clear. A failure becomes `Delete`.
    pub fn clear_result(&self, reply: Result<(), i32>) -> (r: Result<(), DatabaseError>)
        ensures
            match reply {
                Ok(_) => r.is_ok(),
                Err(code) => r == Err::<(), DatabaseError>(DatabaseError::Delete(code)),
            },
    {
        match reply {
            Ok(_) => Ok(()),
            Err(code) => Err(DatabaseError::Delete(code)),
        }
    }

    /// The request for a cursor that writes the table at `table`.
    pub fn cursor_write(&self, table: usize) -> (r: Result<Ask<OpenCursor>, DatabaseError>)
        ensures
            !self.known(table) ==> r == Err::<Ask<OpenCursor>, DatabaseError>(
                DatabaseError::UnknownTable,
            ),
            self.known(table) ==> match self.cached(table) {
                Some(dbi) => r == Ok::<Ask<OpenCursor>, DatabaseError>(
                    Ask::Engine(OpenCursor { dbi }),
                ),
                None => self.opens(table, r),
            },
    {
        self.new_cursor(table)
    }

    /// The request for a cursor that writes the duplicates of the table at
    /// `table`. Fails as `cursor_dup_read` does.
    pub fn cursor_dup_write(&self, table: usize) -> (r: Result<Ask<OpenCursor>, DatabaseError>)
        ensures
            !self.known(table) ==> r == Err::<Ask<OpenCursor>, DatabaseError>(
                DatabaseError::UnknownTable,
            ),
            self.known(table) && self.tables()@[table as int].table_type != TableType::DupSort
                ==> r == Err::<Ask<OpenCursor>, DatabaseError>(DatabaseError::NotDupSort),
            self.known(table) && self.tables()@[table as int].table_type == TableType::DupSort
                ==> match self.cached(table) {
                Some(dbi) => r == Ok::<Ask<OpenCursor>, DatabaseError>(
                    Ask::Engine(OpenCursor { dbi }),
                ),
                None => self.opens(table, r),
            },
    {
        self.cursor_dup_read(table)
    }
}

} // verus!
