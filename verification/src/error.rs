//! Error kinds of the layer. No engine type appears here: an engine failure
//! is carried as the engine's numeric code.

use vstd::prelude::*;

verus! {

/// Why stored bytes could not be turned back into a value.
#[derive(Clone, Copy, Debug, PartialEq, Eq, Structural)]
pub enum DecodeError {
    /// The bytes end before the value does.
    Truncated,
    /// The bytes are not an encoding of a value.
    Malformed,
    /// The bytes are not a frame of the compressor.
    CompressionCorrupt,
}

/// Why a value could not be made ready for storage. An in-memory value
/// always encodes; only the compressor can refuse.
#[derive(Clone, Copy, Debug, PartialEq, Eq, Structural)]
pub enum EncodeError {
    /// The compressor gave no frame.
    Compression,
}

/// Verbosity levels of the engine's log.
#[derive(Clone, Copy, Debug, PartialEq, Eq, Structural)]
pub enum LogLevel {
    Fatal,
    Error,
    Warn,
    Notice,
    Verbose,
    Debug,
    Trace,
    Extra,
}

/// The kind of write that failed.
#[derive(Clone, Copy, Debug, PartialEq, Eq, Structural)]
pub enum DatabaseWriteOperation {
    CursorAppend,
    CursorUpsert,
    CursorInsert,
    CursorAppendDup,
    Put,
    Delete,
}

/// A failed put or delete, with the table and the encoded key it was aimed
/// at. The value is left out so that the error stays small.
#[derive(Clone, Debug, PartialEq, Eq)]
pub struct DatabaseWriteError {
    /// The engine's error code.
    pub code: i32,
    pub operation: DatabaseWriteOperation,
    pub table_name: String,
    pub key: Vec<u8>,
}

/// Everything that can go wrong between the caller and the engine.
#[derive(Clone, Debug, PartialEq, Eq)]
pub enum DatabaseError {
    /// The environment could not be opened.
    Open(i32),
    /// A table could not be created.
    CreateTable(i32),
    /// A put or a delete was refused.
    Write(DatabaseWriteError),
    /// A lookup failed.
    Read(i32),
    /// A clear failed.
    Delete(i32),
    /// The commit failed.
    Commit(i32),
    /// No transaction could be started.
    InitTx(i32),
    /// No cursor could be opened.
    InitCursor(i32),
    /// Stored bytes could not be decoded.
    Decode(DecodeError),
    /// A value could not be made ready for storage.
    Encode(EncodeError),
    /// The table's statistics could not be read.
    Stats(i32),
    /// The log level needs an engine built for debugging.
    LogLevelUnavailable(LogLevel),
    /// The name or position belongs to no table of the schema.
    UnknownTable,
    /// The table holds one value under each key, and several were asked for.
    NotDupSort,
    /// The table is declared with another key or value type.
    TypeMismatch,
    /// Anything else, in words.
    Other(String),
}

} // verus!
