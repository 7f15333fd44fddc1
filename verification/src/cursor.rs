//! Cursors: ordered traversal of a table, typed at the boundary.

use vstd::prelude::*;
use core::marker::PhantomData;
use crate::error::{DatabaseError, DecodeError};
use crate::tables::{Table, TableType};
use crate::traits::{decompressing, WrapDecode, WrapDecompress, WrapEncode};
use crate::tx::OpenCursor;

verus! {

/// A step that a cursor asks of the engine.
#[derive(Debug, PartialEq, Eq)]
pub enum CursorOp {
    /// To the first entry.
    First,
    /// To the next entry; from before the first entry, to the first.
    Next,
    /// To the first entry whose key is not below this one.
    SetRange { key: Vec<u8> },
    /// To the next value of the current key.
    NextDup,
}

/// A cursor over one table, with the table's key and value types. A new
/// cursor stands before the first entry.
#[derive(Debug, PartialEq, Eq)]
pub struct LibmdbxCursor<Key, V> {
    dbi: u32,
    table_type: TableType,
    key: PhantomData<Key>,
    value: PhantomData<V>,
}

impl<Key: WrapEncode + WrapDecode, V: WrapDecompress> LibmdbxCursor<Key, V> {
    /// The handle of the cursor's table.
    pub closed spec fn dbi(&self) -> u32 {
        self.dbi
    }

    /// The type of the cursor's table.
    pub closed spec fn table_type(&self) -> TableType {
        self.table_type
    }

    /// A cursor over `table`, which is of `table_type`, on the engine's
    /// answer to `request`. A failure becomes `InitCursor`.
    pub fn new(
        table: &Table<Key, V>,
        request: OpenCursor,
        table_type: TableType,
        reply: Result<(), i32>,
    ) -> (r: Result<LibmdbxCursor<Key, V>, DatabaseError>)
        ensures
            match reply {
                Ok(_) => r matches Ok(c) && c.dbi() == request.dbi && c.table_type() == table_type,
                Err(code) => r == Err::<LibmdbxCursor<Key, V>, DatabaseError>(
                    DatabaseError::InitCursor(code),
                ),
            },
    {
        match reply {
            Ok(_) => Ok(
                LibmdbxCursor {
                    dbi: request.dbi,
                    table_type,
                    key: PhantomData,
                    value: PhantomData,
                },
            ),
            Err(code) => Err(DatabaseError::InitCursor(code)),
        }
    }

    /// Reads the engine's answer to a step of this cursor, as a pair of the
    /// table's key and value types. A failure of the engine becomes `Read`;
    /// no entry gives `None`; bytes that hold no pair give `Decode`.
    pub fn pair(&self, reply: Result<Option<(Vec<u8>, Vec<u8>)>, i32>) -> (r: Result<
        Option<(Key, V)>,
        DatabaseError,
    >)
        ensures
            match reply {
                Err(code) => r == Err::<Option<(Key, V)>, DatabaseError>(
                    DatabaseError::Read(code),
                ),
                Ok(None) => r == Ok::<Option<(Key, V)>, DatabaseError>(None),
                Ok(Some((key, value))) => match pair_of::<Key, V>(key@, value@) {
                    Ok((k, v)) => r matches Ok(Some(pair)) && pair.0@ == k && pair.1@ == v,
                    Err(d) => r == Err::<Option<(Key, V)>, DatabaseError>(
                        DatabaseError::Decode(d),
                    ),
                },
            },
    {
        decode_pair::<Key, V>(reply)
    }

    /// The step to the first entry.
    pub fn first(&self) -> (op: CursorOp)
        ensures
            op == CursorOp::First,
    {
        CursorOp::First
    }

    /// The step to the next entry.
    pub fn next(&self) -> (op: CursorOp)
        ensures
            op == CursorOp::Next,
    {
        CursorOp::Next
    }

    /// The step to the first entry at or after `key`.
    pub fn seek(&self, key: Key) -> (op: CursorOp)
        ensures
            op matches CursorOp::SetRange { key: k } && k@ == Key::encoding(key@),
    {
        CursorOp::SetRange { key: key.encode_key_wrapped() }
    }

    /// The step to the next value of the current key. `NotDupSort` exactly
    /// where the table holds one value under each key.
    pub fn next_dup(&self) -> (r: Result<CursorOp, DatabaseError>)
        ensures
            r == if self.table_type() == TableType::DupSort {
                Ok::<CursorOp, DatabaseError>(CursorOp::NextDup)
            } else {
                Err::<CursorOp, DatabaseError>(DatabaseError::NotDupSort)
            },
    {
        match self.table_type {
            TableType::DupSort => Ok(CursorOp::NextDup),
            TableType::Table => Err(DatabaseError::NotDupSort),
        }
    }
}

/// The typed pair that an entry's bytes stand for: the key is decoded, the
/// value decompressed and decoded. The key's error comes first.
pub open spec fn pair_of<Key: WrapDecode, V: WrapDecompress>(key: Seq<u8>, value: Seq<u8>) -> Result<
    (Key::V, V::V),
    DecodeError,
> {
    match Key::decoding(key) {
        Err(d) => Err(d),
        Ok(k) => match decompressing::<V>(value) {
            Err(d) => Err(d),
            Ok(v) => Ok((k, v)),
        },
    }
}

/// Reads the engine's answer to a cursor's step. A failure of the engine
/// becomes `Read`; no entry gives `None`; the bytes of an entry become a
/// typed pair, and bytes that hold none give `Decode`.
pub fn decode_pair<Key: WrapDecode, V: WrapDecompress>(
    reply: Result<Option<(Vec<u8>, Vec<u8>)>, i32>,
) -> (r: Result<Option<(Key, V)>, DatabaseError>)
    ensures
        match reply {
            Err(code) => r == Err::<Option<(Key, V)>, DatabaseError>(DatabaseError::Read(code)),
            Ok(None) => r == Ok::<Option<(Key, V)>, DatabaseError>(None),
            Ok(Some((key, value))) => match pair_of::<Key, V>(key@, value@) {
                Ok((k, v)) => r matches Ok(Some(pair)) && pair.0@ == k && pair.1@ == v,
                Err(d) => r == Err::<Option<(Key, V)>, DatabaseError>(DatabaseError::Decode(d)),
            },
        },
{
    match reply {
        Err(code) => Err(DatabaseError::Read(code)),
        Ok(None) => Ok(None),
        Ok(Some((key, value))) => {
            match Key::decode_wrapped_key(key.as_slice()) {
                Err(e) => Err(e),
                Ok(k) => match V::decompress_wrapped(value.as_slice()) {
                    Err(e) => Err(e),
                    Ok(v) => Ok(Some((k, v))),
                },
            }
        },
    }
}

} // verus!
