use libmdbx_bindings::cursor::{decode_pair, CursorOp, LibmdbxCursor};
use libmdbx_bindings::error::{
    DatabaseError, DatabaseWriteError, DatabaseWriteOperation, DecodeError,
};
use libmdbx_bindings::portable::Value;
use libmdbx_bindings::tables::{DatabaseFlags, Table, TableDet, TableSet, TableType};
use libmdbx_bindings::traits::{WrapCompress, WrapEncode};
use libmdbx_bindings::tx::{
    Ask, ClearDb, DbStat, Del, Get, LibmdbxTx, OpenCursor, OpenDb, Put, WriteFlags,
};

fn schema() -> TableSet {
    TableSet::new(vec![
        TableDet::new::<u8, Value>("Headers", TableType::Table),
        TableDet::new::<u8, Value>("Logs", TableType::DupSort),
    ])
    .unwrap()
}

fn headers(set: &TableSet) -> Table<u8, Value> {
    set.bind("Headers").unwrap()
}

fn logs(set: &TableSet) -> Table<u8, Value> {
    set.bind("Logs").unwrap()
}

/// A handle of the third table of a larger registry.
fn stray() -> Table<u8, Value> {
    TableSet::new(vec![
        TableDet::new::<u8, Value>("Headers", TableType::Table),
        TableDet::new::<u8, Value>("Logs", TableType::DupSort),
        TableDet::new::<u8, Value>("State", TableType::Table),
    ])
    .unwrap()
    .bind("State")
    .unwrap()
}

fn open<R>(name: &str) -> Result<Ask<R>, DatabaseError> {
    Ok(Ask::Open(OpenDb { name: name.to_string() }))
}

fn stored(v: &Value) -> Vec<u8> {
    let mut out = Vec::new();
    v.compress_to_buf_wrapped(&mut out).unwrap();
    out
}

const UPSERT: WriteFlags = WriteFlags {
    no_overwrite: false,
    no_dup_data: false,
    current: false,
    append: false,
    append_dup: false,
};

#[test]
fn a_transaction_that_did_not_begin() {
    let set = schema();
    assert!(matches!(LibmdbxTx::new_ro_tx(&set, Err(-30790)), Err(DatabaseError::InitTx(-30790))));
    assert!(matches!(LibmdbxTx::new_rw_tx(&set, Err(11)), Err(DatabaseError::InitTx(11))));
}

#[test]
fn a_handle_is_taken_from_the_engine_once() {
    let set = schema();
    let mut tx = LibmdbxTx::new_rw_tx(&set, Ok(())).unwrap();
    // nothing is cached at the start
    assert_eq!(tx.get_dbi(0), open("Headers"));
    assert_eq!(tx.get_dbi(1), open("Logs"));
    // the engine answers; from then on the cache does
    assert_eq!(tx.resolve_dbi(1, Ok(5)), Ok(5));
    for _ in 0..3 {
        assert_eq!(tx.get_dbi(1), Ok(Ask::Engine(5)));
    }
    // the other table is still unresolved
    assert_eq!(tx.get_dbi(0), open("Headers"));
    // a second answer for the same table changes nothing
    assert_eq!(tx.resolve_dbi(1, Ok(9)), Ok(5));
    assert_eq!(tx.get_dbi(1), Ok(Ask::Engine(5)));
    assert_eq!(tx.resolve_dbi(0, Ok(2)), Ok(2));
    assert_eq!(tx.get_dbi(0), Ok(Ask::Engine(2)));
    assert_eq!(tx.get_dbi(1), Ok(Ask::Engine(5)));
}

#[test]
fn handles_are_not_shared_between_transactions() {
    let set = schema();
    let mut first = LibmdbxTx::new_rw_tx(&set, Ok(())).unwrap();
    assert_eq!(first.resolve_dbi(0, Ok(2)), Ok(2));
    let second = LibmdbxTx::new_ro_tx(&set, Ok(())).unwrap();
    assert_eq!(second.get_dbi(0), open("Headers"));
    assert_eq!(first.get_dbi(0), Ok(Ask::Engine(2)));
}

#[test]
fn a_handle_that_the_engine_refused() {
    let set = schema();
    let mut tx = LibmdbxTx::new_ro_tx(&set, Ok(())).unwrap();
    assert_eq!(tx.resolve_dbi(0, Err(-30798)), Err(DatabaseError::Open(-30798)));
    assert_eq!(tx.get_dbi(0), open("Headers"));
}

#[test]
fn a_position_outside_the_registry() {
    let set = schema();
    let mut tx = LibmdbxTx::new_rw_tx(&set, Ok(())).unwrap();
    let unknown = DatabaseError::UnknownTable;
    assert_eq!(tx.get_dbi(2), Err(DatabaseError::UnknownTable));
    assert_eq!(tx.get_dbi(usize::MAX), Err(DatabaseError::UnknownTable));
    assert_eq!(tx.resolve_dbi(2, Ok(1)), Err(DatabaseError::UnknownTable));
    assert_eq!(tx.resolve_dbi(2, Err(3)), Err(DatabaseError::Open(3)));
    assert_eq!(tx.get(&stray(), &1u8), Err(unknown.clone()));
    assert_eq!(tx.get_by_encoded_key(2, &[1]), Err(unknown.clone()));
    assert_eq!(tx.put(&stray(), &1u8, &Value::Uint(1)), Err(unknown.clone()));
    assert_eq!(tx.delete(&stray(), &1, None), Err(unknown.clone()));
    assert_eq!(tx.clear(2), Err(unknown.clone()));
    assert_eq!(tx.entries(2), Err(unknown.clone()));
    assert_eq!(tx.new_cursor(2), Err(unknown.clone()));
    assert_eq!(tx.cursor_read(2), Err(unknown.clone()));
    assert_eq!(tx.cursor_write(2), Err(unknown.clone()));
    assert_eq!(tx.cursor_dup_read(2), Err(unknown.clone()));
    assert_eq!(tx.cursor_dup_write(2), Err(unknown.clone()));
    assert_eq!(tx.put_result(2, vec![1], Err(4)), Err(unknown));
    assert_eq!(tx.put_result(2, vec![1], Ok(())), Ok(()));
}

#[test]
fn a_table_is_opened_before_it_is_used() {
    let set = schema();
    let mut tx = LibmdbxTx::new_rw_tx(&set, Ok(())).unwrap();
    assert_eq!(tx.get(&headers(&set), &1u8), open("Headers"));
    assert_eq!(tx.get_by_encoded_key(0, &[1]), open("Headers"));
    assert_eq!(tx.put(&logs(&set), &1u8, &Value::Uint(1)), open("Logs"));
    assert_eq!(tx.delete(&logs(&set), &1, None), open("Logs"));
    assert_eq!(tx.clear(0), open("Headers"));
    assert_eq!(tx.entries(0), open("Headers"));
    assert_eq!(tx.new_cursor(0), open("Headers"));
    assert_eq!(tx.cursor_read(0), open("Headers"));
    assert_eq!(tx.cursor_write(0), open("Headers"));
    assert_eq!(tx.cursor_dup_read(1), open("Logs"));
    assert_eq!(tx.cursor_dup_write(1), open("Logs"));
    // once it is open, the same calls go to the engine
    assert_eq!(tx.resolve_dbi(0, Ok(3)), Ok(3));
    assert_eq!(tx.entries(0), Ok(Ask::Engine(DbStat { dbi: 3 })));
    assert_eq!(tx.clear(0), Ok(Ask::Engine(ClearDb { dbi: 3 })));
    assert_eq!(tx.entries(1), open("Logs"));
}

#[test]
fn lookup_requests() {
    let set = schema();
    let mut tx = LibmdbxTx::new_ro_tx(&set, Ok(())).unwrap();
    tx.resolve_dbi(0, Ok(3)).unwrap();
    tx.resolve_dbi(1, Ok(4)).unwrap();
    assert_eq!(
        tx.get(&headers(&set), &100u8),
        Ok(Ask::Engine(Get { dbi: 3, key: vec![100] }))
    );
    assert_eq!(
        tx.get_by_encoded_key(1, &[9, 8]),
        Ok(Ask::Engine(Get { dbi: 4, key: vec![9, 8] }))
    );

    let wide = TableSet::new(vec![TableDet::new::<u64, u8>("Wide", TableType::Table)]).unwrap();
    let mut tx = LibmdbxTx::new_ro_tx(&wide, Ok(())).unwrap();
    tx.resolve_dbi(0, Ok(3)).unwrap();
    assert_eq!(
        tx.get(&wide.bind::<u64, u8>("Wide").unwrap(), &258u64),
        Ok(Ask::Engine(Get { dbi: 3, key: vec![0, 0, 0, 0, 0, 0, 1, 2] }))
    );
}

#[test]
fn lookup_answers() {
    let set = schema();
    let tx = LibmdbxTx::new_ro_tx(&set, Ok(())).unwrap();
    let table = headers(&set);
    assert_eq!(tx.get_result(&table, Ok(None)), Ok(None));
    assert_eq!(tx.get_result(&table, Err(-30796)), Err(DatabaseError::Read(-30796)));
    assert_eq!(
        tx.get_result(&table, Ok(Some(stored(&Value::Uint(3))))),
        Ok(Some(Value::Uint(3)))
    );
    // bytes that are no frame are an error, not an absent value
    assert_eq!(
        tx.get_result(&table, Ok(Some(vec![1, 2, 3]))),
        Err(DatabaseError::Decode(DecodeError::CompressionCorrupt))
    );
    // a value of another type than the table's
    let narrow = TableSet::new(vec![TableDet::new::<u8, u8>("Narrow", TableType::Table)]).unwrap();
    let tx = LibmdbxTx::new_ro_tx(&narrow, Ok(())).unwrap();
    assert_eq!(
        tx.get_result(&narrow.bind::<u8, u8>("Narrow").unwrap(), Ok(Some(stored(&Value::Uint(3))))),
        Err(DatabaseError::Decode(DecodeError::Malformed))
    );
}

#[test]
fn put_requests() {
    let set = schema();
    let mut tx = LibmdbxTx::new_rw_tx(&set, Ok(())).unwrap();
    tx.resolve_dbi(0, Ok(7)).unwrap();
    let value = Value::Bytes(b"payload".to_vec());
    assert_eq!(
        tx.put(&headers(&set), &100u8, &value),
        Ok(Ask::Engine(Put { dbi: 7, key: vec![100], value: stored(&value), flags: UPSERT }))
    );
    assert_eq!(tx.get_result(&headers(&set), Ok(Some(stored(&value)))), Ok(Some(value)));
}

#[test]
fn put_answers() {
    let set = schema();
    let tx = LibmdbxTx::new_rw_tx(&set, Ok(())).unwrap();
    assert_eq!(tx.put_result(0, vec![100], Ok(())), Ok(()));
    assert_eq!(
        tx.put_result(1, vec![100], Err(-30792)),
        Err(DatabaseError::Write(DatabaseWriteError {
            code: -30792,
            operation: DatabaseWriteOperation::Put,
            table_name: "Logs".to_string(),
            key: vec![100],
        }))
    );
}

#[test]
fn delete_requests() {
    let set = schema();
    let mut tx = LibmdbxTx::new_rw_tx(&set, Ok(())).unwrap();
    tx.resolve_dbi(1, Ok(7)).unwrap();
    assert_eq!(
        tx.delete(&logs(&set), &100, None),
        Ok(Ask::Engine(Del { dbi: 7, key: vec![100], value: None }))
    );
    let value = Value::Uint(1);
    assert_eq!(
        tx.delete(&logs(&set), &100u8, Some(&value)),
        Ok(Ask::Engine(Del { dbi: 7, key: vec![100], value: Some(stored(&value)) }))
    );
}

#[test]
fn delete_and_clear_answers() {
    let set = schema();
    let tx = LibmdbxTx::new_rw_tx(&set, Ok(())).unwrap();
    assert_eq!(tx.delete_result(0, vec![100], Ok(true)), Ok(true));
    assert_eq!(tx.delete_result(0, vec![100], Ok(false)), Ok(false));
    // a failed delete says what it was aimed at, and carries no value
    assert_eq!(
        tx.delete_result(1, vec![100], Err(13)),
        Err(DatabaseError::Write(DatabaseWriteError {
            code: 13,
            operation: DatabaseWriteOperation::Delete,
            table_name: "Logs".to_string(),
            key: vec![100],
        }))
    );
    assert_eq!(tx.delete_result(2, vec![100], Err(13)), Err(DatabaseError::UnknownTable));
    assert_eq!(tx.delete_result(2, vec![100], Ok(true)), Ok(true));
    assert_eq!(tx.clear_result(Ok(())), Ok(()));
    assert_eq!(tx.clear_result(Err(13)), Err(DatabaseError::Delete(13)));
}

#[test]
fn create_table_requests_and_answers() {
    let set = schema();
    let tx = LibmdbxTx::new_rw_tx(&set, Ok(())).unwrap();
    let request = tx.create_table(&TableDet::new::<u8, Value>("Logs", TableType::DupSort));
    assert_eq!(request.name, "Logs");
    assert_eq!(request.flags, DatabaseFlags { dup_sort: true });
    let request = tx.create_table(&TableDet::new::<u8, Value>("Headers", TableType::Table));
    assert_eq!(request.flags, DatabaseFlags { dup_sort: false });
    assert_eq!(tx.create_table_result(Ok(())), Ok(()));
    assert_eq!(tx.create_table_result(Err(-30791)), Err(DatabaseError::CreateTable(-30791)));
}

#[test]
fn entries_answers() {
    let set = schema();
    let tx = LibmdbxTx::new_ro_tx(&set, Ok(())).unwrap();
    assert_eq!(tx.entries_result(Ok(0)), Ok(0));
    assert_eq!(tx.entries_result(Ok(12)), Ok(12));
    assert_eq!(tx.entries_result(Err(22)), Err(DatabaseError::Stats(22)));
}

#[test]
fn commit_and_abort_end_the_transaction() {
    let set = schema();
    let tx = LibmdbxTx::new_rw_tx(&set, Ok(())).unwrap();
    assert_eq!(tx.commit(Ok(true)), Ok(true));
    let tx = LibmdbxTx::new_ro_tx(&set, Ok(())).unwrap();
    assert_eq!(tx.commit(Ok(false)), Ok(false));
    let tx = LibmdbxTx::new_rw_tx(&set, Ok(())).unwrap();
    assert_eq!(tx.commit(Err(-30792)), Err(DatabaseError::Commit(-30792)));
    let tx = LibmdbxTx::new_rw_tx(&set, Ok(())).unwrap();
    tx.abort();
}

#[test]
fn capabilities() {
    let set = schema();
    assert!(LibmdbxTx::new_rw_tx(&set, Ok(())).unwrap().is_rw());
    assert!(!LibmdbxTx::new_ro_tx(&set, Ok(())).unwrap().is_rw());
}

#[test]
fn a_long_scan_lifts_the_limit() {
    let set = schema();
    let mut tx = LibmdbxTx::new_ro_tx(&set, Ok(())).unwrap();
    assert_eq!(tx.resolve_dbi(0, Ok(2)), Ok(2));
    tx.disable_long_read_transaction_safety();
    assert_eq!(tx.get_dbi(0), Ok(Ask::Engine(2)));
    assert_eq!(tx.get_dbi(1), open("Logs"));
}

#[test]
fn cursor_requests() {
    let set = schema();
    let mut tx = LibmdbxTx::new_rw_tx(&set, Ok(())).unwrap();
    tx.resolve_dbi(0, Ok(3)).unwrap();
    tx.resolve_dbi(1, Ok(4)).unwrap();
    assert_eq!(tx.new_cursor(0), Ok(Ask::Engine(OpenCursor { dbi: 3 })));
    assert_eq!(tx.cursor_read(0), Ok(Ask::Engine(OpenCursor { dbi: 3 })));
    assert_eq!(tx.cursor_write(1), Ok(Ask::Engine(OpenCursor { dbi: 4 })));
    assert_eq!(tx.cursor_dup_read(1), Ok(Ask::Engine(OpenCursor { dbi: 4 })));
    assert_eq!(tx.cursor_dup_write(1), Ok(Ask::Engine(OpenCursor { dbi: 4 })));
    assert_eq!(tx.cursor_dup_read(0), Err(DatabaseError::NotDupSort));
    assert_eq!(tx.cursor_dup_write(0), Err(DatabaseError::NotDupSort));
}

#[test]
fn cursor_steps() {
    let set = schema();
    let opened = OpenCursor { dbi: 3 };
    assert_eq!(
        LibmdbxCursor::new(&headers(&set), opened, TableType::Table, Err(-30790)),
        Err(DatabaseError::InitCursor(-30790))
    );
    let plain = LibmdbxCursor::new(&headers(&set), opened, TableType::Table, Ok(())).unwrap();
    assert_eq!(plain.first(), CursorOp::First);
    assert_eq!(plain.next(), CursorOp::Next);
    assert_eq!(plain.seek(100u8), CursorOp::SetRange { key: vec![100] });
    assert_eq!(plain.seek(1), CursorOp::SetRange { key: 1u8.encode_key_wrapped() });
    assert_eq!(plain.next_dup(), Err(DatabaseError::NotDupSort));
    let dup = LibmdbxCursor::new(&logs(&set), opened, TableType::DupSort, Ok(())).unwrap();
    assert_eq!(dup.next_dup(), Ok(CursorOp::NextDup));
    // the cursor reads pairs of its table's types
    assert_eq!(dup.pair(Ok(None)), Ok(None));
    assert_eq!(dup.pair(Err(7)), Err(DatabaseError::Read(7)));
    assert_eq!(
        dup.pair(Ok(Some((vec![100], stored(&Value::Uint(4)))))),
        Ok(Some((100, Value::Uint(4))))
    );
    assert_eq!(
        dup.pair(Ok(Some((vec![1, 2], stored(&Value::Uint(4)))))),
        Err(DatabaseError::Decode(DecodeError::Malformed))
    );
}

#[test]
fn cursor_answers() {
    assert_eq!(decode_pair::<u8, Value>(Ok(None)), Ok(None));
    assert_eq!(decode_pair::<u8, Value>(Err(7)), Err(DatabaseError::Read(7)));
    assert_eq!(
        decode_pair::<u8, Value>(Ok(Some((vec![100], stored(&Value::Uint(4)))))),
        Ok(Some((100, Value::Uint(4))))
    );
    // the key's fault is reported before the value's
    assert_eq!(
        decode_pair::<u8, Value>(Ok(Some((vec![], vec![0])))),
        Err(DatabaseError::Decode(DecodeError::Truncated))
    );
    assert_eq!(
        decode_pair::<u8, Value>(Ok(Some((vec![1], vec![0])))),
        Err(DatabaseError::Decode(DecodeError::CompressionCorrupt))
    );
    assert_eq!(
        decode_pair::<u64, Value>(Ok(Some((vec![0; 9], stored(&Value::Uint(4)))))),
        Err(DatabaseError::Decode(DecodeError::Malformed))
    );
}
