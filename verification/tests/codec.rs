use libmdbx_bindings::codecs::{compress_to_buf, decompress, append_frame, frame_contents};
use libmdbx_bindings::error::{DatabaseError, DecodeError, EncodeError};
use libmdbx_bindings::portable::{decode_from, encode_into, get_be, put_be, put_bytes, Value};
use libmdbx_bindings::traits::{
    WrapCompress, WrapDecodable, WrapDecode, WrapDecompress, WrapEncodable, WrapEncode,
};
use libmdbx_bindings::tx::decode_one;
use libmdbx_bindings::wrapper::{Archived, Delegate, Delegated};

fn record(hi: &str, this: f64) -> Value {
    Value::List(vec![Value::Bytes(hi.as_bytes().to_vec()), Value::Uint(this.to_bits())])
}

fn encoded(v: &Value) -> Vec<u8> {
    let mut out = Vec::new();
    encode_into(v, &mut out);
    out
}

#[test]
fn big_endian_bytes_of_a_number() {
    let mut out = vec![0xaa];
    put_be(0x0102030405060708, &mut out);
    assert_eq!(out, vec![0xaa, 1, 2, 3, 4, 5, 6, 7, 8]);
    assert_eq!(get_be(&out, 1), 0x0102030405060708);
}

#[test]
fn big_endian_extremes() {
    let mut out = Vec::new();
    put_be(0, &mut out);
    put_be(u64::MAX, &mut out);
    assert_eq!(out, vec![0, 0, 0, 0, 0, 0, 0, 0, 255, 255, 255, 255, 255, 255, 255, 255]);
    assert_eq!(get_be(&out, 0), 0);
    assert_eq!(get_be(&out, 8), u64::MAX);
}

#[test]
fn put_bytes_copies_the_range() {
    let mut out = vec![9];
    put_bytes(&[1, 2, 3, 4, 5], 1, 4, &mut out);
    assert_eq!(out, vec![9, 2, 3, 4]);
    put_bytes(&[1, 2, 3], 2, 2, &mut out);
    assert_eq!(out, vec![9, 2, 3, 4]);
}

#[test]
fn encoding_of_a_number() {
    assert_eq!(encoded(&Value::Uint(1)), vec![1, 0, 0, 0, 0, 0, 0, 0, 1]);
}

#[test]
fn encoding_of_a_byte_string() {
    assert_eq!(
        encoded(&Value::Bytes(b"hi".to_vec())),
        vec![2, 0, 0, 0, 0, 0, 0, 0, 2, b'h', b'i']
    );
    assert_eq!(encoded(&Value::Bytes(Vec::new())), vec![2, 0, 0, 0, 0, 0, 0, 0, 0]);
}

#[test]
fn encoding_of_a_list() {
    assert_eq!(encoded(&Value::List(Vec::new())), vec![3, 0, 0, 0, 0, 0, 0, 0, 0]);
    assert_eq!(
        encoded(&Value::List(vec![Value::Uint(1), Value::Bytes(vec![7])])),
        vec![
            3, 0, 0, 0, 0, 0, 0, 0, 19, //
            1, 0, 0, 0, 0, 0, 0, 0, 1, //
            2, 0, 0, 0, 0, 0, 0, 0, 1, 7,
        ]
    );
}

#[test]
fn encoding_appends_to_what_is_there() {
    let mut out = vec![42];
    encode_into(&Value::Uint(2), &mut out);
    assert_eq!(out, vec![42, 1, 0, 0, 0, 0, 0, 0, 0, 2]);
}

#[test]
fn decode_undoes_encode() {
    let values = vec![
        Value::Uint(0),
        Value::Uint(u64::MAX),
        Value::Bytes(Vec::new()),
        Value::Bytes(vec![0, 1, 2, 255]),
        Value::List(Vec::new()),
        record("to me", 1220.0),
        Value::List(vec![
            Value::List(vec![Value::List(Vec::new()), Value::Uint(3)]),
            Value::Bytes(b"nested".to_vec()),
            Value::List(vec![record("a", -0.5), record("", f64::MAX)]),
        ]),
    ];
    for v in values.iter() {
        assert_eq!(decode_from(&encoded(v)), Ok(record_copy(v)));
    }
}

fn record_copy(v: &Value) -> Value {
    match v {
        Value::Uint(n) => Value::Uint(*n),
        Value::Bytes(b) => Value::Bytes(b.to_vec()),
        Value::List(items) => Value::List(items.iter().map(record_copy).collect()),
    }
}

#[test]
fn decode_of_nothing_is_truncated() {
    assert_eq!(decode_from(&[]), Err(DecodeError::Truncated));
}

#[test]
fn decode_of_a_short_header_is_truncated() {
    assert_eq!(decode_from(&[1, 0, 0, 0]), Err(DecodeError::Truncated));
    assert_eq!(decode_from(&[2, 0, 0, 0, 0, 0, 0, 0]), Err(DecodeError::Truncated));
}

#[test]
fn decode_of_a_short_body_is_truncated() {
    assert_eq!(decode_from(&[2, 0, 0, 0, 0, 0, 0, 0, 3, 1, 2]), Err(DecodeError::Truncated));
    assert_eq!(
        decode_from(&[3, 255, 255, 255, 255, 255, 255, 255, 255]),
        Err(DecodeError::Truncated)
    );
}

#[test]
fn decode_of_an_unknown_tag_is_malformed() {
    assert_eq!(decode_from(&[0, 0, 0, 0, 0, 0, 0, 0, 0]), Err(DecodeError::Malformed));
    assert_eq!(decode_from(&[4]), Err(DecodeError::Malformed));
}

#[test]
fn decode_of_trailing_bytes_is_malformed() {
    assert_eq!(decode_from(&[1, 0, 0, 0, 0, 0, 0, 0, 1, 0]), Err(DecodeError::Malformed));
}

#[test]
fn decode_of_a_list_with_a_broken_item_is_malformed() {
    // the body is two bytes long and holds the start of a number
    assert_eq!(decode_from(&[3, 0, 0, 0, 0, 0, 0, 0, 2, 1, 0]), Err(DecodeError::Malformed));
    // the body holds an unknown tag
    assert_eq!(decode_from(&[3, 0, 0, 0, 0, 0, 0, 0, 1, 9]), Err(DecodeError::Malformed));
}

#[test]
fn key_encodings() {
    assert_eq!(100u8.encode_key_wrapped(), vec![100]);
    assert_eq!(0x0102u64.encode_key_wrapped(), vec![0, 0, 0, 0, 0, 0, 1, 2]);
    assert_eq!(Value::Uint(5).encode_key_wrapped(), vec![1, 0, 0, 0, 0, 0, 0, 0, 5]);
}

#[test]
fn key_order_is_byte_order() {
    let keys: Vec<u64> = vec![0, 1, 255, 256, 65535, 1 << 40, u64::MAX];
    for pair in keys.windows(2) {
        assert!(pair[0].encode_key_wrapped() < pair[1].encode_key_wrapped());
    }
}

#[test]
fn key_decodings() {
    assert_eq!(u8::decode_wrapped_key(&[100]), Ok(100));
    assert_eq!(u8::decode_wrapped_key(&[]), Err(DatabaseError::Decode(DecodeError::Truncated)));
    assert_eq!(u8::decode_wrapped_key(&[1, 2]), Err(DatabaseError::Decode(DecodeError::Malformed)));
    assert_eq!(u64::decode_wrapped_key(&[0, 0, 0, 0, 0, 0, 1, 2]), Ok(0x0102));
    assert_eq!(
        u64::decode_wrapped_key(&[0, 0, 0, 0, 0, 0, 1]),
        Err(DatabaseError::Decode(DecodeError::Truncated))
    );
    assert_eq!(
        u64::decode_wrapped_key(&[0, 0, 0, 0, 0, 0, 0, 1, 2]),
        Err(DatabaseError::Decode(DecodeError::Malformed))
    );
    assert_eq!(u64::decode_wrapped(&[255; 8]), Ok(u64::MAX));
}

#[test]
fn encode_wrapped_appends() {
    let mut out = vec![1];
    7u8.encode_wrapped(&mut out);
    9u64.encode_wrapped(&mut out);
    assert_eq!(out, vec![1, 7, 0, 0, 0, 0, 0, 0, 0, 9]);
}

#[test]
fn compression_makes_a_frame_and_not_a_copy() {
    let data = vec![7u8; 4096];
    let mut frame = vec![1, 2, 3];
    assert_eq!(compress_to_buf(&data, &mut frame), Ok(()));
    assert_eq!(&frame[..3], &[1, 2, 3]);
    let frame = &frame[3..];
    assert_ne!(frame, &data[..]);
    assert!(frame.len() < data.len());
    // every frame starts with the compressor's magic number
    assert_eq!(&frame[..4], &[0x28, 0xb5, 0x2f, 0xfd]);
    assert_eq!(decompress(frame), Ok(data));
}

#[test]
fn compression_of_nothing_round_trips() {
    let mut frame = Vec::new();
    assert_eq!(compress_to_buf(&[], &mut frame), Ok(()));
    assert!(!frame.is_empty());
    assert_eq!(decompress(&frame), Ok(Vec::new()));
}

#[test]
fn decompress_of_garbage_is_corrupt() {
    assert_eq!(decompress(&[1, 2, 3, 4, 5]), Err(DecodeError::CompressionCorrupt));
    // bytes that were never compressed are no frame
    assert_eq!(decompress(&encoded(&record("to me", 1220.0))), Err(DecodeError::CompressionCorrupt));
}

#[test]
fn decompress_of_a_cut_frame_is_corrupt() {
    let mut frame = Vec::new();
    compress_to_buf(&[5u8; 1000], &mut frame).unwrap();
    frame.truncate(frame.len() - 3);
    assert_eq!(decompress(&frame), Err(DecodeError::CompressionCorrupt));
}

#[test]
fn append_frame_cases() {
    let mut buf = vec![1];
    assert_eq!(append_frame(Some(vec![2, 3]), &mut buf), Ok(()));
    assert_eq!(buf, vec![1, 2, 3]);
    assert_eq!(append_frame(None, &mut buf), Err(EncodeError::Compression));
    assert_eq!(buf, vec![1, 2, 3]);
}

#[test]
fn frame_contents_cases() {
    assert_eq!(frame_contents(Some(vec![1])), Ok(vec![1]));
    assert_eq!(frame_contents(None), Err(DecodeError::CompressionCorrupt));
}

#[test]
fn value_round_trip_through_compression() {
    let values = vec![
        record("to me", 1220.0),
        Value::Uint(17),
        Value::Bytes(vec![0; 10_000]),
        Value::List(vec![record("x", 1.0), record("y", 2.0)]),
    ];
    for v in values.iter() {
        let mut stored = Vec::new();
        assert_eq!(v.compress_to_buf_wrapped(&mut stored), Ok(()));
        assert_eq!(Value::decompress_wrapped(&stored), Ok(record_copy(v)));
        assert_eq!(decode_one::<Value>(&stored), Ok(record_copy(v)));
    }
}

#[test]
fn key_round_trip_through_compression() {
    let mut stored = Vec::new();
    assert_eq!(77u64.compress_to_buf_wrapped(&mut stored), Ok(()));
    assert_eq!(u64::decompress_wrapped(&stored), Ok(77));
    let mut stored = Vec::new();
    assert_eq!(200u8.compress_to_buf_wrapped(&mut stored), Ok(()));
    assert_eq!(u8::decompress_wrapped(&stored), Ok(200));
}

#[test]
fn decompress_wrapped_errors() {
    assert_eq!(
        Value::decompress_wrapped(&[0, 1, 2]),
        Err(DatabaseError::Decode(DecodeError::CompressionCorrupt))
    );
    // a frame whose contents are no value
    let mut frame = Vec::new();
    compress_to_buf(&[9, 9, 9], &mut frame).unwrap();
    assert_eq!(Value::decompress_wrapped(&frame), Err(DatabaseError::Decode(DecodeError::Malformed)));
    let mut frame = Vec::new();
    compress_to_buf(&[1, 0], &mut frame).unwrap();
    assert_eq!(Value::decompress_wrapped(&frame), Err(DatabaseError::Decode(DecodeError::Truncated)));
    // a frame of a value of another type
    let mut frame = Vec::new();
    5u64.compress_to_buf_wrapped(&mut frame).unwrap();
    assert_eq!(u8::decompress_wrapped(&frame), Err(DatabaseError::Decode(DecodeError::Malformed)));
}

#[test]
fn type_names() {
    assert_eq!(u8::name_of_type(), "u8");
    assert_eq!(u64::name_of_type(), "u64");
    assert_eq!(Value::name_of_type(), "Value");
    assert_eq!(Archived::name_of_type(), "Archived");
    assert_eq!(<bool as Delegate>::name_of_type(), "bool");
    assert_eq!(Delegated::<bool>::name_of_type(), "bool");
}

#[test]
fn an_archive_is_stored_as_it_is() {
    let archive = Archived { bytes: vec![0, 0, 128, 63, 7] };
    let mut out = vec![9];
    archive.encode_wrapped(&mut out);
    assert_eq!(out, vec![9, 0, 0, 128, 63, 7]);
    assert_eq!(Archived::decode_wrapped(&[1, 2, 3]), Ok(Archived { bytes: vec![1, 2, 3] }));
    assert_eq!(Archived::decode_wrapped(&[]), Ok(Archived { bytes: Vec::new() }));
    // what is stored is the compressed archive and nothing else
    let mut stored = Vec::new();
    assert_eq!(archive.compress_to_buf_wrapped(&mut stored), Ok(()));
    let mut frame = Vec::new();
    compress_to_buf(&[0, 0, 128, 63, 7], &mut frame).unwrap();
    assert_eq!(stored, frame);
    assert_eq!(decompress(&stored), Ok(vec![0, 0, 128, 63, 7]));
    assert_eq!(Archived::decompress_wrapped(&stored), Ok(archive));
}

#[test]
fn a_flag_goes_through_the_codec_of_a_byte() {
    assert_eq!(true.to_wrapper(), 1);
    assert_eq!(false.to_wrapper(), 0);
    assert!(bool::from_wrapper(1));
    assert!(bool::from_wrapper(200));
    assert!(!bool::from_wrapper(0));
    assert_eq!(Delegated(true).encode_key_wrapped(), vec![1]);
    assert_eq!(Delegated(false).encode_key_wrapped(), 0u8.encode_key_wrapped());
    assert_eq!(Delegated::<bool>::decode_wrapped(&[1]), Ok(Delegated(true)));
    assert_eq!(Delegated::<bool>::decode_wrapped(&[0]), Ok(Delegated(false)));
    assert_eq!(Delegated::<bool>::decode_wrapped(&[]), Err(DecodeError::Truncated));
    assert_eq!(Delegated::<bool>::decode_wrapped(&[1, 1]), Err(DecodeError::Malformed));
    for flag in [true, false] {
        let mut stored = Vec::new();
        assert_eq!(Delegated(flag).compress_to_buf_wrapped(&mut stored), Ok(()));
        assert_eq!(Delegated::<bool>::decompress_wrapped(&stored), Ok(Delegated(flag)));
    }
}

#[test]
fn the_frame_holds_the_very_bytes_of_the_encoding() {
    let value = record("to me", 1220.0);
    let mut stored = vec![1, 2];
    assert_eq!(value.compress_to_buf_wrapped(&mut stored), Ok(()));
    assert_eq!(&stored[..2], &[1, 2]);
    assert_eq!(decompress(&stored[2..]), Ok(encoded(&value)));
}
