//! The portable encoding: tagged, length-prefixed and recursive. It needs no
//! trust in the bytes it reads, so it is the encoding for data that crosses a
//! boundary.

use vstd::prelude::*;
use crate::error::DecodeError;
use crate::traits::{
    WrapCompress,
    WrapDecodable,
    WrapDecode,
    WrapDecompress,
    WrapEncodable,
    WrapEncode,
};

verus! {

/// The eight bytes of a number, most significant first.
pub open spec fn be_bytes(n: u64) -> Seq<u8> {
    seq![
        (n >> 56) as u8,
        ((n >> 48) & 0xff) as u8,
        ((n >> 40) & 0xff) as u8,
        ((n >> 32) & 0xff) as u8,
        ((n >> 24) & 0xff) as u8,
        ((n >> 16) & 0xff) as u8,
        ((n >> 8) & 0xff) as u8,
        (n & 0xff) as u8,
    ]
}

/// The number whose bytes, most significant first, are the first eight of
/// `b`.
pub open spec fn be_value(b: Seq<u8>) -> u64
    recommends
        b.len() >= 8,
{
    (b[0] as u64) << 56 | (b[1] as u64) << 48 | (b[2] as u64) << 40 | (b[3] as u64) << 32 | (
    b[4] as u64) << 24 | (b[5] as u64) << 16 | (b[6] as u64) << 8 | (b[7] as u64)
}

/// Reading eight bytes undoes writing them.
pub proof fn lemma_be_round_trip(n: u64)
    ensures
        be_bytes(n).len() == 8,
        be_value(be_bytes(n)) == n,
{
    let b = be_bytes(n);
    assert(((n >> 56) as u8 as u64) << 56 | (((n >> 48) & 0xff) as u8 as u64) << 48 | (((n >> 40)
        & 0xff) as u8 as u64) << 40 | (((n >> 32) & 0xff) as u8 as u64) << 32 | (((n >> 24)
        & 0xff) as u8 as u64) << 24 | (((n >> 16) & 0xff) as u8 as u64) << 16 | (((n >> 8)
        & 0xff) as u8 as u64) << 8 | ((n & 0xff) as u8 as u64) == n) by (bit_vector);
}

/// Writing the number read from eight bytes gives the bytes again.
pub proof fn lemma_be_bytes_of_value(b: Seq<u8>)
    requires
        b.len() == 8,
    ensures
        be_bytes(be_value(b)) == b,
{
    let b0 = b[0];
    let b1 = b[1];
    let b2 = b[2];
    let b3 = b[3];
    let b4 = b[4];
    let b5 = b[5];
    let b6 = b[6];
    let b7 = b[7];
    assert({
        let n = (b0 as u64) << 56 | (b1 as u64) << 48 | (b2 as u64) << 40 | (b3 as u64) << 32 | (
        b4 as u64) << 24 | (b5 as u64) << 16 | (b6 as u64) << 8 | (b7 as u64);
        &&& (n >> 56) as u8 == b0
        &&& ((n >> 48) & 0xff) as u8 == b1
        &&& ((n >> 40) & 0xff) as u8 == b2
        &&& ((n >> 32) & 0xff) as u8 == b3
        &&& ((n >> 24) & 0xff) as u8 == b4
        &&& ((n >> 16) & 0xff) as u8 == b5
        &&& ((n >> 8) & 0xff) as u8 == b6
        &&& (n & 0xff) as u8 == b7
    }) by (bit_vector);
    assert(be_bytes(be_value(b)) =~= b);
}

/// Appends the eight bytes of `n`, most significant first.
pub fn put_be(n: u64, out: &mut Vec<u8>)
    ensures
        final(out)@ == old(out)@ + be_bytes(n),
{
    out.push((n >> 56) as u8);
    out.push(((n >> 48) & 0xff) as u8);
    out.push(((n >> 40) & 0xff) as u8);
    out.push(((n >> 32) & 0xff) as u8);
    out.push(((n >> 24) & 0xff) as u8);
    out.push(((n >> 16) & 0xff) as u8);
    out.push(((n >> 8) & 0xff) as u8);
    out.push((n & 0xff) as u8);
    assert(out@ =~= old(out)@ + be_bytes(n));
}

/// Reads the number whose eight bytes stand at `at`.
pub fn get_be(buf: &[u8], at: usize) -> (n: u64)
    requires
        at + 8 <= buf@.len(),
    ensures
        n == be_value(buf@.subrange(at as int, at + 8)),
{
    (buf[at] as u64) << 56 | (buf[at + 1] as u64) << 48 | (buf[at + 2] as u64) << 40 | (buf[at
        + 3] as u64) << 32 | (buf[at + 4] as u64) << 24 | (buf[at + 5] as u64) << 16 | (buf[at
        + 6] as u64) << 8 | (buf[at + 7] as u64)
}

/// Tag of an unsigned number.
pub const TAG_UINT: u8 = 1;

/// Tag of a byte string.
pub const TAG_BYTES: u8 = 2;

/// Tag of a list.
pub const TAG_LIST: u8 = 3;

/// A value of the portable encoding: a number, a byte string, or a list of
/// values. Text is stored as its UTF-8 bytes, a record as the list of its
/// fields.
#[derive(Debug, PartialEq, Eq)]
pub enum Value {
    Uint(u64),
    Bytes(Vec<u8>),
    List(Vec<Value>),
}

/// What a `Value` holds, as mathematics.
pub ghost enum ValueView {
    Uint(u64),
    Bytes(Seq<u8>),
    List(Seq<ValueView>),
}

/// What `v` holds: a list's view is the list of its items' views.
pub open spec fn value_view(v: Value) -> ValueView
    decreases v,
{
    match v {
        Value::Uint(n) => ValueView::Uint(n),
        Value::Bytes(b) => ValueView::Bytes(b@),
        Value::List(items) => ValueView::List(
            Seq::new(
                items@.len(),
                |i: int|
                    if 0 <= i < items@.len() {
                        value_view(items@[i])
                    } else {
                        ValueView::Uint(0)
                    },
            ),
        ),
    }
}

impl View for Value {
    type V = ValueView;

    open spec fn view(&self) -> ValueView {
        value_view(*self)
    }
}

/// The encoding of a value: its tag, then the number's eight bytes, or the
/// length in eight bytes and then the string's bytes or the items' encodings.
pub open spec fn encode_value(v: ValueView) -> Seq<u8>
    decreases v, 0nat,
{
    match v {
        ValueView::Uint(n) => seq![TAG_UINT] + be_bytes(n),
        ValueView::Bytes(b) => seq![TAG_BYTES] + be_bytes(b.len() as u64) + b,
        ValueView::List(items) => {
            let payload = encode_items(items, 0);
            seq![TAG_LIST] + be_bytes(payload.len() as u64) + payload
        },
    }
}

/// The encodings of the items from position `from` on, one after the other.
pub open spec fn encode_items(items: Seq<ValueView>, from: nat) -> Seq<u8>
    decreases items, items.len() - from,
{
    if from >= items.len() {
        Seq::<u8>::empty()
    } else {
        encode_value(items[from as int]) + encode_items(items, from + 1)
    }
}

/// Appends the bytes of `src` from `from` up to `to`.
pub fn put_bytes(src: &[u8], from: usize, to: usize, out: &mut Vec<u8>)
    requires
        from <= to <= src@.len(),
    ensures
        final(out)@ == old(out)@ + src@.subrange(from as int, to as int),
{
    let mut i: usize = from;
    while i < to
        invariant
            from <= i <= to <= src@.len(),
            out@ == old(out)@ + src@.subrange(from as int, i as int),
        decreases to - i,
    {
        out.push(src[i]);
        i += 1;
        assert(out@ =~= old(out)@ + src@.subrange(from as int, i as int));
    }
}

/// The view of a list is the list of its items' views.
pub proof fn lemma_view_of_list(items: Vec<Value>)
    ensures
        Value::List(items)@ is List,
        Value::List(items)@->List_0.len() == items@.len(),
        forall|k: int|
            0 <= k < items@.len() ==> Value::List(items)@->List_0[k] == (#[trigger] items@[k])@,
{
    reveal_with_fuel(value_view, 2);
}

/// Appends the encoding of `v` to `out`.
pub fn encode_into(v: &Value, out: &mut Vec<u8>)
    ensures
        final(out)@ == old(out)@ + encode_value(v@),
    decreases v,
{
    match v {
        Value::Uint(n) => {
            out.push(TAG_UINT);
            put_be(*n, out);
            assert(out@ =~= old(out)@ + encode_value(v@));
        },
        Value::Bytes(b) => {
            out.push(TAG_BYTES);
            put_be(b.len() as u64, out);
            put_bytes(b.as_slice(), 0, b.len(), out);
            assert(b@.subrange(0, b@.len() as int) =~= b@);
            assert(out@ =~= old(out)@ + encode_value(v@));
        },
        Value::List(items) => {
            let ghost views = v@->List_0;
            proof {
                lemma_view_of_list(*items);
            }
            let mut payload: Vec<u8> = Vec::new();
            let mut i: usize = 0;
            while i < items.len()
                invariant
                    i <= items@.len(),
                    v == Value::List(*items),
                    views == v@->List_0,
                    views.len() == items@.len(),
                    forall|k: int| 0 <= k < items@.len() ==> views[k] == (#[trigger] items@[k])@,
                    payload@ + encode_items(views, i as nat) == encode_items(views, 0),
                decreases items@.len() - i,
            {
                let ghost before = payload@;
                encode_into(&items[i], &mut payload);
                assert(payload@ + encode_items(views, (i + 1) as nat) =~= before + encode_items(
                    views,
                    i as nat,
                ));
                i += 1;
            }
            assert(payload@ =~= encode_items(views, 0));
            out.push(TAG_LIST);
            put_be(payload.len() as u64, out);
            put_bytes(payload.as_slice(), 0, payload.len(), out);
            assert(payload@.subrange(0, payload@.len() as int) =~= payload@);
            assert(out@ =~= old(out)@ + encode_value(v@));
        },
    }
}

/// Bytes before the body of a string or a list: the tag and the length.
pub const HEADER_LEN: usize = 9;

/// Reads one value at the front of `bytes`: the value and the number of
/// bytes it takes. `Truncated` where the bytes end before the value does,
/// `Malformed` where a tag is unknown or a list's items do not fill its body.
pub open spec fn parse_value(bytes: Seq<u8>) -> Result<(ValueView, nat), DecodeError>
    decreases bytes.len(), 0nat,
{
    if bytes.len() < 1 {
        Err(DecodeError::Truncated)
    } else if bytes[0] != TAG_UINT && bytes[0] != TAG_BYTES && bytes[0] != TAG_LIST {
        Err(DecodeError::Malformed)
    } else if bytes.len() < HEADER_LEN {
        Err(DecodeError::Truncated)
    } else {
        let n = be_value(bytes.subrange(1, HEADER_LEN as int));
        if bytes[0] == TAG_UINT {
            Ok((ValueView::Uint(n), HEADER_LEN as nat))
        } else if bytes.len() - HEADER_LEN < n {
            Err(DecodeError::Truncated)
        } else {
            let body = bytes.subrange(HEADER_LEN as int, HEADER_LEN + n);
            if bytes[0] == TAG_BYTES {
                Ok((ValueView::Bytes(body), (HEADER_LEN + n) as nat))
            } else {
                match parse_items(body) {
                    Ok(items) => Ok((ValueView::List(items), (HEADER_LEN + n) as nat)),
                    Err(_) => Err(DecodeError::Malformed),
                }
            }
        }
    }
}

/// Reads values from `body` until it is used up.
pub open spec fn parse_items(body: Seq<u8>) -> Result<Seq<ValueView>, DecodeError>
    decreases body.len(), 1nat,
{
    if body.len() == 0 {
        Ok(Seq::<ValueView>::empty())
    } else {
        match parse_value(body) {
            Err(e) => Err(e),
            Ok((v, used)) => {
                if used == 0 || used > body.len() {
                    Err(DecodeError::Malformed)
                } else {
                    match parse_items(body.subrange(used as int, body.len() as int)) {
                        Ok(rest) => Ok(seq![v] + rest),
                        Err(e) => Err(e),
                    }
                }
            },
        }
    }
}

/// The value that `bytes` encode: they hold one value and nothing after it.
pub open spec fn decode_value(bytes: Seq<u8>) -> Result<ValueView, DecodeError> {
    match parse_value(bytes) {
        Ok((v, used)) => if used == bytes.len() {
            Ok(v)
        } else {
            Err(DecodeError::Malformed)
        },
        Err(e) => Err(e),
    }
}

/// An encoding is never empty, and a tail of the items is encoded in no
/// more bytes than the whole.
pub proof fn lemma_encoding_len(v: ValueView)
    ensures
        encode_value(v).len() >= HEADER_LEN,
{
    lemma_be_round_trip(0);
    match v {
        ValueView::Uint(n) => {
            lemma_be_round_trip(n);
        },
        ValueView::Bytes(b) => {
            lemma_be_round_trip(b.len() as u64);
        },
        ValueView::List(items) => {
            lemma_be_round_trip(encode_items(items, 0).len() as u64);
        },
    }
}

/// Reading undoes writing, whatever follows: at the front of a value's
/// encoding stands that value, and it takes the encoding's length.
pub proof fn lemma_parse_encode(v: ValueView, rest: Seq<u8>)
    requires
        encode_value(v).len() <= u64::MAX,
    ensures
        parse_value(encode_value(v) + rest) == Ok::<(ValueView, nat), DecodeError>(
            (v, encode_value(v).len()),
        ),
    decreases v, 0nat,
{
    let enc = encode_value(v);
    let bytes = enc + rest;
    lemma_encoding_len(v);
    match v {
        ValueView::Uint(n) => {
            lemma_be_round_trip(n);
            assert(bytes.subrange(1, HEADER_LEN as int) =~= be_bytes(n));
        },
        ValueView::Bytes(b) => {
            lemma_be_round_trip(b.len() as u64);
            assert(bytes.subrange(1, HEADER_LEN as int) =~= be_bytes(b.len() as u64));
            assert(bytes.subrange(HEADER_LEN as int, HEADER_LEN + b.len()) =~= b);
        },
        ValueView::List(items) => {
            let payload = encode_items(items, 0);
            lemma_be_round_trip(payload.len() as u64);
            assert(bytes.subrange(1, HEADER_LEN as int) =~= be_bytes(payload.len() as u64));
            assert(bytes.subrange(HEADER_LEN as int, HEADER_LEN + payload.len()) =~= payload);
            lemma_parse_items(items, 0);
            assert(items.subrange(0, items.len() as int) =~= items);
        },
    }
}

/// Reading a run of encoded items gives the items back.
pub proof fn lemma_parse_items(items: Seq<ValueView>, from: nat)
    requires
        from <= items.len(),
        encode_items(items, from).len() <= u64::MAX,
    ensures
        parse_items(encode_items(items, from)) == Ok::<Seq<ValueView>, DecodeError>(
            items.subrange(from as int, items.len() as int),
        ),
    decreases items, items.len() - from,
{
    if from >= items.len() {
        assert(items.subrange(from as int, items.len() as int) =~= Seq::<ValueView>::empty());
    } else {
        let v = items[from as int];
        let tail = encode_items(items, from + 1);
        let body = encode_items(items, from);
        lemma_encoding_len(v);
        lemma_parse_encode(v, tail);
        lemma_parse_items(items, from + 1);
        assert(body.subrange(encode_value(v).len() as int, body.len() as int) =~= tail);
        assert(seq![v] + items.subrange((from + 1) as int, items.len() as int) =~= items.subrange(
            from as int,
            items.len() as int,
        ));
    }
}

/// Decoding undoes encoding.
pub proof fn lemma_decode_value_encode(v: ValueView)
    requires
        encode_value(v).len() <= u64::MAX,
    ensures
        decode_value(encode_value(v)) == Ok::<ValueView, DecodeError>(v),
{
    lemma_parse_encode(v, Seq::<u8>::empty());
    assert(encode_value(v) + Seq::<u8>::empty() =~= encode_value(v));
}

/// The views of the values of a sequence, in order.
pub open spec fn views(values: Seq<Value>) -> Seq<ValueView> {
    Seq::new(values.len(), |i: int| values[i]@)
}

/// Reads one value that starts at `start` and ends no later than `end`.
/// Returns the value and the position after it.
pub fn parse_value_at(buf: &[u8], start: usize, end: usize) -> (r: Result<
    (Value, usize),
    DecodeError,
>)
    requires
        start <= end <= buf@.len(),
    ensures
        match r {
            Ok((v, next)) => start < next <= end && parse_value(
                buf@.subrange(start as int, end as int),
            ) == Ok::<(ValueView, nat), DecodeError>((v@, (next - start) as nat)),
            Err(e) => parse_value(buf@.subrange(start as int, end as int)) == Err::<
                (ValueView, nat),
                DecodeError,
            >(e),
        },
    decreases end - start, 0nat,
{
    let ghost bytes = buf@.subrange(start as int, end as int);
    if end - start < 1 {
        return Err(DecodeError::Truncated);
    }
    let tag: u8 = buf[start];
    assert(bytes[0] == tag);
    if tag != TAG_UINT && tag != TAG_BYTES && tag != TAG_LIST {
        return Err(DecodeError::Malformed);
    }
    if end - start < HEADER_LEN {
        return Err(DecodeError::Truncated);
    }
    let n: u64 = get_be(buf, start + 1);
    assert(buf@.subrange(start + 1, start + 1 + 8) =~= bytes.subrange(1, HEADER_LEN as int));
    if tag == TAG_UINT {
        return Ok((Value::Uint(n), start + HEADER_LEN));
    }
    let room: usize = end - start - HEADER_LEN;
    if (room as u64) < n {
        return Err(DecodeError::Truncated);
    }
    let len: usize = n as usize;
    let body_start: usize = start + HEADER_LEN;
    let body_end: usize = body_start + len;
    assert(buf@.subrange(body_start as int, body_end as int) =~= bytes.subrange(
        HEADER_LEN as int,
        HEADER_LEN + n,
    ));
    if tag == TAG_BYTES {
        let mut b: Vec<u8> = Vec::new();
        put_bytes(buf, body_start, body_end, &mut b);
        assert(b@ =~= buf@.subrange(body_start as int, body_end as int));
        Ok((Value::Bytes(b), body_end))
    } else {
        match parse_items_at(buf, body_start, body_end) {
            Ok(items) => {
                proof {
                    lemma_view_of_list(items);
                    assert(Value::List(items)@->List_0 =~= views(items@));
                }
                Ok((Value::List(items), body_end))
            },
            Err(_) => Err(DecodeError::Malformed),
        }
    }
}

/// Reads the values that fill the bytes from `start` up to `end`.
pub fn parse_items_at(buf: &[u8], start: usize, end: usize) -> (r: Result<
    Vec<Value>,
    DecodeError,
>)
    requires
        start <= end <= buf@.len(),
    ensures
        match r {
            Ok(items) => parse_items(buf@.subrange(start as int, end as int)) == Ok::<
                Seq<ValueView>,
                DecodeError,
            >(views(items@)),
            Err(e) => parse_items(buf@.subrange(start as int, end as int)) == Err::<
                Seq<ValueView>,
                DecodeError,
            >(e),
        },
    decreases end - start, 1nat,
{
    let mut items: Vec<Value> = Vec::new();
    let mut pos: usize = start;
    assert(views(items@) =~= Seq::<ValueView>::empty());
    proof {
        match parse_items(buf@.subrange(start as int, end as int)) {
            Ok(rest) => {
                assert(views(items@) + rest =~= rest);
            },
            Err(_) => {},
        }
    }
    while pos < end
        invariant
            start <= pos <= end <= buf@.len(),
            parse_items(buf@.subrange(start as int, end as int)) == (match parse_items(
                buf@.subrange(pos as int, end as int),
            ) {
                Ok(rest) => Ok::<Seq<ValueView>, DecodeError>(views(items@) + rest),
                Err(e) => Err::<Seq<ValueView>, DecodeError>(e),
            }),
        decreases end - pos,
    {
        let ghost here = buf@.subrange(pos as int, end as int);
        let ghost before = views(items@);
        match parse_value_at(buf, pos, end) {
            Err(e) => {
                return Err(e);
            },
            Ok((v, next)) => {
                assert(here.subrange(next - pos, here.len() as int) =~= buf@.subrange(
                    next as int,
                    end as int,
                ));
                let ghost item = v@;
                items.push(v);
                proof {
                    assert(views(items@) =~= before + seq![item]);
                    match parse_items(buf@.subrange(next as int, end as int)) {
                        Ok(rest) => {
                            assert(before + (seq![item] + rest) =~= views(items@) + rest);
                        },
                        Err(_) => {},
                    }
                }
                pos = next;
            },
        }
    }
    assert(views(items@) + Seq::<ValueView>::empty() =~= views(items@));
    Ok(items)
}

/// Decodes a value from bytes that hold it and nothing else.
pub fn decode_from(buf: &[u8]) -> (r: Result<Value, DecodeError>)
    ensures
        match r {
            Ok(v) => decode_value(buf@) == Ok::<ValueView, DecodeError>(v@),
            Err(e) => decode_value(buf@) == Err::<ValueView, DecodeError>(e),
        },
{
    assert(buf@.subrange(0, buf@.len() as int) =~= buf@);
    match parse_value_at(buf, 0, buf.len()) {
        Ok((v, next)) => {
            if next == buf.len() {
                Ok(v)
            } else {
                Err(DecodeError::Malformed)
            }
        },
        Err(e) => Err(e),
    }
}

impl WrapEncodable for Value {
    open spec fn name() -> Seq<char> {
        "Value"@
    }

    fn name_of_type() -> (name: String) {
        "Value".to_owned()
    }

    open spec fn encoding(v: ValueView) -> Seq<u8> {
        encode_value(v)
    }

    fn encode_wrapped(&self, out: &mut Vec<u8>) {
        encode_into(self, out)
    }
}

impl WrapDecodable for Value {
    open spec fn decoding(bytes: Seq<u8>) -> Result<ValueView, DecodeError> {
        decode_value(bytes)
    }

    fn decode_wrapped(buf: &[u8]) -> (r: Result<Value, DecodeError>) {
        decode_from(buf)
    }

    proof fn lemma_decode_encode(v: ValueView) {
        lemma_decode_value_encode(v);
    }
}

impl WrapCompress for Value {
}

impl WrapDecompress for Value {
}

impl WrapEncode for Value {
}

impl WrapDecode for Value {
}

/// Items that follow a first item are encoded as they are alone.
pub proof fn lemma_encode_items_shift(first: ValueView, rest: Seq<ValueView>, from: nat)
    ensures
        encode_items(seq![first] + rest, from + 1) == encode_items(rest, from),
    decreases rest.len() - from,
{
    let all = seq![first] + rest;
    if from < rest.len() {
        lemma_encode_items_shift(first, rest, from + 1);
        assert(all[(from + 1) as int] == rest[from as int]);
    }
}

/// Only a value's encoding reads as that value: where a value stands at
/// the front of `bytes`, the bytes it takes are its encoding.
pub proof fn lemma_parse_is_encoding(bytes: Seq<u8>)
    ensures
        parse_value(bytes) matches Ok((v, used)) ==> used <= bytes.len() && encode_value(v)
            == bytes.subrange(0, used as int),
    decreases bytes.len(), 0nat,
{
    if let Ok((v, used)) = parse_value(bytes) {
        let header = bytes.subrange(1, HEADER_LEN as int);
        lemma_be_bytes_of_value(header);
        let n = be_value(header);
        match v {
            ValueView::Uint(_) => {
                assert(encode_value(v) =~= bytes.subrange(0, used as int));
            },
            ValueView::Bytes(b) => {
                assert(b.len() == n);
                assert(encode_value(v) =~= bytes.subrange(0, used as int));
            },
            ValueView::List(items) => {
                let body = bytes.subrange(HEADER_LEN as int, HEADER_LEN + n);
                lemma_items_are_encoding(body);
                assert(encode_items(items, 0).len() == n);
                assert(encode_value(v) =~= bytes.subrange(0, used as int));
            },
        }
    }
}

/// Where values fill `body`, `body` is their encodings one after the other.
pub proof fn lemma_items_are_encoding(body: Seq<u8>)
    ensures
        parse_items(body) matches Ok(items) ==> encode_items(items, 0) == body,
    decreases body.len(), 1nat,
{
    if let Ok(items) = parse_items(body) {
        if body.len() > 0 {
            let (v, used) = parse_value(body)->Ok_0;
            let tail = body.subrange(used as int, body.len() as int);
            let rest = parse_items(tail)->Ok_0;
            lemma_parse_is_encoding(body);
            lemma_items_are_encoding(tail);
            lemma_encode_items_shift(v, rest, 0);
            assert(encode_items(items, 0) =~= body);
        }
    }
}

/// The encoding is the only byte string that decodes to a value: with
/// `lemma_decode_value_encode`, values and their encodings correspond one to
/// one.
pub proof fn lemma_decode_value_is_encoding(bytes: Seq<u8>, v: ValueView)
    requires
        decode_value(bytes) == Ok::<ValueView, DecodeError>(v),
    ensures
        bytes == encode_value(v),
{
    lemma_parse_is_encoding(bytes);
    assert(bytes.subrange(0, bytes.len() as int) =~= bytes);
}

} // verus!
