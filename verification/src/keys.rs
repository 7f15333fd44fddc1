//! Codecs of the integer keys. A key is stored as its bytes, most
//! significant first, so that the engine's byte order is the numeric order.

use vstd::prelude::*;
use crate::error::DecodeError;
use crate::portable::{be_bytes, be_value, get_be, lemma_be_round_trip, put_be};
use crate::traits::{
    WrapCompress,
    WrapDecodable,
    WrapDecode,
    WrapDecompress,
    WrapEncodable,
    WrapEncode,
};

verus! {

impl WrapEncodable for u8 {
    open spec fn name() -> Seq<char> {
        "u8"@
    }

    fn name_of_type() -> (name: String) {
        "u8".to_owned()
    }

    open spec fn encoding(v: u8) -> Seq<u8> {
        seq![v]
    }

    fn encode_wrapped(&self, out: &mut Vec<u8>) {
        out.push(*self);
        assert(out@ =~= old(out)@ + seq![*self]);
    }
}

impl WrapDecodable for u8 {
    open spec fn decoding(bytes: Seq<u8>) -> Result<u8, DecodeError> {
        if bytes.len() < 1 {
            Err(DecodeError::Truncated)
        } else if bytes.len() > 1 {
            Err(DecodeError::Malformed)
        } else {
            Ok(bytes[0])
        }
    }

    fn decode_wrapped(buf: &[u8]) -> (r: Result<u8, DecodeError>) {
        if buf.len() < 1 {
            Err(DecodeError::Truncated)
        } else if buf.len() > 1 {
            Err(DecodeError::Malformed)
        } else {
            Ok(buf[0])
        }
    }

    proof fn lemma_decode_encode(v: u8) {
    }
}

impl WrapCompress for u8 {
}

impl WrapDecompress for u8 {
}

impl WrapEncode for u8 {
}

impl WrapDecode for u8 {
}

impl WrapEncodable for u64 {
    open spec fn name() -> Seq<char> {
        "u64"@
    }

    fn name_of_type() -> (name: String) {
        "u64".to_owned()
    }

    open spec fn encoding(v: u64) -> Seq<u8> {
        be_bytes(v)
    }

    fn encode_wrapped(&self, out: &mut Vec<u8>) {
        put_be(*self, out);
    }
}

impl WrapDecodable for u64 {
    open spec fn decoding(bytes: Seq<u8>) -> Result<u64, DecodeError> {
        if bytes.len() < 8 {
            Err(DecodeError::Truncated)
        } else if bytes.len() > 8 {
            Err(DecodeError::Malformed)
        } else {
            Ok(be_value(bytes))
        }
    }

    fn decode_wrapped(buf: &[u8]) -> (r: Result<u64, DecodeError>) {
        if buf.len() < 8 {
            Err(DecodeError::Truncated)
        } else if buf.len() > 8 {
            Err(DecodeError::Malformed)
        } else {
            assert(buf@.subrange(0, 8) =~= buf@);
            Ok(get_be(buf, 0))
        }
    }

    proof fn lemma_decode_encode(v: u64) {
        lemma_be_round_trip(v);
    }
}

impl WrapCompress for u64 {
}

impl WrapDecompress for u64 {
}

impl WrapEncode for u64 {
}

impl WrapDecode for u64 {
}

} // verus!
