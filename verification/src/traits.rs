//! The codec contracts that a key or value type meets.

use vstd::prelude::*;
use crate::codecs::{
    compress_to_buf,
    decompress,
    decompressed,
    zstd_compressed,
    zstd_decompressed,
    COMPRESSION_LEVEL,
};
use crate::error::{DatabaseError, DecodeError, EncodeError};

verus! {

/// A type with a byte encoding. The encoding is a function of the value's
/// view and never fails.
pub trait WrapEncodable: View + Sized {
    /// The name by which a table's declaration knows the type.
    spec fn name() -> Seq<char>;

    /// Gives the type's name.
    fn name_of_type() -> (name: String)
        ensures
            name@ == Self::name(),
    ;

    /// The bytes that stand for a value.
    spec fn encoding(v: Self::V) -> Seq<u8>;

    /// Appends the value's encoding to `out`.
    fn encode_wrapped(&self, out: &mut Vec<u8>)
        ensures
            final(out)@ == old(out)@ + Self::encoding(self@),
    ;
}

/// A type that can be read back from its encoding.
pub trait WrapDecodable: WrapEncodable {
    /// The value that bytes stand for, or why they stand for none.
    spec fn decoding(bytes: Seq<u8>) -> Result<Self::V, DecodeError>;

    /// Reads a value from `buf`.
    fn decode_wrapped(buf: &[u8]) -> (r: Result<Self, DecodeError>)
        ensures
            match r {
                Ok(v) => Self::decoding(buf@) == Ok::<Self::V, DecodeError>(v@),
                Err(e) => Self::decoding(buf@) == Err::<Self::V, DecodeError>(e),
            },
    ;

    /// Decoding undoes encoding, for every value whose encoding fits in
    /// memory.
    proof fn lemma_decode_encode(v: Self::V)
        requires
            Self::encoding(v).len() <= usize::MAX,
        ensures
            Self::decoding(Self::encoding(v)) == Ok::<Self::V, DecodeError>(v),
    ;
}

/// What `decompress_wrapped` makes of a stored frame: the frame is
/// decompressed, then decoded.
pub open spec fn decompressing<T: WrapDecodable>(frame: Seq<u8>) -> Result<T::V, DecodeError> {
    match decompressed(frame) {
        Ok(raw) => T::decoding(raw),
        Err(e) => Err(e),
    }
}

/// A value type that is stored compressed.
pub trait WrapCompress: WrapDecodable {
    /// Encodes the value, compresses the encoding and appends the frame to
    /// `buf`. The frame decompresses to the very bytes of the encoding, and
    /// so reads back as the value. Where the compressor gives no frame,
    /// `buf` stays as it was.
    fn compress_to_buf_wrapped(&self, buf: &mut Vec<u8>) -> (r: Result<(), EncodeError>)
        ensures
            match r {
                Ok(_) => {
                    let frame = zstd_compressed(Self::encoding(self@), COMPRESSION_LEVEL);
                    &&& final(buf)@ == old(buf)@ + frame
                    &&& zstd_decompressed(frame) == Some(Self::encoding(self@))
                    &&& decompressing::<Self>(frame) == Ok::<Self::V, DecodeError>(self@)
                },
                Err(e) => e == EncodeError::Compression && final(buf)@ == old(buf)@,
            },
    {
        let mut encoded: Vec<u8> = Vec::new();
        self.encode_wrapped(&mut encoded);
        let encoded_len: usize = encoded.len();
        proof {
            assert(encoded@ =~= Self::encoding(self@));
            assert(Self::encoding(self@).len() == encoded_len);
            Self::lemma_decode_encode(self@);
        }
        compress_to_buf(encoded.as_slice(), buf)
    }
}

/// A value type that is read back from a compressed frame.
pub trait WrapDecompress: WrapDecodable {
    /// Decompresses and decodes a stored frame. A frame that the compressor
    /// refuses gives `CompressionCorrupt`; bytes that decode to no value give
    /// the decoder's error.
    fn decompress_wrapped(value: &[u8]) -> (r: Result<Self, DatabaseError>)
        ensures
            match r {
                Ok(v) => decompressing::<Self>(value@) == Ok::<Self::V, DecodeError>(v@),
                Err(e) => exists|d: DecodeError|
                    e == DatabaseError::Decode(d) && decompressing::<Self>(value@) == Err::<
                        Self::V,
                        DecodeError,
                    >(d),
            },
    {
        match decompress(value) {
            Ok(raw) => match Self::decode_wrapped(raw.as_slice()) {
                Ok(v) => Ok(v),
                Err(d) => Err(DatabaseError::Decode(d)),
            },
            Err(d) => Err(DatabaseError::Decode(d)),
        }
    }
}

/// A key type: its encoding is stored as it is.
pub trait WrapEncode: WrapEncodable {
    /// The key's encoding.
    fn encode_key_wrapped(self) -> (key: Vec<u8>)
        ensures
            key@ == Self::encoding(self@),
    {
        let mut buf: Vec<u8> = Vec::new();
        self.encode_wrapped(&mut buf);
        assert(buf@ =~= Self::encoding(self@));
        buf
    }
}

/// A key type that is read back from its stored encoding.
pub trait WrapDecode: WrapDecodable {
    /// Reads a key from its stored encoding.
    fn decode_wrapped_key(value: &[u8]) -> (r: Result<Self, DatabaseError>)
        ensures
            match r {
                Ok(k) => Self::decoding(value@) == Ok::<Self::V, DecodeError>(k@),
                Err(e) => exists|d: DecodeError|
                    e == DatabaseError::Decode(d) && Self::decoding(value@) == Err::<
                        Self::V,
                        DecodeError,
                    >(d),
            },
    {
        match Self::decode_wrapped(value) {
            Ok(k) => Ok(k),
            Err(d) => Err(DatabaseError::Decode(d)),
        }
    }
}

} // verus!
