//! Compression of encoded values, and the steps that the codec traits share.

use vstd::prelude::*;
use crate::error::{DecodeError, EncodeError};

verus! {

/// The compression level the layer stores with: the compressor's default.
pub const COMPRESSION_LEVEL: i32 = 0;

/// The frame that the compressor makes of `data` at `level`.
pub uninterp spec fn zstd_compressed(data: Seq<u8>, level: i32) -> Seq<u8>;

/// What the compressor reads out of `frame`; `None` where it is no frame.
pub uninterp spec fn zstd_decompressed(frame: Seq<u8>) -> Option<Seq<u8>>;

/// `zstd::encode_all`: compresses `data` into one frame. Where the
/// compressor reports an error, `None`. A frame it returns is the one named
/// by `zstd_compressed`, and decompresses to `data` again.
#[verifier::external_body]
fn zstd_encode_all(data: &[u8], level: i32) -> (frame: Option<Vec<u8>>)
    ensures
        frame matches Some(f) ==> f@ == zstd_compressed(data@, level) && zstd_decompressed(f@)
            == Some(data@),
{
    zstd::encode_all(data, level).ok()
}

/// `zstd::decode_all`: decompresses `frame`. `None` where the compressor
/// reports an error.
#[verifier::external_body]
fn zstd_decode_all(frame: &[u8]) -> (data: Option<Vec<u8>>)
    ensures
        match data {
            Some(d) => zstd_decompressed(frame@) == Some(d@),
            None => zstd_decompressed(frame@).is_none(),
        },
{
    zstd::decode_all(frame).ok()
}

/// Appends a frame to `buf`, or reports that there is none.
pub fn append_frame(frame: Option<Vec<u8>>, buf: &mut Vec<u8>) -> (r: Result<(), EncodeError>)
    ensures
        match frame {
            Some(f) => r.is_ok() && final(buf)@ == old(buf)@ + f@,
            None => r == Err::<(), EncodeError>(EncodeError::Compression) && final(buf)@ == old(
                buf,
            )@,
        },
{
    match frame {
        Some(f) => {
            let mut f = f;
            buf.append(&mut f);
            Ok(())
        },
        None => Err(EncodeError::Compression),
    }
}

/// Compresses `encoded` and appends the frame to `buf`. Where the compressor
/// gives no frame, `buf` stays as it was.
pub fn compress_to_buf(encoded: &[u8], buf: &mut Vec<u8>) -> (r: Result<(), EncodeError>)
    ensures
        match r {
            Ok(_) => final(buf)@ == old(buf)@ + zstd_compressed(encoded@, COMPRESSION_LEVEL)
                && zstd_decompressed(zstd_compressed(encoded@, COMPRESSION_LEVEL)) == Some(
                encoded@,
            ),
            Err(e) => e == EncodeError::Compression && final(buf)@ == old(buf)@,
        },
{
    let frame = zstd_encode_all(encoded, COMPRESSION_LEVEL);
    append_frame(frame, buf)
}

/// What `decompress` makes of a frame.
pub open spec fn decompressed(frame: Seq<u8>) -> Result<Seq<u8>, DecodeError> {
    match zstd_decompressed(frame) {
        Some(d) => Ok(d),
        None => Err(DecodeError::CompressionCorrupt),
    }
}

/// Names the outcome of decompression: the bytes, or `CompressionCorrupt`.
pub fn frame_contents(data: Option<Vec<u8>>) -> (r: Result<Vec<u8>, DecodeError>)
    ensures
        match data {
            Some(d) => r == Ok::<Vec<u8>, DecodeError>(d),
            None => r == Err::<Vec<u8>, DecodeError>(DecodeError::CompressionCorrupt),
        },
{
    match data {
        Some(d) => Ok(d),
        None => Err(DecodeError::CompressionCorrupt),
    }
}

/// Decompresses a stored frame. Fails with `CompressionCorrupt` exactly
/// where the bytes are no frame of the compressor.
pub fn decompress(frame: &[u8]) -> (r: Result<Vec<u8>, DecodeError>)
    ensures
        match r {
            Ok(d) => decompressed(frame@) == Ok::<Seq<u8>, DecodeError>(d@),
            Err(e) => decompressed(frame@) == Err::<Seq<u8>, DecodeError>(e),
        },
{
    let data = zstd_decode_all(frame);
    frame_contents(data)
}

} // verus!
