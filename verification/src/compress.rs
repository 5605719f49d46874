//! Application-level DEFLATE compression of WebSocket text messages, and the
//! one-byte prefix that marks a compressed binary frame.

use vstd::prelude::*;
use vstd::slice::slice_subrange;

verus! {

/// First byte of a compressed binary frame; no JSON text starts with it.
pub const COMPRESSED_FRAME_PREFIX: u8 = 0x01;

/// Name for the raw DEFLATE stream that flate2 produces for `data` at its fast
/// compression level.
pub uninterp spec fn deflate_fast(data: Seq<u8>) -> Seq<u8>;

/// Name for what flate2's raw DEFLATE decoder gives back for `data`: `None` when it
/// reports an error.
pub uninterp spec fn inflate(data: Seq<u8>) -> Option<Seq<u8>>;

/// Compresses `data`, by flate2's `write::DeflateEncoder` with `Compression::fast()`
/// (`write_all`, then `finish`). Claims that it succeeds (the encoder writes into a
/// `Vec`, which never refuses bytes) and gives the named compression of `data`,
/// which is never empty: `finish` closes the stream with a final block.
#[verifier::external_body]
fn deflate_bytes(data: &[u8]) -> (r: Option<Vec<u8>>)
    ensures
        r is Some,
        r matches Some(c) ==> c@ == deflate_fast(data@) && c@.len() > 0,
{
    let mut encoder = flate2::write::DeflateEncoder::new(Vec::new(), flate2::Compression::fast());
    match std::io::Write::write_all(&mut encoder, data) {
        Ok(()) => encoder.finish().ok(),
        Err(_) => None,
    }
}

/// Decompresses a raw DEFLATE stream, by flate2's `write::DeflateDecoder`
/// (`write_all`, then `finish`). Claims the outcome is the named decoding of
/// `data`, and that DEFLATE is lossless: a stream that flate2 made of some bytes
/// decodes to exactly those bytes.
#[verifier::external_body]
fn inflate_bytes(data: &[u8]) -> (r: Option<Vec<u8>>)
    ensures
        match r {
            Some(v) => inflate(data@) == Some(v@) && forall|x: Seq<u8>| data@ == deflate_fast(x) ==> v@ == x,
            None => inflate(data@) is None && forall|x: Seq<u8>| data@ != deflate_fast(x),
        },
{
    let mut decoder = flate2::write::DeflateDecoder::new(Vec::new());
    match std::io::Write::write_all(&mut decoder, data) {
        Ok(()) => decoder.finish().ok(),
        Err(_) => None,
    }
}

/// A frame whose payload is not a valid DEFLATE stream.
#[derive(Clone, Copy, Debug, PartialEq, Eq, Structural)]
pub struct DecompressError;

/// Compresses a text message into a frame: the prefix byte, then the DEFLATE
/// stream.
pub fn compress_text(data: &[u8]) -> (r: Vec<u8>)
    ensures
        r@ == seq![COMPRESSED_FRAME_PREFIX] + deflate_fast(data@),
        r@.len() > 1,
{
    let compressed = deflate_bytes(data).unwrap();
    let mut out: Vec<u8> = Vec::new();
    out.push(COMPRESSED_FRAME_PREFIX);
    let mut i: usize = 0;
    while i < compressed.len()
        invariant
            i <= compressed@.len(),
            out@ == seq![COMPRESSED_FRAME_PREFIX] + compressed@.take(i as int),
        decreases compressed@.len() - i,
    {
        out.push(compressed[i]);
        assert(compressed@.take(i + 1) == compressed@.take(i as int).push(compressed@[i as int]));
        i = i + 1;
    }
    assert(compressed@.take(i as int) == compressed@);
    out
}

/// Decompresses the payload of a compressed frame (without its prefix byte).
/// Decompressing what `compress_text` made of some bytes gives those bytes back.
pub fn decompress_text(data: &[u8]) -> (r: Result<Vec<u8>, DecompressError>)
    ensures
        match r {
            Ok(v) => inflate(data@) == Some(v@),
            Err(_) => inflate(data@) is None,
        },
        forall|x: Seq<u8>| data@ == deflate_fast(x) ==> (r matches Ok(v) && v@ == x),
{
    match inflate_bytes(data) {
        Some(v) => Ok(v),
        None => Err(DecompressError),
    }
}

/// Whether a frame is a compressed one: its first byte is the prefix.
pub fn is_compressed_frame(data: &[u8]) -> (r: bool)
    ensures
        r == (data@.len() > 0 && data@[0] == COMPRESSED_FRAME_PREFIX),
{
    data.len() > 0 && data[0] == COMPRESSED_FRAME_PREFIX
}

/// The payload of a frame: without its first byte when it is compressed.
pub fn strip_compression_prefix(data: &[u8]) -> (r: &[u8])
    ensures
        r@ == if data@.len() > 0 && data@[0] == COMPRESSED_FRAME_PREFIX { data@.skip(1) } else { data@ },
{
    if is_compressed_frame(data) {
        let r = slice_subrange(data, 1, data.len());
        assert(r@ =~= data@.skip(1));
        r
    } else {
        data
    }
}

} // verus!
