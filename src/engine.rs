//! The trusted boundary to libdeflater: the outside types, the names given to
//! what its functions compute, and one wrapper per function that the bridge
//! calls.
use vstd::prelude::*;
use crate::context::DeflateContext;

verus! {

/// The smallest compression level that libdeflate accepts.
pub const MIN_LEVEL: i32 = 0;

/// The largest compression level that libdeflate accepts.
pub const MAX_LEVEL: i32 = 12;

#[verifier::external_type_specification]
#[verifier::external_body]
pub struct ExCompressionLvl(libdeflater::CompressionLvl);

#[verifier::external_type_specification]
#[verifier::external_body]
pub struct ExCompressor(libdeflater::Compressor);

#[verifier::external_type_specification]
#[verifier::external_body]
pub struct ExDecompressor(libdeflater::Decompressor);

#[verifier::external_type_specification]
pub struct ExCompressionError(libdeflater::CompressionError);

#[verifier::external_type_specification]
pub struct ExDecompressionError(libdeflater::DecompressionError);

/// What the zlib stream at the head of `data` decodes to, as libdeflate's
/// zlib decoder reads it; `None` where that decoder rejects the stream.
pub uninterp spec fn zlib_decoded(data: Seq<u8>) -> Option<Seq<u8>>;

/// Whether libdeflate's zlib decoder, given `out_len` bytes of room, reports
/// `data` as bad data.
pub uninterp spec fn zlib_rejects(data: Seq<u8>, out_len: int) -> bool;

/// The zlib stream that a libdeflate compressor of `level` writes for `data`.
pub uninterp spec fn zlib_compressed(level: int, data: Seq<u8>) -> Seq<u8>;

/// libdeflate's worst-case size of the zlib output for any input of at most
/// `n` bytes: the zlib header and checksum, five bytes for each stored block
/// of up to 5000 bytes (at least one block), and the input itself.
pub open spec fn zlib_bound_of(n: int) -> int {
    6 + 5 * (if n <= 5000 { 1 } else { (n + 4999) / 5000 }) + n
}

/// Relies on `CompressionLvl::new`: it accepts exactly the levels from
/// `MIN_LEVEL` to `MAX_LEVEL`.
#[verifier::external_body]
pub(crate) fn compression_level(level: i32) -> (r: Option<libdeflater::CompressionLvl>)
    ensures
        r.is_some() <==> MIN_LEVEL <= level <= MAX_LEVEL,
{
    libdeflater::CompressionLvl::new(level).ok()
}

/// Relies on `Compressor::new`, which allocates libdeflate's compressor
/// state for a level; it panics only where that allocation fails.
#[verifier::external_body]
pub(crate) fn new_compressor(level: libdeflater::CompressionLvl) -> (r: libdeflater::Compressor) {
    libdeflater::Compressor::new(level)
}

/// Relies on `Decompressor::new`, which allocates libdeflate's decompressor
/// state; it panics only where that allocation fails.
#[verifier::external_body]
pub(crate) fn new_decompressor() -> (r: libdeflater::Decompressor) {
    libdeflater::Decompressor::new()
}

/// Relies on `Compressor::zlib_compress`: libdeflate writes the same stream
/// for the same level and input, a non-empty zlib stream that decodes to the
/// input, and fails exactly when that stream does not fit the destination,
/// which never happens at `zlib_compress_bound` of the input length or more.
#[verifier::external_body]
pub(crate) fn zlib_compress(ctx: &mut DeflateContext, source: &[u8], dest: &mut [u8]) -> (r:
    Result<usize, libdeflater::CompressionError>)
    ensures
        final(ctx).level == old(ctx).level,
        final(dest)@.len() == old(dest)@.len(),
        match r {
            Ok(n) => {
                &&& 0 < n <= old(dest)@.len()
                &&& final(dest)@.take(n as int) == zlib_compressed(old(ctx).level as int, source@)
                &&& zlib_decoded(final(dest)@.take(n as int)) == Some(source@)
            },
            Err(_) => {
                &&& zlib_compressed(old(ctx).level as int, source@).len() > old(dest)@.len()
                &&& old(dest)@.len() < zlib_bound_of(source@.len() as int)
            },
        },
{
    ctx.compressor.zlib_compress(source, dest)
}

/// Relies on `Compressor::zlib_compress_bound`, which computes
/// `zlib_bound_of(n)` for every compressor.
#[verifier::external_body]
pub(crate) fn zlib_compress_bound(compressor: &mut libdeflater::Compressor, n: usize) -> (r: usize)
    requires
        n <= isize::MAX,
    ensures
        r == zlib_bound_of(n as int),
{
    compressor.zlib_compress_bound(n)
}

/// Relies on `Decompressor::zlib_decompress`: on success the first `n` bytes
/// of the destination hold the decoded stream; `BadData` comes exactly where
/// the decoder reports bad data for this room, and only for a stream it
/// rejects; `InsufficientSpace` only where a valid stream would decode to
/// more than the destination holds.
#[verifier::external_body]
pub(crate) fn zlib_decompress(
    decompressor: &mut libdeflater::Decompressor,
    source: &[u8],
    dest: &mut [u8],
) -> (r: Result<usize, libdeflater::DecompressionError>)
    ensures
        final(dest)@.len() == old(dest)@.len(),
        (r matches Err(libdeflater::DecompressionError::BadData)) == zlib_rejects(
            source@,
            old(dest)@.len() as int,
        ),
        match r {
            Ok(n) => n <= old(dest)@.len() && zlib_decoded(source@) == Some(
                final(dest)@.take(n as int),
            ),
            Err(libdeflater::DecompressionError::BadData) => zlib_decoded(source@) is None,
            Err(libdeflater::DecompressionError::InsufficientSpace) => match zlib_decoded(
                source@,
            ) {
                Some(d) => d.len() > old(dest)@.len(),
                None => true,
            },
        },
{
    decompressor.zlib_decompress(source, dest)
}

} // verus!
