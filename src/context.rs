//! The compression and decompression contexts: their lifetime, and the one
//! call each makes on a caller's source and destination regions.
use vstd::prelude::*;
use crate::engine::{
    compression_level, new_compressor, new_decompressor, zlib_bound_of, zlib_compress,
    zlib_compress_bound, zlib_compressed, zlib_decoded, zlib_decompress, zlib_rejects, MAX_LEVEL,
    MIN_LEVEL,
};
use crate::outcome::{DeflateResult, InflateResult};

verus! {

/// The state of one compressor, fixed to the level it was made with.
pub struct DeflateContext {
    pub(crate) compressor: libdeflater::Compressor,
    pub(crate) level: i32,
}

/// The state of one decompressor.
pub struct InflateContext {
    decompressor: libdeflater::Decompressor,
}

impl DeflateContext {
    /// The level this context compresses at.
    pub closed spec fn spec_level(&self) -> int {
        self.level as int
    }

    /// The level is always one that the engine accepts.
    pub closed spec fn wf(&self) -> bool {
        MIN_LEVEL <= self.level <= MAX_LEVEL
    }

    /// The largest compressed size of any input of `n` bytes.
    pub fn compress_bound(&mut self, n: usize) -> (r: usize)
        requires
            n <= isize::MAX,
        ensures
            r == zlib_bound_of(n as int),
            final(self).spec_level() == old(self).spec_level(),
            final(self).wf() == old(self).wf(),
    {
        zlib_compress_bound(&mut self.compressor, n)
    }

    /// The level this context compresses at.
    pub fn level(&self) -> (r: i32)
        ensures
            r == self.spec_level(),
    {
        self.level
    }
}

/// What a compression of `source` at `level` into a destination of
/// `dest_len` bytes comes to: `written` is the destination afterwards, `r`
/// the outcome. It succeeds exactly when the engine's stream fits, and then
/// the destination starts with that stream, which decodes to the source.
pub open spec fn deflated(
    level: int,
    source: Seq<u8>,
    dest_len: nat,
    written: Seq<u8>,
    r: DeflateResult,
) -> bool {
    let stream = zlib_compressed(level, source);
    &&& written.len() == dest_len
    &&& match r {
        DeflateResult::Success(n) => {
            &&& 0 < n == stream.len() <= dest_len
            &&& written.take(n as int) == stream
            &&& zlib_decoded(stream) == Some(source)
        },
        DeflateResult::InsufficientSpace => {
            &&& stream.len() > dest_len
            &&& dest_len < zlib_bound_of(source.len() as int)
        },
        DeflateResult::Error => false,
    }
}

/// What a decompression of `source` into a destination of `dest_len` bytes
/// comes to: bad data exactly where the engine reports it, which it does only
/// for a stream it rejects; otherwise success,
/// with the destination filled exactly, where the stream decodes to
/// `dest_len` bytes; a size error where it decodes to more, or where the
/// room ran out before the engine could tell; a generic error where it
/// decodes to fewer.
pub open spec fn inflated(source: Seq<u8>, dest_len: nat, written: Seq<u8>, r: InflateResult) -> bool {
    &&& written.len() == dest_len
    &&& if zlib_rejects(source, dest_len as int) {
        r == InflateResult::BadData && zlib_decoded(source) is None
    } else {
        match zlib_decoded(source) {
            Some(d) => if d.len() == dest_len {
                r == InflateResult::Success && written == d
            } else if d.len() > dest_len {
                r == InflateResult::InsufficientSpace
            } else {
                r == InflateResult::Error
            },
            None => r == InflateResult::InsufficientSpace,
        }
    }
}

/// The length that a foreign caller declared, where it is one; a negative
/// length is `None`.
pub fn checked_len(len: i32) -> (r: Option<usize>)
    ensures
        r == if len >= 0 {
            Some(len as usize)
        } else {
            None::<usize>
        },
{
    if len >= 0 {
        Some(len as usize)
    } else {
        None
    }
}

/// Makes a compression context for `level`; `None` where the engine does not
/// accept the level.
pub fn deflate_init(level: i32) -> (r: Option<DeflateContext>)
    ensures
        r is Some <==> MIN_LEVEL <= level <= MAX_LEVEL,
        r matches Some(c) ==> c.wf() && c.spec_level() == level,
{
    match compression_level(level) {
        Some(lvl) => {
            let compressor = new_compressor(lvl);
            Some(DeflateContext { compressor, level })
        },
        None => None,
    }
}

/// Makes a decompression context; this always succeeds.
pub fn inflate_init() -> (r: InflateContext) {
    InflateContext { decompressor: new_decompressor() }
}

/// Releases a compression context, exactly once, as it is taken by value;
/// a missing one is no error.
pub fn deflate_free(ctx: Option<Box<DeflateContext>>) {
    // Ownership ends here, which releases the engine state.
}

/// Releases a decompression context, exactly once, as it is taken by value;
/// a missing one is no error.
pub fn inflate_free(ctx: Option<Box<InflateContext>>) {
    // Ownership ends here, which releases the engine state.
}

/// Compresses all of `source` as one zlib stream at the start of `dest`.
/// Without a context, reports an error and leaves `dest` as it was.
pub fn deflate_process(ctx: Option<&mut DeflateContext>, source: &[u8], dest: &mut [u8]) -> (r:
    DeflateResult)
    ensures
        ctx is None ==> r == DeflateResult::Error && final(dest)@ == old(dest)@,
        ctx matches Some(c) ==> deflated(c.spec_level(), source@, old(dest)@.len(), final(dest)@, r),
{
    match ctx {
        None => DeflateResult::Error,
        Some(context) => match zlib_compress(context, source, dest) {
            Ok(n) => DeflateResult::Success(n),
            Err(_) => DeflateResult::InsufficientSpace,
        },
    }
}

/// Decompresses the zlib stream at the start of `source` into `dest`, whose
/// length is the caller's declared decompressed size. Without a context,
/// reports an error and leaves `dest` as it was.
pub fn inflate_process(ctx: Option<&mut InflateContext>, source: &[u8], dest: &mut [u8]) -> (r:
    InflateResult)
    ensures
        ctx is None ==> r == InflateResult::Error && final(dest)@ == old(dest)@,
        ctx is Some ==> inflated(source@, old(dest)@.len(), final(dest)@, r),
{
    match ctx {
        None => InflateResult::Error,
        Some(context) => {
            let dest_len = dest.len();
            match zlib_decompress(&mut context.decompressor, source, dest) {
                Ok(n) => {
                    if n == dest_len {
                        assert(dest@.take(n as int) =~= dest@);
                        InflateResult::Success
                    } else {
                        InflateResult::Error
                    }
                },
                Err(libdeflater::DecompressionError::BadData) => InflateResult::BadData,
                Err(libdeflater::DecompressionError::InsufficientSpace) => {
                    InflateResult::InsufficientSpace
                },
            }
        },
    }
}

} // verus!
