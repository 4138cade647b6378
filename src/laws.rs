//! Laws that relate the outcomes of several calls.
use vstd::prelude::*;
use crate::context::{deflated, inflated};
use crate::engine::{zlib_bound_of, zlib_decoded};
use crate::outcome::{DeflateResult, InflateResult};

verus! {

/// Decompressing what a successful compression wrote, into a destination
/// declared with the original length, succeeds and gives back the original.
pub proof fn lemma_round_trip(
    level: int,
    source: Seq<u8>,
    dest_len: nat,
    compressed: Seq<u8>,
    n: usize,
    restored: Seq<u8>,
    r: InflateResult,
)
    requires
        deflated(level, source, dest_len, compressed, DeflateResult::Success(n)),
        inflated(compressed.take(n as int), source.len(), restored, r),
    ensures
        r == InflateResult::Success,
        restored == source,
{
}

/// A destination of at least the compress bound of the source length is
/// never too small.
pub proof fn lemma_bound_suffices(
    level: int,
    source: Seq<u8>,
    dest_len: nat,
    written: Seq<u8>,
    r: DeflateResult,
)
    requires
        deflated(level, source, dest_len, written, r),
        dest_len >= zlib_bound_of(source.len() as int),
    ensures
        r is Success,
{
}

/// A stream that the engine rejects never decompresses successfully.
pub proof fn lemma_rejected_never_succeeds(
    source: Seq<u8>,
    dest_len: nat,
    written: Seq<u8>,
    r: InflateResult,
)
    requires
        inflated(source, dest_len, written, r),
        zlib_decoded(source) is None,
    ensures
        r != InflateResult::Success,
{
}

/// A successful decompression wrote exactly what the stream decodes to.
pub proof fn lemma_success_is_exact(source: Seq<u8>, dest_len: nat, written: Seq<u8>)
    requires
        inflated(source, dest_len, written, InflateResult::Success),
    ensures
        zlib_decoded(source) == Some(written),
{
}

/// Two decompressions of the same source into destinations of the same
/// length, by any two contexts or by one context twice, come to the same
/// outcome, and where they succeed they write the same bytes.
pub proof fn lemma_inflate_independent(
    source: Seq<u8>,
    dest_len: nat,
    first: Seq<u8>,
    r1: InflateResult,
    second: Seq<u8>,
    r2: InflateResult,
)
    requires
        inflated(source, dest_len, first, r1),
        inflated(source, dest_len, second, r2),
    ensures
        r1 == r2,
        r1 == InflateResult::Success ==> first == second,
{
}

/// Two compressions at the same level of the same source into destinations
/// of the same length, by any two contexts or by one context twice, come to
/// the same outcome and write the same stream.
pub proof fn lemma_deflate_independent(
    level: int,
    source: Seq<u8>,
    dest_len: nat,
    first: Seq<u8>,
    r1: DeflateResult,
    second: Seq<u8>,
    r2: DeflateResult,
)
    requires
        deflated(level, source, dest_len, first, r1),
        deflated(level, source, dest_len, second, r2),
    ensures
        r1 == r2,
        r1 matches DeflateResult::Success(n) ==> first.take(n as int) == second.take(n as int),
{
}

} // verus!
