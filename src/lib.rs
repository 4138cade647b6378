//! A bridge between foreign callers and the libdeflate zlib engine.
//!
//! Callers hold opaque compression and decompression contexts, hand over a
//! source region and a destination region for one call at a time, and get
//! the outcome back in the error idiom of their own calling convention.
mod context;
mod engine;
mod laws;
mod outcome;

pub use engine::{
    zlib_bound_of, zlib_compressed, zlib_decoded, zlib_rejects, MAX_LEVEL, MIN_LEVEL,
};
pub use outcome::{
    deflate_result_to_c, deflate_result_to_managed, inflate_result_to_c,
    inflate_result_to_managed, DeflateResult, InflateResult, ManagedError,
};
pub use context::{
    checked_len, deflate_free, deflate_init, deflate_process, deflated, inflate_free, inflate_init,
    inflate_process, inflated, DeflateContext, InflateContext,
};
pub use laws::{
    lemma_bound_suffices, lemma_deflate_independent, lemma_inflate_independent, lemma_rejected_never_succeeds,
    lemma_round_trip, lemma_success_is_exact,
};
