//! The outcomes of one process call, and their translation into the error
//! idiom of each calling convention.
use vstd::prelude::*;

verus! {

/// What one compression call came to.
#[derive(Clone, Copy, Debug, PartialEq, Eq, Structural)]
pub enum DeflateResult {
    /// The destination now starts with this many bytes of compressed data.
    Success(usize),
    /// The destination was too small for the compressed data.
    InsufficientSpace,
    /// Any other failure, such as a null context.
    Error,
}

/// What one decompression call came to.
#[derive(Clone, Copy, Debug, PartialEq, Eq, Structural)]
pub enum InflateResult {
    /// The destination is filled, exactly, with the decompressed data.
    Success,
    /// The declared destination length is not the decompressed length.
    InsufficientSpace,
    /// The source is not a zlib stream that the engine accepts.
    BadData,
    /// Any other failure, such as a null context.
    Error,
}

/// A failure that the managed-runtime surface raises as an exception.
#[derive(Clone, Copy, Debug, PartialEq, Eq, Structural)]
pub enum ManagedError {
    /// No compressor could be made for the requested level.
    OutOfMemory,
    /// The source of a decompression is not valid compressed data.
    BadData,
    /// The declared decompressed size is not the true one.
    InaccurateSize,
    /// A decompression failed in some other way.
    UnknownCode,
}

impl ManagedError {
    /// The runtime class of the exception raised for this failure.
    pub fn class_name(&self) -> (r: &'static str)
        ensures
            r@ == (match *self {
                ManagedError::OutOfMemory => "java/lang/OutOfMemoryError"@,
                _ => "java/util/zip/DataFormatException"@,
            }),
    {
        match self {
            ManagedError::OutOfMemory => "java/lang/OutOfMemoryError",
            _ => "java/util/zip/DataFormatException",
        }
    }

    /// The fixed message of the exception raised for this failure.
    pub fn message(&self) -> (r: &'static str)
        ensures
            r@ == (match *self {
                ManagedError::OutOfMemory => "libdeflate allocate compressor"@,
                ManagedError::BadData => "inflate data is bad"@,
                ManagedError::InaccurateSize => "uncompressed size is inaccurate"@,
                ManagedError::UnknownCode => "unknown return code"@,
            }),
    {
        match self {
            ManagedError::OutOfMemory => "libdeflate allocate compressor",
            ManagedError::BadData => "inflate data is bad",
            ManagedError::InaccurateSize => "uncompressed size is inaccurate",
            ManagedError::UnknownCode => "unknown return code",
        }
    }
}

/// The C surface's code for a compression outcome: the byte count on
/// success, 0 when the destination is too small, -1 on any other failure.
pub fn deflate_result_to_c(r: DeflateResult) -> (code: i32)
    requires
        r matches DeflateResult::Success(n) ==> n <= i32::MAX,
    ensures
        code as int == match r {
            DeflateResult::Success(n) => n as int,
            DeflateResult::InsufficientSpace => 0,
            DeflateResult::Error => -1,
        },
{
    match r {
        DeflateResult::Success(n) => n as i32,
        DeflateResult::InsufficientSpace => 0,
        DeflateResult::Error => -1,
    }
}

/// The managed surface's value for a compression outcome: the byte count on
/// success, 0 on every failure, with no exception.
pub fn deflate_result_to_managed(r: DeflateResult) -> (count: i32)
    requires
        r matches DeflateResult::Success(n) ==> n <= i32::MAX,
    ensures
        count as int == match r {
            DeflateResult::Success(n) => n as int,
            _ => 0,
        },
{
    match r {
        DeflateResult::Success(n) => n as i32,
        DeflateResult::InsufficientSpace => 0,
        DeflateResult::Error => 0,
    }
}

/// The C surface's status code for a decompression outcome.
pub fn inflate_result_to_c(r: InflateResult) -> (code: i32)
    ensures
        code as int == match r {
            InflateResult::Success => 0int,
            InflateResult::InsufficientSpace => 1,
            InflateResult::BadData => 2,
            InflateResult::Error => 3,
        },
{
    match r {
        InflateResult::Success => 0,
        InflateResult::InsufficientSpace => 1,
        InflateResult::BadData => 2,
        InflateResult::Error => 3,
    }
}

/// The managed surface's exception for a decompression outcome; `None` where
/// the call succeeded and the surface returns true.
pub fn inflate_result_to_managed(r: InflateResult) -> (e: Option<ManagedError>)
    ensures
        e == match r {
            InflateResult::Success => None,
            InflateResult::InsufficientSpace => Some(ManagedError::InaccurateSize),
            InflateResult::BadData => Some(ManagedError::BadData),
            InflateResult::Error => Some(ManagedError::UnknownCode),
        },
{
    match r {
        InflateResult::Success => None,
        InflateResult::InsufficientSpace => Some(ManagedError::InaccurateSize),
        InflateResult::BadData => Some(ManagedError::BadData),
        InflateResult::Error => Some(ManagedError::UnknownCode),
    }
}

} // verus!
