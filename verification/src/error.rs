//! Error taxonomy of the codec.
//!
//! Every failure of parsing, validation, decompression or export is
//! reported through a typed variant; no operation returns a partially
//! built object.

use vstd::prelude::*;

verus! {

/// Top-level error of the container codec.
#[derive(Debug, Clone, Copy, PartialEq, Eq, Structural)]
pub enum Error {
    /// The input ends before a required field (a read fault on the
    /// in-memory buffer).
    Truncated,
    /// The first four bytes are not the TEX magic.
    NotTexFile,
    /// The header's format code is not in the format catalog; the
    /// payload is the offending code.
    UnsupportedTexFormat(u32),
    /// The header declares a swizzled layout, which this codec rejects
    /// rather than decode incorrectly.
    Unimplemented,
    /// A cross-validation invariant failed: a mip slice is out of the
    /// data blob's range, a mip's logical size does not match its
    /// entry, or a recomputed offset does not fit its field.
    Internal,
    /// A tile-compression container could not be decompressed.
    GDeflate(DecompressionError),
    /// The external GPU-texture container could not be built.
    Dds,
    /// The external pixel converter could not build a raster image.
    CreateImageDds,
}

/// Failure of the tile-compression decode path.
#[derive(Debug, Clone, Copy, PartialEq, Eq, Structural)]
pub enum DecompressionError {
    /// The framing header is malformed, or the tile offset table is
    /// inconsistent with the payload.
    BadData,
    /// The external entropy decoder could not be created.
    DecompressorCreationFailed,
    /// The external entropy decoder reported a failure.
    DecompressionFailed,
    /// A decoded tile would not fit the declared output size.
    InsufficientSpace,
}

/// Failure of the tile-compression encode path.
#[derive(Debug, Clone, Copy, PartialEq, Eq, Structural)]
pub enum CompressionError {
    /// The external entropy encoder could not be created.
    CompressorCreationFailed,
    /// The external entropy encoder reported a failure.
    CompressionFailed,
}

} // verus!
