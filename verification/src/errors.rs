//! The failure kinds a WAV parse or decode can surface.

use vstd::prelude::*;

verus! {

/// Every way a parse or a decode can fail. All failures are terminal:
/// no partial file value is ever handed back.
#[derive(Clone, Copy, PartialEq, Eq, Structural, Debug)]
pub enum WavError {
    /// The input holds fewer bytes than the canonical 44-byte header.
    TooSmall,
    /// The RIFF or WAVE tag of the container is wrong.
    BadMagic,
    /// The "fmt " or "data" sub-chunk tag is wrong.
    BadSubchunkId,
    /// The format chunk is not the 16-byte canonical one, or the
    /// encoding is not linear PCM: the declared value against the one
    /// canonical PCM demands.
    UnsupportedFormat { reported: u64, expected: u64 },
    /// A derived field disagrees with its theoretical value: the
    /// declared value against the computed one. A zero in a quantity
    /// the duration divides by is reported as zero against the minimum
    /// of one.
    InconsistentFields { reported: u64, expected: u64 },
    /// A declared chunk size disagrees with the buffer length or with
    /// the sum of the sub-chunk sizes: the declared size against the
    /// real one.
    SizeMismatch { reported: u64, expected: u64 },
    /// Bits per sample outside 8, 16, 24 and 32: the depth that cannot
    /// be decoded.
    UnsupportedBitDepth(u16),
    /// A fixed-width read past the end of the buffer.
    OutOfBounds,
    /// A byte range that is not valid UTF-8.
    InvalidEncoding,
}

} // verus!
