//! The outer RIFF envelope: magic tag, declared total size, format tag.

use vstd::prelude::*;

use crate::errors::WavError;
use crate::file_buffer::{le32_at, FileBuffer};

verus! {

/// The bytes at `[0, 4)` spell "RIFF".
pub open spec fn riff_tag_ok(s: Seq<u8>) -> bool {
    s[0] == 0x52 && s[1] == 0x49 && s[2] == 0x46 && s[3] == 0x46
}

/// The declared size at `[4, 8)` plus the 8 bytes that precede it is
/// the whole buffer.
pub open spec fn riff_size_ok(s: Seq<u8>) -> bool {
    le32_at(s, 4) + 8 == s.len()
}

/// The bytes at `[8, 12)` spell "WAVE".
pub open spec fn wave_tag_ok(s: Seq<u8>) -> bool {
    s[8] == 0x57 && s[9] == 0x41 && s[10] == 0x56 && s[11] == 0x45
}

/// The error the container validation of `s` stops at, in check
/// order, or `None` when the envelope is sound.
pub open spec fn riff_error(s: Seq<u8>) -> Option<WavError> {
    if !riff_tag_ok(s) {
        Some(WavError::BadMagic)
    } else if !riff_size_ok(s) {
        Some(
            WavError::SizeMismatch {
                reported: le32_at(s, 4) as u64,
                expected: (s.len() - 8) as u64,
            },
        )
    } else if !wave_tag_ok(s) {
        Some(WavError::BadMagic)
    } else {
        None
    }
}

/// The parsed outer envelope of a RIFF file.
pub struct RiffHeader {
    pub chunk_id: [u8; 4],
    pub chunk_size: u32,
    pub format: [u8; 4],
}

impl RiffHeader {
    /// Parse and validate the RIFF envelope of the buffer.
    pub fn new(buffer: &FileBuffer) -> (r: Result<RiffHeader, WavError>)
        requires
            buffer.data@.len() >= 44,
        ensures
            r is Ok <==> riff_error(buffer.data@) is None,
            riff_error(buffer.data@) matches Some(e) ==> r == Err::<RiffHeader, WavError>(e),
            r matches Ok(h) ==> {
                &&& h.chunk_id@ == buffer.data@.subrange(0, 4)
                &&& h.chunk_size == le32_at(buffer.data@, 4)
                &&& h.format@ == buffer.data@.subrange(8, 12)
            },
    {
        let c0: u8 = buffer.data[0];
        let c1: u8 = buffer.data[1];
        let c2: u8 = buffer.data[2];
        let c3: u8 = buffer.data[3];
        if !(c0 == 0x52 && c1 == 0x49 && c2 == 0x46 && c3 == 0x46) {
            return Err(WavError::BadMagic);
        }
        let chunk_size: u32 = match buffer.get_u32(4) {
            Ok(v) => v,
            Err(e) => {
                return Err(e);
            },
        };
        if chunk_size as u64 + 8 != buffer.len() as u64 {
            return Err(
                WavError::SizeMismatch {
                    reported: chunk_size as u64,
                    expected: buffer.len() as u64 - 8,
                },
            );
        }
        let f0: u8 = buffer.data[8];
        let f1: u8 = buffer.data[9];
        let f2: u8 = buffer.data[10];
        let f3: u8 = buffer.data[11];
        if !(f0 == 0x57 && f1 == 0x41 && f2 == 0x56 && f3 == 0x45) {
            return Err(WavError::BadMagic);
        }
        let header = RiffHeader { chunk_id: [c0, c1, c2, c3], chunk_size, format: [f0, f1, f2, f3] };
        proof {
            assert(header.chunk_id@ =~= buffer.data@.subrange(0, 4));
            assert(header.format@ =~= buffer.data@.subrange(8, 12));
        }
        Ok(header)
    }
}

} // verus!
