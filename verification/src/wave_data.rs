//! The "data" sub-chunk header: tag and declared payload size.

use vstd::prelude::*;

use crate::errors::WavError;
use crate::file_buffer::{le32_at, FileBuffer};

verus! {

/// The bytes at `[36, 40)` spell "data".
pub open spec fn data_tag_ok(s: Seq<u8>) -> bool {
    s[36] == 0x64 && s[37] == 0x61 && s[38] == 0x74 && s[39] == 0x61
}

/// The declared payload size at `[40, 44)` is exactly what lies after
/// the 44-byte header.
pub open spec fn data_size_ok(s: Seq<u8>) -> bool {
    le32_at(s, 40) == s.len() - 44
}

/// The error the data sub-chunk validation of `s` stops at, in check
/// order, or `None` when the header is sound.
pub open spec fn data_error(s: Seq<u8>) -> Option<WavError> {
    if !data_tag_ok(s) {
        Some(WavError::BadSubchunkId)
    } else if !data_size_ok(s) {
        Some(
            WavError::SizeMismatch {
                reported: le32_at(s, 40) as u64,
                expected: (s.len() - 44) as u64,
            },
        )
    } else {
        None
    }
}

/// The parsed data sub-chunk header of a canonical PCM WAV file.
pub struct WaveData {
    pub subchunk2_id: [u8; 4],
    pub subchunk2_size: u32,
}

impl WaveData {
    /// Parse and validate the data sub-chunk header of the buffer.
    pub fn new(buffer: &FileBuffer) -> (r: Result<WaveData, WavError>)
        requires
            buffer.data@.len() >= 44,
        ensures
            r is Ok <==> data_error(buffer.data@) is None,
            data_error(buffer.data@) matches Some(e) ==> r == Err::<WaveData, WavError>(e),
            r matches Ok(d) ==> {
                &&& d.subchunk2_id@ == buffer.data@.subrange(36, 40)
                &&& d.subchunk2_size == le32_at(buffer.data@, 40)
                &&& d.subchunk2_size == buffer.data@.len() - 44
            },
    {
        let t0: u8 = buffer.data[36];
        let t1: u8 = buffer.data[37];
        let t2: u8 = buffer.data[38];
        let t3: u8 = buffer.data[39];
        if !(t0 == 0x64 && t1 == 0x61 && t2 == 0x74 && t3 == 0x61) {
            return Err(WavError::BadSubchunkId);
        }
        let subchunk2_size: u32 = match buffer.get_u32(40) {
            Ok(v) => v,
            Err(e) => {
                return Err(e);
            },
        };
        let calculated_subchunk2_size: usize = buffer.len() - 44;
        if subchunk2_size as u64 != calculated_subchunk2_size as u64 {
            return Err(
                WavError::SizeMismatch {
                    reported: subchunk2_size as u64,
                    expected: calculated_subchunk2_size as u64,
                },
            );
        }
        let data = WaveData { subchunk2_id: [t0, t1, t2, t3], subchunk2_size };
        proof {
            assert(data.subchunk2_id@ =~= buffer.data@.subrange(36, 40));
        }
        Ok(data)
    }
}

} // verus!
