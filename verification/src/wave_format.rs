//! The "fmt " sub-chunk: encoding tag, channel count, sample rate and
//! the two derived-value consistency checks.

use vstd::prelude::*;

use crate::errors::WavError;
use crate::file_buffer::{le16_at, le32_at, FileBuffer};

verus! {

/// The bytes at `[12, 16)` spell "fmt ".
pub open spec fn fmt_tag_ok(s: Seq<u8>) -> bool {
    s[12] == 0x66 && s[13] == 0x6d && s[14] == 0x74 && s[15] == 0x20
}

/// The channel count declared at offset 22.
pub open spec fn spec_channels(s: Seq<u8>) -> int {
    le16_at(s, 22)
}

/// The sample rate declared at offset 24.
pub open spec fn spec_sample_rate(s: Seq<u8>) -> int {
    le32_at(s, 24)
}

/// The bits per sample declared at offset 34.
pub open spec fn spec_bits_per_sample(s: Seq<u8>) -> int {
    le16_at(s, 34)
}

/// The byte rate the declared fields imply: bytes per second across
/// all channels.
pub open spec fn expected_byte_rate(s: Seq<u8>) -> int {
    spec_channels(s) * spec_sample_rate(s) * spec_bits_per_sample(s) / 8
}

/// The block alignment the declared fields imply: bytes per
/// sample-frame across all channels.
pub open spec fn expected_block_align(s: Seq<u8>) -> int {
    spec_channels(s) * spec_bits_per_sample(s) / 8
}

/// The error the format sub-chunk validation of `s` stops at, in
/// check order, or `None` when the descriptor is sound. A zero in any
/// of the quantities the duration later divides by is rejected here,
/// so that no later computation can fault.
pub open spec fn format_error(s: Seq<u8>) -> Option<WavError> {
    if !fmt_tag_ok(s) {
        Some(WavError::BadSubchunkId)
    } else if le32_at(s, 16) != 16 {
        Some(WavError::UnsupportedFormat { reported: le32_at(s, 16) as u64, expected: 16 })
    } else if le16_at(s, 20) != 1 {
        Some(WavError::UnsupportedFormat { reported: le16_at(s, 20) as u64, expected: 1 })
    } else if le32_at(s, 28) != expected_byte_rate(s) {
        Some(
            WavError::InconsistentFields {
                reported: le32_at(s, 28) as u64,
                expected: expected_byte_rate(s) as u64,
            },
        )
    } else if le16_at(s, 32) != expected_block_align(s) {
        Some(
            WavError::InconsistentFields {
                reported: le16_at(s, 32) as u64,
                expected: expected_block_align(s) as u64,
            },
        )
    } else if spec_channels(s) == 0 || spec_sample_rate(s) == 0 || spec_bits_per_sample(s) / 8
        == 0 {
        Some(WavError::InconsistentFields { reported: 0, expected: 1 })
    } else {
        None
    }
}

/// The parsed format descriptor of a canonical PCM WAV file.
pub struct WaveFormat {
    pub subchunk1_id: [u8; 4],
    pub subchunk1_size: u32,
    pub audio_format: u16,
    pub num_of_channels: u16,
    pub sample_rate: u32,
    pub byte_rate: u32,
    pub block_align: u16,
    pub bits_per_sample: u16,
}

impl WaveFormat {
    /// Parse and validate the format sub-chunk of the buffer. Fails on
    /// anything but a canonical 16-byte linear-PCM descriptor whose
    /// derived fields agree with their theoretical values.
    pub fn new(buffer: &FileBuffer) -> (r: Result<WaveFormat, WavError>)
        requires
            buffer.data@.len() >= 44,
        ensures
            r is Ok <==> format_error(buffer.data@) is None,
            format_error(buffer.data@) matches Some(e) ==> r == Err::<WaveFormat, WavError>(e),
            r matches Ok(f) ==> {
                &&& f.subchunk1_id@ == buffer.data@.subrange(12, 16)
                &&& f.subchunk1_size == 16
                &&& f.audio_format == 1
                &&& f.num_of_channels == spec_channels(buffer.data@)
                &&& f.sample_rate == spec_sample_rate(buffer.data@)
                &&& f.byte_rate == le32_at(buffer.data@, 28)
                &&& f.block_align == le16_at(buffer.data@, 32)
                &&& f.bits_per_sample == spec_bits_per_sample(buffer.data@)
            },
    {
        let t0: u8 = buffer.data[12];
        let t1: u8 = buffer.data[13];
        let t2: u8 = buffer.data[14];
        let t3: u8 = buffer.data[15];
        if !(t0 == 0x66 && t1 == 0x6d && t2 == 0x74 && t3 == 0x20) {
            return Err(WavError::BadSubchunkId);
        }
        let subchunk1_size: u32 = match buffer.get_u32(16) {
            Ok(v) => v,
            Err(e) => {
                return Err(e);
            },
        };
        if subchunk1_size != 16 {
            return Err(WavError::UnsupportedFormat { reported: subchunk1_size as u64, expected: 16 });
        }
        let audio_format: u16 = match buffer.get_u16(20) {
            Ok(v) => v,
            Err(e) => {
                return Err(e);
            },
        };
        if audio_format != 1 {
            return Err(WavError::UnsupportedFormat { reported: audio_format as u64, expected: 1 });
        }
        let num_of_channels: u16 = match buffer.get_u16(22) {
            Ok(v) => v,
            Err(e) => {
                return Err(e);
            },
        };
        let sample_rate: u32 = match buffer.get_u32(24) {
            Ok(v) => v,
            Err(e) => {
                return Err(e);
            },
        };
        let byte_rate: u32 = match buffer.get_u32(28) {
            Ok(v) => v,
            Err(e) => {
                return Err(e);
            },
        };
        let block_align: u16 = match buffer.get_u16(32) {
            Ok(v) => v,
            Err(e) => {
                return Err(e);
            },
        };
        let bits_per_sample: u16 = match buffer.get_u16(34) {
            Ok(v) => v,
            Err(e) => {
                return Err(e);
            },
        };
        proof {
            let c = num_of_channels as int;
            let sr = sample_rate as int;
            let b = bits_per_sample as int;
            assert(c * sr <= 0xffff * 0xffffffff && c * sr * b <= 0xffff * 0xffffffff
                * 0xffff) by (nonlinear_arith)
                requires
                    0 <= c <= 0xffff,
                    0 <= sr <= 0xffffffff,
                    0 <= b <= 0xffff,
            ;
            assert(c * b <= 0xffff * 0xffff) by (nonlinear_arith)
                requires
                    0 <= c <= 0xffff,
                    0 <= b <= 0xffff,
            ;
        }
        let calculated_byte_rate: u64 = num_of_channels as u64 * sample_rate as u64
            * bits_per_sample as u64 / 8;
        if byte_rate as u64 != calculated_byte_rate {
            return Err(
                WavError::InconsistentFields {
                    reported: byte_rate as u64,
                    expected: calculated_byte_rate,
                },
            );
        }
        let calculated_block_align: u64 = num_of_channels as u64 * bits_per_sample as u64 / 8;
        if block_align as u64 != calculated_block_align {
            return Err(
                WavError::InconsistentFields {
                    reported: block_align as u64,
                    expected: calculated_block_align,
                },
            );
        }
        if num_of_channels == 0 || sample_rate == 0 || bits_per_sample < 8 {
            return Err(WavError::InconsistentFields { reported: 0, expected: 1 });
        }
        let format = WaveFormat {
            subchunk1_id: [t0, t1, t2, t3],
            subchunk1_size,
            audio_format,
            num_of_channels,
            sample_rate,
            byte_rate,
            block_align,
            bits_per_sample,
        };
        proof {
            assert(format.subchunk1_id@ =~= buffer.data@.subrange(12, 16));
        }
        Ok(format)
    }
}

} // verus!
