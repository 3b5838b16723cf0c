//! The whole parsed WAV file: container, format and data headers, the
//! raw payload, and the sample decode over it.

use vstd::arithmetic::div_mod::{
    lemma_div_denominator, lemma_fundamental_div_mod, lemma_fundamental_div_mod_converse,
};
use vstd::prelude::*;

use crate::errors::WavError;
use crate::file_buffer::{le16_at, le32_at, FileBuffer};
use crate::riff_header::{riff_error, riff_tag_ok, RiffHeader};
use crate::sample::{decode_next, decoded_sample, sample_width, supported_depth};
use crate::wave_data::{data_error, WaveData};
use crate::wave_format::{
    fmt_tag_ok, format_error, spec_bits_per_sample, spec_channels, spec_sample_rate, WaveFormat,
};

verus! {

/// The error a whole-file parse of `s` stops at, in stage order:
/// minimum length, RIFF envelope, format sub-chunk, data sub-chunk,
/// then the cross-check of the declared sizes against each other.
pub open spec fn wav_error(s: Seq<u8>) -> Option<WavError> {
    if s.len() < 44 {
        Some(WavError::TooSmall)
    } else if riff_error(s) is Some {
        riff_error(s)
    } else if format_error(s) is Some {
        format_error(s)
    } else if data_error(s) is Some {
        data_error(s)
    } else if le32_at(s, 4) != 36 + le32_at(s, 40) {
        Some(
            WavError::SizeMismatch {
                reported: le32_at(s, 4) as u64,
                expected: (36 + le32_at(s, 40)) as u64,
            },
        )
    } else {
        None
    }
}

/// The whole-second duration of the payload: payload bytes divided by
/// the bytes one second of audio occupies, truncated.
pub open spec fn spec_duration(s: Seq<u8>) -> int {
    (s.len() - 44) / (spec_channels(s) * (spec_bits_per_sample(s) / 8) * spec_sample_rate(s))
}

/// A fully validated PCM WAV file. It owns the three parsed headers
/// and the raw sample payload; the duration is fixed at construction.
pub struct WavFile {
    pub riff_header: RiffHeader,
    pub wave_format: WaveFormat,
    pub wave_data: WaveData,
    pub sound_data: Vec<u8>,
    pub duration: u64,
}

impl WavFile {
    /// The invariants construction establishes: the format fields that
    /// serve as divisors are positive, the payload length matches the
    /// data header, and the duration is the whole-second quotient.
    pub open spec fn wf(self) -> bool {
        &&& self.wave_format.audio_format == 1
        &&& self.wave_format.subchunk1_size == 16
        &&& self.wave_format.num_of_channels >= 1
        &&& self.wave_format.sample_rate >= 1
        &&& self.wave_format.bits_per_sample >= 8
        &&& self.sound_data@.len() == self.wave_data.subchunk2_size
        &&& self.duration == self.sound_data@.len() as int / (
        self.wave_format.num_of_channels as int * (self.wave_format.bits_per_sample as int / 8)
            * self.wave_format.sample_rate as int)
    }

    /// Every field the parse of `s` determines, written out: a value
    /// satisfying this is the one and only parse result of `s`.
    pub open spec fn parsed_from(self, s: Seq<u8>) -> bool {
        &&& s.len() >= 44
        &&& wav_error(s) is None
        &&& self.riff_header.chunk_id@ == s.subrange(0, 4)
        &&& self.riff_header.chunk_size == le32_at(s, 4)
        &&& self.riff_header.format@ == s.subrange(8, 12)
        &&& self.wave_format.subchunk1_id@ == s.subrange(12, 16)
        &&& self.wave_format.subchunk1_size == 16
        &&& self.wave_format.audio_format == 1
        &&& self.wave_format.num_of_channels == spec_channels(s)
        &&& self.wave_format.sample_rate == spec_sample_rate(s)
        &&& self.wave_format.byte_rate == le32_at(s, 28)
        &&& self.wave_format.block_align == le16_at(s, 32)
        &&& self.wave_format.bits_per_sample == spec_bits_per_sample(s)
        &&& self.wave_data.subchunk2_id@ == s.subrange(36, 40)
        &&& self.wave_data.subchunk2_size == le32_at(s, 40)
        &&& self.sound_data@ == s.subrange(44, s.len() as int)
        &&& self.duration == spec_duration(s)
    }

    /// Parse and validate a whole WAV file from an owned byte buffer.
    /// All-or-nothing: either every structural check passed and the
    /// result is pinned down by the bytes, or the first failing check
    /// names the error and no partial value escapes.
    pub fn new(data: Vec<u8>) -> (r: Result<WavFile, WavError>)
        ensures
            r is Ok <==> wav_error(data@) is None,
            wav_error(data@) matches Some(e) ==> r == Err::<WavFile, WavError>(e),
            r matches Ok(w) ==> w.parsed_from(data@) && w.wf(),
    {
        let buffer = match FileBuffer::new(data) {
            Ok(b) => b,
            Err(e) => {
                return Err(e);
            },
        };
        let riff_header = match RiffHeader::new(&buffer) {
            Ok(h) => h,
            Err(e) => {
                return Err(e);
            },
        };
        let wave_format = match WaveFormat::new(&buffer) {
            Ok(f) => f,
            Err(e) => {
                return Err(e);
            },
        };
        let wave_data = match WaveData::new(&buffer) {
            Ok(d) => d,
            Err(e) => {
                return Err(e);
            },
        };
        let total: usize = buffer.len();
        let mut sound_data: Vec<u8> = Vec::new();
        let mut i: usize = 44;
        while i < total
            invariant
                44 <= i <= total,
                total == buffer.data@.len(),
                sound_data@ == buffer.data@.subrange(44, i as int),
            decreases total - i,
        {
            sound_data.push(buffer.data[i]);
            proof {
                assert(sound_data@ =~= buffer.data@.subrange(44, i + 1));
            }
            i = i + 1;
        }
        let calculated_chunk_size: u64 = 4 + (8 + wave_format.subchunk1_size as u64) + (8
            + wave_data.subchunk2_size as u64);
        if riff_header.chunk_size as u64 != calculated_chunk_size {
            return Err(
                WavError::SizeMismatch {
                    reported: riff_header.chunk_size as u64,
                    expected: calculated_chunk_size,
                },
            );
        }
        let sample_bytes: u64 = (wave_format.bits_per_sample / 8) as u64;
        let duration: u64 = sound_data.len() as u64 / wave_format.num_of_channels as u64
            / sample_bytes / wave_format.sample_rate as u64;
        proof {
            let p = sound_data@.len() as int;
            let c = wave_format.num_of_channels as int;
            let w = wave_format.bits_per_sample as int / 8;
            let rate = wave_format.sample_rate as int;
            lemma_div_denominator(p, c, w);
            lemma_div_denominator(p, c * w, rate);
            assert(duration == p / (c * w * rate));
        }
        Ok(WavFile { riff_header, wave_format, wave_data, sound_data, duration })
    }

    /// Decode the whole payload into normalized samples, in order.
    /// Fails up front on a bit depth the decoder does not understand,
    /// and on a payload that is not a whole number of samples.
    pub fn samples(&self) -> (r: Result<Vec<i16>, WavError>)
        ensures
            !supported_depth(self.wave_format.bits_per_sample) ==> r == Err::<Vec<i16>, WavError>(
                WavError::UnsupportedBitDepth(self.wave_format.bits_per_sample),
            ),
            supported_depth(self.wave_format.bits_per_sample) && self.sound_data@.len() as int
                % sample_width(self.wave_format.bits_per_sample) != 0 ==> r == Err::<
                Vec<i16>,
                WavError,
            >(WavError::OutOfBounds),
            supported_depth(self.wave_format.bits_per_sample) && self.sound_data@.len() as int
                % sample_width(self.wave_format.bits_per_sample) == 0 ==> (r matches Ok(v)
                && v@.len() == self.sound_data@.len() as int / sample_width(
                self.wave_format.bits_per_sample,
            ) && (forall|k: int|
                0 <= k < v@.len() ==> #[trigger] v@[k] as int == decoded_sample(
                    self.sound_data@,
                    k * sample_width(self.wave_format.bits_per_sample),
                    self.wave_format.bits_per_sample,
                ))),
    {
        let bits: u16 = self.wave_format.bits_per_sample;
        if !(bits == 8 || bits == 16 || bits == 24 || bits == 32) {
            return Err(WavError::UnsupportedBitDepth(bits));
        }
        let ghost width = sample_width(bits);
        let total: usize = self.sound_data.len();
        let mut result: Vec<i16> = Vec::new();
        let mut position: usize = 0;
        proof {
            assert(result@.len() * width == 0) by (nonlinear_arith)
                requires
                    result@.len() == 0,
            ;
        }
        while position < total
            invariant
                bits == self.wave_format.bits_per_sample,
                supported_depth(bits),
                1 <= width <= 4,
                width == sample_width(bits),
                total == self.sound_data@.len(),
                position <= total,
                position == result@.len() * width,
                forall|k: int|
                    0 <= k < result@.len() ==> #[trigger] result@[k] as int == decoded_sample(
                        self.sound_data@,
                        k * width,
                        bits,
                    ),
            decreases total - position,
        {
            match decode_next(&self.sound_data, position, bits) {
                Ok((sample, consumed)) => {
                    let ghost n = result@.len() as int;
                    result.push(sample);
                    position = position + consumed;
                    proof {
                        assert((n + 1) * width == n * width + width) by (nonlinear_arith);
                    }
                },
                Err(e) => {
                    proof {
                        let n = result@.len() as int;
                        lemma_fundamental_div_mod_converse(
                            total as int,
                            width,
                            n,
                            total - n * width,
                        );
                    }
                    return Err(e);
                },
            }
        }
        proof {
            let n = result@.len() as int;
            lemma_fundamental_div_mod_converse(total as int, width, n, 0);
        }
        Ok(result)
    }
}

/// For a well-formed file the whole-second truncation brackets the
/// payload: `duration` seconds of audio fit in the payload and
/// `duration + 1` seconds do not.
pub proof fn lemma_duration_bounds(file: WavFile)
    requires
        file.wf(),
    ensures
        file.duration * file.wave_format.num_of_channels * (file.wave_format.bits_per_sample as int
            / 8) * file.wave_format.sample_rate <= file.sound_data@.len(),
        file.sound_data@.len() < (file.duration + 1) * file.wave_format.num_of_channels * (
        file.wave_format.bits_per_sample as int / 8) * file.wave_format.sample_rate,
{
    let p = file.sound_data@.len() as int;
    let c = file.wave_format.num_of_channels as int;
    let w = file.wave_format.bits_per_sample as int / 8;
    let rate = file.wave_format.sample_rate as int;
    let d = file.duration as int;
    assert(c * w * rate >= 1) by (nonlinear_arith)
        requires
            c >= 1,
            w >= 1,
            rate >= 1,
    ;
    lemma_fundamental_div_mod(p, c * w * rate);
    assert(d * c * w * rate == (c * w * rate) * d && (d + 1) * c * w * rate == (c * w * rate) * d
        + c * w * rate) by (nonlinear_arith);
}

/// A long enough buffer whose first four bytes are not "RIFF" always
/// fails with `BadMagic`.
pub proof fn lemma_bad_magic_rejected(s: Seq<u8>)
    requires
        s.len() >= 44,
        !riff_tag_ok(s),
    ensures
        wav_error(s) == Some(WavError::BadMagic),
{
}

/// Among buffers that carry the RIFF magic, a declared container size
/// other than the file length minus 8 always fails with
/// `SizeMismatch`.
pub proof fn lemma_size_mismatch_rejected(s: Seq<u8>)
    requires
        s.len() >= 44,
        riff_tag_ok(s),
        le32_at(s, 4) + 8 != s.len(),
    ensures
        wav_error(s) matches Some(e) && e is SizeMismatch,
{
}

/// Among buffers whose container envelope and "fmt " front matter are
/// sound, an encoding tag other than linear PCM always fails with
/// `UnsupportedFormat`.
pub proof fn lemma_non_pcm_rejected(s: Seq<u8>)
    requires
        s.len() >= 44,
        riff_error(s) is None,
        fmt_tag_ok(s),
        le32_at(s, 16) == 16,
        le16_at(s, 20) != 1,
    ensures
        wav_error(s) matches Some(e) && e is UnsupportedFormat,
{
}

/// Parsing is a function of the bytes alone: two parse results of the
/// same buffer agree on every header field, on the payload and on the
/// duration.
pub proof fn lemma_parse_deterministic(s: Seq<u8>, a: WavFile, b: WavFile)
    requires
        a.parsed_from(s),
        b.parsed_from(s),
    ensures
        a.riff_header.chunk_id@ == b.riff_header.chunk_id@,
        a.riff_header.chunk_size == b.riff_header.chunk_size,
        a.riff_header.format@ == b.riff_header.format@,
        a.wave_format.subchunk1_id@ == b.wave_format.subchunk1_id@,
        a.wave_format.subchunk1_size == b.wave_format.subchunk1_size,
        a.wave_format.audio_format == b.wave_format.audio_format,
        a.wave_format.num_of_channels == b.wave_format.num_of_channels,
        a.wave_format.sample_rate == b.wave_format.sample_rate,
        a.wave_format.byte_rate == b.wave_format.byte_rate,
        a.wave_format.block_align == b.wave_format.block_align,
        a.wave_format.bits_per_sample == b.wave_format.bits_per_sample,
        a.wave_data.subchunk2_id@ == b.wave_data.subchunk2_id@,
        a.wave_data.subchunk2_size == b.wave_data.subchunk2_size,
        a.sound_data@ == b.sound_data@,
        a.duration == b.duration,
{
}

} // verus!
