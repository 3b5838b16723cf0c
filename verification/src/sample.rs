//! Decoding raw PCM bytes into normalized signed 16-bit samples.
//!
//! Whatever the native bit depth, a decoded sample lands in the i16
//! range: 8-bit samples are unsigned and rescaled, 16-bit samples are
//! already native, 24- and 32-bit samples are two's-complement and
//! rescaled. The rescale is the linear map of the source range onto
//! `[-32768, 32767]`, truncated toward zero.

use vstd::arithmetic::div_mod::{
    lemma_div_is_ordered, lemma_fundamental_div_mod, lemma_mod_division_less_than_divisor,
    lemma_multiply_divide_le,
};
use vstd::prelude::*;

use crate::errors::WavError;
use crate::file_buffer::{le16_at, le32_at};

verus! {

/// Integer division that truncates toward zero, for a positive
/// divisor. (The mathematical `/` rounds toward minus infinity.)
pub open spec fn trunc_div(a: int, b: int) -> int {
    if a >= 0 {
        a / b
    } else {
        -((-a) / b)
    }
}

/// The linear rescale of a source range onto the i16 range, truncated
/// toward zero. `offset` is the distance of the value from the source
/// minimum and `range` the width of the source range, so the result
/// is `offset * 65535 / range - 32768` over the rationals, truncated.
pub open spec fn rescale_offset(offset: int, range: int) -> int {
    trunc_div(offset * 65535 - 32768 * range, range)
}

/// The unsigned value of the single byte at `pos`.
pub open spec fn raw8_at(s: Seq<u8>, pos: int) -> int {
    s[pos] as int
}

/// The two bytes at `pos`, little-endian, as a signed 16-bit value.
pub open spec fn signed16_at(s: Seq<u8>, pos: int) -> int {
    let raw = le16_at(s, pos);
    if raw >= 0x8000 {
        raw - 0x10000
    } else {
        raw
    }
}

/// The unsigned value of the three bytes at `pos`, little-endian.
pub open spec fn raw24_at(s: Seq<u8>, pos: int) -> int {
    s[pos] + 256 * s[pos + 1] + 65536 * s[pos + 2]
}

/// The three bytes at `pos`, little-endian, sign-extended from a
/// 24-bit two's-complement value.
pub open spec fn signed24_at(s: Seq<u8>, pos: int) -> int {
    let raw = raw24_at(s, pos);
    if raw >= 0x800000 {
        raw - 0x1000000
    } else {
        raw
    }
}

/// The four bytes at `pos`, little-endian, sign-extended from a
/// 32-bit two's-complement value.
pub open spec fn signed32_at(s: Seq<u8>, pos: int) -> int {
    let raw = le32_at(s, pos);
    if raw >= 0x80000000 {
        raw - 0x100000000
    } else {
        raw
    }
}

/// The bit depths the decoder understands.
pub open spec fn supported_depth(bits: u16) -> bool {
    bits == 8 || bits == 16 || bits == 24 || bits == 32
}

/// Bytes one sample occupies at a supported depth.
pub open spec fn sample_width(bits: u16) -> int {
    bits as int / 8
}

/// The normalized i16 value of the sample that starts at `pos`.
pub open spec fn decoded_sample(s: Seq<u8>, pos: int, bits: u16) -> int
    recommends
        supported_depth(bits),
        0 <= pos,
        pos + sample_width(bits) <= s.len(),
{
    if bits == 8 {
        rescale_offset(raw8_at(s, pos), 255)
    } else if bits == 16 {
        signed16_at(s, pos)
    } else if bits == 24 {
        rescale_offset(signed24_at(s, pos) + 0x800000, 0xffffff)
    } else {
        rescale_offset(signed32_at(s, pos) + 0x80000000, 0xffffffff)
    }
}

/// The exact executable rescale: `offset * 65535 / range - 32768`
/// over the rationals, truncated toward zero.
fn rescale_to_i16(offset: u64, range: u64) -> (r: i16)
    requires
        1 <= range <= 0xffffffff,
        offset <= range,
    ensures
        r as int == rescale_offset(offset as int, range as int),
{
    proof {
        assert(offset * 65535 <= range * 65535 && range * 65535 <= 0xffffffff
            * 65535) by (nonlinear_arith)
            requires
                0 <= offset <= range <= 0xffffffff,
        ;
        assert(32768 * range <= 32768 * 0xffffffff) by (nonlinear_arith)
            requires
                range <= 0xffffffff,
        ;
    }
    let num: u64 = offset * 65535;
    let sub: u64 = 32768 * range;
    if num >= sub {
        let q: u64 = (num - sub) / range;
        proof {
            assert(num - sub <= 32767 * range) by (nonlinear_arith)
                requires
                    num == offset * 65535,
                    sub == 32768 * range,
                    0 <= offset <= range,
            ;
            lemma_multiply_divide_le(num - sub, range as int, 32767);
        }
        q as i16
    } else {
        let q: u64 = (sub - num) / range;
        proof {
            assert(sub - num <= 32768 * range);
            lemma_multiply_divide_le(sub - num, range as int, 32768);
        }
        let qi: i32 = q as i32;
        (0i32 - qi) as i16
    }
}

/// The unsigned 16-bit pattern that carries a signed sample.
pub open spec fn i16_as_unsigned(v: i16) -> int {
    if v < 0 {
        v + 0x10000
    } else {
        v as int
    }
}

/// The low little-endian byte of a signed 16-bit sample.
pub open spec fn i16_low_byte(v: i16) -> u8 {
    (i16_as_unsigned(v) % 256) as u8
}

/// The high little-endian byte of a signed 16-bit sample.
pub open spec fn i16_high_byte(v: i16) -> u8 {
    (i16_as_unsigned(v) / 256) as u8
}

/// Round trip at 16-bit depth: a sample written into the payload as
/// its two little-endian bytes decodes to the identical value, with
/// no rescaling loss.
pub proof fn lemma_decode16_roundtrip(s: Seq<u8>, pos: int, v: i16)
    requires
        0 <= pos,
        pos + 2 <= s.len(),
        s[pos] == i16_low_byte(v),
        s[pos + 1] == i16_high_byte(v),
    ensures
        decoded_sample(s, pos, 16) == v,
{
    let u = i16_as_unsigned(v);
    assert(0 <= u < 0x10000);
    lemma_fundamental_div_mod(u, 256);
    lemma_mod_division_less_than_divisor(u, 256);
    lemma_div_is_ordered(u, 0xffff, 256);
    assert(s[pos] == u % 256 && s[pos + 1] == u / 256);
    assert(le16_at(s, pos) == u);
}

/// Decode the sample that starts at `position`, returning its
/// normalized value and how many bytes it consumed. Depths outside 8,
/// 16, 24 and 32 bits are rejected before the payload is looked at; a
/// sample that would run past the end of the payload is rejected too.
pub fn decode_next(payload: &Vec<u8>, position: usize, bits_per_sample: u16) -> (r: Result<
    (i16, usize),
    WavError,
>)
    ensures
        !supported_depth(bits_per_sample) ==> r == Err::<(i16, usize), WavError>(
            WavError::UnsupportedBitDepth(bits_per_sample),
        ),
        supported_depth(bits_per_sample) && position + sample_width(bits_per_sample)
            > payload@.len() ==> r == Err::<(i16, usize), WavError>(WavError::OutOfBounds),
        supported_depth(bits_per_sample) && position + sample_width(bits_per_sample)
            <= payload@.len() ==> (r matches Ok(p) && p.0 as int == decoded_sample(
            payload@,
            position as int,
            bits_per_sample,
        ) && p.1 == sample_width(bits_per_sample)),
{
    let width: usize = match bits_per_sample {
        8 => 1,
        16 => 2,
        24 => 3,
        32 => 4,
        _ => {
            return Err(WavError::UnsupportedBitDepth(bits_per_sample));
        },
    };
    if position > payload.len() || payload.len() - position < width {
        return Err(WavError::OutOfBounds);
    }
    let sample: i16 = if bits_per_sample == 8 {
        let value: u8 = payload[position];
        rescale_to_i16(value as u64, 255)
    } else if bits_per_sample == 16 {
        let raw: u32 = payload[position] as u32 + 256 * (payload[position + 1] as u32);
        if raw >= 0x8000 {
            let magnitude: u32 = 0x10000 - raw;
            (0i32 - magnitude as i32) as i16
        } else {
            raw as i16
        }
    } else if bits_per_sample == 24 {
        let raw: u32 = payload[position] as u32 + 256 * (payload[position + 1] as u32) + 65536 * (
        payload[position + 2] as u32);
        let offset: u32 = if raw >= 0x800000 {
            raw - 0x800000
        } else {
            raw + 0x800000
        };
        rescale_to_i16(offset as u64, 0xffffff)
    } else {
        let raw: u64 = payload[position] as u64 + 256 * (payload[position + 1] as u64) + 65536 * (
        payload[position + 2] as u64) + 16777216 * (payload[position + 3] as u64);
        let offset: u64 = if raw >= 0x80000000 {
            raw - 0x80000000
        } else {
            raw + 0x80000000
        };
        rescale_to_i16(offset, 0xffffffff)
    };
    Ok((sample, width))
}

} // verus!
