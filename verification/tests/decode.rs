//! Sample decoding: every bit depth, the rescale boundaries, the
//! 16-bit round trip, and the decode-time failures.

use sonora::sample::decode_next;
use sonora::{WavError, WavFile};

/// A canonical 44-byte PCM WAV header followed by `payload`.
fn wav_bytes(channels: u16, sample_rate: u32, bits: u16, payload: &[u8]) -> Vec<u8> {
    let mut v: Vec<u8> = Vec::new();
    v.extend_from_slice(b"RIFF");
    let riff_size: u32 = 36 + payload.len() as u32;
    v.extend_from_slice(&riff_size.to_le_bytes());
    v.extend_from_slice(b"WAVE");
    v.extend_from_slice(b"fmt ");
    v.extend_from_slice(&16u32.to_le_bytes());
    v.extend_from_slice(&1u16.to_le_bytes());
    v.extend_from_slice(&channels.to_le_bytes());
    v.extend_from_slice(&sample_rate.to_le_bytes());
    let byte_rate: u32 = (channels as u64 * sample_rate as u64 * bits as u64 / 8) as u32;
    v.extend_from_slice(&byte_rate.to_le_bytes());
    let block_align: u16 = ((channels as u32 * bits as u32) / 8) as u16;
    v.extend_from_slice(&block_align.to_le_bytes());
    v.extend_from_slice(&bits.to_le_bytes());
    v.extend_from_slice(b"data");
    v.extend_from_slice(&(payload.len() as u32).to_le_bytes());
    v.extend_from_slice(payload);
    v
}

#[test]
fn eight_bit_boundaries() {
    // Raw 0 is the source minimum, raw 255 the maximum; raw 128 maps
    // to 128 * 65535 / 255 - 32768 = 128 under the truncating rescale.
    let wav = WavFile::new(wav_bytes(1, 8000, 8, &[0, 128, 255])).unwrap();
    assert_eq!(wav.samples().unwrap(), vec![-32768, 128, 32767]);
}

#[test]
fn sixteen_bit_round_trip() {
    let values: [i16; 8] = [0, 1, -1, 32767, -32768, 12345, -12345, 256];
    let mut payload: Vec<u8> = Vec::new();
    for v in values {
        payload.extend_from_slice(&v.to_le_bytes());
    }
    let wav = WavFile::new(wav_bytes(1, 44100, 16, &payload)).unwrap();
    assert_eq!(wav.samples().unwrap(), values.to_vec());
}

#[test]
fn twenty_four_bit_rescale() {
    // Little-endian 24-bit two's complement: minimum, zero, maximum.
    let payload = [
        0x00, 0x00, 0x80, // -8388608, the source minimum
        0x00, 0x00, 0x00, // 0, the source midpoint
        0xff, 0xff, 0x7f, // 8388607, the source maximum
    ];
    let wav = WavFile::new(wav_bytes(1, 48000, 24, &payload)).unwrap();
    assert_eq!(wav.samples().unwrap(), vec![-32768, 0, 32767]);
}

#[test]
fn thirty_two_bit_rescale() {
    // Little-endian 32-bit two's complement: minimum, zero, maximum.
    let payload = [
        0x00, 0x00, 0x00, 0x80, // -2147483648, the source minimum
        0x00, 0x00, 0x00, 0x00, // 0, the source midpoint
        0xff, 0xff, 0xff, 0x7f, // 2147483647, the source maximum
    ];
    let wav = WavFile::new(wav_bytes(1, 48000, 32, &payload)).unwrap();
    assert_eq!(wav.samples().unwrap(), vec![-32768, 0, 32767]);
}

#[test]
fn decode_next_reports_consumed_width() {
    let payload = vec![1u8, 2, 3, 4];
    assert_eq!(decode_next(&payload, 0, 8).unwrap().1, 1);
    assert_eq!(decode_next(&payload, 0, 16).unwrap().1, 2);
    assert_eq!(decode_next(&payload, 0, 24).unwrap().1, 3);
    assert_eq!(decode_next(&payload, 0, 32).unwrap().1, 4);
}

#[test]
fn decode_next_sixteen_bit_values() {
    let payload = vec![0x34u8, 0x12, 0xff, 0xff];
    assert_eq!(decode_next(&payload, 0, 16).unwrap().0, 0x1234);
    assert_eq!(decode_next(&payload, 2, 16).unwrap().0, -1);
}

#[test]
fn decode_next_rejects_unknown_depth() {
    let payload = vec![0u8, 0, 0, 0];
    assert_eq!(decode_next(&payload, 0, 12), Err(WavError::UnsupportedBitDepth(12)));
    assert_eq!(decode_next(&payload, 0, 0), Err(WavError::UnsupportedBitDepth(0)));
    // The depth is checked before the payload is looked at.
    let empty: Vec<u8> = Vec::new();
    assert_eq!(decode_next(&empty, 0, 12), Err(WavError::UnsupportedBitDepth(12)));
}

#[test]
fn decode_next_rejects_truncated_sample() {
    let payload = vec![0u8, 0, 0];
    assert_eq!(decode_next(&payload, 2, 16), Err(WavError::OutOfBounds));
    assert_eq!(decode_next(&payload, 0, 32), Err(WavError::OutOfBounds));
    assert_eq!(decode_next(&payload, 3, 8), Err(WavError::OutOfBounds));
}

#[test]
fn samples_rejects_partial_trailing_sample() {
    let wav = WavFile::new(wav_bytes(1, 8000, 16, &[0, 0, 7])).unwrap();
    assert_eq!(wav.samples(), Err(WavError::OutOfBounds));
}

#[test]
fn samples_interleaves_channels_in_order() {
    let payload = [10u8, 20, 30, 40];
    let wav = WavFile::new(wav_bytes(2, 8000, 8, &payload)).unwrap();
    let samples = wav.samples().unwrap();
    assert_eq!(samples.len(), 4);
    assert_eq!(samples[0] as i32, 10 * 257 - 32768);
    assert_eq!(samples[1] as i32, 20 * 257 - 32768);
    assert_eq!(samples[2] as i32, 30 * 257 - 32768);
    assert_eq!(samples[3] as i32, 40 * 257 - 32768);
}
