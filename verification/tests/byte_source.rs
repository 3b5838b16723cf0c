//! The byte source and the three header parsers taken one at a time.

use sonora::riff_header::RiffHeader;
use sonora::wave_data::WaveData;
use sonora::wave_format::WaveFormat;
use sonora::{FileBuffer, WavError};

/// A canonical 44-byte PCM WAV header with no payload: mono, 8 kHz,
/// 8-bit.
fn header_only() -> Vec<u8> {
    let mut v: Vec<u8> = Vec::new();
    v.extend_from_slice(b"RIFF");
    v.extend_from_slice(&36u32.to_le_bytes());
    v.extend_from_slice(b"WAVE");
    v.extend_from_slice(b"fmt ");
    v.extend_from_slice(&16u32.to_le_bytes());
    v.extend_from_slice(&1u16.to_le_bytes());
    v.extend_from_slice(&1u16.to_le_bytes());
    v.extend_from_slice(&8000u32.to_le_bytes());
    v.extend_from_slice(&8000u32.to_le_bytes());
    v.extend_from_slice(&1u16.to_le_bytes());
    v.extend_from_slice(&8u16.to_le_bytes());
    v.extend_from_slice(b"data");
    v.extend_from_slice(&0u32.to_le_bytes());
    v
}

#[test]
fn file_buffer_rejects_short_input() {
    assert!(matches!(FileBuffer::new(vec![0u8; 43]), Err(WavError::TooSmall)));
}

#[test]
fn file_buffer_accepts_and_keeps_bytes() {
    let buffer = FileBuffer::new(header_only()).unwrap();
    assert_eq!(buffer.len(), 44);
    assert_eq!(buffer.data, header_only());
}

#[test]
fn get_u16_reads_little_endian() {
    let mut bytes = header_only();
    bytes[20] = 0x34;
    bytes[21] = 0x12;
    let buffer = FileBuffer::new(bytes).unwrap();
    assert_eq!(buffer.get_u16(20).unwrap(), 0x1234);
    assert_eq!(buffer.get_u16(43), Err(WavError::OutOfBounds));
    assert_eq!(buffer.get_u16(44), Err(WavError::OutOfBounds));
}

#[test]
fn get_u32_reads_little_endian() {
    let mut bytes = header_only();
    bytes[24] = 0x78;
    bytes[25] = 0x56;
    bytes[26] = 0x34;
    bytes[27] = 0x12;
    let buffer = FileBuffer::new(bytes).unwrap();
    assert_eq!(buffer.get_u32(24).unwrap(), 0x12345678);
    assert_eq!(buffer.get_u32(41), Err(WavError::OutOfBounds));
}

#[test]
fn get_string_decodes_ascii_tags() {
    let buffer = FileBuffer::new(header_only()).unwrap();
    assert_eq!(buffer.get_string(0, 4).unwrap(), "RIFF");
    assert_eq!(buffer.get_string(8, 12).unwrap(), "WAVE");
    assert_eq!(buffer.get_string(12, 16).unwrap(), "fmt ");
    assert_eq!(buffer.get_string(36, 40).unwrap(), "data");
}

#[test]
fn get_string_rejects_invalid_utf8() {
    let mut bytes = header_only();
    bytes[0] = 0xff;
    let buffer = FileBuffer::new(bytes).unwrap();
    assert_eq!(buffer.get_string(0, 4), Err(WavError::InvalidEncoding));
}

#[test]
fn get_string_rejects_bad_range() {
    let buffer = FileBuffer::new(header_only()).unwrap();
    assert_eq!(buffer.get_string(4, 2), Err(WavError::OutOfBounds));
    assert_eq!(buffer.get_string(40, 45), Err(WavError::OutOfBounds));
}

#[test]
fn riff_header_parses_fields() {
    let buffer = FileBuffer::new(header_only()).unwrap();
    let header = RiffHeader::new(&buffer).unwrap();
    assert_eq!(header.chunk_id, *b"RIFF");
    assert_eq!(header.chunk_size, 36);
    assert_eq!(header.format, *b"WAVE");
}

#[test]
fn wave_format_parses_fields() {
    let buffer = FileBuffer::new(header_only()).unwrap();
    let format = WaveFormat::new(&buffer).unwrap();
    assert_eq!(format.subchunk1_id, *b"fmt ");
    assert_eq!(format.subchunk1_size, 16);
    assert_eq!(format.audio_format, 1);
    assert_eq!(format.num_of_channels, 1);
    assert_eq!(format.sample_rate, 8000);
    assert_eq!(format.byte_rate, 8000);
    assert_eq!(format.block_align, 1);
    assert_eq!(format.bits_per_sample, 8);
}

#[test]
fn wave_data_parses_fields() {
    let buffer = FileBuffer::new(header_only()).unwrap();
    let data = WaveData::new(&buffer).unwrap();
    assert_eq!(data.subchunk2_id, *b"data");
    assert_eq!(data.subchunk2_size, 0);
}

#[test]
fn wave_format_rejects_low_bit_depth() {
    // 4 bits per sample would make the per-sample byte width zero;
    // with matching derived fields it must still be rejected.
    let mut bytes = header_only();
    bytes[34] = 4;
    // byte rate: 1 * 8000 * 4 / 8 = 4000; block align: 4 / 8 = 0.
    bytes[28..32].copy_from_slice(&4000u32.to_le_bytes());
    bytes[32..34].copy_from_slice(&0u16.to_le_bytes());
    let buffer = FileBuffer::new(bytes).unwrap();
    assert_eq!(
        WaveFormat::new(&buffer).map(|f| f.bits_per_sample),
        Err(WavError::InconsistentFields { reported: 0, expected: 1 })
    );
}
