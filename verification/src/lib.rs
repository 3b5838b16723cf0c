//! A validating parser and decoder for uncompressed PCM WAV audio.
//!
//! The library reads a RIFF container from an in-memory byte buffer,
//! checks every structural invariant of the canonical 44-byte PCM
//! header (chunk tags, declared sizes against the real length,
//! PCM-only encoding, byte-rate and block-alignment consistency), and
//! decodes the raw payload into normalized signed 16-bit samples,
//! whatever the file's native bit depth (8, 16, 24 or 32 bits).

pub mod errors;
pub mod file_buffer;
pub mod riff_header;
pub mod sample;
pub mod wav_file;
pub mod wave_data;
pub mod wave_format;

pub use errors::WavError;
pub use file_buffer::FileBuffer;
pub use riff_header::RiffHeader;
pub use wav_file::WavFile;
pub use wave_data::WaveData;
pub use wave_format::WaveFormat;
