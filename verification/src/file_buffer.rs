//! The byte source: an owned, read-only buffer with bounds-checked
//! little-endian reads.

use vstd::prelude::*;
use vstd::utf8::{decode_utf8, valid_utf8};

use crate::errors::WavError;

verus! {

/// The value of the two bytes at `i` read as a little-endian 16-bit
/// unsigned integer.
pub open spec fn le16_at(s: Seq<u8>, i: int) -> int {
    s[i] + 256 * s[i + 1]
}

/// The value of the four bytes at `i` read as a little-endian 32-bit
/// unsigned integer.
pub open spec fn le32_at(s: Seq<u8>, i: int) -> int {
    s[i] + 256 * s[i + 1] + 65536 * s[i + 2] + 16777216 * s[i + 3]
}

/// An immutable byte buffer, at least as long as the canonical
/// 44-byte PCM WAV header. Constructed once, read-only thereafter.
pub struct FileBuffer {
    pub data: Vec<u8>,
}

impl FileBuffer {
    /// Wrap an owned byte buffer. Buffers shorter than the smallest
    /// possible canonical header are rejected.
    pub fn new(data: Vec<u8>) -> (r: Result<FileBuffer, WavError>)
        ensures
            data@.len() >= 44 ==> (r matches Ok(b) && b.data@ == data@),
            data@.len() < 44 ==> r == Err::<FileBuffer, WavError>(WavError::TooSmall),
    {
        if data.len() < 44 {
            Err(WavError::TooSmall)
        } else {
            Ok(FileBuffer { data })
        }
    }

    /// How many bytes the buffer holds.
    pub fn len(&self) -> (n: usize)
        ensures
            n == self.data@.len(),
    {
        self.data.len()
    }

    /// The little-endian 32-bit unsigned integer at `index`.
    pub fn get_u32(&self, index: usize) -> (r: Result<u32, WavError>)
        ensures
            index + 4 <= self.data@.len() ==> (r matches Ok(v) && v == le32_at(
                self.data@,
                index as int,
            )),
            index + 4 > self.data@.len() ==> r == Err::<u32, WavError>(WavError::OutOfBounds),
    {
        if self.data.len() < 4 || index > self.data.len() - 4 {
            Err(WavError::OutOfBounds)
        } else {
            let b0: u32 = self.data[index] as u32;
            let b1: u32 = self.data[index + 1] as u32;
            let b2: u32 = self.data[index + 2] as u32;
            let b3: u32 = self.data[index + 3] as u32;
            Ok(b0 + 256 * b1 + 65536 * b2 + 16777216 * b3)
        }
    }

    /// The little-endian 16-bit unsigned integer at `index`.
    pub fn get_u16(&self, index: usize) -> (r: Result<u16, WavError>)
        ensures
            index + 2 <= self.data@.len() ==> (r matches Ok(v) && v == le16_at(
                self.data@,
                index as int,
            )),
            index + 2 > self.data@.len() ==> r == Err::<u16, WavError>(WavError::OutOfBounds),
    {
        if self.data.len() < 2 || index > self.data.len() - 2 {
            Err(WavError::OutOfBounds)
        } else {
            let b0: u16 = self.data[index] as u16;
            let b1: u16 = self.data[index + 1] as u16;
            Ok(b0 + 256 * b1)
        }
    }

    /// The bytes in `[start, end)` decoded as a UTF-8 string. For the
    /// tags of this format the range is always four ASCII bytes.
    pub fn get_string(&self, start: usize, end: usize) -> (r: Result<String, WavError>)
        ensures
            start <= end <= self.data@.len() && valid_utf8(
                self.data@.subrange(start as int, end as int),
            ) ==> (r matches Ok(s) && s@ == decode_utf8(
                self.data@.subrange(start as int, end as int),
            )),
            start <= end <= self.data@.len() && !valid_utf8(
                self.data@.subrange(start as int, end as int),
            ) ==> r == Err::<String, WavError>(WavError::InvalidEncoding),
            !(start <= end <= self.data@.len()) ==> r == Err::<String, WavError>(
                WavError::OutOfBounds,
            ),
    {
        if start > end || end > self.data.len() {
            return Err(WavError::OutOfBounds);
        }
        let mut bytes: Vec<u8> = Vec::new();
        let mut i: usize = start;
        while i < end
            invariant
                start <= i <= end <= self.data@.len(),
                bytes@ == self.data@.subrange(start as int, i as int),
            decreases end - i,
        {
            bytes.push(self.data[i]);
            proof {
                assert(bytes@ =~= self.data@.subrange(start as int, i + 1));
            }
            i = i + 1;
        }
        proof {
            assert(bytes@ =~= self.data@.subrange(start as int, end as int));
        }
        match string_from_utf8(bytes) {
            Some(s) => Ok(s),
            None => Err(WavError::InvalidEncoding),
        }
    }
}

/// Relies on String::from_utf8: it succeeds exactly on valid UTF-8
/// input and returns the string those bytes encode.
#[verifier::external_body]
fn string_from_utf8(bytes: Vec<u8>) -> (r: Option<String>)
    ensures
        r is Some <==> valid_utf8(bytes@),
        r matches Some(s) ==> s@ == decode_utf8(bytes@),
{
    String::from_utf8(bytes).ok()
}

} // verus!
