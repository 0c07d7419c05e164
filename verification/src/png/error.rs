//! The errors of the PNG reader.
use vstd::prelude::*;

verus! {

#[derive(Debug, Clone, Copy, PartialEq, Eq)]
pub enum Error {
    /// The file ends inside a chunk.
    UnexpectedEof,
    /// The file does not start with the eight bytes of a PNG file.
    InvalidMagicBytes([u8; 8]),
    PositionTooLarge,
    UnexpectedEndOfChunkData,
    /// Zlib decompression error
    Zlib,
    /// Data don't contain a single IDAT (image data) chunk.
    NoIdatChunk,
    /// Data don't contain a IHDR (header) chunk.
    NoIhdrChunk,
    /// The requested range is not part of the image data
    IndexNotInData(usize, usize),
    /// The chunk holds no text.
    NoText,
}

} // verus!
