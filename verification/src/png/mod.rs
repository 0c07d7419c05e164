//! The chunks of a PNG file and the metadata they carry.
pub mod chunk;
pub mod chunk_type;
pub mod error;
pub mod file;
pub mod scan;

pub use chunk::{Chunk, LEGACY_EXIF_KEYWORD};
pub use chunk_type::ChunkType;
pub use error::Error;
pub use file::{NewChunk, Png, DEFAULT_INFLATE_LIMIT};
pub use scan::RawChunk;
