//! The codestream of a JPEG XL file.
pub mod bits;
pub mod header;

pub use bits::{DataIter, Dist, Error};
pub use header::{Document, Entry, Header, ImageMetadata, Parse, Signature, SizeHeader};
