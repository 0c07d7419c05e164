//! Readers and editors for the metadata that image containers carry.
//!
//! The heart of the crate is [`exif`], an engine for TIFF/Exif tag
//! directories that decodes a blob once and then answers typed lookups and
//! performs in-place edits while keeping every stored offset valid.
pub mod exif;
pub mod image;
pub mod jpeg;
pub mod jxl;
pub mod metadata;
pub mod png;
pub mod tiff;
pub mod webp;
pub mod xmp;
pub mod common;

pub use image::Image;
pub use metadata::{Error, Metadata, RawMetadata};
