//! Value types that the format readers share.
pub mod cicp;
pub mod datetime;
pub mod error;
pub mod exif;
pub mod field;
pub mod geography;
pub mod image;
pub mod isobmff;
pub mod math;
pub mod orientation;
pub mod physical_dimension;
pub mod read;
pub mod text;
pub mod xmp;
