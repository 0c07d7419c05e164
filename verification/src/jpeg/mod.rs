//! The segments of a JPEG file and the metadata they carry.
pub mod encoder;
pub mod error;
pub mod file;
pub mod marker;
pub mod scan;
pub mod segments;

pub use error::{EncoderError, Error};
pub use file::{
    ColorModel, Jpeg, NewSegment, Segment, EXIF_IDENTIFIER_STRING, XMP_IDENTIFIER_STRING,
};
pub use marker::Marker;
pub use scan::RawSegment;
pub use segments::{ComponentSpecification, ComponentSpecificationParameters, Dqt, Dqt_, Sof, Sos};
