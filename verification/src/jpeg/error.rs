//! The errors of the JPEG reader.
use vstd::prelude::*;

verus! {

#[derive(Debug, Clone, Copy, PartialEq, Eq)]
pub enum Error {
    /// The file does not start with the bytes of a JPEG file.
    InvalidMagicBytes([u8; 2]),
    /// The file ends inside a segment.
    UnexpectedEof,
    /// A segment does not start with the byte `0xFF`.
    ExpectedMarkerStart(u8),
    /// A number does not fit where it has to go.
    Math,
    /// The precision of a quantization table is neither 0 nor 1.
    UnknownPq(u8),
    NoSosSegmentFound,
    NoSofSegmentFound,
    /// Couldn't detemine a color model
    UnknownColorModel,
    MissingComponentSpecification,
    MissingComponentSpecificationParameters,
    MissingDqt,
}

#[derive(Debug, Clone, Copy, PartialEq, Eq)]
pub enum EncoderError {
    Gufo(Error),
    /// Color model not supported by encoder
    UnsupportedColorModel,
    /// Sampling factor not supported by encoder
    UnsupportedSamplingFactor,
}

} // verus!
