//! The markers that start the segments of a JPEG file.
use vstd::prelude::*;
use crate::jpeg::error::Error;

verus! {

/// Segment marker
#[derive(Copy, Clone, Debug, PartialEq, Eq, Structural)]
#[allow(clippy::upper_case_acronyms)]
#[non_exhaustive]
pub enum Marker {
    TEM,
    SOF0,
    SOF1,
    SOF2,
    /// Define Huffman table
    DHT,
    RST0,
    RST1,
    RST2,
    RST3,
    RST4,
    RST5,
    RST6,
    RST7,
    /// Start of image
    SOI,
    /// End of image
    EOI,
    /// Start of scan
    SOS,
    /// Define quantization table(s)
    DQT,
    APP0,
    /// Exif, XMP
    APP1,
    /// ICC color profile
    APP2,
    APP3,
    APP4,
    APP5,
    APP6,
    APP7,
    APP8,
    APP9,
    APP10,
    APP11,
    APP12,
    APP13,
    APP14,
    APP15,
    /// Define Restart Interval
    DRI,
    JPG0,
    JPG1,
    JPG2,
    JPG3,
    JPG4,
    JPG5,
    JPG6,
    JPG7,
    JPG8,
    JPG9,
    JPG10,
    JPG11,
    JPG12,
    JPG13,
    /// Comment
    COM,
    Unknown(u8),
}

impl Marker {
    /// The byte that stands for the marker.
    pub open spec fn code(self) -> u8 {
        match self {
            Marker::TEM => 0x01,
            Marker::SOF0 => 0xC0,
            Marker::SOF1 => 0xC1,
            Marker::SOF2 => 0xC2,
            Marker::DHT => 0xC4,
            Marker::RST0 => 0xD0,
            Marker::RST1 => 0xD1,
            Marker::RST2 => 0xD2,
            Marker::RST3 => 0xD3,
            Marker::RST4 => 0xD4,
            Marker::RST5 => 0xD5,
            Marker::RST6 => 0xD6,
            Marker::RST7 => 0xD7,
            Marker::SOI => 0xD8,
            Marker::EOI => 0xD9,
            Marker::SOS => 0xDA,
            Marker::DQT => 0xDB,
            Marker::APP0 => 0xE0,
            Marker::APP1 => 0xE1,
            Marker::APP2 => 0xE2,
            Marker::APP3 => 0xE3,
            Marker::APP4 => 0xE4,
            Marker::APP5 => 0xE5,
            Marker::APP6 => 0xE6,
            Marker::APP7 => 0xE7,
            Marker::APP8 => 0xE8,
            Marker::APP9 => 0xE9,
            Marker::APP10 => 0xEA,
            Marker::APP11 => 0xEB,
            Marker::APP12 => 0xEC,
            Marker::APP13 => 0xED,
            Marker::APP14 => 0xEE,
            Marker::APP15 => 0xEF,
            Marker::DRI => 0xDD,
            Marker::JPG0 => 0xF0,
            Marker::JPG1 => 0xF1,
            Marker::JPG2 => 0xF2,
            Marker::JPG3 => 0xF3,
            Marker::JPG4 => 0xF4,
            Marker::JPG5 => 0xF5,
            Marker::JPG6 => 0xF6,
            Marker::JPG7 => 0xF7,
            Marker::JPG8 => 0xF8,
            Marker::JPG9 => 0xF9,
            Marker::JPG10 => 0xFA,
            Marker::JPG11 => 0xFB,
            Marker::JPG12 => 0xFC,
            Marker::JPG13 => 0xFD,
            Marker::COM => 0xFE,
            Marker::Unknown(code) => code,
        }
    }

    /// The marker that a byte stands for.
    pub open spec fn of_code(code: u8) -> Marker {
        if code == 0x01 {
            Marker::TEM
        } else if code == 0xC0 {
            Marker::SOF0
        } else if code == 0xC1 {
            Marker::SOF1
        } else if code == 0xC2 {
            Marker::SOF2
        } else if code == 0xC4 {
            Marker::DHT
        } else if code == 0xD0 {
            Marker::RST0
        } else if code == 0xD1 {
            Marker::RST1
        } else if code == 0xD2 {
            Marker::RST2
        } else if code == 0xD3 {
            Marker::RST3
        } else if code == 0xD4 {
            Marker::RST4
        } else if code == 0xD5 {
            Marker::RST5
        } else if code == 0xD6 {
            Marker::RST6
        } else if code == 0xD7 {
            Marker::RST7
        } else if code == 0xD8 {
            Marker::SOI
        } else if code == 0xD9 {
            Marker::EOI
        } else if code == 0xDA {
            Marker::SOS
        } else if code == 0xDB {
            Marker::DQT
        } else if code == 0xE0 {
            Marker::APP0
        } else if code == 0xE1 {
            Marker::APP1
        } else if code == 0xE2 {
            Marker::APP2
        } else if code == 0xE3 {
            Marker::APP3
        } else if code == 0xE4 {
            Marker::APP4
        } else if code == 0xE5 {
            Marker::APP5
        } else if code == 0xE6 {
            Marker::APP6
        } else if code == 0xE7 {
            Marker::APP7
        } else if code == 0xE8 {
            Marker::APP8
        } else if code == 0xE9 {
            Marker::APP9
        } else if code == 0xEA {
            Marker::APP10
        } else if code == 0xEB {
            Marker::APP11
        } else if code == 0xEC {
            Marker::APP12
        } else if code == 0xED {
            Marker::APP13
        } else if code == 0xEE {
            Marker::APP14
        } else if code == 0xEF {
            Marker::APP15
        } else if code == 0xDD {
            Marker::DRI
        } else if code == 0xF0 {
            Marker::JPG0
        } else if code == 0xF1 {
            Marker::JPG1
        } else if code == 0xF2 {
            Marker::JPG2
        } else if code == 0xF3 {
            Marker::JPG3
        } else if code == 0xF4 {
            Marker::JPG4
        } else if code == 0xF5 {
            Marker::JPG5
        } else if code == 0xF6 {
            Marker::JPG6
        } else if code == 0xF7 {
            Marker::JPG7
        } else if code == 0xF8 {
            Marker::JPG8
        } else if code == 0xF9 {
            Marker::JPG9
        } else if code == 0xFA {
            Marker::JPG10
        } else if code == 0xFB {
            Marker::JPG11
        } else if code == 0xFC {
            Marker::JPG12
        } else if code == 0xFD {
            Marker::JPG13
        } else if code == 0xFE {
            Marker::COM
        } else {
            Marker::Unknown(code)
        }
    }

    /// The marker that a byte stands for; unknown bytes are kept as they are.
    pub fn from_u8(code: u8) -> (marker: Marker)
        ensures
            marker == Marker::of_code(code),
            marker.code() == code,
    {
        if code == 0x01 {
            Marker::TEM
        } else if code == 0xC0 {
            Marker::SOF0
        } else if code == 0xC1 {
            Marker::SOF1
        } else if code == 0xC2 {
            Marker::SOF2
        } else if code == 0xC4 {
            Marker::DHT
        } else if code == 0xD0 {
            Marker::RST0
        } else if code == 0xD1 {
            Marker::RST1
        } else if code == 0xD2 {
            Marker::RST2
        } else if code == 0xD3 {
            Marker::RST3
        } else if code == 0xD4 {
            Marker::RST4
        } else if code == 0xD5 {
            Marker::RST5
        } else if code == 0xD6 {
            Marker::RST6
        } else if code == 0xD7 {
            Marker::RST7
        } else if code == 0xD8 {
            Marker::SOI
        } else if code == 0xD9 {
            Marker::EOI
        } else if code == 0xDA {
            Marker::SOS
        } else if code == 0xDB {
            Marker::DQT
        } else if code == 0xE0 {
            Marker::APP0
        } else if code == 0xE1 {
            Marker::APP1
        } else if code == 0xE2 {
            Marker::APP2
        } else if code == 0xE3 {
            Marker::APP3
        } else if code == 0xE4 {
            Marker::APP4
        } else if code == 0xE5 {
            Marker::APP5
        } else if code == 0xE6 {
            Marker::APP6
        } else if code == 0xE7 {
            Marker::APP7
        } else if code == 0xE8 {
            Marker::APP8
        } else if code == 0xE9 {
            Marker::APP9
        } else if code == 0xEA {
            Marker::APP10
        } else if code == 0xEB {
            Marker::APP11
        } else if code == 0xEC {
            Marker::APP12
        } else if code == 0xED {
            Marker::APP13
        } else if code == 0xEE {
            Marker::APP14
        } else if code == 0xEF {
            Marker::APP15
        } else if code == 0xDD {
            Marker::DRI
        } else if code == 0xF0 {
            Marker::JPG0
        } else if code == 0xF1 {
            Marker::JPG1
        } else if code == 0xF2 {
            Marker::JPG2
        } else if code == 0xF3 {
            Marker::JPG3
        } else if code == 0xF4 {
            Marker::JPG4
        } else if code == 0xF5 {
            Marker::JPG5
        } else if code == 0xF6 {
            Marker::JPG6
        } else if code == 0xF7 {
            Marker::JPG7
        } else if code == 0xF8 {
            Marker::JPG8
        } else if code == 0xF9 {
            Marker::JPG9
        } else if code == 0xFA {
            Marker::JPG10
        } else if code == 0xFB {
            Marker::JPG11
        } else if code == 0xFC {
            Marker::JPG12
        } else if code == 0xFD {
            Marker::JPG13
        } else if code == 0xFE {
            Marker::COM
        } else {
            Marker::Unknown(code)
        }
    }

    /// The byte that stands for the marker.
    pub fn to_u8(self) -> (code: u8)
        ensures
            code == self.code(),
    {
        match self {
            Marker::TEM => 0x01,
            Marker::SOF0 => 0xC0,
            Marker::SOF1 => 0xC1,
            Marker::SOF2 => 0xC2,
            Marker::DHT => 0xC4,
            Marker::RST0 => 0xD0,
            Marker::RST1 => 0xD1,
            Marker::RST2 => 0xD2,
            Marker::RST3 => 0xD3,
            Marker::RST4 => 0xD4,
            Marker::RST5 => 0xD5,
            Marker::RST6 => 0xD6,
            Marker::RST7 => 0xD7,
            Marker::SOI => 0xD8,
            Marker::EOI => 0xD9,
            Marker::SOS => 0xDA,
            Marker::DQT => 0xDB,
            Marker::APP0 => 0xE0,
            Marker::APP1 => 0xE1,
            Marker::APP2 => 0xE2,
            Marker::APP3 => 0xE3,
            Marker::APP4 => 0xE4,
            Marker::APP5 => 0xE5,
            Marker::APP6 => 0xE6,
            Marker::APP7 => 0xE7,
            Marker::APP8 => 0xE8,
            Marker::APP9 => 0xE9,
            Marker::APP10 => 0xEA,
            Marker::APP11 => 0xEB,
            Marker::APP12 => 0xEC,
            Marker::APP13 => 0xED,
            Marker::APP14 => 0xEE,
            Marker::APP15 => 0xEF,
            Marker::DRI => 0xDD,
            Marker::JPG0 => 0xF0,
            Marker::JPG1 => 0xF1,
            Marker::JPG2 => 0xF2,
            Marker::JPG3 => 0xF3,
            Marker::JPG4 => 0xF4,
            Marker::JPG5 => 0xF5,
            Marker::JPG6 => 0xF6,
            Marker::JPG7 => 0xF7,
            Marker::JPG8 => 0xF8,
            Marker::JPG9 => 0xF9,
            Marker::JPG10 => 0xFA,
            Marker::JPG11 => 0xFB,
            Marker::JPG12 => 0xFC,
            Marker::JPG13 => 0xFD,
            Marker::COM => 0xFE,
            Marker::Unknown(code) => code,
        }
    }

    /// Whether a segment with this marker consists of the marker alone.
    pub open spec fn spec_is_standalone(self) -> bool {
        self == Marker::RST0 || self == Marker::RST1 || self == Marker::RST2 || self
            == Marker::RST3 || self == Marker::RST4 || self == Marker::RST5 || self
            == Marker::RST6 || self == Marker::RST7 || self == Marker::SOI || self == Marker::EOI
    }

    /// Whether the marker starts a frame header.
    pub open spec fn spec_is_sof(self) -> bool {
        self == Marker::SOF0 || self == Marker::SOF1 || self == Marker::SOF2
    }

    /// Whether a segment with this marker consists of the marker alone:
    /// the restart markers and the start and the end of the image.
    pub fn is_standalone(&self) -> (standalone: bool)
        ensures
            standalone == self.spec_is_standalone(),
    {
        match self {
            Marker::RST0
            | Marker::RST1
            | Marker::RST2
            | Marker::RST3
            | Marker::RST4
            | Marker::RST5
            | Marker::RST6
            | Marker::RST7
            | Marker::SOI
            | Marker::EOI => true,
            _ => false,
        }
    }

    /// Whether the marker starts a frame header.
    pub fn is_sof(&self) -> (sof: bool)
        ensures
            sof == self.spec_is_sof(),
    {
        match self {
            Marker::SOF0 | Marker::SOF1 | Marker::SOF2 => true,
            _ => false,
        }
    }

    /// Whether the frame that the marker starts is progressive.
    pub fn is_progressive_sof(&self) -> (progressive: Result<bool, Error>)
        ensures
            self.spec_is_sof() ==> progressive == Ok::<bool, Error>(*self == Marker::SOF2),
            !self.spec_is_sof() ==> progressive == Err::<bool, Error>(Error::NoSofSegmentFound),
    {
        match self {
            Marker::SOF0 | Marker::SOF1 => Ok(false),
            Marker::SOF2 => Ok(true),
            _ => Err(Error::NoSofSegmentFound),
        }
    }
}

} // verus!
