//! The types of the chunks of a PNG file.
use vstd::prelude::*;
use crate::exif::bytes::{u32_bytes, u32_to_bytes};

verus! {

/// Type of a chunk
///
/// The value is stored as big endian [`u32`] of the original byte string.
#[derive(Copy, Clone, Debug, PartialEq, Eq, Structural)]
#[non_exhaustive]
#[allow(non_camel_case_types)]
pub enum ChunkType {
    /// Header
    IHDR,
    /// Image Data
    IDAT,
    /// End of file
    IEND,
    /// Background Color
    bKGD,
    /// Primary chromaticities
    cHRM,
    /// Coding-independent code points
    cICP,
    /// Exif
    eXIf,
    /// Embedded ICC profile
    iCCP,
    /// Apple proprietary, information for faster image loading
    iDOT,
    /// International textual data
    iTXt,
    /// Physical pixel dimensions
    pHYs,
    /// Image uses sRGB color space with the given rendering intent
    sRGB,
    /// Textual information
    tEXt,
    /// Image last-modification time
    tIME,
    /// Compressed textual data
    zTXt,
    Unknown(u32),
}

impl ChunkType {
    /// The four bytes of the name of the type as a big-endian number.
    pub open spec fn code(self) -> u32 {
        match self {
            ChunkType::IHDR => 0x49484452,
            ChunkType::IDAT => 0x49444154,
            ChunkType::IEND => 0x49454E44,
            ChunkType::bKGD => 0x624B4744,
            ChunkType::cHRM => 0x6348524D,
            ChunkType::cICP => 0x63494350,
            ChunkType::eXIf => 0x65584966,
            ChunkType::iCCP => 0x69434350,
            ChunkType::iDOT => 0x69444F54,
            ChunkType::iTXt => 0x69545874,
            ChunkType::pHYs => 0x70485973,
            ChunkType::sRGB => 0x73524742,
            ChunkType::tEXt => 0x74455874,
            ChunkType::tIME => 0x74494D45,
            ChunkType::zTXt => 0x7A545874,
            ChunkType::Unknown(code) => code,
        }
    }

    /// The type with the given name.
    pub open spec fn of_code(code: u32) -> ChunkType {
        if code == 0x49484452 {
            ChunkType::IHDR
        } else if code == 0x49444154 {
            ChunkType::IDAT
        } else if code == 0x49454E44 {
            ChunkType::IEND
        } else if code == 0x624B4744 {
            ChunkType::bKGD
        } else if code == 0x6348524D {
            ChunkType::cHRM
        } else if code == 0x63494350 {
            ChunkType::cICP
        } else if code == 0x65584966 {
            ChunkType::eXIf
        } else if code == 0x69434350 {
            ChunkType::iCCP
        } else if code == 0x69444F54 {
            ChunkType::iDOT
        } else if code == 0x69545874 {
            ChunkType::iTXt
        } else if code == 0x70485973 {
            ChunkType::pHYs
        } else if code == 0x73524742 {
            ChunkType::sRGB
        } else if code == 0x74455874 {
            ChunkType::tEXt
        } else if code == 0x74494D45 {
            ChunkType::tIME
        } else if code == 0x7A545874 {
            ChunkType::zTXt
        } else {
            ChunkType::Unknown(code)
        }
    }

    /// The type with the given name; unknown names are kept as they are.
    pub fn from_u32(code: u32) -> (chunk_type: ChunkType)
        ensures
            chunk_type == ChunkType::of_code(code),
            chunk_type.code() == code,
    {
        if code == 0x49484452 {
            ChunkType::IHDR
        } else if code == 0x49444154 {
            ChunkType::IDAT
        } else if code == 0x49454E44 {
            ChunkType::IEND
        } else if code == 0x624B4744 {
            ChunkType::bKGD
        } else if code == 0x6348524D {
            ChunkType::cHRM
        } else if code == 0x63494350 {
            ChunkType::cICP
        } else if code == 0x65584966 {
            ChunkType::eXIf
        } else if code == 0x69434350 {
            ChunkType::iCCP
        } else if code == 0x69444F54 {
            ChunkType::iDOT
        } else if code == 0x69545874 {
            ChunkType::iTXt
        } else if code == 0x70485973 {
            ChunkType::pHYs
        } else if code == 0x73524742 {
            ChunkType::sRGB
        } else if code == 0x74455874 {
            ChunkType::tEXt
        } else if code == 0x74494D45 {
            ChunkType::tIME
        } else if code == 0x7A545874 {
            ChunkType::zTXt
        } else {
            ChunkType::Unknown(code)
        }
    }

    /// The name of the type as a big-endian number.
    pub fn to_u32(self) -> (code: u32)
        ensures
            code == self.code(),
    {
        match self {
            ChunkType::IHDR => 0x49484452,
            ChunkType::IDAT => 0x49444154,
            ChunkType::IEND => 0x49454E44,
            ChunkType::bKGD => 0x624B4744,
            ChunkType::cHRM => 0x6348524D,
            ChunkType::cICP => 0x63494350,
            ChunkType::eXIf => 0x65584966,
            ChunkType::iCCP => 0x69434350,
            ChunkType::iDOT => 0x69444F54,
            ChunkType::iTXt => 0x69545874,
            ChunkType::pHYs => 0x70485973,
            ChunkType::sRGB => 0x73524742,
            ChunkType::tEXt => 0x74455874,
            ChunkType::tIME => 0x74494D45,
            ChunkType::zTXt => 0x7A545874,
            ChunkType::Unknown(code) => code,
        }
    }

    /// Returns the byte string of the chunk
    pub fn bytes(self) -> (bytes: [u8; 4])
        ensures
            bytes@ == u32_bytes(self.code(), true),
    {
        u32_to_bytes(self.to_u32(), true)
    }
}

} // verus!
