//! Coding-independent code points
//!
//! - [ITU-T H.273: Coding-independent code points for video signal type identification](https://www.itu.int/rec/T-REC-H.273)
use vstd::prelude::*;

verus! {

#[derive(Debug, PartialEq, Eq, Clone, Copy, Structural)]
pub enum ColorPrimaries {
    Srgb,
    Unspecified,
    Rec2020,
    DciP3,
    Unknown(u8),
}

#[derive(Debug, PartialEq, Eq, Clone, Copy, Structural)]
pub enum TransferCharacteristics {
    /// Gamma=2.2 curve
    Gamma22,
    Unspecified,
    /// Gamma=2.2 curve
    Gamma22_,
    /// Linear
    Linear,
    /// Gamma=2.4 curve per IEC 61966-2-1 sRGB
    Gamma24,
    /// Gamma=2.2 curve 10 bit
    Gamma22Bit10,
    /// Gamma=2.2 curve 12 bit
    Gamma22Bit12,
    /// Perceptual quantization (PQ) system
    Pq,
    /// Hybrid log-gamma (HLG) system
    Hlg,
    Unknown(u8),
}

#[derive(Debug, PartialEq, Eq, Clone, Copy, Structural)]
pub enum MatrixCoefficients {
    Identity,
    Unspecified,
    ICtCp,
    Unknown(u8),
}

#[derive(Debug, PartialEq, Eq, Clone, Copy, Structural)]
pub enum VideoRangeFlag {
    Narrow,
    Full,
}

#[derive(Debug, PartialEq, Eq, Clone, Copy, Structural)]
pub enum CicpError {
    /// The video full range flag is neither 0 nor 1.
    InvalidVideoFullRangeFlag(u8),
}

/// Coding-independent code points
#[derive(Debug, Clone, Copy, PartialEq, Eq, Structural)]
pub struct Cicp {
    pub color_primaries: ColorPrimaries,
    pub transfer_characteristics: TransferCharacteristics,
    pub matrix_coefficients: MatrixCoefficients,
    pub video_full_range_flag: VideoRangeFlag,
}

impl ColorPrimaries {
    pub open spec fn code(self) -> u8 {
        match self {
            ColorPrimaries::Srgb => 1,
            ColorPrimaries::Unspecified => 2,
            ColorPrimaries::Rec2020 => 9,
            ColorPrimaries::DciP3 => 12,
            ColorPrimaries::Unknown(code) => code,
        }
    }

    pub open spec fn of_code(code: u8) -> ColorPrimaries {
        if code == 1 {
            ColorPrimaries::Srgb
        } else if code == 2 {
            ColorPrimaries::Unspecified
        } else if code == 9 {
            ColorPrimaries::Rec2020
        } else if code == 12 {
            ColorPrimaries::DciP3
        } else {
            ColorPrimaries::Unknown(code)
        }
    }

    pub fn from_u8(code: u8) -> (value: ColorPrimaries)
        ensures
            value == ColorPrimaries::of_code(code),
            value.code() == code,
    {
        if code == 1 {
            ColorPrimaries::Srgb
        } else if code == 2 {
            ColorPrimaries::Unspecified
        } else if code == 9 {
            ColorPrimaries::Rec2020
        } else if code == 12 {
            ColorPrimaries::DciP3
        } else {
            ColorPrimaries::Unknown(code)
        }
    }

    pub fn to_u8(self) -> (code: u8)
        ensures
            code == self.code(),
    {
        match self {
            ColorPrimaries::Srgb => 1,
            ColorPrimaries::Unspecified => 2,
            ColorPrimaries::Rec2020 => 9,
            ColorPrimaries::DciP3 => 12,
            ColorPrimaries::Unknown(code) => code,
        }
    }
}

impl TransferCharacteristics {
    pub open spec fn code(self) -> u8 {
        match self {
            TransferCharacteristics::Gamma22 => 1,
            TransferCharacteristics::Unspecified => 2,
            TransferCharacteristics::Gamma22_ => 6,
            TransferCharacteristics::Linear => 8,
            TransferCharacteristics::Gamma24 => 13,
            TransferCharacteristics::Gamma22Bit10 => 14,
            TransferCharacteristics::Gamma22Bit12 => 15,
            TransferCharacteristics::Pq => 16,
            TransferCharacteristics::Hlg => 18,
            TransferCharacteristics::Unknown(code) => code,
        }
    }

    pub open spec fn of_code(code: u8) -> TransferCharacteristics {
        if code == 1 {
            TransferCharacteristics::Gamma22
        } else if code == 2 {
            TransferCharacteristics::Unspecified
        } else if code == 6 {
            TransferCharacteristics::Gamma22_
        } else if code == 8 {
            TransferCharacteristics::Linear
        } else if code == 13 {
            TransferCharacteristics::Gamma24
        } else if code == 14 {
            TransferCharacteristics::Gamma22Bit10
        } else if code == 15 {
            TransferCharacteristics::Gamma22Bit12
        } else if code == 16 {
            TransferCharacteristics::Pq
        } else if code == 18 {
            TransferCharacteristics::Hlg
        } else {
            TransferCharacteristics::Unknown(code)
        }
    }

    pub fn from_u8(code: u8) -> (value: TransferCharacteristics)
        ensures
            value == TransferCharacteristics::of_code(code),
            value.code() == code,
    {
        if code == 1 {
            TransferCharacteristics::Gamma22
        } else if code == 2 {
            TransferCharacteristics::Unspecified
        } else if code == 6 {
            TransferCharacteristics::Gamma22_
        } else if code == 8 {
            TransferCharacteristics::Linear
        } else if code == 13 {
            TransferCharacteristics::Gamma24
        } else if code == 14 {
            TransferCharacteristics::Gamma22Bit10
        } else if code == 15 {
            TransferCharacteristics::Gamma22Bit12
        } else if code == 16 {
            TransferCharacteristics::Pq
        } else if code == 18 {
            TransferCharacteristics::Hlg
        } else {
            TransferCharacteristics::Unknown(code)
        }
    }

    pub fn to_u8(self) -> (code: u8)
        ensures
            code == self.code(),
    {
        match self {
            TransferCharacteristics::Gamma22 => 1,
            TransferCharacteristics::Unspecified => 2,
            TransferCharacteristics::Gamma22_ => 6,
            TransferCharacteristics::Linear => 8,
            TransferCharacteristics::Gamma24 => 13,
            TransferCharacteristics::Gamma22Bit10 => 14,
            TransferCharacteristics::Gamma22Bit12 => 15,
            TransferCharacteristics::Pq => 16,
            TransferCharacteristics::Hlg => 18,
            TransferCharacteristics::Unknown(code) => code,
        }
    }
}

impl MatrixCoefficients {
    pub open spec fn code(self) -> u8 {
        match self {
            MatrixCoefficients::Identity => 0,
            MatrixCoefficients::Unspecified => 2,
            MatrixCoefficients::ICtCp => 14,
            MatrixCoefficients::Unknown(code) => code,
        }
    }

    pub open spec fn of_code(code: u8) -> MatrixCoefficients {
        if code == 0 {
            MatrixCoefficients::Identity
        } else if code == 2 {
            MatrixCoefficients::Unspecified
        } else if code == 14 {
            MatrixCoefficients::ICtCp
        } else {
            MatrixCoefficients::Unknown(code)
        }
    }

    pub fn from_u8(code: u8) -> (value: MatrixCoefficients)
        ensures
            value == MatrixCoefficients::of_code(code),
            value.code() == code,
    {
        if code == 0 {
            MatrixCoefficients::Identity
        } else if code == 2 {
            MatrixCoefficients::Unspecified
        } else if code == 14 {
            MatrixCoefficients::ICtCp
        } else {
            MatrixCoefficients::Unknown(code)
        }
    }

    pub fn to_u8(self) -> (code: u8)
        ensures
            code == self.code(),
    {
        match self {
            MatrixCoefficients::Identity => 0,
            MatrixCoefficients::Unspecified => 2,
            MatrixCoefficients::ICtCp => 14,
            MatrixCoefficients::Unknown(code) => code,
        }
    }
}

impl VideoRangeFlag {
    pub open spec fn code(self) -> u8 {
        match self {
            VideoRangeFlag::Narrow => 0,
            VideoRangeFlag::Full => 1,
        }
    }

    pub fn to_u8(self) -> (code: u8)
        ensures
            code == self.code(),
    {
        match self {
            VideoRangeFlag::Narrow => 0,
            VideoRangeFlag::Full => 1,
        }
    }
}

impl Cicp {
    /// The code points of sRGB.
    pub open spec fn spec_srgb() -> Cicp {
        Cicp {
            color_primaries: ColorPrimaries::Srgb,
            transfer_characteristics: TransferCharacteristics::Gamma24,
            matrix_coefficients: MatrixCoefficients::Identity,
            video_full_range_flag: VideoRangeFlag::Full,
        }
    }

    /// The four bytes of the code points, in the order of the fields.
    pub open spec fn bytes(self) -> Seq<u8> {
        seq![
            self.color_primaries.code(),
            self.transfer_characteristics.code(),
            self.matrix_coefficients.code(),
            self.video_full_range_flag.code(),
        ]
    }

    /// The code points of sRGB.
    pub fn srgb() -> (cicp: Cicp)
        ensures
            cicp == Cicp::spec_srgb(),
    {
        Cicp {
            color_primaries: ColorPrimaries::Srgb,
            transfer_characteristics: TransferCharacteristics::Gamma24,
            matrix_coefficients: MatrixCoefficients::Identity,
            video_full_range_flag: VideoRangeFlag::Full,
        }
    }

    /// The code points of linear Rec. 2020.
    pub fn rec2020_linear() -> (cicp: Cicp)
        ensures
            cicp == (Cicp {
                color_primaries: ColorPrimaries::Rec2020,
                transfer_characteristics: TransferCharacteristics::Linear,
                matrix_coefficients: MatrixCoefficients::Identity,
                video_full_range_flag: VideoRangeFlag::Full,
            }),
    {
        Cicp {
            color_primaries: ColorPrimaries::Rec2020,
            transfer_characteristics: TransferCharacteristics::Linear,
            matrix_coefficients: MatrixCoefficients::Identity,
            video_full_range_flag: VideoRangeFlag::Full,
        }
    }

    /// The code points that four bytes stand for, in the order of the
    /// fields. Only the last byte can be wrong: the video full range flag is
    /// 0 or 1.
    pub open spec fn of_bytes(bytes: Seq<u8>) -> Result<Cicp, CicpError> {
        if bytes[3] > 1 {
            Err(CicpError::InvalidVideoFullRangeFlag(bytes[3]))
        } else {
            Ok(
                Cicp {
                    color_primaries: ColorPrimaries::of_code(bytes[0]),
                    transfer_characteristics: TransferCharacteristics::of_code(bytes[1]),
                    matrix_coefficients: MatrixCoefficients::of_code(bytes[2]),
                    video_full_range_flag: if bytes[3] == 0 {
                        VideoRangeFlag::Narrow
                    } else {
                        VideoRangeFlag::Full
                    },
                },
            )
        }
    }

    /// Get CICP from bytes in the order of struct definition
    pub fn from_bytes(bytes: &[u8; 4]) -> (cicp: Result<Cicp, CicpError>)
        ensures
            cicp == Cicp::of_bytes(bytes@),
            cicp is Ok ==> cicp->Ok_0.bytes() == bytes@,
    {
        let color_primaries = ColorPrimaries::from_u8(bytes[0]);
        let transfer_characteristics = TransferCharacteristics::from_u8(bytes[1]);
        let matrix_coefficients = MatrixCoefficients::from_u8(bytes[2]);
        let video_full_range_flag = if bytes[3] == 0 {
            VideoRangeFlag::Narrow
        } else if bytes[3] == 1 {
            VideoRangeFlag::Full
        } else {
            return Err(CicpError::InvalidVideoFullRangeFlag(bytes[3]));
        };
        let cicp = Cicp {
            color_primaries,
            transfer_characteristics,
            matrix_coefficients,
            video_full_range_flag,
        };
        assert(cicp.bytes() =~= bytes@);
        Ok(cicp)
    }

    /// The four bytes of the code points, in the order of the fields.
    pub fn to_bytes(&self) -> (bytes: Vec<u8>)
        ensures
            bytes@ == self.bytes(),
    {
        let mut bytes: Vec<u8> = Vec::new();
        bytes.push(self.color_primaries.to_u8());
        bytes.push(self.transfer_characteristics.to_u8());
        bytes.push(self.matrix_coefficients.to_u8());
        bytes.push(self.video_full_range_flag.to_u8());
        assert(bytes@ =~= self.bytes());
        bytes
    }
}

} // verus!
