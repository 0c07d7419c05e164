//! What an encoder has to be told to write a file like this one.
use vstd::prelude::*;
use crate::jpeg::error::{EncoderError, Error};
use crate::jpeg::file::{ColorModel, Jpeg, Want};
use crate::jpeg::marker::Marker;
use crate::jpeg::segments::{tables_view, Dqt, Table};

verus! {

/// The color types that the encoder knows.
#[derive(Debug, Clone, Copy, PartialEq, Eq, Structural)]
pub enum ColorType {
    /// One component grayscale colorspace
    Luma,
    /// Three component YCbCr colorspace
    Ycbcr,
    /// 4 Component CMYK colorspace
    Cmyk,
    /// 4 Component YCbCrK colorspace
    Ycck,
}

/// The pairs of sampling factors that the encoder supports: 1, 2 or 4 each
/// way, but not 4 both ways.
pub open spec fn supported(horizontal: u8, vertical: u8) -> bool {
    (horizontal == 1 || horizontal == 2 || horizontal == 4) && (vertical == 1 || vertical == 2
        || vertical == 4) && !(horizontal == 4 && vertical == 4)
}

/// Whether the encoder supports a pair of sampling factors.
///
/// Calls `jpeg_encoder::SamplingFactor::from_factors`, which has a variant
/// for 1, 2 or 4 each way, but none for 4 both ways.
#[verifier::external_body]
pub(crate) fn is_supported(horizontal: u8, vertical: u8) -> (yes: bool)
    ensures
        yes == supported(horizontal, vertical),
{
    jpeg_encoder::SamplingFactor::from_factors(horizontal, vertical).is_some()
}

/// The last of the first `k` tables with the destination `tq`.
pub open spec fn table_for(tables: Seq<Table>, tq: u8, k: nat) -> Option<Table>
    decreases k,
{
    if k == 0 {
        None
    } else if tables[k - 1].tq == tq {
        Some(tables[k - 1])
    } else {
        table_for(tables, tq, (k - 1) as nat)
    }
}

/// The table with the destination `tq`: of several the last one counts.
pub fn find_table(tables: &Vec<Dqt>, tq: u8) -> (table: Option<Dqt>)
    ensures
        match table_for(tables_view(tables@), tq, tables@.len()) {
            Some(found) => table is Some && table->Some_0@ == found,
            None => table is None,
        },
{
    let mut table: Option<Dqt> = None;
    let n = tables.len();
    let mut k: usize = 0;
    while k < n
        invariant
            k <= n,
            n == tables@.len(),
            match table_for(tables_view(tables@), tq, k as nat) {
                Some(found) => table is Some && table->Some_0@ == found,
                None => table is None,
            },
        decreases n - k,
    {
        if tables[k].tq() == tq {
            table = Some(tables[k]);
        }
        k += 1;
    }
    table
}

impl ColorModel {
    /// The color type of the encoder for the color model; it has none for
    /// RGB.
    pub fn color_type(&self) -> (color_type: Result<ColorType, EncoderError>)
        ensures
            color_type == (match self {
                ColorModel::Cmyk => Ok::<ColorType, EncoderError>(ColorType::Cmyk),
                ColorModel::Grayscale => Ok::<ColorType, EncoderError>(ColorType::Luma),
                ColorModel::Rgb => Err::<ColorType, EncoderError>(
                    EncoderError::UnsupportedColorModel,
                ),
                ColorModel::YCbCr => Ok::<ColorType, EncoderError>(ColorType::Ycbcr),
                ColorModel::Ycck => Ok::<ColorType, EncoderError>(ColorType::Ycck),
            }),
    {
        match self {
            ColorModel::Cmyk => Ok(ColorType::Cmyk),
            ColorModel::Grayscale => Ok(ColorType::Luma),
            ColorModel::Rgb => Err(EncoderError::UnsupportedColorModel),
            ColorModel::YCbCr => Ok(ColorType::Ycbcr),
            ColorModel::Ycck => Ok(ColorType::Ycck),
        }
    }
}

/// The sampling factors for a color type, given the parameters of the
/// components by their place in the scan: those of the fourth component for
/// CMYK, 1 and 1 for grayscale, those of the first component for YCbCr,
/// and for YCCK those of the first component, which must be those of the
/// fourth.
pub open spec fn factors_for(
    color_type: ColorType,
    first: Result<(u8, u8), Error>,
    fourth: Result<(u8, u8), Error>,
) -> Result<(u8, u8), EncoderError> {
    let factors = match color_type {
        ColorType::Cmyk => fourth,
        ColorType::Luma => Ok((1u8, 1u8)),
        ColorType::Ycbcr => first,
        ColorType::Ycck => match first {
            Err(e) => Err(e),
            Ok(_) => match fourth {
                Err(e) => Err(e),
                Ok(_) => first,
            },
        },
    };
    match factors {
        Err(e) => Err(EncoderError::Gufo(e)),
        Ok((h, v)) => if color_type == ColorType::Ycck && first != fourth {
            Err(EncoderError::UnsupportedSamplingFactor)
        } else if supported(h, v) {
            Ok((h, v))
        } else {
            Err(EncoderError::UnsupportedSamplingFactor)
        },
    }
}

impl Jpeg {
    /// The sampling factors of the component that the scan lists at
    /// `component`.
    pub open spec fn factors(&self, component: int) -> Result<(u8, u8), Error> {
        match self.parameters(component) {
            Ok(parameters) => Ok((parameters.h, parameters.v)),
            Err(e) => Err(e),
        }
    }

    /// The color model of the file.
    pub open spec fn spec_color_model(&self) -> Result<ColorModel, Error> {
        match self.scan() {
            Err(e) => Err(e),
            Ok(scan) => crate::jpeg::file::color_model_of(
                self.data_by_marker(Marker::APP14),
                scan.components_specifications.len() as int,
            ),
        }
    }

    /// The sampling factors, horizontal and vertical, with which the
    /// encoder writes a file like this one.
    pub fn sampling_factor(&self) -> (factors: Result<(u8, u8), EncoderError>)
        requires
            self.wf(),
        ensures
            factors == (match self.spec_color_model() {
                Err(e) => Err::<(u8, u8), EncoderError>(EncoderError::Gufo(e)),
                Ok(ColorModel::Rgb) => Err::<(u8, u8), EncoderError>(
                    EncoderError::UnsupportedColorModel,
                ),
                Ok(ColorModel::Cmyk) => factors_for(
                    ColorType::Cmyk,
                    self.factors(0),
                    self.factors(3),
                ),
                Ok(ColorModel::Grayscale) => factors_for(
                    ColorType::Luma,
                    self.factors(0),
                    self.factors(3),
                ),
                Ok(ColorModel::YCbCr) => factors_for(
                    ColorType::Ycbcr,
                    self.factors(0),
                    self.factors(3),
                ),
                Ok(ColorModel::Ycck) => factors_for(
                    ColorType::Ycck,
                    self.factors(0),
                    self.factors(3),
                ),
            }),
    {
        let model = match self.color_model() {
            Ok(model) => model,
            Err(e) => {
                return Err(EncoderError::Gufo(e));
            },
        };
        let (h, v) = match model.color_type()? {
            ColorType::Cmyk => {
                match self.components_specification_parameters(3) {
                    Ok(parameters) => (parameters.h, parameters.v),
                    Err(e) => {
                        return Err(EncoderError::Gufo(e));
                    },
                }
            },
            ColorType::Luma => (1, 1),
            ColorType::Ycbcr => {
                match self.components_specification_parameters(0) {
                    Ok(parameters) => (parameters.h, parameters.v),
                    Err(e) => {
                        return Err(EncoderError::Gufo(e));
                    },
                }
            },
            ColorType::Ycck => {
                let parameters_0 = match self.components_specification_parameters(0) {
                    Ok(parameters) => parameters,
                    Err(e) => {
                        return Err(EncoderError::Gufo(e));
                    },
                };
                let parameters_3 = match self.components_specification_parameters(3) {
                    Ok(parameters) => parameters,
                    Err(e) => {
                        return Err(EncoderError::Gufo(e));
                    },
                };
                if parameters_0.h != parameters_3.h || parameters_0.v != parameters_3.v {
                    return Err(EncoderError::UnsupportedSamplingFactor);
                }
                (parameters_0.h, parameters_0.v)
            },
        };
        if is_supported(h, v) {
            Ok((h, v))
        } else {
            Err(EncoderError::UnsupportedSamplingFactor)
        }
    }

    /// The quantization table for the component that the scan lists at
    /// `component`.
    pub open spec fn table_of(&self, component: int) -> Result<Seq<u16>, EncoderError> {
        match crate::jpeg::file::tables_of(
            self.data@,
            self.chosen(Want::Marked(Marker::DQT)),
            self.chosen(Want::Marked(Marker::DQT)).len(),
        ) {
            Err(e) => Err(EncoderError::Gufo(e)),
            Ok(tables) => match self.parameters(component) {
                Err(e) => Err(EncoderError::Gufo(e)),
                Ok(parameters) => match table_for(tables, parameters.tq, tables.len()) {
                    Some(table) => Ok(table.values),
                    None => Err(EncoderError::Gufo(Error::MissingDqt)),
                },
            },
        }
    }

    /// The quantization tables for luma and chroma with which the encoder
    /// writes a file like this one: those of the first and of the second
    /// component.
    pub fn quantization_tables(&self) -> (tables: Result<([u16; 64], [u16; 64]), EncoderError>)
        requires
            self.wf(),
        ensures
            match (self.table_of(0), self.table_of(1)) {
                (Ok(luma), Ok(chroma)) => tables is Ok && tables->Ok_0.0@ == luma
                    && tables->Ok_0.1@ == chroma,
                (Err(e), _) => tables is Err && tables->Err_0 == e,
                (Ok(_), Err(e)) => tables is Err && tables->Err_0 == e,
            },
    {
        let dqts = match self.dqts() {
            Ok(dqts) => dqts,
            Err(e) => {
                return Err(EncoderError::Gufo(e));
            },
        };
        let luma_parameters = match self.components_specification_parameters(0) {
            Ok(parameters) => parameters,
            Err(e) => {
                return Err(EncoderError::Gufo(e));
            },
        };
        let luma = match find_table(&dqts, luma_parameters.tq) {
            Some(table) => table.qk(),
            None => {
                return Err(EncoderError::Gufo(Error::MissingDqt));
            },
        };
        let chroma_parameters = match self.components_specification_parameters(1) {
            Ok(parameters) => parameters,
            Err(e) => {
                return Err(EncoderError::Gufo(e));
            },
        };
        let chroma = match find_table(&dqts, chroma_parameters.tq) {
            Some(table) => table.qk(),
            None => {
                return Err(EncoderError::Gufo(Error::MissingDqt));
            },
        };
        Ok((luma, chroma))
    }
}

} // verus!
