//! Units of length.
use vstd::prelude::*;

verus! {

#[derive(Debug, Clone, Copy, PartialEq, Eq, Structural)]
#[non_exhaustive]
pub enum PhysicalDimensionUnit {
    Inch,
    /// 1/6 inch
    Pica,
    /// 1/72 inch
    Point,
    Meter,
    Centimeter,
    Millimeter,
}

impl PhysicalDimensionUnit {
    /// The usual abbreviation of the unit.
    pub open spec fn spec_shorthand(self) -> &'static str {
        match self {
            PhysicalDimensionUnit::Inch => "in",
            PhysicalDimensionUnit::Pica => "pc",
            PhysicalDimensionUnit::Point => "pt",
            PhysicalDimensionUnit::Meter => "m",
            PhysicalDimensionUnit::Centimeter => "cm",
            PhysicalDimensionUnit::Millimeter => "mm",
        }
    }

    /// The usual abbreviation of the unit.
    pub fn shorthand(self) -> (text: &'static str)
        ensures
            text == self.spec_shorthand(),
    {
        match self {
            PhysicalDimensionUnit::Inch => "in",
            PhysicalDimensionUnit::Pica => "pc",
            PhysicalDimensionUnit::Point => "pt",
            PhysicalDimensionUnit::Meter => "m",
            PhysicalDimensionUnit::Centimeter => "cm",
            PhysicalDimensionUnit::Millimeter => "mm",
        }
    }
}

} // verus!
