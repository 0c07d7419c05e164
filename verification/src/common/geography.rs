//! The hemispheres that a coordinate refers to.
use vstd::prelude::*;
use crate::common::xmp::same_text;

verus! {

#[derive(Debug, Clone, Copy, PartialEq, Eq, Structural)]
pub enum LatRef {
    North,
    South,
}

#[derive(Debug, Clone, PartialEq, Eq)]
pub enum InvalidLatRef {
    /// The reference is neither `N` nor `S`.
    InvalidLatitudeRef(String),
}

#[derive(Debug, Clone, Copy, PartialEq, Eq, Structural)]
pub enum LonRef {
    East,
    West,
}

#[derive(Debug, Clone, PartialEq, Eq)]
pub enum InvalidLonRef {
    /// The reference is neither `E` nor `W`.
    InvalidLonRef(String),
}

/// A place on earth as Exif stores it: for latitude and longitude the
/// hemisphere and the degrees, minutes and seconds, each a fraction with a
/// denominator that is not zero.
#[derive(Debug, Clone, Copy, PartialEq, Eq)]
pub struct RationalLocation {
    pub lat_ref: LatRef,
    pub lat: [(u32, u32); 3],
    pub lon_ref: LonRef,
    pub lon: [(u32, u32); 3],
}

impl LatRef {
    /// The hemisphere that a letter stands for, if it is `N` or `S`.
    pub open spec fn of_letter(letter: Seq<char>) -> Option<LatRef> {
        if letter == "N"@ {
            Some(LatRef::North)
        } else if letter == "S"@ {
            Some(LatRef::South)
        } else {
            None
        }
    }

    /// The letter that stands for the hemisphere.
    pub open spec fn letter(self) -> Seq<char> {
        match self {
            LatRef::North => "N"@,
            LatRef::South => "S"@,
        }
    }

    /// The hemisphere that a letter stands for: `N` or `S`.
    pub fn from_letter(value: &str) -> (reference: Result<LatRef, InvalidLatRef>)
        ensures
            match reference {
                Ok(r) => r.letter() == value@ && LatRef::of_letter(value@) == Some(r),
                Err(InvalidLatRef::InvalidLatitudeRef(text)) => text@ == value@
                    && LatRef::of_letter(value@) is None,
            },
    {
        if same_text(value, "N") {
            Ok(LatRef::North)
        } else if same_text(value, "S") {
            Ok(LatRef::South)
        } else {
            Err(InvalidLatRef::InvalidLatitudeRef(value.to_owned()))
        }
    }

    /// The letter that stands for the hemisphere.
    pub fn as_letter(&self) -> (letter: &'static str)
        ensures
            letter@ == self.letter(),
    {
        match self {
            LatRef::North => "N",
            LatRef::South => "S",
        }
    }
}

impl LonRef {
    /// The hemisphere that a letter stands for, if it is `E` or `W`.
    pub open spec fn of_letter(letter: Seq<char>) -> Option<LonRef> {
        if letter == "E"@ {
            Some(LonRef::East)
        } else if letter == "W"@ {
            Some(LonRef::West)
        } else {
            None
        }
    }

    /// The letter that stands for the hemisphere.
    pub open spec fn letter(self) -> Seq<char> {
        match self {
            LonRef::East => "E"@,
            LonRef::West => "W"@,
        }
    }

    /// The hemisphere that a letter stands for: `E` or `W`.
    pub fn from_letter(value: &str) -> (reference: Result<LonRef, InvalidLonRef>)
        ensures
            match reference {
                Ok(r) => r.letter() == value@ && LonRef::of_letter(value@) == Some(r),
                Err(InvalidLonRef::InvalidLonRef(text)) => text@ == value@
                    && LonRef::of_letter(value@) is None,
            },
    {
        if same_text(value, "E") {
            Ok(LonRef::East)
        } else if same_text(value, "W") {
            Ok(LonRef::West)
        } else {
            Err(InvalidLonRef::InvalidLonRef(value.to_owned()))
        }
    }

    /// The letter that stands for the hemisphere.
    pub fn as_letter(&self) -> (letter: &'static str)
        ensures
            letter@ == self.letter(),
    {
        match self {
            LonRef::East => "E",
            LonRef::West => "W",
        }
    }
}

} // verus!
