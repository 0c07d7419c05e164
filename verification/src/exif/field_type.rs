//! The table of TIFF field types and their element sizes.
use vstd::prelude::*;

verus! {

/// Element type of a directory entry.
///
/// Codes that the table does not know are kept in [`Type::Unknown`], so that
/// converting a code to a `Type` and back always gives the code again.
#[derive(Debug, Clone, Copy, PartialEq, Eq, Structural)]
pub enum Type {
    Byte,
    Ascii,
    Short,
    Long,
    Rational,
    Undefined,
    SLong,
    SRational,
    Utf8,
    Unknown(u16),
}

impl Type {
    /// The numeric code that stands for this type in a directory entry.
    pub open spec fn code(self) -> u16 {
        match self {
            Type::Byte => 1,
            Type::Ascii => 2,
            Type::Short => 3,
            Type::Long => 4,
            Type::Rational => 5,
            Type::Undefined => 7,
            Type::SLong => 9,
            Type::SRational => 10,
            Type::Utf8 => 129,
            Type::Unknown(code) => code,
        }
    }

    /// The type that a numeric code stands for.
    pub open spec fn of_code(code: u16) -> Type {
        if code == 1 {
            Type::Byte
        } else if code == 2 {
            Type::Ascii
        } else if code == 3 {
            Type::Short
        } else if code == 4 {
            Type::Long
        } else if code == 5 {
            Type::Rational
        } else if code == 7 {
            Type::Undefined
        } else if code == 9 {
            Type::SLong
        } else if code == 10 {
            Type::SRational
        } else if code == 129 {
            Type::Utf8
        } else {
            Type::Unknown(code)
        }
    }

    /// Size in bytes of one element of this type.
    pub open spec fn spec_size(self) -> u32 {
        match self {
            Type::Byte | Type::Ascii | Type::Undefined | Type::Utf8 | Type::Unknown(_) => 1,
            Type::Short => 2,
            Type::Long | Type::SLong => 4,
            Type::Rational | Type::SRational => 8,
        }
    }

    /// Size in bytes of one element of this type: 1, 2, 4 or 8.
    pub fn size(self) -> (size: u32)
        ensures
            size == self.spec_size(),
            size == 1 || size == 2 || size == 4 || size == 8,
    {
        match self {
            Type::Byte | Type::Ascii | Type::Undefined | Type::Utf8 | Type::Unknown(_) => 1,
            Type::Short => 2,
            Type::Long | Type::SLong => 4,
            Type::Rational | Type::SRational => 8,
        }
    }

    /// The numeric code of this type.
    pub fn u16(self) -> (code: u16)
        ensures
            code == self.code(),
    {
        match self {
            Type::Byte => 1,
            Type::Ascii => 2,
            Type::Short => 3,
            Type::Long => 4,
            Type::Rational => 5,
            Type::Undefined => 7,
            Type::SLong => 9,
            Type::SRational => 10,
            Type::Utf8 => 129,
            Type::Unknown(code) => code,
        }
    }

    /// The type for a numeric code; unknown codes are kept as they are.
    pub fn from_u16(code: u16) -> (t: Type)
        ensures
            t == Type::of_code(code),
    {
        if code == 1 {
            Type::Byte
        } else if code == 2 {
            Type::Ascii
        } else if code == 3 {
            Type::Short
        } else if code == 4 {
            Type::Long
        } else if code == 5 {
            Type::Rational
        } else if code == 7 {
            Type::Undefined
        } else if code == 9 {
            Type::SLong
        } else if code == 10 {
            Type::SRational
        } else if code == 129 {
            Type::Utf8
        } else {
            Type::Unknown(code)
        }
    }
}

impl From<u16> for Type {
    fn from(code: u16) -> (t: Type) {
        Type::from_u16(code)
    }
}

impl vstd::std_specs::convert::FromSpecImpl<u16> for Type {
    open spec fn obeys_from_spec() -> bool {
        true
    }

    open spec fn from_spec(code: u16) -> Type {
        Type::of_code(code)
    }
}

impl From<Type> for u16 {
    fn from(t: Type) -> (code: u16) {
        t.u16()
    }
}

impl vstd::std_specs::convert::FromSpecImpl<Type> for u16 {
    open spec fn obeys_from_spec() -> bool {
        true
    }

    open spec fn from_spec(t: Type) -> u16 {
        t.code()
    }
}

impl Type {
    /// The name of the type.
    pub open spec fn spec_name(self) -> &'static str {
        match self {
            Type::Byte => "Byte",
            Type::Ascii => "Ascii",
            Type::Short => "Short",
            Type::Long => "Long",
            Type::Rational => "Rational",
            Type::Undefined => "Undefined",
            Type::SLong => "SLong",
            Type::SRational => "SRational",
            Type::Utf8 => "Utf8",
            Type::Unknown(_) => "Unknown",
        }
    }

    /// The name of the type, for messages.
    pub fn name(&self) -> (name: &'static str)
        ensures
            name == self.spec_name(),
    {
        match self {
            Type::Byte => "Byte",
            Type::Ascii => "Ascii",
            Type::Short => "Short",
            Type::Long => "Long",
            Type::Rational => "Rational",
            Type::Undefined => "Undefined",
            Type::SLong => "SLong",
            Type::SRational => "SRational",
            Type::Utf8 => "Utf8",
            Type::Unknown(_) => "Unknown",
        }
    }
}

/// Converting a code to a type and back gives the code again.
pub proof fn code_round_trip(code: u16)
    ensures
        Type::of_code(code).code() == code,
{
}

} // verus!
