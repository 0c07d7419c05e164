//! Arithmetic that reports what does not fit instead of wrapping.
use vstd::prelude::*;

verus! {

/// An operation whose result does not fit, with its operands.
#[derive(Debug, Clone, Copy, PartialEq, Eq)]
pub enum MathError {
    AddFailed(Option<i128>, Option<i128>),
    SubFailed(Option<i128>, Option<i128>),
    MulFailed(Option<i128>, Option<i128>),
    DivFailed(Option<i128>, Option<i128>),
    ConversionFailed(Option<i128>),
    NegationOverflow(Option<i128>),
}

/// The quotient of a division that rounds towards zero.
pub open spec fn quotient(a: int, b: int) -> int {
    if a >= 0 && b > 0 {
        a / b
    } else if a < 0 && b > 0 {
        -((-a) / b)
    } else if a >= 0 && b < 0 {
        -(a / (-b))
    } else {
        (-a) / (-b)
    }
}

/// Container for safe integers operators
///
/// Holds a number or the error of the calculation that was to give it.
#[derive(Debug)]
pub struct Checked<T>(pub Result<T, MathError>);

impl<T> Checked<T> {
    pub fn new(val: T) -> (checked: Checked<T>)
        ensures
            checked.0 == Ok::<T, MathError>(val),
    {
        Checked(Ok(val))
    }

    /// Returns the result of the calculation
    pub fn check(self) -> (result: Result<T, MathError>)
        ensures
            result == self.0,
    {
        self.0
    }
}

pub trait SafeAdd: Sized {
    fn safe_add(self, rhs: Self) -> Result<Self, MathError>;
}

pub trait SafeSub: Sized {
    fn safe_sub(self, rhs: Self) -> Result<Self, MathError>;
}

pub trait SafeMul: Sized {
    fn safe_mul(self, rhs: Self) -> Result<Self, MathError>;
}

pub trait SafeDiv: Sized {
    fn safe_div(self, rhs: Self) -> Result<Self, MathError>;
}

pub trait SafeNeg: Sized {
    fn safe_neg(self) -> Result<Self, MathError>;
}

pub trait ToU16: Sized {
    fn u16(self) -> Result<u16, MathError>;
}

pub trait ToU32: Sized {
    fn u32(self) -> Result<u32, MathError>;
}

pub trait ToU64: Sized {
    fn u64(self) -> Result<u64, MathError>;
}

pub trait ToUsize: Sized {
    fn usize(self) -> Result<usize, MathError>;
}

pub trait ToI16: Sized {
    fn i16(self) -> Result<i16, MathError>;
}

pub trait ToI32: Sized {
    fn i32(self) -> Result<i32, MathError>;
}

pub trait ToI64: Sized {
    fn i64(self) -> Result<i64, MathError>;
}

impl SafeAdd for u16 {
    fn safe_add(self, rhs: u16) -> (result: Result<u16, MathError>)
        ensures
            u16::MIN <= self + rhs <= u16::MAX ==> result == Ok::<u16, MathError>(
                (self + rhs) as u16,
            ),
            !(u16::MIN <= self + rhs <= u16::MAX) ==> result == Err::<u16, MathError>(
                MathError::AddFailed(Some(self as i128), Some(rhs as i128)),
            ),
    {
        match self.checked_add(rhs) {
            Some(value) => Ok(value),
            None => Err(MathError::AddFailed(Some(self as i128), Some(rhs as i128))),
        }
    }
}

impl SafeSub for u16 {
    fn safe_sub(self, rhs: u16) -> (result: Result<u16, MathError>)
        ensures
            u16::MIN <= self - rhs <= u16::MAX ==> result == Ok::<u16, MathError>(
                (self - rhs) as u16,
            ),
            !(u16::MIN <= self - rhs <= u16::MAX) ==> result == Err::<u16, MathError>(
                MathError::SubFailed(Some(self as i128), Some(rhs as i128)),
            ),
    {
        match self.checked_sub(rhs) {
            Some(value) => Ok(value),
            None => Err(MathError::SubFailed(Some(self as i128), Some(rhs as i128))),
        }
    }
}

impl SafeMul for u16 {
    fn safe_mul(self, rhs: u16) -> (result: Result<u16, MathError>)
        ensures
            u16::MIN <= self * rhs <= u16::MAX ==> result == Ok::<u16, MathError>(
                (self * rhs) as u16,
            ),
            !(u16::MIN <= self * rhs <= u16::MAX) ==> result == Err::<u16, MathError>(
                MathError::MulFailed(Some(self as i128), Some(rhs as i128)),
            ),
    {
        match self.checked_mul(rhs) {
            Some(value) => Ok(value),
            None => Err(MathError::MulFailed(Some(self as i128), Some(rhs as i128))),
        }
    }
}

impl SafeDiv for u16 {
    fn safe_div(self, rhs: u16) -> (result: Result<u16, MathError>)
        ensures
            rhs != 0 ==> result is Ok && result->Ok_0 == quotient(self as int, rhs as int),
            !(rhs != 0) ==> result == Err::<u16, MathError>(
                MathError::DivFailed(Some(self as i128), Some(rhs as i128)),
            ),
    {
        if rhs != 0 {
            Ok(self / rhs)
        } else {
            Err(MathError::DivFailed(Some(self as i128), Some(rhs as i128)))
        }
    }
}

impl ToU16 for u16 {
    fn u16(self) -> (result: Result<u16, MathError>)
        ensures
            u16::MIN <= self <= u16::MAX ==> result == Ok::<u16, MathError>(self as u16),
            !(u16::MIN <= self <= u16::MAX) ==> result == Err::<u16, MathError>(
                MathError::ConversionFailed(Some(self as i128)),
            ),
    {
        if u16::MIN as i128 <= self as i128 && self as i128 <= u16::MAX as i128 {
            Ok(self as u16)
        } else {
            Err(MathError::ConversionFailed(Some(self as i128)))
        }
    }
}

impl ToU32 for u16 {
    fn u32(self) -> (result: Result<u32, MathError>)
        ensures
            u32::MIN <= self <= u32::MAX ==> result == Ok::<u32, MathError>(self as u32),
            !(u32::MIN <= self <= u32::MAX) ==> result == Err::<u32, MathError>(
                MathError::ConversionFailed(Some(self as i128)),
            ),
    {
        if u32::MIN as i128 <= self as i128 && self as i128 <= u32::MAX as i128 {
            Ok(self as u32)
        } else {
            Err(MathError::ConversionFailed(Some(self as i128)))
        }
    }
}

impl ToU64 for u16 {
    fn u64(self) -> (result: Result<u64, MathError>)
        ensures
            u64::MIN <= self <= u64::MAX ==> result == Ok::<u64, MathError>(self as u64),
            !(u64::MIN <= self <= u64::MAX) ==> result == Err::<u64, MathError>(
                MathError::ConversionFailed(Some(self as i128)),
            ),
    {
        if u64::MIN as i128 <= self as i128 && self as i128 <= u64::MAX as i128 {
            Ok(self as u64)
        } else {
            Err(MathError::ConversionFailed(Some(self as i128)))
        }
    }
}

impl ToUsize for u16 {
    fn usize(self) -> (result: Result<usize, MathError>)
        ensures
            usize::MIN <= self <= usize::MAX ==> result == Ok::<usize, MathError>(self as usize),
            !(usize::MIN <= self <= usize::MAX) ==> result == Err::<usize, MathError>(
                MathError::ConversionFailed(Some(self as i128)),
            ),
    {
        if usize::MIN as i128 <= self as i128 && self as i128 <= usize::MAX as i128 {
            Ok(self as usize)
        } else {
            Err(MathError::ConversionFailed(Some(self as i128)))
        }
    }
}

impl ToI16 for u16 {
    fn i16(self) -> (result: Result<i16, MathError>)
        ensures
            i16::MIN <= self <= i16::MAX ==> result == Ok::<i16, MathError>(self as i16),
            !(i16::MIN <= self <= i16::MAX) ==> result == Err::<i16, MathError>(
                MathError::ConversionFailed(Some(self as i128)),
            ),
    {
        if i16::MIN as i128 <= self as i128 && self as i128 <= i16::MAX as i128 {
            Ok(self as i16)
        } else {
            Err(MathError::ConversionFailed(Some(self as i128)))
        }
    }
}

impl ToI32 for u16 {
    fn i32(self) -> (result: Result<i32, MathError>)
        ensures
            i32::MIN <= self <= i32::MAX ==> result == Ok::<i32, MathError>(self as i32),
            !(i32::MIN <= self <= i32::MAX) ==> result == Err::<i32, MathError>(
                MathError::ConversionFailed(Some(self as i128)),
            ),
    {
        if i32::MIN as i128 <= self as i128 && self as i128 <= i32::MAX as i128 {
            Ok(self as i32)
        } else {
            Err(MathError::ConversionFailed(Some(self as i128)))
        }
    }
}

impl ToI64 for u16 {
    fn i64(self) -> (result: Result<i64, MathError>)
        ensures
            i64::MIN <= self <= i64::MAX ==> result == Ok::<i64, MathError>(self as i64),
            !(i64::MIN <= self <= i64::MAX) ==> result == Err::<i64, MathError>(
                MathError::ConversionFailed(Some(self as i128)),
            ),
    {
        if i64::MIN as i128 <= self as i128 && self as i128 <= i64::MAX as i128 {
            Ok(self as i64)
        } else {
            Err(MathError::ConversionFailed(Some(self as i128)))
        }
    }
}

impl SafeAdd for u32 {
    fn safe_add(self, rhs: u32) -> (result: Result<u32, MathError>)
        ensures
            u32::MIN <= self + rhs <= u32::MAX ==> result == Ok::<u32, MathError>(
                (self + rhs) as u32,
            ),
            !(u32::MIN <= self + rhs <= u32::MAX) ==> result == Err::<u32, MathError>(
                MathError::AddFailed(Some(self as i128), Some(rhs as i128)),
            ),
    {
        match self.checked_add(rhs) {
            Some(value) => Ok(value),
            None => Err(MathError::AddFailed(Some(self as i128), Some(rhs as i128))),
        }
    }
}

impl SafeSub for u32 {
    fn safe_sub(self, rhs: u32) -> (result: Result<u32, MathError>)
        ensures
            u32::MIN <= self - rhs <= u32::MAX ==> result == Ok::<u32, MathError>(
                (self - rhs) as u32,
            ),
            !(u32::MIN <= self - rhs <= u32::MAX) ==> result == Err::<u32, MathError>(
                MathError::SubFailed(Some(self as i128), Some(rhs as i128)),
            ),
    {
        match self.checked_sub(rhs) {
            Some(value) => Ok(value),
            None => Err(MathError::SubFailed(Some(self as i128), Some(rhs as i128))),
        }
    }
}

impl SafeMul for u32 {
    fn safe_mul(self, rhs: u32) -> (result: Result<u32, MathError>)
        ensures
            u32::MIN <= self * rhs <= u32::MAX ==> result == Ok::<u32, MathError>(
                (self * rhs) as u32,
            ),
            !(u32::MIN <= self * rhs <= u32::MAX) ==> result == Err::<u32, MathError>(
                MathError::MulFailed(Some(self as i128), Some(rhs as i128)),
            ),
    {
        match self.checked_mul(rhs) {
            Some(value) => Ok(value),
            None => Err(MathError::MulFailed(Some(self as i128), Some(rhs as i128))),
        }
    }
}

impl SafeDiv for u32 {
    fn safe_div(self, rhs: u32) -> (result: Result<u32, MathError>)
        ensures
            rhs != 0 ==> result is Ok && result->Ok_0 == quotient(self as int, rhs as int),
            !(rhs != 0) ==> result == Err::<u32, MathError>(
                MathError::DivFailed(Some(self as i128), Some(rhs as i128)),
            ),
    {
        if rhs != 0 {
            Ok(self / rhs)
        } else {
            Err(MathError::DivFailed(Some(self as i128), Some(rhs as i128)))
        }
    }
}

impl ToU16 for u32 {
    fn u16(self) -> (result: Result<u16, MathError>)
        ensures
            u16::MIN <= self <= u16::MAX ==> result == Ok::<u16, MathError>(self as u16),
            !(u16::MIN <= self <= u16::MAX) ==> result == Err::<u16, MathError>(
                MathError::ConversionFailed(Some(self as i128)),
            ),
    {
        if u16::MIN as i128 <= self as i128 && self as i128 <= u16::MAX as i128 {
            Ok(self as u16)
        } else {
            Err(MathError::ConversionFailed(Some(self as i128)))
        }
    }
}

impl ToU32 for u32 {
    fn u32(self) -> (result: Result<u32, MathError>)
        ensures
            u32::MIN <= self <= u32::MAX ==> result == Ok::<u32, MathError>(self as u32),
            !(u32::MIN <= self <= u32::MAX) ==> result == Err::<u32, MathError>(
                MathError::ConversionFailed(Some(self as i128)),
            ),
    {
        if u32::MIN as i128 <= self as i128 && self as i128 <= u32::MAX as i128 {
            Ok(self as u32)
        } else {
            Err(MathError::ConversionFailed(Some(self as i128)))
        }
    }
}

impl ToU64 for u32 {
    fn u64(self) -> (result: Result<u64, MathError>)
        ensures
            u64::MIN <= self <= u64::MAX ==> result == Ok::<u64, MathError>(self as u64),
            !(u64::MIN <= self <= u64::MAX) ==> result == Err::<u64, MathError>(
                MathError::ConversionFailed(Some(self as i128)),
            ),
    {
        if u64::MIN as i128 <= self as i128 && self as i128 <= u64::MAX as i128 {
            Ok(self as u64)
        } else {
            Err(MathError::ConversionFailed(Some(self as i128)))
        }
    }
}

impl ToUsize for u32 {
    fn usize(self) -> (result: Result<usize, MathError>)
        ensures
            usize::MIN <= self <= usize::MAX ==> result == Ok::<usize, MathError>(self as usize),
            !(usize::MIN <= self <= usize::MAX) ==> result == Err::<usize, MathError>(
                MathError::ConversionFailed(Some(self as i128)),
            ),
    {
        if usize::MIN as i128 <= self as i128 && self as i128 <= usize::MAX as i128 {
            Ok(self as usize)
        } else {
            Err(MathError::ConversionFailed(Some(self as i128)))
        }
    }
}

impl ToI16 for u32 {
    fn i16(self) -> (result: Result<i16, MathError>)
        ensures
            i16::MIN <= self <= i16::MAX ==> result == Ok::<i16, MathError>(self as i16),
            !(i16::MIN <= self <= i16::MAX) ==> result == Err::<i16, MathError>(
                MathError::ConversionFailed(Some(self as i128)),
            ),
    {
        if i16::MIN as i128 <= self as i128 && self as i128 <= i16::MAX as i128 {
            Ok(self as i16)
        } else {
            Err(MathError::ConversionFailed(Some(self as i128)))
        }
    }
}

impl ToI32 for u32 {
    fn i32(self) -> (result: Result<i32, MathError>)
        ensures
            i32::MIN <= self <= i32::MAX ==> result == Ok::<i32, MathError>(self as i32),
            !(i32::MIN <= self <= i32::MAX) ==> result == Err::<i32, MathError>(
                MathError::ConversionFailed(Some(self as i128)),
            ),
    {
        if i32::MIN as i128 <= self as i128 && self as i128 <= i32::MAX as i128 {
            Ok(self as i32)
        } else {
            Err(MathError::ConversionFailed(Some(self as i128)))
        }
    }
}

impl ToI64 for u32 {
    fn i64(self) -> (result: Result<i64, MathError>)
        ensures
            i64::MIN <= self <= i64::MAX ==> result == Ok::<i64, MathError>(self as i64),
            !(i64::MIN <= self <= i64::MAX) ==> result == Err::<i64, MathError>(
                MathError::ConversionFailed(Some(self as i128)),
            ),
    {
        if i64::MIN as i128 <= self as i128 && self as i128 <= i64::MAX as i128 {
            Ok(self as i64)
        } else {
            Err(MathError::ConversionFailed(Some(self as i128)))
        }
    }
}

impl SafeAdd for u64 {
    fn safe_add(self, rhs: u64) -> (result: Result<u64, MathError>)
        ensures
            u64::MIN <= self + rhs <= u64::MAX ==> result == Ok::<u64, MathError>(
                (self + rhs) as u64,
            ),
            !(u64::MIN <= self + rhs <= u64::MAX) ==> result == Err::<u64, MathError>(
                MathError::AddFailed(Some(self as i128), Some(rhs as i128)),
            ),
    {
        match self.checked_add(rhs) {
            Some(value) => Ok(value),
            None => Err(MathError::AddFailed(Some(self as i128), Some(rhs as i128))),
        }
    }
}

impl SafeSub for u64 {
    fn safe_sub(self, rhs: u64) -> (result: Result<u64, MathError>)
        ensures
            u64::MIN <= self - rhs <= u64::MAX ==> result == Ok::<u64, MathError>(
                (self - rhs) as u64,
            ),
            !(u64::MIN <= self - rhs <= u64::MAX) ==> result == Err::<u64, MathError>(
                MathError::SubFailed(Some(self as i128), Some(rhs as i128)),
            ),
    {
        match self.checked_sub(rhs) {
            Some(value) => Ok(value),
            None => Err(MathError::SubFailed(Some(self as i128), Some(rhs as i128))),
        }
    }
}

impl SafeMul for u64 {
    fn safe_mul(self, rhs: u64) -> (result: Result<u64, MathError>)
        ensures
            u64::MIN <= self * rhs <= u64::MAX ==> result == Ok::<u64, MathError>(
                (self * rhs) as u64,
            ),
            !(u64::MIN <= self * rhs <= u64::MAX) ==> result == Err::<u64, MathError>(
                MathError::MulFailed(Some(self as i128), Some(rhs as i128)),
            ),
    {
        match self.checked_mul(rhs) {
            Some(value) => Ok(value),
            None => Err(MathError::MulFailed(Some(self as i128), Some(rhs as i128))),
        }
    }
}

impl SafeDiv for u64 {
    fn safe_div(self, rhs: u64) -> (result: Result<u64, MathError>)
        ensures
            rhs != 0 ==> result is Ok && result->Ok_0 == quotient(self as int, rhs as int),
            !(rhs != 0) ==> result == Err::<u64, MathError>(
                MathError::DivFailed(Some(self as i128), Some(rhs as i128)),
            ),
    {
        if rhs != 0 {
            Ok(self / rhs)
        } else {
            Err(MathError::DivFailed(Some(self as i128), Some(rhs as i128)))
        }
    }
}

impl ToU16 for u64 {
    fn u16(self) -> (result: Result<u16, MathError>)
        ensures
            u16::MIN <= self <= u16::MAX ==> result == Ok::<u16, MathError>(self as u16),
            !(u16::MIN <= self <= u16::MAX) ==> result == Err::<u16, MathError>(
                MathError::ConversionFailed(Some(self as i128)),
            ),
    {
        if u16::MIN as i128 <= self as i128 && self as i128 <= u16::MAX as i128 {
            Ok(self as u16)
        } else {
            Err(MathError::ConversionFailed(Some(self as i128)))
        }
    }
}

impl ToU32 for u64 {
    fn u32(self) -> (result: Result<u32, MathError>)
        ensures
            u32::MIN <= self <= u32::MAX ==> result == Ok::<u32, MathError>(self as u32),
            !(u32::MIN <= self <= u32::MAX) ==> result == Err::<u32, MathError>(
                MathError::ConversionFailed(Some(self as i128)),
            ),
    {
        if u32::MIN as i128 <= self as i128 && self as i128 <= u32::MAX as i128 {
            Ok(self as u32)
        } else {
            Err(MathError::ConversionFailed(Some(self as i128)))
        }
    }
}

impl ToU64 for u64 {
    fn u64(self) -> (result: Result<u64, MathError>)
        ensures
            u64::MIN <= self <= u64::MAX ==> result == Ok::<u64, MathError>(self as u64),
            !(u64::MIN <= self <= u64::MAX) ==> result == Err::<u64, MathError>(
                MathError::ConversionFailed(Some(self as i128)),
            ),
    {
        if u64::MIN as i128 <= self as i128 && self as i128 <= u64::MAX as i128 {
            Ok(self as u64)
        } else {
            Err(MathError::ConversionFailed(Some(self as i128)))
        }
    }
}

impl ToUsize for u64 {
    fn usize(self) -> (result: Result<usize, MathError>)
        ensures
            usize::MIN <= self <= usize::MAX ==> result == Ok::<usize, MathError>(self as usize),
            !(usize::MIN <= self <= usize::MAX) ==> result == Err::<usize, MathError>(
                MathError::ConversionFailed(Some(self as i128)),
            ),
    {
        if usize::MIN as i128 <= self as i128 && self as i128 <= usize::MAX as i128 {
            Ok(self as usize)
        } else {
            Err(MathError::ConversionFailed(Some(self as i128)))
        }
    }
}

impl ToI16 for u64 {
    fn i16(self) -> (result: Result<i16, MathError>)
        ensures
            i16::MIN <= self <= i16::MAX ==> result == Ok::<i16, MathError>(self as i16),
            !(i16::MIN <= self <= i16::MAX) ==> result == Err::<i16, MathError>(
                MathError::ConversionFailed(Some(self as i128)),
            ),
    {
        if i16::MIN as i128 <= self as i128 && self as i128 <= i16::MAX as i128 {
            Ok(self as i16)
        } else {
            Err(MathError::ConversionFailed(Some(self as i128)))
        }
    }
}

impl ToI32 for u64 {
    fn i32(self) -> (result: Result<i32, MathError>)
        ensures
            i32::MIN <= self <= i32::MAX ==> result == Ok::<i32, MathError>(self as i32),
            !(i32::MIN <= self <= i32::MAX) ==> result == Err::<i32, MathError>(
                MathError::ConversionFailed(Some(self as i128)),
            ),
    {
        if i32::MIN as i128 <= self as i128 && self as i128 <= i32::MAX as i128 {
            Ok(self as i32)
        } else {
            Err(MathError::ConversionFailed(Some(self as i128)))
        }
    }
}

impl ToI64 for u64 {
    fn i64(self) -> (result: Result<i64, MathError>)
        ensures
            i64::MIN <= self <= i64::MAX ==> result == Ok::<i64, MathError>(self as i64),
            !(i64::MIN <= self <= i64::MAX) ==> result == Err::<i64, MathError>(
                MathError::ConversionFailed(Some(self as i128)),
            ),
    {
        if i64::MIN as i128 <= self as i128 && self as i128 <= i64::MAX as i128 {
            Ok(self as i64)
        } else {
            Err(MathError::ConversionFailed(Some(self as i128)))
        }
    }
}

impl SafeAdd for usize {
    fn safe_add(self, rhs: usize) -> (result: Result<usize, MathError>)
        ensures
            usize::MIN <= self + rhs <= usize::MAX ==> result == Ok::<usize, MathError>(
                (self + rhs) as usize,
            ),
            !(usize::MIN <= self + rhs <= usize::MAX) ==> result == Err::<usize, MathError>(
                MathError::AddFailed(Some(self as i128), Some(rhs as i128)),
            ),
    {
        match self.checked_add(rhs) {
            Some(value) => Ok(value),
            None => Err(MathError::AddFailed(Some(self as i128), Some(rhs as i128))),
        }
    }
}

impl SafeSub for usize {
    fn safe_sub(self, rhs: usize) -> (result: Result<usize, MathError>)
        ensures
            usize::MIN <= self - rhs <= usize::MAX ==> result == Ok::<usize, MathError>(
                (self - rhs) as usize,
            ),
            !(usize::MIN <= self - rhs <= usize::MAX) ==> result == Err::<usize, MathError>(
                MathError::SubFailed(Some(self as i128), Some(rhs as i128)),
            ),
    {
        match self.checked_sub(rhs) {
            Some(value) => Ok(value),
            None => Err(MathError::SubFailed(Some(self as i128), Some(rhs as i128))),
        }
    }
}

impl SafeMul for usize {
    fn safe_mul(self, rhs: usize) -> (result: Result<usize, MathError>)
        ensures
            usize::MIN <= self * rhs <= usize::MAX ==> result == Ok::<usize, MathError>(
                (self * rhs) as usize,
            ),
            !(usize::MIN <= self * rhs <= usize::MAX) ==> result == Err::<usize, MathError>(
                MathError::MulFailed(Some(self as i128), Some(rhs as i128)),
            ),
    {
        match self.checked_mul(rhs) {
            Some(value) => Ok(value),
            None => Err(MathError::MulFailed(Some(self as i128), Some(rhs as i128))),
        }
    }
}

impl SafeDiv for usize {
    fn safe_div(self, rhs: usize) -> (result: Result<usize, MathError>)
        ensures
            rhs != 0 ==> result is Ok && result->Ok_0 == quotient(self as int, rhs as int),
            !(rhs != 0) ==> result == Err::<usize, MathError>(
                MathError::DivFailed(Some(self as i128), Some(rhs as i128)),
            ),
    {
        if rhs != 0 {
            Ok(self / rhs)
        } else {
            Err(MathError::DivFailed(Some(self as i128), Some(rhs as i128)))
        }
    }
}

impl ToU16 for usize {
    fn u16(self) -> (result: Result<u16, MathError>)
        ensures
            u16::MIN <= self <= u16::MAX ==> result == Ok::<u16, MathError>(self as u16),
            !(u16::MIN <= self <= u16::MAX) ==> result == Err::<u16, MathError>(
                MathError::ConversionFailed(Some(self as i128)),
            ),
    {
        if u16::MIN as i128 <= self as i128 && self as i128 <= u16::MAX as i128 {
            Ok(self as u16)
        } else {
            Err(MathError::ConversionFailed(Some(self as i128)))
        }
    }
}

impl ToU32 for usize {
    fn u32(self) -> (result: Result<u32, MathError>)
        ensures
            u32::MIN <= self <= u32::MAX ==> result == Ok::<u32, MathError>(self as u32),
            !(u32::MIN <= self <= u32::MAX) ==> result == Err::<u32, MathError>(
                MathError::ConversionFailed(Some(self as i128)),
            ),
    {
        if u32::MIN as i128 <= self as i128 && self as i128 <= u32::MAX as i128 {
            Ok(self as u32)
        } else {
            Err(MathError::ConversionFailed(Some(self as i128)))
        }
    }
}

impl ToU64 for usize {
    fn u64(self) -> (result: Result<u64, MathError>)
        ensures
            u64::MIN <= self <= u64::MAX ==> result == Ok::<u64, MathError>(self as u64),
            !(u64::MIN <= self <= u64::MAX) ==> result == Err::<u64, MathError>(
                MathError::ConversionFailed(Some(self as i128)),
            ),
    {
        if u64::MIN as i128 <= self as i128 && self as i128 <= u64::MAX as i128 {
            Ok(self as u64)
        } else {
            Err(MathError::ConversionFailed(Some(self as i128)))
        }
    }
}

impl ToUsize for usize {
    fn usize(self) -> (result: Result<usize, MathError>)
        ensures
            usize::MIN <= self <= usize::MAX ==> result == Ok::<usize, MathError>(self as usize),
            !(usize::MIN <= self <= usize::MAX) ==> result == Err::<usize, MathError>(
                MathError::ConversionFailed(Some(self as i128)),
            ),
    {
        if usize::MIN as i128 <= self as i128 && self as i128 <= usize::MAX as i128 {
            Ok(self as usize)
        } else {
            Err(MathError::ConversionFailed(Some(self as i128)))
        }
    }
}

impl ToI16 for usize {
    fn i16(self) -> (result: Result<i16, MathError>)
        ensures
            i16::MIN <= self <= i16::MAX ==> result == Ok::<i16, MathError>(self as i16),
            !(i16::MIN <= self <= i16::MAX) ==> result == Err::<i16, MathError>(
                MathError::ConversionFailed(Some(self as i128)),
            ),
    {
        if i16::MIN as i128 <= self as i128 && self as i128 <= i16::MAX as i128 {
            Ok(self as i16)
        } else {
            Err(MathError::ConversionFailed(Some(self as i128)))
        }
    }
}

impl ToI32 for usize {
    fn i32(self) -> (result: Result<i32, MathError>)
        ensures
            i32::MIN <= self <= i32::MAX ==> result == Ok::<i32, MathError>(self as i32),
            !(i32::MIN <= self <= i32::MAX) ==> result == Err::<i32, MathError>(
                MathError::ConversionFailed(Some(self as i128)),
            ),
    {
        if i32::MIN as i128 <= self as i128 && self as i128 <= i32::MAX as i128 {
            Ok(self as i32)
        } else {
            Err(MathError::ConversionFailed(Some(self as i128)))
        }
    }
}

impl ToI64 for usize {
    fn i64(self) -> (result: Result<i64, MathError>)
        ensures
            i64::MIN <= self <= i64::MAX ==> result == Ok::<i64, MathError>(self as i64),
            !(i64::MIN <= self <= i64::MAX) ==> result == Err::<i64, MathError>(
                MathError::ConversionFailed(Some(self as i128)),
            ),
    {
        if i64::MIN as i128 <= self as i128 && self as i128 <= i64::MAX as i128 {
            Ok(self as i64)
        } else {
            Err(MathError::ConversionFailed(Some(self as i128)))
        }
    }
}

impl SafeAdd for i16 {
    fn safe_add(self, rhs: i16) -> (result: Result<i16, MathError>)
        ensures
            i16::MIN <= self + rhs <= i16::MAX ==> result == Ok::<i16, MathError>(
                (self + rhs) as i16,
            ),
            !(i16::MIN <= self + rhs <= i16::MAX) ==> result == Err::<i16, MathError>(
                MathError::AddFailed(Some(self as i128), Some(rhs as i128)),
            ),
    {
        match self.checked_add(rhs) {
            Some(value) => Ok(value),
            None => Err(MathError::AddFailed(Some(self as i128), Some(rhs as i128))),
        }
    }
}

impl SafeSub for i16 {
    fn safe_sub(self, rhs: i16) -> (result: Result<i16, MathError>)
        ensures
            i16::MIN <= self - rhs <= i16::MAX ==> result == Ok::<i16, MathError>(
                (self - rhs) as i16,
            ),
            !(i16::MIN <= self - rhs <= i16::MAX) ==> result == Err::<i16, MathError>(
                MathError::SubFailed(Some(self as i128), Some(rhs as i128)),
            ),
    {
        match self.checked_sub(rhs) {
            Some(value) => Ok(value),
            None => Err(MathError::SubFailed(Some(self as i128), Some(rhs as i128))),
        }
    }
}

impl SafeMul for i16 {
    fn safe_mul(self, rhs: i16) -> (result: Result<i16, MathError>)
        ensures
            i16::MIN <= self * rhs <= i16::MAX ==> result == Ok::<i16, MathError>(
                (self * rhs) as i16,
            ),
            !(i16::MIN <= self * rhs <= i16::MAX) ==> result == Err::<i16, MathError>(
                MathError::MulFailed(Some(self as i128), Some(rhs as i128)),
            ),
    {
        match self.checked_mul(rhs) {
            Some(value) => Ok(value),
            None => Err(MathError::MulFailed(Some(self as i128), Some(rhs as i128))),
        }
    }
}

impl SafeDiv for i16 {
    fn safe_div(self, rhs: i16) -> (result: Result<i16, MathError>)
        ensures
            rhs != 0 && !(self == i16::MIN && rhs == -1) ==> result is Ok && result->Ok_0 == quotient(self as int, rhs as int),
            !(rhs != 0 && !(self == i16::MIN && rhs == -1)) ==> result == Err::<i16, MathError>(
                MathError::DivFailed(Some(self as i128), Some(rhs as i128)),
            ),
    {
        if rhs != 0 && !(self == i16::MIN && rhs == -1) {
            let a = self as i128;
            let b = rhs as i128;
            let q: i128 = if a >= 0 && b > 0 {
                a / b
            } else if a < 0 && b > 0 {
                -((-a) / b)
            } else if a >= 0 && b < 0 {
                -(a / (-b))
            } else {
                (-a) / (-b)
            };
            assert(i16::MIN <= q <= i16::MAX) by (nonlinear_arith)
                requires
                    q == quotient(a as int, b as int),
                    i16::MIN <= a <= i16::MAX,
                    i16::MIN <= b <= i16::MAX,
                    b != 0,
                    !(a == i16::MIN && b == -1),
            ;
            Ok(q as i16)
        } else {
            Err(MathError::DivFailed(Some(self as i128), Some(rhs as i128)))
        }
    }
}

impl SafeNeg for i16 {
    fn safe_neg(self) -> (result: Result<i16, MathError>)
        ensures
            self != i16::MIN ==> result == Ok::<i16, MathError>((-self) as i16),
            self == i16::MIN ==> result == Err::<i16, MathError>(
                MathError::NegationOverflow(Some(self as i128)),
            ),
    {
        if self != i16::MIN {
            Ok(-self)
        } else {
            Err(MathError::NegationOverflow(Some(self as i128)))
        }
    }
}

impl ToU16 for i16 {
    fn u16(self) -> (result: Result<u16, MathError>)
        ensures
            u16::MIN <= self <= u16::MAX ==> result == Ok::<u16, MathError>(self as u16),
            !(u16::MIN <= self <= u16::MAX) ==> result == Err::<u16, MathError>(
                MathError::ConversionFailed(Some(self as i128)),
            ),
    {
        if u16::MIN as i128 <= self as i128 && self as i128 <= u16::MAX as i128 {
            Ok(self as u16)
        } else {
            Err(MathError::ConversionFailed(Some(self as i128)))
        }
    }
}

impl ToU32 for i16 {
    fn u32(self) -> (result: Result<u32, MathError>)
        ensures
            u32::MIN <= self <= u32::MAX ==> result == Ok::<u32, MathError>(self as u32),
            !(u32::MIN <= self <= u32::MAX) ==> result == Err::<u32, MathError>(
                MathError::ConversionFailed(Some(self as i128)),
            ),
    {
        if u32::MIN as i128 <= self as i128 && self as i128 <= u32::MAX as i128 {
            Ok(self as u32)
        } else {
            Err(MathError::ConversionFailed(Some(self as i128)))
        }
    }
}

impl ToU64 for i16 {
    fn u64(self) -> (result: Result<u64, MathError>)
        ensures
            u64::MIN <= self <= u64::MAX ==> result == Ok::<u64, MathError>(self as u64),
            !(u64::MIN <= self <= u64::MAX) ==> result == Err::<u64, MathError>(
                MathError::ConversionFailed(Some(self as i128)),
            ),
    {
        if u64::MIN as i128 <= self as i128 && self as i128 <= u64::MAX as i128 {
            Ok(self as u64)
        } else {
            Err(MathError::ConversionFailed(Some(self as i128)))
        }
    }
}

impl ToUsize for i16 {
    fn usize(self) -> (result: Result<usize, MathError>)
        ensures
            usize::MIN <= self <= usize::MAX ==> result == Ok::<usize, MathError>(self as usize),
            !(usize::MIN <= self <= usize::MAX) ==> result == Err::<usize, MathError>(
                MathError::ConversionFailed(Some(self as i128)),
            ),
    {
        if usize::MIN as i128 <= self as i128 && self as i128 <= usize::MAX as i128 {
            Ok(self as usize)
        } else {
            Err(MathError::ConversionFailed(Some(self as i128)))
        }
    }
}

impl ToI16 for i16 {
    fn i16(self) -> (result: Result<i16, MathError>)
        ensures
            i16::MIN <= self <= i16::MAX ==> result == Ok::<i16, MathError>(self as i16),
            !(i16::MIN <= self <= i16::MAX) ==> result == Err::<i16, MathError>(
                MathError::ConversionFailed(Some(self as i128)),
            ),
    {
        if i16::MIN as i128 <= self as i128 && self as i128 <= i16::MAX as i128 {
            Ok(self as i16)
        } else {
            Err(MathError::ConversionFailed(Some(self as i128)))
        }
    }
}

impl ToI32 for i16 {
    fn i32(self) -> (result: Result<i32, MathError>)
        ensures
            i32::MIN <= self <= i32::MAX ==> result == Ok::<i32, MathError>(self as i32),
            !(i32::MIN <= self <= i32::MAX) ==> result == Err::<i32, MathError>(
                MathError::ConversionFailed(Some(self as i128)),
            ),
    {
        if i32::MIN as i128 <= self as i128 && self as i128 <= i32::MAX as i128 {
            Ok(self as i32)
        } else {
            Err(MathError::ConversionFailed(Some(self as i128)))
        }
    }
}

impl ToI64 for i16 {
    fn i64(self) -> (result: Result<i64, MathError>)
        ensures
            i64::MIN <= self <= i64::MAX ==> result == Ok::<i64, MathError>(self as i64),
            !(i64::MIN <= self <= i64::MAX) ==> result == Err::<i64, MathError>(
                MathError::ConversionFailed(Some(self as i128)),
            ),
    {
        if i64::MIN as i128 <= self as i128 && self as i128 <= i64::MAX as i128 {
            Ok(self as i64)
        } else {
            Err(MathError::ConversionFailed(Some(self as i128)))
        }
    }
}

impl SafeAdd for i32 {
    fn safe_add(self, rhs: i32) -> (result: Result<i32, MathError>)
        ensures
            i32::MIN <= self + rhs <= i32::MAX ==> result == Ok::<i32, MathError>(
                (self + rhs) as i32,
            ),
            !(i32::MIN <= self + rhs <= i32::MAX) ==> result == Err::<i32, MathError>(
                MathError::AddFailed(Some(self as i128), Some(rhs as i128)),
            ),
    {
        match self.checked_add(rhs) {
            Some(value) => Ok(value),
            None => Err(MathError::AddFailed(Some(self as i128), Some(rhs as i128))),
        }
    }
}

impl SafeSub for i32 {
    fn safe_sub(self, rhs: i32) -> (result: Result<i32, MathError>)
        ensures
            i32::MIN <= self - rhs <= i32::MAX ==> result == Ok::<i32, MathError>(
                (self - rhs) as i32,
            ),
            !(i32::MIN <= self - rhs <= i32::MAX) ==> result == Err::<i32, MathError>(
                MathError::SubFailed(Some(self as i128), Some(rhs as i128)),
            ),
    {
        match self.checked_sub(rhs) {
            Some(value) => Ok(value),
            None => Err(MathError::SubFailed(Some(self as i128), Some(rhs as i128))),
        }
    }
}

impl SafeMul for i32 {
    fn safe_mul(self, rhs: i32) -> (result: Result<i32, MathError>)
        ensures
            i32::MIN <= self * rhs <= i32::MAX ==> result == Ok::<i32, MathError>(
                (self * rhs) as i32,
            ),
            !(i32::MIN <= self * rhs <= i32::MAX) ==> result == Err::<i32, MathError>(
                MathError::MulFailed(Some(self as i128), Some(rhs as i128)),
            ),
    {
        match self.checked_mul(rhs) {
            Some(value) => Ok(value),
            None => Err(MathError::MulFailed(Some(self as i128), Some(rhs as i128))),
        }
    }
}

impl SafeDiv for i32 {
    fn safe_div(self, rhs: i32) -> (result: Result<i32, MathError>)
        ensures
            rhs != 0 && !(self == i32::MIN && rhs == -1) ==> result is Ok && result->Ok_0 == quotient(self as int, rhs as int),
            !(rhs != 0 && !(self == i32::MIN && rhs == -1)) ==> result == Err::<i32, MathError>(
                MathError::DivFailed(Some(self as i128), Some(rhs as i128)),
            ),
    {
        if rhs != 0 && !(self == i32::MIN && rhs == -1) {
            let a = self as i128;
            let b = rhs as i128;
            let q: i128 = if a >= 0 && b > 0 {
                a / b
            } else if a < 0 && b > 0 {
                -((-a) / b)
            } else if a >= 0 && b < 0 {
                -(a / (-b))
            } else {
                (-a) / (-b)
            };
            assert(i32::MIN <= q <= i32::MAX) by (nonlinear_arith)
                requires
                    q == quotient(a as int, b as int),
                    i32::MIN <= a <= i32::MAX,
                    i32::MIN <= b <= i32::MAX,
                    b != 0,
                    !(a == i32::MIN && b == -1),
            ;
            Ok(q as i32)
        } else {
            Err(MathError::DivFailed(Some(self as i128), Some(rhs as i128)))
        }
    }
}

impl SafeNeg for i32 {
    fn safe_neg(self) -> (result: Result<i32, MathError>)
        ensures
            self != i32::MIN ==> result == Ok::<i32, MathError>((-self) as i32),
            self == i32::MIN ==> result == Err::<i32, MathError>(
                MathError::NegationOverflow(Some(self as i128)),
            ),
    {
        if self != i32::MIN {
            Ok(-self)
        } else {
            Err(MathError::NegationOverflow(Some(self as i128)))
        }
    }
}

impl ToU16 for i32 {
    fn u16(self) -> (result: Result<u16, MathError>)
        ensures
            u16::MIN <= self <= u16::MAX ==> result == Ok::<u16, MathError>(self as u16),
            !(u16::MIN <= self <= u16::MAX) ==> result == Err::<u16, MathError>(
                MathError::ConversionFailed(Some(self as i128)),
            ),
    {
        if u16::MIN as i128 <= self as i128 && self as i128 <= u16::MAX as i128 {
            Ok(self as u16)
        } else {
            Err(MathError::ConversionFailed(Some(self as i128)))
        }
    }
}

impl ToU32 for i32 {
    fn u32(self) -> (result: Result<u32, MathError>)
        ensures
            u32::MIN <= self <= u32::MAX ==> result == Ok::<u32, MathError>(self as u32),
            !(u32::MIN <= self <= u32::MAX) ==> result == Err::<u32, MathError>(
                MathError::ConversionFailed(Some(self as i128)),
            ),
    {
        if u32::MIN as i128 <= self as i128 && self as i128 <= u32::MAX as i128 {
            Ok(self as u32)
        } else {
            Err(MathError::ConversionFailed(Some(self as i128)))
        }
    }
}

impl ToU64 for i32 {
    fn u64(self) -> (result: Result<u64, MathError>)
        ensures
            u64::MIN <= self <= u64::MAX ==> result == Ok::<u64, MathError>(self as u64),
            !(u64::MIN <= self <= u64::MAX) ==> result == Err::<u64, MathError>(
                MathError::ConversionFailed(Some(self as i128)),
            ),
    {
        if u64::MIN as i128 <= self as i128 && self as i128 <= u64::MAX as i128 {
            Ok(self as u64)
        } else {
            Err(MathError::ConversionFailed(Some(self as i128)))
        }
    }
}

impl ToUsize for i32 {
    fn usize(self) -> (result: Result<usize, MathError>)
        ensures
            usize::MIN <= self <= usize::MAX ==> result == Ok::<usize, MathError>(self as usize),
            !(usize::MIN <= self <= usize::MAX) ==> result == Err::<usize, MathError>(
                MathError::ConversionFailed(Some(self as i128)),
            ),
    {
        if usize::MIN as i128 <= self as i128 && self as i128 <= usize::MAX as i128 {
            Ok(self as usize)
        } else {
            Err(MathError::ConversionFailed(Some(self as i128)))
        }
    }
}

impl ToI16 for i32 {
    fn i16(self) -> (result: Result<i16, MathError>)
        ensures
            i16::MIN <= self <= i16::MAX ==> result == Ok::<i16, MathError>(self as i16),
            !(i16::MIN <= self <= i16::MAX) ==> result == Err::<i16, MathError>(
                MathError::ConversionFailed(Some(self as i128)),
            ),
    {
        if i16::MIN as i128 <= self as i128 && self as i128 <= i16::MAX as i128 {
            Ok(self as i16)
        } else {
            Err(MathError::ConversionFailed(Some(self as i128)))
        }
    }
}

impl ToI32 for i32 {
    fn i32(self) -> (result: Result<i32, MathError>)
        ensures
            i32::MIN <= self <= i32::MAX ==> result == Ok::<i32, MathError>(self as i32),
            !(i32::MIN <= self <= i32::MAX) ==> result == Err::<i32, MathError>(
                MathError::ConversionFailed(Some(self as i128)),
            ),
    {
        if i32::MIN as i128 <= self as i128 && self as i128 <= i32::MAX as i128 {
            Ok(self as i32)
        } else {
            Err(MathError::ConversionFailed(Some(self as i128)))
        }
    }
}

impl ToI64 for i32 {
    fn i64(self) -> (result: Result<i64, MathError>)
        ensures
            i64::MIN <= self <= i64::MAX ==> result == Ok::<i64, MathError>(self as i64),
            !(i64::MIN <= self <= i64::MAX) ==> result == Err::<i64, MathError>(
                MathError::ConversionFailed(Some(self as i128)),
            ),
    {
        if i64::MIN as i128 <= self as i128 && self as i128 <= i64::MAX as i128 {
            Ok(self as i64)
        } else {
            Err(MathError::ConversionFailed(Some(self as i128)))
        }
    }
}

impl SafeAdd for i64 {
    fn safe_add(self, rhs: i64) -> (result: Result<i64, MathError>)
        ensures
            i64::MIN <= self + rhs <= i64::MAX ==> result == Ok::<i64, MathError>(
                (self + rhs) as i64,
            ),
            !(i64::MIN <= self + rhs <= i64::MAX) ==> result == Err::<i64, MathError>(
                MathError::AddFailed(Some(self as i128), Some(rhs as i128)),
            ),
    {
        match self.checked_add(rhs) {
            Some(value) => Ok(value),
            None => Err(MathError::AddFailed(Some(self as i128), Some(rhs as i128))),
        }
    }
}

impl SafeSub for i64 {
    fn safe_sub(self, rhs: i64) -> (result: Result<i64, MathError>)
        ensures
            i64::MIN <= self - rhs <= i64::MAX ==> result == Ok::<i64, MathError>(
                (self - rhs) as i64,
            ),
            !(i64::MIN <= self - rhs <= i64::MAX) ==> result == Err::<i64, MathError>(
                MathError::SubFailed(Some(self as i128), Some(rhs as i128)),
            ),
    {
        match self.checked_sub(rhs) {
            Some(value) => Ok(value),
            None => Err(MathError::SubFailed(Some(self as i128), Some(rhs as i128))),
        }
    }
}

impl SafeMul for i64 {
    fn safe_mul(self, rhs: i64) -> (result: Result<i64, MathError>)
        ensures
            i64::MIN <= self * rhs <= i64::MAX ==> result == Ok::<i64, MathError>(
                (self * rhs) as i64,
            ),
            !(i64::MIN <= self * rhs <= i64::MAX) ==> result == Err::<i64, MathError>(
                MathError::MulFailed(Some(self as i128), Some(rhs as i128)),
            ),
    {
        match self.checked_mul(rhs) {
            Some(value) => Ok(value),
            None => Err(MathError::MulFailed(Some(self as i128), Some(rhs as i128))),
        }
    }
}

impl SafeDiv for i64 {
    fn safe_div(self, rhs: i64) -> (result: Result<i64, MathError>)
        ensures
            rhs != 0 && !(self == i64::MIN && rhs == -1) ==> result is Ok && result->Ok_0 == quotient(self as int, rhs as int),
            !(rhs != 0 && !(self == i64::MIN && rhs == -1)) ==> result == Err::<i64, MathError>(
                MathError::DivFailed(Some(self as i128), Some(rhs as i128)),
            ),
    {
        if rhs != 0 && !(self == i64::MIN && rhs == -1) {
            let a = self as i128;
            let b = rhs as i128;
            let q: i128 = if a >= 0 && b > 0 {
                a / b
            } else if a < 0 && b > 0 {
                -((-a) / b)
            } else if a >= 0 && b < 0 {
                -(a / (-b))
            } else {
                (-a) / (-b)
            };
            assert(i64::MIN <= q <= i64::MAX) by (nonlinear_arith)
                requires
                    q == quotient(a as int, b as int),
                    i64::MIN <= a <= i64::MAX,
                    i64::MIN <= b <= i64::MAX,
                    b != 0,
                    !(a == i64::MIN && b == -1),
            ;
            Ok(q as i64)
        } else {
            Err(MathError::DivFailed(Some(self as i128), Some(rhs as i128)))
        }
    }
}

impl SafeNeg for i64 {
    fn safe_neg(self) -> (result: Result<i64, MathError>)
        ensures
            self != i64::MIN ==> result == Ok::<i64, MathError>((-self) as i64),
            self == i64::MIN ==> result == Err::<i64, MathError>(
                MathError::NegationOverflow(Some(self as i128)),
            ),
    {
        if self != i64::MIN {
            Ok(-self)
        } else {
            Err(MathError::NegationOverflow(Some(self as i128)))
        }
    }
}

impl ToU16 for i64 {
    fn u16(self) -> (result: Result<u16, MathError>)
        ensures
            u16::MIN <= self <= u16::MAX ==> result == Ok::<u16, MathError>(self as u16),
            !(u16::MIN <= self <= u16::MAX) ==> result == Err::<u16, MathError>(
                MathError::ConversionFailed(Some(self as i128)),
            ),
    {
        if u16::MIN as i128 <= self as i128 && self as i128 <= u16::MAX as i128 {
            Ok(self as u16)
        } else {
            Err(MathError::ConversionFailed(Some(self as i128)))
        }
    }
}

impl ToU32 for i64 {
    fn u32(self) -> (result: Result<u32, MathError>)
        ensures
            u32::MIN <= self <= u32::MAX ==> result == Ok::<u32, MathError>(self as u32),
            !(u32::MIN <= self <= u32::MAX) ==> result == Err::<u32, MathError>(
                MathError::ConversionFailed(Some(self as i128)),
            ),
    {
        if u32::MIN as i128 <= self as i128 && self as i128 <= u32::MAX as i128 {
            Ok(self as u32)
        } else {
            Err(MathError::ConversionFailed(Some(self as i128)))
        }
    }
}

impl ToU64 for i64 {
    fn u64(self) -> (result: Result<u64, MathError>)
        ensures
            u64::MIN <= self <= u64::MAX ==> result == Ok::<u64, MathError>(self as u64),
            !(u64::MIN <= self <= u64::MAX) ==> result == Err::<u64, MathError>(
                MathError::ConversionFailed(Some(self as i128)),
            ),
    {
        if u64::MIN as i128 <= self as i128 && self as i128 <= u64::MAX as i128 {
            Ok(self as u64)
        } else {
            Err(MathError::ConversionFailed(Some(self as i128)))
        }
    }
}

impl ToUsize for i64 {
    fn usize(self) -> (result: Result<usize, MathError>)
        ensures
            usize::MIN <= self <= usize::MAX ==> result == Ok::<usize, MathError>(self as usize),
            !(usize::MIN <= self <= usize::MAX) ==> result == Err::<usize, MathError>(
                MathError::ConversionFailed(Some(self as i128)),
            ),
    {
        if usize::MIN as i128 <= self as i128 && self as i128 <= usize::MAX as i128 {
            Ok(self as usize)
        } else {
            Err(MathError::ConversionFailed(Some(self as i128)))
        }
    }
}

impl ToI16 for i64 {
    fn i16(self) -> (result: Result<i16, MathError>)
        ensures
            i16::MIN <= self <= i16::MAX ==> result == Ok::<i16, MathError>(self as i16),
            !(i16::MIN <= self <= i16::MAX) ==> result == Err::<i16, MathError>(
                MathError::ConversionFailed(Some(self as i128)),
            ),
    {
        if i16::MIN as i128 <= self as i128 && self as i128 <= i16::MAX as i128 {
            Ok(self as i16)
        } else {
            Err(MathError::ConversionFailed(Some(self as i128)))
        }
    }
}

impl ToI32 for i64 {
    fn i32(self) -> (result: Result<i32, MathError>)
        ensures
            i32::MIN <= self <= i32::MAX ==> result == Ok::<i32, MathError>(self as i32),
            !(i32::MIN <= self <= i32::MAX) ==> result == Err::<i32, MathError>(
                MathError::ConversionFailed(Some(self as i128)),
            ),
    {
        if i32::MIN as i128 <= self as i128 && self as i128 <= i32::MAX as i128 {
            Ok(self as i32)
        } else {
            Err(MathError::ConversionFailed(Some(self as i128)))
        }
    }
}

impl ToI64 for i64 {
    fn i64(self) -> (result: Result<i64, MathError>)
        ensures
            i64::MIN <= self <= i64::MAX ==> result == Ok::<i64, MathError>(self as i64),
            !(i64::MIN <= self <= i64::MAX) ==> result == Err::<i64, MathError>(
                MathError::ConversionFailed(Some(self as i128)),
            ),
    {
        if i64::MIN as i128 <= self as i128 && self as i128 <= i64::MAX as i128 {
            Ok(self as i64)
        } else {
            Err(MathError::ConversionFailed(Some(self as i128)))
        }
    }
}

} // verus!
