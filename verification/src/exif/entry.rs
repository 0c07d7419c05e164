//! Directory entries as the index holds them.
use vstd::prelude::*;
use crate::common::exif::Tag;
use crate::exif::bytes::{u16_at, u32_at};
use crate::exif::error::Error;
use crate::exif::field_type::Type;

verus! {

/// This can either be a value or an offset where to find the value
#[derive(Debug, Clone, Copy, PartialEq, Eq, Structural)]
pub enum ValueOffset {
    Value(u32),
    Offset(u32),
}

impl ValueOffset {
    /// What the four-byte slot of an entry holds: the value itself where the
    /// data fits in four bytes, an offset to it otherwise.
    pub open spec fn spec_new(data_type: Type, count: u32, value: u32) -> Result<
        ValueOffset,
        Error,
    > {
        if data_type.spec_size() * count > u32::MAX {
            Err(Error::DataSizeTooLarge)
        } else if data_type.spec_size() * count <= 4 {
            Ok(ValueOffset::Value(value))
        } else {
            Ok(ValueOffset::Offset(value))
        }
    }

    /// The four-byte slot as a number, whichever of the two it holds.
    pub open spec fn raw(self) -> u32 {
        match self {
            ValueOffset::Value(x) => x,
            ValueOffset::Offset(x) => x,
        }
    }

    /// Classifies the content of the four-byte slot of an entry.
    pub fn new(data_type: Type, count: u32, value: u32) -> (slot: Result<ValueOffset, Error>)
        ensures
            slot == ValueOffset::spec_new(data_type, count, value),
    {
        match data_type.size().checked_mul(count) {
            None => Err(Error::DataSizeTooLarge),
            Some(size) => if size <= 4 {
                Ok(ValueOffset::Value(value))
            } else {
                Ok(ValueOffset::Offset(value))
            },
        }
    }

    /// The four-byte slot as a number.
    pub fn u32(&self) -> (raw: u32)
        ensures
            raw == self.raw(),
    {
        match self {
            ValueOffset::Value(x) => *x,
            ValueOffset::Offset(x) => *x,
        }
    }
}

/// One decoded directory entry: where its header lies and what it says.
#[derive(Debug, Clone, Copy, PartialEq, Eq, Structural)]
pub struct EntryRef {
    pub position: u32,
    pub data_type: Type,
    pub count: u32,
    pub value_offset: ValueOffset,
}

impl EntryRef {
    /// The length of the data in bytes.
    pub open spec fn spec_data_len(self) -> int {
        self.count * self.data_type.spec_size()
    }

    /// The header lies in 32-bit range, the data length fits in 32 bits, and
    /// the slot holds a value exactly where the data fits in four bytes.
    pub open spec fn wf(self) -> bool {
        &&& self.position + 12 <= u32::MAX
        &&& ValueOffset::spec_new(self.data_type, self.count, self.value_offset.raw()) == Ok::<
            ValueOffset,
            Error,
        >(self.value_offset)
    }

    /// The entry as an insertion writes it: a single inline value of one or
    /// two bytes stands at the start of the four-byte slot, whatever the
    /// byte order. In a big-endian document the number of the slot is
    /// therefore the value moved up by the bytes that it leaves free; in a
    /// little-endian document it is the value itself. Every other entry is
    /// written with the number that it holds.
    pub open spec fn justified(self, big_endian: bool) -> EntryRef {
        match self.value_offset {
            ValueOffset::Value(value) => if big_endian && self.count == 1
                && self.data_type.spec_size() == 2 && value <= 0xFFFF {
                EntryRef { value_offset: ValueOffset::Value((value * 0x1_0000) as u32), ..self }
            } else if big_endian && self.count == 1 && self.data_type.spec_size() == 1 && value
                <= 0xFF {
                EntryRef { value_offset: ValueOffset::Value((value * 0x100_0000) as u32), ..self }
            } else {
                self
            },
            ValueOffset::Offset(_) => self,
        }
    }

    /// The entry as an insertion writes it.
    pub fn justify(&self, big_endian: bool) -> (entry: EntryRef)
        ensures
            entry == self.justified(big_endian),
    {
        if let ValueOffset::Value(value) = self.value_offset {
            if big_endian && self.count == 1 {
                let size = self.data_type.size();
                if size == 2 && value <= 0xFFFF {
                    return EntryRef {
                        position: self.position,
                        data_type: self.data_type,
                        count: self.count,
                        value_offset: ValueOffset::Value(value * 0x1_0000),
                    };
                }
                if size == 1 && value <= 0xFF {
                    return EntryRef {
                        position: self.position,
                        data_type: self.data_type,
                        count: self.count,
                        value_offset: ValueOffset::Value(value * 0x100_0000),
                    };
                }
            }
        }
        *self
    }

    /// The inline value of a single `Short` or `Long`.
    pub fn u32(&self) -> (value: Option<u32>)
        ensures
            value == (if (self.data_type == Type::Short || self.data_type == Type::Long)
                && self.count == 1 && self.value_offset is Value {
                Some(self.value_offset.raw())
            } else {
                None
            }),
    {
        if (self.data_type == Type::Short || self.data_type == Type::Long) && self.count == 1 {
            if let ValueOffset::Value(value) = self.value_offset {
                return Some(value);
            }
        }
        None
    }

    /// Where the four-byte slot of the entry lies.
    pub fn value_offset_position(&self) -> (position: u32)
        requires
            self.position + 8 <= u32::MAX,
        ensures
            position == self.position + 8,
    {
        self.position + 8
    }

    /// The length of the data in bytes.
    pub fn data_len(&self) -> (len: Result<u32, Error>)
        ensures
            self.spec_data_len() <= u32::MAX ==> len == Ok::<u32, Error>(
                self.spec_data_len() as u32,
            ),
            self.spec_data_len() > u32::MAX ==> len == Err::<u32, Error>(Error::OffsetTooLarge),
    {
        match self.count.checked_mul(self.data_type.size()) {
            Some(len) => Ok(len),
            None => Err(Error::OffsetTooLarge),
        }
    }

    /// The offset of out-of-line data.
    pub fn offset(&self) -> (offset: Result<u32, Error>)
        ensures
            offset == (match self.value_offset {
                ValueOffset::Offset(o) => Ok::<u32, Error>(o),
                ValueOffset::Value(_) => Err::<u32, Error>(Error::ValueInsteadOfOffset),
            }),
    {
        if let ValueOffset::Offset(offset) = self.value_offset {
            Ok(offset)
        } else {
            Err(Error::ValueInsteadOfOffset)
        }
    }
}

/// The entry whose twelve-byte header lies at `position`.
///
/// The header is a 16-bit tag, a 16-bit type code, a 32-bit count and the
/// four-byte slot.
pub open spec fn entry_at(bytes: Seq<u8>, big_endian: bool, position: int) -> Result<
    (Tag, EntryRef),
    Error,
>
    recommends
        0 <= position,
{
    if position + 12 > bytes.len() {
        Err(Error::EntryEof)
    } else if position + 12 > u32::MAX {
        Err(Error::OffsetTooLarge)
    } else {
        let data_type = Type::of_code(u16_at(bytes, position + 2, big_endian));
        let count = u32_at(bytes, position + 4, big_endian);
        match ValueOffset::spec_new(data_type, count, u32_at(bytes, position + 8, big_endian)) {
            Err(e) => Err(e),
            Ok(value_offset) => Ok(
                (
                    Tag(u16_at(bytes, position, big_endian)),
                    EntryRef { position: position as u32, data_type, count, value_offset },
                ),
            ),
        }
    }
}

} // verus!
