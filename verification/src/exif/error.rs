//! The errors of the Exif engine.
use vstd::prelude::*;
use crate::common::exif::{Ifd, TagIfd};
use crate::exif::field_type::Type;

verus! {

/// What can go wrong while decoding, reading or editing a document.
///
/// Every failure is returned as one of these; malformed input never panics.
#[derive(Debug, Clone, Copy, PartialEq, Eq)]
#[non_exhaustive]
pub enum Error {
    /// The document starts with neither `II` nor `MM`.
    UnknownByteOrder([u8; 2]),
    /// The constant after the byte-order marker is not 42.
    MagicBytesWrong(u16),
    /// A read or write reached beyond the end of the buffer.
    Io,
    /// No entry with this key exists.
    TagNotFound(TagIfd),
    IfdShouldTerminate(Ifd),
    /// A position does not fit in 32 bits.
    OffsetTooLarge,
    /// The data of an entry reaches beyond the end of the buffer.
    LookupEof,
    /// The buffer ends inside the byte-order marker.
    ByteOrderEof,
    /// The buffer ends inside the magic constant.
    MagicBytesEof,
    /// The buffer ends inside a directory entry.
    EntryEof,
    /// The buffer ends inside the number of entries of a directory.
    IfdNumEntriesEof,
    InvalidLookupOffset,
    /// The count of an entry times the size of its type does not fit in 32 bits.
    DataSizeTooLarge,
    /// The directory has no recorded location.
    IfdNotFound,
    /// The entry is not a string.
    WrongTypeGeneric,
    /// The entry has another type or count than was asked for.
    WrongType { expected: (u32, Type), actual: (u32, Type) },
    OffsetInvalid(i64),
    /// The entry stores an offset where a value was asked for.
    OffsetInsteadOfValue,
    /// The entry stores a value where an offset was asked for.
    ValueInsteadOfOffset,
    IncompatibleValue,
    AdditionOverflow,
    SubstractionOverflowError,
    ConversionOverflowError,
    /// An entry that was to be relocated is not in the index.
    EntryNotFound,
    /// Not enough relocatable data lies before the maker note to keep it in
    /// place during an insertion.
    MakerNoteNoSpace,
}

impl Error {
    /// The name of the kind of error.
    pub open spec fn spec_name(self) -> &'static str {
        match self {
            Error::UnknownByteOrder(_) => "UnknownByteOrder",
            Error::MagicBytesWrong(_) => "MagicBytesWrong",
            Error::Io => "Io",
            Error::TagNotFound(_) => "TagNotFound",
            Error::IfdShouldTerminate(_) => "IfdShouldTerminate",
            Error::OffsetTooLarge => "OffsetTooLarge",
            Error::LookupEof => "LookupEof",
            Error::ByteOrderEof => "ByteOrderEof",
            Error::MagicBytesEof => "MagicBytesEof",
            Error::EntryEof => "EntryEof",
            Error::IfdNumEntriesEof => "IfdNumEntriesEof",
            Error::InvalidLookupOffset => "InvalidLookupOffset",
            Error::DataSizeTooLarge => "DataSizeTooLarge",
            Error::IfdNotFound => "IfdNotFound",
            Error::WrongTypeGeneric => "WrongTypeGeneric",
            Error::WrongType { .. } => "WrongType",
            Error::OffsetInvalid(_) => "OffsetInvalid",
            Error::OffsetInsteadOfValue => "OffsetInsteadOfValue",
            Error::ValueInsteadOfOffset => "ValueInsteadOfOffset",
            Error::IncompatibleValue => "IncompatibleValue",
            Error::AdditionOverflow => "AdditionOverflow",
            Error::SubstractionOverflowError => "SubstractionOverflowError",
            Error::ConversionOverflowError => "ConversionOverflowError",
            Error::EntryNotFound => "EntryNotFound",
            Error::MakerNoteNoSpace => "MakerNoteNoSpace",
        }
    }

    /// The name of the kind of error, for messages.
    pub fn name(&self) -> (name: &'static str)
        ensures
            name == self.spec_name(),
    {
        match self {
            Error::UnknownByteOrder(_) => "UnknownByteOrder",
            Error::MagicBytesWrong(_) => "MagicBytesWrong",
            Error::Io => "Io",
            Error::TagNotFound(_) => "TagNotFound",
            Error::IfdShouldTerminate(_) => "IfdShouldTerminate",
            Error::OffsetTooLarge => "OffsetTooLarge",
            Error::LookupEof => "LookupEof",
            Error::ByteOrderEof => "ByteOrderEof",
            Error::MagicBytesEof => "MagicBytesEof",
            Error::EntryEof => "EntryEof",
            Error::IfdNumEntriesEof => "IfdNumEntriesEof",
            Error::InvalidLookupOffset => "InvalidLookupOffset",
            Error::DataSizeTooLarge => "DataSizeTooLarge",
            Error::IfdNotFound => "IfdNotFound",
            Error::WrongTypeGeneric => "WrongTypeGeneric",
            Error::WrongType { .. } => "WrongType",
            Error::OffsetInvalid(_) => "OffsetInvalid",
            Error::OffsetInsteadOfValue => "OffsetInsteadOfValue",
            Error::ValueInsteadOfOffset => "ValueInsteadOfOffset",
            Error::IncompatibleValue => "IncompatibleValue",
            Error::AdditionOverflow => "AdditionOverflow",
            Error::SubstractionOverflowError => "SubstractionOverflowError",
            Error::ConversionOverflowError => "ConversionOverflowError",
            Error::EntryNotFound => "EntryNotFound",
            Error::MakerNoteNoSpace => "MakerNoteNoSpace",
        }
    }
}

} // verus!
