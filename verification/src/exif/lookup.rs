//! Typed lookup: from a key to the value of its first entry.
use vstd::prelude::*;
use crate::common::exif::TagIfd;
use crate::exif::bytes::{u16_at, u32_at, u32_bytes};
use crate::exif::document::{first_record, Doc, ExifRaw, Located};
use crate::exif::entry::{EntryRef, ValueOffset};
use crate::exif::error::Error;
use crate::exif::field_type::Type;

verus! {

/// The data of an entry: for an inline value the four bytes of the entry's
/// slot as they stand in the buffer, else the bytes that the offset leads
/// to.
pub open spec fn data_of(doc: Doc, entry: EntryRef) -> Result<Seq<u8>, Error> {
    match entry.value_offset {
        ValueOffset::Value(_) => if entry.position + 12 > doc.bytes.len() {
            Err(Error::LookupEof)
        } else {
            Ok(doc.bytes.subrange(entry.position + 8, entry.position + 12))
        },
        ValueOffset::Offset(offset) => if entry.spec_data_len() > u32::MAX {
            Err(Error::OffsetTooLarge)
        } else if offset + entry.spec_data_len() > doc.bytes.len() {
            Err(Error::LookupEof)
        } else {
            Ok(doc.bytes.subrange(offset as int, offset + entry.spec_data_len()))
        },
    }
}

/// `data` without its NUL bytes.
pub open spec fn without_nul(data: Seq<u8>) -> Seq<u8>
    decreases data.len(),
{
    if data.len() == 0 {
        Seq::empty()
    } else if data.last() != 0 {
        without_nul(data.drop_last()).push(data.last())
    } else {
        without_nul(data.drop_last())
    }
}

/// The text that a permissive UTF-8 decoder makes of `bytes`, with a
/// replacement character for each invalid sequence.
pub uninterp spec fn utf8_lossy(bytes: Seq<u8>) -> Seq<char>;

/// `text` with the first `n` occurrences of `from` replaced by `to`.
pub open spec fn replaced(text: Seq<char>, from: char, to: char, n: nat) -> Seq<char>
    decreases text.len(),
{
    if text.len() == 0 || n == 0 {
        text
    } else if text[0] == from {
        seq![to] + replaced(text.drop_first(), from, to, (n - 1) as nat)
    } else {
        seq![text[0]] + replaced(text.drop_first(), from, to, n)
    }
}

/// A date and time with its first two `:` turned into `-` and its first
/// space into `T`.
pub open spec fn datetime_of(text: Seq<char>) -> Seq<char> {
    replaced(replaced(text, ':', '-', 2), ' ', 'T', 1)
}

/// Whether an entry has the count and type that a typed accessor asks for.
pub open spec fn type_checked(entry: EntryRef, count: u32, data_type: Type) -> Result<(), Error> {
    if entry.count == count && entry.data_type == data_type {
        Ok(())
    } else {
        Err(Error::WrongType { expected: (count, data_type), actual: (entry.count, entry.data_type) })
    }
}

/// The text of data that starts with eight bytes that name its character
/// code: what follows them, where they say `ASCII` or are all zero.
pub open spec fn coded_text(data: Seq<u8>) -> Option<Seq<u8>> {
    if data.len() < 8 {
        None
    } else if data.subrange(0, 8) == seq![0x41u8, 0x53, 0x43, 0x49, 0x49, 0, 0, 0]
        || data.subrange(0, 8) == seq![0u8, 0, 0, 0, 0, 0, 0, 0] {
        Some(data.subrange(8, data.len() as int))
    } else {
        None
    }
}

/// The 16-bit integer in the first two bytes of a four-byte slot that
/// holds `value`.
pub open spec fn short_of(value: u32, big_endian: bool) -> u16 {
    u16_at(u32_bytes(value, big_endian), 0, big_endian)
}

impl Doc {
    /// The type and data of the first entry with the given key.
    pub open spec fn data(self, tagifd: TagIfd) -> Result<Option<(Type, Seq<u8>)>, Error> {
        match self.entry(tagifd) {
            None => Ok(None),
            Some(entry) => match data_of(self, entry) {
                Err(e) => Err(e),
                Ok(data) => Ok(Some((entry.data_type, data))),
            },
        }
    }

    /// The data of the first entry with the given key, which must be a
    /// string.
    pub open spec fn string_raw(self, tagifd: TagIfd) -> Result<Option<Seq<u8>>, Error> {
        match self.data(tagifd) {
            Err(e) => Err(e),
            Ok(None) => Ok(None),
            Ok(Some((data_type, data))) => if data_type != Type::Ascii && data_type != Type::Utf8 {
                Err(Error::WrongTypeGeneric)
            } else {
                Ok(Some(data))
            },
        }
    }

    /// The text of the first entry with the given key.
    pub open spec fn string(self, tagifd: TagIfd) -> Result<Option<Seq<char>>, Error> {
        match self.string_raw(tagifd) {
            Err(e) => Err(e),
            Ok(None) => Ok(None),
            Ok(Some(data)) => Ok(Some(utf8_lossy(without_nul(data)))),
        }
    }

    /// The text of the first entry with the given key, whose data starts
    /// with the name of its character code.
    pub open spec fn character_identified_string(self, tagifd: TagIfd) -> Result<
        Option<Seq<char>>,
        Error,
    > {
        match self.data(tagifd) {
            Err(e) => Err(e),
            Ok(None) => Ok(None),
            Ok(Some((_, data))) => match coded_text(data) {
                Some(text) => Ok(Some(utf8_lossy(without_nul(text)))),
                None => Ok(None),
            },
        }
    }

    /// The single `Short` of the first entry with the given key.
    pub open spec fn short(self, tagifd: TagIfd) -> Result<Option<u16>, Error> {
        match self.entry(tagifd) {
            None => Ok(None),
            Some(entry) => match type_checked(entry, 1, Type::Short) {
                Err(e) => Err(e),
                Ok(_) => match entry.value_offset {
                    ValueOffset::Value(x) => Ok(Some(short_of(x, self.big_endian))),
                    ValueOffset::Offset(_) => Err(Error::OffsetInsteadOfValue),
                },
            },
        }
    }

    /// The single `Long` of the first entry with the given key.
    pub open spec fn long(self, tagifd: TagIfd) -> Result<Option<u32>, Error> {
        match self.entry(tagifd) {
            None => Ok(None),
            Some(entry) => match type_checked(entry, 1, Type::Long) {
                Err(e) => Err(e),
                Ok(_) => match entry.value_offset {
                    ValueOffset::Value(x) => Ok(Some(x)),
                    ValueOffset::Offset(_) => Err(Error::OffsetInsteadOfValue),
                },
            },
        }
    }

    /// The `n` numerator and denominator pairs of the first entry with the
    /// given key.
    pub open spec fn rationals(self, tagifd: TagIfd, n: int) -> Result<
        Option<Seq<(u32, u32)>>,
        Error,
    > {
        match self.entry(tagifd) {
            None => Ok(None),
            Some(entry) => if n > u32::MAX {
                Err(Error::ConversionOverflowError)
            } else {
                match type_checked(entry, n as u32, Type::Rational) {
                    Err(e) => Err(e),
                    Ok(_) => match entry.value_offset {
                        ValueOffset::Value(_) => Err(Error::ValueInsteadOfOffset),
                        ValueOffset::Offset(offset) => if offset + 8 * n > self.bytes.len() {
                            Err(Error::Io)
                        } else {
                            Ok(
                                Some(
                                    Seq::new(
                                        n as nat,
                                        |i: int|
                                            (
                                                u32_at(self.bytes, offset + 8 * i, self.big_endian),
                                                u32_at(
                                                    self.bytes,
                                                    offset + 8 * i + 4,
                                                    self.big_endian,
                                                ),
                                            ),
                                    ),
                                ),
                            )
                        },
                    },
                }
            },
        }
    }
}

/// Decodes bytes as UTF-8, with a replacement character for each invalid
/// sequence.
///
/// Calls `String::from_utf8_lossy`. The contract names the text that comes
/// out; it is a function of the bytes alone. Bytes that are valid UTF-8
/// come out as the text that they encode.
#[verifier::external_body]
pub(crate) fn decode_utf8_lossy(bytes: &[u8]) -> (text: String)
    ensures
        text@ == utf8_lossy(bytes@),
        vstd::utf8::valid_utf8(bytes@) ==> text@ == vstd::utf8::decode_utf8(bytes@),
{
    String::from_utf8_lossy(bytes).to_string()
}

/// Replaces the first `n` occurrences of a character by another.
///
/// Calls `str::replacen`, which goes through the text from its start and
/// replaces each of the first `n` matches it finds.
#[verifier::external_body]
fn replace_first(text: &str, from: char, to: char, n: usize) -> (out: String)
    ensures
        out@ == replaced(text@, from, to, n as nat),
{
    let mut buffer = [0u8; 4];
    text.replacen(from, to.encode_utf8(&mut buffer), n)
}

/// `data` without its NUL bytes.
pub fn strip_nul(data: &[u8]) -> (stripped: Vec<u8>)
    ensures
        stripped@ == without_nul(data@),
{
    let mut stripped: Vec<u8> = Vec::new();
    let mut i: usize = 0;
    assert(data@.subrange(0, 0) =~= Seq::<u8>::empty());
    while i < data.len()
        invariant
            i <= data@.len(),
            stripped@ == without_nul(data@.subrange(0, i as int)),
        decreases data@.len() - i,
    {
        assert(data@.subrange(0, i + 1).drop_last() =~= data@.subrange(0, i as int));
        if data[i] != 0 {
            stripped.push(data[i]);
        }
        i += 1;
    }
    assert(data@.subrange(0, data@.len() as int) =~= data@);
    stripped
}

/// A date and time as Exif writes it, `YYYY:MM:DD HH:MM:SS`, in the form
/// `YYYY-MM-DDTHH:MM:SS`. The text is not checked to be a date.
pub fn datetime_text(text: &str) -> (out: String)
    ensures
        out@ == datetime_of(text@),
{
    let dashed = replace_first(text, ':', '-', 2);
    replace_first(dashed.as_str(), ' ', 'T', 1)
}

impl ExifRaw {
    /// The first entry with the given key.
    pub fn lookup_entry(&self, tagifd: TagIfd) -> (entry: Option<EntryRef>)
        ensures
            entry == self@.entry(tagifd),
    {
        let mut i: usize = 0;
        let n = self.locations.len();
        assert(self.locations@.subrange(0, n as int) =~= self.locations@);
        while i < n
            invariant
                i <= n,
                n == self.locations@.len(),
                first_record(self.locations@, tagifd) == (match first_record(
                    self.locations@.subrange(i as int, n as int),
                    tagifd,
                ) {
                    Some(j) => Some(j + i),
                    None => None,
                }),
            decreases n - i,
        {
            let record = self.locations[i];
            proof {
                let tail = self.locations@.subrange(i as int, n as int);
                assert(tail[0] == record);
                assert(tail.drop_first() =~= self.locations@.subrange(i + 1, n as int));
            }
            if record.tagifd.tag.0 == tagifd.tag.0 && record.tagifd.ifd == tagifd.ifd {
                return Some(record.entry);
            }
            i += 1;
        }
        None
    }

    /// The data of an entry.
    pub fn entry_data(&self, entry: &EntryRef) -> (data: Result<Vec<u8>, Error>)
        ensures
            match data_of(self@, *entry) {
                Ok(bytes) => data is Ok && data->Ok_0@ == bytes,
                Err(e) => data == Err::<Vec<u8>, Error>(e),
            },
    {
        match entry.value_offset {
            ValueOffset::Offset(offset) => {
                let len = entry.data_len()?;
                match self.raw.get(offset, len) {
                    Some(data) => Ok(data),
                    None => Err(Error::LookupEof),
                }
            },
            ValueOffset::Value(_) => {
                let start = entry.position as usize;
                let total = self.raw.buffer.len();
                if total < 12 || start > total - 12 {
                    return Err(Error::LookupEof);
                }
                let slot = vstd::slice::slice_subrange(
                    self.raw.buffer.as_slice(),
                    start + 8,
                    start + 12,
                );
                Ok(vstd::slice::slice_to_vec(slot))
            },
        }
    }

    /// The type and the data of the first entry with the given key.
    ///
    /// An inline value comes as the four bytes of the entry's slot, as they
    /// stand in the buffer; out-of-line data as the bytes at the offset.
    pub fn lookup_data(&self, tagifd: TagIfd) -> (data: Result<Option<(Type, Vec<u8>)>, Error>)
        ensures
            match self@.data(tagifd) {
                Ok(Some((data_type, bytes))) => data is Ok && data->Ok_0 is Some
                    && data->Ok_0->Some_0.0 == data_type && data->Ok_0->Some_0.1@ == bytes,
                Ok(None) => data == Ok::<Option<(Type, Vec<u8>)>, Error>(None),
                Err(e) => data == Err::<Option<(Type, Vec<u8>)>, Error>(e),
            },
    {
        match self.lookup_entry(tagifd) {
            Some(entry) => {
                let value = self.entry_data(&entry)?;
                Ok(Some((entry.data_type, value)))
            },
            None => Ok(None),
        }
    }

    /// The data of the first entry with the given key.
    pub fn lookup_binary(&self, tagifd: TagIfd) -> (data: Result<Option<Vec<u8>>, Error>)
        ensures
            match self@.data(tagifd) {
                Ok(Some((_, bytes))) => data is Ok && data->Ok_0 is Some && data->Ok_0->Some_0@
                    == bytes,
                Ok(None) => data == Ok::<Option<Vec<u8>>, Error>(None),
                Err(e) => data == Err::<Option<Vec<u8>>, Error>(e),
            },
    {
        match self.lookup_data(tagifd)? {
            Some((_, data)) => Ok(Some(data)),
            None => Ok(None),
        }
    }

    /// Returns a field of [`Type::Ascii`] or [`Type::Utf8`]
    ///
    /// This lookup deviates from the standard in that it removes all NULL bytes
    /// instead of just the last byte that should be NULL. This is due to many
    /// Exif implementations writing NULL bytes at the end or beginning of the
    /// data.
    pub fn lookup_string(&self, tagifd: TagIfd) -> (text: Result<Option<String>, Error>)
        ensures
            match self@.string(tagifd) {
                Ok(Some(chars)) => text is Ok && text->Ok_0 is Some && text->Ok_0->Some_0@ == chars,
                Ok(None) => text == Ok::<Option<String>, Error>(None),
                Err(e) => text == Err::<Option<String>, Error>(e),
            },
    {
        match self.lookup_string_raw(tagifd)? {
            None => Ok(None),
            Some(data) => {
                let stripped = strip_nul(data.as_slice());
                Ok(Some(decode_utf8_lossy(stripped.as_slice())))
            },
        }
    }

    /// Returns a field of [`Type::Ascii`] or [`Type::Utf8`]
    ///
    /// In contrast to [`Self::lookup_string`], this function leaves all NULL
    /// bytes in place.
    pub fn lookup_string_raw(&self, tagifd: TagIfd) -> (data: Result<Option<Vec<u8>>, Error>)
        ensures
            match self@.string_raw(tagifd) {
                Ok(Some(bytes)) => data is Ok && data->Ok_0 is Some && data->Ok_0->Some_0@ == bytes,
                Ok(None) => data == Ok::<Option<Vec<u8>>, Error>(None),
                Err(e) => data == Err::<Option<Vec<u8>>, Error>(e),
            },
    {
        match self.lookup_data(tagifd)? {
            Some((data_type, data)) => {
                if data_type != Type::Ascii && data_type != Type::Utf8 {
                    return Err(Error::WrongTypeGeneric);
                }
                Ok(Some(data))
            },
            None => Ok(None),
        }
    }

    /// The text of a field that starts with eight bytes that name its
    /// character code, like the user comment. Text in ASCII or without a
    /// named code is returned without its NUL bytes; text in other codes is
    /// not read.
    pub fn lookup_character_identified_code_string(&self, tagifd: TagIfd) -> (text: Result<
        Option<String>,
        Error,
    >)
        ensures
            match self@.character_identified_string(tagifd) {
                Ok(Some(chars)) => text is Ok && text->Ok_0 is Some && text->Ok_0->Some_0@ == chars,
                Ok(None) => text == Ok::<Option<String>, Error>(None),
                Err(e) => text == Err::<Option<String>, Error>(e),
            },
    {
        let data = match self.lookup_data(tagifd)? {
            Some((_, data)) => data,
            None => {
                return Ok(None);
            },
        };
        if data.len() < 8 {
            return Ok(None);
        }
        let ascii = data[0] == 0x41 && data[1] == 0x53 && data[2] == 0x43 && data[3] == 0x49
            && data[4] == 0x49 && data[5] == 0 && data[6] == 0 && data[7] == 0;
        let undefined = data[0] == 0 && data[1] == 0 && data[2] == 0 && data[3] == 0 && data[4]
            == 0 && data[5] == 0 && data[6] == 0 && data[7] == 0;
        let ghost code = data@.subrange(0, 8);
        assert(ascii == (code =~= seq![0x41u8, 0x53, 0x43, 0x49, 0x49, 0, 0, 0])) by {
            assert(code[0] == data@[0] && code[1] == data@[1] && code[2] == data@[2] && code[3]
                == data@[3] && code[4] == data@[4] && code[5] == data@[5] && code[6] == data@[6]
                && code[7] == data@[7]);
        }
        assert(undefined == (code =~= seq![0u8, 0, 0, 0, 0, 0, 0, 0])) by {
            assert(code[0] == data@[0] && code[1] == data@[1] && code[2] == data@[2] && code[3]
                == data@[3] && code[4] == data@[4] && code[5] == data@[5] && code[6] == data@[6]
                && code[7] == data@[7]);
        }
        if !(ascii || undefined) {
            return Ok(None);
        }
        let mut text: Vec<u8> = Vec::new();
        let mut i: usize = 8;
        while i < data.len()
            invariant
                8 <= i <= data@.len(),
                text@ == data@.subrange(8, i as int),
            decreases data@.len() - i,
        {
            text.push(data[i]);
            assert(text@ =~= data@.subrange(8, i + 1));
            i += 1;
        }
        let stripped = strip_nul(text.as_slice());
        Ok(Some(decode_utf8_lossy(stripped.as_slice())))
    }

    /// The value of a single `Short`: the first two bytes of the slot.
    pub fn lookup_short(&self, tagifd: TagIfd) -> (value: Result<Option<u16>, Error>)
        ensures
            value == self@.short(tagifd),
    {
        let entry = match self.lookup_entry(tagifd) {
            Some(entry) => entry,
            None => {
                return Ok(None);
            },
        };
        ExifRaw::check_type(&entry, 1, Type::Short)?;
        if let ValueOffset::Value(x) = entry.value_offset {
            Ok(
                Some(
                    if self.raw.big_endian {
                        (x / 65536) as u16
                    } else {
                        (x % 65536) as u16
                    },
                ),
            )
        } else {
            Err(Error::OffsetInsteadOfValue)
        }
    }

    /// The value of a single `Long`.
    pub fn lookup_long(&self, tagifd: TagIfd) -> (value: Result<Option<u32>, Error>)
        ensures
            value == self@.long(tagifd),
    {
        let entry = match self.lookup_entry(tagifd) {
            Some(entry) => entry,
            None => {
                return Ok(None);
            },
        };
        ExifRaw::check_type(&entry, 1, Type::Long)?;
        if let ValueOffset::Value(x) = entry.value_offset {
            Ok(Some(x))
        } else {
            Err(Error::OffsetInsteadOfValue)
        }
    }

    /// The numerator and denominator of a single `Rational`.
    pub fn lookup_rational(&self, tagifd: TagIfd) -> (value: Result<Option<(u32, u32)>, Error>)
        ensures
            match self@.rationals(tagifd, 1) {
                Ok(Some(pairs)) => value == Ok::<Option<(u32, u32)>, Error>(Some(pairs[0])),
                Ok(None) => value == Ok::<Option<(u32, u32)>, Error>(None),
                Err(e) => value == Err::<Option<(u32, u32)>, Error>(e),
            },
    {
        match self.lookup_rationals::<1>(tagifd)? {
            None => Ok(None),
            Some(pairs) => Ok(Some(pairs[0])),
        }
    }

    /// The numerators and denominators of `N` `Rational`s.
    pub fn lookup_rationals<const N: usize>(&self, tagifd: TagIfd) -> (value: Result<
        Option<[(u32, u32); N]>,
        Error,
    >)
        ensures
            match self@.rationals(tagifd, N as int) {
                Ok(Some(pairs)) => value is Ok && value->Ok_0 is Some && value->Ok_0->Some_0@
                    == pairs,
                Ok(None) => value == Ok::<Option<[(u32, u32); N]>, Error>(None),
                Err(e) => value == Err::<Option<[(u32, u32); N]>, Error>(e),
            },
    {
        let entry = match self.lookup_entry(tagifd) {
            Some(entry) => entry,
            None => {
                return Ok(None);
            },
        };
        if N > u32::MAX as usize {
            return Err(Error::ConversionOverflowError);
        }
        ExifRaw::check_type(&entry, N as u32, Type::Rational)?;
        let offset = entry.offset()?;
        let total = self.raw.buffer.len();
        if offset as u64 + 8 * (N as u64) > total as u64 {
            return Err(Error::Io);
        }
        let mut rationals: [(u32, u32); N] = [(0u32, 0u32); N];
        let mut i: usize = 0;
        while i < N
            invariant
                i <= N,
                N <= u32::MAX,
                offset + 8 * N <= self.raw.buffer@.len() <= usize::MAX,
                rationals@.len() == N,
                forall|j: int|
                    0 <= j < i ==> rationals@[j] == (
                        u32_at(self.raw.buffer@, offset + 8 * j, self.raw.big_endian),
                        u32_at(self.raw.buffer@, offset + 8 * j + 4, self.raw.big_endian),
                    ),
            decreases N - i,
        {
            let at: u64 = offset as u64 + 8 * (i as u64);
            let x = self.raw.get_u32(at).unwrap();
            let y = self.raw.get_u32(at + 4).unwrap();
            rationals[i] = (x, y);
            i += 1;
        }
        assert(rationals@ =~= self@.rationals(tagifd, N as int)->Ok_0->Some_0);
        Ok(Some(rationals))
    }

    /// The text of a date and time, `YYYY:MM:DD HH:MM:SS`, in the form
    /// `YYYY-MM-DDTHH:MM:SS`.
    pub fn lookup_datetime(&self, tagifd: TagIfd) -> (text: Result<Option<String>, Error>)
        ensures
            match self@.string(tagifd) {
                Ok(Some(chars)) => text is Ok && text->Ok_0 is Some && text->Ok_0->Some_0@
                    == datetime_of(chars),
                Ok(None) => text == Ok::<Option<String>, Error>(None),
                Err(e) => text == Err::<Option<String>, Error>(e),
            },
    {
        match self.lookup_string(tagifd)? {
            None => Ok(None),
            Some(s) => Ok(Some(datetime_text(s.as_str()))),
        }
    }

    /// Whether an entry has the given count and type.
    pub fn check_type(entry: &EntryRef, count: u32, data_type: Type) -> (checked: Result<
        (),
        Error,
    >)
        ensures
            checked == type_checked(*entry, count, data_type),
    {
        if entry.count == count && entry.data_type == data_type {
            Ok(())
        } else {
            Err(
                Error::WrongType {
                    expected: (count, data_type),
                    actual: (entry.count, entry.data_type),
                },
            )
        }
    }
}

} // verus!
