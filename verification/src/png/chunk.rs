//! One chunk of a PNG file and what it holds.
use vstd::prelude::*;
use vstd::slice::slice_subrange;
use vstd::string::StringSliceAdditionalSpecFns;
use crate::jpeg::file::{has_prefix, starts_with};
use crate::png::chunk_type::ChunkType;
use crate::png::error::Error;
use crate::png::file::Png;
use crate::png::scan::{inside, RawChunk};

verus! {

/// The keyword of the text chunks that hold Exif data.
pub const LEGACY_EXIF_KEYWORD: &'static str = "Raw profile type exif";

/// One chunk of a PNG file.
#[derive(Debug, Clone, Copy)]
pub struct Chunk<'a> {
    pub chunk_type: ChunkType,
    pub data_start: usize,
    pub data_end: usize,
    pub crc: [u8; 4],
    pub png: &'a Png,
}

/// The data of a chunk of a file.
pub open spec fn data_of(data: Seq<u8>, chunk: RawChunk) -> Seq<u8> {
    data.subrange(chunk.data_start as int, chunk.data_end as int)
}

/// How many bytes stand before the first NUL byte.
pub open spec fn keyword_len(data: Seq<u8>) -> int
    decreases data.len(),
{
    if data.len() == 0 || data[0] == 0 {
        0
    } else {
        1 + keyword_len(data.drop_first())
    }
}

/// The keyword and the text of a text chunk: what stands before its first
/// NUL byte and what stands behind it.
pub open spec fn text_of(data: Seq<u8>) -> Result<(Seq<u8>, Seq<u8>), Error> {
    let n = keyword_len(data);
    if n >= data.len() {
        Err(Error::UnexpectedEndOfChunkData)
    } else {
        Ok((data.subrange(0, n), data.subrange(n + 1, data.len() as int)))
    }
}

/// What a zlib decompressor makes of `input` when it may produce at most
/// `max_size` bytes; `None` where it fails.
pub uninterp spec fn inflated(input: Seq<u8>, max_size: usize) -> Option<Seq<u8>>;

/// The keyword and the decompressed text of a compressed text chunk: behind
/// the keyword stands one byte for the method of compression.
pub open spec fn ztxt_of(data: Seq<u8>, limit: usize) -> Result<(Seq<u8>, Seq<u8>), Error> {
    match text_of(data) {
        Err(e) => Err(e),
        Ok((keyword, raw)) => if raw.len() < 1 {
            Err(Error::UnexpectedEndOfChunkData)
        } else {
            match inflated(raw.subrange(1, raw.len() as int), limit) {
                None => Err(Error::Zlib),
                Some(text) => Ok((keyword, text)),
            }
        },
    }
}

/// Whether a byte is ASCII white space: a space, a tab, a line feed, a form
/// feed or a carriage return.
pub open spec fn is_space(b: u8) -> bool {
    b == 0x20 || b == 0x09 || b == 0x0A || b == 0x0C || b == 0x0D
}

/// Whether a byte is an ASCII digit.
pub open spec fn is_digit(b: u8) -> bool {
    0x30 <= b <= 0x39
}

/// The position of the first byte at or behind `pos` that is no white
/// space (or, with `digits`, no digit); `None` if there is none.
pub open spec fn skipped(data: Seq<u8>, pos: int, digits: bool) -> Option<int>
    decreases data.len() - pos,
{
    if pos < 0 || pos >= data.len() {
        None
    } else if (if digits {
        is_digit(data[pos])
    } else {
        is_space(data[pos])
    }) {
        skipped(data, pos + 1, digits)
    } else {
        Some(pos)
    }
}

/// `data` without its white space.
pub open spec fn without_space(data: Seq<u8>) -> Seq<u8>
    decreases data.len(),
{
    if data.len() == 0 {
        Seq::empty()
    } else if is_space(data.last()) {
        without_space(data.drop_last())
    } else {
        without_space(data.drop_last()).push(data.last())
    }
}

/// The value of a hexadecimal digit in either case.
pub open spec fn hex_value(c: u8) -> Option<u8> {
    if 0x41 <= c <= 0x46 {
        Some((c - 0x41 + 10) as u8)
    } else if 0x61 <= c <= 0x66 {
        Some((c - 0x61 + 10) as u8)
    } else if 0x30 <= c <= 0x39 {
        Some((c - 0x30) as u8)
    } else {
        None
    }
}

/// The bytes that a text of hexadecimal digits stands for, two digits for
/// each byte; `None` for an odd number of digits or for another character.
pub open spec fn hex_decoded(text: Seq<u8>) -> Option<Seq<u8>>
    decreases text.len(),
{
    if text.len() % 2 != 0 {
        None
    } else if text.len() == 0 {
        Some(Seq::empty())
    } else {
        match (
            hex_decoded(text.subrange(0, text.len() - 2)),
            hex_value(text[text.len() - 2]),
            hex_value(text[text.len() - 1]),
        ) {
            (Some(bytes), Some(high), Some(low)) => Some(bytes.push((high * 16 + low) as u8)),
            _ => None,
        }
    }
}

/// The Exif data in the text of a legacy Exif chunk: the text names the
/// profile `exif`, gives a length, and holds the data in hexadecimal with
/// the identifier `Exif\0\0` in front. White space separates the parts and
/// may stand anywhere in the digits.
pub open spec fn legacy_exif_of(raw: Seq<u8>) -> Option<Seq<u8>> {
    match skipped(raw, 0, false) {
        None => None,
        Some(name) => if name + 4 > raw.len() || raw.subrange(name, name + 4)
            != "exif".spec_bytes() {
            None
        } else {
            match skipped(raw, name + 4, false) {
                None => None,
                Some(length) => match skipped(raw, length, true) {
                    None => None,
                    Some(gap) => match skipped(raw, gap, false) {
                        None => None,
                        Some(start) => match hex_decoded(
                            without_space(raw.subrange(start, raw.len() as int)),
                        ) {
                            None => None,
                            Some(bytes) => if starts_with(bytes, "Exif\0\0".spec_bytes()) {
                                Some(
                                    bytes.subrange(
                                        "Exif\0\0".spec_bytes().len() as int,
                                        bytes.len() as int,
                                    ),
                                )
                            } else {
                                None
                            },
                        },
                    },
                },
            }
        },
    }
}

/// The keyword of the text chunks that hold XMP data.
pub const XMP_KEYWORD: &'static str = "XML:com.adobe.xmp";

/// The text of an international text chunk: behind the keyword stand a
/// byte that tells whether the text is compressed, a byte for the method,
/// a language tag and a translated keyword, each ended by a NUL byte, and
/// then the text.
pub open spec fn itxt_of(data: Seq<u8>, limit: usize) -> Option<(Seq<u8>, Seq<u8>)> {
    let n = keyword_len(data);
    if n + 3 > data.len() {
        None
    } else {
        let after_flags = data.subrange(n + 3, data.len() as int);
        let language = keyword_len(after_flags);
        if language >= after_flags.len() {
            None
        } else {
            let after_language = after_flags.subrange(language + 1, after_flags.len() as int);
            let translated = keyword_len(after_language);
            if translated >= after_language.len() {
                None
            } else {
                let text = after_language.subrange(translated + 1, after_language.len() as int);
                if data[n + 1] == 0 {
                    Some((data.subrange(0, n), text))
                } else if data[n + 1] == 1 {
                    match inflated(text, limit) {
                        Some(plain) => Some((data.subrange(0, n), plain)),
                        None => None,
                    }
                } else {
                    None
                }
            }
        }
    }
}

/// The Exif data that a chunk with the given data holds in the legacy way,
/// if it does: the chunk has the keyword for it, and its compressed text
/// is a profile with Exif data.
pub open spec fn legacy_exif_in(data: Seq<u8>, limit: usize) -> Option<Seq<u8>> {
    if data.subrange(0, keyword_len(data)) != LEGACY_EXIF_KEYWORD.spec_bytes() {
        None
    } else {
        match ztxt_of(data, limit) {
            Err(_) => None,
            Ok((_, raw)) => legacy_exif_of(raw),
        }
    }
}

/// The XMP data that a chunk of the given type with the given data holds,
/// if it is an international text chunk with the keyword for XMP.
pub open spec fn xmp_in(chunk_type: ChunkType, data: Seq<u8>, limit: usize) -> Option<Seq<u8>> {
    if chunk_type != ChunkType::iTXt {
        None
    } else {
        match itxt_of(data, limit) {
            Some((keyword, text)) => if keyword == XMP_KEYWORD.spec_bytes() {
                Some(text)
            } else {
                None
            },
            None => None,
        }
    }
}

/// The text that Latin-1 bytes stand for: each byte is the character with
/// its number.
pub open spec fn latin1(bytes: Seq<u8>) -> Seq<char> {
    Seq::new(bytes.len(), |i: int| bytes[i] as char)
}

/// Reads Latin-1 bytes as text.
///
/// Calls `encoding_rs::mem::convert_latin1_to_str`, which takes each byte
/// for the code point with its number, with a buffer of twice the length,
/// which it asks for.
#[verifier::external_body]
pub(crate) fn latin1_text(bytes: &[u8]) -> (text: String)
    ensures
        text@ == latin1(bytes@),
{
    let mut buf = "\0\0".repeat(bytes.len());
    let len = encoding_rs::mem::convert_latin1_to_str(bytes, &mut buf);
    buf.truncate(len);
    buf
}

/// Reads an international text chunk.
pub fn read_itxt(data: &[u8], inflate_limit: usize) -> (text: Option<(&[u8], Vec<u8>)>)
    ensures
        match itxt_of(data@, inflate_limit) {
            Some((keyword, value)) => text is Some && text->Some_0.0@ == keyword
                && text->Some_0.1@ == value,
            None => text is None,
        },
{
    let keyword = keyword_of(data);
    let n = keyword.len();
    if data.len() - n < 3 {
        return None;
    }
    let after_flags = slice_subrange(data, n + 3, data.len());
    let language = keyword_of(after_flags).len();
    if language >= after_flags.len() {
        return None;
    }
    let after_language = slice_subrange(after_flags, language + 1, after_flags.len());
    let translated = keyword_of(after_language).len();
    if translated >= after_language.len() {
        return None;
    }
    let text = slice_subrange(after_language, translated + 1, after_language.len());
    if data[n + 1] == 0 {
        Some((keyword, vstd::slice::slice_to_vec(text)))
    } else if data[n + 1] == 1 {
        match inflate(text, inflate_limit) {
            Some(plain) => Some((keyword, plain)),
            None => None,
        }
    } else {
        None
    }
}

/// Decompresses zlib data into at most `max_size` bytes.
///
/// Calls `miniz_oxide::inflate::decompress_to_vec_zlib_with_limit`. The
/// contract names what comes out; it is a function of the input and the
/// limit alone.
#[verifier::external_body]
pub(crate) fn inflate(input: &[u8], max_size: usize) -> (output: Option<Vec<u8>>)
    ensures
        match inflated(input@, max_size) {
            Some(bytes) => output is Some && output->Some_0@ == bytes,
            None => output is None,
        },
{
    match miniz_oxide::inflate::decompress_to_vec_zlib_with_limit(input, max_size) {
        Ok(output) => Some(output),
        Err(_) => None,
    }
}

/// Decodes hexadecimal digits.
///
/// Calls `hex::decode`, which takes two digits of either case for each byte
/// and refuses an odd number of digits and every other character.
#[verifier::external_body]
pub(crate) fn hex_decode(text: &[u8]) -> (bytes: Option<Vec<u8>>)
    ensures
        match hex_decoded(text@) {
            Some(decoded) => bytes is Some && bytes->Some_0@ == decoded,
            None => bytes is None,
        },
{
    match hex::decode(text) {
        Ok(bytes) => Some(bytes),
        Err(_) => None,
    }
}

/// The position of the first byte at or behind `pos` that is no white
/// space (or, with `digits`, no digit).
pub fn skip_while(data: &[u8], pos: usize, digits: bool) -> (found: Option<usize>)
    ensures
        match skipped(data@, pos as int, digits) {
            Some(at) => found is Some && found->Some_0 == at && pos <= at < data@.len(),
            None => found is None,
        },
{
    let mut at = pos;
    while at < data.len()
        invariant
            pos <= at,
            skipped(data@, pos as int, digits) == skipped(data@, at as int, digits),
        decreases data@.len() - at,
    {
        let b = data[at];
        let more = if digits {
            0x30 <= b && b <= 0x39
        } else {
            b == 0x20 || b == 0x09 || b == 0x0A || b == 0x0C || b == 0x0D
        };
        if !more {
            return Some(at);
        }
        at += 1;
    }
    None
}

/// `data` without its white space.
pub fn strip_space(data: &[u8]) -> (stripped: Vec<u8>)
    ensures
        stripped@ == without_space(data@),
{
    let mut stripped: Vec<u8> = Vec::new();
    let mut i: usize = 0;
    assert(data@.subrange(0, 0) =~= Seq::<u8>::empty());
    while i < data.len()
        invariant
            i <= data@.len(),
            stripped@ == without_space(data@.subrange(0, i as int)),
        decreases data@.len() - i,
    {
        assert(data@.subrange(0, i + 1).drop_last() =~= data@.subrange(0, i as int));
        let b = data[i];
        if !(b == 0x20 || b == 0x09 || b == 0x0A || b == 0x0C || b == 0x0D) {
            stripped.push(b);
        }
        i += 1;
    }
    assert(data@.subrange(0, data@.len() as int) =~= data@);
    stripped
}

/// Reads the Exif data from the text of a legacy Exif chunk.
pub fn read_legacy_exif(raw: &[u8]) -> (exif: Option<Vec<u8>>)
    ensures
        match legacy_exif_of(raw@) {
            Some(bytes) => exif is Some && exif->Some_0@ == bytes,
            None => exif is None,
        },
{
    // Skip whitespaces
    let name = skip_while(raw, 0, false)?;
    if raw.len() - name < 4 || !has_prefix(
        slice_subrange(raw, name, name + 4),
        "exif".as_bytes(),
    ) {
        proof {
            let word = raw@.subrange(name as int, name + 4);
            if raw@.len() - name >= 4 && word == "exif".spec_bytes() {
                assert(word.subrange(0, "exif".spec_bytes().len() as int) =~= word);
            }
        }
        return None;
    }
    proof {
        let word = raw@.subrange(name as int, name + 4);
        assert("exif".spec_bytes().len() <= 4);
        assert(word.subrange(0, "exif".spec_bytes().len() as int) == "exif".spec_bytes());
        exif_is_four_bytes();
        assert(word.subrange(0, 4) =~= word);
    }
    // Skip whitespaces
    let length = skip_while(raw, name + 4, false)?;
    // Skip numbers (data length)
    let gap = skip_while(raw, length, true)?;
    // Skip whitespaces
    let start = skip_while(raw, gap, false)?;
    // Data without whitespaces
    let data = strip_space(slice_subrange(raw, start, raw.len()));
    // Decode data from hex
    let exif_with_prefix = hex_decode(data.as_slice())?;
    // Drop header
    let prefix = "Exif\0\0".as_bytes();
    if !has_prefix(exif_with_prefix.as_slice(), prefix) {
        return None;
    }
    let rest = slice_subrange(exif_with_prefix.as_slice(), prefix.len(), exif_with_prefix.len());
    Some(vstd::slice::slice_to_vec(rest))
}

/// The word `exif` has four bytes.
pub proof fn exif_is_four_bytes()
    ensures
        "exif".spec_bytes().len() == 4,
{
    reveal_strlit("exif");
    assert("exif"@.len() == 4);
    assert(vstd::utf8::is_ascii_chars("exif"@)) by {
        assert forall|i: int| 0 <= i < "exif"@.len() implies 0 <= #[trigger] ("exif"@[i] as nat)
            < 128 by {}
    }
    vstd::utf8::is_ascii_chars_encode_utf8("exif"@);
}

/// The keyword of a text chunk: the bytes before its first NUL byte.
pub fn keyword_of(data: &[u8]) -> (keyword: &[u8])
    ensures
        keyword@ == data@.subrange(0, keyword_len(data@)),
        0 <= keyword_len(data@) <= data@.len(),
        keyword_len(data@) < data@.len() ==> data@[keyword_len(data@)] == 0,
{
    let mut n: usize = 0;
    assert(data@.subrange(0, data@.len() as int) =~= data@);
    while n < data.len() && data[n] != 0
        invariant
            n <= data@.len(),
            keyword_len(data@) == n + keyword_len(data@.subrange(n as int, data@.len() as int)),
        decreases data@.len() - n,
    {
        assert(data@.subrange(n as int, data@.len() as int).drop_first() =~= data@.subrange(
            n + 1,
            data@.len() as int,
        ));
        n += 1;
    }
    slice_subrange(data, 0, n)
}

/// The keyword and the text of a text chunk.
pub fn read_text(data: &[u8]) -> (text: Result<(&[u8], &[u8]), Error>)
    ensures
        match text_of(data@) {
            Ok((keyword, value)) => text is Ok && text->Ok_0.0@ == keyword && text->Ok_0.1@
                == value,
            Err(e) => text is Err && text->Err_0 == e,
        },
{
    let keyword = keyword_of(data);
    if keyword.len() >= data.len() {
        return Err(Error::UnexpectedEndOfChunkData);
    }
    Ok((keyword, slice_subrange(data, keyword.len() + 1, data.len())))
}

/// The keyword and the decompressed text of a compressed text chunk.
pub fn read_ztxt(data: &[u8], inflate_limit: usize) -> (text: Result<(&[u8], Vec<u8>), Error>)
    ensures
        match ztxt_of(data@, inflate_limit) {
            Ok((keyword, value)) => text is Ok && text->Ok_0.0@ == keyword && text->Ok_0.1@
                == value,
            Err(e) => text is Err && text->Err_0 == e,
        },
{
    let (keyword, raw) = read_text(data)?;
    // Skip byte for compression type
    if raw.len() < 1 {
        return Err(Error::UnexpectedEndOfChunkData);
    }
    match inflate(slice_subrange(raw, 1, raw.len()), inflate_limit) {
        Some(text) => Ok((keyword, text)),
        None => Err(Error::Zlib),
    }
}

impl RawChunk {
    /// The chunk of the file that lies where this one says.
    pub fn chunk<'a>(&self, png: &'a Png) -> (chunk: Chunk<'a>)
        ensures
            chunk.raw() == *self,
            chunk.png == png,
    {
        Chunk {
            chunk_type: self.chunk_type,
            data_start: self.data_start,
            data_end: self.data_end,
            crc: self.crc,
            png,
        }
    }

    /// The range of the whole chunk, from its length to its checksum.
    pub fn complete_data(&self) -> (range: (usize, usize))
        requires
            self.data_start >= 8,
            self.data_end + 4 <= usize::MAX,
        ensures
            range == ((self.data_start - 8) as usize, (self.data_end + 4) as usize),
    {
        (self.data_start - 8, self.data_end + 4)
    }

    /// The length of the whole chunk.
    pub fn total_len(&self) -> (len: usize)
        requires
            8 <= self.data_start <= self.data_end,
            self.data_end + 4 <= usize::MAX,
        ensures
            len == self.data_end - self.data_start + 12,
    {
        let range = self.complete_data();
        range.1 - range.0
    }
}

impl<'a> Chunk<'a> {
    /// Where the chunk lies.
    pub open spec fn raw(self) -> RawChunk {
        RawChunk {
            chunk_type: self.chunk_type,
            data_start: self.data_start,
            data_end: self.data_end,
            crc: self.crc,
        }
    }

    /// The chunk lies inside its file.
    pub open spec fn wf(self) -> bool {
        inside(self.raw(), self.png.data@.len() as int)
    }

    /// The data of the chunk.
    pub open spec fn data(self) -> Seq<u8> {
        data_of(self.png.data@, self.raw())
    }

    pub fn chunk_type(&self) -> (chunk_type: ChunkType)
        ensures
            chunk_type == self.chunk_type,
    {
        self.chunk_type
    }

    /// The data of the chunk.
    pub fn chunk_data(&self) -> (data: &'a [u8])
        requires
            self.wf(),
        ensures
            data@ == self.data(),
    {
        slice_subrange(self.png.data.as_slice(), self.data_start, self.data_end)
    }

    /// The checksum of the chunk.
    pub fn crc(&self) -> (crc: &[u8])
        ensures
            crc@ == self.crc@,
    {
        self.crc.as_slice()
    }

    /// The keyword of a text chunk: the bytes before the first NUL byte.
    pub fn keyword(&self) -> (keyword: Result<&'a [u8], Error>)
        requires
            self.wf(),
        ensures
            keyword is Ok,
            keyword->Ok_0@ == self.data().subrange(0, keyword_len(self.data())),
    {
        Ok(keyword_of(self.chunk_data()))
    }

    /// Returns keyword and value of a [`tEXt`](ChunkType::tEXt) chunk
    pub fn text(&self) -> (text: Result<(&'a [u8], &'a [u8]), Error>)
        requires
            self.wf(),
        ensures
            match text_of(self.data()) {
                Ok((keyword, value)) => text is Ok && text->Ok_0.0@ == keyword && text->Ok_0.1@
                    == value,
                Err(e) => text is Err && text->Err_0 == e,
            },
    {
        read_text(self.chunk_data())
    }

    /// Returns the content of a [`zTXt`](ChunkType::zTXt) chunk
    ///
    /// The first value is the keyword, the second is the decompressed data.
    pub fn ztxt(&self, inflate_limit: usize) -> (text: Result<(&'a [u8], Vec<u8>), Error>)
        requires
            self.wf(),
        ensures
            match ztxt_of(self.data(), inflate_limit) {
                Ok((keyword, value)) => text is Ok && text->Ok_0.0@ == keyword && text->Ok_0.1@
                    == value,
                Err(e) => text is Err && text->Err_0 == e,
            },
    {
        read_ztxt(self.chunk_data(), inflate_limit)
    }

    /// The keyword and the text of a chunk with text, compressed or not.
    pub open spec fn textual_of(self, limit: usize) -> Result<(Seq<u8>, Seq<u8>), Error> {
        if self.chunk_type == ChunkType::tEXt {
            text_of(self.data())
        } else if self.chunk_type == ChunkType::zTXt {
            ztxt_of(self.data(), limit)
        } else {
            Err(Error::NoText)
        }
    }

    /// The keyword and the text of a [`tEXt`](ChunkType::tEXt) or
    /// [`zTXt`](ChunkType::zTXt) chunk.
    pub fn textual(&self, inflate_limit: usize) -> (text: Result<(&'a [u8], Vec<u8>), Error>)
        requires
            self.wf(),
        ensures
            match self.textual_of(inflate_limit) {
                Ok((keyword, value)) => text is Ok && text->Ok_0.0@ == keyword && text->Ok_0.1@
                    == value,
                Err(e) => text is Err && text->Err_0 == e,
            },
    {
        if self.chunk_type == ChunkType::tEXt {
            let (keyword, text) = self.text()?;
            Ok((keyword, vstd::slice::slice_to_vec(text)))
        } else if self.chunk_type == ChunkType::zTXt {
            self.ztxt(inflate_limit)
        } else {
            Err(Error::NoText)
        }
    }

    /// The Exif data that the chunk holds in the legacy way, if it does.
    pub open spec fn legacy_exif_of(self, limit: usize) -> Option<Seq<u8>> {
        legacy_exif_in(self.data(), limit)
    }

    /// Returns the Exif data stored in a [`zTXt`](ChunkType::zTXt) chunk
    pub fn legacy_exif(&self, inflate_limit: usize) -> (exif: Option<Vec<u8>>)
        requires
            self.wf(),
        ensures
            match self.legacy_exif_of(inflate_limit) {
                Some(bytes) => exif is Some && exif->Some_0@ == bytes,
                None => exif is None,
            },
    {
        let keyword = keyword_of(self.chunk_data());
        let wanted = LEGACY_EXIF_KEYWORD.as_bytes();
        if keyword.len() != wanted.len() || !has_prefix(keyword, wanted) {
            proof {
                if keyword@ == wanted@ {
                    assert(keyword@.subrange(0, wanted@.len() as int) =~= keyword@);
                }
            }
            return None;
        }
        assert(keyword@.subrange(0, wanted@.len() as int) =~= keyword@);
        match self.ztxt(inflate_limit) {
            Ok((_, raw)) => read_legacy_exif(raw.as_slice()),
            Err(_) => None,
        }
    }

    /// The XMP data that the chunk holds, if it is an international text
    /// chunk with the keyword for XMP.
    pub open spec fn xmp_of(self, limit: usize) -> Option<Seq<u8>> {
        xmp_in(self.chunk_type, self.data(), limit)
    }

    /// Returns the XMP data stored in an [`iTXt`](ChunkType::iTXt) chunk
    pub fn xmp(&self, inflate_limit: usize) -> (xmp: Option<Vec<u8>>)
        requires
            self.wf(),
        ensures
            match self.xmp_of(inflate_limit) {
                Some(bytes) => xmp is Some && xmp->Some_0@ == bytes,
                None => xmp is None,
            },
    {
        if self.chunk_type != ChunkType::iTXt {
            return None;
        }
        let (keyword, text) = read_itxt(self.chunk_data(), inflate_limit)?;
        let wanted = XMP_KEYWORD.as_bytes();
        if keyword.len() != wanted.len() || !has_prefix(keyword, wanted) {
            proof {
                if keyword@ == wanted@ {
                    assert(keyword@.subrange(0, wanted@.len() as int) =~= keyword@);
                }
            }
            return None;
        }
        assert(keyword@.subrange(0, wanted@.len() as int) =~= keyword@);
        Some(text)
    }

    pub fn unsafe_raw_chunk(self) -> (raw: RawChunk)
        ensures
            raw == self.raw(),
    {
        RawChunk {
            chunk_type: self.chunk_type,
            data_start: self.data_start,
            data_end: self.data_end,
            crc: self.crc,
        }
    }
}

} // verus!
