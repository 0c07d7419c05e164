//! The chunks of a WebP file and the metadata they carry.
use vstd::prelude::*;
use vstd::slice::slice_subrange;
use crate::common::error::ErrorWithData;
use crate::exif::bytes::{u32_at, u32_at_same, u32_bytes, u32_from_bytes, u32_to_bytes};

verus! {

/// Type of a chunk
///
/// The value is stored as little endian [`u32`] of the original byte
/// string.
#[derive(Copy, Clone, Debug, PartialEq, Eq, Structural)]
#[non_exhaustive]
#[allow(non_camel_case_types)]
pub enum FourCC {
    /// Information about features used in the file
    VP8X,
    /// Embedded ICC color profile
    ICCP,
    /// Global parameters of the animation.
    ANIM,
    /// Information about a single frame
    ANMF,
    /// Alpha data for this frame (only with [`VP8`](Self::VP8))
    ALPH,
    /// Lossy data for this frame
    VP8,
    /// Lossless data for this frame
    VP8L,
    /// Exif data
    EXIF,
    /// XMP data
    XMP,
    Unknown(u32),
}

impl FourCC {
    /// The four bytes of the name of the type as a little-endian number.
    pub open spec fn code(self) -> u32 {
        match self {
            FourCC::VP8X => 0x58385056,
            FourCC::ICCP => 0x50434349,
            FourCC::ANIM => 0x4D494E41,
            FourCC::ANMF => 0x464D4E41,
            FourCC::ALPH => 0x48504C41,
            FourCC::VP8 => 0x20385056,
            FourCC::VP8L => 0x4C385056,
            FourCC::EXIF => 0x46495845,
            FourCC::XMP => 0x20504D58,
            FourCC::Unknown(code) => code,
        }
    }

    /// The type with the given name.
    pub open spec fn of_code(code: u32) -> FourCC {
        if code == 0x58385056 {
            FourCC::VP8X
        } else if code == 0x50434349 {
            FourCC::ICCP
        } else if code == 0x4D494E41 {
            FourCC::ANIM
        } else if code == 0x464D4E41 {
            FourCC::ANMF
        } else if code == 0x48504C41 {
            FourCC::ALPH
        } else if code == 0x20385056 {
            FourCC::VP8
        } else if code == 0x4C385056 {
            FourCC::VP8L
        } else if code == 0x46495845 {
            FourCC::EXIF
        } else if code == 0x20504D58 {
            FourCC::XMP
        } else {
            FourCC::Unknown(code)
        }
    }

    /// The type with the given name; unknown names are kept as they are.
    pub fn from_u32(code: u32) -> (four_cc: FourCC)
        ensures
            four_cc == FourCC::of_code(code),
            four_cc.code() == code,
    {
        if code == 0x58385056 {
            FourCC::VP8X
        } else if code == 0x50434349 {
            FourCC::ICCP
        } else if code == 0x4D494E41 {
            FourCC::ANIM
        } else if code == 0x464D4E41 {
            FourCC::ANMF
        } else if code == 0x48504C41 {
            FourCC::ALPH
        } else if code == 0x20385056 {
            FourCC::VP8
        } else if code == 0x4C385056 {
            FourCC::VP8L
        } else if code == 0x46495845 {
            FourCC::EXIF
        } else if code == 0x20504D58 {
            FourCC::XMP
        } else {
            FourCC::Unknown(code)
        }
    }

    /// The name of the type as a little-endian number.
    pub fn to_u32(self) -> (code: u32)
        ensures
            code == self.code(),
    {
        match self {
            FourCC::VP8X => 0x58385056,
            FourCC::ICCP => 0x50434349,
            FourCC::ANIM => 0x4D494E41,
            FourCC::ANMF => 0x464D4E41,
            FourCC::ALPH => 0x48504C41,
            FourCC::VP8 => 0x20385056,
            FourCC::VP8L => 0x4C385056,
            FourCC::EXIF => 0x46495845,
            FourCC::XMP => 0x20504D58,
            FourCC::Unknown(code) => code,
        }
    }

    /// Returns the byte string of the chunk
    pub fn bytes(self) -> (bytes: [u8; 4])
        ensures
            bytes@ == u32_bytes(self.code(), false),
    {
        u32_to_bytes(self.to_u32(), false)
    }
}

#[derive(Debug, Clone, Copy, PartialEq, Eq)]
pub enum Error {
    /// The file does not start with `RIFF`.
    RiffMagicBytesMissing([u8; 4]),
    /// The file is no WebP file: `WEBP` does not follow the length.
    WebpMagicBytesMissing([u8; 4]),
    /// The file ends inside a chunk.
    UnexpectedEof,
    PositionTooLarge,
}

/// Where a chunk lies in the file: its type and the range of its payload,
/// which follows four bytes for the type and four for the size.
#[derive(Debug, Clone, Copy, PartialEq, Eq, Structural)]
pub struct RawChunk {
    pub four_cc: FourCC,
    pub payload_start: usize,
    pub payload_end: usize,
}

/// One chunk of a WebP file.
#[derive(Debug, Clone, Copy)]
pub struct Chunk<'a> {
    pub four_cc: FourCC,
    pub payload_start: usize,
    pub payload_end: usize,
    pub webp: &'a WebP,
}

/// A WebP file: its bytes and where its chunks lie.
#[derive(Debug)]
pub struct WebP {
    pub data: Vec<u8>,
    pub chunks: Vec<RawChunk>,
}

/// Whether the four bytes at `at` are the given ones.
pub open spec fn four_at(data: Seq<u8>, at: int, a: u8, b: u8, c: u8, d: u8) -> bool {
    data[at] == a && data[at + 1] == b && data[at + 2] == c && data[at + 3] == d
}

/// Whether the data is a WebP file by its first twelve bytes: `RIFF`, a
/// length, and `WEBP`.
pub open spec fn is_webp(data: Seq<u8>) -> bool {
    data.len() >= 12 && four_at(data, 0, 0x52, 0x49, 0x46, 0x46) && four_at(
        data,
        8,
        0x57,
        0x45,
        0x42,
        0x50,
    )
}

/// The chunk at `pos`, and the position behind it and its padding: a
/// payload of odd size is followed by one byte.
pub open spec fn chunk_at(data: Seq<u8>, pos: int) -> Result<(RawChunk, int), Error> {
    if pos + 8 > data.len() {
        Err(Error::UnexpectedEof)
    } else {
        let size = u32_at(data, pos + 4, false);
        let end = pos + 8 + size;
        if end + 1 > usize::MAX {
            Err(Error::PositionTooLarge)
        } else if end > data.len() {
            Err(Error::UnexpectedEof)
        } else {
            Ok(
                (
                    RawChunk {
                        four_cc: FourCC::of_code(u32_at(data, pos, false)),
                        payload_start: (pos + 8) as usize,
                        payload_end: end as usize,
                    },
                    end + size % 2,
                ),
            )
        }
    }
}

/// The chunks from `pos` on up to the length that the file gives itself.
pub open spec fn chunks_from(data: Seq<u8>, pos: int, file_length: u32) -> Result<
    Seq<RawChunk>,
    Error,
>
    decreases data.len() + 1 - pos,
{
    match chunk_at(data, pos) {
        Err(e) => Err(e),
        Ok((chunk, next)) => if next >= file_length {
            Ok(seq![chunk])
        } else if pos < 0 {
            Err(Error::UnexpectedEof)
        } else {
            match chunks_from(data, next, file_length) {
                Err(e) => Err(e),
                Ok(rest) => Ok(seq![chunk] + rest),
            }
        },
    }
}

/// The chunks of a WebP file.
pub open spec fn webp_chunks(data: Seq<u8>) -> Result<Seq<RawChunk>, Error> {
    if data.len() < 4 {
        Err(Error::UnexpectedEof)
    } else if !four_at(data, 0, 0x52, 0x49, 0x46, 0x46) {
        Err(Error::RiffMagicBytesMissing([data[0], data[1], data[2], data[3]]))
    } else if data.len() < 12 {
        Err(Error::UnexpectedEof)
    } else if !four_at(data, 8, 0x57, 0x45, 0x42, 0x50) {
        Err(Error::WebpMagicBytesMissing([data[8], data[9], data[10], data[11]]))
    } else {
        chunks_from(data, 12, u32_at(data, 4, false))
    }
}

/// Whether the payload of a chunk lies inside a file of `len` bytes.
pub open spec fn inside(chunk: RawChunk, len: int) -> bool {
    chunk.payload_start <= chunk.payload_end <= len
}

/// The first of the first `k` chunks with the given type.
pub open spec fn first_of(chunks: Seq<RawChunk>, four_cc: FourCC, k: nat) -> Option<int>
    decreases k,
{
    if k == 0 {
        None
    } else {
        match first_of(chunks, four_cc, (k - 1) as nat) {
            Some(i) => Some(i),
            None => if chunks[k - 1].four_cc == four_cc {
                Some(k - 1)
            } else {
                None
            },
        }
    }
}

/// Every chunk that is found lies inside the file.
pub proof fn chunks_from_inside(data: Seq<u8>, pos: int, file_length: u32)
    requires
        0 <= pos,
        data.len() <= usize::MAX,
        chunks_from(data, pos, file_length) is Ok,
    ensures
        forall|i: int|
            0 <= i < chunks_from(data, pos, file_length)->Ok_0.len() ==> inside(
                #[trigger] chunks_from(data, pos, file_length)->Ok_0[i],
                data.len() as int,
            ),
    decreases data.len() + 1 - pos,
{
    let (chunk, next) = chunk_at(data, pos)->Ok_0;
    assert(inside(chunk, data.len() as int));
    if next < file_length {
        chunks_from_inside(data, next, file_length);
        let rest = chunks_from(data, next, file_length)->Ok_0;
        let all = chunks_from(data, pos, file_length)->Ok_0;
        assert(all == seq![chunk] + rest);
        assert forall|i: int| 0 <= i < all.len() implies inside(
            #[trigger] all[i],
            data.len() as int,
        ) by {
            if i > 0 {
                assert(all[i] == rest[i - 1]);
            }
        }
    }
}

/// The first chunk of a type stays the first as more chunks are looked at.
pub proof fn first_of_found(chunks: Seq<RawChunk>, four_cc: FourCC, k: nat, n: nat)
    requires
        k < n,
        first_of(chunks, four_cc, k) is None,
        chunks[k as int].four_cc == four_cc,
    ensures
        first_of(chunks, four_cc, n) == Some(k as int),
    decreases n,
{
    if n - 1 > k {
        first_of_found(chunks, four_cc, k, (n - 1) as nat);
    }
}

/// Reads the little-endian number at `pos`.
pub fn le32(data: &[u8], pos: usize) -> (value: u32)
    requires
        pos + 4 <= data@.len(),
    ensures
        value == u32_at(data@, pos as int, false),
{
    proof {
        u32_at_same(
            seq![data@[pos as int], data@[pos + 1], data@[pos + 2], data@[pos + 3]],
            data@,
            0,
            pos as int,
            false,
        );
    }
    u32_from_bytes(data[pos], data[pos + 1], data[pos + 2], data[pos + 3], false)
}

/// Reads the chunk at `pos`.
pub fn read_chunk(data: &[u8], pos: usize) -> (chunk: Result<(RawChunk, usize), Error>)
    requires
        pos <= data@.len(),
    ensures
        match chunk_at(data@, pos as int) {
            Ok((raw, next)) => chunk == Ok::<(RawChunk, usize), Error>((raw, next as usize)) && pos
                < next <= data@.len() + 1 && inside(raw, data@.len() as int),
            Err(e) => chunk == Err::<(RawChunk, usize), Error>(e),
        },
{
    let total = data.len();
    if total - pos < 8 {
        return Err(Error::UnexpectedEof);
    }
    // Next 4 bytes are chunk FourCC (chunk type)
    let four_cc = FourCC::from_u32(le32(data, pos));
    // First 4 bytes are chunk size
    let size = le32(data, pos + 4);
    // Next is the payload
    let payload_start = pos + 8;
    if ((usize::MAX - payload_start) as u64) <= size as u64 {
        return Err(Error::PositionTooLarge);
    }
    let payload_end = payload_start + size as usize;
    if payload_end > total {
        return Err(Error::UnexpectedEof);
    }
    // If odd, jump over 1 byte padding
    let padding: usize = if size % 2 != 0 {
        1
    } else {
        0
    };
    Ok((RawChunk { four_cc, payload_start, payload_end }, payload_end + padding))
}

/// List all chunks in the data
pub fn find_chunks(data: &[u8]) -> (chunks: Result<Vec<RawChunk>, Error>)
    ensures
        match webp_chunks(data@) {
            Ok(found) => chunks is Ok && chunks->Ok_0@ == found,
            Err(e) => chunks == Err::<Vec<RawChunk>, Error>(e),
        },
{
    if data.len() < 4 {
        return Err(Error::UnexpectedEof);
    }
    // Riff magic bytes
    if !(data[0] == 0x52 && data[1] == 0x49 && data[2] == 0x46 && data[3] == 0x46) {
        let magic: [u8; 4] = [data[0], data[1], data[2], data[3]];
        return Err(Error::RiffMagicBytesMissing(magic));
    }
    if data.len() < 12 {
        return Err(Error::UnexpectedEof);
    }
    // File length
    let file_length = le32(data, 4);
    if !(data[8] == 0x57 && data[9] == 0x45 && data[10] == 0x42 && data[11] == 0x50) {
        let magic: [u8; 4] = [data[8], data[9], data[10], data[11]];
        return Err(Error::WebpMagicBytesMissing(magic));
    }
    let mut chunks: Vec<RawChunk> = Vec::new();
    let ghost goal = webp_chunks(data@);
    let mut pos: usize = 12;
    assert(Seq::<RawChunk>::empty() + chunks_from(data@, 12, file_length)->Ok_0 =~= chunks_from(
        data@,
        12,
        file_length,
    )->Ok_0);
    loop
        invariant
            12 <= pos <= data@.len() + 1,
            data@.len() <= usize::MAX,
            goal == webp_chunks(data@),
            goal == (match chunks_from(data@, pos as int, file_length) {
                Ok(rest) => Ok::<Seq<RawChunk>, Error>(chunks@ + rest),
                Err(e) => Err::<Seq<RawChunk>, Error>(e),
            }),
        decreases data@.len() + 1 - pos,
    {
        if pos > data.len() {
            return Err(Error::UnexpectedEof);
        }
        let (chunk, next) = read_chunk(data, pos)?;
        let ghost before = chunks@;
        chunks.push(chunk);
        if next as u64 >= file_length as u64 {
            assert(before + seq![chunk] =~= chunks@);
            return Ok(chunks);
        }
        proof {
            match chunks_from(data@, next as int, file_length) {
                Ok(rest) => {
                    assert(before + (seq![chunk] + rest) =~= chunks@ + rest);
                },
                Err(_) => {},
            }
        }
        pos = next;
    }
}

impl RawChunk {
    /// The chunk of the file that lies where this one says.
    pub fn chunk<'a>(&self, webp: &'a WebP) -> (chunk: Chunk<'a>)
        ensures
            chunk.raw() == *self,
            chunk.webp == webp,
    {
        Chunk {
            four_cc: self.four_cc,
            payload_start: self.payload_start,
            payload_end: self.payload_end,
            webp,
        }
    }
}

impl<'a> Chunk<'a> {
    /// Where the chunk lies.
    pub open spec fn raw(self) -> RawChunk {
        RawChunk {
            four_cc: self.four_cc,
            payload_start: self.payload_start,
            payload_end: self.payload_end,
        }
    }

    /// The chunk lies inside its file.
    pub open spec fn wf(self) -> bool {
        inside(self.raw(), self.webp.data@.len() as int)
    }

    pub fn four_cc(&self) -> (four_cc: FourCC)
        ensures
            four_cc == self.four_cc,
    {
        self.four_cc
    }

    /// The payload of the chunk.
    pub fn payload(&self) -> (payload: &'a [u8])
        requires
            self.wf(),
        ensures
            payload@ == self.webp.data@.subrange(
                self.payload_start as int,
                self.payload_end as int,
            ),
    {
        slice_subrange(self.webp.data.as_slice(), self.payload_start, self.payload_end)
    }
}

/// Representation of a WEBP image
impl WebP {
    /// The chunks are what a scan of the bytes finds.
    pub open spec fn wf(&self) -> bool {
        webp_chunks(self.data@) == Ok::<Seq<RawChunk>, Error>(self.chunks@)
    }

    /// Every chunk lies inside the file.
    pub proof fn chunks_inside(&self)
        requires
            self.wf(),
            self.data@.len() <= usize::MAX,
        ensures
            forall|i: int|
                0 <= i < self.chunks@.len() ==> inside(
                    #[trigger] self.chunks@[i],
                    self.data@.len() as int,
                ),
    {
        let file_length = u32_at(self.data@, 4, false);
        chunks_from_inside(self.data@, 12, file_length);
        assert forall|i: int| 0 <= i < self.chunks@.len() implies inside(
            #[trigger] self.chunks@[i],
            self.data@.len() as int,
        ) by {
            assert(self.chunks@[i] == chunks_from(self.data@, 12, file_length)->Ok_0[i]);
        }
    }

    /// Returns WEBP image representation
    ///
    /// * `data`: WEBP image data starting with RIFF magic byte
    pub fn new(data: Vec<u8>) -> (webp: Result<WebP, ErrorWithData<Error>>)
        ensures
            match webp_chunks(data@) {
                Ok(chunks) => webp is Ok && webp->Ok_0.data == data && webp->Ok_0.chunks@
                    == chunks && webp->Ok_0.wf(),
                Err(e) => webp is Err && webp->Err_0.err == e && webp->Err_0.data == data,
            },
    {
        match find_chunks(data.as_slice()) {
            Ok(chunks) => Ok(WebP { chunks, data }),
            Err(err) => Err(ErrorWithData::new(err, data)),
        }
    }

    /// Whether the data starts like a WebP file.
    pub fn is_filetype(data: &[u8]) -> (yes: bool)
        ensures
            yes == is_webp(data@),
    {
        data.len() >= 12 && data[0] == 0x52 && data[1] == 0x49 && data[2] == 0x46 && data[3]
            == 0x46 && data[8] == 0x57 && data[9] == 0x45 && data[10] == 0x42 && data[11] == 0x50
    }

    pub fn into_inner(self) -> (data: Vec<u8>)
        ensures
            data == self.data,
    {
        self.data
    }

    /// Get part of the raw data
    pub fn get(&self, start: usize, end: usize) -> (part: Option<&[u8]>)
        ensures
            start <= end <= self.data@.len() ==> part is Some && part->Some_0@
                == self.data@.subrange(start as int, end as int),
            !(start <= end <= self.data@.len()) ==> part is None,
    {
        if start <= end && end <= self.data.len() {
            Some(slice_subrange(self.data.as_slice(), start, end))
        } else {
            None
        }
    }

    /// Returns all chunks
    pub fn chunks(&self) -> (chunks: Vec<Chunk<'_>>)
        requires
            self.wf(),
        ensures
            chunks@.len() == self.chunks@.len(),
            forall|i: int|
                0 <= i < chunks@.len() ==> (#[trigger] chunks@[i]).raw() == self.chunks@[i]
                    && chunks@[i].webp == self && chunks@[i].wf(),
    {
        let n = self.chunks.len();
        assert(self.data@.len() == self.data.len());
        proof {
            self.chunks_inside();
        }
        let mut chunks: Vec<Chunk<'_>> = Vec::new();
        let mut i: usize = 0;
        while i < n
            invariant
                i <= n,
                n == self.chunks@.len(),
                chunks@.len() == i,
                forall|j: int|
                    0 <= j < n ==> inside(#[trigger] self.chunks@[j], self.data@.len() as int),
                forall|j: int|
                    0 <= j < i ==> (#[trigger] chunks@[j]).raw() == self.chunks@[j]
                        && chunks@[j].webp == self && chunks@[j].wf(),
            decreases n - i,
        {
            assert(inside(self.chunks@[i as int], self.data@.len() as int));
            chunks.push(self.chunks[i].chunk(self));
            i += 1;
        }
        chunks
    }

    /// The payload of the first chunk with the given type.
    pub open spec fn payload_of(&self, four_cc: FourCC) -> Option<Seq<u8>> {
        match first_of(self.chunks@, four_cc, self.chunks@.len()) {
            Some(i) => Some(
                self.data@.subrange(
                    self.chunks@[i].payload_start as int,
                    self.chunks@[i].payload_end as int,
                ),
            ),
            None => None,
        }
    }

    /// The payload of the first chunk with the given type.
    pub fn payload(&self, four_cc: FourCC) -> (payload: Option<&[u8]>)
        requires
            self.wf(),
        ensures
            match self.payload_of(four_cc) {
                Some(bytes) => payload is Some && payload->Some_0@ == bytes,
                None => payload is None,
            },
    {
        let n = self.chunks.len();
        assert(self.data@.len() == self.data.len());
        proof {
            self.chunks_inside();
        }
        let mut k: usize = 0;
        while k < n
            invariant
                k <= n,
                n == self.chunks@.len(),
                forall|j: int|
                    0 <= j < n ==> inside(#[trigger] self.chunks@[j], self.data@.len() as int),
                first_of(self.chunks@, four_cc, k as nat) is None,
            decreases n - k,
        {
            let chunk = self.chunks[k];
            if chunk.four_cc == four_cc {
                proof {
                    first_of_found(self.chunks@, four_cc, k as nat, n as nat);
                }
                assert(inside(self.chunks@[k as int], self.data@.len() as int));
                return self.get(chunk.payload_start, chunk.payload_end);
            }
            k += 1;
        }
        None
    }

    /// The Exif data of the file: the payload of its first `EXIF` chunk.
    pub fn exif(&self) -> (exif: Option<&[u8]>)
        requires
            self.wf(),
        ensures
            match self.payload_of(FourCC::EXIF) {
                Some(bytes) => exif is Some && exif->Some_0@ == bytes,
                None => exif is None,
            },
    {
        self.payload(FourCC::EXIF)
    }

    /// The XMP data of the file: the payload of its first `XMP ` chunk.
    pub fn xmp(&self) -> (xmp: Option<&[u8]>)
        requires
            self.wf(),
        ensures
            match self.payload_of(FourCC::XMP) {
                Some(bytes) => xmp is Some && xmp->Some_0@ == bytes,
                None => xmp is None,
            },
    {
        self.payload(FourCC::XMP)
    }
}

} // verus!
