//! A PNG file as a list of chunks.
use vstd::prelude::*;
use vstd::slice::slice_subrange;
use crate::common::cicp::Cicp;
use crate::common::error::ErrorWithData;
use crate::png::chunk::Chunk;
use crate::png::chunk_type::ChunkType;
use crate::png::error::Error;
use crate::png::scan::{
    chunks_from, chunks_from_inside, find_chunks, inside, png_chunks, RawChunk,
};

verus! {

/// How many bytes a compressed text may decompress to.
pub const DEFAULT_INFLATE_LIMIT: usize = 100_000_000;

/// A PNG file: its bytes and where its chunks lie.
#[derive(Debug)]
pub struct Png {
    /// Raw data
    pub data: Vec<u8>,
    /// Chunks in the order in which they appear in the data
    pub chunks: Vec<RawChunk>,
    pub inflate_limit: usize,
}

/// The first of the first `k` chunks with the given type.
pub open spec fn first_of(chunks: Seq<RawChunk>, chunk_type: ChunkType, k: nat) -> Option<int>
    decreases k,
{
    if k == 0 {
        None
    } else {
        match first_of(chunks, chunk_type, (k - 1) as nat) {
            Some(i) => Some(i),
            None => if chunks[k - 1].chunk_type == chunk_type {
                Some(k - 1)
            } else {
                None
            },
        }
    }
}

/// The last of the first `k` chunks with the given type.
pub open spec fn last_of(chunks: Seq<RawChunk>, chunk_type: ChunkType, k: nat) -> Option<int>
    decreases k,
{
    if k == 0 {
        None
    } else if chunks[k - 1].chunk_type == chunk_type {
        Some(k - 1)
    } else {
        last_of(chunks, chunk_type, (k - 1) as nat)
    }
}

/// The bytes of a whole chunk, from its length to its checksum.
pub open spec fn complete_of(data: Seq<u8>, chunk: RawChunk) -> Seq<u8> {
    data.subrange(chunk.data_start - 8, chunk.data_end + 4)
}

/// The bytes of the chunks of a type among the first `k` chunks.
pub open spec fn all_of(data: Seq<u8>, chunks: Seq<RawChunk>, chunk_type: ChunkType, k: nat) -> Seq<
    u8,
>
    decreases k,
{
    if k == 0 {
        Seq::empty()
    } else if chunks[k - 1].chunk_type == chunk_type {
        all_of(data, chunks, chunk_type, (k - 1) as nat) + complete_of(data, chunks[k - 1])
    } else {
        all_of(data, chunks, chunk_type, (k - 1) as nat)
    }
}

/// The eight bytes that start a PNG file.
pub open spec fn magic() -> Seq<u8> {
    seq![137u8, 80, 78, 71, 13, 10, 26, 10]
}

/// The types of the first `k` chunks with the number of times that each
/// is repeated in a row.
pub open spec fn runs_of(chunks: Seq<RawChunk>, k: nat) -> Seq<(ChunkType, usize)>
    decreases k,
{
    if k == 0 {
        Seq::empty()
    } else {
        let before = runs_of(chunks, (k - 1) as nat);
        if before.len() > 0 && before.last().0 == chunks[k - 1].chunk_type {
            before.update(before.len() - 1, (before.last().0, (before.last().1 + 1) as usize))
        } else {
            before.push((chunks[k - 1].chunk_type, 1usize))
        }
    }
}

/// The first `k` chunks make no more runs than there are chunks, and no
/// run is longer than that.
pub proof fn runs_of_bound(chunks: Seq<RawChunk>, k: nat)
    requires
        k <= usize::MAX,
    ensures
        runs_of(chunks, k).len() <= k,
        forall|i: int| 0 <= i < runs_of(chunks, k).len() ==> 1 <= (#[trigger] runs_of(chunks, k)[i]).1 <= k,
    decreases k,
{
    if k > 0 {
        runs_of_bound(chunks, (k - 1) as nat);
    }
}

/// The XMP data that the first of the first `k` chunks of a file with XMP
/// data holds.
pub open spec fn xmp_among(data: Seq<u8>, chunks: Seq<RawChunk>, limit: usize, k: nat) -> Option<
    Seq<u8>,
>
    decreases k,
{
    if k == 0 {
        None
    } else {
        match xmp_among(data, chunks, limit, (k - 1) as nat) {
            Some(xmp) => Some(xmp),
            None => crate::png::chunk::xmp_in(
                chunks[k - 1].chunk_type,
                crate::png::chunk::data_of(data, chunks[k - 1]),
                limit,
            ),
        }
    }
}

/// The Exif data of a file: the data of its first Exif chunk, then what the
/// first `k` chunks hold in the legacy way, in their order.
pub open spec fn exif_among(data: Seq<u8>, chunks: Seq<RawChunk>, limit: usize, k: nat) -> Seq<
    Seq<u8>,
>
    decreases k,
{
    if k == 0 {
        match first_of(chunks, ChunkType::eXIf, chunks.len()) {
            Some(i) => seq![crate::png::chunk::data_of(data, chunks[i])],
            None => Seq::empty(),
        }
    } else {
        match crate::png::chunk::legacy_exif_in(
            crate::png::chunk::data_of(data, chunks[k - 1]),
            limit,
        ) {
            Some(exif) => exif_among(data, chunks, limit, (k - 1) as nat).push(exif),
            None => exif_among(data, chunks, limit, (k - 1) as nat),
        }
    }
}

impl Png {
    /// The chunks are what a scan of the bytes finds.
    pub open spec fn wf(&self) -> bool {
        png_chunks(self.data@) == Ok::<Seq<RawChunk>, Error>(self.chunks@)
    }

    /// The first chunk with the given type.
    pub open spec fn first(&self, chunk_type: ChunkType) -> Option<int> {
        first_of(self.chunks@, chunk_type, self.chunks@.len())
    }

    /// Returns PNG image representation
    ///
    /// * `data`: PNG image data starting with magic byte
    pub fn new(data: Vec<u8>) -> (png: Result<Png, ErrorWithData<Error>>)
        ensures
            match png_chunks(data@) {
                Ok(chunks) => png is Ok && png->Ok_0.data == data && png->Ok_0.chunks@ == chunks
                    && png->Ok_0.inflate_limit == DEFAULT_INFLATE_LIMIT && png->Ok_0.wf(),
                Err(e) => png is Err && png->Err_0.err == e && png->Err_0.data == data,
            },
    {
        match find_chunks(data.as_slice()) {
            Ok(chunks) => Ok(Png { chunks, data, inflate_limit: DEFAULT_INFLATE_LIMIT }),
            Err(err) => Err(ErrorWithData::new(err, data)),
        }
    }

    /// Convert into raw data
    pub fn into_inner(self) -> (data: Vec<u8>)
        ensures
            data == self.data,
    {
        self.data
    }

    /// Get part of the raw data
    pub fn get(&self, start: usize, end: usize) -> (part: Option<&[u8]>)
        ensures
            start <= end <= self.data@.len() ==> part is Some && part->Some_0@
                == self.data@.subrange(start as int, end as int),
            !(start <= end <= self.data@.len()) ==> part is None,
    {
        if start <= end && end <= self.data.len() {
            Some(slice_subrange(self.data.as_slice(), start, end))
        } else {
            None
        }
    }

    /// Every chunk lies inside the file.
    pub proof fn chunks_inside(&self)
        requires
            self.wf(),
            self.data@.len() <= usize::MAX,
        ensures
            forall|i: int|
                0 <= i < self.chunks@.len() ==> inside(
                    #[trigger] self.chunks@[i],
                    self.data@.len() as int,
                ),
    {
        chunks_from_inside(self.data@, 8);
        assert forall|i: int| 0 <= i < self.chunks@.len() implies inside(
            #[trigger] self.chunks@[i],
            self.data@.len() as int,
        ) by {
            assert(self.chunks@[i] == chunks_from(self.data@, 8)->Ok_0[i]);
        }
    }

    /// Returns all chunks
    pub fn chunks(&self) -> (chunks: Vec<Chunk<'_>>)
        requires
            self.wf(),
        ensures
            chunks@.len() == self.chunks@.len(),
            forall|i: int|
                0 <= i < chunks@.len() ==> (#[trigger] chunks@[i]).raw() == self.chunks@[i]
                    && chunks@[i].png == self && chunks@[i].wf(),
    {
        let n = self.chunks.len();
        assert(self.data@.len() == self.data.len());
        proof {
            self.chunks_inside();
        }
        let mut chunks: Vec<Chunk<'_>> = Vec::new();
        let mut i: usize = 0;
        while i < n
            invariant
                i <= n,
                n == self.chunks@.len(),
                chunks@.len() == i,
                forall|j: int|
                    0 <= j < n ==> inside(#[trigger] self.chunks@[j], self.data@.len() as int),
                forall|j: int|
                    0 <= j < i ==> (#[trigger] chunks@[j]).raw() == self.chunks@[j] && chunks@[j].png
                        == self && chunks@[j].wf(),
            decreases n - i,
        {
            assert(inside(self.chunks@[i as int], self.data@.len() as int));
            chunks.push(self.chunks[i].chunk(self));
            i += 1;
        }
        chunks
    }

    /// The first chunk with the given type.
    pub fn find(&self, chunk_type: ChunkType) -> (found: Option<usize>)
        ensures
            match self.first(chunk_type) {
                Some(i) => found is Some && found->Some_0 == i && 0 <= i < self.chunks@.len()
                    && self.chunks@[i].chunk_type == chunk_type,
                None => found is None,
            },
    {
        let n = self.chunks.len();
        let mut k: usize = 0;
        while k < n
            invariant
                k <= n,
                n == self.chunks@.len(),
                first_of(self.chunks@, chunk_type, k as nat) is None,
            decreases n - k,
        {
            if self.chunks[k].chunk_type == chunk_type {
                proof {
                    first_of_found(self.chunks@, chunk_type, k as nat, n as nat);
                }
                return Some(k);
            }
            k += 1;
        }
        None
    }

    /// The bytes of the file without the given chunk.
    pub open spec fn without(&self, chunk: RawChunk) -> Seq<u8> {
        self.data@.subrange(0, chunk.data_start - 8) + self.data@.subrange(
            chunk.data_end + 4,
            self.data@.len() as int,
        )
    }

    /// Removes a chunk, which must lie inside the file. Where what is left
    /// is no PNG file, nothing changes.
    pub fn remove_chunk(&mut self, chunk: RawChunk) -> (done: Result<(), Error>)
        requires
            old(self).wf(),
            inside(chunk, old(self).data@.len() as int),
        ensures
            match png_chunks(old(self).without(chunk)) {
                Ok(chunks) => done is Ok && final(self).data@ == old(self).without(chunk) && final(self).chunks@ == chunks,
                Err(e) => done == Err::<(), Error>(e) && *final(self) == *old(self),
            },
            final(self).inflate_limit == old(self).inflate_limit,
            final(self).wf(),
    {
        let total = self.data.len();
        let range = chunk.complete_data();
        let mut data = copy_of(slice_subrange(self.data.as_slice(), 0, range.0));
        let mut tail = copy_of(slice_subrange(self.data.as_slice(), range.1, total));
        data.append(&mut tail);
        let chunks = find_chunks(data.as_slice())?;
        self.data = data;
        self.chunks = chunks;
        Ok(())
    }

    /// The bytes of the file with a new chunk before the first chunk of
    /// image data.
    pub open spec fn with_before_idat(&self, chunk: NewChunk) -> Result<Seq<u8>, Error> {
        let bytes = chunk.bytes();
        match self.first(ChunkType::IDAT) {
            None => Err(Error::NoIdatChunk),
            Some(i) => if chunk.data@.len() > u32::MAX {
                Err(Error::PositionTooLarge)
            } else {
                Ok(
                self.data@.subrange(0, self.chunks@[i].data_start - 8) + bytes
                    + self.data@.subrange(
                    self.chunks@[i].data_start - 8,
                    self.data@.len() as int,
                ),
                )
            },
        }
    }

    /// Insert chunk before first `IDAT` chunk
    ///
    /// Where the file has no such chunk, or what comes out is no PNG file,
    /// nothing changes.
    pub fn insert_chunk(&mut self, chunk: NewChunk) -> (done: Result<(), Error>)
        requires
            old(self).wf(),
        ensures
            match old(self).with_before_idat(chunk) {
                Err(e) => done == Err::<(), Error>(e) && *final(self) == *old(self),
                Ok(bytes) => match png_chunks(bytes) {
                    Ok(chunks) => done is Ok && final(self).data@ == bytes && final(self).chunks@
                        == chunks,
                    Err(e) => done == Err::<(), Error>(e) && *final(self) == *old(self),
                },
            },
            final(self).inflate_limit == old(self).inflate_limit,
            final(self).wf(),
    {
        let total = self.data.len();
        proof {
            self.chunks_inside();
        }
        let first_idat = match self.find(ChunkType::IDAT) {
            Some(i) => self.chunks[i].data_start - 8,
            None => {
                return Err(Error::NoIdatChunk);
            },
        };
        if chunk.data.len() > u32::MAX as usize {
            return Err(Error::PositionTooLarge);
        }
        let mut data = copy_of(slice_subrange(self.data.as_slice(), 0, first_idat));
        let mut middle = chunk.to_bytes();
        data.append(&mut middle);
        let mut tail = copy_of(slice_subrange(self.data.as_slice(), first_idat, total));
        data.append(&mut tail);
        let chunks = find_chunks(data.as_slice())?;
        self.data = data;
        self.chunks = chunks;
        Ok(())
    }

    /// What stands for one chunk of this file when its image data is taken
    /// from `other`: for the header the header of `other`; nothing for
    /// Apple's `iDOT`, which depends on the image data; for the last chunk of
    /// image data all the image data of `other`, and nothing for the other
    /// ones; every other chunk as it is.
    pub open spec fn replacement(&self, other: &Png, i: int, last_idat: int) -> Result<
        Seq<u8>,
        Error,
    > {
        let chunk = self.chunks@[i];
        if chunk.chunk_type == ChunkType::IHDR {
            match other.first(ChunkType::IHDR) {
                Some(j) => Ok(complete_of(other.data@, other.chunks@[j])),
                None => Err(Error::NoIhdrChunk),
            }
        } else if chunk.chunk_type == ChunkType::iDOT {
            Ok(Seq::empty())
        } else if chunk.chunk_type == ChunkType::IDAT {
            if chunk.data_start == self.chunks@[last_idat].data_start && chunk.data_end
                == self.chunks@[last_idat].data_end {
                Ok(all_of(other.data@, other.chunks@, ChunkType::IDAT, other.chunks@.len()))
            } else {
                Ok(Seq::empty())
            }
        } else {
            Ok(complete_of(self.data@, chunk))
        }
    }

    /// The file that the first `k` chunks of this one make with the image
    /// data of `other`.
    pub open spec fn rebuilt(&self, other: &Png, last_idat: int, k: nat) -> Result<Seq<u8>, Error>
        decreases k,
    {
        if k == 0 {
            Ok(magic())
        } else {
            match self.rebuilt(other, last_idat, (k - 1) as nat) {
                Err(e) => Err(e),
                Ok(bytes) => match self.replacement(other, k - 1, last_idat) {
                    Err(e) => Err(e),
                    Ok(more) => Ok(bytes + more),
                },
            }
        }
    }

    /// This file with the image data of `other`.
    pub open spec fn with_image_data(&self, other: &Png) -> Result<Seq<u8>, Error> {
        match last_of(self.chunks@, ChunkType::IDAT, self.chunks@.len()) {
            None => Err(Error::NoIdatChunk),
            Some(last_idat) => self.rebuilt(other, last_idat, self.chunks@.len()),
        }
    }

    /// The last chunk with the given type.
    pub fn find_last(&self, chunk_type: ChunkType) -> (found: Option<usize>)
        ensures
            match last_of(self.chunks@, chunk_type, self.chunks@.len()) {
                Some(i) => found is Some && found->Some_0 == i && 0 <= i < self.chunks@.len(),
                None => found is None,
            },
    {
        let n = self.chunks.len();
        let mut found: Option<usize> = None;
        let mut k: usize = 0;
        while k < n
            invariant
                k <= n,
                n == self.chunks@.len(),
                match last_of(self.chunks@, chunk_type, k as nat) {
                    Some(i) => found is Some && found->Some_0 == i && 0 <= i < k,
                    None => found is None,
                },
            decreases n - k,
        {
            if self.chunks[k].chunk_type == chunk_type {
                found = Some(k);
            }
            k += 1;
        }
        found
    }

    /// The bytes of the chunks of a type, one after the other.
    pub fn all_chunks(&self, chunk_type: ChunkType) -> (bytes: Vec<u8>)
        requires
            self.wf(),
        ensures
            bytes@ == all_of(self.data@, self.chunks@, chunk_type, self.chunks@.len()),
    {
        let total = self.data.len();
        proof {
            self.chunks_inside();
        }
        let n = self.chunks.len();
        let mut bytes: Vec<u8> = Vec::new();
        let mut k: usize = 0;
        while k < n
            invariant
                k <= n,
                n == self.chunks@.len(),
                total == self.data@.len(),
                forall|j: int|
                    0 <= j < n ==> inside(#[trigger] self.chunks@[j], self.data@.len() as int),
                bytes@ == all_of(self.data@, self.chunks@, chunk_type, k as nat),
            decreases n - k,
        {
            let chunk = self.chunks[k];
            assert(inside(self.chunks@[k as int], self.data@.len() as int));
            if chunk.chunk_type == chunk_type {
                let mut more = copy_of(
                    slice_subrange(self.data.as_slice(), chunk.data_start - 8, chunk.data_end + 4),
                );
                bytes.append(&mut more);
            }
            k += 1;
        }
        bytes
    }

    /// Replaces this PNG's image data with those from another
    ///
    /// Keeps all the metadata from this image but replaces the `IHDR` and
    /// `IDAT` chunks with the ones from `other`. Where that fails, nothing
    /// changes.
    #[verifier::loop_isolation(false)]
    pub fn replace_image_data(&mut self, other: &Png) -> (done: Result<(), Error>)
        requires
            old(self).wf(),
            other.wf(),
        ensures
            match old(self).with_image_data(other) {
                Err(e) => done == Err::<(), Error>(e) && *final(self) == *old(self),
                Ok(bytes) => match png_chunks(bytes) {
                    Ok(chunks) => done is Ok && final(self).data@ == bytes && final(self).chunks@
                        == chunks,
                    Err(e) => done == Err::<(), Error>(e) && *final(self) == *old(self),
                },
            },
            final(self).inflate_limit == old(self).inflate_limit,
            final(self).wf(),
    {
        assert(self.data@.len() == self.data.len());
        assert(other.data@.len() == other.data.len());
        proof {
            self.chunks_inside();
            other.chunks_inside();
        }
        let last_idat = match self.find_last(ChunkType::IDAT) {
            Some(i) => self.chunks[i],
            None => {
                return Err(Error::NoIdatChunk);
            },
        };
        let ghost last = last_of(self.chunks@, ChunkType::IDAT, self.chunks@.len())->Some_0;
        let mut buf: Vec<u8> = Vec::new();
        buf.push(137);
        buf.push(80);
        buf.push(78);
        buf.push(71);
        buf.push(13);
        buf.push(10);
        buf.push(26);
        buf.push(10);
        assert(buf@ =~= magic());
        let n = self.chunks.len();
        let mut k: usize = 0;
        while k < n
            invariant
                k <= n,
                n == self.chunks@.len(),
                *self == *old(self),
                self.rebuilt(other, last, k as nat) == Ok::<Seq<u8>, Error>(buf@),
            decreases n - k,
        {
            let chunk = self.chunks[k];
            assert(inside(self.chunks@[k as int], self.data@.len() as int));
            if chunk.chunk_type == ChunkType::IHDR {
                match other.find(ChunkType::IHDR) {
                    None => {
                        proof {
                            rebuilt_fail(self, other, last, k as nat, n as nat);
                        }
                        return Err(Error::NoIhdrChunk);
                    },
                    Some(j) => {
                        let new_header = other.chunks[j];
                        assert(inside(other.chunks@[j as int], other.data@.len() as int));
                        let mut more = copy_of(
                            slice_subrange(
                                other.data.as_slice(),
                                new_header.data_start - 8,
                                new_header.data_end + 4,
                            ),
                        );
                        buf.append(&mut more);
                    },
                }
            } else if chunk.chunk_type == ChunkType::iDOT {
                // Drop apples proprietary iDOT chunk since it depends on
                // the IDAT data and IHDR and we neither know how to rewrite
                // nor do we care.
                assert(buf@ + Seq::<u8>::empty() =~= buf@);
            } else if chunk.chunk_type == ChunkType::IDAT {
                if chunk.data_start == last_idat.data_start && chunk.data_end
                    == last_idat.data_end {
                    let mut more = other.all_chunks(ChunkType::IDAT);
                    buf.append(&mut more);
                } else {
                    assert(buf@ + Seq::<u8>::empty() =~= buf@);
                }
            } else {
                let mut more = copy_of(
                    slice_subrange(self.data.as_slice(), chunk.data_start - 8, chunk.data_end + 4),
                );
                buf.append(&mut more);
            }
            k += 1;
        }
        let chunks = find_chunks(buf.as_slice())?;
        self.chunks = chunks;
        self.data = buf;
        Ok(())
    }

    /// The XMP data of the file: what the first international text chunk
    /// with XMP data holds.
    pub open spec fn xmp_of(&self, k: nat) -> Option<Seq<u8>> {
        xmp_among(self.data@, self.chunks@, self.inflate_limit, k)
    }

    /// Returns raw XMP data if available: what the first chunk with XMP data
    /// holds.
    pub fn xmp(&self) -> (xmp: Vec<Vec<u8>>)
        requires
            self.wf(),
        ensures
            match self.xmp_of(self.chunks@.len()) {
                Some(bytes) => xmp@.len() == 1 && xmp@[0]@ == bytes,
                None => xmp@.len() == 0,
            },
    {
        assert(self.data@.len() == self.data.len());
        proof {
            self.chunks_inside();
        }
        let mut result: Vec<Vec<u8>> = Vec::new();
        let n = self.chunks.len();
        let mut k: usize = 0;
        while k < n
            invariant
                k <= n,
                n == self.chunks@.len(),
                forall|j: int|
                    0 <= j < n ==> inside(#[trigger] self.chunks@[j], self.data@.len() as int),
                result@.len() == 0,
                self.xmp_of(k as nat) is None,
            decreases n - k,
        {
            assert(inside(self.chunks@[k as int], self.data@.len() as int));
            let chunk = self.chunks[k].chunk(self);
            if let Some(xmp) = chunk.xmp(self.inflate_limit) {
                result.push(xmp);
                proof {
                    xmp_of_found(self, k as nat, n as nat);
                }
                return result;
            }
            k += 1;
        }
        result
    }

    /// The keywords and texts of the first `k` chunks, as far as they hold
    /// text.
    pub open spec fn key_values(&self, k: nat) -> Seq<(Seq<char>, Seq<char>)>
        decreases k,
    {
        if k == 0 {
            Seq::empty()
        } else {
            let chunk = Chunk {
                chunk_type: self.chunks@[k - 1].chunk_type,
                data_start: self.chunks@[k - 1].data_start,
                data_end: self.chunks@[k - 1].data_end,
                crc: self.chunks@[k - 1].crc,
                png: self,
            };
            match chunk.textual_of(1232896) {
                Ok((keyword, text)) => self.key_values((k - 1) as nat).push(
                    (crate::exif::lookup::utf8_lossy(keyword), crate::png::chunk::latin1(text)),
                ),
                Err(_) => self.key_values((k - 1) as nat),
            }
        }
    }

    /// The keywords and the texts of the text chunks, in the order of the
    /// chunks; the texts are read as Latin-1.
    pub fn key_value(&self) -> (pairs: Vec<(String, String)>)
        requires
            self.wf(),
        ensures
            pairs@.len() == self.key_values(self.chunks@.len()).len(),
            forall|i: int|
                0 <= i < pairs@.len() ==> (#[trigger] pairs@[i]).0@ == self.key_values(
                    self.chunks@.len(),
                )[i].0 && pairs@[i].1@ == self.key_values(self.chunks@.len())[i].1,
    {
        assert(self.data@.len() == self.data.len());
        proof {
            self.chunks_inside();
        }
        let mut pairs: Vec<(String, String)> = Vec::new();
        let n = self.chunks.len();
        let mut k: usize = 0;
        while k < n
            invariant
                k <= n,
                n == self.chunks@.len(),
                forall|j: int|
                    0 <= j < n ==> inside(#[trigger] self.chunks@[j], self.data@.len() as int),
                pairs@.len() == self.key_values(k as nat).len(),
                forall|i: int|
                    0 <= i < pairs@.len() ==> (#[trigger] pairs@[i]).0@ == self.key_values(
                        k as nat,
                    )[i].0 && pairs@[i].1@ == self.key_values(k as nat)[i].1,
            decreases n - k,
        {
            assert(inside(self.chunks@[k as int], self.data@.len() as int));
            let chunk = self.chunks[k].chunk(self);
            if let Ok((key, value)) = chunk.textual(1024 * 1204) {
                pairs.push(
                    (
                        crate::exif::lookup::decode_utf8_lossy(key),
                        crate::png::chunk::latin1_text(value.as_slice()),
                    ),
                );
            }
            k += 1;
        }
        pairs
    }

    /// The types of the chunks in their order, each with the number of
    /// times that it is repeated in a row.
    pub fn chunk_runs(&self) -> (runs: Vec<(ChunkType, usize)>)
        ensures
            runs@ == runs_of(self.chunks@, self.chunks@.len()),
    {
        let mut runs: Vec<(ChunkType, usize)> = Vec::new();
        let n = self.chunks.len();
        let mut k: usize = 0;
        while k < n
            invariant
                k <= n,
                n == self.chunks@.len(),
                runs@ == runs_of(self.chunks@, k as nat),
            decreases n - k,
        {
            proof {
                runs_of_bound(self.chunks@, k as nat);
            }
            let chunk_type = self.chunks[k].chunk_type;
            let m = runs.len();
            if m > 0 && runs[m - 1].0 == chunk_type {
                let count = runs[m - 1].1;
                runs[m - 1] = (chunk_type, count + 1);
            } else {
                runs.push((chunk_type, 1));
            }
            k += 1;
        }
        runs
    }

    /// The code points in the first chunk that holds some, if its first four
    /// bytes are valid ones.
    pub open spec fn spec_cicp(&self) -> Option<Cicp> {
        match self.first(ChunkType::cICP) {
            None => None,
            Some(i) => {
                let data = crate::png::chunk::data_of(self.data@, self.chunks@[i]);
                if data.len() < 4 {
                    None
                } else {
                    match Cicp::of_bytes(data.subrange(0, 4)) {
                        Ok(cicp) => Some(cicp),
                        Err(_) => None,
                    }
                }
            },
        }
    }

    /// The coding-independent code points of the image.
    pub fn cicp(&self) -> (cicp: Option<Cicp>)
        requires
            self.wf(),
        ensures
            cicp == self.spec_cicp(),
    {
        assert(self.data@.len() == self.data.len());
        proof {
            self.chunks_inside();
        }
        let i = self.find(ChunkType::cICP)?;
        let chunk = self.chunks[i];
        if chunk.data_end - chunk.data_start < 4 {
            return None;
        }
        let at = chunk.data_start;
        let bytes: [u8; 4] = [
            self.data[at],
            self.data[at + 1],
            self.data[at + 2],
            self.data[at + 3],
        ];
        assert(bytes@ =~= crate::png::chunk::data_of(self.data@, self.chunks@[i as int]).subrange(
            0,
            4,
        ));
        match Cicp::from_bytes(&bytes) {
            Ok(cicp) => Some(cicp),
            Err(_) => None,
        }
    }

    /// Returns raw exif data if available
    ///
    /// First the data of the first [`eXIf`](ChunkType::eXIf) chunk, if there
    /// is one; then what the chunks hold in the legacy way, in their order.
    pub fn exif(&self) -> (exif: Vec<Vec<u8>>)
        requires
            self.wf(),
        ensures
            exif@.len() == self.exif_of(self.chunks@.len()).len(),
            forall|i: int|
                0 <= i < exif@.len() ==> (#[trigger] exif@[i])@ == self.exif_of(
                    self.chunks@.len(),
                )[i],
    {
        assert(self.data@.len() == self.data.len());
        proof {
            self.chunks_inside();
        }
        let mut result: Vec<Vec<u8>> = Vec::new();
        if let Some(i) = self.find(ChunkType::eXIf) {
            let chunk = self.chunks[i];
            result.push(copy_of(slice_subrange(self.data.as_slice(), chunk.data_start, chunk.data_end)));
        }
        let n = self.chunks.len();
        let mut k: usize = 0;
        while k < n
            invariant
                k <= n,
                n == self.chunks@.len(),
                forall|j: int|
                    0 <= j < n ==> inside(#[trigger] self.chunks@[j], self.data@.len() as int),
                result@.len() == self.exif_of(k as nat).len(),
                forall|i: int|
                    0 <= i < result@.len() ==> (#[trigger] result@[i])@ == self.exif_of(k as nat)[i],
            decreases n - k,
        {
            assert(inside(self.chunks@[k as int], self.data@.len() as int));
            let chunk = self.chunks[k].chunk(self);
            if let Some(exif) = chunk.legacy_exif(self.inflate_limit) {
                result.push(exif);
            }
            k += 1;
        }
        result
    }

    /// The Exif data of the file as far as the first `k` chunks hold it in
    /// the legacy way, behind that of the first Exif chunk.
    pub open spec fn exif_of(&self, k: nat) -> Seq<Seq<u8>> {
        exif_among(self.data@, self.chunks@, self.inflate_limit, k)
    }
}

impl crate::common::image::ImageFormat for Png {
    fn is_filetype(data: &[u8]) -> (yes: bool)
        ensures
            yes == crate::png::scan::has_magic(data@),
    {
        data.len() >= 8 && data[0] == 137 && data[1] == 80 && data[2] == 78 && data[3] == 71
            && data[4] == 13 && data[5] == 10 && data[6] == 26 && data[7] == 10
    }
}

impl crate::common::image::ImageMetadata for Png {
    open spec fn valid(&self) -> bool {
        self.wf()
    }

    fn cicp(&self) -> (cicp: Option<Cicp>)
        ensures
            cicp == self.spec_cicp(),
    {
        Png::cicp(self)
    }

    fn exif(&self) -> (exif: Vec<Vec<u8>>)
        ensures
            exif@.len() == self.exif_of(self.chunks@.len()).len(),
            forall|i: int|
                0 <= i < exif@.len() ==> (#[trigger] exif@[i])@ == self.exif_of(
                    self.chunks@.len(),
                )[i],
    {
        Png::exif(self)
    }

    fn xmp(&self) -> (xmp: Vec<Vec<u8>>)
        ensures
            match self.xmp_of(self.chunks@.len()) {
                Some(bytes) => xmp@.len() == 1 && xmp@[0]@ == bytes,
                None => xmp@.len() == 0,
            },
    {
        Png::xmp(self)
    }
}

impl crate::common::image::ImageComplete for Png {

}

/// A chunk that is to be written into a file.
#[derive(Debug, Clone)]
pub struct NewChunk {
    pub chunk_type: ChunkType,
    pub data: Vec<u8>,
}

/// The checksum after one more bit.
pub open spec fn crc_bit(crc: u32) -> u32 {
    if crc & 1 == 1 {
        (crc >> 1) ^ 0xEDB88320
    } else {
        crc >> 1
    }
}

/// The running checksum after one more byte.
pub open spec fn crc_byte(crc: u32, byte: u8) -> u32 {
    crc_bit(crc_bit(crc_bit(crc_bit(crc_bit(crc_bit(crc_bit(crc_bit(crc ^ (byte as u32)))))))))
}

/// The running checksum after the first `k` bytes.
pub open spec fn crc_run(data: Seq<u8>, k: nat) -> u32
    decreases k,
{
    if k == 0 {
        0xFFFFFFFF
    } else {
        crc_byte(crc_run(data, (k - 1) as nat), data[k - 1])
    }
}

/// The CRC-32 checksum of PNG.
pub open spec fn crc32(data: Seq<u8>) -> u32 {
    crc_run(data, data.len()) ^ 0xFFFFFFFF
}

/// The checksum after one more bit.
pub fn crc_step(crc: u32) -> (next: u32)
    ensures
        next == crc_bit(crc),
{
    if crc & 1 == 1 {
        (crc >> 1) ^ 0xEDB88320
    } else {
        crc >> 1
    }
}

/// The CRC-32 checksum of PNG.
pub fn checksum(data: &[u8]) -> (crc: u32)
    ensures
        crc == crc32(data@),
{
    let mut crc: u32 = 0xFFFFFFFF;
    let mut k: usize = 0;
    while k < data.len()
        invariant
            k <= data@.len(),
            crc == crc_run(data@, k as nat),
        decreases data@.len() - k,
    {
        let mut c = crc ^ (data[k] as u32);
        c = crc_step(c);
        c = crc_step(c);
        c = crc_step(c);
        c = crc_step(c);
        c = crc_step(c);
        c = crc_step(c);
        c = crc_step(c);
        c = crc_step(c);
        crc = c;
        k += 1;
    }
    crc ^ 0xFFFFFFFF
}

/// A copy of some bytes.
pub fn copy_of(bytes: &[u8]) -> (copy: Vec<u8>)
    ensures
        copy@ == bytes@,
{
    vstd::slice::slice_to_vec(bytes)
}

impl NewChunk {
    pub fn new(chunk_type: ChunkType, data: Vec<u8>) -> (chunk: NewChunk)
        ensures
            chunk.chunk_type == chunk_type,
            chunk.data == data,
    {
        NewChunk { chunk_type, data }
    }

    /// The type and the data of the chunk, over which the checksum goes.
    pub open spec fn body(&self) -> Seq<u8> {
        crate::exif::bytes::u32_bytes(self.chunk_type.code(), true) + self.data@
    }

    /// The bytes of the chunk: the length of the data, the type, the data
    /// and the checksum of type and data; the numbers are big-endian.
    pub open spec fn bytes(&self) -> Seq<u8> {
        crate::exif::bytes::u32_bytes(self.data@.len() as u32, true) + self.body()
            + crate::exif::bytes::u32_bytes(crc32(self.body()), true)
    }

    /// The bytes of the chunk.
    pub fn to_bytes(&self) -> (bytes: Vec<u8>)
        requires
            self.data@.len() <= u32::MAX,
        ensures
            bytes@ == self.bytes(),
    {
        let mut body = copy_of(self.chunk_type.bytes().as_slice());
        let mut data = copy_of(self.data.as_slice());
        body.append(&mut data);
        let crc = checksum(body.as_slice());
        let mut bytes = copy_of(
            crate::exif::bytes::u32_to_bytes(self.data.len() as u32, true).as_slice(),
        );
        bytes.append(&mut body);
        let mut tail = copy_of(crate::exif::bytes::u32_to_bytes(crc, true).as_slice());
        bytes.append(&mut tail);
        bytes
    }
}

/// The first chunk of a type stays the first as more chunks are looked at.
pub proof fn first_of_found(chunks: Seq<RawChunk>, chunk_type: ChunkType, k: nat, n: nat)
    requires
        k < n,
        first_of(chunks, chunk_type, k) is None,
        chunks[k as int].chunk_type == chunk_type,
    ensures
        first_of(chunks, chunk_type, n) == Some(k as int),
    decreases n,
{
    if n - 1 > k {
        first_of_found(chunks, chunk_type, k, (n - 1) as nat);
    }
}

/// Where the first `k` chunks can be replaced and the next one cannot,
/// rebuilding the file fails in the same way.
pub proof fn rebuilt_fail(png: &Png, other: &Png, last_idat: int, k: nat, n: nat)
    requires
        k < n,
        png.rebuilt(other, last_idat, k) is Ok,
        png.replacement(other, k as int, last_idat) is Err,
    ensures
        png.rebuilt(other, last_idat, n) == Err::<Seq<u8>, Error>(
            png.replacement(other, k as int, last_idat)->Err_0,
        ),
    decreases n,
{
    if n - 1 > k {
        rebuilt_fail(png, other, last_idat, k, (n - 1) as nat);
    }
}

/// The first XMP data stays the first as more chunks are looked at.
pub proof fn xmp_of_found(png: &Png, k: nat, n: nat)
    requires
        k < n,
        png.xmp_of(k) is None,
        png.xmp_of((k + 1) as nat) is Some,
    ensures
        png.xmp_of(n) == png.xmp_of((k + 1) as nat),
    decreases n,
{
    if n - 1 > k {
        xmp_of_found(png, k, (n - 1) as nat);
    }
}

} // verus!
