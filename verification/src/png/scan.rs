//! Finding the chunks of a PNG file.
use vstd::prelude::*;
use crate::exif::bytes::{u32_at, u32_from_bytes};
use crate::png::chunk_type::ChunkType;
use crate::png::error::Error;

verus! {

/// Where a chunk lies in the file: the range of its data, which follows
/// four bytes for the length and four for the type, and is followed by the
/// four bytes of its checksum.
#[derive(Debug, Clone, Copy, PartialEq, Eq)]
pub struct RawChunk {
    pub chunk_type: ChunkType,
    pub data_start: usize,
    pub data_end: usize,
    pub crc: [u8; 4],
}

/// Whether the file starts with the eight bytes of a PNG file.
pub open spec fn has_magic(data: Seq<u8>) -> bool {
    &&& data.len() >= 8
    &&& data[0] == 137
    &&& data[1] == 80
    &&& data[2] == 78
    &&& data[3] == 71
    &&& data[4] == 13
    &&& data[5] == 10
    &&& data[6] == 26
    &&& data[7] == 10
}

/// The chunk at `pos`, and the position behind it.
pub open spec fn chunk_at(data: Seq<u8>, pos: int) -> Result<(RawChunk, int), Error> {
    if pos + 8 > data.len() {
        Err(Error::UnexpectedEof)
    } else {
        let length = u32_at(data, pos, true);
        let end = pos + 8 + length;
        if end > usize::MAX {
            Err(Error::PositionTooLarge)
        } else if end + 4 > data.len() {
            Err(Error::UnexpectedEof)
        } else {
            Ok(
                (
                    RawChunk {
                        chunk_type: ChunkType::of_code(u32_at(data, pos + 4, true)),
                        data_start: (pos + 8) as usize,
                        data_end: end as usize,
                        crc: [data[end], data[end + 1], data[end + 2], data[end + 3]],
                    },
                    end + 4,
                ),
            )
        }
    }
}

/// The chunks from `pos` on up to the one that ends the file.
pub open spec fn chunks_from(data: Seq<u8>, pos: int) -> Result<Seq<RawChunk>, Error>
    decreases data.len() - pos,
{
    match chunk_at(data, pos) {
        Err(e) => Err(e),
        Ok((chunk, next)) => if chunk.chunk_type == ChunkType::IEND {
            Ok(seq![chunk])
        } else if pos < 0 {
            Err(Error::UnexpectedEof)
        } else {
            match chunks_from(data, next) {
                Err(e) => Err(e),
                Ok(rest) => Ok(seq![chunk] + rest),
            }
        },
    }
}

/// The chunks of a PNG file.
pub open spec fn png_chunks(data: Seq<u8>) -> Result<Seq<RawChunk>, Error> {
    if data.len() < 8 {
        Err(Error::UnexpectedEof)
    } else if !has_magic(data) {
        Err(
            Error::InvalidMagicBytes(
                [data[0], data[1], data[2], data[3], data[4], data[5], data[6], data[7]],
            ),
        )
    } else {
        chunks_from(data, 8)
    }
}

/// Whether a chunk with its length, type and checksum lies inside a file of
/// `len` bytes.
pub open spec fn inside(chunk: RawChunk, len: int) -> bool {
    8 <= chunk.data_start <= chunk.data_end && chunk.data_end + 4 <= len
}

/// Every chunk that is found lies inside the file.
pub proof fn chunks_from_inside(data: Seq<u8>, pos: int)
    requires
        0 <= pos,
        data.len() <= usize::MAX,
        chunks_from(data, pos) is Ok,
    ensures
        forall|i: int|
            0 <= i < chunks_from(data, pos)->Ok_0.len() ==> inside(
                #[trigger] chunks_from(data, pos)->Ok_0[i],
                data.len() as int,
            ),
    decreases data.len() - pos,
{
    let (chunk, next) = chunk_at(data, pos)->Ok_0;
    assert(inside(chunk, data.len() as int));
    if chunk.chunk_type != ChunkType::IEND {
        chunks_from_inside(data, next);
        let rest = chunks_from(data, next)->Ok_0;
        let all = chunks_from(data, pos)->Ok_0;
        assert(all == seq![chunk] + rest);
        assert forall|i: int| 0 <= i < all.len() implies inside(
            #[trigger] all[i],
            data.len() as int,
        ) by {
            if i > 0 {
                assert(all[i] == rest[i - 1]);
            }
        }
    }
}

/// Reads the chunk at `pos`.
pub fn read_chunk(data: &[u8], pos: usize) -> (chunk: Result<(RawChunk, usize), Error>)
    requires
        pos <= data@.len(),
    ensures
        match chunk_at(data@, pos as int) {
            Ok((raw, next)) => chunk == Ok::<(RawChunk, usize), Error>((raw, next as usize)) && pos
                < next <= data@.len() && inside(raw, data@.len() as int),
            Err(e) => chunk == Err::<(RawChunk, usize), Error>(e),
        },
{
    let total = data.len();
    if total - pos < 8 {
        return Err(Error::UnexpectedEof);
    }
    // First 4 bytes are length
    let length = u32_from_bytes(data[pos], data[pos + 1], data[pos + 2], data[pos + 3], true);
    // Next 4 bytes are chunk type
    let chunk_type = ChunkType::from_u32(
        u32_from_bytes(data[pos + 4], data[pos + 5], data[pos + 6], data[pos + 7], true),
    );
    proof {
        crate::exif::bytes::u32_at_same(
            seq![data@[pos as int], data@[pos + 1], data@[pos + 2], data@[pos + 3]],
            data@,
            0,
            pos as int,
            true,
        );
        crate::exif::bytes::u32_at_same(
            seq![data@[pos + 4], data@[pos + 5], data@[pos + 6], data@[pos + 7]],
            data@,
            0,
            pos + 4,
            true,
        );
    }
    // Next are the data
    let data_start = pos + 8;
    if ((usize::MAX - data_start) as u64) < length as u64 {
        return Err(Error::PositionTooLarge);
    }
    let data_end = data_start + length as usize;
    // Last 4 bytes after the data are a CRC
    if data_end > total || total - data_end < 4 {
        return Err(Error::UnexpectedEof);
    }
    let crc: [u8; 4] = [data[data_end], data[data_end + 1], data[data_end + 2], data[data_end + 3]];
    Ok((RawChunk { chunk_type, data_start, data_end, crc }, data_end + 4))
}

/// List all chunks in the data
pub fn find_chunks(data: &[u8]) -> (chunks: Result<Vec<RawChunk>, Error>)
    ensures
        match png_chunks(data@) {
            Ok(found) => chunks is Ok && chunks->Ok_0@ == found,
            Err(e) => chunks == Err::<Vec<RawChunk>, Error>(e),
        },
{
    if data.len() < 8 {
        return Err(Error::UnexpectedEof);
    }
    if !(data[0] == 137 && data[1] == 80 && data[2] == 78 && data[3] == 71 && data[4] == 13
        && data[5] == 10 && data[6] == 26 && data[7] == 10) {
        let magic: [u8; 8] = [
            data[0],
            data[1],
            data[2],
            data[3],
            data[4],
            data[5],
            data[6],
            data[7],
        ];
        return Err(Error::InvalidMagicBytes(magic));
    }
    let mut chunks: Vec<RawChunk> = Vec::new();
    let ghost goal = png_chunks(data@);
    let mut pos: usize = 8;
    assert(Seq::<RawChunk>::empty() + chunks_from(data@, 8)->Ok_0 =~= chunks_from(data@, 8)->Ok_0);
    loop
        invariant
            8 <= pos <= data@.len() <= usize::MAX,
            goal == png_chunks(data@),
            goal == (match chunks_from(data@, pos as int) {
                Ok(rest) => Ok::<Seq<RawChunk>, Error>(chunks@ + rest),
                Err(e) => Err::<Seq<RawChunk>, Error>(e),
            }),
        decreases data@.len() - pos,
    {
        let (chunk, next) = read_chunk(data, pos)?;
        let ghost before = chunks@;
        chunks.push(chunk);
        if chunk.chunk_type == ChunkType::IEND {
            assert(before + seq![chunk] =~= chunks@);
            return Ok(chunks);
        }
        proof {
            match chunks_from(data@, next as int) {
                Ok(rest) => {
                    assert(before + (seq![chunk] + rest) =~= chunks@ + rest);
                },
                Err(_) => {},
            }
        }
        pos = next;
    }
}

} // verus!
