//! Finding the segments of a JPEG file.
use vstd::prelude::*;
use crate::jpeg::error::Error;
use crate::jpeg::marker::Marker;

verus! {

/// The byte that starts every marker.
pub const MARKER_START: u8 = 0xFF;

/// Where a segment lies in the file: its marker and the range of its data,
/// which follows the marker and the two bytes of the length.
#[derive(Debug, Clone, Copy, PartialEq, Eq, Structural)]
pub struct RawSegment {
    pub marker: Marker,
    pub data_start: usize,
    pub data_end: usize,
}

/// The marker at `pos`, where one must stand, and the position behind it.
pub open spec fn marker_at(data: Seq<u8>, pos: int) -> Result<(u8, int), Error> {
    if pos >= data.len() {
        Err(Error::UnexpectedEof)
    } else if data[pos] != 0xFF {
        Err(Error::ExpectedMarkerStart(data[pos]))
    } else if pos + 1 >= data.len() {
        Err(Error::UnexpectedEof)
    } else {
        Ok((data[pos + 1], pos + 2))
    }
}

/// The next marker at or behind `pos` in the data of a scan, and the
/// position behind it: the byte after the first `0xFF` that is not followed
/// by a zero byte.
pub open spec fn marker_after(data: Seq<u8>, pos: int) -> Result<(u8, int), Error>
    decreases data.len() - pos,
{
    if pos < 0 || pos >= data.len() {
        Err(Error::UnexpectedEof)
    } else if data[pos] != 0xFF {
        marker_after(data, pos + 1)
    } else if pos + 1 >= data.len() {
        Err(Error::UnexpectedEof)
    } else if data[pos + 1] == 0 {
        marker_after(data, pos + 2)
    } else {
        Ok((data[pos + 1], pos + 2))
    }
}

/// The segment with the marker `code` whose length field, if it has one,
/// lies at `len_start`, and the position behind the segment.
///
/// A segment that consists of its marker alone has no data. Every other
/// one has a length of two bytes, high byte first, that counts itself and
/// the data. The segment must lie inside the file.
pub open spec fn segment_at(data: Seq<u8>, code: u8, len_start: int) -> Result<
    (RawSegment, int),
    Error,
> {
    let marker = Marker::of_code(code);
    if marker.spec_is_standalone() {
        Ok((RawSegment { marker, data_start: len_start as usize, data_end: len_start as usize }, len_start))
    } else if len_start + 2 > data.len() {
        Err(Error::UnexpectedEof)
    } else {
        let len = data[len_start] * 256 + data[len_start + 1];
        if len < 2 || len_start + len > data.len() {
            Err(Error::UnexpectedEof)
        } else {
            Ok(
                (
                    RawSegment {
                        marker,
                        data_start: (len_start + 2) as usize,
                        data_end: (len_start + len) as usize,
                    },
                    len_start + len,
                ),
            )
        }
    }
}

/// The segments from `pos` on up to the end of the image; `sos` tells
/// whether a scan has started, after which the markers have to be searched
/// in the data of the scan.
pub open spec fn segments_from(data: Seq<u8>, pos: int, sos: bool) -> Result<Seq<RawSegment>, Error>
    decreases data.len() - pos,
{
    let found = if sos {
        marker_after(data, pos)
    } else {
        marker_at(data, pos)
    };
    match found {
        Err(e) => Err(e),
        Ok((code, len_start)) => match segment_at(data, code, len_start) {
            Err(e) => Err(e),
            Ok((segment, next)) => if segment.marker == Marker::EOI {
                Ok(seq![segment])
            } else if next <= pos || next > data.len() {
                Err(Error::UnexpectedEof)
            } else {
                match segments_from(data, next, sos || segment.marker == Marker::SOS) {
                    Err(e) => Err(e),
                    Ok(rest) => Ok(seq![segment] + rest),
                }
            },
        },
    }
}

/// The segments of a JPEG file, from the start of the image to its end.
pub open spec fn scanned(data: Seq<u8>) -> Result<Seq<RawSegment>, Error> {
    if data.len() < 2 {
        Err(Error::UnexpectedEof)
    } else if data.len() < 3 || data[0] != 0xFF || data[1] != 0xD8 || data[2] != 0xFF {
        Err(Error::InvalidMagicBytes([data[0], data[1]]))
    } else {
        match segments_from(data, 2, false) {
            Err(e) => Err(e),
            Ok(rest) => Ok(
                seq![RawSegment { marker: Marker::SOI, data_start: 2, data_end: 2 }] + rest,
            ),
        }
    }
}

/// Whether a segment lies inside a file of `len` bytes.
pub open spec fn inside(segment: RawSegment, len: int) -> bool {
    segment.data_start <= segment.data_end <= len
}

/// The marker found in the data of a scan lies behind where the search
/// began.
pub proof fn marker_after_advances(data: Seq<u8>, pos: int)
    requires
        marker_after(data, pos) is Ok,
    ensures
        pos + 2 <= marker_after(data, pos)->Ok_0.1 <= data.len(),
    decreases data.len() - pos,
{
    if pos >= 0 && pos < data.len() {
        if data[pos] != 0xFF {
            marker_after_advances(data, pos + 1);
        } else if pos + 1 < data.len() && data[pos + 1] == 0 {
            marker_after_advances(data, pos + 2);
        }
    }
}

/// Every segment that a scan finds lies inside the file.
pub proof fn segments_from_inside(data: Seq<u8>, pos: int, sos: bool)
    requires
        0 <= pos,
        data.len() <= usize::MAX,
        segments_from(data, pos, sos) is Ok,
    ensures
        forall|i: int|
            0 <= i < segments_from(data, pos, sos)->Ok_0.len() ==> inside(
                #[trigger] segments_from(data, pos, sos)->Ok_0[i],
                data.len() as int,
            ),
    decreases data.len() - pos,
{
    let found = if sos {
        marker_after(data, pos)
    } else {
        marker_at(data, pos)
    };
    if sos {
        marker_after_advances(data, pos);
    }
    let (code, len_start) = found->Ok_0;
    let (segment, next) = segment_at(data, code, len_start)->Ok_0;
    assert(inside(segment, data.len() as int));
    if segment.marker != Marker::EOI {
        segments_from_inside(data, next, sos || segment.marker == Marker::SOS);
        let rest = segments_from(data, next, sos || segment.marker == Marker::SOS)->Ok_0;
        let all = segments_from(data, pos, sos)->Ok_0;
        assert(all == seq![segment] + rest);
        assert forall|i: int| 0 <= i < all.len() implies inside(
            #[trigger] all[i],
            data.len() as int,
        ) by {
            if i > 0 {
                assert(all[i] == rest[i - 1]);
            }
        }
    }
}

/// Every segment of a file lies inside the file.
pub proof fn scanned_inside(data: Seq<u8>)
    requires
        data.len() <= usize::MAX,
        scanned(data) is Ok,
    ensures
        forall|i: int|
            0 <= i < scanned(data)->Ok_0.len() ==> inside(
                #[trigger] scanned(data)->Ok_0[i],
                data.len() as int,
            ),
{
    segments_from_inside(data, 2, false);
    let rest = segments_from(data, 2, false)->Ok_0;
    let all = scanned(data)->Ok_0;
    assert forall|i: int| 0 <= i < all.len() implies inside(#[trigger] all[i], data.len() as int) by {
        if i > 0 {
            assert(all[i] == rest[i - 1]);
        }
    }
}

/// Finds the next marker in the data of a scan.
pub fn find_marker_after(data: &[u8], pos: usize) -> (found: Result<(u8, usize), Error>)
    ensures
        match marker_after(data@, pos as int) {
            Ok((code, after)) => found == Ok::<(u8, usize), Error>((code, after as usize))
                && pos + 2 <= after <= data@.len(),
            Err(e) => found == Err::<(u8, usize), Error>(e),
        },
{
    let mut at = pos;
    assert(data@.len() == data.len());
    loop
        invariant
            pos <= at,
            data@.len() <= usize::MAX,
            marker_after(data@, pos as int) == marker_after(data@, at as int),
        decreases data@.len() - at,
    {
        if at >= data.len() {
            return Err(Error::UnexpectedEof);
        }
        if data[at] != MARKER_START {
            at += 1;
        } else {
            if at + 1 >= data.len() {
                return Err(Error::UnexpectedEof);
            }
            if data[at + 1] == 0 {
                at += 2;
            } else {
                return Ok((data[at + 1], at + 2));
            }
        }
    }
}

/// Reads the segment whose marker has just been read.
pub fn read_segment(data: &[u8], code: u8, len_start: usize) -> (segment: Result<
    (RawSegment, usize),
    Error,
>)
    requires
        len_start <= data@.len(),
    ensures
        match segment_at(data@, code, len_start as int) {
            Ok((raw, next)) => segment == Ok::<(RawSegment, usize), Error>((raw, next as usize))
                && len_start <= next <= data@.len() && inside(raw, data@.len() as int),
            Err(e) => segment == Err::<(RawSegment, usize), Error>(e),
        },
{
    let marker = Marker::from_u8(code);
    if marker.is_standalone() {
        return Ok((RawSegment { marker, data_start: len_start, data_end: len_start }, len_start));
    }
    if data.len() - len_start < 2 {
        return Err(Error::UnexpectedEof);
    }
    // Read length. The length includes the two length bytes, but not the marker.
    let len: usize = (data[len_start] as usize) * 256 + (data[len_start + 1] as usize);
    if len < 2 || len > data.len() - len_start {
        return Err(Error::UnexpectedEof);
    }
    Ok(
        (
            RawSegment { marker, data_start: len_start + 2, data_end: len_start + len },
            len_start + len,
        ),
    )
}

/// Finds the segments of a JPEG file.
pub fn find_segments(data: &[u8]) -> (segments: Result<Vec<RawSegment>, Error>)
    ensures
        match scanned(data@) {
            Ok(found) => segments is Ok && segments->Ok_0@ == found,
            Err(e) => segments == Err::<Vec<RawSegment>, Error>(e),
        },
{
    if data.len() < 2 {
        return Err(Error::UnexpectedEof);
    }
    if data.len() < 3 || data[0] != 0xFF || data[1] != 0xD8 || data[2] != 0xFF {
        let magic: [u8; 2] = [data[0], data[1]];
        return Err(Error::InvalidMagicBytes(magic));
    }
    let mut segments: Vec<RawSegment> = Vec::new();
    segments.push(RawSegment { marker: Marker::SOI, data_start: 2, data_end: 2 });
    let ghost goal = scanned(data@);
    let mut sos = false;
    let mut pos: usize = 2;
    loop
        invariant
            2 <= pos <= data@.len() <= usize::MAX,
            goal == scanned(data@),
            goal == (match segments_from(data@, pos as int, sos) {
                Ok(rest) => Ok::<Seq<RawSegment>, Error>(segments@ + rest),
                Err(e) => Err::<Seq<RawSegment>, Error>(e),
            }),
        decreases data@.len() - pos,
    {
        let (code, len_start) = if sos {
            find_marker_after(data, pos)?
        } else {
            if pos >= data.len() {
                return Err(Error::UnexpectedEof);
            }
            if data[pos] != MARKER_START {
                return Err(Error::ExpectedMarkerStart(data[pos]));
            }
            if pos + 1 >= data.len() {
                return Err(Error::UnexpectedEof);
            }
            (data[pos + 1], pos + 2)
        };
        let (segment, next) = read_segment(data, code, len_start)?;
        let ghost before = segments@;
        segments.push(segment);
        if segment.marker == Marker::EOI {
            assert(before + seq![segment] =~= segments@);
            return Ok(segments);
        }
        if next <= pos {
            return Err(Error::UnexpectedEof);
        }
        if segment.marker == Marker::SOS {
            sos = true;
        }
        proof {
            match segments_from(data@, next as int, sos) {
                Ok(rest) => {
                    assert(before + (seq![segment] + rest) =~= segments@ + rest);
                },
                Err(_) => {},
            }
        }
        pos = next;
    }
}

} // verus!
