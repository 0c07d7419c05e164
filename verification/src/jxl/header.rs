//! The container and the header of a JPEG XL file.
use vstd::prelude::*;
use vstd::slice::slice_subrange;
use crate::common::isobmff;
use crate::common::isobmff::{boxes_from, boxes_of, boxes_view, BoxType, BoxView};
use crate::jxl::bits::{bit_at, bits_value, dist_at, pow2_values, u32_d_at, DataIter, Dist, Error};

verus! {

/// A JPEG XL file in its container.
pub struct Document<'a> {
    pub document: isobmff::Document<'a>,
}

/// Something with the place at which it was found.
pub struct Entry<T>(pub T, pub u64);

/// The signature of a codestream was found.
#[derive(Debug, Clone, Copy, PartialEq, Eq, Structural)]
pub struct Signature;

#[derive(Debug, Clone, Copy, PartialEq, Eq, Structural)]
pub struct SizeHeader {
    pub height_div8_minus_1: Option<u8>,
    pub height_minus_1: Option<u32>,
    pub ratio: u8,
    pub width_div8_minus_1: Option<u8>,
    pub width_minus_1: Option<u32>,
}

#[derive(Debug, Clone, Copy, PartialEq, Eq, Structural)]
pub struct ImageMetadata {
    pub orientation_minus_1: Option<u8>,
}

#[derive(Debug, Clone, Copy, PartialEq, Eq, Structural)]
pub struct Header {
    pub signature: Signature,
    pub size: SizeHeader,
    pub metadata: ImageMetadata,
}

/// What can be read from the bits of a codestream.
pub trait Parse: Sized {
    fn parse(data: &mut DataIter) -> Result<Self, Error>
        requires
            old(data).wf(),
    ;
}

/// Whether the data starts with the two bytes of a bare codestream.
pub open spec fn is_plain(data: Seq<u8>) -> bool {
    data.len() >= 2 && data[0] == 0xFF && data[1] == 0x0A
}

/// Whether the data starts with the twelve bytes of the container.
pub open spec fn is_container(data: Seq<u8>) -> bool {
    data.len() >= 12 && data.subrange(0, 12) == seq![
        0x00u8,
        0x00,
        0x00,
        0x0C,
        0x4A,
        0x58,
        0x4C,
        0x20,
        0x0D,
        0x0A,
        0x87,
        0x0A,
    ]
}

/// The height or the width in a size header: five bits in a small header,
/// else a number in 9, 13, 18 or 30 bits.
pub open spec fn dimension_at(data: Seq<u8>, p: int, small: bool) -> Option<
    (Option<u8>, Option<u32>, int),
> {
    if small {
        if p + 5 > 8 * data.len() {
            None
        } else {
            Some((Some(bits_value(data, p, 5) as u8), None, p + 5))
        }
    } else {
        match u32_d_at(data, p, Dist::Bits(9), Dist::Bits(13), Dist::Bits(18), Dist::Bits(30)) {
            Some((value, end)) => Some((None, Some(value), end)),
            None => None,
        }
    }
}

/// The size header at the position `p`, and the position behind it: a bit
/// that tells whether the header is small, the height, three bits for the
/// ratio, and the width if the ratio is zero.
pub open spec fn size_header_at(data: Seq<u8>, p: int) -> Option<(SizeHeader, int)> {
    if p + 1 > 8 * data.len() {
        None
    } else {
        let small = bit_at(data, p) == 1;
        match dimension_at(data, p + 1, small) {
            None => None,
            Some((height_div8_minus_1, height_minus_1, after_height)) => if after_height + 3 > 8
                * data.len() {
                None
            } else {
                let ratio = bits_value(data, after_height, 3) as u8;
                if ratio == 0 {
                    match dimension_at(data, after_height + 3, small) {
                        None => None,
                        Some((width_div8_minus_1, width_minus_1, end)) => Some(
                            (
                                SizeHeader {
                                    height_div8_minus_1,
                                    height_minus_1,
                                    ratio,
                                    width_div8_minus_1,
                                    width_minus_1,
                                },
                                end,
                            ),
                        ),
                    }
                } else {
                    Some(
                        (
                            SizeHeader {
                                height_div8_minus_1,
                                height_minus_1,
                                ratio,
                                width_div8_minus_1: None,
                                width_minus_1: None,
                            },
                            after_height + 3,
                        ),
                    )
                }
            },
        }
    }
}

/// The image metadata at the position `p`, and the position behind it: a
/// bit that tells whether all is default; if not, a bit that tells whether
/// extra fields follow; if so, the orientation in three bits.
pub open spec fn image_metadata_at(data: Seq<u8>, p: int) -> Option<(ImageMetadata, int)> {
    if p + 1 > 8 * data.len() {
        None
    } else if bit_at(data, p) == 1 {
        Some((ImageMetadata { orientation_minus_1: None }, p + 1))
    } else if p + 2 > 8 * data.len() {
        None
    } else if bit_at(data, p + 1) == 0 {
        Some((ImageMetadata { orientation_minus_1: None }, p + 2))
    } else if p + 5 > 8 * data.len() {
        None
    } else {
        Some((ImageMetadata { orientation_minus_1: Some(bits_value(data, p + 2, 3) as u8) }, p + 5))
    }
}

/// What reading the signature at the position `p` gives: the two bytes 255
/// and 10.
pub open spec fn signature_at(data: Seq<u8>, p: int) -> Result<int, Error> {
    if p + 8 > 8 * data.len() {
        Err(Error::UnexpectedEOF)
    } else if bits_value(data, p, 8) != 255 {
        Err(Error::InvalidSignature)
    } else if p + 16 > 8 * data.len() {
        Err(Error::UnexpectedEOF)
    } else if bits_value(data, p + 8, 8) != 10 {
        Err(Error::InvalidSignature)
    } else {
        Ok(p + 16)
    }
}

/// The header at the position `p`: signature, size header and image
/// metadata.
pub open spec fn header_at(data: Seq<u8>, p: int) -> Result<(Header, int), Error> {
    match signature_at(data, p) {
        Err(e) => Err(e),
        Ok(after_signature) => match size_header_at(data, after_signature) {
            None => Err(Error::UnexpectedEOF),
            Some((size, after_size)) => match image_metadata_at(data, after_size) {
                None => Err(Error::UnexpectedEOF),
                Some((metadata, end)) => Ok((Header { signature: Signature, size, metadata }, end)),
            },
        },
    }
}

/// Reads the height or the width of a size header.
pub fn read_dimension(data: &mut DataIter, small: bool) -> (dimension: Result<
    (Option<u8>, Option<u32>),
    Error,
>)
    requires
        old(data).wf(),
    ensures
        final(data).wf(),
        final(data).parts == old(data).parts,
        final(data).data == old(data).data,
        match dimension_at(old(data).data@, old(data).position(), small) {
            Some((short, long, end)) => dimension == Ok::<(Option<u8>, Option<u32>), Error>(
                (short, long),
            ) && final(data).position() == end,
            None => dimension == Err::<(Option<u8>, Option<u32>), Error>(Error::UnexpectedEOF),
        },
{
    if small {
        Ok((Some(data.read_bytes_u8::<5>()?), None))
    } else {
        Ok(
            (
                None,
                Some(
                    data.read_u32_d(Dist::Bits(9), Dist::Bits(13), Dist::Bits(18), Dist::Bits(30))?,
                ),
            ),
        )
    }
}

impl Parse for Signature {
    fn parse(data: &mut DataIter) -> (signature: Result<Signature, Error>)
        ensures
            final(data).wf(),
            final(data).parts == old(data).parts,
            final(data).data == old(data).data,
            match signature_at(old(data).data@, old(data).position()) {
                Ok(end) => signature is Ok && final(data).position() == end,
                Err(e) => signature == Err::<Signature, Error>(e),
            },
    {
        proof {
            pow2_values();
        }
        if data.read_bytes_u8::<8>()? != 255 {
            return Err(Error::InvalidSignature);
        }
        if data.read_bytes_u8::<8>()? != 10 {
            return Err(Error::InvalidSignature);
        }
        Ok(Signature)
    }
}

impl Parse for SizeHeader {
    fn parse(data: &mut DataIter) -> (size: Result<SizeHeader, Error>)
        ensures
            final(data).wf(),
            final(data).parts == old(data).parts,
            final(data).data == old(data).data,
            match size_header_at(old(data).data@, old(data).position()) {
                Some((header, end)) => size == Ok::<SizeHeader, Error>(header) && final(data).position() == end,
                None => size == Err::<SizeHeader, Error>(Error::UnexpectedEOF),
            },
    {
        let small = data.read_bool()?;
        let (height_div8_minus_1, height_minus_1) = read_dimension(data, small)?;
        let ratio = data.read_bytes_u8::<3>()?;
        let mut width_div8_minus_1 = None;
        let mut width_minus_1 = None;
        if ratio == 0 {
            let (short, long) = read_dimension(data, small)?;
            width_div8_minus_1 = short;
            width_minus_1 = long;
        }
        Ok(
            SizeHeader {
                height_div8_minus_1,
                height_minus_1,
                ratio,
                width_div8_minus_1,
                width_minus_1,
            },
        )
    }
}

impl Parse for ImageMetadata {
    fn parse(data: &mut DataIter) -> (metadata: Result<ImageMetadata, Error>)
        ensures
            final(data).wf(),
            final(data).parts == old(data).parts,
            final(data).data == old(data).data,
            match image_metadata_at(old(data).data@, old(data).position()) {
                Some((found, end)) => metadata == Ok::<ImageMetadata, Error>(found) && final(data).position() == end,
                None => metadata == Err::<ImageMetadata, Error>(Error::UnexpectedEOF),
            },
    {
        let all_default = data.read_bool()?;
        let extra_fields = if all_default {
            false
        } else {
            data.read_bool()?
        };
        let mut orientation_minus_1 = None;
        if extra_fields {
            orientation_minus_1 = Some(data.read_bytes_u8::<3>()?);
        }
        Ok(ImageMetadata { orientation_minus_1 })
    }
}

impl Parse for Header {
    fn parse(data: &mut DataIter) -> (header: Result<Header, Error>)
        ensures
            final(data).wf(),
            final(data).parts == old(data).parts,
            final(data).data == old(data).data,
            match header_at(old(data).data@, old(data).position()) {
                Ok((found, end)) => header == Ok::<Header, Error>(found) && final(data).position()
                    == end,
                Err(e) => header == Err::<Header, Error>(e),
            },
    {
        let signature = Signature::parse(data)?;
        let size = SizeHeader::parse(data)?;
        let metadata = ImageMetadata::parse(data)?;
        Ok(Header { signature, size, metadata })
    }
}

/// The parts of the codestream that some boxes hold: of each box what
/// follows its first four bytes, with the position that the box gives for
/// its data. `None` where a box has fewer than four bytes.
pub open spec fn parts_of(boxes: Seq<BoxView>, k: nat) -> Option<Seq<(Seq<u8>, u64)>>
    decreases k,
{
    if k == 0 {
        Some(Seq::empty())
    } else {
        match parts_of(boxes, (k - 1) as nat) {
            None => None,
            Some(parts) => if boxes[k - 1].data.len() < 4 || boxes[k - 1].pos + 2 > u64::MAX {
                None
            } else {
                Some(
                    parts.push(
                        (
                            boxes[k - 1].data.subrange(4, boxes[k - 1].data.len() as int),
                            (boxes[k - 1].pos + 2) as u64,
                        ),
                    ),
                )
            },
        }
    }
}

/// The views of some parts.
pub open spec fn parts_view(parts: Seq<(&[u8], u64)>) -> Seq<(Seq<u8>, u64)> {
    Seq::new(parts.len(), |i: int| (parts[i].0@, parts[i].1))
}

/// Where a box has fewer than four bytes, no parts can be taken.
pub proof fn parts_of_fail(boxes: Seq<BoxView>, k: nat, n: nat)
    requires
        k < n,
        boxes[k as int].data.len() < 4 || boxes[k as int].pos + 2 > u64::MAX,
    ensures
        parts_of(boxes, n) is None,
    decreases n,
{
    if n - 1 > k {
        parts_of_fail(boxes, k, (n - 1) as nat);
    }
}

impl<'a> Document<'a> {
    /// Reads the boxes of a file in the container; a bare codestream and
    /// every other data is refused.
    pub fn new(data: &'a [u8]) -> (document: Result<Document<'a>, ()>)
        ensures
            !is_plain(data@) && is_container(data@) ==> document is Ok && boxes_view(
                document->Ok_0.document.boxes@,
            ) == boxes_from(data@, 12),
            is_plain(data@) || !is_container(data@) ==> document is Err,
    {
        match Document::is_isobmff(data) {
            Some(true) => Ok(Document { document: isobmff::Document::new(data, 12) }),
            _ => Err(()),
        }
    }

    /// Whether the data is a file in the container (`true`) or a bare
    /// codestream (`false`); `None` for what is neither.
    pub fn is_isobmff(data: &[u8]) -> (container: Option<bool>)
        ensures
            container == (if is_plain(data@) {
                Some(false)
            } else if is_container(data@) {
                Some(true)
            } else {
                None
            }),
    {
        if data.len() >= 2 && data[0] == 0xFF && data[1] == 0x0A {
            Some(false)
        } else if data.len() >= 12 {
            let yes = data[0] == 0x00 && data[1] == 0x00 && data[2] == 0x00 && data[3] == 0x0C
                && data[4] == 0x4A && data[5] == 0x58 && data[6] == 0x4C && data[7] == 0x20
                && data[8] == 0x0D && data[9] == 0x0A && data[10] == 0x87 && data[11] == 0x0A;
            let ghost head = data@.subrange(0, 12);
            let ghost magic = seq![
                0x00u8,
                0x00,
                0x00,
                0x0C,
                0x4A,
                0x58,
                0x4C,
                0x20,
                0x0D,
                0x0A,
                0x87,
                0x0A,
            ];
            assert(yes == (head =~= magic)) by {
                assert(head[0] == data@[0] && head[1] == data@[1] && head[2] == data@[2]
                    && head[3] == data@[3] && head[4] == data@[4] && head[5] == data@[5]
                    && head[6] == data@[6] && head[7] == data@[7] && head[8] == data@[8]
                    && head[9] == data@[9] && head[10] == data@[10] && head[11] == data@[11]);
            }
            if yes {
                Some(true)
            } else {
                None
            }
        } else {
            None
        }
    }

    /// The boxes that hold the codestream: the first box with the whole
    /// image or, without one, the boxes with its parts.
    pub open spec fn image_boxes(&self) -> Seq<BoxView> {
        let boxes = boxes_view(self.document.boxes@);
        let complete = boxes_of(boxes, BoxType::JxlImage, boxes.len());
        if complete.len() > 0 {
            seq![complete[0]]
        } else {
            boxes_of(boxes, BoxType::JxlImagePartial, boxes.len())
        }
    }

    /// A reader of the codestream of the image.
    pub fn image_data(&self) -> (iter: Result<DataIter<'a>, ()>)
        ensures
            match parts_of(self.image_boxes(), self.image_boxes().len()) {
                Some(parts) => iter is Ok && parts_view(iter->Ok_0.parts@) == parts
                    && iter->Ok_0.wf() && iter->Ok_0.position() == 0 && iter->Ok_0.data@
                    == crate::jxl::bits::flattened(iter->Ok_0.parts@, iter->Ok_0.parts@.len()),
                None => iter is Err,
            },
    {
        let complete = self.document.boxes_type(BoxType::JxlImage);
        let boxes = if complete.len() > 0 {
            let mut first: Vec<isobmff::ObjectBox<'a>> = Vec::new();
            first.push(complete[0]);
            assert(boxes_view(first@) =~= seq![boxes_view(complete@)[0]]);
            first
        } else {
            self.document.boxes_type(BoxType::JxlImagePartial)
        };
        let ghost views = boxes_view(boxes@);
        let mut parts: Vec<(&'a [u8], u64)> = Vec::new();
        let n = boxes.len();
        let mut k: usize = 0;
        assert(parts_view(parts@) =~= Seq::empty());
        while k < n
            invariant
                k <= n,
                n == boxes@.len(),
                views == boxes_view(boxes@),
                views == self.image_boxes(),
                parts_of(views, k as nat) == Some(parts_view(parts@)),
            decreases n - k,
        {
            let found = boxes[k];
            assert(views[k as int] == found@);
            if found.data.len() < 4 || found.pos > u64::MAX - 2 {
                proof {
                    parts_of_fail(views, k as nat, n as nat);
                }
                return Err(());
            }
            let ghost before = parts_view(parts@);
            let part = (slice_subrange(found.data, 4, found.data.len()), found.data_pos());
            parts.push(part);
            assert(parts_view(parts@) =~= before.push((part.0@, part.1)));
            k += 1;
        }
        Ok(DataIter::new(parts))
    }
}

} // verus!
