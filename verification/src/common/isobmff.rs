//! The boxes of a file in the ISO base media file format.
use vstd::prelude::*;
use vstd::slice::slice_subrange;
use crate::exif::bytes::{u32_at, u32_at_same, u32_from_bytes};

verus! {

/// The text that starts a box with Exif data.
pub const EXIF_IDENTIFIER_STRING: &'static str = "Exif\0\0";

/// The text that starts a box with XMP data.
pub const XMP_IDENTIFIER_STRING: &'static str = "http://ns.adobe.com/xap/1.0/\0";

/// The type of a box: the four bytes of its name as a big-endian number.
#[derive(Clone, Copy, Debug, PartialEq, Eq, Structural)]
pub enum BoxType {
    /// `ftyp`
    File,
    /// `brob`
    Brotli,
    /// `jxlc`
    JxlImage,
    /// `jxlp`
    JxlImagePartial,
    /// `jbrd`
    JpegBitstreamReconstructionData,
    Unknown(u32),
}

impl BoxType {
    /// The four bytes of the name of the type as a big-endian number.
    pub open spec fn code(self) -> u32 {
        match self {
            BoxType::File => 0x66747970,
            BoxType::Brotli => 0x62726F62,
            BoxType::JxlImage => 0x6A786C63,
            BoxType::JxlImagePartial => 0x6A786C70,
            BoxType::JpegBitstreamReconstructionData => 0x6A627264,
            BoxType::Unknown(code) => code,
        }
    }

    /// The type with the given name.
    pub open spec fn of_code(code: u32) -> BoxType {
        if code == 0x66747970 {
            BoxType::File
        } else if code == 0x62726F62 {
            BoxType::Brotli
        } else if code == 0x6A786C63 {
            BoxType::JxlImage
        } else if code == 0x6A786C70 {
            BoxType::JxlImagePartial
        } else if code == 0x6A627264 {
            BoxType::JpegBitstreamReconstructionData
        } else {
            BoxType::Unknown(code)
        }
    }

    /// The type with the given name; unknown names are kept as they are.
    pub fn from_u32(code: u32) -> (box_type: BoxType)
        ensures
            box_type == BoxType::of_code(code),
            box_type.code() == code,
    {
        if code == 0x66747970 {
            BoxType::File
        } else if code == 0x62726F62 {
            BoxType::Brotli
        } else if code == 0x6A786C63 {
            BoxType::JxlImage
        } else if code == 0x6A786C70 {
            BoxType::JxlImagePartial
        } else if code == 0x6A627264 {
            BoxType::JpegBitstreamReconstructionData
        } else {
            BoxType::Unknown(code)
        }
    }

    /// The name of the type as a big-endian number.
    pub fn to_u32(self) -> (code: u32)
        ensures
            code == self.code(),
    {
        match self {
            BoxType::File => 0x66747970,
            BoxType::Brotli => 0x62726F62,
            BoxType::JxlImage => 0x6A786C63,
            BoxType::JxlImagePartial => 0x6A786C70,
            BoxType::JpegBitstreamReconstructionData => 0x6A627264,
            BoxType::Unknown(code) => code,
        }
    }
}

/// One box: its type, where its data starts in the file, and its data.
#[derive(Clone, Copy, Debug)]
pub struct ObjectBox<'a> {
    pub box_type: BoxType,
    pub pos: u64,
    pub data: &'a [u8],
}

/// A box as the contracts see it.
pub struct BoxView {
    pub box_type: BoxType,
    pub pos: u64,
    pub data: Seq<u8>,
}

impl<'a> View for ObjectBox<'a> {
    type V = BoxView;

    open spec fn view(&self) -> BoxView {
        BoxView { box_type: self.box_type, pos: self.pos, data: self.data@ }
    }
}

/// The boxes of a file.
pub struct Document<'a> {
    pub boxes: Vec<ObjectBox<'a>>,
}

/// The 64-bit big-endian number at `at`.
pub open spec fn u64_at(data: Seq<u8>, at: int) -> int {
    u32_at(data, at, true) * 0x1_0000_0000 + u32_at(data, at + 4, true)
}

/// The box at `pos`: the range of its data and where the box ends, or
/// `None` where no whole box stands there.
///
/// A box starts with its size in four bytes and its type in four bytes.
/// The size counts the whole box. The size 1 stands for a size in the eight
/// bytes that follow the type, and the size 0 for a box that reaches to the
/// end of the file.
pub open spec fn box_at(data: Seq<u8>, pos: int) -> Option<(BoxView, int)> {
    if pos + 8 > data.len() {
        None
    } else {
        let short = u32_at(data, pos, true);
        let box_type = BoxType::of_code(u32_at(data, pos + 4, true));
        if short == 1 && pos + 16 > data.len() {
            None
        } else {
            let start = if short == 1 {
                pos + 16
            } else {
                pos + 8
            };
            let size = if short == 1 {
                u64_at(data, pos + 8)
            } else if short == 0 {
                data.len() - pos
            } else {
                short as int
            };
            let end = pos + size;
            if end < start || end > data.len() {
                None
            } else {
                Some((BoxView { box_type, pos: start as u64, data: data.subrange(start, end) }, end))
            }
        }
    }
}

/// The boxes from `pos` on, up to the end of the file or to where no
/// whole box stands.
pub open spec fn boxes_from(data: Seq<u8>, pos: int) -> Seq<BoxView>
    decreases data.len() - pos,
{
    if pos < 0 {
        Seq::empty()
    } else {
        match box_at(data, pos) {
            None => Seq::empty(),
            Some((found, end)) => if end >= data.len() || end <= pos {
                seq![found]
            } else {
                seq![found] + boxes_from(data, end)
            },
        }
    }
}

/// The views of some boxes.
pub open spec fn boxes_view(boxes: Seq<ObjectBox>) -> Seq<BoxView> {
    Seq::new(boxes.len(), |i: int| boxes[i]@)
}

/// The boxes of a type among the first `k`, in their order.
pub open spec fn boxes_of(boxes: Seq<BoxView>, box_type: BoxType, k: nat) -> Seq<BoxView>
    decreases k,
{
    if k == 0 {
        Seq::empty()
    } else if boxes[k - 1].box_type == box_type {
        boxes_of(boxes, box_type, (k - 1) as nat).push(boxes[k - 1])
    } else {
        boxes_of(boxes, box_type, (k - 1) as nat)
    }
}

/// Reads the big-endian number at `pos`.
pub fn be32(data: &[u8], pos: usize) -> (value: u32)
    requires
        pos + 4 <= data@.len(),
    ensures
        value == u32_at(data@, pos as int, true),
{
    proof {
        u32_at_same(
            seq![data@[pos as int], data@[pos + 1], data@[pos + 2], data@[pos + 3]],
            data@,
            0,
            pos as int,
            true,
        );
    }
    u32_from_bytes(data[pos], data[pos + 1], data[pos + 2], data[pos + 3], true)
}

/// Reads the box at `pos`.
pub fn read_box<'a>(data: &'a [u8], pos: usize) -> (found: Option<(ObjectBox<'a>, usize)>)
    requires
        pos <= data@.len(),
    ensures
        match box_at(data@, pos as int) {
            Some((view, end)) => found is Some && found->Some_0.0@ == view && found->Some_0.1
                == end && end <= data@.len(),
            None => found is None,
        },
{
    let total = data.len();
    if total - pos < 8 {
        return None;
    }
    // Read len
    let short = be32(data, pos);
    // Read type
    let box_type = BoxType::from_u32(be32(data, pos + 4));
    let (start, size): (usize, u64) = if short == 1 {
        if total - pos < 16 {
            return None;
        }
        let high = be32(data, pos + 8) as u64;
        let low = be32(data, pos + 12) as u64;
        (pos + 16, high * 0x1_0000_0000 + low)
    } else if short == 0 {
        (pos + 8, (total - pos) as u64)
    } else {
        (pos + 8, short as u64)
    };
    if size > (total - pos) as u64 || size < (start - pos) as u64 {
        return None;
    }
    let end = pos + size as usize;
    Some((ObjectBox { box_type, pos: start as u64, data: slice_subrange(data, start, end) }, end))
}

impl<'a> ObjectBox<'a> {
    pub fn box_type(&self) -> (box_type: BoxType)
        ensures
            box_type == self.box_type,
    {
        self.box_type
    }

    /// Where the data of the box starts in the file.
    pub fn pos(&self) -> (pos: u64)
        ensures
            pos == self.pos,
    {
        self.pos
    }

    /// The position two bytes behind the start of the data.
    pub fn data_pos(&self) -> (pos: u64)
        requires
            self.pos + 2 <= u64::MAX,
        ensures
            pos == self.pos + 2,
    {
        self.pos + 2
    }

    pub fn data(&self) -> (data: &'a [u8])
        ensures
            data@ == self.data@,
    {
        self.data
    }
}

impl<'a> Document<'a> {
    /// The boxes of the file behind its first `skip_bytes` bytes. Reading
    /// stops where no whole box stands.
    pub fn new(data: &'a [u8], skip_bytes: u64) -> (document: Document<'a>)
        ensures
            boxes_view(document.boxes@) == (if skip_bytes <= data@.len() {
                boxes_from(data@, skip_bytes as int)
            } else {
                Seq::empty()
            }),
    {
        let mut boxes: Vec<ObjectBox<'a>> = Vec::new();
        if skip_bytes > data.len() as u64 {
            assert(boxes_view(boxes@) =~= Seq::<BoxView>::empty());
            return Document { boxes };
        }
        let mut pos = skip_bytes as usize;
        let ghost goal = boxes_from(data@, skip_bytes as int);
        assert(boxes_view(boxes@) + goal =~= goal);
        loop
            invariant
                pos <= data@.len() <= usize::MAX,
                goal == boxes_view(boxes@) + boxes_from(data@, pos as int),
                goal == boxes_from(data@, skip_bytes as int),
                skip_bytes <= data@.len(),
            decreases data@.len() - pos,
        {
            let ghost before = boxes_view(boxes@);
            match read_box(data, pos) {
                None => {
                    assert(before + Seq::<BoxView>::empty() =~= before);
                    return Document { boxes };
                },
                Some((found, end)) => {
                    boxes.push(found);
                    assert(boxes_view(boxes@) =~= before.push(found@));
                    if end >= data.len() || end <= pos {
                        assert(before + seq![found@] =~= boxes_view(boxes@));
                        return Document { boxes };
                    }
                    assert(before + (seq![found@] + boxes_from(data@, end as int)) =~= boxes_view(
                        boxes@,
                    ) + boxes_from(data@, end as int));
                    pos = end;
                },
            }
        }
    }

    /// List all boxes with the given type
    pub fn boxes_type(&self, box_type: BoxType) -> (found: Vec<ObjectBox<'a>>)
        ensures
            boxes_view(found@) == boxes_of(boxes_view(self.boxes@), box_type, self.boxes@.len()),
    {
        let mut found: Vec<ObjectBox<'a>> = Vec::new();
        let n = self.boxes.len();
        let mut k: usize = 0;
        assert(boxes_view(found@) =~= Seq::<BoxView>::empty());
        while k < n
            invariant
                k <= n,
                n == self.boxes@.len(),
                boxes_view(found@) == boxes_of(boxes_view(self.boxes@), box_type, k as nat),
            decreases n - k,
        {
            let ghost before = boxes_view(found@);
            if self.boxes[k].box_type == box_type {
                found.push(self.boxes[k]);
                assert(boxes_view(found@) =~= before.push(self.boxes@[k as int]@));
            }
            k += 1;
        }
        found
    }
}

} // verus!
