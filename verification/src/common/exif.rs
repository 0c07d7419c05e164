//! Tags, directories and the keys under which Exif entries are found.
use vstd::prelude::*;
use crate::common::field;

verus! {

/// A 16-bit field identifier.
#[derive(Debug, Clone, Copy, Hash, PartialEq, Eq, PartialOrd, Ord, Structural)]
pub struct Tag(pub u16);

/// Image file directory
#[derive(Debug, Clone, Copy, Hash, PartialEq, Eq, PartialOrd, Ord, Structural)]
pub enum Ifd {
    Primary,
    Thumbnail,
    Exif,
    Gps,
    Interoperability,
    MakerNote,
}

/// The key of an entry: the same numeric tag means different things in
/// different directories, so an entry is always named by both.
#[derive(Debug, Clone, Copy, Hash, PartialEq, Eq, PartialOrd, Ord, Structural)]
pub struct TagIfd {
    pub tag: Tag,
    pub ifd: Ifd,
}

/// A known field: its name, its tag and the directory it lives in.
pub trait Field {
    const NAME: &'static str;
    const TAG: u16;
    const IFD: Ifd;

    /// The key under which the entries of the field are found: its tag and
    /// its directory.
    spec fn key() -> TagIfd;

    /// The key under which the entries of the field are found.
    fn tagifd() -> (tagifd: TagIfd)
        ensures
            tagifd == Self::key(),
    ;
}

impl TagIfd {
    pub fn new(tag: Tag, ifd: Ifd) -> (tagifd: TagIfd)
        ensures
            tagifd.tag == tag,
            tagifd.ifd == ifd,
    {
        TagIfd { tag, ifd }
    }

    /// The key of a known field.
    pub open spec fn key<T: Field>() -> TagIfd {
        T::key()
    }

    /// The key of a known field.
    pub fn of<T: Field>(_field: T) -> (tagifd: TagIfd)
        ensures
            tagifd == TagIfd::key::<T>(),
    {
        T::tagifd()
    }
}

impl Tag {
    pub const MAKER_NOTE: u16 = 0x927C;

    pub const EXIF_IFD_POINTER: u16 = 0x8769;

    pub const GPS_INFO_IFD_POINTER: u16 = 0x8825;

    pub const INTEROPERABILITY_IFD_POINTER: u16 = 0xA005;

    /// The directory that an entry with this tag points to, if it is one of
    /// the three pointer tags.
    pub open spec fn spec_exif_specific_ifd(self) -> Option<Ifd> {
        if self.0 == 0x8769 {
            Some(Ifd::Exif)
        } else if self.0 == 0x8825 {
            Some(Ifd::Gps)
        } else if self.0 == 0xA005 {
            Some(Ifd::Interoperability)
        } else {
            None
        }
    }

    /// The directory that an entry with this tag points to, if any.
    pub fn exif_specific_ifd(&self) -> (ifd: Option<Ifd>)
        ensures
            ifd == self.spec_exif_specific_ifd(),
    {
        if self.0 == Tag::EXIF_IFD_POINTER {
            Some(Ifd::Exif)
        } else if self.0 == Tag::GPS_INFO_IFD_POINTER {
            Some(Ifd::Gps)
        } else if self.0 == Tag::INTEROPERABILITY_IFD_POINTER {
            Some(Ifd::Interoperability)
        } else {
            None
        }
    }

    /// Whether an entry with this tag points to another directory.
    pub fn is_exif_specific_ifd(&self) -> (yes: bool)
        ensures
            yes == self.spec_exif_specific_ifd().is_some(),
    {
        self.exif_specific_ifd().is_some()
    }
}

/// The name of the known field with the given key, if there is one.
pub fn lookup_tag_name(tagifd: TagIfd) -> (name: Option<&'static str>)
    ensures
        name == field::tag_name(tagifd.tag.0, tagifd.ifd),
{
    let tag = tagifd.tag.0;
    match tagifd.ifd {
        Ifd::Primary => {
            if tag == 0x10F {
                Some("Make")
            } else if tag == 0x110 {
                Some("Model")
            } else if tag == 0x112 {
                Some("Orientation")
            } else if tag == 0x11A {
                Some("XResolution")
            } else if tag == 0x100 {
                Some("ImageWidth")
            } else if tag == 0x131 {
                Some("Software")
            } else {
                None
            }
        },
        Ifd::Thumbnail => {
            if tag == 0x112 {
                Some("ThumbnailOrientation")
            } else if tag == 0x100 {
                Some("ThumbnailImageWidth")
            } else {
                None
            }
        },
        Ifd::Exif => {
            if tag == 0x829A {
                Some("ExposureTime")
            } else if tag == 0x829D {
                Some("FNumber")
            } else if tag == 0x8827 {
                Some("PhotographicSensitivity")
            } else if tag == 0x9003 {
                Some("DateTimeOriginal")
            } else if tag == 0x9011 {
                Some("OffsetTimeOriginal")
            } else if tag == 0x9291 {
                Some("SubSecTimeOriginal")
            } else if tag == 0x9202 {
                Some("Aperture")
            } else if tag == 0x920A {
                Some("FocalLength")
            } else if tag == 0x9286 {
                Some("UserComment")
            } else if tag == 0xA430 {
                Some("CameraOwnerName")
            } else if tag == 0xA433 {
                Some("LensMake")
            } else if tag == 0xA434 {
                Some("LensModel")
            } else {
                None
            }
        },
        Ifd::Gps => {
            if tag == 0x1 {
                Some("GPSLatitudeRef")
            } else if tag == 0x2 {
                Some("GPSLatitude")
            } else if tag == 0x3 {
                Some("GPSLongitudeRef")
            } else if tag == 0x4 {
                Some("GPSLongitude")
            } else {
                None
            }
        },
        Ifd::Interoperability => None,
        Ifd::MakerNote => {
            if tag == 0x9 {
                Some("CanonOwnerName")
            } else {
                None
            }
        },
    }
}

} // verus!
