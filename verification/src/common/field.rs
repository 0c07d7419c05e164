//! Metadata fields
//!
//! The fields that can be looked up by name, each with its tag and the
//! directory it lives in.
use vstd::prelude::*;
use crate::common::exif::{Field, Ifd, Tag, TagIfd};
use crate::common::xmp::Namespace;

verus! {

#[derive(Copy, Clone, Debug)]
pub struct Make;

impl Field for Make {
    const NAME: &'static str = "Make";

    const TAG: u16 = 0x10F;

    const IFD: Ifd = Ifd::Primary;

    open spec fn key() -> TagIfd {
        TagIfd { tag: Tag(0x10F), ifd: Ifd::Primary }
    }

    fn tagifd() -> (tagifd: TagIfd) {
        TagIfd { tag: Tag(Self::TAG), ifd: Self::IFD }
    }
}

#[derive(Copy, Clone, Debug)]
pub struct Model;

impl Field for Model {
    const NAME: &'static str = "Model";

    const TAG: u16 = 0x110;

    const IFD: Ifd = Ifd::Primary;

    open spec fn key() -> TagIfd {
        TagIfd { tag: Tag(0x110), ifd: Ifd::Primary }
    }

    fn tagifd() -> (tagifd: TagIfd) {
        TagIfd { tag: Tag(Self::TAG), ifd: Self::IFD }
    }
}

/// Image orientation and mirroring
#[derive(Copy, Clone, Debug)]
pub struct Orientation;

impl Field for Orientation {
    const NAME: &'static str = "Orientation";

    const TAG: u16 = 0x112;

    const IFD: Ifd = Ifd::Primary;

    open spec fn key() -> TagIfd {
        TagIfd { tag: Tag(0x112), ifd: Ifd::Primary }
    }

    fn tagifd() -> (tagifd: TagIfd) {
        TagIfd { tag: Tag(Self::TAG), ifd: Self::IFD }
    }
}

#[derive(Copy, Clone, Debug)]
pub struct ThumbnailOrientation;

impl Field for ThumbnailOrientation {
    const NAME: &'static str = "ThumbnailOrientation";

    const TAG: u16 = 0x112;

    const IFD: Ifd = Ifd::Thumbnail;

    open spec fn key() -> TagIfd {
        TagIfd { tag: Tag(0x112), ifd: Ifd::Thumbnail }
    }

    fn tagifd() -> (tagifd: TagIfd) {
        TagIfd { tag: Tag(Self::TAG), ifd: Self::IFD }
    }
}

#[derive(Copy, Clone, Debug)]
pub struct XResolution;

impl Field for XResolution {
    const NAME: &'static str = "XResolution";

    const TAG: u16 = 0x11A;

    const IFD: Ifd = Ifd::Primary;

    open spec fn key() -> TagIfd {
        TagIfd { tag: Tag(0x11A), ifd: Ifd::Primary }
    }

    fn tagifd() -> (tagifd: TagIfd) {
        TagIfd { tag: Tag(Self::TAG), ifd: Self::IFD }
    }
}

#[derive(Copy, Clone, Debug)]
pub struct ImageWidth;

impl Field for ImageWidth {
    const NAME: &'static str = "ImageWidth";

    const TAG: u16 = 0x100;

    const IFD: Ifd = Ifd::Primary;

    open spec fn key() -> TagIfd {
        TagIfd { tag: Tag(0x100), ifd: Ifd::Primary }
    }

    fn tagifd() -> (tagifd: TagIfd) {
        TagIfd { tag: Tag(Self::TAG), ifd: Self::IFD }
    }
}

#[derive(Copy, Clone, Debug)]
pub struct ThumbnailImageWidth;

impl Field for ThumbnailImageWidth {
    const NAME: &'static str = "ThumbnailImageWidth";

    const TAG: u16 = 0x100;

    const IFD: Ifd = Ifd::Thumbnail;

    open spec fn key() -> TagIfd {
        TagIfd { tag: Tag(0x100), ifd: Ifd::Thumbnail }
    }

    fn tagifd() -> (tagifd: TagIfd) {
        TagIfd { tag: Tag(Self::TAG), ifd: Self::IFD }
    }
}

#[derive(Copy, Clone, Debug)]
pub struct Software;

impl Field for Software {
    const NAME: &'static str = "Software";

    const TAG: u16 = 0x131;

    const IFD: Ifd = Ifd::Primary;

    open spec fn key() -> TagIfd {
        TagIfd { tag: Tag(0x131), ifd: Ifd::Primary }
    }

    fn tagifd() -> (tagifd: TagIfd) {
        TagIfd { tag: Tag(Self::TAG), ifd: Self::IFD }
    }
}

#[derive(Copy, Clone, Debug)]
pub struct ExposureTime;

impl Field for ExposureTime {
    const NAME: &'static str = "ExposureTime";

    const TAG: u16 = 0x829A;

    const IFD: Ifd = Ifd::Exif;

    open spec fn key() -> TagIfd {
        TagIfd { tag: Tag(0x829A), ifd: Ifd::Exif }
    }

    fn tagifd() -> (tagifd: TagIfd) {
        TagIfd { tag: Tag(Self::TAG), ifd: Self::IFD }
    }
}

#[derive(Copy, Clone, Debug)]
pub struct FNumber;

impl Field for FNumber {
    const NAME: &'static str = "FNumber";

    const TAG: u16 = 0x829D;

    const IFD: Ifd = Ifd::Exif;

    open spec fn key() -> TagIfd {
        TagIfd { tag: Tag(0x829D), ifd: Ifd::Exif }
    }

    fn tagifd() -> (tagifd: TagIfd) {
        TagIfd { tag: Tag(Self::TAG), ifd: Self::IFD }
    }
}

/// Also called ISOSpeedRatings
#[derive(Copy, Clone, Debug)]
pub struct PhotographicSensitivity;

impl Field for PhotographicSensitivity {
    const NAME: &'static str = "PhotographicSensitivity";

    const TAG: u16 = 0x8827;

    const IFD: Ifd = Ifd::Exif;

    open spec fn key() -> TagIfd {
        TagIfd { tag: Tag(0x8827), ifd: Ifd::Exif }
    }

    fn tagifd() -> (tagifd: TagIfd) {
        TagIfd { tag: Tag(Self::TAG), ifd: Self::IFD }
    }
}

#[derive(Copy, Clone, Debug)]
pub struct DateTimeOriginal;

impl Field for DateTimeOriginal {
    const NAME: &'static str = "DateTimeOriginal";

    const TAG: u16 = 0x9003;

    const IFD: Ifd = Ifd::Exif;

    open spec fn key() -> TagIfd {
        TagIfd { tag: Tag(0x9003), ifd: Ifd::Exif }
    }

    fn tagifd() -> (tagifd: TagIfd) {
        TagIfd { tag: Tag(Self::TAG), ifd: Self::IFD }
    }
}

#[derive(Copy, Clone, Debug)]
pub struct OffsetTimeOriginal;

impl Field for OffsetTimeOriginal {
    const NAME: &'static str = "OffsetTimeOriginal";

    const TAG: u16 = 0x9011;

    const IFD: Ifd = Ifd::Exif;

    open spec fn key() -> TagIfd {
        TagIfd { tag: Tag(0x9011), ifd: Ifd::Exif }
    }

    fn tagifd() -> (tagifd: TagIfd) {
        TagIfd { tag: Tag(Self::TAG), ifd: Self::IFD }
    }
}

#[derive(Copy, Clone, Debug)]
pub struct SubSecTimeOriginal;

impl Field for SubSecTimeOriginal {
    const NAME: &'static str = "SubSecTimeOriginal";

    const TAG: u16 = 0x9291;

    const IFD: Ifd = Ifd::Exif;

    open spec fn key() -> TagIfd {
        TagIfd { tag: Tag(0x9291), ifd: Ifd::Exif }
    }

    fn tagifd() -> (tagifd: TagIfd) {
        TagIfd { tag: Tag(Self::TAG), ifd: Self::IFD }
    }
}

/// Lens aperture with unit APEX
#[derive(Copy, Clone, Debug)]
pub struct Aperture;

impl Field for Aperture {
    const NAME: &'static str = "Aperture";

    const TAG: u16 = 0x9202;

    const IFD: Ifd = Ifd::Exif;

    open spec fn key() -> TagIfd {
        TagIfd { tag: Tag(0x9202), ifd: Ifd::Exif }
    }

    fn tagifd() -> (tagifd: TagIfd) {
        TagIfd { tag: Tag(Self::TAG), ifd: Self::IFD }
    }
}

#[derive(Copy, Clone, Debug)]
pub struct FocalLength;

impl Field for FocalLength {
    const NAME: &'static str = "FocalLength";

    const TAG: u16 = 0x920A;

    const IFD: Ifd = Ifd::Exif;

    open spec fn key() -> TagIfd {
        TagIfd { tag: Tag(0x920A), ifd: Ifd::Exif }
    }

    fn tagifd() -> (tagifd: TagIfd) {
        TagIfd { tag: Tag(Self::TAG), ifd: Self::IFD }
    }
}

#[derive(Copy, Clone, Debug)]
pub struct UserComment;

impl Field for UserComment {
    const NAME: &'static str = "UserComment";

    const TAG: u16 = 0x9286;

    const IFD: Ifd = Ifd::Exif;

    open spec fn key() -> TagIfd {
        TagIfd { tag: Tag(0x9286), ifd: Ifd::Exif }
    }

    fn tagifd() -> (tagifd: TagIfd) {
        TagIfd { tag: Tag(Self::TAG), ifd: Self::IFD }
    }
}

#[derive(Copy, Clone, Debug)]
pub struct CameraOwnerName;

impl Field for CameraOwnerName {
    const NAME: &'static str = "CameraOwnerName";

    const TAG: u16 = 0xA430;

    const IFD: Ifd = Ifd::Exif;

    open spec fn key() -> TagIfd {
        TagIfd { tag: Tag(0xA430), ifd: Ifd::Exif }
    }

    fn tagifd() -> (tagifd: TagIfd) {
        TagIfd { tag: Tag(Self::TAG), ifd: Self::IFD }
    }
}

#[derive(Copy, Clone, Debug)]
pub struct LensMake;

impl Field for LensMake {
    const NAME: &'static str = "LensMake";

    const TAG: u16 = 0xA433;

    const IFD: Ifd = Ifd::Exif;

    open spec fn key() -> TagIfd {
        TagIfd { tag: Tag(0xA433), ifd: Ifd::Exif }
    }

    fn tagifd() -> (tagifd: TagIfd) {
        TagIfd { tag: Tag(Self::TAG), ifd: Self::IFD }
    }
}

#[derive(Copy, Clone, Debug)]
pub struct LensModel;

impl Field for LensModel {
    const NAME: &'static str = "LensModel";

    const TAG: u16 = 0xA434;

    const IFD: Ifd = Ifd::Exif;

    open spec fn key() -> TagIfd {
        TagIfd { tag: Tag(0xA434), ifd: Ifd::Exif }
    }

    fn tagifd() -> (tagifd: TagIfd) {
        TagIfd { tag: Tag(Self::TAG), ifd: Self::IFD }
    }
}

#[derive(Copy, Clone, Debug)]
pub struct GPSLatitudeRef;

impl Field for GPSLatitudeRef {
    const NAME: &'static str = "GPSLatitudeRef";

    const TAG: u16 = 0x1;

    const IFD: Ifd = Ifd::Gps;

    open spec fn key() -> TagIfd {
        TagIfd { tag: Tag(0x1), ifd: Ifd::Gps }
    }

    fn tagifd() -> (tagifd: TagIfd) {
        TagIfd { tag: Tag(Self::TAG), ifd: Self::IFD }
    }
}

#[derive(Copy, Clone, Debug)]
pub struct GPSLatitude;

impl Field for GPSLatitude {
    const NAME: &'static str = "GPSLatitude";

    const TAG: u16 = 0x2;

    const IFD: Ifd = Ifd::Gps;

    open spec fn key() -> TagIfd {
        TagIfd { tag: Tag(0x2), ifd: Ifd::Gps }
    }

    fn tagifd() -> (tagifd: TagIfd) {
        TagIfd { tag: Tag(Self::TAG), ifd: Self::IFD }
    }
}

#[derive(Copy, Clone, Debug)]
pub struct GPSLongitudeRef;

impl Field for GPSLongitudeRef {
    const NAME: &'static str = "GPSLongitudeRef";

    const TAG: u16 = 0x3;

    const IFD: Ifd = Ifd::Gps;

    open spec fn key() -> TagIfd {
        TagIfd { tag: Tag(0x3), ifd: Ifd::Gps }
    }

    fn tagifd() -> (tagifd: TagIfd) {
        TagIfd { tag: Tag(Self::TAG), ifd: Self::IFD }
    }
}

#[derive(Copy, Clone, Debug)]
pub struct GPSLongitude;

impl Field for GPSLongitude {
    const NAME: &'static str = "GPSLongitude";

    const TAG: u16 = 0x4;

    const IFD: Ifd = Ifd::Gps;

    open spec fn key() -> TagIfd {
        TagIfd { tag: Tag(0x4), ifd: Ifd::Gps }
    }

    fn tagifd() -> (tagifd: TagIfd) {
        TagIfd { tag: Tag(Self::TAG), ifd: Self::IFD }
    }
}

/// Owner name as Canon cameras store it in their maker note
#[derive(Copy, Clone, Debug)]
pub struct CanonOwnerName;

impl Field for CanonOwnerName {
    const NAME: &'static str = "CanonOwnerName";

    const TAG: u16 = 0x9;

    const IFD: Ifd = Ifd::MakerNote;

    open spec fn key() -> TagIfd {
        TagIfd { tag: Tag(0x9), ifd: Ifd::MakerNote }
    }

    fn tagifd() -> (tagifd: TagIfd) {
        TagIfd { tag: Tag(Self::TAG), ifd: Self::IFD }
    }
}

impl crate::common::xmp::Field for Make {
    const NAME: &'static str = "Make";

    const NAMESPACE: Namespace = Namespace::Tiff;

    open spec fn name() -> Seq<char> {
        "Make"@
    }

    open spec fn namespace() -> Namespace {
        Namespace::Tiff
    }

    fn field_name() -> (name: &'static str) {
        "Make"
    }

    fn field_namespace() -> (namespace: Namespace) {
        Namespace::Tiff
    }
}

impl crate::common::xmp::Field for Model {
    const NAME: &'static str = "Model";

    const NAMESPACE: Namespace = Namespace::Tiff;

    open spec fn name() -> Seq<char> {
        "Model"@
    }

    open spec fn namespace() -> Namespace {
        Namespace::Tiff
    }

    fn field_name() -> (name: &'static str) {
        "Model"
    }

    fn field_namespace() -> (namespace: Namespace) {
        Namespace::Tiff
    }
}

impl crate::common::xmp::Field for Orientation {
    const NAME: &'static str = "Orientation";

    const NAMESPACE: Namespace = Namespace::Exif;

    open spec fn name() -> Seq<char> {
        "Orientation"@
    }

    open spec fn namespace() -> Namespace {
        Namespace::Exif
    }

    fn field_name() -> (name: &'static str) {
        "Orientation"
    }

    fn field_namespace() -> (namespace: Namespace) {
        Namespace::Exif
    }
}

impl crate::common::xmp::Field for XResolution {
    const NAME: &'static str = "XResolution";

    const NAMESPACE: Namespace = Namespace::Exif;

    open spec fn name() -> Seq<char> {
        "XResolution"@
    }

    open spec fn namespace() -> Namespace {
        Namespace::Exif
    }

    fn field_name() -> (name: &'static str) {
        "XResolution"
    }

    fn field_namespace() -> (namespace: Namespace) {
        Namespace::Exif
    }
}

impl crate::common::xmp::Field for ImageWidth {
    const NAME: &'static str = "ImageWidth";

    const NAMESPACE: Namespace = Namespace::Exif;

    open spec fn name() -> Seq<char> {
        "ImageWidth"@
    }

    open spec fn namespace() -> Namespace {
        Namespace::Exif
    }

    fn field_name() -> (name: &'static str) {
        "ImageWidth"
    }

    fn field_namespace() -> (namespace: Namespace) {
        Namespace::Exif
    }
}

impl crate::common::xmp::Field for ThumbnailImageWidth {
    const NAME: &'static str = "ThumbnailImageWidth";

    const NAMESPACE: Namespace = Namespace::Exif;

    open spec fn name() -> Seq<char> {
        "ThumbnailImageWidth"@
    }

    open spec fn namespace() -> Namespace {
        Namespace::Exif
    }

    fn field_name() -> (name: &'static str) {
        "ThumbnailImageWidth"
    }

    fn field_namespace() -> (namespace: Namespace) {
        Namespace::Exif
    }
}

impl crate::common::xmp::Field for ExposureTime {
    const NAME: &'static str = "ExposureTime";

    const NAMESPACE: Namespace = Namespace::Exif;

    open spec fn name() -> Seq<char> {
        "ExposureTime"@
    }

    open spec fn namespace() -> Namespace {
        Namespace::Exif
    }

    fn field_name() -> (name: &'static str) {
        "ExposureTime"
    }

    fn field_namespace() -> (namespace: Namespace) {
        Namespace::Exif
    }
}

impl crate::common::xmp::Field for FNumber {
    const NAME: &'static str = "FNumber";

    const NAMESPACE: Namespace = Namespace::Exif;

    open spec fn name() -> Seq<char> {
        "FNumber"@
    }

    open spec fn namespace() -> Namespace {
        Namespace::Exif
    }

    fn field_name() -> (name: &'static str) {
        "FNumber"
    }

    fn field_namespace() -> (namespace: Namespace) {
        Namespace::Exif
    }
}

impl crate::common::xmp::Field for PhotographicSensitivity {
    const NAME: &'static str = "PhotographicSensitivity";

    const NAMESPACE: Namespace = Namespace::ExifEX;

    open spec fn name() -> Seq<char> {
        "PhotographicSensitivity"@
    }

    open spec fn namespace() -> Namespace {
        Namespace::ExifEX
    }

    fn field_name() -> (name: &'static str) {
        "PhotographicSensitivity"
    }

    fn field_namespace() -> (namespace: Namespace) {
        Namespace::ExifEX
    }
}

impl crate::common::xmp::Field for DateTimeOriginal {
    const NAME: &'static str = "DateTimeOriginal";

    const NAMESPACE: Namespace = Namespace::Exif;

    open spec fn name() -> Seq<char> {
        "DateTimeOriginal"@
    }

    open spec fn namespace() -> Namespace {
        Namespace::Exif
    }

    fn field_name() -> (name: &'static str) {
        "DateTimeOriginal"
    }

    fn field_namespace() -> (namespace: Namespace) {
        Namespace::Exif
    }
}

impl crate::common::xmp::Field for Aperture {
    const NAME: &'static str = "Aperture";

    const NAMESPACE: Namespace = Namespace::Exif;

    open spec fn name() -> Seq<char> {
        "Aperture"@
    }

    open spec fn namespace() -> Namespace {
        Namespace::Exif
    }

    fn field_name() -> (name: &'static str) {
        "Aperture"
    }

    fn field_namespace() -> (namespace: Namespace) {
        Namespace::Exif
    }
}

impl crate::common::xmp::Field for FocalLength {
    const NAME: &'static str = "FocalLength";

    const NAMESPACE: Namespace = Namespace::Exif;

    open spec fn name() -> Seq<char> {
        "FocalLength"@
    }

    open spec fn namespace() -> Namespace {
        Namespace::Exif
    }

    fn field_name() -> (name: &'static str) {
        "FocalLength"
    }

    fn field_namespace() -> (namespace: Namespace) {
        Namespace::Exif
    }
}

impl crate::common::xmp::Field for LensMake {
    const NAME: &'static str = "LensMake";

    const NAMESPACE: Namespace = Namespace::Exif;

    open spec fn name() -> Seq<char> {
        "LensMake"@
    }

    open spec fn namespace() -> Namespace {
        Namespace::Exif
    }

    fn field_name() -> (name: &'static str) {
        "LensMake"
    }

    fn field_namespace() -> (namespace: Namespace) {
        Namespace::Exif
    }
}

impl crate::common::xmp::Field for LensModel {
    const NAME: &'static str = "LensModel";

    const NAMESPACE: Namespace = Namespace::Exif;

    open spec fn name() -> Seq<char> {
        "LensModel"@
    }

    open spec fn namespace() -> Namespace {
        Namespace::Exif
    }

    fn field_name() -> (name: &'static str) {
        "LensModel"
    }

    fn field_namespace() -> (namespace: Namespace) {
        Namespace::Exif
    }
}

/// Legacy XMP Exif (till Exif 2.21)
#[derive(Copy, Clone, Debug)]
pub struct ISOSpeedRatings;

impl crate::common::xmp::Field for ISOSpeedRatings {
    const NAME: &'static str = "ISOSpeedRatings";

    const NAMESPACE: Namespace = Namespace::Exif;

    open spec fn name() -> Seq<char> {
        "ISOSpeedRatings"@
    }

    open spec fn namespace() -> Namespace {
        Namespace::Exif
    }

    fn field_name() -> (name: &'static str) {
        "ISOSpeedRatings"
    }

    fn field_namespace() -> (namespace: Namespace) {
        Namespace::Exif
    }
}

/// Dublin Core
#[derive(Copy, Clone, Debug)]
pub struct Creator;

impl crate::common::xmp::Field for Creator {
    const NAME: &'static str = "creator";

    const NAMESPACE: Namespace = Namespace::Dc;

    open spec fn name() -> Seq<char> {
        "creator"@
    }

    open spec fn namespace() -> Namespace {
        Namespace::Dc
    }

    fn field_name() -> (name: &'static str) {
        "creator"
    }

    fn field_namespace() -> (namespace: Namespace) {
        Namespace::Dc
    }
}

/// XMP
#[derive(Copy, Clone, Debug)]
pub struct CreatorTool;

impl crate::common::xmp::Field for CreatorTool {
    const NAME: &'static str = "CreatorTool";

    const NAMESPACE: Namespace = Namespace::Xmp;

    open spec fn name() -> Seq<char> {
        "CreatorTool"@
    }

    open spec fn namespace() -> Namespace {
        Namespace::Xmp
    }

    fn field_name() -> (name: &'static str) {
        "CreatorTool"
    }

    fn field_namespace() -> (namespace: Namespace) {
        Namespace::Xmp
    }
}

/// The table of field names: the name of the field with the given tag in the
/// given directory.
pub open spec fn tag_name(tag: u16, ifd: Ifd) -> Option<&'static str> {
    match ifd {
        Ifd::Primary => {
            if tag == 0x10F {
                Some("Make")
            } else if tag == 0x110 {
                Some("Model")
            } else if tag == 0x112 {
                Some("Orientation")
            } else if tag == 0x11A {
                Some("XResolution")
            } else if tag == 0x100 {
                Some("ImageWidth")
            } else if tag == 0x131 {
                Some("Software")
            } else {
                None
            }
        },
        Ifd::Thumbnail => {
            if tag == 0x112 {
                Some("ThumbnailOrientation")
            } else if tag == 0x100 {
                Some("ThumbnailImageWidth")
            } else {
                None
            }
        },
        Ifd::Exif => {
            if tag == 0x829A {
                Some("ExposureTime")
            } else if tag == 0x829D {
                Some("FNumber")
            } else if tag == 0x8827 {
                Some("PhotographicSensitivity")
            } else if tag == 0x9003 {
                Some("DateTimeOriginal")
            } else if tag == 0x9011 {
                Some("OffsetTimeOriginal")
            } else if tag == 0x9291 {
                Some("SubSecTimeOriginal")
            } else if tag == 0x9202 {
                Some("Aperture")
            } else if tag == 0x920A {
                Some("FocalLength")
            } else if tag == 0x9286 {
                Some("UserComment")
            } else if tag == 0xA430 {
                Some("CameraOwnerName")
            } else if tag == 0xA433 {
                Some("LensMake")
            } else if tag == 0xA434 {
                Some("LensModel")
            } else {
                None
            }
        },
        Ifd::Gps => {
            if tag == 0x1 {
                Some("GPSLatitudeRef")
            } else if tag == 0x2 {
                Some("GPSLatitude")
            } else if tag == 0x3 {
                Some("GPSLongitudeRef")
            } else if tag == 0x4 {
                Some("GPSLongitude")
            } else {
                None
            }
        },
        Ifd::Interoperability => None,
        Ifd::MakerNote => {
            if tag == 0x9 {
                Some("CanonOwnerName")
            } else {
                None
            }
        },
    }
}

} // verus!
