use gufo::common::cicp::{
    Cicp, CicpError, ColorPrimaries, MatrixCoefficients, TransferCharacteristics, VideoRangeFlag,
};
use gufo::common::datetime::DateTime;
use gufo::common::error::ErrorWithData;
use gufo::common::geography::{InvalidLatRef, InvalidLonRef, LatRef, LonRef};
use gufo::common::isobmff::{BoxType, Document};
use gufo::common::math::{
    Checked, MathError, SafeAdd, SafeDiv, SafeMul, SafeNeg, SafeSub, ToI64, ToU16, ToU32, ToUsize,
};
use gufo::common::orientation::{Orientation, Rotation, UnknownOrientationValueError};
use gufo::common::physical_dimension::PhysicalDimensionUnit;
use gufo::common::read::{get_range, ReadError, SliceCursor};
use gufo::common::xmp::Namespace;

const ALL: [Orientation; 8] = [
    Orientation::Id,
    Orientation::Rotation90,
    Orientation::Rotation180,
    Orientation::Rotation270,
    Orientation::Mirrored,
    Orientation::MirroredRotation90,
    Orientation::MirroredRotation180,
    Orientation::MirroredRotation270,
];

#[test]
fn orientation_codes_round_trip() {
    let codes = [1, 8, 3, 6, 2, 5, 4, 7];
    for (orientation, code) in ALL.iter().zip(codes) {
        assert_eq!(orientation.to_u16(), code);
        assert_eq!(Orientation::from_u16(code), Ok(*orientation));
    }
    assert_eq!(Orientation::from_u16(0), Err(UnknownOrientationValueError(0)));
    assert_eq!(Orientation::from_u16(9), Err(UnknownOrientationValueError(9)));
}

#[test]
fn orientation_is_mirror_and_rotation() {
    for orientation in ALL {
        assert_eq!(Orientation::new(orientation.mirror(), orientation.rotate()), orientation);
        assert_eq!(orientation.combine(Orientation::Id), orientation);
        assert_eq!(Orientation::Id.combine(orientation), orientation);
        assert_eq!(orientation.add_mirror_horizontally().add_mirror_horizontally(), orientation);
        assert_eq!(orientation.add_mirror_vertically().add_mirror_vertically(), orientation);
        assert_eq!(orientation.add_rotation(Rotation::_0), orientation);
        assert_eq!(
            orientation.add_rotation(Rotation::_90).add_rotation(Rotation::_270),
            orientation
        );
    }
    assert_eq!(Orientation::Rotation90.combine(Orientation::Rotation90), Orientation::Rotation180);
    assert_eq!(Orientation::Rotation90.add_mirror_horizontally(), Orientation::MirroredRotation270);
    assert_eq!(Orientation::Rotation90.add_mirror_vertically(), Orientation::MirroredRotation270);
    assert_eq!(Orientation::Id.add_mirror_vertically(), Orientation::MirroredRotation180);
    assert_eq!(
        Orientation::Rotation90.combine(Orientation::Mirrored),
        Orientation::MirroredRotation270
    );
    assert_eq!(Orientation::new(true, Rotation::_90), Orientation::MirroredRotation90);
    assert!(!Orientation::Rotation180.mirror());
    assert_eq!(Orientation::MirroredRotation180.rotate(), Rotation::_180);
}

#[test]
fn rotations_add_up() {
    assert_eq!(Rotation::_0.degrees(), 0);
    assert_eq!(Rotation::_90.degrees(), 90);
    assert_eq!(Rotation::_180.degrees(), 180);
    assert_eq!(Rotation::_270.degrees(), 270);
    assert_eq!(Rotation::_270.plus(Rotation::_180), Rotation::_90);
    assert_eq!(Rotation::_0.minus(Rotation::_90), Rotation::_270);
    assert_eq!(Rotation::_90.minus(Rotation::_90), Rotation::_0);
    assert_eq!(Rotation::_180.plus(Rotation::_180), Rotation::_0);
}

#[test]
fn cicp_from_bytes() {
    let cicp = Cicp::from_bytes(&[0x09, 0x10, 0x00, 0x01]).unwrap();
    assert_eq!(cicp.color_primaries, ColorPrimaries::Rec2020);
    assert_eq!(cicp.transfer_characteristics, TransferCharacteristics::Pq);
    assert_eq!(cicp.matrix_coefficients, MatrixCoefficients::Identity);
    assert_eq!(cicp.video_full_range_flag, VideoRangeFlag::Full);
    assert_eq!(cicp.to_bytes(), vec![0x09, 0x10, 0x00, 0x01]);
    assert_eq!(
        Cicp::from_bytes(&[1, 13, 0, 2]),
        Err(CicpError::InvalidVideoFullRangeFlag(2))
    );
    assert_eq!(Cicp::from_bytes(&[1, 13, 0, 1]), Ok(Cicp::srgb()));
    assert_eq!(Cicp::rec2020_linear().to_bytes(), vec![9, 8, 0, 1]);
    let unknown = Cicp::from_bytes(&[200, 201, 202, 0]).unwrap();
    assert_eq!(unknown.color_primaries, ColorPrimaries::Unknown(200));
    assert_eq!(unknown.transfer_characteristics, TransferCharacteristics::Unknown(201));
    assert_eq!(unknown.matrix_coefficients, MatrixCoefficients::Unknown(202));
    assert_eq!(unknown.video_full_range_flag, VideoRangeFlag::Narrow);
    for code in 0..=255u8 {
        assert_eq!(ColorPrimaries::from_u8(code).to_u8(), code);
        assert_eq!(TransferCharacteristics::from_u8(code).to_u8(), code);
        assert_eq!(MatrixCoefficients::from_u8(code).to_u8(), code);
    }
    assert_eq!(ColorPrimaries::from_u8(12), ColorPrimaries::DciP3);
    assert_eq!(TransferCharacteristics::from_u8(18), TransferCharacteristics::Hlg);
    assert_eq!(MatrixCoefficients::from_u8(14), MatrixCoefficients::ICtCp);
}

#[test]
fn namespaces_have_urls() {
    let known = [
        (Namespace::Tiff, "http://ns.adobe.com/tiff/1.0/"),
        (Namespace::Exif, "http://ns.adobe.com/exif/1.0/"),
        (Namespace::ExifEX, "http://cipa.jp/exif/1.0/"),
        (Namespace::Xmp, "http://ns.adobe.com/xap/1.0/"),
        (Namespace::XmpRights, "http://ns.adobe.com/xap/1.0/rights/"),
        (Namespace::Ps, "http://ns.adobe.com/photoshop/1.0/"),
        (Namespace::Dc, "http://purl.org/dc/elements/1.1/"),
    ];
    for (namespace, url) in known {
        assert_eq!(namespace.to_url(), url);
        assert_eq!(Namespace::from_url(url), namespace);
    }
    let other = Namespace::from_url("http://example.org/");
    assert_eq!(other, Namespace::Unknown("http://example.org/".to_string()));
    assert_eq!(other.to_url(), "http://example.org/");
    // A URL that differs in its last character only is another namespace.
    assert_eq!(
        Namespace::from_url("http://ns.adobe.com/tiff/1.0"),
        Namespace::Unknown("http://ns.adobe.com/tiff/1.0".to_string())
    );
}

#[test]
fn hemispheres_have_letters() {
    assert_eq!(LatRef::from_letter("N"), Ok(LatRef::North));
    assert_eq!(LatRef::from_letter("S"), Ok(LatRef::South));
    assert_eq!(LatRef::from_letter("E"), Err(InvalidLatRef::InvalidLatitudeRef("E".to_string())));
    assert_eq!(LonRef::from_letter("E"), Ok(LonRef::East));
    assert_eq!(LonRef::from_letter("W"), Ok(LonRef::West));
    assert_eq!(LonRef::from_letter(""), Err(InvalidLonRef::InvalidLonRef("".to_string())));
    assert_eq!(LatRef::South.as_letter(), "S");
    assert_eq!(LonRef::West.as_letter(), "W");
}

#[test]
fn units_have_shorthands() {
    assert_eq!(PhysicalDimensionUnit::Inch.shorthand(), "in");
    assert_eq!(PhysicalDimensionUnit::Pica.shorthand(), "pc");
    assert_eq!(PhysicalDimensionUnit::Point.shorthand(), "pt");
    assert_eq!(PhysicalDimensionUnit::Meter.shorthand(), "m");
    assert_eq!(PhysicalDimensionUnit::Centimeter.shorthand(), "cm");
    assert_eq!(PhysicalDimensionUnit::Millimeter.shorthand(), "mm");
}

#[test]
fn error_with_data_hands_the_data_back() {
    let error = ErrorWithData::new(7u8, vec![1, 2, 3]);
    assert_eq!(*error.err(), 7);
    let mapped = error.map_err(|e| e as u32 + 1);
    assert_eq!(*mapped.err(), 8);
    assert_eq!(mapped.into_inner(), vec![1, 2, 3]);
}

#[test]
fn checked_arithmetic_reports_what_does_not_fit() {
    assert_eq!(2u32.safe_add(3), Ok(5));
    assert_eq!(
        u32::MAX.safe_add(1),
        Err(MathError::AddFailed(Some(u32::MAX as i128), Some(1)))
    );
    assert_eq!(2u16.safe_sub(3), Err(MathError::SubFailed(Some(2), Some(3))));
    assert_eq!(5i64.safe_sub(7), Ok(-2));
    assert_eq!(6usize.safe_mul(7), Ok(42));
    assert_eq!(
        i32::MAX.safe_mul(2),
        Err(MathError::MulFailed(Some(i32::MAX as i128), Some(2)))
    );
    assert_eq!(7u64.safe_div(2), Ok(3));
    assert_eq!(7u64.safe_div(0), Err(MathError::DivFailed(Some(7), Some(0))));
    assert_eq!((-7i32).safe_div(2), Ok(-3));
    assert_eq!(7i32.safe_div(-2), Ok(-3));
    assert_eq!((-7i32).safe_div(-2), Ok(3));
    assert_eq!(
        i16::MIN.safe_div(-1),
        Err(MathError::DivFailed(Some(i16::MIN as i128), Some(-1)))
    );
    assert_eq!(5i16.safe_neg(), Ok(-5));
    assert_eq!(i64::MIN.safe_neg(), Err(MathError::NegationOverflow(Some(i64::MIN as i128))));
    assert_eq!(70000u32.u16(), Err(MathError::ConversionFailed(Some(70000))));
    assert_eq!(65535u32.u16(), Ok(65535));
    assert_eq!((-1i64).u32(), Err(MathError::ConversionFailed(Some(-1))));
    assert_eq!(12u64.usize(), Ok(12));
    assert_eq!(u64::MAX.i64(), Err(MathError::ConversionFailed(Some(u64::MAX as i128))));
    assert_eq!(Checked::new(2u32).check(), Ok(2));
}

#[test]
fn date_time_is_read_from_rfc3339() {
    assert_eq!(
        DateTime::parse("1970-01-01T00:00:10Z", false),
        Some(DateTime::Naive { timestamp: 10, nanos: 0 })
    );
    assert_eq!(
        DateTime::parse("1970-01-01T01:00:10.5+01:00", true),
        Some(DateTime::FixedOffset { timestamp: 10, nanos: 500_000_000, offset: 3600 })
    );
    assert_eq!(
        DateTime::parse("1969-12-31T19:00:00-05:00", true),
        Some(DateTime::FixedOffset { timestamp: 0, nanos: 0, offset: -18000 })
    );
    assert_eq!(DateTime::parse("2007:10:19 19:57:06", false), None);
    assert_eq!(DateTime::parse("", true), None);
    assert_eq!(
        DateTime::from_parsed((5, 6, 7), true),
        DateTime::FixedOffset { timestamp: 5, nanos: 6, offset: 7 }
    );
    assert_eq!(DateTime::from_parsed((5, 6, 7), false), DateTime::Naive { timestamp: 5, nanos: 6 });
}

fn boxed(name: &[u8; 4], data: &[u8]) -> Vec<u8> {
    let mut out = ((data.len() + 8) as u32).to_be_bytes().to_vec();
    out.extend_from_slice(name);
    out.extend_from_slice(data);
    out
}

#[test]
fn boxes_are_found() {
    let mut file = vec![0, 0, 0, 0x0C, 0x4A, 0x58, 0x4C, 0x20, 0x0D, 0x0A, 0x87, 0x0A];
    file.extend(boxed(b"ftyp", b"jxl "));
    file.extend(boxed(b"jxlp", &[0, 0, 0, 0, 1, 2]));
    // A box with a size of 64 bits
    file.extend_from_slice(&1u32.to_be_bytes());
    file.extend_from_slice(b"abcd");
    file.extend_from_slice(&19u64.to_be_bytes());
    file.extend_from_slice(&[9, 8, 7]);
    // A box that reaches to the end of the file
    file.extend_from_slice(&0u32.to_be_bytes());
    file.extend_from_slice(b"jxlp");
    file.extend_from_slice(&[0, 0, 0, 1, 5]);
    let document = Document::new(&file, 12);
    assert_eq!(document.boxes.len(), 4);
    assert_eq!(document.boxes[0].box_type(), BoxType::File);
    assert_eq!(document.boxes[0].data(), b"jxl ");
    assert_eq!(document.boxes[0].pos(), 20);
    assert_eq!(document.boxes[0].data_pos(), 22);
    assert_eq!(document.boxes[1].box_type(), BoxType::JxlImagePartial);
    assert_eq!(document.boxes[2].box_type(), BoxType::Unknown(u32::from_be_bytes(*b"abcd")));
    assert_eq!(document.boxes[2].data(), &[9, 8, 7]);
    assert_eq!(document.boxes[3].data(), &[0, 0, 0, 1, 5]);
    let partial = document.boxes_type(BoxType::JxlImagePartial);
    assert_eq!(partial.len(), 2);
    assert_eq!(partial[0].data(), &[0, 0, 0, 0, 1, 2]);
    assert_eq!(partial[1].data(), &[0, 0, 0, 1, 5]);
    assert!(document.boxes_type(BoxType::Brotli).is_empty());
    // Reading stops where no whole box stands.
    let document = Document::new(&file[..30], 12);
    assert_eq!(document.boxes.len(), 1);
    assert!(Document::new(&file, 1000).boxes.is_empty());
    assert!(Document::new(&file[..15], 12).boxes.is_empty());
    for (code, box_type) in [
        (*b"ftyp", BoxType::File),
        (*b"brob", BoxType::Brotli),
        (*b"jxlc", BoxType::JxlImage),
        (*b"jxlp", BoxType::JxlImagePartial),
        (*b"jbrd", BoxType::JpegBitstreamReconstructionData),
    ] {
        assert_eq!(BoxType::from_u32(u32::from_be_bytes(code)), box_type);
        assert_eq!(box_type.to_u32(), u32::from_be_bytes(code));
    }
}

#[test]
fn slices_are_read_up_to_a_byte() {
    let mut s = SliceCursor::new(b"abc\0defgh\0end");
    assert_eq!(s.slice_until(b'\0'), Ok(&b"abc"[..]));
    assert_eq!(s.slice_until(b'\0'), Ok(&b"defgh"[..]));
    assert_eq!(s.slice_until(b'\0'), Ok(&b"end"[..]));
    assert_eq!(s.position, 14);
    assert_eq!(s.slice_until(b'\0'), Err(ReadError::InvalidIndex));
    assert_eq!(s.slice_to_end(), Err(ReadError::InvalidIndex));

    let mut s = SliceCursor::new(b"abc\0end");
    assert_eq!(s.slice_until(b'\0'), Ok(&b"abc"[..]));
    assert_eq!(s.slice_to_end(), Ok(&b"end"[..]));
    assert_eq!(s.slice_to_end(), Ok(&b""[..]));
    assert_eq!(s.slice_until(b'x'), Ok(&b""[..]));
    assert_eq!(s.position, 8);

    let mut s = SliceCursor::new(&[1, 2, 3, 4, 5]);
    assert_eq!(s.read_byte(), Ok(1));
    assert_eq!(s.read_array::<3>(), Ok([2, 3, 4]));
    assert_eq!(s.read_array::<2>(), Err(ReadError::Io));
    assert_eq!(s.read_byte(), Ok(5));
    assert_eq!(s.read_byte(), Err(ReadError::Io));
    assert_eq!(s.read_array::<0>(), Ok([]));

    assert_eq!(get_range(b"abcdef", 2, 4), Ok(&b"cd"[..]));
    assert_eq!(get_range(b"abcdef", 4, 2), Err(ReadError::InvalidIndex));
    assert_eq!(get_range(b"abcdef", 4, 7), Err(ReadError::InvalidIndex));
    assert_eq!(get_range(b"abcdef", 6, 6), Ok(&b""[..]));
}
