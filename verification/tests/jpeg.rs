use gufo::common::exif::TagIfd;
use gufo::common::field;
use gufo::common::image::{ImageFormat, ImageMetadata};
use gufo::common::orientation::{Orientation, Rotation};
use gufo::common::xmp::Namespace;
use gufo::exif::{Exif, ExifRaw};
use gufo::jpeg::encoder::ColorType;
use gufo::jpeg::file::Want;
use gufo::jpeg::scan::find_segments;
use gufo::xmp::{Tag, Xmp};
use gufo::jpeg::{
    ColorModel, ComponentSpecification, ComponentSpecificationParameters, Dqt, EncoderError, Error,
    Jpeg, Marker, NewSegment, RawSegment, Sof, Sos, EXIF_IDENTIFIER_STRING,
    XMP_IDENTIFIER_STRING,
};

fn segment(marker: u8, data: &[u8]) -> Vec<u8> {
    let mut out = vec![0xFF, marker];
    out.extend_from_slice(&((data.len() + 2) as u16).to_be_bytes());
    out.extend_from_slice(data);
    out
}

fn dqt8(tq: u8, first: u8) -> Vec<u8> {
    let mut data = vec![tq];
    data.extend((0..64u8).map(|i| first.wrapping_add(i)));
    data
}

fn dqt16(tq: u8) -> Vec<u8> {
    let mut data = vec![0x10 | tq];
    for i in 0..64u16 {
        data.extend_from_slice(&(1000 + i).to_be_bytes());
    }
    data
}

// A file with three components; the data of its scan holds a stuffed zero
// and a restart marker.
fn file(adobe: Option<u8>, components: u8) -> Vec<u8> {
    let mut out = vec![0xFF, 0xD8];
    out.extend(segment(0xE0, b"JFIF\0"));
    out.extend(segment(0xE1, b"Exif\0\0II*\0"));
    out.extend(segment(0xE1, b"http://ns.adobe.com/xap/1.0/\0<x/>"));
    out.extend(segment(0xE1, b"Exif\0\0MM\0*"));
    if let Some(transform) = adobe {
        out.extend(segment(0xEE, &[b'A', b'd', b'o', b'b', b'e', 0, 100, 0, 0, 0, 0, transform]));
    }
    let mut tables = dqt8(0, 1);
    tables.extend(dqt16(1));
    out.extend(segment(0xDB, &tables));
    out.extend(segment(0xDB, &dqt8(0, 50)));
    let mut sof = vec![8, 0, 16, 0, 32, components];
    for c in 0..components {
        sof.extend_from_slice(&[c + 1, if c == 0 { 0x22 } else { 0x11 }, if c == 0 { 0 } else { 1 }]);
    }
    out.extend(segment(0xC2, &sof));
    let mut sos = vec![components];
    for c in 0..components {
        sos.extend_from_slice(&[c + 1, 0x12]);
    }
    sos.extend_from_slice(&[0, 63, 0x21]);
    out.extend(segment(0xDA, &sos));
    out.extend_from_slice(&[1, 2, 0xFF, 0x00, 3, 0xFF, 0xD0, 4, 5]);
    out.extend(segment(0xDA, &sos));
    out.extend_from_slice(&[6, 7]);
    out.extend_from_slice(&[0xFF, 0xD9]);
    out.extend_from_slice(b"trailing");
    out
}

#[test]
fn segments_are_found() {
    let data = file(None, 3);
    let jpeg = Jpeg::new(data.clone()).unwrap();
    let markers: Vec<Marker> = jpeg.segments().iter().map(|s| s.marker()).collect();
    assert_eq!(
        markers,
        vec![
            Marker::SOI,
            Marker::APP0,
            Marker::APP1,
            Marker::APP1,
            Marker::APP1,
            Marker::DQT,
            Marker::DQT,
            Marker::SOF2,
            Marker::SOS,
            Marker::RST0,
            Marker::SOS,
            Marker::EOI,
        ]
    );
    let segments = jpeg.segments();
    assert_eq!(segments[0].data(), b"");
    assert_eq!(segments[0].data_pos(), 2);
    assert_eq!(segments[1].data(), b"JFIF\0");
    assert_eq!(segments[1].data_pos(), 6);
    assert_eq!(segments[9].data(), b"");
    assert_eq!(
        segments[1].unsafe_raw_segment(),
        RawSegment { marker: Marker::APP0, data_start: 6, data_end: 11 }
    );
    assert_eq!(segments[1].unsafe_raw_segment().complete_data(), (2, 11));
    assert_eq!(jpeg.segments_marker(Marker::APP1).len(), 3);
    assert_eq!(jpeg.segments_marker(Marker::COM).len(), 0);
    assert_eq!(jpeg.segment_by_marker(&Marker::APP1).unwrap().data(), b"Exif\0\0II*\0");
    assert!(jpeg.segment_by_marker(&Marker::APP2).is_none());
    assert_eq!(jpeg.n_sos(), 2);
    assert_eq!(jpeg.select(Want::Frame).len(), 1);
    assert_eq!(jpeg.into_inner(), data);
}

#[test]
fn exif_and_xmp_data_are_found() {
    let jpeg = Jpeg::new(file(None, 3)).unwrap();
    assert_eq!(jpeg.exif_segments().len(), 2);
    assert_eq!(jpeg.xmp_segments().len(), 1);
    assert_eq!(jpeg.exif_data(), vec![&b"II*\0"[..], &b"MM\0*"[..]]);
    assert_eq!(jpeg.xmp_data(), vec![&b"<x/>"[..]]);
    assert_eq!(ImageMetadata::exif(&jpeg), vec![b"II*\0".to_vec(), b"MM\0*".to_vec()]);
    assert_eq!(ImageMetadata::xmp(&jpeg), vec![b"<x/>".to_vec()]);
    assert_eq!(ImageMetadata::cicp(&jpeg), None);
    assert!(Jpeg::is_filetype(&[0xFF, 0xD8, 0xFF]));
    assert!(!Jpeg::is_filetype(&[0xFF, 0xD8]));
    assert!(!Jpeg::is_filetype(&[0xFF, 0xD8, 0xFE]));
}

#[test]
fn broken_files_are_refused() {
    assert_eq!(find_segments(&[]), Err(Error::UnexpectedEof));
    assert_eq!(find_segments(&[0xFF]), Err(Error::UnexpectedEof));
    assert_eq!(find_segments(&[0xFF, 0xD8]), Err(Error::InvalidMagicBytes([0xFF, 0xD8])));
    assert_eq!(find_segments(&[0x89, b'P', b'N']), Err(Error::InvalidMagicBytes([0x89, b'P'])));
    assert_eq!(find_segments(&[0xFF, 0xD8, 0xFF]), Err(Error::UnexpectedEof));
    assert_eq!(find_segments(&[0xFF, 0xD8, 0xFF, 0xD9]).map(|s| s.len()), Ok(2));
    assert_eq!(find_segments(&[0xFF, 0xD8, 0xFF, 0xE0]), Err(Error::UnexpectedEof));
    // The length reaches beyond the end of the file.
    assert_eq!(find_segments(&[0xFF, 0xD8, 0xFF, 0xE0, 0, 9, 1, 2]), Err(Error::UnexpectedEof));
    // The length does not even count itself.
    assert_eq!(
        find_segments(&[0xFF, 0xD8, 0xFF, 0xE0, 0, 1, 0xFF, 0xD9]),
        Err(Error::UnexpectedEof)
    );
    assert_eq!(
        find_segments(&[0xFF, 0xD8, 0xFF, 0xE0, 0, 2, 7, 0xD9]),
        Err(Error::ExpectedMarkerStart(7))
    );
    // No end of the image behind the scan
    let mut data = file(None, 3);
    data.truncate(data.len() - 10);
    let error = Jpeg::new(data.clone()).unwrap_err();
    assert_eq!(*error.err(), Error::UnexpectedEof);
    assert_eq!(error.into_inner(), data);
}

#[test]
fn markers_have_codes() {
    for code in 0..=255u8 {
        assert_eq!(Marker::from_u8(code).to_u8(), code);
    }
    assert_eq!(Marker::from_u8(0xD8), Marker::SOI);
    assert_eq!(Marker::from_u8(0xEF), Marker::APP15);
    assert_eq!(Marker::from_u8(0xFD), Marker::JPG13);
    assert_eq!(Marker::from_u8(0x02), Marker::Unknown(2));
    for code in 0..=255u8 {
        let marker = Marker::from_u8(code);
        assert_eq!(marker.is_standalone(), (0xD0..=0xD9).contains(&code));
        assert_eq!(marker.is_sof(), (0xC0..=0xC2).contains(&code));
    }
    assert_eq!(Marker::SOF0.is_progressive_sof(), Ok(false));
    assert_eq!(Marker::SOF1.is_progressive_sof(), Ok(false));
    assert_eq!(Marker::SOF2.is_progressive_sof(), Ok(true));
    assert_eq!(Marker::DHT.is_progressive_sof(), Err(Error::NoSofSegmentFound));
}

#[test]
fn headers_are_read() {
    let jpeg = Jpeg::new(file(None, 3)).unwrap();
    let sof = jpeg.sof().unwrap();
    assert_eq!((sof.p, sof.y, sof.x), (8, 16, 32));
    assert_eq!(
        sof.parameters,
        vec![
            ComponentSpecificationParameters { c: 1, h: 2, v: 2, tq: 0 },
            ComponentSpecificationParameters { c: 2, h: 1, v: 1, tq: 1 },
            ComponentSpecificationParameters { c: 3, h: 1, v: 1, tq: 1 },
        ]
    );
    let sos = jpeg.sos().unwrap();
    assert_eq!(sos.components_specifications[2], ComponentSpecification { cs: 3, td: 1, ta: 2 });
    assert_eq!((sos.ss, sos.se, sos.ah, sos.al), (0, 63, 2, 1));
    assert_eq!(jpeg.is_progressive(), Ok(true));
    assert_eq!(
        jpeg.components_specification_parameters(1),
        Ok(ComponentSpecificationParameters { c: 2, h: 1, v: 1, tq: 1 })
    );
    assert_eq!(
        jpeg.components_specification_parameters(3),
        Err(Error::MissingComponentSpecification)
    );
    assert_eq!(Sof::from_data(&[8, 0, 1, 0, 1]).err(), Some(Error::UnexpectedEof));
    assert_eq!(Sof::from_data(&[8, 0, 1, 0, 1, 1, 1, 0x11]).err(), Some(Error::UnexpectedEof));
    assert_eq!(Sos::from_data(&[]).err(), Some(Error::UnexpectedEof));
    assert_eq!(Sos::from_data(&[1, 1, 0, 0, 63]).err(), Some(Error::UnexpectedEof));
    assert_eq!(Sos::from_data(&[0, 1, 2, 0x34]).unwrap().se, 2);
    assert_eq!(
        ComponentSpecificationParameters::from_data(&[9, 0x41, 3]),
        Ok(ComponentSpecificationParameters { c: 9, h: 4, v: 1, tq: 3 })
    );
    assert_eq!(ComponentSpecificationParameters::from_data(&[9, 0x41]), Err(Error::UnexpectedEof));
    assert_eq!(
        ComponentSpecification::from_data(&[9, 0xAB]),
        Ok(ComponentSpecification { cs: 9, td: 10, ta: 11 })
    );
    assert_eq!(ComponentSpecification::from_data(&[9]), Err(Error::UnexpectedEof));
    let bare = Jpeg::new(vec![0xFF, 0xD8, 0xFF, 0xD9]).unwrap();
    assert_eq!(bare.sof().err(), Some(Error::NoSofSegmentFound));
    assert_eq!(bare.sos().err(), Some(Error::NoSosSegmentFound));
    assert_eq!(bare.is_progressive(), Err(Error::NoSofSegmentFound));
    assert_eq!(bare.color_model(), Err(Error::NoSosSegmentFound));
}

#[test]
fn quantization_tables_are_read() {
    let jpeg = Jpeg::new(file(None, 3)).unwrap();
    let dqts = jpeg.dqts().unwrap();
    assert_eq!(dqts.len(), 3);
    assert_eq!(dqts[0].tq(), 0);
    assert!(matches!(dqts[0], Dqt::Dqt8(_)));
    assert_eq!(dqts[0].qk()[0], 1);
    assert_eq!(dqts[0].qk()[63], 64);
    assert_eq!(dqts[1].tq(), 1);
    assert!(matches!(dqts[1], Dqt::Dqt16(_)));
    assert_eq!(dqts[1].qk()[2], 1002);
    assert_eq!(dqts[2].qk()[0], 50);
    // Row by row instead of zig-zag
    let ordered = dqts[1].qk_ordered();
    assert_eq!(&ordered[..9], &[1000, 1001, 1005, 1006, 1014, 1015, 1027, 1028, 1002]);
    assert_eq!(ordered[63], 1063);
    assert_eq!(Dqt::from_data(&[]).unwrap().len(), 0);
    assert_eq!(Dqt::from_data(&[0x20]).err(), Some(Error::UnknownPq(2)));
    assert_eq!(Dqt::from_data(&dqt8(0, 0)[..64]).err(), Some(Error::UnexpectedEof));
    assert_eq!(Dqt::from_data(&dqt16(0)[..128]).err(), Some(Error::UnexpectedEof));
    // The last table for a destination counts.
    let (luma, chroma) = jpeg.quantization_tables().unwrap();
    assert_eq!(luma[0], 50);
    assert_eq!(chroma[0], 1000);
}

#[test]
fn color_model_follows_adobe_or_components() {
    let model = |adobe, n| Jpeg::new(file(adobe, n)).unwrap().color_model();
    assert_eq!(model(None, 1), Ok(ColorModel::Grayscale));
    assert_eq!(model(None, 3), Ok(ColorModel::YCbCr));
    assert_eq!(model(None, 4), Err(Error::UnknownColorModel));
    assert_eq!(model(Some(0), 4), Ok(ColorModel::Cmyk));
    assert_eq!(model(Some(0), 3), Ok(ColorModel::Rgb));
    assert_eq!(model(Some(0), 1), Err(Error::UnknownColorModel));
    assert_eq!(model(Some(1), 3), Ok(ColorModel::YCbCr));
    assert_eq!(model(Some(2), 4), Ok(ColorModel::Ycck));
    assert_eq!(model(Some(3), 3), Err(Error::UnknownColorModel));
}

#[test]
fn encoder_settings_follow_the_file() {
    assert_eq!(ColorModel::Cmyk.color_type(), Ok(ColorType::Cmyk));
    assert_eq!(ColorModel::Grayscale.color_type(), Ok(ColorType::Luma));
    assert_eq!(ColorModel::YCbCr.color_type(), Ok(ColorType::Ycbcr));
    assert_eq!(ColorModel::Ycck.color_type(), Ok(ColorType::Ycck));
    assert_eq!(ColorModel::Rgb.color_type(), Err(EncoderError::UnsupportedColorModel));
    let factors = |adobe, n| Jpeg::new(file(adobe, n)).unwrap().sampling_factor();
    assert_eq!(factors(None, 3), Ok((2, 2)));
    assert_eq!(factors(None, 1), Ok((1, 1)));
    assert_eq!(factors(Some(0), 4), Ok((1, 1)));
    assert_eq!(factors(Some(0), 3), Err(EncoderError::UnsupportedColorModel));
    // Luma is sampled 2x2, the fourth component 1x1.
    assert_eq!(factors(Some(2), 4), Err(EncoderError::UnsupportedSamplingFactor));
    assert_eq!(factors(None, 4), Err(EncoderError::Gufo(Error::UnknownColorModel)));
    // The encoder has no variant for sampling factors of 3 or of 4 both ways.
    for (byte, expected) in [
        (0x44, Err(EncoderError::UnsupportedSamplingFactor)),
        (0x31, Err(EncoderError::UnsupportedSamplingFactor)),
        (0x10, Err(EncoderError::UnsupportedSamplingFactor)),
        (0x42, Ok((4, 2))),
        (0x14, Ok((1, 4))),
    ] {
        let mut data = file(None, 3);
        let at = data.windows(2).position(|w| w == [0xFF, 0xC2]).unwrap() + 4 + 6 + 1;
        assert_eq!(data[at], 0x22);
        data[at] = byte;
        assert_eq!(Jpeg::new(data).unwrap().sampling_factor(), expected);
    }
}

#[test]
fn segments_are_replaced() {
    let mut jpeg = Jpeg::new(file(None, 3)).unwrap();
    let len = jpeg.data.len();
    let old = jpeg.exif_segments()[0].unsafe_raw_segment();
    let new = NewSegment::new(Marker::APP1, b"Exif\0\0new document").unwrap();
    assert_eq!(jpeg.replace_segment(old, new), Ok(()));
    assert_eq!(jpeg.data.len(), len + 8);
    assert_eq!(jpeg.exif_data(), vec![&b"new document"[..], &b"MM\0*"[..]]);
    assert_eq!(jpeg.segments().len(), 12);
    let mut bytes = Vec::new();
    NewSegment::new(Marker::COM, b"hi").unwrap().write_to(&mut bytes);
    assert_eq!(bytes, vec![0xFF, 0xFE, 0, 4, b'h', b'i']);
    let long = vec![0u8; 65534];
    assert_eq!(NewSegment::new(Marker::COM, &long).err(), Some(Error::Math));
    assert_eq!(NewSegment::new(Marker::COM, &long[..65533]).unwrap().total_len, 65535);
}

// A little-endian document with a model and an orientation.
fn exif_document() -> Vec<u8> {
    let mut data = b"II*\0\x08\0\0\0\x02\0".to_vec();
    data.extend_from_slice(&[0x10, 0x01, 2, 0, 9, 0, 0, 0, 38, 0, 0, 0]);
    data.extend_from_slice(&[0x12, 0x01, 3, 0, 1, 0, 0, 0, 1, 0, 0, 0]);
    data.extend_from_slice(&[0, 0, 0, 0]);
    data.extend_from_slice(b"iPhone 6\0");
    data
}

const PACKET: &str = r#"<x:xmpmeta xmlns:x="adobe:ns:meta/">
 <rdf:RDF xmlns:rdf="http://www.w3.org/1999/02/22-rdf-syntax-ns#">
  <rdf:Description rdf:about="" xmlns:xmp="http://ns.adobe.com/xap/1.0/"
   xmp:CreatorTool="GIMP 2.10"/>
 </rdf:RDF>
</x:xmpmeta>"#;

// A file that carries the document and the packet.
fn exif_xmp_file() -> Vec<u8> {
    let mut out = vec![0xFF, 0xD8];
    out.extend(segment(0xE0, b"JFIF\0"));
    let mut exif = EXIF_IDENTIFIER_STRING.as_bytes().to_vec();
    exif.extend(exif_document());
    out.extend(segment(0xE1, &exif));
    let mut xmp = XMP_IDENTIFIER_STRING.as_bytes().to_vec();
    xmp.extend_from_slice(PACKET.as_bytes());
    out.extend(segment(0xE1, &xmp));
    out.extend(segment(0xDA, &[1, 1, 0, 0, 63, 0]));
    out.extend_from_slice(&[1, 2, 3, 0xFF, 0xD9]);
    out
}

#[test]
fn exif() {
    let jpeg = Jpeg::new(exif_xmp_file()).unwrap();
    let exif = Exif::new(jpeg.exif_data()[0].to_vec()).unwrap();
    assert_eq!(exif.orientation(), Some(Orientation::Id));
    assert_eq!(exif.model(), Some(String::from("iPhone 6")));
}

#[test]
fn xmp() {
    let jpeg = Jpeg::new(exif_xmp_file()).unwrap();
    let xmp = Xmp::new(jpeg.xmp_data()[0].to_vec()).unwrap();
    assert_eq!(
        xmp.get(&Tag::new(Namespace::Xmp, "CreatorTool".into())),
        Some("GIMP 2.10")
    );
}

#[test]
fn rotate() {
    let jpeg = Jpeg::new(exif_xmp_file()).unwrap();
    let mut exif = ExifRaw::new(jpeg.exif_data()[0].to_vec());
    exif.decode().unwrap();
    let entry = exif.lookup_entry(TagIfd::of(field::Orientation)).unwrap();
    let pos = jpeg.exif_segments()[0].data_pos()
        + entry.value_offset_position() as usize
        + EXIF_IDENTIFIER_STRING.len();
    let mut data = jpeg.into_inner();
    let current_orientation = Orientation::from_u16(data[pos] as u16).unwrap();
    let new_rotation = current_orientation.rotate().plus(Rotation::_180);
    let new_orientation = Orientation::new(current_orientation.mirror(), new_rotation);
    data[pos] = new_orientation.to_u16() as u8;
    let jpeg = Jpeg::new(data).unwrap();
    let exif = Exif::new(jpeg.exif_data()[0].to_vec()).unwrap();
    assert_eq!(exif.orientation(), Some(Orientation::Rotation180));
}
