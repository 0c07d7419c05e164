use gufo::common::cicp::Cicp;
use gufo::common::orientation::Orientation;
use gufo::jpeg::Jpeg;
use gufo::metadata::TextField;
use gufo::png::{ChunkType, NewChunk, Png};
use gufo::tiff::Tiff;
use gufo::webp::WebP;
use gufo::{Error, Image, Metadata, RawMetadata};

// A little-endian document with a make and an orientation.
fn exif(make: &[u8; 4], orientation: u16) -> Vec<u8> {
    let mut data = b"II*\0\x08\0\0\0\x02\0".to_vec();
    data.extend_from_slice(&[0x0F, 0x01, 2, 0, 4, 0, 0, 0]);
    data.extend_from_slice(make);
    data.extend_from_slice(&[0x12, 0x01, 3, 0, 1, 0, 0, 0]);
    data.extend_from_slice(&(orientation as u32).to_le_bytes());
    data.extend_from_slice(&[0, 0, 0, 0]);
    data
}

const XMP: &str = r#"<x:xmpmeta xmlns:x="adobe:ns:meta/"><rdf:RDF xmlns:rdf="http://www.w3.org/1999/02/22-rdf-syntax-ns#"><rdf:Description xmlns:tiff="http://ns.adobe.com/tiff/1.0/" xmlns:exif="http://ns.adobe.com/exif/1.0/" xmlns:dc="http://purl.org/dc/elements/1.1/" xmlns:xmp="http://ns.adobe.com/xap/1.0/" tiff:Make="XmpMake" tiff:Model="XmpModel" xmp:CreatorTool="GIMP 2.10" exif:ExposureTime="1/320" exif:ISOSpeedRatings="100" exif:DateTimeOriginal="1970-01-01T00:00:01Z"><dc:creator>Kiley</dc:creator></rdf:Description></rdf:RDF></x:xmpmeta>"#;

fn segment(marker: u8, data: &[u8]) -> Vec<u8> {
    let mut out = vec![0xFF, marker];
    out.extend_from_slice(&((data.len() + 2) as u16).to_be_bytes());
    out.extend_from_slice(data);
    out
}

fn jpeg() -> Vec<u8> {
    let mut out = vec![0xFF, 0xD8];
    let mut app1 = b"Exif\0\0".to_vec();
    app1.extend(exif(b"Abc\0", 6));
    out.extend(segment(0xE1, &app1));
    let mut app1 = b"http://ns.adobe.com/xap/1.0/\0".to_vec();
    app1.extend_from_slice(XMP.as_bytes());
    out.extend(segment(0xE1, &app1));
    let mut app1 = b"Exif\0\0".to_vec();
    app1.extend(exif(b"Xyz\0", 3));
    out.extend(segment(0xE1, &app1));
    out.extend_from_slice(&[0xFF, 0xD9]);
    out
}

fn png() -> Vec<u8> {
    let mut out = vec![137, 80, 78, 71, 13, 10, 26, 10];
    out.extend(NewChunk::new(ChunkType::cICP, vec![1, 13, 0, 1]).to_bytes());
    out.extend(NewChunk::new(ChunkType::eXIf, exif(b"Png\0", 8)).to_bytes());
    out.extend(NewChunk::new(ChunkType::IEND, vec![]).to_bytes());
    out
}

fn webp() -> Vec<u8> {
    let payload = exif(b"Web\0", 1);
    let mut body = b"WEBPEXIF".to_vec();
    body.extend_from_slice(&(payload.len() as u32).to_le_bytes());
    body.extend(payload);
    let mut out = b"RIFF".to_vec();
    out.extend_from_slice(&(body.len() as u32).to_le_bytes());
    out.extend(body);
    out
}

#[test]
fn raw_metadata_is_found_in_every_format() {
    let raw = RawMetadata::for_guessed(jpeg()).unwrap();
    assert_eq!(raw.exif, vec![exif(b"Abc\0", 6), exif(b"Xyz\0", 3)]);
    assert_eq!(raw.xmp, vec![XMP.as_bytes().to_vec()]);
    let raw = RawMetadata::for_guessed(png()).unwrap();
    assert_eq!(raw.exif, vec![exif(b"Png\0", 8)]);
    assert!(raw.xmp.is_empty());
    let raw = RawMetadata::for_guessed(exif(b"Tif\0", 2)).unwrap();
    assert_eq!(raw.exif, vec![exif(b"Tif\0", 2)]);
    let raw = RawMetadata::for_guessed(webp()).unwrap();
    assert_eq!(raw.exif, vec![exif(b"Web\0", 1)]);
    let error = RawMetadata::for_guessed(b"GIF89a".to_vec()).unwrap_err();
    assert_eq!(*error.err(), Error::NoSupportedFiletypeFound);
    assert_eq!(error.into_inner(), b"GIF89a".to_vec());
    let error = RawMetadata::for_guessed(vec![0xFF, 0xD8, 0xFF]).unwrap_err();
    assert_eq!(*error.err(), Error::Jpeg(gufo::jpeg::Error::UnexpectedEof));
    let error = RawMetadata::for_guessed(png()[..12].to_vec()).unwrap_err();
    assert_eq!(*error.err(), Error::Png(gufo::png::Error::UnexpectedEof));
    let error = RawMetadata::for_guessed(webp()[..14].to_vec()).unwrap_err();
    assert_eq!(*error.err(), Error::WebP(gufo::webp::Error::UnexpectedEof));
    assert_eq!(RawMetadata::for_jpeg(&Jpeg::new(jpeg()).unwrap()).exif.len(), 2);
    assert_eq!(RawMetadata::for_png(&Png::new(png()).unwrap()).exif.len(), 1);
    assert_eq!(RawMetadata::for_webp(&WebP::new(webp()).unwrap()).exif.len(), 1);
    assert_eq!(RawMetadata::for_tiff(&Tiff::new(vec![1, 2]).unwrap()).exif, vec![vec![1, 2]]);
    assert!(Tiff::is_filetype(b"II*\0"));
    assert!(Tiff::is_filetype(b"MM\0*abc"));
    assert!(!Tiff::is_filetype(b"II\0*"));
    assert!(!Tiff::is_filetype(b"MM\0"));
    assert_eq!(Tiff::new(vec![1, 2]).unwrap().exif(), Ok(&[1, 2][..]));
}

#[test]
fn metadata_prefers_exif_and_falls_back_to_xmp() {
    let metadata = Metadata::for_guessed(jpeg()).unwrap();
    assert!(!metadata.is_empty());
    assert_eq!(metadata.exif().len(), 2);
    assert_eq!(metadata.xmp().len(), 1);
    assert_eq!(metadata.make().as_deref(), Some("Abc"));
    assert_eq!(metadata.model().as_deref(), Some("XmpModel"));
    assert_eq!(metadata.software().as_deref(), Some("GIMP 2.10"));
    assert_eq!(metadata.creator().as_deref(), Some("Kiley"));
    assert_eq!(metadata.camera_owner(), None);
    assert_eq!(metadata.user_comment(), None);
    assert_eq!(metadata.text_field(TextField::Make).as_deref(), Some("Abc"));
    assert_eq!(metadata.orientation(), Some(Orientation::Rotation270));
    assert_eq!(metadata.exposure_time(), Some((1, 320)));
    assert_eq!(metadata.iso_speed_rating(), Some(100));
    assert_eq!(metadata.gps_location(), None);
    assert_eq!(
        metadata.date_time_original(),
        Some(gufo::common::datetime::DateTime::FixedOffset { timestamp: 1, nanos: 0, offset: 0 })
    );
    assert_eq!(Metadata::for_jpeg(&Jpeg::new(jpeg()).unwrap()).exif().len(), 2);
    assert_eq!(
        Metadata::for_png(&Png::new(png()).unwrap()).orientation(),
        Some(Orientation::Rotation90)
    );
}

#[test]
fn documents_that_cannot_be_read_are_left_out() {
    let mut metadata = Metadata::new();
    assert!(metadata.is_empty());
    assert_eq!(metadata.make(), None);
    assert_eq!(
        metadata.add_raw_exif(b"XX".to_vec()),
        Err(Error::Exif(gufo::exif::error::Error::UnknownByteOrder(*b"XX")))
    );
    assert_eq!(metadata.add_raw_xmp(b"<a>".to_vec()), Err(Error::Xmp(gufo::xmp::Error::XmlReader)));
    assert!(metadata.is_empty());
    assert_eq!(metadata.add_raw_xmp(XMP.as_bytes().to_vec()), Ok(()));
    assert_eq!(metadata.make().as_deref(), Some("XmpMake"));
    assert_eq!(metadata.add_raw_exif(exif(b"Abc\0", 1)), Ok(()));
    assert_eq!(metadata.make().as_deref(), Some("Abc"));
    let raw = RawMetadata {
        exif: vec![b"bad".to_vec(), exif(b"One\0", 1), vec![], exif(b"Two\0", 2)],
        xmp: vec![b"<a>".to_vec(), XMP.as_bytes().to_vec()],
    };
    let metadata = raw.into_metadata();
    assert_eq!(metadata.exif().len(), 2);
    assert_eq!(metadata.exif()[1].make().as_deref(), Some("Two"));
    assert_eq!(metadata.xmp().len(), 1);
}

#[test]
fn images_are_guessed() {
    let image = Image::new(png()).unwrap();
    assert!(matches!(image, Image::Png(_)));
    assert_eq!(image.cicp(), Some(Cicp::srgb()));
    assert_eq!(image.into_inner(), png());
    let image = Image::new(jpeg()).unwrap();
    assert!(matches!(image, Image::Jpeg(_)));
    assert_eq!(image.cicp(), None);
    assert_eq!(image.into_inner(), jpeg());
    let error = Image::new(webp()).unwrap_err();
    assert_eq!(*error.err(), Error::NoSupportedFiletypeFound);
    assert_eq!(error.into_inner(), webp());
    let error = Image::new(png()[..20].to_vec()).unwrap_err();
    assert_eq!(*error.err(), Error::Png(gufo::png::Error::UnexpectedEof));
}

#[test]
fn user_comment() {
    let mut document = b"II*\0\x08\0\0\0\x01\0".to_vec();
    document.extend_from_slice(&[0x69, 0x87, 4, 0, 1, 0, 0, 0, 26, 0, 0, 0]);
    document.extend_from_slice(&[0, 0, 0, 0]);
    document.extend_from_slice(&[1, 0]);
    document.extend_from_slice(&[0x86, 0x92, 7, 0, 33, 0, 0, 0, 44, 0, 0, 0]);
    document.extend_from_slice(&[0, 0, 0, 0]);
    document.extend_from_slice(b"ASCII\0\0\0A somewhat longer comment");
    let mut data = vec![0xFF, 0xD8];
    let mut payload = b"Exif\0\0".to_vec();
    payload.extend(document);
    data.extend(segment(0xE1, &payload));
    data.extend(segment(0xDA, &[1, 1, 0, 0, 63, 0]));
    data.extend_from_slice(&[1, 2, 3, 0xFF, 0xD9]);
    let metadata = Metadata::for_guessed(data).unwrap();
    assert_eq!(
        metadata.user_comment().as_deref(),
        Some("A somewhat longer comment")
    );
}
