use gufo::common::datetime::DateTime;
use gufo::common::field;
use gufo::common::xmp::Namespace;
use gufo::xmp::file::{parse_fraction, parse_number};
use gufo::xmp::{Error, Tag, Xmp};

const DOCUMENT: &str = r#"<?xpacket begin="" id="W5M0MpCehiHzreSzNTczkc9d"?>
<x:xmpmeta xmlns:x="adobe:ns:meta/" x:xmptk="XMP Core 4.4.0-Exiv2">
 <rdf:RDF xmlns:rdf="http://www.w3.org/1999/02/22-rdf-syntax-ns#"
    xmlns:tiff="http://ns.adobe.com/tiff/1.0/">
  <rdf:Description rdf:about=""
    xmlns:xmp="http://ns.adobe.com/xap/1.0/"
    xmlns:exif="http://ns.adobe.com/exif/1.0/"
    xmlns:exifEX="http://cipa.jp/exif/1.0/"
    xmlns:dc="http://purl.org/dc/elements/1.1/"
   xmp:CreatorTool="GIMP 2.10"
   tiff:Make="Canon"
   exif:ExposureTime="1/500"
   exif:ISOSpeedRatings="320"
   exif:DateTimeOriginal="2012-09-16T14:08:04+02:00"
   plain="no namespace">
   <tiff:Model>Canon EOS 400D DIGITAL</tiff:Model>
   <tiff:Make>Second</tiff:Make>
   <dc:creator>Sophie Herold</dc:creator>
   <exif:FNumber>56/10</exif:FNumber>
  </rdf:Description>
  <tiff:Software>outside</tiff:Software>
 </rdf:RDF>
</x:xmpmeta>
<?xpacket end="w"?>"#;

fn tag(namespace: Namespace, name: &str) -> Tag {
    Tag::new(namespace, name.to_string())
}

#[test]
fn properties_are_read() {
    let xmp = Xmp::new(DOCUMENT.as_bytes().to_vec()).unwrap();
    assert_eq!(xmp.get(&Tag::of(field::Make)), Some("Canon"));
    assert_eq!(xmp.get(&Tag::of(field::Model)), Some("Canon EOS 400D DIGITAL"));
    assert_eq!(xmp.get(&Tag::of(field::CreatorTool)), Some("GIMP 2.10"));
    assert_eq!(xmp.get(&tag(Namespace::Tiff, "Software")), None);
    assert_eq!(xmp.get(&tag(Namespace::Exif, "Make")), None);
    assert_eq!(xmp.get(&tag(Namespace::Dc, "creator")), Some("Sophie Herold"));
    assert_eq!(
        xmp.get(&tag(Namespace::Unknown("http://www.w3.org/1999/02/22-rdf-syntax-ns#".into()), "about")),
        Some("")
    );
    assert_eq!(xmp.make().as_deref(), Some("Canon"));
    assert_eq!(xmp.model().as_deref(), Some("Canon EOS 400D DIGITAL"));
    assert_eq!(xmp.creator().as_deref(), Some("Sophie Herold"));
    assert_eq!(xmp.creator_tool().as_deref(), Some("GIMP 2.10"));
    assert_eq!(xmp.exposure_time(), Some((1, 500)));
    assert_eq!(xmp.get_frac(&Tag::of(field::FNumber)), Some((56, 10)));
    assert_eq!(xmp.get_frac(&Tag::of(field::Make)), None);
    assert_eq!(xmp.iso_speed_rating(), Some(320));
    assert_eq!(xmp.get_u16(&Tag::of(field::ISOSpeedRatings)), Some(320));
    assert_eq!(xmp.get_u16(&Tag::of(field::PhotographicSensitivity)), None);
    assert_eq!(
        xmp.date_time_original(),
        Some(DateTime::FixedOffset { timestamp: 1347797284, nanos: 0, offset: 7200 })
    );
    assert_eq!(xmp.get_date_time(&Tag::of(field::Make)), None);
    // Each tag once, in the order in which they were met
    let names: Vec<&str> = xmp.entries().iter().map(|(tag, _)| tag.name.as_str()).collect();
    assert_eq!(
        names,
        vec![
            "about",
            "CreatorTool",
            "Make",
            "ExposureTime",
            "ISOSpeedRatings",
            "DateTimeOriginal",
            "Model",
            "creator",
            "FNumber"
        ]
    );
    assert_eq!(xmp.into_inner(), DOCUMENT.as_bytes().to_vec());
}

#[test]
fn what_is_no_xml_is_refused() {
    assert_eq!(Xmp::new(b"<a><b></a>".to_vec()).err(), Some(Error::XmlReader));
    assert_eq!(Xmp::new(b"".to_vec()).err(), Some(Error::XmlReader));
    assert_eq!(Xmp::new(b"<a/>".to_vec()).unwrap().entries().len(), 0);
}

#[test]
fn properties_are_updated() {
    let mut xmp = Xmp::new(DOCUMENT.as_bytes().to_vec()).unwrap();
    let before = xmp.entries().clone();
    let updates = vec![
        (Tag::of(field::Make), "Nikon & Co".to_string()),
        (Tag::of(field::Model), "D5100".to_string()),
        (Tag::of(field::Make), "ignored".to_string()),
        (tag(Namespace::Tiff, "Absent"), "nothing".to_string()),
    ];
    assert_eq!(xmp.update(updates), Ok(()));
    assert_eq!(xmp.make().as_deref(), Some("Nikon & Co"));
    assert_eq!(xmp.model().as_deref(), Some("D5100"));
    assert_eq!(xmp.creator().as_deref(), Some("Sophie Herold"));
    assert_eq!(xmp.get(&tag(Namespace::Tiff, "Absent")), None);
    assert_eq!(xmp.entries().len(), before.len());
    for (old, new) in before.iter().zip(xmp.entries()) {
        assert_eq!(old.0, new.0);
        if old.0.name != "Make" && old.0.name != "Model" {
            assert_eq!(old.1, new.1);
        }
    }
    // The document was written anew and reads as it says.
    let text = String::from_utf8(xmp.inner.clone()).unwrap();
    assert!(text.contains("tiff:Make=\"Nikon &amp; Co\""));
    assert!(text.contains(">D5100</tiff:Model>"));
    assert!(!text.contains("Canon EOS 400D DIGITAL"));
    let again = Xmp::new(xmp.inner.clone()).unwrap();
    assert_eq!(again.entries(), xmp.entries());
    assert_eq!(xmp.update(vec![]), Ok(()));
    assert_eq!(again.entries(), xmp.entries());
}

#[test]
fn written_documents_are_accepted_if_they_hold_the_updates() {
    let updates = vec![(Tag::of(field::Make), "Nikon".to_string())];
    let mut xmp = Xmp::new(DOCUMENT.as_bytes().to_vec()).unwrap();
    let before = xmp.inner.clone();
    // The writer failed
    assert_eq!(xmp.accept(&updates, None), Err(Error::XmlWriter));
    assert_eq!(xmp.inner, before);
    // What was written is no XML
    assert_eq!(xmp.accept(&updates, Some(b"<a>".to_vec())), Err(Error::XmlWriter));
    assert_eq!(xmp.inner, before);
    // What was written does not hold the new value
    assert_eq!(xmp.accept(&updates, Some(before.clone())), Err(Error::XmlWriter));
    assert_eq!(xmp.inner, before);
    assert_eq!(xmp.make().as_deref(), Some("Canon"));
    // What was written holds it
    let written = DOCUMENT.replace("tiff:Make=\"Canon\"", "tiff:Make=\"Nikon\"");
    assert_ne!(written, DOCUMENT);
    assert_eq!(xmp.accept(&updates, Some(written.as_bytes().to_vec())), Ok(()));
    assert_eq!(xmp.inner, written.as_bytes());
    assert_eq!(xmp.make().as_deref(), Some("Nikon"));
    // Without updates the document itself is accepted
    assert_eq!(xmp.accept(&vec![], Some(written.as_bytes().to_vec())), Ok(()));
    // A document that cannot be read is not updated
    let mut broken = Xmp { inner: b"<a>".to_vec(), entries: vec![] };
    assert_eq!(broken.update(vec![]), Err(Error::XmlReader));
    assert_eq!(broken.inner, b"<a>");
}

#[test]
fn numbers_and_fractions_are_parsed() {
    assert_eq!(parse_number(b"0", 65535), Some(0));
    assert_eq!(parse_number(b"65535", 65535), Some(65535));
    assert_eq!(parse_number(b"65536", 65535), None);
    assert_eq!(parse_number(b"+12", 65535), Some(12));
    assert_eq!(parse_number(b"0000000000000000000012", 65535), Some(12));
    assert_eq!(parse_number(b"", 65535), None);
    assert_eq!(parse_number(b"+", 65535), None);
    assert_eq!(parse_number(b"-1", 65535), None);
    assert_eq!(parse_number(b"1 ", 65535), None);
    assert_eq!(parse_number(b"1a", 65535), None);
    assert_eq!(parse_number(b"4294967295", u32::MAX), Some(u32::MAX));
    assert_eq!(parse_number(b"4294967296", u32::MAX), None);
    assert_eq!(parse_number(b"99999999999999999999999999", u32::MAX), None);
    assert_eq!(parse_fraction(b"1/60"), Some((1, 60)));
    assert_eq!(parse_fraction(b"+1/0"), Some((1, 0)));
    assert_eq!(parse_fraction(b"160"), None);
    assert_eq!(parse_fraction(b"1/2/3"), None);
    assert_eq!(parse_fraction(b"/2"), None);
    assert_eq!(parse_fraction(b"1/"), None);
    assert_eq!(parse_fraction(b"1.5/2"), None);
}

#[test]
fn tags_are_compared_by_namespace_and_name() {
    let make = Tag::of(field::Make);
    assert_eq!(make, tag(Namespace::Tiff, "Make"));
    assert!(make.same(&tag(Namespace::from_url("http://ns.adobe.com/tiff/1.0/"), "Make")));
    assert!(!make.same(&tag(Namespace::Exif, "Make")));
    assert!(!make.same(&tag(Namespace::Tiff, "make")));
    assert!(make.copy().same(&make));
    assert_eq!(Tag::of(field::Creator), tag(Namespace::Dc, "creator"));
    assert_eq!(Tag::of(field::PhotographicSensitivity), tag(Namespace::ExifEX, "PhotographicSensitivity"));
}
