use gufo::common::datetime::DateTime;
use gufo::common::exif::{lookup_tag_name, Field, Ifd, Tag, TagIfd};
use gufo::common::field;
use gufo::common::geography::{LatRef, LonRef};
use gufo::common::orientation::{Orientation, Rotation};
use gufo::exif::error::Error;
use gufo::exif::{EntryRef, Exif, ExifRaw, Located, Raw, Type, ValueOffset};
use gufo::jpeg::Jpeg;

// What a directory entry holds in the documents that the tests build.
#[derive(Clone)]
enum V {
    Short(u16),
    Long(u32),
    Ascii(Vec<u8>),
    Undefined(Vec<u8>),
    Rational(Vec<(u32, u32)>),
    // Pointer to the directory with this index
    Ifd(usize),
    // A maker note: a prefix and a directory with absolute offsets
    MakerNote(Vec<u8>, Vec<(u16, V)>),
}

#[derive(Clone)]
struct Dir {
    entries: Vec<(u16, V)>,
    next: Option<usize>,
}

fn put16(out: &mut Vec<u8>, v: u16, be: bool) {
    out.extend_from_slice(&if be { v.to_be_bytes() } else { v.to_le_bytes() });
}

fn put32(out: &mut Vec<u8>, v: u32, be: bool) {
    out.extend_from_slice(&if be { v.to_be_bytes() } else { v.to_le_bytes() });
}

// The bytes of a directory that lies at `base`: entries, pointer to the
// next directory, and the out-of-line data in the order of the entries.
fn dir_bytes(entries: &[(u16, V)], next: u32, base: u32, offsets: &[u32], be: bool) -> Vec<u8> {
    let mut head = Vec::new();
    let mut data: Vec<u8> = Vec::new();
    let data_base = base + 2 + 12 * entries.len() as u32 + 4;
    put16(&mut head, entries.len() as u16, be);
    for (tag, value) in entries {
        put16(&mut head, *tag, be);
        let at = data_base + data.len() as u32;
        match value {
            V::Short(x) => {
                put16(&mut head, 3, be);
                put32(&mut head, 1, be);
                put16(&mut head, *x, be);
                put16(&mut head, 0, be);
            }
            V::Long(x) => {
                put16(&mut head, 4, be);
                put32(&mut head, 1, be);
                put32(&mut head, *x, be);
            }
            V::Ifd(i) => {
                put16(&mut head, 4, be);
                put32(&mut head, 1, be);
                put32(&mut head, offsets[*i], be);
            }
            V::Ascii(bytes) | V::Undefined(bytes) => {
                put16(&mut head, if matches!(value, V::Ascii(_)) { 2 } else { 7 }, be);
                put32(&mut head, bytes.len() as u32, be);
                if bytes.len() <= 4 {
                    let mut slot = bytes.clone();
                    slot.resize(4, 0);
                    head.extend_from_slice(&slot);
                } else {
                    put32(&mut head, at, be);
                    data.extend_from_slice(bytes);
                }
            }
            V::Rational(pairs) => {
                put16(&mut head, 5, be);
                put32(&mut head, pairs.len() as u32, be);
                put32(&mut head, at, be);
                for (x, y) in pairs {
                    put32(&mut data, *x, be);
                    put32(&mut data, *y, be);
                }
            }
            V::MakerNote(prefix, inner) => {
                let mut blob = prefix.clone();
                blob.extend(dir_bytes(inner, 0, at + prefix.len() as u32, offsets, be));
                put16(&mut head, 7, be);
                put32(&mut head, blob.len() as u32, be);
                put32(&mut head, at, be);
                data.extend(blob);
            }
        }
    }
    put32(&mut head, next, be);
    head.extend(data);
    head
}

// A document of the given directories, one after the other, the first of
// them the primary one.
fn document(dirs: &[Dir], be: bool) -> Vec<u8> {
    let mut offsets = Vec::new();
    let mut at = 8u32;
    let dummy: Vec<u32> = vec![0; dirs.len()];
    for dir in dirs {
        offsets.push(at);
        at += dir_bytes(&dir.entries, 0, 0, &dummy, be).len() as u32;
    }
    let mut out = Vec::new();
    out.extend_from_slice(if be { b"MM" } else { b"II" });
    put16(&mut out, 42, be);
    put32(&mut out, 8, be);
    for (i, dir) in dirs.iter().enumerate() {
        let next = dir.next.map(|n| offsets[n]).unwrap_or(0);
        out.extend(dir_bytes(&dir.entries, next, offsets[i], &offsets, be));
    }
    out
}

// A JPEG file that carries the document in an APP1 segment.
fn jpeg_with(exif: &[u8]) -> Vec<u8> {
    let mut out = vec![0xFF, 0xD8];
    let mut payload = b"Exif\0\0".to_vec();
    payload.extend_from_slice(exif);
    out.extend_from_slice(&[0xFF, 0xE1]);
    out.extend_from_slice(&((payload.len() + 2) as u16).to_be_bytes());
    out.extend(payload);
    out.extend_from_slice(&[0xFF, 0xDA, 0x00, 0x08, 1, 1, 0, 0, 63, 0]);
    out.extend_from_slice(&[1, 2, 0xFF, 0x00, 3]);
    out.extend_from_slice(&[0xFF, 0xD9]);
    out
}

fn canon_dirs() -> Vec<Dir> {
    let makernote = V::MakerNote(
        vec![],
        vec![
            (6, V::Ascii(b"Canon EOS 400D DIGITAL\0".to_vec())),
            (9, V::Ascii(b"Sophie Herold\0\0\0junk".to_vec())),
            (0x10, V::Long(0x80000236)),
        ],
    );
    vec![
        Dir {
            entries: vec![
                (0x10F, V::Ascii(b"Canon\0".to_vec())),
                (0x110, V::Ascii(b"Canon EOS 400D DIGITAL\0".to_vec())),
                (0x131, V::Ascii(b"GIMP 2.10.38\0".to_vec())),
                (0x8769, V::Ifd(1)),
            ],
            next: None,
        },
        Dir {
            entries: vec![
                (0x829A, V::Rational(vec![(1, 60)])),
                (0x829D, V::Rational(vec![(56, 10)])),
                (0x8827, V::Short(200)),
                (0x920A, V::Rational(vec![(53, 1)])),
                (0x9003, V::Ascii(b"2007:10:19 19:57:06\0".to_vec())),
                (0x927C, makernote),
                (0x9286, V::Undefined(b"ASCII\0\0\0  A somewhat longer comment \0".to_vec())),
            ],
            next: None,
        },
    ]
}

fn canon_jpeg() -> Vec<u8> {
    jpeg_with(&document(&canon_dirs(), false))
}

fn apple_dirs() -> Vec<Dir> {
    let mut prefix = b"Apple iOS\0\0\x01MM".to_vec();
    prefix.truncate(14);
    let makernote = V::MakerNote(prefix, vec![(1, V::Long(9)), (3, V::Ascii(b"abcdefgh\0".to_vec()))]);
    vec![
        Dir {
            entries: vec![
                (0x10F, V::Ascii(b"Apple\0".to_vec())),
                (0x110, V::Ascii(b"iPhone 6\0".to_vec())),
                (0x112, V::Short(6)),
                (0x8769, V::Ifd(1)),
                (0x8825, V::Ifd(2)),
            ],
            next: None,
        },
        Dir {
            entries: vec![
                (0x829A, V::Rational(vec![(1, 682)])),
                (0x829D, V::Rational(vec![(11, 5)])),
                (0x8827, V::Short(32)),
                (0x9003, V::Ascii(b"2021:02:13 14:12:20\0".to_vec())),
                (0x9011, V::Ascii(b"+01:00\0".to_vec())),
                (0x920A, V::Rational(vec![(83, 20)])),
                (0x9291, V::Ascii(b"\0890 \0".to_vec())),
                (0x927C, makernote),
            ],
            next: None,
        },
        Dir {
            entries: vec![
                (1, V::Ascii(b"N\0".to_vec())),
                (2, V::Rational(vec![(52, 1), (32, 1), (3712, 100)])),
                (3, V::Ascii(b"E\0".to_vec())),
                (4, V::Rational(vec![(13, 1), (23, 1), (68, 100)])),
            ],
            next: None,
        },
    ]
}

fn with_thumbnail_dirs() -> Vec<Dir> {
    vec![
        Dir {
            entries: vec![
                (0x10F, V::Ascii(b"Maker\0".to_vec())),
                (0x11A, V::Rational(vec![(72, 1)])),
                (0x8769, V::Ifd(1)),
            ],
            next: Some(2),
        },
        Dir {
            entries: vec![
                (0x829A, V::Rational(vec![(1, 125)])),
                (0x9003, V::Ascii(b"2020:01:02 03:04:05\0".to_vec())),
                (0xA005, V::Ifd(3)),
            ],
            next: None,
        },
        Dir {
            entries: vec![
                (0x100, V::Long(256)),
                (0x11A, V::Rational(vec![(300, 1)])),
                (0x103, V::Short(6)),
            ],
            next: None,
        },
        Dir { entries: vec![(1, V::Ascii(b"R98\0".to_vec()))], next: None },
    ]
}

fn with_thumbnail_jpeg() -> Vec<u8> {
    jpeg_with(&document(&with_thumbnail_dirs(), false))
}

fn get_exif(jpeg: Vec<u8>) -> Vec<u8> {
    let image = Jpeg::new(jpeg).unwrap();
    let data = image.exif_data();
    data[0].to_vec()
}

fn get_decoded_exif(jpeg: Vec<u8>) -> ExifRaw {
    let raw = get_exif(jpeg);
    let mut exif = ExifRaw::new(raw);
    exif.decode().unwrap();
    exif.makernote_register().unwrap();
    exif
}

fn data() -> Vec<u8> {
    let mut data = Vec::new();

    // Litte endian
    data.extend_from_slice(b"II");
    // Magic bits
    data.extend_from_slice(&[42, 0]);
    // Offset
    data.extend_from_slice(&8_u32.to_le_bytes());
    // Number entries
    data.extend_from_slice(&1_u16.to_le_bytes());

    // Tag orientation
    data.extend_from_slice(&0x112_u16.to_le_bytes());
    // Data type
    data.extend_from_slice(&3_u16.to_le_bytes());
    // Count
    data.extend_from_slice(&1_u32.to_le_bytes());
    // Value
    data.extend_from_slice(&7_u32.to_le_bytes());

    // Next offset
    data.extend_from_slice(&[0, 0, 0, 0]);

    data
}

fn short_entry(value: u32) -> EntryRef {
    EntryRef { count: 1, data_type: Type::Short, position: 0, value_offset: ValueOffset::Value(value) }
}

#[test]
fn basic_low_level() {
    let mut decoder = ExifRaw::new(data());
    decoder.decode().unwrap();

    let tagifd = TagIfd::of(field::Orientation);

    let orientation = decoder.lookup_data(tagifd);
    assert_eq!(orientation.unwrap(), Some((Type::Short, 7_u32.to_le_bytes().to_vec())));

    decoder.set_existing(tagifd, 5).unwrap();

    let missing_ref = TagIfd::new(Tag(field::Orientation::TAG), Ifd::Thumbnail);
    assert!(decoder.lookup_data(missing_ref).err().is_none());

    let err = decoder.set_existing(missing_ref, 1).err();
    assert!(matches!(err, Some(Error::TagNotFound(_))));
}

#[test]
fn basic_high_level() {
    let exif = Exif::new(data()).unwrap();
    assert_eq!(exif.orientation(), Some(Orientation::MirroredRotation270));
}

#[test]
fn insert_at_exif() {
    let mut exif = get_decoded_exif(with_thumbnail_jpeg());
    let tagifd = TagIfd::new(Tag(field::ImageWidth::TAG), Ifd::Exif);
    let check_tagifd = TagIfd::new(Tag(field::ImageWidth::TAG), Ifd::Thumbnail);

    println!("{}", exif.debug_dump());

    let value = exif.lookup_short(tagifd).unwrap();
    assert_eq!(value, None);

    let value = exif.lookup_binary(check_tagifd).unwrap().unwrap();
    assert_eq!(value, vec![0, 1, 0, 0]);

    for _ in 0..3 {
        exif.insert_entry(tagifd, short_entry(6)).unwrap();

        let value: Option<u16> = exif.lookup_short(tagifd).unwrap();
        assert_eq!(value, Some(6));

        let value = exif.lookup_binary(check_tagifd).unwrap().unwrap();
        assert_eq!(value, vec![0, 1, 0, 0]);
    }

    exif.decode().unwrap();

    let value: Option<u16> = exif.lookup_short(tagifd).unwrap();
    assert_eq!(value, Some(6));

    let value = exif.lookup_binary(check_tagifd).unwrap().unwrap();
    assert_eq!(value, vec![0, 1, 0, 0]);
}

#[test]
fn insert_at_thumbnail() {
    let mut exif = get_decoded_exif(with_thumbnail_jpeg());
    let tagifd = TagIfd::of(field::ThumbnailOrientation);

    let value = exif.lookup_short(tagifd).unwrap();
    assert_eq!(value, None);

    exif.insert_entry(tagifd, short_entry(5)).unwrap();

    let value = exif.lookup_short(tagifd).unwrap();
    assert_eq!(value, Some(5));
}

#[test]
fn lookup() {
    let expected = b"Canon EOS 400D DIGITAL\0".to_vec();
    let exif = get_decoded_exif(canon_jpeg());
    let data = exif.lookup_binary(TagIfd::new(Tag(6), Ifd::MakerNote)).unwrap();

    assert_eq!(data, Some(expected));
}

#[test]
fn insert_moving_makernote() {
    let mut decoder = get_decoded_exif(canon_jpeg());

    let result = decoder.lookup_binary(TagIfd::of(field::DateTimeOriginal)).unwrap().unwrap();
    assert_eq!(result.as_slice(), b"2007:10:19 19:57:06\0");

    let result = decoder.lookup_binary(TagIfd::new(Tag(6), Ifd::MakerNote)).unwrap().unwrap();
    assert_eq!(result.as_slice(), b"Canon EOS 400D DIGITAL\0");

    decoder.insert_entry(TagIfd::of(field::Orientation), short_entry(5)).unwrap();

    let result = decoder.lookup_binary(TagIfd::of(field::DateTimeOriginal)).unwrap().unwrap();
    assert_eq!(result.as_slice(), b"2007:10:19 19:57:06\0");

    let result = decoder.lookup_binary(TagIfd::new(Tag(6), Ifd::MakerNote)).unwrap().unwrap();
    assert_eq!(result.as_slice(), b"Canon EOS 400D DIGITAL\0");
}

fn abc_data() -> Vec<u8> {
    let mut data = Vec::new();

    // Litte endian
    data.extend_from_slice(b"II");
    // Magic bits
    data.extend_from_slice(&[42, 0]);
    // Offset
    data.extend_from_slice(&8_u32.to_le_bytes());
    // Number entries
    data.extend_from_slice(&3_u16.to_le_bytes());

    // Tag orientation
    data.extend_from_slice(&field::Orientation::TAG.to_le_bytes());
    // Data type
    data.extend_from_slice(&Type::Ascii.u16().to_le_bytes());
    // Count
    data.extend_from_slice(&7_u32.to_le_bytes());
    // Offset
    data.extend_from_slice(&60_u32.to_le_bytes());

    // Tag orientation
    data.extend_from_slice(&field::XResolution::TAG.to_le_bytes());
    // Data type
    data.extend_from_slice(&Type::Ascii.u16().to_le_bytes());
    // Count
    data.extend_from_slice(&5_u32.to_le_bytes());
    // Offset
    data.extend_from_slice(&70_u32.to_le_bytes());

    // Tag
    data.extend_from_slice(&Tag::MAKER_NOTE.to_le_bytes());
    // Data type
    data.extend_from_slice(&Type::Undefined.u16().to_le_bytes());
    // Count
    data.extend_from_slice(&10_u32.to_le_bytes());
    // Value
    data.extend_from_slice(&80_u32.to_le_bytes());

    // Next offset
    data.extend_from_slice(&[0; 4]);

    data.extend_from_slice(&[1; 10]);
    data.extend_from_slice(b"abcdefg");

    data.extend_from_slice(&[2; 3]);
    data.extend_from_slice(b"hijkl");

    data.extend_from_slice(&[3; 5]);
    data.extend_from_slice(b"ABCDEFGHIJ");

    data
}

#[test]
fn abc() {
    let mut exif = ExifRaw::new(abc_data());
    exif.decode().unwrap();

    let tag1 = TagIfd::of(field::Orientation);
    let tag2 = TagIfd::of(field::XResolution);
    let tag3 = TagIfd::new(Tag(Tag::MAKER_NOTE), Ifd::Primary);

    let value = exif.lookup_binary(tag1).unwrap().unwrap();
    assert_eq!(value.as_slice(), b"abcdefg");

    let value = exif.lookup_binary(tag2).unwrap().unwrap();
    assert_eq!(value.as_slice(), b"hijkl");

    let value = exif.lookup_binary(tag3).unwrap().unwrap();
    assert_eq!(value.as_slice(), b"ABCDEFGHIJ");

    assert_eq!(exif.last_data_end_before(80).unwrap(), 75);

    exif.freeup_space_before(80, 5, 90).unwrap();

    let value = exif.lookup_binary(tag1).unwrap().unwrap();
    assert_eq!(value.as_slice(), b"abcdefg");

    let value = exif.lookup_binary(tag2).unwrap().unwrap();
    assert_eq!(value.as_slice(), b"hijkl");

    let value = exif.lookup_binary(tag3).unwrap().unwrap();
    assert_eq!(value.as_slice(), b"ABCDEFGHIJ");
}

#[test]
fn canon() {
    let raw = get_exif(canon_jpeg());
    let exif = Exif::new(raw).unwrap();

    println!("{}", exif.debug_dump());

    assert_eq!(exif.make().unwrap().as_str(), "Canon");
    assert_eq!(exif.model().unwrap().as_str(), "Canon EOS 400D DIGITAL");
    assert_eq!(exif.iso_speed_rating().unwrap(), 200);
    assert_eq!(exif.f_number_rational().unwrap(), (56, 10));
    assert_eq!(exif.focal_length_rational().unwrap(), (53, 1));
    assert_eq!(exif.exposure_time().unwrap(), (1, 60));
    assert_eq!(exif.original_time_text().unwrap().0, "2007-10-19T19:57:06Z");
    // 2007-10-19T19:57:06 as seconds since the epoch
    assert_eq!(
        exif.date_time_original().unwrap(),
        DateTime::Naive { timestamp: 1192823826, nanos: 0 }
    );
}

#[test]
fn apple() {
    let exif = Exif::new(document(&apple_dirs(), false)).unwrap();

    assert_eq!(exif.make().unwrap().as_str(), "Apple");
    assert_eq!(exif.model().unwrap().as_str(), "iPhone 6");
    assert_eq!(exif.iso_speed_rating().unwrap(), 32);
    // 2.2
    assert_eq!(exif.f_number_rational().unwrap(), (11, 5));
    // 4.15
    assert_eq!(exif.focal_length_rational().unwrap(), (83, 20));
    assert_eq!(exif.exposure_time().unwrap(), (1, 682));
    assert_eq!(exif.original_time_text().unwrap(), ("2021-02-13T14:12:20.890+01:00".to_string(), true));
    // 2021-02-13T13:12:20.890 UTC
    assert_eq!(
        exif.date_time_original().unwrap(),
        DateTime::FixedOffset { timestamp: 1613221940, nanos: 890_000_000, offset: 3600 }
    );
}

#[test]
fn apple_makernote_starts_behind_its_prefix() {
    let exif = Exif::new(document(&apple_dirs(), false)).unwrap();
    let decoder = exif.decoder();
    assert_eq!(decoder.makernote_guess_offset(), Some(14));
    assert!(decoder.makernote);
    assert_eq!(decoder.lookup_long(TagIfd::new(Tag(1), Ifd::MakerNote)), Ok(Some(9)));
    assert_eq!(
        decoder.lookup_string(TagIfd::new(Tag(3), Ifd::MakerNote)),
        Ok(Some("abcdefgh".to_string()))
    );
    assert_eq!(decoder.validate_ifd(Ifd::MakerNote), Ok(()));
}

#[test]
fn canon_makernote_starts_at_its_beginning() {
    let decoder = get_decoded_exif(canon_jpeg());
    assert_eq!(decoder.makernote_guess_offset(), Some(0));
    assert!(decoder.makernote);
    let entry = decoder.makernote_entry().unwrap();
    assert_eq!(entry.data_type, Type::Undefined);
    assert_eq!(decoder.ifd_locations.get(Ifd::MakerNote), Some(entry.position + 8));
}

#[test]
fn gps_location_reads_hemispheres_and_fractions() {
    let exif = Exif::new(document(&apple_dirs(), false)).unwrap();
    let location = exif.gps_location().unwrap();
    assert_eq!(location.lat_ref, LatRef::North);
    assert_eq!(location.lat, [(52, 1), (32, 1), (3712, 100)]);
    assert_eq!(location.lon_ref, LonRef::East);
    assert_eq!(location.lon, [(13, 1), (23, 1), (68, 100)]);
    assert_eq!(Exif::new(document(&canon_dirs(), false)).unwrap().gps_location(), None);
}

#[test]
fn gps_location_with_zero_denominator_is_none() {
    let mut dirs = apple_dirs();
    dirs[2].entries[1] = (2, V::Rational(vec![(52, 1), (32, 0), (3712, 100)]));
    let exif = Exif::new(document(&dirs, false)).unwrap();
    assert_eq!(exif.gps_location(), None);
}

#[test]
fn camera_owner_falls_back_to_canon_makernote() {
    let exif = Exif::new(document(&canon_dirs(), false)).unwrap();
    assert_eq!(exif.camera_owner().as_deref(), Some("Sophie Herold"));
    let mut dirs = canon_dirs();
    dirs[1].entries.push((0xA430, V::Ascii(b"Owner\0".to_vec())));
    let exif = Exif::new(document(&dirs, false)).unwrap();
    assert_eq!(exif.camera_owner().as_deref(), Some("Owner"));
    let exif = Exif::new(document(&with_thumbnail_dirs(), false)).unwrap();
    assert_eq!(exif.camera_owner(), None);
}

#[test]
fn user_comment_is_trimmed() {
    let exif = Exif::new(document(&canon_dirs(), false)).unwrap();
    assert_eq!(exif.user_comment().as_deref(), Some("A somewhat longer comment"));
    assert_eq!(exif.software().as_deref(), Some("GIMP 2.10.38"));
    let mut dirs = canon_dirs();
    dirs[1].entries[6] = (0x9286, V::Undefined(b"ASCII\0\0\0   \0".to_vec()));
    assert_eq!(Exif::new(document(&dirs, false)).unwrap().user_comment(), None);
    dirs[1].entries[6] = (0x9286, V::Undefined(b"UNICODE\0\0A\0B".to_vec()));
    assert_eq!(Exif::new(document(&dirs, false)).unwrap().user_comment(), None);
}

#[test]
fn little_endian_orientation_is_read() {
    let bytes = data();
    assert_eq!(bytes.len(), 26);
    let mut decoder = ExifRaw::new(bytes);
    decoder.decode().unwrap();
    let tagifd = TagIfd::new(Tag(0x112), Ifd::Primary);
    assert_eq!(decoder.lookup_short(tagifd), Ok(Some(7)));
    let orientation = Orientation::from_u16(7).unwrap();
    assert!(orientation.mirror());
    assert_eq!(orientation.rotate(), Rotation::_270);
    assert_eq!(orientation, Orientation::MirroredRotation270);
}

#[test]
fn overwrite_keeps_the_length() {
    let mut decoder = ExifRaw::new(data());
    decoder.decode().unwrap();
    let len = decoder.raw.buffer.len();
    assert_eq!(decoder.set_existing(TagIfd::new(Tag(0x112), Ifd::Primary), 5), Ok(()));
    assert_eq!(decoder.lookup_short(TagIfd::new(Tag(0x112), Ifd::Primary)), Ok(Some(5)));
    assert_eq!(decoder.raw.buffer.len(), len);
    assert_eq!(&decoder.raw.buffer[18..22], &[5, 0, 0, 0]);
    assert!(decoder.is_faithful());
    let missing = TagIfd::new(Tag(0x112), Ifd::Thumbnail);
    assert_eq!(decoder.set_existing(missing, 1), Err(Error::TagNotFound(missing)));
    assert_eq!(decoder.raw.buffer.len(), len);
}

#[test]
fn three_inserts_keep_the_makernote_in_place() {
    let mut decoder = get_decoded_exif(canon_jpeg());
    assert!(decoder.makernote);
    let offset = decoder.makernote_entry().unwrap().value_offset;
    let first = TagIfd::new(Tag(6), Ifd::MakerNote);
    let before = decoder.lookup_string(first).unwrap().unwrap();
    assert_eq!(before, "Canon EOS 400D DIGITAL");
    let len = decoder.raw.buffer.len();
    for i in 0..3u16 {
        let tagifd = TagIfd::new(Tag(0xA500 + i), Ifd::Exif);
        assert_eq!(decoder.insert_entry(tagifd, short_entry(40 + i as u32)), Ok(()));
        assert_eq!(decoder.makernote_entry().unwrap().value_offset, offset);
        assert_eq!(decoder.lookup_string(first).unwrap().unwrap(), before);
        assert_eq!(decoder.lookup_binary(first).unwrap().unwrap(), b"Canon EOS 400D DIGITAL\0");
        // What was inserted before reads back as well.
        for j in 0..=i {
            assert_eq!(
                decoder.lookup_short(TagIfd::new(Tag(0xA500 + j), Ifd::Exif)),
                Ok(Some(40 + j))
            );
        }
        assert_eq!(decoder.validate_ifd(Ifd::MakerNote), Ok(()));
        assert!(decoder.is_faithful());
    }
    assert!(decoder.raw.buffer.len() > len);
    // Decoding the bytes from scratch gives the same answers.
    let mut again = ExifRaw::new(decoder.raw.buffer.clone());
    again.decode().unwrap();
    assert_eq!(again.makernote_entry().unwrap().value_offset, offset);
    assert_eq!(again.lookup_string(first).unwrap().unwrap(), before);
    for i in 0..3u16 {
        assert_eq!(again.lookup_short(TagIfd::new(Tag(0xA500 + i), Ifd::Exif)), Ok(Some(40 + i)));
    }
    assert_eq!(
        again.lookup_binary(TagIfd::of(field::DateTimeOriginal)).unwrap().unwrap(),
        b"2007:10:19 19:57:06\0"
    );
    assert_eq!(again.lookup_rational(TagIfd::of(field::ExposureTime)), Ok(Some((1, 60))));
    assert_eq!(again.lookup_string(TagIfd::of(field::Make)), Ok(Some("Canon".to_string())));
}

#[test]
fn corrupted_gps_pointer_is_not_fatal() {
    let mut bytes = document(&apple_dirs(), false);
    // The slot of the GPS pointer is the last one of the primary directory.
    let slot = 8 + 2 + 12 * 4 + 8;
    bytes[slot..slot + 4].copy_from_slice(&0xFFFF_FF00u32.to_le_bytes());
    let mut decoder = ExifRaw::new(bytes);
    assert_eq!(decoder.decode(), Ok(()));
    assert_eq!(decoder.lookup_string(TagIfd::of(field::Make)), Ok(Some("Apple".to_string())));
    assert_eq!(decoder.lookup_short(TagIfd::of(field::PhotographicSensitivity)), Ok(Some(32)));
    assert_eq!(decoder.lookup_string(TagIfd::of(field::GPSLatitudeRef)), Ok(None));
    assert_eq!(decoder.lookup_rationals::<3>(TagIfd::of(field::GPSLatitude)), Ok(None));
    assert_eq!(decoder.ifd_locations.get(Ifd::Gps), Some(slot as u32));
    assert!(decoder.is_faithful());
}

#[test]
fn truncated_thumbnail_is_not_fatal() {
    let full = document(&with_thumbnail_dirs(), false);
    let mut decoder = ExifRaw::new(full.clone());
    decoder.decode().unwrap();
    let width = TagIfd::of(field::ThumbnailImageWidth);
    let position = decoder.lookup_entry(width).unwrap().position as usize;
    // Cut the file in the middle of the thumbnail directory.
    let mut decoder = ExifRaw::new(full[..position + 14].to_vec());
    assert_eq!(decoder.decode(), Ok(()));
    assert_eq!(decoder.lookup_entry(width), None);
    assert_eq!(decoder.lookup_string(TagIfd::of(field::Make)), Ok(Some("Maker".to_string())));
    assert!(decoder.ifd_locations.get(Ifd::Thumbnail).is_some());
    assert_eq!(decoder.lookup_rational(TagIfd::of(field::ExposureTime)), Ok(Some((1, 125))));
    // The directory behind the thumbnail is cut off too.
    assert_eq!(decoder.lookup_string(TagIfd::new(Tag(1), Ifd::Interoperability)), Ok(None));
    let mut decoder = ExifRaw::new(full);
    decoder.decode().unwrap();
    assert_eq!(
        decoder.lookup_string(TagIfd::new(Tag(1), Ifd::Interoperability)),
        Ok(Some("R98".to_string()))
    );
}

#[test]
fn header_errors_are_fatal() {
    let decode = |bytes: &[u8]| {
        let mut decoder = ExifRaw::new(bytes.to_vec());
        decoder.decode()
    };
    assert_eq!(decode(b""), Err(Error::ByteOrderEof));
    assert_eq!(decode(b"I"), Err(Error::ByteOrderEof));
    assert_eq!(decode(b"XY*\0"), Err(Error::UnknownByteOrder(*b"XY")));
    assert_eq!(decode(b"II"), Err(Error::MagicBytesEof));
    assert_eq!(decode(b"II+\0\x08\0\0\0"), Err(Error::MagicBytesWrong(43)));
    assert_eq!(decode(b"MM\0+\0\0\0\x08"), Err(Error::MagicBytesWrong(43)));
    assert_eq!(decode(b"II*\0\x08\0"), Err(Error::Io));
    assert_eq!(decode(b"II*\0\x08\0\0\0"), Err(Error::IfdNumEntriesEof));
    assert_eq!(decode(b"II*\0\x08\0\0\0\x01\0"), Err(Error::EntryEof));
    assert_eq!(decode(b"II*\0\x08\0\0\0\0\0"), Err(Error::Io));
    assert_eq!(decode(b"II*\0\x08\0\0\0\0\0\0\0\0\0"), Ok(()));
    // count * size of the type does not fit in 32 bits
    let mut bytes = data();
    bytes[14..18].copy_from_slice(&0xFFFF_FFFFu32.to_le_bytes());
    assert_eq!(decode(&bytes), Err(Error::DataSizeTooLarge));
    let mut decoder = ExifRaw::new(b"XY*\0".to_vec());
    assert!(decoder.decode().is_err());
    assert!(decoder.locations.is_empty());
    assert_eq!(Exif::new(b"XY".to_vec()).err(), Some(Error::UnknownByteOrder(*b"XY")));
}

#[test]
fn big_endian_documents_decode() {
    let mut decoder = ExifRaw::new(document(&canon_dirs(), true));
    decoder.decode().unwrap();
    assert!(decoder.raw.big_endian);
    assert_eq!(decoder.lookup_string(TagIfd::of(field::Make)), Ok(Some("Canon".to_string())));
    assert_eq!(decoder.lookup_short(TagIfd::of(field::PhotographicSensitivity)), Ok(Some(200)));
    assert_eq!(decoder.lookup_rational(TagIfd::of(field::FNumber)), Ok(Some((56, 10))));
    // The slot of a short holds its value in the first two bytes.
    let entry = decoder.lookup_entry(TagIfd::of(field::PhotographicSensitivity)).unwrap();
    assert_eq!(entry.value_offset, ValueOffset::Value(200 << 16));
    assert_eq!(entry.u32(), Some(200 << 16));
    // An inserted short stands in the first two bytes of its slot as well.
    let tagifd = TagIfd::new(Tag(0xA500), Ifd::Exif);
    decoder.insert_entry(tagifd, short_entry(9)).unwrap();
    assert_eq!(decoder.lookup_short(tagifd), Ok(Some(9)));
    assert_eq!(decoder.lookup_binary(tagifd), Ok(Some(vec![0, 9, 0, 0])));
    assert!(decoder.makernote);
}

#[test]
fn inline_data_is_the_slot_in_either_byte_order() {
    for be in [false, true] {
        let bytes = document(&canon_dirs(), be);
        let mut decoder = ExifRaw::new(bytes.clone());
        decoder.decode().unwrap();
        assert!(decoder.is_faithful());
        let mut inline = 0;
        for record in decoder.locations.clone() {
            let first = decoder.lookup_entry(record.tagifd).unwrap();
            let data = decoder.lookup_binary(record.tagifd).unwrap().unwrap();
            if let ValueOffset::Value(_) = first.value_offset {
                let at = first.position as usize + 8;
                assert_eq!(data, bytes[at..at + 4].to_vec());
                inline += 1;
            }
        }
        assert!(inline > 0);
        let iso = TagIfd::of(field::PhotographicSensitivity);
        let expected = if be { vec![0, 200, 0, 0] } else { vec![200, 0, 0, 0] };
        assert_eq!(decoder.lookup_data(iso), Ok(Some((Type::Short, expected))));
    }
    // A short text stands in the slot as it reads.
    let mut dirs = canon_dirs();
    dirs[0].entries[0] = (0x10F, V::Ascii(b"Abc\0".to_vec()));
    let mut decoder = ExifRaw::new(document(&dirs, true));
    decoder.decode().unwrap();
    assert_eq!(decoder.lookup_binary(TagIfd::of(field::Make)), Ok(Some(b"Abc\0".to_vec())));
    assert_eq!(decoder.lookup_string(TagIfd::of(field::Make)), Ok(Some("Abc".to_string())));
    // An entry whose slot lies outside the buffer has no data.
    let outside = EntryRef { position: u32::MAX, ..short_entry(1) };
    assert_eq!(decoder.entry_data(&outside), Err(Error::LookupEof));
}

#[test]
fn overwritten_slots_hold_the_number_that_was_given() {
    for be in [false, true] {
        let bytes = document(&with_thumbnail_dirs(), be);
        let mut decoder = ExifRaw::new(bytes.clone());
        decoder.decode().unwrap();
        let compression = TagIfd::new(Tag(0x103), Ifd::Thumbnail);
        assert_eq!(decoder.lookup_short(compression), Ok(Some(6)));
        let before = decoder.lookup_entry(compression).unwrap();
        assert_eq!(decoder.set_existing(compression, 0x0105), Ok(()));
        // The slot holds the number in the byte order of the document.
        let entry = decoder.lookup_entry(compression).unwrap();
        assert_eq!(entry, EntryRef { value_offset: ValueOffset::Value(0x0105), ..before });
        let slot = if be { vec![0, 0, 1, 5] } else { vec![5, 1, 0, 0] };
        assert_eq!(decoder.lookup_binary(compression), Ok(Some(slot)));
        // A short is what the first two bytes of the slot show.
        assert_eq!(decoder.lookup_short(compression), Ok(Some(if be { 0 } else { 0x0105 })));
        // In a big-endian document the number is given moved up by two bytes.
        if be {
            assert_eq!(decoder.set_existing(compression, 0x0105 << 16), Ok(()));
            assert_eq!(decoder.lookup_short(compression), Ok(Some(0x0105)));
            assert_eq!(decoder.lookup_binary(compression), Ok(Some(vec![1, 5, 0, 0])));
        }
        // A long fills its slot.
        let width = TagIfd::new(Tag(0x100), Ifd::Thumbnail);
        assert_eq!(decoder.set_existing(width, 0x01020304), Ok(()));
        assert_eq!(decoder.lookup_long(width), Ok(Some(0x01020304)));
        assert_eq!(decoder.raw.buffer.len(), bytes.len());
        assert!(decoder.is_faithful());
        // Decoded anew, the document reads the same.
        let mut again = ExifRaw::new(decoder.raw.buffer.clone());
        again.decode().unwrap();
        assert_eq!(again.lookup_entry(compression), decoder.lookup_entry(compression));
        assert_eq!(again.lookup_long(width), Ok(Some(0x01020304)));
    }
}

#[test]
fn data_at_one_offset_ends_where_the_last_key_says() {
    let entry = |count: u32| EntryRef {
        position: 0,
        data_type: Type::Byte,
        count,
        value_offset: ValueOffset::Offset(100),
    };
    let record = |tag: u16, ifd: Ifd, count: u32| Located {
        tagifd: TagIfd::new(Tag(tag), ifd),
        entry: entry(count),
    };
    let end_of = |records: Vec<Located>| {
        let mut decoder = ExifRaw::new(vec![0; 200]);
        decoder.locations = records;
        decoder.last_data_end_before(150)
    };
    // The greater tag counts, wherever it stands in the index.
    let a = record(0x200, Ifd::Primary, 5);
    let b = record(0x100, Ifd::Exif, 9);
    assert_eq!(end_of(vec![a, b]), Ok(105));
    assert_eq!(end_of(vec![b, a]), Ok(105));
    // With one tag the later directory counts.
    let c = record(0x200, Ifd::Gps, 7);
    assert_eq!(end_of(vec![c, a]), Ok(107));
    assert_eq!(end_of(vec![a, c]), Ok(107));
    // With one key the last in the index counts.
    let d = record(0x200, Ifd::Gps, 8);
    assert_eq!(end_of(vec![c, d]), Ok(108));
    assert_eq!(end_of(vec![d, c]), Ok(107));
    // A later start counts before any key.
    let mut e = record(1, Ifd::Primary, 2);
    e.entry.value_offset = ValueOffset::Offset(120);
    assert_eq!(end_of(vec![e, a, c]), Ok(122));
    assert_eq!(end_of(vec![]), Ok(0));
}

#[test]
fn inserted_shorts_read_back_in_either_byte_order() {
    for be in [false, true] {
        let mut decoder = ExifRaw::new(document(&with_thumbnail_dirs(), be));
        decoder.decode().unwrap();
        let width = decoder.lookup_binary(TagIfd::new(Tag(0x100), Ifd::Thumbnail)).unwrap();
        for (i, v) in [1u16, 6, 0x1234, 0xFFFF].into_iter().enumerate() {
            let tagifd = TagIfd::new(Tag(0xA500 + i as u16), Ifd::Exif);
            assert_eq!(decoder.lookup_short(tagifd), Ok(None));
            assert_eq!(decoder.insert_entry(tagifd, short_entry(v as u32)), Ok(()));
            assert_eq!(decoder.lookup_short(tagifd), Ok(Some(v)));
            let slot = if be { v.to_be_bytes() } else { v.to_le_bytes() };
            assert_eq!(decoder.lookup_binary(tagifd), Ok(Some(vec![slot[0], slot[1], 0, 0])));
            assert!(decoder.is_faithful());
        }
        // A single byte stands at the start of the slot.
        let byte = TagIfd::new(Tag(0xA600), Ifd::Exif);
        let entry = EntryRef { data_type: Type::Byte, ..short_entry(0x7F) };
        assert_eq!(decoder.insert_entry(byte, entry), Ok(()));
        assert_eq!(decoder.lookup_binary(byte), Ok(Some(vec![0x7F, 0, 0, 0])));
        // A long fills the slot.
        let long = TagIfd::new(Tag(0xA601), Ifd::Exif);
        let entry = EntryRef { data_type: Type::Long, ..short_entry(0x01020304) };
        assert_eq!(decoder.insert_entry(long, entry), Ok(()));
        assert_eq!(decoder.lookup_long(long), Ok(Some(0x01020304)));
        // What was there reads as before, also when decoded anew.
        let index = decoder.locations.clone();
        assert_eq!(decoder.lookup_binary(TagIfd::new(Tag(0x100), Ifd::Thumbnail)).unwrap(), width);
        decoder.decode().unwrap();
        assert_eq!(decoder.lookup_short(TagIfd::new(Tag(0xA502), Ifd::Exif)), Ok(Some(0x1234)));
        assert_eq!(decoder.locations.len(), index.len());
        for record in index {
            assert_eq!(decoder.lookup_entry(record.tagifd), Some(record.entry));
        }
    }
}

#[test]
fn typed_lookups_check_type_and_count() {
    let mut decoder = ExifRaw::new(document(&canon_dirs(), false));
    decoder.decode().unwrap();
    let make = TagIfd::of(field::Make);
    let iso = TagIfd::of(field::PhotographicSensitivity);
    let time = TagIfd::of(field::ExposureTime);
    let absent = TagIfd::new(Tag(0x1234), Ifd::Gps);
    assert_eq!(
        decoder.lookup_short(make),
        Err(Error::WrongType { expected: (1, Type::Short), actual: (6, Type::Ascii) })
    );
    assert_eq!(
        decoder.lookup_long(iso),
        Err(Error::WrongType { expected: (1, Type::Long), actual: (1, Type::Short) })
    );
    assert_eq!(
        decoder.lookup_rationals::<3>(time),
        Err(Error::WrongType { expected: (3, Type::Rational), actual: (1, Type::Rational) })
    );
    assert_eq!(decoder.lookup_string(iso), Err(Error::WrongTypeGeneric));
    assert_eq!(decoder.lookup_string_raw(time), Err(Error::WrongTypeGeneric));
    assert_eq!(decoder.lookup_string_raw(make), Ok(Some(b"Canon\0".to_vec())));
    assert_eq!(decoder.lookup_short(absent), Ok(None));
    assert_eq!(decoder.lookup_long(absent), Ok(None));
    assert_eq!(decoder.lookup_rational(absent), Ok(None));
    assert_eq!(decoder.lookup_string(absent), Ok(None));
    assert_eq!(decoder.lookup_binary(absent), Ok(None));
    assert_eq!(decoder.lookup_datetime(absent), Ok(None));
    assert_eq!(decoder.lookup_entry(absent), None);
    assert_eq!(
        decoder.lookup_datetime(TagIfd::of(field::DateTimeOriginal)),
        Ok(Some("2007-10-19T19:57:06".to_string()))
    );
    assert_eq!(decoder.lookup_long(TagIfd::new(Tag(0x10), Ifd::MakerNote)), Ok(Some(0x80000236)));
    let entry = decoder.lookup_entry(time).unwrap();
    assert_eq!(entry.data_len(), Ok(8));
    assert_eq!(entry.u32(), None);
    assert_eq!(entry.offset(), Ok(entry.value_offset.u32()));
    assert_eq!(entry.value_offset_position(), entry.position + 8);
    let entry = decoder.lookup_entry(iso).unwrap();
    assert_eq!(entry.u32(), Some(200));
    assert_eq!(entry.offset(), Err(Error::ValueInsteadOfOffset));
    assert_eq!(ExifRaw::check_type(&entry, 1, Type::Short), Ok(()));
}

#[test]
fn lookups_of_dangling_data_fail() {
    let mut bytes = document(&canon_dirs(), false);
    let mut decoder = ExifRaw::new(bytes.clone());
    decoder.decode().unwrap();
    let time = TagIfd::of(field::ExposureTime);
    let make = TagIfd::of(field::Make);
    let slot = decoder.lookup_entry(time).unwrap().position as usize + 8;
    let len = bytes.len() as u32;
    bytes[slot..slot + 4].copy_from_slice(&(len - 4).to_le_bytes());
    let slot = decoder.lookup_entry(make).unwrap().position as usize + 8;
    bytes[slot..slot + 4].copy_from_slice(&(len - 4).to_le_bytes());
    let mut decoder = ExifRaw::new(bytes);
    decoder.decode().unwrap();
    assert_eq!(decoder.lookup_rational(time), Err(Error::Io));
    assert_eq!(decoder.lookup_binary(make), Err(Error::LookupEof));
    assert_eq!(decoder.lookup_string(make), Err(Error::LookupEof));
    assert_eq!(decoder.validate_ifd(Ifd::Primary), Err(Error::LookupEof));
    assert_eq!(decoder.validate_ifd(Ifd::Gps), Ok(()));
}

#[test]
fn string_lookup_strips_every_nul() {
    let dirs = vec![Dir {
        entries: vec![(0x10F, V::Ascii(b"\0A\0b\xFFc\0\0".to_vec()))],
        next: None,
    }];
    let mut decoder = ExifRaw::new(document(&dirs, false));
    decoder.decode().unwrap();
    assert_eq!(decoder.lookup_string(TagIfd::of(field::Make)), Ok(Some("Ab\u{FFFD}c".to_string())));
}

#[test]
fn lookup_returns_the_bytes_of_the_buffer() {
    let bytes = document(&canon_dirs(), false);
    let mut decoder = ExifRaw::new(bytes.clone());
    decoder.decode().unwrap();
    assert!(decoder.is_faithful());
    for record in decoder.locations.clone() {
        let first = decoder.lookup_entry(record.tagifd).unwrap();
        let data = decoder.lookup_binary(record.tagifd).unwrap().unwrap();
        match first.value_offset {
            ValueOffset::Offset(o) => {
                let len = first.data_len().unwrap() as usize;
                assert_eq!(data, bytes[o as usize..o as usize + len].to_vec());
            }
            ValueOffset::Value(_) => {
                let at = first.position as usize + 8;
                assert_eq!(data, bytes[at..at + 4].to_vec());
            }
        }
    }
}

#[test]
fn insert_shifts_positions_and_offsets() {
    let bytes = document(&with_thumbnail_dirs(), false);
    let mut decoder = ExifRaw::new(bytes.clone());
    decoder.decode().unwrap();
    let before = decoder.locations.clone();
    let locations = decoder.ifd_locations;
    let (offset, n, end) = decoder.locate_directory(Ifd::Exif).unwrap();
    assert_eq!(n, 3);
    assert_eq!(end, offset + 2 + 36);
    decoder.insert_entry(TagIfd::new(Tag(0xA500), Ifd::Exif), short_entry(1)).unwrap();
    assert_eq!(decoder.raw.buffer.len(), bytes.len() + 12);
    assert_eq!(decoder.locations.len(), before.len() + 1);
    let moved = |x: u32| if x >= end { x + 12 } else { x };
    for (old, new) in before.iter().zip(decoder.locations.iter()) {
        assert_eq!(new.tagifd, old.tagifd);
        assert_eq!(new.entry.position, moved(old.entry.position));
        match (old.entry.value_offset, new.entry.value_offset) {
            (ValueOffset::Offset(a), ValueOffset::Offset(b)) => assert_eq!(b, moved(a)),
            (ValueOffset::Value(a), ValueOffset::Value(b)) => {
                // The pointers to directories are offsets too.
                let pointer = old.tagifd.tag.is_exif_specific_ifd();
                assert_eq!(b, if pointer { moved(a) } else { a });
            }
            _ => panic!("the kind of a slot changed"),
        }
    }
    for ifd in [Ifd::Primary, Ifd::Thumbnail, Ifd::Exif, Ifd::Gps, Ifd::Interoperability] {
        assert_eq!(decoder.ifd_locations.get(ifd), locations.get(ifd).map(moved));
    }
    assert_eq!(decoder.locate_directory(Ifd::Exif), Ok((offset, 4, end + 12)));
    // Decoding the new bytes from scratch gives the same index.
    let mut again = ExifRaw::new(decoder.raw.buffer.clone());
    again.decode().unwrap();
    assert_eq!(again.ifd_locations, decoder.ifd_locations);
    for record in &decoder.locations {
        assert!(again.locations.contains(record));
    }
    assert_eq!(again.locations.len(), decoder.locations.len());
}

#[test]
fn inserted_at_moves_what_lies_behind() {
    let bytes = document(&with_thumbnail_dirs(), false);
    let mut decoder = ExifRaw::new(bytes);
    decoder.decode().unwrap();
    let before = decoder.locations.clone();
    let (_, _, end) = decoder.locate_directory(Ifd::Primary).unwrap();
    decoder.add_empty_space(end as usize, 12).unwrap();
    assert_eq!(decoder.inserted_at(end, 12), Ok(()));
    assert!(decoder.is_faithful());
    for (old, new) in before.iter().zip(decoder.locations.iter()) {
        let moved = |x: u32| if x >= end { x + 12 } else { x };
        assert_eq!(new.entry.position, moved(old.entry.position));
    }
    // A shift that leaves the 32-bit range changes nothing.
    let snapshot = decoder.snapshot();
    assert_eq!(decoder.inserted_at(0, u32::MAX as i64), Err(Error::ConversionOverflowError));
    assert_eq!(decoder.inserted_at(0, -100_000), Err(Error::ConversionOverflowError));
    assert_eq!(decoder.inserted_at(0, i64::MAX), Err(Error::ConversionOverflowError));
    assert_eq!(decoder.locations, snapshot.locations);
    assert_eq!(decoder.raw.buffer, snapshot.raw.buffer);
    assert_eq!(decoder.add_empty_space(decoder.raw.buffer.len() + 1, 1), Err(Error::Io));
}

#[test]
fn insert_into_absent_directory_fails() {
    let mut decoder = ExifRaw::new(data());
    decoder.decode().unwrap();
    let before = decoder.raw.buffer.clone();
    assert_eq!(
        decoder.insert_entry(TagIfd::new(Tag(1), Ifd::Gps), short_entry(1)),
        Err(Error::IfdNotFound)
    );
    assert_eq!(decoder.raw.buffer, before);
    assert_eq!(decoder.insert_entry(TagIfd::new(Tag(0x100), Ifd::Primary), short_entry(3)), Ok(()));
    assert_eq!(decoder.lookup_short(TagIfd::new(Tag(0x100), Ifd::Primary)), Ok(Some(3)));
    assert_eq!(decoder.raw.buffer.len(), before.len() + 12);
    assert_eq!(decoder.raw.buffer[8], 2);
}

#[test]
fn makernote_without_room_is_an_error() {
    // Nothing but the pointer that ends the directory precedes the maker note.
    let dirs = vec![
        Dir { entries: vec![(0x8769, V::Ifd(1))], next: None },
        Dir {
            entries: vec![(
                0x927C,
                V::MakerNote(vec![], vec![(1, V::Long(1)), (2, V::Ascii(b"maker note\0".to_vec()))]),
            )],
            next: None,
        },
    ];
    let mut decoder = ExifRaw::new(document(&dirs, false));
    decoder.decode().unwrap();
    assert!(decoder.makernote);
    let before = decoder.snapshot();
    assert_eq!(
        decoder.insert_entry(TagIfd::new(Tag(0x9000), Ifd::Exif), short_entry(1)),
        Err(Error::MakerNoteNoSpace)
    );
    assert_eq!(decoder.raw.buffer, before.raw.buffer);
    assert_eq!(decoder.locations, before.locations);
    assert_eq!(decoder.ifd_locations, before.ifd_locations);
    let (_, _, end) = decoder.locate_directory(Ifd::Exif).unwrap();
    assert_eq!(decoder.makernote_handle_insert(end, 12), Err(Error::MakerNoteNoSpace));
    // An insertion behind the maker note needs no guard.
    assert_eq!(decoder.makernote_handle_insert(u32::MAX, 12), Ok(()));
    assert_eq!(decoder.raw.buffer, before.raw.buffer);
}

#[test]
fn maker_note_that_is_not_registered_is_not_guarded() {
    // The maker note is too short to be read as a directory.
    let dirs = vec![
        Dir { entries: vec![(0x8769, V::Ifd(1))], next: None },
        Dir { entries: vec![(0x927C, V::Undefined(b"vendor".to_vec()))], next: None },
    ];
    let mut decoder = ExifRaw::new(document(&dirs, false));
    decoder.decode().unwrap();
    assert!(!decoder.makernote);
    assert_eq!(decoder.makernote_guess_offset(), None);
    assert_eq!(decoder.ifd_locations.get(Ifd::MakerNote), None);
    let offset = decoder.makernote_entry().unwrap().value_offset.u32();
    let tagifd = TagIfd::new(Tag(0x9000), Ifd::Exif);
    assert_eq!(decoder.insert_entry(tagifd, short_entry(1)), Ok(()));
    assert_eq!(decoder.makernote_entry().unwrap().value_offset, ValueOffset::Offset(offset + 12));
    assert_eq!(
        decoder.lookup_binary(TagIfd::new(Tag(Tag::MAKER_NOTE), Ifd::Exif)),
        Ok(Some(b"vendor".to_vec()))
    );
}

#[test]
fn overwrite_that_would_break_the_index_is_refused() {
    // The thumbnail directory is the primary directory read once more.
    let mut bytes = data();
    bytes[22..26].copy_from_slice(&8u32.to_le_bytes());
    let mut decoder = ExifRaw::new(bytes.clone());
    decoder.decode().unwrap();
    assert_eq!(decoder.locations.len(), 2);
    assert_eq!(decoder.locations[0].entry, decoder.locations[1].entry);
    let tagifd = TagIfd::new(Tag(0x112), Ifd::Primary);
    assert_eq!(decoder.set_existing(tagifd, 5), Err(Error::EntryNotFound));
    assert_eq!(decoder.raw.buffer, bytes);
    assert_eq!(decoder.lookup_short(tagifd), Ok(Some(7)));
    // With a value that is there already nothing breaks.
    assert_eq!(decoder.set_existing(tagifd, 7), Ok(()));
    let absent = TagIfd::new(Tag(0x112), Ifd::Gps);
    assert_eq!(decoder.set_existing(absent, 7), Err(Error::TagNotFound(absent)));
}

#[test]
fn guard_takes_out_what_the_insertion_adds() {
    let mut decoder = get_decoded_exif(canon_jpeg());
    let len = decoder.raw.buffer.len();
    let offset = decoder.makernote_entry().unwrap().value_offset.u32();
    let (_, _, end) = decoder.locate_directory(Ifd::Primary).unwrap();
    assert_eq!(decoder.free_space_before(offset), Ok(0));
    assert_eq!(decoder.makernote_handle_insert(end, 12), Ok(()));
    assert_eq!(decoder.makernote_entry().unwrap().value_offset, ValueOffset::Offset(offset - 12));
    // The date and time, 20 bytes, went behind the maker note.
    assert_eq!(decoder.raw.buffer.len(), len + 20 - 12);
    assert_eq!(
        decoder.lookup_binary(TagIfd::of(field::DateTimeOriginal)).unwrap().unwrap(),
        b"2007:10:19 19:57:06\0"
    );
    assert!(decoder.is_faithful());
    assert_eq!(decoder.validate_ifd(Ifd::MakerNote), Ok(()));
}

#[test]
fn moves_that_would_break_the_document_are_refused() {
    let mut exif = ExifRaw::new(abc_data());
    exif.decode().unwrap();
    let bytes = exif.raw.buffer.clone();
    let index = exif.locations.clone();
    // The header of the first entry is no data that can be moved.
    assert_eq!(exif.move_datum(10, 22, 90), Err(Error::EntryNotFound));
    assert_eq!(exif.raw.buffer, bytes);
    assert_eq!(exif.locations, index);
    // Data that is moved stands at its new place, zeros at the old one.
    assert_eq!(exif.move_datum(70, 75, 90), Ok(()));
    assert_eq!(&exif.raw.buffer[90..95], b"hijkl");
    assert_eq!(&exif.raw.buffer[70..75], &[0; 5]);
    assert_eq!(exif.raw.buffer.len(), bytes.len() + 5);
    assert!(exif.is_faithful());
    assert_eq!(exif.lookup_binary(TagIfd::of(field::XResolution)).unwrap().unwrap(), b"hijkl");
    assert_eq!(exif.lookup_binary(TagIfd::of(field::Orientation)).unwrap().unwrap(), b"abcdefg");
    // After freeing, the space is free.
    let mut exif = ExifRaw::new(abc_data());
    exif.decode().unwrap();
    assert_eq!(exif.freeup_space_before(80, 6, 90), Ok(()));
    assert!(exif.free_space_before(80).unwrap() >= 6);
    assert_eq!(exif.lookup_binary(TagIfd::of(field::Orientation)).unwrap().unwrap(), b"abcdefg");
}

#[test]
fn move_entry_relocates_data() {
    let mut exif = ExifRaw::new(abc_data());
    exif.decode().unwrap();
    assert_eq!(exif.free_space_before(80), Ok(5));
    assert_eq!(exif.free_space_before(60), Ok(60));
    assert_eq!(exif.last_data_end_before(60), Ok(0));
    assert_eq!(exif.nearest_data_before(80), Some(1));
    assert_eq!(exif.select_before(80, 6), Ok(vec![1, 0]));
    assert_eq!(exif.select_before(80, 13), Err(Error::MakerNoteNoSpace));
    assert_eq!(exif.move_entry(7, 90), Err(Error::EntryNotFound));
    assert_eq!(exif.move_entry(0, 90), Ok(()));
    let entry = exif.lookup_entry(TagIfd::of(field::Orientation)).unwrap();
    assert_eq!(entry.value_offset, ValueOffset::Offset(90));
    assert_eq!(&exif.raw.buffer[60..67], &[0; 7]);
    assert_eq!(&exif.raw.buffer[90..97], b"abcdefg");
    assert_eq!(exif.raw.buffer.len(), 97);
    assert_eq!(exif.move_datum(70, 75, 60), Err(Error::OffsetInvalid(60)));
    assert_eq!(exif.move_datum(75, 70, 90), Err(Error::SubstractionOverflowError));
    assert_eq!(exif.move_datum(70, 75, 98), Err(Error::EntryEof));
    assert_eq!(exif.move_datum(70, 75, 90), Ok(()));
    assert_eq!(exif.lookup_binary(TagIfd::of(field::XResolution)).unwrap().unwrap(), b"hijkl");
    assert_eq!(exif.lookup_binary(TagIfd::of(field::Orientation)).unwrap().unwrap(), b"abcdefg");
    assert_eq!(exif.lookup_entry(TagIfd::of(field::Orientation)).unwrap().offset(), Ok(95));
    assert!(exif.is_faithful());
}

#[test]
fn duplicate_tags_use_the_first_entry() {
    let dirs = vec![Dir {
        entries: vec![(0x112, V::Short(3)), (0x112, V::Short(8))],
        next: None,
    }];
    let mut decoder = ExifRaw::new(document(&dirs, false));
    decoder.decode().unwrap();
    let tagifd = TagIfd::of(field::Orientation);
    assert_eq!(decoder.lookup_short(tagifd), Ok(Some(3)));
    assert_eq!(decoder.locations.len(), 2);
    // Overwriting reaches every entry with the key.
    decoder.set_existing(tagifd, 1).unwrap();
    assert_eq!(decoder.locations[1].entry.value_offset, ValueOffset::Value(1));
    let mut again = ExifRaw::new(decoder.raw.buffer.clone());
    again.decode().unwrap();
    assert_eq!(again.locations, decoder.locations);
}

#[test]
fn duplicate_directory_pointer_is_ignored() {
    let dirs = vec![
        Dir { entries: vec![(0x8769, V::Ifd(1)), (0x8769, V::Ifd(2))], next: None },
        Dir { entries: vec![(0x8827, V::Short(100))], next: None },
        Dir { entries: vec![(0x8827, V::Short(400))], next: None },
    ];
    let mut decoder = ExifRaw::new(document(&dirs, false));
    decoder.decode().unwrap();
    assert_eq!(decoder.lookup_short(TagIfd::of(field::PhotographicSensitivity)), Ok(Some(100)));
    assert_eq!(decoder.locations.len(), 3);
    assert_eq!(decoder.ifd_locations.get(Ifd::Exif), Some(8 + 2 + 8));
    assert!(decoder.add_ifd_offset_location(Ifd::Exif, 99));
    assert_eq!(decoder.ifd_locations.get(Ifd::Exif), Some(8 + 2 + 8));
    assert!(!decoder.add_ifd_offset_location(Ifd::Gps, 99));
    assert_eq!(decoder.ifd_locations.get(Ifd::Gps), Some(99));
}

#[test]
fn directory_that_points_to_itself_ends() {
    // The Exif directory holds a pointer to the Exif directory.
    let dirs = vec![
        Dir { entries: vec![(0x8769, V::Ifd(1))], next: Some(0) },
        Dir { entries: vec![(0x8769, V::Ifd(1)), (0x8825, V::Ifd(0))], next: None },
    ];
    let mut decoder = ExifRaw::new(document(&dirs, false));
    assert_eq!(decoder.decode(), Ok(()));
    // primary, exif, gps and thumbnail, the last two read from the primary directory
    assert_eq!(decoder.locations.len(), 1 + 2 + 1 + 1);
}

#[test]
fn raw_reads_and_writes_at_the_cursor() {
    let mut raw = Raw::new(vec![1, 2, 3, 4, 5, 6]);
    assert_eq!(raw.position(), Ok(0));
    assert_eq!(raw.read_u16(), Ok(0x0201));
    assert_eq!(raw.read_u32(), Ok(0x06050403));
    assert_eq!(raw.position(), Ok(6));
    assert_eq!(raw.read_u16(), Err(Error::Io));
    raw.big_endian = true;
    raw.seek_start(0).unwrap();
    assert_eq!(raw.read_u16(), Ok(0x0102));
    assert_eq!(raw.read_u32(), Ok(0x03040506));
    raw.seek_start(1).unwrap();
    assert_eq!(raw.read_exact::<3>(), Ok([2, 3, 4]));
    assert_eq!(raw.read_exact::<3>(), Err(Error::Io));
    assert_eq!(raw.position(), Ok(6));
    raw.seek_start(2).unwrap();
    assert_eq!(raw.write_u16(0xA1B2), Ok(()));
    assert_eq!(raw.write_u32(9), Err(Error::Io));
    assert_eq!(raw.buffer, vec![1, 2, 0xA1, 0xB2, 5, 6]);
    raw.big_endian = false;
    raw.seek_start(0).unwrap();
    assert_eq!(raw.write_u32(0x0A0B0C0D), Ok(()));
    assert_eq!(raw.write_all(&[7, 7]), Ok(()));
    assert_eq!(raw.write_all(&[7]), Err(Error::Io));
    assert_eq!(raw.buffer, vec![0x0D, 0x0C, 0x0B, 0x0A, 7, 7]);
    raw.seek_start(u32::MAX).unwrap();
    assert_eq!(raw.position(), Ok(u32::MAX));
    assert_eq!(raw.read_vec(0), Err(Error::Io));
    raw.seek_start(4).unwrap();
    assert_eq!(raw.read_vec(2), Ok(vec![7, 7]));
    raw.cursor = u32::MAX as u64 + 1;
    assert_eq!(raw.position(), Err(Error::OffsetTooLarge));
    assert_eq!(raw.get(4, 2), Some(vec![7, 7]));
    assert_eq!(raw.get(4, 3), None);
    assert_eq!(raw.get_u16(4), Some(0x0707));
    assert_eq!(raw.get_u32(3), None);
}

#[test]
fn types_have_codes_and_sizes() {
    let table = [
        (Type::Byte, 1, 1),
        (Type::Ascii, 2, 1),
        (Type::Short, 3, 2),
        (Type::Long, 4, 4),
        (Type::Rational, 5, 8),
        (Type::Undefined, 7, 1),
        (Type::SLong, 9, 4),
        (Type::SRational, 10, 8),
        (Type::Utf8, 129, 1),
        (Type::Unknown(6), 6, 1),
    ];
    for (data_type, code, size) in table {
        assert_eq!(data_type.u16(), code);
        assert_eq!(Type::from(code), data_type);
        assert_eq!(u16::from(data_type), code);
        assert_eq!(data_type.size(), size);
    }
    for code in 0..=u16::MAX {
        assert_eq!(Type::from_u16(code).u16(), code);
    }
    assert_eq!(ValueOffset::new(Type::Short, 2, 9), Ok(ValueOffset::Value(9)));
    assert_eq!(ValueOffset::new(Type::Short, 3, 9), Ok(ValueOffset::Offset(9)));
    assert_eq!(ValueOffset::new(Type::Byte, 0, 9), Ok(ValueOffset::Value(9)));
    assert_eq!(ValueOffset::new(Type::Rational, 1 << 29, 9), Err(Error::DataSizeTooLarge));
    let entry = EntryRef {
        position: 0,
        data_type: Type::Long,
        count: 1 << 30,
        value_offset: ValueOffset::Offset(0),
    };
    assert_eq!(entry.data_len(), Err(Error::OffsetTooLarge));
}

#[test]
fn tags_point_to_directories() {
    assert_eq!(Tag(Tag::EXIF_IFD_POINTER).exif_specific_ifd(), Some(Ifd::Exif));
    assert_eq!(Tag(Tag::GPS_INFO_IFD_POINTER).exif_specific_ifd(), Some(Ifd::Gps));
    assert_eq!(
        Tag(Tag::INTEROPERABILITY_IFD_POINTER).exif_specific_ifd(),
        Some(Ifd::Interoperability)
    );
    assert_eq!(Tag(Tag::MAKER_NOTE).exif_specific_ifd(), None);
    assert!(Tag(0x8769).is_exif_specific_ifd());
    assert!(!Tag(0x112).is_exif_specific_ifd());
    assert_eq!(lookup_tag_name(TagIfd::of(field::Orientation)), Some("Orientation"));
    assert_eq!(lookup_tag_name(TagIfd::new(Tag(0x112), Ifd::Thumbnail)), Some("ThumbnailOrientation"));
    assert_eq!(lookup_tag_name(TagIfd::new(Tag(0x112), Ifd::Exif)), None);
    assert_eq!(field::Orientation::NAME, "Orientation");
    assert_eq!(TagIfd::of(field::LensModel), TagIfd::new(Tag(0xA434), Ifd::Exif));
}

#[test]
fn debug_dump_lists_directories_and_entries() {
    let mut decoder = ExifRaw::new(data());
    decoder.decode().unwrap();
    assert_eq!(
        decoder.debug_dump(),
        "\nPrimary - Defined Some(4)\n------------------------------\nOrientation Short(1): Value(7)\n7\n"
    );
    assert_eq!(decoder.debug_dump_entry(TagIfd::of(field::Orientation)), "7");
    assert_eq!(decoder.debug_dump_entry(TagIfd::of(field::Make)), "Not found");
    let mut decoder = ExifRaw::new(document(&apple_dirs(), false));
    decoder.decode().unwrap();
    let dump = decoder.debug_dump();
    assert!(dump.contains("\nGps - Defined Some(66)\n"));
    assert!(dump.contains("Make Ascii(6): Offset(74)\nApple\n"));
    assert!(dump.contains("ExposureTime Rational(1): Offset("));
    assert!(dump.contains("\n1/682\n"));
    assert!(dump.contains("GPSLatitude Rational(3): Offset("));
    assert!(dump.contains("\n[(52, 1), (32, 1), (3712, 100)]\n"));
    assert!(dump.contains("0x8769 Long(1): Value("));
    assert!(dump.contains("\nMakerNote - Defined Some("));
    assert!(dump.contains("0x927C Undefined("));
    assert!(dump.contains("\nUnknown type Undefined\n"));
    assert!(!dump.contains("Thumbnail"));
    let mut bytes = data();
    bytes[12] = 200;
    bytes[14] = 9;
    let mut decoder = ExifRaw::new(bytes);
    decoder.decode().unwrap();
    assert_eq!(
        decoder.debug_dump(),
        "\nPrimary - Defined Some(4)\n------------------------------\nOrientation Unknown(200)(9): Offset(7)\nUnknown type Unknown(200)\n"
    );
}
