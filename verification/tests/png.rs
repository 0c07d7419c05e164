use gufo::common::cicp::{
    Cicp, ColorPrimaries, MatrixCoefficients, TransferCharacteristics, VideoRangeFlag,
};
use gufo::common::image::{ImageFormat, ImageMetadata};
use gufo::png::chunk::{read_legacy_exif, skip_while, strip_space};
use gufo::png::file::checksum;
use gufo::png::scan::find_chunks;
use gufo::png::{ChunkType, Error, NewChunk, Png, RawChunk, LEGACY_EXIF_KEYWORD};

const MAGIC: [u8; 8] = [137, 80, 78, 71, 13, 10, 26, 10];

fn chunk(chunk_type: ChunkType, data: &[u8]) -> Vec<u8> {
    NewChunk::new(chunk_type, data.to_vec()).to_bytes()
}

fn zlib(data: &[u8]) -> Vec<u8> {
    miniz_oxide::deflate::compress_to_vec_zlib(data, 6)
}

fn legacy_exif_text() -> Vec<u8> {
    let mut text = b"\nexif\n      14\n".to_vec();
    text.extend_from_slice(b"457869660000\n49492A00 0800\n0000\n");
    text
}

fn ztxt(keyword: &[u8], text: &[u8]) -> Vec<u8> {
    let mut data = keyword.to_vec();
    data.extend_from_slice(&[0, 0]);
    data.extend(zlib(text));
    data
}

fn itxt(keyword: &[u8], compressed: bool, text: &[u8]) -> Vec<u8> {
    let mut data = keyword.to_vec();
    data.extend_from_slice(&[0, compressed as u8, 0]);
    data.extend_from_slice(b"en\0");
    data.extend_from_slice(b"translated\0");
    if compressed {
        data.extend(zlib(text));
    } else {
        data.extend_from_slice(text);
    }
    data
}

fn file() -> Vec<u8> {
    let mut out = MAGIC.to_vec();
    out.extend(chunk(ChunkType::IHDR, &[0, 0, 0, 1, 0, 0, 0, 1, 8, 0, 0, 0, 0]));
    out.extend(chunk(ChunkType::cICP, &[12, 13, 0, 1]));
    out.extend(chunk(ChunkType::tEXt, b"Title\0Caf\xE9"));
    out.extend(chunk(ChunkType::zTXt, &ztxt(b"Comment", b"compressed text")));
    out.extend(chunk(ChunkType::zTXt, &ztxt(LEGACY_EXIF_KEYWORD.as_bytes(), &legacy_exif_text())));
    out.extend(chunk(ChunkType::iTXt, &itxt(b"Other", false, b"<y/>")));
    out.extend(chunk(ChunkType::iTXt, &itxt(b"XML:com.adobe.xmp", true, b"<x/>")));
    out.extend(chunk(ChunkType::iTXt, &itxt(b"XML:com.adobe.xmp", false, b"<z/>")));
    out.extend(chunk(ChunkType::iDOT, &[1, 2, 3]));
    out.extend(chunk(ChunkType::IDAT, &[10, 11]));
    out.extend(chunk(ChunkType::eXIf, b"MM\0*\0\0\0\x08\0\0\0\0\0\0"));
    out.extend(chunk(ChunkType::IDAT, &[12]));
    out.extend(chunk(ChunkType::Unknown(u32::from_be_bytes(*b"prIv")), &[]));
    out.extend(chunk(ChunkType::IEND, &[]));
    out
}

#[test]
fn chunks_are_found() {
    let data = file();
    let png = Png::new(data.clone()).unwrap();
    let chunks = png.chunks();
    assert_eq!(chunks.len(), 14);
    assert_eq!(chunks[0].chunk_type(), ChunkType::IHDR);
    assert_eq!(chunks[0].chunk_data().len(), 13);
    assert_eq!(chunks[13].chunk_type(), ChunkType::IEND);
    assert_eq!(chunks[13].crc(), &[0xAE, 0x42, 0x60, 0x82]);
    assert_eq!(chunks[12].chunk_type(), ChunkType::Unknown(u32::from_be_bytes(*b"prIv")));
    assert_eq!(chunks[9].chunk_data(), &[10, 11]);
    let raw = chunks[0].unsafe_raw_chunk();
    assert_eq!(raw.data_start, 16);
    assert_eq!(raw.data_end, 29);
    assert_eq!(raw.complete_data(), (8, 33));
    assert_eq!(raw.total_len(), 25);
    assert_eq!(png.get(0, 8), Some(&MAGIC[..]));
    assert_eq!(png.get(8, 7), None);
    assert_eq!(png.get(0, data.len() + 1), None);
    assert_eq!(png.find(ChunkType::IDAT), Some(9));
    assert_eq!(png.find_last(ChunkType::IDAT), Some(11));
    assert_eq!(png.find(ChunkType::tIME), None);
    assert_eq!(png.inflate_limit, 100_000_000);
    assert!(Png::is_filetype(&data));
    assert!(!Png::is_filetype(&data[1..]));
    assert_eq!(png.into_inner(), data);
}

#[test]
fn broken_png_files_are_refused() {
    assert_eq!(find_chunks(&MAGIC[..7]), Err(Error::UnexpectedEof));
    assert_eq!(find_chunks(b"\x89PNG\r\n\x1a\r"), Err(Error::InvalidMagicBytes(*b"\x89PNG\r\n\x1a\r")));
    assert_eq!(find_chunks(&MAGIC), Err(Error::UnexpectedEof));
    let data = file();
    // Without the chunk that ends the file
    assert_eq!(find_chunks(&data[..data.len() - 12]), Err(Error::UnexpectedEof));
    // Without the last byte of the checksum
    assert_eq!(find_chunks(&data[..data.len() - 1]), Err(Error::UnexpectedEof));
    let mut long = data.clone();
    long[8..12].copy_from_slice(&u32::MAX.to_be_bytes());
    assert_eq!(find_chunks(&long), Err(Error::UnexpectedEof));
    let error = Png::new(data[..20].to_vec()).unwrap_err();
    assert_eq!(*error.err(), Error::UnexpectedEof);
    assert_eq!(error.into_inner(), data[..20].to_vec());
    // What follows the end of the file is not read.
    let mut more = data.clone();
    more.extend_from_slice(b"more");
    assert_eq!(find_chunks(&more).unwrap().len(), 14);
}

#[test]
fn chunk_types_have_names() {
    for (name, chunk_type) in [
        (*b"IHDR", ChunkType::IHDR),
        (*b"IDAT", ChunkType::IDAT),
        (*b"IEND", ChunkType::IEND),
        (*b"bKGD", ChunkType::bKGD),
        (*b"cHRM", ChunkType::cHRM),
        (*b"cICP", ChunkType::cICP),
        (*b"eXIf", ChunkType::eXIf),
        (*b"iCCP", ChunkType::iCCP),
        (*b"iDOT", ChunkType::iDOT),
        (*b"iTXt", ChunkType::iTXt),
        (*b"pHYs", ChunkType::pHYs),
        (*b"sRGB", ChunkType::sRGB),
        (*b"tEXt", ChunkType::tEXt),
        (*b"tIME", ChunkType::tIME),
        (*b"zTXt", ChunkType::zTXt),
        (*b"abcd", ChunkType::Unknown(0x61626364)),
    ] {
        assert_eq!(chunk_type.bytes(), name);
        assert_eq!(ChunkType::from_u32(u32::from_be_bytes(name)), chunk_type);
        assert_eq!(chunk_type.to_u32(), u32::from_be_bytes(name));
    }
}

#[test]
fn texts_are_read() {
    let png = Png::new(file()).unwrap();
    let chunks = png.chunks();
    assert_eq!(chunks[2].keyword(), Ok(&b"Title"[..]));
    assert_eq!(chunks[2].text(), Ok((&b"Title"[..], &b"Caf\xE9"[..])));
    assert_eq!(chunks[3].ztxt(100), Ok((&b"Comment"[..], b"compressed text".to_vec())));
    // The text does not fit in the limit.
    assert_eq!(chunks[3].ztxt(5), Err(Error::Zlib));
    // No compressed data
    assert_eq!(chunks[2].ztxt(100), Err(Error::Zlib));
    assert_eq!(chunks[2].textual(100), Ok((&b"Title"[..], b"Caf\xE9".to_vec())));
    assert_eq!(chunks[3].textual(100), Ok((&b"Comment"[..], b"compressed text".to_vec())));
    assert_eq!(chunks[0].textual(100), Err(Error::NoText));
    // No NUL byte ends the keyword.
    assert_eq!(chunks[9].keyword(), Ok(&[10, 11][..]));
    assert_eq!(chunks[9].text(), Err(Error::UnexpectedEndOfChunkData));
    assert_eq!(chunks[12].text(), Err(Error::UnexpectedEndOfChunkData));
    assert_eq!(
        png.key_value(),
        vec![
            ("Title".to_string(), "Caf\u{E9}".to_string()),
            ("Comment".to_string(), "compressed text".to_string()),
            (
                "Raw profile type exif".to_string(),
                String::from_utf8(legacy_exif_text()).unwrap()
            ),
        ]
    );
}

#[test]
fn legacy_exif_is_decoded() {
    let png = Png::new(file()).unwrap();
    let chunks = png.chunks();
    let exif = b"II*\0\x08\0\0\0".to_vec();
    assert_eq!(chunks[4].legacy_exif(1000), Some(exif.clone()));
    assert_eq!(chunks[4].legacy_exif(10), None);
    assert_eq!(chunks[3].legacy_exif(1000), None);
    assert_eq!(chunks[0].legacy_exif(1000), None);
    assert_eq!(read_legacy_exif(&legacy_exif_text()), Some(exif.clone()));
    assert_eq!(read_legacy_exif(b"exif 0 457869660000 4D4d"), Some(b"MM".to_vec()));
    assert_eq!(read_legacy_exif(b"exif 0 457869660000"), Some(vec![]));
    assert_eq!(read_legacy_exif(b"exif 457869660000"), None);
    assert_eq!(read_legacy_exif(b"  exif 8 x 457869660000"), None);
    assert_eq!(read_legacy_exif(b"exif 0 45786966000"), None);
    assert_eq!(read_legacy_exif(b"exif 0 4578696600004G"), None);
    assert_eq!(read_legacy_exif(b"exif 0 4949"), None);
    assert_eq!(read_legacy_exif(b"icc 0 457869660000"), None);
    assert_eq!(read_legacy_exif(b"exif 0 "), None);
    assert_eq!(read_legacy_exif(b"   "), None);
    assert_eq!(read_legacy_exif(b""), None);
    assert_eq!(skip_while(b" \t\r\n\x0Cx ", 0, false), Some(5));
    assert_eq!(skip_while(b"12a", 0, true), Some(2));
    assert_eq!(skip_while(b"12", 0, true), None);
    assert_eq!(skip_while(b"12", 5, true), None);
    assert_eq!(strip_space(b" a b\n\tc\r"), b"abc".to_vec());
    assert_eq!(
        ImageMetadata::exif(&png),
        vec![b"MM\0*\0\0\0\x08\0\0\0\0\0\0".to_vec(), exif.clone()]
    );
    assert_eq!(png.exif().len(), 2);
}

#[test]
fn xmp_is_read_from_international_text() {
    let png = Png::new(file()).unwrap();
    let chunks = png.chunks();
    assert_eq!(chunks[5].xmp(100), None);
    assert_eq!(chunks[6].xmp(100), Some(b"<x/>".to_vec()));
    assert_eq!(chunks[6].xmp(2), None);
    assert_eq!(chunks[7].xmp(100), Some(b"<z/>".to_vec()));
    assert_eq!(chunks[2].xmp(100), None);
    assert_eq!(png.xmp(), vec![b"<x/>".to_vec()]);
    assert_eq!(ImageMetadata::xmp(&png), vec![b"<x/>".to_vec()]);
}

#[test]
fn cicp_is_read() {
    let png = Png::new(file()).unwrap();
    assert_eq!(
        png.cicp(),
        Some(Cicp {
            color_primaries: ColorPrimaries::DciP3,
            transfer_characteristics: TransferCharacteristics::Gamma24,
            matrix_coefficients: MatrixCoefficients::Identity,
            video_full_range_flag: VideoRangeFlag::Full,
        })
    );
    assert_eq!(ImageMetadata::cicp(&png), png.cicp());
    let mut data = file();
    let at = data.windows(4).position(|w| w == b"cICP").unwrap() + 4 + 3;
    data[at] = 2;
    assert_eq!(Png::new(data).unwrap().cicp(), None);
    let mut small = MAGIC.to_vec();
    small.extend(chunk(ChunkType::cICP, &[1, 13, 0]));
    small.extend(chunk(ChunkType::IEND, &[]));
    assert_eq!(Png::new(small).unwrap().cicp(), None);
}

#[test]
fn checksums_are_crc32() {
    assert_eq!(checksum(b""), 0);
    assert_eq!(checksum(b"IEND"), 0xAE426082);
    assert_eq!(checksum(b"123456789"), 0xCBF43926);
    assert_eq!(
        chunk(ChunkType::IEND, &[]),
        vec![0, 0, 0, 0, b'I', b'E', b'N', b'D', 0xAE, 0x42, 0x60, 0x82]
    );
    let bytes = chunk(ChunkType::tEXt, b"a\0b");
    assert_eq!(&bytes[..11], &[0, 0, 0, 3, b't', b'E', b'X', b't', b'a', 0, b'b']);
    assert_eq!(&bytes[11..], &checksum(b"tEXta\0b").to_be_bytes());
}

#[test]
fn chunks_are_inserted_and_removed() {
    let mut png = Png::new(file()).unwrap();
    let len = png.data.len();
    assert_eq!(png.insert_chunk(NewChunk::new(ChunkType::tIME, vec![1, 2, 3, 4, 5, 6, 7])), Ok(()));
    assert_eq!(png.data.len(), len + 19);
    let types: Vec<ChunkType> = png.chunks().iter().map(|c| c.chunk_type()).collect();
    assert_eq!(&types[8..11], &[ChunkType::iDOT, ChunkType::tIME, ChunkType::IDAT]);
    let time: RawChunk = png.chunks()[9].unsafe_raw_chunk();
    assert_eq!(png.chunks()[9].chunk_data(), &[1, 2, 3, 4, 5, 6, 7]);
    assert_eq!(png.remove_chunk(time), Ok(()));
    assert_eq!(png.data, file());
    // Without the chunk that ends the file what is left is no PNG file.
    let end = png.chunks()[13].unsafe_raw_chunk();
    assert_eq!(png.remove_chunk(end), Err(Error::UnexpectedEof));
    assert_eq!(png.data, file());
    let mut bare = MAGIC.to_vec();
    bare.extend(chunk(ChunkType::IEND, &[]));
    let mut bare = Png::new(bare).unwrap();
    assert_eq!(
        bare.insert_chunk(NewChunk::new(ChunkType::tIME, vec![])),
        Err(Error::NoIdatChunk)
    );
}

#[test]
fn image_data_is_replaced() {
    let mut other = MAGIC.to_vec();
    other.extend(chunk(ChunkType::IHDR, &[0, 0, 0, 2, 0, 0, 0, 2, 8, 0, 0, 0, 0]));
    other.extend(chunk(ChunkType::tEXt, b"Title\0other"));
    other.extend(chunk(ChunkType::IDAT, &[20]));
    other.extend(chunk(ChunkType::IDAT, &[21]));
    other.extend(chunk(ChunkType::IDAT, &[22]));
    other.extend(chunk(ChunkType::IEND, &[]));
    let other = Png::new(other).unwrap();
    let mut png = Png::new(file()).unwrap();
    assert_eq!(png.replace_image_data(&other), Ok(()));
    let chunks = png.chunks();
    let types: Vec<ChunkType> = chunks.iter().map(|c| c.chunk_type()).collect();
    assert_eq!(
        types,
        vec![
            ChunkType::IHDR,
            ChunkType::cICP,
            ChunkType::tEXt,
            ChunkType::zTXt,
            ChunkType::zTXt,
            ChunkType::iTXt,
            ChunkType::iTXt,
            ChunkType::iTXt,
            ChunkType::eXIf,
            ChunkType::IDAT,
            ChunkType::IDAT,
            ChunkType::IDAT,
            ChunkType::Unknown(u32::from_be_bytes(*b"prIv")),
            ChunkType::IEND,
        ]
    );
    assert_eq!(chunks[0].chunk_data()[3], 2);
    assert_eq!(chunks[2].chunk_data(), b"Title\0Caf\xE9");
    assert_eq!(chunks[9].chunk_data(), &[20]);
    assert_eq!(chunks[11].chunk_data(), &[22]);
    assert_eq!(other.all_chunks(ChunkType::IDAT).len(), 3 * 13);
    let mut bare = MAGIC.to_vec();
    bare.extend(chunk(ChunkType::IEND, &[]));
    let mut bare = Png::new(bare).unwrap();
    assert_eq!(bare.replace_image_data(&other), Err(Error::NoIdatChunk));
    let mut headless = MAGIC.to_vec();
    headless.extend(chunk(ChunkType::IDAT, &[1]));
    headless.extend(chunk(ChunkType::IEND, &[]));
    let headless = Png::new(headless).unwrap();
    let mut png = Png::new(file()).unwrap();
    assert_eq!(png.replace_image_data(&headless), Err(Error::NoIhdrChunk));
    assert_eq!(png.data, file());
}

#[test]
fn chunk_types_are_listed_with_their_repeats() {
    let png = Png::new(file()).unwrap();
    assert_eq!(
        png.chunk_runs(),
        vec![
            (ChunkType::IHDR, 1),
            (ChunkType::cICP, 1),
            (ChunkType::tEXt, 1),
            (ChunkType::zTXt, 2),
            (ChunkType::iTXt, 3),
            (ChunkType::iDOT, 1),
            (ChunkType::IDAT, 1),
            (ChunkType::eXIf, 1),
            (ChunkType::IDAT, 1),
            (ChunkType::Unknown(u32::from_be_bytes(*b"prIv")), 1),
            (ChunkType::IEND, 1),
        ]
    );
}
