use gufo::webp::{find_chunks, Error, FourCC, WebP};

fn chunk(name: &[u8; 4], payload: &[u8]) -> Vec<u8> {
    let mut out = name.to_vec();
    out.extend_from_slice(&(payload.len() as u32).to_le_bytes());
    out.extend_from_slice(payload);
    if payload.len() % 2 == 1 {
        out.push(0);
    }
    out
}

fn file() -> Vec<u8> {
    let mut body = b"WEBP".to_vec();
    body.extend(chunk(b"VP8X", &[0; 10]));
    body.extend(chunk(b"EXIF", b"II*"));
    body.extend(chunk(b"XMP ", b"<x/>"));
    body.extend(chunk(b"EXIF", b"MM\0*"));
    body.extend(chunk(b"abcd", b"12345678"));
    body.extend(chunk(b"last", b""));
    let mut out = b"RIFF".to_vec();
    out.extend_from_slice(&(body.len() as u32).to_le_bytes());
    out.extend(body);
    out
}

#[test]
fn riff_chunks_are_found() {
    let data = file();
    let webp = WebP::new(data.clone()).unwrap();
    let chunks = webp.chunks();
    // The chunk in the last eight bytes lies behind the length that the
    // file gives itself, counted from the start of the file.
    assert_eq!(chunks.len(), 5);
    assert_eq!(chunks[0].four_cc(), FourCC::VP8X);
    assert_eq!(chunks[0].payload(), &[0; 10]);
    assert_eq!(chunks[1].four_cc(), FourCC::EXIF);
    assert_eq!(chunks[1].payload(), b"II*");
    assert_eq!(chunks[2].four_cc(), FourCC::XMP);
    assert_eq!(chunks[2].payload(), b"<x/>");
    assert_eq!(chunks[4].four_cc(), FourCC::Unknown(u32::from_le_bytes(*b"abcd")));
    assert_eq!(chunks[4].payload(), b"12345678");
    assert_eq!(webp.exif(), Some(&b"II*"[..]));
    assert_eq!(webp.xmp(), Some(&b"<x/>"[..]));
    assert_eq!(webp.payload(FourCC::ICCP), None);
    assert_eq!(webp.get(0, 4), Some(&b"RIFF"[..]));
    assert_eq!(webp.get(4, 3), None);
    assert_eq!(webp.get(0, data.len() + 1), None);
    assert!(WebP::is_filetype(&data));
    assert!(!WebP::is_filetype(&data[..11]));
    assert!(!WebP::is_filetype(b"RIFF\0\0\0\0WEBX"));
    assert_eq!(webp.into_inner(), data);
}

#[test]
fn broken_webp_files_are_refused() {
    assert_eq!(find_chunks(b"RIF"), Err(Error::UnexpectedEof));
    assert_eq!(find_chunks(b"RIFX"), Err(Error::RiffMagicBytesMissing(*b"RIFX")));
    assert_eq!(find_chunks(b"RIFF\x04\0\0\0WEB"), Err(Error::UnexpectedEof));
    assert_eq!(find_chunks(b"RIFF\x04\0\0\0WEBM"), Err(Error::WebpMagicBytesMissing(*b"WEBM")));
    assert_eq!(find_chunks(b"RIFF\x04\0\0\0WEBP"), Err(Error::UnexpectedEof));
    let data = file();
    // The payload reaches beyond the end of the file.
    assert_eq!(find_chunks(&data[..data.len() - 9]), Err(Error::UnexpectedEof));
    // The file ends where the next chunk is to start.
    assert_eq!(find_chunks(&data[..data.len() - 24]), Err(Error::UnexpectedEof));
    assert_eq!(find_chunks(&data[..data.len() - 8]).map(|c| c.len()), Ok(5));
    // What lies behind the length that the file gives itself is not read.
    let mut short = data.clone();
    short[4..8].copy_from_slice(&30u32.to_le_bytes());
    assert_eq!(find_chunks(&short).unwrap().len(), 1);
    let error = WebP::new(b"RIFX".to_vec()).unwrap_err();
    assert_eq!(*error.err(), Error::RiffMagicBytesMissing(*b"RIFX"));
    assert_eq!(error.into_inner(), b"RIFX".to_vec());
}

#[test]
fn four_cc_have_names() {
    for (name, four_cc) in [
        (*b"VP8X", FourCC::VP8X),
        (*b"ICCP", FourCC::ICCP),
        (*b"ANIM", FourCC::ANIM),
        (*b"ANMF", FourCC::ANMF),
        (*b"ALPH", FourCC::ALPH),
        (*b"VP8 ", FourCC::VP8),
        (*b"VP8L", FourCC::VP8L),
        (*b"EXIF", FourCC::EXIF),
        (*b"XMP ", FourCC::XMP),
        (*b"abcd", FourCC::Unknown(0x64636261)),
    ] {
        assert_eq!(four_cc.bytes(), name);
        assert_eq!(FourCC::from_u32(u32::from_le_bytes(name)), four_cc);
        assert_eq!(four_cc.to_u32(), u32::from_le_bytes(name));
    }
}
