use gufo::jxl::{
    DataIter, Dist, Document, Error, Header, ImageMetadata, Parse, Signature, SizeHeader,
};

#[test]
fn bits_are_read_lowest_first() {
    let mut d = DataIter::new(vec![(&[5], 0)]);
    assert_eq!(d.read_bytes_u8::<8>(), Ok(5));
    assert_eq!(d.read_byte(), Err(Error::UnexpectedEOF));

    let mut d = DataIter::new(vec![(&[0b011101], 0)]);
    assert_eq!(d.read_u32_d(Dist::Bits(2), Dist::Bits(4), Dist::Bits(6), Dist::Bits(8)), Ok(7));

    let mut d = DataIter::new(vec![(&[0b011101, 0], 0)]);
    assert_eq!(d.read_u32_d(Dist::Bits(2), Dist::Bits(4), Dist::Bits(6), Dist::Bits(8)), Ok(7));

    let mut d = DataIter::new(vec![(&[0b1010_0110], 0), (&[], 9), (&[0xFF, 0x01], 20)]);
    assert_eq!(d.peek(), Some(0b1010_0110));
    assert_eq!(d.read_byte(), Ok(0));
    assert_eq!(d.read_bool(), Ok(true));
    assert_eq!(d.read_bytes_u8::<3>(), Ok(0b001));
    // Three bits of the first part and seven of the next one
    assert_eq!(d.read_bytes_u32(10), Ok(0b1111111_101));
    assert_eq!(d.read_u32(), Ok(0));
    assert_eq!(d.read_bytes_u8::<0>(), Ok(0));
    assert_eq!(d.read_bytes_u32(9), Ok(0b0000_0001_1));
    assert_eq!(d.read_bool(), Err(Error::UnexpectedEOF));
    assert_eq!(d.peek(), None);

    let mut d = DataIter::new(vec![(&[0xFF, 0xFF, 0xFF, 0xFF, 0x0F], 0)]);
    assert_eq!(d.read_bytes_u32(32), Ok(u32::MAX));
    assert_eq!(d.read_bytes_u32(5), Ok(15));
    assert_eq!(d.read_bytes_u32(4), Err(Error::UnexpectedEOF));

    let mut d = DataIter::new(vec![(&[7, 8], 0)]);
    assert_eq!(d.read_u8(), Ok(7));
    assert_eq!(d.read_u8(), Ok(8));
    assert_eq!(d.read_u8(), Err(Error::UnexpectedEOF));
}

#[test]
fn distributions_choose_the_number_of_bits() {
    let mut d = DataIter::new(vec![(&[0b1011_0110, 0b1], 0)]);
    // selector 2: six bits
    assert_eq!(d.read_u32_d(Dist::Val(5), Dist::Bits(1), Dist::Bits(6), Dist::Val(9)), Ok(0b101101));
    let mut d = DataIter::new(vec![(&[0b1011_0100], 0)]);
    assert_eq!(d.read_u32_d(Dist::Val(5), Dist::Bits(1), Dist::Bits(6), Dist::Val(9)), Ok(5));
    let mut d = DataIter::new(vec![(&[0b1011_0111], 0)]);
    assert_eq!(d.read_u32_d(Dist::Val(5), Dist::Bits(1), Dist::Bits(6), Dist::Val(9)), Ok(9));
    let mut d = DataIter::new(vec![(&[0b1011_0101], 0)]);
    assert_eq!(d.read_u32_d(Dist::Val(5), Dist::Bits(1), Dist::Bits(6), Dist::Val(9)), Ok(1));
    let mut d = DataIter::new(vec![(&[0b10], 0)]);
    assert_eq!(
        d.read_u32_d(Dist::Val(5), Dist::Bits(1), Dist::Bits(7), Dist::Val(9)),
        Err(Error::UnexpectedEOF)
    );
    let mut d = DataIter::new(vec![(&[0b10], 0)]);
    assert_eq!(Dist::Val(3).read(&mut d), Ok(3));
    assert_eq!(Dist::Bits(2).read(&mut d), Ok(2));
}

#[test]
fn headers_are_parsed() {
    // signature; small, height 3, ratio 1; all default
    let mut d = DataIter::new(vec![(&[0xFF, 0x0A, 0b0100_0111, 0b0000_0010], 0)]);
    let header = Header::parse(&mut d).unwrap();
    assert_eq!(
        header,
        Header {
            signature: Signature,
            size: SizeHeader {
                height_div8_minus_1: Some(3),
                height_minus_1: None,
                ratio: 1,
                width_div8_minus_1: None,
                width_minus_1: None,
            },
            metadata: ImageMetadata { orientation_minus_1: None },
        }
    );
    // small, height 3, ratio 0, width 21; not default, extra fields, orientation 3
    let mut d = DataIter::new(vec![(&[0b0000_0111, 0b1010_1010, 0b0000_0011], 0)]);
    assert_eq!(
        SizeHeader::parse(&mut d),
        Ok(SizeHeader {
            height_div8_minus_1: Some(3),
            height_minus_1: None,
            ratio: 0,
            width_div8_minus_1: Some(21),
            width_minus_1: None,
        })
    );
    assert_eq!(ImageMetadata::parse(&mut d), Ok(ImageMetadata { orientation_minus_1: Some(3) }));
    // not small: height in 9 bits (selector 0), ratio 4
    let mut d = DataIter::new(vec![(&[0b1111_1000, 0b0100_1111], 0)]);
    assert_eq!(
        SizeHeader::parse(&mut d),
        Ok(SizeHeader {
            height_div8_minus_1: None,
            height_minus_1: Some(511),
            ratio: 4,
            width_div8_minus_1: None,
            width_minus_1: None,
        })
    );
    // not default, no extra fields
    let mut d = DataIter::new(vec![(&[0b00], 0)]);
    assert_eq!(ImageMetadata::parse(&mut d), Ok(ImageMetadata { orientation_minus_1: None }));
    let mut d = DataIter::new(vec![(&[0xFF, 0x0B], 0)]);
    assert_eq!(Signature::parse(&mut d), Err(Error::InvalidSignature));
    let mut d = DataIter::new(vec![(&[0xFE, 0x0A], 0)]);
    assert_eq!(Header::parse(&mut d), Err(Error::InvalidSignature));
    let mut d = DataIter::new(vec![(&[0xFF], 0)]);
    assert_eq!(Signature::parse(&mut d), Err(Error::UnexpectedEOF));
    let mut d = DataIter::new(vec![(&[0xFF, 0x0A], 0)]);
    assert_eq!(Header::parse(&mut d), Err(Error::UnexpectedEOF));
    let mut d = DataIter::new(vec![]);
    assert_eq!(SizeHeader::parse(&mut d), Err(Error::UnexpectedEOF));
    assert_eq!(ImageMetadata::parse(&mut d), Err(Error::UnexpectedEOF));
}

fn boxed(name: &[u8; 4], data: &[u8]) -> Vec<u8> {
    let mut out = ((data.len() + 8) as u32).to_be_bytes().to_vec();
    out.extend_from_slice(name);
    out.extend_from_slice(data);
    out
}

const CONTAINER: [u8; 12] = [0, 0, 0, 0x0C, 0x4A, 0x58, 0x4C, 0x20, 0x0D, 0x0A, 0x87, 0x0A];

#[test]
fn codestream_is_found_in_the_container() {
    assert_eq!(Document::is_isobmff(&[0xFF, 0x0A, 1]), Some(false));
    assert_eq!(Document::is_isobmff(&CONTAINER), Some(true));
    assert_eq!(Document::is_isobmff(&CONTAINER[..11]), None);
    assert_eq!(Document::is_isobmff(b"\x89PNG"), None);
    assert!(Document::new(&[0xFF, 0x0A, 1]).is_err());
    assert!(Document::new(b"\x89PNG").is_err());

    let mut file = CONTAINER.to_vec();
    file.extend(boxed(b"ftyp", b"jxl "));
    file.extend(boxed(b"jxlp", &[0, 0, 0, 0, 0xFF, 0x0A]));
    file.extend(boxed(b"jxlp", &[0, 0, 0, 1, 0b0100_0111, 0b10]));
    let document = Document::new(&file).unwrap();
    let mut data = document.image_data().unwrap();
    assert_eq!(data.parts.len(), 2);
    // The data of the first part starts at byte 32 of the file.
    assert_eq!(data.parts[0], (&[0xFF, 0x0A][..], 34));
    assert_eq!(data.data, vec![0xFF, 0x0A, 0b0100_0111, 0b10]);
    let header = Header::parse(&mut data).unwrap();
    assert_eq!(header.size.height_div8_minus_1, Some(3));

    // A box with the whole image comes before boxes with parts.
    file.extend(boxed(b"jxlc", &[0, 0, 0, 0, 9]));
    file.extend(boxed(b"jxlc", &[0, 0, 0, 0, 8]));
    let document = Document::new(&file).unwrap();
    assert_eq!(document.image_data().unwrap().data, vec![9]);

    let mut file = CONTAINER.to_vec();
    file.extend(boxed(b"jxlp", &[0, 0, 0]));
    assert!(Document::new(&file).unwrap().image_data().is_err());
    let document = Document::new(&CONTAINER).unwrap();
    assert_eq!(document.image_data().unwrap().data, Vec::<u8>::new());
}
