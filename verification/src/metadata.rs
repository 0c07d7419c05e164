//! The metadata of an image, whichever way it is stored.
use vstd::prelude::*;
use vstd::string::StringSliceAdditionalSpecFns;
use crate::common::datetime::DateTime;
use crate::common::error::ErrorWithData;
use crate::common::field;
use crate::common::geography::{LatRef, LonRef, RationalLocation};
use crate::common::image::ImageFormat;
use crate::common::orientation::Orientation;
use crate::exif::document::Doc;
use crate::exif::high_level::found;
use crate::exif::Exif;
use crate::jpeg::file::{is_jpeg, to_vecs};
use crate::jpeg::Jpeg;
use crate::png::scan::has_magic;
use crate::png::Png;
use crate::tiff::{is_tiff, Tiff};
use crate::webp::{is_webp, WebP};
use crate::xmp::file::{fraction_of, number_of};
use crate::xmp::Xmp;

verus! {

#[derive(Debug, Clone, Copy, PartialEq, Eq)]
pub enum Error {
    GenericError,
    /// The data is of none of the formats that can be read.
    NoSupportedFiletypeFound,
    Exif(crate::exif::error::Error),
    Xmp(crate::xmp::Error),
    Jpeg(crate::jpeg::Error),
    Png(crate::png::Error),
    Tiff(crate::tiff::Error),
    WebP(crate::webp::Error),
}

/// The Exif and XMP documents of an image as bytes.
#[derive(Debug)]
pub struct RawMetadata {
    pub exif: Vec<Vec<u8>>,
    pub xmp: Vec<Vec<u8>>,
}

/// The decoded Exif and XMP documents of an image.
#[derive(Debug)]
pub struct Metadata {
    pub exif: Vec<Exif>,
    pub xmp: Vec<Xmp>,
}

/// A text that Exif or XMP can give.
#[derive(Debug, Clone, Copy, PartialEq, Eq, Structural)]
pub enum TextField {
    CameraOwner,
    Creator,
    Make,
    Model,
    Software,
    UserComment,
}

impl Doc {
    /// A text as Exif gives it.
    pub open spec fn text_field(self, which: TextField) -> Option<Seq<char>> {
        match which {
            TextField::CameraOwner => self.camera_owner(),
            TextField::Creator => None,
            TextField::Make => self.text::<field::Make>(),
            TextField::Model => self.text::<field::Model>(),
            TextField::Software => self.text::<field::Software>(),
            TextField::UserComment => self.user_comment(),
        }
    }
}

impl Exif {
    /// A text as Exif gives it.
    pub fn text_field(&self, which: TextField) -> (text: Option<String>)
        ensures
            match self@.text_field(which) {
                Some(chars) => text is Some && text->Some_0@ == chars,
                None => text is None,
            },
    {
        match which {
            TextField::CameraOwner => self.camera_owner(),
            TextField::Creator => None,
            TextField::Make => self.make(),
            TextField::Model => self.model(),
            TextField::Software => self.software(),
            TextField::UserComment => self.user_comment(),
        }
    }
}

impl Xmp {
    /// A text as XMP gives it.
    pub open spec fn spec_text_field(&self, which: TextField) -> Option<Seq<char>> {
        match which {
            TextField::CameraOwner => None,
            TextField::Creator => self.field::<field::Creator>(),
            TextField::Make => self.field::<field::Make>(),
            TextField::Model => self.field::<field::Model>(),
            TextField::Software => self.field::<field::CreatorTool>(),
            TextField::UserComment => None,
        }
    }

    /// A text as XMP gives it.
    pub fn text_field(&self, which: TextField) -> (text: Option<String>)
        ensures
            match self.spec_text_field(which) {
                Some(chars) => text is Some && text->Some_0@ == chars,
                None => text is None,
            },
    {
        match which {
            TextField::CameraOwner => None,
            TextField::Creator => self.creator(),
            TextField::Make => self.make(),
            TextField::Model => self.model(),
            TextField::Software => self.creator_tool(),
            TextField::UserComment => None,
        }
    }

    /// The exposure time as XMP gives it.
    pub open spec fn spec_exposure_time(&self) -> Option<(u32, u32)> {
        match self.field::<field::ExposureTime>() {
            Some(text) => fraction_of(vstd::utf8::encode_utf8(text)),
            None => None,
        }
    }

    /// The date and time of the original as XMP gives it.
    pub open spec fn spec_date_time_original(&self) -> Option<DateTime> {
        match self.field::<field::DateTimeOriginal>() {
            Some(text) => DateTime::read(text, true),
            None => None,
        }
    }
}

/// What the first of the first `k` Exif documents that gives the text
/// gives.
pub open spec fn exif_text(exif: Seq<Exif>, which: TextField, k: nat) -> Option<Seq<char>>
    decreases k,
{
    if k == 0 {
        None
    } else {
        match exif_text(exif, which, (k - 1) as nat) {
            Some(text) => Some(text),
            None => exif[k - 1]@.text_field(which),
        }
    }
}

/// What the first of the first `k` XMP documents that gives the text gives.
pub open spec fn xmp_text(xmp: Seq<Xmp>, which: TextField, k: nat) -> Option<Seq<char>>
    decreases k,
{
    if k == 0 {
        None
    } else {
        match xmp_text(xmp, which, (k - 1) as nat) {
            Some(text) => Some(text),
            None => xmp[k - 1].spec_text_field(which),
        }
    }
}

/// What the first of the first `k` documents that answers gives, where
/// `answers` holds what each document gives.
pub open spec fn first_some<T>(answers: Seq<Option<T>>, k: nat) -> Option<T>
    decreases k,
{
    if k == 0 {
        None
    } else {
        match first_some(answers, (k - 1) as nat) {
            Some(x) => Some(x),
            None => answers[k - 1],
        }
    }
}

/// The first answer stays the first as more documents are asked.
pub proof fn first_some_found<T>(answers: Seq<Option<T>>, k: nat, n: nat)
    requires
        k < n,
        first_some(answers, k) is None,
        answers[k as int] is Some,
    ensures
        first_some(answers, n) == answers[k as int],
    decreases n,
{
    if n - 1 > k {
        first_some_found(answers, k, (n - 1) as nat);
    }
}

/// The first text stays the first as more documents are asked.
pub proof fn exif_text_found(exif: Seq<Exif>, which: TextField, k: nat, n: nat)
    requires
        k < n,
        exif_text(exif, which, k) is None,
        exif[k as int]@.text_field(which) is Some,
    ensures
        exif_text(exif, which, n) == exif[k as int]@.text_field(which),
    decreases n,
{
    if n - 1 > k {
        exif_text_found(exif, which, k, (n - 1) as nat);
    }
}

/// The first text stays the first as more documents are asked.
pub proof fn xmp_text_found(xmp: Seq<Xmp>, which: TextField, k: nat, n: nat)
    requires
        k < n,
        xmp_text(xmp, which, k) is None,
        xmp[k as int].spec_text_field(which) is Some,
    ensures
        xmp_text(xmp, which, n) == xmp[k as int].spec_text_field(which),
    decreases n,
{
    if n - 1 > k {
        xmp_text_found(xmp, which, k, (n - 1) as nat);
    }
}

/// The error with which an image is refused whose format its first bytes
/// tell: the error of the reader of its format, or that it is of no known
/// format; `None` for an image that can be read.
pub open spec fn guessed_error(data: Seq<u8>) -> Option<Error> {
    if is_jpeg(data) {
        match crate::jpeg::scan::scanned(data) {
            Ok(_) => None,
            Err(e) => Some(Error::Jpeg(e)),
        }
    } else if has_magic(data) {
        match crate::png::scan::png_chunks(data) {
            Ok(_) => None,
            Err(e) => Some(Error::Png(e)),
        }
    } else if is_tiff(data) {
        None
    } else if is_webp(data) {
        match crate::webp::webp_chunks(data) {
            Ok(_) => None,
            Err(e) => Some(Error::WebP(e)),
        }
    } else {
        Some(Error::NoSupportedFiletypeFound)
    }
}

impl RawMetadata {
    /// These are the documents that the image with the given bytes carries,
    /// whose format its first bytes tell.
    pub open spec fn matches(&self, data: Seq<u8>) -> bool {
        blobs(self.exif@) == carried(data).0 && blobs(self.xmp@) == carried(data).1
    }

    /// No documents.
    pub fn new() -> (raw: RawMetadata)
        ensures
            raw.exif@.len() == 0,
            raw.xmp@.len() == 0,
    {
        RawMetadata { exif: Vec::new(), xmp: Vec::new() }
    }

    /// The metadata of an image whose format its first bytes tell: a JPEG,
    /// a PNG, a TIFF or a WebP file. Where the file cannot be read, the
    /// error hands the bytes back.
    pub fn for_guessed(data: Vec<u8>) -> (raw: Result<RawMetadata, ErrorWithData<Error>>)
        ensures
            raw is Err <==> guessed_error(data@) is Some,
            raw is Err ==> raw->Err_0.data == data && Some(raw->Err_0.err) == guessed_error(data@),
            raw is Ok ==> raw->Ok_0.matches(data@),
    {
        if Jpeg::is_filetype(data.as_slice()) {
            return match Jpeg::new(data) {
                Ok(jpeg) => Ok(RawMetadata::for_jpeg(&jpeg)),
                Err(e) => Err(ErrorWithData::new(Error::Jpeg(e.err), e.data)),
            };
        }
        if Png::is_filetype(data.as_slice()) {
            return match Png::new(data) {
                Ok(png) => Ok(RawMetadata::for_png(&png)),
                Err(e) => Err(ErrorWithData::new(Error::Png(e.err), e.data)),
            };
        }
        if Tiff::is_filetype(data.as_slice()) {
            return match Tiff::new(data) {
                Ok(tiff) => Ok(RawMetadata::for_tiff(&tiff)),
                Err(e) => Err(ErrorWithData::new(Error::Tiff(e.err), e.data)),
            };
        }
        if WebP::is_filetype(data.as_slice()) {
            return match WebP::new(data) {
                Ok(webp) => Ok(RawMetadata::for_webp(&webp)),
                Err(e) => Err(ErrorWithData::new(Error::WebP(e.err), e.data)),
            };
        }
        Err(ErrorWithData::new(Error::NoSupportedFiletypeFound, data))
    }

    /// The Exif and XMP documents of a JPEG file.
    pub fn for_jpeg(jpeg: &Jpeg) -> (raw: RawMetadata)
        requires
            jpeg.wf(),
        ensures
            raw.exif@.len() == jpeg.chosen(crate::jpeg::file::Want::Exif).len(),
            forall|i: int|
                0 <= i < raw.exif@.len() ==> (#[trigger] raw.exif@[i])@ == crate::jpeg::file::data_of(
                    jpeg.data@,
                    jpeg.chosen(crate::jpeg::file::Want::Exif)[i],
                ).skip(crate::jpeg::file::EXIF_IDENTIFIER_STRING.spec_bytes().len() as int),
            raw.xmp@.len() == jpeg.chosen(crate::jpeg::file::Want::Xmp).len(),
            forall|i: int|
                0 <= i < raw.xmp@.len() ==> (#[trigger] raw.xmp@[i])@ == crate::jpeg::file::data_of(
                    jpeg.data@,
                    jpeg.chosen(crate::jpeg::file::Want::Xmp)[i],
                ).skip(crate::jpeg::file::XMP_IDENTIFIER_STRING.spec_bytes().len() as int),
            blobs(raw.exif@) == jpeg_exif(jpeg),
            blobs(raw.xmp@) == jpeg_xmp(jpeg),
    {
        let raw = RawMetadata { exif: to_vecs(&jpeg.exif_data()), xmp: to_vecs(&jpeg.xmp_data()) };
        assert(blobs(raw.exif@) =~= jpeg_exif(jpeg));
        assert(blobs(raw.xmp@) =~= jpeg_xmp(jpeg));
        raw
    }

    /// The Exif and XMP documents of a PNG file.
    pub fn for_png(png: &Png) -> (raw: RawMetadata)
        requires
            png.wf(),
        ensures
            raw.exif@.len() == png.exif_of(png.chunks@.len()).len(),
            forall|i: int|
                0 <= i < raw.exif@.len() ==> (#[trigger] raw.exif@[i])@ == png.exif_of(
                    png.chunks@.len(),
                )[i],
            match png.xmp_of(png.chunks@.len()) {
                Some(bytes) => raw.xmp@.len() == 1 && raw.xmp@[0]@ == bytes,
                None => raw.xmp@.len() == 0,
            },
            blobs(raw.exif@) == png_exif(png),
            blobs(raw.xmp@) == png_xmp(png),
    {
        let raw = RawMetadata { exif: png.exif(), xmp: png.xmp() };
        assert(blobs(raw.exif@) =~= png_exif(png));
        assert(blobs(raw.xmp@) =~= png_xmp(png));
        raw
    }

    /// The Exif document of a TIFF file: the file itself.
    pub fn for_tiff(tiff: &Tiff) -> (raw: RawMetadata)
        ensures
            raw.exif@.len() == 1,
            raw.exif@[0]@ == tiff.data@,
            raw.xmp@.len() == 0,
            blobs(raw.exif@) == seq![tiff.data@],
            blobs(raw.xmp@) == Seq::<Seq<u8>>::empty(),
    {
        let mut raw_metadata = RawMetadata::new();
        if let Ok(exif) = tiff.exif() {
            raw_metadata.exif.push(vstd::slice::slice_to_vec(exif));
        }
        assert(blobs(raw_metadata.exif@) =~= seq![tiff.data@]);
        assert(blobs(raw_metadata.xmp@) =~= Seq::<Seq<u8>>::empty());
        raw_metadata
    }

    /// The Exif document of a WebP file.
    pub fn for_webp(webp: &WebP) -> (raw: RawMetadata)
        requires
            webp.wf(),
        ensures
            match webp.payload_of(crate::webp::FourCC::EXIF) {
                Some(bytes) => raw.exif@.len() == 1 && raw.exif@[0]@ == bytes,
                None => raw.exif@.len() == 0,
            },
            raw.xmp@.len() == 0,
            blobs(raw.exif@) == webp_exif(webp),
            blobs(raw.xmp@) == Seq::<Seq<u8>>::empty(),
    {
        let mut raw_metadata = RawMetadata::new();
        if let Some(exif) = webp.exif() {
            raw_metadata.exif.push(vstd::slice::slice_to_vec(exif));
        }
        assert(blobs(raw_metadata.exif@) =~= webp_exif(webp));
        assert(blobs(raw_metadata.xmp@) =~= Seq::<Seq<u8>>::empty());
        raw_metadata
    }

    /// Decodes the documents; those that cannot be decoded are left out.
    pub fn into_metadata(self) -> (metadata: Metadata)
        ensures
            exif_views(metadata.exif@) == decodable(blobs(self.exif@), self.exif@.len()),
            xmp_inners(metadata.xmp@) == readable(blobs(self.xmp@), self.xmp@.len()),
            forall|i: int| 0 <= i < metadata.xmp@.len() ==> (#[trigger] metadata.xmp@[i]).wf(),
    {
        let mut metadata = Metadata::new();
        let mut exif = self.exif;
        let mut xmp = self.xmp;
        let ghost all_exif = exif@;
        let ghost all_xmp = xmp@;
        let ghost mut k: nat = 0;
        assert(exif_views(metadata.exif@) =~= Seq::empty());
        assert(xmp_inners(metadata.xmp@) =~= Seq::empty());
        while exif.len() > 0
            invariant
                k <= all_exif.len(),
                exif@ == all_exif.subrange(k as int, all_exif.len() as int),
                exif_views(metadata.exif@) == decodable(blobs(all_exif), k),
                metadata.xmp@.len() == 0,
            decreases exif@.len(),
        {
            let ghost before = exif_views(metadata.exif@);
            let data = exif.remove(0);
            assert(data == all_exif[k as int]);
            assert(blobs(all_exif)[k as int] == data@);
            let _ = metadata.add_raw_exif(data);
            proof {
                assert(exif@ =~= all_exif.subrange(k as int + 1, all_exif.len() as int));
                if crate::exif::decode::decoded(data@) is Ok {
                    assert(exif_views(metadata.exif@) =~= before.push(metadata.exif@.last()@));
                }
                k = k + 1;
            }
        }
        proof {
            k = 0;
        }
        while xmp.len() > 0
            invariant
                k <= all_xmp.len(),
                xmp@ == all_xmp.subrange(k as int, all_xmp.len() as int),
                exif_views(metadata.exif@) == decodable(blobs(all_exif), all_exif.len()),
                xmp_inners(metadata.xmp@) == readable(blobs(all_xmp), k),
                forall|i: int| 0 <= i < metadata.xmp@.len() ==> (#[trigger] metadata.xmp@[i]).wf(),
            decreases xmp@.len(),
        {
            let ghost before = xmp_inners(metadata.xmp@);
            let ghost held = metadata.xmp@;
            let data = xmp.remove(0);
            assert(data == all_xmp[k as int]);
            assert(blobs(all_xmp)[k as int] == data@);
            let _ = metadata.add_raw_xmp(data);
            proof {
                assert(xmp@ =~= all_xmp.subrange(k as int + 1, all_xmp.len() as int));
                if crate::xmp::events::xml_events(data@) is Some {
                    assert(xmp_inners(metadata.xmp@) =~= before.push(data@));
                    assert forall|i: int| 0 <= i < metadata.xmp@.len() implies (
                    #[trigger] metadata.xmp@[i]).wf() by {
                        if i < held.len() {
                            assert(metadata.xmp@[i] == metadata.xmp@.drop_last()[i]);
                        }
                    }
                }
                k = k + 1;
            }
        }
        metadata
    }
}

/// The bytes of some blobs.
pub open spec fn blobs(raw: Seq<Vec<u8>>) -> Seq<Seq<u8>> {
    Seq::new(raw.len(), |i: int| raw[i]@)
}

/// The documents of one kind that a JPEG file carries: the data of each
/// segment asked for, in the order of the file, without the first `skip`
/// bytes, which hold the identifier.
pub open spec fn jpeg_documents(
    data: Seq<u8>,
    segments: Seq<crate::jpeg::scan::RawSegment>,
    want: crate::jpeg::file::Want,
    skip: int,
) -> Seq<Seq<u8>> {
    let found = crate::jpeg::file::chosen(data, segments, want, segments.len());
    Seq::new(found.len(), |i: int| crate::jpeg::file::data_of(data, found[i]).skip(skip))
}

/// The Exif documents that a JPEG file with the given segments carries.
pub open spec fn exif_in_jpeg(data: Seq<u8>, segments: Seq<crate::jpeg::scan::RawSegment>) -> Seq<
    Seq<u8>,
> {
    jpeg_documents(
        data,
        segments,
        crate::jpeg::file::Want::Exif,
        crate::jpeg::file::EXIF_IDENTIFIER_STRING.spec_bytes().len() as int,
    )
}

/// The XMP documents that a JPEG file with the given segments carries.
pub open spec fn xmp_in_jpeg(data: Seq<u8>, segments: Seq<crate::jpeg::scan::RawSegment>) -> Seq<
    Seq<u8>,
> {
    jpeg_documents(
        data,
        segments,
        crate::jpeg::file::Want::Xmp,
        crate::jpeg::file::XMP_IDENTIFIER_STRING.spec_bytes().len() as int,
    )
}

/// The Exif documents that a JPEG file carries.
pub open spec fn jpeg_exif(jpeg: &Jpeg) -> Seq<Seq<u8>> {
    exif_in_jpeg(jpeg.data@, jpeg.segments@)
}

/// The XMP documents that a JPEG file carries.
pub open spec fn jpeg_xmp(jpeg: &Jpeg) -> Seq<Seq<u8>> {
    xmp_in_jpeg(jpeg.data@, jpeg.segments@)
}

/// One document, or none.
pub open spec fn one_or_none(document: Option<Seq<u8>>) -> Seq<Seq<u8>> {
    match document {
        Some(bytes) => seq![bytes],
        None => Seq::empty(),
    }
}

/// The Exif documents that a PNG file carries: that of its first Exif
/// chunk, then those that its text chunks hold in the legacy way.
pub open spec fn png_exif(png: &Png) -> Seq<Seq<u8>> {
    png.exif_of(png.chunks@.len())
}

/// The XMP document that a PNG file carries, if it carries one.
pub open spec fn png_xmp(png: &Png) -> Seq<Seq<u8>> {
    one_or_none(png.xmp_of(png.chunks@.len()))
}

/// The Exif document that a WebP file carries, if it carries one.
pub open spec fn webp_exif(webp: &WebP) -> Seq<Seq<u8>> {
    one_or_none(webp.payload_of(crate::webp::FourCC::EXIF))
}

/// The Exif and the XMP documents that an image carries whose format its
/// first bytes tell and whose parts can be found: those of a JPEG file, of
/// a PNG file, the whole of a TIFF file, or the Exif document of a WebP
/// file.
pub open spec fn carried(data: Seq<u8>) -> (Seq<Seq<u8>>, Seq<Seq<u8>>) {
    if is_jpeg(data) {
        let segments = crate::jpeg::scan::scanned(data)->Ok_0;
        (exif_in_jpeg(data, segments), xmp_in_jpeg(data, segments))
    } else if has_magic(data) {
        let chunks = crate::png::scan::png_chunks(data)->Ok_0;
        let limit = crate::png::file::DEFAULT_INFLATE_LIMIT;
        (
            crate::png::file::exif_among(data, chunks, limit, chunks.len()),
            one_or_none(crate::png::file::xmp_among(data, chunks, limit, chunks.len())),
        )
    } else if is_tiff(data) {
        (seq![data], Seq::empty())
    } else {
        let chunks = crate::webp::webp_chunks(data)->Ok_0;
        (
            one_or_none(
                match crate::webp::first_of(chunks, crate::webp::FourCC::EXIF, chunks.len()) {
                    Some(i) => Some(
                        data.subrange(chunks[i].payload_start as int, chunks[i].payload_end as int),
                    ),
                    None => None,
                },
            ),
            Seq::empty(),
        )
    }
}

/// The documents that some Exif decoders hold.
pub open spec fn exif_views(exif: Seq<Exif>) -> Seq<Doc> {
    Seq::new(exif.len(), |i: int| exif[i]@)
}

/// The bytes of some XMP documents.
pub open spec fn xmp_inners(xmp: Seq<Xmp>) -> Seq<Seq<u8>> {
    Seq::new(xmp.len(), |i: int| xmp[i].inner@)
}

/// What decoding gives of those of the first `k` blobs that can be
/// decoded, in their order.
pub open spec fn decodable(raw: Seq<Seq<u8>>, k: nat) -> Seq<Doc>
    decreases k,
{
    if k == 0 {
        Seq::empty()
    } else {
        match crate::exif::decode::decoded(raw[k - 1]) {
            Ok(doc) => decodable(raw, (k - 1) as nat).push(doc),
            Err(_) => decodable(raw, (k - 1) as nat),
        }
    }
}

/// Those of the first `k` blobs that can be read as XML, in their order.
pub open spec fn readable(raw: Seq<Seq<u8>>, k: nat) -> Seq<Seq<u8>>
    decreases k,
{
    if k == 0 {
        Seq::empty()
    } else if crate::xmp::events::xml_events(raw[k - 1]) is Some {
        readable(raw, (k - 1) as nat).push(raw[k - 1])
    } else {
        readable(raw, (k - 1) as nat)
    }
}

impl Metadata {
    pub fn new() -> (metadata: Metadata)
        ensures
            metadata.exif@.len() == 0,
            metadata.xmp@.len() == 0,
    {
        Metadata { exif: Vec::new(), xmp: Vec::new() }
    }

    /// The metadata of an image whose format its first bytes tell: what can
    /// be decoded of the documents that the image carries. An image that
    /// cannot be read is handed back with the error.
    pub fn for_guessed(data: Vec<u8>) -> (metadata: Result<Metadata, ErrorWithData<Error>>)
        ensures
            metadata is Err ==> metadata->Err_0.data == data,
            metadata is Err <==> guessed_error(data@) is Some,
            metadata is Err ==> Some(metadata->Err_0.err) == guessed_error(data@),
            metadata is Ok ==> exif_views(metadata->Ok_0.exif@) == decodable(
                carried(data@).0,
                carried(data@).0.len(),
            ) && xmp_inners(metadata->Ok_0.xmp@) == readable(
                carried(data@).1,
                carried(data@).1.len(),
            ) && forall|i: int|
                0 <= i < metadata->Ok_0.xmp@.len() ==> (#[trigger] metadata->Ok_0.xmp@[i]).wf(),
    {
        match RawMetadata::for_guessed(data) {
            Ok(raw) => Ok(raw.into_metadata()),
            Err(e) => Err(e),
        }
    }

    /// What can be decoded of the documents that a JPEG file carries: its
    /// Exif documents that decode and its XMP documents that can be read as
    /// XML, each kind in the order of the file.
    pub fn for_jpeg(jpeg: &Jpeg) -> (metadata: Metadata)
        requires
            jpeg.wf(),
        ensures
            exif_views(metadata.exif@) == decodable(jpeg_exif(jpeg), jpeg_exif(jpeg).len()),
            xmp_inners(metadata.xmp@) == readable(jpeg_xmp(jpeg), jpeg_xmp(jpeg).len()),
            forall|i: int| 0 <= i < metadata.xmp@.len() ==> (#[trigger] metadata.xmp@[i]).wf(),
    {
        RawMetadata::for_jpeg(jpeg).into_metadata()
    }

    /// What can be decoded of the documents that a PNG file carries: its
    /// Exif documents that decode, in their order, and its XMP document if
    /// it can be read as XML.
    pub fn for_png(png: &Png) -> (metadata: Metadata)
        requires
            png.wf(),
        ensures
            exif_views(metadata.exif@) == decodable(png_exif(png), png_exif(png).len()),
            xmp_inners(metadata.xmp@) == readable(png_xmp(png), png_xmp(png).len()),
            forall|i: int| 0 <= i < metadata.xmp@.len() ==> (#[trigger] metadata.xmp@[i]).wf(),
    {
        RawMetadata::for_png(png).into_metadata()
    }

    /// Decodes an Exif document and adds it behind those that are there.
    pub fn add_raw_exif(&mut self, data: Vec<u8>) -> (done: Result<(), Error>)
        ensures
            final(self).xmp == old(self).xmp,
            match crate::exif::decode::decoded(data@) {
                Ok(doc) => done is Ok && final(self).exif@.len() == old(self).exif@.len() + 1
                    && final(self).exif@.last()@ == doc && final(self).exif@.drop_last() == old(self).exif@,
                Err(e) => done == Err::<(), Error>(Error::Exif(e)) && final(self).exif == old(self).exif,
            },
    {
        match Exif::new(data) {
            Ok(exif) => {
                self.exif.push(exif);
                assert(self.exif@.drop_last() =~= old(self).exif@);
                Ok(())
            },
            Err(e) => Err(Error::Exif(e)),
        }
    }

    pub fn exif(&self) -> (exif: &[Exif])
        ensures
            exif@ == self.exif@,
    {
        self.exif.as_slice()
    }

    /// Reads an XMP document and adds it behind those that are there.
    pub fn add_raw_xmp(&mut self, data: Vec<u8>) -> (done: Result<(), Error>)
        ensures
            final(self).exif == old(self).exif,
            match crate::xmp::events::xml_events(data@) {
                Some(events) => done is Ok && final(self).xmp@.len() == old(self).xmp@.len() + 1
                    && final(self).xmp@.last().inner == data && final(self).xmp@.last().wf()
                    && final(self).xmp@.drop_last() == old(self).xmp@,
                None => done == Err::<(), Error>(Error::Xmp(crate::xmp::Error::XmlReader))
                    && final(self).xmp == old(self).xmp,
            },
    {
        match Xmp::new(data) {
            Ok(xmp) => {
                self.xmp.push(xmp);
                assert(self.xmp@.drop_last() =~= old(self).xmp@);
                Ok(())
            },
            Err(e) => Err(Error::Xmp(e)),
        }
    }

    pub fn xmp(&self) -> (xmp: &[Xmp])
        ensures
            xmp@ == self.xmp@,
    {
        self.xmp.as_slice()
    }

    pub fn is_empty(&self) -> (empty: bool)
        ensures
            empty == (self.xmp@.len() == 0 && self.exif@.len() == 0),
    {
        self.xmp.is_empty() && self.exif.is_empty()
    }

    /// A text: what the first Exif document that has it gives or, if none
    /// has it, what the first XMP document that has it gives.
    pub open spec fn text(&self, which: TextField) -> Option<Seq<char>> {
        match exif_text(self.exif@, which, self.exif@.len()) {
            Some(text) => Some(text),
            None => xmp_text(self.xmp@, which, self.xmp@.len()),
        }
    }

    /// What each Exif document gives.
    pub open spec fn exif_answers<T>(&self, ask: spec_fn(Doc) -> Option<T>) -> Seq<Option<T>> {
        Seq::new(self.exif@.len(), |i: int| ask(self.exif@[i]@))
    }

    /// What each XMP document gives.
    pub open spec fn xmp_answers<T>(&self, ask: spec_fn(Xmp) -> Option<T>) -> Seq<Option<T>> {
        Seq::new(self.xmp@.len(), |i: int| ask(self.xmp@[i]))
    }

    /// What the first Exif document that answers gives or, if none does,
    /// what the first XMP document that answers gives.
    pub open spec fn answer<T>(
        &self,
        exif: spec_fn(Doc) -> Option<T>,
        xmp: spec_fn(Xmp) -> Option<T>,
    ) -> Option<T> {
        match first_some(self.exif_answers(exif), self.exif@.len()) {
            Some(x) => Some(x),
            None => first_some(self.xmp_answers(xmp), self.xmp@.len()),
        }
    }

    /// A text from Exif or, if Exif does not have it, from XMP.
    pub fn text_field(&self, which: TextField) -> (text: Option<String>)
        ensures
            match self.text(which) {
                Some(chars) => text is Some && text->Some_0@ == chars,
                None => text is None,
            },
    {
        let n = self.exif.len();
        let mut k: usize = 0;
        while k < n
            invariant
                k <= n,
                n == self.exif@.len(),
                exif_text(self.exif@, which, k as nat) is None,
            decreases n - k,
        {
            if let Some(text) = self.exif[k].text_field(which) {
                proof {
                    exif_text_found(self.exif@, which, k as nat, n as nat);
                }
                return Some(text);
            }
            k += 1;
        }
        let m = self.xmp.len();
        let mut k: usize = 0;
        while k < m
            invariant
                k <= m,
                m == self.xmp@.len(),
                exif_text(self.exif@, which, self.exif@.len()) is None,
                xmp_text(self.xmp@, which, k as nat) is None,
            decreases m - k,
        {
            if let Some(text) = self.xmp[k].text_field(which) {
                proof {
                    xmp_text_found(self.xmp@, which, k as nat, m as nat);
                }
                return Some(text);
            }
            k += 1;
        }
        None
    }

    pub fn camera_owner(&self) -> (text: Option<String>)
        ensures
            match self.text(TextField::CameraOwner) {
                Some(chars) => text is Some && text->Some_0@ == chars,
                None => text is None,
            },
    {
        self.text_field(TextField::CameraOwner)
    }

    pub fn creator(&self) -> (text: Option<String>)
        ensures
            match self.text(TextField::Creator) {
                Some(chars) => text is Some && text->Some_0@ == chars,
                None => text is None,
            },
    {
        self.text_field(TextField::Creator)
    }

    /// Camera manifacturer
    pub fn make(&self) -> (text: Option<String>)
        ensures
            match self.text(TextField::Make) {
                Some(chars) => text is Some && text->Some_0@ == chars,
                None => text is None,
            },
    {
        self.text_field(TextField::Make)
    }

    /// Camera model
    pub fn model(&self) -> (text: Option<String>)
        ensures
            match self.text(TextField::Model) {
                Some(chars) => text is Some && text->Some_0@ == chars,
                None => text is None,
            },
    {
        self.text_field(TextField::Model)
    }

    pub fn software(&self) -> (text: Option<String>)
        ensures
            match self.text(TextField::Software) {
                Some(chars) => text is Some && text->Some_0@ == chars,
                None => text is None,
            },
    {
        self.text_field(TextField::Software)
    }

    pub fn user_comment(&self) -> (text: Option<String>)
        ensures
            match self.text(TextField::UserComment) {
                Some(chars) => text is Some && text->Some_0@ == chars,
                None => text is None,
            },
    {
        self.text_field(TextField::UserComment)
    }

    /// When the original was taken, from Exif or, if Exif does not say,
    /// from XMP.
    pub fn date_time_original(&self) -> (moment: Option<DateTime>)
        ensures
            moment == self.answer(
                |doc: Doc| doc.date_time_original(),
                |xmp: Xmp| xmp.spec_date_time_original(),
            ),
    {
        let ghost exif = self.exif_answers(|doc: Doc| doc.date_time_original());
        let ghost xmp = self.xmp_answers(|xmp: Xmp| xmp.spec_date_time_original());
        let n = self.exif.len();
        let mut k: usize = 0;
        while k < n
            invariant
                k <= n,
                n == self.exif@.len(),
                exif == self.exif_answers(|doc: Doc| doc.date_time_original()),
                first_some(exif, k as nat) is None,
            decreases n - k,
        {
            if let Some(moment) = self.exif[k].date_time_original() {
                proof {
                    first_some_found(exif, k as nat, n as nat);
                }
                return Some(moment);
            }
            k += 1;
        }
        let m = self.xmp.len();
        let mut k: usize = 0;
        while k < m
            invariant
                k <= m,
                m == self.xmp@.len(),
                xmp == self.xmp_answers(|xmp: Xmp| xmp.spec_date_time_original()),
                first_some(exif, self.exif@.len()) is None,
                exif == self.exif_answers(|doc: Doc| doc.date_time_original()),
                first_some(xmp, k as nat) is None,
            decreases m - k,
        {
            if let Some(moment) = self.xmp[k].date_time_original() {
                proof {
                    first_some_found(xmp, k as nat, m as nat);
                }
                return Some(moment);
            }
            k += 1;
        }
        None
    }

    /// Exposure time in seconds
    pub fn exposure_time(&self) -> (fraction: Option<(u32, u32)>)
        ensures
            fraction == self.answer(
                |doc: Doc| doc.exposure_time(),
                |xmp: Xmp| xmp.spec_exposure_time(),
            ),
    {
        let ghost exif = self.exif_answers(|doc: Doc| doc.exposure_time());
        let ghost xmp = self.xmp_answers(|xmp: Xmp| xmp.spec_exposure_time());
        let n = self.exif.len();
        let mut k: usize = 0;
        while k < n
            invariant
                k <= n,
                n == self.exif@.len(),
                exif == self.exif_answers(|doc: Doc| doc.exposure_time()),
                first_some(exif, k as nat) is None,
            decreases n - k,
        {
            if let Some(fraction) = self.exif[k].exposure_time() {
                proof {
                    first_some_found(exif, k as nat, n as nat);
                }
                return Some(fraction);
            }
            k += 1;
        }
        let m = self.xmp.len();
        let mut k: usize = 0;
        while k < m
            invariant
                k <= m,
                m == self.xmp@.len(),
                xmp == self.xmp_answers(|xmp: Xmp| xmp.spec_exposure_time()),
                exif == self.exif_answers(|doc: Doc| doc.exposure_time()),
                first_some(exif, self.exif@.len()) is None,
                first_some(xmp, k as nat) is None,
            decreases m - k,
        {
            if let Some(fraction) = self.xmp[k].exposure_time() {
                proof {
                    first_some_found(xmp, k as nat, m as nat);
                }
                return Some(fraction);
            }
            k += 1;
        }
        None
    }

    /// Where the picture was taken, as the first Exif document that knows
    /// it says.
    pub fn gps_location(&self) -> (location: Option<RationalLocation>)
        ensures
            match first_some(self.exif_answers(|doc: Doc| doc.gps_location()), self.exif@.len()) {
                Some((lat_ref, lat, lon_ref, lon)) => location is Some
                    && location->Some_0.lat_ref == lat_ref && location->Some_0.lat@ == lat
                    && location->Some_0.lon_ref == lon_ref && location->Some_0.lon@ == lon,
                None => location is None,
            },
    {
        let ghost exif = self.exif_answers(|doc: Doc| doc.gps_location());
        let n = self.exif.len();
        let mut k: usize = 0;
        while k < n
            invariant
                k <= n,
                n == self.exif@.len(),
                exif == self.exif_answers(|doc: Doc| doc.gps_location()),
                first_some(exif, k as nat) is None,
            decreases n - k,
        {
            if let Some(location) = self.exif[k].gps_location() {
                proof {
                    first_some_found(exif, k as nat, n as nat);
                }
                return Some(location);
            }
            k += 1;
        }
        None
    }

    /// The orientation as the first Exif document that knows it says.
    pub fn orientation(&self) -> (orientation: Option<Orientation>)
        ensures
            orientation == first_some(
                self.exif_answers(|doc: Doc| doc.orientation()),
                self.exif@.len(),
            ),
    {
        let ghost exif = self.exif_answers(|doc: Doc| doc.orientation());
        let n = self.exif.len();
        let mut k: usize = 0;
        while k < n
            invariant
                k <= n,
                n == self.exif@.len(),
                exif == self.exif_answers(|doc: Doc| doc.orientation()),
                first_some(exif, k as nat) is None,
            decreases n - k,
        {
            if let Some(orientation) = self.exif[k].orientation() {
                proof {
                    first_some_found(exif, k as nat, n as nat);
                }
                return Some(orientation);
            }
            k += 1;
        }
        None
    }

    /// ISO: what the first Exif document that knows it says or, if none
    /// does, what the first XMP document that knows it says.
    pub fn iso_speed_rating(&self) -> (iso: Option<u16>)
        ensures
            iso == self.answer(
                |doc: Doc| doc.iso_speed_rating(),
                |xmp: Xmp| xmp.spec_iso_speed_rating(),
            ),
    {
        let ghost exif = self.exif_answers(|doc: Doc| doc.iso_speed_rating());
        let ghost xmp = self.xmp_answers(|xmp: Xmp| xmp.spec_iso_speed_rating());
        let n = self.exif.len();
        let mut k: usize = 0;
        while k < n
            invariant
                k <= n,
                n == self.exif@.len(),
                exif == self.exif_answers(|doc: Doc| doc.iso_speed_rating()),
                first_some(exif, k as nat) is None,
            decreases n - k,
        {
            if let Some(iso) = self.exif[k].iso_speed_rating() {
                proof {
                    first_some_found(exif, k as nat, n as nat);
                }
                return Some(iso);
            }
            k += 1;
        }
        let m = self.xmp.len();
        let mut k: usize = 0;
        while k < m
            invariant
                k <= m,
                m == self.xmp@.len(),
                xmp == self.xmp_answers(|xmp: Xmp| xmp.spec_iso_speed_rating()),
                exif == self.exif_answers(|doc: Doc| doc.iso_speed_rating()),
                first_some(exif, self.exif@.len()) is None,
                first_some(xmp, k as nat) is None,
            decreases m - k,
        {
            if let Some(iso) = self.xmp[k].iso_speed_rating() {
                proof {
                    first_some_found(xmp, k as nat, m as nat);
                }
                return Some(iso);
            }
            k += 1;
        }
        None
    }
}

} // verus!
