//! An image of one of the formats that can be edited.
use vstd::prelude::*;
use crate::common::cicp::Cicp;
use crate::common::error::ErrorWithData;
use crate::common::image::ImageFormat;
use crate::jpeg::file::is_jpeg;
use crate::jpeg::Jpeg;
use crate::metadata::Error;
use crate::png::scan::has_magic;
use crate::png::Png;

verus! {

#[non_exhaustive]
#[derive(Debug)]
pub enum Image {
    Png(Png),
    Jpeg(Jpeg),
}

impl Image {
    /// The image is what reading its bytes gives.
    pub open spec fn wf(&self) -> bool {
        match self {
            Image::Png(png) => png.wf(),
            Image::Jpeg(jpeg) => jpeg.wf(),
        }
    }

    /// The bytes of the image.
    pub open spec fn data(&self) -> Seq<u8> {
        match self {
            Image::Png(png) => png.data@,
            Image::Jpeg(jpeg) => jpeg.data@,
        }
    }

    /// Reads an image whose format its first bytes tell: a PNG or a JPEG
    /// file. Where that fails, the error hands the bytes back.
    pub fn new(data: Vec<u8>) -> (image: Result<Image, ErrorWithData<Error>>)
        ensures
            match image {
                Ok(image) => image.wf() && image.data() == data@ && (image is Png <==> has_magic(
                    data@,
                )) && (image is Jpeg ==> is_jpeg(data@)),
                Err(e) => e.data == data && e.err == (if has_magic(data@) {
                    Error::Png(crate::png::scan::png_chunks(data@)->Err_0)
                } else if is_jpeg(data@) {
                    Error::Jpeg(crate::jpeg::scan::scanned(data@)->Err_0)
                } else {
                    Error::NoSupportedFiletypeFound
                }),
            },
            has_magic(data@) ==> (image is Ok <==> crate::png::scan::png_chunks(data@) is Ok),
            !has_magic(data@) && is_jpeg(data@) ==> (image is Ok <==> crate::jpeg::scan::scanned(
                data@,
            ) is Ok),
            !has_magic(data@) && !is_jpeg(data@) ==> image is Err,
    {
        if Png::is_filetype(data.as_slice()) {
            return match Png::new(data) {
                Ok(png) => Ok(Image::Png(png)),
                Err(e) => Err(ErrorWithData::new(Error::Png(e.err), e.data)),
            };
        }
        if Jpeg::is_filetype(data.as_slice()) {
            return match Jpeg::new(data) {
                Ok(jpeg) => Ok(Image::Jpeg(jpeg)),
                Err(e) => Err(ErrorWithData::new(Error::Jpeg(e.err), e.data)),
            };
        }
        Err(ErrorWithData::new(Error::NoSupportedFiletypeFound, data))
    }

    pub fn into_inner(self) -> (data: Vec<u8>)
        ensures
            data@ == self.data(),
    {
        match self {
            Image::Jpeg(jpeg) => jpeg.into_inner(),
            Image::Png(png) => png.into_inner(),
        }
    }

    /// The coding-independent code points of the image: those of a PNG
    /// file; a JPEG file has none.
    pub fn cicp(&self) -> (cicp: Option<Cicp>)
        requires
            self.wf(),
        ensures
            cicp == (match self {
                Image::Png(png) => png.spec_cicp(),
                Image::Jpeg(_) => None,
            }),
    {
        match self {
            Image::Png(png) => png.cicp(),
            Image::Jpeg(_) => None,
        }
    }
}

} // verus!
