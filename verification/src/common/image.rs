//! What the readers of the image formats have in common.
use vstd::prelude::*;
use crate::common::cicp::Cicp;

verus! {

pub trait ImageFormat {
    /// Usually checks if data start with correct magic bytes
    fn is_filetype(data: &[u8]) -> bool;
}

pub trait ImageMetadata {
    /// Whether the image is what reading its bytes gives.
    spec fn valid(&self) -> bool;

    /// The coding-independent code points of the image, if it has any.
    fn cicp(&self) -> Option<Cicp>
        requires
            self.valid(),
    ;

    /// The Exif documents that the image carries.
    fn exif(&self) -> Vec<Vec<u8>>
        requires
            self.valid(),
    ;

    /// The XMP documents that the image carries.
    fn xmp(&self) -> Vec<Vec<u8>>
        requires
            self.valid(),
    ;
}

pub trait ImageComplete: ImageMetadata + ImageFormat {

}

} // verus!
