//! TIFF files, which are Exif documents as they are.
use vstd::prelude::*;
use crate::common::error::ErrorWithData;

verus! {

/// The errors of the TIFF reader; none of its functions fails so far.
#[derive(Debug, Clone, Copy, PartialEq, Eq, Structural)]
#[non_exhaustive]
pub enum Error {
    Generic,
}

/// Representation of a TIFF image
#[derive(Debug)]
pub struct Tiff {
    pub data: Vec<u8>,
}

/// Whether the data starts like a TIFF file: with `II*\0` or with `MM\0*`.
pub open spec fn is_tiff(data: Seq<u8>) -> bool {
    data.len() >= 4 && ((data[0] == 0x49 && data[1] == 0x49 && data[2] == 0x2A && data[3] == 0)
        || (data[0] == 0x4D && data[1] == 0x4D && data[2] == 0 && data[3] == 0x2A))
}

impl Tiff {
    pub fn new(data: Vec<u8>) -> (tiff: Result<Tiff, ErrorWithData<Error>>)
        ensures
            tiff is Ok,
            tiff->Ok_0.data == data,
    {
        Ok(Tiff { data })
    }

    /// Whether the data starts like a TIFF file.
    pub fn is_filetype(data: &[u8]) -> (yes: bool)
        ensures
            yes == is_tiff(data@),
    {
        data.len() >= 4 && ((data[0] == 0x49 && data[1] == 0x49 && data[2] == 0x2A && data[3] == 0)
            || (data[0] == 0x4D && data[1] == 0x4D && data[2] == 0 && data[3] == 0x2A))
    }

    /// The Exif data of the file: the whole file.
    pub fn exif(&self) -> (exif: Result<&[u8], Error>)
        ensures
            exif is Ok,
            exif->Ok_0@ == self.data@,
    {
        Ok(self.data.as_slice())
    }
}

} // verus!
