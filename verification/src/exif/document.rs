//! The document: the byte store and the indices that are built from it.
use vstd::prelude::*;
use crate::common::exif::{Ifd, Tag, TagIfd};
use crate::exif::entry::{entry_at, EntryRef};
use crate::exif::error::Error;
use crate::exif::raw::Raw;

verus! {

/// One record of the location index: an entry and the key it was found under.
#[derive(Debug, Clone, Copy, PartialEq, Eq, Structural)]
pub struct Located {
    pub tagifd: TagIfd,
    pub entry: EntryRef,
}

/// For each directory, the position of the four bytes that point to it.
#[derive(Debug, Clone, Copy, PartialEq, Eq, Structural)]
pub struct IfdLocations {
    pub primary: Option<u32>,
    pub thumbnail: Option<u32>,
    pub exif: Option<u32>,
    pub gps: Option<u32>,
    pub interoperability: Option<u32>,
    pub makernote: Option<u32>,
}

impl IfdLocations {
    /// No directory has a location.
    pub open spec fn spec_empty() -> IfdLocations {
        IfdLocations {
            primary: None,
            thumbnail: None,
            exif: None,
            gps: None,
            interoperability: None,
            makernote: None,
        }
    }

    /// The location of a directory, if it has one.
    pub open spec fn spec_get(self, ifd: Ifd) -> Option<u32> {
        match ifd {
            Ifd::Primary => self.primary,
            Ifd::Thumbnail => self.thumbnail,
            Ifd::Exif => self.exif,
            Ifd::Gps => self.gps,
            Ifd::Interoperability => self.interoperability,
            Ifd::MakerNote => self.makernote,
        }
    }

    /// These locations with the one of `ifd` set to `location`.
    pub open spec fn with(self, ifd: Ifd, location: Option<u32>) -> IfdLocations {
        match ifd {
            Ifd::Primary => IfdLocations { primary: location, ..self },
            Ifd::Thumbnail => IfdLocations { thumbnail: location, ..self },
            Ifd::Exif => IfdLocations { exif: location, ..self },
            Ifd::Gps => IfdLocations { gps: location, ..self },
            Ifd::Interoperability => IfdLocations { interoperability: location, ..self },
            Ifd::MakerNote => IfdLocations { makernote: location, ..self },
        }
    }

    /// How many directories have no location.
    pub open spec fn unlisted(self) -> nat {
        ((if self.primary is None { 1nat } else { 0 }) + (if self.thumbnail is None { 1nat } else { 0 })
            + (if self.exif is None { 1nat } else { 0 }) + (if self.gps is None { 1nat } else { 0 })
            + (if self.interoperability is None { 1nat } else { 0 }) + (if self.makernote is None {
            1nat
        } else {
            0
        })) as nat
    }

    pub fn empty() -> (locations: IfdLocations)
        ensures
            locations == IfdLocations::spec_empty(),
    {
        IfdLocations {
            primary: None,
            thumbnail: None,
            exif: None,
            gps: None,
            interoperability: None,
            makernote: None,
        }
    }

    /// The location of a directory, if it has one.
    pub fn get(&self, ifd: Ifd) -> (location: Option<u32>)
        ensures
            location == self.spec_get(ifd),
    {
        match ifd {
            Ifd::Primary => self.primary,
            Ifd::Thumbnail => self.thumbnail,
            Ifd::Exif => self.exif,
            Ifd::Gps => self.gps,
            Ifd::Interoperability => self.interoperability,
            Ifd::MakerNote => self.makernote,
        }
    }

    /// Sets or clears the location of a directory.
    pub fn set(&mut self, ifd: Ifd, location: Option<u32>)
        ensures
            *final(self) == old(self).with(ifd, location),
    {
        match ifd {
            Ifd::Primary => self.primary = location,
            Ifd::Thumbnail => self.thumbnail = location,
            Ifd::Exif => self.exif = location,
            Ifd::Gps => self.gps = location,
            Ifd::Interoperability => self.interoperability = location,
            Ifd::MakerNote => self.makernote = location,
        }
    }
}

/// A document as the contracts see it: the bytes, their byte order, the
/// location index in the order of discovery, the locations of the
/// directories and whether a maker note was registered.
pub struct Doc {
    pub bytes: Seq<u8>,
    pub big_endian: bool,
    pub records: Seq<Located>,
    pub ifds: IfdLocations,
    pub makernote: bool,
}

/// The position of the first record with the given key, if there is one.
pub open spec fn first_record(records: Seq<Located>, tagifd: TagIfd) -> Option<int>
    decreases records.len(),
{
    if records.len() == 0 {
        None
    } else if records[0].tagifd == tagifd {
        Some(0int)
    } else {
        match first_record(records.drop_first(), tagifd) {
            Some(i) => Some(i + 1),
            None => None,
        }
    }
}

/// The record at `i` is what decoding the bytes at its position gives.
pub open spec fn record_matches(bytes: Seq<u8>, big_endian: bool, record: Located) -> bool {
    entry_at(bytes, big_endian, record.entry.position as int) == Ok::<(Tag, EntryRef), Error>(
        (record.tagifd.tag, record.entry),
    )
}

impl Doc {
    /// The first entry with the given key.
    pub open spec fn entry(self, tagifd: TagIfd) -> Option<EntryRef> {
        match first_record(self.records, tagifd) {
            Some(i) => Some(self.records[i].entry),
            None => None,
        }
    }

    /// The index reflects the bytes: every record is what decoding the bytes
    /// at its position gives.
    pub open spec fn faithful(self) -> bool {
        forall|i: int|
            0 <= i < self.records.len() ==> record_matches(
                self.bytes,
                self.big_endian,
                #[trigger] self.records[i],
            )
    }
}

/// An Exif document: the byte store and what was decoded from it.
#[derive(Debug, Clone)]
pub struct ExifRaw {
    pub raw: Raw,
    /// Every decoded entry under its key, in the order of discovery
    pub locations: Vec<Located>,
    /// The locations where the offsets are stored
    pub ifd_locations: IfdLocations,
    pub makernote: bool,
}

impl View for ExifRaw {
    type V = Doc;

    open spec fn view(&self) -> Doc {
        Doc {
            bytes: self.raw.buffer@,
            big_endian: self.raw.big_endian,
            records: self.locations@,
            ifds: self.ifd_locations,
            makernote: self.makernote,
        }
    }
}

/// What `first_record` finds is the first record with the key.
pub proof fn first_record_is_first(records: Seq<Located>, tagifd: TagIfd)
    ensures
        match first_record(records, tagifd) {
            Some(i) => 0 <= i < records.len() && records[i].tagifd == tagifd && forall|j: int|
                0 <= j < i ==> (#[trigger] records[j]).tagifd != tagifd,
            None => forall|j: int| 0 <= j < records.len() ==> (#[trigger] records[j]).tagifd != tagifd,
        },
    decreases records.len(),
{
    if records.len() > 0 && records[0].tagifd != tagifd {
        let rest = records.drop_first();
        first_record_is_first(rest, tagifd);
        match first_record(rest, tagifd) {
            Some(i) => {
                assert forall|j: int| 0 <= j < i + 1 implies (#[trigger] records[j]).tagifd
                    != tagifd by {
                    if j > 0 {
                        assert(records[j] == rest[j - 1]);
                    }
                }
            },
            None => {
                assert forall|j: int| 0 <= j < records.len() implies (#[trigger] records[j]).tagifd
                    != tagifd by {
                    if j > 0 {
                        assert(records[j] == rest[j - 1]);
                    }
                }
            },
        }
    }
}

impl ExifRaw {
    /// A document over `raw` that has not been decoded yet.
    pub fn new(raw: Vec<u8>) -> (document: ExifRaw)
        ensures
            document@.bytes == raw@,
            !document@.big_endian,
            document@.records.len() == 0,
            document@.ifds == IfdLocations::spec_empty(),
            !document@.makernote,
            document.raw.cursor == 0,
    {
        ExifRaw {
            raw: Raw::new(raw),
            locations: Vec::new(),
            ifd_locations: IfdLocations::empty(),
            makernote: false,
        }
    }

    /// A copy of the byte store as it is now.
    pub fn raw(&self) -> (raw: Raw)
        ensures
            raw.buffer@ == self.raw.buffer@,
            raw.big_endian == self.raw.big_endian,
            raw.cursor == self.raw.cursor,
    {
        Raw {
            big_endian: self.raw.big_endian,
            buffer: self.raw.buffer.clone(),
            cursor: self.raw.cursor,
        }
    }
}

} // verus!
