//! The directory decoder: from the header through the chain of directories.
use vstd::prelude::*;
use crate::common::exif::{Ifd, Tag, TagIfd};
use crate::exif::bytes::{u16_at, u32_at};
use crate::exif::document::{Doc, ExifRaw, IfdLocations, Located, record_matches};
use crate::exif::entry::{entry_at, EntryRef, ValueOffset};
use crate::exif::error::Error;
use crate::exif::field_type::Type;

verus! {

/// The byte order that the two bytes at `at` announce: `II` is little
/// endian, `MM` is big endian.
pub open spec fn byte_order_at(bytes: Seq<u8>, at: int) -> Result<bool, Error> {
    if at + 2 > bytes.len() {
        Err(Error::ByteOrderEof)
    } else if bytes[at] == 0x49 && bytes[at + 1] == 0x49 {
        Ok(false)
    } else if bytes[at] == 0x4D && bytes[at + 1] == 0x4D {
        Ok(true)
    } else {
        Err(Error::UnknownByteOrder([bytes[at], bytes[at + 1]]))
    }
}

/// Whether the two bytes at `at` hold the constant 42.
pub open spec fn magic_at(bytes: Seq<u8>, big_endian: bool, at: int) -> Result<(), Error> {
    if at + 2 > bytes.len() {
        Err(Error::MagicBytesEof)
    } else if u16_at(bytes, at, big_endian) == 42 {
        Ok(())
    } else {
        Err(Error::MagicBytesWrong(u16_at(bytes, at, big_endian)))
    }
}

/// The header of a document: its byte order and the offset of the primary
/// directory.
pub open spec fn header(bytes: Seq<u8>) -> Result<(bool, u32), Error> {
    match byte_order_at(bytes, 0) {
        Err(e) => Err(e),
        Ok(big_endian) => match magic_at(bytes, big_endian, 2) {
            Err(e) => Err(e),
            Ok(_) => if bytes.len() < 8 {
                Err(Error::Io)
            } else {
                Ok((big_endian, u32_at(bytes, 4, big_endian)))
            },
        },
    }
}


/// The directory entries that `n` consecutive headers from `start` on hold,
/// each under its tag in the directory `ifd`; the first error, if one of
/// them cannot be read.
pub open spec fn entries_at(bytes: Seq<u8>, big_endian: bool, start: int, n: nat, ifd: Ifd) -> Result<
    Seq<Located>,
    Error,
>
    decreases n,
{
    if n == 0 {
        Ok(Seq::empty())
    } else {
        match entries_at(bytes, big_endian, start, (n - 1) as nat, ifd) {
            Err(e) => Err(e),
            Ok(records) => match entry_at(bytes, big_endian, start + 12 * (n - 1)) {
                Err(e) => Err(e),
                Ok((tag, entry)) => Ok(records.push(Located { tagifd: TagIfd { tag, ifd }, entry })),
            },
        }
    }
}

/// A directory as it lies in the bytes: its entries, the position of its
/// pointer to the next directory and that pointer.
pub struct Dir {
    pub records: Seq<Located>,
    pub next_location: u32,
    pub next: u32,
}

/// The directory at `at`: a 16-bit number of entries, the entries, and a
/// 32-bit pointer to the next directory.
pub open spec fn dir_at(bytes: Seq<u8>, big_endian: bool, at: int, ifd: Ifd) -> Result<Dir, Error> {
    if at + 2 > bytes.len() {
        Err(Error::IfdNumEntriesEof)
    } else {
        let n = u16_at(bytes, at, big_endian);
        let end = at + 2 + 12 * n;
        match entries_at(bytes, big_endian, at + 2, n as nat, ifd) {
            Err(e) => Err(e),
            Ok(records) => if end > u32::MAX {
                Err(Error::OffsetTooLarge)
            } else if end + 4 > bytes.len() {
                Err(Error::Io)
            } else {
                Ok(Dir { records, next_location: end as u32, next: u32_at(bytes, end, big_endian) })
            },
        }
    }
}

/// Whether the record is an entry that points to another directory.
pub open spec fn is_pointer(record: Located) -> bool {
    record.tagifd.tag.spec_exif_specific_ifd().is_some()
}

/// The pointer entries among `records` as a stack: the first of them is on
/// top, that is, last.
pub open spec fn pointer_stack(records: Seq<Located>) -> Seq<Located>
    decreases records.len(),
{
    if records.len() == 0 {
        Seq::empty()
    } else {
        let rest = pointer_stack(records.drop_first());
        if is_pointer(records[0]) {
            rest.push(records[0])
        } else {
            rest
        }
    }
}

/// `ifds` with `location` recorded for `ifd`, unless it has one already: of
/// two pointers to the same directory the second is ignored.
pub open spec fn listing(ifds: IfdLocations, ifd: Ifd, location: u32) -> IfdLocations {
    if ifds.spec_get(ifd).is_some() {
        ifds
    } else {
        ifds.with(ifd, Some(location))
    }
}

/// Follows the pending pointer entries, the top of the stack first.
///
/// A pointer to a directory that has a location already is ignored. Else
/// the position of the pointer's slot becomes the location of the
/// directory; where the directory can be read, its entries join the index
/// and its own pointers are followed next; where not, it stays without
/// entries.
pub open spec fn follow(
    bytes: Seq<u8>,
    big_endian: bool,
    records: Seq<Located>,
    ifds: IfdLocations,
    pending: Seq<Located>,
) -> (Seq<Located>, IfdLocations)
    decreases ifds.unlisted(), pending.len(),
{
    if pending.len() == 0 {
        (records, ifds)
    } else {
        let pointer = pending.last();
        let rest = pending.drop_last();
        match pointer.tagifd.tag.spec_exif_specific_ifd() {
            None => follow(bytes, big_endian, records, ifds, rest),
            Some(sub) => if ifds.spec_get(sub).is_some() {
                follow(bytes, big_endian, records, ifds, rest)
            } else {
                let listed = ifds.with(sub, Some((pointer.entry.position + 8) as u32));
                match dir_at(bytes, big_endian, pointer.entry.value_offset.raw() as int, sub) {
                    Err(_) => follow(bytes, big_endian, records, listed, rest),
                    Ok(dir) => follow(
                        bytes,
                        big_endian,
                        records + dir.records,
                        listed,
                        rest + pointer_stack(dir.records),
                    ),
                }
            }
        }
    }
}

/// The document after the directory `dir` was read as `ifd`: its entries
/// have joined the index, a non-zero pointer after the primary directory has
/// located the thumbnail directory, and its pointers have been followed.
pub open spec fn after_dir(doc: Doc, dir: Dir, ifd: Ifd) -> Doc {
    let ifds = if dir.next > 0 && ifd == Ifd::Primary {
        listing(doc.ifds, Ifd::Thumbnail, dir.next_location)
    } else {
        doc.ifds
    };
    let followed = follow(
        doc.bytes,
        doc.big_endian,
        doc.records + dir.records,
        ifds,
        pointer_stack(dir.records),
    );
    Doc { records: followed.0, ifds: followed.1, ..doc }
}

/// The document after an attempt to read a directory at `at` as `ifd`:
/// unchanged where the directory cannot be read.
pub open spec fn with_dir_at(doc: Doc, at: int, ifd: Ifd) -> Doc {
    match dir_at(doc.bytes, doc.big_endian, at, ifd) {
        Err(_) => doc,
        Ok(dir) => after_dir(doc, dir, ifd),
    }
}

/// The document after its chain of directories was read, the primary
/// directory at `at`: `None` where the primary directory cannot be read.
pub open spec fn with_ifds(doc: Doc, at: int) -> Result<Doc, Error> {
    match dir_at(doc.bytes, doc.big_endian, at, Ifd::Primary) {
        Err(e) => Err(e),
        Ok(dir) => {
            let primary = after_dir(doc, dir, Ifd::Primary);
            if dir.next != 0 {
                Ok(with_dir_at(primary, dir.next as int, Ifd::Thumbnail))
            } else {
                Ok(primary)
            }
        },
    }
}

/// Where reading the first `k` entries works and the next one fails, reading
/// more entries fails in the same way.
pub proof fn entries_at_fails(
    bytes: Seq<u8>,
    big_endian: bool,
    start: int,
    k: nat,
    n: nat,
    ifd: Ifd,
)
    requires
        k < n,
        entries_at(bytes, big_endian, start, k, ifd) is Ok,
        entry_at(bytes, big_endian, start + 12 * k) is Err,
    ensures
        entries_at(bytes, big_endian, start, n, ifd) == Err::<Seq<Located>, Error>(
            entry_at(bytes, big_endian, start + 12 * k)->Err_0,
        ),
    decreases n,
{
    if n - 1 > k {
        entries_at_fails(bytes, big_endian, start, k, (n - 1) as nat, ifd);
    }
}

/// The entries of a directory are as many as asked for, lie one after the
/// other, belong to the directory, and are what the bytes say.
pub proof fn entries_at_faithful(bytes: Seq<u8>, big_endian: bool, start: int, n: nat, ifd: Ifd)
    requires
        0 <= start,
        entries_at(bytes, big_endian, start, n, ifd) is Ok,
    ensures
        entries_at(bytes, big_endian, start, n, ifd)->Ok_0.len() == n,
        forall|i: int|
            0 <= i < n ==> {
                let record = #[trigger] entries_at(bytes, big_endian, start, n, ifd)->Ok_0[i];
                &&& record_matches(bytes, big_endian, record)
                &&& record.tagifd.ifd == ifd
                &&& record.entry.position == start + 12 * i
            },
    decreases n,
{
    if n > 0 {
        entries_at_faithful(bytes, big_endian, start, (n - 1) as nat, ifd);
    }
}

/// The pointer stack of some records holds only pointer entries among them.
pub proof fn pointer_stack_members(records: Seq<Located>)
    ensures
        forall|i: int|
            0 <= i < pointer_stack(records).len() ==> records.contains(
                #[trigger] pointer_stack(records)[i],
            ),
    decreases records.len(),
{
    if records.len() > 0 {
        let rest = records.drop_first();
        pointer_stack_members(rest);
        assert forall|i: int| 0 <= i < pointer_stack(records).len() implies records.contains(
            #[trigger] pointer_stack(records)[i],
        ) by {
            let record = pointer_stack(records)[i];
            if i < pointer_stack(rest).len() {
                assert(rest.contains(pointer_stack(rest)[i]));
                let j = choose|j: int| 0 <= j < rest.len() && rest[j] == record;
                assert(records[j + 1] == record);
            } else {
                assert(records[0] == record);
            }
        }
    }
}

/// The entries of a directory that was read from the bytes are what the
/// bytes say, and belong to the directory.
pub proof fn dir_at_faithful(bytes: Seq<u8>, big_endian: bool, at: int, ifd: Ifd)
    requires
        0 <= at,
        dir_at(bytes, big_endian, at, ifd) is Ok,
    ensures
        forall|i: int|
            0 <= i < dir_at(bytes, big_endian, at, ifd)->Ok_0.records.len() ==> {
                let record = #[trigger] dir_at(bytes, big_endian, at, ifd)->Ok_0.records[i];
                &&& record_matches(bytes, big_endian, record)
                &&& record.tagifd.ifd == ifd
            },
{
    let n = u16_at(bytes, at, big_endian);
    entries_at_faithful(bytes, big_endian, at + 2, n as nat, ifd);
}

/// An exec directory: what [`Dir`] is in contracts.
#[derive(Debug)]
pub struct Directory {
    pub records: Vec<Located>,
    pub next_location: u32,
    pub next: u32,
}

impl View for Directory {
    type V = Dir;

    open spec fn view(&self) -> Dir {
        Dir { records: self.records@, next_location: self.next_location, next: self.next }
    }
}

/// The pointer entries among `records`, the first of them last.
pub fn pointers_of(records: &Vec<Located>) -> (stack: Vec<Located>)
    ensures
        stack@ == pointer_stack(records@),
{
    let mut stack: Vec<Located> = Vec::new();
    let mut i: usize = records.len();
    assert(records@.subrange(i as int, records@.len() as int) =~= Seq::<Located>::empty());
    while i > 0
        invariant
            i <= records@.len(),
            stack@ == pointer_stack(records@.subrange(i as int, records@.len() as int)),
        decreases i,
    {
        i -= 1;
        let record = records[i];
        proof {
            let tail = records@.subrange(i as int, records@.len() as int);
            assert(tail.drop_first() =~= records@.subrange(i + 1, records@.len() as int));
            assert(tail[0] == record);
        }
        if record.tagifd.tag.is_exif_specific_ifd() {
            stack.push(record);
        }
    }
    assert(records@.subrange(0, records@.len() as int) =~= records@);
    stack
}

/// What decoding makes of a blob: the header gives the byte order and the
/// place of the primary directory, whose slot at byte 4 is its location;
/// then the chain of directories is read; then the maker note, if there is
/// one, is registered. A maker note that cannot be read is no error.
pub open spec fn decoded(bytes: Seq<u8>) -> Result<Doc, Error> {
    match header(bytes) {
        Err(e) => Err(e),
        Ok((big_endian, offset)) => {
            let start = Doc {
                bytes,
                big_endian,
                records: Seq::empty(),
                ifds: IfdLocations::spec_empty().with(Ifd::Primary, Some(4u32)),
                makernote: false,
            };
            match with_ifds(start, offset as int) {
                Err(e) => Err(e),
                Ok(doc) => match doc.registered() {
                    Ok(with_makernote) => Ok(with_makernote),
                    Err(_) => Ok(doc),
                },
            }
        },
    }
}

impl ExifRaw {
    /// Reads the constant 42 at the cursor.
    pub fn read_magic_42(&mut self) -> (done: Result<(), Error>)
        ensures
            final(self)@ == old(self)@,
            done == magic_at(old(self)@.bytes, old(self)@.big_endian, old(self).raw.cursor as int),
            done is Ok ==> final(self).raw.cursor == old(self).raw.cursor + 2,
    {
        match self.raw.read_u16() {
            Err(_) => Err(Error::MagicBytesEof),
            Ok(magic) => if magic == 42 {
                Ok(())
            } else {
                Err(Error::MagicBytesWrong(magic))
            },
        }
    }

    /// Reads the header and moves the cursor to the primary directory.
    pub fn decode_header(&mut self) -> (done: Result<(), Error>)
        ensures
            final(self)@.bytes == old(self)@.bytes,
            final(self)@.records == old(self)@.records,
            final(self)@.ifds == old(self)@.ifds,
            final(self)@.makernote == old(self)@.makernote,
            match header(old(self)@.bytes) {
                Ok((big_endian, offset)) => done is Ok && final(self)@.big_endian == big_endian
                    && final(self).raw.cursor == offset,
                Err(e) => done == Err::<(), Error>(e),
            },
    {
        let _ = self.raw.seek_start(0);
        self.read_byte_order()?;
        self.read_magic_42()?;
        let offset = self.raw.read_u32()?;
        self.raw.seek_start(offset)
    }

    /// Read a single entry from IFD
    ///
    /// The entry is read at the cursor, which moves behind it. Where no
    /// entry can be read the cursor stays.
    pub fn read_entry(&mut self) -> (entry: Result<(Tag, EntryRef), Error>)
        ensures
            final(self)@ == old(self)@,
            entry == entry_at(old(self)@.bytes, old(self)@.big_endian, old(self).raw.cursor as int),
            entry is Ok ==> final(self).raw.cursor == old(self).raw.cursor + 12,
            entry is Err ==> final(self).raw.cursor == old(self).raw.cursor,
    {
        let len = self.raw.buffer.len() as u64;
        let start = self.raw.cursor;
        if start > len || len - start < 12 {
            return Err(Error::EntryEof);
        }
        if start > (u32::MAX - 12) as u64 {
            return Err(Error::OffsetTooLarge);
        }
        let position = start as u32;
        let tag_id = match self.raw.read_u16() {
            Ok(x) => x,
            Err(_) => {
                return Err(Error::EntryEof);
            },
        };
        let code = match self.raw.read_u16() {
            Ok(x) => x,
            Err(_) => {
                return Err(Error::EntryEof);
            },
        };
        let data_type = Type::from_u16(code);
        let count = match self.raw.read_u32() {
            Ok(x) => x,
            Err(_) => {
                return Err(Error::EntryEof);
            },
        };
        let value = match self.raw.read_u32() {
            Ok(x) => x,
            Err(_) => {
                return Err(Error::EntryEof);
            },
        };
        match ValueOffset::new(data_type, count, value) {
            Err(e) => {
                self.raw.cursor = start;
                Err(e)
            },
            Ok(value_offset) => Ok((Tag(tag_id), EntryRef { position, data_type, count, value_offset })),
        }
    }

    /// Reads the directory at the cursor as `ifd`, without touching the
    /// indices.
    pub fn read_directory(&mut self, ifd: Ifd) -> (directory: Result<Directory, Error>)
        ensures
            final(self)@ == old(self)@,
            match dir_at(old(self)@.bytes, old(self)@.big_endian, old(self).raw.cursor as int, ifd) {
                Ok(dir) => directory is Ok && directory->Ok_0@ == dir,
                Err(e) => directory == Err::<Directory, Error>(e),
            },
    {
        let ghost at = self.raw.cursor as int;
        let ghost bytes = self.raw.buffer@;
        let ghost big_endian = self.raw.big_endian;
        let n = match self.raw.read_u16() {
            Ok(n) => n,
            Err(_) => {
                return Err(Error::IfdNumEntriesEof);
            },
        };
        let mut records: Vec<Located> = Vec::new();
        let mut i: u16 = 0;
        while i < n
            invariant
                i <= n,
                self@ == old(self)@,
                bytes == self.raw.buffer@,
                big_endian == self.raw.big_endian,
                self.raw.cursor == at + 2 + 12 * i,
                at == old(self).raw.cursor,
                at + 2 <= bytes.len(),
                n == u16_at(bytes, at, big_endian),
                entries_at(bytes, big_endian, at + 2, i as nat, ifd) == Ok::<Seq<Located>, Error>(
                    records@,
                ),
            decreases n - i,
        {
            match self.read_entry() {
                Err(e) => {
                    proof {
                        entries_at_fails(bytes, big_endian, at + 2, i as nat, n as nat, ifd);
                    }
                    return Err(e);
                },
                Ok((tag, entry)) => {
                    records.push(Located { tagifd: TagIfd { tag, ifd }, entry });
                },
            }
            i += 1;
        }
        let next_location = self.raw.position()?;
        let next = self.raw.read_u32()?;
        Ok(Directory { records, next_location, next })
    }

    /// Adds location of IFD offset
    ///
    /// Returns whether the directory had a location already; if so, that
    /// location is kept.
    pub fn add_ifd_offset_location(&mut self, ifd: Ifd, location: u32) -> (exists: bool)
        ensures
            exists == old(self)@.ifds.spec_get(ifd).is_some(),
            final(self)@ == (Doc { ifds: listing(old(self)@.ifds, ifd, location), ..old(self)@ }),
            final(self).raw.cursor == old(self).raw.cursor,
    {
        let exists = self.ifd_locations.get(ifd).is_some();
        if !exists {
            self.ifd_locations.set(ifd, Some(location));
        }
        exists
    }

    /// Reads the byte-order marker at the cursor and sets the byte order.
    pub fn read_byte_order(&mut self) -> (done: Result<(), Error>)
        ensures
            final(self)@.bytes == old(self)@.bytes,
            final(self)@.records == old(self)@.records,
            final(self)@.ifds == old(self)@.ifds,
            final(self)@.makernote == old(self)@.makernote,
            match byte_order_at(old(self)@.bytes, old(self).raw.cursor as int) {
                Ok(big_endian) => done is Ok && final(self)@.big_endian == big_endian && final(self).raw.cursor == old(self).raw.cursor + 2,
                Err(e) => done == Err::<(), Error>(e) && final(self)@.big_endian == old(self)@.big_endian,
            },
    {
        let bytes = match self.raw.read_exact::<2>() {
            Ok(bytes) => bytes,
            Err(_) => {
                return Err(Error::ByteOrderEof);
            },
        };
        if bytes[0] == 0x49 && bytes[1] == 0x49 {
            self.raw.big_endian = false;
            Ok(())
        } else if bytes[0] == 0x4D && bytes[1] == 0x4D {
            self.raw.big_endian = true;
            Ok(())
        } else {
            assert(bytes =~= [bytes[0], bytes[1]]);
            Err(Error::UnknownByteOrder(bytes))
        }
    }

    /// Follows the pending pointer entries, the last of them first, and
    /// indexes the directories they lead to.
    fn follow_pointers(&mut self, pending: Vec<Located>)
        requires
            forall|i: int|
                0 <= i < pending@.len() ==> record_matches(
                    old(self)@.bytes,
                    old(self)@.big_endian,
                    #[trigger] pending@[i],
                ),
        ensures
            final(self)@.bytes == old(self)@.bytes,
            final(self)@.big_endian == old(self)@.big_endian,
            final(self)@.makernote == old(self)@.makernote,
            (final(self)@.records, final(self)@.ifds) == follow(
                old(self)@.bytes,
                old(self)@.big_endian,
                old(self)@.records,
                old(self)@.ifds,
                pending@,
            ),
            old(self)@.faithful() ==> final(self)@.faithful(),
    {
        let ghost bytes = self.raw.buffer@;
        let ghost big_endian = self.raw.big_endian;
        let ghost goal = follow(bytes, big_endian, self.locations@, self.ifd_locations, pending@);
        let mut pending = pending;
        while pending.len() > 0
            invariant
                self.raw.buffer@ == bytes,
                self.raw.big_endian == big_endian,
                self.makernote == old(self).makernote,
                follow(bytes, big_endian, self.locations@, self.ifd_locations, pending@) == goal,
                forall|i: int|
                    0 <= i < pending@.len() ==> record_matches(
                        bytes,
                        big_endian,
                        #[trigger] pending@[i],
                    ),
                old(self)@.faithful() ==> self@.faithful(),
            decreases self.ifd_locations.unlisted(), pending@.len(),
        {
            let ghost before = pending@;
            let ghost doc = self@;
            let pointer = pending.pop().unwrap();
            assert(pointer == before.last());
            assert(pending@ == before.drop_last());
            assert(record_matches(bytes, big_endian, before[before.len() - 1]));
            if let Some(sub) = pointer.tagifd.tag.exif_specific_ifd() {
                if self.ifd_locations.get(sub).is_none() {
                    self.ifd_locations.set(sub, Some(pointer.entry.position + 8));
                    let _ = self.raw.seek_start(pointer.entry.value_offset.u32());
                    match self.read_directory(sub) {
                        Err(_) => {},
                        Ok(directory) => {
                            let ghost found = directory.records@;
                            let ghost indexed = self.locations@;
                            let ghost rest = pending@;
                            assert(indexed == doc.records);
                            let mut more = pointers_of(&directory.records);
                            let mut records = directory.records;
                            self.locations.append(&mut records);
                            pending.append(&mut more);
                            proof {
                                dir_at_faithful(
                                    bytes,
                                    big_endian,
                                    pointer.entry.value_offset.raw() as int,
                                    sub,
                                );
                                pointer_stack_members(found);
                                assert forall|i: int| 0 <= i < pending@.len() implies record_matches(
                                    bytes,
                                    big_endian,
                                    #[trigger] pending@[i],
                                ) by {
                                    if i >= rest.len() {
                                        let record = pointer_stack(found)[i - rest.len()];
                                        assert(found.contains(record));
                                    } else {
                                        assert(pending@[i] == rest[i]);
                                    }
                                }
                                if old(self)@.faithful() {
                                    assert forall|i: int|
                                        0 <= i < self.locations@.len() implies record_matches(
                                        bytes,
                                        big_endian,
                                        #[trigger] self.locations@[i],
                                    ) by {
                                        if i >= indexed.len() {
                                            assert(self.locations@[i] == found[i - indexed.len()]);
                                        } else {
                                            assert(self.locations@[i] == doc.records[i]);
                                        }
                                    }
                                }
                            }
                        },
                    }
                }
            }
            proof {
                if old(self)@.faithful() && self.locations@ == doc.records {
                    assert forall|i: int| 0 <= i < self.locations@.len() implies record_matches(
                        bytes,
                        big_endian,
                        #[trigger] self.locations@[i],
                    ) by {
                        assert(self.locations@[i] == doc.records[i]);
                    }
                }
            }
        }
    }

    /// Reads the directory at the cursor as `ifd` and the directories that
    /// its entries point to, and returns its pointer to the next directory.
    ///
    /// Where the directory cannot be read, the indices stay as they are.
    pub fn decode_ifd_entries(&mut self, ifd: Ifd) -> (next: Result<u32, Error>)
        ensures
            match dir_at(old(self)@.bytes, old(self)@.big_endian, old(self).raw.cursor as int, ifd) {
                Ok(dir) => next == Ok::<u32, Error>(dir.next) && final(self)@ == after_dir(
                    old(self)@,
                    dir,
                    ifd,
                ),
                Err(e) => next == Err::<u32, Error>(e) && final(self)@ == old(self)@,
            },
            old(self)@.faithful() ==> final(self)@.faithful(),
    {
        let ghost at = self.raw.cursor as int;
        let ghost indexed = self.locations@;
        let directory = self.read_directory(ifd)?;
        if directory.next > 0 && ifd == Ifd::Primary {
            self.add_ifd_offset_location(Ifd::Thumbnail, directory.next_location);
        }
        let ghost found = directory.records@;
        let pending = pointers_of(&directory.records);
        let mut records = directory.records;
        self.locations.append(&mut records);
        proof {
            dir_at_faithful(self.raw.buffer@, self.raw.big_endian, at, ifd);
            pointer_stack_members(found);
            assert forall|i: int| 0 <= i < pending@.len() implies record_matches(
                self.raw.buffer@,
                self.raw.big_endian,
                #[trigger] pending@[i],
            ) by {
                assert(found.contains(pending@[i]));
            }
            if old(self)@.faithful() {
                assert forall|i: int| 0 <= i < self.locations@.len() implies record_matches(
                    self.raw.buffer@,
                    self.raw.big_endian,
                    #[trigger] self.locations@[i],
                ) by {
                    if i >= indexed.len() {
                        assert(self.locations@[i] == found[i - indexed.len()]);
                    } else {
                        assert(self.locations@[i] == indexed[i]);
                    }
                }
            }
        }
        self.follow_pointers(pending);
        Ok(directory.next)
    }

    /// Sometimes, not all IFD locations are actually valid
    ///
    /// Reads the directory at `ifd_offset` as `ifd`; where it cannot be
    /// read, the document stays as it is.
    pub fn decode_ifd_entries_error_silenced(&mut self, ifd: Ifd, ifd_offset: u32)
        ensures
            final(self)@ == with_dir_at(old(self)@, ifd_offset as int, ifd),
            old(self)@.faithful() ==> final(self)@.faithful(),
    {
        let _ = self.raw.seek_start(ifd_offset);
        let _ = self.decode_ifd_entries(ifd);
    }

    /// Reads the primary directory at the cursor and, where its pointer to
    /// the next directory is not zero, the thumbnail directory there.
    pub fn decode_ifds(&mut self) -> (done: Result<(), Error>)
        ensures
            match with_ifds(old(self)@, old(self).raw.cursor as int) {
                Ok(doc) => done is Ok && final(self)@ == doc,
                Err(e) => done == Err::<(), Error>(e) && final(self)@ == old(self)@,
            },
            old(self)@.faithful() ==> final(self)@.faithful(),
    {
        let ifd_offset = self.decode_ifd_entries(Ifd::Primary)?;
        if ifd_offset != 0 {
            self.decode_ifd_entries_error_silenced(Ifd::Thumbnail, ifd_offset);
        }
        Ok(())
    }

    /// Forgets what was decoded.
    fn clear(&mut self)
        ensures
            final(self)@ == (Doc {
                records: Seq::empty(),
                ifds: IfdLocations::spec_empty(),
                makernote: false,
                ..old(self)@
            }),
    {
        self.locations = Vec::new();
        self.ifd_locations = IfdLocations::empty();
        self.makernote = false;
    }

    /// Decode data in buffer
    ///
    /// Builds the indices anew from the bytes. Where the header or the
    /// primary directory cannot be read, the document is left without
    /// indices and with the byte order it had.
    pub fn decode(&mut self) -> (done: Result<(), Error>)
        ensures
            match decoded(old(self)@.bytes) {
                Ok(doc) => done is Ok && final(self)@ == doc,
                Err(e) => done == Err::<(), Error>(e) && final(self)@ == (Doc {
                    records: Seq::empty(),
                    ifds: IfdLocations::spec_empty(),
                    makernote: false,
                    ..old(self)@
                }),
            },
            done is Ok ==> final(self)@.faithful(),
    {
        let big_endian = self.raw.big_endian;
        self.clear();
        if let Err(e) = self.decode_header() {
            self.raw.big_endian = big_endian;
            return Err(e);
        }
        self.add_ifd_offset_location(Ifd::Primary, 4);
        if let Err(e) = self.decode_ifds() {
            self.raw.big_endian = big_endian;
            self.clear();
            return Err(e);
        }
        let _ = self.makernote_register();
        Ok(())
    }
}

} // verus!
