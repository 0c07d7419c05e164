//! The maker note: a vendor's blob that is read as one more directory and
//! must never move.
use vstd::prelude::*;
use crate::common::exif::{Ifd, Tag, TagIfd};
use crate::exif::bytes::{drain_out, drained, overwrite, splice_in, spliced, u32_bytes, zero_vec, zeros};
use crate::exif::decode::{after_dir, dir_at};
use crate::exif::document::{Doc, ExifRaw, Located};
use crate::exif::edit::{all_zero, intact, same_bytes, shifted};
use crate::exif::entry::{EntryRef, ValueOffset};
use crate::exif::error::Error;

verus! {

/// The key of the entry that holds the maker note.
pub open spec fn makernote_key() -> TagIfd {
    TagIfd { tag: Tag(0x927C), ifd: Ifd::Exif }
}

/// Whether the nine bytes at `at` are the text `Apple iOS`.
pub open spec fn apple_prefix_at(bytes: Seq<u8>, at: int) -> bool {
    &&& bytes[at] == 0x41
    &&& bytes[at + 1] == 0x70
    &&& bytes[at + 2] == 0x70
    &&& bytes[at + 3] == 0x6C
    &&& bytes[at + 4] == 0x65
    &&& bytes[at + 5] == 0x20
    &&& bytes[at + 6] == 0x69
    &&& bytes[at + 7] == 0x4F
    &&& bytes[at + 8] == 0x53
}

/// The outcome of resolving, in index order, the data of every key of the
/// directory `ifd` among the first `n` records: the first error, if any.
pub open spec fn validated(doc: Doc, ifd: Ifd, n: nat) -> Result<(), Error>
    decreases n,
{
    if n == 0 {
        Ok(())
    } else {
        match validated(doc, ifd, (n - 1) as nat) {
            Err(e) => Err(e),
            Ok(_) => if doc.records[n - 1].tagifd.ifd == ifd {
                match doc.data(doc.records[n - 1].tagifd) {
                    Err(e) => Err(e),
                    Ok(_) => Ok(()),
                }
            } else {
                Ok(())
            },
        }
    }
}

/// The place of a directory in the order of the directories.
pub open spec fn ifd_rank(ifd: Ifd) -> int {
    match ifd {
        Ifd::Primary => 0,
        Ifd::Thumbnail => 1,
        Ifd::Exif => 2,
        Ifd::Gps => 3,
        Ifd::Interoperability => 4,
        Ifd::MakerNote => 5,
    }
}

/// Whether the key `a` comes before the key `b` or is `b`, where keys are
/// ordered by their tags and keys with one tag by their directories.
pub open spec fn key_not_after(a: TagIfd, b: TagIfd) -> bool {
    a.tag.0 < b.tag.0 || (a.tag.0 == b.tag.0 && ifd_rank(a.ifd) <= ifd_rank(b.ifd))
}

/// Among the first `k` records, the one whose out-of-line data starts
/// nearest before `offset`. Of several whose data starts at the same place
/// the one with the last key counts, and of several with that key the last
/// in the index.
pub open spec fn nearest_before(records: Seq<Located>, offset: u32, k: nat) -> Option<int>
    decreases k,
{
    if k == 0 {
        None
    } else {
        let best = nearest_before(records, offset, (k - 1) as nat);
        let slot = records[k - 1].entry.value_offset;
        if slot is Offset && slot.raw() < offset && (best is None
            || records[best->Some_0].entry.value_offset.raw() < slot.raw() || (
        records[best->Some_0].entry.value_offset.raw() == slot.raw() && key_not_after(
            records[best->Some_0].tagifd,
            records[k - 1].tagifd,
        ))) {
            Some(k - 1)
        } else {
            best
        }
    }
}

/// The records whose data is to make room: taken by descending offset from
/// `bound` down until their data lengths add up to `need`. Where the data
/// of several records starts at one place, the one that counts as the
/// nearest is taken and the others are not.
pub open spec fn selection(doc: Doc, bound: u32, need: int) -> Result<Seq<usize>, Error>
    decreases bound,
{
    if need <= 0 {
        Ok(Seq::empty())
    } else {
        match nearest_before(doc.records, bound, doc.records.len()) {
            None => Err(Error::MakerNoteNoSpace),
            Some(i) => {
                let entry = doc.records[i].entry;
                if entry.spec_data_len() > u32::MAX {
                    Err(Error::OffsetTooLarge)
                } else if entry.value_offset.raw() >= bound {
                    Err(Error::MakerNoteNoSpace)
                } else {
                    match selection(doc, entry.value_offset.raw(), need - entry.spec_data_len()) {
                        Err(e) => Err(e),
                        Ok(rest) => Ok(seq![i as usize] + rest),
                    }
                }
            },
        }
    }
}

/// The document after the record `i` was pointed to where its data has
/// gone: an offset into `start..end` now leads as far behind `to`.
pub open spec fn retarget_record(doc: Doc, i: int, start: u32, end: u32, to: u32) -> Result<
    Doc,
    Error,
> {
    let record = doc.records[i];
    if record.entry.value_offset is Offset && start <= record.entry.value_offset.raw() < end {
        let offset = to + (record.entry.value_offset.raw() - start);
        if offset > u32::MAX {
            Err(Error::AdditionOverflow)
        } else if record.entry.position + 12 > doc.bytes.len() {
            Err(Error::Io)
        } else {
            Ok(
                Doc {
                    bytes: overwrite(
                        doc.bytes,
                        record.entry.position + 8,
                        u32_bytes(offset as u32, doc.big_endian),
                    ),
                    records: doc.records.update(
                        i,
                        Located {
                            tagifd: record.tagifd,
                            entry: EntryRef {
                                value_offset: ValueOffset::Offset(offset as u32),
                                ..record.entry
                            },
                        },
                    ),
                    ..doc
                },
            )
        }
    } else {
        Ok(doc)
    }
}

/// The document after the first `k` records were pointed to where their
/// data has gone.
pub open spec fn retarget_records(doc: Doc, start: u32, end: u32, to: u32, k: nat) -> Result<
    Doc,
    Error,
>
    decreases k,
{
    if k == 0 {
        Ok(doc)
    } else {
        match retarget_records(doc, start, end, to, (k - 1) as nat) {
            Err(e) => Err(e),
            Ok(reached) => retarget_record(reached, k - 1, start, end, to),
        }
    }
}

/// The document after the bytes of `start..end` were moved to `to`, which
/// lies at or behind `end`: zeros take their old place, the bytes are
/// inserted at `to`, every offset at or behind `to` moves on by their
/// length, and every offset into the old place leads to the new one.
pub open spec fn relocated(doc: Doc, start: u32, end: u32, to: u32) -> Result<Doc, Error> {
    if end < start {
        Err(Error::SubstractionOverflowError)
    } else if to < end {
        Err(Error::OffsetInvalid(to as i64))
    } else if to > doc.bytes.len() {
        Err(Error::EntryEof)
    } else {
        let moved = Doc {
            bytes: spliced(
                overwrite(doc.bytes, start as int, zeros((end - start) as nat)),
                to as int,
                doc.bytes.subrange(start as int, end as int),
            ),
            ..doc
        };
        match shifted(moved, to, end - start) {
            Err(e) => Err(e),
            Ok(propagated) => retarget_records(propagated, start, end, to, propagated.records.len()),
        }
    }
}

/// The document after the out-of-line data of the record `i` was moved to
/// `to`.
pub open spec fn moved_entry(doc: Doc, i: int, to: u32) -> Result<Doc, Error> {
    if i < 0 || i >= doc.records.len() {
        Err(Error::EntryNotFound)
    } else {
        let entry = doc.records[i].entry;
        match entry.value_offset {
            ValueOffset::Value(_) => Err(Error::EntryNotFound),
            ValueOffset::Offset(offset) => if entry.spec_data_len() > u32::MAX {
                Err(Error::OffsetTooLarge)
            } else if offset + entry.spec_data_len() > u32::MAX {
                Err(Error::AdditionOverflow)
            } else {
                relocated(doc, offset, (offset + entry.spec_data_len()) as u32, to)
            },
        }
    }
}

/// The document after the data of the first `k` selected records was moved
/// to `to`, one after the other.
pub open spec fn moves(doc: Doc, selected: Seq<usize>, to: u32, k: nat) -> Result<Doc, Error>
    decreases k,
{
    if k == 0 {
        Ok(doc)
    } else {
        match moves(doc, selected, to, (k - 1) as nat) {
            Err(e) => Err(e),
            Ok(reached) => moved_entry(reached, selected[k - 1] as int, to),
        }
    }
}

/// `after` is `doc` with the bytes of `start..end` moved to `to`: it is
/// longer by their number, the bytes stand at `to`, zeros stand in their
/// old place, and the document holds what it held: its index says what its
/// bytes say and every record reads the data that it read.
pub open spec fn moved_to(doc: Doc, after: Doc, start: u32, end: u32, to: u32) -> bool {
    &&& start <= end <= to <= doc.bytes.len()
    &&& after.bytes.len() == doc.bytes.len() + (end - start)
    &&& after.bytes.subrange(to as int, to + (end - start)) == doc.bytes.subrange(
        start as int,
        end as int,
    )
    &&& after.bytes.subrange(start as int, end as int) == zeros((end - start) as nat)
    &&& intact(doc, after)
}

/// What moving the bytes of `start..end` to `to` does. The outcome is
/// accepted only if the bytes have been moved and the document holds what
/// it held.
pub open spec fn relocation(doc: Doc, start: u32, end: u32, to: u32) -> Result<Doc, Error> {
    match relocated(doc, start, end, to) {
        Err(e) => Err(e),
        Ok(after) => if moved_to(doc, after, start, end, to) {
            Ok(after)
        } else {
            Err(Error::EntryNotFound)
        },
    }
}

/// What moving the out-of-line data of the record `i` to `to` does. The
/// outcome is accepted only if the data has been moved and the document
/// holds what it held.
pub open spec fn entry_relocation(doc: Doc, i: int, to: u32) -> Result<Doc, Error> {
    match moved_entry(doc, i, to) {
        Err(e) => Err(e),
        Ok(after) => {
            let entry = doc.records[i].entry;
            let start = entry.value_offset.raw();
            if moved_to(doc, after, start, (start + entry.spec_data_len()) as u32, to) {
                Ok(after)
            } else {
                Err(Error::EntryNotFound)
            }
        },
    }
}

/// Whether at least `len` bytes are free before `position`: between the
/// end of the nearest data before it and `position`.
pub open spec fn has_room(doc: Doc, position: u32, len: u32) -> bool {
    doc.free_space_before(position) is Ok && doc.free_space_before(position)->Ok_0 >= len
}

/// What freeing `len` bytes before `before_position` does. The outcome is
/// accepted only if the document holds what it held and the space is free.
pub open spec fn freeing(doc: Doc, before_position: u32, len: u32, post_here: u32) -> Result<
    Doc,
    Error,
> {
    match doc.freed_up(before_position, len, post_here) {
        Err(e) => Err(e),
        Ok(after) => if !intact(doc, after) {
            Err(Error::EntryNotFound)
        } else if !has_room(after, before_position, len) {
            Err(Error::MakerNoteNoSpace)
        } else {
            Ok(after)
        },
    }
}

/// Whether the guard has to act: a maker note is registered whose data
/// lies at or behind the insertion point.
pub open spec fn guard_acts(doc: Doc, insert_position: u32) -> bool {
    match doc.registered_makernote() {
        Some(entry) => entry.value_offset is Offset && entry.value_offset.raw() >= insert_position,
        None => false,
    }
}

/// `after` is `doc` prepared for an insertion of `len` bytes at
/// `insert_position`. Where the guard has to act, the maker note lies `len`
/// bytes earlier and the index says what the bytes say. Else nothing has
/// changed.
pub open spec fn prepared(doc: Doc, after: Doc, insert_position: u32, len: u32) -> bool {
    if guard_acts(doc, insert_position) {
        let offset = doc.makernote_entry()->Some_0.value_offset.raw();
        &&& offset >= len
        &&& after.makernote_entry() is Some
        &&& after.makernote_entry()->Some_0.value_offset == ValueOffset::Offset(
            (offset - len) as u32,
        )
        &&& after.faithful()
    } else {
        after == doc
    }
}

/// What the guard does. The outcome is accepted only if the document is
/// prepared for the insertion.
pub open spec fn guarding(doc: Doc, insert_position: u32, len: u32) -> Result<Doc, Error> {
    match doc.guarded(insert_position, len) {
        Err(e) => Err(e),
        Ok(after) => if prepared(doc, after, insert_position, len) {
            Ok(after)
        } else {
            Err(Error::MakerNoteNoSpace)
        },
    }
}

impl Doc {
    /// The entry that holds the maker note, if there is one.
    pub open spec fn makernote_entry(self) -> Option<EntryRef> {
        self.entry(makernote_key())
    }

    /// The entry that holds the maker note, if the maker note is registered.
    pub open spec fn registered_makernote(self) -> Option<EntryRef> {
        if self.makernote {
            self.makernote_entry()
        } else {
            None
        }
    }

    /// Where inside the maker note its directory is taken to start: at 14
    /// behind the prefix `Apple iOS`, at 0 otherwise. `None` without a maker
    /// note of at least twenty bytes in the buffer.
    pub open spec fn makernote_guess(self) -> Option<u32> {
        match self.makernote_entry() {
            Some(entry) => match entry.value_offset {
                ValueOffset::Offset(offset) => if offset + 20 > self.bytes.len() {
                    None
                } else if apple_prefix_at(self.bytes, offset as int) {
                    Some(14u32)
                } else {
                    Some(0u32)
                },
                ValueOffset::Value(_) => None,
            },
            None => None,
        }
    }

    /// Where the out-of-line data that starts nearest before `offset` ends;
    /// 0 where no data starts before `offset`.
    pub open spec fn last_data_end_before(self, offset: u32) -> Result<u32, Error> {
        match nearest_before(self.records, offset, self.records.len()) {
            None => Ok(0u32),
            Some(i) => {
                let entry = self.records[i].entry;
                if entry.spec_data_len() > u32::MAX {
                    Err(Error::OffsetTooLarge)
                } else if entry.value_offset.raw() + entry.spec_data_len() > u32::MAX {
                    Err(Error::AdditionOverflow)
                } else {
                    Ok((entry.value_offset.raw() + entry.spec_data_len()) as u32)
                }
            },
        }
    }

    /// How many bytes lie between the end of the nearest data before
    /// `offset` and `offset`.
    pub open spec fn free_space_before(self, offset: u32) -> Result<u32, Error> {
        match self.last_data_end_before(offset) {
            Err(e) => Err(e),
            Ok(end) => if end > offset {
                Err(Error::SubstractionOverflowError)
            } else {
                Ok((offset - end) as u32)
            },
        }
    }

    /// The document after out-of-line data of at least `len` bytes that
    /// started before `before_position` was moved to `post_here`, the
    /// nearest data first.
    pub open spec fn freed_up(self, before_position: u32, len: u32, post_here: u32) -> Result<
        Doc,
        Error,
    > {
        match selection(self, before_position, len as int) {
            Err(e) => Err(e),
            Ok(selected) => moves(self, selected, post_here, selected.len()),
        }
    }

    /// The document after the guard has prepared it for an insertion of
    /// `len` bytes at `insert_position`.
    ///
    /// Without a registered maker note behind the insertion point nothing
    /// happens. Else, if fewer than `len` bytes are free before the maker note, data
    /// that precedes it is moved behind it. Then the `len` bytes right
    /// before the maker note are taken out, if they are free and lie behind
    /// the pointer that ends the directory at the insertion point; so the
    /// maker note comes to lie `len` bytes earlier, and the insertion
    /// brings it back.
    pub open spec fn guarded(self, insert_position: u32, len: u32) -> Result<Doc, Error> {
        match self.registered_makernote() {
            None => Ok(self),
            Some(entry) => match entry.value_offset {
                ValueOffset::Value(_) => Ok(self),
                ValueOffset::Offset(offset) => if offset < insert_position {
                    Ok(self)
                } else if entry.spec_data_len() > u32::MAX {
                    Err(Error::OffsetTooLarge)
                } else if offset + entry.spec_data_len() > u32::MAX {
                    Err(Error::AdditionOverflow)
                } else {
                    match self.free_space_before(offset) {
                        Err(e) => Err(e),
                        Ok(free) => {
                            let freed = if free >= len {
                                Ok(self)
                            } else {
                                self.freed_up(offset, len, (offset + entry.spec_data_len()) as u32)
                            };
                            match freed {
                                Err(e) => Err(e),
                                Ok(doc) => doc.drained_before_makernote(insert_position, len),
                            }
                        },
                    }
                },
            },
        }
    }

    /// Whether no header of a record and no pointer to a directory has a
    /// byte in `from..to`.
    pub open spec fn structures_clear(self, from: int, to: int) -> bool {
        &&& forall|i: int|
            0 <= i < self.records.len() ==> (#[trigger] self.records[i]).entry.position + 12
                <= from || self.records[i].entry.position >= to
        &&& forall|k: int|
            0 <= k < 6 ==> match #[trigger] self.ifds.spec_get(crate::exif::edit::ifd_number(k)) {
                Some(location) => location + 4 <= from || location >= to,
                None => true,
            }
    }

    /// The document after the `len` bytes right before the maker note were
    /// taken out: they must lie behind the pointer that ends the directory
    /// at the insertion point, behind the data that precedes the maker
    /// note, and off every header and pointer that the index knows.
    pub open spec fn drained_before_makernote(self, insert_position: u32, len: u32) -> Result<
        Doc,
        Error,
    > {
        match self.makernote_entry() {
            None => Err(Error::EntryNotFound),
            Some(entry) => match entry.value_offset {
                ValueOffset::Value(_) => Err(Error::EntryNotFound),
                ValueOffset::Offset(offset) => match self.last_data_end_before(offset) {
                    Err(e) => Err(e),
                    Ok(end) => if offset < len || end > offset - len || insert_position + 4 > offset
                        - len || offset > self.bytes.len() || !self.structures_clear(
                        offset - len,
                        offset as int,
                    ) {
                        Err(Error::MakerNoteNoSpace)
                    } else {
                        shifted(
                            Doc {
                                bytes: drained(self.bytes, offset - len, len as int),
                                ..self
                            },
                            (offset - len) as u32,
                            -(len as int),
                        )
                    },
                },
            },
        }
    }

    /// Whether the data of every key of the directory `ifd` resolves.
    pub open spec fn valid_ifd(self, ifd: Ifd) -> Result<(), Error> {
        validated(self, ifd, self.records.len())
    }

    /// The document after the attempt to register its maker note.
    ///
    /// Nothing happens without a maker note, or where the maker note
    /// directory has a location already. Else the directory is read where it
    /// is guessed to start; its entries join the index and the slot of the
    /// maker note entry becomes its location. The maker note counts as
    /// registered where the data of all those entries resolves.
    pub open spec fn registered(self) -> Result<Doc, Error> {
        match (self.makernote_entry(), self.makernote_guess()) {
            (Some(entry), Some(internal)) => if self.ifds.makernote.is_some() {
                Ok(self)
            } else if entry.value_offset.raw() + internal > u32::MAX || entry.position + 8
                > u32::MAX {
                Err(Error::AdditionOverflow)
            } else {
                match dir_at(
                    self.bytes,
                    self.big_endian,
                    entry.value_offset.raw() + internal,
                    Ifd::MakerNote,
                ) {
                    Err(e) => Err(e),
                    Ok(dir) => {
                        let listed = Doc {
                            ifds: self.ifds.with(Ifd::MakerNote, Some((entry.position + 8) as u32)),
                            ..self
                        };
                        let read = after_dir(listed, dir, Ifd::MakerNote);
                        Ok(
                            Doc {
                                makernote: self.makernote || read.valid_ifd(Ifd::MakerNote) is Ok,
                                ..read
                            },
                        )
                    },
                }
            },
            _ => Ok(self),
        }
    }
}

/// The place of a directory in the order of the directories.
pub fn rank_of(ifd: Ifd) -> (rank: u8)
    ensures
        rank == ifd_rank(ifd),
{
    match ifd {
        Ifd::Primary => 0,
        Ifd::Thumbnail => 1,
        Ifd::Exif => 2,
        Ifd::Gps => 3,
        Ifd::Interoperability => 4,
        Ifd::MakerNote => 5,
    }
}

/// Whether the key `a` comes before the key `b` or is `b`.
pub fn is_key_not_after(a: TagIfd, b: TagIfd) -> (yes: bool)
    ensures
        yes == key_not_after(a, b),
{
    a.tag.0 < b.tag.0 || (a.tag.0 == b.tag.0 && rank_of(a.ifd) <= rank_of(b.ifd))
}

impl ExifRaw {
    /// The entry that holds the maker note, if there is one.
    pub fn makernote_entry(&self) -> (entry: Option<EntryRef>)
        ensures
            entry == self@.makernote_entry(),
    {
        self.lookup_entry(TagIfd::new(Tag(Tag::MAKER_NOTE), Ifd::Exif))
    }

    /// Guesses where inside the maker note its directory starts.
    pub fn makernote_guess_offset(&self) -> (internal: Option<u32>)
        ensures
            internal == self@.makernote_guess(),
    {
        if let Some(entry) = self.makernote_entry() {
            if let ValueOffset::Offset(offset) = entry.value_offset {
                let data = self.raw.get(offset, 20)?;
                if data[0] == 0x41 && data[1] == 0x70 && data[2] == 0x70 && data[3] == 0x6C
                    && data[4] == 0x65 && data[5] == 0x20 && data[6] == 0x69 && data[7] == 0x4F
                    && data[8] == 0x53 {
                    return Some(14);
                }
                return Some(0);
            }
        }
        None
    }

    /// Resolves the data of every key of the directory `ifd` once.
    pub fn validate_ifd(&self, ifd: Ifd) -> (valid: Result<(), Error>)
        ensures
            valid == self@.valid_ifd(ifd),
    {
        let n = self.locations.len();
        let mut i: usize = 0;
        while i < n
            invariant
                i <= n,
                n == self.locations@.len(),
                validated(self@, ifd, i as nat) is Ok,
            decreases n - i,
        {
            let record = self.locations[i];
            if record.tagifd.ifd == ifd {
                match self.lookup_data(record.tagifd) {
                    Err(e) => {
                        proof {
                            validated_fails(self@, ifd, i as nat, n as nat);
                        }
                        return Err(e);
                    },
                    Ok(_) => {},
                }
            }
            i += 1;
        }
        Ok(())
    }

    /// The record whose out-of-line data starts nearest before `offset`; of
    /// several whose data starts at the same place the one with the last
    /// key, and of several with that key the last in the index.
    pub fn nearest_data_before(&self, offset: u32) -> (nearest: Option<usize>)
        ensures
            match nearest_before(self@.records, offset, self@.records.len()) {
                Some(i) => nearest is Some && nearest->Some_0 == i && 0 <= i < self@.records.len()
                    && self@.records[i].entry.value_offset is Offset
                    && self@.records[i].entry.value_offset.raw() < offset,
                None => nearest is None,
            },
    {
        let n = self.locations.len();
        let mut best: Option<usize> = None;
        let mut best_offset: u32 = 0;
        let mut best_key: TagIfd = TagIfd { tag: Tag(0), ifd: Ifd::Primary };
        let mut k: usize = 0;
        while k < n
            invariant
                k <= n,
                n == self@.records.len(),
                match nearest_before(self@.records, offset, k as nat) {
                    Some(i) => best is Some && best->Some_0 == i && 0 <= i < k
                        && self@.records[i].entry.value_offset is Offset
                        && self@.records[i].entry.value_offset.raw() == best_offset && best_offset
                        < offset && self@.records[i].tagifd == best_key,
                    None => best is None,
                },
            decreases n - k,
        {
            let record = self.locations[k];
            if let ValueOffset::Offset(start) = record.entry.value_offset {
                if start < offset && (best.is_none() || best_offset < start || (best_offset == start
                    && is_key_not_after(best_key, record.tagifd))) {
                    best = Some(k);
                    best_offset = start;
                    best_key = record.tagifd;
                }
            }
            k += 1;
        }
        best
    }

    /// Where the out-of-line data that starts nearest before `offset` ends;
    /// 0 where no data starts before `offset`.
    pub fn last_data_end_before(&self, offset: u32) -> (end: Result<u32, Error>)
        ensures
            end == self@.last_data_end_before(offset),
    {
        match self.nearest_data_before(offset) {
            None => Ok(0),
            Some(i) => {
                let entry = self.locations[i].entry;
                let len = entry.data_len()?;
                match entry.value_offset.u32().checked_add(len) {
                    Some(end) => Ok(end),
                    None => Err(Error::AdditionOverflow),
                }
            },
        }
    }

    /// How many bytes lie between the end of the nearest data before
    /// `offset` and `offset`.
    pub fn free_space_before(&self, offset: u32) -> (free: Result<u32, Error>)
        ensures
            free == self@.free_space_before(offset),
    {
        let end = self.last_data_end_before(offset)?;
        match offset.checked_sub(end) {
            Some(free) => Ok(free),
            None => Err(Error::SubstractionOverflowError),
        }
    }

    /// Selects the records whose data is to make room for `need` bytes.
    pub fn select_before(&self, bound: u32, need: u32) -> (selected: Result<Vec<usize>, Error>)
        ensures
            match selection(self@, bound, need as int) {
                Ok(indices) => selected is Ok && selected->Ok_0@ == indices,
                Err(e) => selected == Err::<Vec<usize>, Error>(e),
            },
    {
        let ghost goal = selection(self@, bound, need as int);
        let mut selected: Vec<usize> = Vec::new();
        let mut limit = bound;
        let mut missing: i64 = need as i64;
        assert(Seq::<usize>::empty() + selection(self@, bound, need as int)->Ok_0 =~= selection(
            self@,
            bound,
            need as int,
        )->Ok_0);
        while missing > 0
            invariant
                missing <= u32::MAX,
                goal == selection(self@, bound, need as int),
                goal == (match selection(self@, limit, missing as int) {
                    Ok(rest) => Ok::<Seq<usize>, Error>(selected@ + rest),
                    Err(e) => Err::<Seq<usize>, Error>(e),
                }),
            decreases limit,
        {
            let i = match self.nearest_data_before(limit) {
                Some(i) => i,
                None => {
                    return Err(Error::MakerNoteNoSpace);
                },
            };
            let entry = self.locations[i].entry;
            let len = entry.data_len()?;
            let ghost previous = selected@;
            selected.push(i);
            limit = entry.value_offset.u32();
            missing = missing - len as i64;
            proof {
                match selection(self@, limit, missing as int) {
                    Ok(rest) => {
                        assert(previous + (seq![i] + rest) =~= selected@ + rest);
                    },
                    Err(_) => {},
                }
            }
        }
        assert(selected@ + Seq::<usize>::empty() =~= selected@);
        Ok(selected)
    }

    /// Points the records to where their data has gone; after an error the
    /// document may be left half changed.
    fn retarget_in_place(&mut self, start: u32, end: u32, to: u32) -> (done: Result<(), Error>)
        ensures
            match retarget_records(old(self)@, start, end, to, old(self)@.records.len()) {
                Ok(doc) => done is Ok && final(self)@ == doc,
                Err(e) => done == Err::<(), Error>(e),
            },
    {
        let ghost begin = self@;
        let n = self.locations.len();
        let mut i: usize = 0;
        while i < n
            invariant
                i <= n,
                n == begin.records.len(),
                begin == old(self)@,
                self@.records.len() == n,
                retarget_records(begin, start, end, to, i as nat) == Ok::<Doc, Error>(self@),
            decreases n - i,
        {
            let record = self.locations[i];
            if let ValueOffset::Offset(offset) = record.entry.value_offset {
                if start <= offset && offset < end {
                    let target: u64 = to as u64 + (offset - start) as u64;
                    if target > u32::MAX as u64 {
                        proof {
                            retarget_records_fail(begin, start, end, to, i as nat, n as nat);
                        }
                        return Err(Error::AdditionOverflow);
                    }
                    if record.entry.position as u64 + 12 > self.raw.buffer.len() as u64 {
                        proof {
                            retarget_records_fail(begin, start, end, to, i as nat, n as nat);
                        }
                        return Err(Error::Io);
                    }
                    self.raw.cursor = record.entry.position as u64 + 8;
                    let _ = self.raw.write_u32(target as u32);
                    let mut entry = record.entry;
                    entry.value_offset = ValueOffset::Offset(target as u32);
                    self.locations[i] = Located { tagifd: record.tagifd, entry };
                }
            }
            i += 1;
        }
        Ok(())
    }

    /// Moves the bytes of `start..end` to `to`; after an error the document
    /// may be left half changed.
    fn move_datum_in_place(&mut self, start: u32, end: u32, to: u32) -> (done: Result<(), Error>)
        ensures
            match relocated(old(self)@, start, end, to) {
                Ok(doc) => done is Ok && final(self)@ == doc,
                Err(e) => done == Err::<(), Error>(e),
            },
    {
        if end < start {
            return Err(Error::SubstractionOverflowError);
        }
        if to < end {
            return Err(Error::OffsetInvalid(to as i64));
        }
        if to as u64 > self.raw.buffer.len() as u64 {
            return Err(Error::EntryEof);
        }
        let len = end - start;
        let data = self.raw.get(start, len).unwrap();
        // Overwrite old data with zeros
        let zeroed = zero_vec(len as usize);
        let _ = self.raw.seek_start(start);
        let _ = self.raw.write_all(zeroed.as_slice());
        splice_in(&mut self.raw.buffer, to as usize, data);
        self.shift_in_place(to, len as i64)?;
        self.retarget_in_place(start, end, to)
    }

    /// Moves the out-of-line data of the record `index` to `new_position`;
    /// after an error the document may be left half changed.
    fn move_entry_in_place(&mut self, index: usize, new_position: u32) -> (done: Result<
        (),
        Error,
    >)
        ensures
            match moved_entry(old(self)@, index as int, new_position) {
                Ok(doc) => done is Ok && final(self)@ == doc,
                Err(e) => done == Err::<(), Error>(e),
            },
    {
        if index >= self.locations.len() {
            return Err(Error::EntryNotFound);
        }
        let entry = self.locations[index].entry;
        let offset = match entry.value_offset {
            ValueOffset::Offset(offset) => offset,
            ValueOffset::Value(_) => {
                return Err(Error::EntryNotFound);
            },
        };
        let len = entry.data_len()?;
        let end = match offset.checked_add(len) {
            Some(end) => end,
            None => {
                return Err(Error::AdditionOverflow);
            },
        };
        self.move_datum_in_place(offset, end, new_position)
    }

    /// Frees space before `before_position`; after an error the document
    /// may be left half changed.
    fn freeup_in_place(&mut self, before_position: u32, len: u32, post_here: u32) -> (done: Result<
        (),
        Error,
    >)
        ensures
            match old(self)@.freed_up(before_position, len, post_here) {
                Ok(doc) => done is Ok && final(self)@ == doc,
                Err(e) => done == Err::<(), Error>(e),
            },
    {
        let ghost begin = self@;
        let to_move = self.select_before(before_position, len)?;
        let n = to_move.len();
        let mut k: usize = 0;
        while k < n
            invariant
                k <= n,
                n == to_move@.len(),
                begin == old(self)@,
                selection(begin, before_position, len as int) == Ok::<Seq<usize>, Error>(to_move@),
                moves(begin, to_move@, post_here, k as nat) == Ok::<Doc, Error>(self@),
            decreases n - k,
        {
            match self.move_entry_in_place(to_move[k], post_here) {
                Ok(_) => {},
                Err(e) => {
                    proof {
                        moves_fail(begin, to_move@, post_here, k as nat, n as nat);
                    }
                    return Err(e);
                },
            }
            k += 1;
        }
        Ok(())
    }

    /// Whether no header of a record and no pointer to a directory has a
    /// byte in `from..to`.
    pub fn is_clear(&self, from: u32, to: u32) -> (clear: bool)
        ensures
            clear == self@.structures_clear(from as int, to as int),
    {
        let n = self.locations.len();
        let mut i: usize = 0;
        while i < n
            invariant
                i <= n,
                n == self@.records.len(),
                forall|j: int|
                    0 <= j < i ==> (#[trigger] self@.records[j]).entry.position + 12 <= from
                        || self@.records[j].entry.position >= to,
            decreases n - i,
        {
            let position = self.locations[i].entry.position;
            if !(position as u64 + 12 <= from as u64 || position >= to) {
                return false;
            }
            i += 1;
        }
        let mut k: usize = 0;
        while k < 6
            invariant
                k <= 6,
                forall|j: int|
                    0 <= j < self@.records.len() ==> (#[trigger] self@.records[j]).entry.position
                        + 12 <= from || self@.records[j].entry.position >= to,
                forall|j: int|
                    0 <= j < k ==> match #[trigger] self@.ifds.spec_get(
                        crate::exif::edit::ifd_number(j),
                    ) {
                        Some(location) => location + 4 <= from || location >= to,
                        None => true,
                    },
            decreases 6 - k,
        {
            if let Some(location) = self.ifd_locations.get(crate::exif::edit::ifd_of(k)) {
                if !(location as u64 + 4 <= from as u64 || location >= to) {
                    return false;
                }
            }
            k += 1;
        }
        true
    }

    /// Takes the `len` bytes right before the maker note out; after an
    /// error the document may be left half changed.
    fn drain_in_place(&mut self, insert_position: u32, len: u32) -> (done: Result<(), Error>)
        ensures
            match old(self)@.drained_before_makernote(insert_position, len) {
                Ok(doc) => done is Ok && final(self)@ == doc,
                Err(e) => done == Err::<(), Error>(e),
            },
    {
        let entry = match self.makernote_entry() {
            Some(entry) => entry,
            None => {
                return Err(Error::EntryNotFound);
            },
        };
        let offset = match entry.value_offset {
            ValueOffset::Offset(offset) => offset,
            ValueOffset::Value(_) => {
                return Err(Error::EntryNotFound);
            },
        };
        let end = self.last_data_end_before(offset)?;
        if offset < len || end > offset - len || insert_position as u64 + 4 > (offset - len) as u64
            || offset as u64 > self.raw.buffer.len() as u64 {
            return Err(Error::MakerNoteNoSpace);
        }
        let start = offset - len;
        if !self.is_clear(start, offset) {
            return Err(Error::MakerNoteNoSpace);
        }
        drain_out(&mut self.raw.buffer, start as usize, len as usize);
        self.shift_in_place(start, -(len as i64))
    }

    /// Prepares the document for an insertion; after an error the document
    /// may be left half changed.
    pub(crate) fn guard_in_place(&mut self, insert_position: u32, len: u32) -> (done: Result<(), Error>)
        ensures
            match old(self)@.guarded(insert_position, len) {
                Ok(doc) => done is Ok && final(self)@ == doc,
                Err(e) => done == Err::<(), Error>(e),
            },
    {
        if !self.makernote {
            return Ok(());
        }
        let makernote_entry = match self.makernote_entry() {
            Some(entry) => entry,
            None => {
                return Ok(());
            },
        };
        if let ValueOffset::Offset(makernote_offset) = makernote_entry.value_offset {
            if makernote_offset >= insert_position {
                let makernote_len = makernote_entry.data_len()?;
                let post_here = match makernote_offset.checked_add(makernote_len) {
                    Some(end) => end,
                    None => {
                        return Err(Error::AdditionOverflow);
                    },
                };
                let free = self.free_space_before(makernote_offset)?;
                if free < len {
                    self.freeup_in_place(makernote_offset, len, post_here)?;
                }
                return self.drain_in_place(insert_position, len);
            }
        }
        Ok(())
    }

    /// Whether `after` is this document with the bytes of `start..end`
    /// moved to `to`.
    pub fn is_moved_in(&self, after: &ExifRaw, start: u32, end: u32, to: u32) -> (moved: bool)
        ensures
            moved == moved_to(self@, after@, start, end, to),
    {
        let old_len = self.raw.buffer.len();
        let new_len = after.raw.buffer.len();
        if !(start <= end && end <= to) || to as u64 > old_len as u64 {
            return false;
        }
        let n = (end - start) as usize;
        if new_len < n || new_len - n != old_len {
            return false;
        }
        let was = vstd::slice::slice_subrange(self.raw.buffer.as_slice(), start as usize, end as usize);
        let now = vstd::slice::slice_subrange(
            after.raw.buffer.as_slice(),
            to as usize,
            to as usize + n,
        );
        let left = vstd::slice::slice_subrange(
            after.raw.buffer.as_slice(),
            start as usize,
            end as usize,
        );
        same_bytes(now, was) && all_zero(left) && self.is_intact_in(after)
    }

    /// Moves the bytes of `start..end` to `new_position`, which must lie at
    /// or behind `end`, and lets every offset follow. Afterwards the bytes
    /// stand at `new_position`, zeros stand in their old place, and every
    /// record reads the data that it read. Where that cannot be had,
    /// nothing changes.
    pub fn move_datum(&mut self, start: u32, end: u32, new_position: u32) -> (done: Result<
        (),
        Error,
    >)
        ensures
            match relocation(old(self)@, start, end, new_position) {
                Ok(doc) => done is Ok && final(self)@ == doc,
                Err(e) => done == Err::<(), Error>(e) && final(self)@ == old(self)@,
            },
            done is Ok ==> moved_to(old(self)@, final(self)@, start, end, new_position),
    {
        let mut work = self.snapshot();
        work.move_datum_in_place(start, end, new_position)?;
        if !self.is_moved_in(&work, start, end, new_position) {
            return Err(Error::EntryNotFound);
        }
        *self = work;
        Ok(())
    }

    /// Moves the out-of-line data of the record `index` of the index to
    /// `new_position`. Afterwards the data stands at `new_position`, zeros
    /// stand in its old place, and every record reads the data that it
    /// read. Where that cannot be had, nothing changes.
    pub fn move_entry(&mut self, index: usize, new_position: u32) -> (done: Result<(), Error>)
        ensures
            match entry_relocation(old(self)@, index as int, new_position) {
                Ok(doc) => done is Ok && final(self)@ == doc,
                Err(e) => done == Err::<(), Error>(e) && final(self)@ == old(self)@,
            },
            done is Ok ==> intact(old(self)@, final(self)@),
    {
        let mut work = self.snapshot();
        work.move_entry_in_place(index, new_position)?;
        let entry = self.locations[index].entry;
        let start = entry.value_offset.u32();
        let end = start + entry.count * entry.data_type.size();
        if !self.is_moved_in(&work, start, end, new_position) {
            return Err(Error::EntryNotFound);
        }
        *self = work;
        Ok(())
    }

    /// Tries to free up `len` space
    ///
    /// Moves out-of-line data that starts before `before_position` to
    /// `post_here`, the nearest first, until at least `len` bytes were
    /// moved. Afterwards at least `len` bytes are free before
    /// `before_position`, and every record reads the data that it read.
    /// Where too little data precedes `before_position`, or that cannot be
    /// had, nothing changes.
    pub fn freeup_space_before(&mut self, before_position: u32, len: u32, post_here: u32) -> (done:
        Result<(), Error>)
        ensures
            match freeing(old(self)@, before_position, len, post_here) {
                Ok(doc) => done is Ok && final(self)@ == doc,
                Err(e) => done == Err::<(), Error>(e) && final(self)@ == old(self)@,
            },
            done is Ok ==> intact(old(self)@, final(self)@) && has_room(
                final(self)@,
                before_position,
                len,
            ),
    {
        let mut work = self.snapshot();
        work.freeup_in_place(before_position, len, post_here)?;
        if !self.is_intact_in(&work) {
            return Err(Error::EntryNotFound);
        }
        let room = match work.free_space_before(before_position) {
            Ok(free) => free >= len,
            Err(_) => false,
        };
        if !room {
            return Err(Error::MakerNoteNoSpace);
        }
        *self = work;
        Ok(())
    }

    /// Whether `after`, which the guard has made of this document, is
    /// prepared for the insertion.
    fn is_prepared_in(&self, after: &ExifRaw, insert_position: u32, len: u32) -> (yes: bool)
        requires
            self@.guarded(insert_position, len) == Ok::<Doc, Error>(after@),
        ensures
            yes == prepared(self@, after@, insert_position, len),
    {
        if !self.makernote {
            return true;
        }
        let offset = match self.makernote_entry() {
            Some(entry) => match entry.value_offset {
                ValueOffset::Offset(offset) => offset,
                ValueOffset::Value(_) => {
                    return true;
                },
            },
            None => {
                return true;
            },
        };
        if offset < insert_position {
            return true;
        }
        if offset < len {
            return false;
        }
        let lies = match after.makernote_entry() {
            Some(entry) => match entry.value_offset {
                ValueOffset::Offset(now) => now == offset - len,
                ValueOffset::Value(_) => false,
            },
            None => false,
        };
        lies && after.is_faithful()
    }

    /// The guard that keeps the maker note in place: prepares the document
    /// for an insertion of `len` bytes at `insert_position`, so that the
    /// insertion brings the maker note back to where it was. Where it has
    /// to act, the maker note lies `len` bytes earlier afterwards. Where
    /// the maker note cannot be protected, nothing changes.
    pub fn makernote_handle_insert(&mut self, insert_position: u32, len: u32) -> (done: Result<
        (),
        Error,
    >)
        ensures
            match guarding(old(self)@, insert_position, len) {
                Ok(doc) => done is Ok && final(self)@ == doc,
                Err(e) => done == Err::<(), Error>(e) && final(self)@ == old(self)@,
            },
            done is Ok ==> prepared(old(self)@, final(self)@, insert_position, len),
    {
        let mut work = self.snapshot();
        work.guard_in_place(insert_position, len)?;
        if !self.is_prepared_in(&work, insert_position, len) {
            return Err(Error::MakerNoteNoSpace);
        }
        *self = work;
        Ok(())
    }

    /// Reads the maker note as a directory and registers it.
    ///
    /// Where its directory cannot be read, the error is returned and the
    /// document stays as it is.
    pub fn makernote_register(&mut self) -> (done: Result<(), Error>)
        ensures
            match old(self)@.registered() {
                Ok(doc) => done is Ok && final(self)@ == doc,
                Err(e) => done == Err::<(), Error>(e) && final(self)@ == old(self)@,
            },
            old(self)@.faithful() ==> final(self)@.faithful(),
    {
        if let Some(entry) = self.makernote_entry() {
            if let ValueOffset::Offset(offset) = entry.value_offset {
                if let Some(internal_offset) = self.makernote_guess_offset() {
                    if self.ifd_locations.get(Ifd::MakerNote).is_some() {
                        return Ok(());
                    }
                    let start = match offset.checked_add(internal_offset) {
                        Some(start) => start,
                        None => {
                            return Err(Error::AdditionOverflow);
                        },
                    };
                    let offset_location = match entry.position.checked_add(8) {
                        Some(location) => location,
                        None => {
                            return Err(Error::AdditionOverflow);
                        },
                    };
                    let _ = self.raw.seek_start(start);
                    let location_before = self.ifd_locations;
                    self.ifd_locations.set(Ifd::MakerNote, Some(offset_location));
                    match self.decode_ifd_entries(Ifd::MakerNote) {
                        Err(e) => {
                            self.ifd_locations = location_before;
                            return Err(e);
                        },
                        Ok(_) => {},
                    }
                    if self.validate_ifd(Ifd::MakerNote).is_ok() {
                        self.makernote = true;
                    }
                }
            }
        }
        Ok(())
    }
}

/// Where the first `k` records pass and the next one fails, the whole
/// directory fails in the same way.
pub proof fn validated_fails(doc: Doc, ifd: Ifd, k: nat, n: nat)
    requires
        k < n,
        validated(doc, ifd, k) is Ok,
        doc.records[k as int].tagifd.ifd == ifd,
        doc.data(doc.records[k as int].tagifd) is Err,
    ensures
        validated(doc, ifd, n) == Err::<(), Error>(doc.data(doc.records[k as int].tagifd)->Err_0),
    decreases n,
{
    if n - 1 > k {
        validated_fails(doc, ifd, k, (n - 1) as nat);
    }
}

/// Where retargeting reaches the first `k` records and fails at the next
/// one, it fails in the same way however far it is meant to go.
pub proof fn retarget_records_fail(doc: Doc, start: u32, end: u32, to: u32, k: nat, n: nat)
    requires
        k < n,
        retarget_records(doc, start, end, to, k) is Ok,
        retarget_record(retarget_records(doc, start, end, to, k)->Ok_0, k as int, start, end, to)
            is Err,
    ensures
        retarget_records(doc, start, end, to, n) == Err::<Doc, Error>(
            retarget_record(
                retarget_records(doc, start, end, to, k)->Ok_0,
                k as int,
                start,
                end,
                to,
            )->Err_0,
        ),
    decreases n,
{
    if n - 1 > k {
        retarget_records_fail(doc, start, end, to, k, (n - 1) as nat);
    }
}

/// Where the first `k` moves work and the next one fails, the moves fail in
/// the same way however many are meant.
pub proof fn moves_fail(doc: Doc, selected: Seq<usize>, to: u32, k: nat, n: nat)
    requires
        k < n,
        moves(doc, selected, to, k) is Ok,
        moved_entry(moves(doc, selected, to, k)->Ok_0, selected[k as int] as int, to) is Err,
    ensures
        moves(doc, selected, to, n) == Err::<Doc, Error>(
            moved_entry(moves(doc, selected, to, k)->Ok_0, selected[k as int] as int, to)->Err_0,
        ),
    decreases n,
{
    if n - 1 > k {
        moves_fail(doc, selected, to, k, (n - 1) as nat);
    }
}

} // verus!
