//! The mutation engine: overwriting values, and inserting entries while
//! every stored offset is kept valid.
use vstd::prelude::*;
use crate::common::exif::{Ifd, Tag, TagIfd};
use crate::exif::bytes::{
    overwrite, splice_in, spliced, u16_at, u16_bytes, u16_to_bytes, u32_at, u32_bytes, u32_to_bytes,
    zero_vec, zeros,
};
use crate::exif::document::{first_record, record_matches, Doc, ExifRaw, IfdLocations, Located};
use crate::exif::entry::{entry_at, EntryRef, ValueOffset};
use crate::exif::error::Error;
use crate::exif::field_type::Type;
use crate::exif::lookup::data_of;
use crate::exif::makernote::makernote_key;

verus! {

/// Where a 32-bit position or offset `x` lies after `len` bytes were
/// inserted at `at` (or, with a negative `len`, removed there): moved by
/// `len` if it lies at or behind `at`, unchanged before it.
pub open spec fn shifted_u32(x: u32, at: u32, len: int) -> Result<u32, Error> {
    if x < at {
        Ok(x)
    } else if 0 <= x + len <= u32::MAX {
        Ok((x + len) as u32)
    } else {
        Err(Error::ConversionOverflowError)
    }
}

impl ValueOffset {
    /// The same kind of slot with another number in it.
    pub open spec fn with_raw(self, raw: u32) -> ValueOffset {
        match self {
            ValueOffset::Value(_) => ValueOffset::Value(raw),
            ValueOffset::Offset(_) => ValueOffset::Offset(raw),
        }
    }

    /// The same kind of slot with another number in it.
    pub fn replace(&self, raw: u32) -> (slot: ValueOffset)
        ensures
            slot == self.with_raw(raw),
    {
        match self {
            ValueOffset::Value(_) => ValueOffset::Value(raw),
            ValueOffset::Offset(_) => ValueOffset::Offset(raw),
        }
    }
}

/// The document after the shift has reached the record `i`: its position
/// is shifted, and so is its offset, which is also written to its slot.
pub open spec fn shift_record(doc: Doc, i: int, at: u32, len: int) -> Result<Doc, Error> {
    let record = doc.records[i];
    match shifted_u32(record.entry.position, at, len) {
        Err(e) => Err(e),
        Ok(position) => if record.entry.value_offset is Offset && record.entry.value_offset.raw()
            >= at {
            match shifted_u32(record.entry.value_offset.raw(), at, len) {
                Err(e) => Err(e),
                Ok(offset) => if position + 12 > doc.bytes.len() {
                    Err(Error::Io)
                } else {
                    Ok(
                        Doc {
                            bytes: overwrite(
                                doc.bytes,
                                position + 8,
                                u32_bytes(offset, doc.big_endian),
                            ),
                            records: doc.records.update(
                                i,
                                Located {
                                    tagifd: record.tagifd,
                                    entry: EntryRef {
                                        position,
                                        value_offset: ValueOffset::Offset(offset),
                                        ..record.entry
                                    },
                                },
                            ),
                            ..doc
                        },
                    )
                },
            }
        } else {
            Ok(
                Doc {
                    records: doc.records.update(
                        i,
                        Located { tagifd: record.tagifd, entry: EntryRef { position, ..record.entry } },
                    ),
                    ..doc
                },
            )
        },
    }
}

/// The document after the shift has reached the first `k` records.
pub open spec fn shift_records(doc: Doc, at: u32, len: int, k: nat) -> Result<Doc, Error>
    decreases k,
{
    if k == 0 {
        Ok(doc)
    } else {
        match shift_records(doc, at, len, (k - 1) as nat) {
            Err(e) => Err(e),
            Ok(reached) => shift_record(reached, k - 1, at, len),
        }
    }
}

/// The directories in their order.
pub open spec fn ifd_number(k: int) -> Ifd {
    if k == 0 {
        Ifd::Primary
    } else if k == 1 {
        Ifd::Thumbnail
    } else if k == 2 {
        Ifd::Exif
    } else if k == 3 {
        Ifd::Gps
    } else if k == 4 {
        Ifd::Interoperability
    } else {
        Ifd::MakerNote
    }
}

/// What the shift does to the pointer of a directory: where its slot lies
/// afterwards and what it holds then. Both are shifted like every other
/// position; the pointer is the one that the slot holds before the shift
/// writes anything.
pub open spec fn pointer_plan(doc: Doc, ifd: Ifd, at: u32, len: int) -> Result<
    Option<(u32, u32)>,
    Error,
> {
    match doc.ifds.spec_get(ifd) {
        None => Ok(None),
        Some(location) => match shifted_u32(location, at, len) {
            Err(e) => Err(e),
            Ok(slot) => if slot + 4 > doc.bytes.len() {
                Err(Error::Io)
            } else {
                match shifted_u32(u32_at(doc.bytes, slot as int, doc.big_endian), at, len) {
                    Err(e) => Err(e),
                    Ok(pointer) => Ok(Some((slot, pointer))),
                }
            },
        },
    }
}

/// The plans for the first `k` directories.
pub open spec fn pointer_plans(doc: Doc, at: u32, len: int, k: nat) -> Result<
    Seq<Option<(u32, u32)>>,
    Error,
>
    decreases k,
{
    if k == 0 {
        Ok(Seq::empty())
    } else {
        match pointer_plans(doc, at, len, (k - 1) as nat) {
            Err(e) => Err(e),
            Ok(plans) => match pointer_plan(doc, ifd_number(k - 1), at, len) {
                Err(e) => Err(e),
                Ok(plan) => Ok(plans.push(plan)),
            },
        }
    }
}

/// The index after the slot at `slot` was given the number `value`: every
/// record with that slot holds the number.
pub open spec fn with_slot(records: Seq<Located>, slot: u32, value: u32) -> Seq<Located> {
    Seq::new(
        records.len(),
        |i: int|
            if records[i].entry.position + 8 == slot {
                Located {
                    tagifd: records[i].tagifd,
                    entry: EntryRef {
                        value_offset: records[i].entry.value_offset.with_raw(value),
                        ..records[i].entry
                    },
                }
            } else {
                records[i]
            },
    )
}

/// The document after the plan for a directory was carried out.
pub open spec fn apply_plan(doc: Doc, ifd: Ifd, plan: Option<(u32, u32)>) -> Doc {
    match plan {
        None => doc,
        Some((slot, pointer)) => Doc {
            bytes: overwrite(doc.bytes, slot as int, u32_bytes(pointer, doc.big_endian)),
            records: with_slot(doc.records, slot, pointer),
            ifds: doc.ifds.with(ifd, Some(slot)),
            ..doc
        },
    }
}

/// The document after the plans for the first `k` directories were carried
/// out.
pub open spec fn apply_plans(doc: Doc, plans: Seq<Option<(u32, u32)>>, k: nat) -> Doc
    decreases k,
{
    if k == 0 {
        doc
    } else {
        apply_plan(apply_plans(doc, plans, (k - 1) as nat), ifd_number(k - 1), plans[k - 1])
    }
}

/// Offset propagation: the document after every position and offset at or
/// behind `at` was moved by `len`, in the index and in the bytes.
///
/// The bytes themselves are taken to be in their new places already. Every
/// record's position is shifted; so is every out-of-line offset, and every
/// location of a directory together with the pointer stored there. Each
/// shifted offset or pointer is written to its slot.
pub open spec fn shifted(doc: Doc, at: u32, len: int) -> Result<Doc, Error> {
    match pointer_plans(doc, at, len, 6) {
        Err(e) => Err(e),
        Ok(plans) => match shift_records(doc, at, len, doc.records.len()) {
            Err(e) => Err(e),
            Ok(reached) => Ok(apply_plans(reached, plans, 6)),
        },
    }
}

/// The shift of records changes neither the length of the bytes, nor the
/// number of records, nor the byte order, the locations or the flag.
pub proof fn shift_records_keeps(doc: Doc, at: u32, len: int, k: nat)
    requires
        k <= doc.records.len(),
        shift_records(doc, at, len, k) is Ok,
    ensures
        ({
            let reached = shift_records(doc, at, len, k)->Ok_0;
            &&& reached.bytes.len() == doc.bytes.len()
            &&& reached.records.len() == doc.records.len()
            &&& reached.big_endian == doc.big_endian
            &&& reached.ifds == doc.ifds
            &&& reached.makernote == doc.makernote
            &&& forall|i: int| k <= i < doc.records.len() ==> reached.records[i] == doc.records[i]
        }),
    decreases k,
{
    if k > 0 {
        shift_records_keeps(doc, at, len, (k - 1) as nat);
    }
}

/// An entry whose slot is given the number `value`: it keeps its position,
/// its type, its count and the kind of its slot.
pub open spec fn rewritten(entry: EntryRef, value: u32) -> EntryRef {
    EntryRef { value_offset: entry.value_offset.with_raw(value), ..entry }
}

/// The document after the overwrite has reached the first `k` records:
/// every record with the key holds `value` in its slot, in the index and,
/// as a 32-bit integer in the byte order of the document, in the bytes.
pub open spec fn overwritten(doc: Doc, tagifd: TagIfd, value: u32, k: nat) -> Doc
    decreases k,
{
    if k == 0 {
        doc
    } else {
        let reached = overwritten(doc, tagifd, value, (k - 1) as nat);
        let record = reached.records[k - 1];
        if record.tagifd == tagifd {
            let entry = rewritten(record.entry, value);
            Doc {
                bytes: overwrite(
                    reached.bytes,
                    record.entry.position + 8,
                    u32_bytes(value, reached.big_endian),
                ),
                records: reached.records.update(k - 1, Located { tagifd, entry }),
                ..reached
            }
        } else {
            reached
        }
    }
}

/// Whether the header of every record with the key among the first `k`
/// lies inside the bytes.
pub open spec fn slots_inside(doc: Doc, tagifd: TagIfd, k: nat) -> bool {
    forall|i: int|
        0 <= i < k && (#[trigger] doc.records[i]).tagifd == tagifd ==> doc.records[i].entry.position
            + 12 <= doc.bytes.len()
}

/// What overwriting the value of the entries with the given key does.
///
/// There must be such an entry, and the slot of each must lie inside the
/// bytes. The outcome is accepted only if the index still says what the
/// bytes say.
pub open spec fn set_plan(doc: Doc, tagifd: TagIfd, value: u32) -> Result<Doc, Error> {
    if doc.entry(tagifd) is None {
        Err(Error::TagNotFound(tagifd))
    } else if !slots_inside(doc, tagifd, doc.records.len()) {
        Err(Error::Io)
    } else if !overwritten(doc, tagifd, value, doc.records.len()).faithful() {
        Err(Error::EntryNotFound)
    } else {
        Ok(overwritten(doc, tagifd, value, doc.records.len()))
    }
}

/// Where the directory `ifd` lies, how many entries it has and where they
/// end.
pub open spec fn directory_of(doc: Doc, ifd: Ifd) -> Result<(u32, u16, u32), Error> {
    match doc.ifds.spec_get(ifd) {
        None => Err(Error::IfdNotFound),
        Some(location) => if location + 4 > doc.bytes.len() {
            Err(Error::Io)
        } else {
            let offset = u32_at(doc.bytes, location as int, doc.big_endian);
            if offset + 2 > doc.bytes.len() {
                Err(Error::Io)
            } else {
                let n = u16_at(doc.bytes, offset as int, doc.big_endian);
                if offset + 2 + 12 * n > u32::MAX || n == u16::MAX {
                    Err(Error::AdditionOverflow)
                } else {
                    Ok((offset, n, (offset + 2 + 12 * n) as u32))
                }
            }
        },
    }
}

/// The twelve bytes of an entry header.
pub open spec fn entry_bytes(tag: Tag, value: EntryRef, big_endian: bool) -> Seq<u8> {
    u16_bytes(tag.0, big_endian) + u16_bytes(value.data_type.code(), big_endian) + u32_bytes(
        value.count,
        big_endian,
    ) + u32_bytes(value.value_offset.raw(), big_endian)
}

/// The document after the directory at `offset`, whose `n` entries ended at
/// `end` before twelve bytes were inserted there, was given its new entry:
/// the number of entries becomes `n + 1`, the header of the new entry is
/// written at `end`, and what is read back there joins the index.
pub open spec fn entry_written(
    doc: Doc,
    tagifd: TagIfd,
    value: EntryRef,
    offset: u32,
    n: u16,
    end: u32,
) -> Result<Doc, Error> {
    if offset + 2 > doc.bytes.len() || end + 12 > doc.bytes.len() {
        Err(Error::Io)
    } else {
        let bytes = overwrite(
            overwrite(doc.bytes, offset as int, u16_bytes((n + 1) as u16, doc.big_endian)),
            end as int,
            entry_bytes(tagifd.tag, value, doc.big_endian),
        );
        match entry_at(bytes, doc.big_endian, end as int) {
            Err(e) => Err(e),
            Ok((_, entry)) => Ok(
                Doc { bytes, records: doc.records.push(Located { tagifd, entry }), ..doc },
            ),
        }
    }
}

/// The document after the directory at `offset` with `n` entries that end
/// at `end` was given one more: twelve bytes are inserted at `end`, every
/// offset follows, and the entry is written there.
pub open spec fn grown(doc: Doc, tagifd: TagIfd, value: EntryRef, offset: u32, n: u16, end: u32) -> Result<
    Doc,
    Error,
> {
    if end > doc.bytes.len() {
        Err(Error::Io)
    } else {
        match shifted(
            Doc { bytes: spliced(doc.bytes, end as int, zeros(12)), ..doc },
            end,
            12,
        ) {
            Err(e) => Err(e),
            Ok(propagated) => entry_written(propagated, tagifd, value, offset, n, end),
        }
    }
}

/// Whether `slot` is where the pointer to one of the directories lies.
pub open spec fn is_pointer_slot(ifds: IfdLocations, slot: int) -> bool {
    exists|k: int| 0 <= k < 6 && #[trigger] ifds.spec_get(ifd_number(k)) == Some(slot as u32)
}

/// Whether the slot of an entry holds the pointer to one of the
/// directories.
pub open spec fn points_to_directory(ifds: IfdLocations, entry: EntryRef) -> bool {
    entry.position + 8 <= u32::MAX && is_pointer_slot(ifds, entry.position + 8)
}

/// The record `after` stands for the record `before` of an earlier state of
/// the document: it has the same key, type, count and kind of slot;
/// out-of-line data that could be read before reads the same now; an
/// inline value is the same, unless it is the pointer to a directory, which
/// follows the directory; and it is such a pointer exactly if it was one.
pub open spec fn record_kept(before: Doc, after: Doc, old_record: Located, new_record: Located) -> bool {
    &&& new_record.tagifd == old_record.tagifd
    &&& new_record.entry.data_type == old_record.entry.data_type
    &&& new_record.entry.count == old_record.entry.count
    &&& new_record.entry.value_offset is Offset == old_record.entry.value_offset is Offset
    &&& (old_record.entry.value_offset is Offset && data_of(before, old_record.entry) is Ok
        ==> data_of(after, new_record.entry) == data_of(before, old_record.entry))
    &&& (old_record.entry.value_offset is Value && !points_to_directory(
        after.ifds,
        new_record.entry,
    ) ==> new_record.entry.value_offset == old_record.entry.value_offset)
    &&& points_to_directory(after.ifds, new_record.entry) == points_to_directory(
        before.ifds,
        old_record.entry,
    )
}

/// The first `k` records of `before` are kept in `after`.
pub open spec fn records_kept(before: Doc, after: Doc, k: nat) -> bool {
    forall|i: int|
        0 <= i < k ==> record_kept(before, after, #[trigger] before.records[i], after.records[i])
}

/// `after` is `before` with one more record: the byte order is the same,
/// all records of `before` are kept, in their order, and one record follows
/// them.
pub open spec fn grown_from(before: Doc, after: Doc) -> bool {
    &&& after.big_endian == before.big_endian
    &&& after.records.len() == before.records.len() + 1
    &&& records_kept(before, after, before.records.len())
}

/// `after` holds what `before` holds: its index says what its bytes say,
/// it has the byte order and as many records, and every record of `before`
/// is kept.
pub open spec fn intact(before: Doc, after: Doc) -> bool {
    &&& after.faithful()
    &&& after.big_endian == before.big_endian
    &&& after.records.len() == before.records.len()
    &&& records_kept(before, after, before.records.len())
}

/// A registered maker note is where it was, and the data of its entries
/// still resolves.
pub open spec fn makernote_fixed(before: Doc, after: Doc) -> bool {
    &&& match before.registered_makernote() {
        Some(entry) => entry.value_offset is Offset ==> after.makernote_entry() is Some
            && after.makernote_entry()->Some_0.value_offset == entry.value_offset,
        None => true,
    }
    &&& before.makernote ==> after.makernote && after.valid_ifd(Ifd::MakerNote) is Ok
}

/// What inserting an entry with the key `tagifd` does.
///
/// The directory must have a location. The guard prepares the document for
/// twelve more bytes at the end of the directory's entries, then the
/// directory grows by the entry, whose value stands at the start of its
/// slot if it is shorter than the slot. The outcome is accepted only if the index
/// still says what the bytes say, every earlier record is kept and the maker
/// note is where it was.
pub open spec fn inserted(doc: Doc, tagifd: TagIfd, value: EntryRef) -> Result<Doc, Error> {
    match directory_of(doc, tagifd.ifd) {
        Err(e) => Err(e),
        Ok((offset, n, end)) => match doc.guarded(end, 12) {
            Err(e) => Err(e),
            Ok(guarded) => match grown(
                guarded,
                tagifd,
                value.justified(doc.big_endian),
                offset,
                n,
                end,
            ) {
                Err(e) => Err(e),
                Ok(after) => if !after.faithful() || !grown_from(doc, after) {
                    Err(Error::EntryNotFound)
                } else if !makernote_fixed(doc, after) {
                    Err(Error::MakerNoteNoSpace)
                } else {
                    Ok(after)
                },
            },
        },
    }
}

/// The directories in their order.
pub fn ifd_of(k: usize) -> (ifd: Ifd)
    ensures
        ifd == ifd_number(k as int),
{
    if k == 0 {
        Ifd::Primary
    } else if k == 1 {
        Ifd::Thumbnail
    } else if k == 2 {
        Ifd::Exif
    } else if k == 3 {
        Ifd::Gps
    } else if k == 4 {
        Ifd::Interoperability
    } else {
        Ifd::MakerNote
    }
}

/// Where `x` lies after `len` bytes were inserted at `at`.
pub fn shift_u32(x: u32, at: u32, len: i64) -> (moved: Result<u32, Error>)
    ensures
        moved == shifted_u32(x, at, len as int),
{
    if x < at {
        Ok(x)
    } else {
        let sum: i128 = x as i128 + len as i128;
        if 0 <= sum && sum <= u32::MAX as i128 {
            Ok(sum as u32)
        } else {
            Err(Error::ConversionOverflowError)
        }
    }
}

/// Whether two byte strings are the same.
pub fn same_bytes(a: &[u8], b: &[u8]) -> (same: bool)
    ensures
        same == (a@ == b@),
{
    if a.len() != b.len() {
        return false;
    }
    let mut i: usize = 0;
    while i < a.len()
        invariant
            i <= a@.len(),
            a@.len() == b@.len(),
            forall|j: int| 0 <= j < i ==> a@[j] == b@[j],
        decreases a@.len() - i,
    {
        if a[i] != b[i] {
            return false;
        }
        i += 1;
    }
    assert(a@ =~= b@);
    true
}

/// Whether all the bytes are zero.
pub fn all_zero(bytes: &[u8]) -> (yes: bool)
    ensures
        yes == (bytes@ == zeros(bytes@.len())),
{
    let mut i: usize = 0;
    while i < bytes.len()
        invariant
            i <= bytes@.len(),
            forall|j: int| 0 <= j < i ==> bytes@[j] == 0,
        decreases bytes@.len() - i,
    {
        if bytes[i] != 0 {
            assert(zeros(bytes@.len())[i as int] == 0);
            return false;
        }
        i += 1;
    }
    assert(bytes@ =~= zeros(bytes@.len()));
    true
}

/// The twelve bytes of an entry header.
pub fn entry_header(tag: Tag, value: &EntryRef, big_endian: bool) -> (header: Vec<u8>)
    ensures
        header@ == entry_bytes(tag, *value, big_endian),
{
    let tag = u16_to_bytes(tag.0, big_endian);
    let code = u16_to_bytes(value.data_type.u16(), big_endian);
    let count = u32_to_bytes(value.count, big_endian);
    let slot = u32_to_bytes(value.value_offset.u32(), big_endian);
    let mut header: Vec<u8> = Vec::new();
    header.push(tag[0]);
    header.push(tag[1]);
    header.push(code[0]);
    header.push(code[1]);
    header.push(count[0]);
    header.push(count[1]);
    header.push(count[2]);
    header.push(count[3]);
    header.push(slot[0]);
    header.push(slot[1]);
    header.push(slot[2]);
    header.push(slot[3]);
    assert(header@ =~= tag@ + code@ + count@ + slot@);
    header
}

impl ExifRaw {
    /// A copy of the document.
    pub fn snapshot(&self) -> (copy: ExifRaw)
        ensures
            copy@ == self@,
            copy.raw.cursor == self.raw.cursor,
    {
        let mut buffer: Vec<u8> = Vec::new();
        let mut i: usize = 0;
        while i < self.raw.buffer.len()
            invariant
                i <= self.raw.buffer@.len(),
                buffer@ == self.raw.buffer@.subrange(0, i as int),
            decreases self.raw.buffer@.len() - i,
        {
            buffer.push(self.raw.buffer[i]);
            assert(buffer@ =~= self.raw.buffer@.subrange(0, i + 1));
            i += 1;
        }
        assert(buffer@ =~= self.raw.buffer@);
        let mut locations: Vec<Located> = Vec::new();
        let mut j: usize = 0;
        while j < self.locations.len()
            invariant
                j <= self.locations@.len(),
                locations@ == self.locations@.subrange(0, j as int),
            decreases self.locations@.len() - j,
        {
            locations.push(self.locations[j]);
            assert(locations@ =~= self.locations@.subrange(0, j + 1));
            j += 1;
        }
        assert(locations@ =~= self.locations@);
        ExifRaw {
            raw: crate::exif::raw::Raw {
                big_endian: self.raw.big_endian,
                buffer,
                cursor: self.raw.cursor,
            },
            locations,
            ifd_locations: self.ifd_locations,
            makernote: self.makernote,
        }
    }

    /// Carries the shift out on this document; after an error the document
    /// may be left half shifted.
    pub(crate) fn shift_in_place(&mut self, at: u32, len: i64) -> (done: Result<(), Error>)
        ensures
            match shifted(old(self)@, at, len as int) {
                Ok(doc) => done is Ok && final(self)@ == doc,
                Err(e) => done == Err::<(), Error>(e),
            },
    {
        let ghost start = self@;
        let mut plans: Vec<Option<(u32, u32)>> = Vec::new();
        let mut k: usize = 0;
        while k < 6
            invariant
                k <= 6,
                self@ == start,
                pointer_plans(start, at, len as int, k as nat) == Ok::<
                    Seq<Option<(u32, u32)>>,
                    Error,
                >(plans@),
                plans@.len() == k,
            decreases 6 - k,
        {
            let ifd = ifd_of(k);
            let plan = match self.ifd_locations.get(ifd) {
                None => None,
                Some(location) => {
                    let slot = match shift_u32(location, at, len) {
                        Ok(slot) => slot,
                        Err(e) => {
                            proof {
                                pointer_plans_fail(start, at, len as int, k as nat, 6);
                            }
                            return Err(e);
                        },
                    };
                    let pointer = match self.raw.get_u32(slot as u64) {
                        Some(pointer) => pointer,
                        None => {
                            proof {
                                pointer_plans_fail(start, at, len as int, k as nat, 6);
                            }
                            return Err(Error::Io);
                        },
                    };
                    match shift_u32(pointer, at, len) {
                        Ok(pointer) => Some((slot, pointer)),
                        Err(e) => {
                            proof {
                                pointer_plans_fail(start, at, len as int, k as nat, 6);
                            }
                            return Err(e);
                        },
                    }
                },
            };
            plans.push(plan);
            k += 1;
        }
        let n = self.locations.len();
        let mut i: usize = 0;
        while i < n
            invariant
                i <= n,
                n == start.records.len(),
                start == old(self)@,
                plans@.len() == 6,
                pointer_plans(start, at, len as int, 6) == Ok::<Seq<Option<(u32, u32)>>, Error>(
                    plans@,
                ),
                shift_records(start, at, len as int, i as nat) == Ok::<Doc, Error>(self@),
            decreases n - i,
        {
            proof {
                shift_records_keeps(start, at, len as int, i as nat);
            }
            let record = self.locations[i];
            let position = match shift_u32(record.entry.position, at, len) {
                Ok(position) => position,
                Err(e) => {
                    proof {
                        shift_records_fail(start, at, len as int, i as nat, n as nat);
                    }
                    return Err(e);
                },
            };
            let mut entry = record.entry;
            entry.position = position;
            if let ValueOffset::Offset(offset) = record.entry.value_offset {
                if offset >= at {
                    let offset = match shift_u32(offset, at, len) {
                        Ok(offset) => offset,
                        Err(e) => {
                            proof {
                                shift_records_fail(start, at, len as int, i as nat, n as nat);
                            }
                            return Err(e);
                        },
                    };
                    if position as u64 + 12 > self.raw.buffer.len() as u64 {
                        proof {
                            shift_records_fail(start, at, len as int, i as nat, n as nat);
                        }
                        return Err(Error::Io);
                    }
                    self.raw.cursor = position as u64 + 8;
                    let _ = self.raw.write_u32(offset);
                    entry.value_offset = ValueOffset::Offset(offset);
                }
            }
            self.locations[i] = Located { tagifd: record.tagifd, entry };
            i += 1;
        }
        proof {
            shift_records_keeps(start, at, len as int, n as nat);
        }
        let ghost reached = self@;
        let mut k: usize = 0;
        while k < 6
            invariant
                k <= 6,
                plans@.len() == 6,
                start == old(self)@,
                shift_records(start, at, len as int, start.records.len()) == Ok::<Doc, Error>(
                    reached,
                ),
                pointer_plans(start, at, len as int, 6) == Ok::<Seq<Option<(u32, u32)>>, Error>(
                    plans@,
                ),
                reached.bytes.len() == start.bytes.len(),
                self@ == apply_plans(reached, plans@, k as nat),
                self@.bytes.len() == start.bytes.len(),
            decreases 6 - k,
        {
            proof {
                pointer_plans_in_bounds(start, at, len as int, 6, k as int);
            }
            if let Some((slot, pointer)) = plans[k] {
                let _ = self.raw.seek_start(slot);
                let _ = self.raw.write_u32(pointer);
                self.set_slot(slot, pointer);
                self.ifd_locations.set(ifd_of(k), Some(slot));
            }
            k += 1;
        }
        Ok(())
    }

    /// Gives every record whose slot lies at `slot` the number `value`.
    fn set_slot(&mut self, slot: u32, value: u32)
        ensures
            final(self)@ == (Doc { records: with_slot(old(self)@.records, slot, value), ..old(self)@ }),
            final(self).raw.cursor == old(self).raw.cursor,
    {
        let n = self.locations.len();
        let mut i: usize = 0;
        while i < n
            invariant
                i <= n,
                n == old(self)@.records.len(),
                self.locations@.len() == n,
                self.raw == old(self).raw,
                self.ifd_locations == old(self).ifd_locations,
                self.makernote == old(self).makernote,
                forall|j: int|
                    0 <= j < i ==> self.locations@[j] == with_slot(old(self)@.records, slot, value)[j],
                forall|j: int| i <= j < n ==> self.locations@[j] == old(self)@.records[j],
            decreases n - i,
        {
            let record = self.locations[i];
            if record.entry.position as u64 + 8 == slot as u64 {
                let mut entry = record.entry;
                entry.value_offset = record.entry.value_offset.replace(value);
                self.locations[i] = Located { tagifd: record.tagifd, entry };
            }
            i += 1;
        }
        assert(self.locations@ =~= with_slot(old(self)@.records, slot, value));
    }

    /// Overwrites the value of every entry with the given key: the number
    /// is written to the four-byte slot of each as it is given, a 32-bit
    /// integer in the byte order of the document. The length of the buffer
    /// never changes. Without such an entry nothing changes, nor where the
    /// index would no longer say what the bytes say.
    pub fn set_existing(&mut self, tagifd: TagIfd, value: u32) -> (done: Result<(), Error>)
        ensures
            match set_plan(old(self)@, tagifd, value) {
                Ok(doc) => done is Ok && final(self)@ == doc,
                Err(e) => done == Err::<(), Error>(e) && final(self)@ == old(self)@,
            },
            final(self)@.bytes.len() == old(self)@.bytes.len(),
            done is Ok ==> final(self)@.faithful(),
    {
        let mut work = self.snapshot();
        work.set_in_place(tagifd, value)?;
        if !work.is_faithful() {
            return Err(Error::EntryNotFound);
        }
        *self = work;
        Ok(())
    }

    /// Overwrites the value of every entry with the given key; where that
    /// cannot be done, nothing changes.
    fn set_in_place(&mut self, tagifd: TagIfd, value: u32) -> (done: Result<(), Error>)
        ensures
            old(self)@.entry(tagifd) is None ==> done == Err::<(), Error>(
                Error::TagNotFound(tagifd),
            ),
            old(self)@.entry(tagifd) is Some && !slots_inside(
                old(self)@,
                tagifd,
                old(self)@.records.len(),
            ) ==> done == Err::<(), Error>(Error::Io),
            old(self)@.entry(tagifd) is Some && slots_inside(
                old(self)@,
                tagifd,
                old(self)@.records.len(),
            ) ==> done is Ok && final(self)@ == overwritten(
                old(self)@,
                tagifd,
                value,
                old(self)@.records.len(),
            ),
            done is Err ==> final(self)@ == old(self)@,
            final(self)@.bytes.len() == old(self)@.bytes.len(),
    {
        let n = self.locations.len();
        let total = self.raw.buffer.len() as u64;
        let mut found = false;
        let mut i: usize = 0;
        while i < n
            invariant
                i <= n,
                n == self@.records.len(),
                total == self@.bytes.len(),
                self@ == old(self)@,
                slots_inside(self@, tagifd, i as nat),
                found == exists|j: int| 0 <= j < i && (#[trigger] self@.records[j]).tagifd == tagifd,
            decreases n - i,
        {
            let record = self.locations[i];
            if record.tagifd.tag.0 == tagifd.tag.0 && record.tagifd.ifd == tagifd.ifd {
                found = true;
                if record.entry.position as u64 + 12 > total {
                    proof {
                        crate::exif::document::first_record_is_first(self@.records, tagifd);
                    }
                    return Err(Error::Io);
                }
            }
            i += 1;
        }
        proof {
            crate::exif::document::first_record_is_first(self@.records, tagifd);
        }
        if !found {
            return Err(Error::TagNotFound(tagifd));
        }
        let ghost start = self@;
        let mut i: usize = 0;
        while i < n
            invariant
                i <= n,
                n == start.records.len(),
                start == old(self)@,
                slots_inside(start, tagifd, n as nat),
                self@ == overwritten(start, tagifd, value, i as nat),
                self@.records.len() == n,
                self@.bytes.len() == start.bytes.len(),
                forall|j: int| i <= j < n ==> self@.records[j] == start.records[j],
            decreases n - i,
        {
            let record = self.locations[i];
            assert(record == start.records[i as int]);
            if record.tagifd.tag.0 == tagifd.tag.0 && record.tagifd.ifd == tagifd.ifd {
                assert(record.tagifd == tagifd);
                assert(record.entry.position + 12 <= start.bytes.len());
                self.raw.cursor = record.entry.position as u64 + 8;
                let _ = self.raw.write_u32(value);
                let mut entry = record.entry;
                entry.value_offset = record.entry.value_offset.replace(value);
                self.locations[i] = Located { tagifd, entry };
            }
            i += 1;
        }
        Ok(())
    }

    /// Inserts `len` zero bytes before the byte at `index`.
    pub fn add_empty_space(&mut self, index: usize, len: usize) -> (done: Result<(), Error>)
        ensures
            index <= old(self)@.bytes.len() ==> done is Ok && final(self)@ == (Doc {
                bytes: spliced(old(self)@.bytes, index as int, zeros(len as nat)),
                ..old(self)@
            }),
            index > old(self)@.bytes.len() ==> done == Err::<(), Error>(Error::Io) && final(self)@
                == old(self)@,
            final(self).raw.cursor == old(self).raw.cursor,
    {
        if index > self.raw.buffer.len() {
            return Err(Error::Io);
        }
        splice_in(&mut self.raw.buffer, index, zero_vec(len));
        Ok(())
    }

    /// The entry whose header lies at `position`.
    pub fn entry_at_position(&self, position: u32) -> (entry: Result<(Tag, EntryRef), Error>)
        ensures
            entry == entry_at(self@.bytes, self@.big_endian, position as int),
    {
        let at = position as u64;
        if at + 12 > self.raw.buffer.len() as u64 {
            return Err(Error::EntryEof);
        }
        if position > u32::MAX - 12 {
            return Err(Error::OffsetTooLarge);
        }
        let tag_id = self.raw.get_u16(at).unwrap();
        let data_type = Type::from_u16(self.raw.get_u16(at + 2).unwrap());
        let count = self.raw.get_u32(at + 4).unwrap();
        let value = self.raw.get_u32(at + 8).unwrap();
        let value_offset = ValueOffset::new(data_type, count, value)?;
        Ok((Tag(tag_id), EntryRef { position, data_type, count, value_offset }))
    }

    /// Whether the index says what the bytes say: whether reading each
    /// record anew from the bytes at its position gives the record.
    pub fn is_faithful(&self) -> (faithful: bool)
        ensures
            faithful == self@.faithful(),
    {
        let n = self.locations.len();
        let mut i: usize = 0;
        while i < n
            invariant
                i <= n,
                n == self@.records.len(),
                forall|j: int|
                    0 <= j < i ==> record_matches(
                        self@.bytes,
                        self@.big_endian,
                        #[trigger] self@.records[j],
                    ),
            decreases n - i,
        {
            let record = self.locations[i];
            match self.entry_at_position(record.entry.position) {
                Err(_) => {
                    assert(!record_matches(self@.bytes, self@.big_endian, self@.records[i as int]));
                    return false;
                },
                Ok((tag, entry)) => {
                    if !(tag.0 == record.tagifd.tag.0 && entry == record.entry) {
                        assert(!record_matches(
                            self@.bytes,
                            self@.big_endian,
                            self@.records[i as int],
                        ));
                        return false;
                    }
                },
            }
            i += 1;
        }
        true
    }

    /// Whether the slot of an entry holds the pointer to one of the
    /// directories.
    pub fn points_to_directory(&self, entry: &EntryRef) -> (yes: bool)
        ensures
            yes == points_to_directory(self@.ifds, *entry),
    {
        if entry.position > u32::MAX - 8 {
            return false;
        }
        let slot: u32 = entry.position + 8;
        let mut k: usize = 0;
        while k < 6
            invariant
                k <= 6,
                slot == entry.position + 8,
                forall|j: int|
                    0 <= j < k ==> #[trigger] self@.ifds.spec_get(ifd_number(j)) != Some(slot),
            decreases 6 - k,
        {
            if let Some(location) = self.ifd_locations.get(ifd_of(k)) {
                if location == slot {
                    assert(self@.ifds.spec_get(ifd_number(k as int)) == Some(slot));
                    return true;
                }
            }
            k += 1;
        }
        false
    }

    /// Whether the records of this document are kept in `after`, which has
    /// at least as many.
    pub fn is_kept_in(&self, after: &ExifRaw) -> (kept: bool)
        requires
            after@.records.len() >= self@.records.len(),
        ensures
            kept == records_kept(self@, after@, self@.records.len()),
    {
        let n = self.locations.len();
        let mut i: usize = 0;
        while i < n
            invariant
                i <= n,
                n == self@.records.len(),
                after@.records.len() >= n,
                records_kept(self@, after@, i as nat),
            decreases n - i,
        {
            let a = self.locations[i];
            let b = after.locations[i];
            let same_kind = match (a.entry.value_offset, b.entry.value_offset) {
                (ValueOffset::Offset(_), ValueOffset::Offset(_)) => true,
                (ValueOffset::Value(_), ValueOffset::Value(_)) => true,
                _ => false,
            };
            if !(a.tagifd.tag.0 == b.tagifd.tag.0 && a.tagifd.ifd == b.tagifd.ifd
                && a.entry.data_type == b.entry.data_type && a.entry.count == b.entry.count
                && same_kind) {
                assert(!record_kept(self@, after@, self@.records[i as int], after@.records[i as int]));
                return false;
            }
            let points = after.points_to_directory(&b.entry);
            if points != self.points_to_directory(&a.entry) {
                assert(!record_kept(self@, after@, self@.records[i as int], after@.records[i as int]));
                return false;
            }
            if let ValueOffset::Value(x) = a.entry.value_offset {
                if !points && x != b.entry.value_offset.u32() {
                    assert(!record_kept(
                        self@,
                        after@,
                        self@.records[i as int],
                        after@.records[i as int],
                    ));
                    return false;
                }
            }
            if let ValueOffset::Offset(_) = a.entry.value_offset {
                if let Ok(data) = self.entry_data(&a.entry) {
                    let same = match after.entry_data(&b.entry) {
                        Ok(now) => same_bytes(data.as_slice(), now.as_slice()),
                        Err(_) => false,
                    };
                    if !same {
                        assert(!record_kept(
                            self@,
                            after@,
                            self@.records[i as int],
                            after@.records[i as int],
                        ));
                        return false;
                    }
                }
            }
            i += 1;
        }
        true
    }

    /// Whether `after` is this document with one more record.
    pub fn is_grown_in(&self, after: &ExifRaw) -> (kept: bool)
        ensures
            kept == grown_from(self@, after@),
    {
        let n = self.locations.len();
        if after.raw.big_endian != self.raw.big_endian || after.locations.len() == 0
            || after.locations.len() - 1 != n {
            return false;
        }
        self.is_kept_in(after)
    }

    /// Whether `after` holds what this document holds.
    pub fn is_intact_in(&self, after: &ExifRaw) -> (kept: bool)
        ensures
            kept == intact(self@, after@),
    {
        if after.raw.big_endian != self.raw.big_endian || after.locations.len()
            != self.locations.len() {
            return false;
        }
        after.is_faithful() && self.is_kept_in(after)
    }

    /// Whether in `after` the maker note of this document is where it was
    /// and still valid.
    pub fn is_makernote_fixed_in(&self, after: &ExifRaw) -> (fixed: bool)
        ensures
            fixed == makernote_fixed(self@, after@),
    {
        if !self.makernote {
            return true;
        }
        if !after.makernote {
            return false;
        }
        if let Some(entry) = self.makernote_entry() {
            if let ValueOffset::Offset(offset) = entry.value_offset {
                match after.makernote_entry() {
                    Some(now) => {
                        match now.value_offset {
                            ValueOffset::Offset(o) => {
                                if o != offset {
                                    return false;
                                }
                            },
                            ValueOffset::Value(_) => {
                                return false;
                            },
                        }
                    },
                    None => {
                        return false;
                    },
                }
            }
        }
        after.validate_ifd(Ifd::MakerNote).is_ok()
    }

    /// Reads where the directory `ifd` lies, how many entries it has and
    /// where they end.
    pub fn locate_directory(&self, ifd: Ifd) -> (found: Result<(u32, u16, u32), Error>)
        ensures
            found == directory_of(self@, ifd),
    {
        let ifd_location = match self.ifd_locations.get(ifd) {
            Some(location) => location,
            None => {
                return Err(Error::IfdNotFound);
            },
        };
        let ifd_offset = match self.raw.get_u32(ifd_location as u64) {
            Some(offset) => offset,
            None => {
                return Err(Error::Io);
            },
        };
        let n_entries = match self.raw.get_u16(ifd_offset as u64) {
            Some(n) => n,
            None => {
                return Err(Error::Io);
            },
        };
        let entries_end: u64 = ifd_offset as u64 + 2 + 12 * (n_entries as u64);
        if entries_end > u32::MAX as u64 || n_entries == u16::MAX {
            return Err(Error::AdditionOverflow);
        }
        Ok((ifd_offset, n_entries, entries_end as u32))
    }

    /// Writes the new entry of a directory and indexes it; after an error
    /// the document may be left half changed.
    fn write_entry_in_place(
        &mut self,
        tagifd: TagIfd,
        value: EntryRef,
        offset: u32,
        n: u16,
        end: u32,
    ) -> (done: Result<(), Error>)
        requires
            n < u16::MAX,
        ensures
            match entry_written(old(self)@, tagifd, value, offset, n, end) {
                Ok(doc) => done is Ok && final(self)@ == doc,
                Err(e) => done == Err::<(), Error>(e),
            },
    {
        let total = self.raw.buffer.len() as u64;
        if offset as u64 + 2 > total || end as u64 + 12 > total {
            return Err(Error::Io);
        }
        // Update number of entries
        let _ = self.raw.seek_start(offset);
        let _ = self.raw.write_u16(n + 1);
        // Write new entry
        let header = entry_header(tagifd.tag, &value, self.raw.big_endian);
        let _ = self.raw.seek_start(end);
        let _ = self.raw.write_all(header.as_slice());
        // Update internal table
        let (_, entry) = self.entry_at_position(end)?;
        self.locations.push(Located { tagifd, entry });
        Ok(())
    }

    /// Gives the directory one more entry; after an error the document may
    /// be left half changed.
    fn grow_in_place(
        &mut self,
        tagifd: TagIfd,
        value: EntryRef,
        offset: u32,
        n: u16,
        end: u32,
    ) -> (done: Result<(), Error>)
        requires
            n < u16::MAX,
        ensures
            match grown(old(self)@, tagifd, value, offset, n, end) {
                Ok(doc) => done is Ok && final(self)@ == doc,
                Err(e) => done == Err::<(), Error>(e),
            },
    {
        // Insert space for new entry
        self.add_empty_space(end as usize, 12)?;
        self.shift_in_place(end, 12)?;
        self.write_entry_in_place(tagifd, value, offset, n, end)
    }

    /// Adds a new entry to a directory that has a location.
    ///
    /// Of `value`, the type, the count and the number in the slot are used.
    /// A single value of one or two bytes is written at the start of the
    /// slot, so that it reads back as it was given in either byte order.
    /// The entry is appended to the directory's entries; every offset
    /// behind it follows, and the maker note, if there is one, stays where
    /// it is. Nothing changes where the insertion fails.
    pub fn insert_entry(&mut self, tagifd: TagIfd, value: EntryRef) -> (done: Result<(), Error>)
        ensures
            match inserted(old(self)@, tagifd, value) {
                Ok(doc) => done is Ok && final(self)@ == doc,
                Err(e) => done == Err::<(), Error>(e) && final(self)@ == old(self)@,
            },
            done is Ok ==> final(self)@.faithful() && grown_from(old(self)@, final(self)@)
                && makernote_fixed(old(self)@, final(self)@) && final(self)@.records.last().tagifd
                == tagifd,
    {
        let (offset, n, end) = self.locate_directory(tagifd.ifd)?;
        let written = value.justify(self.raw.big_endian);
        let mut work = self.snapshot();
        work.guard_in_place(end, 12)?;
        work.grow_in_place(tagifd, written, offset, n, end)?;
        if !work.is_faithful() || !self.is_grown_in(&work) {
            return Err(Error::EntryNotFound);
        }
        if !self.is_makernote_fixed_in(&work) {
            return Err(Error::MakerNoteNoSpace);
        }
        *self = work;
        Ok(())
    }

    /// Offset propagation after `len` bytes were inserted at
    /// `insert_position`, or, with a negative `len`, removed there.
    ///
    /// Every position and offset at or behind `insert_position` moves by
    /// `len`, in the index and in the bytes. Where one of them would leave
    /// the 32-bit range or a slot lies outside the buffer, nothing changes.
    pub fn inserted_at(&mut self, insert_position: u32, len: i64) -> (done: Result<(), Error>)
        ensures
            match shifted(old(self)@, insert_position, len as int) {
                Ok(doc) => done is Ok && final(self)@ == doc,
                Err(e) => done == Err::<(), Error>(e) && final(self)@ == old(self)@,
            },
    {
        let mut work = self.snapshot();
        work.shift_in_place(insert_position, len)?;
        *self = work;
        Ok(())
    }
}

/// Where the plans for the first `k` directories can be made and the next
/// one cannot, the plans for more directories fail in the same way.
pub proof fn pointer_plans_fail(doc: Doc, at: u32, len: int, k: nat, n: nat)
    requires
        k < n,
        pointer_plans(doc, at, len, k) is Ok,
        pointer_plan(doc, ifd_number(k as int), at, len) is Err,
    ensures
        pointer_plans(doc, at, len, n) == Err::<Seq<Option<(u32, u32)>>, Error>(
            pointer_plan(doc, ifd_number(k as int), at, len)->Err_0,
        ),
    decreases n,
{
    if n - 1 > k {
        pointer_plans_fail(doc, at, len, k, (n - 1) as nat);
    }
}

/// The slot of every plan lies inside the bytes.
pub proof fn pointer_plans_in_bounds(doc: Doc, at: u32, len: int, n: nat, k: int)
    requires
        0 <= k < n,
        pointer_plans(doc, at, len, n) is Ok,
    ensures
        pointer_plans(doc, at, len, n)->Ok_0.len() == n,
        pointer_plans(doc, at, len, n)->Ok_0[k] == pointer_plan(doc, ifd_number(k), at, len)->Ok_0,
        pointer_plan(doc, ifd_number(k), at, len) is Ok,
        match pointer_plans(doc, at, len, n)->Ok_0[k] {
            Some((slot, _)) => slot + 4 <= doc.bytes.len(),
            None => true,
        },
    decreases n,
{
    if k < n - 1 {
        pointer_plans_in_bounds(doc, at, len, (n - 1) as nat, k);
    } else if n > 1 {
        pointer_plans_in_bounds(doc, at, len, (n - 1) as nat, 0);
    }
}

/// Where the shift reaches the first `k` records and fails at the next one,
/// it fails in the same way however far it is meant to go.
pub proof fn shift_records_fail(doc: Doc, at: u32, len: int, k: nat, n: nat)
    requires
        k < n,
        shift_records(doc, at, len, k) is Ok,
        shift_record(shift_records(doc, at, len, k)->Ok_0, k as int, at, len) is Err,
    ensures
        shift_records(doc, at, len, n) == Err::<Doc, Error>(
            shift_record(shift_records(doc, at, len, k)->Ok_0, k as int, at, len)->Err_0,
        ),
    decreases n,
{
    if n - 1 > k {
        shift_records_fail(doc, at, len, k, (n - 1) as nat);
    }
}

} // verus!
