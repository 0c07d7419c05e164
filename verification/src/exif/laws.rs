//! What holds of the engine as a whole.
use vstd::prelude::*;
use crate::common::exif::{Ifd, Tag, TagIfd};
use crate::exif::bytes::{
    overwrite, u16_at, u16_at_same, u16_bytes, u32_at, u32_at_overwrite, u32_at_same, u32_bytes,
};
use crate::exif::decode::{after_dir, decoded, dir_at, follow, header, with_dir_at, with_ifds};
use crate::exif::document::{first_record, first_record_is_first, record_matches, Doc, IfdLocations, Located};
use crate::exif::edit::{
    directory_of, intact, overwritten, set_plan, slots_inside, apply_plan, apply_plans, entry_bytes, entry_written, grown, grown_from, ifd_number, inserted,
    is_pointer_slot, makernote_fixed, points_to_directory, rewritten,
    pointer_plan, pointer_plans, pointer_plans_in_bounds, record_kept, records_kept, shift_record,
    shift_records, shift_records_keeps, shifted, shifted_u32, with_slot,
};
use crate::exif::entry::{entry_at, EntryRef, ValueOffset};
use crate::exif::error::Error;
use crate::exif::field_type::Type;
use crate::exif::lookup::{data_of, short_of};
use crate::exif::makernote::{
    entry_relocation, freeing, guard_acts, guarding, has_room, moved_to, prepared, relocation,
};

verus! {

/// Four bytes are the digits of the number they make up.
pub proof fn digits_of(b0: int, b1: int, b2: int, b3: int)
    requires
        0 <= b0 < 256,
        0 <= b1 < 256,
        0 <= b2 < 256,
        0 <= b3 < 256,
    ensures
        ({
            let v = b0 * 16777216 + b1 * 65536 + b2 * 256 + b3;
            &&& 0 <= v <= u32::MAX
            &&& v / 16777216 == b0
            &&& (v / 65536) % 256 == b1
            &&& (v / 256) % 256 == b2
            &&& v % 256 == b3
        }),
{
    let v = b0 * 16777216 + b1 * 65536 + b2 * 256 + b3;
    assert(v / 16777216 == b0) by (nonlinear_arith)
        requires
            v == b0 * 16777216 + b1 * 65536 + b2 * 256 + b3,
            0 <= b0 < 256,
            0 <= b1 < 256,
            0 <= b2 < 256,
            0 <= b3 < 256,
    ;
    assert(v / 65536 == b0 * 256 + b1) by (nonlinear_arith)
        requires
            v == b0 * 16777216 + b1 * 65536 + b2 * 256 + b3,
            0 <= b0 < 256,
            0 <= b1 < 256,
            0 <= b2 < 256,
            0 <= b3 < 256,
    ;
    assert(v / 256 == b0 * 65536 + b1 * 256 + b2) by (nonlinear_arith)
        requires
            v == b0 * 16777216 + b1 * 65536 + b2 * 256 + b3,
            0 <= b0 < 256,
            0 <= b1 < 256,
            0 <= b2 < 256,
            0 <= b3 < 256,
    ;
    assert((b0 * 256 + b1) % 256 == b1) by (nonlinear_arith)
        requires
            0 <= b0 < 256,
            0 <= b1 < 256,
    ;
    assert((b0 * 65536 + b1 * 256 + b2) % 256 == b2) by (nonlinear_arith)
        requires
            0 <= b0 < 256,
            0 <= b1 < 256,
            0 <= b2 < 256,
    ;
    assert(v % 256 == b3) by (nonlinear_arith)
        requires
            v == b0 * 16777216 + b1 * 65536 + b2 * 256 + b3,
            0 <= b0 < 256,
            0 <= b1 < 256,
            0 <= b2 < 256,
            0 <= b3 < 256,
    ;
}

/// The bytes of the integer read at a place are the bytes at that place.
pub proof fn u32_bytes_of_at(bytes: Seq<u8>, at: int, big_endian: bool)
    requires
        0 <= at,
        at + 4 <= bytes.len(),
    ensures
        u32_bytes(u32_at(bytes, at, big_endian), big_endian) == bytes.subrange(at, at + 4),
{
    if big_endian {
        digits_of(bytes[at] as int, bytes[at + 1] as int, bytes[at + 2] as int, bytes[at + 3] as int);
    } else {
        digits_of(bytes[at + 3] as int, bytes[at + 2] as int, bytes[at + 1] as int, bytes[at] as int);
    }
    assert(u32_bytes(u32_at(bytes, at, big_endian), big_endian) =~= bytes.subrange(at, at + 4));
}

/// What the index says stands in the bytes. In a document whose index
/// says what its bytes say, the header of every record holds the tag, the
/// code of the type, the count and, in its slot, the value or the offset of
/// the record, each in the byte order of the document.
pub proof fn index_is_in_the_bytes(doc: Doc, i: int)
    requires
        doc.faithful(),
        0 <= i < doc.records.len(),
    ensures
        ({
            let record = doc.records[i];
            let at = record.entry.position as int;
            &&& at + 12 <= doc.bytes.len()
            &&& u16_at(doc.bytes, at, doc.big_endian) == record.tagifd.tag.0
            &&& Type::of_code(u16_at(doc.bytes, at + 2, doc.big_endian)) == record.entry.data_type
            &&& u32_at(doc.bytes, at + 4, doc.big_endian) == record.entry.count
            &&& u32_at(doc.bytes, at + 8, doc.big_endian) == record.entry.value_offset.raw()
        }),
{
    assert(record_matches(doc.bytes, doc.big_endian, doc.records[i]));
}

/// The data that a lookup returns is a slice of the buffer: for
/// out-of-line data the slice at the entry's offset, as long as its data;
/// for an inline value the four-byte slot of the entry. In a document
/// whose index says what its bytes say, the slot holds the number of the
/// index in the byte order of the document.
pub proof fn lookup_reads_the_buffer(doc: Doc, tagifd: TagIfd)
    requires
        doc.data(tagifd) is Ok,
        doc.data(tagifd)->Ok_0 is Some,
    ensures
        ({
            let entry = doc.entry(tagifd)->Some_0;
            let data = doc.data(tagifd)->Ok_0->Some_0.1;
            match entry.value_offset {
                ValueOffset::Offset(offset) => data == doc.bytes.subrange(
                    offset as int,
                    offset + entry.spec_data_len(),
                ),
                ValueOffset::Value(value) => data == doc.bytes.subrange(
                    entry.position + 8,
                    entry.position + 12,
                ) && (doc.faithful() ==> data == u32_bytes(value, doc.big_endian)),
            }
        }),
{
    if doc.faithful() {
        first_record_is_first(doc.records, tagifd);
        let i = first_record(doc.records, tagifd)->Some_0;
        let record = doc.records[i];
        assert(record_matches(doc.bytes, doc.big_endian, record));
        let at = record.entry.position as int;
        if let ValueOffset::Value(value) = record.entry.value_offset {
            assert(value == u32_at(doc.bytes, at + 8, doc.big_endian));
            u32_bytes_of_at(doc.bytes, at + 8, doc.big_endian);
        }
    }
}

/// A header that was written at a place reads back as the entry it stands
/// for.
pub proof fn entry_at_written(bytes: Seq<u8>, tag: Tag, value: EntryRef, big_endian: bool, at: int)
    requires
        0 <= at,
        at + 12 <= bytes.len(),
        at + 12 <= u32::MAX,
    ensures
        entry_at(overwrite(bytes, at, entry_bytes(tag, value, big_endian)), big_endian, at) == (
        match ValueOffset::spec_new(
            Type::of_code(value.data_type.code()),
            value.count,
            value.value_offset.raw(),
        ) {
            Ok(value_offset) => Ok::<(Tag, EntryRef), Error>(
                (
                    tag,
                    EntryRef {
                        position: at as u32,
                        data_type: Type::of_code(value.data_type.code()),
                        count: value.count,
                        value_offset,
                    },
                ),
            ),
            Err(e) => Err::<(Tag, EntryRef), Error>(e),
        }),
{
    let header = entry_bytes(tag, value, big_endian);
    let written = overwrite(bytes, at, header);
    let a = u16_bytes(tag.0, big_endian);
    let b = u16_bytes(value.data_type.code(), big_endian);
    let c = u32_bytes(value.count, big_endian);
    let d = u32_bytes(value.value_offset.raw(), big_endian);
    assert(header.len() == 12);
    assert forall|i: int| 0 <= i < 12 implies written[at + i] == header[i] by {}
    assert(header[0] == a[0] && header[1] == a[1]);
    assert(header[2] == b[0] && header[3] == b[1]);
    assert(header[4] == c[0] && header[5] == c[1] && header[6] == c[2] && header[7] == c[3]);
    assert(header[8] == d[0] && header[9] == d[1] && header[10] == d[2] && header[11] == d[3]);
    assert(written[at + 0] == header[0]);
    assert(written[at + 1] == header[1]);
    assert(written[at + 2] == header[2]);
    assert(written[at + 3] == header[3]);
    assert(written[at + 4] == header[4]);
    assert(written[at + 5] == header[5]);
    assert(written[at + 6] == header[6]);
    assert(written[at + 7] == header[7]);
    assert(written[at + 8] == header[8]);
    assert(written[at + 9] == header[9]);
    assert(written[at + 10] == header[10]);
    assert(written[at + 11] == header[11]);
    u16_at_same(written, a, at, 0, big_endian);
    u16_at_same(written, b, at + 2, 0, big_endian);
    u32_at_same(written, c, at + 4, 0, big_endian);
    u32_at_same(written, d, at + 8, 0, big_endian);
    crate::exif::bytes::u16_round_trip(tag.0, big_endian);
    crate::exif::bytes::u16_round_trip(value.data_type.code(), big_endian);
    crate::exif::bytes::u32_round_trip(value.count, big_endian);
    crate::exif::bytes::u32_round_trip(value.value_offset.raw(), big_endian);
}

/// The 16-bit integer that a slot shows is the low half of the slot's
/// number in a little-endian document and its high half in a big-endian
/// one.
pub proof fn short_of_slot(value: u16)
    ensures
        short_of(value as u32, false) == value,
        short_of((value * 65536) as u32, true) == value,
{
}

/// Reading what was inserted: after a single `Short` was inserted under a
/// key that had no entry, a lookup of the key gives its value, in a
/// document of either byte order.
pub proof fn insert_then_read(doc: Doc, tagifd: TagIfd, value: EntryRef, v: u16)
    requires
        inserted(doc, tagifd, value) is Ok,
        doc.entry(tagifd) is None,
        value.data_type == Type::Short,
        value.count == 1,
        value.value_offset == ValueOffset::Value(v as u32),
    ensures
        inserted(doc, tagifd, value)->Ok_0.short(tagifd) == Ok::<Option<u16>, Error>(Some(v)),
{
    short_of_slot(v);
    let given = value;
    let value = given.justified(doc.big_endian);
    assert(short_of(value.value_offset.raw(), doc.big_endian) == v);
    let after = inserted(doc, tagifd, given)->Ok_0;
    let (offset, n, end) = crate::exif::edit::directory_of(doc, tagifd.ifd)->Ok_0;
    let guarded = doc.guarded(end, 12)->Ok_0;
    assert(grown(guarded, tagifd, value, offset, n, end) == Ok::<Doc, Error>(after));
    let gapped = Doc {
        bytes: crate::exif::bytes::spliced(guarded.bytes, end as int, crate::exif::bytes::zeros(12)),
        ..guarded
    };
    let propagated = crate::exif::edit::shifted(gapped, end, 12)->Ok_0;
    assert(entry_written(propagated, tagifd, value, offset, n, end) == Ok::<Doc, Error>(after));
    let counted = overwrite(
        propagated.bytes,
        offset as int,
        u16_bytes((n + 1) as u16, propagated.big_endian),
    );
    entry_at_written(counted, tagifd.tag, value, propagated.big_endian, end as int);
    let count = doc.records.len() as int;
    assert(grown_from(doc, after));
    assert(after.records.len() == count + 1);
    assert(after.records == propagated.records.push(after.records.last()));
    assert(propagated.records.len() == count);
    assert(after.records[count].tagifd == tagifd);
    first_record_is_first(doc.records, tagifd);
    first_record_is_first(after.records, tagifd);
    assert forall|j: int| 0 <= j < count implies (#[trigger] after.records[j]).tagifd != tagifd by {
        assert(record_kept(doc, after, doc.records[j], after.records[j]));
    }
    assert(first_record(after.records, tagifd) == Some(count));
}

/// The maker note stays where it is through any number of insertions: if
/// it is where it was from one state to the next, and from that to a
/// third, then it is where it was from the first to the third. So after
/// several insertions in a row the offset of a registered maker note is
/// the one that it had before the first, and its directory still
/// resolves.
pub proof fn makernote_stays(first: Doc, second: Doc, third: Doc)
    requires
        makernote_fixed(first, second),
        makernote_fixed(second, third),
    ensures
        makernote_fixed(first, third),
{
}

/// What is kept reads as before. Let `after` be a document in which the
/// records of `doc` are kept, and let the index of both say what their
/// bytes say. Then every key that had an entry still has one, of the same
/// type and count. Its out-of-line data reads the same. Its inline value
/// is the same, and so are the bytes of its slot and what a lookup of a
/// `Short` or a `Long` gives, unless the slot holds the pointer to a
/// directory, which follows the directory; and it holds such a pointer
/// exactly if it held one.
pub proof fn kept_entries_read_the_same(doc: Doc, after: Doc, other: TagIfd)
    requires
        doc.faithful(),
        after.faithful(),
        after.big_endian == doc.big_endian,
        after.records.len() >= doc.records.len(),
        records_kept(doc, after, doc.records.len()),
        doc.entry(other) is Some,
    ensures
        after.entry(other) is Some,
        after.entry(other)->Some_0.data_type == doc.entry(other)->Some_0.data_type,
        after.entry(other)->Some_0.count == doc.entry(other)->Some_0.count,
        after.entry(other)->Some_0.value_offset is Offset == doc.entry(
            other,
        )->Some_0.value_offset is Offset,
        points_to_directory(after.ifds, after.entry(other)->Some_0) == points_to_directory(
            doc.ifds,
            doc.entry(other)->Some_0,
        ),
        doc.entry(other)->Some_0.value_offset is Offset && doc.data(other) is Ok ==> after.data(
            other,
        ) == doc.data(other),
        doc.entry(other)->Some_0.value_offset is Value && !points_to_directory(
            doc.ifds,
            doc.entry(other)->Some_0,
        ) ==> {
            &&& after.entry(other)->Some_0.value_offset == doc.entry(other)->Some_0.value_offset
            &&& after.data(other) == doc.data(other)
            &&& after.short(other) == doc.short(other)
            &&& after.long(other) == doc.long(other)
        },
{
    first_record_is_first(doc.records, other);
    first_record_is_first(after.records, other);
    let i = first_record(doc.records, other)->Some_0;
    assert forall|j: int| 0 <= j <= i implies (#[trigger] after.records[j]).tagifd
        == doc.records[j].tagifd by {
        assert(record_kept(doc, after, doc.records[j], after.records[j]));
    }
    assert(first_record(after.records, other) == Some(i));
    assert(record_kept(doc, after, doc.records[i], after.records[i]));
    assert(record_matches(doc.bytes, doc.big_endian, doc.records[i]));
    assert(record_matches(after.bytes, after.big_endian, after.records[i]));
    let before = doc.records[i].entry;
    let now = after.records[i].entry;
    if before.value_offset is Value && !points_to_directory(doc.ifds, before) {
        lookup_reads_the_buffer(doc, other);
        lookup_reads_the_buffer(after, other);
    }
}

/// A key without an entry has none where the records are kept and one
/// record with another key follows them.
pub proof fn absent_stays_absent(doc: Doc, after: Doc, other: TagIfd)
    requires
        grown_from(doc, after),
        doc.entry(other) is None,
        after.records.last().tagifd != other,
    ensures
        after.entry(other) is None,
{
    first_record_is_first(doc.records, other);
    first_record_is_first(after.records, other);
    assert forall|j: int| 0 <= j < after.records.len() implies (#[trigger] after.records[j]).tagifd
        != other by {
        if j < doc.records.len() {
            assert(record_kept(doc, after, doc.records[j], after.records[j]));
        } else {
            assert(after.records[j] == after.records.last());
        }
    }
}

/// What was there reads as before an insertion, as
/// `kept_entries_read_the_same` says: what an insertion gives has one more record and keeps the others,
/// and its index says what its bytes say.
pub proof fn insert_keeps_entries(doc: Doc, tagifd: TagIfd, value: EntryRef)
    requires
        inserted(doc, tagifd, value) is Ok,
    ensures
        inserted(doc, tagifd, value)->Ok_0.faithful(),
        grown_from(doc, inserted(doc, tagifd, value)->Ok_0),
        makernote_fixed(doc, inserted(doc, tagifd, value)->Ok_0),
{
}

/// The entry `after` is the entry `before` moved: its position lies `len`
/// further on if it lay at or behind `at`, and so does its out-of-line
/// offset; its type, its count and an inline value are unchanged.
pub open spec fn entry_moved(before: EntryRef, after: EntryRef, at: u32, len: int) -> bool {
    &&& Ok::<u32, Error>(after.position) == shifted_u32(before.position, at, len)
    &&& after.data_type == before.data_type
    &&& after.count == before.count
    &&& match before.value_offset {
        ValueOffset::Offset(offset) => Ok::<u32, Error>(after.value_offset.raw()) == shifted_u32(
            offset,
            at,
            len,
        ) && after.value_offset is Offset,
        ValueOffset::Value(value) => after.value_offset == before.value_offset,
    }
}

/// Shifting the records moves each of them and keeps its key.
pub proof fn shift_records_moves(doc: Doc, at: u32, len: int, k: nat)
    requires
        k <= doc.records.len(),
        shift_records(doc, at, len, k) is Ok,
    ensures
        forall|i: int|
            0 <= i < k ==> {
                let after = #[trigger] shift_records(doc, at, len, k)->Ok_0.records[i];
                &&& after.tagifd == doc.records[i].tagifd
                &&& entry_moved(doc.records[i].entry, after.entry, at, len)
            },
    decreases k,
{
    if k > 0 {
        shift_records_moves(doc, at, len, (k - 1) as nat);
        shift_records_keeps(doc, at, len, (k - 1) as nat);
        let reached = shift_records(doc, at, len, (k - 1) as nat)->Ok_0;
        let done = shift_records(doc, at, len, k)->Ok_0;
        assert forall|i: int| 0 <= i < k implies {
            let after = #[trigger] done.records[i];
            &&& after.tagifd == doc.records[i].tagifd
            &&& entry_moved(doc.records[i].entry, after.entry, at, len)
        } by {
            if i < k - 1 {
                assert(done.records[i] == reached.records[i]);
            }
        }
    }
}

/// Carrying out the pointer plans changes of a record only the number in
/// its slot, and that only where the slot holds the pointer of a directory.
pub proof fn apply_plans_keeps(doc: Doc, plans: Seq<Option<(u32, u32)>>, k: nat)
    requires
        k <= 6,
        plans.len() == 6,
    ensures
        ({
            let after = apply_plans(doc, plans, k);
            &&& after.records.len() == doc.records.len()
            &&& after.big_endian == doc.big_endian
            &&& after.makernote == doc.makernote
            &&& after.bytes.len() == doc.bytes.len()
            &&& forall|j: int|
                0 <= j < 6 ==> #[trigger] after.ifds.spec_get(ifd_number(j)) == (if j < k
                    && plans[j] is Some {
                    Some(plans[j]->Some_0.0)
                } else {
                    doc.ifds.spec_get(ifd_number(j))
                })
            &&& forall|i: int|
                0 <= i < doc.records.len() ==> {
                    let before = doc.records[i];
                    let now = #[trigger] after.records[i];
                    &&& now.tagifd == before.tagifd
                    &&& now.entry.position == before.entry.position
                    &&& now.entry.data_type == before.entry.data_type
                    &&& now.entry.count == before.entry.count
                    &&& now.entry.value_offset is Offset == before.entry.value_offset is Offset
                    &&& (now.entry.value_offset != before.entry.value_offset ==> exists|j: int|
                        0 <= j < k && plans[j] is Some && (#[trigger] plans[j])->Some_0.0
                            == before.entry.position + 8)
                }
        }),
    decreases k,
{
    if k > 0 {
        apply_plans_keeps(doc, plans, (k - 1) as nat);
        let reached = apply_plans(doc, plans, (k - 1) as nat);
        let after = apply_plans(doc, plans, k);
        assert(after == apply_plan(reached, ifd_number(k - 1), plans[k - 1]));
        assert forall|j: int| 0 <= j < 6 implies #[trigger] after.ifds.spec_get(ifd_number(j)) == (
        if j < k && plans[j] is Some {
            Some(plans[j]->Some_0.0)
        } else {
            doc.ifds.spec_get(ifd_number(j))
        }) by {
            assert(reached.ifds.spec_get(ifd_number(j)) == (if j < k - 1 && plans[j] is Some {
                Some(plans[j]->Some_0.0)
            } else {
                doc.ifds.spec_get(ifd_number(j))
            }));
        }
        assert forall|i: int| 0 <= i < doc.records.len() implies {
            let before = doc.records[i];
            let now = #[trigger] after.records[i];
            &&& now.tagifd == before.tagifd
            &&& now.entry.position == before.entry.position
            &&& now.entry.data_type == before.entry.data_type
            &&& now.entry.count == before.entry.count
            &&& now.entry.value_offset is Offset == before.entry.value_offset is Offset
            &&& (now.entry.value_offset != before.entry.value_offset ==> exists|j: int|
                0 <= j < k && plans[j] is Some && (#[trigger] plans[j])->Some_0.0
                    == before.entry.position + 8)
        } by {
            let before = doc.records[i];
            let middle = reached.records[i];
            let now = after.records[i];
            if now.entry.value_offset != before.entry.value_offset {
                if middle.entry.value_offset != before.entry.value_offset {
                    let j = choose|j: int|
                        0 <= j < k - 1 && plans[j] is Some && (#[trigger] plans[j])->Some_0.0
                            == before.entry.position + 8;
                    assert(0 <= j < k && plans[j] is Some && plans[j]->Some_0.0
                        == before.entry.position + 8);
                } else {
                    assert(plans[k - 1] is Some && plans[k - 1]->Some_0.0 == before.entry.position
                        + 8);
                }
            }
        }
    }
}

/// How the index moves: after offset propagation for `len` bytes at `at`,
/// every record has its key, type and count as before; its
/// position lies `len` further on if it lay at or behind `at`; so does its
/// out-of-line offset, unless its slot is the one that holds the pointer to
/// a directory, which is shifted as that pointer. The location of every
/// directory is shifted in the same way.
pub proof fn shift_moves_index(doc: Doc, at: u32, len: int)
    requires
        shifted(doc, at, len) is Ok,
    ensures
        ({
            let after = shifted(doc, at, len)->Ok_0;
            &&& after.records.len() == doc.records.len()
            &&& after.bytes.len() == doc.bytes.len()
            &&& forall|k: int|
                0 <= k < 6 ==> #[trigger] after.ifds.spec_get(ifd_number(k)) == (
                match doc.ifds.spec_get(ifd_number(k)) {
                    Some(location) => Some(shifted_u32(location, at, len)->Ok_0),
                    None => None,
                })
            &&& forall|i: int|
                0 <= i < doc.records.len() ==> {
                    let before = doc.records[i];
                    let now = #[trigger] after.records[i];
                    &&& now.tagifd == before.tagifd
                    &&& now.entry.data_type == before.entry.data_type
                    &&& now.entry.count == before.entry.count
                    &&& Ok::<u32, Error>(now.entry.position) == shifted_u32(
                        before.entry.position,
                        at,
                        len,
                    )
                    &&& now.entry.value_offset is Offset == before.entry.value_offset is Offset
                    &&& (!is_pointer_slot(after.ifds, now.entry.position + 8) ==> entry_moved(
                        before.entry,
                        now.entry,
                        at,
                        len,
                    ))
                }
        }),
{
    let plans = pointer_plans(doc, at, len, 6)->Ok_0;
    let n = doc.records.len();
    let reached = shift_records(doc, at, len, n)->Ok_0;
    let after = shifted(doc, at, len)->Ok_0;
    assert(after == apply_plans(reached, plans, 6));
    shift_records_keeps(doc, at, len, n);
    shift_records_moves(doc, at, len, n);
    pointer_plans_in_bounds(doc, at, len, 6, 0);
    pointer_plans_in_bounds(doc, at, len, 6, 1);
    pointer_plans_in_bounds(doc, at, len, 6, 2);
    pointer_plans_in_bounds(doc, at, len, 6, 3);
    pointer_plans_in_bounds(doc, at, len, 6, 4);
    pointer_plans_in_bounds(doc, at, len, 6, 5);
    apply_plans_keeps(reached, plans, 6);
    assert forall|i: int| 0 <= i < doc.records.len() implies {
        let before = doc.records[i];
        let now = #[trigger] after.records[i];
        &&& now.tagifd == before.tagifd
        &&& now.entry.data_type == before.entry.data_type
        &&& now.entry.count == before.entry.count
        &&& Ok::<u32, Error>(now.entry.position) == shifted_u32(before.entry.position, at, len)
        &&& now.entry.value_offset is Offset == before.entry.value_offset is Offset
        &&& (!is_pointer_slot(after.ifds, now.entry.position + 8) ==> entry_moved(
            before.entry,
            now.entry,
            at,
            len,
        ))
    } by {
        let middle = reached.records[i];
        let now = after.records[i];
        assert(entry_moved(doc.records[i].entry, middle.entry, at, len));
        if now.entry.value_offset != middle.entry.value_offset {
            let j = choose|j: int|
                0 <= j < 6 && plans[j] is Some && (#[trigger] plans[j])->Some_0.0
                    == middle.entry.position + 8;
            assert(after.ifds.spec_get(ifd_number(j)) == Some(plans[j]->Some_0.0));
            assert(is_pointer_slot(after.ifds, now.entry.position + 8));
        }
    }
}

/// Whether `longer` starts with the records of `shorter`.
pub open spec fn starts_with(longer: Seq<Located>, shorter: Seq<Located>) -> bool {
    &&& shorter.len() <= longer.len()
    &&& forall|i: int| 0 <= i < shorter.len() ==> #[trigger] longer[i] == shorter[i]
}

/// Following pointers only adds records behind those that are there.
pub proof fn follow_extends(
    bytes: Seq<u8>,
    big_endian: bool,
    records: Seq<Located>,
    ifds: IfdLocations,
    pending: Seq<Located>,
)
    ensures
        starts_with(follow(bytes, big_endian, records, ifds, pending).0, records),
    decreases ifds.unlisted(), pending.len(),
{
    if pending.len() > 0 {
        let pointer = pending.last();
        let rest = pending.drop_last();
        match pointer.tagifd.tag.spec_exif_specific_ifd() {
            None => {
                follow_extends(bytes, big_endian, records, ifds, rest);
            },
            Some(sub) => {
                if ifds.spec_get(sub).is_some() {
                    follow_extends(bytes, big_endian, records, ifds, rest);
                } else {
                    let listed = ifds.with(sub, Some((pointer.entry.position + 8) as u32));
                    match dir_at(bytes, big_endian, pointer.entry.value_offset.raw() as int, sub) {
                        Err(_) => {
                            follow_extends(bytes, big_endian, records, listed, rest);
                        },
                        Ok(dir) => {
                            follow_extends(
                                bytes,
                                big_endian,
                                records + dir.records,
                                listed,
                                rest + crate::exif::decode::pointer_stack(dir.records),
                            );
                            let all = follow(
                                bytes,
                                big_endian,
                                records + dir.records,
                                listed,
                                rest + crate::exif::decode::pointer_stack(dir.records),
                            ).0;
                            assert forall|i: int| 0 <= i < records.len() implies #[trigger] all[i]
                                == records[i] by {
                                assert((records + dir.records)[i] == records[i]);
                            }
                        },
                    }
                }
            },
        }
    }
}

/// Reading a directory only adds records behind those that are there.
pub proof fn with_dir_at_extends(doc: Doc, at: int, ifd: Ifd)
    ensures
        starts_with(with_dir_at(doc, at, ifd).records, doc.records),
        with_dir_at(doc, at, ifd).bytes == doc.bytes,
        with_dir_at(doc, at, ifd).big_endian == doc.big_endian,
{
    match dir_at(doc.bytes, doc.big_endian, at, ifd) {
        Err(_) => {},
        Ok(dir) => {
            let ifds = after_dir(doc, dir, ifd).ifds;
            let start = if dir.next > 0 && ifd == Ifd::Primary {
                crate::exif::decode::listing(doc.ifds, Ifd::Thumbnail, dir.next_location)
            } else {
                doc.ifds
            };
            follow_extends(
                doc.bytes,
                doc.big_endian,
                doc.records + dir.records,
                start,
                crate::exif::decode::pointer_stack(dir.records),
            );
            let all = after_dir(doc, dir, ifd).records;
            assert forall|i: int| 0 <= i < doc.records.len() implies #[trigger] all[i]
                == doc.records[i] by {
                assert((doc.records + dir.records)[i] == doc.records[i]);
            }
        },
    }
}

/// Sub-directories cannot fail a decode: a blob whose header and primary
/// directory can be read decodes, whatever its other directories and its
/// maker note are like; the index starts with the entries of the primary directory in
/// their order, so that a lookup of a key of the primary directory finds
/// what the primary directory holds.
pub proof fn decode_survives_subdirectories(bytes: Seq<u8>)
    requires
        header(bytes) is Ok,
        dir_at(bytes, header(bytes)->Ok_0.0, header(bytes)->Ok_0.1 as int, Ifd::Primary) is Ok,
    ensures
        decoded(bytes) is Ok,
        decoded(bytes)->Ok_0.bytes == bytes,
        starts_with(
            decoded(bytes)->Ok_0.records,
            dir_at(
                bytes,
                header(bytes)->Ok_0.0,
                header(bytes)->Ok_0.1 as int,
                Ifd::Primary,
            )->Ok_0.records,
        ),
{
    let (big_endian, offset) = header(bytes)->Ok_0;
    let dir = dir_at(bytes, big_endian, offset as int, Ifd::Primary)->Ok_0;
    let start = Doc {
        bytes,
        big_endian,
        records: Seq::empty(),
        ifds: IfdLocations::spec_empty().with(Ifd::Primary, Some(4u32)),
        makernote: false,
    };
    let ifds = if dir.next > 0 {
        crate::exif::decode::listing(start.ifds, Ifd::Thumbnail, dir.next_location)
    } else {
        start.ifds
    };
    follow_extends(
        bytes,
        big_endian,
        start.records + dir.records,
        ifds,
        crate::exif::decode::pointer_stack(dir.records),
    );
    assert(start.records + dir.records =~= dir.records);
    let primary = after_dir(start, dir, Ifd::Primary);
    assert(starts_with(primary.records, dir.records));
    let chain = with_ifds(start, offset as int)->Ok_0;
    if dir.next != 0 {
        with_dir_at_extends(primary, dir.next as int, Ifd::Thumbnail);
    }
    assert(starts_with(chain.records, dir.records));
    match chain.registered() {
        Err(_) => {},
        Ok(registered) => {
            match (chain.makernote_entry(), chain.makernote_guess()) {
                (Some(entry), Some(internal)) => {
                    if chain.ifds.makernote.is_none() {
                        let at = entry.value_offset.raw() + internal;
                        let note = dir_at(chain.bytes, chain.big_endian, at, Ifd::MakerNote)->Ok_0;
                        let listed = Doc {
                            ifds: chain.ifds.with(
                                Ifd::MakerNote,
                                Some((entry.position + 8) as u32),
                            ),
                            ..chain
                        };
                        follow_extends(
                            listed.bytes,
                            listed.big_endian,
                            listed.records + note.records,
                            listed.ifds,
                            crate::exif::decode::pointer_stack(note.records),
                        );
                        assert forall|i: int| 0 <= i < dir.records.len() implies (
                        #[trigger] registered.records[i]) == dir.records[i] by {
                            assert((listed.records + note.records)[i] == chain.records[i]);
                        }
                    }
                },
                _ => {},
            }
        },
    }
}

/// An entry depends only on the twelve bytes of its header.
pub proof fn entry_at_same(a: Seq<u8>, b: Seq<u8>, big_endian: bool, position: int)
    requires
        0 <= position,
        a.len() == b.len(),
        forall|i: int| position <= i < position + 12 && i < a.len() ==> a[i] == b[i],
    ensures
        entry_at(a, big_endian, position) == entry_at(b, big_endian, position),
{
    if position + 12 <= a.len() {
        u16_at_same(a, b, position, position, big_endian);
        u16_at_same(a, b, position + 2, position + 2, big_endian);
        u32_at_same(a, b, position + 4, position + 4, big_endian);
        u32_at_same(a, b, position + 8, position + 8, big_endian);
    }
}

/// No two records of the index share bytes: the headers of any two of them
/// lie apart.
pub open spec fn headers_apart(records: Seq<Located>) -> bool {
    forall|i: int, j: int|
        0 <= i < records.len() && 0 <= j < records.len() && i != j ==> (
        #[trigger] records[i]).entry.position + 12 <= (#[trigger] records[j]).entry.position
            || records[j].entry.position + 12 <= records[i].entry.position
}

/// In an index that says what the bytes say and whose headers lie apart,
/// overwriting keeps every header in place and the index in step with the
/// bytes.
#[verifier::rlimit(60)]
pub proof fn overwritten_keeps_faithful(doc: Doc, tagifd: TagIfd, value: u32, k: nat)
    requires
        doc.faithful(),
        headers_apart(doc.records),
        k <= doc.records.len(),
    ensures
        ({
            let after = overwritten(doc, tagifd, value, k);
            &&& after.faithful()
            &&& after.big_endian == doc.big_endian
            &&& after.bytes.len() == doc.bytes.len()
            &&& after.records.len() == doc.records.len()
            &&& forall|j: int|
                0 <= j < doc.records.len() ==> (#[trigger] after.records[j]).entry.position
                    == doc.records[j].entry.position && after.records[j].tagifd
                    == doc.records[j].tagifd
        }),
    decreases k,
{
    if k > 0 {
        overwritten_keeps_faithful(doc, tagifd, value, (k - 1) as nat);
        let reached = overwritten(doc, tagifd, value, (k - 1) as nat);
        let after = overwritten(doc, tagifd, value, k);
        let record = reached.records[k - 1];
        if record.tagifd == tagifd {
            assert(record_matches(reached.bytes, reached.big_endian, record));
            let p = record.entry.position as int;
            let entry = rewritten(record.entry, value);
            u32_at_overwrite(reached.bytes, p + 8, value, reached.big_endian);
            assert(after.bytes == overwrite(
                reached.bytes,
                p + 8,
                u32_bytes(value, reached.big_endian),
            ));
            assert(after.records == reached.records.update(k - 1, Located { tagifd, entry }));
            assert forall|j: int| 0 <= j < after.records.len() implies record_matches(
                after.bytes,
                after.big_endian,
                #[trigger] after.records[j],
            ) by {
                let q = reached.records[j].entry.position as int;
                assert(record_matches(reached.bytes, reached.big_endian, reached.records[j]));
                if j == k - 1 {
                    u16_at_same(after.bytes, reached.bytes, p, p, reached.big_endian);
                    u16_at_same(after.bytes, reached.bytes, p + 2, p + 2, reached.big_endian);
                    u32_at_same(after.bytes, reached.bytes, p + 4, p + 4, reached.big_endian);
                } else {
                    assert(doc.records[j].entry.position == q);
                    assert(doc.records[k - 1].entry.position == p);
                    assert(q + 12 <= p || p + 12 <= q);
                    entry_at_same(after.bytes, reached.bytes, reached.big_endian, q);
                    assert(after.records[j] == reached.records[j]);
                }
            }
        }
    }
}

/// What the overwrite makes of the index: every record with the key is
/// rewritten, every other record is as it was.
pub proof fn overwritten_index(doc: Doc, tagifd: TagIfd, value: u32, k: nat)
    requires
        k <= doc.records.len(),
    ensures
        ({
            let after = overwritten(doc, tagifd, value, k);
            &&& after.big_endian == doc.big_endian
            &&& after.ifds == doc.ifds
            &&& after.makernote == doc.makernote
            &&& after.records.len() == doc.records.len()
            &&& forall|j: int|
                0 <= j < doc.records.len() ==> #[trigger] after.records[j] == (if j < k
                    && doc.records[j].tagifd == tagifd {
                    Located { tagifd, entry: rewritten(doc.records[j].entry, value) }
                } else {
                    doc.records[j]
                })
        }),
    decreases k,
{
    if k > 0 {
        overwritten_index(doc, tagifd, value, (k - 1) as nat);
    }
}

/// What an overwrite leaves: every entry with the key has its position,
/// its type, its count and the kind of its slot; the number of its slot is
/// `value`, in the index and, as a 32-bit integer in the byte order of the
/// document, in the bytes. Every other record is as it was.
pub proof fn overwrite_writes_the_value(doc: Doc, tagifd: TagIfd, value: u32, i: int)
    requires
        set_plan(doc, tagifd, value) is Ok,
        0 <= i < doc.records.len(),
    ensures
        ({
            let after = set_plan(doc, tagifd, value)->Ok_0;
            let before = doc.records[i];
            &&& after.records.len() == doc.records.len()
            &&& after.bytes.len() == doc.bytes.len()
            &&& before.tagifd != tagifd ==> after.records[i] == before
            &&& before.tagifd == tagifd ==> {
                &&& after.records[i].tagifd == tagifd
                &&& after.records[i].entry.position == before.entry.position
                &&& after.records[i].entry.data_type == before.entry.data_type
                &&& after.records[i].entry.count == before.entry.count
                &&& after.records[i].entry.value_offset == before.entry.value_offset.with_raw(value)
                &&& u32_at(after.bytes, before.entry.position + 8, doc.big_endian) == value
            }
        }),
{
    let after = overwritten(doc, tagifd, value, doc.records.len());
    overwritten_index(doc, tagifd, value, doc.records.len());
    overwritten_length(doc, tagifd, value, doc.records.len());
    assert(after.faithful());
    index_is_in_the_bytes(after, i);
}

/// An overwrite keeps the length of the bytes.
pub proof fn overwritten_length(doc: Doc, tagifd: TagIfd, value: u32, k: nat)
    requires
        k <= doc.records.len(),
    ensures
        overwritten(doc, tagifd, value, k).bytes.len() == doc.bytes.len(),
        overwritten(doc, tagifd, value, k).records.len() == doc.records.len(),
    decreases k,
{
    if k > 0 {
        overwritten_length(doc, tagifd, value, (k - 1) as nat);
    }
}

/// Reading what was written over: after the slot of a single `Short` was
/// overwritten with `value`, a lookup of the key gives the 16-bit integer
/// in the first two bytes of the slot. In a little-endian document that is
/// `value` itself where it fits in 16 bits; in a big-endian document it is
/// `v` where `value` is `v` moved up by two bytes.
pub proof fn overwrite_then_read(doc: Doc, tagifd: TagIfd, value: u32, v: u16)
    requires
        set_plan(doc, tagifd, value) is Ok,
        doc.entry(tagifd)->Some_0.data_type == Type::Short,
        doc.entry(tagifd)->Some_0.count == 1,
        doc.entry(tagifd)->Some_0.value_offset is Value,
    ensures
        set_plan(doc, tagifd, value)->Ok_0.short(tagifd) == Ok::<Option<u16>, Error>(
            Some(short_of(value, doc.big_endian)),
        ),
        !doc.big_endian && value == v ==> set_plan(doc, tagifd, value)->Ok_0.short(tagifd) == Ok::<
            Option<u16>,
            Error,
        >(Some(v)),
        doc.big_endian && value == v * 65536 ==> set_plan(doc, tagifd, value)->Ok_0.short(tagifd)
            == Ok::<Option<u16>, Error>(Some(v)),
{
    short_of_slot(v);
    let after = overwritten(doc, tagifd, value, doc.records.len());
    overwritten_index(doc, tagifd, value, doc.records.len());
    first_record_is_first(doc.records, tagifd);
    first_record_is_first(after.records, tagifd);
    let i = first_record(doc.records, tagifd)->Some_0;
    assert forall|j: int| 0 <= j < i implies (#[trigger] after.records[j]).tagifd != tagifd by {
        assert(after.records[j] == doc.records[j]);
    }
    assert(after.records[i].tagifd == tagifd);
    assert(first_record(after.records, tagifd) == Some(i));
}

/// Overwriting succeeds wherever the index says what the bytes say, the
/// headers of its records lie apart, and the key has an entry.
pub proof fn overwrite_succeeds(doc: Doc, tagifd: TagIfd, value: u32)
    requires
        doc.faithful(),
        headers_apart(doc.records),
        doc.entry(tagifd) is Some,
    ensures
        set_plan(doc, tagifd, value) is Ok,
        set_plan(doc, tagifd, value)->Ok_0.bytes.len() == doc.bytes.len(),
{
    overwritten_keeps_faithful(doc, tagifd, value, doc.records.len());
    assert forall|i: int|
        0 <= i < doc.records.len() && (#[trigger] doc.records[i]).tagifd
            == tagifd implies doc.records[i].entry.position + 12 <= doc.bytes.len() by {
        assert(record_matches(doc.bytes, doc.big_endian, doc.records[i]));
    }
}

/// The entry that an insertion adds is the last record of the index, has
/// the key that was given, and its slot holds no pointer to a directory.
pub proof fn insert_appends(doc: Doc, tagifd: TagIfd, value: EntryRef)
    requires
        inserted(doc, tagifd, value) is Ok,
    ensures
        ({
            let after = inserted(doc, tagifd, value)->Ok_0;
            &&& after.records.len() == doc.records.len() + 1
            &&& after.records.last().tagifd == tagifd
            &&& !points_to_directory(after.ifds, after.records.last().entry)
        }),
{
    let after = inserted(doc, tagifd, value)->Ok_0;
    let written = value.justified(doc.big_endian);
    let (offset, n, end) = directory_of(doc, tagifd.ifd)->Ok_0;
    let guarded = doc.guarded(end, 12)->Ok_0;
    assert(grown(guarded, tagifd, written, offset, n, end) == Ok::<Doc, Error>(after));
    let gapped = Doc {
        bytes: crate::exif::bytes::spliced(guarded.bytes, end as int, crate::exif::bytes::zeros(12)),
        ..guarded
    };
    let propagated = shifted(gapped, end, 12)->Ok_0;
    assert(entry_written(propagated, tagifd, written, offset, n, end) == Ok::<Doc, Error>(after));
    assert(grown_from(doc, after));
    assert(after.records == propagated.records.push(after.records.last()));
    assert(after.records.last().entry.position == end);
    assert(after.ifds == propagated.ifds);
    shift_moves_index(gapped, end, 12);
    assert forall|k: int| 0 <= k < 6 implies #[trigger] after.ifds.spec_get(ifd_number(k)) != Some(
        (end + 8) as u32,
    ) by {
        pointer_plans_in_bounds(gapped, end, 12, 6, k);
    }
}

/// A single `Short` with the value `x`, as it is handed to an insertion.
pub open spec fn a_short(x: u16) -> EntryRef {
    EntryRef {
        position: 0,
        data_type: Type::Short,
        count: 1,
        value_offset: ValueOffset::Value(x as u32),
    }
}

/// What one insertion of a `Short` under a new key gives and keeps, in a
/// document whose index says what its bytes say: the new key reads its
/// value; a key that read a `Short` from a slot that holds no pointer to
/// a directory reads it still, from such a slot; a key with out-of-line
/// data reads the same data; the maker note stays where it is; and the
/// index still says what the bytes say.
pub proof fn insert_one_short(doc: Doc, tagifd: TagIfd, x: u16, other: TagIfd)
    requires
        doc.faithful(),
        inserted(doc, tagifd, a_short(x)) is Ok,
        doc.entry(tagifd) is None,
        other != tagifd,
    ensures
        ({
            let after = inserted(doc, tagifd, a_short(x))->Ok_0;
            &&& after.faithful()
            &&& makernote_fixed(doc, after)
            &&& after.short(tagifd) == Ok::<Option<u16>, Error>(Some(x))
            &&& after.entry(tagifd) is Some
            &&& after.entry(tagifd)->Some_0.value_offset is Value
            &&& !points_to_directory(after.ifds, after.entry(tagifd)->Some_0)
            &&& doc.entry(other) is None ==> after.entry(other) is None
            &&& doc.entry(other) is Some ==> {
                &&& after.entry(other) is Some
                &&& after.entry(other)->Some_0.value_offset is Value == doc.entry(
                    other,
                )->Some_0.value_offset is Value
                &&& points_to_directory(after.ifds, after.entry(other)->Some_0)
                    == points_to_directory(doc.ifds, doc.entry(other)->Some_0)
                &&& (doc.entry(other)->Some_0.value_offset is Offset && doc.data(other) is Ok
                    ==> after.data(other) == doc.data(other))
                &&& (doc.entry(other)->Some_0.value_offset is Value && !points_to_directory(
                    doc.ifds,
                    doc.entry(other)->Some_0,
                ) ==> after.short(other) == doc.short(other) && after.data(other) == doc.data(
                    other,
                ))
            }
        }),
{
    let after = inserted(doc, tagifd, a_short(x))->Ok_0;
    insert_keeps_entries(doc, tagifd, a_short(x));
    insert_appends(doc, tagifd, a_short(x));
    insert_then_read(doc, tagifd, a_short(x), x);
    first_record_is_first(doc.records, tagifd);
    first_record_is_first(after.records, tagifd);
    assert forall|j: int| 0 <= j < doc.records.len() implies (#[trigger] after.records[j]).tagifd
        != tagifd by {
        assert(record_kept(doc, after, doc.records[j], after.records[j]));
    }
    assert(first_record(after.records, tagifd) == Some(doc.records.len() as int));
    assert(after.entry(tagifd) == Some(after.records.last().entry));
    if doc.entry(other) is None {
        absent_stays_absent(doc, after, other);
    } else {
        kept_entries_read_the_same(doc, after, other);
    }
}

/// Three insertions in a row. Into a document whose index says what its
/// bytes say, three `Short`s are inserted under three new keys, one after
/// the other. After each insertion the maker note is where it was before
/// the first; the key `kept`, whose data is out of line, reads the data
/// that it read before the first; and every key inserted so far reads its
/// value.
pub proof fn three_inserts(
    doc: Doc,
    first: (TagIfd, u16),
    second: (TagIfd, u16),
    third: (TagIfd, u16),
    kept: TagIfd,
)
    requires
        doc.faithful(),
        first.0 != second.0,
        first.0 != third.0,
        second.0 != third.0,
        kept != first.0,
        kept != second.0,
        kept != third.0,
        doc.entry(first.0) is None,
        doc.entry(second.0) is None,
        doc.entry(third.0) is None,
        doc.entry(kept) is Some,
        doc.entry(kept)->Some_0.value_offset is Offset,
        doc.data(kept) is Ok,
        inserted(doc, first.0, a_short(first.1)) is Ok,
        inserted(inserted(doc, first.0, a_short(first.1))->Ok_0, second.0, a_short(second.1)) is Ok,
        inserted(
            inserted(
                inserted(doc, first.0, a_short(first.1))->Ok_0,
                second.0,
                a_short(second.1),
            )->Ok_0,
            third.0,
            a_short(third.1),
        ) is Ok,
    ensures
        ({
            let one = inserted(doc, first.0, a_short(first.1))->Ok_0;
            let two = inserted(one, second.0, a_short(second.1))->Ok_0;
            let three = inserted(two, third.0, a_short(third.1))->Ok_0;
            &&& makernote_fixed(doc, one)
            &&& makernote_fixed(doc, two)
            &&& makernote_fixed(doc, three)
            &&& one.data(kept) == doc.data(kept)
            &&& two.data(kept) == doc.data(kept)
            &&& three.data(kept) == doc.data(kept)
            &&& one.short(first.0) == Ok::<Option<u16>, Error>(Some(first.1))
            &&& two.short(first.0) == Ok::<Option<u16>, Error>(Some(first.1))
            &&& two.short(second.0) == Ok::<Option<u16>, Error>(Some(second.1))
            &&& three.short(first.0) == Ok::<Option<u16>, Error>(Some(first.1))
            &&& three.short(second.0) == Ok::<Option<u16>, Error>(Some(second.1))
            &&& three.short(third.0) == Ok::<Option<u16>, Error>(Some(third.1))
        }),
{
    let one = inserted(doc, first.0, a_short(first.1))->Ok_0;
    let two = inserted(one, second.0, a_short(second.1))->Ok_0;
    let three = inserted(two, third.0, a_short(third.1))->Ok_0;
    insert_one_short(doc, first.0, first.1, second.0);
    insert_one_short(doc, first.0, first.1, third.0);
    insert_one_short(doc, first.0, first.1, kept);
    insert_one_short(one, second.0, second.1, first.0);
    insert_one_short(one, second.0, second.1, third.0);
    insert_one_short(one, second.0, second.1, kept);
    insert_one_short(two, third.0, third.1, first.0);
    insert_one_short(two, third.0, third.1, second.0);
    insert_one_short(two, third.0, third.1, kept);
    makernote_stays(doc, one, two);
    makernote_stays(doc, two, three);
}

/// Offset propagation in the index and in the bytes. Where propagation
/// for `len` bytes at `at` leaves an index that says what the bytes say,
/// every record whose slot holds no pointer to a directory has moved: its
/// position and its out-of-line offset lie `len` further on if they lay at
/// or behind `at`, and an inline value is the same. The four bytes of its
/// slot, at its new position, hold that offset or value as a 32-bit
/// integer in the byte order of the document.
pub proof fn shift_in_index_and_bytes(doc: Doc, at: u32, len: int, i: int)
    requires
        shifted(doc, at, len) is Ok,
        shifted(doc, at, len)->Ok_0.faithful(),
        0 <= i < doc.records.len(),
    ensures
        ({
            let after = shifted(doc, at, len)->Ok_0;
            let before = doc.records[i].entry;
            let now = after.records[i].entry;
            &&& after.records.len() == doc.records.len()
            &&& after.records[i].tagifd == doc.records[i].tagifd
            &&& !points_to_directory(after.ifds, now) ==> entry_moved(before, now, at, len)
            &&& now.position + 12 <= after.bytes.len()
            &&& u32_at(after.bytes, now.position + 8, after.big_endian) == now.value_offset.raw()
            &&& after.bytes.subrange(now.position + 8, now.position + 12) == u32_bytes(
                now.value_offset.raw(),
                after.big_endian,
            )
        }),
{
    let after = shifted(doc, at, len)->Ok_0;
    shift_moves_index(doc, at, len);
    index_is_in_the_bytes(after, i);
    assert(record_matches(after.bytes, after.big_endian, after.records[i]));
    u32_bytes_of_at(after.bytes, after.records[i].entry.position + 8, after.big_endian);
}

/// After a move the bytes stand at the new place, zeros stand at the old
/// one, the index says what the bytes say, and every record is kept: it
/// reads the data that it read.
pub proof fn move_keeps_data(doc: Doc, start: u32, end: u32, to: u32)
    requires
        relocation(doc, start, end, to) is Ok,
    ensures
        ({
            let after = relocation(doc, start, end, to)->Ok_0;
            &&& after.bytes.len() == doc.bytes.len() + (end - start)
            &&& after.bytes.subrange(to as int, to + (end - start)) == doc.bytes.subrange(
                start as int,
                end as int,
            )
            &&& after.bytes.subrange(start as int, end as int) == crate::exif::bytes::zeros(
                (end - start) as nat,
            )
            &&& intact(doc, after)
        }),
{
}

/// After the data of an entry was moved, the index says what the bytes say
/// and every record is kept: it reads the data that it read, the moved
/// entry too.
pub proof fn entry_move_keeps_data(doc: Doc, i: int, to: u32)
    requires
        entry_relocation(doc, i, to) is Ok,
    ensures
        intact(doc, entry_relocation(doc, i, to)->Ok_0),
{
}

/// After freeing, at least `len` bytes are free before the position, and
/// every record is kept.
pub proof fn freeing_makes_room(doc: Doc, before_position: u32, len: u32, post_here: u32)
    requires
        freeing(doc, before_position, len, post_here) is Ok,
    ensures
        has_room(freeing(doc, before_position, len, post_here)->Ok_0, before_position, len),
        intact(doc, freeing(doc, before_position, len, post_here)->Ok_0),
{
}

/// After the guard has acted, the maker note lies `len` bytes earlier, so
/// that an insertion of `len` bytes before it brings it back; where the
/// guard has nothing to do, nothing changes.
pub proof fn guard_moves_makernote(doc: Doc, insert_position: u32, len: u32)
    requires
        guarding(doc, insert_position, len) is Ok,
    ensures
        ({
            let after = guarding(doc, insert_position, len)->Ok_0;
            &&& guard_acts(doc, insert_position) ==> after.makernote_entry() is Some
                && after.makernote_entry()->Some_0.value_offset.raw() + len
                == doc.makernote_entry()->Some_0.value_offset.raw() && after.faithful()
            &&& !guard_acts(doc, insert_position) ==> after == doc
        }),
{
    let after = guarding(doc, insert_position, len)->Ok_0;
    assert(prepared(doc, after, insert_position, len));
}

} // verus!
