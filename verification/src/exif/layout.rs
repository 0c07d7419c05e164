//! When an insertion is owed: documents whose structures lie apart.
use vstd::prelude::*;
use crate::common::exif::{Ifd, Tag, TagIfd};
use crate::exif::bytes::{
    overwrite, spliced, u16_at, u16_at_same, u32_at, u32_at_overwrite, u32_at_same, u32_bytes,
    zeros,
};
use crate::exif::document::{record_matches, Doc, IfdLocations, Located};
use crate::exif::bytes::u16_bytes;
use crate::exif::edit::{
    apply_plan, apply_plans, directory_of, entry_bytes, entry_written, grown, grown_from,
    ifd_number, inserted, makernote_fixed, pointer_plan, pointer_plans, points_to_directory,
    record_kept,
    records_kept, shift_record, shift_records, shifted, shifted_u32, with_slot,
};
use crate::exif::field_type::Type;
use crate::exif::laws::entry_at_written;
use crate::exif::entry::{entry_at, EntryRef, ValueOffset};
use crate::exif::error::Error;
use crate::exif::laws::headers_apart;
use crate::exif::lookup::data_of;

verus! {

/// Whether two ranges of bytes lie apart.
pub open spec fn apart(a: int, a_len: int, b: int, b_len: int) -> bool {
    a + a_len <= b || b + b_len <= a
}

/// Whether a range of bytes lies on one side of a position.
pub open spec fn beside(a: int, a_len: int, cut: int) -> bool {
    a + a_len <= cut || cut <= a
}

/// Where a position lies after twelve bytes were inserted at `end`.
pub open spec fn mv(x: u32, end: u32) -> u32 {
    if x >= end {
        (x + 12) as u32
    } else {
        x
    }
}

/// The document with twelve zero bytes inserted at `end`.
pub open spec fn gapped(doc: Doc, end: u32) -> Doc {
    Doc { bytes: spliced(doc.bytes, end as int, zeros(12)), ..doc }
}

/// A record after twelve bytes were inserted at `end`.
pub open spec fn moved_record(record: Located, end: u32) -> Located {
    Located {
        tagifd: record.tagifd,
        entry: EntryRef {
            position: mv(record.entry.position, end),
            value_offset: match record.entry.value_offset {
                ValueOffset::Offset(o) => ValueOffset::Offset(mv(o, end)),
                ValueOffset::Value(v) => ValueOffset::Value(v),
            },
            ..record.entry
        },
    }
}

/// Whether the slot of a pointer to a directory lies apart from what an
/// insertion into the directory at `offset`, whose entries end at `end`,
/// touches: it lies inside the bytes and on one side of `end`, off the
/// number of entries of the directory, and off the header of every record
/// unless it is the slot of the record; and the pointer in it is no larger
/// than the document.
pub open spec fn slot_apart(doc: Doc, location: u32, offset: u32, end: u32) -> bool {
    &&& location + 4 <= doc.bytes.len()
    &&& beside(location as int, 4, end as int)
    &&& apart(location as int, 4, offset as int, 2)
    &&& u32_at(doc.bytes, location as int, doc.big_endian) <= doc.bytes.len()
    &&& forall|i: int|
        0 <= i < doc.records.len() ==> location == (#[trigger] doc.records[i]).entry.position + 8
            || apart(location as int, 4, doc.records[i].entry.position as int, 12)
}

/// Whether out-of-line data lies apart from what an insertion touches: on
/// one side of `end`, off the number of entries of the directory, off the
/// header of every record and off the slot of every pointer to a directory.
pub open spec fn data_apart(doc: Doc, start: int, len: int, offset: u32, end: u32) -> bool {
    &&& beside(start, len, end as int)
    &&& apart(start, len, offset as int, 2)
    &&& forall|i: int|
        0 <= i < doc.records.len() ==> apart(
            start,
            len,
            (#[trigger] doc.records[i]).entry.position as int,
            12,
        )
    &&& forall|k: int|
        0 <= k < 6 ==> match #[trigger] doc.ifds.spec_get(ifd_number(k)) {
            Some(location) => apart(start, len, location as int, 4),
            None => true,
        }
}

/// A document whose structures lie apart, seen from the directory at
/// `offset` whose entries end at `end`: the index says what the bytes say;
/// the headers of the records lie apart from each other, on one side of
/// `end` and off the number of entries of the directory; offsets are no
/// larger than the document; the slots of the pointers to directories and
/// the out-of-line data that can be read lie apart from all of these; and
/// the document is so small that 24 more bytes can be addressed.
pub open spec fn well_laid_out(doc: Doc, offset: u32, end: u32) -> bool {
    &&& doc.faithful()
    &&& doc.bytes.len() + 24 <= u32::MAX
    &&& offset + 2 <= end <= doc.bytes.len()
    &&& headers_apart(doc.records)
    &&& forall|i: int|
        0 <= i < doc.records.len() ==> {
            let entry = (#[trigger] doc.records[i]).entry;
            &&& beside(entry.position as int, 12, end as int)
            &&& apart(entry.position as int, 12, offset as int, 2)
            &&& (entry.value_offset is Offset ==> entry.value_offset.raw() <= doc.bytes.len())
            &&& (entry.value_offset is Offset && data_of(doc, entry) is Ok ==> data_apart(
                doc,
                entry.value_offset.raw() as int,
                entry.spec_data_len(),
                offset,
                end,
            ))
        }
    &&& forall|k: int|
        0 <= k < 6 ==> match #[trigger] doc.ifds.spec_get(ifd_number(k)) {
            Some(location) => slot_apart(doc, location, offset, end),
            None => true,
        }
}

/// The bytes of the document with the gap are those of the document, moved
/// on behind the gap.
pub proof fn gapped_bytes(doc: Doc, end: u32)
    requires
        end <= doc.bytes.len(),
        doc.bytes.len() + 24 <= u32::MAX,
    ensures
        gapped(doc, end).bytes.len() == doc.bytes.len() + 12,
        forall|x: int|
            0 <= x < end ==> #[trigger] gapped(doc, end).bytes[x] == doc.bytes[x],
        forall|x: int|
            end <= x < doc.bytes.len() ==> #[trigger] gapped(doc, end).bytes[x + 12]
                == doc.bytes[x],
{
}

/// What lies on one side of the gap reads in the document with the gap as
/// it did before.
pub proof fn gapped_range(doc: Doc, end: u32, start: u32, len: int)
    requires
        end <= doc.bytes.len(),
        doc.bytes.len() + 24 <= u32::MAX,
        0 <= len,
        start + len <= doc.bytes.len(),
        beside(start as int, len, end as int),
    ensures
        mv(start, end) + len <= doc.bytes.len() + 12,
        forall|t: int|
            0 <= t < len ==> #[trigger] gapped(doc, end).bytes[mv(start, end) + t]
                == doc.bytes[start + t],
        len > 0 ==> beside(mv(start, end) as int, len, end as int) && apart(
            mv(start, end) as int,
            len,
            end as int,
            12,
        ),
{
    gapped_bytes(doc, end);
    assert forall|t: int| 0 <= t < len implies #[trigger] gapped(doc, end).bytes[mv(start, end)
        + t] == doc.bytes[start + t] by {
        if start >= end {
            assert(gapped(doc, end).bytes[(start + t) + 12] == doc.bytes[start + t]);
        } else {
            if len > 0 {
                assert(start + t < end);
            }
            assert(gapped(doc, end).bytes[start + t] == doc.bytes[start + t]);
        }
    }
}

/// Two ranges that lie apart, each on one side of the gap, lie apart behind
/// the gap as well.
pub proof fn moved_apart(a: u32, a_len: int, b: u32, b_len: int, end: u32)
    requires
        0 < a_len,
        0 < b_len,
        a + a_len + 12 <= u32::MAX,
        b + b_len + 12 <= u32::MAX,
        apart(a as int, a_len, b as int, b_len),
        beside(a as int, a_len, end as int),
        beside(b as int, b_len, end as int),
    ensures
        apart(mv(a, end) as int, a_len, mv(b, end) as int, b_len),
{
}

/// Whether the byte at `x` belongs to a slot that offset propagation may
/// write: the slot of a record or of a pointer to a directory, where they
/// lie behind the gap.
pub open spec fn in_slot(doc: Doc, end: u32, x: int) -> bool {
    ||| exists|i: int|
        0 <= i < doc.records.len() && mv((#[trigger] doc.records[i]).entry.position, end) + 8 <= x
            < mv(doc.records[i].entry.position, end) + 12
    ||| exists|k: int|
        0 <= k < 6 && (#[trigger] doc.ifds.spec_get(ifd_number(k))) is Some && mv(
            doc.ifds.spec_get(ifd_number(k))->Some_0,
            end,
        ) <= x < mv(doc.ifds.spec_get(ifd_number(k))->Some_0, end) + 4
}

/// The header at `position` has the tag, type and count that it has in
/// `base`, and the number `raw` in its slot.
pub open spec fn mirrors(
    cur: Seq<u8>,
    base: Seq<u8>,
    big_endian: bool,
    position: int,
    raw: u32,
) -> bool {
    &&& 0 <= position
    &&& position + 12 <= cur.len()
    &&& cur.len() == base.len()
    &&& forall|t: int| 0 <= t < 8 ==> #[trigger] cur[position + t] == base[position + t]
    &&& u32_at(cur, position + 8, big_endian) == raw
}

/// The number in the slot of a record while the first `k` records are
/// shifted.
pub open spec fn raw_at_step(doc: Doc, end: u32, i: int, k: int) -> u32 {
    if i < k {
        moved_record(doc.records[i], end).entry.value_offset.raw()
    } else {
        doc.records[i].entry.value_offset.raw()
    }
}

/// The state of offset propagation after the first `k` records were
/// shifted: they have moved, in the index and in the bytes, and nothing
/// else has changed.
pub open spec fn stepped(doc: Doc, end: u32, cur: Doc, k: int) -> bool {
    let base = gapped(doc, end);
    &&& cur.big_endian == doc.big_endian
    &&& cur.makernote == doc.makernote
    &&& cur.ifds == doc.ifds
    &&& cur.bytes.len() == base.bytes.len()
    &&& cur.records.len() == doc.records.len()
    &&& forall|i: int|
        0 <= i < doc.records.len() ==> #[trigger] cur.records[i] == (if i < k {
            moved_record(doc.records[i], end)
        } else {
            doc.records[i]
        })
    &&& forall|i: int|
        0 <= i < doc.records.len() ==> mirrors(
            cur.bytes,
            base.bytes,
            doc.big_endian,
            mv((#[trigger] doc.records[i]).entry.position, end) as int,
            raw_at_step(doc, end, i, k),
        )
    &&& forall|x: int|
        0 <= x < cur.bytes.len() && !in_slot(doc, end, x) ==> #[trigger] cur.bytes[x]
            == base.bytes[x]
}

/// What a faithful record says of the bytes of its header.
pub proof fn record_bytes(doc: Doc, i: int)
    requires
        doc.faithful(),
        0 <= i < doc.records.len(),
    ensures
        ({
            let record = doc.records[i];
            let p = record.entry.position as int;
            &&& p + 12 <= doc.bytes.len()
            &&& p + 12 <= u32::MAX
            &&& record.tagifd.tag.0 == u16_at(doc.bytes, p, doc.big_endian)
            &&& record.entry.data_type == crate::exif::field_type::Type::of_code(
                u16_at(doc.bytes, p + 2, doc.big_endian),
            )
            &&& record.entry.count == u32_at(doc.bytes, p + 4, doc.big_endian)
            &&& record.entry.value_offset.raw() == u32_at(doc.bytes, p + 8, doc.big_endian)
            &&& ValueOffset::spec_new(
                record.entry.data_type,
                record.entry.count,
                record.entry.value_offset.raw(),
            ) == Ok::<ValueOffset, Error>(record.entry.value_offset)
        }),
{
    assert(record_matches(doc.bytes, doc.big_endian, doc.records[i]));
}

/// Before any record is shifted, the bytes with the gap mirror the index.
pub proof fn stepped_at_start(doc: Doc, offset: u32, end: u32)
    requires
        well_laid_out(doc, offset, end),
    ensures
        stepped(doc, end, gapped(doc, end), 0),
{
    let base = gapped(doc, end);
    gapped_bytes(doc, end);
    assert forall|i: int| 0 <= i < doc.records.len() implies mirrors(
        base.bytes,
        base.bytes,
        doc.big_endian,
        mv((#[trigger] doc.records[i]).entry.position, end) as int,
        raw_at_step(doc, end, i, 0),
    ) by {
        record_bytes(doc, i);
        let p = doc.records[i].entry.position;
        gapped_range(doc, end, p, 12);
        let q = mv(p, end) as int;
        assert(base.bytes[q + 8] == doc.bytes[p + 8]);
        assert(base.bytes[q + 9] == doc.bytes[p + 9]);
        assert(base.bytes[q + 10] == doc.bytes[p + 10]);
        assert(base.bytes[q + 11] == doc.bytes[p + 11]);
        u32_at_same(base.bytes, doc.bytes, q + 8, p + 8, doc.big_endian);
    }
}

/// A header keeps what it mirrors when bytes apart from it are
/// overwritten.
pub proof fn mirrors_after_overwrite(
    before: Seq<u8>,
    base: Seq<u8>,
    big_endian: bool,
    at: int,
    data: Seq<u8>,
    position: int,
    raw: u32,
)
    requires
        mirrors(before, base, big_endian, position, raw),
        0 <= at,
        at + data.len() <= before.len(),
        apart(at, data.len() as int, position, 12),
    ensures
        mirrors(overwrite(before, at, data), base, big_endian, position, raw),
{
    let after = overwrite(before, at, data);
    assert forall|t: int| 0 <= t < 8 implies #[trigger] after[position + t] == base[position
        + t] by {
        assert(before[position + t] == base[position + t]);
    }
    u32_at_same(after, before, position + 8, position + 8, big_endian);
}

/// A header whose slot is overwritten mirrors the new number.
pub proof fn mirrors_own_write(
    before: Seq<u8>,
    base: Seq<u8>,
    big_endian: bool,
    position: int,
    value: u32,
    raw: u32,
)
    requires
        mirrors(before, base, big_endian, position, raw),
    ensures
        mirrors(
            overwrite(before, position + 8, u32_bytes(value, big_endian)),
            base,
            big_endian,
            position,
            value,
        ),
{
    let after = overwrite(before, position + 8, u32_bytes(value, big_endian));
    assert forall|t: int| 0 <= t < 8 implies #[trigger] after[position + t] == base[position
        + t] by {
        assert(before[position + t] == base[position + t]);
    }
    u32_at_overwrite(before, position + 8, value, big_endian);
}

/// What moving the record `k` does to the state of offset propagation.
#[verifier::rlimit(60)]
pub proof fn shift_record_stepped(doc: Doc, offset: u32, end: u32, prev: Doc, k: int)
    requires
        well_laid_out(doc, offset, end),
        0 <= k < doc.records.len(),
        stepped(doc, end, prev, k),
    ensures
        shift_record(prev, k, end, 12) is Ok,
        stepped(doc, end, shift_record(prev, k, end, 12)->Ok_0, k + 1),
{
    let base = gapped(doc, end);
    gapped_bytes(doc, end);
    let record = doc.records[k];
    assert(prev.records[k] == record);
    record_bytes(doc, k);
    let p = record.entry.position;
    let q = mv(p, end);
    gapped_range(doc, end, p, 12);
    assert(shifted_u32(p, end, 12) == Ok::<u32, Error>(q));
    let raw = record.entry.value_offset.raw();
    if record.entry.value_offset is Offset {
        assert(shifted_u32(raw, end, 12) == Ok::<u32, Error>(mv(raw, end)));
    }
    let written = record.entry.value_offset is Offset && raw >= end;
    let cur = shift_record(prev, k, end, 12)->Ok_0;
    assert(shift_record(prev, k, end, 12) is Ok);
    assert(cur.records == prev.records.update(k, moved_record(record, end)));
    assert(cur.bytes == (if written {
        overwrite(prev.bytes, q + 8, u32_bytes(mv(raw, end), doc.big_endian))
    } else {
        prev.bytes
    }));
    assert forall|i: int| 0 <= i < doc.records.len() implies #[trigger] cur.records[i] == (if i
        < k + 1 {
        moved_record(doc.records[i], end)
    } else {
        doc.records[i]
    }) by {
        if i != k {
            assert(cur.records[i] == prev.records[i]);
        }
    }
    assert forall|i: int| 0 <= i < doc.records.len() implies mirrors(
        cur.bytes,
        base.bytes,
        doc.big_endian,
        mv((#[trigger] doc.records[i]).entry.position, end) as int,
        raw_at_step(doc, end, i, k + 1),
    ) by {
        let pi = doc.records[i].entry.position;
        let qi = mv(pi, end) as int;
        assert(mirrors(prev.bytes, base.bytes, doc.big_endian, qi, raw_at_step(doc, end, i, k)));
        if written {
            if i == k {
                mirrors_own_write(
                    prev.bytes,
                    base.bytes,
                    doc.big_endian,
                    qi,
                    mv(raw, end),
                    raw_at_step(doc, end, i, k),
                );
            } else {
                record_bytes(doc, i);
                moved_apart(pi, 12, p, 12, end);
                mirrors_after_overwrite(
                    prev.bytes,
                    base.bytes,
                    doc.big_endian,
                    q + 8,
                    u32_bytes(mv(raw, end), doc.big_endian),
                    qi,
                    raw_at_step(doc, end, i, k),
                );
            }
        }
    }
    assert forall|x: int| 0 <= x < cur.bytes.len() && !in_slot(doc, end, x) implies (
    #[trigger] cur.bytes[x]) == base.bytes[x] by {
        assert(prev.bytes[x] == base.bytes[x]);
        if written && q + 8 <= x < q + 12 {
            assert(mv(doc.records[k].entry.position, end) + 8 <= x < mv(
                doc.records[k].entry.position,
                end,
            ) + 12);
            assert(in_slot(doc, end, x));
        }
    }
}

/// Shifting the records of a document whose structures lie apart works,
/// and moves each record, in the index and in the bytes.
pub proof fn shift_records_stepped(doc: Doc, offset: u32, end: u32, k: nat)
    requires
        well_laid_out(doc, offset, end),
        k <= doc.records.len(),
    ensures
        shift_records(gapped(doc, end), end, 12, k) is Ok,
        stepped(doc, end, shift_records(gapped(doc, end), end, 12, k)->Ok_0, k as int),
    decreases k,
{
    if k == 0 {
        stepped_at_start(doc, offset, end);
    } else {
        shift_records_stepped(doc, offset, end, (k - 1) as nat);
        let prev = shift_records(gapped(doc, end), end, 12, (k - 1) as nat)->Ok_0;
        shift_record_stepped(doc, offset, end, prev, k - 1);
    }
}

/// What offset propagation plans for the pointer to the directory `k`: its
/// slot and the pointer in it, both moved behind the gap.
pub open spec fn plan_of(doc: Doc, end: u32, k: int) -> Option<(u32, u32)> {
    match doc.ifds.spec_get(ifd_number(k)) {
        Some(location) => Some(
            (
                mv(location, end),
                mv(u32_at(doc.bytes, location as int, doc.big_endian), end),
            ),
        ),
        None => None,
    }
}

/// The plans for the pointers of a document whose structures lie apart can
/// be made.
pub proof fn plans_made(doc: Doc, offset: u32, end: u32, k: nat)
    requires
        well_laid_out(doc, offset, end),
        k <= 6,
    ensures
        pointer_plans(gapped(doc, end), end, 12, k) is Ok,
        pointer_plans(gapped(doc, end), end, 12, k)->Ok_0.len() == k,
        forall|j: int|
            0 <= j < k ==> #[trigger] pointer_plans(gapped(doc, end), end, 12, k)->Ok_0[j]
                == plan_of(doc, end, j),
    decreases k,
{
    if k > 0 {
        plans_made(doc, offset, end, (k - 1) as nat);
        let base = gapped(doc, end);
        gapped_bytes(doc, end);
        match doc.ifds.spec_get(ifd_number(k - 1)) {
            None => {},
            Some(location) => {
                assert(slot_apart(doc, location, offset, end));
                gapped_range(doc, end, location, 4);
                let slot = mv(location, end) as int;
                assert(base.bytes[slot + 0] == doc.bytes[location + 0]);
                assert(base.bytes[slot + 1] == doc.bytes[location + 1]);
                assert(base.bytes[slot + 2] == doc.bytes[location + 2]);
                assert(base.bytes[slot + 3] == doc.bytes[location + 3]);
                u32_at_same(base.bytes, doc.bytes, slot, location as int, doc.big_endian);
                assert(shifted_u32(location, end, 12) == Ok::<u32, Error>(mv(location, end)));
                let pointer = u32_at(doc.bytes, location as int, doc.big_endian);
                assert(shifted_u32(pointer, end, 12) == Ok::<u32, Error>(mv(pointer, end)));
                assert(pointer_plan(base, ifd_number(k - 1), end, 12) == Ok::<
                    Option<(u32, u32)>,
                    Error,
                >(plan_of(doc, end, k - 1)));
            },
        }
        let before = pointer_plans(base, end, 12, (k - 1) as nat)->Ok_0;
        let now = pointer_plans(base, end, 12, k)->Ok_0;
        assert(now == before.push(plan_of(doc, end, k - 1)));
        assert forall|j: int| 0 <= j < k implies #[trigger] now[j] == plan_of(doc, end, j) by {
            if j < k - 1 {
                assert(now[j] == before[j]);
            }
        }
    }
}

/// What has come of a record when offset propagation is over: it has its
/// key, type, count and kind of slot; its header lies behind the gap; and
/// its out-of-line offset has moved behind the gap.
pub open spec fn settled(before: Located, after: Located, end: u32) -> bool {
    &&& after.tagifd == before.tagifd
    &&& after.entry.position == mv(before.entry.position, end)
    &&& after.entry.data_type == before.entry.data_type
    &&& after.entry.count == before.entry.count
    &&& match before.entry.value_offset {
        ValueOffset::Offset(o) => after.entry.value_offset == ValueOffset::Offset(mv(o, end)),
        ValueOffset::Value(_) => after.entry.value_offset is Value,
    }
}

/// The state of offset propagation after the plans for the first `k`
/// pointers were carried out.
pub open spec fn planned(doc: Doc, end: u32, cur: Doc, k: int) -> bool {
    let base = gapped(doc, end);
    &&& cur.big_endian == doc.big_endian
    &&& cur.makernote == doc.makernote
    &&& cur.bytes.len() == base.bytes.len()
    &&& cur.records.len() == doc.records.len()
    &&& forall|j: int|
        0 <= j < 6 ==> #[trigger] cur.ifds.spec_get(ifd_number(j)) == (if j < k {
            match doc.ifds.spec_get(ifd_number(j)) {
                Some(location) => Some(mv(location, end)),
                None => None,
            }
        } else {
            doc.ifds.spec_get(ifd_number(j))
        })
    &&& forall|i: int|
        0 <= i < doc.records.len() ==> settled(doc.records[i], #[trigger] cur.records[i], end)
    &&& forall|i: int|
        0 <= i < doc.records.len() ==> mirrors(
            cur.bytes,
            base.bytes,
            doc.big_endian,
            mv((#[trigger] doc.records[i]).entry.position, end) as int,
            cur.records[i].entry.value_offset.raw(),
        )
    &&& forall|x: int|
        0 <= x < cur.bytes.len() && !in_slot(doc, end, x) ==> #[trigger] cur.bytes[x]
            == base.bytes[x]
}

/// When the records are shifted, no pointer is yet.
pub proof fn planned_at_start(doc: Doc, offset: u32, end: u32)
    requires
        well_laid_out(doc, offset, end),
    ensures
        shift_records(gapped(doc, end), end, 12, doc.records.len()) is Ok,
        planned(
            doc,
            end,
            shift_records(gapped(doc, end), end, 12, doc.records.len())->Ok_0,
            0,
        ),
{
    shift_records_stepped(doc, offset, end, doc.records.len());
    let cur = shift_records(gapped(doc, end), end, 12, doc.records.len())->Ok_0;
    let n = doc.records.len() as int;
    assert forall|i: int| 0 <= i < doc.records.len() implies settled(
        doc.records[i],
        #[trigger] cur.records[i],
        end,
    ) by {
        assert(cur.records[i] == moved_record(doc.records[i], end));
    }
    assert forall|i: int| 0 <= i < doc.records.len() implies mirrors(
        cur.bytes,
        gapped(doc, end).bytes,
        doc.big_endian,
        mv((#[trigger] doc.records[i]).entry.position, end) as int,
        cur.records[i].entry.value_offset.raw(),
    ) by {
        assert(cur.records[i] == moved_record(doc.records[i], end));
        assert(raw_at_step(doc, end, i, n) == cur.records[i].entry.value_offset.raw());
    }
}

/// What carrying out the plan for the pointer `k` does to the state of
/// offset propagation.
#[verifier::rlimit(60)]
pub proof fn apply_plan_planned(doc: Doc, offset: u32, end: u32, prev: Doc, k: int)
    requires
        well_laid_out(doc, offset, end),
        0 <= k < 6,
        planned(doc, end, prev, k),
    ensures
        planned(doc, end, apply_plan(prev, ifd_number(k), plan_of(doc, end, k)), k + 1),
{
    let base = gapped(doc, end);
    gapped_bytes(doc, end);
    let cur = apply_plan(prev, ifd_number(k), plan_of(doc, end, k));
    match doc.ifds.spec_get(ifd_number(k)) {
        None => {
            assert(cur == prev);
            assert forall|j: int| 0 <= j < 6 implies #[trigger] cur.ifds.spec_get(ifd_number(j))
                == (if j < k + 1 {
                match doc.ifds.spec_get(ifd_number(j)) {
                    Some(location) => Some(mv(location, end)),
                    None => None,
                }
            } else {
                doc.ifds.spec_get(ifd_number(j))
            }) by {}
        },
        Some(location) => {
            assert(slot_apart(doc, location, offset, end));
            let slot = mv(location, end);
            let old_pointer = u32_at(doc.bytes, location as int, doc.big_endian);
            let pointer = mv(old_pointer, end);
            gapped_range(doc, end, location, 4);
            let data = u32_bytes(pointer, doc.big_endian);
            assert(cur.bytes == overwrite(prev.bytes, slot as int, data));
            assert(cur.records == with_slot(prev.records, slot, pointer));
            assert forall|j: int| 0 <= j < 6 implies #[trigger] cur.ifds.spec_get(ifd_number(j))
                == (if j < k + 1 {
                match doc.ifds.spec_get(ifd_number(j)) {
                    Some(location) => Some(mv(location, end)),
                    None => None,
                }
            } else {
                doc.ifds.spec_get(ifd_number(j))
            }) by {
                assert(prev.ifds.spec_get(ifd_number(j)) == (if j < k {
                    match doc.ifds.spec_get(ifd_number(j)) {
                        Some(location) => Some(mv(location, end)),
                        None => None,
                    }
                } else {
                    doc.ifds.spec_get(ifd_number(j))
                }));
            }
            assert forall|i: int| 0 <= i < doc.records.len() implies settled(
                doc.records[i],
                #[trigger] cur.records[i],
                end,
            ) && mirrors(
                cur.bytes,
                base.bytes,
                doc.big_endian,
                mv(doc.records[i].entry.position, end) as int,
                cur.records[i].entry.value_offset.raw(),
            ) by {
                let pi = doc.records[i].entry.position;
                let qi = mv(pi, end);
                record_bytes(doc, i);
                assert(settled(doc.records[i], prev.records[i], end));
                assert(mirrors(
                    prev.bytes,
                    base.bytes,
                    doc.big_endian,
                    mv(doc.records[i].entry.position, end) as int,
                    prev.records[i].entry.value_offset.raw(),
                ));
                assert(beside(pi as int, 12, end as int));
                if qi + 8 == slot {
                    assert(location == pi + 8);
                    assert(old_pointer == doc.records[i].entry.value_offset.raw());
                    mirrors_own_write(
                        prev.bytes,
                        base.bytes,
                        doc.big_endian,
                        qi as int,
                        pointer,
                        prev.records[i].entry.value_offset.raw(),
                    );
                } else {
                    assert(location != pi + 8);
                    assert(apart(location as int, 4, pi as int, 12));
                    moved_apart(location, 4, pi, 12, end);
                    mirrors_after_overwrite(
                        prev.bytes,
                        base.bytes,
                        doc.big_endian,
                        slot as int,
                        data,
                        qi as int,
                        prev.records[i].entry.value_offset.raw(),
                    );
                    assert(cur.records[i] == prev.records[i]);
                }
            }
            assert forall|x: int| 0 <= x < cur.bytes.len() && !in_slot(doc, end, x) implies (
            #[trigger] cur.bytes[x]) == base.bytes[x] by {
                assert(prev.bytes[x] == base.bytes[x]);
                if slot <= x < slot + 4 {
                    assert(doc.ifds.spec_get(ifd_number(k)) is Some && mv(
                        doc.ifds.spec_get(ifd_number(k))->Some_0,
                        end,
                    ) <= x < mv(doc.ifds.spec_get(ifd_number(k))->Some_0, end) + 4);
                    assert(in_slot(doc, end, x));
                }
            }
        },
    }
}

/// Offset propagation works on a document whose structures lie apart, and
/// leaves every record settled and mirrored by the bytes.
pub proof fn shifted_planned(doc: Doc, offset: u32, end: u32)
    requires
        well_laid_out(doc, offset, end),
    ensures
        shifted(gapped(doc, end), end, 12) is Ok,
        planned(doc, end, shifted(gapped(doc, end), end, 12)->Ok_0, 6),
{
    let base = gapped(doc, end);
    plans_made(doc, offset, end, 6);
    planned_at_start(doc, offset, end);
    let plans = pointer_plans(base, end, 12, 6)->Ok_0;
    let reached = shift_records(base, end, 12, doc.records.len())->Ok_0;
    assert(base.records.len() == doc.records.len());
    reveal_with_fuel(apply_plans, 7);
    let d0 = apply_plans(reached, plans, 0);
    assert(d0 == reached);
    apply_plan_planned(doc, offset, end, d0, 0);
    let d1 = apply_plans(reached, plans, 1);
    assert(plans[0] == plan_of(doc, end, 0));
    assert(d1 == apply_plan(d0, ifd_number(0), plan_of(doc, end, 0)));
    apply_plan_planned(doc, offset, end, d1, 1);
    let d2 = apply_plans(reached, plans, 2);
    assert(plans[1] == plan_of(doc, end, 1));
    assert(d2 == apply_plan(d1, ifd_number(1), plan_of(doc, end, 1)));
    apply_plan_planned(doc, offset, end, d2, 2);
    let d3 = apply_plans(reached, plans, 3);
    assert(plans[2] == plan_of(doc, end, 2));
    assert(d3 == apply_plan(d2, ifd_number(2), plan_of(doc, end, 2)));
    apply_plan_planned(doc, offset, end, d3, 3);
    let d4 = apply_plans(reached, plans, 4);
    assert(plans[3] == plan_of(doc, end, 3));
    assert(d4 == apply_plan(d3, ifd_number(3), plan_of(doc, end, 3)));
    apply_plan_planned(doc, offset, end, d4, 4);
    let d5 = apply_plans(reached, plans, 5);
    assert(plans[4] == plan_of(doc, end, 4));
    assert(d5 == apply_plan(d4, ifd_number(4), plan_of(doc, end, 4)));
    apply_plan_planned(doc, offset, end, d5, 5);
    let d6 = apply_plans(reached, plans, 6);
    assert(plans[5] == plan_of(doc, end, 5));
    assert(d6 == apply_plan(d5, ifd_number(5), plan_of(doc, end, 5)));
}

/// The bytes after the new entry of the directory was written: the number
/// of entries and the header of the entry.
pub open spec fn written_bytes(
    bytes: Seq<u8>,
    big_endian: bool,
    tagifd: TagIfd,
    value: EntryRef,
    offset: u32,
    n: u16,
    end: u32,
) -> Seq<u8> {
    overwrite(
        overwrite(bytes, offset as int, u16_bytes((n + 1) as u16, big_endian)),
        end as int,
        entry_bytes(tagifd.tag, value, big_endian),
    )
}

/// A record that the bytes mirror behind the gap is what the bytes say
/// after the new entry was written.
#[verifier::rlimit(60)]
pub proof fn settled_record_matches(
    doc: Doc,
    offset: u32,
    end: u32,
    cur: Doc,
    tagifd: TagIfd,
    value: EntryRef,
    n: u16,
    i: int,
)
    requires
        well_laid_out(doc, offset, end),
        planned(doc, end, cur, 6),
        0 <= i < doc.records.len(),
    ensures
        record_matches(
            written_bytes(cur.bytes, doc.big_endian, tagifd, value, offset, n, end),
            doc.big_endian,
            cur.records[i],
        ),
{
    let base = gapped(doc, end);
    gapped_bytes(doc, end);
    record_bytes(doc, i);
    let p = doc.records[i].entry.position;
    let q = mv(p, end) as int;
    let raw = cur.records[i].entry.value_offset.raw();
    gapped_range(doc, end, p, 12);
    gapped_range(doc, end, offset, 2);
    assert(settled(doc.records[i], cur.records[i], end));
    assert(mirrors(cur.bytes, base.bytes, doc.big_endian, q, raw));
    let counted = overwrite(
        cur.bytes,
        offset as int,
        u16_bytes((n + 1) as u16, doc.big_endian),
    );
    moved_apart(p, 12, offset, 2, end);
    mirrors_after_overwrite(
        cur.bytes,
        base.bytes,
        doc.big_endian,
        offset as int,
        u16_bytes((n + 1) as u16, doc.big_endian),
        q,
        raw,
    );
    let header = entry_bytes(tagifd.tag, value, doc.big_endian);
    assert(header.len() == 12);
    mirrors_after_overwrite(counted, base.bytes, doc.big_endian, end as int, header, q, raw);
    let after = written_bytes(cur.bytes, doc.big_endian, tagifd, value, offset, n, end);
    assert(mirrors(after, base.bytes, doc.big_endian, q, raw));
    assert(after[q + 0] == base.bytes[q + 0] && base.bytes[q + 0] == doc.bytes[p + 0]);
    assert(after[q + 1] == base.bytes[q + 1] && base.bytes[q + 1] == doc.bytes[p + 1]);
    assert(after[q + 2] == base.bytes[q + 2] && base.bytes[q + 2] == doc.bytes[p + 2]);
    assert(after[q + 3] == base.bytes[q + 3] && base.bytes[q + 3] == doc.bytes[p + 3]);
    assert(after[q + 4] == base.bytes[q + 4] && base.bytes[q + 4] == doc.bytes[p + 4]);
    assert(after[q + 5] == base.bytes[q + 5] && base.bytes[q + 5] == doc.bytes[p + 5]);
    assert(after[q + 6] == base.bytes[q + 6] && base.bytes[q + 6] == doc.bytes[p + 6]);
    assert(after[q + 7] == base.bytes[q + 7] && base.bytes[q + 7] == doc.bytes[p + 7]);
    u16_at_same(after, doc.bytes, q, p as int, doc.big_endian);
    u16_at_same(after, doc.bytes, q + 2, p + 2, doc.big_endian);
    u32_at_same(after, doc.bytes, q + 4, p + 4, doc.big_endian);
}

/// No byte of out-of-line data that can be read belongs to a slot that
/// offset propagation may write.
#[verifier::rlimit(60)]
pub proof fn data_off_slots(doc: Doc, offset: u32, end: u32, i: int, t: int)
    requires
        well_laid_out(doc, offset, end),
        0 <= i < doc.records.len(),
        doc.records[i].entry.value_offset is Offset,
        data_of(doc, doc.records[i].entry) is Ok,
        0 <= t < doc.records[i].entry.spec_data_len(),
    ensures
        !in_slot(doc, end, mv(doc.records[i].entry.value_offset.raw(), end) + t),
{
    let entry = doc.records[i].entry;
    let o = entry.value_offset.raw();
    let len = entry.spec_data_len();
    let x = mv(o, end) + t;
    assert(data_apart(doc, o as int, len, offset, end));
    assert forall|j: int| 0 <= j < doc.records.len() implies !(mv(
        (#[trigger] doc.records[j]).entry.position,
        end,
    ) + 8 <= x < mv(doc.records[j].entry.position, end) + 12) by {
        record_bytes(doc, j);
        moved_apart(o, len, doc.records[j].entry.position, 12, end);
    }
    assert forall|k: int|
        0 <= k < 6 && (#[trigger] doc.ifds.spec_get(ifd_number(k))) is Some implies !(mv(
        doc.ifds.spec_get(ifd_number(k))->Some_0,
        end,
    ) <= x < mv(doc.ifds.spec_get(ifd_number(k))->Some_0, end) + 4) by {
        let location = doc.ifds.spec_get(ifd_number(k))->Some_0;
        assert(slot_apart(doc, location, offset, end));
        moved_apart(o, len, location, 4, end);
    }
}

/// A byte of out-of-line data that can be read is the same after the
/// insertion, where the data lies then.
#[verifier::rlimit(60)]
pub proof fn data_byte_kept(
    doc: Doc,
    offset: u32,
    end: u32,
    cur: Doc,
    tagifd: TagIfd,
    value: EntryRef,
    n: u16,
    i: int,
    t: int,
)
    requires
        well_laid_out(doc, offset, end),
        planned(doc, end, cur, 6),
        0 <= i < doc.records.len(),
        doc.records[i].entry.value_offset is Offset,
        data_of(doc, doc.records[i].entry) is Ok,
        0 <= t < doc.records[i].entry.spec_data_len(),
    ensures
        mv(doc.records[i].entry.value_offset.raw(), end) + t < doc.bytes.len() + 12,
        written_bytes(cur.bytes, doc.big_endian, tagifd, value, offset, n, end)[mv(
            doc.records[i].entry.value_offset.raw(),
            end,
        ) + t] == doc.bytes[doc.records[i].entry.value_offset.raw() + t],
{
    let base = gapped(doc, end);
    gapped_bytes(doc, end);
    let entry = doc.records[i].entry;
    let o = entry.value_offset.raw();
    let len = entry.spec_data_len();
    let x = mv(o, end) + t;
    assert(data_apart(doc, o as int, len, offset, end));
    gapped_range(doc, end, o, len);
    gapped_range(doc, end, offset, 2);
    moved_apart(o, len, offset, 2, end);
    data_off_slots(doc, offset, end, i, t);
    assert(cur.bytes[x] == base.bytes[x]);
    assert(base.bytes[mv(o, end) + t] == doc.bytes[o + t]);
    assert(entry_bytes(tagifd.tag, value, doc.big_endian).len() == 12);
}

/// Out-of-line data that could be read reads the same after the insertion.
#[verifier::rlimit(60)]
pub proof fn settled_data_kept(
    doc: Doc,
    offset: u32,
    end: u32,
    cur: Doc,
    tagifd: TagIfd,
    value: EntryRef,
    n: u16,
    after: Doc,
    i: int,
)
    requires
        well_laid_out(doc, offset, end),
        planned(doc, end, cur, 6),
        0 <= i < doc.records.len(),
        after.bytes == written_bytes(cur.bytes, doc.big_endian, tagifd, value, offset, n, end),
        after.records.len() > i,
        after.records[i] == cur.records[i],
    ensures
        after.records[i].tagifd == doc.records[i].tagifd,
        after.records[i].entry.data_type == doc.records[i].entry.data_type,
        after.records[i].entry.count == doc.records[i].entry.count,
        after.records[i].entry.value_offset is Offset == doc.records[i].entry.value_offset is Offset,
        doc.records[i].entry.value_offset is Offset && data_of(doc, doc.records[i].entry) is Ok
            ==> data_of(after, after.records[i].entry) == data_of(doc, doc.records[i].entry),
{
    let entry = doc.records[i].entry;
    assert(settled(doc.records[i], cur.records[i], end));
    if entry.value_offset is Offset && data_of(doc, entry) is Ok {
        let o = entry.value_offset.raw();
        let len = entry.spec_data_len();
        let moved = mv(o, end);
        let now = after.records[i].entry;
        assert(now.value_offset == ValueOffset::Offset(moved));
        assert(now.spec_data_len() == len);
        gapped_bytes(doc, end);
        assert(data_apart(doc, o as int, len, offset, end));
        gapped_range(doc, end, o, len);
        assert(after.bytes.len() == doc.bytes.len() + 12);
        assert forall|t: int| 0 <= t < len implies #[trigger] after.bytes[moved + t]
            == doc.bytes[o + t] by {
            data_byte_kept(doc, offset, end, cur, tagifd, value, n, i, t);
        }
        assert(after.bytes.subrange(moved as int, moved + len) =~= doc.bytes.subrange(
            o as int,
            o + len,
        ));
    }
}

/// A record holds the pointer to a directory after offset propagation
/// exactly if it held it before.
pub proof fn pointer_kept(doc: Doc, offset: u32, end: u32, cur: Doc, i: int)
    requires
        well_laid_out(doc, offset, end),
        planned(doc, end, cur, 6),
        0 <= i < doc.records.len(),
    ensures
        points_to_directory(cur.ifds, cur.records[i].entry) == points_to_directory(
            doc.ifds,
            doc.records[i].entry,
        ),
{
    let before = doc.records[i].entry;
    let now = cur.records[i].entry;
    assert(settled(doc.records[i], cur.records[i], end));
    assert(record_matches(doc.bytes, doc.big_endian, doc.records[i]));
    assert(now.position == mv(before.position, end));
    assert(beside(before.position as int, 12, end as int));
    assert forall|k: int| 0 <= k < 6 implies (#[trigger] cur.ifds.spec_get(ifd_number(k)) == Some(
        (now.position + 8) as u32,
    )) == (doc.ifds.spec_get(ifd_number(k)) == Some((before.position + 8) as u32)) by {
        match doc.ifds.spec_get(ifd_number(k)) {
            Some(location) => {
                assert(slot_apart(doc, location, offset, end));
                assert(cur.ifds.spec_get(ifd_number(k)) == Some(mv(location, end)));
                assert(location == before.position + 8 || apart(
                    location as int,
                    4,
                    before.position as int,
                    12,
                ));
            },
            None => {},
        }
    }
    if points_to_directory(doc.ifds, before) {
        let k = choose|k: int|
            0 <= k < 6 && #[trigger] doc.ifds.spec_get(ifd_number(k)) == Some(
                (before.position + 8) as u32,
            );
        assert(cur.ifds.spec_get(ifd_number(k)) == Some((now.position + 8) as u32));
    }
    if points_to_directory(cur.ifds, now) {
        let k = choose|k: int|
            0 <= k < 6 && #[trigger] cur.ifds.spec_get(ifd_number(k)) == Some(
                (now.position + 8) as u32,
            );
        assert(doc.ifds.spec_get(ifd_number(k)) == Some((before.position + 8) as u32));
    }
}

/// When an insertion is owed: inserting an entry into a directory of a
/// document without a registered maker note succeeds if the structures of
/// the document lie apart and the count of the entry times the size of its
/// type fits in 32 bits.
#[verifier::rlimit(80)]
pub proof fn insert_succeeds(doc: Doc, tagifd: TagIfd, value: EntryRef)
    requires
        !doc.makernote,
        directory_of(doc, tagifd.ifd) is Ok,
        well_laid_out(
            doc,
            directory_of(doc, tagifd.ifd)->Ok_0.0,
            directory_of(doc, tagifd.ifd)->Ok_0.2,
        ),
        ValueOffset::spec_new(
            Type::of_code(value.data_type.code()),
            value.count,
            value.value_offset.raw(),
        ) is Ok,
    ensures
        inserted(doc, tagifd, value) is Ok,
{
    let value = value.justified(doc.big_endian);
    let (offset, n, end) = directory_of(doc, tagifd.ifd)->Ok_0;
    assert(doc.guarded(end, 12) == Ok::<Doc, Error>(doc));
    let base = gapped(doc, end);
    gapped_bytes(doc, end);
    shifted_planned(doc, offset, end);
    let cur = shifted(base, end, 12)->Ok_0;
    let bytes = written_bytes(cur.bytes, doc.big_endian, tagifd, value, offset, n, end);
    let counted = overwrite(
        cur.bytes,
        offset as int,
        u16_bytes((n + 1) as u16, doc.big_endian),
    );
    entry_at_written(counted, tagifd.tag, value, doc.big_endian, end as int);
    assert(entry_at(bytes, doc.big_endian, end as int) is Ok);
    let entry = entry_at(bytes, doc.big_endian, end as int)->Ok_0.1;
    assert(entry_at(bytes, doc.big_endian, end as int)->Ok_0.0 == tagifd.tag);
    let after = Doc { bytes, records: cur.records.push(Located { tagifd, entry }), ..cur };
    assert(entry_written(cur, tagifd, value, offset, n, end) == Ok::<Doc, Error>(after));
    assert(grown(doc, tagifd, value, offset, n, end) == Ok::<Doc, Error>(after));
    let count = doc.records.len() as int;
    assert forall|i: int| 0 <= i < after.records.len() implies record_matches(
        after.bytes,
        after.big_endian,
        #[trigger] after.records[i],
    ) by {
        if i < count {
            settled_record_matches(doc, offset, end, cur, tagifd, value, n, i);
            assert(after.records[i] == cur.records[i]);
        }
    }
    assert(after.faithful());
    crate::exif::laws::shift_moves_index(base, end, 12);
    assert forall|i: int| 0 <= i < count implies record_kept(
        doc,
        after,
        #[trigger] doc.records[i],
        after.records[i],
    ) by {
        assert(after.records[i] == cur.records[i]);
        assert(base.records[i] == doc.records[i]);
        settled_data_kept(doc, offset, end, cur, tagifd, value, n, after, i);
        pointer_kept(doc, offset, end, cur, i);
    }
    assert(grown_from(doc, after));
    assert(makernote_fixed(doc, after));
}

} // verus!
