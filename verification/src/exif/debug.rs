//! A listing of the document for people to read.
use vstd::prelude::*;
use vstd::string::StringSliceAdditionalSpecFns;
use crate::common::exif::{lookup_tag_name, Ifd, TagIfd};
use crate::common::field::tag_name;
use crate::exif::document::{Doc, ExifRaw, Located};
use crate::exif::edit::{ifd_number, ifd_of};
use crate::exif::entry::ValueOffset;
use crate::exif::error::Error;
use crate::exif::field_type::Type;
use vstd::utf8::{decode_utf8, encode_utf8, valid_utf8};
use crate::exif::lookup::decode_utf8_lossy;
use crate::exif::text::{
    decimal, hex_digit, hexadecimal, push_decimal, push_hexadecimal, push_text,
};

verus! {

/// The name of a directory.
pub open spec fn ifd_name(ifd: Ifd) -> &'static str {
    match ifd {
        Ifd::Primary => "Primary",
        Ifd::Thumbnail => "Thumbnail",
        Ifd::Exif => "Exif",
        Ifd::Gps => "Gps",
        Ifd::Interoperability => "Interoperability",
        Ifd::MakerNote => "MakerNote",
    }
}

/// The text for the location of a directory.
pub open spec fn location_text(location: Option<u32>) -> Seq<u8> {
    match location {
        Some(at) => "Some(".spec_bytes() + decimal(at as nat) + ")".spec_bytes(),
        None => "None".spec_bytes(),
    }
}

/// The two lines that head the listing of a directory.
pub open spec fn heading(ifd: Ifd, location: Option<u32>) -> Seq<u8> {
    "\n".spec_bytes() + ifd_name(ifd).spec_bytes() + " - Defined ".spec_bytes() + location_text(
        location,
    ) + "\n------------------------------\n".spec_bytes()
}

/// The text for a type.
pub open spec fn type_text(data_type: Type) -> Seq<u8> {
    match data_type {
        Type::Unknown(code) => "Unknown(".spec_bytes() + decimal(code as nat) + ")".spec_bytes(),
        _ => data_type.spec_name().spec_bytes(),
    }
}

/// The text for the slot of an entry.
pub open spec fn slot_text(slot: ValueOffset) -> Seq<u8> {
    match slot {
        ValueOffset::Value(x) => "Value(".spec_bytes() + decimal(x as nat) + ")".spec_bytes(),
        ValueOffset::Offset(x) => "Offset(".spec_bytes() + decimal(x as nat) + ")".spec_bytes(),
    }
}

/// The name of a field, or its tag in hexadecimal where it has no name.
pub open spec fn name_text(tagifd: TagIfd) -> Seq<u8> {
    match tag_name(tagifd.tag.0, tagifd.ifd) {
        Some(name) => name.spec_bytes(),
        None => "0x".spec_bytes() + hexadecimal(tagifd.tag.0 as nat),
    }
}

/// The line that describes an entry: its name, type, count and slot.
pub open spec fn entry_heading(record: Located) -> Seq<u8> {
    name_text(record.tagifd) + " ".spec_bytes() + type_text(record.entry.data_type)
        + "(".spec_bytes() + decimal(record.entry.count as nat) + "): ".spec_bytes() + slot_text(
        record.entry.value_offset,
    ) + "\n".spec_bytes()
}

/// The text for a lookup that gave no value.
pub open spec fn failure_text(error: Option<Error>) -> Seq<u8> {
    match error {
        Some(e) => "Some(".spec_bytes() + e.spec_name().spec_bytes() + ")".spec_bytes(),
        None => "None".spec_bytes(),
    }
}

/// The text for a fraction.
pub open spec fn rational_text(pair: (u32, u32)) -> Seq<u8> {
    decimal(pair.0 as nat) + "/".spec_bytes() + decimal(pair.1 as nat)
}

/// The text for a pair of numbers.
pub open spec fn pair_text(pair: (u32, u32)) -> Seq<u8> {
    "(".spec_bytes() + decimal(pair.0 as nat) + ", ".spec_bytes() + decimal(pair.1 as nat)
        + ")".spec_bytes()
}

/// The text for the value of the first entry with the given key.
pub open spec fn value_text(doc: Doc, tagifd: TagIfd) -> Seq<u8> {
    match doc.entry(tagifd) {
        None => "Not found".spec_bytes(),
        Some(entry) => if entry.data_type == Type::Ascii || entry.data_type == Type::Utf8 {
            match doc.string(tagifd) {
                Ok(Some(chars)) => vstd::utf8::encode_utf8(chars),
                Ok(None) => failure_text(None),
                Err(e) => failure_text(Some(e)),
            }
        } else if entry.data_type == Type::Short && entry.count == 1 {
            match doc.short(tagifd) {
                Ok(Some(x)) => decimal(x as nat),
                Ok(None) => failure_text(None),
                Err(e) => failure_text(Some(e)),
            }
        } else if entry.data_type == Type::Long && entry.count == 1 {
            match doc.long(tagifd) {
                Ok(Some(x)) => decimal(x as nat),
                Ok(None) => failure_text(None),
                Err(e) => failure_text(Some(e)),
            }
        } else if entry.data_type == Type::Rational && entry.count == 1 {
            match doc.rationals(tagifd, 1) {
                Ok(Some(pairs)) => rational_text(pairs[0]),
                Ok(None) => failure_text(None),
                Err(e) => failure_text(Some(e)),
            }
        } else if entry.data_type == Type::Rational && entry.count == 3 {
            match doc.rationals(tagifd, 3) {
                Ok(Some(pairs)) => "[".spec_bytes() + pair_text(pairs[0]) + ", ".spec_bytes()
                    + pair_text(pairs[1]) + ", ".spec_bytes() + pair_text(pairs[2])
                    + "]".spec_bytes(),
                Ok(None) => failure_text(None),
                Err(e) => failure_text(Some(e)),
            }
        } else {
            "Unknown type ".spec_bytes() + type_text(entry.data_type)
        },
    }
}

/// The listing of the entries of the directory `ifd` among the first `k`
/// records: for each its describing line and the value that a lookup of its
/// key gives.
pub open spec fn records_text(doc: Doc, ifd: Ifd, k: nat) -> Seq<u8>
    decreases k,
{
    if k == 0 {
        Seq::empty()
    } else if doc.records[k - 1].tagifd.ifd == ifd {
        records_text(doc, ifd, (k - 1) as nat) + entry_heading(doc.records[k - 1]) + value_text(
            doc,
            doc.records[k - 1].tagifd,
        ) + "\n".spec_bytes()
    } else {
        records_text(doc, ifd, (k - 1) as nat)
    }
}

/// Whether one of the first `k` records belongs to the directory `ifd`.
pub open spec fn has_records(doc: Doc, ifd: Ifd, k: nat) -> bool {
    exists|i: int| 0 <= i < k && (#[trigger] doc.records[i]).tagifd.ifd == ifd
}

/// The listing of a directory: nothing for one without location and
/// without entries.
pub open spec fn directory_text(doc: Doc, ifd: Ifd) -> Seq<u8> {
    if doc.ifds.spec_get(ifd) is Some || has_records(doc, ifd, doc.records.len()) {
        heading(ifd, doc.ifds.spec_get(ifd)) + records_text(doc, ifd, doc.records.len())
    } else {
        Seq::empty()
    }
}

/// The listing of the first `k` directories.
pub open spec fn dump_text(doc: Doc, k: nat) -> Seq<u8>
    decreases k,
{
    if k == 0 {
        Seq::empty()
    } else {
        dump_text(doc, (k - 1) as nat) + directory_text(doc, ifd_number(k - 1))
    }
}

/// Bytes of ASCII are text.
pub proof fn ascii_is_text(bytes: Seq<u8>)
    requires
        forall|i: int| 0 <= i < bytes.len() ==> #[trigger] bytes[i] <= 0x7f,
    ensures
        valid_utf8(bytes),
{
    assert(bytes.subrange(0, 0) =~= Seq::<u8>::empty());
    assert(valid_utf8(bytes.subrange(0, 0)));
    assert forall|i: int| 0 <= 0 <= i < bytes.len() <= bytes.len() implies #[trigger]
    vstd::utf8::is_leading_byte_width_1(bytes[i]) by {}
    vstd::utf8::partial_valid_utf8_extend_ascii_block(bytes, 0, bytes.len() as int);
    assert(bytes.subrange(0, bytes.len() as int) =~= bytes);
}

/// One text after another is a text.
pub proof fn joined_is_text(a: Seq<u8>, b: Seq<u8>)
    requires
        valid_utf8(a),
        valid_utf8(b),
    ensures
        valid_utf8(a + b),
{
    vstd::utf8::valid_utf8_concat(a, b);
}

/// The bytes of a string are text.
pub proof fn str_is_text(s: &str)
    ensures
        valid_utf8(s.spec_bytes()),
{
    vstd::utf8::encode_utf8_valid_utf8(s@);
}

/// Decimal digits are ASCII.
pub proof fn decimal_is_ascii(n: nat)
    ensures
        forall|i: int| 0 <= i < decimal(n).len() ==> #[trigger] decimal(n)[i] <= 0x7f,
    decreases n,
{
    if n >= 10 {
        decimal_is_ascii(n / 10);
        let head = decimal(n / 10);
        let last = (48 + n % 10) as u8;
        assert(decimal(n) == head.push(last));
        assert forall|i: int| 0 <= i < decimal(n).len() implies #[trigger] decimal(n)[i]
            <= 0x7f by {
            if i < head.len() {
                assert(decimal(n)[i] == head[i]);
            } else {
                assert(decimal(n)[i] == last);
            }
        }
    } else {
        assert(decimal(n)[0] == (48 + n) as u8);
    }
}

/// Hexadecimal digits are ASCII.
pub proof fn hexadecimal_is_ascii(n: nat)
    ensures
        forall|i: int| 0 <= i < hexadecimal(n).len() ==> #[trigger] hexadecimal(n)[i] <= 0x7f,
    decreases n,
{
    if n >= 16 {
        hexadecimal_is_ascii(n / 16);
        let head = hexadecimal(n / 16);
        let last = hex_digit(n % 16);
        assert(hexadecimal(n) == head.push(last));
        assert forall|i: int| 0 <= i < hexadecimal(n).len() implies #[trigger] hexadecimal(n)[i]
            <= 0x7f by {
            if i < head.len() {
                assert(hexadecimal(n)[i] == head[i]);
            } else {
                assert(hexadecimal(n)[i] == last);
            }
        }
    } else {
        assert(hexadecimal(n)[0] == hex_digit(n));
    }
}

/// A word, a number and a word are text.
pub proof fn framed_is_text(before: &str, n: nat, behind: &str)
    ensures
        valid_utf8(before.spec_bytes() + decimal(n) + behind.spec_bytes()),
{
    str_is_text(before);
    str_is_text(behind);
    decimal_is_ascii(n);
    ascii_is_text(decimal(n));
    joined_is_text(before.spec_bytes(), decimal(n));
    joined_is_text(before.spec_bytes() + decimal(n), behind.spec_bytes());
}

/// The text for a type is text.
pub proof fn type_text_is_text(data_type: Type)
    ensures
        valid_utf8(type_text(data_type)),
{
    match data_type {
        Type::Unknown(code) => framed_is_text("Unknown(", code as nat, ")"),
        _ => str_is_text(data_type.spec_name()),
    }
}

/// The text for a lookup that gave no value is text.
pub proof fn failure_text_is_text(error: Option<Error>)
    ensures
        valid_utf8(failure_text(error)),
{
    match error {
        Some(e) => {
            str_is_text("Some(");
            str_is_text(e.spec_name());
            str_is_text(")");
            joined_is_text("Some(".spec_bytes(), e.spec_name().spec_bytes());
            joined_is_text("Some(".spec_bytes() + e.spec_name().spec_bytes(), ")".spec_bytes());
        },
        None => str_is_text("None"),
    }
}

/// The text for a pair of numbers is text.
pub proof fn pair_text_is_text(pair: (u32, u32))
    ensures
        valid_utf8(pair_text(pair)),
        valid_utf8(rational_text(pair)),
{
    let a = decimal(pair.0 as nat);
    let b = decimal(pair.1 as nat);
    decimal_is_ascii(pair.0 as nat);
    decimal_is_ascii(pair.1 as nat);
    ascii_is_text(a);
    ascii_is_text(b);
    str_is_text("(");
    str_is_text(", ");
    str_is_text(")");
    str_is_text("/");
    joined_is_text("(".spec_bytes(), a);
    joined_is_text("(".spec_bytes() + a, ", ".spec_bytes());
    joined_is_text("(".spec_bytes() + a + ", ".spec_bytes(), b);
    joined_is_text("(".spec_bytes() + a + ", ".spec_bytes() + b, ")".spec_bytes());
    joined_is_text(a, "/".spec_bytes());
    joined_is_text(a + "/".spec_bytes(), b);
}

/// The line that describes an entry is text.
pub proof fn entry_heading_is_text(record: Located)
    ensures
        valid_utf8(entry_heading(record)),
{
    let name = name_text(record.tagifd);
    match tag_name(record.tagifd.tag.0, record.tagifd.ifd) {
        Some(known) => str_is_text(known),
        None => {
            str_is_text("0x");
            hexadecimal_is_ascii(record.tagifd.tag.0 as nat);
            ascii_is_text(hexadecimal(record.tagifd.tag.0 as nat));
            joined_is_text("0x".spec_bytes(), hexadecimal(record.tagifd.tag.0 as nat));
        },
    }
    let kind = type_text(record.entry.data_type);
    type_text_is_text(record.entry.data_type);
    let count = decimal(record.entry.count as nat);
    decimal_is_ascii(record.entry.count as nat);
    ascii_is_text(count);
    let slot = slot_text(record.entry.value_offset);
    match record.entry.value_offset {
        ValueOffset::Value(x) => framed_is_text("Value(", x as nat, ")"),
        ValueOffset::Offset(x) => framed_is_text("Offset(", x as nat, ")"),
    }
    str_is_text(" ");
    str_is_text("(");
    str_is_text("): ");
    str_is_text("\n");
    joined_is_text(name, " ".spec_bytes());
    joined_is_text(name + " ".spec_bytes(), kind);
    joined_is_text(name + " ".spec_bytes() + kind, "(".spec_bytes());
    joined_is_text(name + " ".spec_bytes() + kind + "(".spec_bytes(), count);
    joined_is_text(name + " ".spec_bytes() + kind + "(".spec_bytes() + count, "): ".spec_bytes());
    joined_is_text(
        name + " ".spec_bytes() + kind + "(".spec_bytes() + count + "): ".spec_bytes(),
        slot,
    );
    joined_is_text(
        name + " ".spec_bytes() + kind + "(".spec_bytes() + count + "): ".spec_bytes() + slot,
        "\n".spec_bytes(),
    );
}

/// The text for a value is text.
pub proof fn value_text_is_text(doc: Doc, tagifd: TagIfd)
    ensures
        valid_utf8(value_text(doc, tagifd)),
{
    str_is_text("Not found");
    failure_text_is_text(None);
    match doc.entry(tagifd) {
        None => {},
        Some(entry) => if entry.data_type == Type::Ascii || entry.data_type == Type::Utf8 {
            match doc.string(tagifd) {
                Ok(Some(chars)) => vstd::utf8::encode_utf8_valid_utf8(chars),
                Ok(None) => {},
                Err(e) => failure_text_is_text(Some(e)),
            }
        } else if entry.data_type == Type::Short && entry.count == 1 {
            match doc.short(tagifd) {
                Ok(Some(x)) => {
                    decimal_is_ascii(x as nat);
                    ascii_is_text(decimal(x as nat));
                },
                Ok(None) => {},
                Err(e) => failure_text_is_text(Some(e)),
            }
        } else if entry.data_type == Type::Long && entry.count == 1 {
            match doc.long(tagifd) {
                Ok(Some(x)) => {
                    decimal_is_ascii(x as nat);
                    ascii_is_text(decimal(x as nat));
                },
                Ok(None) => {},
                Err(e) => failure_text_is_text(Some(e)),
            }
        } else if entry.data_type == Type::Rational && entry.count == 1 {
            match doc.rationals(tagifd, 1) {
                Ok(Some(pairs)) => pair_text_is_text(pairs[0]),
                Ok(None) => {},
                Err(e) => failure_text_is_text(Some(e)),
            }
        } else if entry.data_type == Type::Rational && entry.count == 3 {
            match doc.rationals(tagifd, 3) {
                Ok(Some(pairs)) => {
                    let a = pair_text(pairs[0]);
                    let b = pair_text(pairs[1]);
                    let c = pair_text(pairs[2]);
                    pair_text_is_text(pairs[0]);
                    pair_text_is_text(pairs[1]);
                    pair_text_is_text(pairs[2]);
                    str_is_text("[");
                    str_is_text(", ");
                    str_is_text("]");
                    joined_is_text("[".spec_bytes(), a);
                    joined_is_text("[".spec_bytes() + a, ", ".spec_bytes());
                    joined_is_text("[".spec_bytes() + a + ", ".spec_bytes(), b);
                    joined_is_text("[".spec_bytes() + a + ", ".spec_bytes() + b, ", ".spec_bytes());
                    joined_is_text(
                        "[".spec_bytes() + a + ", ".spec_bytes() + b + ", ".spec_bytes(),
                        c,
                    );
                    joined_is_text(
                        "[".spec_bytes() + a + ", ".spec_bytes() + b + ", ".spec_bytes() + c,
                        "]".spec_bytes(),
                    );
                },
                Ok(None) => {},
                Err(e) => failure_text_is_text(Some(e)),
            }
        } else {
            str_is_text("Unknown type ");
            type_text_is_text(entry.data_type);
            joined_is_text("Unknown type ".spec_bytes(), type_text(entry.data_type));
        },
    }
}

/// The listing of the entries of a directory is text.
pub proof fn records_text_is_text(doc: Doc, ifd: Ifd, k: nat)
    ensures
        valid_utf8(records_text(doc, ifd, k)),
    decreases k,
{
    if k > 0 {
        records_text_is_text(doc, ifd, (k - 1) as nat);
        if doc.records[k - 1].tagifd.ifd == ifd {
            let so_far = records_text(doc, ifd, (k - 1) as nat);
            let line = entry_heading(doc.records[k - 1]);
            let value = value_text(doc, doc.records[k - 1].tagifd);
            entry_heading_is_text(doc.records[k - 1]);
            value_text_is_text(doc, doc.records[k - 1].tagifd);
            str_is_text("\n");
            joined_is_text(so_far, line);
            joined_is_text(so_far + line, value);
            joined_is_text(so_far + line + value, "\n".spec_bytes());
        }
    }
}

/// The listing of the first `k` directories is text.
pub proof fn dump_text_is_text(doc: Doc, k: nat)
    ensures
        valid_utf8(dump_text(doc, k)),
    decreases k,
{
    if k > 0 {
        dump_text_is_text(doc, (k - 1) as nat);
        let ifd = ifd_number(k - 1);
        let location = doc.ifds.spec_get(ifd);
        if location is Some || has_records(doc, ifd, doc.records.len()) {
            match location {
                Some(at) => framed_is_text("Some(", at as nat, ")"),
                None => str_is_text("None"),
            }
            let place = location_text(location);
            str_is_text("\n");
            str_is_text(ifd_name(ifd));
            str_is_text(" - Defined ");
            str_is_text("\n------------------------------\n");
            joined_is_text("\n".spec_bytes(), ifd_name(ifd).spec_bytes());
            joined_is_text("\n".spec_bytes() + ifd_name(ifd).spec_bytes(), " - Defined ".spec_bytes());
            joined_is_text(
                "\n".spec_bytes() + ifd_name(ifd).spec_bytes() + " - Defined ".spec_bytes(),
                place,
            );
            joined_is_text(
                "\n".spec_bytes() + ifd_name(ifd).spec_bytes() + " - Defined ".spec_bytes() + place,
                "\n------------------------------\n".spec_bytes(),
            );
            records_text_is_text(doc, ifd, doc.records.len());
            joined_is_text(heading(ifd, location), records_text(doc, ifd, doc.records.len()));
        }
        joined_is_text(dump_text(doc, (k - 1) as nat), directory_text(doc, ifd));
    }
}

/// Appends the text for a type.
pub fn push_type(out: &mut Vec<u8>, data_type: Type)
    ensures
        final(out)@ == old(out)@ + type_text(data_type),
{
    match data_type {
        Type::Unknown(code) => {
            push_text(out, "Unknown(");
            push_decimal(out, code as u32);
            push_text(out, ")");
            assert(out@ =~= old(out)@ + type_text(data_type));
        },
        _ => {
            push_text(out, data_type.name());
        },
    }
}

/// Appends the text for a lookup that gave no value.
pub fn push_failure(out: &mut Vec<u8>, error: Option<Error>)
    ensures
        final(out)@ == old(out)@ + failure_text(error),
{
    match error {
        Some(e) => {
            push_text(out, "Some(");
            push_text(out, e.name());
            push_text(out, ")");
            assert(out@ =~= old(out)@ + failure_text(error));
        },
        None => {
            push_text(out, "None");
        },
    }
}

/// Appends the text for a pair of numbers.
pub fn push_pair(out: &mut Vec<u8>, pair: (u32, u32))
    ensures
        final(out)@ == old(out)@ + pair_text(pair),
{
    push_text(out, "(");
    push_decimal(out, pair.0);
    push_text(out, ", ");
    push_decimal(out, pair.1);
    push_text(out, ")");
    assert(out@ =~= old(out)@ + pair_text(pair));
}

/// Appends the line that describes an entry.
pub fn push_entry_heading(out: &mut Vec<u8>, record: &Located)
    ensures
        final(out)@ == old(out)@ + entry_heading(*record),
{
    let ghost start = out@;
    match lookup_tag_name(record.tagifd) {
        Some(name) => {
            push_text(out, name);
        },
        None => {
            push_text(out, "0x");
            push_hexadecimal(out, record.tagifd.tag.0);
            assert(out@ =~= start + name_text(record.tagifd));
        },
    }
    push_text(out, " ");
    push_type(out, record.entry.data_type);
    push_text(out, "(");
    push_decimal(out, record.entry.count);
    push_text(out, "): ");
    let ghost before_slot = out@;
    match record.entry.value_offset {
        ValueOffset::Value(x) => {
            push_text(out, "Value(");
            push_decimal(out, x);
            push_text(out, ")");
        },
        ValueOffset::Offset(x) => {
            push_text(out, "Offset(");
            push_decimal(out, x);
            push_text(out, ")");
        },
    }
    assert(out@ =~= before_slot + slot_text(record.entry.value_offset));
    push_text(out, "\n");
    assert(out@ =~= start + entry_heading(*record));
}

/// Appends the two lines that head the listing of a directory.
pub fn push_heading(out: &mut Vec<u8>, ifd: Ifd, location: Option<u32>)
    ensures
        final(out)@ == old(out)@ + heading(ifd, location),
{
    let ghost start = out@;
    push_text(out, "\n");
    push_text(
        out,
        match ifd {
            Ifd::Primary => "Primary",
            Ifd::Thumbnail => "Thumbnail",
            Ifd::Exif => "Exif",
            Ifd::Gps => "Gps",
            Ifd::Interoperability => "Interoperability",
            Ifd::MakerNote => "MakerNote",
        },
    );
    push_text(out, " - Defined ");
    let ghost before_location = out@;
    match location {
        Some(at) => {
            push_text(out, "Some(");
            push_decimal(out, at);
            push_text(out, ")");
        },
        None => {
            push_text(out, "None");
        },
    }
    assert(out@ =~= before_location + location_text(location));
    push_text(out, "\n------------------------------\n");
    assert(out@ =~= start + heading(ifd, location));
}

impl ExifRaw {
    /// Appends the text for the value of the first entry with the key.
    pub fn push_value(&self, out: &mut Vec<u8>, tagifd: TagIfd)
        ensures
            final(out)@ == old(out)@ + value_text(self@, tagifd),
    {
        let ghost start = out@;
        let entry = match self.lookup_entry(tagifd) {
            Some(entry) => entry,
            None => {
                push_text(out, "Not found");
                return ;
            },
        };
        if entry.data_type == Type::Ascii || entry.data_type == Type::Utf8 {
            match self.lookup_string(tagifd) {
                Ok(Some(text)) => push_text(out, text.as_str()),
                Ok(None) => push_failure(out, None),
                Err(e) => push_failure(out, Some(e)),
            }
        } else if entry.data_type == Type::Short && entry.count == 1 {
            match self.lookup_short(tagifd) {
                Ok(Some(x)) => push_decimal(out, x as u32),
                Ok(None) => push_failure(out, None),
                Err(e) => push_failure(out, Some(e)),
            }
        } else if entry.data_type == Type::Long && entry.count == 1 {
            match self.lookup_long(tagifd) {
                Ok(Some(x)) => push_decimal(out, x),
                Ok(None) => push_failure(out, None),
                Err(e) => push_failure(out, Some(e)),
            }
        } else if entry.data_type == Type::Rational && entry.count == 1 {
            match self.lookup_rationals::<1>(tagifd) {
                Ok(Some(pairs)) => {
                    push_decimal(out, pairs[0].0);
                    push_text(out, "/");
                    push_decimal(out, pairs[0].1);
                    assert(out@ =~= start + rational_text(pairs@[0]));
                },
                Ok(None) => push_failure(out, None),
                Err(e) => push_failure(out, Some(e)),
            }
        } else if entry.data_type == Type::Rational && entry.count == 3 {
            match self.lookup_rationals::<3>(tagifd) {
                Ok(Some(pairs)) => {
                    push_text(out, "[");
                    push_pair(out, pairs[0]);
                    push_text(out, ", ");
                    push_pair(out, pairs[1]);
                    push_text(out, ", ");
                    push_pair(out, pairs[2]);
                    push_text(out, "]");
                    assert(out@ =~= start + value_text(self@, tagifd));
                },
                Ok(None) => push_failure(out, None),
                Err(e) => push_failure(out, Some(e)),
            }
        } else {
            push_text(out, "Unknown type ");
            push_type(out, entry.data_type);
            assert(out@ =~= start + value_text(self@, tagifd));
        }
    }

    /// The value of the first entry with the given key as text: a string as
    /// it is, a number in decimal, a fraction as `x/y`; for a lookup that
    /// fails, the name of the error.
    pub fn debug_dump_entry(&self, tagifd: TagIfd) -> (text: String)
        ensures
            encode_utf8(text@) == value_text(self@, tagifd),
            text@ == decode_utf8(value_text(self@, tagifd)),
    {
        let mut out: Vec<u8> = Vec::new();
        self.push_value(&mut out, tagifd);
        assert(out@ =~= value_text(self@, tagifd));
        proof {
            value_text_is_text(self@, tagifd);
            vstd::utf8::decode_utf8_encode_utf8(out@);
        }
        decode_utf8_lossy(out.as_slice())
    }

    /// Appends the listing of a directory.
    pub fn push_directory(&self, out: &mut Vec<u8>, ifd: Ifd)
        ensures
            final(out)@ == old(out)@ + directory_text(self@, ifd),
    {
        let ghost start = out@;
        let n = self.locations.len();
        let location = self.ifd_locations.get(ifd);
        let mut listed = location.is_some();
        let mut i: usize = 0;
        while !listed && i < n
            invariant
                i <= n,
                n == self@.records.len(),
                listed ==> location is Some || has_records(self@, ifd, n as nat),
                !listed ==> location is None && !has_records(self@, ifd, i as nat),
            decreases n - i + (if listed { 0int } else { 1int }),
        {
            if self.locations[i].tagifd.ifd == ifd {
                listed = true;
            } else {
                i += 1;
            }
        }
        if !listed {
            assert(out@ =~= start + directory_text(self@, ifd));
            return ;
        }
        push_heading(out, ifd, location);
        let ghost headed = out@;
        let mut i: usize = 0;
        assert(out@ =~= headed + records_text(self@, ifd, 0));
        while i < n
            invariant
                i <= n,
                n == self@.records.len(),
                out@ == headed + records_text(self@, ifd, i as nat),
            decreases n - i,
        {
            let record = self.locations[i];
            if record.tagifd.ifd == ifd {
                push_entry_heading(out, &record);
                self.push_value(out, record.tagifd);
                push_text(out, "\n");
                assert(out@ =~= headed + records_text(self@, ifd, (i + 1) as nat));
            }
            i += 1;
        }
        assert(out@ =~= start + directory_text(self@, ifd));
    }

    /// A listing of every known directory and its entries, for people to
    /// read: the directories in their order, each with its location and,
    /// in the order of the index, its entries with their values.
    pub fn debug_dump(&self) -> (text: String)
        ensures
            encode_utf8(text@) == dump_text(self@, 6),
            text@ == decode_utf8(dump_text(self@, 6)),
    {
        let mut out: Vec<u8> = Vec::new();
        let mut k: usize = 0;
        while k < 6
            invariant
                k <= 6,
                out@ == dump_text(self@, k as nat),
            decreases 6 - k,
        {
            self.push_directory(&mut out, ifd_of(k));
            k += 1;
        }
        proof {
            dump_text_is_text(self@, 6);
            vstd::utf8::decode_utf8_encode_utf8(out@);
        }
        decode_utf8_lossy(out.as_slice())
    }
}

} // verus!
