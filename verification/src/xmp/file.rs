//! An XMP document and its properties.
use vstd::prelude::*;
use vstd::string::StringSliceAdditionalSpecFns;
use crate::common::datetime::DateTime;
use crate::common::field;
use crate::common::xmp::Field;
use crate::xmp::events::{
    events_view, read_events, read_raw, set_text, write_raw, xml_events, Event, EventView,
};
use crate::xmp::properties::{
    collect, lookup, properties_of, properties_view, rdf_description, value_of, ReaderState, Tag,
    TagView,
};

verus! {

#[derive(Debug, Clone, Copy, PartialEq, Eq, Structural)]
#[non_exhaustive]
pub enum Error {
    /// The document could not be read as XML.
    XmlReader,
    /// The document could not be written with the new values.
    XmlWriter,
}

/// An XMP document: its bytes and the properties read from them, each tag
/// once, in the order in which they were met.
#[derive(Debug)]
pub struct Xmp {
    pub inner: Vec<u8>,
    pub entries: Vec<(Tag, String)>,
}

/// The number that the first `k` of some ASCII digits stand for; `None`
/// where another character stands among them.
pub open spec fn digits_value(text: Seq<u8>, k: nat) -> Option<int>
    decreases k,
{
    if k == 0 {
        Some(0int)
    } else {
        match digits_value(text, (k - 1) as nat) {
            None => None,
            Some(value) => if 0x30 <= text[k - 1] <= 0x39 {
                Some(value * 10 + (text[k - 1] - 0x30))
            } else {
                None
            },
        }
    }
}

/// The number up to `max` that a text stands for: decimal digits, at least
/// one, with an optional `+` in front.
pub open spec fn number_of(text: Seq<u8>, max: int) -> Option<int> {
    let digits = if text.len() > 0 && text[0] == 0x2B {
        text.subrange(1, text.len() as int)
    } else {
        text
    };
    if digits.len() == 0 {
        None
    } else {
        match digits_value(digits, digits.len()) {
            Some(value) => if value <= max {
                Some(value)
            } else {
                None
            },
            None => None,
        }
    }
}

/// The position of the first `/` among the first `k` bytes.
pub open spec fn slash_in(text: Seq<u8>, k: nat) -> Option<int>
    decreases k,
{
    if k == 0 {
        None
    } else {
        match slash_in(text, (k - 1) as nat) {
            Some(i) => Some(i),
            None => if text[k - 1] == 0x2F {
                Some(k - 1)
            } else {
                None
            },
        }
    }
}

/// The fraction that a text of the form `x/y` stands for.
pub open spec fn fraction_of(text: Seq<u8>) -> Option<(u32, u32)> {
    match slash_in(text, text.len()) {
        None => None,
        Some(i) => match (
            number_of(text.subrange(0, i), u32::MAX as int),
            number_of(text.subrange(i + 1, text.len() as int), u32::MAX as int),
        ) {
            (Some(x), Some(y)) => Some((x as u32, y as u32)),
            _ => None,
        },
    }
}

/// The value of some digits never gets smaller as more digits are read.
pub proof fn digits_value_grows(text: Seq<u8>, k: nat, n: nat)
    requires
        k <= n,
        digits_value(text, n) is Some,
    ensures
        digits_value(text, k) is Some,
        0 <= digits_value(text, k)->Some_0 <= digits_value(text, n)->Some_0,
    decreases n,
{
    if n > 0 {
        if k < n {
            digits_value_grows(text, k, (n - 1) as nat);
        }
        digits_value_grows(text, 0, (n - 1) as nat);
    }
}

/// Where the first `k` bytes are digits and the next one is not, the text
/// is no number.
pub proof fn digits_value_fails(text: Seq<u8>, k: nat, n: nat)
    requires
        k < n,
        !(0x30 <= text[k as int] <= 0x39),
    ensures
        digits_value(text, n) is None,
    decreases n,
{
    if n - 1 > k {
        digits_value_fails(text, k, (n - 1) as nat);
    }
}

/// The first `/` stays the first as more bytes are looked at.
pub proof fn slash_in_found(text: Seq<u8>, k: nat, n: nat)
    requires
        k < n,
        slash_in(text, k) is None,
        text[k as int] == 0x2F,
    ensures
        slash_in(text, n) == Some(k as int),
    decreases n,
{
    if n - 1 > k {
        slash_in_found(text, k, (n - 1) as nat);
    }
}

/// Reads a decimal number up to `max`.
pub fn parse_number(text: &[u8], max: u32) -> (number: Option<u32>)
    ensures
        match number_of(text@, max as int) {
            Some(value) => number == Some(value as u32) && 0 <= value <= max,
            None => number is None,
        },
{
    let start: usize = if text.len() > 0 && text[0] == 0x2B {
        1
    } else {
        0
    };
    let n = text.len();
    if start == n {
        return None;
    }
    let ghost digits = text@.subrange(start as int, n as int);
    proof {
        if start == 0 {
            assert(digits =~= text@);
        }
        if digits_value(digits, digits.len()) is Some {
            digits_value_grows(digits, 0, digits.len());
        }
    }
    let mut value: u64 = 0;
    let mut k: usize = start;
    while k < n
        invariant
            start <= k <= n,
            n == text@.len(),
            digits == text@.subrange(start as int, n as int),
            digits.len() == n - start,
            number_of(text@, max as int) == (match digits_value(digits, digits.len()) {
                Some(value) => if value <= max {
                    Some(value)
                } else {
                    None
                },
                None => None,
            }),
            digits_value(digits, digits.len()) is Some ==> 0 <= digits_value(
                digits,
                digits.len(),
            )->Some_0,
            digits_value(digits, (k - start) as nat) == Some(value as int),
            value <= max,
        decreases n - k,
    {
        let b = text[k];
        assert(digits[k - start] == b);
        if !(0x30 <= b && b <= 0x39) {
            proof {
                digits_value_fails(digits, (k - start) as nat, digits.len());
            }
            return None;
        }
        let next = value * 10 + (b - 0x30) as u64;
        assert(digits_value(digits, (k + 1 - start) as nat) == Some(next as int));
        if next > max as u64 {
            proof {
                if digits_value(digits, digits.len()) is Some {
                    digits_value_grows(digits, (k + 1 - start) as nat, digits.len());
                }
            }
            return None;
        }
        value = next;
        k += 1;
    }
    Some(value as u32)
}

/// Reads a fraction of the form `x/y`.
pub fn parse_fraction(text: &[u8]) -> (fraction: Option<(u32, u32)>)
    ensures
        fraction == fraction_of(text@),
{
    let n = text.len();
    let mut k: usize = 0;
    while k < n
        invariant
            k <= n,
            n == text@.len(),
            slash_in(text@, k as nat) is None,
        decreases n - k,
    {
        if text[k] == 0x2F {
            proof {
                slash_in_found(text@, k as nat, n as nat);
            }
            let x = parse_number(vstd::slice::slice_subrange(text, 0, k), u32::MAX)?;
            let y = parse_number(vstd::slice::slice_subrange(text, k + 1, n), u32::MAX)?;
            return Some((x, y));
        }
        k += 1;
    }
    None
}

impl Xmp {
    /// The properties are what reading the bytes gives.
    pub open spec fn wf(&self) -> bool {
        xml_events(self.inner@) is Some && properties_view(self.entries@) == properties_of(
            xml_events(self.inner@)->Some_0,
        )
    }

    /// The value of a property.
    pub open spec fn value(&self, tag: TagView) -> Option<Seq<char>> {
        value_of(properties_view(self.entries@), tag, self.entries@.len())
    }

    /// The value of the property of a known field.
    pub open spec fn field<T: Field>(&self) -> Option<Seq<char>> {
        self.value(Tag::key::<T>())
    }

    /// Reads the properties of an XMP document.
    pub fn new(data: Vec<u8>) -> (xmp: Result<Xmp, Error>)
        ensures
            match xml_events(data@) {
                Some(events) => xmp is Ok && xmp->Ok_0.inner == data && properties_view(
                    xmp->Ok_0.entries@,
                ) == properties_of(events) && xmp->Ok_0.wf(),
                None => xmp is Err && xmp->Err_0 == Error::XmlReader,
            },
    {
        match read_events(data.as_slice()) {
            Some(events) => {
                let entries = collect(&events);
                Ok(Xmp { inner: data, entries })
            },
            None => Err(Error::XmlReader),
        }
    }

    /// Gives properties that the document has new values and writes the
    /// document anew.
    ///
    /// On success the document has the same properties in the same order;
    /// each of them that `updates` names has the first value that `updates`
    /// gives it, and every other one has the value it had. Where the
    /// document cannot be written so, nothing changes.
    pub fn update(&mut self, updates: Vec<(Tag, String)>) -> (done: Result<(), Error>)
        ensures
            xml_events(old(self).inner@) is None ==> done == Err::<(), Error>(Error::XmlReader),
            done is Err ==> *final(self) == *old(self),
            done is Ok ==> final(self).wf() && old(self).updated_to(
                properties_view(final(self).entries@),
                properties_view(updates@),
            ),
    {
        let events = match read_events(self.inner.as_slice()) {
            Some(events) => events,
            None => {
                return Err(Error::XmlReader);
            },
        };
        let mut raw = match read_raw(self.inner.as_slice()) {
            Some(raw) => raw,
            None => {
                return Err(Error::XmlReader);
            },
        };
        if raw.len() != events.len() {
            return Err(Error::XmlReader);
        }
        let mut reader_state = ReaderState::Nothing;
        let n = events.len();
        let mut k: usize = 0;
        while k < n
            invariant
                k <= n,
                n == events@.len(),
                raw@.len() == n,
            decreases n - k,
        {
            match &events[k] {
                Event::Start(name, attributes) => {
                    if rdf_description(name) {
                        reader_state = ReaderState::RdfDescription;
                        let m = attributes.len();
                        let mut i: usize = 0;
                        while i < m
                            invariant
                                i <= m,
                                m == attributes@.len(),
                                raw@.len() == n,
                            decreases m - i,
                        {
                            if let Some(tag) = Tag::from_name(&attributes[i].0) {
                                // Apply updates
                                if let Some(value) = lookup(&updates, &tag) {
                                    set_text(&mut raw, k, i, value.as_str());
                                }
                            }
                            i += 1;
                        }
                    } else if let ReaderState::RdfDescription = reader_state {
                        if let Some(tag) = Tag::from_name(name) {
                            reader_state = ReaderState::Property(tag);
                        }
                    }
                },
                Event::Characters(_) => {
                    if let ReaderState::Property(tag) = &reader_state {
                        // Apply update
                        if let Some(value) = lookup(&updates, tag) {
                            set_text(&mut raw, k, 0, value.as_str());
                        }
                    }
                },
                Event::End(name) => {
                    let closes = rdf_description(name);
                    reader_state = match reader_state {
                        ReaderState::RdfDescription => if closes {
                            ReaderState::Nothing
                        } else {
                            ReaderState::RdfDescription
                        },
                        ReaderState::Property(_) => ReaderState::RdfDescription,
                        ReaderState::Nothing => ReaderState::Nothing,
                    };
                },
                Event::Other => {},
            }
            k += 1;
        }
        self.accept(&updates, write_raw(&raw))
    }

    /// Whether `properties` are the properties of this document with the
    /// values that `updates` gives them: the same tags in the same order,
    /// each with the first value that `updates` gives it or, where it gives
    /// none, with the value that it has here.
    pub open spec fn updated_to(
        &self,
        properties: Seq<(TagView, Seq<char>)>,
        updates: Seq<(TagView, Seq<char>)>,
    ) -> bool {
        properties.len() == self.entries@.len() && forall|i: int|
            0 <= i < self.entries@.len() ==> (#[trigger] properties[i]).0 == self.entries@[i].0@
                && properties[i].1 == (match value_of(updates, self.entries@[i].0@, updates.len()) {
                Some(value) => value,
                None => self.entries@[i].1@,
            })
    }

    /// Takes over what a writer made of this document with `updates`
    /// applied: `written` holds the bytes, or nothing where the writer
    /// failed.
    ///
    /// The bytes become the document if they can be read as XML and their
    /// properties are those of this document with the values of `updates`.
    /// Otherwise the document stays as it is, and the error is that of the
    /// writer.
    pub fn accept(&mut self, updates: &Vec<(Tag, String)>, written: Option<Vec<u8>>) -> (done: Result<
        (),
        Error,
    >)
        ensures
            match written {
                Some(data) => if xml_events(data@) is Some && old(self).updated_to(
                    properties_of(xml_events(data@)->Some_0),
                    properties_view(updates@),
                ) {
                    done is Ok && final(self).inner == data && final(self).wf()
                } else {
                    done == Err::<(), Error>(Error::XmlWriter) && *final(self) == *old(self)
                },
                None => done == Err::<(), Error>(Error::XmlWriter) && *final(self) == *old(self),
            },
    {
        let data = match written {
            Some(data) => data,
            None => {
                return Err(Error::XmlWriter);
            },
        };
        let written = match Xmp::new(data) {
            Ok(written) => written,
            Err(_) => {
                return Err(Error::XmlWriter);
            },
        };
        if !self.is_updated_in(&written, updates) {
            assert(!self.updated_to(properties_view(written.entries@), properties_view(updates@))) by {
                if self.updated_to(properties_view(written.entries@), properties_view(updates@)) {
                    assert forall|i: int| 0 <= i < self.entries@.len() implies (
                    #[trigger] written.entries@[i]).0@ == self.entries@[i].0@ && written.entries@[i].1@
                        == (match value_of(
                        properties_view(updates@),
                        self.entries@[i].0@,
                        updates@.len(),
                    ) {
                        Some(value) => value,
                        None => self.entries@[i].1@,
                    }) by {
                        assert(properties_view(written.entries@)[i].0 == written.entries@[i].0@);
                    }
                }
            }
            return Err(Error::XmlWriter);
        }
        assert(self.updated_to(properties_view(written.entries@), properties_view(updates@))) by {
            assert forall|i: int| 0 <= i < self.entries@.len() implies (#[trigger] properties_view(
                written.entries@,
            )[i]).0 == self.entries@[i].0@ && properties_view(written.entries@)[i].1 == (match value_of(
                properties_view(updates@),
                self.entries@[i].0@,
                updates@.len(),
            ) {
                Some(value) => value,
                None => self.entries@[i].1@,
            }) by {
                assert(written.entries@[i].0@ == self.entries@[i].0@);
            }
        }
        *self = written;
        Ok(())
    }

    /// Whether `written` has the properties of this document with the
    /// values that `updates` gives them.
    pub fn is_updated_in(&self, written: &Xmp, updates: &Vec<(Tag, String)>) -> (yes: bool)
        ensures
            yes == (written.entries@.len() == self.entries@.len() && forall|i: int|
                0 <= i < self.entries@.len() ==> (#[trigger] written.entries@[i]).0@
                    == self.entries@[i].0@ && written.entries@[i].1@ == (match value_of(
                    properties_view(updates@),
                    self.entries@[i].0@,
                    updates@.len(),
                ) {
                    Some(value) => value,
                    None => self.entries@[i].1@,
                })),
    {
        let n = self.entries.len();
        if written.entries.len() != n {
            return false;
        }
        let mut i: usize = 0;
        while i < n
            invariant
                i <= n,
                n == self.entries@.len(),
                written.entries@.len() == n,
                forall|j: int|
                    0 <= j < i ==> (#[trigger] written.entries@[j]).0@ == self.entries@[j].0@
                        && written.entries@[j].1@ == (match value_of(
                        properties_view(updates@),
                        self.entries@[j].0@,
                        updates@.len(),
                    ) {
                        Some(value) => value,
                        None => self.entries@[j].1@,
                    }),
            decreases n - i,
        {
            let wanted = match lookup(updates, &self.entries[i].0) {
                Some(value) => value.as_str(),
                None => self.entries[i].1.as_str(),
            };
            if !(written.entries[i].0.same(&self.entries[i].0) && crate::common::xmp::same_text(
                written.entries[i].1.as_str(),
                wanted,
            )) {
                assert(!(written.entries@[i as int].0@ == self.entries@[i as int].0@
                    && written.entries@[i as int].1@ == (match value_of(
                    properties_view(updates@),
                    self.entries@[i as int].0@,
                    updates@.len(),
                ) {
                    Some(value) => value,
                    None => self.entries@[i as int].1@,
                })));
                return false;
            }
            i += 1;
        }
        true
    }

    /// The value of a property.
    pub fn get(&self, tag: &Tag) -> (value: Option<&str>)
        ensures
            match self.value(tag@) {
                Some(text) => value is Some && value->Some_0@ == text,
                None => value is None,
            },
    {
        match lookup(&self.entries, tag) {
            Some(value) => Some(value.as_str()),
            None => None,
        }
    }

    /// The value of a property of the form `x/y`.
    pub fn get_frac(&self, tag: &Tag) -> (fraction: Option<(u32, u32)>)
        ensures
            fraction == (match self.value(tag@) {
                Some(text) => fraction_of(vstd::utf8::encode_utf8(text)),
                None => None,
            }),
    {
        let text = self.get(tag)?;
        parse_fraction(text.as_bytes())
    }

    /// The value of a property that is a number up to 65535.
    pub fn get_u16(&self, tag: &Tag) -> (number: Option<u16>)
        ensures
            number == self.number(tag@),
    {
        let text = self.get(tag)?;
        match parse_number(text.as_bytes(), 65535) {
            Some(value) => Some(value as u16),
            None => None,
        }
    }

    /// The value of a property that is a date and time in the format of
    /// RFC 3339.
    pub fn get_date_time(&self, tag: &Tag) -> (moment: Option<DateTime>)
        ensures
            moment == (match self.value(tag@) {
                Some(text) => DateTime::read(text, true),
                None => None,
            }),
    {
        let text = self.get(tag)?;
        DateTime::parse(text, true)
    }

    /// The properties, each tag once, in the order in which they were met.
    pub fn entries(&self) -> (entries: &Vec<(Tag, String)>)
        ensures
            entries == self.entries,
    {
        &self.entries
    }

    pub fn into_inner(self) -> (data: Vec<u8>)
        ensures
            data == self.inner,
    {
        self.inner
    }

    /// The text of a property, if the document has it.
    pub fn text_of<T: Field>(&self, field: T) -> (text: Option<String>)
        ensures
            match self.field::<T>() {
                Some(chars) => text is Some && text->Some_0@ == chars,
                None => text is None,
            },
    {
        match self.get(&Tag::of(field)) {
            Some(text) => Some(text.to_owned()),
            None => None,
        }
    }

    pub fn date_time_original(&self) -> (moment: Option<DateTime>)
        ensures
            moment == (match self.field::<field::DateTimeOriginal>() {
                Some(text) => DateTime::read(text, true),
                None => None,
            }),
    {
        self.get_date_time(&Tag::of(field::DateTimeOriginal))
    }

    pub fn model(&self) -> (text: Option<String>)
        ensures
            match self.field::<field::Model>() {
                Some(chars) => text is Some && text->Some_0@ == chars,
                None => text is None,
            },
    {
        self.text_of(field::Model)
    }

    pub fn make(&self) -> (text: Option<String>)
        ensures
            match self.field::<field::Make>() {
                Some(chars) => text is Some && text->Some_0@ == chars,
                None => text is None,
            },
    {
        self.text_of(field::Make)
    }

    pub fn exposure_time(&self) -> (fraction: Option<(u32, u32)>)
        ensures
            fraction == (match self.field::<field::ExposureTime>() {
                Some(text) => fraction_of(vstd::utf8::encode_utf8(text)),
                None => None,
            }),
    {
        self.get_frac(&Tag::of(field::ExposureTime))
    }

    /// The number up to 65535 that a property holds.
    pub open spec fn number(&self, tag: TagView) -> Option<u16> {
        match self.value(tag) {
            Some(text) => match number_of(vstd::utf8::encode_utf8(text), u16::MAX as int) {
                Some(value) => Some(value as u16),
                None => None,
            },
            None => None,
        }
    }

    /// ISO: the photographic sensitivity or, without it, the older field.
    pub open spec fn spec_iso_speed_rating(&self) -> Option<u16> {
        match self.number(Tag::key::<field::PhotographicSensitivity>()) {
            Some(iso) => Some(iso),
            None => self.number(Tag::key::<field::ISOSpeedRatings>()),
        }
    }

    /// ISO: the photographic sensitivity or, without it, the older field.
    pub fn iso_speed_rating(&self) -> (iso: Option<u16>)
        ensures
            iso == self.spec_iso_speed_rating(),
    {
        match self.get_u16(&Tag::of(field::PhotographicSensitivity)) {
            Some(iso) => Some(iso),
            None => self.get_u16(&Tag::of(field::ISOSpeedRatings)),
        }
    }

    pub fn creator(&self) -> (text: Option<String>)
        ensures
            match self.field::<field::Creator>() {
                Some(chars) => text is Some && text->Some_0@ == chars,
                None => text is None,
            },
    {
        self.text_of(field::Creator)
    }

    pub fn creator_tool(&self) -> (text: Option<String>)
        ensures
            match self.field::<field::CreatorTool>() {
                Some(chars) => text is Some && text->Some_0@ == chars,
                None => text is None,
            },
    {
        self.text_of(field::CreatorTool)
    }
}

} // verus!
