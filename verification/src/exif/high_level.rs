//! The fields of a decoded document by name.
use vstd::prelude::*;
use crate::common::datetime::DateTime;
use crate::common::exif::{Field, TagIfd};
use crate::common::field;
use crate::common::geography::{LatRef, LonRef, RationalLocation};
use crate::common::orientation::Orientation;
use crate::common::text::{join_text, non_empty, trim_text, trimmed};
use crate::exif::decode::decoded;
use crate::exif::document::{Doc, ExifRaw};
use crate::exif::error::Error;
use crate::exif::lookup::{datetime_of, decode_utf8_lossy, utf8_lossy};

verus! {

/// A decoded Exif document.
#[derive(Debug)]
pub struct Exif {
    pub decoder: ExifRaw,
}

impl View for Exif {
    type V = Doc;

    open spec fn view(&self) -> Doc {
        self.decoder@
    }
}

/// What a lookup found, if it worked and found something.
pub open spec fn found<T>(lookup: Result<Option<T>, Error>) -> Option<T> {
    match lookup {
        Ok(Some(x)) => Some(x),
        _ => None,
    }
}

/// The bytes before the first NUL byte.
pub open spec fn until_nul(data: Seq<u8>) -> Seq<u8>
    decreases data.len(),
{
    if data.len() == 0 || data[0] == 0 {
        Seq::empty()
    } else {
        seq![data[0]] + until_nul(data.drop_first())
    }
}

/// Whether none of three fractions has the denominator zero.
pub open spec fn finite(fractions: Seq<(u32, u32)>) -> bool {
    fractions[0].1 != 0 && fractions[1].1 != 0 && fractions[2].1 != 0
}

impl Doc {
    /// The text of a known field.
    pub open spec fn text<T: Field>(self) -> Option<Seq<char>> {
        found(self.string(TagIfd::key::<T>()))
    }

    /// The exposure time in seconds as a fraction.
    pub open spec fn exposure_time(self) -> Option<(u32, u32)> {
        match found(self.rationals(TagIfd::key::<field::ExposureTime>(), 1)) {
            Some(pairs) => Some(pairs[0]),
            None => None,
        }
    }

    /// The ISO speed.
    pub open spec fn iso_speed_rating(self) -> Option<u16> {
        found(self.short(TagIfd::key::<field::PhotographicSensitivity>()))
    }

    /// The orientation, if the document has one with a known code.
    pub open spec fn orientation(self) -> Option<Orientation> {
        match found(self.short(TagIfd::key::<field::Orientation>())) {
            Some(code) => Orientation::of_code(code),
            None => None,
        }
    }

    /// The name of the camera's owner: the field of that name or, without
    /// it, what Canon's maker note holds before its first NUL byte.
    pub open spec fn camera_owner(self) -> Option<Seq<char>> {
        match self.text::<field::CameraOwnerName>() {
            Some(name) => Some(name),
            None => match found(self.string_raw(TagIfd::key::<field::CanonOwnerName>())) {
                Some(data) => Some(utf8_lossy(until_nul(data))),
                None => None,
            },
        }
    }

    /// The user comment without white space around it, if that leaves
    /// anything.
    pub open spec fn user_comment(self) -> Option<Seq<char>> {
        match found(self.character_identified_string(TagIfd::key::<field::UserComment>())) {
            Some(text) => if trimmed(text).len() == 0 {
                None
            } else {
                Some(trimmed(text))
            },
            None => None,
        }
    }

    /// The text from which the time of the original is read: the date and
    /// time, then the fraction of the second if the document has one, then
    /// the offset from UTC if the document has one, or `Z`.
    pub open spec fn original_time_text(self) -> Option<Seq<char>> {
        match self.text::<field::DateTimeOriginal>() {
            None => None,
            Some(text) => {
                let moment = datetime_of(text);
                let fraction = match self.text::<field::SubSecTimeOriginal>() {
                    Some(subsec) => if trimmed(subsec).len() == 0 {
                        moment
                    } else {
                        moment + "."@ + trimmed(subsec)
                    },
                    None => moment,
                };
                match self.text::<field::OffsetTimeOriginal>() {
                    Some(offset) => Some(fraction + offset),
                    None => Some(fraction + "Z"@),
                }
            },
        }
    }

    /// When the original was taken.
    pub open spec fn date_time_original(self) -> Option<DateTime> {
        match self.original_time_text() {
            None => None,
            Some(text) => DateTime::read(
                text,
                self.text::<field::OffsetTimeOriginal>() is Some,
            ),
        }
    }

    /// Where the picture was taken.
    pub open spec fn gps_location(self) -> Option<(LatRef, Seq<(u32, u32)>, LonRef, Seq<(u32, u32)>)> {
        match (
            self.text::<field::GPSLatitudeRef>(),
            found(self.rationals(TagIfd::key::<field::GPSLatitude>(), 3)),
            self.text::<field::GPSLongitudeRef>(),
            found(self.rationals(TagIfd::key::<field::GPSLongitude>(), 3)),
        ) {
            (Some(lat_letter), Some(lat), Some(lon_letter), Some(lon)) => match (
                LatRef::of_letter(lat_letter),
                LonRef::of_letter(lon_letter),
            ) {
                (Some(lat_ref), Some(lon_ref)) => if finite(lat) && finite(lon) {
                    Some((lat_ref, lat, lon_ref, lon))
                } else {
                    None
                },
                _ => None,
            },
            _ => None,
        }
    }
}

/// The bytes before the first NUL byte.
pub fn take_until_nul(data: &[u8]) -> (head: Vec<u8>)
    ensures
        head@ == until_nul(data@),
{
    let mut head: Vec<u8> = Vec::new();
    let mut i: usize = 0;
    assert(data@.subrange(0, data@.len() as int) =~= data@);
    while i < data.len() && data[i] != 0
        invariant
            i <= data@.len(),
            until_nul(data@) == head@ + until_nul(data@.subrange(i as int, data@.len() as int)),
        decreases data@.len() - i,
    {
        let ghost tail = data@.subrange(i as int, data@.len() as int);
        assert(tail.drop_first() =~= data@.subrange(i + 1, data@.len() as int));
        let ghost before = head@;
        head.push(data[i]);
        assert(before + (seq![data@[i as int]] + until_nul(tail.drop_first())) =~= head@
            + until_nul(tail.drop_first()));
        i += 1;
    }
    assert(head@ + Seq::<u8>::empty() =~= head@);
    head
}

impl Exif {
    /// Decodes the blob.
    pub fn new(data: Vec<u8>) -> (exif: Result<Exif, Error>)
        ensures
            match decoded(data@) {
                Ok(doc) => exif is Ok && exif->Ok_0@ == doc,
                Err(e) => exif is Err && exif->Err_0 == e,
            },
            exif is Ok ==> exif->Ok_0@.faithful(),
    {
        let mut decoder = ExifRaw::new(data);
        decoder.decode()?;
        Ok(Exif { decoder })
    }

    /// The text of a known field, if a lookup finds it.
    pub fn text_of<T: Field>(&self, field: T) -> (text: Option<String>)
        ensures
            match self@.text::<T>() {
                Some(chars) => text is Some && text->Some_0@ == chars,
                None => text is None,
            },
    {
        match self.decoder.lookup_string(TagIfd::of(field)) {
            Ok(Some(text)) => Some(text),
            _ => None,
        }
    }

    /// Image orientation
    ///
    /// Rotation and mirroring that have to be applied to show the image
    /// correctly
    pub fn orientation(&self) -> (orientation: Option<Orientation>)
        ensures
            orientation == self@.orientation(),
    {
        match self.decoder.lookup_short(TagIfd::of(field::Orientation)) {
            Ok(Some(code)) => match Orientation::from_u16(code) {
                Ok(orientation) => Some(orientation),
                Err(_) => None,
            },
            _ => None,
        }
    }

    /// Where the picture was taken: hemispheres and degrees, minutes and
    /// seconds as fractions. `None` unless all four fields can be read, the
    /// hemispheres are known and no denominator is zero.
    pub fn gps_location(&self) -> (location: Option<RationalLocation>)
        ensures
            match self@.gps_location() {
                Some((lat_ref, lat, lon_ref, lon)) => location is Some && location->Some_0.lat_ref
                    == lat_ref && location->Some_0.lat@ == lat && location->Some_0.lon_ref
                    == lon_ref && location->Some_0.lon@ == lon,
                None => location is None,
            },
    {
        let lat_letter = self.text_of(field::GPSLatitudeRef)?;
        let lat = match self.decoder.lookup_rationals::<3>(TagIfd::of(field::GPSLatitude)) {
            Ok(Some(lat)) => lat,
            _ => {
                return None;
            },
        };
        let lon_letter = self.text_of(field::GPSLongitudeRef)?;
        let lon = match self.decoder.lookup_rationals::<3>(TagIfd::of(field::GPSLongitude)) {
            Ok(Some(lon)) => lon,
            _ => {
                return None;
            },
        };
        let lat_ref = match LatRef::from_letter(lat_letter.as_str()) {
            Ok(r) => r,
            Err(_) => {
                return None;
            },
        };
        let lon_ref = match LonRef::from_letter(lon_letter.as_str()) {
            Ok(r) => r,
            Err(_) => {
                return None;
            },
        };
        if lat[0].1 == 0 || lat[1].1 == 0 || lat[2].1 == 0 || lon[0].1 == 0 || lon[1].1 == 0
            || lon[2].1 == 0 {
            return None;
        }
        Some(RationalLocation { lat_ref, lat, lon_ref, lon })
    }

    /// Camera manifacturer
    pub fn make(&self) -> (text: Option<String>)
        ensures
            match self@.text::<field::Make>() {
                Some(chars) => text is Some && text->Some_0@ == chars,
                None => text is None,
            },
    {
        self.text_of(field::Make)
    }

    /// Camera model
    pub fn model(&self) -> (text: Option<String>)
        ensures
            match self@.text::<field::Model>() {
                Some(chars) => text is Some && text->Some_0@ == chars,
                None => text is None,
            },
    {
        self.text_of(field::Model)
    }

    /// ISO
    pub fn iso_speed_rating(&self) -> (iso: Option<u16>)
        ensures
            iso == self@.iso_speed_rating(),
    {
        match self.decoder.lookup_short(TagIfd::of(field::PhotographicSensitivity)) {
            Ok(Some(iso)) => Some(iso),
            _ => None,
        }
    }

    /// Aperture as a fraction
    pub fn f_number_rational(&self) -> (fraction: Option<(u32, u32)>)
        ensures
            match found(self@.rationals(TagIfd::key::<field::FNumber>(), 1)) {
                Some(pairs) => fraction == Some(pairs[0]),
                None => fraction is None,
            },
    {
        match self.decoder.lookup_rational(TagIfd::of(field::FNumber)) {
            Ok(Some(fraction)) => Some(fraction),
            _ => None,
        }
    }

    /// Focal length in mm as a fraction
    pub fn focal_length_rational(&self) -> (fraction: Option<(u32, u32)>)
        ensures
            match found(self@.rationals(TagIfd::key::<field::FocalLength>(), 1)) {
                Some(pairs) => fraction == Some(pairs[0]),
                None => fraction is None,
            },
    {
        match self.decoder.lookup_rational(TagIfd::of(field::FocalLength)) {
            Ok(Some(fraction)) => Some(fraction),
            _ => None,
        }
    }

    /// Exposure time in seconds
    ///
    /// Fraction of first element devided by second element. The first element
    /// is typically one, such that the value is given in its common for like
    /// "1/60 sec".
    pub fn exposure_time(&self) -> (fraction: Option<(u32, u32)>)
        ensures
            fraction == self@.exposure_time(),
    {
        match self.decoder.lookup_rational(TagIfd::of(field::ExposureTime)) {
            Ok(Some(fraction)) => Some(fraction),
            _ => None,
        }
    }

    /// The text from which the time of the original is read, and whether
    /// the document gave the offset from UTC.
    pub fn original_time_text(&self) -> (text: Option<(String, bool)>)
        ensures
            match self@.original_time_text() {
                Some(chars) => text is Some && text->Some_0.0@ == chars && text->Some_0.1
                    == self@.text::<field::OffsetTimeOriginal>() is Some,
                None => text is None,
            },
    {
        let mut datetime = match self.decoder.lookup_datetime(TagIfd::of(field::DateTimeOriginal)) {
            Ok(Some(text)) => text,
            _ => {
                return None;
            },
        };
        // Add sub-seconds
        if let Some(subsec) = self.text_of(field::SubSecTimeOriginal) {
            if let Some(subsec) = non_empty(trim_text(subsec.as_str())) {
                datetime = join_text(datetime.as_str(), ".");
                datetime = join_text(datetime.as_str(), subsec.as_str());
            }
        }
        // Add offset (timezone)
        if let Some(offset) = self.text_of(field::OffsetTimeOriginal) {
            Some((join_text(datetime.as_str(), offset.as_str()), true))
        } else {
            // Add an offset to allow parser to work
            Some((join_text(datetime.as_str(), "Z"), false))
        }
    }

    /// When the original was taken: with the offset from UTC if the
    /// document gives one.
    pub fn date_time_original(&self) -> (moment: Option<DateTime>)
        ensures
            moment == self@.date_time_original(),
    {
        let (text, use_offset) = self.original_time_text()?;
        DateTime::parse(text.as_str(), use_offset)
    }

    /// The name of the camera's owner.
    pub fn camera_owner(&self) -> (name: Option<String>)
        ensures
            match self@.camera_owner() {
                Some(chars) => name is Some && name->Some_0@ == chars,
                None => name is None,
            },
    {
        if let Some(s) = self.text_of(field::CameraOwnerName) {
            Some(s)
        } else if let Ok(Some(s)) = self.decoder.lookup_string_raw(
            TagIfd::of(field::CanonOwnerName),
        ) {
            let bytes = take_until_nul(s.as_slice());
            Some(decode_utf8_lossy(bytes.as_slice()))
        } else {
            None
        }
    }

    /// Software used
    pub fn software(&self) -> (text: Option<String>)
        ensures
            match self@.text::<field::Software>() {
                Some(chars) => text is Some && text->Some_0@ == chars,
                None => text is None,
            },
    {
        self.text_of(field::Software)
    }

    /// The user comment without white space around it.
    pub fn user_comment(&self) -> (comment: Option<String>)
        ensures
            match self@.user_comment() {
                Some(chars) => comment is Some && comment->Some_0@ == chars,
                None => comment is None,
            },
    {
        let s = match self.decoder.lookup_character_identified_code_string(
            TagIfd::of(field::UserComment),
        ) {
            Ok(Some(s)) => s,
            _ => {
                return None;
            },
        };
        non_empty(trim_text(s.as_str()))
    }

    /// The document itself.
    pub fn decoder(&self) -> (decoder: &ExifRaw)
        ensures
            decoder@ == self@,
    {
        &self.decoder
    }

    /// A listing of the document for people to read.
    pub fn debug_dump(&self) -> (text: String)
        ensures
            vstd::utf8::encode_utf8(text@) == crate::exif::debug::dump_text(self@, 6),
            text@ == vstd::utf8::decode_utf8(crate::exif::debug::dump_text(self@, 6)),
    {
        self.decoder.debug_dump()
    }
}

} // verus!
