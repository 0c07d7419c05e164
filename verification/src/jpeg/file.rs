//! A JPEG file as a list of segments.
use vstd::prelude::*;
use vstd::slice::slice_subrange;
use vstd::string::StringSliceAdditionalSpecFns;
use crate::common::error::ErrorWithData;
use crate::jpeg::error::Error;
use crate::jpeg::marker::Marker;
use crate::jpeg::scan::{find_segments, inside, scanned, scanned_inside, RawSegment, MARKER_START};
use crate::jpeg::segments::{
    frame_of, scan_of, tables_from, tables_view, ComponentSpecificationParameters, Dqt, Frame, Scan,
    Sof, Sos, Table,
};

verus! {

/// The text that starts the data of a segment with Exif data.
pub const EXIF_IDENTIFIER_STRING: &'static str = "Exif\0\0";

/// The text that starts the data of a segment with XMP data.
pub const XMP_IDENTIFIER_STRING: &'static str = "http://ns.adobe.com/xap/1.0/\0";

/// A JPEG file: its bytes and where its segments lie.
#[derive(Debug)]
pub struct Jpeg {
    pub segments: Vec<RawSegment>,
    pub data: Vec<u8>,
}

/// One segment of a JPEG file.
#[derive(Clone, Copy, Debug)]
pub struct Segment<'a> {
    pub marker: Marker,
    pub data_start: usize,
    pub data_end: usize,
    pub jpeg: &'a Jpeg,
}

#[derive(Debug, Clone, Copy, PartialEq, Eq, Structural)]
pub enum ColorModel {
    Grayscale,
    YCbCr,
    Cmyk,
    Rgb,
    Ycck,
}

/// Which segments are asked for.
#[derive(Debug, Clone, Copy, PartialEq, Eq, Structural)]
pub enum Want {
    /// Every segment
    All,
    /// The segments with a marker
    Marked(Marker),
    /// The segments that start a frame
    Frame,
    /// The segments with Exif data
    Exif,
    /// The segments with XMP data
    Xmp,
}

/// Whether `data` starts with `prefix`.
pub open spec fn starts_with(data: Seq<u8>, prefix: Seq<u8>) -> bool {
    prefix.len() <= data.len() && data.subrange(0, prefix.len() as int) == prefix
}

/// The data of a segment of a file.
pub open spec fn data_of(data: Seq<u8>, segment: RawSegment) -> Seq<u8> {
    data.subrange(segment.data_start as int, segment.data_end as int)
}

/// Whether a segment is one of those asked for.
pub open spec fn wanted(data: Seq<u8>, segment: RawSegment, want: Want) -> bool {
    match want {
        Want::All => true,
        Want::Marked(marker) => segment.marker == marker,
        Want::Frame => segment.marker.spec_is_sof(),
        Want::Exif => segment.marker == Marker::APP1 && starts_with(
            data_of(data, segment),
            EXIF_IDENTIFIER_STRING.spec_bytes(),
        ),
        Want::Xmp => segment.marker == Marker::APP1 && starts_with(
            data_of(data, segment),
            XMP_IDENTIFIER_STRING.spec_bytes(),
        ),
    }
}

/// The segments asked for among the first `k`, in their order.
pub open spec fn chosen(data: Seq<u8>, segments: Seq<RawSegment>, want: Want, k: nat) -> Seq<
    RawSegment,
>
    decreases k,
{
    if k == 0 {
        Seq::empty()
    } else if wanted(data, segments[k - 1], want) {
        chosen(data, segments, want, (k - 1) as nat).push(segments[k - 1])
    } else {
        chosen(data, segments, want, (k - 1) as nat)
    }
}

/// The quantization tables of the first `k` of some segments, in their
/// order; the first error, if the data of one of them cannot be read.
pub open spec fn tables_of(data: Seq<u8>, segments: Seq<RawSegment>, k: nat) -> Result<
    Seq<Table>,
    Error,
>
    decreases k,
{
    if k == 0 {
        Ok(Seq::empty())
    } else {
        match tables_of(data, segments, (k - 1) as nat) {
            Err(e) => Err(e),
            Ok(tables) => match tables_from(data_of(data, segments[k - 1]), 0) {
                Err(e) => Err(e),
                Ok(more) => Ok(tables + more),
            },
        }
    }
}

/// The color model that the marker of Adobe and the number of components
/// give.
pub open spec fn color_model_of(adobe: Option<Seq<u8>>, n_components: int) -> Result<
    ColorModel,
    Error,
> {
    if adobe is Some && starts_with(adobe->Some_0, "Adobe\0".spec_bytes()) && adobe->Some_0.len()
        > 11 {
        let transform = adobe->Some_0[11];
        if transform == 0 && n_components == 4 {
            Ok(ColorModel::Cmyk)
        } else if transform == 0 && n_components == 3 {
            Ok(ColorModel::Rgb)
        } else if transform == 1 {
            Ok(ColorModel::YCbCr)
        } else if transform == 2 {
            Ok(ColorModel::Ycck)
        } else {
            Err(Error::UnknownColorModel)
        }
    } else if n_components == 1 {
        Ok(ColorModel::Grayscale)
    } else if n_components == 3 {
        Ok(ColorModel::YCbCr)
    } else {
        Err(Error::UnknownColorModel)
    }
}

/// The first of some parameters with the component identifier `c`.
pub open spec fn parameters_for(parameters: Seq<ComponentSpecificationParameters>, c: u8, k: nat) -> Option<
    ComponentSpecificationParameters,
>
    decreases k,
{
    if k == 0 {
        None
    } else {
        match parameters_for(parameters, c, (k - 1) as nat) {
            Some(found) => Some(found),
            None => if parameters[k - 1].c == c {
                Some(parameters[k - 1])
            } else {
                None
            },
        }
    }
}

/// Whether `data` starts with `prefix`.
pub fn has_prefix(data: &[u8], prefix: &[u8]) -> (yes: bool)
    ensures
        yes == starts_with(data@, prefix@),
{
    if data.len() < prefix.len() {
        return false;
    }
    let mut i: usize = 0;
    while i < prefix.len()
        invariant
            i <= prefix@.len() <= data@.len(),
            forall|j: int| 0 <= j < i ==> data@[j] == prefix@[j],
        decreases prefix@.len() - i,
    {
        if data[i] != prefix[i] {
            assert(data@.subrange(0, prefix@.len() as int)[i as int] != prefix@[i as int]);
            return false;
        }
        i += 1;
    }
    assert(data@.subrange(0, prefix@.len() as int) =~= prefix@);
    true
}

impl RawSegment {
    /// The segment of the file that lies where this one says.
    pub fn segment<'a>(&self, jpeg: &'a Jpeg) -> (segment: Segment<'a>)
        ensures
            segment.raw() == *self,
            segment.jpeg == jpeg,
    {
        Segment {
            marker: self.marker,
            data_start: self.data_start,
            data_end: self.data_end,
            jpeg,
        }
    }

    /// Complete segment including marker and length
    ///
    /// The range from the marker to the end of the data, for a segment that
    /// has a length field.
    pub fn complete_data(&self) -> (range: (usize, usize))
        requires
            self.data_start >= 4,
        ensures
            range == ((self.data_start - 4) as usize, self.data_end),
    {
        (self.data_start - 4, self.data_end)
    }
}

impl<'a> Segment<'a> {
    /// Where the segment lies.
    pub open spec fn raw(self) -> RawSegment {
        RawSegment { marker: self.marker, data_start: self.data_start, data_end: self.data_end }
    }

    /// The segment lies inside its file.
    pub open spec fn wf(self) -> bool {
        inside(self.raw(), self.jpeg.data@.len() as int)
    }

    pub fn marker(&self) -> (marker: Marker)
        ensures
            marker == self.marker,
    {
        self.marker
    }

    pub fn data_pos(&self) -> (pos: usize)
        ensures
            pos == self.data_start,
    {
        self.data_start
    }

    /// The data of the segment.
    pub fn data(&self) -> (data: &'a [u8])
        requires
            self.wf(),
        ensures
            data@ == data_of(self.jpeg.data@, self.raw()),
    {
        slice_subrange(self.jpeg.data.as_slice(), self.data_start, self.data_end)
    }

    pub fn unsafe_raw_segment(self) -> (raw: RawSegment)
        ensures
            raw == self.raw(),
    {
        RawSegment { data_start: self.data_start, data_end: self.data_end, marker: self.marker }
    }
}

/// A segment that is to be written into a file.
#[derive(Debug, Clone, Copy)]
pub struct NewSegment<'a> {
    pub marker: Marker,
    pub data: &'a [u8],
    pub total_len: u16,
}

impl<'a> NewSegment<'a> {
    /// The bytes of the segment: the marker, the length of the data and of
    /// itself in two bytes, high byte first, and the data.
    pub open spec fn bytes(self) -> Seq<u8> {
        seq![0xFFu8, self.marker.code(), (self.total_len / 256) as u8, (self.total_len % 256) as u8]
            + self.data@
    }

    /// A segment with the given data, which must be short enough for the
    /// two bytes of the length field.
    pub fn new(marker: Marker, data: &'a [u8]) -> (segment: Result<NewSegment<'a>, Error>)
        ensures
            data@.len() + 2 <= u16::MAX ==> segment is Ok && segment->Ok_0.marker == marker
                && segment->Ok_0.data@ == data@ && segment->Ok_0.total_len == data@.len() + 2,
            data@.len() + 2 > u16::MAX ==> segment is Err && segment->Err_0 == Error::Math,
    {
        if data.len() > (u16::MAX - 2) as usize {
            return Err(Error::Math);
        }
        let total_len = data.len() as u16 + 2;
        Ok(NewSegment { marker, data, total_len })
    }

    /// Appends the bytes of the segment.
    pub fn write_to(&self, vec: &mut Vec<u8>)
        ensures
            final(vec)@ == old(vec)@ + self.bytes(),
    {
        vec.push(MARKER_START);
        vec.push(self.marker.to_u8());
        vec.push((self.total_len / 256) as u8);
        vec.push((self.total_len % 256) as u8);
        let mut i: usize = 0;
        while i < self.data.len()
            invariant
                i <= self.data@.len(),
                vec@ == old(vec)@ + seq![
                    0xFFu8,
                    self.marker.code(),
                    (self.total_len / 256) as u8,
                    (self.total_len % 256) as u8,
                ] + self.data@.subrange(0, i as int),
            decreases self.data@.len() - i,
        {
            vec.push(self.data[i]);
            assert(self.data@.subrange(0, i + 1) =~= self.data@.subrange(0, i as int).push(
                self.data@[i as int],
            ));
            i += 1;
        }
        assert(self.data@.subrange(0, self.data@.len() as int) =~= self.data@);
    }
}

impl Jpeg {
    /// The segments are what a scan of the bytes finds.
    pub open spec fn wf(&self) -> bool {
        scanned(self.data@) == Ok::<Seq<RawSegment>, Error>(self.segments@)
    }

    /// The segments asked for, in their order.
    pub open spec fn chosen(&self, want: Want) -> Seq<RawSegment> {
        chosen(self.data@, self.segments@, want, self.segments@.len())
    }

    /// The data of the first segment with the marker, if there is one.
    pub open spec fn data_by_marker(&self, marker: Marker) -> Option<Seq<u8>> {
        if self.chosen(Want::Marked(marker)).len() == 0 {
            None
        } else {
            Some(data_of(self.data@, self.chosen(Want::Marked(marker))[0]))
        }
    }

    /// The frame header of the file.
    pub open spec fn frame(&self) -> Result<Frame, Error> {
        if self.chosen(Want::Frame).len() == 0 {
            Err(Error::NoSofSegmentFound)
        } else {
            frame_of(data_of(self.data@, self.chosen(Want::Frame)[0]))
        }
    }

    /// The header of the first scan of the file.
    pub open spec fn scan(&self) -> Result<Scan, Error> {
        match self.data_by_marker(Marker::SOS) {
            None => Err(Error::NoSosSegmentFound),
            Some(data) => scan_of(data),
        }
    }

    /// The parameters of the component that the scan lists at `component`.
    pub open spec fn parameters(&self, component: int) -> Result<
        ComponentSpecificationParameters,
        Error,
    > {
        match self.scan() {
            Err(e) => Err(e),
            Ok(scan) => if component >= scan.components_specifications.len() {
                Err(Error::MissingComponentSpecification)
            } else {
                match self.frame() {
                    Err(e) => Err(e),
                    Ok(frame) => match parameters_for(
                        frame.parameters,
                        scan.components_specifications[component].cs,
                        frame.parameters.len(),
                    ) {
                        Some(found) => Ok(found),
                        None => Err(Error::MissingComponentSpecificationParameters),
                    },
                }
            },
        }
    }

    /// Reads the segments of a file. Where that fails, the error hands the
    /// bytes back.
    pub fn new(data: Vec<u8>) -> (jpeg: Result<Jpeg, ErrorWithData<Error>>)
        ensures
            match scanned(data@) {
                Ok(segments) => jpeg is Ok && jpeg->Ok_0.data == data && jpeg->Ok_0.segments@
                    == segments && jpeg->Ok_0.wf(),
                Err(e) => jpeg is Err && jpeg->Err_0.err == e && jpeg->Err_0.data == data,
            },
    {
        match find_segments(data.as_slice()) {
            Ok(segments) => Ok(Jpeg { segments, data }),
            Err(err) => Err(ErrorWithData::new(err, data)),
        }
    }

    pub fn into_inner(self) -> (data: Vec<u8>)
        ensures
            data == self.data,
    {
        self.data
    }

    /// The places of the segments asked for, in their order.
    pub fn select(&self, want: Want) -> (found: Vec<RawSegment>)
        requires
            self.wf(),
        ensures
            found@ == self.chosen(want),
            forall|i: int| 0 <= i < found@.len() ==> inside(#[trigger] found@[i], self.data@.len() as int),
    {
        let n = self.segments.len();
        let data = self.data.as_slice();
        assert(data@.len() == data.len());
        proof {
            scanned_inside(self.data@);
            assert forall|i: int| 0 <= i < n implies inside(
                #[trigger] self.segments@[i],
                data@.len() as int,
            ) by {
                assert(self.segments@[i] == scanned(self.data@)->Ok_0[i]);
            }
        }
        let mut found: Vec<RawSegment> = Vec::new();
        let mut k: usize = 0;
        while k < n
            invariant
                k <= n,
                n == self.segments@.len(),
                data@ == self.data@,
                forall|i: int| 0 <= i < n ==> inside(#[trigger] self.segments@[i], data@.len() as int),
                found@ == chosen(self.data@, self.segments@, want, k as nat),
                forall|i: int| 0 <= i < found@.len() ==> inside(#[trigger] found@[i], data@.len() as int),
            decreases n - k,
        {
            let segment = self.segments[k];
            assert(inside(self.segments@[k as int], data@.len() as int));
            let take = match want {
                Want::All => true,
                Want::Marked(marker) => segment.marker == marker,
                Want::Frame => segment.marker.is_sof(),
                Want::Exif => segment.marker == Marker::APP1 && has_prefix(
                    slice_subrange(data, segment.data_start, segment.data_end),
                    EXIF_IDENTIFIER_STRING.as_bytes(),
                ),
                Want::Xmp => segment.marker == Marker::APP1 && has_prefix(
                    slice_subrange(data, segment.data_start, segment.data_end),
                    XMP_IDENTIFIER_STRING.as_bytes(),
                ),
            };
            if take {
                found.push(segment);
            }
            k += 1;
        }
        found
    }

    /// The segments asked for, in their order.
    pub fn segments_where(&self, want: Want) -> (segments: Vec<Segment<'_>>)
        requires
            self.wf(),
        ensures
            segments@.len() == self.chosen(want).len(),
            forall|i: int|
                0 <= i < segments@.len() ==> (#[trigger] segments@[i]).raw() == self.chosen(want)[i]
                    && segments@[i].jpeg == self && segments@[i].wf(),
    {
        let found = self.select(want);
        let mut segments: Vec<Segment<'_>> = Vec::new();
        let mut i: usize = 0;
        while i < found.len()
            invariant
                i <= found@.len(),
                segments@.len() == i,
                forall|j: int|
                    0 <= j < found@.len() ==> inside(#[trigger] found@[j], self.data@.len() as int),
                forall|j: int|
                    0 <= j < i ==> (#[trigger] segments@[j]).raw() == found@[j] && segments@[j].jpeg
                        == self && segments@[j].wf(),
            decreases found@.len() - i,
        {
            assert(inside(found@[i as int], self.data@.len() as int));
            segments.push(found[i].segment(self));
            i += 1;
        }
        segments
    }

    /// List all segments in their order of appearance
    pub fn segments(&self) -> (segments: Vec<Segment<'_>>)
        requires
            self.wf(),
        ensures
            segments@.len() == self.chosen(Want::All).len(),
            forall|i: int|
                0 <= i < segments@.len() ==> (#[trigger] segments@[i]).raw() == self.chosen(
                    Want::All,
                )[i] && segments@[i].jpeg == self && segments@[i].wf(),
    {
        self.segments_where(Want::All)
    }

    /// List all segments with the given marker
    pub fn segments_marker(&self, marker: Marker) -> (segments: Vec<Segment<'_>>)
        requires
            self.wf(),
        ensures
            segments@.len() == self.chosen(Want::Marked(marker)).len(),
            forall|i: int|
                0 <= i < segments@.len() ==> (#[trigger] segments@[i]).raw() == self.chosen(
                    Want::Marked(marker),
                )[i] && segments@[i].jpeg == self && segments@[i].wf(),
    {
        self.segments_where(Want::Marked(marker))
    }

    /// The first segment with the given marker.
    pub fn segment_by_marker(&self, marker: &Marker) -> (segment: Option<Segment<'_>>)
        requires
            self.wf(),
        ensures
            self.chosen(Want::Marked(*marker)).len() == 0 ==> segment is None,
            self.chosen(Want::Marked(*marker)).len() > 0 ==> segment is Some
                && segment->Some_0.raw() == self.chosen(Want::Marked(*marker))[0]
                && segment->Some_0.jpeg == self && segment->Some_0.wf(),
    {
        let found = self.select(Want::Marked(*marker));
        if found.len() == 0 {
            None
        } else {
            Some(found[0].segment(self))
        }
    }

    /// The segments with Exif data.
    pub fn exif_segments(&self) -> (segments: Vec<Segment<'_>>)
        requires
            self.wf(),
        ensures
            segments@.len() == self.chosen(Want::Exif).len(),
            forall|i: int|
                0 <= i < segments@.len() ==> (#[trigger] segments@[i]).raw() == self.chosen(
                    Want::Exif,
                )[i] && segments@[i].jpeg == self && segments@[i].wf(),
    {
        self.segments_where(Want::Exif)
    }

    /// The segments with XMP data.
    pub fn xmp_segments(&self) -> (segments: Vec<Segment<'_>>)
        requires
            self.wf(),
        ensures
            segments@.len() == self.chosen(Want::Xmp).len(),
            forall|i: int|
                0 <= i < segments@.len() ==> (#[trigger] segments@[i]).raw() == self.chosen(
                    Want::Xmp,
                )[i] && segments@[i].jpeg == self && segments@[i].wf(),
    {
        self.segments_where(Want::Xmp)
    }

    /// The data of the segments asked for, without the first `skip` bytes
    /// of each.
    pub fn payloads(&self, want: Want, skip: usize) -> (payloads: Vec<&[u8]>)
        requires
            self.wf(),
            forall|i: int|
                0 <= i < self.chosen(want).len() ==> skip <= data_of(
                    self.data@,
                    #[trigger] self.chosen(want)[i],
                ).len(),
        ensures
            payloads@.len() == self.chosen(want).len(),
            forall|i: int|
                0 <= i < payloads@.len() ==> (#[trigger] payloads@[i])@ == data_of(
                    self.data@,
                    self.chosen(want)[i],
                ).skip(skip as int),
    {
        let found = self.select(want);
        let data = self.data.as_slice();
        let mut payloads: Vec<&[u8]> = Vec::new();
        let mut i: usize = 0;
        while i < found.len()
            invariant
                i <= found@.len(),
                payloads@.len() == i,
                data@ == self.data@,
                found@ == self.chosen(want),
                forall|j: int|
                    0 <= j < found@.len() ==> inside(#[trigger] found@[j], self.data@.len() as int)
                        && skip <= data_of(self.data@, found@[j]).len(),
                forall|j: int|
                    0 <= j < i ==> (#[trigger] payloads@[j])@ == data_of(self.data@, found@[j]).skip(
                        skip as int,
                    ),
            decreases found@.len() - i,
        {
            let segment = found[i];
            assert(inside(found@[i as int], self.data@.len() as int));
            let payload = slice_subrange(data, segment.data_start + skip, segment.data_end);
            assert(payload@ =~= data_of(self.data@, segment).skip(skip as int));
            payloads.push(payload);
            i += 1;
        }
        payloads
    }

    /// The Exif data of the file: for each segment with Exif data what
    /// follows the identifier.
    pub fn exif_data(&self) -> (payloads: Vec<&[u8]>)
        requires
            self.wf(),
        ensures
            payloads@.len() == self.chosen(Want::Exif).len(),
            forall|i: int|
                0 <= i < payloads@.len() ==> (#[trigger] payloads@[i])@ == data_of(
                    self.data@,
                    self.chosen(Want::Exif)[i],
                ).skip(EXIF_IDENTIFIER_STRING.spec_bytes().len() as int),
    {
        proof {
            chosen_are_wanted(self.data@, self.segments@, Want::Exif, self.segments@.len());
        }
        self.payloads(Want::Exif, EXIF_IDENTIFIER_STRING.as_bytes().len())
    }

    /// The XMP data of the file: for each segment with XMP data what
    /// follows the identifier.
    pub fn xmp_data(&self) -> (payloads: Vec<&[u8]>)
        requires
            self.wf(),
        ensures
            payloads@.len() == self.chosen(Want::Xmp).len(),
            forall|i: int|
                0 <= i < payloads@.len() ==> (#[trigger] payloads@[i])@ == data_of(
                    self.data@,
                    self.chosen(Want::Xmp)[i],
                ).skip(XMP_IDENTIFIER_STRING.spec_bytes().len() as int),
    {
        proof {
            chosen_are_wanted(self.data@, self.segments@, Want::Xmp, self.segments@.len());
        }
        self.payloads(Want::Xmp, XMP_IDENTIFIER_STRING.as_bytes().len())
    }

    /// Quantization tables in the order in which the file defines them
    #[verifier::loop_isolation(false)]
    pub fn dqts(&self) -> (tables: Result<Vec<Dqt>, Error>)
        requires
            self.wf(),
        ensures
            match tables_of(
                self.data@,
                self.chosen(Want::Marked(Marker::DQT)),
                self.chosen(Want::Marked(Marker::DQT)).len(),
            ) {
                Ok(found) => tables is Ok && tables_view(tables->Ok_0@) == found,
                Err(e) => tables is Err && tables->Err_0 == e,
            },
    {
        let found = self.select(Want::Marked(Marker::DQT));
        let data = self.data.as_slice();
        let mut dqts: Vec<Dqt> = Vec::new();
        let mut k: usize = 0;
        assert(tables_view(dqts@) =~= Seq::<Table>::empty());
        while k < found.len()
            invariant
                k <= found@.len(),
                data@ == self.data@,
                forall|j: int|
                    0 <= j < found@.len() ==> inside(#[trigger] found@[j], self.data@.len() as int),
                tables_of(self.data@, found@, k as nat) == Ok::<Seq<Table>, Error>(
                    tables_view(dqts@),
                ),
            decreases found@.len() - k,
        {
            let segment = found[k];
            assert(inside(found@[k as int], self.data@.len() as int));
            let ghost before = tables_view(dqts@);
            match Dqt::from_data(slice_subrange(data, segment.data_start, segment.data_end)) {
                Err(e) => {
                    proof {
                        tables_of_fail(self.data@, found@, k as nat, found@.len());
                    }
                    return Err(e);
                },
                Ok(more) => {
                    let mut more = more;
                    let ghost added = tables_view(more@);
                    dqts.append(&mut more);
                    assert(tables_view(dqts@) =~= before + added);
                },
            }
            k += 1;
        }
        Ok(dqts)
    }

    /// The frame header of the file.
    pub fn sof(&self) -> (frame: Result<Sof, Error>)
        requires
            self.wf(),
        ensures
            match self.frame() {
                Ok(found) => frame is Ok && frame->Ok_0@ == found,
                Err(e) => frame is Err && frame->Err_0 == e,
            },
    {
        let found = self.select(Want::Frame);
        if found.len() == 0 {
            return Err(Error::NoSofSegmentFound);
        }
        Sof::from_data(slice_subrange(self.data.as_slice(), found[0].data_start, found[0].data_end))
    }

    /// Whether the file is progressive: whether its first frame is.
    pub fn is_progressive(&self) -> (progressive: Result<bool, Error>)
        requires
            self.wf(),
        ensures
            self.chosen(Want::Frame).len() == 0 ==> progressive == Err::<bool, Error>(
                Error::NoSofSegmentFound,
            ),
            self.chosen(Want::Frame).len() > 0 ==> progressive == Ok::<bool, Error>(
                self.chosen(Want::Frame)[0].marker == Marker::SOF2,
            ),
    {
        let found = self.select(Want::Frame);
        if found.len() == 0 {
            return Err(Error::NoSofSegmentFound);
        }
        proof {
            chosen_are_wanted(self.data@, self.segments@, Want::Frame, self.segments@.len());
        }
        found[0].marker.is_progressive_sof()
    }

    /// Number of SOS segments
    ///
    /// For `is_progressive()` being true, this is the number of scans.
    pub fn n_sos(&self) -> (n: usize)
        requires
            self.wf(),
        ensures
            n == self.chosen(Want::Marked(Marker::SOS)).len(),
    {
        self.select(Want::Marked(Marker::SOS)).len()
    }

    /// The header of the first scan.
    pub fn sos(&self) -> (scan: Result<Sos, Error>)
        requires
            self.wf(),
        ensures
            match self.scan() {
                Ok(found) => scan is Ok && scan->Ok_0@ == found,
                Err(e) => scan is Err && scan->Err_0 == e,
            },
    {
        let found = self.select(Want::Marked(Marker::SOS));
        if found.len() == 0 {
            return Err(Error::NoSosSegmentFound);
        }
        Sos::from_data(slice_subrange(self.data.as_slice(), found[0].data_start, found[0].data_end))
    }

    /// The parameters of the component that the scan lists at `component`.
    #[verifier::loop_isolation(false)]
    pub fn components_specification_parameters(&self, component: usize) -> (parameters: Result<
        ComponentSpecificationParameters,
        Error,
    >)
        requires
            self.wf(),
        ensures
            parameters == self.parameters(component as int),
    {
        let sos = self.sos()?;
        if component >= sos.components_specifications.len() {
            return Err(Error::MissingComponentSpecification);
        }
        let cs = sos.components_specifications[component].cs;
        let sof = self.sof()?;
        let n = sof.parameters.len();
        let mut k: usize = 0;
        while k < n
            invariant
                k <= n,
                n == sof.parameters@.len(),
                parameters_for(sof.parameters@, cs, k as nat) is None,
            decreases n - k,
        {
            if sof.parameters[k].c == cs {
                proof {
                    parameters_for_found(sof.parameters@, cs, k as nat, n as nat);
                }
                return Ok(sof.parameters[k]);
            }
            k += 1;
        }
        Err(Error::MissingComponentSpecificationParameters)
    }

    /// The color model of the file: what the marker of Adobe says or, without
    /// it, what the number of components suggests.
    pub fn color_model(&self) -> (model: Result<ColorModel, Error>)
        requires
            self.wf(),
        ensures
            match self.scan() {
                Err(e) => model == Err::<ColorModel, Error>(e),
                Ok(scan) => model == color_model_of(
                    self.data_by_marker(Marker::APP14),
                    scan.components_specifications.len() as int,
                ),
            },
    {
        let sos = self.sos()?;
        let n_components = sos.components_specifications.len();
        if let Some(app14) = self.segment_by_marker(&Marker::APP14) {
            let data = app14.data();
            if has_prefix(data, "Adobe\0".as_bytes()) {
                if data.len() > 11 {
                    let color_model = data[11];
                    return if color_model == 0 && n_components == 4 {
                        Ok(ColorModel::Cmyk)
                    } else if color_model == 0 && n_components == 3 {
                        Ok(ColorModel::Rgb)
                    } else if color_model == 1 {
                        Ok(ColorModel::YCbCr)
                    } else if color_model == 2 {
                        Ok(ColorModel::Ycck)
                    } else {
                        Err(Error::UnknownColorModel)
                    };
                }
            }
        }
        if n_components == 1 {
            Ok(ColorModel::Grayscale)
        } else if n_components == 3 {
            Ok(ColorModel::YCbCr)
        } else {
            Err(Error::UnknownColorModel)
        }
    }

    /// Puts a new segment in the place of an old one, which must have a
    /// length field and lie inside the file. Where the bytes that this
    /// gives are no JPEG file, nothing changes.
    pub fn replace_segment(&mut self, old_segment: RawSegment, new_segment: NewSegment) -> (done:
        Result<(), Error>)
        requires
            old(self).wf(),
            old_segment.data_start >= 4,
            inside(old_segment, old(self).data@.len() as int),
        ensures
            ({
                let replaced = old(self).data@.subrange(0, old_segment.data_start - 4)
                    + new_segment.bytes() + old(self).data@.subrange(
                    old_segment.data_end as int,
                    old(self).data@.len() as int,
                );
                match scanned(replaced) {
                    Ok(segments) => done is Ok && final(self).data@ == replaced && final(self).segments@ == segments,
                    Err(e) => done == Err::<(), Error>(e) && *final(self) == *old(self),
                }
            }),
            final(self).wf(),
    {
        let old_range = old_segment.complete_data();
        let data = self.data.as_slice();
        let mut new: Vec<u8> = Vec::new();
        let head = slice_subrange(data, 0, old_range.0);
        let mut i: usize = 0;
        while i < head.len()
            invariant
                i <= head@.len(),
                new@ == head@.subrange(0, i as int),
            decreases head@.len() - i,
        {
            new.push(head[i]);
            assert(new@ =~= head@.subrange(0, i + 1));
            i += 1;
        }
        assert(new@ =~= head@);
        new_segment.write_to(&mut new);
        let tail = slice_subrange(data, old_range.1, data.len());
        let ghost headed = new@;
        let mut i: usize = 0;
        while i < tail.len()
            invariant
                i <= tail@.len(),
                new@ == headed + tail@.subrange(0, i as int),
            decreases tail@.len() - i,
        {
            new.push(tail[i]);
            assert(new@ =~= headed + tail@.subrange(0, i + 1));
            i += 1;
        }
        assert(new@ =~= headed + tail@);
        let segments = find_segments(new.as_slice())?;
        self.data = new;
        self.segments = segments;
        Ok(())
    }
}

/// Copies of some slices.
pub fn to_vecs(slices: &Vec<&[u8]>) -> (copies: Vec<Vec<u8>>)
    ensures
        copies@.len() == slices@.len(),
        forall|i: int| 0 <= i < copies@.len() ==> (#[trigger] copies@[i])@ == slices@[i]@,
{
    let mut copies: Vec<Vec<u8>> = Vec::new();
    let mut i: usize = 0;
    while i < slices.len()
        invariant
            i <= slices@.len(),
            copies@.len() == i,
            forall|j: int| 0 <= j < i ==> (#[trigger] copies@[j])@ == slices@[j]@,
        decreases slices@.len() - i,
    {
        copies.push(vstd::slice::slice_to_vec(slices[i]));
        i += 1;
    }
    copies
}

/// Whether the data starts like a JPEG file: with the start of the image
/// and the start of a marker.
pub open spec fn is_jpeg(data: Seq<u8>) -> bool {
    data.len() >= 3 && data[0] == 0xFF && data[1] == 0xD8 && data[2] == 0xFF
}

impl crate::common::image::ImageFormat for Jpeg {
    fn is_filetype(data: &[u8]) -> (yes: bool)
        ensures
            yes == is_jpeg(data@),
    {
        data.len() >= 3 && data[0] == 0xFF && data[1] == 0xD8 && data[2] == 0xFF
    }
}

impl crate::common::image::ImageMetadata for Jpeg {
    open spec fn valid(&self) -> bool {
        self.wf()
    }

    fn cicp(&self) -> (cicp: Option<crate::common::cicp::Cicp>)
        ensures
            cicp is None,
    {
        None
    }

    fn exif(&self) -> (exif: Vec<Vec<u8>>)
        ensures
            exif@.len() == self.chosen(Want::Exif).len(),
            forall|i: int|
                0 <= i < exif@.len() ==> (#[trigger] exif@[i])@ == data_of(
                    self.data@,
                    self.chosen(Want::Exif)[i],
                ).skip(EXIF_IDENTIFIER_STRING.spec_bytes().len() as int),
    {
        to_vecs(&self.exif_data())
    }

    fn xmp(&self) -> (xmp: Vec<Vec<u8>>)
        ensures
            xmp@.len() == self.chosen(Want::Xmp).len(),
            forall|i: int|
                0 <= i < xmp@.len() ==> (#[trigger] xmp@[i])@ == data_of(
                    self.data@,
                    self.chosen(Want::Xmp)[i],
                ).skip(XMP_IDENTIFIER_STRING.spec_bytes().len() as int),
    {
        to_vecs(&self.xmp_data())
    }
}

impl crate::common::image::ImageComplete for Jpeg {

}

/// The segments that were chosen are among those asked for.
pub proof fn chosen_are_wanted(data: Seq<u8>, segments: Seq<RawSegment>, want: Want, k: nat)
    ensures
        forall|i: int|
            0 <= i < chosen(data, segments, want, k).len() ==> wanted(
                data,
                #[trigger] chosen(data, segments, want, k)[i],
                want,
            ),
    decreases k,
{
    if k > 0 {
        chosen_are_wanted(data, segments, want, (k - 1) as nat);
        let before = chosen(data, segments, want, (k - 1) as nat);
        let now = chosen(data, segments, want, k);
        assert forall|i: int| 0 <= i < now.len() implies wanted(data, #[trigger] now[i], want) by {
            if i < before.len() {
                assert(now[i] == before[i]);
            }
        }
    }
}

/// Where the tables of the first `k` segments can be read and those of the
/// next one cannot, reading the tables of more segments fails in the same
/// way.
pub proof fn tables_of_fail(data: Seq<u8>, segments: Seq<RawSegment>, k: nat, n: nat)
    requires
        k < n,
        tables_of(data, segments, k) is Ok,
        tables_from(data_of(data, segments[k as int]), 0) is Err,
    ensures
        tables_of(data, segments, n) == Err::<Seq<Table>, Error>(
            tables_from(data_of(data, segments[k as int]), 0)->Err_0,
        ),
    decreases n,
{
    if n - 1 > k {
        tables_of_fail(data, segments, k, (n - 1) as nat);
    }
}

/// The first parameters with the identifier stay the first as more are
/// looked at.
pub proof fn parameters_for_found(
    parameters: Seq<ComponentSpecificationParameters>,
    c: u8,
    k: nat,
    n: nat,
)
    requires
        k < n,
        parameters_for(parameters, c, k) is None,
        parameters[k as int].c == c,
    ensures
        parameters_for(parameters, c, n) == Some(parameters[k as int]),
    decreases n,
{
    if n - 1 > k {
        parameters_for_found(parameters, c, k, (n - 1) as nat);
    }
}

} // verus!
