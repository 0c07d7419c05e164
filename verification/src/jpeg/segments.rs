//! What the segments that describe the image say.
use vstd::prelude::*;
use crate::jpeg::error::Error;

verus! {

#[derive(Debug, Clone, Copy)]
pub struct Dqt_<T> {
    /// Quantization table destination identifier
    pub tq: u8,
    /// Quantization table elements
    pub qk: [T; 64],
}

/// Quantization Table
#[derive(Debug, Clone, Copy)]
pub enum Dqt {
    /// Table definition with 8 bit elements
    Dqt8(Dqt_<u8>),
    /// Table definition with 16 bit elements
    Dqt16(Dqt_<u16>),
}

/// A quantization table as the contracts see it: its destination, whether
/// its elements have 16 bits, and its 64 elements in zig-zag order.
pub struct Table {
    pub tq: u8,
    pub wide: bool,
    pub values: Seq<u16>,
}

impl View for Dqt {
    type V = Table;

    open spec fn view(&self) -> Table {
        match self {
            Dqt::Dqt8(x) => Table {
                tq: x.tq,
                wide: false,
                values: Seq::new(64, |i: int| x.qk@[i] as u16),
            },
            Dqt::Dqt16(x) => Table { tq: x.tq, wide: true, values: x.qk@ },
        }
    }
}

/// For each place of a table, row by row, where its element stands in
/// zig-zag order.
pub open spec fn zigzag() -> Seq<usize> {
    seq![
        0, 1, 5, 6, 14, 15, 27, 28,
        2, 4, 7, 13, 16, 26, 29, 42,
        3, 8, 12, 17, 25, 30, 41, 43,
        9, 11, 18, 24, 31, 40, 44, 53,
        10, 19, 23, 32, 39, 45, 52, 54,
        20, 22, 33, 38, 46, 51, 55, 60,
        21, 34, 37, 47, 50, 56, 59, 61,
        35, 36, 48, 49, 57, 58, 62, 63,
    ]
}

/// The table at `pos`, and where the next one starts.
///
/// Its first byte holds the precision in its high half and the destination
/// in its low half. With precision 0, 64 elements of one byte follow; with
/// precision 1, 64 elements of two bytes, high byte first.
pub open spec fn table_at(data: Seq<u8>, pos: int) -> Result<(Table, int), Error> {
    let pq = data[pos] / 16;
    let tq = data[pos] % 16;
    if pq == 0 {
        if pos + 65 > data.len() {
            Err(Error::UnexpectedEof)
        } else {
            Ok(
                (
                    Table {
                        tq,
                        wide: false,
                        values: Seq::new(64, |i: int| data[pos + 1 + i] as u16),
                    },
                    pos + 65,
                ),
            )
        }
    } else if pq == 1 {
        if pos + 129 > data.len() {
            Err(Error::UnexpectedEof)
        } else {
            Ok(
                (
                    Table {
                        tq,
                        wide: true,
                        values: Seq::new(
                            64,
                            |i: int| (data[pos + 1 + 2 * i] * 256 + data[pos + 2 + 2 * i]) as u16,
                        ),
                    },
                    pos + 129,
                ),
            )
        }
    } else {
        Err(Error::UnknownPq(pq))
    }
}

/// The tables from `pos` to the end of the data.
pub open spec fn tables_from(data: Seq<u8>, pos: int) -> Result<Seq<Table>, Error>
    decreases data.len() - pos,
{
    if pos < 0 || pos >= data.len() {
        Ok(Seq::empty())
    } else {
        match table_at(data, pos) {
            Err(e) => Err(e),
            Ok((table, next)) => match tables_from(data, next) {
                Err(e) => Err(e),
                Ok(rest) => Ok(seq![table] + rest),
            },
        }
    }
}

/// The views of some tables.
pub open spec fn tables_view(tables: Seq<Dqt>) -> Seq<Table> {
    Seq::new(tables.len(), |i: int| tables[i]@)
}

impl Dqt {
    /// Quantization table destination identifier
    pub fn tq(&self) -> (tq: u8)
        ensures
            tq == self@.tq,
    {
        match self {
            Dqt::Dqt8(x) => x.tq,
            Dqt::Dqt16(x) => x.tq,
        }
    }

    /// Quantization table elements in 16 bit
    ///
    /// This resturns the data in 16 bit, even if defined as 8 bit. The 8-bit
    /// data is not scaled to 16-bit.
    pub fn qk(&self) -> (qk: [u16; 64])
        ensures
            qk@ == self@.values,
    {
        match self {
            Dqt::Dqt8(dqt) => {
                let mut qk: [u16; 64] = [0u16; 64];
                let mut n: usize = 0;
                while n < 64
                    invariant
                        n <= 64,
                        qk@.len() == 64,
                        forall|i: int| 0 <= i < n ==> qk@[i] == dqt.qk@[i] as u16,
                    decreases 64 - n,
                {
                    qk[n] = dqt.qk[n] as u16;
                    n += 1;
                }
                assert(qk@ =~= self@.values);
                qk
            },
            Dqt::Dqt16(dqt) => dqt.qk,
        }
    }

    /// Quantization table in non-zig-zag order
    ///
    /// Otherwise same as `qk()`
    pub fn qk_ordered(&self) -> (ordered: [u16; 64])
        ensures
            ordered@.len() == 64,
            forall|i: int| 0 <= i < 64 ==> ordered@[i] == self@.values[zigzag()[i] as int],
    {
        let idx: [usize; 64] = [
            0, 1, 5, 6, 14, 15, 27, 28,
            2, 4, 7, 13, 16, 26, 29, 42,
            3, 8, 12, 17, 25, 30, 41, 43,
            9, 11, 18, 24, 31, 40, 44, 53,
            10, 19, 23, 32, 39, 45, 52, 54,
            20, 22, 33, 38, 46, 51, 55, 60,
            21, 34, 37, 47, 50, 56, 59, 61,
            35, 36, 48, 49, 57, 58, 62, 63,
        ];
        assert(idx@ =~= zigzag());
        let qk = self.qk();
        let mut qk_ordered: [u16; 64] = [0u16; 64];
        let mut i: usize = 0;
        while i < 64
            invariant
                i <= 64,
                idx@ == zigzag(),
                qk@ == self@.values,
                qk@.len() == 64,
                qk_ordered@.len() == 64,
                forall|j: int| 0 <= j < 64 ==> 0 <= #[trigger] idx@[j] < 64,
                forall|j: int| 0 <= j < i ==> qk_ordered@[j] == qk@[idx@[j] as int],
            decreases 64 - i,
        {
            let n = idx[i];
            qk_ordered[i] = qk[n];
            i += 1;
        }
        qk_ordered
    }

    /// Reads the tables that the data of a segment holds.
    pub fn from_data(value: &[u8]) -> (tables: Result<Vec<Dqt>, Error>)
        ensures
            match tables_from(value@, 0) {
                Ok(found) => tables is Ok && tables_view(tables->Ok_0@) == found,
                Err(e) => tables == Err::<Vec<Dqt>, Error>(e),
            },
    {
        let mut dqts: Vec<Dqt> = Vec::new();
        let mut pos: usize = 0;
        let total = value.len();
        let ghost goal = tables_from(value@, 0);
        assert(tables_view(dqts@) =~= Seq::<Table>::empty());
        assert(Seq::<Table>::empty() + tables_from(value@, 0)->Ok_0 =~= tables_from(value@, 0)->Ok_0);
        while pos < total
            invariant
                pos <= total,
                total == value@.len(),
                goal == tables_from(value@, 0),
                goal == (match tables_from(value@, pos as int) {
                    Ok(rest) => Ok::<Seq<Table>, Error>(tables_view(dqts@) + rest),
                    Err(e) => Err::<Seq<Table>, Error>(e),
                }),
            decreases total - pos,
        {
            let pq_tq = value[pos];
            let pq = pq_tq / 16;
            let tq = pq_tq % 16;
            let ghost before = tables_view(dqts@);
            // Matrix entries can be 8bit and 16bit precision
            if pq == 0 {
                if total - pos < 65 {
                    return Err(Error::UnexpectedEof);
                }
                let mut qk: [u8; 64] = [0u8; 64];
                let mut n: usize = 0;
                while n < 64
                    invariant
                        n <= 64,
                        pos + 65 <= value@.len() <= usize::MAX,
                        qk@.len() == 64,
                        forall|i: int| 0 <= i < n ==> qk@[i] == value@[pos + 1 + i],
                    decreases 64 - n,
                {
                    qk[n] = value[pos + 1 + n];
                    n += 1;
                }
                let dqt = Dqt::Dqt8(Dqt_ { tq, qk });
                assert(dqt@.values =~= table_at(value@, pos as int)->Ok_0.0.values);
                dqts.push(dqt);
                pos += 65;
            } else if pq == 1 {
                if total - pos < 129 {
                    return Err(Error::UnexpectedEof);
                }
                let mut qk: [u16; 64] = [0u16; 64];
                let mut n: usize = 0;
                while n < 64
                    invariant
                        n <= 64,
                        pos + 129 <= value@.len() <= usize::MAX,
                        qk@.len() == 64,
                        forall|i: int|
                            0 <= i < n ==> qk@[i] == (value@[pos + 1 + 2 * i] * 256 + value@[pos
                                + 2 + 2 * i]) as u16,
                    decreases 64 - n,
                {
                    qk[n] = (value[pos + 1 + 2 * n] as u16) * 256 + (value[pos + 2 + 2 * n] as u16);
                    n += 1;
                }
                let dqt = Dqt::Dqt16(Dqt_ { tq, qk });
                assert(dqt@.values =~= table_at(value@, pos as int)->Ok_0.0.values);
                dqts.push(dqt);
                pos += 129;
            } else {
                return Err(Error::UnknownPq(pq));
            }
            proof {
                let table = table_at(value@, (pos - (if pq == 0 { 65int } else { 129int })) as int)->Ok_0.0;
                assert(tables_view(dqts@) =~= before.push(table));
                match tables_from(value@, pos as int) {
                    Ok(rest) => {
                        assert(before + (seq![table] + rest) =~= tables_view(dqts@) + rest);
                    },
                    Err(_) => {},
                }
            }
        }
        assert(tables_view(dqts@) + Seq::<Table>::empty() =~= tables_view(dqts@));
        Ok(dqts)
    }
}

/// Component specification parameters
#[derive(Debug, Clone, Copy, PartialEq, Eq, Structural)]
pub struct ComponentSpecificationParameters {
    /// Component identifier
    pub c: u8,
    /// Horizontal sampling factor
    pub h: u8,
    /// Vertical sampling factor
    pub v: u8,
    /// Quantization table destination selector
    pub tq: u8,
}

/// The parameters of the component that the three bytes at `pos` describe.
pub open spec fn parameters_at(data: Seq<u8>, pos: int) -> ComponentSpecificationParameters {
    ComponentSpecificationParameters {
        c: data[pos],
        h: data[pos + 1] / 16,
        v: data[pos + 1] % 16,
        tq: data[pos + 2],
    }
}

impl ComponentSpecificationParameters {
    /// Reads the parameters of a component from the first three bytes.
    pub fn from_data(data: &[u8]) -> (parameters: Result<ComponentSpecificationParameters, Error>)
        ensures
            data@.len() >= 3 ==> parameters == Ok::<ComponentSpecificationParameters, Error>(
                parameters_at(data@, 0),
            ),
            data@.len() < 3 ==> parameters == Err::<ComponentSpecificationParameters, Error>(
                Error::UnexpectedEof,
            ),
    {
        if data.len() < 3 {
            return Err(Error::UnexpectedEof);
        }
        let c = data[0];
        let h_v = data[1];
        let tq = data[2];
        let h = h_v / 16;
        let v = h_v % 16;
        Ok(ComponentSpecificationParameters { c, h, v, tq })
    }
}

/// Frame Header / Start of Frame
#[derive(Debug)]
pub struct Sof {
    /// Sample precision
    pub p: u8,
    /// Number of lines
    pub y: u16,
    /// Number of samples per line
    pub x: u16,
    /// Component specification parameters
    pub parameters: Vec<ComponentSpecificationParameters>,
}

/// A frame header as the contracts see it.
pub struct Frame {
    pub p: u8,
    pub y: u16,
    pub x: u16,
    pub parameters: Seq<ComponentSpecificationParameters>,
}

impl View for Sof {
    type V = Frame;

    open spec fn view(&self) -> Frame {
        Frame { p: self.p, y: self.y, x: self.x, parameters: self.parameters@ }
    }
}

/// The frame header that the data of a segment holds: the precision, the
/// numbers of lines and of samples per line, high byte first, the number of
/// components and three bytes for each of them.
pub open spec fn frame_of(data: Seq<u8>) -> Result<Frame, Error> {
    if data.len() < 6 || data.len() < 6 + 3 * data[5] {
        Err(Error::UnexpectedEof)
    } else {
        Ok(
            Frame {
                p: data[0],
                y: (data[1] * 256 + data[2]) as u16,
                x: (data[3] * 256 + data[4]) as u16,
                parameters: Seq::new(data[5] as nat, |i: int| parameters_at(data, 6 + 3 * i)),
            },
        )
    }
}

impl Sof {
    /// Reads a frame header from the data of a segment.
    pub fn from_data(data: &[u8]) -> (frame: Result<Sof, Error>)
        ensures
            match frame_of(data@) {
                Ok(found) => frame is Ok && frame->Ok_0@ == found,
                Err(e) => frame is Err && frame->Err_0 == e,
            },
    {
        if data.len() < 6 {
            return Err(Error::UnexpectedEof);
        }
        let p = data[0];
        let y = (data[1] as u16) * 256 + (data[2] as u16);
        let x = (data[3] as u16) * 256 + (data[4] as u16);
        let nf = data[5] as usize;
        if data.len() - 6 < 3 * nf {
            return Err(Error::UnexpectedEof);
        }
        let mut parameters: Vec<ComponentSpecificationParameters> = Vec::new();
        let mut i: usize = 0;
        while i < nf
            invariant
                i <= nf,
                nf == data@[5],
                6 + 3 * nf <= data@.len(),
                parameters@.len() == i,
                forall|j: int| 0 <= j < i ==> parameters@[j] == parameters_at(data@, 6 + 3 * j),
            decreases nf - i,
        {
            let at = 6 + 3 * i;
            let h_v = data[at + 1];
            parameters.push(
                ComponentSpecificationParameters {
                    c: data[at],
                    h: h_v / 16,
                    v: h_v % 16,
                    tq: data[at + 2],
                },
            );
            i += 1;
        }
        assert(parameters@ =~= frame_of(data@)->Ok_0.parameters);
        Ok(Sof { p, y, x, parameters })
    }
}

#[derive(Debug, Clone, Copy, PartialEq, Eq, Structural)]
pub struct ComponentSpecification {
    /// Scan component selector
    ///
    /// References the `c` value of a component's parameters.
    pub cs: u8,
    /// DC entropy coding table
    pub td: u8,
    /// AC entropy coding table
    pub ta: u8,
}

/// The component that the two bytes at `pos` select.
pub open spec fn component_at(data: Seq<u8>, pos: int) -> ComponentSpecification {
    ComponentSpecification { cs: data[pos], td: data[pos + 1] / 16, ta: data[pos + 1] % 16 }
}

impl ComponentSpecification {
    /// Reads the selection of a component from the first two bytes.
    pub fn from_data(data: &[u8]) -> (component: Result<ComponentSpecification, Error>)
        ensures
            data@.len() >= 2 ==> component == Ok::<ComponentSpecification, Error>(
                component_at(data@, 0),
            ),
            data@.len() < 2 ==> component == Err::<ComponentSpecification, Error>(
                Error::UnexpectedEof,
            ),
    {
        if data.len() < 2 {
            return Err(Error::UnexpectedEof);
        }
        let cs = data[0];
        let td_ta = data[1];
        let td = td_ta / 16;
        let ta = td_ta % 16;
        Ok(ComponentSpecification { cs, td, ta })
    }
}

/// Scan Header / Start of Scan
#[derive(Debug)]
pub struct Sos {
    /// List of components (channels)
    pub components_specifications: Vec<ComponentSpecification>,
    /// Start of spectral or predictor selection
    pub ss: u8,
    /// End of spectral selection
    pub se: u8,
    /// Successive approximation bit position high
    pub ah: u8,
    /// Successive approximation bit position low or point transform
    pub al: u8,
}

/// A scan header as the contracts see it.
pub struct Scan {
    pub components_specifications: Seq<ComponentSpecification>,
    pub ss: u8,
    pub se: u8,
    pub ah: u8,
    pub al: u8,
}

impl View for Sos {
    type V = Scan;

    open spec fn view(&self) -> Scan {
        Scan {
            components_specifications: self.components_specifications@,
            ss: self.ss,
            se: self.se,
            ah: self.ah,
            al: self.al,
        }
    }
}

/// The scan header that the data of a segment holds: the number of
/// components, two bytes for each of them, and three bytes for the
/// spectral selection and the successive approximation.
pub open spec fn scan_of(data: Seq<u8>) -> Result<Scan, Error> {
    if data.len() < 1 || data.len() < 4 + 2 * data[0] {
        Err(Error::UnexpectedEof)
    } else {
        let end = 1 + 2 * data[0];
        Ok(
            Scan {
                components_specifications: Seq::new(
                    data[0] as nat,
                    |i: int| component_at(data, 1 + 2 * i),
                ),
                ss: data[end],
                se: data[end + 1],
                ah: data[end + 2] / 16,
                al: data[end + 2] % 16,
            },
        )
    }
}

impl Sos {
    /// Reads a scan header from the data of a segment.
    pub fn from_data(data: &[u8]) -> (scan: Result<Sos, Error>)
        ensures
            match scan_of(data@) {
                Ok(found) => scan is Ok && scan->Ok_0@ == found,
                Err(e) => scan is Err && scan->Err_0 == e,
            },
    {
        if data.len() < 1 {
            return Err(Error::UnexpectedEof);
        }
        let ns = data[0] as usize;
        if data.len() - 1 < 3 + 2 * ns {
            return Err(Error::UnexpectedEof);
        }
        let mut components_specifications: Vec<ComponentSpecification> = Vec::new();
        let mut i: usize = 0;
        while i < ns
            invariant
                i <= ns,
                ns == data@[0],
                4 + 2 * ns <= data@.len(),
                components_specifications@.len() == i,
                forall|j: int|
                    0 <= j < i ==> components_specifications@[j] == component_at(data@, 1 + 2 * j),
            decreases ns - i,
        {
            let at = 1 + 2 * i;
            let td_ta = data[at + 1];
            components_specifications.push(
                ComponentSpecification { cs: data[at], td: td_ta / 16, ta: td_ta % 16 },
            );
            i += 1;
        }
        let end = 1 + 2 * ns;
        let ss = data[end];
        let se = data[end + 1];
        let ah_al = data[end + 2];
        let ah = ah_al / 16;
        let al = ah_al % 16;
        assert(components_specifications@ =~= scan_of(data@)->Ok_0.components_specifications);
        Ok(Sos { components_specifications, ss, se, ah, al })
    }
}

} // verus!
