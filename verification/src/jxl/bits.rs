//! Reading the bits of a JPEG XL codestream.
use vstd::prelude::*;

verus! {

#[derive(Debug, Clone, Copy, PartialEq, Eq, Structural)]
pub enum Error {
    UnexpectedEOF,
    InvalidSignature,
}

/// Two to the power of `n`.
pub open spec fn pow2(n: nat) -> nat
    decreases n,
{
    if n == 0 {
        1
    } else {
        2 * pow2((n - 1) as nat)
    }
}

/// The bit at the position `p` of some bytes: bits are counted from the
/// lowest bit of the first byte on.
pub open spec fn bit_at(data: Seq<u8>, p: int) -> nat {
    ((data[p / 8] as nat) / pow2((p % 8) as nat)) % 2
}

/// The number that the `n` bits from the position `p` on stand for, the
/// lowest bit first.
pub open spec fn bits_value(data: Seq<u8>, p: int, n: nat) -> nat
    decreases n,
{
    if n == 0 {
        0
    } else {
        bits_value(data, p, (n - 1) as nat) + bit_at(data, p + n - 1) * pow2((n - 1) as nat)
    }
}

/// The bytes of some parts, one part after the other.
pub open spec fn flattened(parts: Seq<(&[u8], u64)>, k: nat) -> Seq<u8>
    decreases k,
{
    if k == 0 {
        Seq::empty()
    } else {
        flattened(parts, (k - 1) as nat) + parts[k - 1].0@
    }
}

/// A number of `n` bits is less than two to the power of `n`.
pub proof fn bits_value_bound(data: Seq<u8>, p: int, n: nat)
    ensures
        bits_value(data, p, n) < pow2(n),
    decreases n,
{
    if n > 0 {
        bits_value_bound(data, p, (n - 1) as nat);
        assert(bit_at(data, p + n - 1) <= 1);
        assert(bit_at(data, p + n - 1) * pow2((n - 1) as nat) <= pow2((n - 1) as nat))
            by (nonlinear_arith)
            requires
                bit_at(data, p + n - 1) <= 1,
        ;
    }
}

/// The powers of two up to the 32nd.
pub proof fn pow2_values()
    ensures
        pow2(0) == 1,
        pow2(1) == 2,
        pow2(2) == 4,
        pow2(3) == 8,
        pow2(4) == 16,
        pow2(5) == 32,
        pow2(6) == 64,
        pow2(7) == 128,
        pow2(8) == 256,
        pow2(32) == 0x1_0000_0000,
{
    reveal_with_fuel(pow2, 33);
}

/// Two to the power of `n` grows with `n`.
pub proof fn pow2_grows(a: nat, b: nat)
    requires
        a <= b,
    ensures
        pow2(a) <= pow2(b),
    decreases b,
{
    if a < b {
        pow2_grows(a, (b - 1) as nat);
    }
}

/// A reader of the bits of a codestream that lies in one or more parts.
pub struct DataIter<'a> {
    /// The parts and where each of them starts in the file
    pub parts: Vec<(&'a [u8], u64)>,
    /// The bytes of all parts
    pub data: Vec<u8>,
    pub offset_bytes: usize,
    pub offset_bits: usize,
}

/// How a number is stored: as a value that is known, or in some bits.
#[derive(Debug, Clone, Copy, PartialEq, Eq, Structural)]
pub enum Dist {
    Val(u32),
    Bits(u8),
}

impl<'a> DataIter<'a> {
    /// The position in bits.
    pub open spec fn position(&self) -> int {
        self.offset_bytes * 8 + self.offset_bits
    }

    /// The reader stands at a bit of a byte, at most right behind the last
    /// byte.
    pub open spec fn wf(&self) -> bool {
        self.offset_bits < 8 && self.offset_bytes <= self.data@.len() && (self.offset_bytes
            == self.data@.len() ==> self.offset_bits == 0)
    }

    /// Whether `n` more bits can be read.
    pub open spec fn has(&self, n: int) -> bool {
        self.position() + n <= 8 * self.data@.len()
    }

    /// A reader at the start of the parts.
    pub fn new(parts: Vec<(&'a [u8], u64)>) -> (iter: DataIter<'a>)
        ensures
            iter.wf(),
            iter.parts == parts,
            iter.data@ == flattened(parts@, parts@.len()),
            iter.position() == 0,
    {
        let mut data: Vec<u8> = Vec::new();
        let mut k: usize = 0;
        while k < parts.len()
            invariant
                k <= parts@.len(),
                data@ == flattened(parts@, k as nat),
            decreases parts@.len() - k,
        {
            let mut more = vstd::slice::slice_to_vec(parts[k].0);
            data.append(&mut more);
            k += 1;
        }
        DataIter { parts, data, offset_bytes: 0, offset_bits: 0 }
    }

    /// The byte at which the reader stands.
    #[inline]
    pub fn peek(&self) -> (byte: Option<u8>)
        ensures
            self.offset_bytes < self.data@.len() ==> byte == Some(
                self.data@[self.offset_bytes as int],
            ),
            self.offset_bytes >= self.data@.len() ==> byte is None,
    {
        if self.offset_bytes < self.data.len() {
            Some(self.data[self.offset_bytes])
        } else {
            None
        }
    }

    /// Reads the byte at which the reader stands and goes on to the same
    /// bit of the next byte.
    pub fn read_u8(&mut self) -> (byte: Result<u8, Error>)
        requires
            old(self).wf(),
        ensures
            final(self).parts == old(self).parts,
            final(self).data == old(self).data,
            final(self).offset_bits == old(self).offset_bits,
            old(self).offset_bytes < old(self).data@.len() ==> byte == Ok::<u8, Error>(
                old(self).data@[old(self).offset_bytes as int],
            ) && final(self).offset_bytes == old(self).offset_bytes + 1,
            old(self).offset_bytes >= old(self).data@.len() ==> byte == Err::<u8, Error>(
                Error::UnexpectedEOF,
            ) && final(self).offset_bytes == old(self).offset_bytes,
    {
        assert(self.data@.len() == self.data.len());
        match self.peek() {
            Some(byte) => {
                self.offset_bytes += 1;
                Ok(byte)
            },
            None => Err(Error::UnexpectedEOF),
        }
    }

    /// Reads one bit.
    #[inline]
    pub fn read_byte(&mut self) -> (bit: Result<u8, Error>)
        requires
            old(self).wf(),
        ensures
            final(self).wf(),
            final(self).parts == old(self).parts,
            final(self).data == old(self).data,
            old(self).has(1) ==> bit == Ok::<u8, Error>(
                bit_at(old(self).data@, old(self).position()) as u8,
            ) && final(self).position() == old(self).position() + 1,
            !old(self).has(1) ==> bit == Err::<u8, Error>(Error::UnexpectedEOF) && final(self).position() == old(self).position(),
    {
        assert(self.data@.len() == self.data.len());
        let byte = match self.peek() {
            Some(byte) => byte,
            None => {
                return Err(Error::UnexpectedEOF);
            },
        };
        let weight: u8 = if self.offset_bits == 0 {
            1
        } else if self.offset_bits == 1 {
            2
        } else if self.offset_bits == 2 {
            4
        } else if self.offset_bits == 3 {
            8
        } else if self.offset_bits == 4 {
            16
        } else if self.offset_bits == 5 {
            32
        } else if self.offset_bits == 6 {
            64
        } else {
            128
        };
        proof {
            pow2_values();
        }
        let bit = (byte / weight) % 2;
        if self.offset_bits < 7 {
            self.offset_bits += 1;
        } else {
            self.offset_bytes += 1;
            self.offset_bits = 0;
        }
        Ok(bit)
    }

    /// Reads a number of `n` bits, at most 32, the lowest bit first.
    pub fn read_bytes_u32(&mut self, n: u8) -> (value: Result<u32, Error>)
        requires
            old(self).wf(),
            n <= 32,
        ensures
            final(self).wf(),
            final(self).parts == old(self).parts,
            final(self).data == old(self).data,
            old(self).has(n as int) ==> value == Ok::<u32, Error>(
                bits_value(old(self).data@, old(self).position(), n as nat) as u32,
            ) && final(self).position() == old(self).position() + n && bits_value(
                old(self).data@,
                old(self).position(),
                n as nat,
            ) < pow2(n as nat),
            !old(self).has(n as int) ==> value == Err::<u32, Error>(Error::UnexpectedEOF),
    {
        let ghost start = self.position();
        let mut v: u64 = 0;
        let mut weight: u64 = 1;
        let mut i: u8 = 0;
        proof {
            pow2_values();
        }
        while i < n
            invariant
                i <= n <= 32,
                self.wf(),
                self.parts == old(self).parts,
                self.data == old(self).data,
                start == old(self).position(),
                self.position() == start + i,
                weight == pow2(i as nat),
                v == bits_value(self.data@, start, i as nat),
                v < weight,
                weight <= 0x1_0000_0000,
            decreases n - i,
        {
            let bit = match self.read_byte() {
                Ok(bit) => bit,
                Err(e) => {
                    return Err(e);
                },
            };
            assert(bit <= 1);
            proof {
                pow2_grows((i + 1) as nat, 32);
                pow2_values();
                assert(bit * weight <= weight) by (nonlinear_arith)
                    requires
                        bit <= 1,
                        0 <= weight,
                ;
            }
            v = v + (bit as u64) * weight;
            weight = weight * 2;
            i += 1;
        }
        proof {
            bits_value_bound(self.data@, start, n as nat);
            pow2_grows(n as nat, 32);
            pow2_values();
        }
        Ok(v as u32)
    }

    /// Reads a number of `N` bits, at most 8, the lowest bit first.
    pub fn read_bytes_u8<const N: u8>(&mut self) -> (value: Result<u8, Error>)
        requires
            old(self).wf(),
            N <= 8,
        ensures
            final(self).wf(),
            final(self).parts == old(self).parts,
            final(self).data == old(self).data,
            old(self).has(N as int) ==> value == Ok::<u8, Error>(
                bits_value(old(self).data@, old(self).position(), N as nat) as u8,
            ) && final(self).position() == old(self).position() + N && bits_value(
                old(self).data@,
                old(self).position(),
                N as nat,
            ) < pow2(N as nat),
            !old(self).has(N as int) ==> value == Err::<u8, Error>(Error::UnexpectedEOF),
    {
        let value = self.read_bytes_u32(N)?;
        proof {
            pow2_grows(N as nat, 8);
            pow2_values();
        }
        Ok(value as u8)
    }

    /// Reads one bit as a truth value.
    pub fn read_bool(&mut self) -> (value: Result<bool, Error>)
        requires
            old(self).wf(),
        ensures
            final(self).wf(),
            final(self).parts == old(self).parts,
            final(self).data == old(self).data,
            old(self).has(1) ==> value == Ok::<bool, Error>(
                bit_at(old(self).data@, old(self).position()) == 1,
            ) && final(self).position() == old(self).position() + 1,
            !old(self).has(1) ==> value == Err::<bool, Error>(Error::UnexpectedEOF),
    {
        Ok(self.read_byte()? == 1)
    }

    /// Reads nothing and gives zero.
    pub fn read_u32(&mut self) -> (value: Result<u32, Error>)
        ensures
            value == Ok::<u32, Error>(0),
            *final(self) == *old(self),
    {
        Ok(0)
    }

    /// Reads a number that is stored in one of four ways; two bits tell in
    /// which.
    pub fn read_u32_d(&mut self, d0: Dist, d1: Dist, d2: Dist, d3: Dist) -> (value: Result<
        u32,
        Error,
    >)
        requires
            old(self).wf(),
            d0.wf(),
            d1.wf(),
            d2.wf(),
            d3.wf(),
        ensures
            final(self).wf(),
            final(self).parts == old(self).parts,
            final(self).data == old(self).data,
            match u32_d_at(old(self).data@, old(self).position(), d0, d1, d2, d3) {
                Some((number, end)) => value == Ok::<u32, Error>(number) && final(self).position()
                    == end,
                None => value == Err::<u32, Error>(Error::UnexpectedEOF),
            },
    {
        let dist = self.read_bytes_u8::<2>()?;
        proof {
            pow2_values();
        }
        if dist == 0 {
            d0.read(self)
        } else if dist == 1 {
            d1.read(self)
        } else if dist == 2 {
            d2.read(self)
        } else {
            d3.read(self)
        }
    }
}

/// The number that is stored in the given way at the position `p`, and the
/// position behind it.
pub open spec fn dist_at(data: Seq<u8>, p: int, dist: Dist) -> Option<(u32, int)> {
    match dist {
        Dist::Val(value) => Some((value, p)),
        Dist::Bits(n) => if p + n <= 8 * data.len() {
            Some((bits_value(data, p, n as nat) as u32, p + n))
        } else {
            None
        },
    }
}

/// The number at the position `p` that is stored in one of four ways, which
/// two bits tell, and the position behind it.
pub open spec fn u32_d_at(data: Seq<u8>, p: int, d0: Dist, d1: Dist, d2: Dist, d3: Dist) -> Option<
    (u32, int),
> {
    if p + 2 > 8 * data.len() {
        None
    } else {
        let which = bits_value(data, p, 2);
        dist_at(
            data,
            p + 2,
            if which == 0 {
                d0
            } else if which == 1 {
                d1
            } else if which == 2 {
                d2
            } else {
                d3
            },
        )
    }
}

impl Dist {
    /// At most 32 bits are read.
    pub open spec fn wf(self) -> bool {
        match self {
            Dist::Val(_) => true,
            Dist::Bits(n) => n <= 32,
        }
    }

    /// Reads a number that is stored in this way.
    pub fn read(self, data: &mut DataIter) -> (value: Result<u32, Error>)
        requires
            old(data).wf(),
            self.wf(),
        ensures
            final(data).wf(),
            final(data).parts == old(data).parts,
            final(data).data == old(data).data,
            match dist_at(old(data).data@, old(data).position(), self) {
                Some((number, end)) => value == Ok::<u32, Error>(number) && final(data).position()
                    == end,
                None => value == Err::<u32, Error>(Error::UnexpectedEOF),
            },
    {
        match self {
            Dist::Val(val) => Ok(val),
            Dist::Bits(n) => data.read_bytes_u32(n),
        }
    }
}

} // verus!
