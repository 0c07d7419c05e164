//! How integers lie in the bytes of a document, in either byte order.
use vstd::prelude::*;

verus! {

/// The 16-bit integer stored in the two bytes at `at`.
pub open spec fn u16_at(bytes: Seq<u8>, at: int, big_endian: bool) -> u16
    recommends
        0 <= at,
        at + 2 <= bytes.len(),
{
    if big_endian {
        (bytes[at] as int * 256 + bytes[at + 1] as int) as u16
    } else {
        (bytes[at + 1] as int * 256 + bytes[at] as int) as u16
    }
}

/// The 32-bit integer stored in the four bytes at `at`.
pub open spec fn u32_at(bytes: Seq<u8>, at: int, big_endian: bool) -> u32
    recommends
        0 <= at,
        at + 4 <= bytes.len(),
{
    if big_endian {
        (bytes[at] as int * 16777216 + bytes[at + 1] as int * 65536 + bytes[at + 2] as int * 256
            + bytes[at + 3] as int) as u32
    } else {
        (bytes[at + 3] as int * 16777216 + bytes[at + 2] as int * 65536 + bytes[at + 1] as int
            * 256 + bytes[at] as int) as u32
    }
}

/// The two bytes that store a 16-bit integer.
pub open spec fn u16_bytes(value: u16, big_endian: bool) -> Seq<u8> {
    if big_endian {
        seq![(value / 256) as u8, (value % 256) as u8]
    } else {
        seq![(value % 256) as u8, (value / 256) as u8]
    }
}

/// The four bytes that store a 32-bit integer.
pub open spec fn u32_bytes(value: u32, big_endian: bool) -> Seq<u8> {
    if big_endian {
        seq![
            (value / 16777216) as u8,
            ((value / 65536) % 256) as u8,
            ((value / 256) % 256) as u8,
            (value % 256) as u8,
        ]
    } else {
        seq![
            (value % 256) as u8,
            ((value / 256) % 256) as u8,
            ((value / 65536) % 256) as u8,
            (value / 16777216) as u8,
        ]
    }
}

/// `bytes` with the bytes from `at` on replaced by `data`; the length stays.
pub open spec fn overwrite(bytes: Seq<u8>, at: int, data: Seq<u8>) -> Seq<u8>
    recommends
        0 <= at,
        at + data.len() <= bytes.len(),
{
    Seq::new(
        bytes.len(),
        |i: int|
            if at <= i < at + data.len() {
                data[i - at]
            } else {
                bytes[i]
            },
    )
}

/// Reading back the bytes of a 16-bit integer gives the integer.
pub proof fn u16_round_trip(value: u16, big_endian: bool)
    ensures
        u16_bytes(value, big_endian).len() == 2,
        u16_at(u16_bytes(value, big_endian), 0, big_endian) == value,
{
}

/// Reading back the bytes of a 32-bit integer gives the integer.
pub proof fn u32_round_trip(value: u32, big_endian: bool)
    ensures
        u32_bytes(value, big_endian).len() == 4,
        u32_at(u32_bytes(value, big_endian), 0, big_endian) == value,
{
}

/// An integer read from a place depends only on the bytes at that place.
pub proof fn u16_at_same(a: Seq<u8>, b: Seq<u8>, at_a: int, at_b: int, big_endian: bool)
    requires
        a[at_a] == b[at_b],
        a[at_a + 1] == b[at_b + 1],
    ensures
        u16_at(a, at_a, big_endian) == u16_at(b, at_b, big_endian),
{
}

/// An integer read from a place depends only on the bytes at that place.
pub proof fn u32_at_same(a: Seq<u8>, b: Seq<u8>, at_a: int, at_b: int, big_endian: bool)
    requires
        a[at_a] == b[at_b],
        a[at_a + 1] == b[at_b + 1],
        a[at_a + 2] == b[at_b + 2],
        a[at_a + 3] == b[at_b + 3],
    ensures
        u32_at(a, at_a, big_endian) == u32_at(b, at_b, big_endian),
{
}

/// What was written over a place is what is read from it afterwards.
pub proof fn u32_at_overwrite(bytes: Seq<u8>, at: int, value: u32, big_endian: bool)
    requires
        0 <= at,
        at + 4 <= bytes.len(),
    ensures
        u32_at(overwrite(bytes, at, u32_bytes(value, big_endian)), at, big_endian) == value,
{
    u32_round_trip(value, big_endian);
    let data = u32_bytes(value, big_endian);
    u32_at_same(overwrite(bytes, at, data), data, at, 0, big_endian);
}

/// Assembles a 16-bit integer from its two bytes in document order.
pub fn u16_from_bytes(b0: u8, b1: u8, big_endian: bool) -> (value: u16)
    ensures
        value == u16_at(seq![b0, b1], 0, big_endian),
{
    if big_endian {
        (b0 as u16) * 256 + (b1 as u16)
    } else {
        (b1 as u16) * 256 + (b0 as u16)
    }
}

/// Assembles a 32-bit integer from its four bytes in document order.
pub fn u32_from_bytes(b0: u8, b1: u8, b2: u8, b3: u8, big_endian: bool) -> (value: u32)
    ensures
        value == u32_at(seq![b0, b1, b2, b3], 0, big_endian),
{
    if big_endian {
        (b0 as u32) * 16777216 + (b1 as u32) * 65536 + (b2 as u32) * 256 + (b3 as u32)
    } else {
        (b3 as u32) * 16777216 + (b2 as u32) * 65536 + (b1 as u32) * 256 + (b0 as u32)
    }
}

/// The two bytes of a 16-bit integer in document order.
pub fn u16_to_bytes(value: u16, big_endian: bool) -> (bytes: [u8; 2])
    ensures
        bytes@ == u16_bytes(value, big_endian),
{
    let high: u8 = (value / 256) as u8;
    let low: u8 = (value % 256) as u8;
    let bytes: [u8; 2] = if big_endian {
        [high, low]
    } else {
        [low, high]
    };
    assert(bytes@ =~= u16_bytes(value, big_endian));
    bytes
}

/// The four bytes of a 32-bit integer in document order.
pub fn u32_to_bytes(value: u32, big_endian: bool) -> (bytes: [u8; 4])
    ensures
        bytes@ == u32_bytes(value, big_endian),
{
    let b3: u8 = (value / 16777216) as u8;
    let b2: u8 = ((value / 65536) % 256) as u8;
    let b1: u8 = ((value / 256) % 256) as u8;
    let b0: u8 = (value % 256) as u8;
    let bytes: [u8; 4] = if big_endian {
        [b3, b2, b1, b0]
    } else {
        [b0, b1, b2, b3]
    };
    assert(bytes@ =~= u32_bytes(value, big_endian));
    bytes
}

/// `n` zero bytes.
pub open spec fn zeros(n: nat) -> Seq<u8> {
    Seq::new(n, |i: int| 0u8)
}

/// `bytes` with `data` inserted before the byte at `at`.
pub open spec fn spliced(bytes: Seq<u8>, at: int, data: Seq<u8>) -> Seq<u8>
    recommends
        0 <= at <= bytes.len(),
{
    bytes.subrange(0, at) + data + bytes.subrange(at, bytes.len() as int)
}

/// `bytes` without the `n` bytes from `at` on.
pub open spec fn drained(bytes: Seq<u8>, at: int, n: int) -> Seq<u8>
    recommends
        0 <= at,
        0 <= n,
        at + n <= bytes.len(),
{
    bytes.subrange(0, at) + bytes.subrange(at + n, bytes.len() as int)
}

/// Inserts `data` into `buffer` before the byte at `at`.
pub fn splice_in(buffer: &mut Vec<u8>, at: usize, data: Vec<u8>)
    requires
        at <= old(buffer)@.len(),
    ensures
        final(buffer)@ == spliced(old(buffer)@, at as int, data@),
{
    let mut data = data;
    let mut tail = buffer.split_off(at);
    buffer.append(&mut data);
    buffer.append(&mut tail);
}

/// Removes the `n` bytes from `at` on from `buffer`.
pub fn drain_out(buffer: &mut Vec<u8>, at: usize, n: usize)
    requires
        at + n <= old(buffer)@.len(),
    ensures
        final(buffer)@ == drained(old(buffer)@, at as int, n as int),
{
    assert(buffer@.len() == buffer.len());
    let mut tail = buffer.split_off(at + n);
    buffer.truncate(at);
    buffer.append(&mut tail);
    assert(old(buffer)@.subrange(0, at + n).subrange(0, at as int) =~= old(buffer)@.subrange(
        0,
        at as int,
    ));
}

/// A vector of `n` zero bytes.
pub fn zero_vec(n: usize) -> (bytes: Vec<u8>)
    ensures
        bytes@ == zeros(n as nat),
{
    let mut bytes: Vec<u8> = Vec::new();
    let mut i: usize = 0;
    while i < n
        invariant
            i <= n,
            bytes@ == zeros(i as nat),
        decreases n - i,
    {
        bytes.push(0u8);
        assert(bytes@ =~= zeros((i + 1) as nat));
        i += 1;
    }
    bytes
}

} // verus!
