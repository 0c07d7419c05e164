//! Reading slices out of bytes at a cursor.
use vstd::prelude::*;
use vstd::slice::slice_subrange;

verus! {

#[derive(Debug, Clone, Copy, PartialEq, Eq, Structural)]
pub enum ReadError {
    /// A position does not fit in the machine's word.
    Math,
    /// The bytes end before what is to be read.
    Io,
    InvalidIndex,
}

/// A cursor over bytes that hands out slices of them.
#[derive(Debug, Clone, Copy)]
pub struct SliceCursor<'a> {
    pub data: &'a [u8],
    pub position: usize,
}

/// How many bytes stand before the first occurrence of `byte`.
pub open spec fn run_len(data: Seq<u8>, byte: u8) -> int
    decreases data.len(),
{
    if data.len() == 0 || data[0] == byte {
        0
    } else {
        1 + run_len(data.drop_first(), byte)
    }
}

/// The part of a slice between two positions.
pub fn get_range(data: &[u8], start: usize, end: usize) -> (part: Result<&[u8], ReadError>)
    ensures
        start <= end <= data@.len() ==> part is Ok && part->Ok_0@ == data@.subrange(
            start as int,
            end as int,
        ),
        !(start <= end <= data@.len()) ==> part is Err && part->Err_0 == ReadError::InvalidIndex,
{
    if start <= end && end <= data.len() {
        Ok(slice_subrange(data, start, end))
    } else {
        Err(ReadError::InvalidIndex)
    }
}

impl<'a> SliceCursor<'a> {
    pub fn new(data: &'a [u8]) -> (cursor: SliceCursor<'a>)
        ensures
            cursor.data@ == data@,
            cursor.position == 0,
    {
        SliceCursor { data, position: 0 }
    }

    /// What is left behind the cursor.
    pub open spec fn rest(&self) -> Seq<u8> {
        self.data@.subrange(self.position as int, self.data@.len() as int)
    }

    /// Reads the next `N` bytes.
    pub fn read_array<const N: usize>(&mut self) -> (bytes: Result<[u8; N], ReadError>)
        ensures
            final(self).data == old(self).data,
            old(self).position + N <= old(self).data@.len() ==> bytes is Ok && bytes->Ok_0@
                == old(self).data@.subrange(old(self).position as int, old(self).position + N)
                && final(self).position == old(self).position + N,
            old(self).position + N > old(self).data@.len() ==> bytes is Err && bytes->Err_0
                == ReadError::Io && final(self).position == old(self).position,
    {
        let total = self.data.len();
        if self.position > total || total - self.position < N {
            return Err(ReadError::Io);
        }
        let start = self.position;
        let mut bytes: [u8; N] = [0u8; N];
        let mut i: usize = 0;
        while i < N
            invariant
                i <= N,
                start + N <= self.data@.len() <= usize::MAX,
                bytes@.len() == N,
                forall|j: int| 0 <= j < i ==> bytes@[j] == self.data@[start + j],
            decreases N - i,
        {
            bytes[i] = self.data[start + i];
            i += 1;
        }
        assert(bytes@ =~= self.data@.subrange(start as int, start + N));
        self.position = start + N;
        Ok(bytes)
    }

    /// Reads the next byte.
    pub fn read_byte(&mut self) -> (byte: Result<u8, ReadError>)
        ensures
            final(self).data == old(self).data,
            old(self).position < old(self).data@.len() ==> byte == Ok::<u8, ReadError>(
                old(self).data@[old(self).position as int],
            ) && final(self).position == old(self).position + 1,
            old(self).position >= old(self).data@.len() ==> byte == Err::<u8, ReadError>(
                ReadError::Io,
            ) && final(self).position == old(self).position,
    {
        if self.position < self.data.len() {
            let byte = self.data[self.position];
            self.position += 1;
            Ok(byte)
        } else {
            Err(ReadError::Io)
        }
    }

    /// Read until `byte` and return as slice
    ///
    /// The cursor goes on behind the byte, or behind the end where the byte
    /// does not occur.
    pub fn slice_until(&mut self, byte: u8) -> (slice: Result<&'a [u8], ReadError>)
        ensures
            final(self).data == old(self).data,
            old(self).position <= old(self).data@.len() && old(self).position + run_len(
                old(self).rest(),
                byte,
            ) < usize::MAX ==> slice is Ok && slice->Ok_0@ == old(self).rest().subrange(
                0,
                run_len(old(self).rest(), byte),
            ) && final(self).position == old(self).position + run_len(old(self).rest(), byte) + 1,
            old(self).position <= old(self).data@.len() && old(self).position + run_len(
                old(self).rest(),
                byte,
            ) >= usize::MAX ==> slice is Err && slice->Err_0 == ReadError::Math && final(self).position == old(self).position,
            old(self).position > old(self).data@.len() ==> slice is Err && slice->Err_0
                == ReadError::InvalidIndex && final(self).position == old(self).position,
    {
        let total = self.data.len();
        let start = self.position;
        if start > total {
            return Err(ReadError::InvalidIndex);
        }
        let mut end = start;
        let ghost rest = self.rest();
        assert(rest.subrange(0, rest.len() as int) =~= rest);
        while end < total && self.data[end] != byte
            invariant
                start <= end <= total,
                total == self.data@.len(),
                rest == self.data@.subrange(start as int, total as int),
                run_len(rest, byte) == (end - start) + run_len(
                    rest.subrange(end - start, rest.len() as int),
                    byte,
                ),
            decreases total - end,
        {
            assert(rest.subrange(end - start, rest.len() as int).drop_first() =~= rest.subrange(
                end - start + 1,
                rest.len() as int,
            ));
            end += 1;
        }
        assert(run_len(rest, byte) == end - start);
        if end == usize::MAX {
            return Err(ReadError::Math);
        }
        self.position = end + 1;
        let slice = slice_subrange(self.data, start, end);
        assert(slice@ =~= rest.subrange(0, end - start));
        Ok(slice)
    }

    /// Read until end and return as slice
    pub fn slice_to_end(&mut self) -> (slice: Result<&'a [u8], ReadError>)
        ensures
            final(self).data == old(self).data,
            old(self).position <= old(self).data@.len() ==> slice is Ok && slice->Ok_0@ == old(self).rest() && final(self).position == old(self).data@.len(),
            old(self).position > old(self).data@.len() ==> slice is Err && slice->Err_0
                == ReadError::InvalidIndex && final(self).position == old(self).position,
    {
        let start = self.position;
        let end = self.data.len();
        if start > end {
            return Err(ReadError::InvalidIndex);
        }
        self.position = end;
        Ok(slice_subrange(self.data, start, end))
    }
}

} // verus!
