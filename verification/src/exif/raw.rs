//! The byte store: one buffer, a cursor into it and the byte order.
use vstd::prelude::*;
use crate::exif::bytes::{
    overwrite, u16_at, u16_bytes, u16_from_bytes, u16_to_bytes, u32_at, u32_bytes,
    u32_from_bytes, u32_to_bytes,
};
use crate::exif::error::Error;

verus! {

/// A seekable cursor over the bytes of a document.
///
/// Reads and writes happen at the cursor and move it. A write replaces bytes
/// in place and never changes the length of the buffer.
#[derive(Debug, Clone)]
pub struct Raw {
    pub big_endian: bool,
    pub buffer: Vec<u8>,
    pub cursor: u64,
}

impl Raw {
    /// A little-endian store over `buffer` with the cursor at the start.
    pub fn new(buffer: Vec<u8>) -> (raw: Raw)
        ensures
            raw.buffer == buffer,
            raw.cursor == 0,
            !raw.big_endian,
    {
        Raw { big_endian: false, buffer, cursor: 0 }
    }

    /// Whether `len` bytes can be read or written at the cursor.
    pub open spec fn has(&self, len: int) -> bool {
        self.cursor + len <= self.buffer@.len()
    }

    /// The cursor as a 32-bit offset.
    pub fn position(&self) -> (position: Result<u32, Error>)
        ensures
            self.cursor <= u32::MAX ==> position == Ok::<u32, Error>(self.cursor as u32),
            self.cursor > u32::MAX ==> position == Err::<u32, Error>(Error::OffsetTooLarge),
    {
        if self.cursor <= u32::MAX as u64 {
            Ok(self.cursor as u32)
        } else {
            Err(Error::OffsetTooLarge)
        }
    }

    /// Moves the cursor to `seek`, which may lie beyond the end.
    pub fn seek_start(&mut self, seek: u32) -> (done: Result<(), Error>)
        ensures
            done is Ok,
            final(self).cursor == seek,
            final(self).buffer == old(self).buffer,
            final(self).big_endian == old(self).big_endian,
    {
        self.cursor = seek as u64;
        Ok(())
    }

    /// Reads the next `N` bytes.
    ///
    /// Where fewer than `N` bytes are left, nothing is read and the cursor
    /// moves to the end of the buffer.
    pub fn read_exact<const N: usize>(&mut self) -> (bytes: Result<[u8; N], Error>)
        ensures
            final(self).buffer == old(self).buffer,
            final(self).big_endian == old(self).big_endian,
            old(self).has(N as int) ==> bytes is Ok && bytes->Ok_0@ == old(self).buffer@.subrange(
                old(self).cursor as int,
                old(self).cursor + N,
            ) && final(self).cursor == old(self).cursor + N,
            !old(self).has(N as int) ==> bytes == Err::<[u8; N], Error>(Error::Io) && final(self).cursor == old(self).buffer@.len(),
    {
        let len = self.buffer.len();
        if self.cursor > len as u64 || len as u64 - self.cursor < N as u64 {
            self.cursor = len as u64;
            return Err(Error::Io);
        }
        let start = self.cursor as usize;
        let mut bytes: [u8; N] = [0u8; N];
        let mut i: usize = 0;
        while i < N
            invariant
                i <= N,
                start + N <= self.buffer@.len() <= usize::MAX,
                bytes@.len() == N,
                forall|j: int| 0 <= j < i ==> bytes@[j] == self.buffer@[start + j],
            decreases N - i,
        {
            bytes[i] = self.buffer[start + i];
            i += 1;
        }
        assert(bytes@ =~= self.buffer@.subrange(start as int, start + N));
        self.cursor = self.cursor + N as u64;
        Ok(bytes)
    }

    /// Reads the next `len` bytes into a vector.
    ///
    /// Where fewer than `len` bytes are left, nothing is read and the cursor
    /// moves to the end of the buffer.
    pub fn read_vec(&mut self, len: usize) -> (bytes: Result<Vec<u8>, Error>)
        ensures
            final(self).buffer == old(self).buffer,
            final(self).big_endian == old(self).big_endian,
            old(self).has(len as int) ==> bytes is Ok && bytes->Ok_0@ == old(self).buffer@.subrange(
                old(self).cursor as int,
                old(self).cursor + len,
            ) && final(self).cursor == old(self).cursor + len,
            !old(self).has(len as int) ==> bytes == Err::<Vec<u8>, Error>(Error::Io) && final(self).cursor == old(self).buffer@.len(),
    {
        let total = self.buffer.len();
        if self.cursor > total as u64 || total as u64 - self.cursor < len as u64 {
            self.cursor = total as u64;
            return Err(Error::Io);
        }
        let start = self.cursor as usize;
        let mut bytes: Vec<u8> = Vec::new();
        let mut i: usize = 0;
        while i < len
            invariant
                i <= len,
                start + len <= self.buffer@.len() <= usize::MAX,
                bytes@.len() == i,
                forall|j: int| 0 <= j < i ==> bytes@[j] == self.buffer@[start + j],
            decreases len - i,
        {
            bytes.push(self.buffer[start + i]);
            i += 1;
        }
        assert(bytes@ =~= self.buffer@.subrange(start as int, start + len));
        self.cursor = self.cursor + len as u64;
        Ok(bytes)
    }

    /// Reads a 16-bit integer in the byte order of the document.
    pub fn read_u16(&mut self) -> (value: Result<u16, Error>)
        ensures
            final(self).buffer == old(self).buffer,
            final(self).big_endian == old(self).big_endian,
            old(self).has(2) ==> value == Ok::<u16, Error>(
                u16_at(old(self).buffer@, old(self).cursor as int, old(self).big_endian),
            ) && final(self).cursor == old(self).cursor + 2,
            !old(self).has(2) ==> value == Err::<u16, Error>(Error::Io) && final(self).cursor
                == old(self).buffer@.len(),
    {
        let bytes = self.read_exact::<2>()?;
        Ok(u16_from_bytes(bytes[0], bytes[1], self.big_endian))
    }

    /// Reads a 32-bit integer in the byte order of the document.
    pub fn read_u32(&mut self) -> (value: Result<u32, Error>)
        ensures
            final(self).buffer == old(self).buffer,
            final(self).big_endian == old(self).big_endian,
            old(self).has(4) ==> value == Ok::<u32, Error>(
                u32_at(old(self).buffer@, old(self).cursor as int, old(self).big_endian),
            ) && final(self).cursor == old(self).cursor + 4,
            !old(self).has(4) ==> value == Err::<u32, Error>(Error::Io) && final(self).cursor
                == old(self).buffer@.len(),
    {
        let bytes = self.read_exact::<4>()?;
        Ok(u32_from_bytes(bytes[0], bytes[1], bytes[2], bytes[3], self.big_endian))
    }

    /// Writes `bytes` over the bytes at the cursor.
    ///
    /// Where fewer than `bytes.len()` bytes are left, nothing is written.
    pub fn write_all(&mut self, bytes: &[u8]) -> (done: Result<(), Error>)
        ensures
            final(self).big_endian == old(self).big_endian,
            final(self).buffer@.len() == old(self).buffer@.len(),
            old(self).has(bytes@.len() as int) ==> done is Ok && final(self).buffer@ == overwrite(
                old(self).buffer@,
                old(self).cursor as int,
                bytes@,
            ) && final(self).cursor == old(self).cursor + bytes@.len(),
            !old(self).has(bytes@.len() as int) ==> done == Err::<(), Error>(Error::Io) && final(self).buffer@ == old(self).buffer@ && final(self).cursor == old(self).cursor,
    {
        let total = self.buffer.len();
        let len = bytes.len();
        if self.cursor > total as u64 || total as u64 - self.cursor < len as u64 {
            return Err(Error::Io);
        }
        let start = self.cursor as usize;
        let ghost before = self.buffer@;
        let mut i: usize = 0;
        while i < len
            invariant
                i <= len,
                len == bytes@.len(),
                start + len <= before.len() <= usize::MAX,
                self.buffer@.len() == before.len(),
                self.cursor == start,
                self.big_endian == old(self).big_endian,
                forall|j: int|
                    0 <= j < before.len() ==> self.buffer@[j] == if start <= j < start + i {
                        bytes@[j - start]
                    } else {
                        before[j]
                    },
            decreases len - i,
        {
            self.buffer[start + i] = bytes[i];
            i += 1;
        }
        assert(self.buffer@ =~= overwrite(before, start as int, bytes@));
        self.cursor = self.cursor + len as u64;
        Ok(())
    }

    /// Writes a 16-bit integer in the byte order of the document.
    pub fn write_u16(&mut self, value: u16) -> (done: Result<(), Error>)
        ensures
            final(self).big_endian == old(self).big_endian,
            final(self).buffer@.len() == old(self).buffer@.len(),
            old(self).has(2) ==> done is Ok && final(self).buffer@ == overwrite(
                old(self).buffer@,
                old(self).cursor as int,
                u16_bytes(value, old(self).big_endian),
            ) && final(self).cursor == old(self).cursor + 2,
            !old(self).has(2) ==> done == Err::<(), Error>(Error::Io) && final(self).buffer@
                == old(self).buffer@ && final(self).cursor == old(self).cursor,
    {
        let bytes = u16_to_bytes(value, self.big_endian);
        self.write_all(bytes.as_slice())
    }

    /// Writes a 32-bit integer in the byte order of the document.
    pub fn write_u32(&mut self, value: u32) -> (done: Result<(), Error>)
        ensures
            final(self).big_endian == old(self).big_endian,
            final(self).buffer@.len() == old(self).buffer@.len(),
            old(self).has(4) ==> done is Ok && final(self).buffer@ == overwrite(
                old(self).buffer@,
                old(self).cursor as int,
                u32_bytes(value, old(self).big_endian),
            ) && final(self).cursor == old(self).cursor + 4,
            !old(self).has(4) ==> done == Err::<(), Error>(Error::Io) && final(self).buffer@
                == old(self).buffer@ && final(self).cursor == old(self).cursor,
    {
        let bytes = u32_to_bytes(value, self.big_endian);
        self.write_all(bytes.as_slice())
    }

    /// The `len` bytes at `at`, if the buffer holds them; the cursor is not
    /// used.
    pub fn get(&self, at: u32, len: u32) -> (bytes: Option<Vec<u8>>)
        ensures
            at + len <= self.buffer@.len() ==> bytes is Some && bytes->Some_0@
                == self.buffer@.subrange(at as int, at + len),
            at + len > self.buffer@.len() ==> bytes is None,
    {
        let total = self.buffer.len();
        if at as u64 + len as u64 > total as u64 {
            return None;
        }
        let start = at as usize;
        let len = len as usize;
        let mut bytes: Vec<u8> = Vec::new();
        let mut i: usize = 0;
        while i < len
            invariant
                i <= len,
                start + len <= self.buffer@.len() <= usize::MAX,
                bytes@.len() == i,
                forall|j: int| 0 <= j < i ==> bytes@[j] == self.buffer@[start + j],
            decreases len - i,
        {
            bytes.push(self.buffer[start + i]);
            i += 1;
        }
        assert(bytes@ =~= self.buffer@.subrange(start as int, start + len));
        Some(bytes)
    }

    /// The 32-bit integer at `at`, if the buffer holds it; the cursor is not
    /// used.
    pub fn get_u32(&self, at: u64) -> (value: Option<u32>)
        ensures
            at + 4 <= self.buffer@.len() ==> value == Some(
                u32_at(self.buffer@, at as int, self.big_endian),
            ),
            at + 4 > self.buffer@.len() ==> value is None,
    {
        let total = self.buffer.len();
        if at > total as u64 || total as u64 - at < 4 {
            return None;
        }
        let start = at as usize;
        Some(
            u32_from_bytes(
                self.buffer[start],
                self.buffer[start + 1],
                self.buffer[start + 2],
                self.buffer[start + 3],
                self.big_endian,
            ),
        )
    }

    /// The 16-bit integer at `at`, if the buffer holds it; the cursor is not
    /// used.
    pub fn get_u16(&self, at: u64) -> (value: Option<u16>)
        ensures
            at + 2 <= self.buffer@.len() ==> value == Some(
                u16_at(self.buffer@, at as int, self.big_endian),
            ),
            at + 2 > self.buffer@.len() ==> value is None,
    {
        let total = self.buffer.len();
        if at > total as u64 || total as u64 - at < 2 {
            return None;
        }
        let start = at as usize;
        Some(u16_from_bytes(self.buffer[start], self.buffer[start + 1], self.big_endian))
    }
}

} // verus!
