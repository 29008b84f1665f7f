//! The byte stream that everything is read from: a buffer in memory with a
//! position that can be moved.
use vstd::prelude::*;
use vstd::slice::slice_subrange;
use crate::codec::{decode_unsigned, unsigned_value};

verus! {

/// Where a seek is measured from.
#[derive(Clone, Copy, Debug, PartialEq, Eq, Structural)]
pub enum SeekFrom {
    /// From the start of the stream.
    Start(u64),
    /// From the end of the stream.
    End(i64),
    /// From the present position.
    Current(i64),
}

/// How the stream can fail.
#[derive(Clone, Copy, Debug, PartialEq, Eq, Structural)]
pub enum IoError {
    /// Fewer bytes were left than a read asked for.
    UnexpectedEof,
    /// A seek led before the start of the stream, or past the last position
    /// that can be written down.
    InvalidSeek,
}

/// A stream as contracts see it: its bytes, and the position of the next read.
pub struct Stream {
    pub data: Seq<u8>,
    pub pos: u64,
}

impl Stream {
    /// The same bytes, at another position.
    pub open spec fn at(self, pos: u64) -> Stream {
        Stream { data: self.data, pos }
    }

    /// Where a seek leads, if it leads anywhere.
    pub open spec fn seek_target(self, from: SeekFrom) -> Option<u64> {
        let target: int = match from {
            SeekFrom::Start(n) => n as int,
            SeekFrom::End(d) => self.data.len() + d,
            SeekFrom::Current(d) => self.pos + d,
        };
        if 0 <= target <= u64::MAX {
            Some(target as u64)
        } else {
            None
        }
    }

    /// The next `count` bytes, if that many are left. No bytes can be had
    /// anywhere.
    pub open spec fn take(self, count: nat) -> Option<Seq<u8>> {
        if count == 0 {
            Some(Seq::empty())
        } else if self.pos + count <= self.data.len() {
            Some(self.data.subrange(self.pos as int, self.pos + count))
        } else {
            None
        }
    }

    /// The stream after `count` bytes were read.
    pub open spec fn skip(self, count: nat) -> Stream {
        self.at((self.pos + count) as u64)
    }
}

/// A buffer of bytes with a read position.
///
/// The position may stand past the end of the buffer; reading there fails.
pub struct Cursor {
    data: Vec<u8>,
    pos: u64,
}

impl View for Cursor {
    type V = Stream;

    closed spec fn view(&self) -> Stream {
        Stream { data: self.data@, pos: self.pos }
    }
}

impl Cursor {
    /// A cursor at the start of `data`.
    pub fn new(data: Vec<u8>) -> (r: Cursor)
        ensures
            r@.data == data@,
            r@.pos == 0,
    {
        Cursor { data, pos: 0 }
    }

    /// The position of the next read.
    pub fn position(&self) -> (r: u64)
        ensures
            r == self@.pos,
    {
        self.pos
    }

    /// Moves to `pos`, wherever that is.
    pub fn set_position(&mut self, pos: u64)
        ensures
            final(self)@ == old(self)@.at(pos),
    {
        self.pos = pos;
    }

    /// The whole buffer.
    pub fn get_ref(&self) -> (r: &Vec<u8>)
        ensures
            r@ == self@.data,
    {
        &self.data
    }

    /// Gives the buffer back.
    pub fn into_inner(self) -> (r: Vec<u8>)
        ensures
            r@ == self@.data,
    {
        self.data
    }

    /// How many bytes are left between the position and the end.
    pub fn remaining(&self) -> (r: usize)
        ensures
            r == (if self@.pos <= self@.data.len() {
                self@.data.len() - self@.pos
            } else {
                0
            }),
    {
        let len: usize = self.data.len();
        if self.pos <= len as u64 {
            len - self.pos as usize
        } else {
            0
        }
    }

    /// Moves the position. A seek that leads nowhere fails and moves nothing.
    pub fn seek(&mut self, from: SeekFrom) -> (r: Result<u64, IoError>)
        ensures
            final(self)@.data == old(self)@.data,
            match old(self)@.seek_target(from) {
                Some(target) => r == Ok::<u64, IoError>(target) && final(self)@.pos == target,
                None => r == Err::<u64, IoError>(IoError::InvalidSeek)
                    && final(self)@.pos == old(self)@.pos,
            },
    {
        let target: Option<u64> = match from {
            SeekFrom::Start(n) => Some(n),
            SeekFrom::End(d) => offset_by(self.data.len() as u64, d),
            SeekFrom::Current(d) => offset_by(self.pos, d),
        };
        match target {
            Some(t) => {
                self.pos = t;
                Ok(t)
            },
            None => Err(IoError::InvalidSeek),
        }
    }

    /// Reads the next `count` bytes. Where fewer are left nothing is read and
    /// the position stays.
    pub fn read_exact(&mut self, count: usize) -> (r: Result<Vec<u8>, IoError>)
        ensures
            final(self)@.data == old(self)@.data,
            match old(self)@.take(count as nat) {
                Some(bytes) => r is Ok && r->Ok_0@ == bytes && final(self)@ == old(self)@.skip(
                    count as nat,
                ),
                None => r == Err::<Vec<u8>, IoError>(IoError::UnexpectedEof) && final(self)@
                    == old(self)@,
            },
    {
        if count == 0 {
            return Ok(Vec::new());
        }
        if count > self.remaining() {
            return Err(IoError::UnexpectedEof);
        }
        let len: usize = self.data.len();
        let start: usize = self.pos as usize;
        let mut out: Vec<u8> = Vec::new();
        let mut i: usize = 0;
        while i < count
            invariant
                i <= count,
                start == self.pos,
                len == self.data@.len(),
                start + count <= len,
                out@ == self.data@.subrange(start as int, start + i),
            decreases count - i,
        {
            out.push(self.data[start + i]);
            proof {
                assert(self.data@.subrange(start as int, start + i).push(self.data@[start + i])
                    == self.data@.subrange(start as int, start + i + 1));
            }
            i = i + 1;
        }
        self.pos = self.pos + count as u64;
        Ok(out)
    }

    /// Reads the next `width` bytes as one unsigned number, most significant
    /// byte first if `big`. Where fewer are left nothing is read.
    pub fn read_unsigned(&mut self, width: usize, big: bool) -> (r: Result<u128, IoError>)
        requires
            width <= 16,
        ensures
            final(self)@.data == old(self)@.data,
            match old(self)@.take(width as nat) {
                Some(bytes) => r == Ok::<u128, IoError>(unsigned_value(bytes, big) as u128)
                    && final(self)@ == old(self)@.skip(width as nat),
                None => r == Err::<u128, IoError>(IoError::UnexpectedEof)
                    && final(self)@ == old(self)@,
            },
    {
        if width == 0 {
            assert(Seq::<u8>::empty().reverse() == Seq::<u8>::empty());
            return Ok(0);
        }
        if width > self.remaining() {
            return Err(IoError::UnexpectedEof);
        }
        let len: usize = self.data.len();
        let start: usize = self.pos as usize;
        let bytes: &[u8] = slice_subrange(self.data.as_slice(), start, start + width);
        let value: u128 = decode_unsigned(bytes, big);
        proof {
            crate::codec::lemma_unsigned_value_bound(bytes@, big);
            crate::codec::lemma_pow256_monotonic(width as nat, 16);
            crate::codec::lemma_pow256_values();
        }
        self.pos = self.pos + width as u64;
        Ok(value)
    }
}

/// `base` moved by `delta`, where that is a position.
fn offset_by(base: u64, delta: i64) -> (r: Option<u64>)
    ensures
        r == (if 0 <= base + delta <= u64::MAX {
            Some((base + delta) as u64)
        } else {
            None
        }),
{
    if delta >= 0 {
        let up: u64 = delta as u64;
        if up <= u64::MAX - base {
            Some(base + up)
        } else {
            None
        }
    } else {
        let down: u64 = if delta == i64::MIN {
            0x8000_0000_0000_0000u64
        } else {
            (-delta) as u64
        };
        if down <= base {
            Some(base - down)
        } else {
            None
        }
    }
}

} // verus!
