//! Helpers for sequences: raw bytes, counted items, items with separators.
use vstd::prelude::*;
use crate::binread::Outcome;
use crate::error::{BinResult, Error, ErrorView};
use crate::io::{Cursor, IoError, Stream};
use crate::options::ReadOptions;

pub mod counted;
pub mod punctuated;

pub use counted::Counted;
pub use punctuated::Punctuated;

verus! {

/// The next `count` bytes of a stream.
pub open spec fn bytes_at(stream: Stream, count: nat) -> Outcome<Seq<u8>> {
    match stream.take(count) {
        Some(bytes) => Ok((bytes, stream.skip(count).pos)),
        None => Err(ErrorView::Io(IoError::UnexpectedEof)),
    }
}

/// Reads the next `args.0` bytes in one go. Where fewer are left, nothing is
/// read and the read fails.
pub fn read_bytes(reader: &mut Cursor, _options: &ReadOptions, args: &(usize,)) -> (r: BinResult<
    Vec<u8>,
>)
    ensures
        final(reader)@.data == old(reader)@.data,
        match bytes_at(old(reader)@, args.0 as nat) {
            Ok((bytes, end)) => r is Ok && r->Ok_0@ == bytes && final(reader)@.pos == end,
            Err(e) => r is Err && r->Err_0@ == e && final(reader)@ == old(reader)@,
        },
{
    match reader.read_exact(args.0) {
        Ok(buf) => Ok(buf),
        Err(e) => Err(Error::Io(e)),
    }
}

} // verus!
