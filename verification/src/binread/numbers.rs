//! The protocol for the fixed-width integers.
//!
//! An integer of `n` bytes is read from the next `n` bytes of the stream,
//! under the byte order of the context; the signed types read the number as
//! two's complement. Phase two has nothing to do.
use vstd::prelude::*;
use crate::binread::{yields, BinRead, Outcome, Resolved};
use crate::codec::{
    lemma_pow256_monotonic, lemma_pow256_values, lemma_signed_round_trip,
    lemma_unsigned_round_trip, lemma_unsigned_value_bound, pow256, signed_of, to_signed,
    unsigned_bytes, unsigned_of, unsigned_value,
};
use crate::error::{BinResult, Error, ErrorView};
use crate::io::{Cursor, IoError, Stream};
use crate::options::{OptionsView, ReadOptions};

verus! {

/// The `width`-byte unsigned number at the position of a stream.
pub open spec fn number_at(stream: Stream, width: nat, big: bool) -> Outcome<nat> {
    match stream.take(width) {
        Some(bytes) => Ok((unsigned_value(bytes, big), stream.skip(width).pos)),
        None => Err(ErrorView::Io(IoError::UnexpectedEof)),
    }
}

/// Reads the `width`-byte unsigned number at the position of the stream,
/// under the byte order of the context. Where fewer bytes are left, nothing
/// is read.
pub fn read_number(reader: &mut Cursor, options: &ReadOptions, width: usize) -> (r: BinResult<
    u128,
>)
    requires
        width <= 16,
    ensures
        final(reader)@.data == old(reader)@.data,
        match number_at(old(reader)@, width as nat, options@.big_endian()) {
            Ok((v, end)) => r is Ok && r->Ok_0 == v && v < pow256(width as nat)
                && final(reader)@.pos == end,
            Err(e) => r is Err && r->Err_0@ == e && final(reader)@ == old(reader)@,
        },
{
    proof {
        match old(reader)@.take(width as nat) {
            Some(bytes) => {
                lemma_unsigned_value_bound(bytes, options@.big_endian());
                lemma_pow256_monotonic(width as nat, 16);
                lemma_pow256_values();
            },
            None => {},
        }
    }
    match reader.read_unsigned(width, options.big_endian()) {
        Ok(v) => Ok(v),
        Err(e) => Err(Error::Io(e)),
    }
}

impl BinRead for u8 {
    type Args = ();

    type Model = u8;

    open spec fn model(&self) -> u8 {
        *self
    }

    open spec fn read_spec(stream: Stream, options: OptionsView, args: ()) -> Outcome<u8> {
        match number_at(stream, 1, options.big_endian()) {
            Ok((v, end)) => Ok((v as u8, end)),
            Err(e) => Err(e),
        }
    }

    open spec fn resolve_spec(
        model: u8,
        data: Seq<u8>,
        options: OptionsView,
        args: (),
    ) -> Resolved<u8> {
        Ok(model)
    }

    fn read_options(reader: &mut Cursor, options: &ReadOptions, args: &()) -> (r: BinResult<u8>) {
        proof {
            lemma_pow256_values();
        }
        match read_number(reader, options, 1) {
            Ok(v) => Ok(v as u8),
            Err(e) => Err(e),
        }
    }

    fn after_parse(&mut self, reader: &mut Cursor, options: &ReadOptions, args: &()) -> (r:
        BinResult<()>) {
        Ok(())
    }
}

impl BinRead for u16 {
    type Args = ();

    type Model = u16;

    open spec fn model(&self) -> u16 {
        *self
    }

    open spec fn read_spec(stream: Stream, options: OptionsView, args: ()) -> Outcome<u16> {
        match number_at(stream, 2, options.big_endian()) {
            Ok((v, end)) => Ok((v as u16, end)),
            Err(e) => Err(e),
        }
    }

    open spec fn resolve_spec(
        model: u16,
        data: Seq<u8>,
        options: OptionsView,
        args: (),
    ) -> Resolved<u16> {
        Ok(model)
    }

    fn read_options(reader: &mut Cursor, options: &ReadOptions, args: &()) -> (r: BinResult<u16>) {
        proof {
            lemma_pow256_values();
        }
        match read_number(reader, options, 2) {
            Ok(v) => Ok(v as u16),
            Err(e) => Err(e),
        }
    }

    fn after_parse(&mut self, reader: &mut Cursor, options: &ReadOptions, args: &()) -> (r:
        BinResult<()>) {
        Ok(())
    }
}

impl BinRead for u32 {
    type Args = ();

    type Model = u32;

    open spec fn model(&self) -> u32 {
        *self
    }

    open spec fn read_spec(stream: Stream, options: OptionsView, args: ()) -> Outcome<u32> {
        match number_at(stream, 4, options.big_endian()) {
            Ok((v, end)) => Ok((v as u32, end)),
            Err(e) => Err(e),
        }
    }

    open spec fn resolve_spec(
        model: u32,
        data: Seq<u8>,
        options: OptionsView,
        args: (),
    ) -> Resolved<u32> {
        Ok(model)
    }

    fn read_options(reader: &mut Cursor, options: &ReadOptions, args: &()) -> (r: BinResult<u32>) {
        proof {
            lemma_pow256_values();
        }
        match read_number(reader, options, 4) {
            Ok(v) => Ok(v as u32),
            Err(e) => Err(e),
        }
    }

    fn after_parse(&mut self, reader: &mut Cursor, options: &ReadOptions, args: &()) -> (r:
        BinResult<()>) {
        Ok(())
    }
}

impl BinRead for u64 {
    type Args = ();

    type Model = u64;

    open spec fn model(&self) -> u64 {
        *self
    }

    open spec fn read_spec(stream: Stream, options: OptionsView, args: ()) -> Outcome<u64> {
        match number_at(stream, 8, options.big_endian()) {
            Ok((v, end)) => Ok((v as u64, end)),
            Err(e) => Err(e),
        }
    }

    open spec fn resolve_spec(
        model: u64,
        data: Seq<u8>,
        options: OptionsView,
        args: (),
    ) -> Resolved<u64> {
        Ok(model)
    }

    fn read_options(reader: &mut Cursor, options: &ReadOptions, args: &()) -> (r: BinResult<u64>) {
        proof {
            lemma_pow256_values();
        }
        match read_number(reader, options, 8) {
            Ok(v) => Ok(v as u64),
            Err(e) => Err(e),
        }
    }

    fn after_parse(&mut self, reader: &mut Cursor, options: &ReadOptions, args: &()) -> (r:
        BinResult<()>) {
        Ok(())
    }
}

impl BinRead for u128 {
    type Args = ();

    type Model = u128;

    open spec fn model(&self) -> u128 {
        *self
    }

    open spec fn read_spec(stream: Stream, options: OptionsView, args: ()) -> Outcome<u128> {
        match number_at(stream, 16, options.big_endian()) {
            Ok((v, end)) => Ok((v as u128, end)),
            Err(e) => Err(e),
        }
    }

    open spec fn resolve_spec(
        model: u128,
        data: Seq<u8>,
        options: OptionsView,
        args: (),
    ) -> Resolved<u128> {
        Ok(model)
    }

    fn read_options(reader: &mut Cursor, options: &ReadOptions, args: &()) -> (r: BinResult<u128>) {
        proof {
            lemma_pow256_values();
        }
        match read_number(reader, options, 16) {
            Ok(v) => Ok(v),
            Err(e) => Err(e),
        }
    }

    fn after_parse(&mut self, reader: &mut Cursor, options: &ReadOptions, args: &()) -> (r:
        BinResult<()>) {
        Ok(())
    }
}

impl BinRead for i8 {
    type Args = ();

    type Model = i8;

    open spec fn model(&self) -> i8 {
        *self
    }

    open spec fn read_spec(stream: Stream, options: OptionsView, args: ()) -> Outcome<i8> {
        match number_at(stream, 1, options.big_endian()) {
            Ok((v, end)) => Ok((signed_of(v, 1) as i8, end)),
            Err(e) => Err(e),
        }
    }

    open spec fn resolve_spec(
        model: i8,
        data: Seq<u8>,
        options: OptionsView,
        args: (),
    ) -> Resolved<i8> {
        Ok(model)
    }

    fn read_options(reader: &mut Cursor, options: &ReadOptions, args: &()) -> (r: BinResult<i8>) {
        proof {
            lemma_pow256_values();
        }
        match read_number(reader, options, 1) {
            Ok(v) => Ok(to_signed(v, 1) as i8),
            Err(e) => Err(e),
        }
    }

    fn after_parse(&mut self, reader: &mut Cursor, options: &ReadOptions, args: &()) -> (r:
        BinResult<()>) {
        Ok(())
    }
}

impl BinRead for i16 {
    type Args = ();

    type Model = i16;

    open spec fn model(&self) -> i16 {
        *self
    }

    open spec fn read_spec(stream: Stream, options: OptionsView, args: ()) -> Outcome<i16> {
        match number_at(stream, 2, options.big_endian()) {
            Ok((v, end)) => Ok((signed_of(v, 2) as i16, end)),
            Err(e) => Err(e),
        }
    }

    open spec fn resolve_spec(
        model: i16,
        data: Seq<u8>,
        options: OptionsView,
        args: (),
    ) -> Resolved<i16> {
        Ok(model)
    }

    fn read_options(reader: &mut Cursor, options: &ReadOptions, args: &()) -> (r: BinResult<i16>) {
        proof {
            lemma_pow256_values();
        }
        match read_number(reader, options, 2) {
            Ok(v) => Ok(to_signed(v, 2) as i16),
            Err(e) => Err(e),
        }
    }

    fn after_parse(&mut self, reader: &mut Cursor, options: &ReadOptions, args: &()) -> (r:
        BinResult<()>) {
        Ok(())
    }
}

impl BinRead for i32 {
    type Args = ();

    type Model = i32;

    open spec fn model(&self) -> i32 {
        *self
    }

    open spec fn read_spec(stream: Stream, options: OptionsView, args: ()) -> Outcome<i32> {
        match number_at(stream, 4, options.big_endian()) {
            Ok((v, end)) => Ok((signed_of(v, 4) as i32, end)),
            Err(e) => Err(e),
        }
    }

    open spec fn resolve_spec(
        model: i32,
        data: Seq<u8>,
        options: OptionsView,
        args: (),
    ) -> Resolved<i32> {
        Ok(model)
    }

    fn read_options(reader: &mut Cursor, options: &ReadOptions, args: &()) -> (r: BinResult<i32>) {
        proof {
            lemma_pow256_values();
        }
        match read_number(reader, options, 4) {
            Ok(v) => Ok(to_signed(v, 4) as i32),
            Err(e) => Err(e),
        }
    }

    fn after_parse(&mut self, reader: &mut Cursor, options: &ReadOptions, args: &()) -> (r:
        BinResult<()>) {
        Ok(())
    }
}

impl BinRead for i64 {
    type Args = ();

    type Model = i64;

    open spec fn model(&self) -> i64 {
        *self
    }

    open spec fn read_spec(stream: Stream, options: OptionsView, args: ()) -> Outcome<i64> {
        match number_at(stream, 8, options.big_endian()) {
            Ok((v, end)) => Ok((signed_of(v, 8) as i64, end)),
            Err(e) => Err(e),
        }
    }

    open spec fn resolve_spec(
        model: i64,
        data: Seq<u8>,
        options: OptionsView,
        args: (),
    ) -> Resolved<i64> {
        Ok(model)
    }

    fn read_options(reader: &mut Cursor, options: &ReadOptions, args: &()) -> (r: BinResult<i64>) {
        proof {
            lemma_pow256_values();
        }
        match read_number(reader, options, 8) {
            Ok(v) => Ok(to_signed(v, 8) as i64),
            Err(e) => Err(e),
        }
    }

    fn after_parse(&mut self, reader: &mut Cursor, options: &ReadOptions, args: &()) -> (r:
        BinResult<()>) {
        Ok(())
    }
}

impl BinRead for i128 {
    type Args = ();

    type Model = i128;

    open spec fn model(&self) -> i128 {
        *self
    }

    open spec fn read_spec(stream: Stream, options: OptionsView, args: ()) -> Outcome<i128> {
        match number_at(stream, 16, options.big_endian()) {
            Ok((v, end)) => Ok((signed_of(v, 16) as i128, end)),
            Err(e) => Err(e),
        }
    }

    open spec fn resolve_spec(
        model: i128,
        data: Seq<u8>,
        options: OptionsView,
        args: (),
    ) -> Resolved<i128> {
        Ok(model)
    }

    fn read_options(reader: &mut Cursor, options: &ReadOptions, args: &()) -> (r: BinResult<i128>) {
        proof {
            lemma_pow256_values();
        }
        match read_number(reader, options, 16) {
            Ok(v) => Ok(to_signed(v, 16) as i128),
            Err(e) => Err(e),
        }
    }

    fn after_parse(&mut self, reader: &mut Cursor, options: &ReadOptions, args: &()) -> (r:
        BinResult<()>) {
        Ok(())
    }
}

/// Round trip for `u8`: where the next one byte of a stream encode `x`
/// under the byte order of the context, reading gives `x` and moves past
/// them.
pub proof fn lemma_round_trip_u8(x: u8, stream: Stream, options: OptionsView)
    requires
        stream.take(1) == Some(unsigned_bytes(x as nat, 1, options.big_endian())),
    ensures
        yields(u8::read_spec(stream, options, ()), x, stream.skip(1).pos),
{
    lemma_pow256_values();
    lemma_unsigned_round_trip(x as nat, 1, options.big_endian());
}

/// Round trip for `u16`: where the next two bytes of a stream encode `x`
/// under the byte order of the context, reading gives `x` and moves past
/// them.
pub proof fn lemma_round_trip_u16(x: u16, stream: Stream, options: OptionsView)
    requires
        stream.take(2) == Some(unsigned_bytes(x as nat, 2, options.big_endian())),
    ensures
        yields(u16::read_spec(stream, options, ()), x, stream.skip(2).pos),
{
    lemma_pow256_values();
    lemma_unsigned_round_trip(x as nat, 2, options.big_endian());
}

/// Round trip for `u32`: where the next four bytes of a stream encode `x`
/// under the byte order of the context, reading gives `x` and moves past
/// them.
pub proof fn lemma_round_trip_u32(x: u32, stream: Stream, options: OptionsView)
    requires
        stream.take(4) == Some(unsigned_bytes(x as nat, 4, options.big_endian())),
    ensures
        yields(u32::read_spec(stream, options, ()), x, stream.skip(4).pos),
{
    lemma_pow256_values();
    lemma_unsigned_round_trip(x as nat, 4, options.big_endian());
}

/// Round trip for `u64`: where the next eight bytes of a stream encode `x`
/// under the byte order of the context, reading gives `x` and moves past
/// them.
pub proof fn lemma_round_trip_u64(x: u64, stream: Stream, options: OptionsView)
    requires
        stream.take(8) == Some(unsigned_bytes(x as nat, 8, options.big_endian())),
    ensures
        yields(u64::read_spec(stream, options, ()), x, stream.skip(8).pos),
{
    lemma_pow256_values();
    lemma_unsigned_round_trip(x as nat, 8, options.big_endian());
}

/// Round trip for `u128`: where the next sixteen bytes of a stream encode `x`
/// under the byte order of the context, reading gives `x` and moves past
/// them.
pub proof fn lemma_round_trip_u128(x: u128, stream: Stream, options: OptionsView)
    requires
        stream.take(16) == Some(unsigned_bytes(x as nat, 16, options.big_endian())),
    ensures
        yields(u128::read_spec(stream, options, ()), x, stream.skip(16).pos),
{
    lemma_pow256_values();
    lemma_unsigned_round_trip(x as nat, 16, options.big_endian());
}

/// Round trip for `i8`: where the next one byte of a stream encode `x`
/// under the byte order of the context, reading gives `x` and moves past
/// them.
pub proof fn lemma_round_trip_i8(x: i8, stream: Stream, options: OptionsView)
    requires
        stream.take(1) == Some(unsigned_bytes(unsigned_of(x as int, 1), 1, options.big_endian())),
    ensures
        yields(i8::read_spec(stream, options, ()), x, stream.skip(1).pos),
{
    lemma_pow256_values();
    lemma_signed_round_trip(x as int, 1, options.big_endian());
}

/// Round trip for `i16`: where the next two bytes of a stream encode `x`
/// under the byte order of the context, reading gives `x` and moves past
/// them.
pub proof fn lemma_round_trip_i16(x: i16, stream: Stream, options: OptionsView)
    requires
        stream.take(2) == Some(unsigned_bytes(unsigned_of(x as int, 2), 2, options.big_endian())),
    ensures
        yields(i16::read_spec(stream, options, ()), x, stream.skip(2).pos),
{
    lemma_pow256_values();
    lemma_signed_round_trip(x as int, 2, options.big_endian());
}

/// Round trip for `i32`: where the next four bytes of a stream encode `x`
/// under the byte order of the context, reading gives `x` and moves past
/// them.
pub proof fn lemma_round_trip_i32(x: i32, stream: Stream, options: OptionsView)
    requires
        stream.take(4) == Some(unsigned_bytes(unsigned_of(x as int, 4), 4, options.big_endian())),
    ensures
        yields(i32::read_spec(stream, options, ()), x, stream.skip(4).pos),
{
    lemma_pow256_values();
    lemma_signed_round_trip(x as int, 4, options.big_endian());
}

/// Round trip for `i64`: where the next eight bytes of a stream encode `x`
/// under the byte order of the context, reading gives `x` and moves past
/// them.
pub proof fn lemma_round_trip_i64(x: i64, stream: Stream, options: OptionsView)
    requires
        stream.take(8) == Some(unsigned_bytes(unsigned_of(x as int, 8), 8, options.big_endian())),
    ensures
        yields(i64::read_spec(stream, options, ()), x, stream.skip(8).pos),
{
    lemma_pow256_values();
    lemma_signed_round_trip(x as int, 8, options.big_endian());
}

/// Round trip for `i128`: where the next sixteen bytes of a stream encode `x`
/// under the byte order of the context, reading gives `x` and moves past
/// them.
pub proof fn lemma_round_trip_i128(x: i128, stream: Stream, options: OptionsView)
    requires
        stream.take(16) == Some(unsigned_bytes(unsigned_of(x as int, 16), 16, options.big_endian())),
    ensures
        yields(i128::read_spec(stream, options, ()), x, stream.skip(16).pos),
{
    lemma_pow256_values();
    lemma_signed_round_trip(x as int, 16, options.big_endian());
}

} // verus!
