//! The protocol for characters and for the types that only pass it on.
use vstd::prelude::*;
use std::marker::PhantomData;
use crate::binread::numbers::{number_at, read_number};
use crate::binread::{BinRead, Outcome, Resolved};
use crate::codec::lemma_pow256_values;
use crate::error::BinResult;
use crate::io::{Cursor, Stream};
use crate::options::{OptionsView, ReadOptions};

verus! {

/// A character is one byte, taken as a code point. No multi-byte text
/// decoding is attempted.
impl BinRead for char {
    type Args = ();

    type Model = char;

    open spec fn model(&self) -> char {
        *self
    }

    open spec fn read_spec(stream: Stream, options: OptionsView, args: ()) -> Outcome<char> {
        match number_at(stream, 1, options.big_endian()) {
            Ok((v, end)) => Ok((v as u8 as char, end)),
            Err(e) => Err(e),
        }
    }

    open spec fn resolve_spec(
        model: char,
        data: Seq<u8>,
        options: OptionsView,
        args: (),
    ) -> Resolved<char> {
        Ok(model)
    }

    fn read_options(reader: &mut Cursor, options: &ReadOptions, args: &()) -> (r: BinResult<char>) {
        proof {
            lemma_pow256_values();
        }
        match read_number(reader, options, 1) {
            Ok(v) => {
                let byte: u8 = v as u8;
                Ok(byte as char)
            },
            Err(e) => Err(e),
        }
    }

    fn after_parse(&mut self, reader: &mut Cursor, options: &ReadOptions, args: &()) -> (r:
        BinResult<()>) {
        Ok(())
    }
}

/// Nothing is read for the unit type.
impl BinRead for () {
    type Args = ();

    type Model = ();

    open spec fn model(&self) -> () {
        ()
    }

    open spec fn read_spec(stream: Stream, options: OptionsView, args: ()) -> Outcome<()> {
        Ok(((), stream.pos))
    }

    open spec fn resolve_spec(model: (), data: Seq<u8>, options: OptionsView, args: ()) -> Resolved<
        (),
    > {
        Ok(())
    }

    fn read_options(reader: &mut Cursor, options: &ReadOptions, args: &()) -> (r: BinResult<()>) {
        Ok(())
    }

    fn after_parse(&mut self, reader: &mut Cursor, options: &ReadOptions, args: &()) -> (r:
        BinResult<()>) {
        Ok(())
    }
}

/// Nothing is read for a marker.
impl<T> BinRead for PhantomData<T> {
    type Args = ();

    type Model = ();

    open spec fn model(&self) -> () {
        ()
    }

    open spec fn read_spec(stream: Stream, options: OptionsView, args: ()) -> Outcome<()> {
        Ok(((), stream.pos))
    }

    open spec fn resolve_spec(model: (), data: Seq<u8>, options: OptionsView, args: ()) -> Resolved<
        (),
    > {
        Ok(())
    }

    fn read_options(reader: &mut Cursor, options: &ReadOptions, args: &()) -> (r: BinResult<
        PhantomData<T>,
    >) {
        Ok(PhantomData)
    }

    fn after_parse(&mut self, reader: &mut Cursor, options: &ReadOptions, args: &()) -> (r:
        BinResult<()>) {
        Ok(())
    }
}

/// A boxed value is read as the value.
impl<T: BinRead> BinRead for Box<T> {
    type Args = T::Args;

    type Model = T::Model;

    open spec fn model(&self) -> T::Model {
        (**self).model()
    }

    open spec fn read_spec(stream: Stream, options: OptionsView, args: T::Args) -> Outcome<
        T::Model,
    > {
        T::read_spec(stream, options, args)
    }

    open spec fn resolve_spec(
        model: T::Model,
        data: Seq<u8>,
        options: OptionsView,
        args: T::Args,
    ) -> Resolved<T::Model> {
        T::resolve_spec(model, data, options, args)
    }

    fn read_options(reader: &mut Cursor, options: &ReadOptions, args: &T::Args) -> (r: BinResult<
        Box<T>,
    >) {
        match T::read_options(reader, options, args) {
            Ok(v) => Ok(Box::new(v)),
            Err(e) => Err(e),
        }
    }

    fn after_parse(&mut self, reader: &mut Cursor, options: &ReadOptions, args: &T::Args) -> (r:
        BinResult<()>) {
        (**self).after_parse(reader, options, args)
    }
}

} // verus!
