//! The two-phase protocol by which every value is read.
//!
//! Phase one, [`BinRead::read_options`], reads what stands at the position of
//! the stream. Phase two, [`BinRead::after_parse`], runs when phase one of the
//! whole value is done, and does what had to wait for that: it follows
//! pointers. Phase two leaves the position of the stream where it found it.
use vstd::prelude::*;
use crate::error::{BinResult, ErrorView};
use crate::io::{Cursor, Stream};
use crate::endian::Endian;
use crate::options::{OptionValue, OptionsView, ReadOptions};

pub mod arrays;
pub mod impls;
pub mod numbers;
pub mod tuples;

verus! {

/// What phase one comes to: what was read and where the stream then stands,
/// or the failure.
pub type Outcome<M> = Result<(M, u64), ErrorView>;

/// What phase two comes to: the value with its pointers followed, or the
/// failure.
pub type Resolved<M> = Result<M, ErrorView>;

/// Phase one gave `model` and left the stream at `end`.
pub open spec fn yields<M>(outcome: Outcome<M>, model: M, end: u64) -> bool {
    outcome matches Ok(got) && got == (model, end)
}

/// Phase one failed with `error`.
pub open spec fn fails<M>(outcome: Outcome<M>, error: ErrorView) -> bool {
    outcome matches Err(e) && e == error
}

/// Phase two gave `model`.
pub open spec fn resolves_to<M>(resolved: Resolved<M>, model: M) -> bool {
    resolved matches Ok(got) && got == model
}

/// Phase two failed with `error`.
pub open spec fn resolve_fails<M>(resolved: Resolved<M>, error: ErrorView) -> bool {
    resolved matches Err(e) && e == error
}

/// The models of a run of values, in order.
pub open spec fn models<T: BinRead>(items: Seq<T>) -> Seq<T::Model> {
    Seq::new(items.len(), |i: int| items[i].model())
}

/// A value that can be read from a stream.
///
/// The two specification functions say what the two phases compute, as
/// functions of the bytes of the stream, the position, the context and the
/// arguments. The two methods are held to them.
pub trait BinRead: Sized {
    /// What a read of this type has to be told; `()` where nothing.
    type Args;

    /// The value as contracts see it.
    type Model;

    /// The value as contracts see it.
    spec fn model(&self) -> Self::Model;

    /// Phase one: what is read from `stream`, and where the stream then
    /// stands.
    spec fn read_spec(stream: Stream, options: OptionsView, args: Self::Args) -> Outcome<
        Self::Model,
    >;

    /// Phase two: the value that phase one gave, with its pointers followed in
    /// `data`.
    spec fn resolve_spec(
        model: Self::Model,
        data: Seq<u8>,
        options: OptionsView,
        args: Self::Args,
    ) -> Resolved<Self::Model>;

    /// Reads a value at the position of the stream.
    fn read_options(reader: &mut Cursor, options: &ReadOptions, args: &Self::Args) -> (r:
        BinResult<Self>)
        ensures
            final(reader)@.data == old(reader)@.data,
            r matches Ok(v) ==> yields(
                Self::read_spec(old(reader)@, options@, *args),
                v.model(),
                final(reader)@.pos,
            ),
            r matches Err(e) ==> fails(Self::read_spec(old(reader)@, options@, *args), e@),
    ;

    /// Follows the pointers of a value that phase one gave. Whether that
    /// succeeds or fails, the stream then stands where it stood.
    fn after_parse(&mut self, reader: &mut Cursor, options: &ReadOptions, args: &Self::Args) -> (r:
        BinResult<()>)
        ensures
            final(reader)@ == old(reader)@,
            r is Ok ==> resolves_to(
                Self::resolve_spec(old(self).model(), old(reader)@.data, options@, *args),
                final(self).model(),
            ),
            r matches Err(e) ==> resolve_fails(
                Self::resolve_spec(old(self).model(), old(reader)@.data, options@, *args),
                e@,
            ),
    ;
}

/// A result of phase one agrees with what phase one comes to, and the stream
/// stands at `end`.
pub open spec fn read_agrees<T: BinRead>(r: BinResult<T>, outcome: Outcome<T::Model>, end: u64)
    -> bool {
    match r {
        Ok(v) => yields(outcome, v.model(), end),
        Err(e) => fails(outcome, e@),
    }
}

/// Both phases on the value at the position of a stream: what is read, with
/// its pointers followed, and where phase one left the stream.
pub open spec fn read_fully_spec<T: BinRead>(stream: Stream, options: OptionsView, args: T::Args)
    -> Outcome<T::Model> {
    match T::read_spec(stream, options, args) {
        Err(e) => Err(e),
        Ok((unresolved, end)) => match T::resolve_spec(unresolved, stream.data, options, args) {
            Err(e) => Err(e),
            Ok(model) => Ok((model, end)),
        },
    }
}

/// The context that the entry points start from, on a machine that is
/// little-endian if `native_little`: the initial context with a byte order on
/// top.
pub open spec fn entry_options(endian: Endian, native_little: bool) -> OptionsView {
    OptionsView::initial(native_little).insert(OptionValue::Endian(endian))
}

/// Reads a whole value: phase one, then phase two. Where phase one succeeds
/// the stream stands where phase one left it, behind the value, whatever
/// becomes of phase two.
pub fn read_fully<T: BinRead>(reader: &mut Cursor, options: &ReadOptions, args: &T::Args) -> (r:
    BinResult<T>)
    ensures
        final(reader)@.data == old(reader)@.data,
        read_agrees(
            r,
            read_fully_spec::<T>(old(reader)@, options@, *args),
            final(reader)@.pos,
        ),
        T::read_spec(old(reader)@, options@, *args) matches Ok(read) ==> final(reader)@.pos
            == read.1,
{
    let mut value: T = match T::read_options(reader, options, args) {
        Ok(v) => v,
        Err(e) => {
            return Err(e);
        },
    };
    match value.after_parse(reader, options, args) {
        Ok(()) => Ok(value),
        Err(e) => Err(e),
    }
}

/// Reading whole values from the initial context, for every type that can
/// be read. Which byte order the machine has, the machine decides.
pub trait BinReadExt: BinRead {
    /// Reads a whole value that has to be told nothing, in both phases,
    /// under the native byte order.
    fn read(reader: &mut Cursor) -> (r: BinResult<Self>) where Self: BinRead<Args = ()>
        ensures
            final(reader)@.data == old(reader)@.data,
            exists|native_little: bool|
                read_agrees(
                    r,
                    read_fully_spec::<Self>(
                        old(reader)@,
                        #[trigger] OptionsView::initial(native_little),
                        (),
                    ),
                    final(reader)@.pos,
                ),
    ;

    /// Reads a whole value that is told `args`, in both phases, under the
    /// native byte order.
    fn read_args(reader: &mut Cursor, args: &Self::Args) -> (r: BinResult<Self>)
        ensures
            final(reader)@.data == old(reader)@.data,
            exists|native_little: bool|
                read_agrees(
                    r,
                    read_fully_spec::<Self>(
                        old(reader)@,
                        #[trigger] OptionsView::initial(native_little),
                        *args,
                    ),
                    final(reader)@.pos,
                ),
    ;
}

impl<T: BinRead> BinReadExt for T {
    fn read(reader: &mut Cursor) -> (r: BinResult<Self>) where Self: BinRead<Args = ()> {
        let options: ReadOptions = ReadOptions::default();
        read_fully::<Self>(reader, &options, &())
    }

    fn read_args(reader: &mut Cursor, args: &Self::Args) -> (r: BinResult<Self>) {
        let options: ReadOptions = ReadOptions::default();
        read_fully::<Self>(reader, &options, args)
    }
}

/// Reading whole values straight from a stream, without making a context by
/// hand. Which byte order the machine has, the machine decides.
pub trait BinReaderExt: View<V = Stream> {
    /// Reads a whole value, in both phases, under a byte order.
    fn read_type<T: BinRead<Args = ()>>(&mut self, endian: Endian) -> (r: BinResult<T>)
        ensures
            final(self)@.data == old(self)@.data,
            exists|native_little: bool|
                read_agrees(
                    r,
                    read_fully_spec::<T>(
                        old(self)@,
                        #[trigger] entry_options(endian, native_little),
                        (),
                    ),
                    final(self)@.pos,
                ),
    ;

    /// Reads a whole value, big-endian.
    fn read_be<T: BinRead<Args = ()>>(&mut self) -> (r: BinResult<T>)
        ensures
            final(self)@.data == old(self)@.data,
            exists|native_little: bool|
                read_agrees(
                    r,
                    read_fully_spec::<T>(
                        old(self)@,
                        #[trigger] entry_options(Endian::Big, native_little),
                        (),
                    ),
                    final(self)@.pos,
                ),
    ;

    /// Reads a whole value, little-endian.
    fn read_le<T: BinRead<Args = ()>>(&mut self) -> (r: BinResult<T>)
        ensures
            final(self)@.data == old(self)@.data,
            exists|native_little: bool|
                read_agrees(
                    r,
                    read_fully_spec::<T>(
                        old(self)@,
                        #[trigger] entry_options(Endian::Little, native_little),
                        (),
                    ),
                    final(self)@.pos,
                ),
    ;

    /// Reads a whole value under the byte order of the machine.
    fn read_ne<T: BinRead<Args = ()>>(&mut self) -> (r: BinResult<T>)
        ensures
            final(self)@.data == old(self)@.data,
            exists|native_little: bool|
                read_agrees(
                    r,
                    read_fully_spec::<T>(
                        old(self)@,
                        #[trigger] entry_options(Endian::Native, native_little),
                        (),
                    ),
                    final(self)@.pos,
                ),
    ;
}

impl BinReaderExt for Cursor {
    fn read_type<T: BinRead<Args = ()>>(&mut self, endian: Endian) -> (r: BinResult<T>) {
        let options: ReadOptions = ReadOptions::default().insert(OptionValue::Endian(endian));
        assert(options@ == entry_options(endian, options@.native_little));
        read_fully::<T>(self, &options, &())
    }

    fn read_be<T: BinRead<Args = ()>>(&mut self) -> (r: BinResult<T>) {
        self.read_type(Endian::Big)
    }

    fn read_le<T: BinRead<Args = ()>>(&mut self) -> (r: BinResult<T>) {
        self.read_type(Endian::Little)
    }

    fn read_ne<T: BinRead<Args = ()>>(&mut self) -> (r: BinResult<T>) {
        self.read_type(Endian::Native)
    }
}

} // verus!
