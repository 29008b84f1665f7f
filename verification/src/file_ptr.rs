//! Pointers: an offset that was read from the stream, and the value that
//! stands at that offset.
//!
//! Phase one reads the offset only. Phase two goes to where the offset
//! points, reads the value there in both its phases, and comes back. An
//! absolute pointer counts from the start of the stream, a relative one from
//! the base offset of the context. A pointer that leads before the start of
//! the stream, or past the last position that can be written down, fails
//! phase two with an invalid seek.
use vstd::prelude::*;
use crate::binread::{
    fails, read_fully, read_fully_spec, resolve_fails, resolves_to, yields, BinRead, Outcome,
    Resolved,
};
use crate::error::{BinResult, Error, ErrorView};
use crate::io::{Cursor, IoError, SeekFrom, Stream};
use crate::options::{OptionsView, ReadOptions, ReadOptionsExt};

verus! {

/// The relative seek that moves by `offset`, where there is one.
pub open spec fn seek_by(offset: int) -> Option<SeekFrom> {
    if i64::MIN <= offset <= i64::MAX {
        Some(SeekFrom::Current(offset as i64))
    } else {
        None
    }
}

/// Where a pointer of `offset` leads that counts from `base`, if anywhere.
pub open spec fn pointer_target(base: u64, offset: int) -> Option<u64> {
    if i64::MIN <= offset <= i64::MAX && 0 <= base + offset <= u64::MAX {
        Some((base + offset) as u64)
    } else {
        None
    }
}

/// The value that stands at `target`, read in both phases.
pub open spec fn place_spec<BR: BinRead>(
    data: Seq<u8>,
    options: OptionsView,
    target: u64,
    args: BR::Args,
) -> Resolved<BR::Model> {
    match BR::read_spec(Stream { data, pos: target }, options, args) {
        Err(e) => Err(e),
        Ok((model, _)) => BR::resolve_spec(model, data, options, args),
    }
}

/// A value that was placed: `None` before phase two, the value after.
pub open spec fn placed<M>(value: Resolved<M>) -> Resolved<Option<M>> {
    match value {
        Ok(v) => Ok(Some(v)),
        Err(e) => Err(e),
    }
}

/// The value that stands at `args.0` counted from `base`.
pub open spec fn place_from<BR: BinRead>(
    data: Seq<u8>,
    options: OptionsView,
    base: u64,
    args: (u64, BR::Args),
) -> Resolved<Option<BR::Model>> {
    if base + args.0 <= u64::MAX {
        placed(place_spec::<BR>(data, options, (base + args.0) as u64, args.1))
    } else {
        Err(ErrorView::Io(IoError::InvalidSeek))
    }
}

/// Goes to `target`, reads the value there in both phases, and comes back,
/// whether the value could be read or not.
pub fn place<BR: BinRead>(
    reader: &mut Cursor,
    options: &ReadOptions,
    target: u64,
    args: &BR::Args,
) -> (r: BinResult<BR>)
    ensures
        final(reader)@ == old(reader)@,
        r matches Ok(v) ==> resolves_to(
            place_spec::<BR>(old(reader)@.data, options@, target, *args),
            v.model(),
        ),
        r matches Err(e) ==> resolve_fails(
            place_spec::<BR>(old(reader)@.data, options@, target, *args),
            e@,
        ),
{
    let before: u64 = reader.position();
    reader.set_position(target);
    let read: BinResult<BR> = read_fully::<BR>(reader, options, args);
    reader.set_position(before);
    read
}

/// A value at a place that the caller names, counted from the start of the
/// stream.
pub struct AbsPlacement<BR> {
    value: Option<BR>,
}

impl<BR> View for AbsPlacement<BR> {
    type V = Option<BR>;

    /// The value, once phase two has run.
    closed spec fn view(&self) -> Option<BR> {
        self.value
    }
}

impl<BR> AbsPlacement<BR> {
    /// A placement whose value is not read yet.
    pub fn unread() -> (r: Self)
        ensures
            r@ is None,
    {
        AbsPlacement { value: None }
    }

    /// Puts the value in its place.
    pub(crate) fn set(&mut self, value: BR)
        ensures
            final(self)@ == Some(value),
    {
        self.value = Some(value);
    }

    /// The value, if phase two has run.
    pub fn get(&self) -> (r: Option<&BR>)
        ensures
            match r {
                Some(v) => self@ == Some(*v),
                None => self@ is None,
            },
    {
        self.value.as_ref()
    }

    /// The value. Phase two must have run.
    pub fn deref_impl(&self) -> (r: &BR)
        requires
            self@ is Some,
        ensures
            self@ == Some(*r),
    {
        self.value.as_ref().unwrap()
    }

    /// The value, to change. Phase two must have run.
    pub fn deref_mut_impl(&mut self) -> (r: &mut BR)
        requires
            old(self)@ is Some,
        ensures
            old(self)@ == Some(*r),
            final(self)@ == Some(*final(r)),
    {
        self.value.as_mut().unwrap()
    }

    /// The value. Phase two must have run.
    pub fn deref(&self) -> (r: &BR)
        requires
            self@ is Some,
        ensures
            self@ == Some(*r),
    {
        self.deref_impl()
    }

    /// The value, to change. Phase two must have run.
    pub fn deref_mut(&mut self) -> (r: &mut BR)
        requires
            old(self)@ is Some,
        ensures
            old(self)@ == Some(*r),
            final(self)@ == Some(*final(r)),
    {
        self.deref_mut_impl()
    }

    /// Gives the value up. Phase two must have run.
    pub fn into_inner(self) -> (r: BR)
        requires
            self@ is Some,
        ensures
            self@ == Some(r),
    {
        self.value.unwrap()
    }
}

impl<BR: BinRead> AbsPlacement<BR> {
    /// Reads the value at `args.0` in both phases and hands it over. The
    /// stream ends where it stood.
    pub fn parse(reader: &mut Cursor, options: &ReadOptions, args: &(u64, BR::Args)) -> (r:
        BinResult<BR>)
        ensures
            final(reader)@ == old(reader)@,
            r matches Ok(v) ==> resolves_to(
                place_spec::<BR>(old(reader)@.data, options@, args.0, args.1),
                v.model(),
            ),
            r matches Err(e) ==> resolve_fails(
                place_spec::<BR>(old(reader)@.data, options@, args.0, args.1),
                e@,
            ),
    {
        let mut placement: Self = match Self::read_options(reader, options, args) {
            Ok(p) => p,
            Err(e) => {
                return Err(e);
            },
        };
        let saved_pos: u64 = reader.position();
        match placement.after_parse(reader, options, args) {
            Ok(()) => {},
            Err(e) => {
                return Err(e);
            },
        }
        reader.set_position(saved_pos);
        Ok(placement.into_inner())
    }
}

/// What a placement is as contracts see it.
pub open spec fn option_model<BR: BinRead>(value: Option<BR>) -> Option<BR::Model> {
    match value {
        Some(v) => Some(v.model()),
        None => None,
    }
}

impl<BR: BinRead> BinRead for AbsPlacement<BR> {
    /// The place, and what the value has to be told.
    type Args = (u64, BR::Args);

    type Model = Option<BR::Model>;

    open spec fn model(&self) -> Option<BR::Model> {
        option_model(self@)
    }

    open spec fn read_spec(stream: Stream, options: OptionsView, args: (u64, BR::Args)) -> Outcome<
        Option<BR::Model>,
    > {
        Ok((None, stream.pos))
    }

    open spec fn resolve_spec(
        model: Option<BR::Model>,
        data: Seq<u8>,
        options: OptionsView,
        args: (u64, BR::Args),
    ) -> Resolved<Option<BR::Model>> {
        place_from::<BR>(data, options, 0, args)
    }

    fn read_options(reader: &mut Cursor, options: &ReadOptions, args: &(u64, BR::Args)) -> (r:
        BinResult<Self>) {
        Ok(AbsPlacement { value: None })
    }

    fn after_parse(&mut self, reader: &mut Cursor, options: &ReadOptions, args: &(
        u64,
        BR::Args,
    )) -> (r: BinResult<()>)
        ensures
            r is Err ==> final(self)@ == old(self)@,
    {
        match place::<BR>(reader, options, args.0, &args.1) {
            Ok(inner) => {
                self.value = Some(inner);
                Ok(())
            },
            Err(e) => Err(e),
        }
    }
}

/// A value at a place that the caller names, counted from the base offset of
/// the context.
pub struct RelPlacement<BR> {
    inner: AbsPlacement<BR>,
}

impl<BR> View for RelPlacement<BR> {
    type V = Option<BR>;

    /// The value, once phase two has run.
    closed spec fn view(&self) -> Option<BR> {
        self.inner@
    }
}

impl<BR> RelPlacement<BR> {
    /// A placement whose value is not read yet.
    pub fn unread() -> (r: Self)
        ensures
            r@ is None,
    {
        RelPlacement { inner: AbsPlacement::unread() }
    }

    /// Puts the value in its place.
    pub(crate) fn set(&mut self, value: BR)
        ensures
            final(self)@ == Some(value),
    {
        self.inner.set(value);
    }

    /// The value, if phase two has run.
    pub fn get(&self) -> (r: Option<&BR>)
        ensures
            match r {
                Some(v) => self@ == Some(*v),
                None => self@ is None,
            },
    {
        self.inner.get()
    }

    /// The value. Phase two must have run.
    pub fn deref(&self) -> (r: &BR)
        requires
            self@ is Some,
        ensures
            self@ == Some(*r),
    {
        self.inner.deref_impl()
    }

    /// The value, to change. Phase two must have run.
    pub fn deref_mut(&mut self) -> (r: &mut BR)
        requires
            old(self)@ is Some,
        ensures
            old(self)@ == Some(*r),
            final(self)@ == Some(*final(r)),
    {
        self.inner.deref_mut_impl()
    }

    /// Gives the value up. Phase two must have run.
    pub fn into_inner(self) -> (r: BR)
        requires
            self@ is Some,
        ensures
            self@ == Some(r),
    {
        self.inner.into_inner()
    }
}

impl<BR: BinRead> BinRead for RelPlacement<BR> {
    /// The place, and what the value has to be told.
    type Args = (u64, BR::Args);

    type Model = Option<BR::Model>;

    open spec fn model(&self) -> Option<BR::Model> {
        option_model(self@)
    }

    open spec fn read_spec(stream: Stream, options: OptionsView, args: (u64, BR::Args)) -> Outcome<
        Option<BR::Model>,
    > {
        Ok((None, stream.pos))
    }

    open spec fn resolve_spec(
        model: Option<BR::Model>,
        data: Seq<u8>,
        options: OptionsView,
        args: (u64, BR::Args),
    ) -> Resolved<Option<BR::Model>> {
        place_from::<BR>(data, options, options.offset, args)
    }

    fn read_options(reader: &mut Cursor, options: &ReadOptions, args: &(u64, BR::Args)) -> (r:
        BinResult<Self>) {
        Ok(RelPlacement { inner: AbsPlacement { value: None } })
    }

    fn after_parse(&mut self, reader: &mut Cursor, options: &ReadOptions, args: &(
        u64,
        BR::Args,
    )) -> (r: BinResult<()>)
        ensures
            r is Err ==> final(self)@ == old(self)@,
    {
        let base: u64 = options.offset();
        if args.0 > u64::MAX - base {
            return Err(Error::Io(IoError::InvalidSeek));
        }
        match place::<BR>(reader, options, base + args.0, &args.1) {
            Ok(inner) => {
                self.inner.set(inner);
                Ok(())
            },
            Err(e) => Err(e),
        }
    }
}

/// A type whose values can serve as the offset of a pointer.
pub trait IntoSeekFrom: BinRead<Args = ()> + Copy {
    /// The offset that a value stands for.
    spec fn offset_spec(model: Self::Model) -> int;

    /// The relative seek that moves by the offset; none where the offset is
    /// beyond what a seek can move by.
    fn into_seek_from(self) -> (r: Option<SeekFrom>)
        ensures
            r == seek_by(Self::offset_spec(self.model())),
    ;
}

/// A pointer as contracts see it: the offset as read, and the value it
/// points to once phase two has run.
pub struct FilePtrModel<PM, BM> {
    pub ptr: PM,
    pub value: Option<BM>,
}

/// Phase one of a pointer: the offset is read, the value is not.
pub open spec fn pointer_read_spec<Ptr: IntoSeekFrom, BR: BinRead>(
    stream: Stream,
    options: OptionsView,
) -> Outcome<FilePtrModel<Ptr::Model, BR::Model>> {
    match Ptr::read_spec(stream, options, ()) {
        Err(e) => Err(e),
        Ok((ptr, end)) => Ok((FilePtrModel { ptr, value: None }, end)),
    }
}

/// Phase two of a pointer that counts from `base`: phase two of the offset,
/// then the value that stands where the offset leads.
pub open spec fn pointer_resolve_spec<Ptr: IntoSeekFrom, BR: BinRead>(
    model: FilePtrModel<Ptr::Model, BR::Model>,
    data: Seq<u8>,
    options: OptionsView,
    base: u64,
    args: BR::Args,
) -> Resolved<FilePtrModel<Ptr::Model, BR::Model>> {
    match Ptr::resolve_spec(model.ptr, data, options, ()) {
        Err(e) => Err(e),
        Ok(ptr) => match pointer_target(base, Ptr::offset_spec(ptr)) {
            None => Err(ErrorView::Io(IoError::InvalidSeek)),
            Some(target) => match place_spec::<BR>(data, options, target, args) {
                Err(e) => Err(e),
                Ok(value) => Ok(FilePtrModel { ptr, value: Some(value) }),
            },
        },
    }
}

/// Phase two of a pointer that counts from `base`.
fn resolve_pointer<Ptr: IntoSeekFrom, BR: BinRead>(
    ptr: &mut Ptr,
    reader: &mut Cursor,
    options: &ReadOptions,
    base: u64,
    args: &BR::Args,
) -> (r: BinResult<BR>)
    ensures
        final(reader)@ == old(reader)@,
        r matches Ok(v) ==> resolves_to(
            pointer_resolve_spec::<Ptr, BR>(
                FilePtrModel { ptr: old(ptr).model(), value: None },
                old(reader)@.data,
                options@,
                base,
                *args,
            ),
            FilePtrModel { ptr: final(ptr).model(), value: Some(v.model()) },
        ),
        r matches Err(e) ==> resolve_fails(
            pointer_resolve_spec::<Ptr, BR>(
                FilePtrModel { ptr: old(ptr).model(), value: None },
                old(reader)@.data,
                options@,
                base,
                *args,
            ),
            e@,
        ),
{
    match ptr.after_parse(reader, options, &()) {
        Ok(()) => {},
        Err(e) => {
            return Err(e);
        },
    }
    let before: u64 = reader.position();
    let seek: SeekFrom = match (*ptr).into_seek_from() {
        Some(s) => s,
        None => {
            return Err(Error::Io(IoError::InvalidSeek));
        },
    };
    reader.set_position(base);
    let target: Result<u64, IoError> = reader.seek(seek);
    reader.set_position(before);
    match target {
        Ok(t) => place::<BR>(reader, options, t, args),
        Err(e) => Err(Error::Io(e)),
    }
}

/// A pointer that counts from the start of the stream.
pub struct AbsFilePtr<Ptr, BR> {
    pub ptr: Ptr,
    inner: AbsPlacement<BR>,
}

impl<Ptr, BR> View for AbsFilePtr<Ptr, BR> {
    type V = Option<BR>;

    /// The value that the pointer points to, once phase two has run.
    closed spec fn view(&self) -> Option<BR> {
        self.inner@
    }
}

impl<Ptr, BR> AbsFilePtr<Ptr, BR> {
    /// The offset as it was read.
    pub closed spec fn pointer(&self) -> Ptr {
        self.ptr
    }

    /// The value, if phase two has run.
    pub fn get(&self) -> (r: Option<&BR>)
        ensures
            match r {
                Some(v) => self@ == Some(*v),
                None => self@ is None,
            },
    {
        self.inner.get()
    }

    /// The value. Phase two must have run.
    pub fn deref(&self) -> (r: &BR)
        requires
            self@ is Some,
        ensures
            self@ == Some(*r),
    {
        self.inner.deref()
    }

    /// The value, to change. Phase two must have run.
    pub fn deref_mut(&mut self) -> (r: &mut BR)
        requires
            old(self)@ is Some,
        ensures
            old(self)@ == Some(*r),
            final(self)@ == Some(*final(r)),
            final(self).pointer() == old(self).pointer(),
    {
        self.inner.deref_mut()
    }

    /// Gives the value up. Phase two must have run.
    pub fn into_inner(self) -> (r: BR)
        requires
            self@ is Some,
        ensures
            self@ == Some(r),
    {
        self.inner.into_inner()
    }
}

impl<Ptr: Copy, BR> AbsFilePtr<Ptr, BR> {
    /// The offset as it was read.
    pub fn ptr(&self) -> (r: Ptr)
        ensures
            r == self.pointer(),
    {
        self.ptr
    }
}

impl<Ptr: IntoSeekFrom, BR: BinRead> AbsFilePtr<Ptr, BR> {
    /// Reads a pointer and at once the value that it points to, and hands
    /// the value over. The stream ends behind the pointer.
    pub fn parse(reader: &mut Cursor, options: &ReadOptions, args: &BR::Args) -> (r: BinResult<BR>)
        ensures
            final(reader)@.data == old(reader)@.data,
            match pointer_read_spec::<Ptr, BR>(old(reader)@, options@) {
                Err(e) => r is Err && r->Err_0@ == e,
                Ok((unread, end)) => final(reader)@.pos == end && match pointer_resolve_spec::<
                    Ptr,
                    BR,
                >(unread, old(reader)@.data, options@, 0, *args) {
                    Err(e) => r is Err && r->Err_0@ == e,
                    Ok(read) => r is Ok && read.value == Some(r->Ok_0.model()),
                },
            },
    {
        let mut ptr: Self = match Self::read_options(reader, options, args) {
            Ok(p) => p,
            Err(e) => {
                return Err(e);
            },
        };
        let saved_pos: u64 = reader.position();
        match ptr.after_parse(reader, options, args) {
            Ok(()) => {},
            Err(e) => {
                return Err(e);
            },
        }
        reader.set_position(saved_pos);
        Ok(ptr.into_inner())
    }
}

impl<Ptr: IntoSeekFrom, BR: BinRead> BinRead for AbsFilePtr<Ptr, BR> {
    /// What the value has to be told.
    type Args = BR::Args;

    type Model = FilePtrModel<Ptr::Model, BR::Model>;

    open spec fn model(&self) -> FilePtrModel<Ptr::Model, BR::Model> {
        FilePtrModel { ptr: self.pointer().model(), value: option_model(self@) }
    }

    open spec fn read_spec(stream: Stream, options: OptionsView, args: BR::Args) -> Outcome<
        FilePtrModel<Ptr::Model, BR::Model>,
    > {
        pointer_read_spec::<Ptr, BR>(stream, options)
    }

    open spec fn resolve_spec(
        model: FilePtrModel<Ptr::Model, BR::Model>,
        data: Seq<u8>,
        options: OptionsView,
        args: BR::Args,
    ) -> Resolved<FilePtrModel<Ptr::Model, BR::Model>> {
        pointer_resolve_spec::<Ptr, BR>(model, data, options, 0, args)
    }

    fn read_options(reader: &mut Cursor, options: &ReadOptions, args: &BR::Args) -> (r: BinResult<
        Self,
    >) {
        match Ptr::read_options(reader, options, &()) {
            Ok(ptr) => Ok(AbsFilePtr { ptr, inner: AbsPlacement::unread() }),
            Err(e) => Err(e),
        }
    }

    fn after_parse(&mut self, reader: &mut Cursor, options: &ReadOptions, args: &BR::Args) -> (r:
        BinResult<()>)
        ensures
            r is Err ==> final(self)@ == old(self)@ && final(self).pointer() == old(self).pointer(),
    {
        let mut ptr: Ptr = self.ptr;
        match resolve_pointer::<Ptr, BR>(&mut ptr, reader, options, 0, args) {
            Ok(value) => {
                self.ptr = ptr;
                self.inner.set(value);
                Ok(())
            },
            Err(e) => Err(e),
        }
    }
}

/// A pointer that counts from the base offset of the context.
pub struct RelFilePtr<Ptr, BR> {
    pub ptr: Ptr,
    inner: RelPlacement<BR>,
}

impl<Ptr, BR> View for RelFilePtr<Ptr, BR> {
    type V = Option<BR>;

    /// The value that the pointer points to, once phase two has run.
    closed spec fn view(&self) -> Option<BR> {
        self.inner@
    }
}

impl<Ptr, BR> RelFilePtr<Ptr, BR> {
    /// The offset as it was read.
    pub closed spec fn pointer(&self) -> Ptr {
        self.ptr
    }

    /// The value, if phase two has run.
    pub fn get(&self) -> (r: Option<&BR>)
        ensures
            match r {
                Some(v) => self@ == Some(*v),
                None => self@ is None,
            },
    {
        self.inner.get()
    }

    /// The value. Phase two must have run.
    pub fn deref(&self) -> (r: &BR)
        requires
            self@ is Some,
        ensures
            self@ == Some(*r),
    {
        self.inner.deref()
    }

    /// The value, to change. Phase two must have run.
    pub fn deref_mut(&mut self) -> (r: &mut BR)
        requires
            old(self)@ is Some,
        ensures
            old(self)@ == Some(*r),
            final(self)@ == Some(*final(r)),
            final(self).pointer() == old(self).pointer(),
    {
        self.inner.deref_mut()
    }

    /// Gives the value up. Phase two must have run.
    pub fn into_inner(self) -> (r: BR)
        requires
            self@ is Some,
        ensures
            self@ == Some(r),
    {
        self.inner.into_inner()
    }
}

impl<Ptr: Copy, BR> RelFilePtr<Ptr, BR> {
    /// The offset as it was read.
    pub fn ptr(&self) -> (r: Ptr)
        ensures
            r == self.pointer(),
    {
        self.ptr
    }
}

impl<Ptr: IntoSeekFrom, BR: BinRead> RelFilePtr<Ptr, BR> {
    /// Reads a pointer and at once the value that it points to, and hands
    /// the value over. The stream ends behind the pointer.
    pub fn parse(reader: &mut Cursor, options: &ReadOptions, args: &BR::Args) -> (r: BinResult<BR>)
        ensures
            final(reader)@.data == old(reader)@.data,
            match pointer_read_spec::<Ptr, BR>(old(reader)@, options@) {
                Err(e) => r is Err && r->Err_0@ == e,
                Ok((unread, end)) => final(reader)@.pos == end && match pointer_resolve_spec::<
                    Ptr,
                    BR,
                >(unread, old(reader)@.data, options@, options@.offset, *args) {
                    Err(e) => r is Err && r->Err_0@ == e,
                    Ok(read) => r is Ok && read.value == Some(r->Ok_0.model()),
                },
            },
    {
        let mut ptr: Self = match Self::read_options(reader, options, args) {
            Ok(p) => p,
            Err(e) => {
                return Err(e);
            },
        };
        let saved_pos: u64 = reader.position();
        match ptr.after_parse(reader, options, args) {
            Ok(()) => {},
            Err(e) => {
                return Err(e);
            },
        }
        reader.set_position(saved_pos);
        Ok(ptr.into_inner())
    }
}

impl<Ptr: IntoSeekFrom, BR: BinRead> BinRead for RelFilePtr<Ptr, BR> {
    /// What the value has to be told.
    type Args = BR::Args;

    type Model = FilePtrModel<Ptr::Model, BR::Model>;

    open spec fn model(&self) -> FilePtrModel<Ptr::Model, BR::Model> {
        FilePtrModel { ptr: self.pointer().model(), value: option_model(self@) }
    }

    open spec fn read_spec(stream: Stream, options: OptionsView, args: BR::Args) -> Outcome<
        FilePtrModel<Ptr::Model, BR::Model>,
    > {
        pointer_read_spec::<Ptr, BR>(stream, options)
    }

    open spec fn resolve_spec(
        model: FilePtrModel<Ptr::Model, BR::Model>,
        data: Seq<u8>,
        options: OptionsView,
        args: BR::Args,
    ) -> Resolved<FilePtrModel<Ptr::Model, BR::Model>> {
        pointer_resolve_spec::<Ptr, BR>(model, data, options, options.offset, args)
    }

    fn read_options(reader: &mut Cursor, options: &ReadOptions, args: &BR::Args) -> (r: BinResult<
        Self,
    >) {
        match Ptr::read_options(reader, options, &()) {
            Ok(ptr) => Ok(RelFilePtr { ptr, inner: RelPlacement::unread() }),
            Err(e) => Err(e),
        }
    }

    fn after_parse(&mut self, reader: &mut Cursor, options: &ReadOptions, args: &BR::Args) -> (r:
        BinResult<()>)
        ensures
            r is Err ==> final(self)@ == old(self)@ && final(self).pointer() == old(self).pointer(),
    {
        let mut ptr: Ptr = self.ptr;
        match resolve_pointer::<Ptr, BR>(&mut ptr, reader, options, options.offset(), args) {
            Ok(value) => {
                self.ptr = ptr;
                self.inner.set(value);
                Ok(())
            },
            Err(e) => Err(e),
        }
    }
}

impl IntoSeekFrom for i8 {
    open spec fn offset_spec(model: i8) -> int {
        model as int
    }

    fn into_seek_from(self) -> (r: Option<SeekFrom>) {
        Some(SeekFrom::Current(self as i64))
    }
}

impl IntoSeekFrom for i16 {
    open spec fn offset_spec(model: i16) -> int {
        model as int
    }

    fn into_seek_from(self) -> (r: Option<SeekFrom>) {
        Some(SeekFrom::Current(self as i64))
    }
}

impl IntoSeekFrom for i32 {
    open spec fn offset_spec(model: i32) -> int {
        model as int
    }

    fn into_seek_from(self) -> (r: Option<SeekFrom>) {
        Some(SeekFrom::Current(self as i64))
    }
}

impl IntoSeekFrom for i64 {
    open spec fn offset_spec(model: i64) -> int {
        model as int
    }

    fn into_seek_from(self) -> (r: Option<SeekFrom>) {
        Some(SeekFrom::Current(self))
    }
}

impl IntoSeekFrom for i128 {
    open spec fn offset_spec(model: i128) -> int {
        model as int
    }

    fn into_seek_from(self) -> (r: Option<SeekFrom>) {
        if -0x8000_0000_0000_0000i128 <= self && self <= 0x7fff_ffff_ffff_ffffi128 {
            Some(SeekFrom::Current(self as i64))
        } else {
            None
        }
    }
}

impl IntoSeekFrom for u8 {
    open spec fn offset_spec(model: u8) -> int {
        model as int
    }

    fn into_seek_from(self) -> (r: Option<SeekFrom>) {
        Some(SeekFrom::Current(self as i64))
    }
}

impl IntoSeekFrom for u16 {
    open spec fn offset_spec(model: u16) -> int {
        model as int
    }

    fn into_seek_from(self) -> (r: Option<SeekFrom>) {
        Some(SeekFrom::Current(self as i64))
    }
}

impl IntoSeekFrom for u32 {
    open spec fn offset_spec(model: u32) -> int {
        model as int
    }

    fn into_seek_from(self) -> (r: Option<SeekFrom>) {
        Some(SeekFrom::Current(self as i64))
    }
}

impl IntoSeekFrom for u64 {
    open spec fn offset_spec(model: u64) -> int {
        model as int
    }

    fn into_seek_from(self) -> (r: Option<SeekFrom>) {
        if self <= 0x7fff_ffff_ffff_ffffu64 {
            Some(SeekFrom::Current(self as i64))
        } else {
            None
        }
    }
}

impl IntoSeekFrom for u128 {
    open spec fn offset_spec(model: u128) -> int {
        model as int
    }

    fn into_seek_from(self) -> (r: Option<SeekFrom>) {
        if self <= 0x7fff_ffff_ffff_ffffu128 {
            Some(SeekFrom::Current(self as i64))
        } else {
            None
        }
    }
}

/// The pointer round trip. Where a pointer is read in both phases, the value
/// that it points to is there, and the stream stands right behind the
/// pointer's own offset: not behind the value.
pub proof fn lemma_pointer_round_trip<Ptr: IntoSeekFrom, BR: BinRead>(
    stream: Stream,
    options: OptionsView,
    args: BR::Args,
)
    ensures
        read_fully_spec::<AbsFilePtr<Ptr, BR>>(stream, options, args) matches Ok(got) ==> {
            &&& got.0.value is Some
            &&& Ptr::read_spec(stream, options, ()) matches Ok(offset) && offset.1 == got.1
        },
        read_fully_spec::<RelFilePtr<Ptr, BR>>(stream, options, args) matches Ok(got) ==> {
            &&& got.0.value is Some
            &&& Ptr::read_spec(stream, options, ()) matches Ok(offset) && offset.1 == got.1
        },
{
}

/// An absolute pointer of one byte.
pub type AbsFilePtr8<T> = AbsFilePtr<u8, T>;

/// An absolute pointer of two bytes.
pub type AbsFilePtr16<T> = AbsFilePtr<u16, T>;

/// An absolute pointer of four bytes.
pub type AbsFilePtr32<T> = AbsFilePtr<u32, T>;

/// An absolute pointer of eight bytes.
pub type AbsFilePtr64<T> = AbsFilePtr<u64, T>;

/// An absolute pointer of sixteen bytes.
pub type AbsFilePtr128<T> = AbsFilePtr<u128, T>;

/// A relative pointer of one byte.
pub type RelFilePtr8<T> = RelFilePtr<u8, T>;

/// A relative pointer of two bytes.
pub type RelFilePtr16<T> = RelFilePtr<u16, T>;

/// A relative pointer of four bytes.
pub type RelFilePtr32<T> = RelFilePtr<u32, T>;

/// A relative pointer of eight bytes.
pub type RelFilePtr64<T> = RelFilePtr<u64, T>;

/// A relative pointer of sixteen bytes.
pub type RelFilePtr128<T> = RelFilePtr<u128, T>;

} // verus!
