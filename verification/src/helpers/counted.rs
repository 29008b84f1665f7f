//! A run of items of one type, as many as the caller says.
use vstd::prelude::*;
use crate::binread::{fails, models, resolve_fails, resolves_to, yields, BinRead, Outcome, Resolved};
use crate::error::{BinResult, ErrorView};
use crate::io::{Cursor, Stream};
use crate::options::{OptionsView, ReadOptions};

verus! {

/// The first `count` items at the position of a stream, one after the other
/// with nothing between them. The first item that cannot be read fails the
/// whole with its own failure.
pub open spec fn read_items<B: BinRead>(
    stream: Stream,
    options: OptionsView,
    args: B::Args,
    count: nat,
) -> Outcome<Seq<B::Model>>
    decreases count,
{
    if count == 0 {
        Ok((Seq::empty(), stream.pos))
    } else {
        match read_items::<B>(stream, options, args, (count - 1) as nat) {
            Err(e) => Err(e),
            Ok((items, mid)) => match B::read_spec(stream.at(mid), options, args) {
                Err(e) => Err(e),
                Ok((item, end)) => Ok((items.push(item), end)),
            },
        }
    }
}

/// Phase two on the first `count` of a run of items, in order. The first
/// item whose pointers cannot be followed fails the whole with its own
/// failure.
pub open spec fn resolve_items<B: BinRead>(
    items: Seq<B::Model>,
    data: Seq<u8>,
    options: OptionsView,
    args: B::Args,
    count: nat,
) -> Resolved<Seq<B::Model>>
    decreases count,
{
    if count == 0 {
        Ok(items)
    } else {
        match resolve_items::<B>(items, data, options, args, (count - 1) as nat) {
            Err(e) => Err(e),
            Ok(done) => match B::resolve_spec(items[count - 1], data, options, args) {
                Err(e) => Err(e),
                Ok(item) => Ok(done.update(count - 1, item)),
            },
        }
    }
}

/// A run that is read has as many items as were asked for.
pub proof fn lemma_read_items_len<B: BinRead>(
    stream: Stream,
    options: OptionsView,
    args: B::Args,
    count: nat,
)
    ensures
        read_items::<B>(stream, options, args, count) matches Ok(got) ==> got.0.len() == count,
    decreases count,
{
    if count > 0 {
        lemma_read_items_len::<B>(stream, options, args, (count - 1) as nat);
    }
}

/// No short result: where the first `short` items cannot be read, no longer
/// run can, and it fails in the same way.
pub proof fn lemma_read_items_fails<B: BinRead>(
    stream: Stream,
    options: OptionsView,
    args: B::Args,
    short: nat,
    count: nat,
)
    requires
        short <= count,
        read_items::<B>(stream, options, args, short) is Err,
    ensures
        read_items::<B>(stream, options, args, count) == read_items::<B>(
            stream,
            options,
            args,
            short,
        ),
    decreases count,
{
    if short < count {
        lemma_read_items_fails::<B>(stream, options, args, short, (count - 1) as nat);
    }
}

/// Where phase two fails on the first `short` items, it fails in the same
/// way on more.
pub proof fn lemma_resolve_items_fails<B: BinRead>(
    items: Seq<B::Model>,
    data: Seq<u8>,
    options: OptionsView,
    args: B::Args,
    short: nat,
    count: nat,
)
    requires
        short <= count,
        resolve_items::<B>(items, data, options, args, short) is Err,
    ensures
        resolve_items::<B>(items, data, options, args, count) == resolve_items::<B>(
            items,
            data,
            options,
            args,
            short,
        ),
    decreases count,
{
    if short < count {
        lemma_resolve_items_fails::<B>(items, data, options, args, short, (count - 1) as nat);
    }
}

/// Reads `count` items, one after the other.
pub fn read_run<B: BinRead>(
    reader: &mut Cursor,
    options: &ReadOptions,
    args: &B::Args,
    count: usize,
) -> (r: BinResult<Vec<B>>)
    ensures
        final(reader)@.data == old(reader)@.data,
        r matches Ok(items) ==> items@.len() == count && yields(
            read_items::<B>(old(reader)@, options@, *args, count as nat),
            models(items@),
            final(reader)@.pos,
        ),
        r matches Err(e) ==> fails(
            read_items::<B>(old(reader)@, options@, *args, count as nat),
            e@,
        ),
{
    let ghost start: Stream = reader@;
    let mut items: Vec<B> = Vec::new();
    let mut i: usize = 0;
    assert(models(items@) == Seq::<B::Model>::empty());
    while i < count
        invariant
            i <= count,
            start == old(reader)@,
            reader@.data == start.data,
            items@.len() == i,
            yields(
                read_items::<B>(start, options@, *args, i as nat),
                models(items@),
                reader@.pos,
            ),
        decreases count - i,
    {
        let ghost so_far: Seq<B::Model> = models(items@);
        assert(reader@ == start.at(reader@.pos));
        match B::read_options(reader, options, args) {
            Ok(item) => {
                items.push(item);
                assert(models(items@) == so_far.push(item.model()));
            },
            Err(e) => {
                proof {
                    lemma_read_items_fails::<B>(
                        start,
                        options@,
                        *args,
                        (i + 1) as nat,
                        count as nat,
                    );
                }
                return Err(e);
            },
        }
        i = i + 1;
    }
    Ok(items)
}

/// Phase two on every item of a run, in order.
pub fn resolve_run<B: BinRead>(
    items: &mut Vec<B>,
    reader: &mut Cursor,
    options: &ReadOptions,
    args: &B::Args,
) -> (r: BinResult<()>)
    ensures
        final(reader)@ == old(reader)@,
        final(items)@.len() == old(items)@.len(),
        r is Ok ==> resolves_to(
            resolve_items::<B>(
                models(old(items)@),
                old(reader)@.data,
                options@,
                *args,
                old(items)@.len(),
            ),
            models(final(items)@),
        ),
        r matches Err(e) ==> resolve_fails(
            resolve_items::<B>(
                models(old(items)@),
                old(reader)@.data,
                options@,
                *args,
                old(items)@.len(),
            ),
            e@,
        ),
{
    let n: usize = items.len();
    let ghost before: Seq<B::Model> = models(items@);
    let ghost start: Stream = reader@;
    let mut i: usize = 0;
    while i < n
        invariant
            i <= n,
            items@.len() == n,
            old(items)@.len() == n,
            before.len() == n,
            before == models(old(items)@),
            start == old(reader)@,
            reader@ == start,
            resolves_to(
                resolve_items::<B>(before, start.data, options@, *args, i as nat),
                models(items@),
            ),
            forall|j: int| i <= j < n ==> items@[j].model() == before[j],
        decreases n - i,
    {
        let ghost done: Seq<B::Model> = models(items@);
        match items[i].after_parse(reader, options, args) {
            Ok(()) => {
                assert(models(items@) == done.update(i as int, items@[i as int].model()));
            },
            Err(e) => {
                proof {
                    lemma_resolve_items_fails::<B>(
                        before,
                        start.data,
                        options@,
                        *args,
                        (i + 1) as nat,
                        n as nat,
                    );
                }
                return Err(e);
            },
        }
        i = i + 1;
    }
    Ok(())
}

/// A run of items that was read with a count.
pub struct Counted<T> {
    data: Vec<T>,
}

impl<T> View for Counted<T> {
    type V = Seq<T>;

    closed spec fn view(&self) -> Seq<T> {
        self.data@
    }
}

impl<T> Counted<T> {
    /// The items.
    pub fn into_values(self) -> (r: Vec<T>)
        ensures
            r@ == self@,
    {
        self.data
    }

    /// The items, to look at.
    pub fn deref(&self) -> (r: &Vec<T>)
        ensures
            r@ == self@,
    {
        &self.data
    }

    /// The items, to change.
    pub fn deref_mut(&mut self) -> (r: &mut Vec<T>)
        ensures
            r@ == old(self)@,
            final(self)@ == final(r)@,
    {
        &mut self.data
    }
}

impl<B: BinRead> BinRead for Counted<B> {
    /// The number of items, and what each item has to be told.
    type Args = (usize, B::Args);

    type Model = Seq<B::Model>;

    open spec fn model(&self) -> Seq<B::Model> {
        models(self@)
    }

    open spec fn read_spec(stream: Stream, options: OptionsView, args: (usize, B::Args)) -> Outcome<
        Seq<B::Model>,
    > {
        read_items::<B>(stream, options, args.1, args.0 as nat)
    }

    open spec fn resolve_spec(
        model: Seq<B::Model>,
        data: Seq<u8>,
        options: OptionsView,
        args: (usize, B::Args),
    ) -> Resolved<Seq<B::Model>> {
        resolve_items::<B>(model, data, options, args.1, model.len())
    }

    fn read_options(reader: &mut Cursor, options: &ReadOptions, args: &(usize, B::Args)) -> (r:
        BinResult<Self>) {
        match read_run::<B>(reader, options, &args.1, args.0) {
            Ok(data) => Ok(Counted { data }),
            Err(e) => Err(e),
        }
    }

    fn after_parse(&mut self, reader: &mut Cursor, options: &ReadOptions, args: &(
        usize,
        B::Args,
    )) -> (r: BinResult<()>)
        ensures
            final(self)@.len() == old(self)@.len(),
    {
        resolve_run::<B>(&mut self.data, reader, options, &args.1)
    }
}

/// A vector is read as a run of items with a count.
impl<B: BinRead> BinRead for Vec<B> {
    /// The number of items, and what each item has to be told.
    type Args = (usize, B::Args);

    type Model = Seq<B::Model>;

    open spec fn model(&self) -> Seq<B::Model> {
        models(self@)
    }

    open spec fn read_spec(stream: Stream, options: OptionsView, args: (usize, B::Args)) -> Outcome<
        Seq<B::Model>,
    > {
        read_items::<B>(stream, options, args.1, args.0 as nat)
    }

    open spec fn resolve_spec(
        model: Seq<B::Model>,
        data: Seq<u8>,
        options: OptionsView,
        args: (usize, B::Args),
    ) -> Resolved<Seq<B::Model>> {
        resolve_items::<B>(model, data, options, args.1, model.len())
    }

    fn read_options(reader: &mut Cursor, options: &ReadOptions, args: &(usize, B::Args)) -> (r:
        BinResult<Self>) {
        read_run::<B>(reader, options, &args.1, args.0)
    }

    fn after_parse(&mut self, reader: &mut Cursor, options: &ReadOptions, args: &(
        usize,
        B::Args,
    )) -> (r: BinResult<()>)
        ensures
            final(self)@.len() == old(self)@.len(),
    {
        resolve_run::<B>(self, reader, options, &args.1)
    }
}

} // verus!
