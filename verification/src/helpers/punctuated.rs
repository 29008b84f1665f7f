//! A run of items with a separator between them.
//!
//! How such a run is read cannot be told from its type: with or without a
//! separator after the last item. So the caller picks one of the two readers
//! by name, and says how many items there are.
use vstd::prelude::*;
use crate::binread::{fails, models, yields, BinRead, Outcome};
use crate::error::{BinResult, ErrorView};
use crate::io::{Cursor, Stream};
use crate::options::{OptionsView, ReadOptions};

verus! {

/// A run of items and the separators between them, as contracts see it.
pub struct PunctuatedModel<TM, PM> {
    pub data: Seq<TM>,
    pub seperators: Seq<PM>,
}

/// `count` pairs of an item and a separator, at the position of a stream.
/// The first item or separator that cannot be read fails the whole with its
/// own failure.
pub open spec fn trailing_spec<T: BinRead, P: BinRead<Args = ()>>(
    stream: Stream,
    options: OptionsView,
    args: T::Args,
    count: nat,
) -> Outcome<PunctuatedModel<T::Model, P::Model>>
    decreases count,
{
    if count == 0 {
        Ok((PunctuatedModel { data: Seq::empty(), seperators: Seq::empty() }, stream.pos))
    } else {
        match trailing_spec::<T, P>(stream, options, args, (count - 1) as nat) {
            Err(e) => Err(e),
            Ok((pairs, at_item)) => match T::read_spec(stream.at(at_item), options, args) {
                Err(e) => Err(e),
                Ok((item, at_sep)) => match P::read_spec(stream.at(at_sep), options, ()) {
                    Err(e) => Err(e),
                    Ok((sep, end)) => Ok(
                        (
                            PunctuatedModel {
                                data: pairs.data.push(item),
                                seperators: pairs.seperators.push(sep),
                            },
                            end,
                        ),
                    ),
                },
            },
        }
    }
}

/// `count` items with a separator between each two: one pair of an item and
/// a separator less than there are items, then the last item. No items, no
/// bytes.
pub open spec fn separated_spec<T: BinRead, P: BinRead<Args = ()>>(
    stream: Stream,
    options: OptionsView,
    args: T::Args,
    count: nat,
) -> Outcome<PunctuatedModel<T::Model, P::Model>> {
    if count == 0 {
        Ok((PunctuatedModel { data: Seq::empty(), seperators: Seq::empty() }, stream.pos))
    } else {
        match trailing_spec::<T, P>(stream, options, args, (count - 1) as nat) {
            Err(e) => Err(e),
            Ok((pairs, at_item)) => match T::read_spec(stream.at(at_item), options, args) {
                Err(e) => Err(e),
                Ok((item, end)) => Ok(
                    (
                        PunctuatedModel {
                            data: pairs.data.push(item),
                            seperators: pairs.seperators,
                        },
                        end,
                    ),
                ),
            },
        }
    }
}

/// With a separator after every item, a run that is read has as many
/// separators as items, and as many items as were asked for.
pub proof fn lemma_trailing_lengths<T: BinRead, P: BinRead<Args = ()>>(
    stream: Stream,
    options: OptionsView,
    args: T::Args,
    count: nat,
)
    ensures
        trailing_spec::<T, P>(stream, options, args, count) matches Ok(got) ==> got.0.data.len()
            == count && got.0.seperators.len() == count,
    decreases count,
{
    if count > 0 {
        lemma_trailing_lengths::<T, P>(stream, options, args, (count - 1) as nat);
    }
}

/// With separators between the items only, a run that is read has as many
/// items as were asked for and one separator less; none for no items.
pub proof fn lemma_separated_lengths<T: BinRead, P: BinRead<Args = ()>>(
    stream: Stream,
    options: OptionsView,
    args: T::Args,
    count: nat,
)
    ensures
        separated_spec::<T, P>(stream, options, args, count) matches Ok(got) ==> got.0.data.len()
            == count && got.0.seperators.len() == (if count == 0 {
            0
        } else {
            count - 1
        }),
{
    if count > 0 {
        lemma_trailing_lengths::<T, P>(stream, options, args, (count - 1) as nat);
    }
}

/// No short result: where `short` pairs cannot be read, no longer run of
/// pairs can, and it fails in the same way.
pub proof fn lemma_trailing_fails<T: BinRead, P: BinRead<Args = ()>>(
    stream: Stream,
    options: OptionsView,
    args: T::Args,
    short: nat,
    count: nat,
)
    requires
        short <= count,
        trailing_spec::<T, P>(stream, options, args, short) is Err,
    ensures
        trailing_spec::<T, P>(stream, options, args, count) == trailing_spec::<T, P>(
            stream,
            options,
            args,
            short,
        ),
    decreases count,
{
    if short < count {
        lemma_trailing_fails::<T, P>(stream, options, args, short, (count - 1) as nat);
    }
}

/// No short result: where `short` pairs cannot be read, no run of more than
/// `short` items with separators between them can, and it fails in the same
/// way.
pub proof fn lemma_separated_fails<T: BinRead, P: BinRead<Args = ()>>(
    stream: Stream,
    options: OptionsView,
    args: T::Args,
    short: nat,
    count: nat,
)
    requires
        short < count,
        trailing_spec::<T, P>(stream, options, args, short) is Err,
    ensures
        separated_spec::<T, P>(stream, options, args, count) == trailing_spec::<T, P>(
            stream,
            options,
            args,
            short,
        ),
{
    lemma_trailing_fails::<T, P>(stream, options, args, short, (count - 1) as nat);
}

/// A run of items and the separators that stood between them.
pub struct Punctuated<T, P> {
    data: Vec<T>,
    pub seperators: Vec<P>,
}

impl<T, P> View for Punctuated<T, P> {
    type V = Seq<T>;

    /// The items.
    closed spec fn view(&self) -> Seq<T> {
        self.data@
    }
}

impl<T, P> Punctuated<T, P> {
    /// The separators.
    pub closed spec fn separators(&self) -> Seq<P> {
        self.seperators@
    }

    /// The items, without the separators.
    pub fn into_values(self) -> (r: Vec<T>)
        ensures
            r@ == self@,
    {
        self.data
    }

    /// The items, to look at.
    pub fn deref(&self) -> (r: &Vec<T>)
        ensures
            r@ == self@,
    {
        &self.data
    }

    /// The items, to change.
    pub fn deref_mut(&mut self) -> (r: &mut Vec<T>)
        ensures
            r@ == old(self)@,
            final(self)@ == final(r)@,
            final(self).separators() == old(self).separators(),
    {
        &mut self.data
    }

    /// The separators, to look at.
    pub fn separator_values(&self) -> (r: &Vec<P>)
        ensures
            r@ == self.separators(),
    {
        &self.seperators
    }
}

impl<T: BinRead, P: BinRead<Args = ()>> Punctuated<T, P> {
    /// The run as contracts see it.
    pub open spec fn model(&self) -> PunctuatedModel<T::Model, P::Model> {
        PunctuatedModel { data: models(self@), seperators: models(self.separators()) }
    }

    /// Reads `args.0` items with a separator between each two and none after
    /// the last.
    pub fn separated(reader: &mut Cursor, options: &ReadOptions, args: &(usize, T::Args)) -> (r:
        BinResult<Self>)
        ensures
            final(reader)@.data == old(reader)@.data,
            r matches Ok(v) ==> yields(
                separated_spec::<T, P>(old(reader)@, options@, args.1, args.0 as nat),
                v.model(),
                final(reader)@.pos,
            ),
            r matches Ok(v) ==> v@.len() == args.0 && v.separators().len() == (if args.0 == 0 {
                0
            } else {
                args.0 - 1
            }),
            r matches Err(e) ==> fails(
                separated_spec::<T, P>(old(reader)@, options@, args.1, args.0 as nat),
                e@,
            ),
    {
        let count: usize = args.0;
        let ghost start: Stream = reader@;
        let mut data: Vec<T> = Vec::new();
        let mut seperators: Vec<P> = Vec::new();
        let mut i: usize = 0;
        assert(models(data@) == Seq::<T::Model>::empty());
        assert(models(seperators@) == Seq::<P::Model>::empty());
        while i < count
            invariant
                i <= count,
                count == args.0,
                start == old(reader)@,
                reader@.data == start.data,
                data@.len() == i,
                i < count ==> seperators@.len() == i,
                0 < count && i == count ==> seperators@.len() + 1 == count,
                count == 0 ==> seperators@.len() == 0 && reader@ == start,
                i < count ==> yields(
                    trailing_spec::<T, P>(start, options@, args.1, i as nat),
                    PunctuatedModel { data: models(data@), seperators: models(seperators@) },
                    reader@.pos,
                ),
                0 < count && i == count ==> yields(
                    separated_spec::<T, P>(start, options@, args.1, count as nat),
                    PunctuatedModel { data: models(data@), seperators: models(seperators@) },
                    reader@.pos,
                ),
            decreases count - i,
        {
            let ghost items: Seq<T::Model> = models(data@);
            let ghost seps: Seq<P::Model> = models(seperators@);
            assert(reader@ == start.at(reader@.pos));
            match T::read_options(reader, options, &args.1) {
                Ok(item) => {
                    data.push(item);
                    assert(models(data@) == items.push(item.model()));
                },
                Err(e) => {
                    proof {
                        if i + 1 < count {
                            lemma_separated_fails::<T, P>(
                                start,
                                options@,
                                args.1,
                                (i + 1) as nat,
                                count as nat,
                            );
                        }
                    }
                    return Err(e);
                },
            }
            if i + 1 != count {
                assert(reader@ == start.at(reader@.pos));
                match P::read_options(reader, options, &()) {
                    Ok(sep) => {
                        seperators.push(sep);
                        assert(models(seperators@) == seps.push(sep.model()));
                    },
                    Err(e) => {
                        proof {
                            lemma_separated_fails::<T, P>(
                                start,
                                options@,
                                args.1,
                                (i + 1) as nat,
                                count as nat,
                            );
                        }
                        return Err(e);
                    },
                }
            }
            i = i + 1;
        }
        proof {
            if count == 0 {
                assert(models(data@) == Seq::<T::Model>::empty());
                assert(models(seperators@) == Seq::<P::Model>::empty());
            }
        }
        Ok(Punctuated { data, seperators })
    }

    /// Reads `args.0` items with a separator after each, the last too.
    pub fn separated_trailing(
        reader: &mut Cursor,
        options: &ReadOptions,
        args: &(usize, T::Args),
    ) -> (r: BinResult<Self>)
        ensures
            final(reader)@.data == old(reader)@.data,
            r matches Ok(v) ==> yields(
                trailing_spec::<T, P>(old(reader)@, options@, args.1, args.0 as nat),
                v.model(),
                final(reader)@.pos,
            ),
            r matches Ok(v) ==> v@.len() == args.0 && v.separators().len() == args.0,
            r matches Err(e) ==> fails(
                trailing_spec::<T, P>(old(reader)@, options@, args.1, args.0 as nat),
                e@,
            ),
    {
        let count: usize = args.0;
        let ghost start: Stream = reader@;
        let mut data: Vec<T> = Vec::new();
        let mut seperators: Vec<P> = Vec::new();
        let mut i: usize = 0;
        assert(models(data@) == Seq::<T::Model>::empty());
        assert(models(seperators@) == Seq::<P::Model>::empty());
        while i < count
            invariant
                i <= count,
                count == args.0,
                start == old(reader)@,
                reader@.data == start.data,
                data@.len() == i,
                seperators@.len() == i,
                yields(
                    trailing_spec::<T, P>(start, options@, args.1, i as nat),
                    PunctuatedModel { data: models(data@), seperators: models(seperators@) },
                    reader@.pos,
                ),
            decreases count - i,
        {
            let ghost items: Seq<T::Model> = models(data@);
            let ghost seps: Seq<P::Model> = models(seperators@);
            assert(reader@ == start.at(reader@.pos));
            match T::read_options(reader, options, &args.1) {
                Ok(item) => {
                    data.push(item);
                    assert(models(data@) == items.push(item.model()));
                },
                Err(e) => {
                    proof {
                        lemma_trailing_fails::<T, P>(
                            start,
                            options@,
                            args.1,
                            (i + 1) as nat,
                            count as nat,
                        );
                    }
                    return Err(e);
                },
            }
            assert(reader@ == start.at(reader@.pos));
            match P::read_options(reader, options, &()) {
                Ok(sep) => {
                    seperators.push(sep);
                    assert(models(seperators@) == seps.push(sep.model()));
                },
                Err(e) => {
                    proof {
                        lemma_trailing_fails::<T, P>(
                            start,
                            options@,
                            args.1,
                            (i + 1) as nat,
                            count as nat,
                        );
                    }
                    return Err(e);
                },
            }
            i = i + 1;
        }
        Ok(Punctuated { data, seperators })
    }
}

} // verus!
