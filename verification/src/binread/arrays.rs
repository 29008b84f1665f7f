//! The protocol for arrays: as many items as the array is long, one after
//! the other.
use vstd::prelude::*;
use vstd::pervasive::unreached;
use crate::binread::{models, resolves_to, BinRead, Outcome, Resolved};
use crate::error::BinResult;
use crate::helpers::counted::{lemma_resolve_items_fails, read_items, read_run, resolve_items};
use crate::io::{Cursor, Stream};
use crate::options::{OptionsView, ReadOptions};

verus! {

/// The conversion of a vector into an array (`TryFrom<Vec<T>>` for
/// `[T; N]`): the whole contents of the vector as an array, if the vector
/// holds exactly as many items as the array asks for; else the vector is
/// given back.
#[verifier::external_body]
fn vec_into_array<B, const N: usize>(items: Vec<B>) -> (r: Result<[B; N], Vec<B>>)
    ensures
        items@.len() == N ==> r is Ok && r->Ok_0@ == items@,
        items@.len() != N ==> r is Err && r->Err_0@ == items@,
{
    items.try_into()
}

impl<B: BinRead, const N: usize> BinRead for [B; N] {
    /// What each item has to be told.
    type Args = B::Args;

    type Model = Seq<B::Model>;

    open spec fn model(&self) -> Seq<B::Model> {
        models(self@)
    }

    open spec fn read_spec(stream: Stream, options: OptionsView, args: B::Args) -> Outcome<
        Seq<B::Model>,
    > {
        read_items::<B>(stream, options, args, N as nat)
    }

    open spec fn resolve_spec(
        model: Seq<B::Model>,
        data: Seq<u8>,
        options: OptionsView,
        args: B::Args,
    ) -> Resolved<Seq<B::Model>> {
        resolve_items::<B>(model, data, options, args, model.len())
    }

    fn read_options(reader: &mut Cursor, options: &ReadOptions, args: &B::Args) -> (r: BinResult<
        [B; N],
    >) {
        match read_run::<B>(reader, options, args, N) {
            Ok(items) => match vec_into_array::<B, N>(items) {
                Ok(array) => Ok(array),
                Err(_) => unreached(),
            },
            Err(e) => Err(e),
        }
    }

    fn after_parse(&mut self, reader: &mut Cursor, options: &ReadOptions, args: &B::Args) -> (r:
        BinResult<()>) {
        let ghost before: Seq<B::Model> = models(self@);
        let ghost start: Stream = reader@;
        let mut i: usize = 0;
        while i < N
            invariant
                i <= N,
                self@.len() == N,
                before.len() == N,
                before == old(self).model(),
                start == old(reader)@,
                reader@ == start,
                resolves_to(
                    resolve_items::<B>(before, start.data, options@, *args, i as nat),
                    models(self@),
                ),
                forall|j: int| i <= j < N ==> self@[j].model() == before[j],
            decreases N - i,
        {
            let ghost done: Seq<B::Model> = models(self@);
            match self[i].after_parse(reader, options, args) {
                Ok(()) => {
                    assert(models(self@) == done.update(i as int, self@[i as int].model()));
                },
                Err(e) => {
                    proof {
                        lemma_resolve_items_fails::<B>(
                            before,
                            start.data,
                            options@,
                            *args,
                            (i + 1) as nat,
                            N as nat,
                        );
                    }
                    return Err(e);
                },
            }
            i = i + 1;
        }
        Ok(())
    }
}

} // verus!
