//! What a read can fail with.
use vstd::prelude::*;
use crate::io::IoError;

verus! {

/// A failed read.
///
/// Every failure but that of the stream itself carries the position at which
/// it was found.
#[derive(Debug)]
pub enum Error {
    /// The stream failed.
    Io(IoError),
    /// Other bytes stood where a fixed value was expected: `found` holds them.
    BadMagic { pos: u64, found: Vec<u8> },
    /// A check on what was read did not hold.
    AssertFail { pos: u64, message: String },
    /// A failure that a reader of a record reports in its own words.
    Custom { pos: u64, err: String },
    /// No candidate of a set of variants could be read; why is not said.
    NoVariantMatch { pos: u64 },
    /// No candidate of a set of variants could be read: each candidate's name
    /// and failure, in the order in which they were tried.
    EnumErrors { pos: u64, variant_errors: Vec<(&'static str, Error)> },
}

/// A failed read as contracts see it.
pub enum ErrorView {
    Io(IoError),
    BadMagic { pos: u64, found: Seq<u8> },
    AssertFail { pos: u64, message: Seq<char> },
    Custom { pos: u64, err: Seq<char> },
    NoVariantMatch { pos: u64 },
    EnumErrors { pos: u64, variant_errors: Seq<(Seq<char>, ErrorView)> },
}

/// The result of a read.
pub type BinResult<T> = Result<T, Error>;

impl View for Error {
    type V = ErrorView;

    open spec fn view(&self) -> ErrorView
        decreases self,
    {
        match self {
            Error::Io(e) => ErrorView::Io(*e),
            Error::BadMagic { pos, found } => ErrorView::BadMagic { pos: *pos, found: found@ },
            Error::AssertFail { pos, message } => ErrorView::AssertFail {
                pos: *pos,
                message: message@,
            },
            Error::Custom { pos, err } => ErrorView::Custom { pos: *pos, err: err@ },
            Error::NoVariantMatch { pos } => ErrorView::NoVariantMatch { pos: *pos },
            Error::EnumErrors { pos, variant_errors } => ErrorView::EnumErrors {
                pos: *pos,
                variant_errors: Seq::new(
                    variant_errors@.len(),
                    |i: int|
                        if 0 <= i < variant_errors@.len() {
                            (variant_errors@[i].0@, variant_errors@[i].1@)
                        } else {
                            (Seq::empty(), ErrorView::NoVariantMatch { pos: 0 })
                        },
                ),
            },
        }
    }
}

/// The models of a list of candidates' failures, in order.
pub open spec fn attempts_view(attempts: Seq<(&'static str, Error)>) -> Seq<(Seq<char>, ErrorView)> {
    Seq::new(attempts.len(), |i: int| (attempts[i].0@, attempts[i].1@))
}

/// What an aggregate failure is as contracts see it: the models of the
/// candidates' failures, in order.
pub proof fn lemma_enum_errors_view(error: Error)
    requires
        error is EnumErrors,
    ensures
        error@ == (ErrorView::EnumErrors {
            pos: error->EnumErrors_pos,
            variant_errors: attempts_view(error->EnumErrors_variant_errors@),
        }),
{
    reveal_with_fuel(<Error as View>::view, 3);
    let got = error@->EnumErrors_variant_errors;
    let want = attempts_view(error->EnumErrors_variant_errors@);
    assert(error@ is EnumErrors);
    assert(got.len() == want.len());
    assert forall|i: int| 0 <= i < got.len() implies got[i] == want[i] by {}
    assert(got =~= want);
}

impl Error {
    /// The position that the failure carries; the stream's own failures carry none.
    pub fn pos(&self) -> (r: Option<u64>)
        ensures
            r == self@.pos(),
    {
        match self {
            Error::Io(_) => None,
            Error::BadMagic { pos, .. } => Some(*pos),
            Error::AssertFail { pos, .. } => Some(*pos),
            Error::Custom { pos, .. } => Some(*pos),
            Error::NoVariantMatch { pos } => Some(*pos),
            Error::EnumErrors { pos, .. } => Some(*pos),
        }
    }
}

impl ErrorView {
    /// The position that the failure carries.
    pub open spec fn pos(self) -> Option<u64> {
        match self {
            ErrorView::Io(_) => None,
            ErrorView::BadMagic { pos, .. } => Some(pos),
            ErrorView::AssertFail { pos, .. } => Some(pos),
            ErrorView::Custom { pos, .. } => Some(pos),
            ErrorView::NoVariantMatch { pos } => Some(pos),
            ErrorView::EnumErrors { pos, .. } => Some(pos),
        }
    }
}

} // verus!
