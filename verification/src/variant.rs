//! Choosing among the candidate shapes of a value, and the checks by which a
//! candidate is told.
//!
//! The candidates are tried in the order in which they were declared, each
//! from the same position. The first that can be read is the value. A
//! candidate that cannot be read is set down with its name and failure by
//! [`VariantAttempts::reject`], which also takes the stream back; when none
//! is left, [`VariantAttempts::fail`] makes the failure of the whole.
//! [`read_variants`] runs the whole choice, and is held to
//! [`choose_variant`], of which the laws of order, commitment and the two
//! policies are proved.
use vstd::prelude::*;
use crate::codec::{decode_unsigned, unsigned_value};
use crate::error::{attempts_view, lemma_enum_errors_view, BinResult, Error, ErrorView};
use crate::io::{Cursor, IoError, Stream};
use crate::options::ReadOptions;

verus! {

/// What is said when no candidate could be read.
#[derive(Clone, Copy, Debug, PartialEq, Eq, Structural)]
pub enum ErrorPolicy {
    /// Every candidate's name and failure, in the order in which they were
    /// tried.
    CollectAll,
    /// Only where the candidates were tried.
    ReducedDetail,
}

impl Default for ErrorPolicy {
    fn default() -> (r: ErrorPolicy)
        ensures
            r == ErrorPolicy::CollectAll,
    {
        ErrorPolicy::CollectAll
    }
}

/// The failure of a whole set of candidates that were tried at `start`.
pub open spec fn no_match(
    start: u64,
    policy: ErrorPolicy,
    errors: Seq<(Seq<char>, ErrorView)>,
) -> ErrorView {
    match policy {
        ErrorPolicy::CollectAll => ErrorView::EnumErrors { pos: start, variant_errors: errors },
        ErrorPolicy::ReducedDetail => ErrorView::NoVariantMatch { pos: start },
    }
}

/// The first candidate that could be read, if any.
pub open spec fn first_match<M>(outcomes: Seq<Result<(M, u64), ErrorView>>) -> Option<int>
    decreases outcomes.len(),
{
    if outcomes.len() == 0 {
        None
    } else {
        match first_match(outcomes.drop_last()) {
            Some(i) => Some(i),
            None => if outcomes.last() is Ok {
                Some(outcomes.len() - 1)
            } else {
                None
            },
        }
    }
}

/// The names and failures of candidates none of which could be read.
pub open spec fn failures<M>(
    names: Seq<Seq<char>>,
    outcomes: Seq<Result<(M, u64), ErrorView>>,
) -> Seq<(Seq<char>, ErrorView)> {
    Seq::new(outcomes.len(), |i: int| (names[i], outcomes[i]->Err_0))
}

/// What choosing among candidates comes to, where `outcomes` says for each
/// candidate, in the order of declaration, what reading it at `start` comes
/// to: the first that can be read, or the failure of the whole.
pub open spec fn choose_variant<M>(
    start: u64,
    policy: ErrorPolicy,
    names: Seq<Seq<char>>,
    outcomes: Seq<Result<(M, u64), ErrorView>>,
) -> Result<(M, u64), ErrorView> {
    match first_match(outcomes) {
        Some(i) => outcomes[i],
        None => Err(no_match(start, policy, failures(names, outcomes))),
    }
}

/// The first match is a candidate that could be read, and none before it
/// could; where there is none, no candidate could be read.
pub proof fn lemma_first_match<M>(outcomes: Seq<Result<(M, u64), ErrorView>>)
    ensures
        match first_match(outcomes) {
            Some(i) => 0 <= i < outcomes.len() && outcomes[i] is Ok && forall|j: int|
                0 <= j < i ==> outcomes[j] is Err,
            None => forall|j: int| 0 <= j < outcomes.len() ==> outcomes[j] is Err,
        },
    decreases outcomes.len(),
{
    if outcomes.len() > 0 {
        let shorter = outcomes.drop_last();
        lemma_first_match(shorter);
        assert(forall|j: int| 0 <= j < shorter.len() ==> shorter[j] == outcomes[j]);
    }
}

/// Order and commitment: the choice is the first candidate, in the order of
/// declaration, that can be read, whatever the candidates after it would
/// have come to.
pub proof fn lemma_choice_commits<M>(
    start: u64,
    policy: ErrorPolicy,
    names: Seq<Seq<char>>,
    outcomes: Seq<Result<(M, u64), ErrorView>>,
    i: int,
)
    requires
        0 <= i < outcomes.len(),
        outcomes[i] is Ok,
        forall|j: int| 0 <= j < i ==> outcomes[j] is Err,
    ensures
        choose_variant(start, policy, names, outcomes) == outcomes[i],
{
    lemma_first_match(outcomes);
}

/// The two policies fail on the same inputs. Where no candidate can be read,
/// collecting gives one pair of name and failure for each candidate, in the
/// order of declaration, and the reduced policy gives the position alone.
pub proof fn lemma_policies_agree<M>(
    start: u64,
    names: Seq<Seq<char>>,
    outcomes: Seq<Result<(M, u64), ErrorView>>,
)
    requires
        names.len() == outcomes.len(),
    ensures
        choose_variant(start, ErrorPolicy::CollectAll, names, outcomes) is Err <==> choose_variant(
            start,
            ErrorPolicy::ReducedDetail,
            names,
            outcomes,
        ) is Err,
        choose_variant(start, ErrorPolicy::CollectAll, names, outcomes) is Ok ==> choose_variant(
            start,
            ErrorPolicy::CollectAll,
            names,
            outcomes,
        ) == choose_variant(start, ErrorPolicy::ReducedDetail, names, outcomes),
        choose_variant(start, ErrorPolicy::CollectAll, names, outcomes) matches Err(e) ==> {
            &&& e matches ErrorView::EnumErrors { pos, variant_errors }
            &&& pos == start
            &&& variant_errors.len() == names.len()
            &&& forall|i: int|
                0 <= i < names.len() ==> variant_errors[i] == (names[i], outcomes[i]->Err_0)
            &&& forall|i: int| 0 <= i < names.len() ==> outcomes[i] is Err
        },
        choose_variant(start, ErrorPolicy::ReducedDetail, names, outcomes) matches Err(e)
            ==> e == (ErrorView::NoVariantMatch { pos: start }),
{
    lemma_first_match(outcomes);
}

/// The candidates that were tried so far, as contracts see them.
pub struct AttemptsView {
    /// Where every candidate is tried.
    pub start: u64,
    pub policy: ErrorPolicy,
    /// The name and failure of each candidate that was tried, in order.
    pub errors: Seq<(Seq<char>, ErrorView)>,
}

impl AttemptsView {
    /// After one more candidate was tried and could not be read.
    pub open spec fn rejected(self, name: Seq<char>, error: ErrorView) -> AttemptsView {
        AttemptsView { errors: self.errors.push((name, error)), ..self }
    }

    /// The failure of the whole, when no candidate is left.
    pub open spec fn failure(self) -> ErrorView {
        no_match(self.start, self.policy, self.errors)
    }
}

/// The candidates that were tried so far.
pub struct VariantAttempts {
    start: u64,
    policy: ErrorPolicy,
    errors: Vec<(&'static str, Error)>,
}

impl View for VariantAttempts {
    type V = AttemptsView;

    closed spec fn view(&self) -> AttemptsView {
        AttemptsView {
            start: self.start,
            policy: self.policy,
            errors: attempts_view(self.errors@),
        }
    }
}

impl VariantAttempts {
    /// Begins to choose: takes down where the stream stands.
    pub fn begin(reader: &Cursor, policy: ErrorPolicy) -> (r: VariantAttempts)
        ensures
            r@ == (AttemptsView { start: reader@.pos, policy, errors: Seq::empty() }),
    {
        let attempts = VariantAttempts { start: reader.position(), policy, errors: Vec::new() };
        assert(attempts_view(attempts.errors@) == Seq::<(Seq<char>, ErrorView)>::empty());
        attempts
    }

    /// Where every candidate is tried.
    pub fn start(&self) -> (r: u64)
        ensures
            r == self@.start,
    {
        self.start
    }

    /// How many candidates were tried and could not be read.
    pub fn rejected_count(&self) -> (r: usize)
        ensures
            r == self@.errors.len(),
    {
        self.errors.len()
    }

    /// Sets down that the candidate `name` could not be read and why, and
    /// takes the stream back to where the candidates are tried.
    pub fn reject(&mut self, reader: &mut Cursor, name: &'static str, error: Error)
        ensures
            final(self)@ == old(self)@.rejected(name@, error@),
            final(reader)@ == old(reader)@.at(old(self)@.start),
    {
        let ghost before: Seq<(&'static str, Error)> = self.errors@;
        self.errors.push((name, error));
        assert(attempts_view(self.errors@) == attempts_view(before).push((name@, error@)));
        reader.set_position(self.start);
    }

    /// Tries one candidate: takes the stream to where the candidates are
    /// tried and runs `candidate` there. Where that gives a value, the value
    /// is the choice, and the stream stays where the candidate left it.
    /// Where it fails, the failure is set down under `name` and the stream
    /// is taken back.
    pub fn attempt<T, F: FnOnce(&mut Cursor) -> BinResult<T>>(
        &mut self,
        reader: &mut Cursor,
        name: &'static str,
        candidate: F,
    ) -> (r: Option<T>)
        requires
            forall|c: &mut Cursor|
                (*c)@ == old(reader)@.at(old(self)@.start) ==> call_requires(candidate, (c,)),
        ensures
            r is Some ==> final(self)@ == old(self)@,
            r matches Some(v) ==> exists|c: &mut Cursor, got: T|
                {
                    &&& (*c)@ == old(reader)@.at(old(self)@.start)
                    &&& #[trigger] call_ensures(candidate, (c,), Ok::<T, Error>(got))
                    &&& got == v
                    &&& (*final(c))@ == final(reader)@
                },
            r is None ==> exists|c: &mut Cursor, e: Error|
                {
                    &&& (*c)@ == old(reader)@.at(old(self)@.start)
                    &&& #[trigger] call_ensures(candidate, (c,), Err::<T, Error>(e))
                    &&& final(self)@ == old(self)@.rejected(name@, e@)
                    &&& final(reader)@ == (*final(c))@.at(old(self)@.start)
                },
    {
        reader.set_position(self.start);
        match candidate(reader) {
            Ok(v) => Some(v),
            Err(e) => {
                self.reject(reader, name, e);
                None
            },
        }
    }

    /// The failure of the whole, when no candidate is left.
    pub fn fail(self) -> (r: Error)
        ensures
            r@ == self@.failure(),
    {
        match self.policy {
            ErrorPolicy::CollectAll => {
                let error = Error::EnumErrors { pos: self.start, variant_errors: self.errors };
                proof {
                    lemma_enum_errors_view(error);
                }
                error
            },
            ErrorPolicy::ReducedDetail => Error::NoVariantMatch { pos: self.start },
        }
    }
}

/// Candidate `index` of `candidate`, run on a stream that stands as `before`,
/// can fail with `error`.
pub open spec fn candidate_fails<T, F: Fn(usize, &mut Cursor) -> BinResult<T>>(
    candidate: F,
    index: usize,
    before: Stream,
    error: Error,
) -> bool {
    exists|c: &mut Cursor|
        (*c)@ == before && #[trigger] call_ensures(candidate, (index, c), Err::<T, Error>(error))
}

/// Candidate `index` of `candidate`, run on a stream that stands as `before`,
/// can fail.
pub open spec fn candidate_rejected<T, F: Fn(usize, &mut Cursor) -> BinResult<T>>(
    candidate: F,
    index: usize,
    before: Stream,
) -> bool {
    exists|error: Error| #[trigger] candidate_fails(candidate, index, before, error)
}

/// The names of the candidates with their failures, as contracts see them.
pub open spec fn named_failures(names: Seq<&'static str>, errors: Seq<Error>) -> Seq<
    (Seq<char>, ErrorView),
> {
    Seq::new(errors.len(), |i: int| (names[i]@, errors[i]@))
}

/// The names of the candidates, as contracts see them.
pub open spec fn names_view(names: Seq<&'static str>) -> Seq<Seq<char>> {
    Seq::new(names.len(), |i: int| names[i]@)
}

/// What a result comes to as an outcome, where the stream was left at `end`.
pub open spec fn outcome_of<T>(r: BinResult<T>, end: u64) -> Result<(T, u64), ErrorView> {
    match r {
        Ok(v) => Ok((v, end)),
        Err(e) => Err(e@),
    }
}

/// Chooses among candidates. There are as many candidates as `names`, and
/// `candidate(i, reader)` reads candidate `i`. The candidates are tried in
/// order, each from where the stream stands now. The first that can be read
/// is the value, and the stream stays where that candidate left it; the
/// candidates after it are not tried. Where none can be read the stream is
/// back where it stood, and the failure is made from the failures of all
/// the candidates, as `policy` says.
///
/// The last clause says the same in one piece: where `outcomes` says for
/// every candidate what it comes to when run from where the stream stands,
/// the result is [`choose_variant`] of them.
pub fn read_variants<T, F: Fn(usize, &mut Cursor) -> BinResult<T>>(
    reader: &mut Cursor,
    policy: ErrorPolicy,
    names: &[&'static str],
    candidate: F,
) -> (r: BinResult<T>)
    requires
        forall|i: usize, c: &mut Cursor| i < names@.len() ==> call_requires(candidate, (i, c)),
        forall|i: usize, c: &mut Cursor, outcome: BinResult<T>|
            call_ensures(candidate, (i, c), outcome) ==> (*final(c))@.data == (*c)@.data,
    ensures
        final(reader)@.data == old(reader)@.data,
        r matches Ok(v) ==> exists|i: usize, c: &mut Cursor, got: T|
            {
                &&& i < names@.len()
                &&& got == v
                &&& (*c)@ == old(reader)@
                &&& #[trigger] call_ensures(candidate, (i, c), Ok::<T, Error>(got))
                &&& (*final(c))@ == final(reader)@
                &&& forall|j: usize|
                    j < i ==> #[trigger] candidate_rejected(candidate, j, old(reader)@)
            },
        r matches Err(e) ==> final(reader)@ == old(reader)@ && exists|errors: Seq<Error>|
            {
                &&& errors.len() == names@.len()
                &&& forall|j: usize|
                    j < names@.len() ==> #[trigger] candidate_fails(
                        candidate,
                        j,
                        old(reader)@,
                        errors[j as int],
                    )
                &&& e@ == no_match(
                    old(reader)@.pos,
                    policy,
                    #[trigger] named_failures(names@, errors),
                )
            },
        forall|outcomes: Seq<Result<(T, u64), ErrorView>>|
            {
                &&& outcomes.len() == names@.len()
                &&& forall|i: usize, c: &mut Cursor, out: BinResult<T>|
                    i < names@.len() && (*c)@ == old(reader)@ && #[trigger] call_ensures(
                        candidate,
                        (i, c),
                        out,
                    ) ==> outcomes[i as int] == outcome_of(out, (*final(c))@.pos)
            } ==> #[trigger] choose_variant(
                old(reader)@.pos,
                policy,
                names_view(names@),
                outcomes,
            ) == outcome_of(r, final(reader)@.pos),
{
    let ghost start: Stream = reader@;
    let mut attempts = VariantAttempts::begin(reader, policy);
    let ghost mut errors: Seq<Error> = Seq::empty();
    let n: usize = names.len();
    let mut i: usize = 0;
    assert(named_failures(names@, errors) == Seq::<(Seq<char>, ErrorView)>::empty());
    while i < n
        invariant
            i <= n,
            n == names@.len(),
            start == old(reader)@,
            reader@ == start,
            attempts@.start == start.pos,
            attempts@.policy == policy,
            errors.len() == i,
            attempts@.errors == named_failures(names@, errors),
            forall|j: usize| j < i ==> #[trigger] candidate_fails(candidate, j, start, errors[j as int]),
            forall|k: usize, c: &mut Cursor| k < names@.len() ==> call_requires(candidate, (k, c)),
            forall|k: usize, c: &mut Cursor, outcome: BinResult<T>|
                call_ensures(candidate, (k, c), outcome) ==> (*final(c))@.data == (*c)@.data,
        decreases n - i,
    {
        match candidate(i, reader) {
            Ok(v) => {
                proof {
                    assert forall|j: usize| j < i implies #[trigger] candidate_rejected(
                        candidate,
                        j,
                        start,
                    ) by {
                        assert(candidate_fails(candidate, j, start, errors[j as int]));
                    }
                    assert forall|outcomes: Seq<Result<(T, u64), ErrorView>>|
                        {
                            &&& outcomes.len() == names@.len()
                            &&& forall|k: usize, c: &mut Cursor, out: BinResult<T>|
                                k < names@.len() && (*c)@ == start && #[trigger] call_ensures(
                                    candidate,
                                    (k, c),
                                    out,
                                ) ==> outcomes[k as int] == outcome_of(out, (*final(c))@.pos)
                        } implies #[trigger] choose_variant(
                        start.pos,
                        policy,
                        names_view(names@),
                        outcomes,
                    ) == outcome_of(Ok::<T, Error>(v), reader@.pos) by {
                        assert forall|j: int| 0 <= j < i implies outcomes[j] is Err by {
                            assert(candidate_fails(candidate, j as usize, start, errors[j]));
                        }
                        lemma_choice_commits(
                            start.pos,
                            policy,
                            names_view(names@),
                            outcomes,
                            i as int,
                        );
                    }
                }
                return Ok(v);
            },
            Err(e) => {
                proof {
                    assert(candidate_fails(candidate, i, start, e));
                    let before = errors;
                    errors = errors.push(e);
                    assert(named_failures(names@, errors) == named_failures(names@, before).push(
                        (names@[i as int]@, e@),
                    ));
                    assert forall|j: usize| j < i + 1 implies #[trigger] candidate_fails(
                        candidate,
                        j,
                        start,
                        errors[j as int],
                    ) by {
                        if j < i {
                            assert(candidate_fails(candidate, j, start, before[j as int]));
                        }
                    }
                }
                attempts.reject(reader, names[i], e);
            },
        }
        i = i + 1;
    }
    let error: Error = attempts.fail();
    proof {
        assert forall|outcomes: Seq<Result<(T, u64), ErrorView>>|
            {
                &&& outcomes.len() == names@.len()
                &&& forall|k: usize, c: &mut Cursor, out: BinResult<T>|
                    k < names@.len() && (*c)@ == start && #[trigger] call_ensures(
                        candidate,
                        (k, c),
                        out,
                    ) ==> outcomes[k as int] == outcome_of(out, (*final(c))@.pos)
            } implies #[trigger] choose_variant(start.pos, policy, names_view(names@), outcomes)
            == Err::<(T, u64), ErrorView>(error@) by {
            assert forall|j: int| 0 <= j < n implies outcomes[j] == Err::<(T, u64), ErrorView>(
                errors[j]@,
            ) by {
                assert(candidate_fails(candidate, j as usize, start, errors[j]));
            }
            lemma_first_match(outcomes);
            assert(failures(names_view(names@), outcomes) == named_failures(names@, errors));
        }
    }
    Err(error)
}

/// A fixed number of `width` bytes at the position of a stream: where the
/// stream stands behind it, or the failure. Other bytes in its place are a
/// bad magic at the position where they begin.
pub open spec fn magic_spec(stream: Stream, big: bool, width: nat, expected: nat) -> Result<
    u64,
    ErrorView,
> {
    match stream.take(width) {
        None => Err(ErrorView::Io(IoError::UnexpectedEof)),
        Some(bytes) => if unsigned_value(bytes, big) == expected {
            Ok(stream.skip(width).pos)
        } else {
            Err(ErrorView::BadMagic { pos: stream.pos, found: bytes })
        },
    }
}

/// Reads `width` bytes as an unsigned number under the byte order of the
/// context, and checks that it is `expected`. Where fewer bytes are left the
/// stream stays where it stood; else it ends behind the bytes.
pub fn read_magic(reader: &mut Cursor, options: &ReadOptions, width: usize, expected: u128) -> (r:
    BinResult<()>)
    requires
        width <= 16,
    ensures
        final(reader)@.data == old(reader)@.data,
        match magic_spec(old(reader)@, options@.big_endian(), width as nat, expected as nat) {
            Ok(end) => r is Ok && final(reader)@.pos == end,
            Err(e) => r is Err && r->Err_0@ == e,
        },
        old(reader)@.take(width as nat) is Some ==> final(reader)@ == old(reader)@.skip(
            width as nat,
        ),
        old(reader)@.take(width as nat) is None ==> final(reader)@ == old(reader)@,
{
    let pos: u64 = reader.position();
    let bytes: Vec<u8> = match reader.read_exact(width) {
        Ok(b) => b,
        Err(e) => {
            return Err(Error::Io(e));
        },
    };
    let found: u128 = decode_unsigned(bytes.as_slice(), options.big_endian());
    if found == expected {
        Ok(())
    } else {
        Err(Error::BadMagic { pos, found: bytes })
    }
}

/// Fixed bytes at the position of a stream: where the stream stands behind
/// them, or the failure.
pub open spec fn magic_bytes_spec(stream: Stream, expected: Seq<u8>) -> Result<u64, ErrorView> {
    match stream.take(expected.len()) {
        None => Err(ErrorView::Io(IoError::UnexpectedEof)),
        Some(bytes) => if bytes == expected {
            Ok(stream.skip(expected.len()).pos)
        } else {
            Err(ErrorView::BadMagic { pos: stream.pos, found: bytes })
        },
    }
}

/// Reads as many bytes as `expected` has and checks that they are the same.
pub fn read_magic_bytes(reader: &mut Cursor, expected: &[u8]) -> (r: BinResult<()>)
    ensures
        final(reader)@.data == old(reader)@.data,
        match magic_bytes_spec(old(reader)@, expected@) {
            Ok(end) => r is Ok && final(reader)@.pos == end,
            Err(e) => r is Err && r->Err_0@ == e,
        },
{
    let pos: u64 = reader.position();
    let bytes: Vec<u8> = match reader.read_exact(expected.len()) {
        Ok(b) => b,
        Err(e) => {
            return Err(Error::Io(e));
        },
    };
    if same_bytes(bytes.as_slice(), expected) {
        Ok(())
    } else {
        Err(Error::BadMagic { pos, found: bytes })
    }
}

/// Whether two runs of bytes are the same.
pub fn same_bytes(a: &[u8], b: &[u8]) -> (r: bool)
    ensures
        r == (a@ == b@),
{
    let n: usize = a.len();
    if n != b.len() {
        return false;
    }
    let mut i: usize = 0;
    while i < n
        invariant
            i <= n,
            n == a@.len(),
            n == b@.len(),
            a@.take(i as int) == b@.take(i as int),
        decreases n - i,
    {
        if a[i] != b[i] {
            return false;
        }
        assert(a@.take(i + 1) == a@.take(i as int).push(a@[i as int]));
        assert(b@.take(i + 1) == b@.take(i as int).push(b@[i as int]));
        i = i + 1;
    }
    assert(a@ == a@.take(n as int));
    assert(b@ == b@.take(n as int));
    true
}

/// A check on what was read: where `holds` is false, the read fails at `pos`
/// with `message`.
pub fn check(holds: bool, pos: u64, message: &str) -> (r: BinResult<()>)
    ensures
        holds ==> r is Ok,
        !holds ==> r is Err && r->Err_0@ == (ErrorView::AssertFail { pos, message: message@ }),
{
    if holds {
        Ok(())
    } else {
        Err(Error::AssertFail { pos, message: message.to_owned() })
    }
}

} // verus!
