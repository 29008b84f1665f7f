//! The protocol for tuples: the members one after the other, in order,
//! under one context. Every member is told nothing.
use vstd::prelude::*;
use crate::binread::{BinRead, Outcome, Resolved};
use crate::error::BinResult;
use crate::io::{Cursor, Stream};
use crate::options::{OptionsView, ReadOptions};

verus! {

/// The one member of a tuple, one after the other.
pub open spec fn read_tuple1<A: BinRead<Args = ()>>(
    stream: Stream,
    options: OptionsView,
) -> Outcome<(A::Model,)> {
    match A::read_spec(stream, options, ()) {
        Err(e) => Err(e),
        Ok((a, after_a)) => Ok(((a,), after_a)),
    }
}

/// Phase two on the one member of a tuple, in the order in which they were
/// read.
pub open spec fn resolve_tuple1<A: BinRead<Args = ()>>(
    model: (A::Model,),
    data: Seq<u8>,
    options: OptionsView,
) -> Resolved<(A::Model,)> {
    match A::resolve_spec(model.0, data, options, ()) {
        Err(e) => Err(e),
        Ok(a) => Ok((a,)),
    }
}

impl<A: BinRead<Args = ()>> BinRead for (A,) {
    type Args = ();

    type Model = (A::Model,);

    open spec fn model(&self) -> (A::Model,) {
        (self.0.model(),)
    }

    open spec fn read_spec(stream: Stream, options: OptionsView, args: ()) -> Outcome<
        (A::Model,),
    > {
        read_tuple1::<A>(stream, options)
    }

    open spec fn resolve_spec(
        model: (A::Model,),
        data: Seq<u8>,
        options: OptionsView,
        args: (),
    ) -> Resolved<(A::Model,)> {
        resolve_tuple1::<A>(model, data, options)
    }

    fn read_options(reader: &mut Cursor, options: &ReadOptions, args: &()) -> (r: BinResult<
        (A,),
    >) {
        assert(reader@ == old(reader)@.at(reader@.pos));
        let a: A = match A::read_options(reader, options, &()) {
            Ok(v) => v,
            Err(e) => {
                return Err(e);
            },
        };
        Ok((a,))
    }

    fn after_parse(&mut self, reader: &mut Cursor, options: &ReadOptions, args: &()) -> (r:
        BinResult<()>) {
        self.0.after_parse(reader, options, &())
    }
}

/// The two members of a tuple, one after the other.
pub open spec fn read_tuple2<A: BinRead<Args = ()>, B: BinRead<Args = ()>>(
    stream: Stream,
    options: OptionsView,
) -> Outcome<(A::Model, B::Model)> {
    match A::read_spec(stream, options, ()) {
        Err(e) => Err(e),
        Ok((a, after_a)) => {
            match B::read_spec(stream.at(after_a), options, ()) {
                Err(e) => Err(e),
                Ok((b, after_b)) => Ok(((a, b), after_b)),
            }
        },
    }
}

/// Phase two on the two members of a tuple, in the order in which they were
/// read.
pub open spec fn resolve_tuple2<A: BinRead<Args = ()>, B: BinRead<Args = ()>>(
    model: (A::Model, B::Model),
    data: Seq<u8>,
    options: OptionsView,
) -> Resolved<(A::Model, B::Model)> {
    match A::resolve_spec(model.0, data, options, ()) {
        Err(e) => Err(e),
        Ok(a) => {
            match B::resolve_spec(model.1, data, options, ()) {
                Err(e) => Err(e),
                Ok(b) => Ok((a, b)),
            }
        },
    }
}

impl<A: BinRead<Args = ()>, B: BinRead<Args = ()>> BinRead for (A, B) {
    type Args = ();

    type Model = (A::Model, B::Model);

    open spec fn model(&self) -> (A::Model, B::Model) {
        (self.0.model(), self.1.model())
    }

    open spec fn read_spec(stream: Stream, options: OptionsView, args: ()) -> Outcome<
        (A::Model, B::Model),
    > {
        read_tuple2::<A, B>(stream, options)
    }

    open spec fn resolve_spec(
        model: (A::Model, B::Model),
        data: Seq<u8>,
        options: OptionsView,
        args: (),
    ) -> Resolved<(A::Model, B::Model)> {
        resolve_tuple2::<A, B>(model, data, options)
    }

    fn read_options(reader: &mut Cursor, options: &ReadOptions, args: &()) -> (r: BinResult<
        (A, B),
    >) {
        assert(reader@ == old(reader)@.at(reader@.pos));
        let a: A = match A::read_options(reader, options, &()) {
            Ok(v) => v,
            Err(e) => {
                return Err(e);
            },
        };
        assert(reader@ == old(reader)@.at(reader@.pos));
        let b: B = match B::read_options(reader, options, &()) {
            Ok(v) => v,
            Err(e) => {
                return Err(e);
            },
        };
        Ok((a, b))
    }

    fn after_parse(&mut self, reader: &mut Cursor, options: &ReadOptions, args: &()) -> (r:
        BinResult<()>) {
        match self.0.after_parse(reader, options, &()) {
            Ok(()) => {},
            Err(e) => {
                return Err(e);
            },
        }
        self.1.after_parse(reader, options, &())
    }
}

/// The three members of a tuple, one after the other.
pub open spec fn read_tuple3<A: BinRead<Args = ()>, B: BinRead<Args = ()>, C: BinRead<Args = ()>>(
    stream: Stream,
    options: OptionsView,
) -> Outcome<(A::Model, B::Model, C::Model)> {
    match A::read_spec(stream, options, ()) {
        Err(e) => Err(e),
        Ok((a, after_a)) => {
            match B::read_spec(stream.at(after_a), options, ()) {
                Err(e) => Err(e),
                Ok((b, after_b)) => {
                    match C::read_spec(stream.at(after_b), options, ()) {
                        Err(e) => Err(e),
                        Ok((c, after_c)) => Ok(((a, b, c), after_c)),
                    }
                },
            }
        },
    }
}

/// Phase two on the three members of a tuple, in the order in which they were
/// read.
pub open spec fn resolve_tuple3<A: BinRead<Args = ()>, B: BinRead<Args = ()>, C: BinRead<Args = ()>>(
    model: (A::Model, B::Model, C::Model),
    data: Seq<u8>,
    options: OptionsView,
) -> Resolved<(A::Model, B::Model, C::Model)> {
    match A::resolve_spec(model.0, data, options, ()) {
        Err(e) => Err(e),
        Ok(a) => {
            match B::resolve_spec(model.1, data, options, ()) {
                Err(e) => Err(e),
                Ok(b) => {
                    match C::resolve_spec(model.2, data, options, ()) {
                        Err(e) => Err(e),
                        Ok(c) => Ok((a, b, c)),
                    }
                },
            }
        },
    }
}

impl<A: BinRead<Args = ()>, B: BinRead<Args = ()>, C: BinRead<Args = ()>> BinRead for (A, B, C) {
    type Args = ();

    type Model = (A::Model, B::Model, C::Model);

    open spec fn model(&self) -> (A::Model, B::Model, C::Model) {
        (self.0.model(), self.1.model(), self.2.model())
    }

    open spec fn read_spec(stream: Stream, options: OptionsView, args: ()) -> Outcome<
        (A::Model, B::Model, C::Model),
    > {
        read_tuple3::<A, B, C>(stream, options)
    }

    open spec fn resolve_spec(
        model: (A::Model, B::Model, C::Model),
        data: Seq<u8>,
        options: OptionsView,
        args: (),
    ) -> Resolved<(A::Model, B::Model, C::Model)> {
        resolve_tuple3::<A, B, C>(model, data, options)
    }

    fn read_options(reader: &mut Cursor, options: &ReadOptions, args: &()) -> (r: BinResult<
        (A, B, C),
    >) {
        assert(reader@ == old(reader)@.at(reader@.pos));
        let a: A = match A::read_options(reader, options, &()) {
            Ok(v) => v,
            Err(e) => {
                return Err(e);
            },
        };
        assert(reader@ == old(reader)@.at(reader@.pos));
        let b: B = match B::read_options(reader, options, &()) {
            Ok(v) => v,
            Err(e) => {
                return Err(e);
            },
        };
        assert(reader@ == old(reader)@.at(reader@.pos));
        let c: C = match C::read_options(reader, options, &()) {
            Ok(v) => v,
            Err(e) => {
                return Err(e);
            },
        };
        Ok((a, b, c))
    }

    fn after_parse(&mut self, reader: &mut Cursor, options: &ReadOptions, args: &()) -> (r:
        BinResult<()>) {
        match self.0.after_parse(reader, options, &()) {
            Ok(()) => {},
            Err(e) => {
                return Err(e);
            },
        }
        match self.1.after_parse(reader, options, &()) {
            Ok(()) => {},
            Err(e) => {
                return Err(e);
            },
        }
        self.2.after_parse(reader, options, &())
    }
}

/// The four members of a tuple, one after the other.
pub open spec fn read_tuple4<A: BinRead<Args = ()>, B: BinRead<Args = ()>, C: BinRead<Args = ()>, D: BinRead<Args = ()>>(
    stream: Stream,
    options: OptionsView,
) -> Outcome<(A::Model, B::Model, C::Model, D::Model)> {
    match A::read_spec(stream, options, ()) {
        Err(e) => Err(e),
        Ok((a, after_a)) => {
            match B::read_spec(stream.at(after_a), options, ()) {
                Err(e) => Err(e),
                Ok((b, after_b)) => {
                    match C::read_spec(stream.at(after_b), options, ()) {
                        Err(e) => Err(e),
                        Ok((c, after_c)) => {
                            match D::read_spec(stream.at(after_c), options, ()) {
                                Err(e) => Err(e),
                                Ok((d, after_d)) => Ok(((a, b, c, d), after_d)),
                            }
                        },
                    }
                },
            }
        },
    }
}

/// Phase two on the four members of a tuple, in the order in which they were
/// read.
pub open spec fn resolve_tuple4<A: BinRead<Args = ()>, B: BinRead<Args = ()>, C: BinRead<Args = ()>, D: BinRead<Args = ()>>(
    model: (A::Model, B::Model, C::Model, D::Model),
    data: Seq<u8>,
    options: OptionsView,
) -> Resolved<(A::Model, B::Model, C::Model, D::Model)> {
    match A::resolve_spec(model.0, data, options, ()) {
        Err(e) => Err(e),
        Ok(a) => {
            match B::resolve_spec(model.1, data, options, ()) {
                Err(e) => Err(e),
                Ok(b) => {
                    match C::resolve_spec(model.2, data, options, ()) {
                        Err(e) => Err(e),
                        Ok(c) => {
                            match D::resolve_spec(model.3, data, options, ()) {
                                Err(e) => Err(e),
                                Ok(d) => Ok((a, b, c, d)),
                            }
                        },
                    }
                },
            }
        },
    }
}

impl<A: BinRead<Args = ()>, B: BinRead<Args = ()>, C: BinRead<Args = ()>, D: BinRead<Args = ()>> BinRead for (A, B, C, D) {
    type Args = ();

    type Model = (A::Model, B::Model, C::Model, D::Model);

    open spec fn model(&self) -> (A::Model, B::Model, C::Model, D::Model) {
        (self.0.model(), self.1.model(), self.2.model(), self.3.model())
    }

    open spec fn read_spec(stream: Stream, options: OptionsView, args: ()) -> Outcome<
        (A::Model, B::Model, C::Model, D::Model),
    > {
        read_tuple4::<A, B, C, D>(stream, options)
    }

    open spec fn resolve_spec(
        model: (A::Model, B::Model, C::Model, D::Model),
        data: Seq<u8>,
        options: OptionsView,
        args: (),
    ) -> Resolved<(A::Model, B::Model, C::Model, D::Model)> {
        resolve_tuple4::<A, B, C, D>(model, data, options)
    }

    fn read_options(reader: &mut Cursor, options: &ReadOptions, args: &()) -> (r: BinResult<
        (A, B, C, D),
    >) {
        assert(reader@ == old(reader)@.at(reader@.pos));
        let a: A = match A::read_options(reader, options, &()) {
            Ok(v) => v,
            Err(e) => {
                return Err(e);
            },
        };
        assert(reader@ == old(reader)@.at(reader@.pos));
        let b: B = match B::read_options(reader, options, &()) {
            Ok(v) => v,
            Err(e) => {
                return Err(e);
            },
        };
        assert(reader@ == old(reader)@.at(reader@.pos));
        let c: C = match C::read_options(reader, options, &()) {
            Ok(v) => v,
            Err(e) => {
                return Err(e);
            },
        };
        assert(reader@ == old(reader)@.at(reader@.pos));
        let d: D = match D::read_options(reader, options, &()) {
            Ok(v) => v,
            Err(e) => {
                return Err(e);
            },
        };
        Ok((a, b, c, d))
    }

    fn after_parse(&mut self, reader: &mut Cursor, options: &ReadOptions, args: &()) -> (r:
        BinResult<()>) {
        match self.0.after_parse(reader, options, &()) {
            Ok(()) => {},
            Err(e) => {
                return Err(e);
            },
        }
        match self.1.after_parse(reader, options, &()) {
            Ok(()) => {},
            Err(e) => {
                return Err(e);
            },
        }
        match self.2.after_parse(reader, options, &()) {
            Ok(()) => {},
            Err(e) => {
                return Err(e);
            },
        }
        self.3.after_parse(reader, options, &())
    }
}

/// The five members of a tuple, one after the other.
pub open spec fn read_tuple5<A: BinRead<Args = ()>, B: BinRead<Args = ()>, C: BinRead<Args = ()>, D: BinRead<Args = ()>, E: BinRead<Args = ()>>(
    stream: Stream,
    options: OptionsView,
) -> Outcome<(A::Model, B::Model, C::Model, D::Model, E::Model)> {
    match A::read_spec(stream, options, ()) {
        Err(e) => Err(e),
        Ok((a, after_a)) => {
            match B::read_spec(stream.at(after_a), options, ()) {
                Err(e) => Err(e),
                Ok((b, after_b)) => {
                    match C::read_spec(stream.at(after_b), options, ()) {
                        Err(e) => Err(e),
                        Ok((c, after_c)) => {
                            match D::read_spec(stream.at(after_c), options, ()) {
                                Err(e) => Err(e),
                                Ok((d, after_d)) => {
                                    match E::read_spec(stream.at(after_d), options, ()) {
                                        Err(e) => Err(e),
                                        Ok((e, after_e)) => Ok(((a, b, c, d, e), after_e)),
                                    }
                                },
                            }
                        },
                    }
                },
            }
        },
    }
}

/// Phase two on the five members of a tuple, in the order in which they were
/// read.
pub open spec fn resolve_tuple5<A: BinRead<Args = ()>, B: BinRead<Args = ()>, C: BinRead<Args = ()>, D: BinRead<Args = ()>, E: BinRead<Args = ()>>(
    model: (A::Model, B::Model, C::Model, D::Model, E::Model),
    data: Seq<u8>,
    options: OptionsView,
) -> Resolved<(A::Model, B::Model, C::Model, D::Model, E::Model)> {
    match A::resolve_spec(model.0, data, options, ()) {
        Err(e) => Err(e),
        Ok(a) => {
            match B::resolve_spec(model.1, data, options, ()) {
                Err(e) => Err(e),
                Ok(b) => {
                    match C::resolve_spec(model.2, data, options, ()) {
                        Err(e) => Err(e),
                        Ok(c) => {
                            match D::resolve_spec(model.3, data, options, ()) {
                                Err(e) => Err(e),
                                Ok(d) => {
                                    match E::resolve_spec(model.4, data, options, ()) {
                                        Err(e) => Err(e),
                                        Ok(e) => Ok((a, b, c, d, e)),
                                    }
                                },
                            }
                        },
                    }
                },
            }
        },
    }
}

impl<A: BinRead<Args = ()>, B: BinRead<Args = ()>, C: BinRead<Args = ()>, D: BinRead<Args = ()>, E: BinRead<Args = ()>> BinRead for (A, B, C, D, E) {
    type Args = ();

    type Model = (A::Model, B::Model, C::Model, D::Model, E::Model);

    open spec fn model(&self) -> (A::Model, B::Model, C::Model, D::Model, E::Model) {
        (self.0.model(), self.1.model(), self.2.model(), self.3.model(), self.4.model())
    }

    open spec fn read_spec(stream: Stream, options: OptionsView, args: ()) -> Outcome<
        (A::Model, B::Model, C::Model, D::Model, E::Model),
    > {
        read_tuple5::<A, B, C, D, E>(stream, options)
    }

    open spec fn resolve_spec(
        model: (A::Model, B::Model, C::Model, D::Model, E::Model),
        data: Seq<u8>,
        options: OptionsView,
        args: (),
    ) -> Resolved<(A::Model, B::Model, C::Model, D::Model, E::Model)> {
        resolve_tuple5::<A, B, C, D, E>(model, data, options)
    }

    fn read_options(reader: &mut Cursor, options: &ReadOptions, args: &()) -> (r: BinResult<
        (A, B, C, D, E),
    >) {
        assert(reader@ == old(reader)@.at(reader@.pos));
        let a: A = match A::read_options(reader, options, &()) {
            Ok(v) => v,
            Err(e) => {
                return Err(e);
            },
        };
        assert(reader@ == old(reader)@.at(reader@.pos));
        let b: B = match B::read_options(reader, options, &()) {
            Ok(v) => v,
            Err(e) => {
                return Err(e);
            },
        };
        assert(reader@ == old(reader)@.at(reader@.pos));
        let c: C = match C::read_options(reader, options, &()) {
            Ok(v) => v,
            Err(e) => {
                return Err(e);
            },
        };
        assert(reader@ == old(reader)@.at(reader@.pos));
        let d: D = match D::read_options(reader, options, &()) {
            Ok(v) => v,
            Err(e) => {
                return Err(e);
            },
        };
        assert(reader@ == old(reader)@.at(reader@.pos));
        let e: E = match E::read_options(reader, options, &()) {
            Ok(v) => v,
            Err(e) => {
                return Err(e);
            },
        };
        Ok((a, b, c, d, e))
    }

    fn after_parse(&mut self, reader: &mut Cursor, options: &ReadOptions, args: &()) -> (r:
        BinResult<()>) {
        match self.0.after_parse(reader, options, &()) {
            Ok(()) => {},
            Err(e) => {
                return Err(e);
            },
        }
        match self.1.after_parse(reader, options, &()) {
            Ok(()) => {},
            Err(e) => {
                return Err(e);
            },
        }
        match self.2.after_parse(reader, options, &()) {
            Ok(()) => {},
            Err(e) => {
                return Err(e);
            },
        }
        match self.3.after_parse(reader, options, &()) {
            Ok(()) => {},
            Err(e) => {
                return Err(e);
            },
        }
        self.4.after_parse(reader, options, &())
    }
}

/// The six members of a tuple, one after the other.
pub open spec fn read_tuple6<A: BinRead<Args = ()>, B: BinRead<Args = ()>, C: BinRead<Args = ()>, D: BinRead<Args = ()>, E: BinRead<Args = ()>, F: BinRead<Args = ()>>(
    stream: Stream,
    options: OptionsView,
) -> Outcome<(A::Model, B::Model, C::Model, D::Model, E::Model, F::Model)> {
    match A::read_spec(stream, options, ()) {
        Err(e) => Err(e),
        Ok((a, after_a)) => {
            match B::read_spec(stream.at(after_a), options, ()) {
                Err(e) => Err(e),
                Ok((b, after_b)) => {
                    match C::read_spec(stream.at(after_b), options, ()) {
                        Err(e) => Err(e),
                        Ok((c, after_c)) => {
                            match D::read_spec(stream.at(after_c), options, ()) {
                                Err(e) => Err(e),
                                Ok((d, after_d)) => {
                                    match E::read_spec(stream.at(after_d), options, ()) {
                                        Err(e) => Err(e),
                                        Ok((e, after_e)) => {
                                            match F::read_spec(stream.at(after_e), options, ()) {
                                                Err(e) => Err(e),
                                                Ok((f, after_f)) => Ok(((a, b, c, d, e, f), after_f)),
                                            }
                                        },
                                    }
                                },
                            }
                        },
                    }
                },
            }
        },
    }
}

/// Phase two on the six members of a tuple, in the order in which they were
/// read.
pub open spec fn resolve_tuple6<A: BinRead<Args = ()>, B: BinRead<Args = ()>, C: BinRead<Args = ()>, D: BinRead<Args = ()>, E: BinRead<Args = ()>, F: BinRead<Args = ()>>(
    model: (A::Model, B::Model, C::Model, D::Model, E::Model, F::Model),
    data: Seq<u8>,
    options: OptionsView,
) -> Resolved<(A::Model, B::Model, C::Model, D::Model, E::Model, F::Model)> {
    match A::resolve_spec(model.0, data, options, ()) {
        Err(e) => Err(e),
        Ok(a) => {
            match B::resolve_spec(model.1, data, options, ()) {
                Err(e) => Err(e),
                Ok(b) => {
                    match C::resolve_spec(model.2, data, options, ()) {
                        Err(e) => Err(e),
                        Ok(c) => {
                            match D::resolve_spec(model.3, data, options, ()) {
                                Err(e) => Err(e),
                                Ok(d) => {
                                    match E::resolve_spec(model.4, data, options, ()) {
                                        Err(e) => Err(e),
                                        Ok(e) => {
                                            match F::resolve_spec(model.5, data, options, ()) {
                                                Err(e) => Err(e),
                                                Ok(f) => Ok((a, b, c, d, e, f)),
                                            }
                                        },
                                    }
                                },
                            }
                        },
                    }
                },
            }
        },
    }
}

impl<A: BinRead<Args = ()>, B: BinRead<Args = ()>, C: BinRead<Args = ()>, D: BinRead<Args = ()>, E: BinRead<Args = ()>, F: BinRead<Args = ()>> BinRead for (A, B, C, D, E, F) {
    type Args = ();

    type Model = (A::Model, B::Model, C::Model, D::Model, E::Model, F::Model);

    open spec fn model(&self) -> (A::Model, B::Model, C::Model, D::Model, E::Model, F::Model) {
        (self.0.model(), self.1.model(), self.2.model(), self.3.model(), self.4.model(), self.5.model())
    }

    open spec fn read_spec(stream: Stream, options: OptionsView, args: ()) -> Outcome<
        (A::Model, B::Model, C::Model, D::Model, E::Model, F::Model),
    > {
        read_tuple6::<A, B, C, D, E, F>(stream, options)
    }

    open spec fn resolve_spec(
        model: (A::Model, B::Model, C::Model, D::Model, E::Model, F::Model),
        data: Seq<u8>,
        options: OptionsView,
        args: (),
    ) -> Resolved<(A::Model, B::Model, C::Model, D::Model, E::Model, F::Model)> {
        resolve_tuple6::<A, B, C, D, E, F>(model, data, options)
    }

    fn read_options(reader: &mut Cursor, options: &ReadOptions, args: &()) -> (r: BinResult<
        (A, B, C, D, E, F),
    >) {
        assert(reader@ == old(reader)@.at(reader@.pos));
        let a: A = match A::read_options(reader, options, &()) {
            Ok(v) => v,
            Err(e) => {
                return Err(e);
            },
        };
        assert(reader@ == old(reader)@.at(reader@.pos));
        let b: B = match B::read_options(reader, options, &()) {
            Ok(v) => v,
            Err(e) => {
                return Err(e);
            },
        };
        assert(reader@ == old(reader)@.at(reader@.pos));
        let c: C = match C::read_options(reader, options, &()) {
            Ok(v) => v,
            Err(e) => {
                return Err(e);
            },
        };
        assert(reader@ == old(reader)@.at(reader@.pos));
        let d: D = match D::read_options(reader, options, &()) {
            Ok(v) => v,
            Err(e) => {
                return Err(e);
            },
        };
        assert(reader@ == old(reader)@.at(reader@.pos));
        let e: E = match E::read_options(reader, options, &()) {
            Ok(v) => v,
            Err(e) => {
                return Err(e);
            },
        };
        assert(reader@ == old(reader)@.at(reader@.pos));
        let f: F = match F::read_options(reader, options, &()) {
            Ok(v) => v,
            Err(e) => {
                return Err(e);
            },
        };
        Ok((a, b, c, d, e, f))
    }

    fn after_parse(&mut self, reader: &mut Cursor, options: &ReadOptions, args: &()) -> (r:
        BinResult<()>) {
        match self.0.after_parse(reader, options, &()) {
            Ok(()) => {},
            Err(e) => {
                return Err(e);
            },
        }
        match self.1.after_parse(reader, options, &()) {
            Ok(()) => {},
            Err(e) => {
                return Err(e);
            },
        }
        match self.2.after_parse(reader, options, &()) {
            Ok(()) => {},
            Err(e) => {
                return Err(e);
            },
        }
        match self.3.after_parse(reader, options, &()) {
            Ok(()) => {},
            Err(e) => {
                return Err(e);
            },
        }
        match self.4.after_parse(reader, options, &()) {
            Ok(()) => {},
            Err(e) => {
                return Err(e);
            },
        }
        self.5.after_parse(reader, options, &())
    }
}

/// The seven members of a tuple, one after the other.
pub open spec fn read_tuple7<A: BinRead<Args = ()>, B: BinRead<Args = ()>, C: BinRead<Args = ()>, D: BinRead<Args = ()>, E: BinRead<Args = ()>, F: BinRead<Args = ()>, G: BinRead<Args = ()>>(
    stream: Stream,
    options: OptionsView,
) -> Outcome<(A::Model, B::Model, C::Model, D::Model, E::Model, F::Model, G::Model)> {
    match A::read_spec(stream, options, ()) {
        Err(e) => Err(e),
        Ok((a, after_a)) => {
            match B::read_spec(stream.at(after_a), options, ()) {
                Err(e) => Err(e),
                Ok((b, after_b)) => {
                    match C::read_spec(stream.at(after_b), options, ()) {
                        Err(e) => Err(e),
                        Ok((c, after_c)) => {
                            match D::read_spec(stream.at(after_c), options, ()) {
                                Err(e) => Err(e),
                                Ok((d, after_d)) => {
                                    match E::read_spec(stream.at(after_d), options, ()) {
                                        Err(e) => Err(e),
                                        Ok((e, after_e)) => {
                                            match F::read_spec(stream.at(after_e), options, ()) {
                                                Err(e) => Err(e),
                                                Ok((f, after_f)) => {
                                                    match G::read_spec(stream.at(after_f), options, ()) {
                                                        Err(e) => Err(e),
                                                        Ok((g, after_g)) => Ok(((a, b, c, d, e, f, g), after_g)),
                                                    }
                                                },
                                            }
                                        },
                                    }
                                },
                            }
                        },
                    }
                },
            }
        },
    }
}

/// Phase two on the seven members of a tuple, in the order in which they were
/// read.
pub open spec fn resolve_tuple7<A: BinRead<Args = ()>, B: BinRead<Args = ()>, C: BinRead<Args = ()>, D: BinRead<Args = ()>, E: BinRead<Args = ()>, F: BinRead<Args = ()>, G: BinRead<Args = ()>>(
    model: (A::Model, B::Model, C::Model, D::Model, E::Model, F::Model, G::Model),
    data: Seq<u8>,
    options: OptionsView,
) -> Resolved<(A::Model, B::Model, C::Model, D::Model, E::Model, F::Model, G::Model)> {
    match A::resolve_spec(model.0, data, options, ()) {
        Err(e) => Err(e),
        Ok(a) => {
            match B::resolve_spec(model.1, data, options, ()) {
                Err(e) => Err(e),
                Ok(b) => {
                    match C::resolve_spec(model.2, data, options, ()) {
                        Err(e) => Err(e),
                        Ok(c) => {
                            match D::resolve_spec(model.3, data, options, ()) {
                                Err(e) => Err(e),
                                Ok(d) => {
                                    match E::resolve_spec(model.4, data, options, ()) {
                                        Err(e) => Err(e),
                                        Ok(e) => {
                                            match F::resolve_spec(model.5, data, options, ()) {
                                                Err(e) => Err(e),
                                                Ok(f) => {
                                                    match G::resolve_spec(model.6, data, options, ()) {
                                                        Err(e) => Err(e),
                                                        Ok(g) => Ok((a, b, c, d, e, f, g)),
                                                    }
                                                },
                                            }
                                        },
                                    }
                                },
                            }
                        },
                    }
                },
            }
        },
    }
}

impl<A: BinRead<Args = ()>, B: BinRead<Args = ()>, C: BinRead<Args = ()>, D: BinRead<Args = ()>, E: BinRead<Args = ()>, F: BinRead<Args = ()>, G: BinRead<Args = ()>> BinRead for (A, B, C, D, E, F, G) {
    type Args = ();

    type Model = (A::Model, B::Model, C::Model, D::Model, E::Model, F::Model, G::Model);

    open spec fn model(&self) -> (A::Model, B::Model, C::Model, D::Model, E::Model, F::Model, G::Model) {
        (self.0.model(), self.1.model(), self.2.model(), self.3.model(), self.4.model(), self.5.model(), self.6.model())
    }

    open spec fn read_spec(stream: Stream, options: OptionsView, args: ()) -> Outcome<
        (A::Model, B::Model, C::Model, D::Model, E::Model, F::Model, G::Model),
    > {
        read_tuple7::<A, B, C, D, E, F, G>(stream, options)
    }

    open spec fn resolve_spec(
        model: (A::Model, B::Model, C::Model, D::Model, E::Model, F::Model, G::Model),
        data: Seq<u8>,
        options: OptionsView,
        args: (),
    ) -> Resolved<(A::Model, B::Model, C::Model, D::Model, E::Model, F::Model, G::Model)> {
        resolve_tuple7::<A, B, C, D, E, F, G>(model, data, options)
    }

    fn read_options(reader: &mut Cursor, options: &ReadOptions, args: &()) -> (r: BinResult<
        (A, B, C, D, E, F, G),
    >) {
        assert(reader@ == old(reader)@.at(reader@.pos));
        let a: A = match A::read_options(reader, options, &()) {
            Ok(v) => v,
            Err(e) => {
                return Err(e);
            },
        };
        assert(reader@ == old(reader)@.at(reader@.pos));
        let b: B = match B::read_options(reader, options, &()) {
            Ok(v) => v,
            Err(e) => {
                return Err(e);
            },
        };
        assert(reader@ == old(reader)@.at(reader@.pos));
        let c: C = match C::read_options(reader, options, &()) {
            Ok(v) => v,
            Err(e) => {
                return Err(e);
            },
        };
        assert(reader@ == old(reader)@.at(reader@.pos));
        let d: D = match D::read_options(reader, options, &()) {
            Ok(v) => v,
            Err(e) => {
                return Err(e);
            },
        };
        assert(reader@ == old(reader)@.at(reader@.pos));
        let e: E = match E::read_options(reader, options, &()) {
            Ok(v) => v,
            Err(e) => {
                return Err(e);
            },
        };
        assert(reader@ == old(reader)@.at(reader@.pos));
        let f: F = match F::read_options(reader, options, &()) {
            Ok(v) => v,
            Err(e) => {
                return Err(e);
            },
        };
        assert(reader@ == old(reader)@.at(reader@.pos));
        let g: G = match G::read_options(reader, options, &()) {
            Ok(v) => v,
            Err(e) => {
                return Err(e);
            },
        };
        Ok((a, b, c, d, e, f, g))
    }

    fn after_parse(&mut self, reader: &mut Cursor, options: &ReadOptions, args: &()) -> (r:
        BinResult<()>) {
        match self.0.after_parse(reader, options, &()) {
            Ok(()) => {},
            Err(e) => {
                return Err(e);
            },
        }
        match self.1.after_parse(reader, options, &()) {
            Ok(()) => {},
            Err(e) => {
                return Err(e);
            },
        }
        match self.2.after_parse(reader, options, &()) {
            Ok(()) => {},
            Err(e) => {
                return Err(e);
            },
        }
        match self.3.after_parse(reader, options, &()) {
            Ok(()) => {},
            Err(e) => {
                return Err(e);
            },
        }
        match self.4.after_parse(reader, options, &()) {
            Ok(()) => {},
            Err(e) => {
                return Err(e);
            },
        }
        match self.5.after_parse(reader, options, &()) {
            Ok(()) => {},
            Err(e) => {
                return Err(e);
            },
        }
        self.6.after_parse(reader, options, &())
    }
}

/// The eight members of a tuple, one after the other.
pub open spec fn read_tuple8<A: BinRead<Args = ()>, B: BinRead<Args = ()>, C: BinRead<Args = ()>, D: BinRead<Args = ()>, E: BinRead<Args = ()>, F: BinRead<Args = ()>, G: BinRead<Args = ()>, H: BinRead<Args = ()>>(
    stream: Stream,
    options: OptionsView,
) -> Outcome<(A::Model, B::Model, C::Model, D::Model, E::Model, F::Model, G::Model, H::Model)> {
    match A::read_spec(stream, options, ()) {
        Err(e) => Err(e),
        Ok((a, after_a)) => {
            match B::read_spec(stream.at(after_a), options, ()) {
                Err(e) => Err(e),
                Ok((b, after_b)) => {
                    match C::read_spec(stream.at(after_b), options, ()) {
                        Err(e) => Err(e),
                        Ok((c, after_c)) => {
                            match D::read_spec(stream.at(after_c), options, ()) {
                                Err(e) => Err(e),
                                Ok((d, after_d)) => {
                                    match E::read_spec(stream.at(after_d), options, ()) {
                                        Err(e) => Err(e),
                                        Ok((e, after_e)) => {
                                            match F::read_spec(stream.at(after_e), options, ()) {
                                                Err(e) => Err(e),
                                                Ok((f, after_f)) => {
                                                    match G::read_spec(stream.at(after_f), options, ()) {
                                                        Err(e) => Err(e),
                                                        Ok((g, after_g)) => {
                                                            match H::read_spec(stream.at(after_g), options, ()) {
                                                                Err(e) => Err(e),
                                                                Ok((h, after_h)) => Ok(((a, b, c, d, e, f, g, h), after_h)),
                                                            }
                                                        },
                                                    }
                                                },
                                            }
                                        },
                                    }
                                },
                            }
                        },
                    }
                },
            }
        },
    }
}

/// Phase two on the eight members of a tuple, in the order in which they were
/// read.
pub open spec fn resolve_tuple8<A: BinRead<Args = ()>, B: BinRead<Args = ()>, C: BinRead<Args = ()>, D: BinRead<Args = ()>, E: BinRead<Args = ()>, F: BinRead<Args = ()>, G: BinRead<Args = ()>, H: BinRead<Args = ()>>(
    model: (A::Model, B::Model, C::Model, D::Model, E::Model, F::Model, G::Model, H::Model),
    data: Seq<u8>,
    options: OptionsView,
) -> Resolved<(A::Model, B::Model, C::Model, D::Model, E::Model, F::Model, G::Model, H::Model)> {
    match A::resolve_spec(model.0, data, options, ()) {
        Err(e) => Err(e),
        Ok(a) => {
            match B::resolve_spec(model.1, data, options, ()) {
                Err(e) => Err(e),
                Ok(b) => {
                    match C::resolve_spec(model.2, data, options, ()) {
                        Err(e) => Err(e),
                        Ok(c) => {
                            match D::resolve_spec(model.3, data, options, ()) {
                                Err(e) => Err(e),
                                Ok(d) => {
                                    match E::resolve_spec(model.4, data, options, ()) {
                                        Err(e) => Err(e),
                                        Ok(e) => {
                                            match F::resolve_spec(model.5, data, options, ()) {
                                                Err(e) => Err(e),
                                                Ok(f) => {
                                                    match G::resolve_spec(model.6, data, options, ()) {
                                                        Err(e) => Err(e),
                                                        Ok(g) => {
                                                            match H::resolve_spec(model.7, data, options, ()) {
                                                                Err(e) => Err(e),
                                                                Ok(h) => Ok((a, b, c, d, e, f, g, h)),
                                                            }
                                                        },
                                                    }
                                                },
                                            }
                                        },
                                    }
                                },
                            }
                        },
                    }
                },
            }
        },
    }
}

impl<A: BinRead<Args = ()>, B: BinRead<Args = ()>, C: BinRead<Args = ()>, D: BinRead<Args = ()>, E: BinRead<Args = ()>, F: BinRead<Args = ()>, G: BinRead<Args = ()>, H: BinRead<Args = ()>> BinRead for (A, B, C, D, E, F, G, H) {
    type Args = ();

    type Model = (A::Model, B::Model, C::Model, D::Model, E::Model, F::Model, G::Model, H::Model);

    open spec fn model(&self) -> (A::Model, B::Model, C::Model, D::Model, E::Model, F::Model, G::Model, H::Model) {
        (self.0.model(), self.1.model(), self.2.model(), self.3.model(), self.4.model(), self.5.model(), self.6.model(), self.7.model())
    }

    open spec fn read_spec(stream: Stream, options: OptionsView, args: ()) -> Outcome<
        (A::Model, B::Model, C::Model, D::Model, E::Model, F::Model, G::Model, H::Model),
    > {
        read_tuple8::<A, B, C, D, E, F, G, H>(stream, options)
    }

    open spec fn resolve_spec(
        model: (A::Model, B::Model, C::Model, D::Model, E::Model, F::Model, G::Model, H::Model),
        data: Seq<u8>,
        options: OptionsView,
        args: (),
    ) -> Resolved<(A::Model, B::Model, C::Model, D::Model, E::Model, F::Model, G::Model, H::Model)> {
        resolve_tuple8::<A, B, C, D, E, F, G, H>(model, data, options)
    }

    fn read_options(reader: &mut Cursor, options: &ReadOptions, args: &()) -> (r: BinResult<
        (A, B, C, D, E, F, G, H),
    >) {
        assert(reader@ == old(reader)@.at(reader@.pos));
        let a: A = match A::read_options(reader, options, &()) {
            Ok(v) => v,
            Err(e) => {
                return Err(e);
            },
        };
        assert(reader@ == old(reader)@.at(reader@.pos));
        let b: B = match B::read_options(reader, options, &()) {
            Ok(v) => v,
            Err(e) => {
                return Err(e);
            },
        };
        assert(reader@ == old(reader)@.at(reader@.pos));
        let c: C = match C::read_options(reader, options, &()) {
            Ok(v) => v,
            Err(e) => {
                return Err(e);
            },
        };
        assert(reader@ == old(reader)@.at(reader@.pos));
        let d: D = match D::read_options(reader, options, &()) {
            Ok(v) => v,
            Err(e) => {
                return Err(e);
            },
        };
        assert(reader@ == old(reader)@.at(reader@.pos));
        let e: E = match E::read_options(reader, options, &()) {
            Ok(v) => v,
            Err(e) => {
                return Err(e);
            },
        };
        assert(reader@ == old(reader)@.at(reader@.pos));
        let f: F = match F::read_options(reader, options, &()) {
            Ok(v) => v,
            Err(e) => {
                return Err(e);
            },
        };
        assert(reader@ == old(reader)@.at(reader@.pos));
        let g: G = match G::read_options(reader, options, &()) {
            Ok(v) => v,
            Err(e) => {
                return Err(e);
            },
        };
        assert(reader@ == old(reader)@.at(reader@.pos));
        let h: H = match H::read_options(reader, options, &()) {
            Ok(v) => v,
            Err(e) => {
                return Err(e);
            },
        };
        Ok((a, b, c, d, e, f, g, h))
    }

    fn after_parse(&mut self, reader: &mut Cursor, options: &ReadOptions, args: &()) -> (r:
        BinResult<()>) {
        match self.0.after_parse(reader, options, &()) {
            Ok(()) => {},
            Err(e) => {
                return Err(e);
            },
        }
        match self.1.after_parse(reader, options, &()) {
            Ok(()) => {},
            Err(e) => {
                return Err(e);
            },
        }
        match self.2.after_parse(reader, options, &()) {
            Ok(()) => {},
            Err(e) => {
                return Err(e);
            },
        }
        match self.3.after_parse(reader, options, &()) {
            Ok(()) => {},
            Err(e) => {
                return Err(e);
            },
        }
        match self.4.after_parse(reader, options, &()) {
            Ok(()) => {},
            Err(e) => {
                return Err(e);
            },
        }
        match self.5.after_parse(reader, options, &()) {
            Ok(()) => {},
            Err(e) => {
                return Err(e);
            },
        }
        match self.6.after_parse(reader, options, &()) {
            Ok(()) => {},
            Err(e) => {
                return Err(e);
            },
        }
        self.7.after_parse(reader, options, &())
    }
}

/// The nine members of a tuple, one after the other.
pub open spec fn read_tuple9<A: BinRead<Args = ()>, B: BinRead<Args = ()>, C: BinRead<Args = ()>, D: BinRead<Args = ()>, E: BinRead<Args = ()>, F: BinRead<Args = ()>, G: BinRead<Args = ()>, H: BinRead<Args = ()>, I: BinRead<Args = ()>>(
    stream: Stream,
    options: OptionsView,
) -> Outcome<(A::Model, B::Model, C::Model, D::Model, E::Model, F::Model, G::Model, H::Model, I::Model)> {
    match A::read_spec(stream, options, ()) {
        Err(e) => Err(e),
        Ok((a, after_a)) => {
            match B::read_spec(stream.at(after_a), options, ()) {
                Err(e) => Err(e),
                Ok((b, after_b)) => {
                    match C::read_spec(stream.at(after_b), options, ()) {
                        Err(e) => Err(e),
                        Ok((c, after_c)) => {
                            match D::read_spec(stream.at(after_c), options, ()) {
                                Err(e) => Err(e),
                                Ok((d, after_d)) => {
                                    match E::read_spec(stream.at(after_d), options, ()) {
                                        Err(e) => Err(e),
                                        Ok((e, after_e)) => {
                                            match F::read_spec(stream.at(after_e), options, ()) {
                                                Err(e) => Err(e),
                                                Ok((f, after_f)) => {
                                                    match G::read_spec(stream.at(after_f), options, ()) {
                                                        Err(e) => Err(e),
                                                        Ok((g, after_g)) => {
                                                            match H::read_spec(stream.at(after_g), options, ()) {
                                                                Err(e) => Err(e),
                                                                Ok((h, after_h)) => {
                                                                    match I::read_spec(stream.at(after_h), options, ()) {
                                                                        Err(e) => Err(e),
                                                                        Ok((i, after_i)) => Ok(((a, b, c, d, e, f, g, h, i), after_i)),
                                                                    }
                                                                },
                                                            }
                                                        },
                                                    }
                                                },
                                            }
                                        },
                                    }
                                },
                            }
                        },
                    }
                },
            }
        },
    }
}

/// Phase two on the nine members of a tuple, in the order in which they were
/// read.
pub open spec fn resolve_tuple9<A: BinRead<Args = ()>, B: BinRead<Args = ()>, C: BinRead<Args = ()>, D: BinRead<Args = ()>, E: BinRead<Args = ()>, F: BinRead<Args = ()>, G: BinRead<Args = ()>, H: BinRead<Args = ()>, I: BinRead<Args = ()>>(
    model: (A::Model, B::Model, C::Model, D::Model, E::Model, F::Model, G::Model, H::Model, I::Model),
    data: Seq<u8>,
    options: OptionsView,
) -> Resolved<(A::Model, B::Model, C::Model, D::Model, E::Model, F::Model, G::Model, H::Model, I::Model)> {
    match A::resolve_spec(model.0, data, options, ()) {
        Err(e) => Err(e),
        Ok(a) => {
            match B::resolve_spec(model.1, data, options, ()) {
                Err(e) => Err(e),
                Ok(b) => {
                    match C::resolve_spec(model.2, data, options, ()) {
                        Err(e) => Err(e),
                        Ok(c) => {
                            match D::resolve_spec(model.3, data, options, ()) {
                                Err(e) => Err(e),
                                Ok(d) => {
                                    match E::resolve_spec(model.4, data, options, ()) {
                                        Err(e) => Err(e),
                                        Ok(e) => {
                                            match F::resolve_spec(model.5, data, options, ()) {
                                                Err(e) => Err(e),
                                                Ok(f) => {
                                                    match G::resolve_spec(model.6, data, options, ()) {
                                                        Err(e) => Err(e),
                                                        Ok(g) => {
                                                            match H::resolve_spec(model.7, data, options, ()) {
                                                                Err(e) => Err(e),
                                                                Ok(h) => {
                                                                    match I::resolve_spec(model.8, data, options, ()) {
                                                                        Err(e) => Err(e),
                                                                        Ok(i) => Ok((a, b, c, d, e, f, g, h, i)),
                                                                    }
                                                                },
                                                            }
                                                        },
                                                    }
                                                },
                                            }
                                        },
                                    }
                                },
                            }
                        },
                    }
                },
            }
        },
    }
}

impl<A: BinRead<Args = ()>, B: BinRead<Args = ()>, C: BinRead<Args = ()>, D: BinRead<Args = ()>, E: BinRead<Args = ()>, F: BinRead<Args = ()>, G: BinRead<Args = ()>, H: BinRead<Args = ()>, I: BinRead<Args = ()>> BinRead for (A, B, C, D, E, F, G, H, I) {
    type Args = ();

    type Model = (A::Model, B::Model, C::Model, D::Model, E::Model, F::Model, G::Model, H::Model, I::Model);

    open spec fn model(&self) -> (A::Model, B::Model, C::Model, D::Model, E::Model, F::Model, G::Model, H::Model, I::Model) {
        (self.0.model(), self.1.model(), self.2.model(), self.3.model(), self.4.model(), self.5.model(), self.6.model(), self.7.model(), self.8.model())
    }

    open spec fn read_spec(stream: Stream, options: OptionsView, args: ()) -> Outcome<
        (A::Model, B::Model, C::Model, D::Model, E::Model, F::Model, G::Model, H::Model, I::Model),
    > {
        read_tuple9::<A, B, C, D, E, F, G, H, I>(stream, options)
    }

    open spec fn resolve_spec(
        model: (A::Model, B::Model, C::Model, D::Model, E::Model, F::Model, G::Model, H::Model, I::Model),
        data: Seq<u8>,
        options: OptionsView,
        args: (),
    ) -> Resolved<(A::Model, B::Model, C::Model, D::Model, E::Model, F::Model, G::Model, H::Model, I::Model)> {
        resolve_tuple9::<A, B, C, D, E, F, G, H, I>(model, data, options)
    }

    fn read_options(reader: &mut Cursor, options: &ReadOptions, args: &()) -> (r: BinResult<
        (A, B, C, D, E, F, G, H, I),
    >) {
        assert(reader@ == old(reader)@.at(reader@.pos));
        let a: A = match A::read_options(reader, options, &()) {
            Ok(v) => v,
            Err(e) => {
                return Err(e);
            },
        };
        assert(reader@ == old(reader)@.at(reader@.pos));
        let b: B = match B::read_options(reader, options, &()) {
            Ok(v) => v,
            Err(e) => {
                return Err(e);
            },
        };
        assert(reader@ == old(reader)@.at(reader@.pos));
        let c: C = match C::read_options(reader, options, &()) {
            Ok(v) => v,
            Err(e) => {
                return Err(e);
            },
        };
        assert(reader@ == old(reader)@.at(reader@.pos));
        let d: D = match D::read_options(reader, options, &()) {
            Ok(v) => v,
            Err(e) => {
                return Err(e);
            },
        };
        assert(reader@ == old(reader)@.at(reader@.pos));
        let e: E = match E::read_options(reader, options, &()) {
            Ok(v) => v,
            Err(e) => {
                return Err(e);
            },
        };
        assert(reader@ == old(reader)@.at(reader@.pos));
        let f: F = match F::read_options(reader, options, &()) {
            Ok(v) => v,
            Err(e) => {
                return Err(e);
            },
        };
        assert(reader@ == old(reader)@.at(reader@.pos));
        let g: G = match G::read_options(reader, options, &()) {
            Ok(v) => v,
            Err(e) => {
                return Err(e);
            },
        };
        assert(reader@ == old(reader)@.at(reader@.pos));
        let h: H = match H::read_options(reader, options, &()) {
            Ok(v) => v,
            Err(e) => {
                return Err(e);
            },
        };
        assert(reader@ == old(reader)@.at(reader@.pos));
        let i: I = match I::read_options(reader, options, &()) {
            Ok(v) => v,
            Err(e) => {
                return Err(e);
            },
        };
        Ok((a, b, c, d, e, f, g, h, i))
    }

    fn after_parse(&mut self, reader: &mut Cursor, options: &ReadOptions, args: &()) -> (r:
        BinResult<()>) {
        match self.0.after_parse(reader, options, &()) {
            Ok(()) => {},
            Err(e) => {
                return Err(e);
            },
        }
        match self.1.after_parse(reader, options, &()) {
            Ok(()) => {},
            Err(e) => {
                return Err(e);
            },
        }
        match self.2.after_parse(reader, options, &()) {
            Ok(()) => {},
            Err(e) => {
                return Err(e);
            },
        }
        match self.3.after_parse(reader, options, &()) {
            Ok(()) => {},
            Err(e) => {
                return Err(e);
            },
        }
        match self.4.after_parse(reader, options, &()) {
            Ok(()) => {},
            Err(e) => {
                return Err(e);
            },
        }
        match self.5.after_parse(reader, options, &()) {
            Ok(()) => {},
            Err(e) => {
                return Err(e);
            },
        }
        match self.6.after_parse(reader, options, &()) {
            Ok(()) => {},
            Err(e) => {
                return Err(e);
            },
        }
        match self.7.after_parse(reader, options, &()) {
            Ok(()) => {},
            Err(e) => {
                return Err(e);
            },
        }
        self.8.after_parse(reader, options, &())
    }
}

/// The ten members of a tuple, one after the other.
pub open spec fn read_tuple10<A: BinRead<Args = ()>, B: BinRead<Args = ()>, C: BinRead<Args = ()>, D: BinRead<Args = ()>, E: BinRead<Args = ()>, F: BinRead<Args = ()>, G: BinRead<Args = ()>, H: BinRead<Args = ()>, I: BinRead<Args = ()>, J: BinRead<Args = ()>>(
    stream: Stream,
    options: OptionsView,
) -> Outcome<(A::Model, B::Model, C::Model, D::Model, E::Model, F::Model, G::Model, H::Model, I::Model, J::Model)> {
    match A::read_spec(stream, options, ()) {
        Err(e) => Err(e),
        Ok((a, after_a)) => {
            match B::read_spec(stream.at(after_a), options, ()) {
                Err(e) => Err(e),
                Ok((b, after_b)) => {
                    match C::read_spec(stream.at(after_b), options, ()) {
                        Err(e) => Err(e),
                        Ok((c, after_c)) => {
                            match D::read_spec(stream.at(after_c), options, ()) {
                                Err(e) => Err(e),
                                Ok((d, after_d)) => {
                                    match E::read_spec(stream.at(after_d), options, ()) {
                                        Err(e) => Err(e),
                                        Ok((e, after_e)) => {
                                            match F::read_spec(stream.at(after_e), options, ()) {
                                                Err(e) => Err(e),
                                                Ok((f, after_f)) => {
                                                    match G::read_spec(stream.at(after_f), options, ()) {
                                                        Err(e) => Err(e),
                                                        Ok((g, after_g)) => {
                                                            match H::read_spec(stream.at(after_g), options, ()) {
                                                                Err(e) => Err(e),
                                                                Ok((h, after_h)) => {
                                                                    match I::read_spec(stream.at(after_h), options, ()) {
                                                                        Err(e) => Err(e),
                                                                        Ok((i, after_i)) => {
                                                                            match J::read_spec(stream.at(after_i), options, ()) {
                                                                                Err(e) => Err(e),
                                                                                Ok((j, after_j)) => Ok(((a, b, c, d, e, f, g, h, i, j), after_j)),
                                                                            }
                                                                        },
                                                                    }
                                                                },
                                                            }
                                                        },
                                                    }
                                                },
                                            }
                                        },
                                    }
                                },
                            }
                        },
                    }
                },
            }
        },
    }
}

/// Phase two on the ten members of a tuple, in the order in which they were
/// read.
pub open spec fn resolve_tuple10<A: BinRead<Args = ()>, B: BinRead<Args = ()>, C: BinRead<Args = ()>, D: BinRead<Args = ()>, E: BinRead<Args = ()>, F: BinRead<Args = ()>, G: BinRead<Args = ()>, H: BinRead<Args = ()>, I: BinRead<Args = ()>, J: BinRead<Args = ()>>(
    model: (A::Model, B::Model, C::Model, D::Model, E::Model, F::Model, G::Model, H::Model, I::Model, J::Model),
    data: Seq<u8>,
    options: OptionsView,
) -> Resolved<(A::Model, B::Model, C::Model, D::Model, E::Model, F::Model, G::Model, H::Model, I::Model, J::Model)> {
    match A::resolve_spec(model.0, data, options, ()) {
        Err(e) => Err(e),
        Ok(a) => {
            match B::resolve_spec(model.1, data, options, ()) {
                Err(e) => Err(e),
                Ok(b) => {
                    match C::resolve_spec(model.2, data, options, ()) {
                        Err(e) => Err(e),
                        Ok(c) => {
                            match D::resolve_spec(model.3, data, options, ()) {
                                Err(e) => Err(e),
                                Ok(d) => {
                                    match E::resolve_spec(model.4, data, options, ()) {
                                        Err(e) => Err(e),
                                        Ok(e) => {
                                            match F::resolve_spec(model.5, data, options, ()) {
                                                Err(e) => Err(e),
                                                Ok(f) => {
                                                    match G::resolve_spec(model.6, data, options, ()) {
                                                        Err(e) => Err(e),
                                                        Ok(g) => {
                                                            match H::resolve_spec(model.7, data, options, ()) {
                                                                Err(e) => Err(e),
                                                                Ok(h) => {
                                                                    match I::resolve_spec(model.8, data, options, ()) {
                                                                        Err(e) => Err(e),
                                                                        Ok(i) => {
                                                                            match J::resolve_spec(model.9, data, options, ()) {
                                                                                Err(e) => Err(e),
                                                                                Ok(j) => Ok((a, b, c, d, e, f, g, h, i, j)),
                                                                            }
                                                                        },
                                                                    }
                                                                },
                                                            }
                                                        },
                                                    }
                                                },
                                            }
                                        },
                                    }
                                },
                            }
                        },
                    }
                },
            }
        },
    }
}

impl<A: BinRead<Args = ()>, B: BinRead<Args = ()>, C: BinRead<Args = ()>, D: BinRead<Args = ()>, E: BinRead<Args = ()>, F: BinRead<Args = ()>, G: BinRead<Args = ()>, H: BinRead<Args = ()>, I: BinRead<Args = ()>, J: BinRead<Args = ()>> BinRead for (A, B, C, D, E, F, G, H, I, J) {
    type Args = ();

    type Model = (A::Model, B::Model, C::Model, D::Model, E::Model, F::Model, G::Model, H::Model, I::Model, J::Model);

    open spec fn model(&self) -> (A::Model, B::Model, C::Model, D::Model, E::Model, F::Model, G::Model, H::Model, I::Model, J::Model) {
        (self.0.model(), self.1.model(), self.2.model(), self.3.model(), self.4.model(), self.5.model(), self.6.model(), self.7.model(), self.8.model(), self.9.model())
    }

    open spec fn read_spec(stream: Stream, options: OptionsView, args: ()) -> Outcome<
        (A::Model, B::Model, C::Model, D::Model, E::Model, F::Model, G::Model, H::Model, I::Model, J::Model),
    > {
        read_tuple10::<A, B, C, D, E, F, G, H, I, J>(stream, options)
    }

    open spec fn resolve_spec(
        model: (A::Model, B::Model, C::Model, D::Model, E::Model, F::Model, G::Model, H::Model, I::Model, J::Model),
        data: Seq<u8>,
        options: OptionsView,
        args: (),
    ) -> Resolved<(A::Model, B::Model, C::Model, D::Model, E::Model, F::Model, G::Model, H::Model, I::Model, J::Model)> {
        resolve_tuple10::<A, B, C, D, E, F, G, H, I, J>(model, data, options)
    }

    fn read_options(reader: &mut Cursor, options: &ReadOptions, args: &()) -> (r: BinResult<
        (A, B, C, D, E, F, G, H, I, J),
    >) {
        assert(reader@ == old(reader)@.at(reader@.pos));
        let a: A = match A::read_options(reader, options, &()) {
            Ok(v) => v,
            Err(e) => {
                return Err(e);
            },
        };
        assert(reader@ == old(reader)@.at(reader@.pos));
        let b: B = match B::read_options(reader, options, &()) {
            Ok(v) => v,
            Err(e) => {
                return Err(e);
            },
        };
        assert(reader@ == old(reader)@.at(reader@.pos));
        let c: C = match C::read_options(reader, options, &()) {
            Ok(v) => v,
            Err(e) => {
                return Err(e);
            },
        };
        assert(reader@ == old(reader)@.at(reader@.pos));
        let d: D = match D::read_options(reader, options, &()) {
            Ok(v) => v,
            Err(e) => {
                return Err(e);
            },
        };
        assert(reader@ == old(reader)@.at(reader@.pos));
        let e: E = match E::read_options(reader, options, &()) {
            Ok(v) => v,
            Err(e) => {
                return Err(e);
            },
        };
        assert(reader@ == old(reader)@.at(reader@.pos));
        let f: F = match F::read_options(reader, options, &()) {
            Ok(v) => v,
            Err(e) => {
                return Err(e);
            },
        };
        assert(reader@ == old(reader)@.at(reader@.pos));
        let g: G = match G::read_options(reader, options, &()) {
            Ok(v) => v,
            Err(e) => {
                return Err(e);
            },
        };
        assert(reader@ == old(reader)@.at(reader@.pos));
        let h: H = match H::read_options(reader, options, &()) {
            Ok(v) => v,
            Err(e) => {
                return Err(e);
            },
        };
        assert(reader@ == old(reader)@.at(reader@.pos));
        let i: I = match I::read_options(reader, options, &()) {
            Ok(v) => v,
            Err(e) => {
                return Err(e);
            },
        };
        assert(reader@ == old(reader)@.at(reader@.pos));
        let j: J = match J::read_options(reader, options, &()) {
            Ok(v) => v,
            Err(e) => {
                return Err(e);
            },
        };
        Ok((a, b, c, d, e, f, g, h, i, j))
    }

    fn after_parse(&mut self, reader: &mut Cursor, options: &ReadOptions, args: &()) -> (r:
        BinResult<()>) {
        match self.0.after_parse(reader, options, &()) {
            Ok(()) => {},
            Err(e) => {
                return Err(e);
            },
        }
        match self.1.after_parse(reader, options, &()) {
            Ok(()) => {},
            Err(e) => {
                return Err(e);
            },
        }
        match self.2.after_parse(reader, options, &()) {
            Ok(()) => {},
            Err(e) => {
                return Err(e);
            },
        }
        match self.3.after_parse(reader, options, &()) {
            Ok(()) => {},
            Err(e) => {
                return Err(e);
            },
        }
        match self.4.after_parse(reader, options, &()) {
            Ok(()) => {},
            Err(e) => {
                return Err(e);
            },
        }
        match self.5.after_parse(reader, options, &()) {
            Ok(()) => {},
            Err(e) => {
                return Err(e);
            },
        }
        match self.6.after_parse(reader, options, &()) {
            Ok(()) => {},
            Err(e) => {
                return Err(e);
            },
        }
        match self.7.after_parse(reader, options, &()) {
            Ok(()) => {},
            Err(e) => {
                return Err(e);
            },
        }
        match self.8.after_parse(reader, options, &()) {
            Ok(()) => {},
            Err(e) => {
                return Err(e);
            },
        }
        self.9.after_parse(reader, options, &())
    }
}

/// The eleven members of a tuple, one after the other.
pub open spec fn read_tuple11<A: BinRead<Args = ()>, B: BinRead<Args = ()>, C: BinRead<Args = ()>, D: BinRead<Args = ()>, E: BinRead<Args = ()>, F: BinRead<Args = ()>, G: BinRead<Args = ()>, H: BinRead<Args = ()>, I: BinRead<Args = ()>, J: BinRead<Args = ()>, K: BinRead<Args = ()>>(
    stream: Stream,
    options: OptionsView,
) -> Outcome<(A::Model, B::Model, C::Model, D::Model, E::Model, F::Model, G::Model, H::Model, I::Model, J::Model, K::Model)> {
    match A::read_spec(stream, options, ()) {
        Err(e) => Err(e),
        Ok((a, after_a)) => {
            match B::read_spec(stream.at(after_a), options, ()) {
                Err(e) => Err(e),
                Ok((b, after_b)) => {
                    match C::read_spec(stream.at(after_b), options, ()) {
                        Err(e) => Err(e),
                        Ok((c, after_c)) => {
                            match D::read_spec(stream.at(after_c), options, ()) {
                                Err(e) => Err(e),
                                Ok((d, after_d)) => {
                                    match E::read_spec(stream.at(after_d), options, ()) {
                                        Err(e) => Err(e),
                                        Ok((e, after_e)) => {
                                            match F::read_spec(stream.at(after_e), options, ()) {
                                                Err(e) => Err(e),
                                                Ok((f, after_f)) => {
                                                    match G::read_spec(stream.at(after_f), options, ()) {
                                                        Err(e) => Err(e),
                                                        Ok((g, after_g)) => {
                                                            match H::read_spec(stream.at(after_g), options, ()) {
                                                                Err(e) => Err(e),
                                                                Ok((h, after_h)) => {
                                                                    match I::read_spec(stream.at(after_h), options, ()) {
                                                                        Err(e) => Err(e),
                                                                        Ok((i, after_i)) => {
                                                                            match J::read_spec(stream.at(after_i), options, ()) {
                                                                                Err(e) => Err(e),
                                                                                Ok((j, after_j)) => {
                                                                                    match K::read_spec(stream.at(after_j), options, ()) {
                                                                                        Err(e) => Err(e),
                                                                                        Ok((k, after_k)) => Ok(((a, b, c, d, e, f, g, h, i, j, k), after_k)),
                                                                                    }
                                                                                },
                                                                            }
                                                                        },
                                                                    }
                                                                },
                                                            }
                                                        },
                                                    }
                                                },
                                            }
                                        },
                                    }
                                },
                            }
                        },
                    }
                },
            }
        },
    }
}

/// Phase two on the eleven members of a tuple, in the order in which they were
/// read.
pub open spec fn resolve_tuple11<A: BinRead<Args = ()>, B: BinRead<Args = ()>, C: BinRead<Args = ()>, D: BinRead<Args = ()>, E: BinRead<Args = ()>, F: BinRead<Args = ()>, G: BinRead<Args = ()>, H: BinRead<Args = ()>, I: BinRead<Args = ()>, J: BinRead<Args = ()>, K: BinRead<Args = ()>>(
    model: (A::Model, B::Model, C::Model, D::Model, E::Model, F::Model, G::Model, H::Model, I::Model, J::Model, K::Model),
    data: Seq<u8>,
    options: OptionsView,
) -> Resolved<(A::Model, B::Model, C::Model, D::Model, E::Model, F::Model, G::Model, H::Model, I::Model, J::Model, K::Model)> {
    match A::resolve_spec(model.0, data, options, ()) {
        Err(e) => Err(e),
        Ok(a) => {
            match B::resolve_spec(model.1, data, options, ()) {
                Err(e) => Err(e),
                Ok(b) => {
                    match C::resolve_spec(model.2, data, options, ()) {
                        Err(e) => Err(e),
                        Ok(c) => {
                            match D::resolve_spec(model.3, data, options, ()) {
                                Err(e) => Err(e),
                                Ok(d) => {
                                    match E::resolve_spec(model.4, data, options, ()) {
                                        Err(e) => Err(e),
                                        Ok(e) => {
                                            match F::resolve_spec(model.5, data, options, ()) {
                                                Err(e) => Err(e),
                                                Ok(f) => {
                                                    match G::resolve_spec(model.6, data, options, ()) {
                                                        Err(e) => Err(e),
                                                        Ok(g) => {
                                                            match H::resolve_spec(model.7, data, options, ()) {
                                                                Err(e) => Err(e),
                                                                Ok(h) => {
                                                                    match I::resolve_spec(model.8, data, options, ()) {
                                                                        Err(e) => Err(e),
                                                                        Ok(i) => {
                                                                            match J::resolve_spec(model.9, data, options, ()) {
                                                                                Err(e) => Err(e),
                                                                                Ok(j) => {
                                                                                    match K::resolve_spec(model.10, data, options, ()) {
                                                                                        Err(e) => Err(e),
                                                                                        Ok(k) => Ok((a, b, c, d, e, f, g, h, i, j, k)),
                                                                                    }
                                                                                },
                                                                            }
                                                                        },
                                                                    }
                                                                },
                                                            }
                                                        },
                                                    }
                                                },
                                            }
                                        },
                                    }
                                },
                            }
                        },
                    }
                },
            }
        },
    }
}

impl<A: BinRead<Args = ()>, B: BinRead<Args = ()>, C: BinRead<Args = ()>, D: BinRead<Args = ()>, E: BinRead<Args = ()>, F: BinRead<Args = ()>, G: BinRead<Args = ()>, H: BinRead<Args = ()>, I: BinRead<Args = ()>, J: BinRead<Args = ()>, K: BinRead<Args = ()>> BinRead for (A, B, C, D, E, F, G, H, I, J, K) {
    type Args = ();

    type Model = (A::Model, B::Model, C::Model, D::Model, E::Model, F::Model, G::Model, H::Model, I::Model, J::Model, K::Model);

    open spec fn model(&self) -> (A::Model, B::Model, C::Model, D::Model, E::Model, F::Model, G::Model, H::Model, I::Model, J::Model, K::Model) {
        (self.0.model(), self.1.model(), self.2.model(), self.3.model(), self.4.model(), self.5.model(), self.6.model(), self.7.model(), self.8.model(), self.9.model(), self.10.model())
    }

    open spec fn read_spec(stream: Stream, options: OptionsView, args: ()) -> Outcome<
        (A::Model, B::Model, C::Model, D::Model, E::Model, F::Model, G::Model, H::Model, I::Model, J::Model, K::Model),
    > {
        read_tuple11::<A, B, C, D, E, F, G, H, I, J, K>(stream, options)
    }

    open spec fn resolve_spec(
        model: (A::Model, B::Model, C::Model, D::Model, E::Model, F::Model, G::Model, H::Model, I::Model, J::Model, K::Model),
        data: Seq<u8>,
        options: OptionsView,
        args: (),
    ) -> Resolved<(A::Model, B::Model, C::Model, D::Model, E::Model, F::Model, G::Model, H::Model, I::Model, J::Model, K::Model)> {
        resolve_tuple11::<A, B, C, D, E, F, G, H, I, J, K>(model, data, options)
    }

    fn read_options(reader: &mut Cursor, options: &ReadOptions, args: &()) -> (r: BinResult<
        (A, B, C, D, E, F, G, H, I, J, K),
    >) {
        assert(reader@ == old(reader)@.at(reader@.pos));
        let a: A = match A::read_options(reader, options, &()) {
            Ok(v) => v,
            Err(e) => {
                return Err(e);
            },
        };
        assert(reader@ == old(reader)@.at(reader@.pos));
        let b: B = match B::read_options(reader, options, &()) {
            Ok(v) => v,
            Err(e) => {
                return Err(e);
            },
        };
        assert(reader@ == old(reader)@.at(reader@.pos));
        let c: C = match C::read_options(reader, options, &()) {
            Ok(v) => v,
            Err(e) => {
                return Err(e);
            },
        };
        assert(reader@ == old(reader)@.at(reader@.pos));
        let d: D = match D::read_options(reader, options, &()) {
            Ok(v) => v,
            Err(e) => {
                return Err(e);
            },
        };
        assert(reader@ == old(reader)@.at(reader@.pos));
        let e: E = match E::read_options(reader, options, &()) {
            Ok(v) => v,
            Err(e) => {
                return Err(e);
            },
        };
        assert(reader@ == old(reader)@.at(reader@.pos));
        let f: F = match F::read_options(reader, options, &()) {
            Ok(v) => v,
            Err(e) => {
                return Err(e);
            },
        };
        assert(reader@ == old(reader)@.at(reader@.pos));
        let g: G = match G::read_options(reader, options, &()) {
            Ok(v) => v,
            Err(e) => {
                return Err(e);
            },
        };
        assert(reader@ == old(reader)@.at(reader@.pos));
        let h: H = match H::read_options(reader, options, &()) {
            Ok(v) => v,
            Err(e) => {
                return Err(e);
            },
        };
        assert(reader@ == old(reader)@.at(reader@.pos));
        let i: I = match I::read_options(reader, options, &()) {
            Ok(v) => v,
            Err(e) => {
                return Err(e);
            },
        };
        assert(reader@ == old(reader)@.at(reader@.pos));
        let j: J = match J::read_options(reader, options, &()) {
            Ok(v) => v,
            Err(e) => {
                return Err(e);
            },
        };
        assert(reader@ == old(reader)@.at(reader@.pos));
        let k: K = match K::read_options(reader, options, &()) {
            Ok(v) => v,
            Err(e) => {
                return Err(e);
            },
        };
        Ok((a, b, c, d, e, f, g, h, i, j, k))
    }

    fn after_parse(&mut self, reader: &mut Cursor, options: &ReadOptions, args: &()) -> (r:
        BinResult<()>) {
        match self.0.after_parse(reader, options, &()) {
            Ok(()) => {},
            Err(e) => {
                return Err(e);
            },
        }
        match self.1.after_parse(reader, options, &()) {
            Ok(()) => {},
            Err(e) => {
                return Err(e);
            },
        }
        match self.2.after_parse(reader, options, &()) {
            Ok(()) => {},
            Err(e) => {
                return Err(e);
            },
        }
        match self.3.after_parse(reader, options, &()) {
            Ok(()) => {},
            Err(e) => {
                return Err(e);
            },
        }
        match self.4.after_parse(reader, options, &()) {
            Ok(()) => {},
            Err(e) => {
                return Err(e);
            },
        }
        match self.5.after_parse(reader, options, &()) {
            Ok(()) => {},
            Err(e) => {
                return Err(e);
            },
        }
        match self.6.after_parse(reader, options, &()) {
            Ok(()) => {},
            Err(e) => {
                return Err(e);
            },
        }
        match self.7.after_parse(reader, options, &()) {
            Ok(()) => {},
            Err(e) => {
                return Err(e);
            },
        }
        match self.8.after_parse(reader, options, &()) {
            Ok(()) => {},
            Err(e) => {
                return Err(e);
            },
        }
        match self.9.after_parse(reader, options, &()) {
            Ok(()) => {},
            Err(e) => {
                return Err(e);
            },
        }
        self.10.after_parse(reader, options, &())
    }
}

/// The twelve members of a tuple, one after the other.
pub open spec fn read_tuple12<A: BinRead<Args = ()>, B: BinRead<Args = ()>, C: BinRead<Args = ()>, D: BinRead<Args = ()>, E: BinRead<Args = ()>, F: BinRead<Args = ()>, G: BinRead<Args = ()>, H: BinRead<Args = ()>, I: BinRead<Args = ()>, J: BinRead<Args = ()>, K: BinRead<Args = ()>, L: BinRead<Args = ()>>(
    stream: Stream,
    options: OptionsView,
) -> Outcome<(A::Model, B::Model, C::Model, D::Model, E::Model, F::Model, G::Model, H::Model, I::Model, J::Model, K::Model, L::Model)> {
    match A::read_spec(stream, options, ()) {
        Err(e) => Err(e),
        Ok((a, after_a)) => {
            match B::read_spec(stream.at(after_a), options, ()) {
                Err(e) => Err(e),
                Ok((b, after_b)) => {
                    match C::read_spec(stream.at(after_b), options, ()) {
                        Err(e) => Err(e),
                        Ok((c, after_c)) => {
                            match D::read_spec(stream.at(after_c), options, ()) {
                                Err(e) => Err(e),
                                Ok((d, after_d)) => {
                                    match E::read_spec(stream.at(after_d), options, ()) {
                                        Err(e) => Err(e),
                                        Ok((e, after_e)) => {
                                            match F::read_spec(stream.at(after_e), options, ()) {
                                                Err(e) => Err(e),
                                                Ok((f, after_f)) => {
                                                    match G::read_spec(stream.at(after_f), options, ()) {
                                                        Err(e) => Err(e),
                                                        Ok((g, after_g)) => {
                                                            match H::read_spec(stream.at(after_g), options, ()) {
                                                                Err(e) => Err(e),
                                                                Ok((h, after_h)) => {
                                                                    match I::read_spec(stream.at(after_h), options, ()) {
                                                                        Err(e) => Err(e),
                                                                        Ok((i, after_i)) => {
                                                                            match J::read_spec(stream.at(after_i), options, ()) {
                                                                                Err(e) => Err(e),
                                                                                Ok((j, after_j)) => {
                                                                                    match K::read_spec(stream.at(after_j), options, ()) {
                                                                                        Err(e) => Err(e),
                                                                                        Ok((k, after_k)) => {
                                                                                            match L::read_spec(stream.at(after_k), options, ()) {
                                                                                                Err(e) => Err(e),
                                                                                                Ok((l, after_l)) => Ok(((a, b, c, d, e, f, g, h, i, j, k, l), after_l)),
                                                                                            }
                                                                                        },
                                                                                    }
                                                                                },
                                                                            }
                                                                        },
                                                                    }
                                                                },
                                                            }
                                                        },
                                                    }
                                                },
                                            }
                                        },
                                    }
                                },
                            }
                        },
                    }
                },
            }
        },
    }
}

/// Phase two on the twelve members of a tuple, in the order in which they were
/// read.
pub open spec fn resolve_tuple12<A: BinRead<Args = ()>, B: BinRead<Args = ()>, C: BinRead<Args = ()>, D: BinRead<Args = ()>, E: BinRead<Args = ()>, F: BinRead<Args = ()>, G: BinRead<Args = ()>, H: BinRead<Args = ()>, I: BinRead<Args = ()>, J: BinRead<Args = ()>, K: BinRead<Args = ()>, L: BinRead<Args = ()>>(
    model: (A::Model, B::Model, C::Model, D::Model, E::Model, F::Model, G::Model, H::Model, I::Model, J::Model, K::Model, L::Model),
    data: Seq<u8>,
    options: OptionsView,
) -> Resolved<(A::Model, B::Model, C::Model, D::Model, E::Model, F::Model, G::Model, H::Model, I::Model, J::Model, K::Model, L::Model)> {
    match A::resolve_spec(model.0, data, options, ()) {
        Err(e) => Err(e),
        Ok(a) => {
            match B::resolve_spec(model.1, data, options, ()) {
                Err(e) => Err(e),
                Ok(b) => {
                    match C::resolve_spec(model.2, data, options, ()) {
                        Err(e) => Err(e),
                        Ok(c) => {
                            match D::resolve_spec(model.3, data, options, ()) {
                                Err(e) => Err(e),
                                Ok(d) => {
                                    match E::resolve_spec(model.4, data, options, ()) {
                                        Err(e) => Err(e),
                                        Ok(e) => {
                                            match F::resolve_spec(model.5, data, options, ()) {
                                                Err(e) => Err(e),
                                                Ok(f) => {
                                                    match G::resolve_spec(model.6, data, options, ()) {
                                                        Err(e) => Err(e),
                                                        Ok(g) => {
                                                            match H::resolve_spec(model.7, data, options, ()) {
                                                                Err(e) => Err(e),
                                                                Ok(h) => {
                                                                    match I::resolve_spec(model.8, data, options, ()) {
                                                                        Err(e) => Err(e),
                                                                        Ok(i) => {
                                                                            match J::resolve_spec(model.9, data, options, ()) {
                                                                                Err(e) => Err(e),
                                                                                Ok(j) => {
                                                                                    match K::resolve_spec(model.10, data, options, ()) {
                                                                                        Err(e) => Err(e),
                                                                                        Ok(k) => {
                                                                                            match L::resolve_spec(model.11, data, options, ()) {
                                                                                                Err(e) => Err(e),
                                                                                                Ok(l) => Ok((a, b, c, d, e, f, g, h, i, j, k, l)),
                                                                                            }
                                                                                        },
                                                                                    }
                                                                                },
                                                                            }
                                                                        },
                                                                    }
                                                                },
                                                            }
                                                        },
                                                    }
                                                },
                                            }
                                        },
                                    }
                                },
                            }
                        },
                    }
                },
            }
        },
    }
}

impl<A: BinRead<Args = ()>, B: BinRead<Args = ()>, C: BinRead<Args = ()>, D: BinRead<Args = ()>, E: BinRead<Args = ()>, F: BinRead<Args = ()>, G: BinRead<Args = ()>, H: BinRead<Args = ()>, I: BinRead<Args = ()>, J: BinRead<Args = ()>, K: BinRead<Args = ()>, L: BinRead<Args = ()>> BinRead for (A, B, C, D, E, F, G, H, I, J, K, L) {
    type Args = ();

    type Model = (A::Model, B::Model, C::Model, D::Model, E::Model, F::Model, G::Model, H::Model, I::Model, J::Model, K::Model, L::Model);

    open spec fn model(&self) -> (A::Model, B::Model, C::Model, D::Model, E::Model, F::Model, G::Model, H::Model, I::Model, J::Model, K::Model, L::Model) {
        (self.0.model(), self.1.model(), self.2.model(), self.3.model(), self.4.model(), self.5.model(), self.6.model(), self.7.model(), self.8.model(), self.9.model(), self.10.model(), self.11.model())
    }

    open spec fn read_spec(stream: Stream, options: OptionsView, args: ()) -> Outcome<
        (A::Model, B::Model, C::Model, D::Model, E::Model, F::Model, G::Model, H::Model, I::Model, J::Model, K::Model, L::Model),
    > {
        read_tuple12::<A, B, C, D, E, F, G, H, I, J, K, L>(stream, options)
    }

    open spec fn resolve_spec(
        model: (A::Model, B::Model, C::Model, D::Model, E::Model, F::Model, G::Model, H::Model, I::Model, J::Model, K::Model, L::Model),
        data: Seq<u8>,
        options: OptionsView,
        args: (),
    ) -> Resolved<(A::Model, B::Model, C::Model, D::Model, E::Model, F::Model, G::Model, H::Model, I::Model, J::Model, K::Model, L::Model)> {
        resolve_tuple12::<A, B, C, D, E, F, G, H, I, J, K, L>(model, data, options)
    }

    fn read_options(reader: &mut Cursor, options: &ReadOptions, args: &()) -> (r: BinResult<
        (A, B, C, D, E, F, G, H, I, J, K, L),
    >) {
        assert(reader@ == old(reader)@.at(reader@.pos));
        let a: A = match A::read_options(reader, options, &()) {
            Ok(v) => v,
            Err(e) => {
                return Err(e);
            },
        };
        assert(reader@ == old(reader)@.at(reader@.pos));
        let b: B = match B::read_options(reader, options, &()) {
            Ok(v) => v,
            Err(e) => {
                return Err(e);
            },
        };
        assert(reader@ == old(reader)@.at(reader@.pos));
        let c: C = match C::read_options(reader, options, &()) {
            Ok(v) => v,
            Err(e) => {
                return Err(e);
            },
        };
        assert(reader@ == old(reader)@.at(reader@.pos));
        let d: D = match D::read_options(reader, options, &()) {
            Ok(v) => v,
            Err(e) => {
                return Err(e);
            },
        };
        assert(reader@ == old(reader)@.at(reader@.pos));
        let e: E = match E::read_options(reader, options, &()) {
            Ok(v) => v,
            Err(e) => {
                return Err(e);
            },
        };
        assert(reader@ == old(reader)@.at(reader@.pos));
        let f: F = match F::read_options(reader, options, &()) {
            Ok(v) => v,
            Err(e) => {
                return Err(e);
            },
        };
        assert(reader@ == old(reader)@.at(reader@.pos));
        let g: G = match G::read_options(reader, options, &()) {
            Ok(v) => v,
            Err(e) => {
                return Err(e);
            },
        };
        assert(reader@ == old(reader)@.at(reader@.pos));
        let h: H = match H::read_options(reader, options, &()) {
            Ok(v) => v,
            Err(e) => {
                return Err(e);
            },
        };
        assert(reader@ == old(reader)@.at(reader@.pos));
        let i: I = match I::read_options(reader, options, &()) {
            Ok(v) => v,
            Err(e) => {
                return Err(e);
            },
        };
        assert(reader@ == old(reader)@.at(reader@.pos));
        let j: J = match J::read_options(reader, options, &()) {
            Ok(v) => v,
            Err(e) => {
                return Err(e);
            },
        };
        assert(reader@ == old(reader)@.at(reader@.pos));
        let k: K = match K::read_options(reader, options, &()) {
            Ok(v) => v,
            Err(e) => {
                return Err(e);
            },
        };
        assert(reader@ == old(reader)@.at(reader@.pos));
        let l: L = match L::read_options(reader, options, &()) {
            Ok(v) => v,
            Err(e) => {
                return Err(e);
            },
        };
        Ok((a, b, c, d, e, f, g, h, i, j, k, l))
    }

    fn after_parse(&mut self, reader: &mut Cursor, options: &ReadOptions, args: &()) -> (r:
        BinResult<()>) {
        match self.0.after_parse(reader, options, &()) {
            Ok(()) => {},
            Err(e) => {
                return Err(e);
            },
        }
        match self.1.after_parse(reader, options, &()) {
            Ok(()) => {},
            Err(e) => {
                return Err(e);
            },
        }
        match self.2.after_parse(reader, options, &()) {
            Ok(()) => {},
            Err(e) => {
                return Err(e);
            },
        }
        match self.3.after_parse(reader, options, &()) {
            Ok(()) => {},
            Err(e) => {
                return Err(e);
            },
        }
        match self.4.after_parse(reader, options, &()) {
            Ok(()) => {},
            Err(e) => {
                return Err(e);
            },
        }
        match self.5.after_parse(reader, options, &()) {
            Ok(()) => {},
            Err(e) => {
                return Err(e);
            },
        }
        match self.6.after_parse(reader, options, &()) {
            Ok(()) => {},
            Err(e) => {
                return Err(e);
            },
        }
        match self.7.after_parse(reader, options, &()) {
            Ok(()) => {},
            Err(e) => {
                return Err(e);
            },
        }
        match self.8.after_parse(reader, options, &()) {
            Ok(()) => {},
            Err(e) => {
                return Err(e);
            },
        }
        match self.9.after_parse(reader, options, &()) {
            Ok(()) => {},
            Err(e) => {
                return Err(e);
            },
        }
        match self.10.after_parse(reader, options, &()) {
            Ok(()) => {},
            Err(e) => {
                return Err(e);
            },
        }
        self.11.after_parse(reader, options, &())
    }
}

/// The thirteen members of a tuple, one after the other.
pub open spec fn read_tuple13<A: BinRead<Args = ()>, B: BinRead<Args = ()>, C: BinRead<Args = ()>, D: BinRead<Args = ()>, E: BinRead<Args = ()>, F: BinRead<Args = ()>, G: BinRead<Args = ()>, H: BinRead<Args = ()>, I: BinRead<Args = ()>, J: BinRead<Args = ()>, K: BinRead<Args = ()>, L: BinRead<Args = ()>, M: BinRead<Args = ()>>(
    stream: Stream,
    options: OptionsView,
) -> Outcome<(A::Model, B::Model, C::Model, D::Model, E::Model, F::Model, G::Model, H::Model, I::Model, J::Model, K::Model, L::Model, M::Model)> {
    match A::read_spec(stream, options, ()) {
        Err(e) => Err(e),
        Ok((a, after_a)) => {
            match B::read_spec(stream.at(after_a), options, ()) {
                Err(e) => Err(e),
                Ok((b, after_b)) => {
                    match C::read_spec(stream.at(after_b), options, ()) {
                        Err(e) => Err(e),
                        Ok((c, after_c)) => {
                            match D::read_spec(stream.at(after_c), options, ()) {
                                Err(e) => Err(e),
                                Ok((d, after_d)) => {
                                    match E::read_spec(stream.at(after_d), options, ()) {
                                        Err(e) => Err(e),
                                        Ok((e, after_e)) => {
                                            match F::read_spec(stream.at(after_e), options, ()) {
                                                Err(e) => Err(e),
                                                Ok((f, after_f)) => {
                                                    match G::read_spec(stream.at(after_f), options, ()) {
                                                        Err(e) => Err(e),
                                                        Ok((g, after_g)) => {
                                                            match H::read_spec(stream.at(after_g), options, ()) {
                                                                Err(e) => Err(e),
                                                                Ok((h, after_h)) => {
                                                                    match I::read_spec(stream.at(after_h), options, ()) {
                                                                        Err(e) => Err(e),
                                                                        Ok((i, after_i)) => {
                                                                            match J::read_spec(stream.at(after_i), options, ()) {
                                                                                Err(e) => Err(e),
                                                                                Ok((j, after_j)) => {
                                                                                    match K::read_spec(stream.at(after_j), options, ()) {
                                                                                        Err(e) => Err(e),
                                                                                        Ok((k, after_k)) => {
                                                                                            match L::read_spec(stream.at(after_k), options, ()) {
                                                                                                Err(e) => Err(e),
                                                                                                Ok((l, after_l)) => {
                                                                                                    match M::read_spec(stream.at(after_l), options, ()) {
                                                                                                        Err(e) => Err(e),
                                                                                                        Ok((m, after_m)) => Ok(((a, b, c, d, e, f, g, h, i, j, k, l, m), after_m)),
                                                                                                    }
                                                                                                },
                                                                                            }
                                                                                        },
                                                                                    }
                                                                                },
                                                                            }
                                                                        },
                                                                    }
                                                                },
                                                            }
                                                        },
                                                    }
                                                },
                                            }
                                        },
                                    }
                                },
                            }
                        },
                    }
                },
            }
        },
    }
}

/// Phase two on the thirteen members of a tuple, in the order in which they were
/// read.
pub open spec fn resolve_tuple13<A: BinRead<Args = ()>, B: BinRead<Args = ()>, C: BinRead<Args = ()>, D: BinRead<Args = ()>, E: BinRead<Args = ()>, F: BinRead<Args = ()>, G: BinRead<Args = ()>, H: BinRead<Args = ()>, I: BinRead<Args = ()>, J: BinRead<Args = ()>, K: BinRead<Args = ()>, L: BinRead<Args = ()>, M: BinRead<Args = ()>>(
    model: (A::Model, B::Model, C::Model, D::Model, E::Model, F::Model, G::Model, H::Model, I::Model, J::Model, K::Model, L::Model, M::Model),
    data: Seq<u8>,
    options: OptionsView,
) -> Resolved<(A::Model, B::Model, C::Model, D::Model, E::Model, F::Model, G::Model, H::Model, I::Model, J::Model, K::Model, L::Model, M::Model)> {
    match A::resolve_spec(model.0, data, options, ()) {
        Err(e) => Err(e),
        Ok(a) => {
            match B::resolve_spec(model.1, data, options, ()) {
                Err(e) => Err(e),
                Ok(b) => {
                    match C::resolve_spec(model.2, data, options, ()) {
                        Err(e) => Err(e),
                        Ok(c) => {
                            match D::resolve_spec(model.3, data, options, ()) {
                                Err(e) => Err(e),
                                Ok(d) => {
                                    match E::resolve_spec(model.4, data, options, ()) {
                                        Err(e) => Err(e),
                                        Ok(e) => {
                                            match F::resolve_spec(model.5, data, options, ()) {
                                                Err(e) => Err(e),
                                                Ok(f) => {
                                                    match G::resolve_spec(model.6, data, options, ()) {
                                                        Err(e) => Err(e),
                                                        Ok(g) => {
                                                            match H::resolve_spec(model.7, data, options, ()) {
                                                                Err(e) => Err(e),
                                                                Ok(h) => {
                                                                    match I::resolve_spec(model.8, data, options, ()) {
                                                                        Err(e) => Err(e),
                                                                        Ok(i) => {
                                                                            match J::resolve_spec(model.9, data, options, ()) {
                                                                                Err(e) => Err(e),
                                                                                Ok(j) => {
                                                                                    match K::resolve_spec(model.10, data, options, ()) {
                                                                                        Err(e) => Err(e),
                                                                                        Ok(k) => {
                                                                                            match L::resolve_spec(model.11, data, options, ()) {
                                                                                                Err(e) => Err(e),
                                                                                                Ok(l) => {
                                                                                                    match M::resolve_spec(model.12, data, options, ()) {
                                                                                                        Err(e) => Err(e),
                                                                                                        Ok(m) => Ok((a, b, c, d, e, f, g, h, i, j, k, l, m)),
                                                                                                    }
                                                                                                },
                                                                                            }
                                                                                        },
                                                                                    }
                                                                                },
                                                                            }
                                                                        },
                                                                    }
                                                                },
                                                            }
                                                        },
                                                    }
                                                },
                                            }
                                        },
                                    }
                                },
                            }
                        },
                    }
                },
            }
        },
    }
}

impl<A: BinRead<Args = ()>, B: BinRead<Args = ()>, C: BinRead<Args = ()>, D: BinRead<Args = ()>, E: BinRead<Args = ()>, F: BinRead<Args = ()>, G: BinRead<Args = ()>, H: BinRead<Args = ()>, I: BinRead<Args = ()>, J: BinRead<Args = ()>, K: BinRead<Args = ()>, L: BinRead<Args = ()>, M: BinRead<Args = ()>> BinRead for (A, B, C, D, E, F, G, H, I, J, K, L, M) {
    type Args = ();

    type Model = (A::Model, B::Model, C::Model, D::Model, E::Model, F::Model, G::Model, H::Model, I::Model, J::Model, K::Model, L::Model, M::Model);

    open spec fn model(&self) -> (A::Model, B::Model, C::Model, D::Model, E::Model, F::Model, G::Model, H::Model, I::Model, J::Model, K::Model, L::Model, M::Model) {
        (self.0.model(), self.1.model(), self.2.model(), self.3.model(), self.4.model(), self.5.model(), self.6.model(), self.7.model(), self.8.model(), self.9.model(), self.10.model(), self.11.model(), self.12.model())
    }

    open spec fn read_spec(stream: Stream, options: OptionsView, args: ()) -> Outcome<
        (A::Model, B::Model, C::Model, D::Model, E::Model, F::Model, G::Model, H::Model, I::Model, J::Model, K::Model, L::Model, M::Model),
    > {
        read_tuple13::<A, B, C, D, E, F, G, H, I, J, K, L, M>(stream, options)
    }

    open spec fn resolve_spec(
        model: (A::Model, B::Model, C::Model, D::Model, E::Model, F::Model, G::Model, H::Model, I::Model, J::Model, K::Model, L::Model, M::Model),
        data: Seq<u8>,
        options: OptionsView,
        args: (),
    ) -> Resolved<(A::Model, B::Model, C::Model, D::Model, E::Model, F::Model, G::Model, H::Model, I::Model, J::Model, K::Model, L::Model, M::Model)> {
        resolve_tuple13::<A, B, C, D, E, F, G, H, I, J, K, L, M>(model, data, options)
    }

    fn read_options(reader: &mut Cursor, options: &ReadOptions, args: &()) -> (r: BinResult<
        (A, B, C, D, E, F, G, H, I, J, K, L, M),
    >) {
        assert(reader@ == old(reader)@.at(reader@.pos));
        let a: A = match A::read_options(reader, options, &()) {
            Ok(v) => v,
            Err(e) => {
                return Err(e);
            },
        };
        assert(reader@ == old(reader)@.at(reader@.pos));
        let b: B = match B::read_options(reader, options, &()) {
            Ok(v) => v,
            Err(e) => {
                return Err(e);
            },
        };
        assert(reader@ == old(reader)@.at(reader@.pos));
        let c: C = match C::read_options(reader, options, &()) {
            Ok(v) => v,
            Err(e) => {
                return Err(e);
            },
        };
        assert(reader@ == old(reader)@.at(reader@.pos));
        let d: D = match D::read_options(reader, options, &()) {
            Ok(v) => v,
            Err(e) => {
                return Err(e);
            },
        };
        assert(reader@ == old(reader)@.at(reader@.pos));
        let e: E = match E::read_options(reader, options, &()) {
            Ok(v) => v,
            Err(e) => {
                return Err(e);
            },
        };
        assert(reader@ == old(reader)@.at(reader@.pos));
        let f: F = match F::read_options(reader, options, &()) {
            Ok(v) => v,
            Err(e) => {
                return Err(e);
            },
        };
        assert(reader@ == old(reader)@.at(reader@.pos));
        let g: G = match G::read_options(reader, options, &()) {
            Ok(v) => v,
            Err(e) => {
                return Err(e);
            },
        };
        assert(reader@ == old(reader)@.at(reader@.pos));
        let h: H = match H::read_options(reader, options, &()) {
            Ok(v) => v,
            Err(e) => {
                return Err(e);
            },
        };
        assert(reader@ == old(reader)@.at(reader@.pos));
        let i: I = match I::read_options(reader, options, &()) {
            Ok(v) => v,
            Err(e) => {
                return Err(e);
            },
        };
        assert(reader@ == old(reader)@.at(reader@.pos));
        let j: J = match J::read_options(reader, options, &()) {
            Ok(v) => v,
            Err(e) => {
                return Err(e);
            },
        };
        assert(reader@ == old(reader)@.at(reader@.pos));
        let k: K = match K::read_options(reader, options, &()) {
            Ok(v) => v,
            Err(e) => {
                return Err(e);
            },
        };
        assert(reader@ == old(reader)@.at(reader@.pos));
        let l: L = match L::read_options(reader, options, &()) {
            Ok(v) => v,
            Err(e) => {
                return Err(e);
            },
        };
        assert(reader@ == old(reader)@.at(reader@.pos));
        let m: M = match M::read_options(reader, options, &()) {
            Ok(v) => v,
            Err(e) => {
                return Err(e);
            },
        };
        Ok((a, b, c, d, e, f, g, h, i, j, k, l, m))
    }

    fn after_parse(&mut self, reader: &mut Cursor, options: &ReadOptions, args: &()) -> (r:
        BinResult<()>) {
        match self.0.after_parse(reader, options, &()) {
            Ok(()) => {},
            Err(e) => {
                return Err(e);
            },
        }
        match self.1.after_parse(reader, options, &()) {
            Ok(()) => {},
            Err(e) => {
                return Err(e);
            },
        }
        match self.2.after_parse(reader, options, &()) {
            Ok(()) => {},
            Err(e) => {
                return Err(e);
            },
        }
        match self.3.after_parse(reader, options, &()) {
            Ok(()) => {},
            Err(e) => {
                return Err(e);
            },
        }
        match self.4.after_parse(reader, options, &()) {
            Ok(()) => {},
            Err(e) => {
                return Err(e);
            },
        }
        match self.5.after_parse(reader, options, &()) {
            Ok(()) => {},
            Err(e) => {
                return Err(e);
            },
        }
        match self.6.after_parse(reader, options, &()) {
            Ok(()) => {},
            Err(e) => {
                return Err(e);
            },
        }
        match self.7.after_parse(reader, options, &()) {
            Ok(()) => {},
            Err(e) => {
                return Err(e);
            },
        }
        match self.8.after_parse(reader, options, &()) {
            Ok(()) => {},
            Err(e) => {
                return Err(e);
            },
        }
        match self.9.after_parse(reader, options, &()) {
            Ok(()) => {},
            Err(e) => {
                return Err(e);
            },
        }
        match self.10.after_parse(reader, options, &()) {
            Ok(()) => {},
            Err(e) => {
                return Err(e);
            },
        }
        match self.11.after_parse(reader, options, &()) {
            Ok(()) => {},
            Err(e) => {
                return Err(e);
            },
        }
        self.12.after_parse(reader, options, &())
    }
}

/// The fourteen members of a tuple, one after the other.
pub open spec fn read_tuple14<A: BinRead<Args = ()>, B: BinRead<Args = ()>, C: BinRead<Args = ()>, D: BinRead<Args = ()>, E: BinRead<Args = ()>, F: BinRead<Args = ()>, G: BinRead<Args = ()>, H: BinRead<Args = ()>, I: BinRead<Args = ()>, J: BinRead<Args = ()>, K: BinRead<Args = ()>, L: BinRead<Args = ()>, M: BinRead<Args = ()>, N: BinRead<Args = ()>>(
    stream: Stream,
    options: OptionsView,
) -> Outcome<(A::Model, B::Model, C::Model, D::Model, E::Model, F::Model, G::Model, H::Model, I::Model, J::Model, K::Model, L::Model, M::Model, N::Model)> {
    match A::read_spec(stream, options, ()) {
        Err(e) => Err(e),
        Ok((a, after_a)) => {
            match B::read_spec(stream.at(after_a), options, ()) {
                Err(e) => Err(e),
                Ok((b, after_b)) => {
                    match C::read_spec(stream.at(after_b), options, ()) {
                        Err(e) => Err(e),
                        Ok((c, after_c)) => {
                            match D::read_spec(stream.at(after_c), options, ()) {
                                Err(e) => Err(e),
                                Ok((d, after_d)) => {
                                    match E::read_spec(stream.at(after_d), options, ()) {
                                        Err(e) => Err(e),
                                        Ok((e, after_e)) => {
                                            match F::read_spec(stream.at(after_e), options, ()) {
                                                Err(e) => Err(e),
                                                Ok((f, after_f)) => {
                                                    match G::read_spec(stream.at(after_f), options, ()) {
                                                        Err(e) => Err(e),
                                                        Ok((g, after_g)) => {
                                                            match H::read_spec(stream.at(after_g), options, ()) {
                                                                Err(e) => Err(e),
                                                                Ok((h, after_h)) => {
                                                                    match I::read_spec(stream.at(after_h), options, ()) {
                                                                        Err(e) => Err(e),
                                                                        Ok((i, after_i)) => {
                                                                            match J::read_spec(stream.at(after_i), options, ()) {
                                                                                Err(e) => Err(e),
                                                                                Ok((j, after_j)) => {
                                                                                    match K::read_spec(stream.at(after_j), options, ()) {
                                                                                        Err(e) => Err(e),
                                                                                        Ok((k, after_k)) => {
                                                                                            match L::read_spec(stream.at(after_k), options, ()) {
                                                                                                Err(e) => Err(e),
                                                                                                Ok((l, after_l)) => {
                                                                                                    match M::read_spec(stream.at(after_l), options, ()) {
                                                                                                        Err(e) => Err(e),
                                                                                                        Ok((m, after_m)) => {
                                                                                                            match N::read_spec(stream.at(after_m), options, ()) {
                                                                                                                Err(e) => Err(e),
                                                                                                                Ok((n, after_n)) => Ok(((a, b, c, d, e, f, g, h, i, j, k, l, m, n), after_n)),
                                                                                                            }
                                                                                                        },
                                                                                                    }
                                                                                                },
                                                                                            }
                                                                                        },
                                                                                    }
                                                                                },
                                                                            }
                                                                        },
                                                                    }
                                                                },
                                                            }
                                                        },
                                                    }
                                                },
                                            }
                                        },
                                    }
                                },
                            }
                        },
                    }
                },
            }
        },
    }
}

/// Phase two on the fourteen members of a tuple, in the order in which they were
/// read.
pub open spec fn resolve_tuple14<A: BinRead<Args = ()>, B: BinRead<Args = ()>, C: BinRead<Args = ()>, D: BinRead<Args = ()>, E: BinRead<Args = ()>, F: BinRead<Args = ()>, G: BinRead<Args = ()>, H: BinRead<Args = ()>, I: BinRead<Args = ()>, J: BinRead<Args = ()>, K: BinRead<Args = ()>, L: BinRead<Args = ()>, M: BinRead<Args = ()>, N: BinRead<Args = ()>>(
    model: (A::Model, B::Model, C::Model, D::Model, E::Model, F::Model, G::Model, H::Model, I::Model, J::Model, K::Model, L::Model, M::Model, N::Model),
    data: Seq<u8>,
    options: OptionsView,
) -> Resolved<(A::Model, B::Model, C::Model, D::Model, E::Model, F::Model, G::Model, H::Model, I::Model, J::Model, K::Model, L::Model, M::Model, N::Model)> {
    match A::resolve_spec(model.0, data, options, ()) {
        Err(e) => Err(e),
        Ok(a) => {
            match B::resolve_spec(model.1, data, options, ()) {
                Err(e) => Err(e),
                Ok(b) => {
                    match C::resolve_spec(model.2, data, options, ()) {
                        Err(e) => Err(e),
                        Ok(c) => {
                            match D::resolve_spec(model.3, data, options, ()) {
                                Err(e) => Err(e),
                                Ok(d) => {
                                    match E::resolve_spec(model.4, data, options, ()) {
                                        Err(e) => Err(e),
                                        Ok(e) => {
                                            match F::resolve_spec(model.5, data, options, ()) {
                                                Err(e) => Err(e),
                                                Ok(f) => {
                                                    match G::resolve_spec(model.6, data, options, ()) {
                                                        Err(e) => Err(e),
                                                        Ok(g) => {
                                                            match H::resolve_spec(model.7, data, options, ()) {
                                                                Err(e) => Err(e),
                                                                Ok(h) => {
                                                                    match I::resolve_spec(model.8, data, options, ()) {
                                                                        Err(e) => Err(e),
                                                                        Ok(i) => {
                                                                            match J::resolve_spec(model.9, data, options, ()) {
                                                                                Err(e) => Err(e),
                                                                                Ok(j) => {
                                                                                    match K::resolve_spec(model.10, data, options, ()) {
                                                                                        Err(e) => Err(e),
                                                                                        Ok(k) => {
                                                                                            match L::resolve_spec(model.11, data, options, ()) {
                                                                                                Err(e) => Err(e),
                                                                                                Ok(l) => {
                                                                                                    match M::resolve_spec(model.12, data, options, ()) {
                                                                                                        Err(e) => Err(e),
                                                                                                        Ok(m) => {
                                                                                                            match N::resolve_spec(model.13, data, options, ()) {
                                                                                                                Err(e) => Err(e),
                                                                                                                Ok(n) => Ok((a, b, c, d, e, f, g, h, i, j, k, l, m, n)),
                                                                                                            }
                                                                                                        },
                                                                                                    }
                                                                                                },
                                                                                            }
                                                                                        },
                                                                                    }
                                                                                },
                                                                            }
                                                                        },
                                                                    }
                                                                },
                                                            }
                                                        },
                                                    }
                                                },
                                            }
                                        },
                                    }
                                },
                            }
                        },
                    }
                },
            }
        },
    }
}

impl<A: BinRead<Args = ()>, B: BinRead<Args = ()>, C: BinRead<Args = ()>, D: BinRead<Args = ()>, E: BinRead<Args = ()>, F: BinRead<Args = ()>, G: BinRead<Args = ()>, H: BinRead<Args = ()>, I: BinRead<Args = ()>, J: BinRead<Args = ()>, K: BinRead<Args = ()>, L: BinRead<Args = ()>, M: BinRead<Args = ()>, N: BinRead<Args = ()>> BinRead for (A, B, C, D, E, F, G, H, I, J, K, L, M, N) {
    type Args = ();

    type Model = (A::Model, B::Model, C::Model, D::Model, E::Model, F::Model, G::Model, H::Model, I::Model, J::Model, K::Model, L::Model, M::Model, N::Model);

    open spec fn model(&self) -> (A::Model, B::Model, C::Model, D::Model, E::Model, F::Model, G::Model, H::Model, I::Model, J::Model, K::Model, L::Model, M::Model, N::Model) {
        (self.0.model(), self.1.model(), self.2.model(), self.3.model(), self.4.model(), self.5.model(), self.6.model(), self.7.model(), self.8.model(), self.9.model(), self.10.model(), self.11.model(), self.12.model(), self.13.model())
    }

    open spec fn read_spec(stream: Stream, options: OptionsView, args: ()) -> Outcome<
        (A::Model, B::Model, C::Model, D::Model, E::Model, F::Model, G::Model, H::Model, I::Model, J::Model, K::Model, L::Model, M::Model, N::Model),
    > {
        read_tuple14::<A, B, C, D, E, F, G, H, I, J, K, L, M, N>(stream, options)
    }

    open spec fn resolve_spec(
        model: (A::Model, B::Model, C::Model, D::Model, E::Model, F::Model, G::Model, H::Model, I::Model, J::Model, K::Model, L::Model, M::Model, N::Model),
        data: Seq<u8>,
        options: OptionsView,
        args: (),
    ) -> Resolved<(A::Model, B::Model, C::Model, D::Model, E::Model, F::Model, G::Model, H::Model, I::Model, J::Model, K::Model, L::Model, M::Model, N::Model)> {
        resolve_tuple14::<A, B, C, D, E, F, G, H, I, J, K, L, M, N>(model, data, options)
    }

    fn read_options(reader: &mut Cursor, options: &ReadOptions, args: &()) -> (r: BinResult<
        (A, B, C, D, E, F, G, H, I, J, K, L, M, N),
    >) {
        assert(reader@ == old(reader)@.at(reader@.pos));
        let a: A = match A::read_options(reader, options, &()) {
            Ok(v) => v,
            Err(e) => {
                return Err(e);
            },
        };
        assert(reader@ == old(reader)@.at(reader@.pos));
        let b: B = match B::read_options(reader, options, &()) {
            Ok(v) => v,
            Err(e) => {
                return Err(e);
            },
        };
        assert(reader@ == old(reader)@.at(reader@.pos));
        let c: C = match C::read_options(reader, options, &()) {
            Ok(v) => v,
            Err(e) => {
                return Err(e);
            },
        };
        assert(reader@ == old(reader)@.at(reader@.pos));
        let d: D = match D::read_options(reader, options, &()) {
            Ok(v) => v,
            Err(e) => {
                return Err(e);
            },
        };
        assert(reader@ == old(reader)@.at(reader@.pos));
        let e: E = match E::read_options(reader, options, &()) {
            Ok(v) => v,
            Err(e) => {
                return Err(e);
            },
        };
        assert(reader@ == old(reader)@.at(reader@.pos));
        let f: F = match F::read_options(reader, options, &()) {
            Ok(v) => v,
            Err(e) => {
                return Err(e);
            },
        };
        assert(reader@ == old(reader)@.at(reader@.pos));
        let g: G = match G::read_options(reader, options, &()) {
            Ok(v) => v,
            Err(e) => {
                return Err(e);
            },
        };
        assert(reader@ == old(reader)@.at(reader@.pos));
        let h: H = match H::read_options(reader, options, &()) {
            Ok(v) => v,
            Err(e) => {
                return Err(e);
            },
        };
        assert(reader@ == old(reader)@.at(reader@.pos));
        let i: I = match I::read_options(reader, options, &()) {
            Ok(v) => v,
            Err(e) => {
                return Err(e);
            },
        };
        assert(reader@ == old(reader)@.at(reader@.pos));
        let j: J = match J::read_options(reader, options, &()) {
            Ok(v) => v,
            Err(e) => {
                return Err(e);
            },
        };
        assert(reader@ == old(reader)@.at(reader@.pos));
        let k: K = match K::read_options(reader, options, &()) {
            Ok(v) => v,
            Err(e) => {
                return Err(e);
            },
        };
        assert(reader@ == old(reader)@.at(reader@.pos));
        let l: L = match L::read_options(reader, options, &()) {
            Ok(v) => v,
            Err(e) => {
                return Err(e);
            },
        };
        assert(reader@ == old(reader)@.at(reader@.pos));
        let m: M = match M::read_options(reader, options, &()) {
            Ok(v) => v,
            Err(e) => {
                return Err(e);
            },
        };
        assert(reader@ == old(reader)@.at(reader@.pos));
        let n: N = match N::read_options(reader, options, &()) {
            Ok(v) => v,
            Err(e) => {
                return Err(e);
            },
        };
        Ok((a, b, c, d, e, f, g, h, i, j, k, l, m, n))
    }

    fn after_parse(&mut self, reader: &mut Cursor, options: &ReadOptions, args: &()) -> (r:
        BinResult<()>) {
        match self.0.after_parse(reader, options, &()) {
            Ok(()) => {},
            Err(e) => {
                return Err(e);
            },
        }
        match self.1.after_parse(reader, options, &()) {
            Ok(()) => {},
            Err(e) => {
                return Err(e);
            },
        }
        match self.2.after_parse(reader, options, &()) {
            Ok(()) => {},
            Err(e) => {
                return Err(e);
            },
        }
        match self.3.after_parse(reader, options, &()) {
            Ok(()) => {},
            Err(e) => {
                return Err(e);
            },
        }
        match self.4.after_parse(reader, options, &()) {
            Ok(()) => {},
            Err(e) => {
                return Err(e);
            },
        }
        match self.5.after_parse(reader, options, &()) {
            Ok(()) => {},
            Err(e) => {
                return Err(e);
            },
        }
        match self.6.after_parse(reader, options, &()) {
            Ok(()) => {},
            Err(e) => {
                return Err(e);
            },
        }
        match self.7.after_parse(reader, options, &()) {
            Ok(()) => {},
            Err(e) => {
                return Err(e);
            },
        }
        match self.8.after_parse(reader, options, &()) {
            Ok(()) => {},
            Err(e) => {
                return Err(e);
            },
        }
        match self.9.after_parse(reader, options, &()) {
            Ok(()) => {},
            Err(e) => {
                return Err(e);
            },
        }
        match self.10.after_parse(reader, options, &()) {
            Ok(()) => {},
            Err(e) => {
                return Err(e);
            },
        }
        match self.11.after_parse(reader, options, &()) {
            Ok(()) => {},
            Err(e) => {
                return Err(e);
            },
        }
        match self.12.after_parse(reader, options, &()) {
            Ok(()) => {},
            Err(e) => {
                return Err(e);
            },
        }
        self.13.after_parse(reader, options, &())
    }
}

/// The fifteen members of a tuple, one after the other.
pub open spec fn read_tuple15<A: BinRead<Args = ()>, B: BinRead<Args = ()>, C: BinRead<Args = ()>, D: BinRead<Args = ()>, E: BinRead<Args = ()>, F: BinRead<Args = ()>, G: BinRead<Args = ()>, H: BinRead<Args = ()>, I: BinRead<Args = ()>, J: BinRead<Args = ()>, K: BinRead<Args = ()>, L: BinRead<Args = ()>, M: BinRead<Args = ()>, N: BinRead<Args = ()>, O: BinRead<Args = ()>>(
    stream: Stream,
    options: OptionsView,
) -> Outcome<(A::Model, B::Model, C::Model, D::Model, E::Model, F::Model, G::Model, H::Model, I::Model, J::Model, K::Model, L::Model, M::Model, N::Model, O::Model)> {
    match A::read_spec(stream, options, ()) {
        Err(e) => Err(e),
        Ok((a, after_a)) => {
            match B::read_spec(stream.at(after_a), options, ()) {
                Err(e) => Err(e),
                Ok((b, after_b)) => {
                    match C::read_spec(stream.at(after_b), options, ()) {
                        Err(e) => Err(e),
                        Ok((c, after_c)) => {
                            match D::read_spec(stream.at(after_c), options, ()) {
                                Err(e) => Err(e),
                                Ok((d, after_d)) => {
                                    match E::read_spec(stream.at(after_d), options, ()) {
                                        Err(e) => Err(e),
                                        Ok((e, after_e)) => {
                                            match F::read_spec(stream.at(after_e), options, ()) {
                                                Err(e) => Err(e),
                                                Ok((f, after_f)) => {
                                                    match G::read_spec(stream.at(after_f), options, ()) {
                                                        Err(e) => Err(e),
                                                        Ok((g, after_g)) => {
                                                            match H::read_spec(stream.at(after_g), options, ()) {
                                                                Err(e) => Err(e),
                                                                Ok((h, after_h)) => {
                                                                    match I::read_spec(stream.at(after_h), options, ()) {
                                                                        Err(e) => Err(e),
                                                                        Ok((i, after_i)) => {
                                                                            match J::read_spec(stream.at(after_i), options, ()) {
                                                                                Err(e) => Err(e),
                                                                                Ok((j, after_j)) => {
                                                                                    match K::read_spec(stream.at(after_j), options, ()) {
                                                                                        Err(e) => Err(e),
                                                                                        Ok((k, after_k)) => {
                                                                                            match L::read_spec(stream.at(after_k), options, ()) {
                                                                                                Err(e) => Err(e),
                                                                                                Ok((l, after_l)) => {
                                                                                                    match M::read_spec(stream.at(after_l), options, ()) {
                                                                                                        Err(e) => Err(e),
                                                                                                        Ok((m, after_m)) => {
                                                                                                            match N::read_spec(stream.at(after_m), options, ()) {
                                                                                                                Err(e) => Err(e),
                                                                                                                Ok((n, after_n)) => {
                                                                                                                    match O::read_spec(stream.at(after_n), options, ()) {
                                                                                                                        Err(e) => Err(e),
                                                                                                                        Ok((o, after_o)) => Ok(((a, b, c, d, e, f, g, h, i, j, k, l, m, n, o), after_o)),
                                                                                                                    }
                                                                                                                },
                                                                                                            }
                                                                                                        },
                                                                                                    }
                                                                                                },
                                                                                            }
                                                                                        },
                                                                                    }
                                                                                },
                                                                            }
                                                                        },
                                                                    }
                                                                },
                                                            }
                                                        },
                                                    }
                                                },
                                            }
                                        },
                                    }
                                },
                            }
                        },
                    }
                },
            }
        },
    }
}

/// Phase two on the fifteen members of a tuple, in the order in which they were
/// read.
pub open spec fn resolve_tuple15<A: BinRead<Args = ()>, B: BinRead<Args = ()>, C: BinRead<Args = ()>, D: BinRead<Args = ()>, E: BinRead<Args = ()>, F: BinRead<Args = ()>, G: BinRead<Args = ()>, H: BinRead<Args = ()>, I: BinRead<Args = ()>, J: BinRead<Args = ()>, K: BinRead<Args = ()>, L: BinRead<Args = ()>, M: BinRead<Args = ()>, N: BinRead<Args = ()>, O: BinRead<Args = ()>>(
    model: (A::Model, B::Model, C::Model, D::Model, E::Model, F::Model, G::Model, H::Model, I::Model, J::Model, K::Model, L::Model, M::Model, N::Model, O::Model),
    data: Seq<u8>,
    options: OptionsView,
) -> Resolved<(A::Model, B::Model, C::Model, D::Model, E::Model, F::Model, G::Model, H::Model, I::Model, J::Model, K::Model, L::Model, M::Model, N::Model, O::Model)> {
    match A::resolve_spec(model.0, data, options, ()) {
        Err(e) => Err(e),
        Ok(a) => {
            match B::resolve_spec(model.1, data, options, ()) {
                Err(e) => Err(e),
                Ok(b) => {
                    match C::resolve_spec(model.2, data, options, ()) {
                        Err(e) => Err(e),
                        Ok(c) => {
                            match D::resolve_spec(model.3, data, options, ()) {
                                Err(e) => Err(e),
                                Ok(d) => {
                                    match E::resolve_spec(model.4, data, options, ()) {
                                        Err(e) => Err(e),
                                        Ok(e) => {
                                            match F::resolve_spec(model.5, data, options, ()) {
                                                Err(e) => Err(e),
                                                Ok(f) => {
                                                    match G::resolve_spec(model.6, data, options, ()) {
                                                        Err(e) => Err(e),
                                                        Ok(g) => {
                                                            match H::resolve_spec(model.7, data, options, ()) {
                                                                Err(e) => Err(e),
                                                                Ok(h) => {
                                                                    match I::resolve_spec(model.8, data, options, ()) {
                                                                        Err(e) => Err(e),
                                                                        Ok(i) => {
                                                                            match J::resolve_spec(model.9, data, options, ()) {
                                                                                Err(e) => Err(e),
                                                                                Ok(j) => {
                                                                                    match K::resolve_spec(model.10, data, options, ()) {
                                                                                        Err(e) => Err(e),
                                                                                        Ok(k) => {
                                                                                            match L::resolve_spec(model.11, data, options, ()) {
                                                                                                Err(e) => Err(e),
                                                                                                Ok(l) => {
                                                                                                    match M::resolve_spec(model.12, data, options, ()) {
                                                                                                        Err(e) => Err(e),
                                                                                                        Ok(m) => {
                                                                                                            match N::resolve_spec(model.13, data, options, ()) {
                                                                                                                Err(e) => Err(e),
                                                                                                                Ok(n) => {
                                                                                                                    match O::resolve_spec(model.14, data, options, ()) {
                                                                                                                        Err(e) => Err(e),
                                                                                                                        Ok(o) => Ok((a, b, c, d, e, f, g, h, i, j, k, l, m, n, o)),
                                                                                                                    }
                                                                                                                },
                                                                                                            }
                                                                                                        },
                                                                                                    }
                                                                                                },
                                                                                            }
                                                                                        },
                                                                                    }
                                                                                },
                                                                            }
                                                                        },
                                                                    }
                                                                },
                                                            }
                                                        },
                                                    }
                                                },
                                            }
                                        },
                                    }
                                },
                            }
                        },
                    }
                },
            }
        },
    }
}

impl<A: BinRead<Args = ()>, B: BinRead<Args = ()>, C: BinRead<Args = ()>, D: BinRead<Args = ()>, E: BinRead<Args = ()>, F: BinRead<Args = ()>, G: BinRead<Args = ()>, H: BinRead<Args = ()>, I: BinRead<Args = ()>, J: BinRead<Args = ()>, K: BinRead<Args = ()>, L: BinRead<Args = ()>, M: BinRead<Args = ()>, N: BinRead<Args = ()>, O: BinRead<Args = ()>> BinRead for (A, B, C, D, E, F, G, H, I, J, K, L, M, N, O) {
    type Args = ();

    type Model = (A::Model, B::Model, C::Model, D::Model, E::Model, F::Model, G::Model, H::Model, I::Model, J::Model, K::Model, L::Model, M::Model, N::Model, O::Model);

    open spec fn model(&self) -> (A::Model, B::Model, C::Model, D::Model, E::Model, F::Model, G::Model, H::Model, I::Model, J::Model, K::Model, L::Model, M::Model, N::Model, O::Model) {
        (self.0.model(), self.1.model(), self.2.model(), self.3.model(), self.4.model(), self.5.model(), self.6.model(), self.7.model(), self.8.model(), self.9.model(), self.10.model(), self.11.model(), self.12.model(), self.13.model(), self.14.model())
    }

    open spec fn read_spec(stream: Stream, options: OptionsView, args: ()) -> Outcome<
        (A::Model, B::Model, C::Model, D::Model, E::Model, F::Model, G::Model, H::Model, I::Model, J::Model, K::Model, L::Model, M::Model, N::Model, O::Model),
    > {
        read_tuple15::<A, B, C, D, E, F, G, H, I, J, K, L, M, N, O>(stream, options)
    }

    open spec fn resolve_spec(
        model: (A::Model, B::Model, C::Model, D::Model, E::Model, F::Model, G::Model, H::Model, I::Model, J::Model, K::Model, L::Model, M::Model, N::Model, O::Model),
        data: Seq<u8>,
        options: OptionsView,
        args: (),
    ) -> Resolved<(A::Model, B::Model, C::Model, D::Model, E::Model, F::Model, G::Model, H::Model, I::Model, J::Model, K::Model, L::Model, M::Model, N::Model, O::Model)> {
        resolve_tuple15::<A, B, C, D, E, F, G, H, I, J, K, L, M, N, O>(model, data, options)
    }

    fn read_options(reader: &mut Cursor, options: &ReadOptions, args: &()) -> (r: BinResult<
        (A, B, C, D, E, F, G, H, I, J, K, L, M, N, O),
    >) {
        assert(reader@ == old(reader)@.at(reader@.pos));
        let a: A = match A::read_options(reader, options, &()) {
            Ok(v) => v,
            Err(e) => {
                return Err(e);
            },
        };
        assert(reader@ == old(reader)@.at(reader@.pos));
        let b: B = match B::read_options(reader, options, &()) {
            Ok(v) => v,
            Err(e) => {
                return Err(e);
            },
        };
        assert(reader@ == old(reader)@.at(reader@.pos));
        let c: C = match C::read_options(reader, options, &()) {
            Ok(v) => v,
            Err(e) => {
                return Err(e);
            },
        };
        assert(reader@ == old(reader)@.at(reader@.pos));
        let d: D = match D::read_options(reader, options, &()) {
            Ok(v) => v,
            Err(e) => {
                return Err(e);
            },
        };
        assert(reader@ == old(reader)@.at(reader@.pos));
        let e: E = match E::read_options(reader, options, &()) {
            Ok(v) => v,
            Err(e) => {
                return Err(e);
            },
        };
        assert(reader@ == old(reader)@.at(reader@.pos));
        let f: F = match F::read_options(reader, options, &()) {
            Ok(v) => v,
            Err(e) => {
                return Err(e);
            },
        };
        assert(reader@ == old(reader)@.at(reader@.pos));
        let g: G = match G::read_options(reader, options, &()) {
            Ok(v) => v,
            Err(e) => {
                return Err(e);
            },
        };
        assert(reader@ == old(reader)@.at(reader@.pos));
        let h: H = match H::read_options(reader, options, &()) {
            Ok(v) => v,
            Err(e) => {
                return Err(e);
            },
        };
        assert(reader@ == old(reader)@.at(reader@.pos));
        let i: I = match I::read_options(reader, options, &()) {
            Ok(v) => v,
            Err(e) => {
                return Err(e);
            },
        };
        assert(reader@ == old(reader)@.at(reader@.pos));
        let j: J = match J::read_options(reader, options, &()) {
            Ok(v) => v,
            Err(e) => {
                return Err(e);
            },
        };
        assert(reader@ == old(reader)@.at(reader@.pos));
        let k: K = match K::read_options(reader, options, &()) {
            Ok(v) => v,
            Err(e) => {
                return Err(e);
            },
        };
        assert(reader@ == old(reader)@.at(reader@.pos));
        let l: L = match L::read_options(reader, options, &()) {
            Ok(v) => v,
            Err(e) => {
                return Err(e);
            },
        };
        assert(reader@ == old(reader)@.at(reader@.pos));
        let m: M = match M::read_options(reader, options, &()) {
            Ok(v) => v,
            Err(e) => {
                return Err(e);
            },
        };
        assert(reader@ == old(reader)@.at(reader@.pos));
        let n: N = match N::read_options(reader, options, &()) {
            Ok(v) => v,
            Err(e) => {
                return Err(e);
            },
        };
        assert(reader@ == old(reader)@.at(reader@.pos));
        let o: O = match O::read_options(reader, options, &()) {
            Ok(v) => v,
            Err(e) => {
                return Err(e);
            },
        };
        Ok((a, b, c, d, e, f, g, h, i, j, k, l, m, n, o))
    }

    fn after_parse(&mut self, reader: &mut Cursor, options: &ReadOptions, args: &()) -> (r:
        BinResult<()>) {
        match self.0.after_parse(reader, options, &()) {
            Ok(()) => {},
            Err(e) => {
                return Err(e);
            },
        }
        match self.1.after_parse(reader, options, &()) {
            Ok(()) => {},
            Err(e) => {
                return Err(e);
            },
        }
        match self.2.after_parse(reader, options, &()) {
            Ok(()) => {},
            Err(e) => {
                return Err(e);
            },
        }
        match self.3.after_parse(reader, options, &()) {
            Ok(()) => {},
            Err(e) => {
                return Err(e);
            },
        }
        match self.4.after_parse(reader, options, &()) {
            Ok(()) => {},
            Err(e) => {
                return Err(e);
            },
        }
        match self.5.after_parse(reader, options, &()) {
            Ok(()) => {},
            Err(e) => {
                return Err(e);
            },
        }
        match self.6.after_parse(reader, options, &()) {
            Ok(()) => {},
            Err(e) => {
                return Err(e);
            },
        }
        match self.7.after_parse(reader, options, &()) {
            Ok(()) => {},
            Err(e) => {
                return Err(e);
            },
        }
        match self.8.after_parse(reader, options, &()) {
            Ok(()) => {},
            Err(e) => {
                return Err(e);
            },
        }
        match self.9.after_parse(reader, options, &()) {
            Ok(()) => {},
            Err(e) => {
                return Err(e);
            },
        }
        match self.10.after_parse(reader, options, &()) {
            Ok(()) => {},
            Err(e) => {
                return Err(e);
            },
        }
        match self.11.after_parse(reader, options, &()) {
            Ok(()) => {},
            Err(e) => {
                return Err(e);
            },
        }
        match self.12.after_parse(reader, options, &()) {
            Ok(()) => {},
            Err(e) => {
                return Err(e);
            },
        }
        match self.13.after_parse(reader, options, &()) {
            Ok(()) => {},
            Err(e) => {
                return Err(e);
            },
        }
        self.14.after_parse(reader, options, &())
    }
}

/// The sixteen members of a tuple, one after the other.
pub open spec fn read_tuple16<A: BinRead<Args = ()>, B: BinRead<Args = ()>, C: BinRead<Args = ()>, D: BinRead<Args = ()>, E: BinRead<Args = ()>, F: BinRead<Args = ()>, G: BinRead<Args = ()>, H: BinRead<Args = ()>, I: BinRead<Args = ()>, J: BinRead<Args = ()>, K: BinRead<Args = ()>, L: BinRead<Args = ()>, M: BinRead<Args = ()>, N: BinRead<Args = ()>, O: BinRead<Args = ()>, P: BinRead<Args = ()>>(
    stream: Stream,
    options: OptionsView,
) -> Outcome<(A::Model, B::Model, C::Model, D::Model, E::Model, F::Model, G::Model, H::Model, I::Model, J::Model, K::Model, L::Model, M::Model, N::Model, O::Model, P::Model)> {
    match A::read_spec(stream, options, ()) {
        Err(e) => Err(e),
        Ok((a, after_a)) => {
            match B::read_spec(stream.at(after_a), options, ()) {
                Err(e) => Err(e),
                Ok((b, after_b)) => {
                    match C::read_spec(stream.at(after_b), options, ()) {
                        Err(e) => Err(e),
                        Ok((c, after_c)) => {
                            match D::read_spec(stream.at(after_c), options, ()) {
                                Err(e) => Err(e),
                                Ok((d, after_d)) => {
                                    match E::read_spec(stream.at(after_d), options, ()) {
                                        Err(e) => Err(e),
                                        Ok((e, after_e)) => {
                                            match F::read_spec(stream.at(after_e), options, ()) {
                                                Err(e) => Err(e),
                                                Ok((f, after_f)) => {
                                                    match G::read_spec(stream.at(after_f), options, ()) {
                                                        Err(e) => Err(e),
                                                        Ok((g, after_g)) => {
                                                            match H::read_spec(stream.at(after_g), options, ()) {
                                                                Err(e) => Err(e),
                                                                Ok((h, after_h)) => {
                                                                    match I::read_spec(stream.at(after_h), options, ()) {
                                                                        Err(e) => Err(e),
                                                                        Ok((i, after_i)) => {
                                                                            match J::read_spec(stream.at(after_i), options, ()) {
                                                                                Err(e) => Err(e),
                                                                                Ok((j, after_j)) => {
                                                                                    match K::read_spec(stream.at(after_j), options, ()) {
                                                                                        Err(e) => Err(e),
                                                                                        Ok((k, after_k)) => {
                                                                                            match L::read_spec(stream.at(after_k), options, ()) {
                                                                                                Err(e) => Err(e),
                                                                                                Ok((l, after_l)) => {
                                                                                                    match M::read_spec(stream.at(after_l), options, ()) {
                                                                                                        Err(e) => Err(e),
                                                                                                        Ok((m, after_m)) => {
                                                                                                            match N::read_spec(stream.at(after_m), options, ()) {
                                                                                                                Err(e) => Err(e),
                                                                                                                Ok((n, after_n)) => {
                                                                                                                    match O::read_spec(stream.at(after_n), options, ()) {
                                                                                                                        Err(e) => Err(e),
                                                                                                                        Ok((o, after_o)) => {
                                                                                                                            match P::read_spec(stream.at(after_o), options, ()) {
                                                                                                                                Err(e) => Err(e),
                                                                                                                                Ok((p, after_p)) => Ok(((a, b, c, d, e, f, g, h, i, j, k, l, m, n, o, p), after_p)),
                                                                                                                            }
                                                                                                                        },
                                                                                                                    }
                                                                                                                },
                                                                                                            }
                                                                                                        },
                                                                                                    }
                                                                                                },
                                                                                            }
                                                                                        },
                                                                                    }
                                                                                },
                                                                            }
                                                                        },
                                                                    }
                                                                },
                                                            }
                                                        },
                                                    }
                                                },
                                            }
                                        },
                                    }
                                },
                            }
                        },
                    }
                },
            }
        },
    }
}

/// Phase two on the sixteen members of a tuple, in the order in which they were
/// read.
pub open spec fn resolve_tuple16<A: BinRead<Args = ()>, B: BinRead<Args = ()>, C: BinRead<Args = ()>, D: BinRead<Args = ()>, E: BinRead<Args = ()>, F: BinRead<Args = ()>, G: BinRead<Args = ()>, H: BinRead<Args = ()>, I: BinRead<Args = ()>, J: BinRead<Args = ()>, K: BinRead<Args = ()>, L: BinRead<Args = ()>, M: BinRead<Args = ()>, N: BinRead<Args = ()>, O: BinRead<Args = ()>, P: BinRead<Args = ()>>(
    model: (A::Model, B::Model, C::Model, D::Model, E::Model, F::Model, G::Model, H::Model, I::Model, J::Model, K::Model, L::Model, M::Model, N::Model, O::Model, P::Model),
    data: Seq<u8>,
    options: OptionsView,
) -> Resolved<(A::Model, B::Model, C::Model, D::Model, E::Model, F::Model, G::Model, H::Model, I::Model, J::Model, K::Model, L::Model, M::Model, N::Model, O::Model, P::Model)> {
    match A::resolve_spec(model.0, data, options, ()) {
        Err(e) => Err(e),
        Ok(a) => {
            match B::resolve_spec(model.1, data, options, ()) {
                Err(e) => Err(e),
                Ok(b) => {
                    match C::resolve_spec(model.2, data, options, ()) {
                        Err(e) => Err(e),
                        Ok(c) => {
                            match D::resolve_spec(model.3, data, options, ()) {
                                Err(e) => Err(e),
                                Ok(d) => {
                                    match E::resolve_spec(model.4, data, options, ()) {
                                        Err(e) => Err(e),
                                        Ok(e) => {
                                            match F::resolve_spec(model.5, data, options, ()) {
                                                Err(e) => Err(e),
                                                Ok(f) => {
                                                    match G::resolve_spec(model.6, data, options, ()) {
                                                        Err(e) => Err(e),
                                                        Ok(g) => {
                                                            match H::resolve_spec(model.7, data, options, ()) {
                                                                Err(e) => Err(e),
                                                                Ok(h) => {
                                                                    match I::resolve_spec(model.8, data, options, ()) {
                                                                        Err(e) => Err(e),
                                                                        Ok(i) => {
                                                                            match J::resolve_spec(model.9, data, options, ()) {
                                                                                Err(e) => Err(e),
                                                                                Ok(j) => {
                                                                                    match K::resolve_spec(model.10, data, options, ()) {
                                                                                        Err(e) => Err(e),
                                                                                        Ok(k) => {
                                                                                            match L::resolve_spec(model.11, data, options, ()) {
                                                                                                Err(e) => Err(e),
                                                                                                Ok(l) => {
                                                                                                    match M::resolve_spec(model.12, data, options, ()) {
                                                                                                        Err(e) => Err(e),
                                                                                                        Ok(m) => {
                                                                                                            match N::resolve_spec(model.13, data, options, ()) {
                                                                                                                Err(e) => Err(e),
                                                                                                                Ok(n) => {
                                                                                                                    match O::resolve_spec(model.14, data, options, ()) {
                                                                                                                        Err(e) => Err(e),
                                                                                                                        Ok(o) => {
                                                                                                                            match P::resolve_spec(model.15, data, options, ()) {
                                                                                                                                Err(e) => Err(e),
                                                                                                                                Ok(p) => Ok((a, b, c, d, e, f, g, h, i, j, k, l, m, n, o, p)),
                                                                                                                            }
                                                                                                                        },
                                                                                                                    }
                                                                                                                },
                                                                                                            }
                                                                                                        },
                                                                                                    }
                                                                                                },
                                                                                            }
                                                                                        },
                                                                                    }
                                                                                },
                                                                            }
                                                                        },
                                                                    }
                                                                },
                                                            }
                                                        },
                                                    }
                                                },
                                            }
                                        },
                                    }
                                },
                            }
                        },
                    }
                },
            }
        },
    }
}

impl<A: BinRead<Args = ()>, B: BinRead<Args = ()>, C: BinRead<Args = ()>, D: BinRead<Args = ()>, E: BinRead<Args = ()>, F: BinRead<Args = ()>, G: BinRead<Args = ()>, H: BinRead<Args = ()>, I: BinRead<Args = ()>, J: BinRead<Args = ()>, K: BinRead<Args = ()>, L: BinRead<Args = ()>, M: BinRead<Args = ()>, N: BinRead<Args = ()>, O: BinRead<Args = ()>, P: BinRead<Args = ()>> BinRead for (A, B, C, D, E, F, G, H, I, J, K, L, M, N, O, P) {
    type Args = ();

    type Model = (A::Model, B::Model, C::Model, D::Model, E::Model, F::Model, G::Model, H::Model, I::Model, J::Model, K::Model, L::Model, M::Model, N::Model, O::Model, P::Model);

    open spec fn model(&self) -> (A::Model, B::Model, C::Model, D::Model, E::Model, F::Model, G::Model, H::Model, I::Model, J::Model, K::Model, L::Model, M::Model, N::Model, O::Model, P::Model) {
        (self.0.model(), self.1.model(), self.2.model(), self.3.model(), self.4.model(), self.5.model(), self.6.model(), self.7.model(), self.8.model(), self.9.model(), self.10.model(), self.11.model(), self.12.model(), self.13.model(), self.14.model(), self.15.model())
    }

    open spec fn read_spec(stream: Stream, options: OptionsView, args: ()) -> Outcome<
        (A::Model, B::Model, C::Model, D::Model, E::Model, F::Model, G::Model, H::Model, I::Model, J::Model, K::Model, L::Model, M::Model, N::Model, O::Model, P::Model),
    > {
        read_tuple16::<A, B, C, D, E, F, G, H, I, J, K, L, M, N, O, P>(stream, options)
    }

    open spec fn resolve_spec(
        model: (A::Model, B::Model, C::Model, D::Model, E::Model, F::Model, G::Model, H::Model, I::Model, J::Model, K::Model, L::Model, M::Model, N::Model, O::Model, P::Model),
        data: Seq<u8>,
        options: OptionsView,
        args: (),
    ) -> Resolved<(A::Model, B::Model, C::Model, D::Model, E::Model, F::Model, G::Model, H::Model, I::Model, J::Model, K::Model, L::Model, M::Model, N::Model, O::Model, P::Model)> {
        resolve_tuple16::<A, B, C, D, E, F, G, H, I, J, K, L, M, N, O, P>(model, data, options)
    }

    fn read_options(reader: &mut Cursor, options: &ReadOptions, args: &()) -> (r: BinResult<
        (A, B, C, D, E, F, G, H, I, J, K, L, M, N, O, P),
    >) {
        assert(reader@ == old(reader)@.at(reader@.pos));
        let a: A = match A::read_options(reader, options, &()) {
            Ok(v) => v,
            Err(e) => {
                return Err(e);
            },
        };
        assert(reader@ == old(reader)@.at(reader@.pos));
        let b: B = match B::read_options(reader, options, &()) {
            Ok(v) => v,
            Err(e) => {
                return Err(e);
            },
        };
        assert(reader@ == old(reader)@.at(reader@.pos));
        let c: C = match C::read_options(reader, options, &()) {
            Ok(v) => v,
            Err(e) => {
                return Err(e);
            },
        };
        assert(reader@ == old(reader)@.at(reader@.pos));
        let d: D = match D::read_options(reader, options, &()) {
            Ok(v) => v,
            Err(e) => {
                return Err(e);
            },
        };
        assert(reader@ == old(reader)@.at(reader@.pos));
        let e: E = match E::read_options(reader, options, &()) {
            Ok(v) => v,
            Err(e) => {
                return Err(e);
            },
        };
        assert(reader@ == old(reader)@.at(reader@.pos));
        let f: F = match F::read_options(reader, options, &()) {
            Ok(v) => v,
            Err(e) => {
                return Err(e);
            },
        };
        assert(reader@ == old(reader)@.at(reader@.pos));
        let g: G = match G::read_options(reader, options, &()) {
            Ok(v) => v,
            Err(e) => {
                return Err(e);
            },
        };
        assert(reader@ == old(reader)@.at(reader@.pos));
        let h: H = match H::read_options(reader, options, &()) {
            Ok(v) => v,
            Err(e) => {
                return Err(e);
            },
        };
        assert(reader@ == old(reader)@.at(reader@.pos));
        let i: I = match I::read_options(reader, options, &()) {
            Ok(v) => v,
            Err(e) => {
                return Err(e);
            },
        };
        assert(reader@ == old(reader)@.at(reader@.pos));
        let j: J = match J::read_options(reader, options, &()) {
            Ok(v) => v,
            Err(e) => {
                return Err(e);
            },
        };
        assert(reader@ == old(reader)@.at(reader@.pos));
        let k: K = match K::read_options(reader, options, &()) {
            Ok(v) => v,
            Err(e) => {
                return Err(e);
            },
        };
        assert(reader@ == old(reader)@.at(reader@.pos));
        let l: L = match L::read_options(reader, options, &()) {
            Ok(v) => v,
            Err(e) => {
                return Err(e);
            },
        };
        assert(reader@ == old(reader)@.at(reader@.pos));
        let m: M = match M::read_options(reader, options, &()) {
            Ok(v) => v,
            Err(e) => {
                return Err(e);
            },
        };
        assert(reader@ == old(reader)@.at(reader@.pos));
        let n: N = match N::read_options(reader, options, &()) {
            Ok(v) => v,
            Err(e) => {
                return Err(e);
            },
        };
        assert(reader@ == old(reader)@.at(reader@.pos));
        let o: O = match O::read_options(reader, options, &()) {
            Ok(v) => v,
            Err(e) => {
                return Err(e);
            },
        };
        assert(reader@ == old(reader)@.at(reader@.pos));
        let p: P = match P::read_options(reader, options, &()) {
            Ok(v) => v,
            Err(e) => {
                return Err(e);
            },
        };
        Ok((a, b, c, d, e, f, g, h, i, j, k, l, m, n, o, p))
    }

    fn after_parse(&mut self, reader: &mut Cursor, options: &ReadOptions, args: &()) -> (r:
        BinResult<()>) {
        match self.0.after_parse(reader, options, &()) {
            Ok(()) => {},
            Err(e) => {
                return Err(e);
            },
        }
        match self.1.after_parse(reader, options, &()) {
            Ok(()) => {},
            Err(e) => {
                return Err(e);
            },
        }
        match self.2.after_parse(reader, options, &()) {
            Ok(()) => {},
            Err(e) => {
                return Err(e);
            },
        }
        match self.3.after_parse(reader, options, &()) {
            Ok(()) => {},
            Err(e) => {
                return Err(e);
            },
        }
        match self.4.after_parse(reader, options, &()) {
            Ok(()) => {},
            Err(e) => {
                return Err(e);
            },
        }
        match self.5.after_parse(reader, options, &()) {
            Ok(()) => {},
            Err(e) => {
                return Err(e);
            },
        }
        match self.6.after_parse(reader, options, &()) {
            Ok(()) => {},
            Err(e) => {
                return Err(e);
            },
        }
        match self.7.after_parse(reader, options, &()) {
            Ok(()) => {},
            Err(e) => {
                return Err(e);
            },
        }
        match self.8.after_parse(reader, options, &()) {
            Ok(()) => {},
            Err(e) => {
                return Err(e);
            },
        }
        match self.9.after_parse(reader, options, &()) {
            Ok(()) => {},
            Err(e) => {
                return Err(e);
            },
        }
        match self.10.after_parse(reader, options, &()) {
            Ok(()) => {},
            Err(e) => {
                return Err(e);
            },
        }
        match self.11.after_parse(reader, options, &()) {
            Ok(()) => {},
            Err(e) => {
                return Err(e);
            },
        }
        match self.12.after_parse(reader, options, &()) {
            Ok(()) => {},
            Err(e) => {
                return Err(e);
            },
        }
        match self.13.after_parse(reader, options, &()) {
            Ok(()) => {},
            Err(e) => {
                return Err(e);
            },
        }
        match self.14.after_parse(reader, options, &()) {
            Ok(()) => {},
            Err(e) => {
                return Err(e);
            },
        }
        self.15.after_parse(reader, options, &())
    }
}

/// The seventeen members of a tuple, one after the other.
pub open spec fn read_tuple17<A: BinRead<Args = ()>, B: BinRead<Args = ()>, C: BinRead<Args = ()>, D: BinRead<Args = ()>, E: BinRead<Args = ()>, F: BinRead<Args = ()>, G: BinRead<Args = ()>, H: BinRead<Args = ()>, I: BinRead<Args = ()>, J: BinRead<Args = ()>, K: BinRead<Args = ()>, L: BinRead<Args = ()>, M: BinRead<Args = ()>, N: BinRead<Args = ()>, O: BinRead<Args = ()>, P: BinRead<Args = ()>, Q: BinRead<Args = ()>>(
    stream: Stream,
    options: OptionsView,
) -> Outcome<(A::Model, B::Model, C::Model, D::Model, E::Model, F::Model, G::Model, H::Model, I::Model, J::Model, K::Model, L::Model, M::Model, N::Model, O::Model, P::Model, Q::Model)> {
    match A::read_spec(stream, options, ()) {
        Err(e) => Err(e),
        Ok((a, after_a)) => {
            match B::read_spec(stream.at(after_a), options, ()) {
                Err(e) => Err(e),
                Ok((b, after_b)) => {
                    match C::read_spec(stream.at(after_b), options, ()) {
                        Err(e) => Err(e),
                        Ok((c, after_c)) => {
                            match D::read_spec(stream.at(after_c), options, ()) {
                                Err(e) => Err(e),
                                Ok((d, after_d)) => {
                                    match E::read_spec(stream.at(after_d), options, ()) {
                                        Err(e) => Err(e),
                                        Ok((e, after_e)) => {
                                            match F::read_spec(stream.at(after_e), options, ()) {
                                                Err(e) => Err(e),
                                                Ok((f, after_f)) => {
                                                    match G::read_spec(stream.at(after_f), options, ()) {
                                                        Err(e) => Err(e),
                                                        Ok((g, after_g)) => {
                                                            match H::read_spec(stream.at(after_g), options, ()) {
                                                                Err(e) => Err(e),
                                                                Ok((h, after_h)) => {
                                                                    match I::read_spec(stream.at(after_h), options, ()) {
                                                                        Err(e) => Err(e),
                                                                        Ok((i, after_i)) => {
                                                                            match J::read_spec(stream.at(after_i), options, ()) {
                                                                                Err(e) => Err(e),
                                                                                Ok((j, after_j)) => {
                                                                                    match K::read_spec(stream.at(after_j), options, ()) {
                                                                                        Err(e) => Err(e),
                                                                                        Ok((k, after_k)) => {
                                                                                            match L::read_spec(stream.at(after_k), options, ()) {
                                                                                                Err(e) => Err(e),
                                                                                                Ok((l, after_l)) => {
                                                                                                    match M::read_spec(stream.at(after_l), options, ()) {
                                                                                                        Err(e) => Err(e),
                                                                                                        Ok((m, after_m)) => {
                                                                                                            match N::read_spec(stream.at(after_m), options, ()) {
                                                                                                                Err(e) => Err(e),
                                                                                                                Ok((n, after_n)) => {
                                                                                                                    match O::read_spec(stream.at(after_n), options, ()) {
                                                                                                                        Err(e) => Err(e),
                                                                                                                        Ok((o, after_o)) => {
                                                                                                                            match P::read_spec(stream.at(after_o), options, ()) {
                                                                                                                                Err(e) => Err(e),
                                                                                                                                Ok((p, after_p)) => {
                                                                                                                                    match Q::read_spec(stream.at(after_p), options, ()) {
                                                                                                                                        Err(e) => Err(e),
                                                                                                                                        Ok((q, after_q)) => Ok(((a, b, c, d, e, f, g, h, i, j, k, l, m, n, o, p, q), after_q)),
                                                                                                                                    }
                                                                                                                                },
                                                                                                                            }
                                                                                                                        },
                                                                                                                    }
                                                                                                                },
                                                                                                            }
                                                                                                        },
                                                                                                    }
                                                                                                },
                                                                                            }
                                                                                        },
                                                                                    }
                                                                                },
                                                                            }
                                                                        },
                                                                    }
                                                                },
                                                            }
                                                        },
                                                    }
                                                },
                                            }
                                        },
                                    }
                                },
                            }
                        },
                    }
                },
            }
        },
    }
}

/// Phase two on the seventeen members of a tuple, in the order in which they were
/// read.
pub open spec fn resolve_tuple17<A: BinRead<Args = ()>, B: BinRead<Args = ()>, C: BinRead<Args = ()>, D: BinRead<Args = ()>, E: BinRead<Args = ()>, F: BinRead<Args = ()>, G: BinRead<Args = ()>, H: BinRead<Args = ()>, I: BinRead<Args = ()>, J: BinRead<Args = ()>, K: BinRead<Args = ()>, L: BinRead<Args = ()>, M: BinRead<Args = ()>, N: BinRead<Args = ()>, O: BinRead<Args = ()>, P: BinRead<Args = ()>, Q: BinRead<Args = ()>>(
    model: (A::Model, B::Model, C::Model, D::Model, E::Model, F::Model, G::Model, H::Model, I::Model, J::Model, K::Model, L::Model, M::Model, N::Model, O::Model, P::Model, Q::Model),
    data: Seq<u8>,
    options: OptionsView,
) -> Resolved<(A::Model, B::Model, C::Model, D::Model, E::Model, F::Model, G::Model, H::Model, I::Model, J::Model, K::Model, L::Model, M::Model, N::Model, O::Model, P::Model, Q::Model)> {
    match A::resolve_spec(model.0, data, options, ()) {
        Err(e) => Err(e),
        Ok(a) => {
            match B::resolve_spec(model.1, data, options, ()) {
                Err(e) => Err(e),
                Ok(b) => {
                    match C::resolve_spec(model.2, data, options, ()) {
                        Err(e) => Err(e),
                        Ok(c) => {
                            match D::resolve_spec(model.3, data, options, ()) {
                                Err(e) => Err(e),
                                Ok(d) => {
                                    match E::resolve_spec(model.4, data, options, ()) {
                                        Err(e) => Err(e),
                                        Ok(e) => {
                                            match F::resolve_spec(model.5, data, options, ()) {
                                                Err(e) => Err(e),
                                                Ok(f) => {
                                                    match G::resolve_spec(model.6, data, options, ()) {
                                                        Err(e) => Err(e),
                                                        Ok(g) => {
                                                            match H::resolve_spec(model.7, data, options, ()) {
                                                                Err(e) => Err(e),
                                                                Ok(h) => {
                                                                    match I::resolve_spec(model.8, data, options, ()) {
                                                                        Err(e) => Err(e),
                                                                        Ok(i) => {
                                                                            match J::resolve_spec(model.9, data, options, ()) {
                                                                                Err(e) => Err(e),
                                                                                Ok(j) => {
                                                                                    match K::resolve_spec(model.10, data, options, ()) {
                                                                                        Err(e) => Err(e),
                                                                                        Ok(k) => {
                                                                                            match L::resolve_spec(model.11, data, options, ()) {
                                                                                                Err(e) => Err(e),
                                                                                                Ok(l) => {
                                                                                                    match M::resolve_spec(model.12, data, options, ()) {
                                                                                                        Err(e) => Err(e),
                                                                                                        Ok(m) => {
                                                                                                            match N::resolve_spec(model.13, data, options, ()) {
                                                                                                                Err(e) => Err(e),
                                                                                                                Ok(n) => {
                                                                                                                    match O::resolve_spec(model.14, data, options, ()) {
                                                                                                                        Err(e) => Err(e),
                                                                                                                        Ok(o) => {
                                                                                                                            match P::resolve_spec(model.15, data, options, ()) {
                                                                                                                                Err(e) => Err(e),
                                                                                                                                Ok(p) => {
                                                                                                                                    match Q::resolve_spec(model.16, data, options, ()) {
                                                                                                                                        Err(e) => Err(e),
                                                                                                                                        Ok(q) => Ok((a, b, c, d, e, f, g, h, i, j, k, l, m, n, o, p, q)),
                                                                                                                                    }
                                                                                                                                },
                                                                                                                            }
                                                                                                                        },
                                                                                                                    }
                                                                                                                },
                                                                                                            }
                                                                                                        },
                                                                                                    }
                                                                                                },
                                                                                            }
                                                                                        },
                                                                                    }
                                                                                },
                                                                            }
                                                                        },
                                                                    }
                                                                },
                                                            }
                                                        },
                                                    }
                                                },
                                            }
                                        },
                                    }
                                },
                            }
                        },
                    }
                },
            }
        },
    }
}

impl<A: BinRead<Args = ()>, B: BinRead<Args = ()>, C: BinRead<Args = ()>, D: BinRead<Args = ()>, E: BinRead<Args = ()>, F: BinRead<Args = ()>, G: BinRead<Args = ()>, H: BinRead<Args = ()>, I: BinRead<Args = ()>, J: BinRead<Args = ()>, K: BinRead<Args = ()>, L: BinRead<Args = ()>, M: BinRead<Args = ()>, N: BinRead<Args = ()>, O: BinRead<Args = ()>, P: BinRead<Args = ()>, Q: BinRead<Args = ()>> BinRead for (A, B, C, D, E, F, G, H, I, J, K, L, M, N, O, P, Q) {
    type Args = ();

    type Model = (A::Model, B::Model, C::Model, D::Model, E::Model, F::Model, G::Model, H::Model, I::Model, J::Model, K::Model, L::Model, M::Model, N::Model, O::Model, P::Model, Q::Model);

    open spec fn model(&self) -> (A::Model, B::Model, C::Model, D::Model, E::Model, F::Model, G::Model, H::Model, I::Model, J::Model, K::Model, L::Model, M::Model, N::Model, O::Model, P::Model, Q::Model) {
        (self.0.model(), self.1.model(), self.2.model(), self.3.model(), self.4.model(), self.5.model(), self.6.model(), self.7.model(), self.8.model(), self.9.model(), self.10.model(), self.11.model(), self.12.model(), self.13.model(), self.14.model(), self.15.model(), self.16.model())
    }

    open spec fn read_spec(stream: Stream, options: OptionsView, args: ()) -> Outcome<
        (A::Model, B::Model, C::Model, D::Model, E::Model, F::Model, G::Model, H::Model, I::Model, J::Model, K::Model, L::Model, M::Model, N::Model, O::Model, P::Model, Q::Model),
    > {
        read_tuple17::<A, B, C, D, E, F, G, H, I, J, K, L, M, N, O, P, Q>(stream, options)
    }

    open spec fn resolve_spec(
        model: (A::Model, B::Model, C::Model, D::Model, E::Model, F::Model, G::Model, H::Model, I::Model, J::Model, K::Model, L::Model, M::Model, N::Model, O::Model, P::Model, Q::Model),
        data: Seq<u8>,
        options: OptionsView,
        args: (),
    ) -> Resolved<(A::Model, B::Model, C::Model, D::Model, E::Model, F::Model, G::Model, H::Model, I::Model, J::Model, K::Model, L::Model, M::Model, N::Model, O::Model, P::Model, Q::Model)> {
        resolve_tuple17::<A, B, C, D, E, F, G, H, I, J, K, L, M, N, O, P, Q>(model, data, options)
    }

    fn read_options(reader: &mut Cursor, options: &ReadOptions, args: &()) -> (r: BinResult<
        (A, B, C, D, E, F, G, H, I, J, K, L, M, N, O, P, Q),
    >) {
        assert(reader@ == old(reader)@.at(reader@.pos));
        let a: A = match A::read_options(reader, options, &()) {
            Ok(v) => v,
            Err(e) => {
                return Err(e);
            },
        };
        assert(reader@ == old(reader)@.at(reader@.pos));
        let b: B = match B::read_options(reader, options, &()) {
            Ok(v) => v,
            Err(e) => {
                return Err(e);
            },
        };
        assert(reader@ == old(reader)@.at(reader@.pos));
        let c: C = match C::read_options(reader, options, &()) {
            Ok(v) => v,
            Err(e) => {
                return Err(e);
            },
        };
        assert(reader@ == old(reader)@.at(reader@.pos));
        let d: D = match D::read_options(reader, options, &()) {
            Ok(v) => v,
            Err(e) => {
                return Err(e);
            },
        };
        assert(reader@ == old(reader)@.at(reader@.pos));
        let e: E = match E::read_options(reader, options, &()) {
            Ok(v) => v,
            Err(e) => {
                return Err(e);
            },
        };
        assert(reader@ == old(reader)@.at(reader@.pos));
        let f: F = match F::read_options(reader, options, &()) {
            Ok(v) => v,
            Err(e) => {
                return Err(e);
            },
        };
        assert(reader@ == old(reader)@.at(reader@.pos));
        let g: G = match G::read_options(reader, options, &()) {
            Ok(v) => v,
            Err(e) => {
                return Err(e);
            },
        };
        assert(reader@ == old(reader)@.at(reader@.pos));
        let h: H = match H::read_options(reader, options, &()) {
            Ok(v) => v,
            Err(e) => {
                return Err(e);
            },
        };
        assert(reader@ == old(reader)@.at(reader@.pos));
        let i: I = match I::read_options(reader, options, &()) {
            Ok(v) => v,
            Err(e) => {
                return Err(e);
            },
        };
        assert(reader@ == old(reader)@.at(reader@.pos));
        let j: J = match J::read_options(reader, options, &()) {
            Ok(v) => v,
            Err(e) => {
                return Err(e);
            },
        };
        assert(reader@ == old(reader)@.at(reader@.pos));
        let k: K = match K::read_options(reader, options, &()) {
            Ok(v) => v,
            Err(e) => {
                return Err(e);
            },
        };
        assert(reader@ == old(reader)@.at(reader@.pos));
        let l: L = match L::read_options(reader, options, &()) {
            Ok(v) => v,
            Err(e) => {
                return Err(e);
            },
        };
        assert(reader@ == old(reader)@.at(reader@.pos));
        let m: M = match M::read_options(reader, options, &()) {
            Ok(v) => v,
            Err(e) => {
                return Err(e);
            },
        };
        assert(reader@ == old(reader)@.at(reader@.pos));
        let n: N = match N::read_options(reader, options, &()) {
            Ok(v) => v,
            Err(e) => {
                return Err(e);
            },
        };
        assert(reader@ == old(reader)@.at(reader@.pos));
        let o: O = match O::read_options(reader, options, &()) {
            Ok(v) => v,
            Err(e) => {
                return Err(e);
            },
        };
        assert(reader@ == old(reader)@.at(reader@.pos));
        let p: P = match P::read_options(reader, options, &()) {
            Ok(v) => v,
            Err(e) => {
                return Err(e);
            },
        };
        assert(reader@ == old(reader)@.at(reader@.pos));
        let q: Q = match Q::read_options(reader, options, &()) {
            Ok(v) => v,
            Err(e) => {
                return Err(e);
            },
        };
        Ok((a, b, c, d, e, f, g, h, i, j, k, l, m, n, o, p, q))
    }

    fn after_parse(&mut self, reader: &mut Cursor, options: &ReadOptions, args: &()) -> (r:
        BinResult<()>) {
        match self.0.after_parse(reader, options, &()) {
            Ok(()) => {},
            Err(e) => {
                return Err(e);
            },
        }
        match self.1.after_parse(reader, options, &()) {
            Ok(()) => {},
            Err(e) => {
                return Err(e);
            },
        }
        match self.2.after_parse(reader, options, &()) {
            Ok(()) => {},
            Err(e) => {
                return Err(e);
            },
        }
        match self.3.after_parse(reader, options, &()) {
            Ok(()) => {},
            Err(e) => {
                return Err(e);
            },
        }
        match self.4.after_parse(reader, options, &()) {
            Ok(()) => {},
            Err(e) => {
                return Err(e);
            },
        }
        match self.5.after_parse(reader, options, &()) {
            Ok(()) => {},
            Err(e) => {
                return Err(e);
            },
        }
        match self.6.after_parse(reader, options, &()) {
            Ok(()) => {},
            Err(e) => {
                return Err(e);
            },
        }
        match self.7.after_parse(reader, options, &()) {
            Ok(()) => {},
            Err(e) => {
                return Err(e);
            },
        }
        match self.8.after_parse(reader, options, &()) {
            Ok(()) => {},
            Err(e) => {
                return Err(e);
            },
        }
        match self.9.after_parse(reader, options, &()) {
            Ok(()) => {},
            Err(e) => {
                return Err(e);
            },
        }
        match self.10.after_parse(reader, options, &()) {
            Ok(()) => {},
            Err(e) => {
                return Err(e);
            },
        }
        match self.11.after_parse(reader, options, &()) {
            Ok(()) => {},
            Err(e) => {
                return Err(e);
            },
        }
        match self.12.after_parse(reader, options, &()) {
            Ok(()) => {},
            Err(e) => {
                return Err(e);
            },
        }
        match self.13.after_parse(reader, options, &()) {
            Ok(()) => {},
            Err(e) => {
                return Err(e);
            },
        }
        match self.14.after_parse(reader, options, &()) {
            Ok(()) => {},
            Err(e) => {
                return Err(e);
            },
        }
        match self.15.after_parse(reader, options, &()) {
            Ok(()) => {},
            Err(e) => {
                return Err(e);
            },
        }
        self.16.after_parse(reader, options, &())
    }
}

/// The eighteen members of a tuple, one after the other.
pub open spec fn read_tuple18<A: BinRead<Args = ()>, B: BinRead<Args = ()>, C: BinRead<Args = ()>, D: BinRead<Args = ()>, E: BinRead<Args = ()>, F: BinRead<Args = ()>, G: BinRead<Args = ()>, H: BinRead<Args = ()>, I: BinRead<Args = ()>, J: BinRead<Args = ()>, K: BinRead<Args = ()>, L: BinRead<Args = ()>, M: BinRead<Args = ()>, N: BinRead<Args = ()>, O: BinRead<Args = ()>, P: BinRead<Args = ()>, Q: BinRead<Args = ()>, R: BinRead<Args = ()>>(
    stream: Stream,
    options: OptionsView,
) -> Outcome<(A::Model, B::Model, C::Model, D::Model, E::Model, F::Model, G::Model, H::Model, I::Model, J::Model, K::Model, L::Model, M::Model, N::Model, O::Model, P::Model, Q::Model, R::Model)> {
    match A::read_spec(stream, options, ()) {
        Err(e) => Err(e),
        Ok((a, after_a)) => {
            match B::read_spec(stream.at(after_a), options, ()) {
                Err(e) => Err(e),
                Ok((b, after_b)) => {
                    match C::read_spec(stream.at(after_b), options, ()) {
                        Err(e) => Err(e),
                        Ok((c, after_c)) => {
                            match D::read_spec(stream.at(after_c), options, ()) {
                                Err(e) => Err(e),
                                Ok((d, after_d)) => {
                                    match E::read_spec(stream.at(after_d), options, ()) {
                                        Err(e) => Err(e),
                                        Ok((e, after_e)) => {
                                            match F::read_spec(stream.at(after_e), options, ()) {
                                                Err(e) => Err(e),
                                                Ok((f, after_f)) => {
                                                    match G::read_spec(stream.at(after_f), options, ()) {
                                                        Err(e) => Err(e),
                                                        Ok((g, after_g)) => {
                                                            match H::read_spec(stream.at(after_g), options, ()) {
                                                                Err(e) => Err(e),
                                                                Ok((h, after_h)) => {
                                                                    match I::read_spec(stream.at(after_h), options, ()) {
                                                                        Err(e) => Err(e),
                                                                        Ok((i, after_i)) => {
                                                                            match J::read_spec(stream.at(after_i), options, ()) {
                                                                                Err(e) => Err(e),
                                                                                Ok((j, after_j)) => {
                                                                                    match K::read_spec(stream.at(after_j), options, ()) {
                                                                                        Err(e) => Err(e),
                                                                                        Ok((k, after_k)) => {
                                                                                            match L::read_spec(stream.at(after_k), options, ()) {
                                                                                                Err(e) => Err(e),
                                                                                                Ok((l, after_l)) => {
                                                                                                    match M::read_spec(stream.at(after_l), options, ()) {
                                                                                                        Err(e) => Err(e),
                                                                                                        Ok((m, after_m)) => {
                                                                                                            match N::read_spec(stream.at(after_m), options, ()) {
                                                                                                                Err(e) => Err(e),
                                                                                                                Ok((n, after_n)) => {
                                                                                                                    match O::read_spec(stream.at(after_n), options, ()) {
                                                                                                                        Err(e) => Err(e),
                                                                                                                        Ok((o, after_o)) => {
                                                                                                                            match P::read_spec(stream.at(after_o), options, ()) {
                                                                                                                                Err(e) => Err(e),
                                                                                                                                Ok((p, after_p)) => {
                                                                                                                                    match Q::read_spec(stream.at(after_p), options, ()) {
                                                                                                                                        Err(e) => Err(e),
                                                                                                                                        Ok((q, after_q)) => {
                                                                                                                                            match R::read_spec(stream.at(after_q), options, ()) {
                                                                                                                                                Err(e) => Err(e),
                                                                                                                                                Ok((r, after_r)) => Ok(((a, b, c, d, e, f, g, h, i, j, k, l, m, n, o, p, q, r), after_r)),
                                                                                                                                            }
                                                                                                                                        },
                                                                                                                                    }
                                                                                                                                },
                                                                                                                            }
                                                                                                                        },
                                                                                                                    }
                                                                                                                },
                                                                                                            }
                                                                                                        },
                                                                                                    }
                                                                                                },
                                                                                            }
                                                                                        },
                                                                                    }
                                                                                },
                                                                            }
                                                                        },
                                                                    }
                                                                },
                                                            }
                                                        },
                                                    }
                                                },
                                            }
                                        },
                                    }
                                },
                            }
                        },
                    }
                },
            }
        },
    }
}

/// Phase two on the eighteen members of a tuple, in the order in which they were
/// read.
pub open spec fn resolve_tuple18<A: BinRead<Args = ()>, B: BinRead<Args = ()>, C: BinRead<Args = ()>, D: BinRead<Args = ()>, E: BinRead<Args = ()>, F: BinRead<Args = ()>, G: BinRead<Args = ()>, H: BinRead<Args = ()>, I: BinRead<Args = ()>, J: BinRead<Args = ()>, K: BinRead<Args = ()>, L: BinRead<Args = ()>, M: BinRead<Args = ()>, N: BinRead<Args = ()>, O: BinRead<Args = ()>, P: BinRead<Args = ()>, Q: BinRead<Args = ()>, R: BinRead<Args = ()>>(
    model: (A::Model, B::Model, C::Model, D::Model, E::Model, F::Model, G::Model, H::Model, I::Model, J::Model, K::Model, L::Model, M::Model, N::Model, O::Model, P::Model, Q::Model, R::Model),
    data: Seq<u8>,
    options: OptionsView,
) -> Resolved<(A::Model, B::Model, C::Model, D::Model, E::Model, F::Model, G::Model, H::Model, I::Model, J::Model, K::Model, L::Model, M::Model, N::Model, O::Model, P::Model, Q::Model, R::Model)> {
    match A::resolve_spec(model.0, data, options, ()) {
        Err(e) => Err(e),
        Ok(a) => {
            match B::resolve_spec(model.1, data, options, ()) {
                Err(e) => Err(e),
                Ok(b) => {
                    match C::resolve_spec(model.2, data, options, ()) {
                        Err(e) => Err(e),
                        Ok(c) => {
                            match D::resolve_spec(model.3, data, options, ()) {
                                Err(e) => Err(e),
                                Ok(d) => {
                                    match E::resolve_spec(model.4, data, options, ()) {
                                        Err(e) => Err(e),
                                        Ok(e) => {
                                            match F::resolve_spec(model.5, data, options, ()) {
                                                Err(e) => Err(e),
                                                Ok(f) => {
                                                    match G::resolve_spec(model.6, data, options, ()) {
                                                        Err(e) => Err(e),
                                                        Ok(g) => {
                                                            match H::resolve_spec(model.7, data, options, ()) {
                                                                Err(e) => Err(e),
                                                                Ok(h) => {
                                                                    match I::resolve_spec(model.8, data, options, ()) {
                                                                        Err(e) => Err(e),
                                                                        Ok(i) => {
                                                                            match J::resolve_spec(model.9, data, options, ()) {
                                                                                Err(e) => Err(e),
                                                                                Ok(j) => {
                                                                                    match K::resolve_spec(model.10, data, options, ()) {
                                                                                        Err(e) => Err(e),
                                                                                        Ok(k) => {
                                                                                            match L::resolve_spec(model.11, data, options, ()) {
                                                                                                Err(e) => Err(e),
                                                                                                Ok(l) => {
                                                                                                    match M::resolve_spec(model.12, data, options, ()) {
                                                                                                        Err(e) => Err(e),
                                                                                                        Ok(m) => {
                                                                                                            match N::resolve_spec(model.13, data, options, ()) {
                                                                                                                Err(e) => Err(e),
                                                                                                                Ok(n) => {
                                                                                                                    match O::resolve_spec(model.14, data, options, ()) {
                                                                                                                        Err(e) => Err(e),
                                                                                                                        Ok(o) => {
                                                                                                                            match P::resolve_spec(model.15, data, options, ()) {
                                                                                                                                Err(e) => Err(e),
                                                                                                                                Ok(p) => {
                                                                                                                                    match Q::resolve_spec(model.16, data, options, ()) {
                                                                                                                                        Err(e) => Err(e),
                                                                                                                                        Ok(q) => {
                                                                                                                                            match R::resolve_spec(model.17, data, options, ()) {
                                                                                                                                                Err(e) => Err(e),
                                                                                                                                                Ok(r) => Ok((a, b, c, d, e, f, g, h, i, j, k, l, m, n, o, p, q, r)),
                                                                                                                                            }
                                                                                                                                        },
                                                                                                                                    }
                                                                                                                                },
                                                                                                                            }
                                                                                                                        },
                                                                                                                    }
                                                                                                                },
                                                                                                            }
                                                                                                        },
                                                                                                    }
                                                                                                },
                                                                                            }
                                                                                        },
                                                                                    }
                                                                                },
                                                                            }
                                                                        },
                                                                    }
                                                                },
                                                            }
                                                        },
                                                    }
                                                },
                                            }
                                        },
                                    }
                                },
                            }
                        },
                    }
                },
            }
        },
    }
}

impl<A: BinRead<Args = ()>, B: BinRead<Args = ()>, C: BinRead<Args = ()>, D: BinRead<Args = ()>, E: BinRead<Args = ()>, F: BinRead<Args = ()>, G: BinRead<Args = ()>, H: BinRead<Args = ()>, I: BinRead<Args = ()>, J: BinRead<Args = ()>, K: BinRead<Args = ()>, L: BinRead<Args = ()>, M: BinRead<Args = ()>, N: BinRead<Args = ()>, O: BinRead<Args = ()>, P: BinRead<Args = ()>, Q: BinRead<Args = ()>, R: BinRead<Args = ()>> BinRead for (A, B, C, D, E, F, G, H, I, J, K, L, M, N, O, P, Q, R) {
    type Args = ();

    type Model = (A::Model, B::Model, C::Model, D::Model, E::Model, F::Model, G::Model, H::Model, I::Model, J::Model, K::Model, L::Model, M::Model, N::Model, O::Model, P::Model, Q::Model, R::Model);

    open spec fn model(&self) -> (A::Model, B::Model, C::Model, D::Model, E::Model, F::Model, G::Model, H::Model, I::Model, J::Model, K::Model, L::Model, M::Model, N::Model, O::Model, P::Model, Q::Model, R::Model) {
        (self.0.model(), self.1.model(), self.2.model(), self.3.model(), self.4.model(), self.5.model(), self.6.model(), self.7.model(), self.8.model(), self.9.model(), self.10.model(), self.11.model(), self.12.model(), self.13.model(), self.14.model(), self.15.model(), self.16.model(), self.17.model())
    }

    open spec fn read_spec(stream: Stream, options: OptionsView, args: ()) -> Outcome<
        (A::Model, B::Model, C::Model, D::Model, E::Model, F::Model, G::Model, H::Model, I::Model, J::Model, K::Model, L::Model, M::Model, N::Model, O::Model, P::Model, Q::Model, R::Model),
    > {
        read_tuple18::<A, B, C, D, E, F, G, H, I, J, K, L, M, N, O, P, Q, R>(stream, options)
    }

    open spec fn resolve_spec(
        model: (A::Model, B::Model, C::Model, D::Model, E::Model, F::Model, G::Model, H::Model, I::Model, J::Model, K::Model, L::Model, M::Model, N::Model, O::Model, P::Model, Q::Model, R::Model),
        data: Seq<u8>,
        options: OptionsView,
        args: (),
    ) -> Resolved<(A::Model, B::Model, C::Model, D::Model, E::Model, F::Model, G::Model, H::Model, I::Model, J::Model, K::Model, L::Model, M::Model, N::Model, O::Model, P::Model, Q::Model, R::Model)> {
        resolve_tuple18::<A, B, C, D, E, F, G, H, I, J, K, L, M, N, O, P, Q, R>(model, data, options)
    }

    fn read_options(reader: &mut Cursor, options: &ReadOptions, args: &()) -> (r: BinResult<
        (A, B, C, D, E, F, G, H, I, J, K, L, M, N, O, P, Q, R),
    >) {
        assert(reader@ == old(reader)@.at(reader@.pos));
        let a: A = match A::read_options(reader, options, &()) {
            Ok(v) => v,
            Err(e) => {
                return Err(e);
            },
        };
        assert(reader@ == old(reader)@.at(reader@.pos));
        let b: B = match B::read_options(reader, options, &()) {
            Ok(v) => v,
            Err(e) => {
                return Err(e);
            },
        };
        assert(reader@ == old(reader)@.at(reader@.pos));
        let c: C = match C::read_options(reader, options, &()) {
            Ok(v) => v,
            Err(e) => {
                return Err(e);
            },
        };
        assert(reader@ == old(reader)@.at(reader@.pos));
        let d: D = match D::read_options(reader, options, &()) {
            Ok(v) => v,
            Err(e) => {
                return Err(e);
            },
        };
        assert(reader@ == old(reader)@.at(reader@.pos));
        let e: E = match E::read_options(reader, options, &()) {
            Ok(v) => v,
            Err(e) => {
                return Err(e);
            },
        };
        assert(reader@ == old(reader)@.at(reader@.pos));
        let f: F = match F::read_options(reader, options, &()) {
            Ok(v) => v,
            Err(e) => {
                return Err(e);
            },
        };
        assert(reader@ == old(reader)@.at(reader@.pos));
        let g: G = match G::read_options(reader, options, &()) {
            Ok(v) => v,
            Err(e) => {
                return Err(e);
            },
        };
        assert(reader@ == old(reader)@.at(reader@.pos));
        let h: H = match H::read_options(reader, options, &()) {
            Ok(v) => v,
            Err(e) => {
                return Err(e);
            },
        };
        assert(reader@ == old(reader)@.at(reader@.pos));
        let i: I = match I::read_options(reader, options, &()) {
            Ok(v) => v,
            Err(e) => {
                return Err(e);
            },
        };
        assert(reader@ == old(reader)@.at(reader@.pos));
        let j: J = match J::read_options(reader, options, &()) {
            Ok(v) => v,
            Err(e) => {
                return Err(e);
            },
        };
        assert(reader@ == old(reader)@.at(reader@.pos));
        let k: K = match K::read_options(reader, options, &()) {
            Ok(v) => v,
            Err(e) => {
                return Err(e);
            },
        };
        assert(reader@ == old(reader)@.at(reader@.pos));
        let l: L = match L::read_options(reader, options, &()) {
            Ok(v) => v,
            Err(e) => {
                return Err(e);
            },
        };
        assert(reader@ == old(reader)@.at(reader@.pos));
        let m: M = match M::read_options(reader, options, &()) {
            Ok(v) => v,
            Err(e) => {
                return Err(e);
            },
        };
        assert(reader@ == old(reader)@.at(reader@.pos));
        let n: N = match N::read_options(reader, options, &()) {
            Ok(v) => v,
            Err(e) => {
                return Err(e);
            },
        };
        assert(reader@ == old(reader)@.at(reader@.pos));
        let o: O = match O::read_options(reader, options, &()) {
            Ok(v) => v,
            Err(e) => {
                return Err(e);
            },
        };
        assert(reader@ == old(reader)@.at(reader@.pos));
        let p: P = match P::read_options(reader, options, &()) {
            Ok(v) => v,
            Err(e) => {
                return Err(e);
            },
        };
        assert(reader@ == old(reader)@.at(reader@.pos));
        let q: Q = match Q::read_options(reader, options, &()) {
            Ok(v) => v,
            Err(e) => {
                return Err(e);
            },
        };
        assert(reader@ == old(reader)@.at(reader@.pos));
        let r: R = match R::read_options(reader, options, &()) {
            Ok(v) => v,
            Err(e) => {
                return Err(e);
            },
        };
        Ok((a, b, c, d, e, f, g, h, i, j, k, l, m, n, o, p, q, r))
    }

    fn after_parse(&mut self, reader: &mut Cursor, options: &ReadOptions, args: &()) -> (r:
        BinResult<()>) {
        match self.0.after_parse(reader, options, &()) {
            Ok(()) => {},
            Err(e) => {
                return Err(e);
            },
        }
        match self.1.after_parse(reader, options, &()) {
            Ok(()) => {},
            Err(e) => {
                return Err(e);
            },
        }
        match self.2.after_parse(reader, options, &()) {
            Ok(()) => {},
            Err(e) => {
                return Err(e);
            },
        }
        match self.3.after_parse(reader, options, &()) {
            Ok(()) => {},
            Err(e) => {
                return Err(e);
            },
        }
        match self.4.after_parse(reader, options, &()) {
            Ok(()) => {},
            Err(e) => {
                return Err(e);
            },
        }
        match self.5.after_parse(reader, options, &()) {
            Ok(()) => {},
            Err(e) => {
                return Err(e);
            },
        }
        match self.6.after_parse(reader, options, &()) {
            Ok(()) => {},
            Err(e) => {
                return Err(e);
            },
        }
        match self.7.after_parse(reader, options, &()) {
            Ok(()) => {},
            Err(e) => {
                return Err(e);
            },
        }
        match self.8.after_parse(reader, options, &()) {
            Ok(()) => {},
            Err(e) => {
                return Err(e);
            },
        }
        match self.9.after_parse(reader, options, &()) {
            Ok(()) => {},
            Err(e) => {
                return Err(e);
            },
        }
        match self.10.after_parse(reader, options, &()) {
            Ok(()) => {},
            Err(e) => {
                return Err(e);
            },
        }
        match self.11.after_parse(reader, options, &()) {
            Ok(()) => {},
            Err(e) => {
                return Err(e);
            },
        }
        match self.12.after_parse(reader, options, &()) {
            Ok(()) => {},
            Err(e) => {
                return Err(e);
            },
        }
        match self.13.after_parse(reader, options, &()) {
            Ok(()) => {},
            Err(e) => {
                return Err(e);
            },
        }
        match self.14.after_parse(reader, options, &()) {
            Ok(()) => {},
            Err(e) => {
                return Err(e);
            },
        }
        match self.15.after_parse(reader, options, &()) {
            Ok(()) => {},
            Err(e) => {
                return Err(e);
            },
        }
        match self.16.after_parse(reader, options, &()) {
            Ok(()) => {},
            Err(e) => {
                return Err(e);
            },
        }
        self.17.after_parse(reader, options, &())
    }
}

/// The nineteen members of a tuple, one after the other.
pub open spec fn read_tuple19<A: BinRead<Args = ()>, B: BinRead<Args = ()>, C: BinRead<Args = ()>, D: BinRead<Args = ()>, E: BinRead<Args = ()>, F: BinRead<Args = ()>, G: BinRead<Args = ()>, H: BinRead<Args = ()>, I: BinRead<Args = ()>, J: BinRead<Args = ()>, K: BinRead<Args = ()>, L: BinRead<Args = ()>, M: BinRead<Args = ()>, N: BinRead<Args = ()>, O: BinRead<Args = ()>, P: BinRead<Args = ()>, Q: BinRead<Args = ()>, R: BinRead<Args = ()>, S: BinRead<Args = ()>>(
    stream: Stream,
    options: OptionsView,
) -> Outcome<(A::Model, B::Model, C::Model, D::Model, E::Model, F::Model, G::Model, H::Model, I::Model, J::Model, K::Model, L::Model, M::Model, N::Model, O::Model, P::Model, Q::Model, R::Model, S::Model)> {
    match A::read_spec(stream, options, ()) {
        Err(e) => Err(e),
        Ok((a, after_a)) => {
            match B::read_spec(stream.at(after_a), options, ()) {
                Err(e) => Err(e),
                Ok((b, after_b)) => {
                    match C::read_spec(stream.at(after_b), options, ()) {
                        Err(e) => Err(e),
                        Ok((c, after_c)) => {
                            match D::read_spec(stream.at(after_c), options, ()) {
                                Err(e) => Err(e),
                                Ok((d, after_d)) => {
                                    match E::read_spec(stream.at(after_d), options, ()) {
                                        Err(e) => Err(e),
                                        Ok((e, after_e)) => {
                                            match F::read_spec(stream.at(after_e), options, ()) {
                                                Err(e) => Err(e),
                                                Ok((f, after_f)) => {
                                                    match G::read_spec(stream.at(after_f), options, ()) {
                                                        Err(e) => Err(e),
                                                        Ok((g, after_g)) => {
                                                            match H::read_spec(stream.at(after_g), options, ()) {
                                                                Err(e) => Err(e),
                                                                Ok((h, after_h)) => {
                                                                    match I::read_spec(stream.at(after_h), options, ()) {
                                                                        Err(e) => Err(e),
                                                                        Ok((i, after_i)) => {
                                                                            match J::read_spec(stream.at(after_i), options, ()) {
                                                                                Err(e) => Err(e),
                                                                                Ok((j, after_j)) => {
                                                                                    match K::read_spec(stream.at(after_j), options, ()) {
                                                                                        Err(e) => Err(e),
                                                                                        Ok((k, after_k)) => {
                                                                                            match L::read_spec(stream.at(after_k), options, ()) {
                                                                                                Err(e) => Err(e),
                                                                                                Ok((l, after_l)) => {
                                                                                                    match M::read_spec(stream.at(after_l), options, ()) {
                                                                                                        Err(e) => Err(e),
                                                                                                        Ok((m, after_m)) => {
                                                                                                            match N::read_spec(stream.at(after_m), options, ()) {
                                                                                                                Err(e) => Err(e),
                                                                                                                Ok((n, after_n)) => {
                                                                                                                    match O::read_spec(stream.at(after_n), options, ()) {
                                                                                                                        Err(e) => Err(e),
                                                                                                                        Ok((o, after_o)) => {
                                                                                                                            match P::read_spec(stream.at(after_o), options, ()) {
                                                                                                                                Err(e) => Err(e),
                                                                                                                                Ok((p, after_p)) => {
                                                                                                                                    match Q::read_spec(stream.at(after_p), options, ()) {
                                                                                                                                        Err(e) => Err(e),
                                                                                                                                        Ok((q, after_q)) => {
                                                                                                                                            match R::read_spec(stream.at(after_q), options, ()) {
                                                                                                                                                Err(e) => Err(e),
                                                                                                                                                Ok((r, after_r)) => {
                                                                                                                                                    match S::read_spec(stream.at(after_r), options, ()) {
                                                                                                                                                        Err(e) => Err(e),
                                                                                                                                                        Ok((s, after_s)) => Ok(((a, b, c, d, e, f, g, h, i, j, k, l, m, n, o, p, q, r, s), after_s)),
                                                                                                                                                    }
                                                                                                                                                },
                                                                                                                                            }
                                                                                                                                        },
                                                                                                                                    }
                                                                                                                                },
                                                                                                                            }
                                                                                                                        },
                                                                                                                    }
                                                                                                                },
                                                                                                            }
                                                                                                        },
                                                                                                    }
                                                                                                },
                                                                                            }
                                                                                        },
                                                                                    }
                                                                                },
                                                                            }
                                                                        },
                                                                    }
                                                                },
                                                            }
                                                        },
                                                    }
                                                },
                                            }
                                        },
                                    }
                                },
                            }
                        },
                    }
                },
            }
        },
    }
}

/// Phase two on the nineteen members of a tuple, in the order in which they were
/// read.
pub open spec fn resolve_tuple19<A: BinRead<Args = ()>, B: BinRead<Args = ()>, C: BinRead<Args = ()>, D: BinRead<Args = ()>, E: BinRead<Args = ()>, F: BinRead<Args = ()>, G: BinRead<Args = ()>, H: BinRead<Args = ()>, I: BinRead<Args = ()>, J: BinRead<Args = ()>, K: BinRead<Args = ()>, L: BinRead<Args = ()>, M: BinRead<Args = ()>, N: BinRead<Args = ()>, O: BinRead<Args = ()>, P: BinRead<Args = ()>, Q: BinRead<Args = ()>, R: BinRead<Args = ()>, S: BinRead<Args = ()>>(
    model: (A::Model, B::Model, C::Model, D::Model, E::Model, F::Model, G::Model, H::Model, I::Model, J::Model, K::Model, L::Model, M::Model, N::Model, O::Model, P::Model, Q::Model, R::Model, S::Model),
    data: Seq<u8>,
    options: OptionsView,
) -> Resolved<(A::Model, B::Model, C::Model, D::Model, E::Model, F::Model, G::Model, H::Model, I::Model, J::Model, K::Model, L::Model, M::Model, N::Model, O::Model, P::Model, Q::Model, R::Model, S::Model)> {
    match A::resolve_spec(model.0, data, options, ()) {
        Err(e) => Err(e),
        Ok(a) => {
            match B::resolve_spec(model.1, data, options, ()) {
                Err(e) => Err(e),
                Ok(b) => {
                    match C::resolve_spec(model.2, data, options, ()) {
                        Err(e) => Err(e),
                        Ok(c) => {
                            match D::resolve_spec(model.3, data, options, ()) {
                                Err(e) => Err(e),
                                Ok(d) => {
                                    match E::resolve_spec(model.4, data, options, ()) {
                                        Err(e) => Err(e),
                                        Ok(e) => {
                                            match F::resolve_spec(model.5, data, options, ()) {
                                                Err(e) => Err(e),
                                                Ok(f) => {
                                                    match G::resolve_spec(model.6, data, options, ()) {
                                                        Err(e) => Err(e),
                                                        Ok(g) => {
                                                            match H::resolve_spec(model.7, data, options, ()) {
                                                                Err(e) => Err(e),
                                                                Ok(h) => {
                                                                    match I::resolve_spec(model.8, data, options, ()) {
                                                                        Err(e) => Err(e),
                                                                        Ok(i) => {
                                                                            match J::resolve_spec(model.9, data, options, ()) {
                                                                                Err(e) => Err(e),
                                                                                Ok(j) => {
                                                                                    match K::resolve_spec(model.10, data, options, ()) {
                                                                                        Err(e) => Err(e),
                                                                                        Ok(k) => {
                                                                                            match L::resolve_spec(model.11, data, options, ()) {
                                                                                                Err(e) => Err(e),
                                                                                                Ok(l) => {
                                                                                                    match M::resolve_spec(model.12, data, options, ()) {
                                                                                                        Err(e) => Err(e),
                                                                                                        Ok(m) => {
                                                                                                            match N::resolve_spec(model.13, data, options, ()) {
                                                                                                                Err(e) => Err(e),
                                                                                                                Ok(n) => {
                                                                                                                    match O::resolve_spec(model.14, data, options, ()) {
                                                                                                                        Err(e) => Err(e),
                                                                                                                        Ok(o) => {
                                                                                                                            match P::resolve_spec(model.15, data, options, ()) {
                                                                                                                                Err(e) => Err(e),
                                                                                                                                Ok(p) => {
                                                                                                                                    match Q::resolve_spec(model.16, data, options, ()) {
                                                                                                                                        Err(e) => Err(e),
                                                                                                                                        Ok(q) => {
                                                                                                                                            match R::resolve_spec(model.17, data, options, ()) {
                                                                                                                                                Err(e) => Err(e),
                                                                                                                                                Ok(r) => {
                                                                                                                                                    match S::resolve_spec(model.18, data, options, ()) {
                                                                                                                                                        Err(e) => Err(e),
                                                                                                                                                        Ok(s) => Ok((a, b, c, d, e, f, g, h, i, j, k, l, m, n, o, p, q, r, s)),
                                                                                                                                                    }
                                                                                                                                                },
                                                                                                                                            }
                                                                                                                                        },
                                                                                                                                    }
                                                                                                                                },
                                                                                                                            }
                                                                                                                        },
                                                                                                                    }
                                                                                                                },
                                                                                                            }
                                                                                                        },
                                                                                                    }
                                                                                                },
                                                                                            }
                                                                                        },
                                                                                    }
                                                                                },
                                                                            }
                                                                        },
                                                                    }
                                                                },
                                                            }
                                                        },
                                                    }
                                                },
                                            }
                                        },
                                    }
                                },
                            }
                        },
                    }
                },
            }
        },
    }
}

impl<A: BinRead<Args = ()>, B: BinRead<Args = ()>, C: BinRead<Args = ()>, D: BinRead<Args = ()>, E: BinRead<Args = ()>, F: BinRead<Args = ()>, G: BinRead<Args = ()>, H: BinRead<Args = ()>, I: BinRead<Args = ()>, J: BinRead<Args = ()>, K: BinRead<Args = ()>, L: BinRead<Args = ()>, M: BinRead<Args = ()>, N: BinRead<Args = ()>, O: BinRead<Args = ()>, P: BinRead<Args = ()>, Q: BinRead<Args = ()>, R: BinRead<Args = ()>, S: BinRead<Args = ()>> BinRead for (A, B, C, D, E, F, G, H, I, J, K, L, M, N, O, P, Q, R, S) {
    type Args = ();

    type Model = (A::Model, B::Model, C::Model, D::Model, E::Model, F::Model, G::Model, H::Model, I::Model, J::Model, K::Model, L::Model, M::Model, N::Model, O::Model, P::Model, Q::Model, R::Model, S::Model);

    open spec fn model(&self) -> (A::Model, B::Model, C::Model, D::Model, E::Model, F::Model, G::Model, H::Model, I::Model, J::Model, K::Model, L::Model, M::Model, N::Model, O::Model, P::Model, Q::Model, R::Model, S::Model) {
        (self.0.model(), self.1.model(), self.2.model(), self.3.model(), self.4.model(), self.5.model(), self.6.model(), self.7.model(), self.8.model(), self.9.model(), self.10.model(), self.11.model(), self.12.model(), self.13.model(), self.14.model(), self.15.model(), self.16.model(), self.17.model(), self.18.model())
    }

    open spec fn read_spec(stream: Stream, options: OptionsView, args: ()) -> Outcome<
        (A::Model, B::Model, C::Model, D::Model, E::Model, F::Model, G::Model, H::Model, I::Model, J::Model, K::Model, L::Model, M::Model, N::Model, O::Model, P::Model, Q::Model, R::Model, S::Model),
    > {
        read_tuple19::<A, B, C, D, E, F, G, H, I, J, K, L, M, N, O, P, Q, R, S>(stream, options)
    }

    open spec fn resolve_spec(
        model: (A::Model, B::Model, C::Model, D::Model, E::Model, F::Model, G::Model, H::Model, I::Model, J::Model, K::Model, L::Model, M::Model, N::Model, O::Model, P::Model, Q::Model, R::Model, S::Model),
        data: Seq<u8>,
        options: OptionsView,
        args: (),
    ) -> Resolved<(A::Model, B::Model, C::Model, D::Model, E::Model, F::Model, G::Model, H::Model, I::Model, J::Model, K::Model, L::Model, M::Model, N::Model, O::Model, P::Model, Q::Model, R::Model, S::Model)> {
        resolve_tuple19::<A, B, C, D, E, F, G, H, I, J, K, L, M, N, O, P, Q, R, S>(model, data, options)
    }

    fn read_options(reader: &mut Cursor, options: &ReadOptions, args: &()) -> (r: BinResult<
        (A, B, C, D, E, F, G, H, I, J, K, L, M, N, O, P, Q, R, S),
    >) {
        assert(reader@ == old(reader)@.at(reader@.pos));
        let a: A = match A::read_options(reader, options, &()) {
            Ok(v) => v,
            Err(e) => {
                return Err(e);
            },
        };
        assert(reader@ == old(reader)@.at(reader@.pos));
        let b: B = match B::read_options(reader, options, &()) {
            Ok(v) => v,
            Err(e) => {
                return Err(e);
            },
        };
        assert(reader@ == old(reader)@.at(reader@.pos));
        let c: C = match C::read_options(reader, options, &()) {
            Ok(v) => v,
            Err(e) => {
                return Err(e);
            },
        };
        assert(reader@ == old(reader)@.at(reader@.pos));
        let d: D = match D::read_options(reader, options, &()) {
            Ok(v) => v,
            Err(e) => {
                return Err(e);
            },
        };
        assert(reader@ == old(reader)@.at(reader@.pos));
        let e: E = match E::read_options(reader, options, &()) {
            Ok(v) => v,
            Err(e) => {
                return Err(e);
            },
        };
        assert(reader@ == old(reader)@.at(reader@.pos));
        let f: F = match F::read_options(reader, options, &()) {
            Ok(v) => v,
            Err(e) => {
                return Err(e);
            },
        };
        assert(reader@ == old(reader)@.at(reader@.pos));
        let g: G = match G::read_options(reader, options, &()) {
            Ok(v) => v,
            Err(e) => {
                return Err(e);
            },
        };
        assert(reader@ == old(reader)@.at(reader@.pos));
        let h: H = match H::read_options(reader, options, &()) {
            Ok(v) => v,
            Err(e) => {
                return Err(e);
            },
        };
        assert(reader@ == old(reader)@.at(reader@.pos));
        let i: I = match I::read_options(reader, options, &()) {
            Ok(v) => v,
            Err(e) => {
                return Err(e);
            },
        };
        assert(reader@ == old(reader)@.at(reader@.pos));
        let j: J = match J::read_options(reader, options, &()) {
            Ok(v) => v,
            Err(e) => {
                return Err(e);
            },
        };
        assert(reader@ == old(reader)@.at(reader@.pos));
        let k: K = match K::read_options(reader, options, &()) {
            Ok(v) => v,
            Err(e) => {
                return Err(e);
            },
        };
        assert(reader@ == old(reader)@.at(reader@.pos));
        let l: L = match L::read_options(reader, options, &()) {
            Ok(v) => v,
            Err(e) => {
                return Err(e);
            },
        };
        assert(reader@ == old(reader)@.at(reader@.pos));
        let m: M = match M::read_options(reader, options, &()) {
            Ok(v) => v,
            Err(e) => {
                return Err(e);
            },
        };
        assert(reader@ == old(reader)@.at(reader@.pos));
        let n: N = match N::read_options(reader, options, &()) {
            Ok(v) => v,
            Err(e) => {
                return Err(e);
            },
        };
        assert(reader@ == old(reader)@.at(reader@.pos));
        let o: O = match O::read_options(reader, options, &()) {
            Ok(v) => v,
            Err(e) => {
                return Err(e);
            },
        };
        assert(reader@ == old(reader)@.at(reader@.pos));
        let p: P = match P::read_options(reader, options, &()) {
            Ok(v) => v,
            Err(e) => {
                return Err(e);
            },
        };
        assert(reader@ == old(reader)@.at(reader@.pos));
        let q: Q = match Q::read_options(reader, options, &()) {
            Ok(v) => v,
            Err(e) => {
                return Err(e);
            },
        };
        assert(reader@ == old(reader)@.at(reader@.pos));
        let r: R = match R::read_options(reader, options, &()) {
            Ok(v) => v,
            Err(e) => {
                return Err(e);
            },
        };
        assert(reader@ == old(reader)@.at(reader@.pos));
        let s: S = match S::read_options(reader, options, &()) {
            Ok(v) => v,
            Err(e) => {
                return Err(e);
            },
        };
        Ok((a, b, c, d, e, f, g, h, i, j, k, l, m, n, o, p, q, r, s))
    }

    fn after_parse(&mut self, reader: &mut Cursor, options: &ReadOptions, args: &()) -> (r:
        BinResult<()>) {
        match self.0.after_parse(reader, options, &()) {
            Ok(()) => {},
            Err(e) => {
                return Err(e);
            },
        }
        match self.1.after_parse(reader, options, &()) {
            Ok(()) => {},
            Err(e) => {
                return Err(e);
            },
        }
        match self.2.after_parse(reader, options, &()) {
            Ok(()) => {},
            Err(e) => {
                return Err(e);
            },
        }
        match self.3.after_parse(reader, options, &()) {
            Ok(()) => {},
            Err(e) => {
                return Err(e);
            },
        }
        match self.4.after_parse(reader, options, &()) {
            Ok(()) => {},
            Err(e) => {
                return Err(e);
            },
        }
        match self.5.after_parse(reader, options, &()) {
            Ok(()) => {},
            Err(e) => {
                return Err(e);
            },
        }
        match self.6.after_parse(reader, options, &()) {
            Ok(()) => {},
            Err(e) => {
                return Err(e);
            },
        }
        match self.7.after_parse(reader, options, &()) {
            Ok(()) => {},
            Err(e) => {
                return Err(e);
            },
        }
        match self.8.after_parse(reader, options, &()) {
            Ok(()) => {},
            Err(e) => {
                return Err(e);
            },
        }
        match self.9.after_parse(reader, options, &()) {
            Ok(()) => {},
            Err(e) => {
                return Err(e);
            },
        }
        match self.10.after_parse(reader, options, &()) {
            Ok(()) => {},
            Err(e) => {
                return Err(e);
            },
        }
        match self.11.after_parse(reader, options, &()) {
            Ok(()) => {},
            Err(e) => {
                return Err(e);
            },
        }
        match self.12.after_parse(reader, options, &()) {
            Ok(()) => {},
            Err(e) => {
                return Err(e);
            },
        }
        match self.13.after_parse(reader, options, &()) {
            Ok(()) => {},
            Err(e) => {
                return Err(e);
            },
        }
        match self.14.after_parse(reader, options, &()) {
            Ok(()) => {},
            Err(e) => {
                return Err(e);
            },
        }
        match self.15.after_parse(reader, options, &()) {
            Ok(()) => {},
            Err(e) => {
                return Err(e);
            },
        }
        match self.16.after_parse(reader, options, &()) {
            Ok(()) => {},
            Err(e) => {
                return Err(e);
            },
        }
        match self.17.after_parse(reader, options, &()) {
            Ok(()) => {},
            Err(e) => {
                return Err(e);
            },
        }
        self.18.after_parse(reader, options, &())
    }
}

/// The twenty members of a tuple, one after the other.
pub open spec fn read_tuple20<A: BinRead<Args = ()>, B: BinRead<Args = ()>, C: BinRead<Args = ()>, D: BinRead<Args = ()>, E: BinRead<Args = ()>, F: BinRead<Args = ()>, G: BinRead<Args = ()>, H: BinRead<Args = ()>, I: BinRead<Args = ()>, J: BinRead<Args = ()>, K: BinRead<Args = ()>, L: BinRead<Args = ()>, M: BinRead<Args = ()>, N: BinRead<Args = ()>, O: BinRead<Args = ()>, P: BinRead<Args = ()>, Q: BinRead<Args = ()>, R: BinRead<Args = ()>, S: BinRead<Args = ()>, T: BinRead<Args = ()>>(
    stream: Stream,
    options: OptionsView,
) -> Outcome<(A::Model, B::Model, C::Model, D::Model, E::Model, F::Model, G::Model, H::Model, I::Model, J::Model, K::Model, L::Model, M::Model, N::Model, O::Model, P::Model, Q::Model, R::Model, S::Model, T::Model)> {
    match A::read_spec(stream, options, ()) {
        Err(e) => Err(e),
        Ok((a, after_a)) => {
            match B::read_spec(stream.at(after_a), options, ()) {
                Err(e) => Err(e),
                Ok((b, after_b)) => {
                    match C::read_spec(stream.at(after_b), options, ()) {
                        Err(e) => Err(e),
                        Ok((c, after_c)) => {
                            match D::read_spec(stream.at(after_c), options, ()) {
                                Err(e) => Err(e),
                                Ok((d, after_d)) => {
                                    match E::read_spec(stream.at(after_d), options, ()) {
                                        Err(e) => Err(e),
                                        Ok((e, after_e)) => {
                                            match F::read_spec(stream.at(after_e), options, ()) {
                                                Err(e) => Err(e),
                                                Ok((f, after_f)) => {
                                                    match G::read_spec(stream.at(after_f), options, ()) {
                                                        Err(e) => Err(e),
                                                        Ok((g, after_g)) => {
                                                            match H::read_spec(stream.at(after_g), options, ()) {
                                                                Err(e) => Err(e),
                                                                Ok((h, after_h)) => {
                                                                    match I::read_spec(stream.at(after_h), options, ()) {
                                                                        Err(e) => Err(e),
                                                                        Ok((i, after_i)) => {
                                                                            match J::read_spec(stream.at(after_i), options, ()) {
                                                                                Err(e) => Err(e),
                                                                                Ok((j, after_j)) => {
                                                                                    match K::read_spec(stream.at(after_j), options, ()) {
                                                                                        Err(e) => Err(e),
                                                                                        Ok((k, after_k)) => {
                                                                                            match L::read_spec(stream.at(after_k), options, ()) {
                                                                                                Err(e) => Err(e),
                                                                                                Ok((l, after_l)) => {
                                                                                                    match M::read_spec(stream.at(after_l), options, ()) {
                                                                                                        Err(e) => Err(e),
                                                                                                        Ok((m, after_m)) => {
                                                                                                            match N::read_spec(stream.at(after_m), options, ()) {
                                                                                                                Err(e) => Err(e),
                                                                                                                Ok((n, after_n)) => {
                                                                                                                    match O::read_spec(stream.at(after_n), options, ()) {
                                                                                                                        Err(e) => Err(e),
                                                                                                                        Ok((o, after_o)) => {
                                                                                                                            match P::read_spec(stream.at(after_o), options, ()) {
                                                                                                                                Err(e) => Err(e),
                                                                                                                                Ok((p, after_p)) => {
                                                                                                                                    match Q::read_spec(stream.at(after_p), options, ()) {
                                                                                                                                        Err(e) => Err(e),
                                                                                                                                        Ok((q, after_q)) => {
                                                                                                                                            match R::read_spec(stream.at(after_q), options, ()) {
                                                                                                                                                Err(e) => Err(e),
                                                                                                                                                Ok((r, after_r)) => {
                                                                                                                                                    match S::read_spec(stream.at(after_r), options, ()) {
                                                                                                                                                        Err(e) => Err(e),
                                                                                                                                                        Ok((s, after_s)) => {
                                                                                                                                                            match T::read_spec(stream.at(after_s), options, ()) {
                                                                                                                                                                Err(e) => Err(e),
                                                                                                                                                                Ok((t, after_t)) => Ok(((a, b, c, d, e, f, g, h, i, j, k, l, m, n, o, p, q, r, s, t), after_t)),
                                                                                                                                                            }
                                                                                                                                                        },
                                                                                                                                                    }
                                                                                                                                                },
                                                                                                                                            }
                                                                                                                                        },
                                                                                                                                    }
                                                                                                                                },
                                                                                                                            }
                                                                                                                        },
                                                                                                                    }
                                                                                                                },
                                                                                                            }
                                                                                                        },
                                                                                                    }
                                                                                                },
                                                                                            }
                                                                                        },
                                                                                    }
                                                                                },
                                                                            }
                                                                        },
                                                                    }
                                                                },
                                                            }
                                                        },
                                                    }
                                                },
                                            }
                                        },
                                    }
                                },
                            }
                        },
                    }
                },
            }
        },
    }
}

/// Phase two on the twenty members of a tuple, in the order in which they were
/// read.
pub open spec fn resolve_tuple20<A: BinRead<Args = ()>, B: BinRead<Args = ()>, C: BinRead<Args = ()>, D: BinRead<Args = ()>, E: BinRead<Args = ()>, F: BinRead<Args = ()>, G: BinRead<Args = ()>, H: BinRead<Args = ()>, I: BinRead<Args = ()>, J: BinRead<Args = ()>, K: BinRead<Args = ()>, L: BinRead<Args = ()>, M: BinRead<Args = ()>, N: BinRead<Args = ()>, O: BinRead<Args = ()>, P: BinRead<Args = ()>, Q: BinRead<Args = ()>, R: BinRead<Args = ()>, S: BinRead<Args = ()>, T: BinRead<Args = ()>>(
    model: (A::Model, B::Model, C::Model, D::Model, E::Model, F::Model, G::Model, H::Model, I::Model, J::Model, K::Model, L::Model, M::Model, N::Model, O::Model, P::Model, Q::Model, R::Model, S::Model, T::Model),
    data: Seq<u8>,
    options: OptionsView,
) -> Resolved<(A::Model, B::Model, C::Model, D::Model, E::Model, F::Model, G::Model, H::Model, I::Model, J::Model, K::Model, L::Model, M::Model, N::Model, O::Model, P::Model, Q::Model, R::Model, S::Model, T::Model)> {
    match A::resolve_spec(model.0, data, options, ()) {
        Err(e) => Err(e),
        Ok(a) => {
            match B::resolve_spec(model.1, data, options, ()) {
                Err(e) => Err(e),
                Ok(b) => {
                    match C::resolve_spec(model.2, data, options, ()) {
                        Err(e) => Err(e),
                        Ok(c) => {
                            match D::resolve_spec(model.3, data, options, ()) {
                                Err(e) => Err(e),
                                Ok(d) => {
                                    match E::resolve_spec(model.4, data, options, ()) {
                                        Err(e) => Err(e),
                                        Ok(e) => {
                                            match F::resolve_spec(model.5, data, options, ()) {
                                                Err(e) => Err(e),
                                                Ok(f) => {
                                                    match G::resolve_spec(model.6, data, options, ()) {
                                                        Err(e) => Err(e),
                                                        Ok(g) => {
                                                            match H::resolve_spec(model.7, data, options, ()) {
                                                                Err(e) => Err(e),
                                                                Ok(h) => {
                                                                    match I::resolve_spec(model.8, data, options, ()) {
                                                                        Err(e) => Err(e),
                                                                        Ok(i) => {
                                                                            match J::resolve_spec(model.9, data, options, ()) {
                                                                                Err(e) => Err(e),
                                                                                Ok(j) => {
                                                                                    match K::resolve_spec(model.10, data, options, ()) {
                                                                                        Err(e) => Err(e),
                                                                                        Ok(k) => {
                                                                                            match L::resolve_spec(model.11, data, options, ()) {
                                                                                                Err(e) => Err(e),
                                                                                                Ok(l) => {
                                                                                                    match M::resolve_spec(model.12, data, options, ()) {
                                                                                                        Err(e) => Err(e),
                                                                                                        Ok(m) => {
                                                                                                            match N::resolve_spec(model.13, data, options, ()) {
                                                                                                                Err(e) => Err(e),
                                                                                                                Ok(n) => {
                                                                                                                    match O::resolve_spec(model.14, data, options, ()) {
                                                                                                                        Err(e) => Err(e),
                                                                                                                        Ok(o) => {
                                                                                                                            match P::resolve_spec(model.15, data, options, ()) {
                                                                                                                                Err(e) => Err(e),
                                                                                                                                Ok(p) => {
                                                                                                                                    match Q::resolve_spec(model.16, data, options, ()) {
                                                                                                                                        Err(e) => Err(e),
                                                                                                                                        Ok(q) => {
                                                                                                                                            match R::resolve_spec(model.17, data, options, ()) {
                                                                                                                                                Err(e) => Err(e),
                                                                                                                                                Ok(r) => {
                                                                                                                                                    match S::resolve_spec(model.18, data, options, ()) {
                                                                                                                                                        Err(e) => Err(e),
                                                                                                                                                        Ok(s) => {
                                                                                                                                                            match T::resolve_spec(model.19, data, options, ()) {
                                                                                                                                                                Err(e) => Err(e),
                                                                                                                                                                Ok(t) => Ok((a, b, c, d, e, f, g, h, i, j, k, l, m, n, o, p, q, r, s, t)),
                                                                                                                                                            }
                                                                                                                                                        },
                                                                                                                                                    }
                                                                                                                                                },
                                                                                                                                            }
                                                                                                                                        },
                                                                                                                                    }
                                                                                                                                },
                                                                                                                            }
                                                                                                                        },
                                                                                                                    }
                                                                                                                },
                                                                                                            }
                                                                                                        },
                                                                                                    }
                                                                                                },
                                                                                            }
                                                                                        },
                                                                                    }
                                                                                },
                                                                            }
                                                                        },
                                                                    }
                                                                },
                                                            }
                                                        },
                                                    }
                                                },
                                            }
                                        },
                                    }
                                },
                            }
                        },
                    }
                },
            }
        },
    }
}

impl<A: BinRead<Args = ()>, B: BinRead<Args = ()>, C: BinRead<Args = ()>, D: BinRead<Args = ()>, E: BinRead<Args = ()>, F: BinRead<Args = ()>, G: BinRead<Args = ()>, H: BinRead<Args = ()>, I: BinRead<Args = ()>, J: BinRead<Args = ()>, K: BinRead<Args = ()>, L: BinRead<Args = ()>, M: BinRead<Args = ()>, N: BinRead<Args = ()>, O: BinRead<Args = ()>, P: BinRead<Args = ()>, Q: BinRead<Args = ()>, R: BinRead<Args = ()>, S: BinRead<Args = ()>, T: BinRead<Args = ()>> BinRead for (A, B, C, D, E, F, G, H, I, J, K, L, M, N, O, P, Q, R, S, T) {
    type Args = ();

    type Model = (A::Model, B::Model, C::Model, D::Model, E::Model, F::Model, G::Model, H::Model, I::Model, J::Model, K::Model, L::Model, M::Model, N::Model, O::Model, P::Model, Q::Model, R::Model, S::Model, T::Model);

    open spec fn model(&self) -> (A::Model, B::Model, C::Model, D::Model, E::Model, F::Model, G::Model, H::Model, I::Model, J::Model, K::Model, L::Model, M::Model, N::Model, O::Model, P::Model, Q::Model, R::Model, S::Model, T::Model) {
        (self.0.model(), self.1.model(), self.2.model(), self.3.model(), self.4.model(), self.5.model(), self.6.model(), self.7.model(), self.8.model(), self.9.model(), self.10.model(), self.11.model(), self.12.model(), self.13.model(), self.14.model(), self.15.model(), self.16.model(), self.17.model(), self.18.model(), self.19.model())
    }

    open spec fn read_spec(stream: Stream, options: OptionsView, args: ()) -> Outcome<
        (A::Model, B::Model, C::Model, D::Model, E::Model, F::Model, G::Model, H::Model, I::Model, J::Model, K::Model, L::Model, M::Model, N::Model, O::Model, P::Model, Q::Model, R::Model, S::Model, T::Model),
    > {
        read_tuple20::<A, B, C, D, E, F, G, H, I, J, K, L, M, N, O, P, Q, R, S, T>(stream, options)
    }

    open spec fn resolve_spec(
        model: (A::Model, B::Model, C::Model, D::Model, E::Model, F::Model, G::Model, H::Model, I::Model, J::Model, K::Model, L::Model, M::Model, N::Model, O::Model, P::Model, Q::Model, R::Model, S::Model, T::Model),
        data: Seq<u8>,
        options: OptionsView,
        args: (),
    ) -> Resolved<(A::Model, B::Model, C::Model, D::Model, E::Model, F::Model, G::Model, H::Model, I::Model, J::Model, K::Model, L::Model, M::Model, N::Model, O::Model, P::Model, Q::Model, R::Model, S::Model, T::Model)> {
        resolve_tuple20::<A, B, C, D, E, F, G, H, I, J, K, L, M, N, O, P, Q, R, S, T>(model, data, options)
    }

    fn read_options(reader: &mut Cursor, options: &ReadOptions, args: &()) -> (r: BinResult<
        (A, B, C, D, E, F, G, H, I, J, K, L, M, N, O, P, Q, R, S, T),
    >) {
        assert(reader@ == old(reader)@.at(reader@.pos));
        let a: A = match A::read_options(reader, options, &()) {
            Ok(v) => v,
            Err(e) => {
                return Err(e);
            },
        };
        assert(reader@ == old(reader)@.at(reader@.pos));
        let b: B = match B::read_options(reader, options, &()) {
            Ok(v) => v,
            Err(e) => {
                return Err(e);
            },
        };
        assert(reader@ == old(reader)@.at(reader@.pos));
        let c: C = match C::read_options(reader, options, &()) {
            Ok(v) => v,
            Err(e) => {
                return Err(e);
            },
        };
        assert(reader@ == old(reader)@.at(reader@.pos));
        let d: D = match D::read_options(reader, options, &()) {
            Ok(v) => v,
            Err(e) => {
                return Err(e);
            },
        };
        assert(reader@ == old(reader)@.at(reader@.pos));
        let e: E = match E::read_options(reader, options, &()) {
            Ok(v) => v,
            Err(e) => {
                return Err(e);
            },
        };
        assert(reader@ == old(reader)@.at(reader@.pos));
        let f: F = match F::read_options(reader, options, &()) {
            Ok(v) => v,
            Err(e) => {
                return Err(e);
            },
        };
        assert(reader@ == old(reader)@.at(reader@.pos));
        let g: G = match G::read_options(reader, options, &()) {
            Ok(v) => v,
            Err(e) => {
                return Err(e);
            },
        };
        assert(reader@ == old(reader)@.at(reader@.pos));
        let h: H = match H::read_options(reader, options, &()) {
            Ok(v) => v,
            Err(e) => {
                return Err(e);
            },
        };
        assert(reader@ == old(reader)@.at(reader@.pos));
        let i: I = match I::read_options(reader, options, &()) {
            Ok(v) => v,
            Err(e) => {
                return Err(e);
            },
        };
        assert(reader@ == old(reader)@.at(reader@.pos));
        let j: J = match J::read_options(reader, options, &()) {
            Ok(v) => v,
            Err(e) => {
                return Err(e);
            },
        };
        assert(reader@ == old(reader)@.at(reader@.pos));
        let k: K = match K::read_options(reader, options, &()) {
            Ok(v) => v,
            Err(e) => {
                return Err(e);
            },
        };
        assert(reader@ == old(reader)@.at(reader@.pos));
        let l: L = match L::read_options(reader, options, &()) {
            Ok(v) => v,
            Err(e) => {
                return Err(e);
            },
        };
        assert(reader@ == old(reader)@.at(reader@.pos));
        let m: M = match M::read_options(reader, options, &()) {
            Ok(v) => v,
            Err(e) => {
                return Err(e);
            },
        };
        assert(reader@ == old(reader)@.at(reader@.pos));
        let n: N = match N::read_options(reader, options, &()) {
            Ok(v) => v,
            Err(e) => {
                return Err(e);
            },
        };
        assert(reader@ == old(reader)@.at(reader@.pos));
        let o: O = match O::read_options(reader, options, &()) {
            Ok(v) => v,
            Err(e) => {
                return Err(e);
            },
        };
        assert(reader@ == old(reader)@.at(reader@.pos));
        let p: P = match P::read_options(reader, options, &()) {
            Ok(v) => v,
            Err(e) => {
                return Err(e);
            },
        };
        assert(reader@ == old(reader)@.at(reader@.pos));
        let q: Q = match Q::read_options(reader, options, &()) {
            Ok(v) => v,
            Err(e) => {
                return Err(e);
            },
        };
        assert(reader@ == old(reader)@.at(reader@.pos));
        let r: R = match R::read_options(reader, options, &()) {
            Ok(v) => v,
            Err(e) => {
                return Err(e);
            },
        };
        assert(reader@ == old(reader)@.at(reader@.pos));
        let s: S = match S::read_options(reader, options, &()) {
            Ok(v) => v,
            Err(e) => {
                return Err(e);
            },
        };
        assert(reader@ == old(reader)@.at(reader@.pos));
        let t: T = match T::read_options(reader, options, &()) {
            Ok(v) => v,
            Err(e) => {
                return Err(e);
            },
        };
        Ok((a, b, c, d, e, f, g, h, i, j, k, l, m, n, o, p, q, r, s, t))
    }

    fn after_parse(&mut self, reader: &mut Cursor, options: &ReadOptions, args: &()) -> (r:
        BinResult<()>) {
        match self.0.after_parse(reader, options, &()) {
            Ok(()) => {},
            Err(e) => {
                return Err(e);
            },
        }
        match self.1.after_parse(reader, options, &()) {
            Ok(()) => {},
            Err(e) => {
                return Err(e);
            },
        }
        match self.2.after_parse(reader, options, &()) {
            Ok(()) => {},
            Err(e) => {
                return Err(e);
            },
        }
        match self.3.after_parse(reader, options, &()) {
            Ok(()) => {},
            Err(e) => {
                return Err(e);
            },
        }
        match self.4.after_parse(reader, options, &()) {
            Ok(()) => {},
            Err(e) => {
                return Err(e);
            },
        }
        match self.5.after_parse(reader, options, &()) {
            Ok(()) => {},
            Err(e) => {
                return Err(e);
            },
        }
        match self.6.after_parse(reader, options, &()) {
            Ok(()) => {},
            Err(e) => {
                return Err(e);
            },
        }
        match self.7.after_parse(reader, options, &()) {
            Ok(()) => {},
            Err(e) => {
                return Err(e);
            },
        }
        match self.8.after_parse(reader, options, &()) {
            Ok(()) => {},
            Err(e) => {
                return Err(e);
            },
        }
        match self.9.after_parse(reader, options, &()) {
            Ok(()) => {},
            Err(e) => {
                return Err(e);
            },
        }
        match self.10.after_parse(reader, options, &()) {
            Ok(()) => {},
            Err(e) => {
                return Err(e);
            },
        }
        match self.11.after_parse(reader, options, &()) {
            Ok(()) => {},
            Err(e) => {
                return Err(e);
            },
        }
        match self.12.after_parse(reader, options, &()) {
            Ok(()) => {},
            Err(e) => {
                return Err(e);
            },
        }
        match self.13.after_parse(reader, options, &()) {
            Ok(()) => {},
            Err(e) => {
                return Err(e);
            },
        }
        match self.14.after_parse(reader, options, &()) {
            Ok(()) => {},
            Err(e) => {
                return Err(e);
            },
        }
        match self.15.after_parse(reader, options, &()) {
            Ok(()) => {},
            Err(e) => {
                return Err(e);
            },
        }
        match self.16.after_parse(reader, options, &()) {
            Ok(()) => {},
            Err(e) => {
                return Err(e);
            },
        }
        match self.17.after_parse(reader, options, &()) {
            Ok(()) => {},
            Err(e) => {
                return Err(e);
            },
        }
        match self.18.after_parse(reader, options, &()) {
            Ok(()) => {},
            Err(e) => {
                return Err(e);
            },
        }
        self.19.after_parse(reader, options, &())
    }
}

/// The twenty-one members of a tuple, one after the other.
pub open spec fn read_tuple21<A: BinRead<Args = ()>, B: BinRead<Args = ()>, C: BinRead<Args = ()>, D: BinRead<Args = ()>, E: BinRead<Args = ()>, F: BinRead<Args = ()>, G: BinRead<Args = ()>, H: BinRead<Args = ()>, I: BinRead<Args = ()>, J: BinRead<Args = ()>, K: BinRead<Args = ()>, L: BinRead<Args = ()>, M: BinRead<Args = ()>, N: BinRead<Args = ()>, O: BinRead<Args = ()>, P: BinRead<Args = ()>, Q: BinRead<Args = ()>, R: BinRead<Args = ()>, S: BinRead<Args = ()>, T: BinRead<Args = ()>, U: BinRead<Args = ()>>(
    stream: Stream,
    options: OptionsView,
) -> Outcome<(A::Model, B::Model, C::Model, D::Model, E::Model, F::Model, G::Model, H::Model, I::Model, J::Model, K::Model, L::Model, M::Model, N::Model, O::Model, P::Model, Q::Model, R::Model, S::Model, T::Model, U::Model)> {
    match A::read_spec(stream, options, ()) {
        Err(e) => Err(e),
        Ok((a, after_a)) => {
            match B::read_spec(stream.at(after_a), options, ()) {
                Err(e) => Err(e),
                Ok((b, after_b)) => {
                    match C::read_spec(stream.at(after_b), options, ()) {
                        Err(e) => Err(e),
                        Ok((c, after_c)) => {
                            match D::read_spec(stream.at(after_c), options, ()) {
                                Err(e) => Err(e),
                                Ok((d, after_d)) => {
                                    match E::read_spec(stream.at(after_d), options, ()) {
                                        Err(e) => Err(e),
                                        Ok((e, after_e)) => {
                                            match F::read_spec(stream.at(after_e), options, ()) {
                                                Err(e) => Err(e),
                                                Ok((f, after_f)) => {
                                                    match G::read_spec(stream.at(after_f), options, ()) {
                                                        Err(e) => Err(e),
                                                        Ok((g, after_g)) => {
                                                            match H::read_spec(stream.at(after_g), options, ()) {
                                                                Err(e) => Err(e),
                                                                Ok((h, after_h)) => {
                                                                    match I::read_spec(stream.at(after_h), options, ()) {
                                                                        Err(e) => Err(e),
                                                                        Ok((i, after_i)) => {
                                                                            match J::read_spec(stream.at(after_i), options, ()) {
                                                                                Err(e) => Err(e),
                                                                                Ok((j, after_j)) => {
                                                                                    match K::read_spec(stream.at(after_j), options, ()) {
                                                                                        Err(e) => Err(e),
                                                                                        Ok((k, after_k)) => {
                                                                                            match L::read_spec(stream.at(after_k), options, ()) {
                                                                                                Err(e) => Err(e),
                                                                                                Ok((l, after_l)) => {
                                                                                                    match M::read_spec(stream.at(after_l), options, ()) {
                                                                                                        Err(e) => Err(e),
                                                                                                        Ok((m, after_m)) => {
                                                                                                            match N::read_spec(stream.at(after_m), options, ()) {
                                                                                                                Err(e) => Err(e),
                                                                                                                Ok((n, after_n)) => {
                                                                                                                    match O::read_spec(stream.at(after_n), options, ()) {
                                                                                                                        Err(e) => Err(e),
                                                                                                                        Ok((o, after_o)) => {
                                                                                                                            match P::read_spec(stream.at(after_o), options, ()) {
                                                                                                                                Err(e) => Err(e),
                                                                                                                                Ok((p, after_p)) => {
                                                                                                                                    match Q::read_spec(stream.at(after_p), options, ()) {
                                                                                                                                        Err(e) => Err(e),
                                                                                                                                        Ok((q, after_q)) => {
                                                                                                                                            match R::read_spec(stream.at(after_q), options, ()) {
                                                                                                                                                Err(e) => Err(e),
                                                                                                                                                Ok((r, after_r)) => {
                                                                                                                                                    match S::read_spec(stream.at(after_r), options, ()) {
                                                                                                                                                        Err(e) => Err(e),
                                                                                                                                                        Ok((s, after_s)) => {
                                                                                                                                                            match T::read_spec(stream.at(after_s), options, ()) {
                                                                                                                                                                Err(e) => Err(e),
                                                                                                                                                                Ok((t, after_t)) => {
                                                                                                                                                                    match U::read_spec(stream.at(after_t), options, ()) {
                                                                                                                                                                        Err(e) => Err(e),
                                                                                                                                                                        Ok((u, after_u)) => Ok(((a, b, c, d, e, f, g, h, i, j, k, l, m, n, o, p, q, r, s, t, u), after_u)),
                                                                                                                                                                    }
                                                                                                                                                                },
                                                                                                                                                            }
                                                                                                                                                        },
                                                                                                                                                    }
                                                                                                                                                },
                                                                                                                                            }
                                                                                                                                        },
                                                                                                                                    }
                                                                                                                                },
                                                                                                                            }
                                                                                                                        },
                                                                                                                    }
                                                                                                                },
                                                                                                            }
                                                                                                        },
                                                                                                    }
                                                                                                },
                                                                                            }
                                                                                        },
                                                                                    }
                                                                                },
                                                                            }
                                                                        },
                                                                    }
                                                                },
                                                            }
                                                        },
                                                    }
                                                },
                                            }
                                        },
                                    }
                                },
                            }
                        },
                    }
                },
            }
        },
    }
}

/// Phase two on the twenty-one members of a tuple, in the order in which they were
/// read.
pub open spec fn resolve_tuple21<A: BinRead<Args = ()>, B: BinRead<Args = ()>, C: BinRead<Args = ()>, D: BinRead<Args = ()>, E: BinRead<Args = ()>, F: BinRead<Args = ()>, G: BinRead<Args = ()>, H: BinRead<Args = ()>, I: BinRead<Args = ()>, J: BinRead<Args = ()>, K: BinRead<Args = ()>, L: BinRead<Args = ()>, M: BinRead<Args = ()>, N: BinRead<Args = ()>, O: BinRead<Args = ()>, P: BinRead<Args = ()>, Q: BinRead<Args = ()>, R: BinRead<Args = ()>, S: BinRead<Args = ()>, T: BinRead<Args = ()>, U: BinRead<Args = ()>>(
    model: (A::Model, B::Model, C::Model, D::Model, E::Model, F::Model, G::Model, H::Model, I::Model, J::Model, K::Model, L::Model, M::Model, N::Model, O::Model, P::Model, Q::Model, R::Model, S::Model, T::Model, U::Model),
    data: Seq<u8>,
    options: OptionsView,
) -> Resolved<(A::Model, B::Model, C::Model, D::Model, E::Model, F::Model, G::Model, H::Model, I::Model, J::Model, K::Model, L::Model, M::Model, N::Model, O::Model, P::Model, Q::Model, R::Model, S::Model, T::Model, U::Model)> {
    match A::resolve_spec(model.0, data, options, ()) {
        Err(e) => Err(e),
        Ok(a) => {
            match B::resolve_spec(model.1, data, options, ()) {
                Err(e) => Err(e),
                Ok(b) => {
                    match C::resolve_spec(model.2, data, options, ()) {
                        Err(e) => Err(e),
                        Ok(c) => {
                            match D::resolve_spec(model.3, data, options, ()) {
                                Err(e) => Err(e),
                                Ok(d) => {
                                    match E::resolve_spec(model.4, data, options, ()) {
                                        Err(e) => Err(e),
                                        Ok(e) => {
                                            match F::resolve_spec(model.5, data, options, ()) {
                                                Err(e) => Err(e),
                                                Ok(f) => {
                                                    match G::resolve_spec(model.6, data, options, ()) {
                                                        Err(e) => Err(e),
                                                        Ok(g) => {
                                                            match H::resolve_spec(model.7, data, options, ()) {
                                                                Err(e) => Err(e),
                                                                Ok(h) => {
                                                                    match I::resolve_spec(model.8, data, options, ()) {
                                                                        Err(e) => Err(e),
                                                                        Ok(i) => {
                                                                            match J::resolve_spec(model.9, data, options, ()) {
                                                                                Err(e) => Err(e),
                                                                                Ok(j) => {
                                                                                    match K::resolve_spec(model.10, data, options, ()) {
                                                                                        Err(e) => Err(e),
                                                                                        Ok(k) => {
                                                                                            match L::resolve_spec(model.11, data, options, ()) {
                                                                                                Err(e) => Err(e),
                                                                                                Ok(l) => {
                                                                                                    match M::resolve_spec(model.12, data, options, ()) {
                                                                                                        Err(e) => Err(e),
                                                                                                        Ok(m) => {
                                                                                                            match N::resolve_spec(model.13, data, options, ()) {
                                                                                                                Err(e) => Err(e),
                                                                                                                Ok(n) => {
                                                                                                                    match O::resolve_spec(model.14, data, options, ()) {
                                                                                                                        Err(e) => Err(e),
                                                                                                                        Ok(o) => {
                                                                                                                            match P::resolve_spec(model.15, data, options, ()) {
                                                                                                                                Err(e) => Err(e),
                                                                                                                                Ok(p) => {
                                                                                                                                    match Q::resolve_spec(model.16, data, options, ()) {
                                                                                                                                        Err(e) => Err(e),
                                                                                                                                        Ok(q) => {
                                                                                                                                            match R::resolve_spec(model.17, data, options, ()) {
                                                                                                                                                Err(e) => Err(e),
                                                                                                                                                Ok(r) => {
                                                                                                                                                    match S::resolve_spec(model.18, data, options, ()) {
                                                                                                                                                        Err(e) => Err(e),
                                                                                                                                                        Ok(s) => {
                                                                                                                                                            match T::resolve_spec(model.19, data, options, ()) {
                                                                                                                                                                Err(e) => Err(e),
                                                                                                                                                                Ok(t) => {
                                                                                                                                                                    match U::resolve_spec(model.20, data, options, ()) {
                                                                                                                                                                        Err(e) => Err(e),
                                                                                                                                                                        Ok(u) => Ok((a, b, c, d, e, f, g, h, i, j, k, l, m, n, o, p, q, r, s, t, u)),
                                                                                                                                                                    }
                                                                                                                                                                },
                                                                                                                                                            }
                                                                                                                                                        },
                                                                                                                                                    }
                                                                                                                                                },
                                                                                                                                            }
                                                                                                                                        },
                                                                                                                                    }
                                                                                                                                },
                                                                                                                            }
                                                                                                                        },
                                                                                                                    }
                                                                                                                },
                                                                                                            }
                                                                                                        },
                                                                                                    }
                                                                                                },
                                                                                            }
                                                                                        },
                                                                                    }
                                                                                },
                                                                            }
                                                                        },
                                                                    }
                                                                },
                                                            }
                                                        },
                                                    }
                                                },
                                            }
                                        },
                                    }
                                },
                            }
                        },
                    }
                },
            }
        },
    }
}

impl<A: BinRead<Args = ()>, B: BinRead<Args = ()>, C: BinRead<Args = ()>, D: BinRead<Args = ()>, E: BinRead<Args = ()>, F: BinRead<Args = ()>, G: BinRead<Args = ()>, H: BinRead<Args = ()>, I: BinRead<Args = ()>, J: BinRead<Args = ()>, K: BinRead<Args = ()>, L: BinRead<Args = ()>, M: BinRead<Args = ()>, N: BinRead<Args = ()>, O: BinRead<Args = ()>, P: BinRead<Args = ()>, Q: BinRead<Args = ()>, R: BinRead<Args = ()>, S: BinRead<Args = ()>, T: BinRead<Args = ()>, U: BinRead<Args = ()>> BinRead for (A, B, C, D, E, F, G, H, I, J, K, L, M, N, O, P, Q, R, S, T, U) {
    type Args = ();

    type Model = (A::Model, B::Model, C::Model, D::Model, E::Model, F::Model, G::Model, H::Model, I::Model, J::Model, K::Model, L::Model, M::Model, N::Model, O::Model, P::Model, Q::Model, R::Model, S::Model, T::Model, U::Model);

    open spec fn model(&self) -> (A::Model, B::Model, C::Model, D::Model, E::Model, F::Model, G::Model, H::Model, I::Model, J::Model, K::Model, L::Model, M::Model, N::Model, O::Model, P::Model, Q::Model, R::Model, S::Model, T::Model, U::Model) {
        (self.0.model(), self.1.model(), self.2.model(), self.3.model(), self.4.model(), self.5.model(), self.6.model(), self.7.model(), self.8.model(), self.9.model(), self.10.model(), self.11.model(), self.12.model(), self.13.model(), self.14.model(), self.15.model(), self.16.model(), self.17.model(), self.18.model(), self.19.model(), self.20.model())
    }

    open spec fn read_spec(stream: Stream, options: OptionsView, args: ()) -> Outcome<
        (A::Model, B::Model, C::Model, D::Model, E::Model, F::Model, G::Model, H::Model, I::Model, J::Model, K::Model, L::Model, M::Model, N::Model, O::Model, P::Model, Q::Model, R::Model, S::Model, T::Model, U::Model),
    > {
        read_tuple21::<A, B, C, D, E, F, G, H, I, J, K, L, M, N, O, P, Q, R, S, T, U>(stream, options)
    }

    open spec fn resolve_spec(
        model: (A::Model, B::Model, C::Model, D::Model, E::Model, F::Model, G::Model, H::Model, I::Model, J::Model, K::Model, L::Model, M::Model, N::Model, O::Model, P::Model, Q::Model, R::Model, S::Model, T::Model, U::Model),
        data: Seq<u8>,
        options: OptionsView,
        args: (),
    ) -> Resolved<(A::Model, B::Model, C::Model, D::Model, E::Model, F::Model, G::Model, H::Model, I::Model, J::Model, K::Model, L::Model, M::Model, N::Model, O::Model, P::Model, Q::Model, R::Model, S::Model, T::Model, U::Model)> {
        resolve_tuple21::<A, B, C, D, E, F, G, H, I, J, K, L, M, N, O, P, Q, R, S, T, U>(model, data, options)
    }

    fn read_options(reader: &mut Cursor, options: &ReadOptions, args: &()) -> (r: BinResult<
        (A, B, C, D, E, F, G, H, I, J, K, L, M, N, O, P, Q, R, S, T, U),
    >) {
        assert(reader@ == old(reader)@.at(reader@.pos));
        let a: A = match A::read_options(reader, options, &()) {
            Ok(v) => v,
            Err(e) => {
                return Err(e);
            },
        };
        assert(reader@ == old(reader)@.at(reader@.pos));
        let b: B = match B::read_options(reader, options, &()) {
            Ok(v) => v,
            Err(e) => {
                return Err(e);
            },
        };
        assert(reader@ == old(reader)@.at(reader@.pos));
        let c: C = match C::read_options(reader, options, &()) {
            Ok(v) => v,
            Err(e) => {
                return Err(e);
            },
        };
        assert(reader@ == old(reader)@.at(reader@.pos));
        let d: D = match D::read_options(reader, options, &()) {
            Ok(v) => v,
            Err(e) => {
                return Err(e);
            },
        };
        assert(reader@ == old(reader)@.at(reader@.pos));
        let e: E = match E::read_options(reader, options, &()) {
            Ok(v) => v,
            Err(e) => {
                return Err(e);
            },
        };
        assert(reader@ == old(reader)@.at(reader@.pos));
        let f: F = match F::read_options(reader, options, &()) {
            Ok(v) => v,
            Err(e) => {
                return Err(e);
            },
        };
        assert(reader@ == old(reader)@.at(reader@.pos));
        let g: G = match G::read_options(reader, options, &()) {
            Ok(v) => v,
            Err(e) => {
                return Err(e);
            },
        };
        assert(reader@ == old(reader)@.at(reader@.pos));
        let h: H = match H::read_options(reader, options, &()) {
            Ok(v) => v,
            Err(e) => {
                return Err(e);
            },
        };
        assert(reader@ == old(reader)@.at(reader@.pos));
        let i: I = match I::read_options(reader, options, &()) {
            Ok(v) => v,
            Err(e) => {
                return Err(e);
            },
        };
        assert(reader@ == old(reader)@.at(reader@.pos));
        let j: J = match J::read_options(reader, options, &()) {
            Ok(v) => v,
            Err(e) => {
                return Err(e);
            },
        };
        assert(reader@ == old(reader)@.at(reader@.pos));
        let k: K = match K::read_options(reader, options, &()) {
            Ok(v) => v,
            Err(e) => {
                return Err(e);
            },
        };
        assert(reader@ == old(reader)@.at(reader@.pos));
        let l: L = match L::read_options(reader, options, &()) {
            Ok(v) => v,
            Err(e) => {
                return Err(e);
            },
        };
        assert(reader@ == old(reader)@.at(reader@.pos));
        let m: M = match M::read_options(reader, options, &()) {
            Ok(v) => v,
            Err(e) => {
                return Err(e);
            },
        };
        assert(reader@ == old(reader)@.at(reader@.pos));
        let n: N = match N::read_options(reader, options, &()) {
            Ok(v) => v,
            Err(e) => {
                return Err(e);
            },
        };
        assert(reader@ == old(reader)@.at(reader@.pos));
        let o: O = match O::read_options(reader, options, &()) {
            Ok(v) => v,
            Err(e) => {
                return Err(e);
            },
        };
        assert(reader@ == old(reader)@.at(reader@.pos));
        let p: P = match P::read_options(reader, options, &()) {
            Ok(v) => v,
            Err(e) => {
                return Err(e);
            },
        };
        assert(reader@ == old(reader)@.at(reader@.pos));
        let q: Q = match Q::read_options(reader, options, &()) {
            Ok(v) => v,
            Err(e) => {
                return Err(e);
            },
        };
        assert(reader@ == old(reader)@.at(reader@.pos));
        let r: R = match R::read_options(reader, options, &()) {
            Ok(v) => v,
            Err(e) => {
                return Err(e);
            },
        };
        assert(reader@ == old(reader)@.at(reader@.pos));
        let s: S = match S::read_options(reader, options, &()) {
            Ok(v) => v,
            Err(e) => {
                return Err(e);
            },
        };
        assert(reader@ == old(reader)@.at(reader@.pos));
        let t: T = match T::read_options(reader, options, &()) {
            Ok(v) => v,
            Err(e) => {
                return Err(e);
            },
        };
        assert(reader@ == old(reader)@.at(reader@.pos));
        let u: U = match U::read_options(reader, options, &()) {
            Ok(v) => v,
            Err(e) => {
                return Err(e);
            },
        };
        Ok((a, b, c, d, e, f, g, h, i, j, k, l, m, n, o, p, q, r, s, t, u))
    }

    fn after_parse(&mut self, reader: &mut Cursor, options: &ReadOptions, args: &()) -> (r:
        BinResult<()>) {
        match self.0.after_parse(reader, options, &()) {
            Ok(()) => {},
            Err(e) => {
                return Err(e);
            },
        }
        match self.1.after_parse(reader, options, &()) {
            Ok(()) => {},
            Err(e) => {
                return Err(e);
            },
        }
        match self.2.after_parse(reader, options, &()) {
            Ok(()) => {},
            Err(e) => {
                return Err(e);
            },
        }
        match self.3.after_parse(reader, options, &()) {
            Ok(()) => {},
            Err(e) => {
                return Err(e);
            },
        }
        match self.4.after_parse(reader, options, &()) {
            Ok(()) => {},
            Err(e) => {
                return Err(e);
            },
        }
        match self.5.after_parse(reader, options, &()) {
            Ok(()) => {},
            Err(e) => {
                return Err(e);
            },
        }
        match self.6.after_parse(reader, options, &()) {
            Ok(()) => {},
            Err(e) => {
                return Err(e);
            },
        }
        match self.7.after_parse(reader, options, &()) {
            Ok(()) => {},
            Err(e) => {
                return Err(e);
            },
        }
        match self.8.after_parse(reader, options, &()) {
            Ok(()) => {},
            Err(e) => {
                return Err(e);
            },
        }
        match self.9.after_parse(reader, options, &()) {
            Ok(()) => {},
            Err(e) => {
                return Err(e);
            },
        }
        match self.10.after_parse(reader, options, &()) {
            Ok(()) => {},
            Err(e) => {
                return Err(e);
            },
        }
        match self.11.after_parse(reader, options, &()) {
            Ok(()) => {},
            Err(e) => {
                return Err(e);
            },
        }
        match self.12.after_parse(reader, options, &()) {
            Ok(()) => {},
            Err(e) => {
                return Err(e);
            },
        }
        match self.13.after_parse(reader, options, &()) {
            Ok(()) => {},
            Err(e) => {
                return Err(e);
            },
        }
        match self.14.after_parse(reader, options, &()) {
            Ok(()) => {},
            Err(e) => {
                return Err(e);
            },
        }
        match self.15.after_parse(reader, options, &()) {
            Ok(()) => {},
            Err(e) => {
                return Err(e);
            },
        }
        match self.16.after_parse(reader, options, &()) {
            Ok(()) => {},
            Err(e) => {
                return Err(e);
            },
        }
        match self.17.after_parse(reader, options, &()) {
            Ok(()) => {},
            Err(e) => {
                return Err(e);
            },
        }
        match self.18.after_parse(reader, options, &()) {
            Ok(()) => {},
            Err(e) => {
                return Err(e);
            },
        }
        match self.19.after_parse(reader, options, &()) {
            Ok(()) => {},
            Err(e) => {
                return Err(e);
            },
        }
        self.20.after_parse(reader, options, &())
    }
}

/// The twenty-two members of a tuple, one after the other.
pub open spec fn read_tuple22<A: BinRead<Args = ()>, B: BinRead<Args = ()>, C: BinRead<Args = ()>, D: BinRead<Args = ()>, E: BinRead<Args = ()>, F: BinRead<Args = ()>, G: BinRead<Args = ()>, H: BinRead<Args = ()>, I: BinRead<Args = ()>, J: BinRead<Args = ()>, K: BinRead<Args = ()>, L: BinRead<Args = ()>, M: BinRead<Args = ()>, N: BinRead<Args = ()>, O: BinRead<Args = ()>, P: BinRead<Args = ()>, Q: BinRead<Args = ()>, R: BinRead<Args = ()>, S: BinRead<Args = ()>, T: BinRead<Args = ()>, U: BinRead<Args = ()>, V: BinRead<Args = ()>>(
    stream: Stream,
    options: OptionsView,
) -> Outcome<(A::Model, B::Model, C::Model, D::Model, E::Model, F::Model, G::Model, H::Model, I::Model, J::Model, K::Model, L::Model, M::Model, N::Model, O::Model, P::Model, Q::Model, R::Model, S::Model, T::Model, U::Model, V::Model)> {
    match A::read_spec(stream, options, ()) {
        Err(e) => Err(e),
        Ok((a, after_a)) => {
            match B::read_spec(stream.at(after_a), options, ()) {
                Err(e) => Err(e),
                Ok((b, after_b)) => {
                    match C::read_spec(stream.at(after_b), options, ()) {
                        Err(e) => Err(e),
                        Ok((c, after_c)) => {
                            match D::read_spec(stream.at(after_c), options, ()) {
                                Err(e) => Err(e),
                                Ok((d, after_d)) => {
                                    match E::read_spec(stream.at(after_d), options, ()) {
                                        Err(e) => Err(e),
                                        Ok((e, after_e)) => {
                                            match F::read_spec(stream.at(after_e), options, ()) {
                                                Err(e) => Err(e),
                                                Ok((f, after_f)) => {
                                                    match G::read_spec(stream.at(after_f), options, ()) {
                                                        Err(e) => Err(e),
                                                        Ok((g, after_g)) => {
                                                            match H::read_spec(stream.at(after_g), options, ()) {
                                                                Err(e) => Err(e),
                                                                Ok((h, after_h)) => {
                                                                    match I::read_spec(stream.at(after_h), options, ()) {
                                                                        Err(e) => Err(e),
                                                                        Ok((i, after_i)) => {
                                                                            match J::read_spec(stream.at(after_i), options, ()) {
                                                                                Err(e) => Err(e),
                                                                                Ok((j, after_j)) => {
                                                                                    match K::read_spec(stream.at(after_j), options, ()) {
                                                                                        Err(e) => Err(e),
                                                                                        Ok((k, after_k)) => {
                                                                                            match L::read_spec(stream.at(after_k), options, ()) {
                                                                                                Err(e) => Err(e),
                                                                                                Ok((l, after_l)) => {
                                                                                                    match M::read_spec(stream.at(after_l), options, ()) {
                                                                                                        Err(e) => Err(e),
                                                                                                        Ok((m, after_m)) => {
                                                                                                            match N::read_spec(stream.at(after_m), options, ()) {
                                                                                                                Err(e) => Err(e),
                                                                                                                Ok((n, after_n)) => {
                                                                                                                    match O::read_spec(stream.at(after_n), options, ()) {
                                                                                                                        Err(e) => Err(e),
                                                                                                                        Ok((o, after_o)) => {
                                                                                                                            match P::read_spec(stream.at(after_o), options, ()) {
                                                                                                                                Err(e) => Err(e),
                                                                                                                                Ok((p, after_p)) => {
                                                                                                                                    match Q::read_spec(stream.at(after_p), options, ()) {
                                                                                                                                        Err(e) => Err(e),
                                                                                                                                        Ok((q, after_q)) => {
                                                                                                                                            match R::read_spec(stream.at(after_q), options, ()) {
                                                                                                                                                Err(e) => Err(e),
                                                                                                                                                Ok((r, after_r)) => {
                                                                                                                                                    match S::read_spec(stream.at(after_r), options, ()) {
                                                                                                                                                        Err(e) => Err(e),
                                                                                                                                                        Ok((s, after_s)) => {
                                                                                                                                                            match T::read_spec(stream.at(after_s), options, ()) {
                                                                                                                                                                Err(e) => Err(e),
                                                                                                                                                                Ok((t, after_t)) => {
                                                                                                                                                                    match U::read_spec(stream.at(after_t), options, ()) {
                                                                                                                                                                        Err(e) => Err(e),
                                                                                                                                                                        Ok((u, after_u)) => {
                                                                                                                                                                            match V::read_spec(stream.at(after_u), options, ()) {
                                                                                                                                                                                Err(e) => Err(e),
                                                                                                                                                                                Ok((v, after_v)) => Ok(((a, b, c, d, e, f, g, h, i, j, k, l, m, n, o, p, q, r, s, t, u, v), after_v)),
                                                                                                                                                                            }
                                                                                                                                                                        },
                                                                                                                                                                    }
                                                                                                                                                                },
                                                                                                                                                            }
                                                                                                                                                        },
                                                                                                                                                    }
                                                                                                                                                },
                                                                                                                                            }
                                                                                                                                        },
                                                                                                                                    }
                                                                                                                                },
                                                                                                                            }
                                                                                                                        },
                                                                                                                    }
                                                                                                                },
                                                                                                            }
                                                                                                        },
                                                                                                    }
                                                                                                },
                                                                                            }
                                                                                        },
                                                                                    }
                                                                                },
                                                                            }
                                                                        },
                                                                    }
                                                                },
                                                            }
                                                        },
                                                    }
                                                },
                                            }
                                        },
                                    }
                                },
                            }
                        },
                    }
                },
            }
        },
    }
}

/// Phase two on the twenty-two members of a tuple, in the order in which they were
/// read.
pub open spec fn resolve_tuple22<A: BinRead<Args = ()>, B: BinRead<Args = ()>, C: BinRead<Args = ()>, D: BinRead<Args = ()>, E: BinRead<Args = ()>, F: BinRead<Args = ()>, G: BinRead<Args = ()>, H: BinRead<Args = ()>, I: BinRead<Args = ()>, J: BinRead<Args = ()>, K: BinRead<Args = ()>, L: BinRead<Args = ()>, M: BinRead<Args = ()>, N: BinRead<Args = ()>, O: BinRead<Args = ()>, P: BinRead<Args = ()>, Q: BinRead<Args = ()>, R: BinRead<Args = ()>, S: BinRead<Args = ()>, T: BinRead<Args = ()>, U: BinRead<Args = ()>, V: BinRead<Args = ()>>(
    model: (A::Model, B::Model, C::Model, D::Model, E::Model, F::Model, G::Model, H::Model, I::Model, J::Model, K::Model, L::Model, M::Model, N::Model, O::Model, P::Model, Q::Model, R::Model, S::Model, T::Model, U::Model, V::Model),
    data: Seq<u8>,
    options: OptionsView,
) -> Resolved<(A::Model, B::Model, C::Model, D::Model, E::Model, F::Model, G::Model, H::Model, I::Model, J::Model, K::Model, L::Model, M::Model, N::Model, O::Model, P::Model, Q::Model, R::Model, S::Model, T::Model, U::Model, V::Model)> {
    match A::resolve_spec(model.0, data, options, ()) {
        Err(e) => Err(e),
        Ok(a) => {
            match B::resolve_spec(model.1, data, options, ()) {
                Err(e) => Err(e),
                Ok(b) => {
                    match C::resolve_spec(model.2, data, options, ()) {
                        Err(e) => Err(e),
                        Ok(c) => {
                            match D::resolve_spec(model.3, data, options, ()) {
                                Err(e) => Err(e),
                                Ok(d) => {
                                    match E::resolve_spec(model.4, data, options, ()) {
                                        Err(e) => Err(e),
                                        Ok(e) => {
                                            match F::resolve_spec(model.5, data, options, ()) {
                                                Err(e) => Err(e),
                                                Ok(f) => {
                                                    match G::resolve_spec(model.6, data, options, ()) {
                                                        Err(e) => Err(e),
                                                        Ok(g) => {
                                                            match H::resolve_spec(model.7, data, options, ()) {
                                                                Err(e) => Err(e),
                                                                Ok(h) => {
                                                                    match I::resolve_spec(model.8, data, options, ()) {
                                                                        Err(e) => Err(e),
                                                                        Ok(i) => {
                                                                            match J::resolve_spec(model.9, data, options, ()) {
                                                                                Err(e) => Err(e),
                                                                                Ok(j) => {
                                                                                    match K::resolve_spec(model.10, data, options, ()) {
                                                                                        Err(e) => Err(e),
                                                                                        Ok(k) => {
                                                                                            match L::resolve_spec(model.11, data, options, ()) {
                                                                                                Err(e) => Err(e),
                                                                                                Ok(l) => {
                                                                                                    match M::resolve_spec(model.12, data, options, ()) {
                                                                                                        Err(e) => Err(e),
                                                                                                        Ok(m) => {
                                                                                                            match N::resolve_spec(model.13, data, options, ()) {
                                                                                                                Err(e) => Err(e),
                                                                                                                Ok(n) => {
                                                                                                                    match O::resolve_spec(model.14, data, options, ()) {
                                                                                                                        Err(e) => Err(e),
                                                                                                                        Ok(o) => {
                                                                                                                            match P::resolve_spec(model.15, data, options, ()) {
                                                                                                                                Err(e) => Err(e),
                                                                                                                                Ok(p) => {
                                                                                                                                    match Q::resolve_spec(model.16, data, options, ()) {
                                                                                                                                        Err(e) => Err(e),
                                                                                                                                        Ok(q) => {
                                                                                                                                            match R::resolve_spec(model.17, data, options, ()) {
                                                                                                                                                Err(e) => Err(e),
                                                                                                                                                Ok(r) => {
                                                                                                                                                    match S::resolve_spec(model.18, data, options, ()) {
                                                                                                                                                        Err(e) => Err(e),
                                                                                                                                                        Ok(s) => {
                                                                                                                                                            match T::resolve_spec(model.19, data, options, ()) {
                                                                                                                                                                Err(e) => Err(e),
                                                                                                                                                                Ok(t) => {
                                                                                                                                                                    match U::resolve_spec(model.20, data, options, ()) {
                                                                                                                                                                        Err(e) => Err(e),
                                                                                                                                                                        Ok(u) => {
                                                                                                                                                                            match V::resolve_spec(model.21, data, options, ()) {
                                                                                                                                                                                Err(e) => Err(e),
                                                                                                                                                                                Ok(v) => Ok((a, b, c, d, e, f, g, h, i, j, k, l, m, n, o, p, q, r, s, t, u, v)),
                                                                                                                                                                            }
                                                                                                                                                                        },
                                                                                                                                                                    }
                                                                                                                                                                },
                                                                                                                                                            }
                                                                                                                                                        },
                                                                                                                                                    }
                                                                                                                                                },
                                                                                                                                            }
                                                                                                                                        },
                                                                                                                                    }
                                                                                                                                },
                                                                                                                            }
                                                                                                                        },
                                                                                                                    }
                                                                                                                },
                                                                                                            }
                                                                                                        },
                                                                                                    }
                                                                                                },
                                                                                            }
                                                                                        },
                                                                                    }
                                                                                },
                                                                            }
                                                                        },
                                                                    }
                                                                },
                                                            }
                                                        },
                                                    }
                                                },
                                            }
                                        },
                                    }
                                },
                            }
                        },
                    }
                },
            }
        },
    }
}

impl<A: BinRead<Args = ()>, B: BinRead<Args = ()>, C: BinRead<Args = ()>, D: BinRead<Args = ()>, E: BinRead<Args = ()>, F: BinRead<Args = ()>, G: BinRead<Args = ()>, H: BinRead<Args = ()>, I: BinRead<Args = ()>, J: BinRead<Args = ()>, K: BinRead<Args = ()>, L: BinRead<Args = ()>, M: BinRead<Args = ()>, N: BinRead<Args = ()>, O: BinRead<Args = ()>, P: BinRead<Args = ()>, Q: BinRead<Args = ()>, R: BinRead<Args = ()>, S: BinRead<Args = ()>, T: BinRead<Args = ()>, U: BinRead<Args = ()>, V: BinRead<Args = ()>> BinRead for (A, B, C, D, E, F, G, H, I, J, K, L, M, N, O, P, Q, R, S, T, U, V) {
    type Args = ();

    type Model = (A::Model, B::Model, C::Model, D::Model, E::Model, F::Model, G::Model, H::Model, I::Model, J::Model, K::Model, L::Model, M::Model, N::Model, O::Model, P::Model, Q::Model, R::Model, S::Model, T::Model, U::Model, V::Model);

    open spec fn model(&self) -> (A::Model, B::Model, C::Model, D::Model, E::Model, F::Model, G::Model, H::Model, I::Model, J::Model, K::Model, L::Model, M::Model, N::Model, O::Model, P::Model, Q::Model, R::Model, S::Model, T::Model, U::Model, V::Model) {
        (self.0.model(), self.1.model(), self.2.model(), self.3.model(), self.4.model(), self.5.model(), self.6.model(), self.7.model(), self.8.model(), self.9.model(), self.10.model(), self.11.model(), self.12.model(), self.13.model(), self.14.model(), self.15.model(), self.16.model(), self.17.model(), self.18.model(), self.19.model(), self.20.model(), self.21.model())
    }

    open spec fn read_spec(stream: Stream, options: OptionsView, args: ()) -> Outcome<
        (A::Model, B::Model, C::Model, D::Model, E::Model, F::Model, G::Model, H::Model, I::Model, J::Model, K::Model, L::Model, M::Model, N::Model, O::Model, P::Model, Q::Model, R::Model, S::Model, T::Model, U::Model, V::Model),
    > {
        read_tuple22::<A, B, C, D, E, F, G, H, I, J, K, L, M, N, O, P, Q, R, S, T, U, V>(stream, options)
    }

    open spec fn resolve_spec(
        model: (A::Model, B::Model, C::Model, D::Model, E::Model, F::Model, G::Model, H::Model, I::Model, J::Model, K::Model, L::Model, M::Model, N::Model, O::Model, P::Model, Q::Model, R::Model, S::Model, T::Model, U::Model, V::Model),
        data: Seq<u8>,
        options: OptionsView,
        args: (),
    ) -> Resolved<(A::Model, B::Model, C::Model, D::Model, E::Model, F::Model, G::Model, H::Model, I::Model, J::Model, K::Model, L::Model, M::Model, N::Model, O::Model, P::Model, Q::Model, R::Model, S::Model, T::Model, U::Model, V::Model)> {
        resolve_tuple22::<A, B, C, D, E, F, G, H, I, J, K, L, M, N, O, P, Q, R, S, T, U, V>(model, data, options)
    }

    fn read_options(reader: &mut Cursor, options: &ReadOptions, args: &()) -> (r: BinResult<
        (A, B, C, D, E, F, G, H, I, J, K, L, M, N, O, P, Q, R, S, T, U, V),
    >) {
        assert(reader@ == old(reader)@.at(reader@.pos));
        let a: A = match A::read_options(reader, options, &()) {
            Ok(v) => v,
            Err(e) => {
                return Err(e);
            },
        };
        assert(reader@ == old(reader)@.at(reader@.pos));
        let b: B = match B::read_options(reader, options, &()) {
            Ok(v) => v,
            Err(e) => {
                return Err(e);
            },
        };
        assert(reader@ == old(reader)@.at(reader@.pos));
        let c: C = match C::read_options(reader, options, &()) {
            Ok(v) => v,
            Err(e) => {
                return Err(e);
            },
        };
        assert(reader@ == old(reader)@.at(reader@.pos));
        let d: D = match D::read_options(reader, options, &()) {
            Ok(v) => v,
            Err(e) => {
                return Err(e);
            },
        };
        assert(reader@ == old(reader)@.at(reader@.pos));
        let e: E = match E::read_options(reader, options, &()) {
            Ok(v) => v,
            Err(e) => {
                return Err(e);
            },
        };
        assert(reader@ == old(reader)@.at(reader@.pos));
        let f: F = match F::read_options(reader, options, &()) {
            Ok(v) => v,
            Err(e) => {
                return Err(e);
            },
        };
        assert(reader@ == old(reader)@.at(reader@.pos));
        let g: G = match G::read_options(reader, options, &()) {
            Ok(v) => v,
            Err(e) => {
                return Err(e);
            },
        };
        assert(reader@ == old(reader)@.at(reader@.pos));
        let h: H = match H::read_options(reader, options, &()) {
            Ok(v) => v,
            Err(e) => {
                return Err(e);
            },
        };
        assert(reader@ == old(reader)@.at(reader@.pos));
        let i: I = match I::read_options(reader, options, &()) {
            Ok(v) => v,
            Err(e) => {
                return Err(e);
            },
        };
        assert(reader@ == old(reader)@.at(reader@.pos));
        let j: J = match J::read_options(reader, options, &()) {
            Ok(v) => v,
            Err(e) => {
                return Err(e);
            },
        };
        assert(reader@ == old(reader)@.at(reader@.pos));
        let k: K = match K::read_options(reader, options, &()) {
            Ok(v) => v,
            Err(e) => {
                return Err(e);
            },
        };
        assert(reader@ == old(reader)@.at(reader@.pos));
        let l: L = match L::read_options(reader, options, &()) {
            Ok(v) => v,
            Err(e) => {
                return Err(e);
            },
        };
        assert(reader@ == old(reader)@.at(reader@.pos));
        let m: M = match M::read_options(reader, options, &()) {
            Ok(v) => v,
            Err(e) => {
                return Err(e);
            },
        };
        assert(reader@ == old(reader)@.at(reader@.pos));
        let n: N = match N::read_options(reader, options, &()) {
            Ok(v) => v,
            Err(e) => {
                return Err(e);
            },
        };
        assert(reader@ == old(reader)@.at(reader@.pos));
        let o: O = match O::read_options(reader, options, &()) {
            Ok(v) => v,
            Err(e) => {
                return Err(e);
            },
        };
        assert(reader@ == old(reader)@.at(reader@.pos));
        let p: P = match P::read_options(reader, options, &()) {
            Ok(v) => v,
            Err(e) => {
                return Err(e);
            },
        };
        assert(reader@ == old(reader)@.at(reader@.pos));
        let q: Q = match Q::read_options(reader, options, &()) {
            Ok(v) => v,
            Err(e) => {
                return Err(e);
            },
        };
        assert(reader@ == old(reader)@.at(reader@.pos));
        let r: R = match R::read_options(reader, options, &()) {
            Ok(v) => v,
            Err(e) => {
                return Err(e);
            },
        };
        assert(reader@ == old(reader)@.at(reader@.pos));
        let s: S = match S::read_options(reader, options, &()) {
            Ok(v) => v,
            Err(e) => {
                return Err(e);
            },
        };
        assert(reader@ == old(reader)@.at(reader@.pos));
        let t: T = match T::read_options(reader, options, &()) {
            Ok(v) => v,
            Err(e) => {
                return Err(e);
            },
        };
        assert(reader@ == old(reader)@.at(reader@.pos));
        let u: U = match U::read_options(reader, options, &()) {
            Ok(v) => v,
            Err(e) => {
                return Err(e);
            },
        };
        assert(reader@ == old(reader)@.at(reader@.pos));
        let v: V = match V::read_options(reader, options, &()) {
            Ok(v) => v,
            Err(e) => {
                return Err(e);
            },
        };
        Ok((a, b, c, d, e, f, g, h, i, j, k, l, m, n, o, p, q, r, s, t, u, v))
    }

    fn after_parse(&mut self, reader: &mut Cursor, options: &ReadOptions, args: &()) -> (r:
        BinResult<()>) {
        match self.0.after_parse(reader, options, &()) {
            Ok(()) => {},
            Err(e) => {
                return Err(e);
            },
        }
        match self.1.after_parse(reader, options, &()) {
            Ok(()) => {},
            Err(e) => {
                return Err(e);
            },
        }
        match self.2.after_parse(reader, options, &()) {
            Ok(()) => {},
            Err(e) => {
                return Err(e);
            },
        }
        match self.3.after_parse(reader, options, &()) {
            Ok(()) => {},
            Err(e) => {
                return Err(e);
            },
        }
        match self.4.after_parse(reader, options, &()) {
            Ok(()) => {},
            Err(e) => {
                return Err(e);
            },
        }
        match self.5.after_parse(reader, options, &()) {
            Ok(()) => {},
            Err(e) => {
                return Err(e);
            },
        }
        match self.6.after_parse(reader, options, &()) {
            Ok(()) => {},
            Err(e) => {
                return Err(e);
            },
        }
        match self.7.after_parse(reader, options, &()) {
            Ok(()) => {},
            Err(e) => {
                return Err(e);
            },
        }
        match self.8.after_parse(reader, options, &()) {
            Ok(()) => {},
            Err(e) => {
                return Err(e);
            },
        }
        match self.9.after_parse(reader, options, &()) {
            Ok(()) => {},
            Err(e) => {
                return Err(e);
            },
        }
        match self.10.after_parse(reader, options, &()) {
            Ok(()) => {},
            Err(e) => {
                return Err(e);
            },
        }
        match self.11.after_parse(reader, options, &()) {
            Ok(()) => {},
            Err(e) => {
                return Err(e);
            },
        }
        match self.12.after_parse(reader, options, &()) {
            Ok(()) => {},
            Err(e) => {
                return Err(e);
            },
        }
        match self.13.after_parse(reader, options, &()) {
            Ok(()) => {},
            Err(e) => {
                return Err(e);
            },
        }
        match self.14.after_parse(reader, options, &()) {
            Ok(()) => {},
            Err(e) => {
                return Err(e);
            },
        }
        match self.15.after_parse(reader, options, &()) {
            Ok(()) => {},
            Err(e) => {
                return Err(e);
            },
        }
        match self.16.after_parse(reader, options, &()) {
            Ok(()) => {},
            Err(e) => {
                return Err(e);
            },
        }
        match self.17.after_parse(reader, options, &()) {
            Ok(()) => {},
            Err(e) => {
                return Err(e);
            },
        }
        match self.18.after_parse(reader, options, &()) {
            Ok(()) => {},
            Err(e) => {
                return Err(e);
            },
        }
        match self.19.after_parse(reader, options, &()) {
            Ok(()) => {},
            Err(e) => {
                return Err(e);
            },
        }
        match self.20.after_parse(reader, options, &()) {
            Ok(()) => {},
            Err(e) => {
                return Err(e);
            },
        }
        self.21.after_parse(reader, options, &())
    }
}

/// The twenty-three members of a tuple, one after the other.
pub open spec fn read_tuple23<A: BinRead<Args = ()>, B: BinRead<Args = ()>, C: BinRead<Args = ()>, D: BinRead<Args = ()>, E: BinRead<Args = ()>, F: BinRead<Args = ()>, G: BinRead<Args = ()>, H: BinRead<Args = ()>, I: BinRead<Args = ()>, J: BinRead<Args = ()>, K: BinRead<Args = ()>, L: BinRead<Args = ()>, M: BinRead<Args = ()>, N: BinRead<Args = ()>, O: BinRead<Args = ()>, P: BinRead<Args = ()>, Q: BinRead<Args = ()>, R: BinRead<Args = ()>, S: BinRead<Args = ()>, T: BinRead<Args = ()>, U: BinRead<Args = ()>, V: BinRead<Args = ()>, W: BinRead<Args = ()>>(
    stream: Stream,
    options: OptionsView,
) -> Outcome<(A::Model, B::Model, C::Model, D::Model, E::Model, F::Model, G::Model, H::Model, I::Model, J::Model, K::Model, L::Model, M::Model, N::Model, O::Model, P::Model, Q::Model, R::Model, S::Model, T::Model, U::Model, V::Model, W::Model)> {
    match A::read_spec(stream, options, ()) {
        Err(e) => Err(e),
        Ok((a, after_a)) => {
            match B::read_spec(stream.at(after_a), options, ()) {
                Err(e) => Err(e),
                Ok((b, after_b)) => {
                    match C::read_spec(stream.at(after_b), options, ()) {
                        Err(e) => Err(e),
                        Ok((c, after_c)) => {
                            match D::read_spec(stream.at(after_c), options, ()) {
                                Err(e) => Err(e),
                                Ok((d, after_d)) => {
                                    match E::read_spec(stream.at(after_d), options, ()) {
                                        Err(e) => Err(e),
                                        Ok((e, after_e)) => {
                                            match F::read_spec(stream.at(after_e), options, ()) {
                                                Err(e) => Err(e),
                                                Ok((f, after_f)) => {
                                                    match G::read_spec(stream.at(after_f), options, ()) {
                                                        Err(e) => Err(e),
                                                        Ok((g, after_g)) => {
                                                            match H::read_spec(stream.at(after_g), options, ()) {
                                                                Err(e) => Err(e),
                                                                Ok((h, after_h)) => {
                                                                    match I::read_spec(stream.at(after_h), options, ()) {
                                                                        Err(e) => Err(e),
                                                                        Ok((i, after_i)) => {
                                                                            match J::read_spec(stream.at(after_i), options, ()) {
                                                                                Err(e) => Err(e),
                                                                                Ok((j, after_j)) => {
                                                                                    match K::read_spec(stream.at(after_j), options, ()) {
                                                                                        Err(e) => Err(e),
                                                                                        Ok((k, after_k)) => {
                                                                                            match L::read_spec(stream.at(after_k), options, ()) {
                                                                                                Err(e) => Err(e),
                                                                                                Ok((l, after_l)) => {
                                                                                                    match M::read_spec(stream.at(after_l), options, ()) {
                                                                                                        Err(e) => Err(e),
                                                                                                        Ok((m, after_m)) => {
                                                                                                            match N::read_spec(stream.at(after_m), options, ()) {
                                                                                                                Err(e) => Err(e),
                                                                                                                Ok((n, after_n)) => {
                                                                                                                    match O::read_spec(stream.at(after_n), options, ()) {
                                                                                                                        Err(e) => Err(e),
                                                                                                                        Ok((o, after_o)) => {
                                                                                                                            match P::read_spec(stream.at(after_o), options, ()) {
                                                                                                                                Err(e) => Err(e),
                                                                                                                                Ok((p, after_p)) => {
                                                                                                                                    match Q::read_spec(stream.at(after_p), options, ()) {
                                                                                                                                        Err(e) => Err(e),
                                                                                                                                        Ok((q, after_q)) => {
                                                                                                                                            match R::read_spec(stream.at(after_q), options, ()) {
                                                                                                                                                Err(e) => Err(e),
                                                                                                                                                Ok((r, after_r)) => {
                                                                                                                                                    match S::read_spec(stream.at(after_r), options, ()) {
                                                                                                                                                        Err(e) => Err(e),
                                                                                                                                                        Ok((s, after_s)) => {
                                                                                                                                                            match T::read_spec(stream.at(after_s), options, ()) {
                                                                                                                                                                Err(e) => Err(e),
                                                                                                                                                                Ok((t, after_t)) => {
                                                                                                                                                                    match U::read_spec(stream.at(after_t), options, ()) {
                                                                                                                                                                        Err(e) => Err(e),
                                                                                                                                                                        Ok((u, after_u)) => {
                                                                                                                                                                            match V::read_spec(stream.at(after_u), options, ()) {
                                                                                                                                                                                Err(e) => Err(e),
                                                                                                                                                                                Ok((v, after_v)) => {
                                                                                                                                                                                    match W::read_spec(stream.at(after_v), options, ()) {
                                                                                                                                                                                        Err(e) => Err(e),
                                                                                                                                                                                        Ok((w, after_w)) => Ok(((a, b, c, d, e, f, g, h, i, j, k, l, m, n, o, p, q, r, s, t, u, v, w), after_w)),
                                                                                                                                                                                    }
                                                                                                                                                                                },
                                                                                                                                                                            }
                                                                                                                                                                        },
                                                                                                                                                                    }
                                                                                                                                                                },
                                                                                                                                                            }
                                                                                                                                                        },
                                                                                                                                                    }
                                                                                                                                                },
                                                                                                                                            }
                                                                                                                                        },
                                                                                                                                    }
                                                                                                                                },
                                                                                                                            }
                                                                                                                        },
                                                                                                                    }
                                                                                                                },
                                                                                                            }
                                                                                                        },
                                                                                                    }
                                                                                                },
                                                                                            }
                                                                                        },
                                                                                    }
                                                                                },
                                                                            }
                                                                        },
                                                                    }
                                                                },
                                                            }
                                                        },
                                                    }
                                                },
                                            }
                                        },
                                    }
                                },
                            }
                        },
                    }
                },
            }
        },
    }
}

/// Phase two on the twenty-three members of a tuple, in the order in which they were
/// read.
pub open spec fn resolve_tuple23<A: BinRead<Args = ()>, B: BinRead<Args = ()>, C: BinRead<Args = ()>, D: BinRead<Args = ()>, E: BinRead<Args = ()>, F: BinRead<Args = ()>, G: BinRead<Args = ()>, H: BinRead<Args = ()>, I: BinRead<Args = ()>, J: BinRead<Args = ()>, K: BinRead<Args = ()>, L: BinRead<Args = ()>, M: BinRead<Args = ()>, N: BinRead<Args = ()>, O: BinRead<Args = ()>, P: BinRead<Args = ()>, Q: BinRead<Args = ()>, R: BinRead<Args = ()>, S: BinRead<Args = ()>, T: BinRead<Args = ()>, U: BinRead<Args = ()>, V: BinRead<Args = ()>, W: BinRead<Args = ()>>(
    model: (A::Model, B::Model, C::Model, D::Model, E::Model, F::Model, G::Model, H::Model, I::Model, J::Model, K::Model, L::Model, M::Model, N::Model, O::Model, P::Model, Q::Model, R::Model, S::Model, T::Model, U::Model, V::Model, W::Model),
    data: Seq<u8>,
    options: OptionsView,
) -> Resolved<(A::Model, B::Model, C::Model, D::Model, E::Model, F::Model, G::Model, H::Model, I::Model, J::Model, K::Model, L::Model, M::Model, N::Model, O::Model, P::Model, Q::Model, R::Model, S::Model, T::Model, U::Model, V::Model, W::Model)> {
    match A::resolve_spec(model.0, data, options, ()) {
        Err(e) => Err(e),
        Ok(a) => {
            match B::resolve_spec(model.1, data, options, ()) {
                Err(e) => Err(e),
                Ok(b) => {
                    match C::resolve_spec(model.2, data, options, ()) {
                        Err(e) => Err(e),
                        Ok(c) => {
                            match D::resolve_spec(model.3, data, options, ()) {
                                Err(e) => Err(e),
                                Ok(d) => {
                                    match E::resolve_spec(model.4, data, options, ()) {
                                        Err(e) => Err(e),
                                        Ok(e) => {
                                            match F::resolve_spec(model.5, data, options, ()) {
                                                Err(e) => Err(e),
                                                Ok(f) => {
                                                    match G::resolve_spec(model.6, data, options, ()) {
                                                        Err(e) => Err(e),
                                                        Ok(g) => {
                                                            match H::resolve_spec(model.7, data, options, ()) {
                                                                Err(e) => Err(e),
                                                                Ok(h) => {
                                                                    match I::resolve_spec(model.8, data, options, ()) {
                                                                        Err(e) => Err(e),
                                                                        Ok(i) => {
                                                                            match J::resolve_spec(model.9, data, options, ()) {
                                                                                Err(e) => Err(e),
                                                                                Ok(j) => {
                                                                                    match K::resolve_spec(model.10, data, options, ()) {
                                                                                        Err(e) => Err(e),
                                                                                        Ok(k) => {
                                                                                            match L::resolve_spec(model.11, data, options, ()) {
                                                                                                Err(e) => Err(e),
                                                                                                Ok(l) => {
                                                                                                    match M::resolve_spec(model.12, data, options, ()) {
                                                                                                        Err(e) => Err(e),
                                                                                                        Ok(m) => {
                                                                                                            match N::resolve_spec(model.13, data, options, ()) {
                                                                                                                Err(e) => Err(e),
                                                                                                                Ok(n) => {
                                                                                                                    match O::resolve_spec(model.14, data, options, ()) {
                                                                                                                        Err(e) => Err(e),
                                                                                                                        Ok(o) => {
                                                                                                                            match P::resolve_spec(model.15, data, options, ()) {
                                                                                                                                Err(e) => Err(e),
                                                                                                                                Ok(p) => {
                                                                                                                                    match Q::resolve_spec(model.16, data, options, ()) {
                                                                                                                                        Err(e) => Err(e),
                                                                                                                                        Ok(q) => {
                                                                                                                                            match R::resolve_spec(model.17, data, options, ()) {
                                                                                                                                                Err(e) => Err(e),
                                                                                                                                                Ok(r) => {
                                                                                                                                                    match S::resolve_spec(model.18, data, options, ()) {
                                                                                                                                                        Err(e) => Err(e),
                                                                                                                                                        Ok(s) => {
                                                                                                                                                            match T::resolve_spec(model.19, data, options, ()) {
                                                                                                                                                                Err(e) => Err(e),
                                                                                                                                                                Ok(t) => {
                                                                                                                                                                    match U::resolve_spec(model.20, data, options, ()) {
                                                                                                                                                                        Err(e) => Err(e),
                                                                                                                                                                        Ok(u) => {
                                                                                                                                                                            match V::resolve_spec(model.21, data, options, ()) {
                                                                                                                                                                                Err(e) => Err(e),
                                                                                                                                                                                Ok(v) => {
                                                                                                                                                                                    match W::resolve_spec(model.22, data, options, ()) {
                                                                                                                                                                                        Err(e) => Err(e),
                                                                                                                                                                                        Ok(w) => Ok((a, b, c, d, e, f, g, h, i, j, k, l, m, n, o, p, q, r, s, t, u, v, w)),
                                                                                                                                                                                    }
                                                                                                                                                                                },
                                                                                                                                                                            }
                                                                                                                                                                        },
                                                                                                                                                                    }
                                                                                                                                                                },
                                                                                                                                                            }
                                                                                                                                                        },
                                                                                                                                                    }
                                                                                                                                                },
                                                                                                                                            }
                                                                                                                                        },
                                                                                                                                    }
                                                                                                                                },
                                                                                                                            }
                                                                                                                        },
                                                                                                                    }
                                                                                                                },
                                                                                                            }
                                                                                                        },
                                                                                                    }
                                                                                                },
                                                                                            }
                                                                                        },
                                                                                    }
                                                                                },
                                                                            }
                                                                        },
                                                                    }
                                                                },
                                                            }
                                                        },
                                                    }
                                                },
                                            }
                                        },
                                    }
                                },
                            }
                        },
                    }
                },
            }
        },
    }
}

impl<A: BinRead<Args = ()>, B: BinRead<Args = ()>, C: BinRead<Args = ()>, D: BinRead<Args = ()>, E: BinRead<Args = ()>, F: BinRead<Args = ()>, G: BinRead<Args = ()>, H: BinRead<Args = ()>, I: BinRead<Args = ()>, J: BinRead<Args = ()>, K: BinRead<Args = ()>, L: BinRead<Args = ()>, M: BinRead<Args = ()>, N: BinRead<Args = ()>, O: BinRead<Args = ()>, P: BinRead<Args = ()>, Q: BinRead<Args = ()>, R: BinRead<Args = ()>, S: BinRead<Args = ()>, T: BinRead<Args = ()>, U: BinRead<Args = ()>, V: BinRead<Args = ()>, W: BinRead<Args = ()>> BinRead for (A, B, C, D, E, F, G, H, I, J, K, L, M, N, O, P, Q, R, S, T, U, V, W) {
    type Args = ();

    type Model = (A::Model, B::Model, C::Model, D::Model, E::Model, F::Model, G::Model, H::Model, I::Model, J::Model, K::Model, L::Model, M::Model, N::Model, O::Model, P::Model, Q::Model, R::Model, S::Model, T::Model, U::Model, V::Model, W::Model);

    open spec fn model(&self) -> (A::Model, B::Model, C::Model, D::Model, E::Model, F::Model, G::Model, H::Model, I::Model, J::Model, K::Model, L::Model, M::Model, N::Model, O::Model, P::Model, Q::Model, R::Model, S::Model, T::Model, U::Model, V::Model, W::Model) {
        (self.0.model(), self.1.model(), self.2.model(), self.3.model(), self.4.model(), self.5.model(), self.6.model(), self.7.model(), self.8.model(), self.9.model(), self.10.model(), self.11.model(), self.12.model(), self.13.model(), self.14.model(), self.15.model(), self.16.model(), self.17.model(), self.18.model(), self.19.model(), self.20.model(), self.21.model(), self.22.model())
    }

    open spec fn read_spec(stream: Stream, options: OptionsView, args: ()) -> Outcome<
        (A::Model, B::Model, C::Model, D::Model, E::Model, F::Model, G::Model, H::Model, I::Model, J::Model, K::Model, L::Model, M::Model, N::Model, O::Model, P::Model, Q::Model, R::Model, S::Model, T::Model, U::Model, V::Model, W::Model),
    > {
        read_tuple23::<A, B, C, D, E, F, G, H, I, J, K, L, M, N, O, P, Q, R, S, T, U, V, W>(stream, options)
    }

    open spec fn resolve_spec(
        model: (A::Model, B::Model, C::Model, D::Model, E::Model, F::Model, G::Model, H::Model, I::Model, J::Model, K::Model, L::Model, M::Model, N::Model, O::Model, P::Model, Q::Model, R::Model, S::Model, T::Model, U::Model, V::Model, W::Model),
        data: Seq<u8>,
        options: OptionsView,
        args: (),
    ) -> Resolved<(A::Model, B::Model, C::Model, D::Model, E::Model, F::Model, G::Model, H::Model, I::Model, J::Model, K::Model, L::Model, M::Model, N::Model, O::Model, P::Model, Q::Model, R::Model, S::Model, T::Model, U::Model, V::Model, W::Model)> {
        resolve_tuple23::<A, B, C, D, E, F, G, H, I, J, K, L, M, N, O, P, Q, R, S, T, U, V, W>(model, data, options)
    }

    fn read_options(reader: &mut Cursor, options: &ReadOptions, args: &()) -> (r: BinResult<
        (A, B, C, D, E, F, G, H, I, J, K, L, M, N, O, P, Q, R, S, T, U, V, W),
    >) {
        assert(reader@ == old(reader)@.at(reader@.pos));
        let a: A = match A::read_options(reader, options, &()) {
            Ok(v) => v,
            Err(e) => {
                return Err(e);
            },
        };
        assert(reader@ == old(reader)@.at(reader@.pos));
        let b: B = match B::read_options(reader, options, &()) {
            Ok(v) => v,
            Err(e) => {
                return Err(e);
            },
        };
        assert(reader@ == old(reader)@.at(reader@.pos));
        let c: C = match C::read_options(reader, options, &()) {
            Ok(v) => v,
            Err(e) => {
                return Err(e);
            },
        };
        assert(reader@ == old(reader)@.at(reader@.pos));
        let d: D = match D::read_options(reader, options, &()) {
            Ok(v) => v,
            Err(e) => {
                return Err(e);
            },
        };
        assert(reader@ == old(reader)@.at(reader@.pos));
        let e: E = match E::read_options(reader, options, &()) {
            Ok(v) => v,
            Err(e) => {
                return Err(e);
            },
        };
        assert(reader@ == old(reader)@.at(reader@.pos));
        let f: F = match F::read_options(reader, options, &()) {
            Ok(v) => v,
            Err(e) => {
                return Err(e);
            },
        };
        assert(reader@ == old(reader)@.at(reader@.pos));
        let g: G = match G::read_options(reader, options, &()) {
            Ok(v) => v,
            Err(e) => {
                return Err(e);
            },
        };
        assert(reader@ == old(reader)@.at(reader@.pos));
        let h: H = match H::read_options(reader, options, &()) {
            Ok(v) => v,
            Err(e) => {
                return Err(e);
            },
        };
        assert(reader@ == old(reader)@.at(reader@.pos));
        let i: I = match I::read_options(reader, options, &()) {
            Ok(v) => v,
            Err(e) => {
                return Err(e);
            },
        };
        assert(reader@ == old(reader)@.at(reader@.pos));
        let j: J = match J::read_options(reader, options, &()) {
            Ok(v) => v,
            Err(e) => {
                return Err(e);
            },
        };
        assert(reader@ == old(reader)@.at(reader@.pos));
        let k: K = match K::read_options(reader, options, &()) {
            Ok(v) => v,
            Err(e) => {
                return Err(e);
            },
        };
        assert(reader@ == old(reader)@.at(reader@.pos));
        let l: L = match L::read_options(reader, options, &()) {
            Ok(v) => v,
            Err(e) => {
                return Err(e);
            },
        };
        assert(reader@ == old(reader)@.at(reader@.pos));
        let m: M = match M::read_options(reader, options, &()) {
            Ok(v) => v,
            Err(e) => {
                return Err(e);
            },
        };
        assert(reader@ == old(reader)@.at(reader@.pos));
        let n: N = match N::read_options(reader, options, &()) {
            Ok(v) => v,
            Err(e) => {
                return Err(e);
            },
        };
        assert(reader@ == old(reader)@.at(reader@.pos));
        let o: O = match O::read_options(reader, options, &()) {
            Ok(v) => v,
            Err(e) => {
                return Err(e);
            },
        };
        assert(reader@ == old(reader)@.at(reader@.pos));
        let p: P = match P::read_options(reader, options, &()) {
            Ok(v) => v,
            Err(e) => {
                return Err(e);
            },
        };
        assert(reader@ == old(reader)@.at(reader@.pos));
        let q: Q = match Q::read_options(reader, options, &()) {
            Ok(v) => v,
            Err(e) => {
                return Err(e);
            },
        };
        assert(reader@ == old(reader)@.at(reader@.pos));
        let r: R = match R::read_options(reader, options, &()) {
            Ok(v) => v,
            Err(e) => {
                return Err(e);
            },
        };
        assert(reader@ == old(reader)@.at(reader@.pos));
        let s: S = match S::read_options(reader, options, &()) {
            Ok(v) => v,
            Err(e) => {
                return Err(e);
            },
        };
        assert(reader@ == old(reader)@.at(reader@.pos));
        let t: T = match T::read_options(reader, options, &()) {
            Ok(v) => v,
            Err(e) => {
                return Err(e);
            },
        };
        assert(reader@ == old(reader)@.at(reader@.pos));
        let u: U = match U::read_options(reader, options, &()) {
            Ok(v) => v,
            Err(e) => {
                return Err(e);
            },
        };
        assert(reader@ == old(reader)@.at(reader@.pos));
        let v: V = match V::read_options(reader, options, &()) {
            Ok(v) => v,
            Err(e) => {
                return Err(e);
            },
        };
        assert(reader@ == old(reader)@.at(reader@.pos));
        let w: W = match W::read_options(reader, options, &()) {
            Ok(v) => v,
            Err(e) => {
                return Err(e);
            },
        };
        Ok((a, b, c, d, e, f, g, h, i, j, k, l, m, n, o, p, q, r, s, t, u, v, w))
    }

    fn after_parse(&mut self, reader: &mut Cursor, options: &ReadOptions, args: &()) -> (r:
        BinResult<()>) {
        match self.0.after_parse(reader, options, &()) {
            Ok(()) => {},
            Err(e) => {
                return Err(e);
            },
        }
        match self.1.after_parse(reader, options, &()) {
            Ok(()) => {},
            Err(e) => {
                return Err(e);
            },
        }
        match self.2.after_parse(reader, options, &()) {
            Ok(()) => {},
            Err(e) => {
                return Err(e);
            },
        }
        match self.3.after_parse(reader, options, &()) {
            Ok(()) => {},
            Err(e) => {
                return Err(e);
            },
        }
        match self.4.after_parse(reader, options, &()) {
            Ok(()) => {},
            Err(e) => {
                return Err(e);
            },
        }
        match self.5.after_parse(reader, options, &()) {
            Ok(()) => {},
            Err(e) => {
                return Err(e);
            },
        }
        match self.6.after_parse(reader, options, &()) {
            Ok(()) => {},
            Err(e) => {
                return Err(e);
            },
        }
        match self.7.after_parse(reader, options, &()) {
            Ok(()) => {},
            Err(e) => {
                return Err(e);
            },
        }
        match self.8.after_parse(reader, options, &()) {
            Ok(()) => {},
            Err(e) => {
                return Err(e);
            },
        }
        match self.9.after_parse(reader, options, &()) {
            Ok(()) => {},
            Err(e) => {
                return Err(e);
            },
        }
        match self.10.after_parse(reader, options, &()) {
            Ok(()) => {},
            Err(e) => {
                return Err(e);
            },
        }
        match self.11.after_parse(reader, options, &()) {
            Ok(()) => {},
            Err(e) => {
                return Err(e);
            },
        }
        match self.12.after_parse(reader, options, &()) {
            Ok(()) => {},
            Err(e) => {
                return Err(e);
            },
        }
        match self.13.after_parse(reader, options, &()) {
            Ok(()) => {},
            Err(e) => {
                return Err(e);
            },
        }
        match self.14.after_parse(reader, options, &()) {
            Ok(()) => {},
            Err(e) => {
                return Err(e);
            },
        }
        match self.15.after_parse(reader, options, &()) {
            Ok(()) => {},
            Err(e) => {
                return Err(e);
            },
        }
        match self.16.after_parse(reader, options, &()) {
            Ok(()) => {},
            Err(e) => {
                return Err(e);
            },
        }
        match self.17.after_parse(reader, options, &()) {
            Ok(()) => {},
            Err(e) => {
                return Err(e);
            },
        }
        match self.18.after_parse(reader, options, &()) {
            Ok(()) => {},
            Err(e) => {
                return Err(e);
            },
        }
        match self.19.after_parse(reader, options, &()) {
            Ok(()) => {},
            Err(e) => {
                return Err(e);
            },
        }
        match self.20.after_parse(reader, options, &()) {
            Ok(()) => {},
            Err(e) => {
                return Err(e);
            },
        }
        match self.21.after_parse(reader, options, &()) {
            Ok(()) => {},
            Err(e) => {
                return Err(e);
            },
        }
        self.22.after_parse(reader, options, &())
    }
}

/// The twenty-four members of a tuple, one after the other.
pub open spec fn read_tuple24<A: BinRead<Args = ()>, B: BinRead<Args = ()>, C: BinRead<Args = ()>, D: BinRead<Args = ()>, E: BinRead<Args = ()>, F: BinRead<Args = ()>, G: BinRead<Args = ()>, H: BinRead<Args = ()>, I: BinRead<Args = ()>, J: BinRead<Args = ()>, K: BinRead<Args = ()>, L: BinRead<Args = ()>, M: BinRead<Args = ()>, N: BinRead<Args = ()>, O: BinRead<Args = ()>, P: BinRead<Args = ()>, Q: BinRead<Args = ()>, R: BinRead<Args = ()>, S: BinRead<Args = ()>, T: BinRead<Args = ()>, U: BinRead<Args = ()>, V: BinRead<Args = ()>, W: BinRead<Args = ()>, X: BinRead<Args = ()>>(
    stream: Stream,
    options: OptionsView,
) -> Outcome<(A::Model, B::Model, C::Model, D::Model, E::Model, F::Model, G::Model, H::Model, I::Model, J::Model, K::Model, L::Model, M::Model, N::Model, O::Model, P::Model, Q::Model, R::Model, S::Model, T::Model, U::Model, V::Model, W::Model, X::Model)> {
    match A::read_spec(stream, options, ()) {
        Err(e) => Err(e),
        Ok((a, after_a)) => {
            match B::read_spec(stream.at(after_a), options, ()) {
                Err(e) => Err(e),
                Ok((b, after_b)) => {
                    match C::read_spec(stream.at(after_b), options, ()) {
                        Err(e) => Err(e),
                        Ok((c, after_c)) => {
                            match D::read_spec(stream.at(after_c), options, ()) {
                                Err(e) => Err(e),
                                Ok((d, after_d)) => {
                                    match E::read_spec(stream.at(after_d), options, ()) {
                                        Err(e) => Err(e),
                                        Ok((e, after_e)) => {
                                            match F::read_spec(stream.at(after_e), options, ()) {
                                                Err(e) => Err(e),
                                                Ok((f, after_f)) => {
                                                    match G::read_spec(stream.at(after_f), options, ()) {
                                                        Err(e) => Err(e),
                                                        Ok((g, after_g)) => {
                                                            match H::read_spec(stream.at(after_g), options, ()) {
                                                                Err(e) => Err(e),
                                                                Ok((h, after_h)) => {
                                                                    match I::read_spec(stream.at(after_h), options, ()) {
                                                                        Err(e) => Err(e),
                                                                        Ok((i, after_i)) => {
                                                                            match J::read_spec(stream.at(after_i), options, ()) {
                                                                                Err(e) => Err(e),
                                                                                Ok((j, after_j)) => {
                                                                                    match K::read_spec(stream.at(after_j), options, ()) {
                                                                                        Err(e) => Err(e),
                                                                                        Ok((k, after_k)) => {
                                                                                            match L::read_spec(stream.at(after_k), options, ()) {
                                                                                                Err(e) => Err(e),
                                                                                                Ok((l, after_l)) => {
                                                                                                    match M::read_spec(stream.at(after_l), options, ()) {
                                                                                                        Err(e) => Err(e),
                                                                                                        Ok((m, after_m)) => {
                                                                                                            match N::read_spec(stream.at(after_m), options, ()) {
                                                                                                                Err(e) => Err(e),
                                                                                                                Ok((n, after_n)) => {
                                                                                                                    match O::read_spec(stream.at(after_n), options, ()) {
                                                                                                                        Err(e) => Err(e),
                                                                                                                        Ok((o, after_o)) => {
                                                                                                                            match P::read_spec(stream.at(after_o), options, ()) {
                                                                                                                                Err(e) => Err(e),
                                                                                                                                Ok((p, after_p)) => {
                                                                                                                                    match Q::read_spec(stream.at(after_p), options, ()) {
                                                                                                                                        Err(e) => Err(e),
                                                                                                                                        Ok((q, after_q)) => {
                                                                                                                                            match R::read_spec(stream.at(after_q), options, ()) {
                                                                                                                                                Err(e) => Err(e),
                                                                                                                                                Ok((r, after_r)) => {
                                                                                                                                                    match S::read_spec(stream.at(after_r), options, ()) {
                                                                                                                                                        Err(e) => Err(e),
                                                                                                                                                        Ok((s, after_s)) => {
                                                                                                                                                            match T::read_spec(stream.at(after_s), options, ()) {
                                                                                                                                                                Err(e) => Err(e),
                                                                                                                                                                Ok((t, after_t)) => {
                                                                                                                                                                    match U::read_spec(stream.at(after_t), options, ()) {
                                                                                                                                                                        Err(e) => Err(e),
                                                                                                                                                                        Ok((u, after_u)) => {
                                                                                                                                                                            match V::read_spec(stream.at(after_u), options, ()) {
                                                                                                                                                                                Err(e) => Err(e),
                                                                                                                                                                                Ok((v, after_v)) => {
                                                                                                                                                                                    match W::read_spec(stream.at(after_v), options, ()) {
                                                                                                                                                                                        Err(e) => Err(e),
                                                                                                                                                                                        Ok((w, after_w)) => {
                                                                                                                                                                                            match X::read_spec(stream.at(after_w), options, ()) {
                                                                                                                                                                                                Err(e) => Err(e),
                                                                                                                                                                                                Ok((x, after_x)) => Ok(((a, b, c, d, e, f, g, h, i, j, k, l, m, n, o, p, q, r, s, t, u, v, w, x), after_x)),
                                                                                                                                                                                            }
                                                                                                                                                                                        },
                                                                                                                                                                                    }
                                                                                                                                                                                },
                                                                                                                                                                            }
                                                                                                                                                                        },
                                                                                                                                                                    }
                                                                                                                                                                },
                                                                                                                                                            }
                                                                                                                                                        },
                                                                                                                                                    }
                                                                                                                                                },
                                                                                                                                            }
                                                                                                                                        },
                                                                                                                                    }
                                                                                                                                },
                                                                                                                            }
                                                                                                                        },
                                                                                                                    }
                                                                                                                },
                                                                                                            }
                                                                                                        },
                                                                                                    }
                                                                                                },
                                                                                            }
                                                                                        },
                                                                                    }
                                                                                },
                                                                            }
                                                                        },
                                                                    }
                                                                },
                                                            }
                                                        },
                                                    }
                                                },
                                            }
                                        },
                                    }
                                },
                            }
                        },
                    }
                },
            }
        },
    }
}

/// Phase two on the twenty-four members of a tuple, in the order in which they were
/// read.
pub open spec fn resolve_tuple24<A: BinRead<Args = ()>, B: BinRead<Args = ()>, C: BinRead<Args = ()>, D: BinRead<Args = ()>, E: BinRead<Args = ()>, F: BinRead<Args = ()>, G: BinRead<Args = ()>, H: BinRead<Args = ()>, I: BinRead<Args = ()>, J: BinRead<Args = ()>, K: BinRead<Args = ()>, L: BinRead<Args = ()>, M: BinRead<Args = ()>, N: BinRead<Args = ()>, O: BinRead<Args = ()>, P: BinRead<Args = ()>, Q: BinRead<Args = ()>, R: BinRead<Args = ()>, S: BinRead<Args = ()>, T: BinRead<Args = ()>, U: BinRead<Args = ()>, V: BinRead<Args = ()>, W: BinRead<Args = ()>, X: BinRead<Args = ()>>(
    model: (A::Model, B::Model, C::Model, D::Model, E::Model, F::Model, G::Model, H::Model, I::Model, J::Model, K::Model, L::Model, M::Model, N::Model, O::Model, P::Model, Q::Model, R::Model, S::Model, T::Model, U::Model, V::Model, W::Model, X::Model),
    data: Seq<u8>,
    options: OptionsView,
) -> Resolved<(A::Model, B::Model, C::Model, D::Model, E::Model, F::Model, G::Model, H::Model, I::Model, J::Model, K::Model, L::Model, M::Model, N::Model, O::Model, P::Model, Q::Model, R::Model, S::Model, T::Model, U::Model, V::Model, W::Model, X::Model)> {
    match A::resolve_spec(model.0, data, options, ()) {
        Err(e) => Err(e),
        Ok(a) => {
            match B::resolve_spec(model.1, data, options, ()) {
                Err(e) => Err(e),
                Ok(b) => {
                    match C::resolve_spec(model.2, data, options, ()) {
                        Err(e) => Err(e),
                        Ok(c) => {
                            match D::resolve_spec(model.3, data, options, ()) {
                                Err(e) => Err(e),
                                Ok(d) => {
                                    match E::resolve_spec(model.4, data, options, ()) {
                                        Err(e) => Err(e),
                                        Ok(e) => {
                                            match F::resolve_spec(model.5, data, options, ()) {
                                                Err(e) => Err(e),
                                                Ok(f) => {
                                                    match G::resolve_spec(model.6, data, options, ()) {
                                                        Err(e) => Err(e),
                                                        Ok(g) => {
                                                            match H::resolve_spec(model.7, data, options, ()) {
                                                                Err(e) => Err(e),
                                                                Ok(h) => {
                                                                    match I::resolve_spec(model.8, data, options, ()) {
                                                                        Err(e) => Err(e),
                                                                        Ok(i) => {
                                                                            match J::resolve_spec(model.9, data, options, ()) {
                                                                                Err(e) => Err(e),
                                                                                Ok(j) => {
                                                                                    match K::resolve_spec(model.10, data, options, ()) {
                                                                                        Err(e) => Err(e),
                                                                                        Ok(k) => {
                                                                                            match L::resolve_spec(model.11, data, options, ()) {
                                                                                                Err(e) => Err(e),
                                                                                                Ok(l) => {
                                                                                                    match M::resolve_spec(model.12, data, options, ()) {
                                                                                                        Err(e) => Err(e),
                                                                                                        Ok(m) => {
                                                                                                            match N::resolve_spec(model.13, data, options, ()) {
                                                                                                                Err(e) => Err(e),
                                                                                                                Ok(n) => {
                                                                                                                    match O::resolve_spec(model.14, data, options, ()) {
                                                                                                                        Err(e) => Err(e),
                                                                                                                        Ok(o) => {
                                                                                                                            match P::resolve_spec(model.15, data, options, ()) {
                                                                                                                                Err(e) => Err(e),
                                                                                                                                Ok(p) => {
                                                                                                                                    match Q::resolve_spec(model.16, data, options, ()) {
                                                                                                                                        Err(e) => Err(e),
                                                                                                                                        Ok(q) => {
                                                                                                                                            match R::resolve_spec(model.17, data, options, ()) {
                                                                                                                                                Err(e) => Err(e),
                                                                                                                                                Ok(r) => {
                                                                                                                                                    match S::resolve_spec(model.18, data, options, ()) {
                                                                                                                                                        Err(e) => Err(e),
                                                                                                                                                        Ok(s) => {
                                                                                                                                                            match T::resolve_spec(model.19, data, options, ()) {
                                                                                                                                                                Err(e) => Err(e),
                                                                                                                                                                Ok(t) => {
                                                                                                                                                                    match U::resolve_spec(model.20, data, options, ()) {
                                                                                                                                                                        Err(e) => Err(e),
                                                                                                                                                                        Ok(u) => {
                                                                                                                                                                            match V::resolve_spec(model.21, data, options, ()) {
                                                                                                                                                                                Err(e) => Err(e),
                                                                                                                                                                                Ok(v) => {
                                                                                                                                                                                    match W::resolve_spec(model.22, data, options, ()) {
                                                                                                                                                                                        Err(e) => Err(e),
                                                                                                                                                                                        Ok(w) => {
                                                                                                                                                                                            match X::resolve_spec(model.23, data, options, ()) {
                                                                                                                                                                                                Err(e) => Err(e),
                                                                                                                                                                                                Ok(x) => Ok((a, b, c, d, e, f, g, h, i, j, k, l, m, n, o, p, q, r, s, t, u, v, w, x)),
                                                                                                                                                                                            }
                                                                                                                                                                                        },
                                                                                                                                                                                    }
                                                                                                                                                                                },
                                                                                                                                                                            }
                                                                                                                                                                        },
                                                                                                                                                                    }
                                                                                                                                                                },
                                                                                                                                                            }
                                                                                                                                                        },
                                                                                                                                                    }
                                                                                                                                                },
                                                                                                                                            }
                                                                                                                                        },
                                                                                                                                    }
                                                                                                                                },
                                                                                                                            }
                                                                                                                        },
                                                                                                                    }
                                                                                                                },
                                                                                                            }
                                                                                                        },
                                                                                                    }
                                                                                                },
                                                                                            }
                                                                                        },
                                                                                    }
                                                                                },
                                                                            }
                                                                        },
                                                                    }
                                                                },
                                                            }
                                                        },
                                                    }
                                                },
                                            }
                                        },
                                    }
                                },
                            }
                        },
                    }
                },
            }
        },
    }
}

impl<A: BinRead<Args = ()>, B: BinRead<Args = ()>, C: BinRead<Args = ()>, D: BinRead<Args = ()>, E: BinRead<Args = ()>, F: BinRead<Args = ()>, G: BinRead<Args = ()>, H: BinRead<Args = ()>, I: BinRead<Args = ()>, J: BinRead<Args = ()>, K: BinRead<Args = ()>, L: BinRead<Args = ()>, M: BinRead<Args = ()>, N: BinRead<Args = ()>, O: BinRead<Args = ()>, P: BinRead<Args = ()>, Q: BinRead<Args = ()>, R: BinRead<Args = ()>, S: BinRead<Args = ()>, T: BinRead<Args = ()>, U: BinRead<Args = ()>, V: BinRead<Args = ()>, W: BinRead<Args = ()>, X: BinRead<Args = ()>> BinRead for (A, B, C, D, E, F, G, H, I, J, K, L, M, N, O, P, Q, R, S, T, U, V, W, X) {
    type Args = ();

    type Model = (A::Model, B::Model, C::Model, D::Model, E::Model, F::Model, G::Model, H::Model, I::Model, J::Model, K::Model, L::Model, M::Model, N::Model, O::Model, P::Model, Q::Model, R::Model, S::Model, T::Model, U::Model, V::Model, W::Model, X::Model);

    open spec fn model(&self) -> (A::Model, B::Model, C::Model, D::Model, E::Model, F::Model, G::Model, H::Model, I::Model, J::Model, K::Model, L::Model, M::Model, N::Model, O::Model, P::Model, Q::Model, R::Model, S::Model, T::Model, U::Model, V::Model, W::Model, X::Model) {
        (self.0.model(), self.1.model(), self.2.model(), self.3.model(), self.4.model(), self.5.model(), self.6.model(), self.7.model(), self.8.model(), self.9.model(), self.10.model(), self.11.model(), self.12.model(), self.13.model(), self.14.model(), self.15.model(), self.16.model(), self.17.model(), self.18.model(), self.19.model(), self.20.model(), self.21.model(), self.22.model(), self.23.model())
    }

    open spec fn read_spec(stream: Stream, options: OptionsView, args: ()) -> Outcome<
        (A::Model, B::Model, C::Model, D::Model, E::Model, F::Model, G::Model, H::Model, I::Model, J::Model, K::Model, L::Model, M::Model, N::Model, O::Model, P::Model, Q::Model, R::Model, S::Model, T::Model, U::Model, V::Model, W::Model, X::Model),
    > {
        read_tuple24::<A, B, C, D, E, F, G, H, I, J, K, L, M, N, O, P, Q, R, S, T, U, V, W, X>(stream, options)
    }

    open spec fn resolve_spec(
        model: (A::Model, B::Model, C::Model, D::Model, E::Model, F::Model, G::Model, H::Model, I::Model, J::Model, K::Model, L::Model, M::Model, N::Model, O::Model, P::Model, Q::Model, R::Model, S::Model, T::Model, U::Model, V::Model, W::Model, X::Model),
        data: Seq<u8>,
        options: OptionsView,
        args: (),
    ) -> Resolved<(A::Model, B::Model, C::Model, D::Model, E::Model, F::Model, G::Model, H::Model, I::Model, J::Model, K::Model, L::Model, M::Model, N::Model, O::Model, P::Model, Q::Model, R::Model, S::Model, T::Model, U::Model, V::Model, W::Model, X::Model)> {
        resolve_tuple24::<A, B, C, D, E, F, G, H, I, J, K, L, M, N, O, P, Q, R, S, T, U, V, W, X>(model, data, options)
    }

    fn read_options(reader: &mut Cursor, options: &ReadOptions, args: &()) -> (r: BinResult<
        (A, B, C, D, E, F, G, H, I, J, K, L, M, N, O, P, Q, R, S, T, U, V, W, X),
    >) {
        assert(reader@ == old(reader)@.at(reader@.pos));
        let a: A = match A::read_options(reader, options, &()) {
            Ok(v) => v,
            Err(e) => {
                return Err(e);
            },
        };
        assert(reader@ == old(reader)@.at(reader@.pos));
        let b: B = match B::read_options(reader, options, &()) {
            Ok(v) => v,
            Err(e) => {
                return Err(e);
            },
        };
        assert(reader@ == old(reader)@.at(reader@.pos));
        let c: C = match C::read_options(reader, options, &()) {
            Ok(v) => v,
            Err(e) => {
                return Err(e);
            },
        };
        assert(reader@ == old(reader)@.at(reader@.pos));
        let d: D = match D::read_options(reader, options, &()) {
            Ok(v) => v,
            Err(e) => {
                return Err(e);
            },
        };
        assert(reader@ == old(reader)@.at(reader@.pos));
        let e: E = match E::read_options(reader, options, &()) {
            Ok(v) => v,
            Err(e) => {
                return Err(e);
            },
        };
        assert(reader@ == old(reader)@.at(reader@.pos));
        let f: F = match F::read_options(reader, options, &()) {
            Ok(v) => v,
            Err(e) => {
                return Err(e);
            },
        };
        assert(reader@ == old(reader)@.at(reader@.pos));
        let g: G = match G::read_options(reader, options, &()) {
            Ok(v) => v,
            Err(e) => {
                return Err(e);
            },
        };
        assert(reader@ == old(reader)@.at(reader@.pos));
        let h: H = match H::read_options(reader, options, &()) {
            Ok(v) => v,
            Err(e) => {
                return Err(e);
            },
        };
        assert(reader@ == old(reader)@.at(reader@.pos));
        let i: I = match I::read_options(reader, options, &()) {
            Ok(v) => v,
            Err(e) => {
                return Err(e);
            },
        };
        assert(reader@ == old(reader)@.at(reader@.pos));
        let j: J = match J::read_options(reader, options, &()) {
            Ok(v) => v,
            Err(e) => {
                return Err(e);
            },
        };
        assert(reader@ == old(reader)@.at(reader@.pos));
        let k: K = match K::read_options(reader, options, &()) {
            Ok(v) => v,
            Err(e) => {
                return Err(e);
            },
        };
        assert(reader@ == old(reader)@.at(reader@.pos));
        let l: L = match L::read_options(reader, options, &()) {
            Ok(v) => v,
            Err(e) => {
                return Err(e);
            },
        };
        assert(reader@ == old(reader)@.at(reader@.pos));
        let m: M = match M::read_options(reader, options, &()) {
            Ok(v) => v,
            Err(e) => {
                return Err(e);
            },
        };
        assert(reader@ == old(reader)@.at(reader@.pos));
        let n: N = match N::read_options(reader, options, &()) {
            Ok(v) => v,
            Err(e) => {
                return Err(e);
            },
        };
        assert(reader@ == old(reader)@.at(reader@.pos));
        let o: O = match O::read_options(reader, options, &()) {
            Ok(v) => v,
            Err(e) => {
                return Err(e);
            },
        };
        assert(reader@ == old(reader)@.at(reader@.pos));
        let p: P = match P::read_options(reader, options, &()) {
            Ok(v) => v,
            Err(e) => {
                return Err(e);
            },
        };
        assert(reader@ == old(reader)@.at(reader@.pos));
        let q: Q = match Q::read_options(reader, options, &()) {
            Ok(v) => v,
            Err(e) => {
                return Err(e);
            },
        };
        assert(reader@ == old(reader)@.at(reader@.pos));
        let r: R = match R::read_options(reader, options, &()) {
            Ok(v) => v,
            Err(e) => {
                return Err(e);
            },
        };
        assert(reader@ == old(reader)@.at(reader@.pos));
        let s: S = match S::read_options(reader, options, &()) {
            Ok(v) => v,
            Err(e) => {
                return Err(e);
            },
        };
        assert(reader@ == old(reader)@.at(reader@.pos));
        let t: T = match T::read_options(reader, options, &()) {
            Ok(v) => v,
            Err(e) => {
                return Err(e);
            },
        };
        assert(reader@ == old(reader)@.at(reader@.pos));
        let u: U = match U::read_options(reader, options, &()) {
            Ok(v) => v,
            Err(e) => {
                return Err(e);
            },
        };
        assert(reader@ == old(reader)@.at(reader@.pos));
        let v: V = match V::read_options(reader, options, &()) {
            Ok(v) => v,
            Err(e) => {
                return Err(e);
            },
        };
        assert(reader@ == old(reader)@.at(reader@.pos));
        let w: W = match W::read_options(reader, options, &()) {
            Ok(v) => v,
            Err(e) => {
                return Err(e);
            },
        };
        assert(reader@ == old(reader)@.at(reader@.pos));
        let x: X = match X::read_options(reader, options, &()) {
            Ok(v) => v,
            Err(e) => {
                return Err(e);
            },
        };
        Ok((a, b, c, d, e, f, g, h, i, j, k, l, m, n, o, p, q, r, s, t, u, v, w, x))
    }

    fn after_parse(&mut self, reader: &mut Cursor, options: &ReadOptions, args: &()) -> (r:
        BinResult<()>) {
        match self.0.after_parse(reader, options, &()) {
            Ok(()) => {},
            Err(e) => {
                return Err(e);
            },
        }
        match self.1.after_parse(reader, options, &()) {
            Ok(()) => {},
            Err(e) => {
                return Err(e);
            },
        }
        match self.2.after_parse(reader, options, &()) {
            Ok(()) => {},
            Err(e) => {
                return Err(e);
            },
        }
        match self.3.after_parse(reader, options, &()) {
            Ok(()) => {},
            Err(e) => {
                return Err(e);
            },
        }
        match self.4.after_parse(reader, options, &()) {
            Ok(()) => {},
            Err(e) => {
                return Err(e);
            },
        }
        match self.5.after_parse(reader, options, &()) {
            Ok(()) => {},
            Err(e) => {
                return Err(e);
            },
        }
        match self.6.after_parse(reader, options, &()) {
            Ok(()) => {},
            Err(e) => {
                return Err(e);
            },
        }
        match self.7.after_parse(reader, options, &()) {
            Ok(()) => {},
            Err(e) => {
                return Err(e);
            },
        }
        match self.8.after_parse(reader, options, &()) {
            Ok(()) => {},
            Err(e) => {
                return Err(e);
            },
        }
        match self.9.after_parse(reader, options, &()) {
            Ok(()) => {},
            Err(e) => {
                return Err(e);
            },
        }
        match self.10.after_parse(reader, options, &()) {
            Ok(()) => {},
            Err(e) => {
                return Err(e);
            },
        }
        match self.11.after_parse(reader, options, &()) {
            Ok(()) => {},
            Err(e) => {
                return Err(e);
            },
        }
        match self.12.after_parse(reader, options, &()) {
            Ok(()) => {},
            Err(e) => {
                return Err(e);
            },
        }
        match self.13.after_parse(reader, options, &()) {
            Ok(()) => {},
            Err(e) => {
                return Err(e);
            },
        }
        match self.14.after_parse(reader, options, &()) {
            Ok(()) => {},
            Err(e) => {
                return Err(e);
            },
        }
        match self.15.after_parse(reader, options, &()) {
            Ok(()) => {},
            Err(e) => {
                return Err(e);
            },
        }
        match self.16.after_parse(reader, options, &()) {
            Ok(()) => {},
            Err(e) => {
                return Err(e);
            },
        }
        match self.17.after_parse(reader, options, &()) {
            Ok(()) => {},
            Err(e) => {
                return Err(e);
            },
        }
        match self.18.after_parse(reader, options, &()) {
            Ok(()) => {},
            Err(e) => {
                return Err(e);
            },
        }
        match self.19.after_parse(reader, options, &()) {
            Ok(()) => {},
            Err(e) => {
                return Err(e);
            },
        }
        match self.20.after_parse(reader, options, &()) {
            Ok(()) => {},
            Err(e) => {
                return Err(e);
            },
        }
        match self.21.after_parse(reader, options, &()) {
            Ok(()) => {},
            Err(e) => {
                return Err(e);
            },
        }
        match self.22.after_parse(reader, options, &()) {
            Ok(()) => {},
            Err(e) => {
                return Err(e);
            },
        }
        self.23.after_parse(reader, options, &())
    }
}

/// The twenty-five members of a tuple, one after the other.
pub open spec fn read_tuple25<A: BinRead<Args = ()>, B: BinRead<Args = ()>, C: BinRead<Args = ()>, D: BinRead<Args = ()>, E: BinRead<Args = ()>, F: BinRead<Args = ()>, G: BinRead<Args = ()>, H: BinRead<Args = ()>, I: BinRead<Args = ()>, J: BinRead<Args = ()>, K: BinRead<Args = ()>, L: BinRead<Args = ()>, M: BinRead<Args = ()>, N: BinRead<Args = ()>, O: BinRead<Args = ()>, P: BinRead<Args = ()>, Q: BinRead<Args = ()>, R: BinRead<Args = ()>, S: BinRead<Args = ()>, T: BinRead<Args = ()>, U: BinRead<Args = ()>, V: BinRead<Args = ()>, W: BinRead<Args = ()>, X: BinRead<Args = ()>, Y: BinRead<Args = ()>>(
    stream: Stream,
    options: OptionsView,
) -> Outcome<(A::Model, B::Model, C::Model, D::Model, E::Model, F::Model, G::Model, H::Model, I::Model, J::Model, K::Model, L::Model, M::Model, N::Model, O::Model, P::Model, Q::Model, R::Model, S::Model, T::Model, U::Model, V::Model, W::Model, X::Model, Y::Model)> {
    match A::read_spec(stream, options, ()) {
        Err(e) => Err(e),
        Ok((a, after_a)) => {
            match B::read_spec(stream.at(after_a), options, ()) {
                Err(e) => Err(e),
                Ok((b, after_b)) => {
                    match C::read_spec(stream.at(after_b), options, ()) {
                        Err(e) => Err(e),
                        Ok((c, after_c)) => {
                            match D::read_spec(stream.at(after_c), options, ()) {
                                Err(e) => Err(e),
                                Ok((d, after_d)) => {
                                    match E::read_spec(stream.at(after_d), options, ()) {
                                        Err(e) => Err(e),
                                        Ok((e, after_e)) => {
                                            match F::read_spec(stream.at(after_e), options, ()) {
                                                Err(e) => Err(e),
                                                Ok((f, after_f)) => {
                                                    match G::read_spec(stream.at(after_f), options, ()) {
                                                        Err(e) => Err(e),
                                                        Ok((g, after_g)) => {
                                                            match H::read_spec(stream.at(after_g), options, ()) {
                                                                Err(e) => Err(e),
                                                                Ok((h, after_h)) => {
                                                                    match I::read_spec(stream.at(after_h), options, ()) {
                                                                        Err(e) => Err(e),
                                                                        Ok((i, after_i)) => {
                                                                            match J::read_spec(stream.at(after_i), options, ()) {
                                                                                Err(e) => Err(e),
                                                                                Ok((j, after_j)) => {
                                                                                    match K::read_spec(stream.at(after_j), options, ()) {
                                                                                        Err(e) => Err(e),
                                                                                        Ok((k, after_k)) => {
                                                                                            match L::read_spec(stream.at(after_k), options, ()) {
                                                                                                Err(e) => Err(e),
                                                                                                Ok((l, after_l)) => {
                                                                                                    match M::read_spec(stream.at(after_l), options, ()) {
                                                                                                        Err(e) => Err(e),
                                                                                                        Ok((m, after_m)) => {
                                                                                                            match N::read_spec(stream.at(after_m), options, ()) {
                                                                                                                Err(e) => Err(e),
                                                                                                                Ok((n, after_n)) => {
                                                                                                                    match O::read_spec(stream.at(after_n), options, ()) {
                                                                                                                        Err(e) => Err(e),
                                                                                                                        Ok((o, after_o)) => {
                                                                                                                            match P::read_spec(stream.at(after_o), options, ()) {
                                                                                                                                Err(e) => Err(e),
                                                                                                                                Ok((p, after_p)) => {
                                                                                                                                    match Q::read_spec(stream.at(after_p), options, ()) {
                                                                                                                                        Err(e) => Err(e),
                                                                                                                                        Ok((q, after_q)) => {
                                                                                                                                            match R::read_spec(stream.at(after_q), options, ()) {
                                                                                                                                                Err(e) => Err(e),
                                                                                                                                                Ok((r, after_r)) => {
                                                                                                                                                    match S::read_spec(stream.at(after_r), options, ()) {
                                                                                                                                                        Err(e) => Err(e),
                                                                                                                                                        Ok((s, after_s)) => {
                                                                                                                                                            match T::read_spec(stream.at(after_s), options, ()) {
                                                                                                                                                                Err(e) => Err(e),
                                                                                                                                                                Ok((t, after_t)) => {
                                                                                                                                                                    match U::read_spec(stream.at(after_t), options, ()) {
                                                                                                                                                                        Err(e) => Err(e),
                                                                                                                                                                        Ok((u, after_u)) => {
                                                                                                                                                                            match V::read_spec(stream.at(after_u), options, ()) {
                                                                                                                                                                                Err(e) => Err(e),
                                                                                                                                                                                Ok((v, after_v)) => {
                                                                                                                                                                                    match W::read_spec(stream.at(after_v), options, ()) {
                                                                                                                                                                                        Err(e) => Err(e),
                                                                                                                                                                                        Ok((w, after_w)) => {
                                                                                                                                                                                            match X::read_spec(stream.at(after_w), options, ()) {
                                                                                                                                                                                                Err(e) => Err(e),
                                                                                                                                                                                                Ok((x, after_x)) => {
                                                                                                                                                                                                    match Y::read_spec(stream.at(after_x), options, ()) {
                                                                                                                                                                                                        Err(e) => Err(e),
                                                                                                                                                                                                        Ok((y, after_y)) => Ok(((a, b, c, d, e, f, g, h, i, j, k, l, m, n, o, p, q, r, s, t, u, v, w, x, y), after_y)),
                                                                                                                                                                                                    }
                                                                                                                                                                                                },
                                                                                                                                                                                            }
                                                                                                                                                                                        },
                                                                                                                                                                                    }
                                                                                                                                                                                },
                                                                                                                                                                            }
                                                                                                                                                                        },
                                                                                                                                                                    }
                                                                                                                                                                },
                                                                                                                                                            }
                                                                                                                                                        },
                                                                                                                                                    }
                                                                                                                                                },
                                                                                                                                            }
                                                                                                                                        },
                                                                                                                                    }
                                                                                                                                },
                                                                                                                            }
                                                                                                                        },
                                                                                                                    }
                                                                                                                },
                                                                                                            }
                                                                                                        },
                                                                                                    }
                                                                                                },
                                                                                            }
                                                                                        },
                                                                                    }
                                                                                },
                                                                            }
                                                                        },
                                                                    }
                                                                },
                                                            }
                                                        },
                                                    }
                                                },
                                            }
                                        },
                                    }
                                },
                            }
                        },
                    }
                },
            }
        },
    }
}

/// Phase two on the twenty-five members of a tuple, in the order in which they were
/// read.
pub open spec fn resolve_tuple25<A: BinRead<Args = ()>, B: BinRead<Args = ()>, C: BinRead<Args = ()>, D: BinRead<Args = ()>, E: BinRead<Args = ()>, F: BinRead<Args = ()>, G: BinRead<Args = ()>, H: BinRead<Args = ()>, I: BinRead<Args = ()>, J: BinRead<Args = ()>, K: BinRead<Args = ()>, L: BinRead<Args = ()>, M: BinRead<Args = ()>, N: BinRead<Args = ()>, O: BinRead<Args = ()>, P: BinRead<Args = ()>, Q: BinRead<Args = ()>, R: BinRead<Args = ()>, S: BinRead<Args = ()>, T: BinRead<Args = ()>, U: BinRead<Args = ()>, V: BinRead<Args = ()>, W: BinRead<Args = ()>, X: BinRead<Args = ()>, Y: BinRead<Args = ()>>(
    model: (A::Model, B::Model, C::Model, D::Model, E::Model, F::Model, G::Model, H::Model, I::Model, J::Model, K::Model, L::Model, M::Model, N::Model, O::Model, P::Model, Q::Model, R::Model, S::Model, T::Model, U::Model, V::Model, W::Model, X::Model, Y::Model),
    data: Seq<u8>,
    options: OptionsView,
) -> Resolved<(A::Model, B::Model, C::Model, D::Model, E::Model, F::Model, G::Model, H::Model, I::Model, J::Model, K::Model, L::Model, M::Model, N::Model, O::Model, P::Model, Q::Model, R::Model, S::Model, T::Model, U::Model, V::Model, W::Model, X::Model, Y::Model)> {
    match A::resolve_spec(model.0, data, options, ()) {
        Err(e) => Err(e),
        Ok(a) => {
            match B::resolve_spec(model.1, data, options, ()) {
                Err(e) => Err(e),
                Ok(b) => {
                    match C::resolve_spec(model.2, data, options, ()) {
                        Err(e) => Err(e),
                        Ok(c) => {
                            match D::resolve_spec(model.3, data, options, ()) {
                                Err(e) => Err(e),
                                Ok(d) => {
                                    match E::resolve_spec(model.4, data, options, ()) {
                                        Err(e) => Err(e),
                                        Ok(e) => {
                                            match F::resolve_spec(model.5, data, options, ()) {
                                                Err(e) => Err(e),
                                                Ok(f) => {
                                                    match G::resolve_spec(model.6, data, options, ()) {
                                                        Err(e) => Err(e),
                                                        Ok(g) => {
                                                            match H::resolve_spec(model.7, data, options, ()) {
                                                                Err(e) => Err(e),
                                                                Ok(h) => {
                                                                    match I::resolve_spec(model.8, data, options, ()) {
                                                                        Err(e) => Err(e),
                                                                        Ok(i) => {
                                                                            match J::resolve_spec(model.9, data, options, ()) {
                                                                                Err(e) => Err(e),
                                                                                Ok(j) => {
                                                                                    match K::resolve_spec(model.10, data, options, ()) {
                                                                                        Err(e) => Err(e),
                                                                                        Ok(k) => {
                                                                                            match L::resolve_spec(model.11, data, options, ()) {
                                                                                                Err(e) => Err(e),
                                                                                                Ok(l) => {
                                                                                                    match M::resolve_spec(model.12, data, options, ()) {
                                                                                                        Err(e) => Err(e),
                                                                                                        Ok(m) => {
                                                                                                            match N::resolve_spec(model.13, data, options, ()) {
                                                                                                                Err(e) => Err(e),
                                                                                                                Ok(n) => {
                                                                                                                    match O::resolve_spec(model.14, data, options, ()) {
                                                                                                                        Err(e) => Err(e),
                                                                                                                        Ok(o) => {
                                                                                                                            match P::resolve_spec(model.15, data, options, ()) {
                                                                                                                                Err(e) => Err(e),
                                                                                                                                Ok(p) => {
                                                                                                                                    match Q::resolve_spec(model.16, data, options, ()) {
                                                                                                                                        Err(e) => Err(e),
                                                                                                                                        Ok(q) => {
                                                                                                                                            match R::resolve_spec(model.17, data, options, ()) {
                                                                                                                                                Err(e) => Err(e),
                                                                                                                                                Ok(r) => {
                                                                                                                                                    match S::resolve_spec(model.18, data, options, ()) {
                                                                                                                                                        Err(e) => Err(e),
                                                                                                                                                        Ok(s) => {
                                                                                                                                                            match T::resolve_spec(model.19, data, options, ()) {
                                                                                                                                                                Err(e) => Err(e),
                                                                                                                                                                Ok(t) => {
                                                                                                                                                                    match U::resolve_spec(model.20, data, options, ()) {
                                                                                                                                                                        Err(e) => Err(e),
                                                                                                                                                                        Ok(u) => {
                                                                                                                                                                            match V::resolve_spec(model.21, data, options, ()) {
                                                                                                                                                                                Err(e) => Err(e),
                                                                                                                                                                                Ok(v) => {
                                                                                                                                                                                    match W::resolve_spec(model.22, data, options, ()) {
                                                                                                                                                                                        Err(e) => Err(e),
                                                                                                                                                                                        Ok(w) => {
                                                                                                                                                                                            match X::resolve_spec(model.23, data, options, ()) {
                                                                                                                                                                                                Err(e) => Err(e),
                                                                                                                                                                                                Ok(x) => {
                                                                                                                                                                                                    match Y::resolve_spec(model.24, data, options, ()) {
                                                                                                                                                                                                        Err(e) => Err(e),
                                                                                                                                                                                                        Ok(y) => Ok((a, b, c, d, e, f, g, h, i, j, k, l, m, n, o, p, q, r, s, t, u, v, w, x, y)),
                                                                                                                                                                                                    }
                                                                                                                                                                                                },
                                                                                                                                                                                            }
                                                                                                                                                                                        },
                                                                                                                                                                                    }
                                                                                                                                                                                },
                                                                                                                                                                            }
                                                                                                                                                                        },
                                                                                                                                                                    }
                                                                                                                                                                },
                                                                                                                                                            }
                                                                                                                                                        },
                                                                                                                                                    }
                                                                                                                                                },
                                                                                                                                            }
                                                                                                                                        },
                                                                                                                                    }
                                                                                                                                },
                                                                                                                            }
                                                                                                                        },
                                                                                                                    }
                                                                                                                },
                                                                                                            }
                                                                                                        },
                                                                                                    }
                                                                                                },
                                                                                            }
                                                                                        },
                                                                                    }
                                                                                },
                                                                            }
                                                                        },
                                                                    }
                                                                },
                                                            }
                                                        },
                                                    }
                                                },
                                            }
                                        },
                                    }
                                },
                            }
                        },
                    }
                },
            }
        },
    }
}

impl<A: BinRead<Args = ()>, B: BinRead<Args = ()>, C: BinRead<Args = ()>, D: BinRead<Args = ()>, E: BinRead<Args = ()>, F: BinRead<Args = ()>, G: BinRead<Args = ()>, H: BinRead<Args = ()>, I: BinRead<Args = ()>, J: BinRead<Args = ()>, K: BinRead<Args = ()>, L: BinRead<Args = ()>, M: BinRead<Args = ()>, N: BinRead<Args = ()>, O: BinRead<Args = ()>, P: BinRead<Args = ()>, Q: BinRead<Args = ()>, R: BinRead<Args = ()>, S: BinRead<Args = ()>, T: BinRead<Args = ()>, U: BinRead<Args = ()>, V: BinRead<Args = ()>, W: BinRead<Args = ()>, X: BinRead<Args = ()>, Y: BinRead<Args = ()>> BinRead for (A, B, C, D, E, F, G, H, I, J, K, L, M, N, O, P, Q, R, S, T, U, V, W, X, Y) {
    type Args = ();

    type Model = (A::Model, B::Model, C::Model, D::Model, E::Model, F::Model, G::Model, H::Model, I::Model, J::Model, K::Model, L::Model, M::Model, N::Model, O::Model, P::Model, Q::Model, R::Model, S::Model, T::Model, U::Model, V::Model, W::Model, X::Model, Y::Model);

    open spec fn model(&self) -> (A::Model, B::Model, C::Model, D::Model, E::Model, F::Model, G::Model, H::Model, I::Model, J::Model, K::Model, L::Model, M::Model, N::Model, O::Model, P::Model, Q::Model, R::Model, S::Model, T::Model, U::Model, V::Model, W::Model, X::Model, Y::Model) {
        (self.0.model(), self.1.model(), self.2.model(), self.3.model(), self.4.model(), self.5.model(), self.6.model(), self.7.model(), self.8.model(), self.9.model(), self.10.model(), self.11.model(), self.12.model(), self.13.model(), self.14.model(), self.15.model(), self.16.model(), self.17.model(), self.18.model(), self.19.model(), self.20.model(), self.21.model(), self.22.model(), self.23.model(), self.24.model())
    }

    open spec fn read_spec(stream: Stream, options: OptionsView, args: ()) -> Outcome<
        (A::Model, B::Model, C::Model, D::Model, E::Model, F::Model, G::Model, H::Model, I::Model, J::Model, K::Model, L::Model, M::Model, N::Model, O::Model, P::Model, Q::Model, R::Model, S::Model, T::Model, U::Model, V::Model, W::Model, X::Model, Y::Model),
    > {
        read_tuple25::<A, B, C, D, E, F, G, H, I, J, K, L, M, N, O, P, Q, R, S, T, U, V, W, X, Y>(stream, options)
    }

    open spec fn resolve_spec(
        model: (A::Model, B::Model, C::Model, D::Model, E::Model, F::Model, G::Model, H::Model, I::Model, J::Model, K::Model, L::Model, M::Model, N::Model, O::Model, P::Model, Q::Model, R::Model, S::Model, T::Model, U::Model, V::Model, W::Model, X::Model, Y::Model),
        data: Seq<u8>,
        options: OptionsView,
        args: (),
    ) -> Resolved<(A::Model, B::Model, C::Model, D::Model, E::Model, F::Model, G::Model, H::Model, I::Model, J::Model, K::Model, L::Model, M::Model, N::Model, O::Model, P::Model, Q::Model, R::Model, S::Model, T::Model, U::Model, V::Model, W::Model, X::Model, Y::Model)> {
        resolve_tuple25::<A, B, C, D, E, F, G, H, I, J, K, L, M, N, O, P, Q, R, S, T, U, V, W, X, Y>(model, data, options)
    }

    fn read_options(reader: &mut Cursor, options: &ReadOptions, args: &()) -> (r: BinResult<
        (A, B, C, D, E, F, G, H, I, J, K, L, M, N, O, P, Q, R, S, T, U, V, W, X, Y),
    >) {
        assert(reader@ == old(reader)@.at(reader@.pos));
        let a: A = match A::read_options(reader, options, &()) {
            Ok(v) => v,
            Err(e) => {
                return Err(e);
            },
        };
        assert(reader@ == old(reader)@.at(reader@.pos));
        let b: B = match B::read_options(reader, options, &()) {
            Ok(v) => v,
            Err(e) => {
                return Err(e);
            },
        };
        assert(reader@ == old(reader)@.at(reader@.pos));
        let c: C = match C::read_options(reader, options, &()) {
            Ok(v) => v,
            Err(e) => {
                return Err(e);
            },
        };
        assert(reader@ == old(reader)@.at(reader@.pos));
        let d: D = match D::read_options(reader, options, &()) {
            Ok(v) => v,
            Err(e) => {
                return Err(e);
            },
        };
        assert(reader@ == old(reader)@.at(reader@.pos));
        let e: E = match E::read_options(reader, options, &()) {
            Ok(v) => v,
            Err(e) => {
                return Err(e);
            },
        };
        assert(reader@ == old(reader)@.at(reader@.pos));
        let f: F = match F::read_options(reader, options, &()) {
            Ok(v) => v,
            Err(e) => {
                return Err(e);
            },
        };
        assert(reader@ == old(reader)@.at(reader@.pos));
        let g: G = match G::read_options(reader, options, &()) {
            Ok(v) => v,
            Err(e) => {
                return Err(e);
            },
        };
        assert(reader@ == old(reader)@.at(reader@.pos));
        let h: H = match H::read_options(reader, options, &()) {
            Ok(v) => v,
            Err(e) => {
                return Err(e);
            },
        };
        assert(reader@ == old(reader)@.at(reader@.pos));
        let i: I = match I::read_options(reader, options, &()) {
            Ok(v) => v,
            Err(e) => {
                return Err(e);
            },
        };
        assert(reader@ == old(reader)@.at(reader@.pos));
        let j: J = match J::read_options(reader, options, &()) {
            Ok(v) => v,
            Err(e) => {
                return Err(e);
            },
        };
        assert(reader@ == old(reader)@.at(reader@.pos));
        let k: K = match K::read_options(reader, options, &()) {
            Ok(v) => v,
            Err(e) => {
                return Err(e);
            },
        };
        assert(reader@ == old(reader)@.at(reader@.pos));
        let l: L = match L::read_options(reader, options, &()) {
            Ok(v) => v,
            Err(e) => {
                return Err(e);
            },
        };
        assert(reader@ == old(reader)@.at(reader@.pos));
        let m: M = match M::read_options(reader, options, &()) {
            Ok(v) => v,
            Err(e) => {
                return Err(e);
            },
        };
        assert(reader@ == old(reader)@.at(reader@.pos));
        let n: N = match N::read_options(reader, options, &()) {
            Ok(v) => v,
            Err(e) => {
                return Err(e);
            },
        };
        assert(reader@ == old(reader)@.at(reader@.pos));
        let o: O = match O::read_options(reader, options, &()) {
            Ok(v) => v,
            Err(e) => {
                return Err(e);
            },
        };
        assert(reader@ == old(reader)@.at(reader@.pos));
        let p: P = match P::read_options(reader, options, &()) {
            Ok(v) => v,
            Err(e) => {
                return Err(e);
            },
        };
        assert(reader@ == old(reader)@.at(reader@.pos));
        let q: Q = match Q::read_options(reader, options, &()) {
            Ok(v) => v,
            Err(e) => {
                return Err(e);
            },
        };
        assert(reader@ == old(reader)@.at(reader@.pos));
        let r: R = match R::read_options(reader, options, &()) {
            Ok(v) => v,
            Err(e) => {
                return Err(e);
            },
        };
        assert(reader@ == old(reader)@.at(reader@.pos));
        let s: S = match S::read_options(reader, options, &()) {
            Ok(v) => v,
            Err(e) => {
                return Err(e);
            },
        };
        assert(reader@ == old(reader)@.at(reader@.pos));
        let t: T = match T::read_options(reader, options, &()) {
            Ok(v) => v,
            Err(e) => {
                return Err(e);
            },
        };
        assert(reader@ == old(reader)@.at(reader@.pos));
        let u: U = match U::read_options(reader, options, &()) {
            Ok(v) => v,
            Err(e) => {
                return Err(e);
            },
        };
        assert(reader@ == old(reader)@.at(reader@.pos));
        let v: V = match V::read_options(reader, options, &()) {
            Ok(v) => v,
            Err(e) => {
                return Err(e);
            },
        };
        assert(reader@ == old(reader)@.at(reader@.pos));
        let w: W = match W::read_options(reader, options, &()) {
            Ok(v) => v,
            Err(e) => {
                return Err(e);
            },
        };
        assert(reader@ == old(reader)@.at(reader@.pos));
        let x: X = match X::read_options(reader, options, &()) {
            Ok(v) => v,
            Err(e) => {
                return Err(e);
            },
        };
        assert(reader@ == old(reader)@.at(reader@.pos));
        let y: Y = match Y::read_options(reader, options, &()) {
            Ok(v) => v,
            Err(e) => {
                return Err(e);
            },
        };
        Ok((a, b, c, d, e, f, g, h, i, j, k, l, m, n, o, p, q, r, s, t, u, v, w, x, y))
    }

    fn after_parse(&mut self, reader: &mut Cursor, options: &ReadOptions, args: &()) -> (r:
        BinResult<()>) {
        match self.0.after_parse(reader, options, &()) {
            Ok(()) => {},
            Err(e) => {
                return Err(e);
            },
        }
        match self.1.after_parse(reader, options, &()) {
            Ok(()) => {},
            Err(e) => {
                return Err(e);
            },
        }
        match self.2.after_parse(reader, options, &()) {
            Ok(()) => {},
            Err(e) => {
                return Err(e);
            },
        }
        match self.3.after_parse(reader, options, &()) {
            Ok(()) => {},
            Err(e) => {
                return Err(e);
            },
        }
        match self.4.after_parse(reader, options, &()) {
            Ok(()) => {},
            Err(e) => {
                return Err(e);
            },
        }
        match self.5.after_parse(reader, options, &()) {
            Ok(()) => {},
            Err(e) => {
                return Err(e);
            },
        }
        match self.6.after_parse(reader, options, &()) {
            Ok(()) => {},
            Err(e) => {
                return Err(e);
            },
        }
        match self.7.after_parse(reader, options, &()) {
            Ok(()) => {},
            Err(e) => {
                return Err(e);
            },
        }
        match self.8.after_parse(reader, options, &()) {
            Ok(()) => {},
            Err(e) => {
                return Err(e);
            },
        }
        match self.9.after_parse(reader, options, &()) {
            Ok(()) => {},
            Err(e) => {
                return Err(e);
            },
        }
        match self.10.after_parse(reader, options, &()) {
            Ok(()) => {},
            Err(e) => {
                return Err(e);
            },
        }
        match self.11.after_parse(reader, options, &()) {
            Ok(()) => {},
            Err(e) => {
                return Err(e);
            },
        }
        match self.12.after_parse(reader, options, &()) {
            Ok(()) => {},
            Err(e) => {
                return Err(e);
            },
        }
        match self.13.after_parse(reader, options, &()) {
            Ok(()) => {},
            Err(e) => {
                return Err(e);
            },
        }
        match self.14.after_parse(reader, options, &()) {
            Ok(()) => {},
            Err(e) => {
                return Err(e);
            },
        }
        match self.15.after_parse(reader, options, &()) {
            Ok(()) => {},
            Err(e) => {
                return Err(e);
            },
        }
        match self.16.after_parse(reader, options, &()) {
            Ok(()) => {},
            Err(e) => {
                return Err(e);
            },
        }
        match self.17.after_parse(reader, options, &()) {
            Ok(()) => {},
            Err(e) => {
                return Err(e);
            },
        }
        match self.18.after_parse(reader, options, &()) {
            Ok(()) => {},
            Err(e) => {
                return Err(e);
            },
        }
        match self.19.after_parse(reader, options, &()) {
            Ok(()) => {},
            Err(e) => {
                return Err(e);
            },
        }
        match self.20.after_parse(reader, options, &()) {
            Ok(()) => {},
            Err(e) => {
                return Err(e);
            },
        }
        match self.21.after_parse(reader, options, &()) {
            Ok(()) => {},
            Err(e) => {
                return Err(e);
            },
        }
        match self.22.after_parse(reader, options, &()) {
            Ok(()) => {},
            Err(e) => {
                return Err(e);
            },
        }
        match self.23.after_parse(reader, options, &()) {
            Ok(()) => {},
            Err(e) => {
                return Err(e);
            },
        }
        self.24.after_parse(reader, options, &())
    }
}

/// The twenty-six members of a tuple, one after the other.
pub open spec fn read_tuple26<A: BinRead<Args = ()>, B: BinRead<Args = ()>, C: BinRead<Args = ()>, D: BinRead<Args = ()>, E: BinRead<Args = ()>, F: BinRead<Args = ()>, G: BinRead<Args = ()>, H: BinRead<Args = ()>, I: BinRead<Args = ()>, J: BinRead<Args = ()>, K: BinRead<Args = ()>, L: BinRead<Args = ()>, M: BinRead<Args = ()>, N: BinRead<Args = ()>, O: BinRead<Args = ()>, P: BinRead<Args = ()>, Q: BinRead<Args = ()>, R: BinRead<Args = ()>, S: BinRead<Args = ()>, T: BinRead<Args = ()>, U: BinRead<Args = ()>, V: BinRead<Args = ()>, W: BinRead<Args = ()>, X: BinRead<Args = ()>, Y: BinRead<Args = ()>, Z: BinRead<Args = ()>>(
    stream: Stream,
    options: OptionsView,
) -> Outcome<(A::Model, B::Model, C::Model, D::Model, E::Model, F::Model, G::Model, H::Model, I::Model, J::Model, K::Model, L::Model, M::Model, N::Model, O::Model, P::Model, Q::Model, R::Model, S::Model, T::Model, U::Model, V::Model, W::Model, X::Model, Y::Model, Z::Model)> {
    match A::read_spec(stream, options, ()) {
        Err(e) => Err(e),
        Ok((a, after_a)) => {
            match B::read_spec(stream.at(after_a), options, ()) {
                Err(e) => Err(e),
                Ok((b, after_b)) => {
                    match C::read_spec(stream.at(after_b), options, ()) {
                        Err(e) => Err(e),
                        Ok((c, after_c)) => {
                            match D::read_spec(stream.at(after_c), options, ()) {
                                Err(e) => Err(e),
                                Ok((d, after_d)) => {
                                    match E::read_spec(stream.at(after_d), options, ()) {
                                        Err(e) => Err(e),
                                        Ok((e, after_e)) => {
                                            match F::read_spec(stream.at(after_e), options, ()) {
                                                Err(e) => Err(e),
                                                Ok((f, after_f)) => {
                                                    match G::read_spec(stream.at(after_f), options, ()) {
                                                        Err(e) => Err(e),
                                                        Ok((g, after_g)) => {
                                                            match H::read_spec(stream.at(after_g), options, ()) {
                                                                Err(e) => Err(e),
                                                                Ok((h, after_h)) => {
                                                                    match I::read_spec(stream.at(after_h), options, ()) {
                                                                        Err(e) => Err(e),
                                                                        Ok((i, after_i)) => {
                                                                            match J::read_spec(stream.at(after_i), options, ()) {
                                                                                Err(e) => Err(e),
                                                                                Ok((j, after_j)) => {
                                                                                    match K::read_spec(stream.at(after_j), options, ()) {
                                                                                        Err(e) => Err(e),
                                                                                        Ok((k, after_k)) => {
                                                                                            match L::read_spec(stream.at(after_k), options, ()) {
                                                                                                Err(e) => Err(e),
                                                                                                Ok((l, after_l)) => {
                                                                                                    match M::read_spec(stream.at(after_l), options, ()) {
                                                                                                        Err(e) => Err(e),
                                                                                                        Ok((m, after_m)) => {
                                                                                                            match N::read_spec(stream.at(after_m), options, ()) {
                                                                                                                Err(e) => Err(e),
                                                                                                                Ok((n, after_n)) => {
                                                                                                                    match O::read_spec(stream.at(after_n), options, ()) {
                                                                                                                        Err(e) => Err(e),
                                                                                                                        Ok((o, after_o)) => {
                                                                                                                            match P::read_spec(stream.at(after_o), options, ()) {
                                                                                                                                Err(e) => Err(e),
                                                                                                                                Ok((p, after_p)) => {
                                                                                                                                    match Q::read_spec(stream.at(after_p), options, ()) {
                                                                                                                                        Err(e) => Err(e),
                                                                                                                                        Ok((q, after_q)) => {
                                                                                                                                            match R::read_spec(stream.at(after_q), options, ()) {
                                                                                                                                                Err(e) => Err(e),
                                                                                                                                                Ok((r, after_r)) => {
                                                                                                                                                    match S::read_spec(stream.at(after_r), options, ()) {
                                                                                                                                                        Err(e) => Err(e),
                                                                                                                                                        Ok((s, after_s)) => {
                                                                                                                                                            match T::read_spec(stream.at(after_s), options, ()) {
                                                                                                                                                                Err(e) => Err(e),
                                                                                                                                                                Ok((t, after_t)) => {
                                                                                                                                                                    match U::read_spec(stream.at(after_t), options, ()) {
                                                                                                                                                                        Err(e) => Err(e),
                                                                                                                                                                        Ok((u, after_u)) => {
                                                                                                                                                                            match V::read_spec(stream.at(after_u), options, ()) {
                                                                                                                                                                                Err(e) => Err(e),
                                                                                                                                                                                Ok((v, after_v)) => {
                                                                                                                                                                                    match W::read_spec(stream.at(after_v), options, ()) {
                                                                                                                                                                                        Err(e) => Err(e),
                                                                                                                                                                                        Ok((w, after_w)) => {
                                                                                                                                                                                            match X::read_spec(stream.at(after_w), options, ()) {
                                                                                                                                                                                                Err(e) => Err(e),
                                                                                                                                                                                                Ok((x, after_x)) => {
                                                                                                                                                                                                    match Y::read_spec(stream.at(after_x), options, ()) {
                                                                                                                                                                                                        Err(e) => Err(e),
                                                                                                                                                                                                        Ok((y, after_y)) => {
                                                                                                                                                                                                            match Z::read_spec(stream.at(after_y), options, ()) {
                                                                                                                                                                                                                Err(e) => Err(e),
                                                                                                                                                                                                                Ok((z, after_z)) => Ok(((a, b, c, d, e, f, g, h, i, j, k, l, m, n, o, p, q, r, s, t, u, v, w, x, y, z), after_z)),
                                                                                                                                                                                                            }
                                                                                                                                                                                                        },
                                                                                                                                                                                                    }
                                                                                                                                                                                                },
                                                                                                                                                                                            }
                                                                                                                                                                                        },
                                                                                                                                                                                    }
                                                                                                                                                                                },
                                                                                                                                                                            }
                                                                                                                                                                        },
                                                                                                                                                                    }
                                                                                                                                                                },
                                                                                                                                                            }
                                                                                                                                                        },
                                                                                                                                                    }
                                                                                                                                                },
                                                                                                                                            }
                                                                                                                                        },
                                                                                                                                    }
                                                                                                                                },
                                                                                                                            }
                                                                                                                        },
                                                                                                                    }
                                                                                                                },
                                                                                                            }
                                                                                                        },
                                                                                                    }
                                                                                                },
                                                                                            }
                                                                                        },
                                                                                    }
                                                                                },
                                                                            }
                                                                        },
                                                                    }
                                                                },
                                                            }
                                                        },
                                                    }
                                                },
                                            }
                                        },
                                    }
                                },
                            }
                        },
                    }
                },
            }
        },
    }
}

/// Phase two on the twenty-six members of a tuple, in the order in which they were
/// read.
pub open spec fn resolve_tuple26<A: BinRead<Args = ()>, B: BinRead<Args = ()>, C: BinRead<Args = ()>, D: BinRead<Args = ()>, E: BinRead<Args = ()>, F: BinRead<Args = ()>, G: BinRead<Args = ()>, H: BinRead<Args = ()>, I: BinRead<Args = ()>, J: BinRead<Args = ()>, K: BinRead<Args = ()>, L: BinRead<Args = ()>, M: BinRead<Args = ()>, N: BinRead<Args = ()>, O: BinRead<Args = ()>, P: BinRead<Args = ()>, Q: BinRead<Args = ()>, R: BinRead<Args = ()>, S: BinRead<Args = ()>, T: BinRead<Args = ()>, U: BinRead<Args = ()>, V: BinRead<Args = ()>, W: BinRead<Args = ()>, X: BinRead<Args = ()>, Y: BinRead<Args = ()>, Z: BinRead<Args = ()>>(
    model: (A::Model, B::Model, C::Model, D::Model, E::Model, F::Model, G::Model, H::Model, I::Model, J::Model, K::Model, L::Model, M::Model, N::Model, O::Model, P::Model, Q::Model, R::Model, S::Model, T::Model, U::Model, V::Model, W::Model, X::Model, Y::Model, Z::Model),
    data: Seq<u8>,
    options: OptionsView,
) -> Resolved<(A::Model, B::Model, C::Model, D::Model, E::Model, F::Model, G::Model, H::Model, I::Model, J::Model, K::Model, L::Model, M::Model, N::Model, O::Model, P::Model, Q::Model, R::Model, S::Model, T::Model, U::Model, V::Model, W::Model, X::Model, Y::Model, Z::Model)> {
    match A::resolve_spec(model.0, data, options, ()) {
        Err(e) => Err(e),
        Ok(a) => {
            match B::resolve_spec(model.1, data, options, ()) {
                Err(e) => Err(e),
                Ok(b) => {
                    match C::resolve_spec(model.2, data, options, ()) {
                        Err(e) => Err(e),
                        Ok(c) => {
                            match D::resolve_spec(model.3, data, options, ()) {
                                Err(e) => Err(e),
                                Ok(d) => {
                                    match E::resolve_spec(model.4, data, options, ()) {
                                        Err(e) => Err(e),
                                        Ok(e) => {
                                            match F::resolve_spec(model.5, data, options, ()) {
                                                Err(e) => Err(e),
                                                Ok(f) => {
                                                    match G::resolve_spec(model.6, data, options, ()) {
                                                        Err(e) => Err(e),
                                                        Ok(g) => {
                                                            match H::resolve_spec(model.7, data, options, ()) {
                                                                Err(e) => Err(e),
                                                                Ok(h) => {
                                                                    match I::resolve_spec(model.8, data, options, ()) {
                                                                        Err(e) => Err(e),
                                                                        Ok(i) => {
                                                                            match J::resolve_spec(model.9, data, options, ()) {
                                                                                Err(e) => Err(e),
                                                                                Ok(j) => {
                                                                                    match K::resolve_spec(model.10, data, options, ()) {
                                                                                        Err(e) => Err(e),
                                                                                        Ok(k) => {
                                                                                            match L::resolve_spec(model.11, data, options, ()) {
                                                                                                Err(e) => Err(e),
                                                                                                Ok(l) => {
                                                                                                    match M::resolve_spec(model.12, data, options, ()) {
                                                                                                        Err(e) => Err(e),
                                                                                                        Ok(m) => {
                                                                                                            match N::resolve_spec(model.13, data, options, ()) {
                                                                                                                Err(e) => Err(e),
                                                                                                                Ok(n) => {
                                                                                                                    match O::resolve_spec(model.14, data, options, ()) {
                                                                                                                        Err(e) => Err(e),
                                                                                                                        Ok(o) => {
                                                                                                                            match P::resolve_spec(model.15, data, options, ()) {
                                                                                                                                Err(e) => Err(e),
                                                                                                                                Ok(p) => {
                                                                                                                                    match Q::resolve_spec(model.16, data, options, ()) {
                                                                                                                                        Err(e) => Err(e),
                                                                                                                                        Ok(q) => {
                                                                                                                                            match R::resolve_spec(model.17, data, options, ()) {
                                                                                                                                                Err(e) => Err(e),
                                                                                                                                                Ok(r) => {
                                                                                                                                                    match S::resolve_spec(model.18, data, options, ()) {
                                                                                                                                                        Err(e) => Err(e),
                                                                                                                                                        Ok(s) => {
                                                                                                                                                            match T::resolve_spec(model.19, data, options, ()) {
                                                                                                                                                                Err(e) => Err(e),
                                                                                                                                                                Ok(t) => {
                                                                                                                                                                    match U::resolve_spec(model.20, data, options, ()) {
                                                                                                                                                                        Err(e) => Err(e),
                                                                                                                                                                        Ok(u) => {
                                                                                                                                                                            match V::resolve_spec(model.21, data, options, ()) {
                                                                                                                                                                                Err(e) => Err(e),
                                                                                                                                                                                Ok(v) => {
                                                                                                                                                                                    match W::resolve_spec(model.22, data, options, ()) {
                                                                                                                                                                                        Err(e) => Err(e),
                                                                                                                                                                                        Ok(w) => {
                                                                                                                                                                                            match X::resolve_spec(model.23, data, options, ()) {
                                                                                                                                                                                                Err(e) => Err(e),
                                                                                                                                                                                                Ok(x) => {
                                                                                                                                                                                                    match Y::resolve_spec(model.24, data, options, ()) {
                                                                                                                                                                                                        Err(e) => Err(e),
                                                                                                                                                                                                        Ok(y) => {
                                                                                                                                                                                                            match Z::resolve_spec(model.25, data, options, ()) {
                                                                                                                                                                                                                Err(e) => Err(e),
                                                                                                                                                                                                                Ok(z) => Ok((a, b, c, d, e, f, g, h, i, j, k, l, m, n, o, p, q, r, s, t, u, v, w, x, y, z)),
                                                                                                                                                                                                            }
                                                                                                                                                                                                        },
                                                                                                                                                                                                    }
                                                                                                                                                                                                },
                                                                                                                                                                                            }
                                                                                                                                                                                        },
                                                                                                                                                                                    }
                                                                                                                                                                                },
                                                                                                                                                                            }
                                                                                                                                                                        },
                                                                                                                                                                    }
                                                                                                                                                                },
                                                                                                                                                            }
                                                                                                                                                        },
                                                                                                                                                    }
                                                                                                                                                },
                                                                                                                                            }
                                                                                                                                        },
                                                                                                                                    }
                                                                                                                                },
                                                                                                                            }
                                                                                                                        },
                                                                                                                    }
                                                                                                                },
                                                                                                            }
                                                                                                        },
                                                                                                    }
                                                                                                },
                                                                                            }
                                                                                        },
                                                                                    }
                                                                                },
                                                                            }
                                                                        },
                                                                    }
                                                                },
                                                            }
                                                        },
                                                    }
                                                },
                                            }
                                        },
                                    }
                                },
                            }
                        },
                    }
                },
            }
        },
    }
}

impl<A: BinRead<Args = ()>, B: BinRead<Args = ()>, C: BinRead<Args = ()>, D: BinRead<Args = ()>, E: BinRead<Args = ()>, F: BinRead<Args = ()>, G: BinRead<Args = ()>, H: BinRead<Args = ()>, I: BinRead<Args = ()>, J: BinRead<Args = ()>, K: BinRead<Args = ()>, L: BinRead<Args = ()>, M: BinRead<Args = ()>, N: BinRead<Args = ()>, O: BinRead<Args = ()>, P: BinRead<Args = ()>, Q: BinRead<Args = ()>, R: BinRead<Args = ()>, S: BinRead<Args = ()>, T: BinRead<Args = ()>, U: BinRead<Args = ()>, V: BinRead<Args = ()>, W: BinRead<Args = ()>, X: BinRead<Args = ()>, Y: BinRead<Args = ()>, Z: BinRead<Args = ()>> BinRead for (A, B, C, D, E, F, G, H, I, J, K, L, M, N, O, P, Q, R, S, T, U, V, W, X, Y, Z) {
    type Args = ();

    type Model = (A::Model, B::Model, C::Model, D::Model, E::Model, F::Model, G::Model, H::Model, I::Model, J::Model, K::Model, L::Model, M::Model, N::Model, O::Model, P::Model, Q::Model, R::Model, S::Model, T::Model, U::Model, V::Model, W::Model, X::Model, Y::Model, Z::Model);

    open spec fn model(&self) -> (A::Model, B::Model, C::Model, D::Model, E::Model, F::Model, G::Model, H::Model, I::Model, J::Model, K::Model, L::Model, M::Model, N::Model, O::Model, P::Model, Q::Model, R::Model, S::Model, T::Model, U::Model, V::Model, W::Model, X::Model, Y::Model, Z::Model) {
        (self.0.model(), self.1.model(), self.2.model(), self.3.model(), self.4.model(), self.5.model(), self.6.model(), self.7.model(), self.8.model(), self.9.model(), self.10.model(), self.11.model(), self.12.model(), self.13.model(), self.14.model(), self.15.model(), self.16.model(), self.17.model(), self.18.model(), self.19.model(), self.20.model(), self.21.model(), self.22.model(), self.23.model(), self.24.model(), self.25.model())
    }

    open spec fn read_spec(stream: Stream, options: OptionsView, args: ()) -> Outcome<
        (A::Model, B::Model, C::Model, D::Model, E::Model, F::Model, G::Model, H::Model, I::Model, J::Model, K::Model, L::Model, M::Model, N::Model, O::Model, P::Model, Q::Model, R::Model, S::Model, T::Model, U::Model, V::Model, W::Model, X::Model, Y::Model, Z::Model),
    > {
        read_tuple26::<A, B, C, D, E, F, G, H, I, J, K, L, M, N, O, P, Q, R, S, T, U, V, W, X, Y, Z>(stream, options)
    }

    open spec fn resolve_spec(
        model: (A::Model, B::Model, C::Model, D::Model, E::Model, F::Model, G::Model, H::Model, I::Model, J::Model, K::Model, L::Model, M::Model, N::Model, O::Model, P::Model, Q::Model, R::Model, S::Model, T::Model, U::Model, V::Model, W::Model, X::Model, Y::Model, Z::Model),
        data: Seq<u8>,
        options: OptionsView,
        args: (),
    ) -> Resolved<(A::Model, B::Model, C::Model, D::Model, E::Model, F::Model, G::Model, H::Model, I::Model, J::Model, K::Model, L::Model, M::Model, N::Model, O::Model, P::Model, Q::Model, R::Model, S::Model, T::Model, U::Model, V::Model, W::Model, X::Model, Y::Model, Z::Model)> {
        resolve_tuple26::<A, B, C, D, E, F, G, H, I, J, K, L, M, N, O, P, Q, R, S, T, U, V, W, X, Y, Z>(model, data, options)
    }

    fn read_options(reader: &mut Cursor, options: &ReadOptions, args: &()) -> (r: BinResult<
        (A, B, C, D, E, F, G, H, I, J, K, L, M, N, O, P, Q, R, S, T, U, V, W, X, Y, Z),
    >) {
        assert(reader@ == old(reader)@.at(reader@.pos));
        let a: A = match A::read_options(reader, options, &()) {
            Ok(v) => v,
            Err(e) => {
                return Err(e);
            },
        };
        assert(reader@ == old(reader)@.at(reader@.pos));
        let b: B = match B::read_options(reader, options, &()) {
            Ok(v) => v,
            Err(e) => {
                return Err(e);
            },
        };
        assert(reader@ == old(reader)@.at(reader@.pos));
        let c: C = match C::read_options(reader, options, &()) {
            Ok(v) => v,
            Err(e) => {
                return Err(e);
            },
        };
        assert(reader@ == old(reader)@.at(reader@.pos));
        let d: D = match D::read_options(reader, options, &()) {
            Ok(v) => v,
            Err(e) => {
                return Err(e);
            },
        };
        assert(reader@ == old(reader)@.at(reader@.pos));
        let e: E = match E::read_options(reader, options, &()) {
            Ok(v) => v,
            Err(e) => {
                return Err(e);
            },
        };
        assert(reader@ == old(reader)@.at(reader@.pos));
        let f: F = match F::read_options(reader, options, &()) {
            Ok(v) => v,
            Err(e) => {
                return Err(e);
            },
        };
        assert(reader@ == old(reader)@.at(reader@.pos));
        let g: G = match G::read_options(reader, options, &()) {
            Ok(v) => v,
            Err(e) => {
                return Err(e);
            },
        };
        assert(reader@ == old(reader)@.at(reader@.pos));
        let h: H = match H::read_options(reader, options, &()) {
            Ok(v) => v,
            Err(e) => {
                return Err(e);
            },
        };
        assert(reader@ == old(reader)@.at(reader@.pos));
        let i: I = match I::read_options(reader, options, &()) {
            Ok(v) => v,
            Err(e) => {
                return Err(e);
            },
        };
        assert(reader@ == old(reader)@.at(reader@.pos));
        let j: J = match J::read_options(reader, options, &()) {
            Ok(v) => v,
            Err(e) => {
                return Err(e);
            },
        };
        assert(reader@ == old(reader)@.at(reader@.pos));
        let k: K = match K::read_options(reader, options, &()) {
            Ok(v) => v,
            Err(e) => {
                return Err(e);
            },
        };
        assert(reader@ == old(reader)@.at(reader@.pos));
        let l: L = match L::read_options(reader, options, &()) {
            Ok(v) => v,
            Err(e) => {
                return Err(e);
            },
        };
        assert(reader@ == old(reader)@.at(reader@.pos));
        let m: M = match M::read_options(reader, options, &()) {
            Ok(v) => v,
            Err(e) => {
                return Err(e);
            },
        };
        assert(reader@ == old(reader)@.at(reader@.pos));
        let n: N = match N::read_options(reader, options, &()) {
            Ok(v) => v,
            Err(e) => {
                return Err(e);
            },
        };
        assert(reader@ == old(reader)@.at(reader@.pos));
        let o: O = match O::read_options(reader, options, &()) {
            Ok(v) => v,
            Err(e) => {
                return Err(e);
            },
        };
        assert(reader@ == old(reader)@.at(reader@.pos));
        let p: P = match P::read_options(reader, options, &()) {
            Ok(v) => v,
            Err(e) => {
                return Err(e);
            },
        };
        assert(reader@ == old(reader)@.at(reader@.pos));
        let q: Q = match Q::read_options(reader, options, &()) {
            Ok(v) => v,
            Err(e) => {
                return Err(e);
            },
        };
        assert(reader@ == old(reader)@.at(reader@.pos));
        let r: R = match R::read_options(reader, options, &()) {
            Ok(v) => v,
            Err(e) => {
                return Err(e);
            },
        };
        assert(reader@ == old(reader)@.at(reader@.pos));
        let s: S = match S::read_options(reader, options, &()) {
            Ok(v) => v,
            Err(e) => {
                return Err(e);
            },
        };
        assert(reader@ == old(reader)@.at(reader@.pos));
        let t: T = match T::read_options(reader, options, &()) {
            Ok(v) => v,
            Err(e) => {
                return Err(e);
            },
        };
        assert(reader@ == old(reader)@.at(reader@.pos));
        let u: U = match U::read_options(reader, options, &()) {
            Ok(v) => v,
            Err(e) => {
                return Err(e);
            },
        };
        assert(reader@ == old(reader)@.at(reader@.pos));
        let v: V = match V::read_options(reader, options, &()) {
            Ok(v) => v,
            Err(e) => {
                return Err(e);
            },
        };
        assert(reader@ == old(reader)@.at(reader@.pos));
        let w: W = match W::read_options(reader, options, &()) {
            Ok(v) => v,
            Err(e) => {
                return Err(e);
            },
        };
        assert(reader@ == old(reader)@.at(reader@.pos));
        let x: X = match X::read_options(reader, options, &()) {
            Ok(v) => v,
            Err(e) => {
                return Err(e);
            },
        };
        assert(reader@ == old(reader)@.at(reader@.pos));
        let y: Y = match Y::read_options(reader, options, &()) {
            Ok(v) => v,
            Err(e) => {
                return Err(e);
            },
        };
        assert(reader@ == old(reader)@.at(reader@.pos));
        let z: Z = match Z::read_options(reader, options, &()) {
            Ok(v) => v,
            Err(e) => {
                return Err(e);
            },
        };
        Ok((a, b, c, d, e, f, g, h, i, j, k, l, m, n, o, p, q, r, s, t, u, v, w, x, y, z))
    }

    fn after_parse(&mut self, reader: &mut Cursor, options: &ReadOptions, args: &()) -> (r:
        BinResult<()>) {
        match self.0.after_parse(reader, options, &()) {
            Ok(()) => {},
            Err(e) => {
                return Err(e);
            },
        }
        match self.1.after_parse(reader, options, &()) {
            Ok(()) => {},
            Err(e) => {
                return Err(e);
            },
        }
        match self.2.after_parse(reader, options, &()) {
            Ok(()) => {},
            Err(e) => {
                return Err(e);
            },
        }
        match self.3.after_parse(reader, options, &()) {
            Ok(()) => {},
            Err(e) => {
                return Err(e);
            },
        }
        match self.4.after_parse(reader, options, &()) {
            Ok(()) => {},
            Err(e) => {
                return Err(e);
            },
        }
        match self.5.after_parse(reader, options, &()) {
            Ok(()) => {},
            Err(e) => {
                return Err(e);
            },
        }
        match self.6.after_parse(reader, options, &()) {
            Ok(()) => {},
            Err(e) => {
                return Err(e);
            },
        }
        match self.7.after_parse(reader, options, &()) {
            Ok(()) => {},
            Err(e) => {
                return Err(e);
            },
        }
        match self.8.after_parse(reader, options, &()) {
            Ok(()) => {},
            Err(e) => {
                return Err(e);
            },
        }
        match self.9.after_parse(reader, options, &()) {
            Ok(()) => {},
            Err(e) => {
                return Err(e);
            },
        }
        match self.10.after_parse(reader, options, &()) {
            Ok(()) => {},
            Err(e) => {
                return Err(e);
            },
        }
        match self.11.after_parse(reader, options, &()) {
            Ok(()) => {},
            Err(e) => {
                return Err(e);
            },
        }
        match self.12.after_parse(reader, options, &()) {
            Ok(()) => {},
            Err(e) => {
                return Err(e);
            },
        }
        match self.13.after_parse(reader, options, &()) {
            Ok(()) => {},
            Err(e) => {
                return Err(e);
            },
        }
        match self.14.after_parse(reader, options, &()) {
            Ok(()) => {},
            Err(e) => {
                return Err(e);
            },
        }
        match self.15.after_parse(reader, options, &()) {
            Ok(()) => {},
            Err(e) => {
                return Err(e);
            },
        }
        match self.16.after_parse(reader, options, &()) {
            Ok(()) => {},
            Err(e) => {
                return Err(e);
            },
        }
        match self.17.after_parse(reader, options, &()) {
            Ok(()) => {},
            Err(e) => {
                return Err(e);
            },
        }
        match self.18.after_parse(reader, options, &()) {
            Ok(()) => {},
            Err(e) => {
                return Err(e);
            },
        }
        match self.19.after_parse(reader, options, &()) {
            Ok(()) => {},
            Err(e) => {
                return Err(e);
            },
        }
        match self.20.after_parse(reader, options, &()) {
            Ok(()) => {},
            Err(e) => {
                return Err(e);
            },
        }
        match self.21.after_parse(reader, options, &()) {
            Ok(()) => {},
            Err(e) => {
                return Err(e);
            },
        }
        match self.22.after_parse(reader, options, &()) {
            Ok(()) => {},
            Err(e) => {
                return Err(e);
            },
        }
        match self.23.after_parse(reader, options, &()) {
            Ok(()) => {},
            Err(e) => {
                return Err(e);
            },
        }
        match self.24.after_parse(reader, options, &()) {
            Ok(()) => {},
            Err(e) => {
                return Err(e);
            },
        }
        self.25.after_parse(reader, options, &())
    }
}

/// The twenty-seven members of a tuple, one after the other.
pub open spec fn read_tuple27<A: BinRead<Args = ()>, B: BinRead<Args = ()>, C: BinRead<Args = ()>, D: BinRead<Args = ()>, E: BinRead<Args = ()>, F: BinRead<Args = ()>, G: BinRead<Args = ()>, H: BinRead<Args = ()>, I: BinRead<Args = ()>, J: BinRead<Args = ()>, K: BinRead<Args = ()>, L: BinRead<Args = ()>, M: BinRead<Args = ()>, N: BinRead<Args = ()>, O: BinRead<Args = ()>, P: BinRead<Args = ()>, Q: BinRead<Args = ()>, R: BinRead<Args = ()>, S: BinRead<Args = ()>, T: BinRead<Args = ()>, U: BinRead<Args = ()>, V: BinRead<Args = ()>, W: BinRead<Args = ()>, X: BinRead<Args = ()>, Y: BinRead<Args = ()>, Z: BinRead<Args = ()>, AA: BinRead<Args = ()>>(
    stream: Stream,
    options: OptionsView,
) -> Outcome<(A::Model, B::Model, C::Model, D::Model, E::Model, F::Model, G::Model, H::Model, I::Model, J::Model, K::Model, L::Model, M::Model, N::Model, O::Model, P::Model, Q::Model, R::Model, S::Model, T::Model, U::Model, V::Model, W::Model, X::Model, Y::Model, Z::Model, AA::Model)> {
    match A::read_spec(stream, options, ()) {
        Err(e) => Err(e),
        Ok((a, after_a)) => {
            match B::read_spec(stream.at(after_a), options, ()) {
                Err(e) => Err(e),
                Ok((b, after_b)) => {
                    match C::read_spec(stream.at(after_b), options, ()) {
                        Err(e) => Err(e),
                        Ok((c, after_c)) => {
                            match D::read_spec(stream.at(after_c), options, ()) {
                                Err(e) => Err(e),
                                Ok((d, after_d)) => {
                                    match E::read_spec(stream.at(after_d), options, ()) {
                                        Err(e) => Err(e),
                                        Ok((e, after_e)) => {
                                            match F::read_spec(stream.at(after_e), options, ()) {
                                                Err(e) => Err(e),
                                                Ok((f, after_f)) => {
                                                    match G::read_spec(stream.at(after_f), options, ()) {
                                                        Err(e) => Err(e),
                                                        Ok((g, after_g)) => {
                                                            match H::read_spec(stream.at(after_g), options, ()) {
                                                                Err(e) => Err(e),
                                                                Ok((h, after_h)) => {
                                                                    match I::read_spec(stream.at(after_h), options, ()) {
                                                                        Err(e) => Err(e),
                                                                        Ok((i, after_i)) => {
                                                                            match J::read_spec(stream.at(after_i), options, ()) {
                                                                                Err(e) => Err(e),
                                                                                Ok((j, after_j)) => {
                                                                                    match K::read_spec(stream.at(after_j), options, ()) {
                                                                                        Err(e) => Err(e),
                                                                                        Ok((k, after_k)) => {
                                                                                            match L::read_spec(stream.at(after_k), options, ()) {
                                                                                                Err(e) => Err(e),
                                                                                                Ok((l, after_l)) => {
                                                                                                    match M::read_spec(stream.at(after_l), options, ()) {
                                                                                                        Err(e) => Err(e),
                                                                                                        Ok((m, after_m)) => {
                                                                                                            match N::read_spec(stream.at(after_m), options, ()) {
                                                                                                                Err(e) => Err(e),
                                                                                                                Ok((n, after_n)) => {
                                                                                                                    match O::read_spec(stream.at(after_n), options, ()) {
                                                                                                                        Err(e) => Err(e),
                                                                                                                        Ok((o, after_o)) => {
                                                                                                                            match P::read_spec(stream.at(after_o), options, ()) {
                                                                                                                                Err(e) => Err(e),
                                                                                                                                Ok((p, after_p)) => {
                                                                                                                                    match Q::read_spec(stream.at(after_p), options, ()) {
                                                                                                                                        Err(e) => Err(e),
                                                                                                                                        Ok((q, after_q)) => {
                                                                                                                                            match R::read_spec(stream.at(after_q), options, ()) {
                                                                                                                                                Err(e) => Err(e),
                                                                                                                                                Ok((r, after_r)) => {
                                                                                                                                                    match S::read_spec(stream.at(after_r), options, ()) {
                                                                                                                                                        Err(e) => Err(e),
                                                                                                                                                        Ok((s, after_s)) => {
                                                                                                                                                            match T::read_spec(stream.at(after_s), options, ()) {
                                                                                                                                                                Err(e) => Err(e),
                                                                                                                                                                Ok((t, after_t)) => {
                                                                                                                                                                    match U::read_spec(stream.at(after_t), options, ()) {
                                                                                                                                                                        Err(e) => Err(e),
                                                                                                                                                                        Ok((u, after_u)) => {
                                                                                                                                                                            match V::read_spec(stream.at(after_u), options, ()) {
                                                                                                                                                                                Err(e) => Err(e),
                                                                                                                                                                                Ok((v, after_v)) => {
                                                                                                                                                                                    match W::read_spec(stream.at(after_v), options, ()) {
                                                                                                                                                                                        Err(e) => Err(e),
                                                                                                                                                                                        Ok((w, after_w)) => {
                                                                                                                                                                                            match X::read_spec(stream.at(after_w), options, ()) {
                                                                                                                                                                                                Err(e) => Err(e),
                                                                                                                                                                                                Ok((x, after_x)) => {
                                                                                                                                                                                                    match Y::read_spec(stream.at(after_x), options, ()) {
                                                                                                                                                                                                        Err(e) => Err(e),
                                                                                                                                                                                                        Ok((y, after_y)) => {
                                                                                                                                                                                                            match Z::read_spec(stream.at(after_y), options, ()) {
                                                                                                                                                                                                                Err(e) => Err(e),
                                                                                                                                                                                                                Ok((z, after_z)) => {
                                                                                                                                                                                                                    match AA::read_spec(stream.at(after_z), options, ()) {
                                                                                                                                                                                                                        Err(e) => Err(e),
                                                                                                                                                                                                                        Ok((aa, after_aa)) => Ok(((a, b, c, d, e, f, g, h, i, j, k, l, m, n, o, p, q, r, s, t, u, v, w, x, y, z, aa), after_aa)),
                                                                                                                                                                                                                    }
                                                                                                                                                                                                                },
                                                                                                                                                                                                            }
                                                                                                                                                                                                        },
                                                                                                                                                                                                    }
                                                                                                                                                                                                },
                                                                                                                                                                                            }
                                                                                                                                                                                        },
                                                                                                                                                                                    }
                                                                                                                                                                                },
                                                                                                                                                                            }
                                                                                                                                                                        },
                                                                                                                                                                    }
                                                                                                                                                                },
                                                                                                                                                            }
                                                                                                                                                        },
                                                                                                                                                    }
                                                                                                                                                },
                                                                                                                                            }
                                                                                                                                        },
                                                                                                                                    }
                                                                                                                                },
                                                                                                                            }
                                                                                                                        },
                                                                                                                    }
                                                                                                                },
                                                                                                            }
                                                                                                        },
                                                                                                    }
                                                                                                },
                                                                                            }
                                                                                        },
                                                                                    }
                                                                                },
                                                                            }
                                                                        },
                                                                    }
                                                                },
                                                            }
                                                        },
                                                    }
                                                },
                                            }
                                        },
                                    }
                                },
                            }
                        },
                    }
                },
            }
        },
    }
}

/// Phase two on the twenty-seven members of a tuple, in the order in which they were
/// read.
pub open spec fn resolve_tuple27<A: BinRead<Args = ()>, B: BinRead<Args = ()>, C: BinRead<Args = ()>, D: BinRead<Args = ()>, E: BinRead<Args = ()>, F: BinRead<Args = ()>, G: BinRead<Args = ()>, H: BinRead<Args = ()>, I: BinRead<Args = ()>, J: BinRead<Args = ()>, K: BinRead<Args = ()>, L: BinRead<Args = ()>, M: BinRead<Args = ()>, N: BinRead<Args = ()>, O: BinRead<Args = ()>, P: BinRead<Args = ()>, Q: BinRead<Args = ()>, R: BinRead<Args = ()>, S: BinRead<Args = ()>, T: BinRead<Args = ()>, U: BinRead<Args = ()>, V: BinRead<Args = ()>, W: BinRead<Args = ()>, X: BinRead<Args = ()>, Y: BinRead<Args = ()>, Z: BinRead<Args = ()>, AA: BinRead<Args = ()>>(
    model: (A::Model, B::Model, C::Model, D::Model, E::Model, F::Model, G::Model, H::Model, I::Model, J::Model, K::Model, L::Model, M::Model, N::Model, O::Model, P::Model, Q::Model, R::Model, S::Model, T::Model, U::Model, V::Model, W::Model, X::Model, Y::Model, Z::Model, AA::Model),
    data: Seq<u8>,
    options: OptionsView,
) -> Resolved<(A::Model, B::Model, C::Model, D::Model, E::Model, F::Model, G::Model, H::Model, I::Model, J::Model, K::Model, L::Model, M::Model, N::Model, O::Model, P::Model, Q::Model, R::Model, S::Model, T::Model, U::Model, V::Model, W::Model, X::Model, Y::Model, Z::Model, AA::Model)> {
    match A::resolve_spec(model.0, data, options, ()) {
        Err(e) => Err(e),
        Ok(a) => {
            match B::resolve_spec(model.1, data, options, ()) {
                Err(e) => Err(e),
                Ok(b) => {
                    match C::resolve_spec(model.2, data, options, ()) {
                        Err(e) => Err(e),
                        Ok(c) => {
                            match D::resolve_spec(model.3, data, options, ()) {
                                Err(e) => Err(e),
                                Ok(d) => {
                                    match E::resolve_spec(model.4, data, options, ()) {
                                        Err(e) => Err(e),
                                        Ok(e) => {
                                            match F::resolve_spec(model.5, data, options, ()) {
                                                Err(e) => Err(e),
                                                Ok(f) => {
                                                    match G::resolve_spec(model.6, data, options, ()) {
                                                        Err(e) => Err(e),
                                                        Ok(g) => {
                                                            match H::resolve_spec(model.7, data, options, ()) {
                                                                Err(e) => Err(e),
                                                                Ok(h) => {
                                                                    match I::resolve_spec(model.8, data, options, ()) {
                                                                        Err(e) => Err(e),
                                                                        Ok(i) => {
                                                                            match J::resolve_spec(model.9, data, options, ()) {
                                                                                Err(e) => Err(e),
                                                                                Ok(j) => {
                                                                                    match K::resolve_spec(model.10, data, options, ()) {
                                                                                        Err(e) => Err(e),
                                                                                        Ok(k) => {
                                                                                            match L::resolve_spec(model.11, data, options, ()) {
                                                                                                Err(e) => Err(e),
                                                                                                Ok(l) => {
                                                                                                    match M::resolve_spec(model.12, data, options, ()) {
                                                                                                        Err(e) => Err(e),
                                                                                                        Ok(m) => {
                                                                                                            match N::resolve_spec(model.13, data, options, ()) {
                                                                                                                Err(e) => Err(e),
                                                                                                                Ok(n) => {
                                                                                                                    match O::resolve_spec(model.14, data, options, ()) {
                                                                                                                        Err(e) => Err(e),
                                                                                                                        Ok(o) => {
                                                                                                                            match P::resolve_spec(model.15, data, options, ()) {
                                                                                                                                Err(e) => Err(e),
                                                                                                                                Ok(p) => {
                                                                                                                                    match Q::resolve_spec(model.16, data, options, ()) {
                                                                                                                                        Err(e) => Err(e),
                                                                                                                                        Ok(q) => {
                                                                                                                                            match R::resolve_spec(model.17, data, options, ()) {
                                                                                                                                                Err(e) => Err(e),
                                                                                                                                                Ok(r) => {
                                                                                                                                                    match S::resolve_spec(model.18, data, options, ()) {
                                                                                                                                                        Err(e) => Err(e),
                                                                                                                                                        Ok(s) => {
                                                                                                                                                            match T::resolve_spec(model.19, data, options, ()) {
                                                                                                                                                                Err(e) => Err(e),
                                                                                                                                                                Ok(t) => {
                                                                                                                                                                    match U::resolve_spec(model.20, data, options, ()) {
                                                                                                                                                                        Err(e) => Err(e),
                                                                                                                                                                        Ok(u) => {
                                                                                                                                                                            match V::resolve_spec(model.21, data, options, ()) {
                                                                                                                                                                                Err(e) => Err(e),
                                                                                                                                                                                Ok(v) => {
                                                                                                                                                                                    match W::resolve_spec(model.22, data, options, ()) {
                                                                                                                                                                                        Err(e) => Err(e),
                                                                                                                                                                                        Ok(w) => {
                                                                                                                                                                                            match X::resolve_spec(model.23, data, options, ()) {
                                                                                                                                                                                                Err(e) => Err(e),
                                                                                                                                                                                                Ok(x) => {
                                                                                                                                                                                                    match Y::resolve_spec(model.24, data, options, ()) {
                                                                                                                                                                                                        Err(e) => Err(e),
                                                                                                                                                                                                        Ok(y) => {
                                                                                                                                                                                                            match Z::resolve_spec(model.25, data, options, ()) {
                                                                                                                                                                                                                Err(e) => Err(e),
                                                                                                                                                                                                                Ok(z) => {
                                                                                                                                                                                                                    match AA::resolve_spec(model.26, data, options, ()) {
                                                                                                                                                                                                                        Err(e) => Err(e),
                                                                                                                                                                                                                        Ok(aa) => Ok((a, b, c, d, e, f, g, h, i, j, k, l, m, n, o, p, q, r, s, t, u, v, w, x, y, z, aa)),
                                                                                                                                                                                                                    }
                                                                                                                                                                                                                },
                                                                                                                                                                                                            }
                                                                                                                                                                                                        },
                                                                                                                                                                                                    }
                                                                                                                                                                                                },
                                                                                                                                                                                            }
                                                                                                                                                                                        },
                                                                                                                                                                                    }
                                                                                                                                                                                },
                                                                                                                                                                            }
                                                                                                                                                                        },
                                                                                                                                                                    }
                                                                                                                                                                },
                                                                                                                                                            }
                                                                                                                                                        },
                                                                                                                                                    }
                                                                                                                                                },
                                                                                                                                            }
                                                                                                                                        },
                                                                                                                                    }
                                                                                                                                },
                                                                                                                            }
                                                                                                                        },
                                                                                                                    }
                                                                                                                },
                                                                                                            }
                                                                                                        },
                                                                                                    }
                                                                                                },
                                                                                            }
                                                                                        },
                                                                                    }
                                                                                },
                                                                            }
                                                                        },
                                                                    }
                                                                },
                                                            }
                                                        },
                                                    }
                                                },
                                            }
                                        },
                                    }
                                },
                            }
                        },
                    }
                },
            }
        },
    }
}

impl<A: BinRead<Args = ()>, B: BinRead<Args = ()>, C: BinRead<Args = ()>, D: BinRead<Args = ()>, E: BinRead<Args = ()>, F: BinRead<Args = ()>, G: BinRead<Args = ()>, H: BinRead<Args = ()>, I: BinRead<Args = ()>, J: BinRead<Args = ()>, K: BinRead<Args = ()>, L: BinRead<Args = ()>, M: BinRead<Args = ()>, N: BinRead<Args = ()>, O: BinRead<Args = ()>, P: BinRead<Args = ()>, Q: BinRead<Args = ()>, R: BinRead<Args = ()>, S: BinRead<Args = ()>, T: BinRead<Args = ()>, U: BinRead<Args = ()>, V: BinRead<Args = ()>, W: BinRead<Args = ()>, X: BinRead<Args = ()>, Y: BinRead<Args = ()>, Z: BinRead<Args = ()>, AA: BinRead<Args = ()>> BinRead for (A, B, C, D, E, F, G, H, I, J, K, L, M, N, O, P, Q, R, S, T, U, V, W, X, Y, Z, AA) {
    type Args = ();

    type Model = (A::Model, B::Model, C::Model, D::Model, E::Model, F::Model, G::Model, H::Model, I::Model, J::Model, K::Model, L::Model, M::Model, N::Model, O::Model, P::Model, Q::Model, R::Model, S::Model, T::Model, U::Model, V::Model, W::Model, X::Model, Y::Model, Z::Model, AA::Model);

    open spec fn model(&self) -> (A::Model, B::Model, C::Model, D::Model, E::Model, F::Model, G::Model, H::Model, I::Model, J::Model, K::Model, L::Model, M::Model, N::Model, O::Model, P::Model, Q::Model, R::Model, S::Model, T::Model, U::Model, V::Model, W::Model, X::Model, Y::Model, Z::Model, AA::Model) {
        (self.0.model(), self.1.model(), self.2.model(), self.3.model(), self.4.model(), self.5.model(), self.6.model(), self.7.model(), self.8.model(), self.9.model(), self.10.model(), self.11.model(), self.12.model(), self.13.model(), self.14.model(), self.15.model(), self.16.model(), self.17.model(), self.18.model(), self.19.model(), self.20.model(), self.21.model(), self.22.model(), self.23.model(), self.24.model(), self.25.model(), self.26.model())
    }

    open spec fn read_spec(stream: Stream, options: OptionsView, args: ()) -> Outcome<
        (A::Model, B::Model, C::Model, D::Model, E::Model, F::Model, G::Model, H::Model, I::Model, J::Model, K::Model, L::Model, M::Model, N::Model, O::Model, P::Model, Q::Model, R::Model, S::Model, T::Model, U::Model, V::Model, W::Model, X::Model, Y::Model, Z::Model, AA::Model),
    > {
        read_tuple27::<A, B, C, D, E, F, G, H, I, J, K, L, M, N, O, P, Q, R, S, T, U, V, W, X, Y, Z, AA>(stream, options)
    }

    open spec fn resolve_spec(
        model: (A::Model, B::Model, C::Model, D::Model, E::Model, F::Model, G::Model, H::Model, I::Model, J::Model, K::Model, L::Model, M::Model, N::Model, O::Model, P::Model, Q::Model, R::Model, S::Model, T::Model, U::Model, V::Model, W::Model, X::Model, Y::Model, Z::Model, AA::Model),
        data: Seq<u8>,
        options: OptionsView,
        args: (),
    ) -> Resolved<(A::Model, B::Model, C::Model, D::Model, E::Model, F::Model, G::Model, H::Model, I::Model, J::Model, K::Model, L::Model, M::Model, N::Model, O::Model, P::Model, Q::Model, R::Model, S::Model, T::Model, U::Model, V::Model, W::Model, X::Model, Y::Model, Z::Model, AA::Model)> {
        resolve_tuple27::<A, B, C, D, E, F, G, H, I, J, K, L, M, N, O, P, Q, R, S, T, U, V, W, X, Y, Z, AA>(model, data, options)
    }

    fn read_options(reader: &mut Cursor, options: &ReadOptions, args: &()) -> (r: BinResult<
        (A, B, C, D, E, F, G, H, I, J, K, L, M, N, O, P, Q, R, S, T, U, V, W, X, Y, Z, AA),
    >) {
        assert(reader@ == old(reader)@.at(reader@.pos));
        let a: A = match A::read_options(reader, options, &()) {
            Ok(v) => v,
            Err(e) => {
                return Err(e);
            },
        };
        assert(reader@ == old(reader)@.at(reader@.pos));
        let b: B = match B::read_options(reader, options, &()) {
            Ok(v) => v,
            Err(e) => {
                return Err(e);
            },
        };
        assert(reader@ == old(reader)@.at(reader@.pos));
        let c: C = match C::read_options(reader, options, &()) {
            Ok(v) => v,
            Err(e) => {
                return Err(e);
            },
        };
        assert(reader@ == old(reader)@.at(reader@.pos));
        let d: D = match D::read_options(reader, options, &()) {
            Ok(v) => v,
            Err(e) => {
                return Err(e);
            },
        };
        assert(reader@ == old(reader)@.at(reader@.pos));
        let e: E = match E::read_options(reader, options, &()) {
            Ok(v) => v,
            Err(e) => {
                return Err(e);
            },
        };
        assert(reader@ == old(reader)@.at(reader@.pos));
        let f: F = match F::read_options(reader, options, &()) {
            Ok(v) => v,
            Err(e) => {
                return Err(e);
            },
        };
        assert(reader@ == old(reader)@.at(reader@.pos));
        let g: G = match G::read_options(reader, options, &()) {
            Ok(v) => v,
            Err(e) => {
                return Err(e);
            },
        };
        assert(reader@ == old(reader)@.at(reader@.pos));
        let h: H = match H::read_options(reader, options, &()) {
            Ok(v) => v,
            Err(e) => {
                return Err(e);
            },
        };
        assert(reader@ == old(reader)@.at(reader@.pos));
        let i: I = match I::read_options(reader, options, &()) {
            Ok(v) => v,
            Err(e) => {
                return Err(e);
            },
        };
        assert(reader@ == old(reader)@.at(reader@.pos));
        let j: J = match J::read_options(reader, options, &()) {
            Ok(v) => v,
            Err(e) => {
                return Err(e);
            },
        };
        assert(reader@ == old(reader)@.at(reader@.pos));
        let k: K = match K::read_options(reader, options, &()) {
            Ok(v) => v,
            Err(e) => {
                return Err(e);
            },
        };
        assert(reader@ == old(reader)@.at(reader@.pos));
        let l: L = match L::read_options(reader, options, &()) {
            Ok(v) => v,
            Err(e) => {
                return Err(e);
            },
        };
        assert(reader@ == old(reader)@.at(reader@.pos));
        let m: M = match M::read_options(reader, options, &()) {
            Ok(v) => v,
            Err(e) => {
                return Err(e);
            },
        };
        assert(reader@ == old(reader)@.at(reader@.pos));
        let n: N = match N::read_options(reader, options, &()) {
            Ok(v) => v,
            Err(e) => {
                return Err(e);
            },
        };
        assert(reader@ == old(reader)@.at(reader@.pos));
        let o: O = match O::read_options(reader, options, &()) {
            Ok(v) => v,
            Err(e) => {
                return Err(e);
            },
        };
        assert(reader@ == old(reader)@.at(reader@.pos));
        let p: P = match P::read_options(reader, options, &()) {
            Ok(v) => v,
            Err(e) => {
                return Err(e);
            },
        };
        assert(reader@ == old(reader)@.at(reader@.pos));
        let q: Q = match Q::read_options(reader, options, &()) {
            Ok(v) => v,
            Err(e) => {
                return Err(e);
            },
        };
        assert(reader@ == old(reader)@.at(reader@.pos));
        let r: R = match R::read_options(reader, options, &()) {
            Ok(v) => v,
            Err(e) => {
                return Err(e);
            },
        };
        assert(reader@ == old(reader)@.at(reader@.pos));
        let s: S = match S::read_options(reader, options, &()) {
            Ok(v) => v,
            Err(e) => {
                return Err(e);
            },
        };
        assert(reader@ == old(reader)@.at(reader@.pos));
        let t: T = match T::read_options(reader, options, &()) {
            Ok(v) => v,
            Err(e) => {
                return Err(e);
            },
        };
        assert(reader@ == old(reader)@.at(reader@.pos));
        let u: U = match U::read_options(reader, options, &()) {
            Ok(v) => v,
            Err(e) => {
                return Err(e);
            },
        };
        assert(reader@ == old(reader)@.at(reader@.pos));
        let v: V = match V::read_options(reader, options, &()) {
            Ok(v) => v,
            Err(e) => {
                return Err(e);
            },
        };
        assert(reader@ == old(reader)@.at(reader@.pos));
        let w: W = match W::read_options(reader, options, &()) {
            Ok(v) => v,
            Err(e) => {
                return Err(e);
            },
        };
        assert(reader@ == old(reader)@.at(reader@.pos));
        let x: X = match X::read_options(reader, options, &()) {
            Ok(v) => v,
            Err(e) => {
                return Err(e);
            },
        };
        assert(reader@ == old(reader)@.at(reader@.pos));
        let y: Y = match Y::read_options(reader, options, &()) {
            Ok(v) => v,
            Err(e) => {
                return Err(e);
            },
        };
        assert(reader@ == old(reader)@.at(reader@.pos));
        let z: Z = match Z::read_options(reader, options, &()) {
            Ok(v) => v,
            Err(e) => {
                return Err(e);
            },
        };
        assert(reader@ == old(reader)@.at(reader@.pos));
        let aa: AA = match AA::read_options(reader, options, &()) {
            Ok(v) => v,
            Err(e) => {
                return Err(e);
            },
        };
        Ok((a, b, c, d, e, f, g, h, i, j, k, l, m, n, o, p, q, r, s, t, u, v, w, x, y, z, aa))
    }

    fn after_parse(&mut self, reader: &mut Cursor, options: &ReadOptions, args: &()) -> (r:
        BinResult<()>) {
        match self.0.after_parse(reader, options, &()) {
            Ok(()) => {},
            Err(e) => {
                return Err(e);
            },
        }
        match self.1.after_parse(reader, options, &()) {
            Ok(()) => {},
            Err(e) => {
                return Err(e);
            },
        }
        match self.2.after_parse(reader, options, &()) {
            Ok(()) => {},
            Err(e) => {
                return Err(e);
            },
        }
        match self.3.after_parse(reader, options, &()) {
            Ok(()) => {},
            Err(e) => {
                return Err(e);
            },
        }
        match self.4.after_parse(reader, options, &()) {
            Ok(()) => {},
            Err(e) => {
                return Err(e);
            },
        }
        match self.5.after_parse(reader, options, &()) {
            Ok(()) => {},
            Err(e) => {
                return Err(e);
            },
        }
        match self.6.after_parse(reader, options, &()) {
            Ok(()) => {},
            Err(e) => {
                return Err(e);
            },
        }
        match self.7.after_parse(reader, options, &()) {
            Ok(()) => {},
            Err(e) => {
                return Err(e);
            },
        }
        match self.8.after_parse(reader, options, &()) {
            Ok(()) => {},
            Err(e) => {
                return Err(e);
            },
        }
        match self.9.after_parse(reader, options, &()) {
            Ok(()) => {},
            Err(e) => {
                return Err(e);
            },
        }
        match self.10.after_parse(reader, options, &()) {
            Ok(()) => {},
            Err(e) => {
                return Err(e);
            },
        }
        match self.11.after_parse(reader, options, &()) {
            Ok(()) => {},
            Err(e) => {
                return Err(e);
            },
        }
        match self.12.after_parse(reader, options, &()) {
            Ok(()) => {},
            Err(e) => {
                return Err(e);
            },
        }
        match self.13.after_parse(reader, options, &()) {
            Ok(()) => {},
            Err(e) => {
                return Err(e);
            },
        }
        match self.14.after_parse(reader, options, &()) {
            Ok(()) => {},
            Err(e) => {
                return Err(e);
            },
        }
        match self.15.after_parse(reader, options, &()) {
            Ok(()) => {},
            Err(e) => {
                return Err(e);
            },
        }
        match self.16.after_parse(reader, options, &()) {
            Ok(()) => {},
            Err(e) => {
                return Err(e);
            },
        }
        match self.17.after_parse(reader, options, &()) {
            Ok(()) => {},
            Err(e) => {
                return Err(e);
            },
        }
        match self.18.after_parse(reader, options, &()) {
            Ok(()) => {},
            Err(e) => {
                return Err(e);
            },
        }
        match self.19.after_parse(reader, options, &()) {
            Ok(()) => {},
            Err(e) => {
                return Err(e);
            },
        }
        match self.20.after_parse(reader, options, &()) {
            Ok(()) => {},
            Err(e) => {
                return Err(e);
            },
        }
        match self.21.after_parse(reader, options, &()) {
            Ok(()) => {},
            Err(e) => {
                return Err(e);
            },
        }
        match self.22.after_parse(reader, options, &()) {
            Ok(()) => {},
            Err(e) => {
                return Err(e);
            },
        }
        match self.23.after_parse(reader, options, &()) {
            Ok(()) => {},
            Err(e) => {
                return Err(e);
            },
        }
        match self.24.after_parse(reader, options, &()) {
            Ok(()) => {},
            Err(e) => {
                return Err(e);
            },
        }
        match self.25.after_parse(reader, options, &()) {
            Ok(()) => {},
            Err(e) => {
                return Err(e);
            },
        }
        self.26.after_parse(reader, options, &())
    }
}

/// The twenty-eight members of a tuple, one after the other.
pub open spec fn read_tuple28<A: BinRead<Args = ()>, B: BinRead<Args = ()>, C: BinRead<Args = ()>, D: BinRead<Args = ()>, E: BinRead<Args = ()>, F: BinRead<Args = ()>, G: BinRead<Args = ()>, H: BinRead<Args = ()>, I: BinRead<Args = ()>, J: BinRead<Args = ()>, K: BinRead<Args = ()>, L: BinRead<Args = ()>, M: BinRead<Args = ()>, N: BinRead<Args = ()>, O: BinRead<Args = ()>, P: BinRead<Args = ()>, Q: BinRead<Args = ()>, R: BinRead<Args = ()>, S: BinRead<Args = ()>, T: BinRead<Args = ()>, U: BinRead<Args = ()>, V: BinRead<Args = ()>, W: BinRead<Args = ()>, X: BinRead<Args = ()>, Y: BinRead<Args = ()>, Z: BinRead<Args = ()>, AA: BinRead<Args = ()>, AB: BinRead<Args = ()>>(
    stream: Stream,
    options: OptionsView,
) -> Outcome<(A::Model, B::Model, C::Model, D::Model, E::Model, F::Model, G::Model, H::Model, I::Model, J::Model, K::Model, L::Model, M::Model, N::Model, O::Model, P::Model, Q::Model, R::Model, S::Model, T::Model, U::Model, V::Model, W::Model, X::Model, Y::Model, Z::Model, AA::Model, AB::Model)> {
    match A::read_spec(stream, options, ()) {
        Err(e) => Err(e),
        Ok((a, after_a)) => {
            match B::read_spec(stream.at(after_a), options, ()) {
                Err(e) => Err(e),
                Ok((b, after_b)) => {
                    match C::read_spec(stream.at(after_b), options, ()) {
                        Err(e) => Err(e),
                        Ok((c, after_c)) => {
                            match D::read_spec(stream.at(after_c), options, ()) {
                                Err(e) => Err(e),
                                Ok((d, after_d)) => {
                                    match E::read_spec(stream.at(after_d), options, ()) {
                                        Err(e) => Err(e),
                                        Ok((e, after_e)) => {
                                            match F::read_spec(stream.at(after_e), options, ()) {
                                                Err(e) => Err(e),
                                                Ok((f, after_f)) => {
                                                    match G::read_spec(stream.at(after_f), options, ()) {
                                                        Err(e) => Err(e),
                                                        Ok((g, after_g)) => {
                                                            match H::read_spec(stream.at(after_g), options, ()) {
                                                                Err(e) => Err(e),
                                                                Ok((h, after_h)) => {
                                                                    match I::read_spec(stream.at(after_h), options, ()) {
                                                                        Err(e) => Err(e),
                                                                        Ok((i, after_i)) => {
                                                                            match J::read_spec(stream.at(after_i), options, ()) {
                                                                                Err(e) => Err(e),
                                                                                Ok((j, after_j)) => {
                                                                                    match K::read_spec(stream.at(after_j), options, ()) {
                                                                                        Err(e) => Err(e),
                                                                                        Ok((k, after_k)) => {
                                                                                            match L::read_spec(stream.at(after_k), options, ()) {
                                                                                                Err(e) => Err(e),
                                                                                                Ok((l, after_l)) => {
                                                                                                    match M::read_spec(stream.at(after_l), options, ()) {
                                                                                                        Err(e) => Err(e),
                                                                                                        Ok((m, after_m)) => {
                                                                                                            match N::read_spec(stream.at(after_m), options, ()) {
                                                                                                                Err(e) => Err(e),
                                                                                                                Ok((n, after_n)) => {
                                                                                                                    match O::read_spec(stream.at(after_n), options, ()) {
                                                                                                                        Err(e) => Err(e),
                                                                                                                        Ok((o, after_o)) => {
                                                                                                                            match P::read_spec(stream.at(after_o), options, ()) {
                                                                                                                                Err(e) => Err(e),
                                                                                                                                Ok((p, after_p)) => {
                                                                                                                                    match Q::read_spec(stream.at(after_p), options, ()) {
                                                                                                                                        Err(e) => Err(e),
                                                                                                                                        Ok((q, after_q)) => {
                                                                                                                                            match R::read_spec(stream.at(after_q), options, ()) {
                                                                                                                                                Err(e) => Err(e),
                                                                                                                                                Ok((r, after_r)) => {
                                                                                                                                                    match S::read_spec(stream.at(after_r), options, ()) {
                                                                                                                                                        Err(e) => Err(e),
                                                                                                                                                        Ok((s, after_s)) => {
                                                                                                                                                            match T::read_spec(stream.at(after_s), options, ()) {
                                                                                                                                                                Err(e) => Err(e),
                                                                                                                                                                Ok((t, after_t)) => {
                                                                                                                                                                    match U::read_spec(stream.at(after_t), options, ()) {
                                                                                                                                                                        Err(e) => Err(e),
                                                                                                                                                                        Ok((u, after_u)) => {
                                                                                                                                                                            match V::read_spec(stream.at(after_u), options, ()) {
                                                                                                                                                                                Err(e) => Err(e),
                                                                                                                                                                                Ok((v, after_v)) => {
                                                                                                                                                                                    match W::read_spec(stream.at(after_v), options, ()) {
                                                                                                                                                                                        Err(e) => Err(e),
                                                                                                                                                                                        Ok((w, after_w)) => {
                                                                                                                                                                                            match X::read_spec(stream.at(after_w), options, ()) {
                                                                                                                                                                                                Err(e) => Err(e),
                                                                                                                                                                                                Ok((x, after_x)) => {
                                                                                                                                                                                                    match Y::read_spec(stream.at(after_x), options, ()) {
                                                                                                                                                                                                        Err(e) => Err(e),
                                                                                                                                                                                                        Ok((y, after_y)) => {
                                                                                                                                                                                                            match Z::read_spec(stream.at(after_y), options, ()) {
                                                                                                                                                                                                                Err(e) => Err(e),
                                                                                                                                                                                                                Ok((z, after_z)) => {
                                                                                                                                                                                                                    match AA::read_spec(stream.at(after_z), options, ()) {
                                                                                                                                                                                                                        Err(e) => Err(e),
                                                                                                                                                                                                                        Ok((aa, after_aa)) => {
                                                                                                                                                                                                                            match AB::read_spec(stream.at(after_aa), options, ()) {
                                                                                                                                                                                                                                Err(e) => Err(e),
                                                                                                                                                                                                                                Ok((ab, after_ab)) => Ok(((a, b, c, d, e, f, g, h, i, j, k, l, m, n, o, p, q, r, s, t, u, v, w, x, y, z, aa, ab), after_ab)),
                                                                                                                                                                                                                            }
                                                                                                                                                                                                                        },
                                                                                                                                                                                                                    }
                                                                                                                                                                                                                },
                                                                                                                                                                                                            }
                                                                                                                                                                                                        },
                                                                                                                                                                                                    }
                                                                                                                                                                                                },
                                                                                                                                                                                            }
                                                                                                                                                                                        },
                                                                                                                                                                                    }
                                                                                                                                                                                },
                                                                                                                                                                            }
                                                                                                                                                                        },
                                                                                                                                                                    }
                                                                                                                                                                },
                                                                                                                                                            }
                                                                                                                                                        },
                                                                                                                                                    }
                                                                                                                                                },
                                                                                                                                            }
                                                                                                                                        },
                                                                                                                                    }
                                                                                                                                },
                                                                                                                            }
                                                                                                                        },
                                                                                                                    }
                                                                                                                },
                                                                                                            }
                                                                                                        },
                                                                                                    }
                                                                                                },
                                                                                            }
                                                                                        },
                                                                                    }
                                                                                },
                                                                            }
                                                                        },
                                                                    }
                                                                },
                                                            }
                                                        },
                                                    }
                                                },
                                            }
                                        },
                                    }
                                },
                            }
                        },
                    }
                },
            }
        },
    }
}

/// Phase two on the twenty-eight members of a tuple, in the order in which they were
/// read.
pub open spec fn resolve_tuple28<A: BinRead<Args = ()>, B: BinRead<Args = ()>, C: BinRead<Args = ()>, D: BinRead<Args = ()>, E: BinRead<Args = ()>, F: BinRead<Args = ()>, G: BinRead<Args = ()>, H: BinRead<Args = ()>, I: BinRead<Args = ()>, J: BinRead<Args = ()>, K: BinRead<Args = ()>, L: BinRead<Args = ()>, M: BinRead<Args = ()>, N: BinRead<Args = ()>, O: BinRead<Args = ()>, P: BinRead<Args = ()>, Q: BinRead<Args = ()>, R: BinRead<Args = ()>, S: BinRead<Args = ()>, T: BinRead<Args = ()>, U: BinRead<Args = ()>, V: BinRead<Args = ()>, W: BinRead<Args = ()>, X: BinRead<Args = ()>, Y: BinRead<Args = ()>, Z: BinRead<Args = ()>, AA: BinRead<Args = ()>, AB: BinRead<Args = ()>>(
    model: (A::Model, B::Model, C::Model, D::Model, E::Model, F::Model, G::Model, H::Model, I::Model, J::Model, K::Model, L::Model, M::Model, N::Model, O::Model, P::Model, Q::Model, R::Model, S::Model, T::Model, U::Model, V::Model, W::Model, X::Model, Y::Model, Z::Model, AA::Model, AB::Model),
    data: Seq<u8>,
    options: OptionsView,
) -> Resolved<(A::Model, B::Model, C::Model, D::Model, E::Model, F::Model, G::Model, H::Model, I::Model, J::Model, K::Model, L::Model, M::Model, N::Model, O::Model, P::Model, Q::Model, R::Model, S::Model, T::Model, U::Model, V::Model, W::Model, X::Model, Y::Model, Z::Model, AA::Model, AB::Model)> {
    match A::resolve_spec(model.0, data, options, ()) {
        Err(e) => Err(e),
        Ok(a) => {
            match B::resolve_spec(model.1, data, options, ()) {
                Err(e) => Err(e),
                Ok(b) => {
                    match C::resolve_spec(model.2, data, options, ()) {
                        Err(e) => Err(e),
                        Ok(c) => {
                            match D::resolve_spec(model.3, data, options, ()) {
                                Err(e) => Err(e),
                                Ok(d) => {
                                    match E::resolve_spec(model.4, data, options, ()) {
                                        Err(e) => Err(e),
                                        Ok(e) => {
                                            match F::resolve_spec(model.5, data, options, ()) {
                                                Err(e) => Err(e),
                                                Ok(f) => {
                                                    match G::resolve_spec(model.6, data, options, ()) {
                                                        Err(e) => Err(e),
                                                        Ok(g) => {
                                                            match H::resolve_spec(model.7, data, options, ()) {
                                                                Err(e) => Err(e),
                                                                Ok(h) => {
                                                                    match I::resolve_spec(model.8, data, options, ()) {
                                                                        Err(e) => Err(e),
                                                                        Ok(i) => {
                                                                            match J::resolve_spec(model.9, data, options, ()) {
                                                                                Err(e) => Err(e),
                                                                                Ok(j) => {
                                                                                    match K::resolve_spec(model.10, data, options, ()) {
                                                                                        Err(e) => Err(e),
                                                                                        Ok(k) => {
                                                                                            match L::resolve_spec(model.11, data, options, ()) {
                                                                                                Err(e) => Err(e),
                                                                                                Ok(l) => {
                                                                                                    match M::resolve_spec(model.12, data, options, ()) {
                                                                                                        Err(e) => Err(e),
                                                                                                        Ok(m) => {
                                                                                                            match N::resolve_spec(model.13, data, options, ()) {
                                                                                                                Err(e) => Err(e),
                                                                                                                Ok(n) => {
                                                                                                                    match O::resolve_spec(model.14, data, options, ()) {
                                                                                                                        Err(e) => Err(e),
                                                                                                                        Ok(o) => {
                                                                                                                            match P::resolve_spec(model.15, data, options, ()) {
                                                                                                                                Err(e) => Err(e),
                                                                                                                                Ok(p) => {
                                                                                                                                    match Q::resolve_spec(model.16, data, options, ()) {
                                                                                                                                        Err(e) => Err(e),
                                                                                                                                        Ok(q) => {
                                                                                                                                            match R::resolve_spec(model.17, data, options, ()) {
                                                                                                                                                Err(e) => Err(e),
                                                                                                                                                Ok(r) => {
                                                                                                                                                    match S::resolve_spec(model.18, data, options, ()) {
                                                                                                                                                        Err(e) => Err(e),
                                                                                                                                                        Ok(s) => {
                                                                                                                                                            match T::resolve_spec(model.19, data, options, ()) {
                                                                                                                                                                Err(e) => Err(e),
                                                                                                                                                                Ok(t) => {
                                                                                                                                                                    match U::resolve_spec(model.20, data, options, ()) {
                                                                                                                                                                        Err(e) => Err(e),
                                                                                                                                                                        Ok(u) => {
                                                                                                                                                                            match V::resolve_spec(model.21, data, options, ()) {
                                                                                                                                                                                Err(e) => Err(e),
                                                                                                                                                                                Ok(v) => {
                                                                                                                                                                                    match W::resolve_spec(model.22, data, options, ()) {
                                                                                                                                                                                        Err(e) => Err(e),
                                                                                                                                                                                        Ok(w) => {
                                                                                                                                                                                            match X::resolve_spec(model.23, data, options, ()) {
                                                                                                                                                                                                Err(e) => Err(e),
                                                                                                                                                                                                Ok(x) => {
                                                                                                                                                                                                    match Y::resolve_spec(model.24, data, options, ()) {
                                                                                                                                                                                                        Err(e) => Err(e),
                                                                                                                                                                                                        Ok(y) => {
                                                                                                                                                                                                            match Z::resolve_spec(model.25, data, options, ()) {
                                                                                                                                                                                                                Err(e) => Err(e),
                                                                                                                                                                                                                Ok(z) => {
                                                                                                                                                                                                                    match AA::resolve_spec(model.26, data, options, ()) {
                                                                                                                                                                                                                        Err(e) => Err(e),
                                                                                                                                                                                                                        Ok(aa) => {
                                                                                                                                                                                                                            match AB::resolve_spec(model.27, data, options, ()) {
                                                                                                                                                                                                                                Err(e) => Err(e),
                                                                                                                                                                                                                                Ok(ab) => Ok((a, b, c, d, e, f, g, h, i, j, k, l, m, n, o, p, q, r, s, t, u, v, w, x, y, z, aa, ab)),
                                                                                                                                                                                                                            }
                                                                                                                                                                                                                        },
                                                                                                                                                                                                                    }
                                                                                                                                                                                                                },
                                                                                                                                                                                                            }
                                                                                                                                                                                                        },
                                                                                                                                                                                                    }
                                                                                                                                                                                                },
                                                                                                                                                                                            }
                                                                                                                                                                                        },
                                                                                                                                                                                    }
                                                                                                                                                                                },
                                                                                                                                                                            }
                                                                                                                                                                        },
                                                                                                                                                                    }
                                                                                                                                                                },
                                                                                                                                                            }
                                                                                                                                                        },
                                                                                                                                                    }
                                                                                                                                                },
                                                                                                                                            }
                                                                                                                                        },
                                                                                                                                    }
                                                                                                                                },
                                                                                                                            }
                                                                                                                        },
                                                                                                                    }
                                                                                                                },
                                                                                                            }
                                                                                                        },
                                                                                                    }
                                                                                                },
                                                                                            }
                                                                                        },
                                                                                    }
                                                                                },
                                                                            }
                                                                        },
                                                                    }
                                                                },
                                                            }
                                                        },
                                                    }
                                                },
                                            }
                                        },
                                    }
                                },
                            }
                        },
                    }
                },
            }
        },
    }
}

impl<A: BinRead<Args = ()>, B: BinRead<Args = ()>, C: BinRead<Args = ()>, D: BinRead<Args = ()>, E: BinRead<Args = ()>, F: BinRead<Args = ()>, G: BinRead<Args = ()>, H: BinRead<Args = ()>, I: BinRead<Args = ()>, J: BinRead<Args = ()>, K: BinRead<Args = ()>, L: BinRead<Args = ()>, M: BinRead<Args = ()>, N: BinRead<Args = ()>, O: BinRead<Args = ()>, P: BinRead<Args = ()>, Q: BinRead<Args = ()>, R: BinRead<Args = ()>, S: BinRead<Args = ()>, T: BinRead<Args = ()>, U: BinRead<Args = ()>, V: BinRead<Args = ()>, W: BinRead<Args = ()>, X: BinRead<Args = ()>, Y: BinRead<Args = ()>, Z: BinRead<Args = ()>, AA: BinRead<Args = ()>, AB: BinRead<Args = ()>> BinRead for (A, B, C, D, E, F, G, H, I, J, K, L, M, N, O, P, Q, R, S, T, U, V, W, X, Y, Z, AA, AB) {
    type Args = ();

    type Model = (A::Model, B::Model, C::Model, D::Model, E::Model, F::Model, G::Model, H::Model, I::Model, J::Model, K::Model, L::Model, M::Model, N::Model, O::Model, P::Model, Q::Model, R::Model, S::Model, T::Model, U::Model, V::Model, W::Model, X::Model, Y::Model, Z::Model, AA::Model, AB::Model);

    open spec fn model(&self) -> (A::Model, B::Model, C::Model, D::Model, E::Model, F::Model, G::Model, H::Model, I::Model, J::Model, K::Model, L::Model, M::Model, N::Model, O::Model, P::Model, Q::Model, R::Model, S::Model, T::Model, U::Model, V::Model, W::Model, X::Model, Y::Model, Z::Model, AA::Model, AB::Model) {
        (self.0.model(), self.1.model(), self.2.model(), self.3.model(), self.4.model(), self.5.model(), self.6.model(), self.7.model(), self.8.model(), self.9.model(), self.10.model(), self.11.model(), self.12.model(), self.13.model(), self.14.model(), self.15.model(), self.16.model(), self.17.model(), self.18.model(), self.19.model(), self.20.model(), self.21.model(), self.22.model(), self.23.model(), self.24.model(), self.25.model(), self.26.model(), self.27.model())
    }

    open spec fn read_spec(stream: Stream, options: OptionsView, args: ()) -> Outcome<
        (A::Model, B::Model, C::Model, D::Model, E::Model, F::Model, G::Model, H::Model, I::Model, J::Model, K::Model, L::Model, M::Model, N::Model, O::Model, P::Model, Q::Model, R::Model, S::Model, T::Model, U::Model, V::Model, W::Model, X::Model, Y::Model, Z::Model, AA::Model, AB::Model),
    > {
        read_tuple28::<A, B, C, D, E, F, G, H, I, J, K, L, M, N, O, P, Q, R, S, T, U, V, W, X, Y, Z, AA, AB>(stream, options)
    }

    open spec fn resolve_spec(
        model: (A::Model, B::Model, C::Model, D::Model, E::Model, F::Model, G::Model, H::Model, I::Model, J::Model, K::Model, L::Model, M::Model, N::Model, O::Model, P::Model, Q::Model, R::Model, S::Model, T::Model, U::Model, V::Model, W::Model, X::Model, Y::Model, Z::Model, AA::Model, AB::Model),
        data: Seq<u8>,
        options: OptionsView,
        args: (),
    ) -> Resolved<(A::Model, B::Model, C::Model, D::Model, E::Model, F::Model, G::Model, H::Model, I::Model, J::Model, K::Model, L::Model, M::Model, N::Model, O::Model, P::Model, Q::Model, R::Model, S::Model, T::Model, U::Model, V::Model, W::Model, X::Model, Y::Model, Z::Model, AA::Model, AB::Model)> {
        resolve_tuple28::<A, B, C, D, E, F, G, H, I, J, K, L, M, N, O, P, Q, R, S, T, U, V, W, X, Y, Z, AA, AB>(model, data, options)
    }

    fn read_options(reader: &mut Cursor, options: &ReadOptions, args: &()) -> (r: BinResult<
        (A, B, C, D, E, F, G, H, I, J, K, L, M, N, O, P, Q, R, S, T, U, V, W, X, Y, Z, AA, AB),
    >) {
        assert(reader@ == old(reader)@.at(reader@.pos));
        let a: A = match A::read_options(reader, options, &()) {
            Ok(v) => v,
            Err(e) => {
                return Err(e);
            },
        };
        assert(reader@ == old(reader)@.at(reader@.pos));
        let b: B = match B::read_options(reader, options, &()) {
            Ok(v) => v,
            Err(e) => {
                return Err(e);
            },
        };
        assert(reader@ == old(reader)@.at(reader@.pos));
        let c: C = match C::read_options(reader, options, &()) {
            Ok(v) => v,
            Err(e) => {
                return Err(e);
            },
        };
        assert(reader@ == old(reader)@.at(reader@.pos));
        let d: D = match D::read_options(reader, options, &()) {
            Ok(v) => v,
            Err(e) => {
                return Err(e);
            },
        };
        assert(reader@ == old(reader)@.at(reader@.pos));
        let e: E = match E::read_options(reader, options, &()) {
            Ok(v) => v,
            Err(e) => {
                return Err(e);
            },
        };
        assert(reader@ == old(reader)@.at(reader@.pos));
        let f: F = match F::read_options(reader, options, &()) {
            Ok(v) => v,
            Err(e) => {
                return Err(e);
            },
        };
        assert(reader@ == old(reader)@.at(reader@.pos));
        let g: G = match G::read_options(reader, options, &()) {
            Ok(v) => v,
            Err(e) => {
                return Err(e);
            },
        };
        assert(reader@ == old(reader)@.at(reader@.pos));
        let h: H = match H::read_options(reader, options, &()) {
            Ok(v) => v,
            Err(e) => {
                return Err(e);
            },
        };
        assert(reader@ == old(reader)@.at(reader@.pos));
        let i: I = match I::read_options(reader, options, &()) {
            Ok(v) => v,
            Err(e) => {
                return Err(e);
            },
        };
        assert(reader@ == old(reader)@.at(reader@.pos));
        let j: J = match J::read_options(reader, options, &()) {
            Ok(v) => v,
            Err(e) => {
                return Err(e);
            },
        };
        assert(reader@ == old(reader)@.at(reader@.pos));
        let k: K = match K::read_options(reader, options, &()) {
            Ok(v) => v,
            Err(e) => {
                return Err(e);
            },
        };
        assert(reader@ == old(reader)@.at(reader@.pos));
        let l: L = match L::read_options(reader, options, &()) {
            Ok(v) => v,
            Err(e) => {
                return Err(e);
            },
        };
        assert(reader@ == old(reader)@.at(reader@.pos));
        let m: M = match M::read_options(reader, options, &()) {
            Ok(v) => v,
            Err(e) => {
                return Err(e);
            },
        };
        assert(reader@ == old(reader)@.at(reader@.pos));
        let n: N = match N::read_options(reader, options, &()) {
            Ok(v) => v,
            Err(e) => {
                return Err(e);
            },
        };
        assert(reader@ == old(reader)@.at(reader@.pos));
        let o: O = match O::read_options(reader, options, &()) {
            Ok(v) => v,
            Err(e) => {
                return Err(e);
            },
        };
        assert(reader@ == old(reader)@.at(reader@.pos));
        let p: P = match P::read_options(reader, options, &()) {
            Ok(v) => v,
            Err(e) => {
                return Err(e);
            },
        };
        assert(reader@ == old(reader)@.at(reader@.pos));
        let q: Q = match Q::read_options(reader, options, &()) {
            Ok(v) => v,
            Err(e) => {
                return Err(e);
            },
        };
        assert(reader@ == old(reader)@.at(reader@.pos));
        let r: R = match R::read_options(reader, options, &()) {
            Ok(v) => v,
            Err(e) => {
                return Err(e);
            },
        };
        assert(reader@ == old(reader)@.at(reader@.pos));
        let s: S = match S::read_options(reader, options, &()) {
            Ok(v) => v,
            Err(e) => {
                return Err(e);
            },
        };
        assert(reader@ == old(reader)@.at(reader@.pos));
        let t: T = match T::read_options(reader, options, &()) {
            Ok(v) => v,
            Err(e) => {
                return Err(e);
            },
        };
        assert(reader@ == old(reader)@.at(reader@.pos));
        let u: U = match U::read_options(reader, options, &()) {
            Ok(v) => v,
            Err(e) => {
                return Err(e);
            },
        };
        assert(reader@ == old(reader)@.at(reader@.pos));
        let v: V = match V::read_options(reader, options, &()) {
            Ok(v) => v,
            Err(e) => {
                return Err(e);
            },
        };
        assert(reader@ == old(reader)@.at(reader@.pos));
        let w: W = match W::read_options(reader, options, &()) {
            Ok(v) => v,
            Err(e) => {
                return Err(e);
            },
        };
        assert(reader@ == old(reader)@.at(reader@.pos));
        let x: X = match X::read_options(reader, options, &()) {
            Ok(v) => v,
            Err(e) => {
                return Err(e);
            },
        };
        assert(reader@ == old(reader)@.at(reader@.pos));
        let y: Y = match Y::read_options(reader, options, &()) {
            Ok(v) => v,
            Err(e) => {
                return Err(e);
            },
        };
        assert(reader@ == old(reader)@.at(reader@.pos));
        let z: Z = match Z::read_options(reader, options, &()) {
            Ok(v) => v,
            Err(e) => {
                return Err(e);
            },
        };
        assert(reader@ == old(reader)@.at(reader@.pos));
        let aa: AA = match AA::read_options(reader, options, &()) {
            Ok(v) => v,
            Err(e) => {
                return Err(e);
            },
        };
        assert(reader@ == old(reader)@.at(reader@.pos));
        let ab: AB = match AB::read_options(reader, options, &()) {
            Ok(v) => v,
            Err(e) => {
                return Err(e);
            },
        };
        Ok((a, b, c, d, e, f, g, h, i, j, k, l, m, n, o, p, q, r, s, t, u, v, w, x, y, z, aa, ab))
    }

    fn after_parse(&mut self, reader: &mut Cursor, options: &ReadOptions, args: &()) -> (r:
        BinResult<()>) {
        match self.0.after_parse(reader, options, &()) {
            Ok(()) => {},
            Err(e) => {
                return Err(e);
            },
        }
        match self.1.after_parse(reader, options, &()) {
            Ok(()) => {},
            Err(e) => {
                return Err(e);
            },
        }
        match self.2.after_parse(reader, options, &()) {
            Ok(()) => {},
            Err(e) => {
                return Err(e);
            },
        }
        match self.3.after_parse(reader, options, &()) {
            Ok(()) => {},
            Err(e) => {
                return Err(e);
            },
        }
        match self.4.after_parse(reader, options, &()) {
            Ok(()) => {},
            Err(e) => {
                return Err(e);
            },
        }
        match self.5.after_parse(reader, options, &()) {
            Ok(()) => {},
            Err(e) => {
                return Err(e);
            },
        }
        match self.6.after_parse(reader, options, &()) {
            Ok(()) => {},
            Err(e) => {
                return Err(e);
            },
        }
        match self.7.after_parse(reader, options, &()) {
            Ok(()) => {},
            Err(e) => {
                return Err(e);
            },
        }
        match self.8.after_parse(reader, options, &()) {
            Ok(()) => {},
            Err(e) => {
                return Err(e);
            },
        }
        match self.9.after_parse(reader, options, &()) {
            Ok(()) => {},
            Err(e) => {
                return Err(e);
            },
        }
        match self.10.after_parse(reader, options, &()) {
            Ok(()) => {},
            Err(e) => {
                return Err(e);
            },
        }
        match self.11.after_parse(reader, options, &()) {
            Ok(()) => {},
            Err(e) => {
                return Err(e);
            },
        }
        match self.12.after_parse(reader, options, &()) {
            Ok(()) => {},
            Err(e) => {
                return Err(e);
            },
        }
        match self.13.after_parse(reader, options, &()) {
            Ok(()) => {},
            Err(e) => {
                return Err(e);
            },
        }
        match self.14.after_parse(reader, options, &()) {
            Ok(()) => {},
            Err(e) => {
                return Err(e);
            },
        }
        match self.15.after_parse(reader, options, &()) {
            Ok(()) => {},
            Err(e) => {
                return Err(e);
            },
        }
        match self.16.after_parse(reader, options, &()) {
            Ok(()) => {},
            Err(e) => {
                return Err(e);
            },
        }
        match self.17.after_parse(reader, options, &()) {
            Ok(()) => {},
            Err(e) => {
                return Err(e);
            },
        }
        match self.18.after_parse(reader, options, &()) {
            Ok(()) => {},
            Err(e) => {
                return Err(e);
            },
        }
        match self.19.after_parse(reader, options, &()) {
            Ok(()) => {},
            Err(e) => {
                return Err(e);
            },
        }
        match self.20.after_parse(reader, options, &()) {
            Ok(()) => {},
            Err(e) => {
                return Err(e);
            },
        }
        match self.21.after_parse(reader, options, &()) {
            Ok(()) => {},
            Err(e) => {
                return Err(e);
            },
        }
        match self.22.after_parse(reader, options, &()) {
            Ok(()) => {},
            Err(e) => {
                return Err(e);
            },
        }
        match self.23.after_parse(reader, options, &()) {
            Ok(()) => {},
            Err(e) => {
                return Err(e);
            },
        }
        match self.24.after_parse(reader, options, &()) {
            Ok(()) => {},
            Err(e) => {
                return Err(e);
            },
        }
        match self.25.after_parse(reader, options, &()) {
            Ok(()) => {},
            Err(e) => {
                return Err(e);
            },
        }
        match self.26.after_parse(reader, options, &()) {
            Ok(()) => {},
            Err(e) => {
                return Err(e);
            },
        }
        self.27.after_parse(reader, options, &())
    }
}

/// The twenty-nine members of a tuple, one after the other.
pub open spec fn read_tuple29<A: BinRead<Args = ()>, B: BinRead<Args = ()>, C: BinRead<Args = ()>, D: BinRead<Args = ()>, E: BinRead<Args = ()>, F: BinRead<Args = ()>, G: BinRead<Args = ()>, H: BinRead<Args = ()>, I: BinRead<Args = ()>, J: BinRead<Args = ()>, K: BinRead<Args = ()>, L: BinRead<Args = ()>, M: BinRead<Args = ()>, N: BinRead<Args = ()>, O: BinRead<Args = ()>, P: BinRead<Args = ()>, Q: BinRead<Args = ()>, R: BinRead<Args = ()>, S: BinRead<Args = ()>, T: BinRead<Args = ()>, U: BinRead<Args = ()>, V: BinRead<Args = ()>, W: BinRead<Args = ()>, X: BinRead<Args = ()>, Y: BinRead<Args = ()>, Z: BinRead<Args = ()>, AA: BinRead<Args = ()>, AB: BinRead<Args = ()>, AC: BinRead<Args = ()>>(
    stream: Stream,
    options: OptionsView,
) -> Outcome<(A::Model, B::Model, C::Model, D::Model, E::Model, F::Model, G::Model, H::Model, I::Model, J::Model, K::Model, L::Model, M::Model, N::Model, O::Model, P::Model, Q::Model, R::Model, S::Model, T::Model, U::Model, V::Model, W::Model, X::Model, Y::Model, Z::Model, AA::Model, AB::Model, AC::Model)> {
    match A::read_spec(stream, options, ()) {
        Err(e) => Err(e),
        Ok((a, after_a)) => {
            match B::read_spec(stream.at(after_a), options, ()) {
                Err(e) => Err(e),
                Ok((b, after_b)) => {
                    match C::read_spec(stream.at(after_b), options, ()) {
                        Err(e) => Err(e),
                        Ok((c, after_c)) => {
                            match D::read_spec(stream.at(after_c), options, ()) {
                                Err(e) => Err(e),
                                Ok((d, after_d)) => {
                                    match E::read_spec(stream.at(after_d), options, ()) {
                                        Err(e) => Err(e),
                                        Ok((e, after_e)) => {
                                            match F::read_spec(stream.at(after_e), options, ()) {
                                                Err(e) => Err(e),
                                                Ok((f, after_f)) => {
                                                    match G::read_spec(stream.at(after_f), options, ()) {
                                                        Err(e) => Err(e),
                                                        Ok((g, after_g)) => {
                                                            match H::read_spec(stream.at(after_g), options, ()) {
                                                                Err(e) => Err(e),
                                                                Ok((h, after_h)) => {
                                                                    match I::read_spec(stream.at(after_h), options, ()) {
                                                                        Err(e) => Err(e),
                                                                        Ok((i, after_i)) => {
                                                                            match J::read_spec(stream.at(after_i), options, ()) {
                                                                                Err(e) => Err(e),
                                                                                Ok((j, after_j)) => {
                                                                                    match K::read_spec(stream.at(after_j), options, ()) {
                                                                                        Err(e) => Err(e),
                                                                                        Ok((k, after_k)) => {
                                                                                            match L::read_spec(stream.at(after_k), options, ()) {
                                                                                                Err(e) => Err(e),
                                                                                                Ok((l, after_l)) => {
                                                                                                    match M::read_spec(stream.at(after_l), options, ()) {
                                                                                                        Err(e) => Err(e),
                                                                                                        Ok((m, after_m)) => {
                                                                                                            match N::read_spec(stream.at(after_m), options, ()) {
                                                                                                                Err(e) => Err(e),
                                                                                                                Ok((n, after_n)) => {
                                                                                                                    match O::read_spec(stream.at(after_n), options, ()) {
                                                                                                                        Err(e) => Err(e),
                                                                                                                        Ok((o, after_o)) => {
                                                                                                                            match P::read_spec(stream.at(after_o), options, ()) {
                                                                                                                                Err(e) => Err(e),
                                                                                                                                Ok((p, after_p)) => {
                                                                                                                                    match Q::read_spec(stream.at(after_p), options, ()) {
                                                                                                                                        Err(e) => Err(e),
                                                                                                                                        Ok((q, after_q)) => {
                                                                                                                                            match R::read_spec(stream.at(after_q), options, ()) {
                                                                                                                                                Err(e) => Err(e),
                                                                                                                                                Ok((r, after_r)) => {
                                                                                                                                                    match S::read_spec(stream.at(after_r), options, ()) {
                                                                                                                                                        Err(e) => Err(e),
                                                                                                                                                        Ok((s, after_s)) => {
                                                                                                                                                            match T::read_spec(stream.at(after_s), options, ()) {
                                                                                                                                                                Err(e) => Err(e),
                                                                                                                                                                Ok((t, after_t)) => {
                                                                                                                                                                    match U::read_spec(stream.at(after_t), options, ()) {
                                                                                                                                                                        Err(e) => Err(e),
                                                                                                                                                                        Ok((u, after_u)) => {
                                                                                                                                                                            match V::read_spec(stream.at(after_u), options, ()) {
                                                                                                                                                                                Err(e) => Err(e),
                                                                                                                                                                                Ok((v, after_v)) => {
                                                                                                                                                                                    match W::read_spec(stream.at(after_v), options, ()) {
                                                                                                                                                                                        Err(e) => Err(e),
                                                                                                                                                                                        Ok((w, after_w)) => {
                                                                                                                                                                                            match X::read_spec(stream.at(after_w), options, ()) {
                                                                                                                                                                                                Err(e) => Err(e),
                                                                                                                                                                                                Ok((x, after_x)) => {
                                                                                                                                                                                                    match Y::read_spec(stream.at(after_x), options, ()) {
                                                                                                                                                                                                        Err(e) => Err(e),
                                                                                                                                                                                                        Ok((y, after_y)) => {
                                                                                                                                                                                                            match Z::read_spec(stream.at(after_y), options, ()) {
                                                                                                                                                                                                                Err(e) => Err(e),
                                                                                                                                                                                                                Ok((z, after_z)) => {
                                                                                                                                                                                                                    match AA::read_spec(stream.at(after_z), options, ()) {
                                                                                                                                                                                                                        Err(e) => Err(e),
                                                                                                                                                                                                                        Ok((aa, after_aa)) => {
                                                                                                                                                                                                                            match AB::read_spec(stream.at(after_aa), options, ()) {
                                                                                                                                                                                                                                Err(e) => Err(e),
                                                                                                                                                                                                                                Ok((ab, after_ab)) => {
                                                                                                                                                                                                                                    match AC::read_spec(stream.at(after_ab), options, ()) {
                                                                                                                                                                                                                                        Err(e) => Err(e),
                                                                                                                                                                                                                                        Ok((ac, after_ac)) => Ok(((a, b, c, d, e, f, g, h, i, j, k, l, m, n, o, p, q, r, s, t, u, v, w, x, y, z, aa, ab, ac), after_ac)),
                                                                                                                                                                                                                                    }
                                                                                                                                                                                                                                },
                                                                                                                                                                                                                            }
                                                                                                                                                                                                                        },
                                                                                                                                                                                                                    }
                                                                                                                                                                                                                },
                                                                                                                                                                                                            }
                                                                                                                                                                                                        },
                                                                                                                                                                                                    }
                                                                                                                                                                                                },
                                                                                                                                                                                            }
                                                                                                                                                                                        },
                                                                                                                                                                                    }
                                                                                                                                                                                },
                                                                                                                                                                            }
                                                                                                                                                                        },
                                                                                                                                                                    }
                                                                                                                                                                },
                                                                                                                                                            }
                                                                                                                                                        },
                                                                                                                                                    }
                                                                                                                                                },
                                                                                                                                            }
                                                                                                                                        },
                                                                                                                                    }
                                                                                                                                },
                                                                                                                            }
                                                                                                                        },
                                                                                                                    }
                                                                                                                },
                                                                                                            }
                                                                                                        },
                                                                                                    }
                                                                                                },
                                                                                            }
                                                                                        },
                                                                                    }
                                                                                },
                                                                            }
                                                                        },
                                                                    }
                                                                },
                                                            }
                                                        },
                                                    }
                                                },
                                            }
                                        },
                                    }
                                },
                            }
                        },
                    }
                },
            }
        },
    }
}

/// Phase two on the twenty-nine members of a tuple, in the order in which they were
/// read.
pub open spec fn resolve_tuple29<A: BinRead<Args = ()>, B: BinRead<Args = ()>, C: BinRead<Args = ()>, D: BinRead<Args = ()>, E: BinRead<Args = ()>, F: BinRead<Args = ()>, G: BinRead<Args = ()>, H: BinRead<Args = ()>, I: BinRead<Args = ()>, J: BinRead<Args = ()>, K: BinRead<Args = ()>, L: BinRead<Args = ()>, M: BinRead<Args = ()>, N: BinRead<Args = ()>, O: BinRead<Args = ()>, P: BinRead<Args = ()>, Q: BinRead<Args = ()>, R: BinRead<Args = ()>, S: BinRead<Args = ()>, T: BinRead<Args = ()>, U: BinRead<Args = ()>, V: BinRead<Args = ()>, W: BinRead<Args = ()>, X: BinRead<Args = ()>, Y: BinRead<Args = ()>, Z: BinRead<Args = ()>, AA: BinRead<Args = ()>, AB: BinRead<Args = ()>, AC: BinRead<Args = ()>>(
    model: (A::Model, B::Model, C::Model, D::Model, E::Model, F::Model, G::Model, H::Model, I::Model, J::Model, K::Model, L::Model, M::Model, N::Model, O::Model, P::Model, Q::Model, R::Model, S::Model, T::Model, U::Model, V::Model, W::Model, X::Model, Y::Model, Z::Model, AA::Model, AB::Model, AC::Model),
    data: Seq<u8>,
    options: OptionsView,
) -> Resolved<(A::Model, B::Model, C::Model, D::Model, E::Model, F::Model, G::Model, H::Model, I::Model, J::Model, K::Model, L::Model, M::Model, N::Model, O::Model, P::Model, Q::Model, R::Model, S::Model, T::Model, U::Model, V::Model, W::Model, X::Model, Y::Model, Z::Model, AA::Model, AB::Model, AC::Model)> {
    match A::resolve_spec(model.0, data, options, ()) {
        Err(e) => Err(e),
        Ok(a) => {
            match B::resolve_spec(model.1, data, options, ()) {
                Err(e) => Err(e),
                Ok(b) => {
                    match C::resolve_spec(model.2, data, options, ()) {
                        Err(e) => Err(e),
                        Ok(c) => {
                            match D::resolve_spec(model.3, data, options, ()) {
                                Err(e) => Err(e),
                                Ok(d) => {
                                    match E::resolve_spec(model.4, data, options, ()) {
                                        Err(e) => Err(e),
                                        Ok(e) => {
                                            match F::resolve_spec(model.5, data, options, ()) {
                                                Err(e) => Err(e),
                                                Ok(f) => {
                                                    match G::resolve_spec(model.6, data, options, ()) {
                                                        Err(e) => Err(e),
                                                        Ok(g) => {
                                                            match H::resolve_spec(model.7, data, options, ()) {
                                                                Err(e) => Err(e),
                                                                Ok(h) => {
                                                                    match I::resolve_spec(model.8, data, options, ()) {
                                                                        Err(e) => Err(e),
                                                                        Ok(i) => {
                                                                            match J::resolve_spec(model.9, data, options, ()) {
                                                                                Err(e) => Err(e),
                                                                                Ok(j) => {
                                                                                    match K::resolve_spec(model.10, data, options, ()) {
                                                                                        Err(e) => Err(e),
                                                                                        Ok(k) => {
                                                                                            match L::resolve_spec(model.11, data, options, ()) {
                                                                                                Err(e) => Err(e),
                                                                                                Ok(l) => {
                                                                                                    match M::resolve_spec(model.12, data, options, ()) {
                                                                                                        Err(e) => Err(e),
                                                                                                        Ok(m) => {
                                                                                                            match N::resolve_spec(model.13, data, options, ()) {
                                                                                                                Err(e) => Err(e),
                                                                                                                Ok(n) => {
                                                                                                                    match O::resolve_spec(model.14, data, options, ()) {
                                                                                                                        Err(e) => Err(e),
                                                                                                                        Ok(o) => {
                                                                                                                            match P::resolve_spec(model.15, data, options, ()) {
                                                                                                                                Err(e) => Err(e),
                                                                                                                                Ok(p) => {
                                                                                                                                    match Q::resolve_spec(model.16, data, options, ()) {
                                                                                                                                        Err(e) => Err(e),
                                                                                                                                        Ok(q) => {
                                                                                                                                            match R::resolve_spec(model.17, data, options, ()) {
                                                                                                                                                Err(e) => Err(e),
                                                                                                                                                Ok(r) => {
                                                                                                                                                    match S::resolve_spec(model.18, data, options, ()) {
                                                                                                                                                        Err(e) => Err(e),
                                                                                                                                                        Ok(s) => {
                                                                                                                                                            match T::resolve_spec(model.19, data, options, ()) {
                                                                                                                                                                Err(e) => Err(e),
                                                                                                                                                                Ok(t) => {
                                                                                                                                                                    match U::resolve_spec(model.20, data, options, ()) {
                                                                                                                                                                        Err(e) => Err(e),
                                                                                                                                                                        Ok(u) => {
                                                                                                                                                                            match V::resolve_spec(model.21, data, options, ()) {
                                                                                                                                                                                Err(e) => Err(e),
                                                                                                                                                                                Ok(v) => {
                                                                                                                                                                                    match W::resolve_spec(model.22, data, options, ()) {
                                                                                                                                                                                        Err(e) => Err(e),
                                                                                                                                                                                        Ok(w) => {
                                                                                                                                                                                            match X::resolve_spec(model.23, data, options, ()) {
                                                                                                                                                                                                Err(e) => Err(e),
                                                                                                                                                                                                Ok(x) => {
                                                                                                                                                                                                    match Y::resolve_spec(model.24, data, options, ()) {
                                                                                                                                                                                                        Err(e) => Err(e),
                                                                                                                                                                                                        Ok(y) => {
                                                                                                                                                                                                            match Z::resolve_spec(model.25, data, options, ()) {
                                                                                                                                                                                                                Err(e) => Err(e),
                                                                                                                                                                                                                Ok(z) => {
                                                                                                                                                                                                                    match AA::resolve_spec(model.26, data, options, ()) {
                                                                                                                                                                                                                        Err(e) => Err(e),
                                                                                                                                                                                                                        Ok(aa) => {
                                                                                                                                                                                                                            match AB::resolve_spec(model.27, data, options, ()) {
                                                                                                                                                                                                                                Err(e) => Err(e),
                                                                                                                                                                                                                                Ok(ab) => {
                                                                                                                                                                                                                                    match AC::resolve_spec(model.28, data, options, ()) {
                                                                                                                                                                                                                                        Err(e) => Err(e),
                                                                                                                                                                                                                                        Ok(ac) => Ok((a, b, c, d, e, f, g, h, i, j, k, l, m, n, o, p, q, r, s, t, u, v, w, x, y, z, aa, ab, ac)),
                                                                                                                                                                                                                                    }
                                                                                                                                                                                                                                },
                                                                                                                                                                                                                            }
                                                                                                                                                                                                                        },
                                                                                                                                                                                                                    }
                                                                                                                                                                                                                },
                                                                                                                                                                                                            }
                                                                                                                                                                                                        },
                                                                                                                                                                                                    }
                                                                                                                                                                                                },
                                                                                                                                                                                            }
                                                                                                                                                                                        },
                                                                                                                                                                                    }
                                                                                                                                                                                },
                                                                                                                                                                            }
                                                                                                                                                                        },
                                                                                                                                                                    }
                                                                                                                                                                },
                                                                                                                                                            }
                                                                                                                                                        },
                                                                                                                                                    }
                                                                                                                                                },
                                                                                                                                            }
                                                                                                                                        },
                                                                                                                                    }
                                                                                                                                },
                                                                                                                            }
                                                                                                                        },
                                                                                                                    }
                                                                                                                },
                                                                                                            }
                                                                                                        },
                                                                                                    }
                                                                                                },
                                                                                            }
                                                                                        },
                                                                                    }
                                                                                },
                                                                            }
                                                                        },
                                                                    }
                                                                },
                                                            }
                                                        },
                                                    }
                                                },
                                            }
                                        },
                                    }
                                },
                            }
                        },
                    }
                },
            }
        },
    }
}

impl<A: BinRead<Args = ()>, B: BinRead<Args = ()>, C: BinRead<Args = ()>, D: BinRead<Args = ()>, E: BinRead<Args = ()>, F: BinRead<Args = ()>, G: BinRead<Args = ()>, H: BinRead<Args = ()>, I: BinRead<Args = ()>, J: BinRead<Args = ()>, K: BinRead<Args = ()>, L: BinRead<Args = ()>, M: BinRead<Args = ()>, N: BinRead<Args = ()>, O: BinRead<Args = ()>, P: BinRead<Args = ()>, Q: BinRead<Args = ()>, R: BinRead<Args = ()>, S: BinRead<Args = ()>, T: BinRead<Args = ()>, U: BinRead<Args = ()>, V: BinRead<Args = ()>, W: BinRead<Args = ()>, X: BinRead<Args = ()>, Y: BinRead<Args = ()>, Z: BinRead<Args = ()>, AA: BinRead<Args = ()>, AB: BinRead<Args = ()>, AC: BinRead<Args = ()>> BinRead for (A, B, C, D, E, F, G, H, I, J, K, L, M, N, O, P, Q, R, S, T, U, V, W, X, Y, Z, AA, AB, AC) {
    type Args = ();

    type Model = (A::Model, B::Model, C::Model, D::Model, E::Model, F::Model, G::Model, H::Model, I::Model, J::Model, K::Model, L::Model, M::Model, N::Model, O::Model, P::Model, Q::Model, R::Model, S::Model, T::Model, U::Model, V::Model, W::Model, X::Model, Y::Model, Z::Model, AA::Model, AB::Model, AC::Model);

    open spec fn model(&self) -> (A::Model, B::Model, C::Model, D::Model, E::Model, F::Model, G::Model, H::Model, I::Model, J::Model, K::Model, L::Model, M::Model, N::Model, O::Model, P::Model, Q::Model, R::Model, S::Model, T::Model, U::Model, V::Model, W::Model, X::Model, Y::Model, Z::Model, AA::Model, AB::Model, AC::Model) {
        (self.0.model(), self.1.model(), self.2.model(), self.3.model(), self.4.model(), self.5.model(), self.6.model(), self.7.model(), self.8.model(), self.9.model(), self.10.model(), self.11.model(), self.12.model(), self.13.model(), self.14.model(), self.15.model(), self.16.model(), self.17.model(), self.18.model(), self.19.model(), self.20.model(), self.21.model(), self.22.model(), self.23.model(), self.24.model(), self.25.model(), self.26.model(), self.27.model(), self.28.model())
    }

    open spec fn read_spec(stream: Stream, options: OptionsView, args: ()) -> Outcome<
        (A::Model, B::Model, C::Model, D::Model, E::Model, F::Model, G::Model, H::Model, I::Model, J::Model, K::Model, L::Model, M::Model, N::Model, O::Model, P::Model, Q::Model, R::Model, S::Model, T::Model, U::Model, V::Model, W::Model, X::Model, Y::Model, Z::Model, AA::Model, AB::Model, AC::Model),
    > {
        read_tuple29::<A, B, C, D, E, F, G, H, I, J, K, L, M, N, O, P, Q, R, S, T, U, V, W, X, Y, Z, AA, AB, AC>(stream, options)
    }

    open spec fn resolve_spec(
        model: (A::Model, B::Model, C::Model, D::Model, E::Model, F::Model, G::Model, H::Model, I::Model, J::Model, K::Model, L::Model, M::Model, N::Model, O::Model, P::Model, Q::Model, R::Model, S::Model, T::Model, U::Model, V::Model, W::Model, X::Model, Y::Model, Z::Model, AA::Model, AB::Model, AC::Model),
        data: Seq<u8>,
        options: OptionsView,
        args: (),
    ) -> Resolved<(A::Model, B::Model, C::Model, D::Model, E::Model, F::Model, G::Model, H::Model, I::Model, J::Model, K::Model, L::Model, M::Model, N::Model, O::Model, P::Model, Q::Model, R::Model, S::Model, T::Model, U::Model, V::Model, W::Model, X::Model, Y::Model, Z::Model, AA::Model, AB::Model, AC::Model)> {
        resolve_tuple29::<A, B, C, D, E, F, G, H, I, J, K, L, M, N, O, P, Q, R, S, T, U, V, W, X, Y, Z, AA, AB, AC>(model, data, options)
    }

    fn read_options(reader: &mut Cursor, options: &ReadOptions, args: &()) -> (r: BinResult<
        (A, B, C, D, E, F, G, H, I, J, K, L, M, N, O, P, Q, R, S, T, U, V, W, X, Y, Z, AA, AB, AC),
    >) {
        assert(reader@ == old(reader)@.at(reader@.pos));
        let a: A = match A::read_options(reader, options, &()) {
            Ok(v) => v,
            Err(e) => {
                return Err(e);
            },
        };
        assert(reader@ == old(reader)@.at(reader@.pos));
        let b: B = match B::read_options(reader, options, &()) {
            Ok(v) => v,
            Err(e) => {
                return Err(e);
            },
        };
        assert(reader@ == old(reader)@.at(reader@.pos));
        let c: C = match C::read_options(reader, options, &()) {
            Ok(v) => v,
            Err(e) => {
                return Err(e);
            },
        };
        assert(reader@ == old(reader)@.at(reader@.pos));
        let d: D = match D::read_options(reader, options, &()) {
            Ok(v) => v,
            Err(e) => {
                return Err(e);
            },
        };
        assert(reader@ == old(reader)@.at(reader@.pos));
        let e: E = match E::read_options(reader, options, &()) {
            Ok(v) => v,
            Err(e) => {
                return Err(e);
            },
        };
        assert(reader@ == old(reader)@.at(reader@.pos));
        let f: F = match F::read_options(reader, options, &()) {
            Ok(v) => v,
            Err(e) => {
                return Err(e);
            },
        };
        assert(reader@ == old(reader)@.at(reader@.pos));
        let g: G = match G::read_options(reader, options, &()) {
            Ok(v) => v,
            Err(e) => {
                return Err(e);
            },
        };
        assert(reader@ == old(reader)@.at(reader@.pos));
        let h: H = match H::read_options(reader, options, &()) {
            Ok(v) => v,
            Err(e) => {
                return Err(e);
            },
        };
        assert(reader@ == old(reader)@.at(reader@.pos));
        let i: I = match I::read_options(reader, options, &()) {
            Ok(v) => v,
            Err(e) => {
                return Err(e);
            },
        };
        assert(reader@ == old(reader)@.at(reader@.pos));
        let j: J = match J::read_options(reader, options, &()) {
            Ok(v) => v,
            Err(e) => {
                return Err(e);
            },
        };
        assert(reader@ == old(reader)@.at(reader@.pos));
        let k: K = match K::read_options(reader, options, &()) {
            Ok(v) => v,
            Err(e) => {
                return Err(e);
            },
        };
        assert(reader@ == old(reader)@.at(reader@.pos));
        let l: L = match L::read_options(reader, options, &()) {
            Ok(v) => v,
            Err(e) => {
                return Err(e);
            },
        };
        assert(reader@ == old(reader)@.at(reader@.pos));
        let m: M = match M::read_options(reader, options, &()) {
            Ok(v) => v,
            Err(e) => {
                return Err(e);
            },
        };
        assert(reader@ == old(reader)@.at(reader@.pos));
        let n: N = match N::read_options(reader, options, &()) {
            Ok(v) => v,
            Err(e) => {
                return Err(e);
            },
        };
        assert(reader@ == old(reader)@.at(reader@.pos));
        let o: O = match O::read_options(reader, options, &()) {
            Ok(v) => v,
            Err(e) => {
                return Err(e);
            },
        };
        assert(reader@ == old(reader)@.at(reader@.pos));
        let p: P = match P::read_options(reader, options, &()) {
            Ok(v) => v,
            Err(e) => {
                return Err(e);
            },
        };
        assert(reader@ == old(reader)@.at(reader@.pos));
        let q: Q = match Q::read_options(reader, options, &()) {
            Ok(v) => v,
            Err(e) => {
                return Err(e);
            },
        };
        assert(reader@ == old(reader)@.at(reader@.pos));
        let r: R = match R::read_options(reader, options, &()) {
            Ok(v) => v,
            Err(e) => {
                return Err(e);
            },
        };
        assert(reader@ == old(reader)@.at(reader@.pos));
        let s: S = match S::read_options(reader, options, &()) {
            Ok(v) => v,
            Err(e) => {
                return Err(e);
            },
        };
        assert(reader@ == old(reader)@.at(reader@.pos));
        let t: T = match T::read_options(reader, options, &()) {
            Ok(v) => v,
            Err(e) => {
                return Err(e);
            },
        };
        assert(reader@ == old(reader)@.at(reader@.pos));
        let u: U = match U::read_options(reader, options, &()) {
            Ok(v) => v,
            Err(e) => {
                return Err(e);
            },
        };
        assert(reader@ == old(reader)@.at(reader@.pos));
        let v: V = match V::read_options(reader, options, &()) {
            Ok(v) => v,
            Err(e) => {
                return Err(e);
            },
        };
        assert(reader@ == old(reader)@.at(reader@.pos));
        let w: W = match W::read_options(reader, options, &()) {
            Ok(v) => v,
            Err(e) => {
                return Err(e);
            },
        };
        assert(reader@ == old(reader)@.at(reader@.pos));
        let x: X = match X::read_options(reader, options, &()) {
            Ok(v) => v,
            Err(e) => {
                return Err(e);
            },
        };
        assert(reader@ == old(reader)@.at(reader@.pos));
        let y: Y = match Y::read_options(reader, options, &()) {
            Ok(v) => v,
            Err(e) => {
                return Err(e);
            },
        };
        assert(reader@ == old(reader)@.at(reader@.pos));
        let z: Z = match Z::read_options(reader, options, &()) {
            Ok(v) => v,
            Err(e) => {
                return Err(e);
            },
        };
        assert(reader@ == old(reader)@.at(reader@.pos));
        let aa: AA = match AA::read_options(reader, options, &()) {
            Ok(v) => v,
            Err(e) => {
                return Err(e);
            },
        };
        assert(reader@ == old(reader)@.at(reader@.pos));
        let ab: AB = match AB::read_options(reader, options, &()) {
            Ok(v) => v,
            Err(e) => {
                return Err(e);
            },
        };
        assert(reader@ == old(reader)@.at(reader@.pos));
        let ac: AC = match AC::read_options(reader, options, &()) {
            Ok(v) => v,
            Err(e) => {
                return Err(e);
            },
        };
        Ok((a, b, c, d, e, f, g, h, i, j, k, l, m, n, o, p, q, r, s, t, u, v, w, x, y, z, aa, ab, ac))
    }

    fn after_parse(&mut self, reader: &mut Cursor, options: &ReadOptions, args: &()) -> (r:
        BinResult<()>) {
        match self.0.after_parse(reader, options, &()) {
            Ok(()) => {},
            Err(e) => {
                return Err(e);
            },
        }
        match self.1.after_parse(reader, options, &()) {
            Ok(()) => {},
            Err(e) => {
                return Err(e);
            },
        }
        match self.2.after_parse(reader, options, &()) {
            Ok(()) => {},
            Err(e) => {
                return Err(e);
            },
        }
        match self.3.after_parse(reader, options, &()) {
            Ok(()) => {},
            Err(e) => {
                return Err(e);
            },
        }
        match self.4.after_parse(reader, options, &()) {
            Ok(()) => {},
            Err(e) => {
                return Err(e);
            },
        }
        match self.5.after_parse(reader, options, &()) {
            Ok(()) => {},
            Err(e) => {
                return Err(e);
            },
        }
        match self.6.after_parse(reader, options, &()) {
            Ok(()) => {},
            Err(e) => {
                return Err(e);
            },
        }
        match self.7.after_parse(reader, options, &()) {
            Ok(()) => {},
            Err(e) => {
                return Err(e);
            },
        }
        match self.8.after_parse(reader, options, &()) {
            Ok(()) => {},
            Err(e) => {
                return Err(e);
            },
        }
        match self.9.after_parse(reader, options, &()) {
            Ok(()) => {},
            Err(e) => {
                return Err(e);
            },
        }
        match self.10.after_parse(reader, options, &()) {
            Ok(()) => {},
            Err(e) => {
                return Err(e);
            },
        }
        match self.11.after_parse(reader, options, &()) {
            Ok(()) => {},
            Err(e) => {
                return Err(e);
            },
        }
        match self.12.after_parse(reader, options, &()) {
            Ok(()) => {},
            Err(e) => {
                return Err(e);
            },
        }
        match self.13.after_parse(reader, options, &()) {
            Ok(()) => {},
            Err(e) => {
                return Err(e);
            },
        }
        match self.14.after_parse(reader, options, &()) {
            Ok(()) => {},
            Err(e) => {
                return Err(e);
            },
        }
        match self.15.after_parse(reader, options, &()) {
            Ok(()) => {},
            Err(e) => {
                return Err(e);
            },
        }
        match self.16.after_parse(reader, options, &()) {
            Ok(()) => {},
            Err(e) => {
                return Err(e);
            },
        }
        match self.17.after_parse(reader, options, &()) {
            Ok(()) => {},
            Err(e) => {
                return Err(e);
            },
        }
        match self.18.after_parse(reader, options, &()) {
            Ok(()) => {},
            Err(e) => {
                return Err(e);
            },
        }
        match self.19.after_parse(reader, options, &()) {
            Ok(()) => {},
            Err(e) => {
                return Err(e);
            },
        }
        match self.20.after_parse(reader, options, &()) {
            Ok(()) => {},
            Err(e) => {
                return Err(e);
            },
        }
        match self.21.after_parse(reader, options, &()) {
            Ok(()) => {},
            Err(e) => {
                return Err(e);
            },
        }
        match self.22.after_parse(reader, options, &()) {
            Ok(()) => {},
            Err(e) => {
                return Err(e);
            },
        }
        match self.23.after_parse(reader, options, &()) {
            Ok(()) => {},
            Err(e) => {
                return Err(e);
            },
        }
        match self.24.after_parse(reader, options, &()) {
            Ok(()) => {},
            Err(e) => {
                return Err(e);
            },
        }
        match self.25.after_parse(reader, options, &()) {
            Ok(()) => {},
            Err(e) => {
                return Err(e);
            },
        }
        match self.26.after_parse(reader, options, &()) {
            Ok(()) => {},
            Err(e) => {
                return Err(e);
            },
        }
        match self.27.after_parse(reader, options, &()) {
            Ok(()) => {},
            Err(e) => {
                return Err(e);
            },
        }
        self.28.after_parse(reader, options, &())
    }
}

/// The thirty members of a tuple, one after the other.
pub open spec fn read_tuple30<A: BinRead<Args = ()>, B: BinRead<Args = ()>, C: BinRead<Args = ()>, D: BinRead<Args = ()>, E: BinRead<Args = ()>, F: BinRead<Args = ()>, G: BinRead<Args = ()>, H: BinRead<Args = ()>, I: BinRead<Args = ()>, J: BinRead<Args = ()>, K: BinRead<Args = ()>, L: BinRead<Args = ()>, M: BinRead<Args = ()>, N: BinRead<Args = ()>, O: BinRead<Args = ()>, P: BinRead<Args = ()>, Q: BinRead<Args = ()>, R: BinRead<Args = ()>, S: BinRead<Args = ()>, T: BinRead<Args = ()>, U: BinRead<Args = ()>, V: BinRead<Args = ()>, W: BinRead<Args = ()>, X: BinRead<Args = ()>, Y: BinRead<Args = ()>, Z: BinRead<Args = ()>, AA: BinRead<Args = ()>, AB: BinRead<Args = ()>, AC: BinRead<Args = ()>, AD: BinRead<Args = ()>>(
    stream: Stream,
    options: OptionsView,
) -> Outcome<(A::Model, B::Model, C::Model, D::Model, E::Model, F::Model, G::Model, H::Model, I::Model, J::Model, K::Model, L::Model, M::Model, N::Model, O::Model, P::Model, Q::Model, R::Model, S::Model, T::Model, U::Model, V::Model, W::Model, X::Model, Y::Model, Z::Model, AA::Model, AB::Model, AC::Model, AD::Model)> {
    match A::read_spec(stream, options, ()) {
        Err(e) => Err(e),
        Ok((a, after_a)) => {
            match B::read_spec(stream.at(after_a), options, ()) {
                Err(e) => Err(e),
                Ok((b, after_b)) => {
                    match C::read_spec(stream.at(after_b), options, ()) {
                        Err(e) => Err(e),
                        Ok((c, after_c)) => {
                            match D::read_spec(stream.at(after_c), options, ()) {
                                Err(e) => Err(e),
                                Ok((d, after_d)) => {
                                    match E::read_spec(stream.at(after_d), options, ()) {
                                        Err(e) => Err(e),
                                        Ok((e, after_e)) => {
                                            match F::read_spec(stream.at(after_e), options, ()) {
                                                Err(e) => Err(e),
                                                Ok((f, after_f)) => {
                                                    match G::read_spec(stream.at(after_f), options, ()) {
                                                        Err(e) => Err(e),
                                                        Ok((g, after_g)) => {
                                                            match H::read_spec(stream.at(after_g), options, ()) {
                                                                Err(e) => Err(e),
                                                                Ok((h, after_h)) => {
                                                                    match I::read_spec(stream.at(after_h), options, ()) {
                                                                        Err(e) => Err(e),
                                                                        Ok((i, after_i)) => {
                                                                            match J::read_spec(stream.at(after_i), options, ()) {
                                                                                Err(e) => Err(e),
                                                                                Ok((j, after_j)) => {
                                                                                    match K::read_spec(stream.at(after_j), options, ()) {
                                                                                        Err(e) => Err(e),
                                                                                        Ok((k, after_k)) => {
                                                                                            match L::read_spec(stream.at(after_k), options, ()) {
                                                                                                Err(e) => Err(e),
                                                                                                Ok((l, after_l)) => {
                                                                                                    match M::read_spec(stream.at(after_l), options, ()) {
                                                                                                        Err(e) => Err(e),
                                                                                                        Ok((m, after_m)) => {
                                                                                                            match N::read_spec(stream.at(after_m), options, ()) {
                                                                                                                Err(e) => Err(e),
                                                                                                                Ok((n, after_n)) => {
                                                                                                                    match O::read_spec(stream.at(after_n), options, ()) {
                                                                                                                        Err(e) => Err(e),
                                                                                                                        Ok((o, after_o)) => {
                                                                                                                            match P::read_spec(stream.at(after_o), options, ()) {
                                                                                                                                Err(e) => Err(e),
                                                                                                                                Ok((p, after_p)) => {
                                                                                                                                    match Q::read_spec(stream.at(after_p), options, ()) {
                                                                                                                                        Err(e) => Err(e),
                                                                                                                                        Ok((q, after_q)) => {
                                                                                                                                            match R::read_spec(stream.at(after_q), options, ()) {
                                                                                                                                                Err(e) => Err(e),
                                                                                                                                                Ok((r, after_r)) => {
                                                                                                                                                    match S::read_spec(stream.at(after_r), options, ()) {
                                                                                                                                                        Err(e) => Err(e),
                                                                                                                                                        Ok((s, after_s)) => {
                                                                                                                                                            match T::read_spec(stream.at(after_s), options, ()) {
                                                                                                                                                                Err(e) => Err(e),
                                                                                                                                                                Ok((t, after_t)) => {
                                                                                                                                                                    match U::read_spec(stream.at(after_t), options, ()) {
                                                                                                                                                                        Err(e) => Err(e),
                                                                                                                                                                        Ok((u, after_u)) => {
                                                                                                                                                                            match V::read_spec(stream.at(after_u), options, ()) {
                                                                                                                                                                                Err(e) => Err(e),
                                                                                                                                                                                Ok((v, after_v)) => {
                                                                                                                                                                                    match W::read_spec(stream.at(after_v), options, ()) {
                                                                                                                                                                                        Err(e) => Err(e),
                                                                                                                                                                                        Ok((w, after_w)) => {
                                                                                                                                                                                            match X::read_spec(stream.at(after_w), options, ()) {
                                                                                                                                                                                                Err(e) => Err(e),
                                                                                                                                                                                                Ok((x, after_x)) => {
                                                                                                                                                                                                    match Y::read_spec(stream.at(after_x), options, ()) {
                                                                                                                                                                                                        Err(e) => Err(e),
                                                                                                                                                                                                        Ok((y, after_y)) => {
                                                                                                                                                                                                            match Z::read_spec(stream.at(after_y), options, ()) {
                                                                                                                                                                                                                Err(e) => Err(e),
                                                                                                                                                                                                                Ok((z, after_z)) => {
                                                                                                                                                                                                                    match AA::read_spec(stream.at(after_z), options, ()) {
                                                                                                                                                                                                                        Err(e) => Err(e),
                                                                                                                                                                                                                        Ok((aa, after_aa)) => {
                                                                                                                                                                                                                            match AB::read_spec(stream.at(after_aa), options, ()) {
                                                                                                                                                                                                                                Err(e) => Err(e),
                                                                                                                                                                                                                                Ok((ab, after_ab)) => {
                                                                                                                                                                                                                                    match AC::read_spec(stream.at(after_ab), options, ()) {
                                                                                                                                                                                                                                        Err(e) => Err(e),
                                                                                                                                                                                                                                        Ok((ac, after_ac)) => {
                                                                                                                                                                                                                                            match AD::read_spec(stream.at(after_ac), options, ()) {
                                                                                                                                                                                                                                                Err(e) => Err(e),
                                                                                                                                                                                                                                                Ok((ad, after_ad)) => Ok(((a, b, c, d, e, f, g, h, i, j, k, l, m, n, o, p, q, r, s, t, u, v, w, x, y, z, aa, ab, ac, ad), after_ad)),
                                                                                                                                                                                                                                            }
                                                                                                                                                                                                                                        },
                                                                                                                                                                                                                                    }
                                                                                                                                                                                                                                },
                                                                                                                                                                                                                            }
                                                                                                                                                                                                                        },
                                                                                                                                                                                                                    }
                                                                                                                                                                                                                },
                                                                                                                                                                                                            }
                                                                                                                                                                                                        },
                                                                                                                                                                                                    }
                                                                                                                                                                                                },
                                                                                                                                                                                            }
                                                                                                                                                                                        },
                                                                                                                                                                                    }
                                                                                                                                                                                },
                                                                                                                                                                            }
                                                                                                                                                                        },
                                                                                                                                                                    }
                                                                                                                                                                },
                                                                                                                                                            }
                                                                                                                                                        },
                                                                                                                                                    }
                                                                                                                                                },
                                                                                                                                            }
                                                                                                                                        },
                                                                                                                                    }
                                                                                                                                },
                                                                                                                            }
                                                                                                                        },
                                                                                                                    }
                                                                                                                },
                                                                                                            }
                                                                                                        },
                                                                                                    }
                                                                                                },
                                                                                            }
                                                                                        },
                                                                                    }
                                                                                },
                                                                            }
                                                                        },
                                                                    }
                                                                },
                                                            }
                                                        },
                                                    }
                                                },
                                            }
                                        },
                                    }
                                },
                            }
                        },
                    }
                },
            }
        },
    }
}

/// Phase two on the thirty members of a tuple, in the order in which they were
/// read.
pub open spec fn resolve_tuple30<A: BinRead<Args = ()>, B: BinRead<Args = ()>, C: BinRead<Args = ()>, D: BinRead<Args = ()>, E: BinRead<Args = ()>, F: BinRead<Args = ()>, G: BinRead<Args = ()>, H: BinRead<Args = ()>, I: BinRead<Args = ()>, J: BinRead<Args = ()>, K: BinRead<Args = ()>, L: BinRead<Args = ()>, M: BinRead<Args = ()>, N: BinRead<Args = ()>, O: BinRead<Args = ()>, P: BinRead<Args = ()>, Q: BinRead<Args = ()>, R: BinRead<Args = ()>, S: BinRead<Args = ()>, T: BinRead<Args = ()>, U: BinRead<Args = ()>, V: BinRead<Args = ()>, W: BinRead<Args = ()>, X: BinRead<Args = ()>, Y: BinRead<Args = ()>, Z: BinRead<Args = ()>, AA: BinRead<Args = ()>, AB: BinRead<Args = ()>, AC: BinRead<Args = ()>, AD: BinRead<Args = ()>>(
    model: (A::Model, B::Model, C::Model, D::Model, E::Model, F::Model, G::Model, H::Model, I::Model, J::Model, K::Model, L::Model, M::Model, N::Model, O::Model, P::Model, Q::Model, R::Model, S::Model, T::Model, U::Model, V::Model, W::Model, X::Model, Y::Model, Z::Model, AA::Model, AB::Model, AC::Model, AD::Model),
    data: Seq<u8>,
    options: OptionsView,
) -> Resolved<(A::Model, B::Model, C::Model, D::Model, E::Model, F::Model, G::Model, H::Model, I::Model, J::Model, K::Model, L::Model, M::Model, N::Model, O::Model, P::Model, Q::Model, R::Model, S::Model, T::Model, U::Model, V::Model, W::Model, X::Model, Y::Model, Z::Model, AA::Model, AB::Model, AC::Model, AD::Model)> {
    match A::resolve_spec(model.0, data, options, ()) {
        Err(e) => Err(e),
        Ok(a) => {
            match B::resolve_spec(model.1, data, options, ()) {
                Err(e) => Err(e),
                Ok(b) => {
                    match C::resolve_spec(model.2, data, options, ()) {
                        Err(e) => Err(e),
                        Ok(c) => {
                            match D::resolve_spec(model.3, data, options, ()) {
                                Err(e) => Err(e),
                                Ok(d) => {
                                    match E::resolve_spec(model.4, data, options, ()) {
                                        Err(e) => Err(e),
                                        Ok(e) => {
                                            match F::resolve_spec(model.5, data, options, ()) {
                                                Err(e) => Err(e),
                                                Ok(f) => {
                                                    match G::resolve_spec(model.6, data, options, ()) {
                                                        Err(e) => Err(e),
                                                        Ok(g) => {
                                                            match H::resolve_spec(model.7, data, options, ()) {
                                                                Err(e) => Err(e),
                                                                Ok(h) => {
                                                                    match I::resolve_spec(model.8, data, options, ()) {
                                                                        Err(e) => Err(e),
                                                                        Ok(i) => {
                                                                            match J::resolve_spec(model.9, data, options, ()) {
                                                                                Err(e) => Err(e),
                                                                                Ok(j) => {
                                                                                    match K::resolve_spec(model.10, data, options, ()) {
                                                                                        Err(e) => Err(e),
                                                                                        Ok(k) => {
                                                                                            match L::resolve_spec(model.11, data, options, ()) {
                                                                                                Err(e) => Err(e),
                                                                                                Ok(l) => {
                                                                                                    match M::resolve_spec(model.12, data, options, ()) {
                                                                                                        Err(e) => Err(e),
                                                                                                        Ok(m) => {
                                                                                                            match N::resolve_spec(model.13, data, options, ()) {
                                                                                                                Err(e) => Err(e),
                                                                                                                Ok(n) => {
                                                                                                                    match O::resolve_spec(model.14, data, options, ()) {
                                                                                                                        Err(e) => Err(e),
                                                                                                                        Ok(o) => {
                                                                                                                            match P::resolve_spec(model.15, data, options, ()) {
                                                                                                                                Err(e) => Err(e),
                                                                                                                                Ok(p) => {
                                                                                                                                    match Q::resolve_spec(model.16, data, options, ()) {
                                                                                                                                        Err(e) => Err(e),
                                                                                                                                        Ok(q) => {
                                                                                                                                            match R::resolve_spec(model.17, data, options, ()) {
                                                                                                                                                Err(e) => Err(e),
                                                                                                                                                Ok(r) => {
                                                                                                                                                    match S::resolve_spec(model.18, data, options, ()) {
                                                                                                                                                        Err(e) => Err(e),
                                                                                                                                                        Ok(s) => {
                                                                                                                                                            match T::resolve_spec(model.19, data, options, ()) {
                                                                                                                                                                Err(e) => Err(e),
                                                                                                                                                                Ok(t) => {
                                                                                                                                                                    match U::resolve_spec(model.20, data, options, ()) {
                                                                                                                                                                        Err(e) => Err(e),
                                                                                                                                                                        Ok(u) => {
                                                                                                                                                                            match V::resolve_spec(model.21, data, options, ()) {
                                                                                                                                                                                Err(e) => Err(e),
                                                                                                                                                                                Ok(v) => {
                                                                                                                                                                                    match W::resolve_spec(model.22, data, options, ()) {
                                                                                                                                                                                        Err(e) => Err(e),
                                                                                                                                                                                        Ok(w) => {
                                                                                                                                                                                            match X::resolve_spec(model.23, data, options, ()) {
                                                                                                                                                                                                Err(e) => Err(e),
                                                                                                                                                                                                Ok(x) => {
                                                                                                                                                                                                    match Y::resolve_spec(model.24, data, options, ()) {
                                                                                                                                                                                                        Err(e) => Err(e),
                                                                                                                                                                                                        Ok(y) => {
                                                                                                                                                                                                            match Z::resolve_spec(model.25, data, options, ()) {
                                                                                                                                                                                                                Err(e) => Err(e),
                                                                                                                                                                                                                Ok(z) => {
                                                                                                                                                                                                                    match AA::resolve_spec(model.26, data, options, ()) {
                                                                                                                                                                                                                        Err(e) => Err(e),
                                                                                                                                                                                                                        Ok(aa) => {
                                                                                                                                                                                                                            match AB::resolve_spec(model.27, data, options, ()) {
                                                                                                                                                                                                                                Err(e) => Err(e),
                                                                                                                                                                                                                                Ok(ab) => {
                                                                                                                                                                                                                                    match AC::resolve_spec(model.28, data, options, ()) {
                                                                                                                                                                                                                                        Err(e) => Err(e),
                                                                                                                                                                                                                                        Ok(ac) => {
                                                                                                                                                                                                                                            match AD::resolve_spec(model.29, data, options, ()) {
                                                                                                                                                                                                                                                Err(e) => Err(e),
                                                                                                                                                                                                                                                Ok(ad) => Ok((a, b, c, d, e, f, g, h, i, j, k, l, m, n, o, p, q, r, s, t, u, v, w, x, y, z, aa, ab, ac, ad)),
                                                                                                                                                                                                                                            }
                                                                                                                                                                                                                                        },
                                                                                                                                                                                                                                    }
                                                                                                                                                                                                                                },
                                                                                                                                                                                                                            }
                                                                                                                                                                                                                        },
                                                                                                                                                                                                                    }
                                                                                                                                                                                                                },
                                                                                                                                                                                                            }
                                                                                                                                                                                                        },
                                                                                                                                                                                                    }
                                                                                                                                                                                                },
                                                                                                                                                                                            }
                                                                                                                                                                                        },
                                                                                                                                                                                    }
                                                                                                                                                                                },
                                                                                                                                                                            }
                                                                                                                                                                        },
                                                                                                                                                                    }
                                                                                                                                                                },
                                                                                                                                                            }
                                                                                                                                                        },
                                                                                                                                                    }
                                                                                                                                                },
                                                                                                                                            }
                                                                                                                                        },
                                                                                                                                    }
                                                                                                                                },
                                                                                                                            }
                                                                                                                        },
                                                                                                                    }
                                                                                                                },
                                                                                                            }
                                                                                                        },
                                                                                                    }
                                                                                                },
                                                                                            }
                                                                                        },
                                                                                    }
                                                                                },
                                                                            }
                                                                        },
                                                                    }
                                                                },
                                                            }
                                                        },
                                                    }
                                                },
                                            }
                                        },
                                    }
                                },
                            }
                        },
                    }
                },
            }
        },
    }
}

impl<A: BinRead<Args = ()>, B: BinRead<Args = ()>, C: BinRead<Args = ()>, D: BinRead<Args = ()>, E: BinRead<Args = ()>, F: BinRead<Args = ()>, G: BinRead<Args = ()>, H: BinRead<Args = ()>, I: BinRead<Args = ()>, J: BinRead<Args = ()>, K: BinRead<Args = ()>, L: BinRead<Args = ()>, M: BinRead<Args = ()>, N: BinRead<Args = ()>, O: BinRead<Args = ()>, P: BinRead<Args = ()>, Q: BinRead<Args = ()>, R: BinRead<Args = ()>, S: BinRead<Args = ()>, T: BinRead<Args = ()>, U: BinRead<Args = ()>, V: BinRead<Args = ()>, W: BinRead<Args = ()>, X: BinRead<Args = ()>, Y: BinRead<Args = ()>, Z: BinRead<Args = ()>, AA: BinRead<Args = ()>, AB: BinRead<Args = ()>, AC: BinRead<Args = ()>, AD: BinRead<Args = ()>> BinRead for (A, B, C, D, E, F, G, H, I, J, K, L, M, N, O, P, Q, R, S, T, U, V, W, X, Y, Z, AA, AB, AC, AD) {
    type Args = ();

    type Model = (A::Model, B::Model, C::Model, D::Model, E::Model, F::Model, G::Model, H::Model, I::Model, J::Model, K::Model, L::Model, M::Model, N::Model, O::Model, P::Model, Q::Model, R::Model, S::Model, T::Model, U::Model, V::Model, W::Model, X::Model, Y::Model, Z::Model, AA::Model, AB::Model, AC::Model, AD::Model);

    open spec fn model(&self) -> (A::Model, B::Model, C::Model, D::Model, E::Model, F::Model, G::Model, H::Model, I::Model, J::Model, K::Model, L::Model, M::Model, N::Model, O::Model, P::Model, Q::Model, R::Model, S::Model, T::Model, U::Model, V::Model, W::Model, X::Model, Y::Model, Z::Model, AA::Model, AB::Model, AC::Model, AD::Model) {
        (self.0.model(), self.1.model(), self.2.model(), self.3.model(), self.4.model(), self.5.model(), self.6.model(), self.7.model(), self.8.model(), self.9.model(), self.10.model(), self.11.model(), self.12.model(), self.13.model(), self.14.model(), self.15.model(), self.16.model(), self.17.model(), self.18.model(), self.19.model(), self.20.model(), self.21.model(), self.22.model(), self.23.model(), self.24.model(), self.25.model(), self.26.model(), self.27.model(), self.28.model(), self.29.model())
    }

    open spec fn read_spec(stream: Stream, options: OptionsView, args: ()) -> Outcome<
        (A::Model, B::Model, C::Model, D::Model, E::Model, F::Model, G::Model, H::Model, I::Model, J::Model, K::Model, L::Model, M::Model, N::Model, O::Model, P::Model, Q::Model, R::Model, S::Model, T::Model, U::Model, V::Model, W::Model, X::Model, Y::Model, Z::Model, AA::Model, AB::Model, AC::Model, AD::Model),
    > {
        read_tuple30::<A, B, C, D, E, F, G, H, I, J, K, L, M, N, O, P, Q, R, S, T, U, V, W, X, Y, Z, AA, AB, AC, AD>(stream, options)
    }

    open spec fn resolve_spec(
        model: (A::Model, B::Model, C::Model, D::Model, E::Model, F::Model, G::Model, H::Model, I::Model, J::Model, K::Model, L::Model, M::Model, N::Model, O::Model, P::Model, Q::Model, R::Model, S::Model, T::Model, U::Model, V::Model, W::Model, X::Model, Y::Model, Z::Model, AA::Model, AB::Model, AC::Model, AD::Model),
        data: Seq<u8>,
        options: OptionsView,
        args: (),
    ) -> Resolved<(A::Model, B::Model, C::Model, D::Model, E::Model, F::Model, G::Model, H::Model, I::Model, J::Model, K::Model, L::Model, M::Model, N::Model, O::Model, P::Model, Q::Model, R::Model, S::Model, T::Model, U::Model, V::Model, W::Model, X::Model, Y::Model, Z::Model, AA::Model, AB::Model, AC::Model, AD::Model)> {
        resolve_tuple30::<A, B, C, D, E, F, G, H, I, J, K, L, M, N, O, P, Q, R, S, T, U, V, W, X, Y, Z, AA, AB, AC, AD>(model, data, options)
    }

    fn read_options(reader: &mut Cursor, options: &ReadOptions, args: &()) -> (r: BinResult<
        (A, B, C, D, E, F, G, H, I, J, K, L, M, N, O, P, Q, R, S, T, U, V, W, X, Y, Z, AA, AB, AC, AD),
    >) {
        assert(reader@ == old(reader)@.at(reader@.pos));
        let a: A = match A::read_options(reader, options, &()) {
            Ok(v) => v,
            Err(e) => {
                return Err(e);
            },
        };
        assert(reader@ == old(reader)@.at(reader@.pos));
        let b: B = match B::read_options(reader, options, &()) {
            Ok(v) => v,
            Err(e) => {
                return Err(e);
            },
        };
        assert(reader@ == old(reader)@.at(reader@.pos));
        let c: C = match C::read_options(reader, options, &()) {
            Ok(v) => v,
            Err(e) => {
                return Err(e);
            },
        };
        assert(reader@ == old(reader)@.at(reader@.pos));
        let d: D = match D::read_options(reader, options, &()) {
            Ok(v) => v,
            Err(e) => {
                return Err(e);
            },
        };
        assert(reader@ == old(reader)@.at(reader@.pos));
        let e: E = match E::read_options(reader, options, &()) {
            Ok(v) => v,
            Err(e) => {
                return Err(e);
            },
        };
        assert(reader@ == old(reader)@.at(reader@.pos));
        let f: F = match F::read_options(reader, options, &()) {
            Ok(v) => v,
            Err(e) => {
                return Err(e);
            },
        };
        assert(reader@ == old(reader)@.at(reader@.pos));
        let g: G = match G::read_options(reader, options, &()) {
            Ok(v) => v,
            Err(e) => {
                return Err(e);
            },
        };
        assert(reader@ == old(reader)@.at(reader@.pos));
        let h: H = match H::read_options(reader, options, &()) {
            Ok(v) => v,
            Err(e) => {
                return Err(e);
            },
        };
        assert(reader@ == old(reader)@.at(reader@.pos));
        let i: I = match I::read_options(reader, options, &()) {
            Ok(v) => v,
            Err(e) => {
                return Err(e);
            },
        };
        assert(reader@ == old(reader)@.at(reader@.pos));
        let j: J = match J::read_options(reader, options, &()) {
            Ok(v) => v,
            Err(e) => {
                return Err(e);
            },
        };
        assert(reader@ == old(reader)@.at(reader@.pos));
        let k: K = match K::read_options(reader, options, &()) {
            Ok(v) => v,
            Err(e) => {
                return Err(e);
            },
        };
        assert(reader@ == old(reader)@.at(reader@.pos));
        let l: L = match L::read_options(reader, options, &()) {
            Ok(v) => v,
            Err(e) => {
                return Err(e);
            },
        };
        assert(reader@ == old(reader)@.at(reader@.pos));
        let m: M = match M::read_options(reader, options, &()) {
            Ok(v) => v,
            Err(e) => {
                return Err(e);
            },
        };
        assert(reader@ == old(reader)@.at(reader@.pos));
        let n: N = match N::read_options(reader, options, &()) {
            Ok(v) => v,
            Err(e) => {
                return Err(e);
            },
        };
        assert(reader@ == old(reader)@.at(reader@.pos));
        let o: O = match O::read_options(reader, options, &()) {
            Ok(v) => v,
            Err(e) => {
                return Err(e);
            },
        };
        assert(reader@ == old(reader)@.at(reader@.pos));
        let p: P = match P::read_options(reader, options, &()) {
            Ok(v) => v,
            Err(e) => {
                return Err(e);
            },
        };
        assert(reader@ == old(reader)@.at(reader@.pos));
        let q: Q = match Q::read_options(reader, options, &()) {
            Ok(v) => v,
            Err(e) => {
                return Err(e);
            },
        };
        assert(reader@ == old(reader)@.at(reader@.pos));
        let r: R = match R::read_options(reader, options, &()) {
            Ok(v) => v,
            Err(e) => {
                return Err(e);
            },
        };
        assert(reader@ == old(reader)@.at(reader@.pos));
        let s: S = match S::read_options(reader, options, &()) {
            Ok(v) => v,
            Err(e) => {
                return Err(e);
            },
        };
        assert(reader@ == old(reader)@.at(reader@.pos));
        let t: T = match T::read_options(reader, options, &()) {
            Ok(v) => v,
            Err(e) => {
                return Err(e);
            },
        };
        assert(reader@ == old(reader)@.at(reader@.pos));
        let u: U = match U::read_options(reader, options, &()) {
            Ok(v) => v,
            Err(e) => {
                return Err(e);
            },
        };
        assert(reader@ == old(reader)@.at(reader@.pos));
        let v: V = match V::read_options(reader, options, &()) {
            Ok(v) => v,
            Err(e) => {
                return Err(e);
            },
        };
        assert(reader@ == old(reader)@.at(reader@.pos));
        let w: W = match W::read_options(reader, options, &()) {
            Ok(v) => v,
            Err(e) => {
                return Err(e);
            },
        };
        assert(reader@ == old(reader)@.at(reader@.pos));
        let x: X = match X::read_options(reader, options, &()) {
            Ok(v) => v,
            Err(e) => {
                return Err(e);
            },
        };
        assert(reader@ == old(reader)@.at(reader@.pos));
        let y: Y = match Y::read_options(reader, options, &()) {
            Ok(v) => v,
            Err(e) => {
                return Err(e);
            },
        };
        assert(reader@ == old(reader)@.at(reader@.pos));
        let z: Z = match Z::read_options(reader, options, &()) {
            Ok(v) => v,
            Err(e) => {
                return Err(e);
            },
        };
        assert(reader@ == old(reader)@.at(reader@.pos));
        let aa: AA = match AA::read_options(reader, options, &()) {
            Ok(v) => v,
            Err(e) => {
                return Err(e);
            },
        };
        assert(reader@ == old(reader)@.at(reader@.pos));
        let ab: AB = match AB::read_options(reader, options, &()) {
            Ok(v) => v,
            Err(e) => {
                return Err(e);
            },
        };
        assert(reader@ == old(reader)@.at(reader@.pos));
        let ac: AC = match AC::read_options(reader, options, &()) {
            Ok(v) => v,
            Err(e) => {
                return Err(e);
            },
        };
        assert(reader@ == old(reader)@.at(reader@.pos));
        let ad: AD = match AD::read_options(reader, options, &()) {
            Ok(v) => v,
            Err(e) => {
                return Err(e);
            },
        };
        Ok((a, b, c, d, e, f, g, h, i, j, k, l, m, n, o, p, q, r, s, t, u, v, w, x, y, z, aa, ab, ac, ad))
    }

    fn after_parse(&mut self, reader: &mut Cursor, options: &ReadOptions, args: &()) -> (r:
        BinResult<()>) {
        match self.0.after_parse(reader, options, &()) {
            Ok(()) => {},
            Err(e) => {
                return Err(e);
            },
        }
        match self.1.after_parse(reader, options, &()) {
            Ok(()) => {},
            Err(e) => {
                return Err(e);
            },
        }
        match self.2.after_parse(reader, options, &()) {
            Ok(()) => {},
            Err(e) => {
                return Err(e);
            },
        }
        match self.3.after_parse(reader, options, &()) {
            Ok(()) => {},
            Err(e) => {
                return Err(e);
            },
        }
        match self.4.after_parse(reader, options, &()) {
            Ok(()) => {},
            Err(e) => {
                return Err(e);
            },
        }
        match self.5.after_parse(reader, options, &()) {
            Ok(()) => {},
            Err(e) => {
                return Err(e);
            },
        }
        match self.6.after_parse(reader, options, &()) {
            Ok(()) => {},
            Err(e) => {
                return Err(e);
            },
        }
        match self.7.after_parse(reader, options, &()) {
            Ok(()) => {},
            Err(e) => {
                return Err(e);
            },
        }
        match self.8.after_parse(reader, options, &()) {
            Ok(()) => {},
            Err(e) => {
                return Err(e);
            },
        }
        match self.9.after_parse(reader, options, &()) {
            Ok(()) => {},
            Err(e) => {
                return Err(e);
            },
        }
        match self.10.after_parse(reader, options, &()) {
            Ok(()) => {},
            Err(e) => {
                return Err(e);
            },
        }
        match self.11.after_parse(reader, options, &()) {
            Ok(()) => {},
            Err(e) => {
                return Err(e);
            },
        }
        match self.12.after_parse(reader, options, &()) {
            Ok(()) => {},
            Err(e) => {
                return Err(e);
            },
        }
        match self.13.after_parse(reader, options, &()) {
            Ok(()) => {},
            Err(e) => {
                return Err(e);
            },
        }
        match self.14.after_parse(reader, options, &()) {
            Ok(()) => {},
            Err(e) => {
                return Err(e);
            },
        }
        match self.15.after_parse(reader, options, &()) {
            Ok(()) => {},
            Err(e) => {
                return Err(e);
            },
        }
        match self.16.after_parse(reader, options, &()) {
            Ok(()) => {},
            Err(e) => {
                return Err(e);
            },
        }
        match self.17.after_parse(reader, options, &()) {
            Ok(()) => {},
            Err(e) => {
                return Err(e);
            },
        }
        match self.18.after_parse(reader, options, &()) {
            Ok(()) => {},
            Err(e) => {
                return Err(e);
            },
        }
        match self.19.after_parse(reader, options, &()) {
            Ok(()) => {},
            Err(e) => {
                return Err(e);
            },
        }
        match self.20.after_parse(reader, options, &()) {
            Ok(()) => {},
            Err(e) => {
                return Err(e);
            },
        }
        match self.21.after_parse(reader, options, &()) {
            Ok(()) => {},
            Err(e) => {
                return Err(e);
            },
        }
        match self.22.after_parse(reader, options, &()) {
            Ok(()) => {},
            Err(e) => {
                return Err(e);
            },
        }
        match self.23.after_parse(reader, options, &()) {
            Ok(()) => {},
            Err(e) => {
                return Err(e);
            },
        }
        match self.24.after_parse(reader, options, &()) {
            Ok(()) => {},
            Err(e) => {
                return Err(e);
            },
        }
        match self.25.after_parse(reader, options, &()) {
            Ok(()) => {},
            Err(e) => {
                return Err(e);
            },
        }
        match self.26.after_parse(reader, options, &()) {
            Ok(()) => {},
            Err(e) => {
                return Err(e);
            },
        }
        match self.27.after_parse(reader, options, &()) {
            Ok(()) => {},
            Err(e) => {
                return Err(e);
            },
        }
        match self.28.after_parse(reader, options, &()) {
            Ok(()) => {},
            Err(e) => {
                return Err(e);
            },
        }
        self.29.after_parse(reader, options, &())
    }
}

/// The thirty-one members of a tuple, one after the other.
pub open spec fn read_tuple31<A: BinRead<Args = ()>, B: BinRead<Args = ()>, C: BinRead<Args = ()>, D: BinRead<Args = ()>, E: BinRead<Args = ()>, F: BinRead<Args = ()>, G: BinRead<Args = ()>, H: BinRead<Args = ()>, I: BinRead<Args = ()>, J: BinRead<Args = ()>, K: BinRead<Args = ()>, L: BinRead<Args = ()>, M: BinRead<Args = ()>, N: BinRead<Args = ()>, O: BinRead<Args = ()>, P: BinRead<Args = ()>, Q: BinRead<Args = ()>, R: BinRead<Args = ()>, S: BinRead<Args = ()>, T: BinRead<Args = ()>, U: BinRead<Args = ()>, V: BinRead<Args = ()>, W: BinRead<Args = ()>, X: BinRead<Args = ()>, Y: BinRead<Args = ()>, Z: BinRead<Args = ()>, AA: BinRead<Args = ()>, AB: BinRead<Args = ()>, AC: BinRead<Args = ()>, AD: BinRead<Args = ()>, AE: BinRead<Args = ()>>(
    stream: Stream,
    options: OptionsView,
) -> Outcome<(A::Model, B::Model, C::Model, D::Model, E::Model, F::Model, G::Model, H::Model, I::Model, J::Model, K::Model, L::Model, M::Model, N::Model, O::Model, P::Model, Q::Model, R::Model, S::Model, T::Model, U::Model, V::Model, W::Model, X::Model, Y::Model, Z::Model, AA::Model, AB::Model, AC::Model, AD::Model, AE::Model)> {
    match A::read_spec(stream, options, ()) {
        Err(e) => Err(e),
        Ok((a, after_a)) => {
            match B::read_spec(stream.at(after_a), options, ()) {
                Err(e) => Err(e),
                Ok((b, after_b)) => {
                    match C::read_spec(stream.at(after_b), options, ()) {
                        Err(e) => Err(e),
                        Ok((c, after_c)) => {
                            match D::read_spec(stream.at(after_c), options, ()) {
                                Err(e) => Err(e),
                                Ok((d, after_d)) => {
                                    match E::read_spec(stream.at(after_d), options, ()) {
                                        Err(e) => Err(e),
                                        Ok((e, after_e)) => {
                                            match F::read_spec(stream.at(after_e), options, ()) {
                                                Err(e) => Err(e),
                                                Ok((f, after_f)) => {
                                                    match G::read_spec(stream.at(after_f), options, ()) {
                                                        Err(e) => Err(e),
                                                        Ok((g, after_g)) => {
                                                            match H::read_spec(stream.at(after_g), options, ()) {
                                                                Err(e) => Err(e),
                                                                Ok((h, after_h)) => {
                                                                    match I::read_spec(stream.at(after_h), options, ()) {
                                                                        Err(e) => Err(e),
                                                                        Ok((i, after_i)) => {
                                                                            match J::read_spec(stream.at(after_i), options, ()) {
                                                                                Err(e) => Err(e),
                                                                                Ok((j, after_j)) => {
                                                                                    match K::read_spec(stream.at(after_j), options, ()) {
                                                                                        Err(e) => Err(e),
                                                                                        Ok((k, after_k)) => {
                                                                                            match L::read_spec(stream.at(after_k), options, ()) {
                                                                                                Err(e) => Err(e),
                                                                                                Ok((l, after_l)) => {
                                                                                                    match M::read_spec(stream.at(after_l), options, ()) {
                                                                                                        Err(e) => Err(e),
                                                                                                        Ok((m, after_m)) => {
                                                                                                            match N::read_spec(stream.at(after_m), options, ()) {
                                                                                                                Err(e) => Err(e),
                                                                                                                Ok((n, after_n)) => {
                                                                                                                    match O::read_spec(stream.at(after_n), options, ()) {
                                                                                                                        Err(e) => Err(e),
                                                                                                                        Ok((o, after_o)) => {
                                                                                                                            match P::read_spec(stream.at(after_o), options, ()) {
                                                                                                                                Err(e) => Err(e),
                                                                                                                                Ok((p, after_p)) => {
                                                                                                                                    match Q::read_spec(stream.at(after_p), options, ()) {
                                                                                                                                        Err(e) => Err(e),
                                                                                                                                        Ok((q, after_q)) => {
                                                                                                                                            match R::read_spec(stream.at(after_q), options, ()) {
                                                                                                                                                Err(e) => Err(e),
                                                                                                                                                Ok((r, after_r)) => {
                                                                                                                                                    match S::read_spec(stream.at(after_r), options, ()) {
                                                                                                                                                        Err(e) => Err(e),
                                                                                                                                                        Ok((s, after_s)) => {
                                                                                                                                                            match T::read_spec(stream.at(after_s), options, ()) {
                                                                                                                                                                Err(e) => Err(e),
                                                                                                                                                                Ok((t, after_t)) => {
                                                                                                                                                                    match U::read_spec(stream.at(after_t), options, ()) {
                                                                                                                                                                        Err(e) => Err(e),
                                                                                                                                                                        Ok((u, after_u)) => {
                                                                                                                                                                            match V::read_spec(stream.at(after_u), options, ()) {
                                                                                                                                                                                Err(e) => Err(e),
                                                                                                                                                                                Ok((v, after_v)) => {
                                                                                                                                                                                    match W::read_spec(stream.at(after_v), options, ()) {
                                                                                                                                                                                        Err(e) => Err(e),
                                                                                                                                                                                        Ok((w, after_w)) => {
                                                                                                                                                                                            match X::read_spec(stream.at(after_w), options, ()) {
                                                                                                                                                                                                Err(e) => Err(e),
                                                                                                                                                                                                Ok((x, after_x)) => {
                                                                                                                                                                                                    match Y::read_spec(stream.at(after_x), options, ()) {
                                                                                                                                                                                                        Err(e) => Err(e),
                                                                                                                                                                                                        Ok((y, after_y)) => {
                                                                                                                                                                                                            match Z::read_spec(stream.at(after_y), options, ()) {
                                                                                                                                                                                                                Err(e) => Err(e),
                                                                                                                                                                                                                Ok((z, after_z)) => {
                                                                                                                                                                                                                    match AA::read_spec(stream.at(after_z), options, ()) {
                                                                                                                                                                                                                        Err(e) => Err(e),
                                                                                                                                                                                                                        Ok((aa, after_aa)) => {
                                                                                                                                                                                                                            match AB::read_spec(stream.at(after_aa), options, ()) {
                                                                                                                                                                                                                                Err(e) => Err(e),
                                                                                                                                                                                                                                Ok((ab, after_ab)) => {
                                                                                                                                                                                                                                    match AC::read_spec(stream.at(after_ab), options, ()) {
                                                                                                                                                                                                                                        Err(e) => Err(e),
                                                                                                                                                                                                                                        Ok((ac, after_ac)) => {
                                                                                                                                                                                                                                            match AD::read_spec(stream.at(after_ac), options, ()) {
                                                                                                                                                                                                                                                Err(e) => Err(e),
                                                                                                                                                                                                                                                Ok((ad, after_ad)) => {
                                                                                                                                                                                                                                                    match AE::read_spec(stream.at(after_ad), options, ()) {
                                                                                                                                                                                                                                                        Err(e) => Err(e),
                                                                                                                                                                                                                                                        Ok((ae, after_ae)) => Ok(((a, b, c, d, e, f, g, h, i, j, k, l, m, n, o, p, q, r, s, t, u, v, w, x, y, z, aa, ab, ac, ad, ae), after_ae)),
                                                                                                                                                                                                                                                    }
                                                                                                                                                                                                                                                },
                                                                                                                                                                                                                                            }
                                                                                                                                                                                                                                        },
                                                                                                                                                                                                                                    }
                                                                                                                                                                                                                                },
                                                                                                                                                                                                                            }
                                                                                                                                                                                                                        },
                                                                                                                                                                                                                    }
                                                                                                                                                                                                                },
                                                                                                                                                                                                            }
                                                                                                                                                                                                        },
                                                                                                                                                                                                    }
                                                                                                                                                                                                },
                                                                                                                                                                                            }
                                                                                                                                                                                        },
                                                                                                                                                                                    }
                                                                                                                                                                                },
                                                                                                                                                                            }
                                                                                                                                                                        },
                                                                                                                                                                    }
                                                                                                                                                                },
                                                                                                                                                            }
                                                                                                                                                        },
                                                                                                                                                    }
                                                                                                                                                },
                                                                                                                                            }
                                                                                                                                        },
                                                                                                                                    }
                                                                                                                                },
                                                                                                                            }
                                                                                                                        },
                                                                                                                    }
                                                                                                                },
                                                                                                            }
                                                                                                        },
                                                                                                    }
                                                                                                },
                                                                                            }
                                                                                        },
                                                                                    }
                                                                                },
                                                                            }
                                                                        },
                                                                    }
                                                                },
                                                            }
                                                        },
                                                    }
                                                },
                                            }
                                        },
                                    }
                                },
                            }
                        },
                    }
                },
            }
        },
    }
}

/// Phase two on the thirty-one members of a tuple, in the order in which they were
/// read.
pub open spec fn resolve_tuple31<A: BinRead<Args = ()>, B: BinRead<Args = ()>, C: BinRead<Args = ()>, D: BinRead<Args = ()>, E: BinRead<Args = ()>, F: BinRead<Args = ()>, G: BinRead<Args = ()>, H: BinRead<Args = ()>, I: BinRead<Args = ()>, J: BinRead<Args = ()>, K: BinRead<Args = ()>, L: BinRead<Args = ()>, M: BinRead<Args = ()>, N: BinRead<Args = ()>, O: BinRead<Args = ()>, P: BinRead<Args = ()>, Q: BinRead<Args = ()>, R: BinRead<Args = ()>, S: BinRead<Args = ()>, T: BinRead<Args = ()>, U: BinRead<Args = ()>, V: BinRead<Args = ()>, W: BinRead<Args = ()>, X: BinRead<Args = ()>, Y: BinRead<Args = ()>, Z: BinRead<Args = ()>, AA: BinRead<Args = ()>, AB: BinRead<Args = ()>, AC: BinRead<Args = ()>, AD: BinRead<Args = ()>, AE: BinRead<Args = ()>>(
    model: (A::Model, B::Model, C::Model, D::Model, E::Model, F::Model, G::Model, H::Model, I::Model, J::Model, K::Model, L::Model, M::Model, N::Model, O::Model, P::Model, Q::Model, R::Model, S::Model, T::Model, U::Model, V::Model, W::Model, X::Model, Y::Model, Z::Model, AA::Model, AB::Model, AC::Model, AD::Model, AE::Model),
    data: Seq<u8>,
    options: OptionsView,
) -> Resolved<(A::Model, B::Model, C::Model, D::Model, E::Model, F::Model, G::Model, H::Model, I::Model, J::Model, K::Model, L::Model, M::Model, N::Model, O::Model, P::Model, Q::Model, R::Model, S::Model, T::Model, U::Model, V::Model, W::Model, X::Model, Y::Model, Z::Model, AA::Model, AB::Model, AC::Model, AD::Model, AE::Model)> {
    match A::resolve_spec(model.0, data, options, ()) {
        Err(e) => Err(e),
        Ok(a) => {
            match B::resolve_spec(model.1, data, options, ()) {
                Err(e) => Err(e),
                Ok(b) => {
                    match C::resolve_spec(model.2, data, options, ()) {
                        Err(e) => Err(e),
                        Ok(c) => {
                            match D::resolve_spec(model.3, data, options, ()) {
                                Err(e) => Err(e),
                                Ok(d) => {
                                    match E::resolve_spec(model.4, data, options, ()) {
                                        Err(e) => Err(e),
                                        Ok(e) => {
                                            match F::resolve_spec(model.5, data, options, ()) {
                                                Err(e) => Err(e),
                                                Ok(f) => {
                                                    match G::resolve_spec(model.6, data, options, ()) {
                                                        Err(e) => Err(e),
                                                        Ok(g) => {
                                                            match H::resolve_spec(model.7, data, options, ()) {
                                                                Err(e) => Err(e),
                                                                Ok(h) => {
                                                                    match I::resolve_spec(model.8, data, options, ()) {
                                                                        Err(e) => Err(e),
                                                                        Ok(i) => {
                                                                            match J::resolve_spec(model.9, data, options, ()) {
                                                                                Err(e) => Err(e),
                                                                                Ok(j) => {
                                                                                    match K::resolve_spec(model.10, data, options, ()) {
                                                                                        Err(e) => Err(e),
                                                                                        Ok(k) => {
                                                                                            match L::resolve_spec(model.11, data, options, ()) {
                                                                                                Err(e) => Err(e),
                                                                                                Ok(l) => {
                                                                                                    match M::resolve_spec(model.12, data, options, ()) {
                                                                                                        Err(e) => Err(e),
                                                                                                        Ok(m) => {
                                                                                                            match N::resolve_spec(model.13, data, options, ()) {
                                                                                                                Err(e) => Err(e),
                                                                                                                Ok(n) => {
                                                                                                                    match O::resolve_spec(model.14, data, options, ()) {
                                                                                                                        Err(e) => Err(e),
                                                                                                                        Ok(o) => {
                                                                                                                            match P::resolve_spec(model.15, data, options, ()) {
                                                                                                                                Err(e) => Err(e),
                                                                                                                                Ok(p) => {
                                                                                                                                    match Q::resolve_spec(model.16, data, options, ()) {
                                                                                                                                        Err(e) => Err(e),
                                                                                                                                        Ok(q) => {
                                                                                                                                            match R::resolve_spec(model.17, data, options, ()) {
                                                                                                                                                Err(e) => Err(e),
                                                                                                                                                Ok(r) => {
                                                                                                                                                    match S::resolve_spec(model.18, data, options, ()) {
                                                                                                                                                        Err(e) => Err(e),
                                                                                                                                                        Ok(s) => {
                                                                                                                                                            match T::resolve_spec(model.19, data, options, ()) {
                                                                                                                                                                Err(e) => Err(e),
                                                                                                                                                                Ok(t) => {
                                                                                                                                                                    match U::resolve_spec(model.20, data, options, ()) {
                                                                                                                                                                        Err(e) => Err(e),
                                                                                                                                                                        Ok(u) => {
                                                                                                                                                                            match V::resolve_spec(model.21, data, options, ()) {
                                                                                                                                                                                Err(e) => Err(e),
                                                                                                                                                                                Ok(v) => {
                                                                                                                                                                                    match W::resolve_spec(model.22, data, options, ()) {
                                                                                                                                                                                        Err(e) => Err(e),
                                                                                                                                                                                        Ok(w) => {
                                                                                                                                                                                            match X::resolve_spec(model.23, data, options, ()) {
                                                                                                                                                                                                Err(e) => Err(e),
                                                                                                                                                                                                Ok(x) => {
                                                                                                                                                                                                    match Y::resolve_spec(model.24, data, options, ()) {
                                                                                                                                                                                                        Err(e) => Err(e),
                                                                                                                                                                                                        Ok(y) => {
                                                                                                                                                                                                            match Z::resolve_spec(model.25, data, options, ()) {
                                                                                                                                                                                                                Err(e) => Err(e),
                                                                                                                                                                                                                Ok(z) => {
                                                                                                                                                                                                                    match AA::resolve_spec(model.26, data, options, ()) {
                                                                                                                                                                                                                        Err(e) => Err(e),
                                                                                                                                                                                                                        Ok(aa) => {
                                                                                                                                                                                                                            match AB::resolve_spec(model.27, data, options, ()) {
                                                                                                                                                                                                                                Err(e) => Err(e),
                                                                                                                                                                                                                                Ok(ab) => {
                                                                                                                                                                                                                                    match AC::resolve_spec(model.28, data, options, ()) {
                                                                                                                                                                                                                                        Err(e) => Err(e),
                                                                                                                                                                                                                                        Ok(ac) => {
                                                                                                                                                                                                                                            match AD::resolve_spec(model.29, data, options, ()) {
                                                                                                                                                                                                                                                Err(e) => Err(e),
                                                                                                                                                                                                                                                Ok(ad) => {
                                                                                                                                                                                                                                                    match AE::resolve_spec(model.30, data, options, ()) {
                                                                                                                                                                                                                                                        Err(e) => Err(e),
                                                                                                                                                                                                                                                        Ok(ae) => Ok((a, b, c, d, e, f, g, h, i, j, k, l, m, n, o, p, q, r, s, t, u, v, w, x, y, z, aa, ab, ac, ad, ae)),
                                                                                                                                                                                                                                                    }
                                                                                                                                                                                                                                                },
                                                                                                                                                                                                                                            }
                                                                                                                                                                                                                                        },
                                                                                                                                                                                                                                    }
                                                                                                                                                                                                                                },
                                                                                                                                                                                                                            }
                                                                                                                                                                                                                        },
                                                                                                                                                                                                                    }
                                                                                                                                                                                                                },
                                                                                                                                                                                                            }
                                                                                                                                                                                                        },
                                                                                                                                                                                                    }
                                                                                                                                                                                                },
                                                                                                                                                                                            }
                                                                                                                                                                                        },
                                                                                                                                                                                    }
                                                                                                                                                                                },
                                                                                                                                                                            }
                                                                                                                                                                        },
                                                                                                                                                                    }
                                                                                                                                                                },
                                                                                                                                                            }
                                                                                                                                                        },
                                                                                                                                                    }
                                                                                                                                                },
                                                                                                                                            }
                                                                                                                                        },
                                                                                                                                    }
                                                                                                                                },
                                                                                                                            }
                                                                                                                        },
                                                                                                                    }
                                                                                                                },
                                                                                                            }
                                                                                                        },
                                                                                                    }
                                                                                                },
                                                                                            }
                                                                                        },
                                                                                    }
                                                                                },
                                                                            }
                                                                        },
                                                                    }
                                                                },
                                                            }
                                                        },
                                                    }
                                                },
                                            }
                                        },
                                    }
                                },
                            }
                        },
                    }
                },
            }
        },
    }
}

impl<A: BinRead<Args = ()>, B: BinRead<Args = ()>, C: BinRead<Args = ()>, D: BinRead<Args = ()>, E: BinRead<Args = ()>, F: BinRead<Args = ()>, G: BinRead<Args = ()>, H: BinRead<Args = ()>, I: BinRead<Args = ()>, J: BinRead<Args = ()>, K: BinRead<Args = ()>, L: BinRead<Args = ()>, M: BinRead<Args = ()>, N: BinRead<Args = ()>, O: BinRead<Args = ()>, P: BinRead<Args = ()>, Q: BinRead<Args = ()>, R: BinRead<Args = ()>, S: BinRead<Args = ()>, T: BinRead<Args = ()>, U: BinRead<Args = ()>, V: BinRead<Args = ()>, W: BinRead<Args = ()>, X: BinRead<Args = ()>, Y: BinRead<Args = ()>, Z: BinRead<Args = ()>, AA: BinRead<Args = ()>, AB: BinRead<Args = ()>, AC: BinRead<Args = ()>, AD: BinRead<Args = ()>, AE: BinRead<Args = ()>> BinRead for (A, B, C, D, E, F, G, H, I, J, K, L, M, N, O, P, Q, R, S, T, U, V, W, X, Y, Z, AA, AB, AC, AD, AE) {
    type Args = ();

    type Model = (A::Model, B::Model, C::Model, D::Model, E::Model, F::Model, G::Model, H::Model, I::Model, J::Model, K::Model, L::Model, M::Model, N::Model, O::Model, P::Model, Q::Model, R::Model, S::Model, T::Model, U::Model, V::Model, W::Model, X::Model, Y::Model, Z::Model, AA::Model, AB::Model, AC::Model, AD::Model, AE::Model);

    open spec fn model(&self) -> (A::Model, B::Model, C::Model, D::Model, E::Model, F::Model, G::Model, H::Model, I::Model, J::Model, K::Model, L::Model, M::Model, N::Model, O::Model, P::Model, Q::Model, R::Model, S::Model, T::Model, U::Model, V::Model, W::Model, X::Model, Y::Model, Z::Model, AA::Model, AB::Model, AC::Model, AD::Model, AE::Model) {
        (self.0.model(), self.1.model(), self.2.model(), self.3.model(), self.4.model(), self.5.model(), self.6.model(), self.7.model(), self.8.model(), self.9.model(), self.10.model(), self.11.model(), self.12.model(), self.13.model(), self.14.model(), self.15.model(), self.16.model(), self.17.model(), self.18.model(), self.19.model(), self.20.model(), self.21.model(), self.22.model(), self.23.model(), self.24.model(), self.25.model(), self.26.model(), self.27.model(), self.28.model(), self.29.model(), self.30.model())
    }

    open spec fn read_spec(stream: Stream, options: OptionsView, args: ()) -> Outcome<
        (A::Model, B::Model, C::Model, D::Model, E::Model, F::Model, G::Model, H::Model, I::Model, J::Model, K::Model, L::Model, M::Model, N::Model, O::Model, P::Model, Q::Model, R::Model, S::Model, T::Model, U::Model, V::Model, W::Model, X::Model, Y::Model, Z::Model, AA::Model, AB::Model, AC::Model, AD::Model, AE::Model),
    > {
        read_tuple31::<A, B, C, D, E, F, G, H, I, J, K, L, M, N, O, P, Q, R, S, T, U, V, W, X, Y, Z, AA, AB, AC, AD, AE>(stream, options)
    }

    open spec fn resolve_spec(
        model: (A::Model, B::Model, C::Model, D::Model, E::Model, F::Model, G::Model, H::Model, I::Model, J::Model, K::Model, L::Model, M::Model, N::Model, O::Model, P::Model, Q::Model, R::Model, S::Model, T::Model, U::Model, V::Model, W::Model, X::Model, Y::Model, Z::Model, AA::Model, AB::Model, AC::Model, AD::Model, AE::Model),
        data: Seq<u8>,
        options: OptionsView,
        args: (),
    ) -> Resolved<(A::Model, B::Model, C::Model, D::Model, E::Model, F::Model, G::Model, H::Model, I::Model, J::Model, K::Model, L::Model, M::Model, N::Model, O::Model, P::Model, Q::Model, R::Model, S::Model, T::Model, U::Model, V::Model, W::Model, X::Model, Y::Model, Z::Model, AA::Model, AB::Model, AC::Model, AD::Model, AE::Model)> {
        resolve_tuple31::<A, B, C, D, E, F, G, H, I, J, K, L, M, N, O, P, Q, R, S, T, U, V, W, X, Y, Z, AA, AB, AC, AD, AE>(model, data, options)
    }

    fn read_options(reader: &mut Cursor, options: &ReadOptions, args: &()) -> (r: BinResult<
        (A, B, C, D, E, F, G, H, I, J, K, L, M, N, O, P, Q, R, S, T, U, V, W, X, Y, Z, AA, AB, AC, AD, AE),
    >) {
        assert(reader@ == old(reader)@.at(reader@.pos));
        let a: A = match A::read_options(reader, options, &()) {
            Ok(v) => v,
            Err(e) => {
                return Err(e);
            },
        };
        assert(reader@ == old(reader)@.at(reader@.pos));
        let b: B = match B::read_options(reader, options, &()) {
            Ok(v) => v,
            Err(e) => {
                return Err(e);
            },
        };
        assert(reader@ == old(reader)@.at(reader@.pos));
        let c: C = match C::read_options(reader, options, &()) {
            Ok(v) => v,
            Err(e) => {
                return Err(e);
            },
        };
        assert(reader@ == old(reader)@.at(reader@.pos));
        let d: D = match D::read_options(reader, options, &()) {
            Ok(v) => v,
            Err(e) => {
                return Err(e);
            },
        };
        assert(reader@ == old(reader)@.at(reader@.pos));
        let e: E = match E::read_options(reader, options, &()) {
            Ok(v) => v,
            Err(e) => {
                return Err(e);
            },
        };
        assert(reader@ == old(reader)@.at(reader@.pos));
        let f: F = match F::read_options(reader, options, &()) {
            Ok(v) => v,
            Err(e) => {
                return Err(e);
            },
        };
        assert(reader@ == old(reader)@.at(reader@.pos));
        let g: G = match G::read_options(reader, options, &()) {
            Ok(v) => v,
            Err(e) => {
                return Err(e);
            },
        };
        assert(reader@ == old(reader)@.at(reader@.pos));
        let h: H = match H::read_options(reader, options, &()) {
            Ok(v) => v,
            Err(e) => {
                return Err(e);
            },
        };
        assert(reader@ == old(reader)@.at(reader@.pos));
        let i: I = match I::read_options(reader, options, &()) {
            Ok(v) => v,
            Err(e) => {
                return Err(e);
            },
        };
        assert(reader@ == old(reader)@.at(reader@.pos));
        let j: J = match J::read_options(reader, options, &()) {
            Ok(v) => v,
            Err(e) => {
                return Err(e);
            },
        };
        assert(reader@ == old(reader)@.at(reader@.pos));
        let k: K = match K::read_options(reader, options, &()) {
            Ok(v) => v,
            Err(e) => {
                return Err(e);
            },
        };
        assert(reader@ == old(reader)@.at(reader@.pos));
        let l: L = match L::read_options(reader, options, &()) {
            Ok(v) => v,
            Err(e) => {
                return Err(e);
            },
        };
        assert(reader@ == old(reader)@.at(reader@.pos));
        let m: M = match M::read_options(reader, options, &()) {
            Ok(v) => v,
            Err(e) => {
                return Err(e);
            },
        };
        assert(reader@ == old(reader)@.at(reader@.pos));
        let n: N = match N::read_options(reader, options, &()) {
            Ok(v) => v,
            Err(e) => {
                return Err(e);
            },
        };
        assert(reader@ == old(reader)@.at(reader@.pos));
        let o: O = match O::read_options(reader, options, &()) {
            Ok(v) => v,
            Err(e) => {
                return Err(e);
            },
        };
        assert(reader@ == old(reader)@.at(reader@.pos));
        let p: P = match P::read_options(reader, options, &()) {
            Ok(v) => v,
            Err(e) => {
                return Err(e);
            },
        };
        assert(reader@ == old(reader)@.at(reader@.pos));
        let q: Q = match Q::read_options(reader, options, &()) {
            Ok(v) => v,
            Err(e) => {
                return Err(e);
            },
        };
        assert(reader@ == old(reader)@.at(reader@.pos));
        let r: R = match R::read_options(reader, options, &()) {
            Ok(v) => v,
            Err(e) => {
                return Err(e);
            },
        };
        assert(reader@ == old(reader)@.at(reader@.pos));
        let s: S = match S::read_options(reader, options, &()) {
            Ok(v) => v,
            Err(e) => {
                return Err(e);
            },
        };
        assert(reader@ == old(reader)@.at(reader@.pos));
        let t: T = match T::read_options(reader, options, &()) {
            Ok(v) => v,
            Err(e) => {
                return Err(e);
            },
        };
        assert(reader@ == old(reader)@.at(reader@.pos));
        let u: U = match U::read_options(reader, options, &()) {
            Ok(v) => v,
            Err(e) => {
                return Err(e);
            },
        };
        assert(reader@ == old(reader)@.at(reader@.pos));
        let v: V = match V::read_options(reader, options, &()) {
            Ok(v) => v,
            Err(e) => {
                return Err(e);
            },
        };
        assert(reader@ == old(reader)@.at(reader@.pos));
        let w: W = match W::read_options(reader, options, &()) {
            Ok(v) => v,
            Err(e) => {
                return Err(e);
            },
        };
        assert(reader@ == old(reader)@.at(reader@.pos));
        let x: X = match X::read_options(reader, options, &()) {
            Ok(v) => v,
            Err(e) => {
                return Err(e);
            },
        };
        assert(reader@ == old(reader)@.at(reader@.pos));
        let y: Y = match Y::read_options(reader, options, &()) {
            Ok(v) => v,
            Err(e) => {
                return Err(e);
            },
        };
        assert(reader@ == old(reader)@.at(reader@.pos));
        let z: Z = match Z::read_options(reader, options, &()) {
            Ok(v) => v,
            Err(e) => {
                return Err(e);
            },
        };
        assert(reader@ == old(reader)@.at(reader@.pos));
        let aa: AA = match AA::read_options(reader, options, &()) {
            Ok(v) => v,
            Err(e) => {
                return Err(e);
            },
        };
        assert(reader@ == old(reader)@.at(reader@.pos));
        let ab: AB = match AB::read_options(reader, options, &()) {
            Ok(v) => v,
            Err(e) => {
                return Err(e);
            },
        };
        assert(reader@ == old(reader)@.at(reader@.pos));
        let ac: AC = match AC::read_options(reader, options, &()) {
            Ok(v) => v,
            Err(e) => {
                return Err(e);
            },
        };
        assert(reader@ == old(reader)@.at(reader@.pos));
        let ad: AD = match AD::read_options(reader, options, &()) {
            Ok(v) => v,
            Err(e) => {
                return Err(e);
            },
        };
        assert(reader@ == old(reader)@.at(reader@.pos));
        let ae: AE = match AE::read_options(reader, options, &()) {
            Ok(v) => v,
            Err(e) => {
                return Err(e);
            },
        };
        Ok((a, b, c, d, e, f, g, h, i, j, k, l, m, n, o, p, q, r, s, t, u, v, w, x, y, z, aa, ab, ac, ad, ae))
    }

    fn after_parse(&mut self, reader: &mut Cursor, options: &ReadOptions, args: &()) -> (r:
        BinResult<()>) {
        match self.0.after_parse(reader, options, &()) {
            Ok(()) => {},
            Err(e) => {
                return Err(e);
            },
        }
        match self.1.after_parse(reader, options, &()) {
            Ok(()) => {},
            Err(e) => {
                return Err(e);
            },
        }
        match self.2.after_parse(reader, options, &()) {
            Ok(()) => {},
            Err(e) => {
                return Err(e);
            },
        }
        match self.3.after_parse(reader, options, &()) {
            Ok(()) => {},
            Err(e) => {
                return Err(e);
            },
        }
        match self.4.after_parse(reader, options, &()) {
            Ok(()) => {},
            Err(e) => {
                return Err(e);
            },
        }
        match self.5.after_parse(reader, options, &()) {
            Ok(()) => {},
            Err(e) => {
                return Err(e);
            },
        }
        match self.6.after_parse(reader, options, &()) {
            Ok(()) => {},
            Err(e) => {
                return Err(e);
            },
        }
        match self.7.after_parse(reader, options, &()) {
            Ok(()) => {},
            Err(e) => {
                return Err(e);
            },
        }
        match self.8.after_parse(reader, options, &()) {
            Ok(()) => {},
            Err(e) => {
                return Err(e);
            },
        }
        match self.9.after_parse(reader, options, &()) {
            Ok(()) => {},
            Err(e) => {
                return Err(e);
            },
        }
        match self.10.after_parse(reader, options, &()) {
            Ok(()) => {},
            Err(e) => {
                return Err(e);
            },
        }
        match self.11.after_parse(reader, options, &()) {
            Ok(()) => {},
            Err(e) => {
                return Err(e);
            },
        }
        match self.12.after_parse(reader, options, &()) {
            Ok(()) => {},
            Err(e) => {
                return Err(e);
            },
        }
        match self.13.after_parse(reader, options, &()) {
            Ok(()) => {},
            Err(e) => {
                return Err(e);
            },
        }
        match self.14.after_parse(reader, options, &()) {
            Ok(()) => {},
            Err(e) => {
                return Err(e);
            },
        }
        match self.15.after_parse(reader, options, &()) {
            Ok(()) => {},
            Err(e) => {
                return Err(e);
            },
        }
        match self.16.after_parse(reader, options, &()) {
            Ok(()) => {},
            Err(e) => {
                return Err(e);
            },
        }
        match self.17.after_parse(reader, options, &()) {
            Ok(()) => {},
            Err(e) => {
                return Err(e);
            },
        }
        match self.18.after_parse(reader, options, &()) {
            Ok(()) => {},
            Err(e) => {
                return Err(e);
            },
        }
        match self.19.after_parse(reader, options, &()) {
            Ok(()) => {},
            Err(e) => {
                return Err(e);
            },
        }
        match self.20.after_parse(reader, options, &()) {
            Ok(()) => {},
            Err(e) => {
                return Err(e);
            },
        }
        match self.21.after_parse(reader, options, &()) {
            Ok(()) => {},
            Err(e) => {
                return Err(e);
            },
        }
        match self.22.after_parse(reader, options, &()) {
            Ok(()) => {},
            Err(e) => {
                return Err(e);
            },
        }
        match self.23.after_parse(reader, options, &()) {
            Ok(()) => {},
            Err(e) => {
                return Err(e);
            },
        }
        match self.24.after_parse(reader, options, &()) {
            Ok(()) => {},
            Err(e) => {
                return Err(e);
            },
        }
        match self.25.after_parse(reader, options, &()) {
            Ok(()) => {},
            Err(e) => {
                return Err(e);
            },
        }
        match self.26.after_parse(reader, options, &()) {
            Ok(()) => {},
            Err(e) => {
                return Err(e);
            },
        }
        match self.27.after_parse(reader, options, &()) {
            Ok(()) => {},
            Err(e) => {
                return Err(e);
            },
        }
        match self.28.after_parse(reader, options, &()) {
            Ok(()) => {},
            Err(e) => {
                return Err(e);
            },
        }
        match self.29.after_parse(reader, options, &()) {
            Ok(()) => {},
            Err(e) => {
                return Err(e);
            },
        }
        self.30.after_parse(reader, options, &())
    }
}

/// The thirty-two members of a tuple, one after the other.
pub open spec fn read_tuple32<A: BinRead<Args = ()>, B: BinRead<Args = ()>, C: BinRead<Args = ()>, D: BinRead<Args = ()>, E: BinRead<Args = ()>, F: BinRead<Args = ()>, G: BinRead<Args = ()>, H: BinRead<Args = ()>, I: BinRead<Args = ()>, J: BinRead<Args = ()>, K: BinRead<Args = ()>, L: BinRead<Args = ()>, M: BinRead<Args = ()>, N: BinRead<Args = ()>, O: BinRead<Args = ()>, P: BinRead<Args = ()>, Q: BinRead<Args = ()>, R: BinRead<Args = ()>, S: BinRead<Args = ()>, T: BinRead<Args = ()>, U: BinRead<Args = ()>, V: BinRead<Args = ()>, W: BinRead<Args = ()>, X: BinRead<Args = ()>, Y: BinRead<Args = ()>, Z: BinRead<Args = ()>, AA: BinRead<Args = ()>, AB: BinRead<Args = ()>, AC: BinRead<Args = ()>, AD: BinRead<Args = ()>, AE: BinRead<Args = ()>, AF: BinRead<Args = ()>>(
    stream: Stream,
    options: OptionsView,
) -> Outcome<(A::Model, B::Model, C::Model, D::Model, E::Model, F::Model, G::Model, H::Model, I::Model, J::Model, K::Model, L::Model, M::Model, N::Model, O::Model, P::Model, Q::Model, R::Model, S::Model, T::Model, U::Model, V::Model, W::Model, X::Model, Y::Model, Z::Model, AA::Model, AB::Model, AC::Model, AD::Model, AE::Model, AF::Model)> {
    match A::read_spec(stream, options, ()) {
        Err(e) => Err(e),
        Ok((a, after_a)) => {
            match B::read_spec(stream.at(after_a), options, ()) {
                Err(e) => Err(e),
                Ok((b, after_b)) => {
                    match C::read_spec(stream.at(after_b), options, ()) {
                        Err(e) => Err(e),
                        Ok((c, after_c)) => {
                            match D::read_spec(stream.at(after_c), options, ()) {
                                Err(e) => Err(e),
                                Ok((d, after_d)) => {
                                    match E::read_spec(stream.at(after_d), options, ()) {
                                        Err(e) => Err(e),
                                        Ok((e, after_e)) => {
                                            match F::read_spec(stream.at(after_e), options, ()) {
                                                Err(e) => Err(e),
                                                Ok((f, after_f)) => {
                                                    match G::read_spec(stream.at(after_f), options, ()) {
                                                        Err(e) => Err(e),
                                                        Ok((g, after_g)) => {
                                                            match H::read_spec(stream.at(after_g), options, ()) {
                                                                Err(e) => Err(e),
                                                                Ok((h, after_h)) => {
                                                                    match I::read_spec(stream.at(after_h), options, ()) {
                                                                        Err(e) => Err(e),
                                                                        Ok((i, after_i)) => {
                                                                            match J::read_spec(stream.at(after_i), options, ()) {
                                                                                Err(e) => Err(e),
                                                                                Ok((j, after_j)) => {
                                                                                    match K::read_spec(stream.at(after_j), options, ()) {
                                                                                        Err(e) => Err(e),
                                                                                        Ok((k, after_k)) => {
                                                                                            match L::read_spec(stream.at(after_k), options, ()) {
                                                                                                Err(e) => Err(e),
                                                                                                Ok((l, after_l)) => {
                                                                                                    match M::read_spec(stream.at(after_l), options, ()) {
                                                                                                        Err(e) => Err(e),
                                                                                                        Ok((m, after_m)) => {
                                                                                                            match N::read_spec(stream.at(after_m), options, ()) {
                                                                                                                Err(e) => Err(e),
                                                                                                                Ok((n, after_n)) => {
                                                                                                                    match O::read_spec(stream.at(after_n), options, ()) {
                                                                                                                        Err(e) => Err(e),
                                                                                                                        Ok((o, after_o)) => {
                                                                                                                            match P::read_spec(stream.at(after_o), options, ()) {
                                                                                                                                Err(e) => Err(e),
                                                                                                                                Ok((p, after_p)) => {
                                                                                                                                    match Q::read_spec(stream.at(after_p), options, ()) {
                                                                                                                                        Err(e) => Err(e),
                                                                                                                                        Ok((q, after_q)) => {
                                                                                                                                            match R::read_spec(stream.at(after_q), options, ()) {
                                                                                                                                                Err(e) => Err(e),
                                                                                                                                                Ok((r, after_r)) => {
                                                                                                                                                    match S::read_spec(stream.at(after_r), options, ()) {
                                                                                                                                                        Err(e) => Err(e),
                                                                                                                                                        Ok((s, after_s)) => {
                                                                                                                                                            match T::read_spec(stream.at(after_s), options, ()) {
                                                                                                                                                                Err(e) => Err(e),
                                                                                                                                                                Ok((t, after_t)) => {
                                                                                                                                                                    match U::read_spec(stream.at(after_t), options, ()) {
                                                                                                                                                                        Err(e) => Err(e),
                                                                                                                                                                        Ok((u, after_u)) => {
                                                                                                                                                                            match V::read_spec(stream.at(after_u), options, ()) {
                                                                                                                                                                                Err(e) => Err(e),
                                                                                                                                                                                Ok((v, after_v)) => {
                                                                                                                                                                                    match W::read_spec(stream.at(after_v), options, ()) {
                                                                                                                                                                                        Err(e) => Err(e),
                                                                                                                                                                                        Ok((w, after_w)) => {
                                                                                                                                                                                            match X::read_spec(stream.at(after_w), options, ()) {
                                                                                                                                                                                                Err(e) => Err(e),
                                                                                                                                                                                                Ok((x, after_x)) => {
                                                                                                                                                                                                    match Y::read_spec(stream.at(after_x), options, ()) {
                                                                                                                                                                                                        Err(e) => Err(e),
                                                                                                                                                                                                        Ok((y, after_y)) => {
                                                                                                                                                                                                            match Z::read_spec(stream.at(after_y), options, ()) {
                                                                                                                                                                                                                Err(e) => Err(e),
                                                                                                                                                                                                                Ok((z, after_z)) => {
                                                                                                                                                                                                                    match AA::read_spec(stream.at(after_z), options, ()) {
                                                                                                                                                                                                                        Err(e) => Err(e),
                                                                                                                                                                                                                        Ok((aa, after_aa)) => {
                                                                                                                                                                                                                            match AB::read_spec(stream.at(after_aa), options, ()) {
                                                                                                                                                                                                                                Err(e) => Err(e),
                                                                                                                                                                                                                                Ok((ab, after_ab)) => {
                                                                                                                                                                                                                                    match AC::read_spec(stream.at(after_ab), options, ()) {
                                                                                                                                                                                                                                        Err(e) => Err(e),
                                                                                                                                                                                                                                        Ok((ac, after_ac)) => {
                                                                                                                                                                                                                                            match AD::read_spec(stream.at(after_ac), options, ()) {
                                                                                                                                                                                                                                                Err(e) => Err(e),
                                                                                                                                                                                                                                                Ok((ad, after_ad)) => {
                                                                                                                                                                                                                                                    match AE::read_spec(stream.at(after_ad), options, ()) {
                                                                                                                                                                                                                                                        Err(e) => Err(e),
                                                                                                                                                                                                                                                        Ok((ae, after_ae)) => {
                                                                                                                                                                                                                                                            match AF::read_spec(stream.at(after_ae), options, ()) {
                                                                                                                                                                                                                                                                Err(e) => Err(e),
                                                                                                                                                                                                                                                                Ok((af, after_af)) => Ok(((a, b, c, d, e, f, g, h, i, j, k, l, m, n, o, p, q, r, s, t, u, v, w, x, y, z, aa, ab, ac, ad, ae, af), after_af)),
                                                                                                                                                                                                                                                            }
                                                                                                                                                                                                                                                        },
                                                                                                                                                                                                                                                    }
                                                                                                                                                                                                                                                },
                                                                                                                                                                                                                                            }
                                                                                                                                                                                                                                        },
                                                                                                                                                                                                                                    }
                                                                                                                                                                                                                                },
                                                                                                                                                                                                                            }
                                                                                                                                                                                                                        },
                                                                                                                                                                                                                    }
                                                                                                                                                                                                                },
                                                                                                                                                                                                            }
                                                                                                                                                                                                        },
                                                                                                                                                                                                    }
                                                                                                                                                                                                },
                                                                                                                                                                                            }
                                                                                                                                                                                        },
                                                                                                                                                                                    }
                                                                                                                                                                                },
                                                                                                                                                                            }
                                                                                                                                                                        },
                                                                                                                                                                    }
                                                                                                                                                                },
                                                                                                                                                            }
                                                                                                                                                        },
                                                                                                                                                    }
                                                                                                                                                },
                                                                                                                                            }
                                                                                                                                        },
                                                                                                                                    }
                                                                                                                                },
                                                                                                                            }
                                                                                                                        },
                                                                                                                    }
                                                                                                                },
                                                                                                            }
                                                                                                        },
                                                                                                    }
                                                                                                },
                                                                                            }
                                                                                        },
                                                                                    }
                                                                                },
                                                                            }
                                                                        },
                                                                    }
                                                                },
                                                            }
                                                        },
                                                    }
                                                },
                                            }
                                        },
                                    }
                                },
                            }
                        },
                    }
                },
            }
        },
    }
}

/// Phase two on the thirty-two members of a tuple, in the order in which they were
/// read.
pub open spec fn resolve_tuple32<A: BinRead<Args = ()>, B: BinRead<Args = ()>, C: BinRead<Args = ()>, D: BinRead<Args = ()>, E: BinRead<Args = ()>, F: BinRead<Args = ()>, G: BinRead<Args = ()>, H: BinRead<Args = ()>, I: BinRead<Args = ()>, J: BinRead<Args = ()>, K: BinRead<Args = ()>, L: BinRead<Args = ()>, M: BinRead<Args = ()>, N: BinRead<Args = ()>, O: BinRead<Args = ()>, P: BinRead<Args = ()>, Q: BinRead<Args = ()>, R: BinRead<Args = ()>, S: BinRead<Args = ()>, T: BinRead<Args = ()>, U: BinRead<Args = ()>, V: BinRead<Args = ()>, W: BinRead<Args = ()>, X: BinRead<Args = ()>, Y: BinRead<Args = ()>, Z: BinRead<Args = ()>, AA: BinRead<Args = ()>, AB: BinRead<Args = ()>, AC: BinRead<Args = ()>, AD: BinRead<Args = ()>, AE: BinRead<Args = ()>, AF: BinRead<Args = ()>>(
    model: (A::Model, B::Model, C::Model, D::Model, E::Model, F::Model, G::Model, H::Model, I::Model, J::Model, K::Model, L::Model, M::Model, N::Model, O::Model, P::Model, Q::Model, R::Model, S::Model, T::Model, U::Model, V::Model, W::Model, X::Model, Y::Model, Z::Model, AA::Model, AB::Model, AC::Model, AD::Model, AE::Model, AF::Model),
    data: Seq<u8>,
    options: OptionsView,
) -> Resolved<(A::Model, B::Model, C::Model, D::Model, E::Model, F::Model, G::Model, H::Model, I::Model, J::Model, K::Model, L::Model, M::Model, N::Model, O::Model, P::Model, Q::Model, R::Model, S::Model, T::Model, U::Model, V::Model, W::Model, X::Model, Y::Model, Z::Model, AA::Model, AB::Model, AC::Model, AD::Model, AE::Model, AF::Model)> {
    match A::resolve_spec(model.0, data, options, ()) {
        Err(e) => Err(e),
        Ok(a) => {
            match B::resolve_spec(model.1, data, options, ()) {
                Err(e) => Err(e),
                Ok(b) => {
                    match C::resolve_spec(model.2, data, options, ()) {
                        Err(e) => Err(e),
                        Ok(c) => {
                            match D::resolve_spec(model.3, data, options, ()) {
                                Err(e) => Err(e),
                                Ok(d) => {
                                    match E::resolve_spec(model.4, data, options, ()) {
                                        Err(e) => Err(e),
                                        Ok(e) => {
                                            match F::resolve_spec(model.5, data, options, ()) {
                                                Err(e) => Err(e),
                                                Ok(f) => {
                                                    match G::resolve_spec(model.6, data, options, ()) {
                                                        Err(e) => Err(e),
                                                        Ok(g) => {
                                                            match H::resolve_spec(model.7, data, options, ()) {
                                                                Err(e) => Err(e),
                                                                Ok(h) => {
                                                                    match I::resolve_spec(model.8, data, options, ()) {
                                                                        Err(e) => Err(e),
                                                                        Ok(i) => {
                                                                            match J::resolve_spec(model.9, data, options, ()) {
                                                                                Err(e) => Err(e),
                                                                                Ok(j) => {
                                                                                    match K::resolve_spec(model.10, data, options, ()) {
                                                                                        Err(e) => Err(e),
                                                                                        Ok(k) => {
                                                                                            match L::resolve_spec(model.11, data, options, ()) {
                                                                                                Err(e) => Err(e),
                                                                                                Ok(l) => {
                                                                                                    match M::resolve_spec(model.12, data, options, ()) {
                                                                                                        Err(e) => Err(e),
                                                                                                        Ok(m) => {
                                                                                                            match N::resolve_spec(model.13, data, options, ()) {
                                                                                                                Err(e) => Err(e),
                                                                                                                Ok(n) => {
                                                                                                                    match O::resolve_spec(model.14, data, options, ()) {
                                                                                                                        Err(e) => Err(e),
                                                                                                                        Ok(o) => {
                                                                                                                            match P::resolve_spec(model.15, data, options, ()) {
                                                                                                                                Err(e) => Err(e),
                                                                                                                                Ok(p) => {
                                                                                                                                    match Q::resolve_spec(model.16, data, options, ()) {
                                                                                                                                        Err(e) => Err(e),
                                                                                                                                        Ok(q) => {
                                                                                                                                            match R::resolve_spec(model.17, data, options, ()) {
                                                                                                                                                Err(e) => Err(e),
                                                                                                                                                Ok(r) => {
                                                                                                                                                    match S::resolve_spec(model.18, data, options, ()) {
                                                                                                                                                        Err(e) => Err(e),
                                                                                                                                                        Ok(s) => {
                                                                                                                                                            match T::resolve_spec(model.19, data, options, ()) {
                                                                                                                                                                Err(e) => Err(e),
                                                                                                                                                                Ok(t) => {
                                                                                                                                                                    match U::resolve_spec(model.20, data, options, ()) {
                                                                                                                                                                        Err(e) => Err(e),
                                                                                                                                                                        Ok(u) => {
                                                                                                                                                                            match V::resolve_spec(model.21, data, options, ()) {
                                                                                                                                                                                Err(e) => Err(e),
                                                                                                                                                                                Ok(v) => {
                                                                                                                                                                                    match W::resolve_spec(model.22, data, options, ()) {
                                                                                                                                                                                        Err(e) => Err(e),
                                                                                                                                                                                        Ok(w) => {
                                                                                                                                                                                            match X::resolve_spec(model.23, data, options, ()) {
                                                                                                                                                                                                Err(e) => Err(e),
                                                                                                                                                                                                Ok(x) => {
                                                                                                                                                                                                    match Y::resolve_spec(model.24, data, options, ()) {
                                                                                                                                                                                                        Err(e) => Err(e),
                                                                                                                                                                                                        Ok(y) => {
                                                                                                                                                                                                            match Z::resolve_spec(model.25, data, options, ()) {
                                                                                                                                                                                                                Err(e) => Err(e),
                                                                                                                                                                                                                Ok(z) => {
                                                                                                                                                                                                                    match AA::resolve_spec(model.26, data, options, ()) {
                                                                                                                                                                                                                        Err(e) => Err(e),
                                                                                                                                                                                                                        Ok(aa) => {
                                                                                                                                                                                                                            match AB::resolve_spec(model.27, data, options, ()) {
                                                                                                                                                                                                                                Err(e) => Err(e),
                                                                                                                                                                                                                                Ok(ab) => {
                                                                                                                                                                                                                                    match AC::resolve_spec(model.28, data, options, ()) {
                                                                                                                                                                                                                                        Err(e) => Err(e),
                                                                                                                                                                                                                                        Ok(ac) => {
                                                                                                                                                                                                                                            match AD::resolve_spec(model.29, data, options, ()) {
                                                                                                                                                                                                                                                Err(e) => Err(e),
                                                                                                                                                                                                                                                Ok(ad) => {
                                                                                                                                                                                                                                                    match AE::resolve_spec(model.30, data, options, ()) {
                                                                                                                                                                                                                                                        Err(e) => Err(e),
                                                                                                                                                                                                                                                        Ok(ae) => {
                                                                                                                                                                                                                                                            match AF::resolve_spec(model.31, data, options, ()) {
                                                                                                                                                                                                                                                                Err(e) => Err(e),
                                                                                                                                                                                                                                                                Ok(af) => Ok((a, b, c, d, e, f, g, h, i, j, k, l, m, n, o, p, q, r, s, t, u, v, w, x, y, z, aa, ab, ac, ad, ae, af)),
                                                                                                                                                                                                                                                            }
                                                                                                                                                                                                                                                        },
                                                                                                                                                                                                                                                    }
                                                                                                                                                                                                                                                },
                                                                                                                                                                                                                                            }
                                                                                                                                                                                                                                        },
                                                                                                                                                                                                                                    }
                                                                                                                                                                                                                                },
                                                                                                                                                                                                                            }
                                                                                                                                                                                                                        },
                                                                                                                                                                                                                    }
                                                                                                                                                                                                                },
                                                                                                                                                                                                            }
                                                                                                                                                                                                        },
                                                                                                                                                                                                    }
                                                                                                                                                                                                },
                                                                                                                                                                                            }
                                                                                                                                                                                        },
                                                                                                                                                                                    }
                                                                                                                                                                                },
                                                                                                                                                                            }
                                                                                                                                                                        },
                                                                                                                                                                    }
                                                                                                                                                                },
                                                                                                                                                            }
                                                                                                                                                        },
                                                                                                                                                    }
                                                                                                                                                },
                                                                                                                                            }
                                                                                                                                        },
                                                                                                                                    }
                                                                                                                                },
                                                                                                                            }
                                                                                                                        },
                                                                                                                    }
                                                                                                                },
                                                                                                            }
                                                                                                        },
                                                                                                    }
                                                                                                },
                                                                                            }
                                                                                        },
                                                                                    }
                                                                                },
                                                                            }
                                                                        },
                                                                    }
                                                                },
                                                            }
                                                        },
                                                    }
                                                },
                                            }
                                        },
                                    }
                                },
                            }
                        },
                    }
                },
            }
        },
    }
}

impl<A: BinRead<Args = ()>, B: BinRead<Args = ()>, C: BinRead<Args = ()>, D: BinRead<Args = ()>, E: BinRead<Args = ()>, F: BinRead<Args = ()>, G: BinRead<Args = ()>, H: BinRead<Args = ()>, I: BinRead<Args = ()>, J: BinRead<Args = ()>, K: BinRead<Args = ()>, L: BinRead<Args = ()>, M: BinRead<Args = ()>, N: BinRead<Args = ()>, O: BinRead<Args = ()>, P: BinRead<Args = ()>, Q: BinRead<Args = ()>, R: BinRead<Args = ()>, S: BinRead<Args = ()>, T: BinRead<Args = ()>, U: BinRead<Args = ()>, V: BinRead<Args = ()>, W: BinRead<Args = ()>, X: BinRead<Args = ()>, Y: BinRead<Args = ()>, Z: BinRead<Args = ()>, AA: BinRead<Args = ()>, AB: BinRead<Args = ()>, AC: BinRead<Args = ()>, AD: BinRead<Args = ()>, AE: BinRead<Args = ()>, AF: BinRead<Args = ()>> BinRead for (A, B, C, D, E, F, G, H, I, J, K, L, M, N, O, P, Q, R, S, T, U, V, W, X, Y, Z, AA, AB, AC, AD, AE, AF) {
    type Args = ();

    type Model = (A::Model, B::Model, C::Model, D::Model, E::Model, F::Model, G::Model, H::Model, I::Model, J::Model, K::Model, L::Model, M::Model, N::Model, O::Model, P::Model, Q::Model, R::Model, S::Model, T::Model, U::Model, V::Model, W::Model, X::Model, Y::Model, Z::Model, AA::Model, AB::Model, AC::Model, AD::Model, AE::Model, AF::Model);

    open spec fn model(&self) -> (A::Model, B::Model, C::Model, D::Model, E::Model, F::Model, G::Model, H::Model, I::Model, J::Model, K::Model, L::Model, M::Model, N::Model, O::Model, P::Model, Q::Model, R::Model, S::Model, T::Model, U::Model, V::Model, W::Model, X::Model, Y::Model, Z::Model, AA::Model, AB::Model, AC::Model, AD::Model, AE::Model, AF::Model) {
        (self.0.model(), self.1.model(), self.2.model(), self.3.model(), self.4.model(), self.5.model(), self.6.model(), self.7.model(), self.8.model(), self.9.model(), self.10.model(), self.11.model(), self.12.model(), self.13.model(), self.14.model(), self.15.model(), self.16.model(), self.17.model(), self.18.model(), self.19.model(), self.20.model(), self.21.model(), self.22.model(), self.23.model(), self.24.model(), self.25.model(), self.26.model(), self.27.model(), self.28.model(), self.29.model(), self.30.model(), self.31.model())
    }

    open spec fn read_spec(stream: Stream, options: OptionsView, args: ()) -> Outcome<
        (A::Model, B::Model, C::Model, D::Model, E::Model, F::Model, G::Model, H::Model, I::Model, J::Model, K::Model, L::Model, M::Model, N::Model, O::Model, P::Model, Q::Model, R::Model, S::Model, T::Model, U::Model, V::Model, W::Model, X::Model, Y::Model, Z::Model, AA::Model, AB::Model, AC::Model, AD::Model, AE::Model, AF::Model),
    > {
        read_tuple32::<A, B, C, D, E, F, G, H, I, J, K, L, M, N, O, P, Q, R, S, T, U, V, W, X, Y, Z, AA, AB, AC, AD, AE, AF>(stream, options)
    }

    open spec fn resolve_spec(
        model: (A::Model, B::Model, C::Model, D::Model, E::Model, F::Model, G::Model, H::Model, I::Model, J::Model, K::Model, L::Model, M::Model, N::Model, O::Model, P::Model, Q::Model, R::Model, S::Model, T::Model, U::Model, V::Model, W::Model, X::Model, Y::Model, Z::Model, AA::Model, AB::Model, AC::Model, AD::Model, AE::Model, AF::Model),
        data: Seq<u8>,
        options: OptionsView,
        args: (),
    ) -> Resolved<(A::Model, B::Model, C::Model, D::Model, E::Model, F::Model, G::Model, H::Model, I::Model, J::Model, K::Model, L::Model, M::Model, N::Model, O::Model, P::Model, Q::Model, R::Model, S::Model, T::Model, U::Model, V::Model, W::Model, X::Model, Y::Model, Z::Model, AA::Model, AB::Model, AC::Model, AD::Model, AE::Model, AF::Model)> {
        resolve_tuple32::<A, B, C, D, E, F, G, H, I, J, K, L, M, N, O, P, Q, R, S, T, U, V, W, X, Y, Z, AA, AB, AC, AD, AE, AF>(model, data, options)
    }

    fn read_options(reader: &mut Cursor, options: &ReadOptions, args: &()) -> (r: BinResult<
        (A, B, C, D, E, F, G, H, I, J, K, L, M, N, O, P, Q, R, S, T, U, V, W, X, Y, Z, AA, AB, AC, AD, AE, AF),
    >) {
        assert(reader@ == old(reader)@.at(reader@.pos));
        let a: A = match A::read_options(reader, options, &()) {
            Ok(v) => v,
            Err(e) => {
                return Err(e);
            },
        };
        assert(reader@ == old(reader)@.at(reader@.pos));
        let b: B = match B::read_options(reader, options, &()) {
            Ok(v) => v,
            Err(e) => {
                return Err(e);
            },
        };
        assert(reader@ == old(reader)@.at(reader@.pos));
        let c: C = match C::read_options(reader, options, &()) {
            Ok(v) => v,
            Err(e) => {
                return Err(e);
            },
        };
        assert(reader@ == old(reader)@.at(reader@.pos));
        let d: D = match D::read_options(reader, options, &()) {
            Ok(v) => v,
            Err(e) => {
                return Err(e);
            },
        };
        assert(reader@ == old(reader)@.at(reader@.pos));
        let e: E = match E::read_options(reader, options, &()) {
            Ok(v) => v,
            Err(e) => {
                return Err(e);
            },
        };
        assert(reader@ == old(reader)@.at(reader@.pos));
        let f: F = match F::read_options(reader, options, &()) {
            Ok(v) => v,
            Err(e) => {
                return Err(e);
            },
        };
        assert(reader@ == old(reader)@.at(reader@.pos));
        let g: G = match G::read_options(reader, options, &()) {
            Ok(v) => v,
            Err(e) => {
                return Err(e);
            },
        };
        assert(reader@ == old(reader)@.at(reader@.pos));
        let h: H = match H::read_options(reader, options, &()) {
            Ok(v) => v,
            Err(e) => {
                return Err(e);
            },
        };
        assert(reader@ == old(reader)@.at(reader@.pos));
        let i: I = match I::read_options(reader, options, &()) {
            Ok(v) => v,
            Err(e) => {
                return Err(e);
            },
        };
        assert(reader@ == old(reader)@.at(reader@.pos));
        let j: J = match J::read_options(reader, options, &()) {
            Ok(v) => v,
            Err(e) => {
                return Err(e);
            },
        };
        assert(reader@ == old(reader)@.at(reader@.pos));
        let k: K = match K::read_options(reader, options, &()) {
            Ok(v) => v,
            Err(e) => {
                return Err(e);
            },
        };
        assert(reader@ == old(reader)@.at(reader@.pos));
        let l: L = match L::read_options(reader, options, &()) {
            Ok(v) => v,
            Err(e) => {
                return Err(e);
            },
        };
        assert(reader@ == old(reader)@.at(reader@.pos));
        let m: M = match M::read_options(reader, options, &()) {
            Ok(v) => v,
            Err(e) => {
                return Err(e);
            },
        };
        assert(reader@ == old(reader)@.at(reader@.pos));
        let n: N = match N::read_options(reader, options, &()) {
            Ok(v) => v,
            Err(e) => {
                return Err(e);
            },
        };
        assert(reader@ == old(reader)@.at(reader@.pos));
        let o: O = match O::read_options(reader, options, &()) {
            Ok(v) => v,
            Err(e) => {
                return Err(e);
            },
        };
        assert(reader@ == old(reader)@.at(reader@.pos));
        let p: P = match P::read_options(reader, options, &()) {
            Ok(v) => v,
            Err(e) => {
                return Err(e);
            },
        };
        assert(reader@ == old(reader)@.at(reader@.pos));
        let q: Q = match Q::read_options(reader, options, &()) {
            Ok(v) => v,
            Err(e) => {
                return Err(e);
            },
        };
        assert(reader@ == old(reader)@.at(reader@.pos));
        let r: R = match R::read_options(reader, options, &()) {
            Ok(v) => v,
            Err(e) => {
                return Err(e);
            },
        };
        assert(reader@ == old(reader)@.at(reader@.pos));
        let s: S = match S::read_options(reader, options, &()) {
            Ok(v) => v,
            Err(e) => {
                return Err(e);
            },
        };
        assert(reader@ == old(reader)@.at(reader@.pos));
        let t: T = match T::read_options(reader, options, &()) {
            Ok(v) => v,
            Err(e) => {
                return Err(e);
            },
        };
        assert(reader@ == old(reader)@.at(reader@.pos));
        let u: U = match U::read_options(reader, options, &()) {
            Ok(v) => v,
            Err(e) => {
                return Err(e);
            },
        };
        assert(reader@ == old(reader)@.at(reader@.pos));
        let v: V = match V::read_options(reader, options, &()) {
            Ok(v) => v,
            Err(e) => {
                return Err(e);
            },
        };
        assert(reader@ == old(reader)@.at(reader@.pos));
        let w: W = match W::read_options(reader, options, &()) {
            Ok(v) => v,
            Err(e) => {
                return Err(e);
            },
        };
        assert(reader@ == old(reader)@.at(reader@.pos));
        let x: X = match X::read_options(reader, options, &()) {
            Ok(v) => v,
            Err(e) => {
                return Err(e);
            },
        };
        assert(reader@ == old(reader)@.at(reader@.pos));
        let y: Y = match Y::read_options(reader, options, &()) {
            Ok(v) => v,
            Err(e) => {
                return Err(e);
            },
        };
        assert(reader@ == old(reader)@.at(reader@.pos));
        let z: Z = match Z::read_options(reader, options, &()) {
            Ok(v) => v,
            Err(e) => {
                return Err(e);
            },
        };
        assert(reader@ == old(reader)@.at(reader@.pos));
        let aa: AA = match AA::read_options(reader, options, &()) {
            Ok(v) => v,
            Err(e) => {
                return Err(e);
            },
        };
        assert(reader@ == old(reader)@.at(reader@.pos));
        let ab: AB = match AB::read_options(reader, options, &()) {
            Ok(v) => v,
            Err(e) => {
                return Err(e);
            },
        };
        assert(reader@ == old(reader)@.at(reader@.pos));
        let ac: AC = match AC::read_options(reader, options, &()) {
            Ok(v) => v,
            Err(e) => {
                return Err(e);
            },
        };
        assert(reader@ == old(reader)@.at(reader@.pos));
        let ad: AD = match AD::read_options(reader, options, &()) {
            Ok(v) => v,
            Err(e) => {
                return Err(e);
            },
        };
        assert(reader@ == old(reader)@.at(reader@.pos));
        let ae: AE = match AE::read_options(reader, options, &()) {
            Ok(v) => v,
            Err(e) => {
                return Err(e);
            },
        };
        assert(reader@ == old(reader)@.at(reader@.pos));
        let af: AF = match AF::read_options(reader, options, &()) {
            Ok(v) => v,
            Err(e) => {
                return Err(e);
            },
        };
        Ok((a, b, c, d, e, f, g, h, i, j, k, l, m, n, o, p, q, r, s, t, u, v, w, x, y, z, aa, ab, ac, ad, ae, af))
    }

    fn after_parse(&mut self, reader: &mut Cursor, options: &ReadOptions, args: &()) -> (r:
        BinResult<()>) {
        match self.0.after_parse(reader, options, &()) {
            Ok(()) => {},
            Err(e) => {
                return Err(e);
            },
        }
        match self.1.after_parse(reader, options, &()) {
            Ok(()) => {},
            Err(e) => {
                return Err(e);
            },
        }
        match self.2.after_parse(reader, options, &()) {
            Ok(()) => {},
            Err(e) => {
                return Err(e);
            },
        }
        match self.3.after_parse(reader, options, &()) {
            Ok(()) => {},
            Err(e) => {
                return Err(e);
            },
        }
        match self.4.after_parse(reader, options, &()) {
            Ok(()) => {},
            Err(e) => {
                return Err(e);
            },
        }
        match self.5.after_parse(reader, options, &()) {
            Ok(()) => {},
            Err(e) => {
                return Err(e);
            },
        }
        match self.6.after_parse(reader, options, &()) {
            Ok(()) => {},
            Err(e) => {
                return Err(e);
            },
        }
        match self.7.after_parse(reader, options, &()) {
            Ok(()) => {},
            Err(e) => {
                return Err(e);
            },
        }
        match self.8.after_parse(reader, options, &()) {
            Ok(()) => {},
            Err(e) => {
                return Err(e);
            },
        }
        match self.9.after_parse(reader, options, &()) {
            Ok(()) => {},
            Err(e) => {
                return Err(e);
            },
        }
        match self.10.after_parse(reader, options, &()) {
            Ok(()) => {},
            Err(e) => {
                return Err(e);
            },
        }
        match self.11.after_parse(reader, options, &()) {
            Ok(()) => {},
            Err(e) => {
                return Err(e);
            },
        }
        match self.12.after_parse(reader, options, &()) {
            Ok(()) => {},
            Err(e) => {
                return Err(e);
            },
        }
        match self.13.after_parse(reader, options, &()) {
            Ok(()) => {},
            Err(e) => {
                return Err(e);
            },
        }
        match self.14.after_parse(reader, options, &()) {
            Ok(()) => {},
            Err(e) => {
                return Err(e);
            },
        }
        match self.15.after_parse(reader, options, &()) {
            Ok(()) => {},
            Err(e) => {
                return Err(e);
            },
        }
        match self.16.after_parse(reader, options, &()) {
            Ok(()) => {},
            Err(e) => {
                return Err(e);
            },
        }
        match self.17.after_parse(reader, options, &()) {
            Ok(()) => {},
            Err(e) => {
                return Err(e);
            },
        }
        match self.18.after_parse(reader, options, &()) {
            Ok(()) => {},
            Err(e) => {
                return Err(e);
            },
        }
        match self.19.after_parse(reader, options, &()) {
            Ok(()) => {},
            Err(e) => {
                return Err(e);
            },
        }
        match self.20.after_parse(reader, options, &()) {
            Ok(()) => {},
            Err(e) => {
                return Err(e);
            },
        }
        match self.21.after_parse(reader, options, &()) {
            Ok(()) => {},
            Err(e) => {
                return Err(e);
            },
        }
        match self.22.after_parse(reader, options, &()) {
            Ok(()) => {},
            Err(e) => {
                return Err(e);
            },
        }
        match self.23.after_parse(reader, options, &()) {
            Ok(()) => {},
            Err(e) => {
                return Err(e);
            },
        }
        match self.24.after_parse(reader, options, &()) {
            Ok(()) => {},
            Err(e) => {
                return Err(e);
            },
        }
        match self.25.after_parse(reader, options, &()) {
            Ok(()) => {},
            Err(e) => {
                return Err(e);
            },
        }
        match self.26.after_parse(reader, options, &()) {
            Ok(()) => {},
            Err(e) => {
                return Err(e);
            },
        }
        match self.27.after_parse(reader, options, &()) {
            Ok(()) => {},
            Err(e) => {
                return Err(e);
            },
        }
        match self.28.after_parse(reader, options, &()) {
            Ok(()) => {},
            Err(e) => {
                return Err(e);
            },
        }
        match self.29.after_parse(reader, options, &()) {
            Ok(()) => {},
            Err(e) => {
                return Err(e);
            },
        }
        match self.30.after_parse(reader, options, &()) {
            Ok(()) => {},
            Err(e) => {
                return Err(e);
            },
        }
        self.31.after_parse(reader, options, &())
    }
}

} // verus!
