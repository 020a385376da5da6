//! The two capability traits of the conversion layer and their
//! compositional adapters.
//!
//! [`FromLisp`] decodes a host value into a native value; [`IntoLisp`]
//! encodes a native value into a host value, given the runtime context.
//! Both traits carry a specification alongside the executable method: a
//! spec function giving, per implementing type, exactly what the
//! conversion yields — the decoded value or produced host value on
//! success, and the error on failure, so a failure is always the first
//! inner failure, surfaced unchanged and unwrapped.  The adapters below —
//! identity, optional, unit, boolean, integer and sequence — are written
//! against those specifications alone, so any further native type that
//! implements the traits composes with them unchanged.

use vstd::prelude::*;
use crate::host::{Env, Error, Symbol, ValView, Value, Vector};

verus! {

/// Converting a host value into a native type.
///
/// Decoding is a pure function of the host value: it never touches the
/// runtime context and never mutates host state.  A decode fails exactly
/// when the value's runtime tag or shape does not match what `Self`
/// expects; `from_lisp_spec` states the whole outcome, error included,
/// per implementing type.
pub trait FromLisp: Sized {
    /// What decoding the given host value yields: the decoded native
    /// value, or the exact error when the value's shape does not fit
    /// `Self`.
    spec fn from_lisp_spec(value: Value) -> Result<Self, Error>;

    /// Decode `value` into a `Self`.
    fn from_lisp(value: Value) -> (r: Result<Self, Error>)
        ensures
            r == Self::from_lisp_spec(value),
    ;
}

/// Converting a native type into a host value.
///
/// Encoding consumes the native value and may allocate inside the host
/// runtime, so it takes a borrow of the runtime context; the resulting
/// host value belongs to that context.  Per implementing type,
/// `into_lisp_res` states the whole outcome: the view of the host value
/// produced on success, or the exact error on failure.
pub trait IntoLisp: Sized {
    /// What encoding `self` in the given runtime context yields: the
    /// produced host value, by its view, or the exact error.
    spec fn into_lisp_res(self, env: Env) -> Result<ValView, Error>;

    /// Encode `self` into a host value of the context `env`.
    fn into_lisp(self, env: &Env) -> (r: Result<Value, Error>)
        ensures
            r matches Ok(v) ==> self.into_lisp_res(*env) == Ok::<ValView, Error>(v@),
            r matches Err(e) ==> self.into_lisp_res(*env) == Err::<ValView, Error>(e),
    ;
}

/// Identity adapter: a host value decodes to itself, unchanged, and
/// cannot fail.
impl FromLisp for Value {
    open spec fn from_lisp_spec(value: Value) -> Result<Value, Error> {
        Ok(value)
    }

    fn from_lisp(value: Value) -> (r: Result<Value, Error>)
        ensures
            r == Ok::<Value, Error>(value),
    {
        Ok(value)
    }
}

/// Identity adapter: a host value encodes to itself, unchanged, ignoring
/// the context, and cannot fail.
impl IntoLisp for Value {
    open spec fn into_lisp_res(self, env: Env) -> Result<ValView, Error> {
        Ok(self@)
    }

    fn into_lisp(self, env: &Env) -> (r: Result<Value, Error>)
        ensures
            r == Ok::<Value, Error>(self),
    {
        Ok(self)
    }
}

/// A canonical symbol encodes to the host value carrying that symbol;
/// this never fails.
impl IntoLisp for Symbol {
    open spec fn into_lisp_res(self, env: Env) -> Result<ValView, Error> {
        Ok(ValView::Sym(self))
    }

    fn into_lisp(self, env: &Env) -> (r: Result<Value, Error>) {
        Ok(Value::Sym(self))
    }
}

/// Optional adapter, decode side: the absence marker decodes to `None`
/// whatever `T` is; any other value is decoded by `T`, a success wrapped
/// in `Some` and a failure returned unchanged.  Absence is an expected
/// outcome, never an error.
impl<T: FromLisp> FromLisp for Option<T> {
    open spec fn from_lisp_spec(value: Value) -> Result<Option<T>, Error> {
        if value@ == ValView::Sym(Symbol::Nil) {
            Ok(None)
        } else {
            match T::from_lisp_spec(value) {
                Ok(t) => Ok(Some(t)),
                Err(e) => Err(e),
            }
        }
    }

    fn from_lisp(value: Value) -> (r: Result<Option<T>, Error>) {
        if value.is_not_nil() {
            Ok(Some(T::from_lisp(value)?))
        } else {
            Ok(None)
        }
    }
}

/// Optional adapter, encode side: `None` encodes to the absence marker;
/// `Some(t)` yields the same result as encoding `t` directly, success or
/// failure.
impl<T: IntoLisp> IntoLisp for Option<T> {
    open spec fn into_lisp_res(self, env: Env) -> Result<ValView, Error> {
        match self {
            Some(t) => t.into_lisp_res(env),
            None => Ok(ValView::Sym(Symbol::Nil)),
        }
    }

    fn into_lisp(self, env: &Env) -> (r: Result<Value, Error>) {
        match self {
            Some(t) => t.into_lisp(env),
            None => Symbol::Nil.into_lisp(env),
        }
    }
}

/// Unit encodes unconditionally to the absence marker.
impl IntoLisp for () {
    open spec fn into_lisp_res(self, env: Env) -> Result<ValView, Error> {
        Ok(ValView::Sym(Symbol::Nil))
    }

    fn into_lisp(self, env: &Env) -> (r: Result<Value, Error>) {
        Symbol::Nil.into_lisp(env)
    }
}

/// A boolean encodes to the truth symbol when true and to the absence
/// marker otherwise; this never fails.
impl IntoLisp for bool {
    open spec fn into_lisp_res(self, env: Env) -> Result<ValView, Error> {
        if self {
            Ok(ValView::Sym(Symbol::True))
        } else {
            Ok(ValView::Sym(Symbol::Nil))
        }
    }

    fn into_lisp(self, env: &Env) -> (r: Result<Value, Error>) {
        if self {
            Symbol::True.into_lisp(env)
        } else {
            Symbol::Nil.into_lisp(env)
        }
    }
}

/// Integer leaf adapter, decode side: a host integer decodes to its
/// payload; any other tag is the type-mismatch error.
impl FromLisp for i64 {
    open spec fn from_lisp_spec(value: Value) -> Result<i64, Error> {
        match value {
            Value::Int(n) => Ok(n),
            _ => Err(Error::WrongType),
        }
    }

    fn from_lisp(value: Value) -> (r: Result<i64, Error>) {
        match value {
            Value::Int(n) => Ok(n),
            _ => Err(Error::WrongType),
        }
    }
}

/// Integer leaf adapter, encode side: the runtime context constructs the
/// host integer, failing with its construction error exactly when the
/// integer lies outside the context's range.
impl IntoLisp for i64 {
    open spec fn into_lisp_res(self, env: Env) -> Result<ValView, Error> {
        if env.int_min() <= self as int <= env.int_max() {
            Ok(ValView::Int(self as int))
        } else {
            Err(Error::Construction)
        }
    }

    fn into_lisp(self, env: &Env) -> (r: Result<Value, Error>) {
        env.make_integer(self)
    }
}

impl Vector {
    /// Encode `t` and store the result in slot `index`.  A failed encode
    /// surfaces its error unchanged; a slot outside the vector is the
    /// out-of-range error.  The vector is left unchanged in either
    /// failure case.
    pub fn set<T: IntoLisp>(&mut self, env: &Env, index: usize, t: T) -> (r: Result<(), Error>)
        ensures
            (r is Ok) == ((index as nat) < old(self)@.len() && t.into_lisp_res(*env) is Ok),
            r is Ok ==> final(self)@ == old(self)@.update(
                index as int,
                t.into_lisp_res(*env)->Ok_0,
            ),
            r is Err ==> *final(self) == *old(self),
            t.into_lisp_res(*env) matches Err(e) ==> r == Err::<(), Error>(e),
            t.into_lisp_res(*env) is Ok && (index as nat) >= old(self)@.len() ==> r == Err::<
                (),
                Error,
            >(Error::OutOfRange),
    {
        let v = t.into_lisp(env)?;
        self.store(index, v)
    }
}

/// What encoding the elements of a sequence, first to last, yields: the
/// views of all elements' host values when every encode succeeds, or the
/// first failing element's error, unchanged.
pub open spec fn encode_seq<T: IntoLisp>(s: Seq<T>, env: Env) -> Result<Seq<ValView>, Error>
    decreases s.len(),
{
    if s.len() == 0 {
        Ok(Seq::empty())
    } else {
        match s[0].into_lisp_res(env) {
            Err(e) => Err(e),
            Ok(v) => match encode_seq(s.subrange(1, s.len() as int), env) {
                Err(e) => Err(e),
                Ok(rest) => Ok(seq![v] + rest),
            },
        }
    }
}

/// When every element of `s` encodes, `encode_seq` succeeds with the
/// elements' host values, in order, slot `i` holding element `i`'s.
pub proof fn lemma_encode_seq_ok<T: IntoLisp>(s: Seq<T>, env: Env)
    requires
        forall|i: int| 0 <= i < s.len() ==> (#[trigger] s[i]).into_lisp_res(env) is Ok,
    ensures
        encode_seq(s, env) is Ok,
        encode_seq(s, env)->Ok_0.len() == s.len(),
        forall|i: int|
            0 <= i < s.len() ==> encode_seq(s, env)->Ok_0[i] == (#[trigger] s[i]).into_lisp_res(
                env,
            )->Ok_0,
    decreases s.len(),
{
    if s.len() > 0 {
        let rest = s.subrange(1, s.len() as int);
        lemma_encode_seq_ok(rest, env);
        assert forall|i: int|
            0 <= i < s.len() implies encode_seq(s, env)->Ok_0[i] == (#[trigger] s[i]).into_lisp_res(
            env,
        )->Ok_0 by {
            if i > 0 {
                assert(rest[i - 1] == s[i]);
            }
        }
    }
}

/// When `s[k]` is the first element of `s` whose encode fails,
/// `encode_seq` fails with exactly that element's error.
pub proof fn lemma_encode_seq_err<T: IntoLisp>(s: Seq<T>, env: Env, k: int)
    requires
        0 <= k < s.len(),
        forall|j: int| 0 <= j < k ==> (#[trigger] s[j]).into_lisp_res(env) is Ok,
        s[k].into_lisp_res(env) is Err,
    ensures
        encode_seq(s, env) == Err::<Seq<ValView>, Error>(s[k].into_lisp_res(env)->Err_0),
    decreases k,
{
    let rest = s.subrange(1, s.len() as int);
    if k > 0 {
        assert(rest[k - 1] == s[k]);
        assert forall|j: int| 0 <= j < k - 1 implies (#[trigger] rest[j]).into_lisp_res(env)
            is Ok by {
            assert(rest[j] == s[j + 1]);
        }
        lemma_encode_seq_err(rest, env, k - 1);
    }
}

/// Sequence adapter: an owned, ordered sequence of a trivially-copyable
/// encodable element type encodes to a host vector of the same length,
/// with element `i` of the input encoded into slot `i`, in ascending
/// order of `i`.
///
/// The encode fails as soon as the initial allocation fails (the sequence
/// is longer than the context's vector capacity, the context's
/// construction error) or any single element's encode fails (that
/// element's own error, surfaced unchanged); slots written before a
/// failing element are not rolled back, but the partly-filled vector is
/// discarded with the failed call.
impl<T: IntoLisp + Copy> IntoLisp for Vec<T> {
    open spec fn into_lisp_res(self, env: Env) -> Result<ValView, Error> {
        if self@.len() > env.vector_capacity() {
            Err(Error::Construction)
        } else {
            match encode_seq(self@, env) {
                Ok(vs) => Ok(ValView::Vector(vs)),
                Err(e) => Err(e),
            }
        }
    }

    fn into_lisp(self, env: &Env) -> (r: Result<Value, Error>) {
        let len = self.len();
        let mut w = env.make_vector(len, Symbol::Nil)?;
        let mut i: usize = 0;
        while i < len
            invariant
                i <= len,
                len == self@.len(),
                len as nat <= env.vector_capacity(),
                w@.len() == len as nat,
                forall|j: int| 0 <= j < i ==> (#[trigger] self@[j]).into_lisp_res(*env) is Ok,
                forall|j: int|
                    0 <= j < i ==> w@[j] == (#[trigger] self@[j]).into_lisp_res(*env)->Ok_0,
            decreases len - i,
        {
            let r = w.set(env, i, self[i]);
            if let Err(e) = r {
                proof {
                    lemma_encode_seq_err(self@, *env, i as int);
                }
                return Err(e);
            }
            i = i + 1;
        }
        proof {
            lemma_encode_seq_ok(self@, *env);
            assert forall|j: int|
                0 <= j < len implies w@[j] == encode_seq(self@, *env)->Ok_0[j] by {
                assert(w@[j] == self@[j].into_lisp_res(*env)->Ok_0);
            }
            assert(w@ =~= encode_seq(self@, *env)->Ok_0);
        }
        let v = w.value();
        Ok(v)
    }
}

} // verus!
