//! Laws of the conversion layer, stated against the capability
//! specifications of [`crate::types`] and proved once and for all.

use vstd::prelude::*;
use crate::host::{Env, Error, Symbol, ValView, Value};
use crate::types::{FromLisp, IntoLisp, lemma_encode_seq_err, lemma_encode_seq_ok};

verus! {

/// The identity adapter is the identity: a host value decodes to itself,
/// and encodes to itself in any context, neither direction failing.
pub proof fn lemma_identity(v: Value, env: Env)
    ensures
        <Value as FromLisp>::from_lisp_spec(v) == Ok::<Value, Error>(v),
        v.into_lisp_res(env) == Ok::<ValView, Error>(v@),
{
}

/// Encoding an integer and decoding the resulting host value yields the
/// integer back.
pub proof fn lemma_round_trip_i64(n: i64, env: Env, value: Value)
    requires
        n.into_lisp_res(env) is Ok,
        value@ == n.into_lisp_res(env)->Ok_0,
    ensures
        <i64 as FromLisp>::from_lisp_spec(value) == Ok::<i64, Error>(n),
{
}

/// Decoding the absence marker as an optional value yields `None`,
/// whatever the payload type is and however its own decode behaves.
pub proof fn lemma_decode_absence_option<T: FromLisp>(value: Value)
    requires
        value@ == ValView::Sym(Symbol::Nil),
    ensures
        <Option<T> as FromLisp>::from_lisp_spec(value) == Ok::<Option<T>, Error>(None),
{
}

/// Decoding anything but the absence marker as an optional value decodes
/// it by the payload type: a success is wrapped in `Some`, and a failure
/// is the payload's own error, returned unchanged.
pub proof fn lemma_decode_present_option<T: FromLisp>(value: Value)
    requires
        value@ != ValView::Sym(Symbol::Nil),
    ensures
        T::from_lisp_spec(value) matches Ok(t) ==> <Option<T> as FromLisp>::from_lisp_spec(value)
            == Ok::<Option<T>, Error>(Some(t)),
        T::from_lisp_spec(value) matches Err(e) ==> <Option<T> as FromLisp>::from_lisp_spec(value)
            == Err::<Option<T>, Error>(e),
{
}

/// Encoding `None` yields exactly the absence marker and cannot fail;
/// encoding `Some(t)` yields the same result as encoding `t` directly,
/// success or failure, the error unchanged.
pub proof fn lemma_encode_option<T: IntoLisp>(x: Option<T>, env: Env)
    ensures
        (None::<T>).into_lisp_res(env) == Ok::<ValView, Error>(ValView::Sym(Symbol::Nil)),
        x matches Some(t) ==> x.into_lisp_res(env) == t.into_lisp_res(env),
{
}

/// Optional values round-trip structurally: if the payload type decodes
/// the encoded payload back and never encodes a present payload to the
/// absence marker, then decoding an encoded `Option` yields the
/// original.
pub proof fn lemma_round_trip_option<T: FromLisp + IntoLisp>(
    x: Option<T>,
    env: Env,
    value: Value,
)
    requires
        x.into_lisp_res(env) is Ok,
        value@ == x.into_lisp_res(env)->Ok_0,
        x matches Some(t) ==> t.into_lisp_res(env)->Ok_0 != ValView::Sym(Symbol::Nil),
        x matches Some(t) ==> T::from_lisp_spec(value) == Ok::<T, Error>(t),
    ensures
        <Option<T> as FromLisp>::from_lisp_spec(value) == Ok::<Option<T>, Error>(x),
{
}

/// Encoding `true` yields the truth symbol; encoding `false` yields the
/// same host value as the absence marker.  Neither fails.
pub proof fn lemma_encode_bool(b: bool, env: Env)
    ensures
        b.into_lisp_res(env) is Ok,
        true.into_lisp_res(env) == Ok::<ValView, Error>(ValView::Sym(Symbol::True)),
        false.into_lisp_res(env) == Ok::<ValView, Error>(ValView::Sym(Symbol::Nil)),
{
}

/// Encoding unit yields the same host value as encoding `None` of any
/// payload type; neither fails.
pub proof fn lemma_encode_unit<T: IntoLisp>(env: Env)
    ensures
        ().into_lisp_res(env) == (None::<T>).into_lisp_res(env),
        ().into_lisp_res(env) == Ok::<ValView, Error>(ValView::Sym(Symbol::Nil)),
{
}

/// A successfully encoded sequence is a host vector of the input's
/// length whose slot `i` holds exactly the encoding of input element
/// `i`.
pub proof fn lemma_encode_sequence<T: IntoLisp + Copy>(xs: Vec<T>, env: Env)
    requires
        xs@.len() <= env.vector_capacity(),
        forall|i: int| 0 <= i < xs@.len() ==> (#[trigger] xs@[i]).into_lisp_res(env) is Ok,
    ensures
        xs.into_lisp_res(env) matches Ok(v) && v matches ValView::Vector(s) && s.len()
            == xs@.len() && (forall|i: int|
            0 <= i < xs@.len() ==> s[i] == (#[trigger] xs@[i]).into_lisp_res(env)->Ok_0),
{
    lemma_encode_seq_ok(xs@, env);
}

/// A sequence longer than the context's vector capacity fails to encode
/// with the context's construction error, before any element is encoded.
pub proof fn lemma_sequence_allocation_failure<T: IntoLisp + Copy>(xs: Vec<T>, env: Env)
    requires
        xs@.len() > env.vector_capacity(),
    ensures
        xs.into_lisp_res(env) == Err::<ValView, Error>(Error::Construction),
{
}

/// When the allocation succeeds and `xs[k]` is the first element whose
/// encode fails, the sequence as a whole fails with exactly that
/// element's error, unchanged.
pub proof fn lemma_sequence_failure<T: IntoLisp + Copy>(xs: Vec<T>, env: Env, k: int)
    requires
        xs@.len() <= env.vector_capacity(),
        0 <= k < xs@.len(),
        forall|j: int| 0 <= j < k ==> (#[trigger] xs@[j]).into_lisp_res(env) is Ok,
        xs@[k].into_lisp_res(env) is Err,
    ensures
        xs.into_lisp_res(env) == Err::<ValView, Error>(xs@[k].into_lisp_res(env)->Err_0),
{
    lemma_encode_seq_err(xs@, env, k);
}

} // verus!
