use lisp_interop::host::{Env, Error, Symbol, Value};
use lisp_interop::types::{FromLisp, IntoLisp};

fn env() -> Env {
    Env::new(-1000, 1000, 16)
}

#[test]
fn round_trip_i64() {
    let e = env();
    let v = 5i64.into_lisp(&e).unwrap();
    assert_eq!(i64::from_lisp(v), Ok(5));
    let v = (-1000i64).into_lisp(&e).unwrap();
    assert_eq!(i64::from_lisp(v), Ok(-1000));
}

#[test]
fn round_trip_option_i64() {
    let e = env();
    let v = Some(7i64).into_lisp(&e).unwrap();
    assert_eq!(Option::<i64>::from_lisp(v), Ok(Some(7)));
    let v = None::<i64>.into_lisp(&e).unwrap();
    assert_eq!(Option::<i64>::from_lisp(v), Ok(None));
}

#[test]
fn round_trip_identity() {
    let e = env();
    let encoded = Value::Int(42).into_lisp(&e).unwrap();
    assert_eq!(encoded, Value::Int(42));
    assert_eq!(Value::from_lisp(encoded), Ok(Value::Int(42)));
}

#[test]
fn identity_never_fails_on_symbols_and_vectors() {
    let e = env();
    let sym = || Value::Sym(Symbol::True);
    assert_eq!(sym().into_lisp(&e), Ok(sym()));
    assert_eq!(Value::from_lisp(sym()), Ok(sym()));
    let vector = || Value::Vector(vec![Value::Int(1), Value::Sym(Symbol::Nil)]);
    assert_eq!(vector().into_lisp(&e), Ok(vector()));
    assert_eq!(Value::from_lisp(vector()), Ok(vector()));
}

#[test]
fn decode_absence_as_option_is_none() {
    // i64's own decode rejects the absence marker, so a None here shows
    // the optional adapter answered before asking the payload type.
    assert_eq!(i64::from_lisp(Value::Sym(Symbol::Nil)), Err(Error::WrongType));
    assert_eq!(Option::<i64>::from_lisp(Value::Sym(Symbol::Nil)), Ok(None));
}

#[test]
fn decode_mismatch_inside_option_is_an_error() {
    let v = Value::Sym(Symbol::True);
    assert_eq!(Option::<i64>::from_lisp(v), Err(Error::WrongType));
}

#[test]
fn encode_none_is_absence_marker() {
    let e = env();
    assert_eq!(None::<i64>.into_lisp(&e), Ok(Value::Sym(Symbol::Nil)));
}

#[test]
fn encode_some_is_encode_of_payload() {
    let e = env();
    assert_eq!(Some(9i64).into_lisp(&e), 9i64.into_lisp(&e));
    assert_eq!(Some(9i64).into_lisp(&e), Ok(Value::Int(9)));
}

#[test]
fn encode_bool() {
    let e = env();
    assert_eq!(true.into_lisp(&e), Ok(Value::Sym(Symbol::True)));
    assert_eq!(false.into_lisp(&e), Ok(Value::Sym(Symbol::Nil)));
    assert_eq!(false.into_lisp(&e), None::<i64>.into_lisp(&e));
}

#[test]
fn encode_unit_is_absence_marker() {
    let e = env();
    assert_eq!(().into_lisp(&e), Ok(Value::Sym(Symbol::Nil)));
    assert_eq!(().into_lisp(&e), None::<bool>.into_lisp(&e));
    assert_eq!(().into_lisp(&e), None::<i64>.into_lisp(&e));
}

#[test]
fn encode_sequence_in_order() {
    let e = env();
    let v = vec![10i64, 20, 30].into_lisp(&e).unwrap();
    match v {
        Value::Vector(cells) => {
            assert_eq!(cells.len(), 3);
            assert_eq!(cells[0], Value::Int(10));
            assert_eq!(cells[1], Value::Int(20));
            assert_eq!(cells[2], Value::Int(30));
        }
        other => panic!("expected a vector, got {:?}", other),
    }
}

#[test]
fn encode_empty_sequence() {
    let e = env();
    let v = Vec::<i64>::new().into_lisp(&e).unwrap();
    assert_eq!(v, Value::Vector(vec![]));
}

#[test]
fn encode_sequence_of_bools() {
    let e = env();
    let v = vec![true, false].into_lisp(&e).unwrap();
    assert_eq!(
        v,
        Value::Vector(vec![Value::Sym(Symbol::True), Value::Sym(Symbol::Nil)])
    );
}

#[test]
fn sequence_failure_is_reported() {
    // 2000 lies outside the context's integer range, so the second
    // element's encode fails and the sequence encode surfaces it.
    let e = env();
    assert_eq!(vec![1i64, 2000, 3].into_lisp(&e), Err(Error::Construction));
}

#[test]
fn sequence_longer_than_capacity_fails() {
    let e = Env::new(-1000, 1000, 2);
    assert_eq!(vec![1i64, 2, 3].into_lisp(&e), Err(Error::Construction));
    assert_eq!(vec![1i64, 2].into_lisp(&e), Ok(Value::Vector(vec![Value::Int(1), Value::Int(2)])));
}

#[test]
fn encode_integer_out_of_range_fails() {
    let e = Env::new(0, 10, 4);
    assert_eq!(11i64.into_lisp(&e), Err(Error::Construction));
    assert_eq!((-1i64).into_lisp(&e), Err(Error::Construction));
    assert_eq!(10i64.into_lisp(&e), Ok(Value::Int(10)));
}

#[test]
fn encode_symbols() {
    let e = env();
    assert_eq!(Symbol::Nil.into_lisp(&e), Ok(Value::Sym(Symbol::Nil)));
    assert_eq!(Symbol::True.into_lisp(&e), Ok(Value::Sym(Symbol::True)));
}

#[test]
fn make_vector_fills_with_symbol() {
    let e = env();
    let w = e.make_vector(2, Symbol::Nil).unwrap();
    assert_eq!(
        w.value(),
        Value::Vector(vec![Value::Sym(Symbol::Nil), Value::Sym(Symbol::Nil)])
    );
}

#[test]
fn vector_set_out_of_range() {
    let e = env();
    let mut w = e.make_vector(2, Symbol::Nil).unwrap();
    assert_eq!(w.set(&e, 2, 5i64), Err(Error::OutOfRange));
    assert_eq!(w.set(&e, 1, 5i64), Ok(()));
    assert_eq!(
        w.value(),
        Value::Vector(vec![Value::Sym(Symbol::Nil), Value::Int(5)])
    );
}

#[test]
fn vector_set_failed_encode_leaves_vector_unchanged() {
    let e = Env::new(0, 10, 4);
    let mut w = e.make_vector(1, Symbol::True).unwrap();
    assert_eq!(w.set(&e, 0, 99i64), Err(Error::Construction));
    assert_eq!(w.value(), Value::Vector(vec![Value::Sym(Symbol::True)]));
}

#[test]
fn nested_option_encodes_through_payload() {
    let e = env();
    assert_eq!(Some(Some(3i64)).into_lisp(&e), Ok(Value::Int(3)));
    assert_eq!(Some(None::<i64>).into_lisp(&e), Ok(Value::Sym(Symbol::Nil)));
}

#[test]
fn value_predicates() {
    assert!(!Value::Sym(Symbol::Nil).is_not_nil());
    assert!(Value::Sym(Symbol::True).is_not_nil());
    assert!(Value::Int(0).is_not_nil());
    assert_eq!(Value::nil(), Value::Sym(Symbol::Nil));
}
