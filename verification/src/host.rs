//! A model of the host runtime: tagged values, the two canonical symbols,
//! the runtime context, and fixed-length host vectors.
//!
//! The conversion layer in [`crate::types`] treats the runtime as an
//! external collaborator reached through a narrow interface: a predicate
//! for "is not the absence marker", a way to allocate a fixed-length
//! vector with a given fill, and a way to set a vector slot.  Everything
//! here is owned, single-threaded and free of interior state, so a host
//! value never outlives the data it denotes.

use vstd::prelude::*;

verus! {

/// The two canonical symbols of the host runtime: `Nil`, the absence
/// marker, and `True`, the truth symbol.
#[derive(Clone, Copy, PartialEq, Eq, Structural, Debug)]
pub enum Symbol {
    Nil,
    True,
}

/// A runtime-tagged host value.
///
/// A value is a symbol, an integer, or a fixed-length vector of further
/// values.  Vectors own their elements, so a value carries everything the
/// runtime needs to read it back.
#[derive(Debug, PartialEq, Eq)]
pub enum Value {
    Sym(Symbol),
    Int(i64),
    Vector(Vec<Value>),
}

/// The mathematical shape of a host value: the same tree, with unbounded
/// integers and sequences in place of machine integers and vectors.
pub ghost enum ValView {
    Sym(Symbol),
    Int(int),
    Vector(Seq<ValView>),
}

impl View for Value {
    type V = ValView;

    open spec fn view(&self) -> ValView
        decreases self,
    {
        match self {
            Value::Sym(s) => ValView::Sym(*s),
            Value::Int(n) => ValView::Int(*n as int),
            Value::Vector(vs) => ValView::Vector(view_seq(vs@)),
        }
    }
}

/// The views of a sequence of host values, element by element.
pub open spec fn view_seq(vs: Seq<Value>) -> Seq<ValView>
    decreases vs,
{
    if vs.len() == 0 {
        Seq::empty()
    } else {
        seq![vs[0]@] + view_seq(vs.subrange(1, vs.len() as int))
    }
}

/// `view_seq` maps each element of the sequence to its view.
pub proof fn lemma_view_seq(vs: Seq<Value>)
    ensures
        view_seq(vs).len() == vs.len(),
        forall|i: int| 0 <= i < vs.len() ==> view_seq(vs)[i] == vs[i]@,
    decreases vs,
{
    if vs.len() == 0 {
        assert(view_seq(vs) == Seq::<ValView>::empty());
    } else {
        let rest = vs.subrange(1, vs.len() as int);
        assert(view_seq(vs) == seq![vs[0]@] + view_seq(rest));
        lemma_view_seq(rest);
        assert forall|i: int| 0 <= i < vs.len() implies view_seq(vs)[i] == vs[i]@ by {
            if i > 0 {
                assert(rest[i - 1] == vs[i]);
            }
        }
    }
}

/// Why a conversion or a runtime operation failed.
#[derive(Clone, Copy, PartialEq, Eq, Structural, Debug)]
pub enum Error {
    /// A host value's runtime tag did not match what the target native
    /// type expects.
    WrongType,
    /// The runtime context could not construct the requested
    /// representation (an integer outside its range, a vector longer than
    /// it can allocate).
    Construction,
    /// A vector slot outside the vector's length was addressed.
    OutOfRange,
}

/// The runtime context: the single live handle through which host values
/// are constructed.
///
/// The model runtime is finite: it represents integers only within a
/// closed range and allocates vectors only up to a fixed length.  Asking
/// for anything beyond those bounds is the model's construction failure.
pub struct Env {
    min_int: i64,
    max_int: i64,
    max_vector_len: usize,
}

impl Env {
    /// The smallest integer this runtime context can represent.
    pub closed spec fn int_min(self) -> int {
        self.min_int as int
    }

    /// The largest integer this runtime context can represent.
    pub closed spec fn int_max(self) -> int {
        self.max_int as int
    }

    /// The longest vector this runtime context can allocate.
    pub closed spec fn vector_capacity(self) -> nat {
        self.max_vector_len as nat
    }

    /// A runtime context that represents integers in
    /// `min_int ..= max_int` and allocates vectors of at most
    /// `max_vector_len` slots.
    pub fn new(min_int: i64, max_int: i64, max_vector_len: usize) -> (r: Env)
        ensures
            r.int_min() == min_int as int,
            r.int_max() == max_int as int,
            r.vector_capacity() == max_vector_len as nat,
    {
        Env { min_int, max_int, max_vector_len }
    }

    /// Construct a host integer.  Fails exactly when `n` lies outside the
    /// runtime's integer range.
    pub fn make_integer(&self, n: i64) -> (r: Result<Value, Error>)
        ensures
            (r is Ok) == (self.int_min() <= n as int <= self.int_max()),
            r matches Ok(v) ==> v@ == ValView::Int(n as int),
            r matches Err(e) ==> e == Error::Construction,
    {
        if self.min_int <= n && n <= self.max_int {
            Ok(Value::Int(n))
        } else {
            Err(Error::Construction)
        }
    }

    /// Allocate a fixed-length host vector of `len` slots, each filled
    /// with the symbol `fill`.  Fails exactly when `len` exceeds the
    /// runtime's vector capacity.
    pub fn make_vector(&self, len: usize, fill: Symbol) -> (r: Result<Vector, Error>)
        ensures
            (r is Ok) == (len as nat <= self.vector_capacity()),
            r matches Ok(w) ==> w@ == Seq::new(len as nat, |i: int| ValView::Sym(fill)),
            r matches Err(e) ==> e == Error::Construction,
    {
        if len > self.max_vector_len {
            return Err(Error::Construction);
        }
        let mut cells: Vec<Value> = Vec::new();
        let mut i: usize = 0;
        while i < len
            invariant
                i <= len,
                cells@.len() == i as nat,
                forall|j: int| 0 <= j < i ==> cells@[j]@ == ValView::Sym(fill),
            decreases len - i,
        {
            cells.push(Value::Sym(fill));
            i = i + 1;
        }
        let w = Vector { cells };
        proof {
            lemma_view_seq(cells@);
            assert(w@ =~= Seq::new(len as nat, |i: int| ValView::Sym(fill)));
        }
        Ok(w)
    }
}

/// A handle to a fixed-length host vector whose slots can be set one at a
/// time.
pub struct Vector {
    cells: Vec<Value>,
}

impl View for Vector {
    type V = Seq<ValView>;

    closed spec fn view(&self) -> Seq<ValView> {
        view_seq(self.cells@)
    }
}

impl Vector {
    /// How many slots the vector has.
    pub fn len(&self) -> (r: usize)
        ensures
            r as nat == self@.len(),
    {
        proof {
            lemma_view_seq(self.cells@);
        }
        self.cells.len()
    }

    /// Store an already-constructed host value in slot `index`.  Fails
    /// exactly when `index` is outside the vector, and leaves the vector
    /// unchanged in that case.
    pub fn store(&mut self, index: usize, v: Value) -> (r: Result<(), Error>)
        ensures
            (r is Ok) == ((index as nat) < old(self)@.len()),
            r is Ok ==> final(self)@ == old(self)@.update(index as int, v@),
            r is Err ==> *final(self) == *old(self) && r == Err::<(), Error>(Error::OutOfRange),
    {
        proof {
            lemma_view_seq(self.cells@);
        }
        if index >= self.cells.len() {
            return Err(Error::OutOfRange);
        }
        self.cells.set(index, v);
        proof {
            lemma_view_seq(self.cells@);
            assert(self@ =~= old(self)@.update(index as int, v@));
        }
        Ok(())
    }

    /// The host value standing for the whole vector.
    pub fn value(self) -> (r: Value)
        ensures
            r@ == ValView::Vector(self@),
    {
        Value::Vector(self.cells)
    }
}

impl Value {
    /// The canonical absence marker, as a value.
    pub fn nil() -> (r: Value)
        ensures
            r@ == ValView::Sym(Symbol::Nil),
    {
        Value::Sym(Symbol::Nil)
    }

    /// Whether this value is anything but the absence marker.
    pub fn is_not_nil(&self) -> (r: bool)
        ensures
            r == (self@ != ValView::Sym(Symbol::Nil)),
    {
        !(matches!(self, Value::Sym(Symbol::Nil)))
    }
}

} // verus!
