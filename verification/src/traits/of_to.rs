//! Conversion traits `Of` and `To`, a functional replacement for the standard
//! `From` and `Into`.
//!
//! With `From`/`Into`, once a type has more than one `From` implementation a
//! caller must name the implementation with a qualified path. With `Of`/`To`
//! the target type stands on the method instead: `value.to::<Target>()`.
//!
//! Each implementation of `Of` states what it returns in its own
//! `of_spec` relation; `of` and `to` promise exactly that relation.

use vstd::prelude::*;
use vstd::pervasive::cloned;

verus! {

/// Conversion out of `F`, the counterpart of the standard `From<F>`.
pub trait Of<F>: Sized {
    /// What `of` may return for a given input. An implementation whose
    /// conversion is a function states `r == <that function>(value)` here.
    spec fn of_spec(value: F, r: Self) -> bool;

    fn of(value: F) -> (r: Self)
        ensures
            Self::of_spec(value, r),
    ;
}

/// Conversion into a chosen target, the counterpart of the standard `Into`:
/// `value.to::<Target>()` converts through `Target`'s `Of` implementation.
pub trait To: Sized {
    fn to<I: Of<Self>>(self) -> (r: I)
        ensures
            I::of_spec(self, r),
    ;
}

impl<F> To for F {
    fn to<I: Of<F>>(self) -> (r: I) {
        I::of(self)
    }
}

impl<F, I: Of<F>> Of<Vec<F>> for Vec<I> {
    /// Elementwise conversion: as long as the input, each element related by
    /// the element type's `of_spec`.
    open spec fn of_spec(value: Vec<F>, r: Vec<I>) -> bool {
        &&& r@.len() == value@.len()
        &&& forall|i: int| 0 <= i < value@.len() ==> I::of_spec(value@[i], #[trigger] r@[i])
    }

    fn of(value: Vec<F>) -> (r: Vec<I>) {
        let ghost orig = value@;
        let mut rest = value;
        let mut out: Vec<I> = Vec::new();
        while rest.len() > 0
            invariant
                orig.len() == out@.len() + rest@.len(),
                orig =~= orig.take(out@.len() as int) + rest@,
                forall|i: int| 0 <= i < out@.len() ==> I::of_spec(orig[i], #[trigger] out@[i]),
            decreases rest.len(),
        {
            let f = rest.remove(0);
            assert(orig[out@.len() as int] == f);
            out.push(I::of(f));
        }
        assert(orig =~= orig.take(out@.len() as int));
        assert(out@.len() == value@.len());
        assert(forall|i: int| 0 <= i < value@.len() ==> I::of_spec(value@[i], #[trigger] out@[i]));
        out
    }
}

impl<'a, F: Clone, I: Of<F>> Of<&'a Vec<F>> for Vec<I> {
    /// Elementwise conversion of clones: some sequence of clones of the
    /// input's elements relates to the result, element by element, through
    /// the element type's `of_spec`.
    open spec fn of_spec(value: &'a Vec<F>, r: Vec<I>) -> bool {
        &&& r@.len() == value@.len()
        &&& exists|ws: Seq<F>|
            #[trigger] ws.len() == value@.len() && forall|i: int|
                0 <= i < value@.len() ==> cloned::<F>(value@[i], #[trigger] ws[i]) && I::of_spec(
                    ws[i],
                    r@[i],
                )
    }

    fn of(value: &'a Vec<F>) -> (r: Vec<I>) {
        let mut out: Vec<I> = Vec::new();
        let ghost mut witnesses: Seq<F> = Seq::empty();
        let mut i: usize = 0;
        while i < value.len()
            invariant
                i <= value@.len(),
                out@.len() == i as int,
                witnesses.len() == i as int,
                forall|j: int|
                    0 <= j < i ==> cloned::<F>(value@[j], #[trigger] witnesses[j]) && I::of_spec(
                        witnesses[j],
                        out@[j],
                    ),
            decreases value@.len() - i,
        {
            let c = value[i].clone();
            proof {
                witnesses = witnesses.push(c);
            }
            let converted = I::of(c);
            out.push(converted);
            i += 1;
        }
        proof {
            assert(witnesses.len() == value@.len() && forall|k: int|
                0 <= k < value@.len() ==> cloned::<F>(value@[k], #[trigger] witnesses[k])
                    && I::of_spec(witnesses[k], out@[k]));
        }
        out
    }
}

} // verus!
