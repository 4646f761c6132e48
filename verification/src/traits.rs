//! The two contracts that tie a structured value to a fixed-length run of
//! reals: what an integrand consumes and what it produces.

use vstd::prelude::*;

verus! {

/// A value that an integrand consumes, built from a fixed number of reals.
pub trait IntegrandInput<R>: Sized {
    /// The dimensionality of the type: how many reals make up one value.
    spec fn spec_input_size() -> usize;

    /// The reals that a value is made of, in order.
    spec fn args(&self) -> Seq<R>;

    /// The dimensionality of the type.
    fn input_size() -> (d: usize)
        ensures
            d == Self::spec_input_size(),
    ;

    /// Builds the value that is made of exactly the reals in `args`.
    fn from_args(args: &[R]) -> (v: Self)
        requires
            args@.len() == Self::spec_input_size(),
        ensures
            v.args() == args@,
    ;

    /// Every value is made of exactly `spec_input_size()` reals.
    proof fn lemma_args_len(&self)
        ensures
            self.args().len() == Self::spec_input_size(),
    ;

    /// A value holds nothing beyond its reals: equal reals, equal values.
    proof fn lemma_args_determine(&self, other: &Self)
        requires
            self.args() == other.args(),
        ensures
            *self == *other,
    ;
}

/// A value that an integrand produces, written out as a fixed number of reals.
pub trait IntegrandOutput<R>: Sized {
    /// The number of components of the type.
    spec fn spec_output_size() -> usize;

    /// The components of a value, in order.
    spec fn components(&self) -> Seq<R>;

    /// The number of components of the type.
    fn output_size() -> (c: usize)
        ensures
            c == Self::spec_output_size(),
    ;

    /// Overwrites every position of `output` with the components of `self`.
    fn into_args(&self, output: &mut [R])
        requires
            old(output)@.len() == Self::spec_output_size(),
        ensures
            final(output)@ == self.components(),
    ;

    /// Every value has exactly `spec_output_size()` components.
    proof fn lemma_components_len(&self)
        ensures
            self.components().len() == Self::spec_output_size(),
    ;
}

/// The value of type `A` that is made of the reals `s`.
pub open spec fn input_value<R, A: IntegrandInput<R>>(s: Seq<R>) -> A {
    choose|a: A| a.args() == s
}

/// Round trip: taking a value apart into its reals and building a value from
/// them again gives the value back, and the reals are as many as the type
/// declares.
pub proof fn lemma_input_round_trip<R, A: IntegrandInput<R>>(v: A)
    ensures
        v.args().len() == A::spec_input_size(),
        input_value::<R, A>(v.args()) == v,
{
    v.lemma_args_len();
    let w = input_value::<R, A>(v.args());
    assert(w.args() == v.args());
    w.lemma_args_determine(&v);
}

/// Builds an input from raw reals and names the value that comes out.
pub fn build_input<R, A: IntegrandInput<R>>(args: &[R]) -> (v: A)
    requires
        args@.len() == A::spec_input_size(),
    ensures
        v.args() == args@,
        v == input_value::<R, A>(args@),
{
    let v = A::from_args(args);
    proof {
        let w = input_value::<R, A>(args@);
        assert(w.args() == args@);
        w.lemma_args_determine(&v);
    }
    v
}

/// `TryFrom<&[T]>` for `[T; N]` of the standard library: the conversion
/// succeeds exactly when the slice holds `N` items, and the array is then an
/// item-by-item copy of the slice. Not proved here.
#[verifier::external_body]
fn array_from_slice<R: Copy, const N: usize>(args: &[R]) -> (r: Option<[R; N]>)
    ensures
        r is Some <==> args@.len() == N,
        r matches Some(a) ==> a@ == args@,
{
    match <[R; N]>::try_from(args) {
        Ok(a) => Some(a),
        Err(_) => None,
    }
}

impl<R: Copy, const N: usize> IntegrandInput<R> for [R; N] {
    open spec fn spec_input_size() -> usize {
        N
    }

    open spec fn args(&self) -> Seq<R> {
        self@
    }

    fn input_size() -> (d: usize) {
        N
    }

    fn from_args(args: &[R]) -> (v: Self) {
        match array_from_slice::<R, N>(args) {
            Some(v) => v,
            None => vstd::pervasive::unreached(),
        }
    }

    proof fn lemma_args_len(&self) {
    }

    proof fn lemma_args_determine(&self, other: &Self) {
        assert(*self =~= *other);
    }
}

impl<R: Copy, const N: usize> IntegrandOutput<R> for [R; N] {
    open spec fn spec_output_size() -> usize {
        N
    }

    open spec fn components(&self) -> Seq<R> {
        self@
    }

    fn output_size() -> (c: usize) {
        N
    }

    fn into_args(&self, output: &mut [R]) {
        let mut i: usize = 0;
        while i < N
            invariant
                i <= N,
                output@.len() == N,
                forall|j: int| 0 <= j < i ==> output@[j] == self@[j],
            decreases N - i,
        {
            output[i] = self[i];
            i += 1;
        }
        assert(output@ =~= self@);
    }

    proof fn lemma_components_len(&self) {
    }
}

} // verus!
