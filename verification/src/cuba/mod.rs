//! The callback that the Cuba routines call, the results they hand back and
//! the errors of an integration. See Cuba's documentation for the routines
//! themselves.

use crate::decimal::{append_decimal, decimal};
use crate::ffi::LandingPad;
use crate::traits::{IntegrandInput, IntegrandOutput};
use crate::IntegrationResult;
use vstd::prelude::*;
use vstd::string::StringExecFns;

verus! {

/// The status that lets the integration go on.
pub const STATUS_OK: i32 = 0;

/// The status by which a callback tells Cuba to abort the whole integration.
pub const STATUS_ABORT: i32 = -999;

/// The status that stands for the outcome of one evaluation.
pub open spec fn spec_status(ok: bool) -> i32 {
    if ok {
        STATUS_OK
    } else {
        STATUS_ABORT
    }
}

/// Turns the outcome of one evaluation into the status handed to Cuba.
pub fn status_code(outcome: &Result<(), ()>) -> (status: i32)
    ensures
        status == spec_status(outcome is Ok),
{
    match outcome {
        Ok(_) => STATUS_OK,
        Err(_) => STATUS_ABORT,
    }
}

/// One callback of the integration routine: evaluates the integrand of `lp`
/// at the point `x`, writes the components of the result to `f` and reports
/// the status. `x` and `f` are the buffers of the callback, as long as the
/// dimensionality and the component count that the routine was given.
///
/// The status is `STATUS_OK` where the integrand gave a value and
/// `STATUS_ABORT` where it failed, and never anything else. An integrand
/// that cannot fail at `x` gets `STATUS_OK`; one that cannot succeed there
/// gets `STATUS_ABORT` and leaves `f` as it was. The pad is left as it was
/// found, so the routine may call again.
pub fn cuba_integrand<R, A, B, F>(
    lp: &mut LandingPad<R, A, B, F>,
    x: &[R],
    f: &mut [R],
) -> (status: i32) where
    A: IntegrandInput<R>,
    B: IntegrandOutput<R>,
    F: FnMut(A) -> Option<B>,

    requires
        x@.len() == A::spec_input_size(),
        old(f)@.len() == B::spec_output_size(),
        old(lp).accepts(x@),
    ensures
        status == STATUS_OK || status == STATUS_ABORT,
        old(lp).evaluates(x@, old(f)@, final(f)@, status == STATUS_OK),
        status == STATUS_ABORT ==> final(f)@ == old(f)@,
        (forall|outcome: Option<B>| #[trigger]
            old(lp).may_give(x@, outcome) ==> outcome is Some) ==> status == STATUS_OK,
        (forall|outcome: Option<B>| #[trigger]
            old(lp).may_give(x@, outcome) ==> outcome is None) ==> status == STATUS_ABORT,
        final(lp).integrand() == old(lp).integrand(),
        final(f)@.len() == old(f)@.len(),
{
    let outcome = lp.try_call(x, f);
    status_code(&outcome)
}

/// The generator of the sample points, for the routines that draw them.
#[derive(Copy, Clone, Debug, PartialEq, Eq, Structural)]
pub enum RandomNumberSource {
    Sobol,
    MersenneTwister,
}

/// The statistics of one component of the integrand.
#[derive(Copy, Clone, Debug, PartialEq)]
pub struct CubaIntegrationResult<R> {
    /// The estimate of the integral.
    pub value: R,
    /// The estimated absolute uncertainty of `value`.
    pub error: R,
    /// The chi-square probability that `error` is not a reliable estimate.
    pub prob: R,
}

impl<R> CubaIntegrationResult<R> {
    /// The value and the error alone.
    pub open spec fn simplified(self) -> IntegrationResult<R> {
        IntegrationResult { value: self.value, error: self.error }
    }
}

/// What one call of an integration routine hands back.
#[derive(Clone, Debug, PartialEq)]
pub struct CubaIntegrationResults<R> {
    /// The number of subregions, for the routines that divide the domain.
    pub nregions: Option<i32>,
    /// The number of evaluations of the integrand.
    pub neval: i64,
    /// One entry for each component, in the order of the components.
    pub results: Vec<CubaIntegrationResult<R>>,
}

/// The content of a `CubaIntegrationResults`.
pub struct ResultsView<R> {
    pub nregions: Option<i32>,
    pub neval: i64,
    pub results: Seq<CubaIntegrationResult<R>>,
}

impl<R> View for CubaIntegrationResults<R> {
    type V = ResultsView<R>;

    open spec fn view(&self) -> ResultsView<R> {
        ResultsView { nregions: self.nregions, neval: self.neval, results: self.results@ }
    }
}

/// The entries that the three buffers of a routine stand for: entry `i` is
/// made of position `i` of each.
pub open spec fn triples<R>(values: Seq<R>, errors: Seq<R>, probs: Seq<R>) -> Seq<
    CubaIntegrationResult<R>,
> {
    Seq::new(
        values.len(),
        |i: int| CubaIntegrationResult { value: values[i], error: errors[i], prob: probs[i] },
    )
}

/// What can go wrong with an integration.
#[derive(Clone, Debug, PartialEq)]
pub enum CubaError<R> {
    /// The dimensionality of the integrand's input is not supported by the
    /// algorithm. Holds the name of the algorithm and the dimensionality
    /// that was asked for.
    BadDim(&'static str, usize),
    /// The number of components of the integrand's output is not supported
    /// by the algorithm. Holds the name of the algorithm and the number of
    /// components that was asked for.
    BadComp(&'static str, usize),
    /// The integration did not converge. The results did not reach the
    /// accuracy that was asked for; they may be of use all the same, and so
    /// they are kept.
    DidNotConverge(CubaIntegrationResults<R>),
}

impl<R: Copy> CubaIntegrationResults<R> {
    /// Collects what a routine left in its buffers.
    pub fn from_raw(
        nregions: Option<i32>,
        neval: i64,
        values: &[R],
        errors: &[R],
        probs: &[R],
    ) -> (res: Self)
        requires
            errors@.len() == values@.len(),
            probs@.len() == values@.len(),
        ensures
            res@ == (ResultsView { nregions, neval, results: triples(values@, errors@, probs@) }),
    {
        let n: usize = values.len();
        let mut results: Vec<CubaIntegrationResult<R>> = Vec::new();
        let mut i: usize = 0;
        while i < n
            invariant
                i <= n,
                n == values@.len(),
                n == errors@.len(),
                n == probs@.len(),
                results@.len() == i,
                forall|j: int|
                    0 <= j < i ==> results@[j] == triples(values@, errors@, probs@)[j],
            decreases n - i,
        {
            results.push(CubaIntegrationResult { value: values[i], error: errors[i], prob: probs[i] });
            i += 1;
        }
        assert(results@ =~= triples(values@, errors@, probs@));
        CubaIntegrationResults { nregions, neval, results }
    }

    /// Gives the results back where the routine converged, and wrapped in
    /// `DidNotConverge` where it did not.
    pub fn check_convergence(self, converged: bool) -> (r: Result<Self, CubaError<R>>)
        ensures
            converged ==> r == Ok::<Self, CubaError<R>>(self),
            !converged ==> r == Err::<Self, CubaError<R>>(CubaError::DidNotConverge(self)),
    {
        if converged {
            Ok(self)
        } else {
            Err(CubaError::DidNotConverge(self))
        }
    }
}

/// Reads the outcome of an integration from the buffers and counters that
/// the routine filled in, and from whether it reported convergence.
pub fn parse_results<R: Copy>(
    nregions: Option<i32>,
    neval: i64,
    values: &[R],
    errors: &[R],
    probs: &[R],
    converged: bool,
) -> (r: Result<CubaIntegrationResults<R>, CubaError<R>>)
    requires
        errors@.len() == values@.len(),
        probs@.len() == values@.len(),
    ensures
        r is Ok <==> converged,
        r matches Ok(res) ==> res@ == (ResultsView {
            nregions,
            neval,
            results: triples(values@, errors@, probs@),
        }),
        r matches Err(e) ==> e matches CubaError::DidNotConverge(res) && res@ == (ResultsView {
            nregions,
            neval,
            results: triples(values@, errors@, probs@),
        }),
{
    CubaIntegrationResults::from_raw(nregions, neval, values, errors, probs).check_convergence(
        converged,
    )
}

/// Whether a count of `n` is one that an algorithm takes: at least one, and
/// no more than the `max` of the algorithm.
pub open spec fn supported(n: usize, max: usize) -> bool {
    1 <= n <= max
}

/// Checks, before any routine is called, that the algorithm `name` takes an
/// integrand of `ndim` dimensions and `ncomp` components, where it takes at
/// most `max_dim` and `max_comp` of them. The dimensionality is looked at
/// first.
pub fn check_dimensions<R>(
    name: &'static str,
    ndim: usize,
    ncomp: usize,
    max_dim: usize,
    max_comp: usize,
) -> (r: Result<(), CubaError<R>>)
    ensures
        r is Ok <==> supported(ndim, max_dim) && supported(ncomp, max_comp),
        !supported(ndim, max_dim) ==> r == Err::<(), CubaError<R>>(CubaError::BadDim(name, ndim)),
        supported(ndim, max_dim) && !supported(ncomp, max_comp) ==> r == Err::<(), CubaError<R>>(
            CubaError::BadComp(name, ncomp),
        ),
{
    if ndim == 0 || ndim > max_dim {
        Err(CubaError::BadDim(name, ndim))
    } else if ncomp == 0 || ncomp > max_comp {
        Err(CubaError::BadComp(name, ncomp))
    } else {
        Ok(())
    }
}

/// Checks, before any routine is called, that the algorithm `name` takes
/// integrands from `A` to `B`: the dimensionality that `A` declares and the
/// number of components that `B` declares go through `check_dimensions`.
pub fn check_integrand<R, A: IntegrandInput<R>, B: IntegrandOutput<R>>(
    name: &'static str,
    max_dim: usize,
    max_comp: usize,
) -> (r: Result<(), CubaError<R>>)
    ensures
        r is Ok <==> supported(A::spec_input_size(), max_dim) && supported(
            B::spec_output_size(),
            max_comp,
        ),
        !supported(A::spec_input_size(), max_dim) ==> r == Err::<(), CubaError<R>>(
            CubaError::BadDim(name, A::spec_input_size()),
        ),
        supported(A::spec_input_size(), max_dim) && !supported(B::spec_output_size(), max_comp)
            ==> r == Err::<(), CubaError<R>>(CubaError::BadComp(name, B::spec_output_size())),
{
    check_dimensions(name, A::input_size(), B::output_size(), max_dim, max_comp)
}

impl<R> CubaError<R> {
    /// The text of the error.
    pub open spec fn spec_message(&self) -> Seq<char> {
        match self {
            CubaError::BadDim(name, ndim) => "invalid number of dimensions for algorithm "@
                + name@ + ": "@ + decimal(*ndim as nat),
            CubaError::BadComp(name, ncomp) => "invalid number of outputs for algorithm "@ + name@
                + ": "@ + decimal(*ncomp as nat),
            CubaError::DidNotConverge(_) => "integral did not converge"@,
        }
    }

    /// Renders the error for a reader.
    pub fn message(&self) -> (text: String)
        ensures
            text@ == self.spec_message(),
    {
        match self {
            CubaError::BadDim(name, ndim) => {
                let mut text = String::from_str("invalid number of dimensions for algorithm ");
                text.append(name);
                text.append(": ");
                append_decimal(&mut text, *ndim);
                text
            },
            CubaError::BadComp(name, ncomp) => {
                let mut text = String::from_str("invalid number of outputs for algorithm ");
                text.append(name);
                text.append(": ");
                append_decimal(&mut text, *ncomp);
                text
            },
            CubaError::DidNotConverge(_) => String::from_str("integral did not converge"),
        }
    }
}

/// The value and error of each entry of `results`, in the same order.
pub open spec fn simplified<R>(results: Seq<CubaIntegrationResult<R>>) -> Seq<IntegrationResult<R>> {
    Seq::new(results.len(), |i: int| results[i].simplified())
}

/// Hands out the results of an integration one by one, each as its value
/// and error. It runs once: what it has handed out it does not hand out
/// again.
pub struct CubaResultsIter<R> {
    items: Vec<CubaIntegrationResult<R>>,
    taken: usize,
}

impl<R> CubaResultsIter<R> {
    #[verifier::type_invariant]
    spec fn inv(&self) -> bool {
        self.taken <= self.items@.len()
    }
}

impl<R> View for CubaResultsIter<R> {
    type V = Seq<IntegrationResult<R>>;

    /// What is still to come, next item first.
    closed spec fn view(&self) -> Seq<IntegrationResult<R>> {
        simplified(self.items@).skip(self.taken as int)
    }
}

impl<R: Copy> CubaResultsIter<R> {
    /// Hands out the next item, or `None` when none is left; from then on
    /// it is `None` at every call.
    pub fn next(&mut self) -> (item: Option<IntegrationResult<R>>)
        ensures
            old(self)@.len() > 0 ==> item == Some(old(self)@[0]),
            old(self)@.len() > 0 ==> final(self)@ == old(self)@.skip(1),
            old(self)@.len() == 0 ==> item is None && final(self)@ == old(self)@,
    {
        proof {
            use_type_invariant(&*self);
        }
        if self.taken < self.items.len() {
            let entry = self.items[self.taken];
            self.taken = self.taken + 1;
            assert(self@ =~= old(self)@.skip(1));
            Some(IntegrationResult { value: entry.value, error: entry.error })
        } else {
            None
        }
    }
}

impl<R> From<Vec<CubaIntegrationResult<R>>> for CubaResultsIter<R> {
    fn from(v: Vec<CubaIntegrationResult<R>>) -> (iter: Self)
        ensures
            iter@ == simplified(v@),
    {
        let iter = CubaResultsIter { items: v, taken: 0 };
        assert(iter@ =~= simplified(v@));
        iter
    }
}

impl<R> vstd::std_specs::convert::FromSpecImpl<Vec<CubaIntegrationResult<R>>> for CubaResultsIter<R> {
    open spec fn obeys_from_spec() -> bool {
        true
    }

    closed spec fn from_spec(v: Vec<CubaIntegrationResult<R>>) -> Self {
        CubaResultsIter { items: v, taken: 0 }
    }
}

impl<R> CubaIntegrationResults<R> {
    /// The results as a run of values and errors, one for each component.
    pub fn results(self) -> (iter: CubaResultsIter<R>)
        ensures
            iter@ == simplified(self.results@),
    {
        CubaResultsIter::from(self.results)
    }
}

} // verus!
