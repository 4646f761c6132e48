//! The landing pad: the object that owns an integrand and turns one callback
//! on raw buffers into one evaluation on structured values.

use crate::traits::{build_input, input_value, IntegrandInput, IntegrandOutput};
use core::marker::PhantomData;
use vstd::prelude::*;

verus! {

/// What an output buffer holds after an evaluation with the given outcome:
/// the components of the value that was produced, or, where the integrand
/// failed, what it held before.
pub open spec fn buffer_after<R, B: IntegrandOutput<R>>(outcome: Option<B>, before: Seq<R>) -> Seq<
    R,
> {
    match outcome {
        Some(b) => b.components(),
        None => before,
    }
}

/// A value that is handed over fills the whole buffer: what the buffer holds
/// afterwards has as many positions as the type declares, and none of them
/// depends on what the buffer held before.
pub proof fn lemma_value_overwrites_buffer<R, B: IntegrandOutput<R>>(
    w: B,
    before: Seq<R>,
    other: Seq<R>,
)
    ensures
        buffer_after(Some(w), before).len() == B::spec_output_size(),
        buffer_after(Some(w), before) == buffer_after(Some(w), other),
{
    w.lemma_components_len();
}

/// Hands the outcome of one evaluation over to the caller's buffer: a value
/// overwrites every position, a failure leaves the buffer alone.
pub fn deliver<R, B: IntegrandOutput<R>>(outcome: Option<B>, output: &mut [R]) -> (r: Result<
    (),
    (),
>)
    requires
        old(output)@.len() == B::spec_output_size(),
    ensures
        r is Ok <==> outcome is Some,
        final(output)@ == buffer_after(outcome, old(output)@),
        final(output)@.len() == old(output)@.len(),
{
    match outcome {
        Some(b) => {
            proof {
                b.lemma_components_len();
            }
            b.into_args(output);
            Ok(())
        },
        None => Err(()),
    }
}

/// Owns an integrand that takes an `A` and gives a `B`, or `None` where the
/// evaluation fails.
pub struct LandingPad<R, A, B, F> {
    fun: F,
    marker: PhantomData<(R, A, B)>,
}

impl<R, A, B, F> LandingPad<R, A, B, F> where
    A: IntegrandInput<R>,
    B: IntegrandOutput<R>,
    F: FnMut(A) -> Option<B>,
 {
    /// The integrand that the pad owns.
    pub closed spec fn integrand(&self) -> F {
        self.fun
    }

    /// Whether the integrand may be called on the value made of `args`.
    pub open spec fn accepts(&self, args: Seq<R>) -> bool {
        call_requires(self.integrand(), (input_value::<R, A>(args),))
    }

    /// Whether `outcome` is something the integrand may give for the value
    /// made of `args`.
    pub open spec fn may_give(&self, args: Seq<R>, outcome: Option<B>) -> bool {
        call_ensures(self.integrand(), (input_value::<R, A>(args),), outcome)
    }

    /// Whether one evaluation on the value made of `args` can end with the
    /// buffer going from `before` to `after` and with success as `ok` says:
    /// the integrand may give an outcome that decides both.
    pub open spec fn evaluates(&self, args: Seq<R>, before: Seq<R>, after: Seq<R>, ok: bool) -> bool {
        exists|outcome: Option<B>| #[trigger]
            self.may_give(args, outcome) && ok == (outcome is Some) && after == buffer_after(
                outcome,
                before,
            )
    }

    /// Takes ownership of the integrand.
    pub fn new(fun: F) -> (pad: Self)
        ensures
            pad.integrand() == fun,
    {
        LandingPad { fun, marker: PhantomData }
    }

    /// One evaluation: builds the input from `args`, calls the integrand on
    /// it and hands the outcome over to `output`. The lengths of the two
    /// buffers are the caller's to get right; they are not looked at again
    /// here.
    pub fn try_call(&mut self, args: &[R], output: &mut [R]) -> (r: Result<(), ()>)
        requires
            args@.len() == A::spec_input_size(),
            old(output)@.len() == B::spec_output_size(),
            old(self).accepts(args@),
        ensures
            old(self).evaluates(args@, old(output)@, final(output)@, r is Ok),
            final(output)@.len() == old(output)@.len(),
            final(self).integrand() == old(self).integrand(),
    {
        let input: A = build_input(args);
        let outcome = (self.fun)(input);
        assert(old(self).may_give(args@, outcome));
        deliver(outcome, output)
    }
}

} // verus!
