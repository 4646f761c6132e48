//! A bridge between strongly typed integrands and the flat callback
//! interface of a multidimensional integration library.
//!
//! The library never computes with the reals it carries: every item is
//! generic over the real-number type `R` of the buffers it reads and fills.

use vstd::prelude::*;

pub mod cuba;
pub mod decimal;
pub mod ffi;
pub mod traits;

verus! {

/// The estimate of one integral as every backend reports it: the value and
/// its estimated absolute uncertainty.
#[derive(Copy, Clone, Debug, PartialEq)]
pub struct IntegrationResult<R> {
    pub value: R,
    pub error: R,
}

} // verus!
