//! A wrapper that narrows the values of a double-precision distribution.
use vstd::prelude::*;

verus! {

/// Holds a distribution of double-precision values that is to fill arrays of
/// single-precision values. The type carries the wrapped distribution only;
/// drawing through it is left to the code that implements rand's sampling
/// traits for it.
#[derive(Copy, Clone, Debug)]
pub struct F32<S>(pub S);

} // verus!
