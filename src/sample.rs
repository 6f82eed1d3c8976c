//! Filling arrays with values drawn from a distribution.
use vstd::prelude::*;

use rand::distributions::IndependentSample;
use rand::Rng;

use crate::array::DenseArray;
use crate::shape::{
    checked_size, lemma_checked_size_is_product, lemma_zero_extent_is_empty, shape_product,
};

verus! {

/// Relies on rand's `IndependentSample::ind_sample`: one value drawn from
/// `dist` with `rng`. Nothing is known of the value or of the generator's new
/// state.
#[verifier::external_body]
fn draw<T, D: IndependentSample<T>, R: Rng>(dist: &D, rng: &mut R) -> T {
    dist.ind_sample(rng)
}

/// Draws `count` values from `dist` with `rng`, one after the other, in the
/// order in which they are returned. With `count == 0` nothing is drawn and the
/// generator is left as it was.
pub fn draw_n<T, D: IndependentSample<T>, R: Rng>(count: usize, dist: &D, rng: &mut R) -> (r: Vec<T>)
    ensures
        r.len() == count,
        count == 0 ==> *final(rng) == *old(rng),
{
    let mut elems: Vec<T> = Vec::with_capacity(count);
    let mut i: usize = 0;
    while i < count
        invariant
            i <= count,
            elems.len() == i,
            count == 0 ==> *rng == *old(rng),
        decreases count - i,
    {
        let x = draw(dist, rng);
        elems.push(x);
        i = i + 1;
    }
    elems
}

/// An array of shape `shape` whose elements are drawn from `dist` with `rng`,
/// one draw per element in row-major order. A shape with an axis of extent
/// zero gives an empty array and draws nothing.
pub fn random_using<T, D: IndependentSample<T>, R: Rng>(shape: &[usize], dist: D, rng: &mut R) -> (r: DenseArray<T>)
    requires
        checked_size(shape@) is Some,
    ensures
        r@.0 == shape@,
        r@.1.len() == shape_product(shape@),
        shape_product(shape@) == 0 ==> *final(rng) == *old(rng),
        (exists|axis: int| 0 <= axis < shape@.len() && shape@[axis] == 0) ==> {
            &&& r@.1.len() == 0
            &&& *final(rng) == *old(rng)
        },
{
    proof {
        lemma_checked_size_is_product(shape@);
        if exists|axis: int| 0 <= axis < shape@.len() && shape@[axis] == 0 {
            let axis = choose|axis: int| 0 <= axis < shape@.len() && shape@[axis] == 0;
            lemma_zero_extent_is_empty(shape@, axis);
        }
    }
    let count = match crate::shape::element_count(shape) {
        Some(n) => n,
        None => vstd::pervasive::unreached(),
    };
    let elems = draw_n(count, &dist, rng);
    let dims = vstd::slice::slice_to_vec(shape);
    match DenseArray::from_shape_vec(dims, elems) {
        Some(a) => a,
        None => vstd::pervasive::unreached(),
    }
}

/// Like `random_using`, for any shape: where the element count of `shape`
/// cannot be computed in `usize`, the result is `None`, no value is drawn and
/// the generator is left as it was.
pub fn random_using_checked<T, D: IndependentSample<T>, R: Rng>(
    shape: &[usize],
    dist: D,
    rng: &mut R,
) -> (r: Option<DenseArray<T>>)
    ensures
        r is None <==> checked_size(shape@) is None,
        r is None ==> *final(rng) == *old(rng),
        r matches Some(a) ==> {
            &&& a@.0 == shape@
            &&& a@.1.len() == shape_product(shape@)
        },
        (exists|axis: int| 0 <= axis < shape@.len() && shape@[axis] == 0) ==> *final(rng) == *old(
            rng,
        ),
{
    match crate::shape::element_count(shape) {
        Some(_) => Some(random_using(shape, dist, rng)),
        None => None,
    }
}

} // verus!
