//! Element counts of array shapes.
use vstd::prelude::*;

verus! {

/// The number of elements of an array with the given per-axis extents: the
/// product of the extents (1 for a shape with no axes).
pub open spec fn shape_product(shape: Seq<usize>) -> int
    decreases shape.len(),
{
    if shape.len() == 0 {
        1
    } else {
        shape_product(shape.drop_last()) * shape.last() as int
    }
}

/// The element count as the array collaborator computes it: the extents are
/// multiplied from the first axis on, and the count is `None` as soon as a
/// partial product does not fit in `usize`.
pub open spec fn checked_size(shape: Seq<usize>) -> Option<usize>
    decreases shape.len(),
{
    if shape.len() == 0 {
        Some(1usize)
    } else {
        match checked_size(shape.drop_last()) {
            Some(p) => if p as int * shape.last() as int <= usize::MAX as int {
                Some((p as int * shape.last() as int) as usize)
            } else {
                None
            },
            None => None,
        }
    }
}

/// Relies on ndarray's `Dimension::size_checked`, which folds `checked_mul`
/// over the extents starting from `Some(1)`.
#[verifier::external_body]
fn size_checked(shape: &[usize]) -> (r: Option<usize>)
    ensures
        r == checked_size(shape@),
{
    ndarray::Dimension::size_checked(&ndarray::IxDyn(shape))
}

/// The number of elements of an array of this shape, or `None` where that
/// count cannot be computed in `usize`.
pub fn element_count(shape: &[usize]) -> (r: Option<usize>)
    ensures
        r == checked_size(shape@),
        r matches Some(n) ==> n as int == shape_product(shape@),
{
    proof {
        lemma_checked_size_is_product(shape@);
    }
    size_checked(shape)
}

/// Where the checked count exists, it is the product of the extents.
pub proof fn lemma_checked_size_is_product(shape: Seq<usize>)
    ensures
        checked_size(shape) matches Some(n) ==> n as int == shape_product(shape),
    decreases shape.len(),
{
    if shape.len() > 0 {
        lemma_checked_size_is_product(shape.drop_last());
    }
}

/// A shape with an axis of extent zero holds no element.
pub proof fn lemma_zero_extent_is_empty(shape: Seq<usize>, axis: int)
    requires
        0 <= axis < shape.len(),
        shape[axis] == 0,
    ensures
        shape_product(shape) == 0,
    decreases shape.len(),
{
    if axis < shape.len() - 1 {
        lemma_zero_extent_is_empty(shape.drop_last(), axis);
        assert(shape_product(shape) == 0 * (shape.last() as int));
    }
}

/// For a shape whose extents are all positive, the checked count exists
/// exactly when the product of the extents fits in `usize`.
pub proof fn lemma_positive_extents_checked(shape: Seq<usize>)
    requires
        forall|i: int| 0 <= i < shape.len() ==> shape[i] > 0,
    ensures
        checked_size(shape) is Some <==> shape_product(shape) <= usize::MAX as int,
        shape_product(shape) >= 1,
    decreases shape.len(),
{
    if shape.len() > 0 {
        let init = shape.drop_last();
        assert forall|i: int| 0 <= i < init.len() implies init[i] > 0 by {
            assert(init[i] == shape[i]);
        }
        lemma_positive_extents_checked(init);
        lemma_checked_size_is_product(init);
        let p = shape_product(init);
        let e = shape.last() as int;
        assert(e >= 1);
        assert(p * e >= p) by (nonlinear_arith)
            requires
                p >= 1,
                e >= 1,
        ;
        assert(p * e >= 1) by (nonlinear_arith)
            requires
                p >= 1,
                e >= 1,
        ;
    }
}

} // verus!
