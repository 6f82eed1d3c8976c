//! A dense array held as its shape and its elements in row-major order.
use vstd::prelude::*;

use crate::shape::{checked_size, lemma_checked_size_is_product, shape_product};

verus! {

/// An array of the given shape whose elements are stored in row-major order:
/// the last axis varies fastest.
pub struct DenseArray<T> {
    shape: Vec<usize>,
    elems: Vec<T>,
}

impl<T> View for DenseArray<T> {
    /// The shape and the elements in row-major order.
    type V = (Seq<usize>, Seq<T>);

    closed spec fn view(&self) -> (Seq<usize>, Seq<T>) {
        (self.shape@, self.elems@)
    }
}

impl<T> DenseArray<T> {
    /// The element count of the shape is computable, and it is the number of
    /// elements held.
    #[verifier::type_invariant]
    closed spec fn well_formed(self) -> bool {
        checked_size(self.shape@) == Some(self.elems.len())
    }

    /// Builds an array of `shape` from its elements in row-major order, or
    /// `None` where their number is not the element count of `shape`.
    pub fn from_shape_vec(shape: Vec<usize>, elems: Vec<T>) -> (r: Option<DenseArray<T>>)
        ensures
            r is Some <==> checked_size(shape@) == Some(elems.len()),
            r matches Some(a) ==> a@ == (shape@, elems@),
    {
        match crate::shape::element_count(shape.as_slice()) {
            Some(n) => if n == elems.len() {
                Some(DenseArray { shape, elems })
            } else {
                None
            },
            None => None,
        }
    }

    /// The extent of each axis.
    pub fn shape(&self) -> (r: &[usize])
        ensures
            r@ == self@.0,
    {
        self.shape.as_slice()
    }

    /// The elements in row-major order.
    pub fn as_slice(&self) -> (r: &[T])
        ensures
            r@ == self@.1,
    {
        self.elems.as_slice()
    }

    /// The number of elements, which is the product of the extents.
    pub fn len(&self) -> (r: usize)
        ensures
            r == self@.1.len(),
            r as int == shape_product(self@.0),
    {
        proof {
            use_type_invariant(self);
            lemma_checked_size_is_product(self.shape@);
        }
        self.elems.len()
    }

    /// Whether the array holds no element.
    pub fn is_empty(&self) -> (r: bool)
        ensures
            r <==> self@.1.len() == 0,
    {
        self.elems.len() == 0
    }

    /// The shape and the elements in row-major order, taken apart.
    pub fn into_parts(self) -> (r: (Vec<usize>, Vec<T>))
        ensures
            (r.0@, r.1@) == self@,
            checked_size(r.0@) == Some(r.1.len()),
    {
        proof {
            use_type_invariant(&self);
        }
        let DenseArray { shape, elems } = self;
        (shape, elems)
    }
}

} // verus!
