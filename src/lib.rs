//! Constructors for dense arrays whose elements are drawn from a probability
//! distribution with a random number generator.
pub mod adapter;
pub mod array;
pub mod sample;
pub mod shape;

pub use adapter::F32;
pub use array::DenseArray;
pub use sample::{draw_n, random_using, random_using_checked};
pub use shape::element_count;
