//! A growable vector that owns one contiguous buffer and follows a fixed
//! growth rule: nothing is allocated until the first append, the first append
//! makes room for four elements, and every append to a full buffer doubles it.
//!
//! [`model`] describes the vector mathematically and proves what the growth
//! rule implies; [`my_vec`] is the executable vector, verified against it.

pub mod model;
pub mod my_vec;

pub use crate::model::MyVecView;
pub use crate::my_vec::MyVec;
