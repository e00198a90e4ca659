//! Struct-of-arrays containers: a record type stored as one parallel array
//! per field, with views, proxies, cursors, indexing, and permutation-based
//! sorting, plus the schema model and naming scheme that tie a record type
//! to its generated family of container types.

pub mod index;
pub mod iter;
pub mod laws;
pub mod nested;
pub mod perm;
pub mod ptr;
pub mod refs;
pub mod schema;
pub mod slice;
pub mod vec;
pub mod zip;

use vstd::prelude::*;

verus! {

/// How a checked structural operation fails: the index or range named a
/// position outside the container's current bounds. The failing call leaves
/// the container in its prior state.
#[derive(Clone, Copy, PartialEq, Eq, Structural, Debug)]
pub enum SoaError {
    OutOfRange,
}

} // verus!
