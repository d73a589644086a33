//! Scalar types shared across the library.
use vstd::prelude::*;

verus! {

/// Default integer type of the library.
pub type Fe2O3Int = i32;

/// A size that is either a natural number or infinity.
///
/// Infinity differs from every finite value, zero included.
#[derive(Debug, Clone, Copy, PartialEq, Eq, Structural)]
pub enum Fe2O3SizeType {
    Finite(usize),
    Infinity,
}

} // verus!
