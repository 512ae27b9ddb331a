//! Shared building blocks.

use vstd::prelude::*;

verus! {

/// Keeps a trait to the types of this crate.
pub trait Sealed {

}

} // verus!
