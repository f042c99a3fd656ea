//! The single failure signal shared by every fallible operation.

use vstd::prelude::*;

verus! {

/// An error with no detail: callers learn only that the operation failed.
#[derive(Debug, Clone, Copy, PartialEq, Eq, Structural)]
pub struct Unspecified;

} // verus!
