//! Errors of the checked construction paths.

use vstd::prelude::*;

verus! {

/// The error a checked constructor reports; no other operation of the crate
/// can fail.
#[derive(Debug, Clone, Copy, PartialEq, Eq, Structural)]
pub enum ComError {
    /// A checked constructor was handed the null pointer value.
    InvalidArgument,
}

} // verus!
