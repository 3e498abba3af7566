//! The failure of validating address construction.

use vstd::prelude::*;

verus! {

/// Error indicating that attempting to convert a raw address to a structured
/// `Address<Kind>` found non-canonical bits.
///
/// This is the single error of the address layer: every validating
/// constructor returns it, and the truncating and precondition-bound
/// constructors never fail at all.
#[derive(Clone, Copy, Debug, PartialEq, Eq, Structural)]
pub struct NonCanonicalError;

} // verus!
