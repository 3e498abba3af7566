//! The physical address kind.

use vstd::prelude::*;

use crate::address::{Address, Addressable, NonCanonicalError};
use crate::constants::{
    is_physical_address_canonical, spec_physical_canonical, spec_truncate_physical,
    truncate_physical_address, PagingDepth,
};

verus! {

/// The kind of physical addresses: canonical when no bit at or above the
/// physical address width is set. The paging depth plays no part in it.
#[derive(Clone, Copy, Debug, PartialEq, Eq, PartialOrd, Ord, Hash)]
pub struct Physical;

impl Addressable for Physical {
    open spec fn spec_canonical(depth: PagingDepth, raw: u64) -> bool {
        spec_physical_canonical(raw)
    }

    open spec fn spec_truncate(depth: PagingDepth, raw: u64) -> u64 {
        spec_truncate_physical(raw)
    }

    proof fn lemma_truncate_canonical(depth: PagingDepth, raw: u64) {
    }

    fn check(depth: PagingDepth, raw: u64) -> (r: bool) {
        is_physical_address_canonical(raw)
    }

    fn truncate(depth: PagingDepth, raw: u64) -> (r: u64) {
        truncate_physical_address(raw)
    }
}

impl Address<Physical> {
    /// Creates a new `Address<Physical>` with the provided address.
    ///
    /// Succeeds exactly when `address` is physically canonical, and then
    /// holds `address` unchanged.
    ///
    /// # Errors
    ///
    /// - [`NonCanonicalError`] if `address` contains any non-canonical bits.
    pub fn new(address: u64) -> (r: Result<Self, NonCanonicalError>)
        ensures
            r is Ok <==> spec_physical_canonical(address),
            r matches Ok(a) ==> a@ == address,
            r matches Err(e) ==> e == NonCanonicalError,
    {
        // The physical predicate ignores the paging depth; any depth serves.
        Self::checked(PagingDepth::Four, address)
    }

    /// Creates a new `Address<Physical>` with the provided address,
    /// truncating any non-canonical bits.
    pub fn new_truncate(address: u64) -> (r: Self)
        ensures
            r@ == spec_truncate_physical(address),
            spec_physical_canonical(r@),
    {
        Self::truncated(PagingDepth::Four, address)
    }

    /// Creates a new `Address<Physical>` without validation; the caller
    /// asserts that `address` has only canonical physical address bits set.
    pub fn new_trusted(address: u64) -> (r: Self)
        requires
            spec_physical_canonical(address),
        ensures
            r@ == address,
    {
        Self::trusted(PagingDepth::Four, address)
    }

    /// Gets the inner value.
    pub fn get(&self) -> (r: u64)
        ensures
            r == self@,
    {
        self.raw()
    }
}

} // verus!
