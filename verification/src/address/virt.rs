//! The virtual address kind.

use vstd::prelude::*;

use crate::address::{Address, Addressable, NonCanonicalError};
use crate::constants::{
    is_virtual_address_canonical, lemma_canonical_fixed_by_truncate,
    lemma_truncate_virtual_canonical, spec_truncate_virtual, spec_virtual_canonical,
    truncate_virtual_address, PagingDepth,
};

verus! {

/// The kind of virtual addresses: canonical when the sign-extension region
/// fixed by the paging depth is uniformly zero or one.
#[derive(Clone, Copy, Debug, PartialEq, Eq, PartialOrd, Ord, Hash)]
pub struct Virtual;

impl Addressable for Virtual {
    open spec fn spec_canonical(depth: PagingDepth, raw: u64) -> bool {
        spec_virtual_canonical(depth, raw)
    }

    open spec fn spec_truncate(depth: PagingDepth, raw: u64) -> u64 {
        spec_truncate_virtual(depth, raw)
    }

    proof fn lemma_truncate_canonical(depth: PagingDepth, raw: u64) {
        lemma_truncate_virtual_canonical(depth, raw);
        if spec_virtual_canonical(depth, raw) {
            lemma_canonical_fixed_by_truncate(depth, raw);
        }
    }

    fn check(depth: PagingDepth, raw: u64) -> (r: bool) {
        is_virtual_address_canonical(depth, raw)
    }

    fn truncate(depth: PagingDepth, raw: u64) -> (r: u64) {
        truncate_virtual_address(depth, raw)
    }
}

impl Address<Virtual> {
    /// Creates a new `Address<Virtual>` with the provided address.
    ///
    /// Succeeds exactly when `address` is virtually canonical under the
    /// given paging depth, and then holds `address` unchanged.
    ///
    /// # Errors
    ///
    /// - [`NonCanonicalError`] if `address` contains any non-canonical bits.
    pub fn new(depth: PagingDepth, address: u64) -> (r: Result<Self, NonCanonicalError>)
        ensures
            r is Ok <==> spec_virtual_canonical(depth, address),
            r matches Ok(a) ==> a@ == address,
            r matches Err(e) ==> e == NonCanonicalError,
    {
        Self::checked(depth, address)
    }

    /// Creates a new `Address<Virtual>` with the provided address,
    /// sign-extending away any non-canonical bits.
    pub fn new_truncate(depth: PagingDepth, address: u64) -> (r: Self)
        ensures
            r@ == spec_truncate_virtual(depth, address),
            spec_virtual_canonical(depth, r@),
    {
        Self::truncated(depth, address)
    }

    /// Creates a new `Address<Virtual>` without validation; the caller
    /// asserts that `address` has only canonical virtual address bits set
    /// under the given paging depth.
    pub fn new_trusted(depth: PagingDepth, address: u64) -> (r: Self)
        requires
            spec_virtual_canonical(depth, address),
        ensures
            r@ == address,
    {
        Self::trusted(depth, address)
    }

    /// Gets the inner value.
    pub fn get(&self) -> (r: u64)
        ensures
            r == self@,
    {
        self.raw()
    }
}

} // verus!
