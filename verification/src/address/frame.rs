//! The frame kind: page-aligned physical addresses.

use vstd::prelude::*;

use crate::address::{
    lemma_index_shl, lemma_index_shr, spec_index_to_address, Address, Addressable,
    NonCanonicalError, Physical,
};
use crate::constants::{
    is_physical_address_canonical, lemma_page_align_mask, page_bits, page_mask,
    spec_clear_page_offset, spec_page_aligned, spec_physical_canonical, spec_truncate_physical,
    truncate_physical_address, PagingDepth,
};

verus! {

/// The kind of frames: physical addresses that are in addition a multiple
/// of the page size. A frame widens into the [`Physical`] leaf kind. The
/// paging depth plays no part in it.
#[derive(Clone, Copy, Debug, PartialEq, Eq, PartialOrd, Ord, Hash)]
pub struct Frame;

impl Addressable for Frame {
    open spec fn spec_canonical(depth: PagingDepth, raw: u64) -> bool {
        spec_page_aligned(raw) && spec_physical_canonical(raw)
    }

    open spec fn spec_truncate(depth: PagingDepth, raw: u64) -> u64 {
        spec_clear_page_offset(spec_truncate_physical(raw))
    }

    proof fn lemma_truncate_canonical(depth: PagingDepth, raw: u64) {
        lemma_page_align_mask(spec_truncate_physical(raw));
        if spec_page_aligned(raw) && spec_physical_canonical(raw) {
            lemma_page_align_mask(raw);
        }
    }

    fn check(depth: PagingDepth, raw: u64) -> (r: bool) {
        proof {
            lemma_page_align_mask(raw);
        }
        ((raw & page_mask()) == 0) && is_physical_address_canonical(raw)
    }

    fn truncate(depth: PagingDepth, raw: u64) -> (r: u64) {
        let masked: u64 = truncate_physical_address(raw);
        proof {
            lemma_page_align_mask(masked);
        }
        masked & !page_mask()
    }
}

impl Address<Frame> {
    /// Creates a new `Address<Frame>` with the provided address.
    ///
    /// Succeeds exactly when `address` is page-aligned and physically
    /// canonical, and then holds `address` unchanged.
    ///
    /// # Errors
    ///
    /// - [`NonCanonicalError`] if `address` is not aligned or contains
    ///   non-canonical bits.
    pub fn new(address: u64) -> (r: Result<Self, NonCanonicalError>)
        ensures
            r is Ok <==> (spec_page_aligned(address) && spec_physical_canonical(address)),
            r matches Ok(a) ==> a@ == address,
            r matches Err(e) ==> e == NonCanonicalError,
    {
        // The physical predicate ignores the paging depth; any depth serves.
        Self::checked(PagingDepth::Four, address)
    }

    /// Creates a new `Address<Frame>` with the provided address, clearing
    /// the non-canonical and page-offset bits.
    pub fn new_truncate(address: u64) -> (r: Self)
        ensures
            r@ == spec_clear_page_offset(spec_truncate_physical(address)),
            spec_page_aligned(r@),
            spec_physical_canonical(r@),
    {
        Self::truncated(PagingDepth::Four, address)
    }

    /// Creates a new `Address<Frame>` without validation; the caller
    /// asserts that `address` is page-aligned and has only canonical
    /// physical address bits set.
    pub fn new_trusted(address: u64) -> (r: Self)
        requires
            spec_page_aligned(address),
            spec_physical_canonical(address),
        ensures
            r@ == address,
    {
        Self::trusted(PagingDepth::Four, address)
    }

    /// Gets the inner value, widened into the [`Physical`] leaf kind: the
    /// same raw word reinterpreted, since frame validity subsumes physical
    /// canonicality.
    pub fn get(&self) -> (r: Address<Physical>)
        ensures
            r@ == self@,
    {
        Address::<Physical>::from_raw(self.raw())
    }

    /// Creates a new `Address<Frame>` with the provided frame index.
    ///
    /// The index is moved above the page-offset bits and the result is
    /// re-validated: the shift can land in non-canonical territory even
    /// when the index itself seemed small.
    ///
    /// # Errors
    ///
    /// - [`NonCanonicalError`] if `index` would create a non-canonical
    ///   address.
    pub fn from_index(index: u64) -> (r: Result<Self, NonCanonicalError>)
        ensures
            r is Ok <==> spec_physical_canonical(spec_index_to_address(index)),
            r matches Ok(a) ==> a@ == spec_index_to_address(index),
            r matches Err(e) ==> e == NonCanonicalError,
    {
        proof {
            lemma_index_shl(index);
        }
        let physical_address: u64 = index << page_bits();
        if is_physical_address_canonical(physical_address) {
            Ok(Self::from_raw(physical_address))
        } else {
            Err(NonCanonicalError)
        }
    }

    /// Gets the index of the frame this address points to: the raw word
    /// divided by the page size.
    pub fn index(&self) -> (r: u64)
        ensures
            r == self@ as int / 0x1000,
    {
        proof {
            lemma_index_shr(self@);
        }
        self.raw() >> page_bits()
    }

    /// The number of index steps from `self` up to `end`: the index
    /// difference when `end` is not below `self`, and no steps otherwise.
    pub fn steps_between(&self, end: &Self) -> (r: (u64, Option<u64>))
        ensures
            self@ as int / 0x1000 <= end@ as int / 0x1000 ==> r == ((end@ as int / 0x1000 - self@
                as int / 0x1000) as u64, Some((end@ as int / 0x1000 - self@ as int
                / 0x1000) as u64)),
            self@ as int / 0x1000 > end@ as int / 0x1000 ==> r == (0u64, None::<u64>),
    {
        let start_index: u64 = self.index();
        let end_index: u64 = end.index();
        if start_index <= end_index {
            let distance: u64 = end_index - start_index;
            (distance, Some(distance))
        } else {
            (0, None)
        }
    }

    /// Steps the frame index forward by `count`, re-deriving and
    /// re-validating the address; `None` when the index arithmetic
    /// overflows or the stepped-to address is non-canonical.
    pub fn forward_checked(self, count: u64) -> (r: Option<Self>)
        ensures
            r is Some <==> (self@ as int / 0x1000 + count <= u64::MAX && spec_physical_canonical(
                spec_index_to_address((self@ as int / 0x1000 + count) as u64),
            )),
            r matches Some(a) ==> a@ == spec_index_to_address(
                (self@ as int / 0x1000 + count) as u64,
            ),
    {
        match self.index().checked_add(count) {
            Some(next_index) => match Self::from_index(next_index) {
                Ok(address) => Some(address),
                Err(_) => None,
            },
            None => None,
        }
    }

    /// Steps the frame index backward by `count`, re-deriving and
    /// re-validating the address; `None` when the index arithmetic
    /// underflows or the stepped-to address is non-canonical.
    pub fn backward_checked(self, count: u64) -> (r: Option<Self>)
        ensures
            r is Some <==> (self@ as int / 0x1000 >= count && spec_physical_canonical(
                spec_index_to_address((self@ as int / 0x1000 - count) as u64),
            )),
            r matches Some(a) ==> a@ == spec_index_to_address(
                (self@ as int / 0x1000 - count) as u64,
            ),
    {
        match self.index().checked_sub(count) {
            Some(previous_index) => match Self::from_index(previous_index) {
                Ok(address) => Some(address),
                Err(_) => None,
            },
            None => None,
        }
    }
}

} // verus!
