//! The page kind: page-aligned virtual addresses.

use vstd::prelude::*;

use crate::address::{
    lemma_index_shl, lemma_index_shr, spec_index_to_address, Address, Addressable,
    NonCanonicalError, Virtual,
};
use crate::constants::{
    is_virtual_address_canonical, lemma_canonical_fixed_by_truncate, lemma_clear_page_offset_canonical,
    lemma_page_align_mask, lemma_truncate_virtual_canonical, page_bits, page_mask,
    spec_clear_page_offset, spec_page_aligned, spec_truncate_virtual, spec_virtual_canonical,
    truncate_virtual_address, PagingDepth,
};

verus! {

/// The kind of pages: virtual addresses that are in addition a multiple of
/// the page size. A page widens into the [`Virtual`] leaf kind.
#[derive(Clone, Copy, Debug, PartialEq, Eq, PartialOrd, Ord, Hash)]
pub struct Page;

impl Addressable for Page {
    open spec fn spec_canonical(depth: PagingDepth, raw: u64) -> bool {
        spec_page_aligned(raw) && spec_virtual_canonical(depth, raw)
    }

    open spec fn spec_truncate(depth: PagingDepth, raw: u64) -> u64 {
        spec_clear_page_offset(spec_truncate_virtual(depth, raw))
    }

    proof fn lemma_truncate_canonical(depth: PagingDepth, raw: u64) {
        let extended: u64 = spec_truncate_virtual(depth, raw);
        lemma_truncate_virtual_canonical(depth, raw);
        lemma_page_align_mask(extended);
        lemma_clear_page_offset_canonical(depth, extended);
        if spec_page_aligned(raw) && spec_virtual_canonical(depth, raw) {
            lemma_canonical_fixed_by_truncate(depth, raw);
            lemma_page_align_mask(raw);
        }
    }

    fn check(depth: PagingDepth, raw: u64) -> (r: bool) {
        proof {
            lemma_page_align_mask(raw);
        }
        ((raw & page_mask()) == 0) && is_virtual_address_canonical(depth, raw)
    }

    fn truncate(depth: PagingDepth, raw: u64) -> (r: u64) {
        let extended: u64 = truncate_virtual_address(depth, raw);
        proof {
            lemma_page_align_mask(extended);
        }
        extended & !page_mask()
    }
}

impl Address<Page> {
    /// Creates a new `Address<Page>` with the provided address.
    ///
    /// Succeeds exactly when `address` is page-aligned and virtually
    /// canonical under the given paging depth, and then holds `address`
    /// unchanged.
    ///
    /// # Errors
    ///
    /// - [`NonCanonicalError`] if `address` is not aligned or contains
    ///   non-canonical bits.
    pub fn new(depth: PagingDepth, address: u64) -> (r: Result<Self, NonCanonicalError>)
        ensures
            r is Ok <==> (spec_page_aligned(address) && spec_virtual_canonical(depth, address)),
            r matches Ok(a) ==> a@ == address,
            r matches Err(e) ==> e == NonCanonicalError,
    {
        Self::checked(depth, address)
    }

    /// Creates a new `Address<Page>` with the provided address,
    /// sign-extending away any non-canonical bits and clearing the
    /// page-offset bits.
    pub fn new_truncate(depth: PagingDepth, address: u64) -> (r: Self)
        ensures
            r@ == spec_clear_page_offset(spec_truncate_virtual(depth, address)),
            spec_page_aligned(r@),
            spec_virtual_canonical(depth, r@),
    {
        Self::truncated(depth, address)
    }

    /// Creates a new `Address<Page>` without validation; the caller asserts
    /// that `address` is page-aligned and has only canonical virtual
    /// address bits set under the given paging depth.
    pub fn new_trusted(depth: PagingDepth, address: u64) -> (r: Self)
        requires
            spec_page_aligned(address),
            spec_virtual_canonical(depth, address),
        ensures
            r@ == address,
    {
        Self::trusted(depth, address)
    }

    /// Gets the inner value, widened into the [`Virtual`] leaf kind: the
    /// same raw word reinterpreted, since page validity subsumes virtual
    /// canonicality.
    pub fn get(&self) -> (r: Address<Virtual>)
        ensures
            r@ == self@,
    {
        Address::<Virtual>::from_raw(self.raw())
    }

    /// Creates a new `Address<Page>` with the provided page index.
    ///
    /// The index is moved above the page-offset bits and the result is
    /// re-validated: the shift can land in non-canonical territory even
    /// when the index itself seemed small.
    ///
    /// # Errors
    ///
    /// - [`NonCanonicalError`] if `index` would create a non-canonical
    ///   address.
    pub fn from_index(depth: PagingDepth, index: u64) -> (r: Result<Self, NonCanonicalError>)
        ensures
            r is Ok <==> spec_virtual_canonical(depth, spec_index_to_address(index)),
            r matches Ok(a) ==> a@ == spec_index_to_address(index),
            r matches Err(e) ==> e == NonCanonicalError,
    {
        proof {
            lemma_index_shl(index);
        }
        let virtual_address: u64 = index << page_bits();
        if is_virtual_address_canonical(depth, virtual_address) {
            Ok(Self::from_raw(virtual_address))
        } else {
            Err(NonCanonicalError)
        }
    }

    /// Gets the index of the page this address points to: the raw word
    /// divided by the page size.
    pub fn index(&self) -> (r: u64)
        ensures
            r == self@ as int / 0x1000,
    {
        proof {
            lemma_index_shr(self@);
        }
        self.raw() >> page_bits()
    }

    /// The number of index steps from `self` up to `end`: the index
    /// difference when `end` is not below `self`, and no steps otherwise.
    pub fn steps_between(&self, end: &Self) -> (r: (u64, Option<u64>))
        ensures
            self@ as int / 0x1000 <= end@ as int / 0x1000 ==> r == ((end@ as int / 0x1000 - self@
                as int / 0x1000) as u64, Some((end@ as int / 0x1000 - self@ as int
                / 0x1000) as u64)),
            self@ as int / 0x1000 > end@ as int / 0x1000 ==> r == (0u64, None::<u64>),
    {
        let start_index: u64 = self.index();
        let end_index: u64 = end.index();
        if start_index <= end_index {
            let distance: u64 = end_index - start_index;
            (distance, Some(distance))
        } else {
            (0, None)
        }
    }

    /// Steps the page index forward by `count`, re-deriving and
    /// re-validating the address; `None` when the index arithmetic
    /// overflows or the stepped-to address is non-canonical.
    pub fn forward_checked(self, depth: PagingDepth, count: u64) -> (r: Option<Self>)
        ensures
            r is Some <==> (self@ as int / 0x1000 + count <= u64::MAX && spec_virtual_canonical(
                depth,
                spec_index_to_address((self@ as int / 0x1000 + count) as u64),
            )),
            r matches Some(a) ==> a@ == spec_index_to_address(
                (self@ as int / 0x1000 + count) as u64,
            ),
    {
        match self.index().checked_add(count) {
            Some(next_index) => match Self::from_index(depth, next_index) {
                Ok(address) => Some(address),
                Err(_) => None,
            },
            None => None,
        }
    }

    /// Steps the page index backward by `count`, re-deriving and
    /// re-validating the address; `None` when the index arithmetic
    /// underflows or the stepped-to address is non-canonical.
    pub fn backward_checked(self, depth: PagingDepth, count: u64) -> (r: Option<Self>)
        ensures
            r is Some <==> (self@ as int / 0x1000 >= count && spec_virtual_canonical(
                depth,
                spec_index_to_address((self@ as int / 0x1000 - count) as u64),
            )),
            r matches Some(a) ==> a@ == spec_index_to_address(
                (self@ as int / 0x1000 - count) as u64,
            ),
    {
        match self.index().checked_sub(count) {
            Some(previous_index) => match Self::from_index(depth, previous_index) {
                Ok(address) => Some(address),
                Err(_) => None,
            },
            None => None,
        }
    }
}

} // verus!
