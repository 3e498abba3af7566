//! Typed addresses: a raw machine word paired, at the type level, with an
//! address kind that fixes its validation and truncation rules.
//!
//! The kinds are known statically and never chosen at runtime, so they are
//! implemented as a single parametric wrapper [`Address`] over a small policy
//! trait [`Addressable`]: each kind supplies its canonicality predicate and
//! its truncation rule once, and the three construction paths (validating,
//! truncating, precondition-bound) are written once against that policy.
//!
//! The leaf kinds [`Physical`] and [`Virtual`] validate a bare machine word;
//! the aligned kinds [`Frame`] and [`Page`] additionally demand page
//! alignment and widen into their leaf kind ([`Frame`] into [`Physical`],
//! [`Page`] into [`Virtual`]). The aligned kinds also carry a dense index
//! (the raw address divided by the page size) with ordered stepping over it.

mod error;
mod frame;
mod page;
mod physical;
mod virt;

pub use error::NonCanonicalError;
pub use frame::Frame;
pub use page::Page;
pub use physical::Physical;
pub use virt::Virtual;

use core::marker::PhantomData;
use vstd::arithmetic::div_mod::lemma_small_mod;
use vstd::prelude::*;

use crate::constants::{spec_page_aligned, PagingDepth};

verus! {

/// The compile-time policy of an address kind: its canonicality predicate,
/// its truncation rule, and executable forms of both.
///
/// Kinds whose rules do not depend on the paging depth (the physical ones)
/// ignore the `depth` argument.
pub trait Addressable: Sized {
    /// Whether `raw` satisfies this kind's invariant under the given paging
    /// depth.
    spec fn spec_canonical(depth: PagingDepth, raw: u64) -> bool;

    /// `raw` forced into this kind's invariant: the value that truncating
    /// construction yields.
    spec fn spec_truncate(depth: PagingDepth, raw: u64) -> u64;

    /// Truncation always lands on a canonical value and does not move a
    /// value that is already canonical; together these make it idempotent.
    proof fn lemma_truncate_canonical(depth: PagingDepth, raw: u64)
        ensures
            Self::spec_canonical(depth, Self::spec_truncate(depth, raw)),
            Self::spec_canonical(depth, raw) ==> Self::spec_truncate(depth, raw) == raw,
    ;

    /// Decides the canonicality predicate.
    fn check(depth: PagingDepth, raw: u64) -> (r: bool)
        ensures
            r == Self::spec_canonical(depth, raw),
    ;

    /// Computes the truncation rule.
    fn truncate(depth: PagingDepth, raw: u64) -> (r: u64)
        ensures
            r == Self::spec_truncate(depth, raw),
    ;
}

/// A raw machine word tagged with the address kind it was validated as.
///
/// The spec-level view `@` of an address is its raw word. Equality,
/// ordering and hashing are all structural over that word; addresses of
/// different kinds are not comparable.
#[derive(Debug, PartialEq, Eq, PartialOrd, Ord, Hash)]
pub struct Address<Kind: Addressable> {
    raw: u64,
    kind: PhantomData<Kind>,
}

impl<Kind: Addressable> Clone for Address<Kind> {
    fn clone(&self) -> (r: Self)
        ensures
            r == *self,
    {
        Address { raw: self.raw, kind: PhantomData }
    }
}

impl<Kind: Addressable> Copy for Address<Kind> {

}

impl<Kind: Addressable> View for Address<Kind> {
    type V = u64;

    closed spec fn view(&self) -> u64 {
        self.raw
    }
}

impl<Kind: Addressable> Address<Kind> {
    /// Validating construction: accepts exactly the raw words that satisfy
    /// the kind's invariant.
    pub(crate) fn checked(depth: PagingDepth, raw: u64) -> (r: Result<Self, NonCanonicalError>)
        ensures
            r is Ok <==> Kind::spec_canonical(depth, raw),
            r matches Ok(a) ==> a@ == raw,
    {
        if Kind::check(depth, raw) {
            Ok(Address { raw, kind: PhantomData })
        } else {
            Err(NonCanonicalError)
        }
    }

    /// Truncating construction: forces the raw word into the kind's
    /// invariant and never fails.
    pub(crate) fn truncated(depth: PagingDepth, raw: u64) -> (r: Self)
        ensures
            r@ == Kind::spec_truncate(depth, raw),
            Kind::spec_canonical(depth, r@),
    {
        let t: u64 = Kind::truncate(depth, raw);
        proof {
            Kind::lemma_truncate_canonical(depth, raw);
        }
        Address { raw: t, kind: PhantomData }
    }

    /// Precondition-bound construction: the caller asserts that the raw
    /// word already satisfies the kind's invariant, and no validation runs.
    pub(crate) fn trusted(depth: PagingDepth, raw: u64) -> (r: Self)
        requires
            Kind::spec_canonical(depth, raw),
        ensures
            r@ == raw,
    {
        Address { raw, kind: PhantomData }
    }

    /// Bare reinterpretation of a raw word under this kind, for use inside
    /// the address layer where validity is carried by the caller's contract:
    /// widening an aligned kind into its leaf kind, and wrapping a value
    /// that a validating constructor has just checked.
    pub(crate) fn from_raw(raw: u64) -> (r: Self)
        ensures
            r@ == raw,
    {
        Address { raw, kind: PhantomData }
    }

    /// The raw machine word.
    pub(crate) fn raw(&self) -> (r: u64)
        ensures
            r == self@,
    {
        self.raw
    }
}

/// Truncation is idempotent for every address kind: truncating an
/// already-truncated word changes nothing.
pub proof fn lemma_truncate_idempotent<Kind: Addressable>(depth: PagingDepth, raw: u64)
    ensures
        Kind::spec_truncate(depth, Kind::spec_truncate(depth, raw)) == Kind::spec_truncate(
            depth,
            raw,
        ),
{
    Kind::lemma_truncate_canonical(depth, raw);
    Kind::lemma_truncate_canonical(depth, Kind::spec_truncate(depth, raw));
}

/// The raw address of the page with the given dense index: the index moved
/// above the page-offset bits, modulo the machine word width.
pub open spec fn spec_index_to_address(index: u64) -> u64 {
    ((index * 0x1000) % 0x1_0000_0000_0000_0000int) as u64
}

/// The machine shift by the page-offset width computes
/// [`spec_index_to_address`], and what it computes is page-aligned.
pub(crate) proof fn lemma_index_shl(index: u64)
    ensures
        (index << 12u32) == spec_index_to_address(index),
        spec_page_aligned(spec_index_to_address(index)),
{
    assert({
        &&& (index << 12u32) == (index * 0x1000) % 0x1_0000_0000_0000_0000int
        &&& (((index * 0x1000) % 0x1_0000_0000_0000_0000int) as u64) % 0x1000u64 == 0
    }) by (bit_vector);
}

/// The machine shift by the page-offset width computes division by the
/// page size.
pub(crate) proof fn lemma_index_shr(address: u64)
    ensures
        (address >> 12u32) == address as int / 0x1000,
{
    assert((address >> 12u32) == address as int / 0x1000int) by (bit_vector);
}

/// Index round-trip: whenever the index survives the move above the
/// page-offset bits without losing high bits, dividing the resulting
/// address by the page size gives the index back.
pub proof fn lemma_index_round_trip(index: u64)
    requires
        index * 0x1000 <= u64::MAX,
    ensures
        spec_index_to_address(index) == index * 0x1000,
        spec_index_to_address(index) as int / 0x1000 == index,
{
    assert(index * 0x1000 % 0x1_0000_0000_0000_0000int == index * 0x1000) by {
        lemma_small_mod((index * 0x1000) as nat, 0x1_0000_0000_0000_0000nat);
    }
    assert((index * 0x1000) as int / 0x1000 == index) by (nonlinear_arith);
}

/// Stepping round-trip: starting from a page-aligned address, stepping the
/// index forward by `count` and then back by `count` returns to the same
/// address, whenever the forward index does not overflow the machine word
/// and the stepped-to index admits stepping back.
pub proof fn lemma_step_round_trip(address: u64, count: u64)
    requires
        address % 0x1000 == 0,
        address as int / 0x1000 + count <= u64::MAX,
        spec_index_to_address(((address as int / 0x1000) + count) as u64) as int / 0x1000 >= count,
    ensures
        spec_index_to_address(
            ((spec_index_to_address(((address as int / 0x1000) + count) as u64) as int / 0x1000)
                - count) as u64,
        ) == address,
{
    let idx: u64 = (address as int / 0x1000) as u64;
    let stepped: u64 = (idx + count) as u64;
    assert({
        &&& idx < 0x10_0000_0000_0000u64
        &&& address == idx * 0x1000
    }) by (bit_vector)
        requires
            address % 0x1000 == 0,
            idx == address / 0x1000,
    ;
    assert({
        let forward: u64 = ((stepped * 0x1000) % 0x1_0000_0000_0000_0000int) as u64;
        (forward / 0x1000 >= count && idx < 0x10_0000_0000_0000u64 && address == idx * 0x1000)
            ==> ((((forward / 0x1000) - count) as u64 * 0x1000) % 0x1_0000_0000_0000_0000int)
            == address
    }) by (bit_vector)
        requires
            stepped == idx + count,
    ;
}

} // verus!
