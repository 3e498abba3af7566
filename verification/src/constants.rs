//! The x86-64 paging geometry: page and table-index sizes and masks, the
//! physical address width, and the canonicality predicates and truncation
//! rules derived from them.
//!
//! Everything here is a pure function. The only runtime-dependent input is
//! the paging depth, passed explicitly as a [`PagingDepth`] value; the fixed
//! widths of the reference platform are `page_bits = 12` (4 KiB pages),
//! `table_index_bits = 9` (512 entries per table level) and
//! `physical_address_bits = 52`.

use vstd::prelude::*;

verus! {

/// Number of page-table levels (4 or 5) in the active translation scheme.
///
/// The depth is read once from hardware state at boot, outside this library,
/// and decides the virtual canonical-bit boundary: each level consumes
/// `table_index_bits` of a virtual address, so a deeper scheme leaves more
/// bits to the index region and fewer to sign extension.
#[derive(Clone, Copy, Debug, PartialEq, Eq, Structural)]
pub enum PagingDepth {
    Four,
    Five,
}

impl PagingDepth {
    /// The number of page-table levels this depth stands for.
    pub open spec fn spec_levels(self) -> u32 {
        match self {
            PagingDepth::Four => 4,
            PagingDepth::Five => 5,
        }
    }

    /// The number of page-table levels this depth stands for.
    pub fn levels(self) -> (r: u32)
        ensures
            r == self.spec_levels(),
    {
        match self {
            PagingDepth::Four => 4,
            PagingDepth::Five => 5,
        }
    }

    /// The depth with the given number of levels, if there is one.
    pub fn from_levels(levels: u32) -> (r: Option<PagingDepth>)
        ensures
            r matches Some(d) ==> d.spec_levels() == levels,
            r is Some <==> (levels == 4 || levels == 5),
    {
        match levels {
            4 => Some(PagingDepth::Four),
            5 => Some(PagingDepth::Five),
            _ => None,
        }
    }
}

/// Bit shift required to offset page indexes.
pub fn page_shift() -> (r: u32)
    ensures
        r == 12u32,
{
    12
}

/// Bit shift required to offset page indexes.
pub fn page_bits() -> (r: u32)
    ensures
        r == 12u32,
{
    12
}

/// Bit shift required to offset large page indexes.
pub fn large_page_bits() -> (r: u32)
    ensures
        r == 21u32,
{
    12 + 9
}

/// Bit shift required to offset huge page indexes.
pub fn huge_page_bits() -> (r: u32)
    ensures
        r == 30u32,
{
    12 + 9 + 9
}

/// The size of a page in bytes.
pub fn page_size() -> (r: u64)
    ensures
        r == 0x1000u64,
{
    0x1000
}

/// The size of a large page in bytes.
pub fn large_page_size() -> (r: u64)
    ensures
        r == 0x20_0000u64,
{
    0x20_0000
}

/// The size of a huge page in bytes.
pub fn huge_page_size() -> (r: u64)
    ensures
        r == 0x4000_0000u64,
{
    0x4000_0000
}

/// Bit-mask of non-index page bytes.
pub fn page_mask() -> (r: u64)
    ensures
        r == 0xFFFu64,
{
    0xFFF
}

/// Bit-mask of non-index large page bytes.
pub fn large_page_mask() -> (r: u64)
    ensures
        r == 0x1F_FFFFu64,
{
    0x1F_FFFF
}

/// Bit-mask of non-index huge page bytes.
pub fn huge_page_mask() -> (r: u64)
    ensures
        r == 0x3FFF_FFFFu64,
{
    0x3FFF_FFFF
}

/// Shift (in bits) of a page table index.
pub fn table_index_shift() -> (r: u32)
    ensures
        r == 9u32,
{
    9
}

/// Shift (in bits) of a page table index.
pub fn table_index_bits() -> (r: u32)
    ensures
        r == 9u32,
{
    9
}

/// Number of entries of one page-table level.
pub fn table_index_size() -> (r: u64)
    ensures
        r == 512u64,
{
    512
}

/// Bit-mask of a page table index.
pub fn table_index_mask() -> (r: u64)
    ensures
        r == 511u64,
{
    511
}

/// Number of bits in a canonical physical address.
pub fn physical_address_bits() -> (r: u32)
    ensures
        r == 52u32,
{
    52
}

/// The maximum physical address size (in bytes): 2^52.
pub fn physical_address_size() -> (r: u64)
    ensures
        r == 0x0010_0000_0000_0000u64,
{
    0x0010_0000_0000_0000
}

/// Bit-mask of canonical physical bits: `physical_address_size() - 1`.
pub fn physical_address_mask() -> (r: u64)
    ensures
        r == 0x000F_FFFF_FFFF_FFFFu64,
{
    0x000F_FFFF_FFFF_FFFF
}

/// A physical address is canonical when no bit at or above the physical
/// address width (52) is set, that is, when the address is below 2^52.
pub open spec fn spec_physical_canonical(address: u64) -> bool {
    address < 0x0010_0000_0000_0000u64
}

/// Clearing every bit at or above the physical address width reduces the
/// address modulo 2^52.
pub open spec fn spec_truncate_physical(address: u64) -> u64 {
    (address % 0x0010_0000_0000_0000u64) as u64
}

/// Checks if the provided `physical_address` is canonical.
pub fn is_physical_address_canonical(physical_address: u64) -> (r: bool)
    ensures
        r == spec_physical_canonical(physical_address),
{
    let mask: u64 = physical_address_mask();
    proof {
        assert(((physical_address & !0x000F_FFFF_FFFF_FFFFu64) == 0) == (physical_address
            < 0x0010_0000_0000_0000u64)) by (bit_vector);
    }
    (physical_address & !mask) == 0
}

/// Truncates all non-canonical physical bits from an address.
pub fn truncate_physical_address(address: u64) -> (r: u64)
    ensures
        r == spec_truncate_physical(address),
        spec_physical_canonical(r),
{
    let mask: u64 = physical_address_mask();
    proof {
        assert((address & 0x000F_FFFF_FFFF_FFFFu64) == (address
            % 0x0010_0000_0000_0000u64)) by (bit_vector);
    }
    address & mask
}

/// Physical truncation is idempotent: truncating an already-truncated
/// address changes nothing.
pub proof fn lemma_truncate_physical_idempotent(address: u64)
    ensures
        spec_truncate_physical(spec_truncate_physical(address)) == spec_truncate_physical(address),
{
}

/// The weight of the virtual sign bit, `2^(virtual_address_bits - 1)`:
/// the boundary below which the sign-extension region of a canonical
/// virtual address is all-zero.
pub open spec fn spec_sign_boundary(depth: PagingDepth) -> u64 {
    match depth {
        PagingDepth::Four => 0x0000_8000_0000_0000u64,  // 2^47
        PagingDepth::Five => 0x0100_0000_0000_0000u64,  // 2^56
    }
}

/// A virtual address is canonical when the bits at and above
/// `virtual_address_bits - 1` are uniformly zero or uniformly one, that is,
/// when the address lies in the low half `[0, 2^(bits-1))` or in the
/// sign-extended high half `[2^64 - 2^(bits-1), 2^64)`.
pub open spec fn spec_virtual_canonical(depth: PagingDepth, address: u64) -> bool {
    address < spec_sign_boundary(depth) || address >= u64::MAX - spec_sign_boundary(depth) + 1
}

/// Sign-extending an address from the virtual sign bit keeps the bits below
/// the sign bit and replicates the sign bit through all higher ones.
pub open spec fn spec_truncate_virtual(depth: PagingDepth, address: u64) -> u64 {
    let half: int = spec_sign_boundary(depth) as int;
    let low: int = address as int % half;
    if (address as int / half) % 2 == 1 {
        (low + (u64::MAX - half + 1)) as u64
    } else {
        low as u64
    }
}

/// Number of bits in a canonical virtual address: each page-table level
/// consumes `table_index_bits` atop the `page_bits` page offset.
pub open spec fn spec_virtual_address_bits(depth: PagingDepth) -> u32 {
    (9 * depth.spec_levels() + 12) as u32
}

/// Number of bits in a canonical virtual address; takes the paging depth,
/// which only boot-time hardware detection can supply.
pub fn virtual_address_bits(depth: PagingDepth) -> (r: u32)
    ensures
        r == spec_virtual_address_bits(depth),
        r == 48 || r == 57,
{
    let levels: u32 = depth.levels();
    table_index_bits() * levels + page_bits()
}

/// Bit-shift to reach non-canonical bits of a virtual address.
pub fn virt_noncanonical_shift(depth: PagingDepth) -> (r: u32)
    ensures
        r == spec_virtual_address_bits(depth),
{
    let levels: u32 = depth.levels();
    table_index_shift() * levels + page_shift()
}

/// Checks whether a provided address has only the canonical virtual bits.
///
/// The sign-extension region, bits `virtual_address_bits - 1` and above,
/// must read back as all-zero or all-one.
pub fn is_virtual_address_canonical(depth: PagingDepth, virtual_address: u64) -> (r: bool)
    ensures
        r == spec_virtual_canonical(depth, virtual_address),
{
    let bits: u32 = virtual_address_bits(depth);
    let check_shift: u32 = bits - 1;
    proof {
        assert(1u64 << (64 - 47u32) >= 1) by (bit_vector);
        assert(1u64 << (64 - 56u32) >= 1) by (bit_vector);
    }
    let region: u64 = virtual_address >> check_shift;
    let all_ones: u64 = (1u64 << (64 - check_shift)) - 1;
    proof {
        match depth {
            PagingDepth::Four => {
                assert(region == virtual_address >> 47u32);
                assert(all_ones == (1u64 << (64 - 47u32)) - 1);
                assert(((virtual_address >> 47u32 == 0) || (virtual_address >> 47u32 == (1u64
                    << (64 - 47u32)) - 1)) == (virtual_address < 0x0000_8000_0000_0000u64
                    || virtual_address >= 0xFFFF_8000_0000_0000u64)) by (bit_vector);
            },
            PagingDepth::Five => {
                assert(region == virtual_address >> 56u32);
                assert(all_ones == (1u64 << (64 - 56u32)) - 1);
                assert(((virtual_address >> 56u32 == 0) || (virtual_address >> 56u32 == (1u64
                    << (64 - 56u32)) - 1)) == (virtual_address < 0x0100_0000_0000_0000u64
                    || virtual_address >= 0xFF00_0000_0000_0000u64)) by (bit_vector);
            },
        }
    }
    region == 0 || region == all_ones
}

/// Checks whether a provided address has only the canonical virtual bits.
pub fn checked_virt_canonical(depth: PagingDepth, address: u64) -> (r: bool)
    ensures
        r == spec_virtual_canonical(depth, address),
{
    is_virtual_address_canonical(depth, address)
}

/// Truncates all non-canonical virtual bits from an address by sign-extending
/// from bit `virtual_address_bits - 1`.
pub fn truncate_virtual_address(depth: PagingDepth, address: u64) -> (r: u64)
    ensures
        r == spec_truncate_virtual(depth, address),
        spec_virtual_canonical(depth, r),
{
    let bits: u32 = virtual_address_bits(depth);
    proof {
        assert(1u64 << (48u32 - 1) == 0x0000_8000_0000_0000u64) by (bit_vector);
        assert(1u64 << (57u32 - 1) == 0x0100_0000_0000_0000u64) by (bit_vector);
    }
    let half: u64 = 1u64 << (bits - 1);
    assert(half == spec_sign_boundary(depth));
    let low: u64 = address & (half - 1);
    let r: u64 = if address & half != 0 {
        low | !(half - 1)
    } else {
        low
    };
    proof {
        lemma_truncate_virtual_parts(depth, address, half, low, r);
    }
    r
}

/// Relates the mask-and-or computation of virtual truncation to its
/// arithmetic statement, one paging depth at a time.
proof fn lemma_truncate_virtual_parts(
    depth: PagingDepth,
    address: u64,
    half: u64,
    low: u64,
    r: u64,
)
    requires
        half == spec_sign_boundary(depth),
        low == address & (half - 1) as u64,
        r == if address & half != 0 {
            low | !((half - 1) as u64)
        } else {
            low
        },
    ensures
        r == spec_truncate_virtual(depth, address),
        spec_virtual_canonical(depth, r),
{
    match depth {
        PagingDepth::Four => {
            assert({
                let h: u64 = 0x0000_8000_0000_0000;
                let l: u64 = address & ((h - 1) as u64);
                let x: u64 = if address & h != 0 {
                    l | !((h - 1) as u64)
                } else {
                    l
                };
                &&& l == address as int % h as int
                &&& ((address & h != 0) == ((address as int / h as int) % 2 == 1))
                &&& ((address & h != 0) ==> x == l as int + 0xFFFF_8000_0000_0000int)
                &&& (x < h || x >= 0xFFFF_8000_0000_0000u64)
            }) by (bit_vector);
        },
        PagingDepth::Five => {
            assert({
                let h: u64 = 0x0100_0000_0000_0000;
                let l: u64 = address & ((h - 1) as u64);
                let x: u64 = if address & h != 0 {
                    l | !((h - 1) as u64)
                } else {
                    l
                };
                &&& l == address as int % h as int
                &&& ((address & h != 0) == ((address as int / h as int) % 2 == 1))
                &&& ((address & h != 0) ==> x == l as int + 0xFF00_0000_0000_0000int)
                &&& (x < h || x >= 0xFF00_0000_0000_0000u64)
            }) by (bit_vector);
        },
    }
}

/// Virtual truncation is idempotent: a sign-extended address sign-extends to
/// itself.
pub proof fn lemma_truncate_virtual_idempotent(depth: PagingDepth, address: u64)
    ensures
        spec_truncate_virtual(depth, spec_truncate_virtual(depth, address)) == spec_truncate_virtual(
            depth,
            address,
        ),
{
    lemma_truncate_virtual_canonical(depth, address);
    lemma_canonical_fixed_by_truncate(depth, spec_truncate_virtual(depth, address));
}

/// What virtual truncation returns is canonical.
pub proof fn lemma_truncate_virtual_canonical(depth: PagingDepth, address: u64)
    ensures
        spec_virtual_canonical(depth, spec_truncate_virtual(depth, address)),
{
    let half: int = spec_sign_boundary(depth) as int;
    let low: int = address as int % half;
    assert(0 <= low < half);
}

/// A page-aligned address is a multiple of the page size.
pub open spec fn spec_page_aligned(address: u64) -> bool {
    address % 0x1000 == 0
}

/// The address with its page-offset bits cleared: rounded down to the page
/// boundary below it.
pub open spec fn spec_clear_page_offset(address: u64) -> u64 {
    (address - (address % 0x1000u64)) as u64
}

/// Clearing the page-offset bits is the mask computation `address & !page_mask()`,
/// lands on a page boundary, and does not move an aligned address.
pub proof fn lemma_page_align_mask(address: u64)
    ensures
        ((address & 0xFFFu64) == 0) == spec_page_aligned(address),
        (address & !0xFFFu64) == spec_clear_page_offset(address),
        spec_page_aligned(spec_clear_page_offset(address)),
        spec_page_aligned(address) ==> spec_clear_page_offset(address) == address,
        spec_clear_page_offset(address) <= address,
{
    assert({
        &&& ((address & 0xFFFu64) == 0) == (address % 0x1000u64 == 0)
        &&& (address & !0xFFFu64) == (address - (address % 0x1000u64)) as u64
        &&& ((address - (address % 0x1000u64)) as u64) % 0x1000u64 == 0
        &&& (address - (address % 0x1000u64)) as u64 <= address
    }) by (bit_vector);
}

/// Clearing the page-offset bits keeps a virtually canonical address
/// canonical: the sign-extension region lies wholly above the page offset.
pub proof fn lemma_clear_page_offset_canonical(depth: PagingDepth, address: u64)
    requires
        spec_virtual_canonical(depth, address),
    ensures
        spec_virtual_canonical(depth, spec_clear_page_offset(address)),
{
    match depth {
        PagingDepth::Four => {
            assert((address < 0x0000_8000_0000_0000u64 || address >= 0xFFFF_8000_0000_0000u64)
                ==> {
                let cleared: u64 = (address - (address % 0x1000u64)) as u64;
                cleared < 0x0000_8000_0000_0000u64 || cleared >= 0xFFFF_8000_0000_0000u64
            }) by (bit_vector);
        },
        PagingDepth::Five => {
            assert((address < 0x0100_0000_0000_0000u64 || address >= 0xFF00_0000_0000_0000u64)
                ==> {
                let cleared: u64 = (address - (address % 0x1000u64)) as u64;
                cleared < 0x0100_0000_0000_0000u64 || cleared >= 0xFF00_0000_0000_0000u64
            }) by (bit_vector);
        },
    }
}

/// Truncation does not move an address that is already canonical.
pub proof fn lemma_canonical_fixed_by_truncate(depth: PagingDepth, address: u64)
    requires
        spec_virtual_canonical(depth, address),
    ensures
        spec_truncate_virtual(depth, address) == address,
{
    match depth {
        PagingDepth::Four => {
            assert((address < 0x0000_8000_0000_0000u64 || address
                >= 0xFFFF_8000_0000_0000u64) ==> {
                let h: int = 0x0000_8000_0000_0000int;
                let low: int = address as int % h;
                if (address as int / h) % 2 == 1 {
                    low + 0xFFFF_8000_0000_0000int == address as int
                } else {
                    low == address as int
                }
            }) by (bit_vector);
        },
        PagingDepth::Five => {
            assert((address < 0x0100_0000_0000_0000u64 || address
                >= 0xFF00_0000_0000_0000u64) ==> {
                let h: int = 0x0100_0000_0000_0000int;
                let low: int = address as int % h;
                if (address as int / h) % 2 == 1 {
                    low + 0xFF00_0000_0000_0000int == address as int
                } else {
                    low == address as int
                }
            }) by (bit_vector);
        },
    }
}

} // verus!
