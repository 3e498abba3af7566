use libsys::constants;
use libsys::PagingDepth;

#[test]
fn fixed_widths() {
    assert_eq!(constants::page_shift(), 12);
    assert_eq!(constants::page_bits(), 12);
    assert_eq!(constants::large_page_bits(), 21);
    assert_eq!(constants::huge_page_bits(), 30);
    assert_eq!(constants::table_index_shift(), 9);
    assert_eq!(constants::table_index_bits(), 9);
    assert_eq!(constants::physical_address_bits(), 52);
}

#[test]
fn sizes_and_masks() {
    assert_eq!(constants::page_size(), 0x1000);
    assert_eq!(constants::large_page_size(), 0x20_0000);
    assert_eq!(constants::huge_page_size(), 0x4000_0000);
    assert_eq!(constants::page_mask(), 0xFFF);
    assert_eq!(constants::large_page_mask(), 0x1F_FFFF);
    assert_eq!(constants::huge_page_mask(), 0x3FFF_FFFF);
    assert_eq!(constants::table_index_size(), 512);
    assert_eq!(constants::table_index_mask(), 511);
    assert_eq!(constants::physical_address_size(), 0x0010_0000_0000_0000);
}

#[test]
fn physical_canonicality() {
    assert_eq!(constants::physical_address_mask(), 0x000F_FFFF_FFFF_FFFF);
    assert!(!constants::is_physical_address_canonical(
        0x0010_0000_0000_0000
    ));
    assert!(constants::is_physical_address_canonical(
        0x000F_FFFF_FFFF_FFFF
    ));
    assert!(constants::is_physical_address_canonical(0));
}

#[test]
fn virtual_canonicality_depth_four() {
    assert_eq!(constants::virtual_address_bits(PagingDepth::Four), 48);
    assert_eq!(constants::virt_noncanonical_shift(PagingDepth::Four), 48);
    assert!(constants::is_virtual_address_canonical(
        PagingDepth::Four,
        0x0000_7FFF_FFFF_FFFF
    ));
    assert!(constants::is_virtual_address_canonical(
        PagingDepth::Four,
        0xFFFF_8000_0000_0000
    ));
    assert!(!constants::is_virtual_address_canonical(
        PagingDepth::Four,
        0x0001_0000_0000_0000
    ));
    assert!(!constants::is_virtual_address_canonical(
        PagingDepth::Four,
        0xFFFF_7FFF_FFFF_FFFF
    ));
    assert!(constants::checked_virt_canonical(
        PagingDepth::Four,
        0x0000_7FFF_FFFF_FFFF
    ));
}

#[test]
fn virtual_canonicality_depth_five() {
    assert_eq!(constants::virtual_address_bits(PagingDepth::Five), 57);
    assert!(constants::is_virtual_address_canonical(
        PagingDepth::Five,
        0x00FF_FFFF_FFFF_FFFF
    ));
    assert!(constants::is_virtual_address_canonical(
        PagingDepth::Five,
        0xFF00_0000_0000_0000
    ));
    assert!(!constants::is_virtual_address_canonical(
        PagingDepth::Five,
        0x0100_0000_0000_0000
    ));
    assert!(!constants::is_virtual_address_canonical(
        PagingDepth::Five,
        0xFEFF_FFFF_FFFF_FFFF
    ));
    // An address canonical under 4-level paging stays canonical under 5.
    assert!(constants::is_virtual_address_canonical(
        PagingDepth::Five,
        0xFFFF_8000_0000_0000
    ));
}

#[test]
fn physical_truncation() {
    assert_eq!(
        constants::truncate_physical_address(0xFFF0_0000_0000_000F),
        0xF
    );
    let once = constants::truncate_physical_address(0xDEAD_BEEF_DEAD_BEEF);
    assert_eq!(constants::truncate_physical_address(once), once);
    assert!(constants::is_physical_address_canonical(once));
}

#[test]
fn virtual_truncation_sign_extends() {
    // The sign bit (bit 47 under 4-level paging) is replicated upward.
    assert_eq!(
        constants::truncate_virtual_address(PagingDepth::Four, 0x0000_8000_0000_0000),
        0xFFFF_8000_0000_0000
    );
    assert_eq!(
        constants::truncate_virtual_address(PagingDepth::Four, 0x0000_7FFF_FFFF_FFFF),
        0x0000_7FFF_FFFF_FFFF
    );
    assert_eq!(
        constants::truncate_virtual_address(PagingDepth::Four, 0xFFF0_0000_0000_000F),
        0xF
    );
    // Under 5-level paging the boundary sits at bit 56 instead.
    assert_eq!(
        constants::truncate_virtual_address(PagingDepth::Five, 0x0000_8000_0000_0000),
        0x0000_8000_0000_0000
    );
}

#[test]
fn virtual_truncation_idempotent() {
    for depth in [PagingDepth::Four, PagingDepth::Five] {
        let once = constants::truncate_virtual_address(depth, 0x1234_5678_9ABC_DEF0);
        assert_eq!(constants::truncate_virtual_address(depth, once), once);
        assert!(constants::is_virtual_address_canonical(depth, once));
    }
}

#[test]
fn paging_depth_levels() {
    assert_eq!(PagingDepth::Four.levels(), 4);
    assert_eq!(PagingDepth::Five.levels(), 5);
    assert_eq!(PagingDepth::from_levels(4), Some(PagingDepth::Four));
    assert_eq!(PagingDepth::from_levels(5), Some(PagingDepth::Five));
    assert_eq!(PagingDepth::from_levels(3), None);
    assert_eq!(PagingDepth::from_levels(6), None);
}
