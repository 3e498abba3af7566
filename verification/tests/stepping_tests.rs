use libsys::{Address, Frame, NonCanonicalError, Page, PagingDepth};

#[test]
fn page_scenario_aligned_and_not() {
    assert!(Address::<Page>::new(PagingDepth::Four, 0xF000).is_ok());
    assert_eq!(
        Address::<Page>::new(PagingDepth::Four, 0xF001),
        Err(NonCanonicalError)
    );
}

#[test]
fn frame_scenario_index_values() {
    let frame = Address::<Frame>::from_index(0xF).unwrap();
    assert_eq!(frame.get().get(), 0xF000);
    assert_eq!(
        Address::<Frame>::from_index(0xFFF0_0000_0000_F),
        Err(NonCanonicalError)
    );
}

#[test]
fn frame_large_index_round_trip() {
    // The largest canonical frame index: 2^40 - 1.
    let frame = Address::<Frame>::from_index(0xFF_FFFF_FFFF).unwrap();
    assert_eq!(frame.index(), 0xFF_FFFF_FFFF);
    assert_eq!(frame.get().get(), 0x000F_FFFF_FFFF_F000);
}

#[test]
fn frame_stepping_round_trip() {
    let frame = Address::<Frame>::from_index(0x10).unwrap();
    let forward = frame.forward_checked(5).unwrap();
    assert_eq!(forward.index(), 0x15);
    let back = forward.backward_checked(5).unwrap();
    assert_eq!(back, frame);
}

#[test]
fn frame_stepping_limits() {
    let first = Address::<Frame>::from_index(0).unwrap();
    assert_eq!(first.backward_checked(1), None);
    let last = Address::<Frame>::from_index(0xFF_FFFF_FFFF).unwrap();
    assert_eq!(last.forward_checked(1), None);
    assert_eq!(last.forward_checked(0).unwrap(), last);
}

#[test]
fn page_stepping_round_trip() {
    let page = Address::<Page>::from_index(PagingDepth::Four, 0x10).unwrap();
    let forward = page.forward_checked(PagingDepth::Four, 5).unwrap();
    assert_eq!(forward.index(), 0x15);
    let back = forward.backward_checked(PagingDepth::Four, 5).unwrap();
    assert_eq!(back, page);
}

#[test]
fn page_stepping_at_canonical_hole() {
    // The last page of the low canonical half cannot step into the hole.
    let low_top = Address::<Page>::new(PagingDepth::Four, 0x0000_7FFF_FFFF_F000).unwrap();
    assert_eq!(low_top.forward_checked(PagingDepth::Four, 1), None);
    // The first page of the high half cannot step back into it either.
    let high_bottom = Address::<Page>::new(PagingDepth::Four, 0xFFFF_8000_0000_0000).unwrap();
    assert_eq!(high_bottom.backward_checked(PagingDepth::Four, 1), None);
    let next = high_bottom.forward_checked(PagingDepth::Four, 1).unwrap();
    assert_eq!(next.get().get(), 0xFFFF_8000_0000_1000);
}

#[test]
fn frame_steps_between() {
    let near = Address::<Frame>::from_index(5).unwrap();
    let far = Address::<Frame>::from_index(9).unwrap();
    assert_eq!(near.steps_between(&far), (4, Some(4)));
    assert_eq!(far.steps_between(&near), (0, None));
    assert_eq!(near.steps_between(&near), (0, Some(0)));
}

#[test]
fn page_steps_between() {
    let near = Address::<Page>::from_index(PagingDepth::Four, 2).unwrap();
    let far = Address::<Page>::from_index(PagingDepth::Four, 7).unwrap();
    assert_eq!(near.steps_between(&far), (5, Some(5)));
    assert_eq!(far.steps_between(&near), (0, None));
}

#[test]
fn page_index_depth_five() {
    // An index non-canonical under 4-level paging can be canonical under 5.
    let index = 0x0000_9000_0000_0u64;
    assert_eq!(
        Address::<Page>::from_index(PagingDepth::Four, index),
        Err(NonCanonicalError)
    );
    let page = Address::<Page>::from_index(PagingDepth::Five, index).unwrap();
    assert_eq!(page.index(), index);
}
