use libsys::{Address, Frame, NonCanonicalError, Page, PagingDepth, Physical, Virtual};

#[test]
fn physical_get() {
    assert_eq!(Address::<Physical>::new_trusted(0xF).get(), 0xF);
}

#[test]
fn physical_new() {
    assert_eq!(
        Address::<Physical>::new(0xFFF0_0000_0000_000F),
        Err(NonCanonicalError)
    );
    assert_eq!(Address::<Physical>::new(0xF).map(|address| address.get()), Ok(0xF));
}

#[test]
fn physical_new_truncate() {
    assert_eq!(
        Address::<Physical>::new_truncate(0xFFF0_0000_0000_000F).get(),
        0xF
    );
}

#[test]
fn virtual_get() {
    assert_eq!(
        Address::<Virtual>::new_trusted(PagingDepth::Four, 0xF).get(),
        0xF
    );
}

#[test]
fn virtual_new() {
    assert_eq!(
        Address::<Virtual>::new(PagingDepth::Four, 0xFFF0_0000_0000_000F),
        Err(NonCanonicalError)
    );
    assert_eq!(
        Address::<Virtual>::new(PagingDepth::Four, 0xF).map(|address| address.get()),
        Ok(0xF)
    );
}

#[test]
fn virtual_new_truncate() {
    assert_eq!(
        Address::<Virtual>::new_truncate(PagingDepth::Four, 0xFFF0_0000_0000_000F).get(),
        0xF
    );
}

#[test]
fn page_get() {
    assert_eq!(
        Address::<Page>::new_trusted(PagingDepth::Four, 0xF000).get(),
        Address::<Virtual>::new_trusted(PagingDepth::Four, 0xF000)
    );
}

#[test]
fn page_new() {
    assert_eq!(
        Address::<Page>::new(PagingDepth::Four, 0xFFFF_0000_0000_F000),
        Err(NonCanonicalError)
    );
}

#[test]
fn page_new_truncate() {
    assert_eq!(
        Address::<Page>::new_truncate(PagingDepth::Four, 0xFFF0_0000_0000_F000).get(),
        Address::<Virtual>::new_truncate(PagingDepth::Four, 0xFFF0_0000_0000_F000)
    );
}

#[test]
fn page_index() {
    assert_eq!(
        Address::<Page>::from_index(PagingDepth::Four, 0xF).map(|page| page.index()),
        Ok(0xF)
    );
}

#[test]
fn page_from_index() {
    assert_eq!(
        Address::<Page>::from_index(PagingDepth::Four, 0xFFF0_0000_0000_F),
        Err(NonCanonicalError)
    );
    assert_eq!(
        Address::<Page>::from_index(PagingDepth::Four, 0xF).map(|address| address.get()),
        Ok(Address::<Virtual>::new_trusted(PagingDepth::Four, 0xF000))
    );
}

#[test]
fn frame_get() {
    assert_eq!(
        Address::<Frame>::new_trusted(0xF000).get(),
        Address::<Physical>::new_trusted(0xF000)
    );
}

#[test]
fn frame_new() {
    assert_eq!(
        Address::<Frame>::new(0xFFFF_0000_0000_F000),
        Err(NonCanonicalError)
    );
}

#[test]
fn frame_new_truncate() {
    assert_eq!(
        Address::<Frame>::new_truncate(0xFFF0_0000_0000_F000).get(),
        Address::<Physical>::new_truncate(0xFFF0_0000_0000_F000)
    );
}

#[test]
fn frame_index() {
    assert_eq!(
        Address::<Frame>::from_index(0xF).map(|frame| frame.index()),
        Ok(0xF)
    );
}

#[test]
fn frame_from_index() {
    assert_eq!(
        Address::<Frame>::from_index(0xFFF0_0000_0000_F),
        Err(NonCanonicalError)
    );
    assert_eq!(
        Address::<Frame>::from_index(0xF).map(|address| address.get()),
        Ok(Address::<Physical>::new_trusted(0xF000))
    );
}
