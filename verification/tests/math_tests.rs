use libsys::math;

#[test]
fn align_up() {
    assert_eq!(math::align_up(0xFC, 4), 0x100);
}

#[test]
fn align_up_div() {
    assert_eq!(math::align_up_div(0xFC, 4), 0x10);
}

#[test]
fn align_down() {
    assert_eq!(math::align_down(0xFC, 4), 0xF0);
}

#[test]
fn align_down_div() {
    assert_eq!(math::align_down_div(0xFC, 4), 0xF);
}

#[test]
fn align_up_already_aligned() {
    assert_eq!(math::align_up(0x100, 4), 0x100);
    assert_eq!(math::align_up(0, 12), 0);
}

#[test]
fn align_up_wraps_at_top() {
    assert_eq!(math::align_up(u64::MAX, 12), 0);
    assert_eq!(math::align_up(0xFFFF_FFFF_FFFF_F001, 12), 0);
    assert_eq!(math::align_up(0xFFFF_FFFF_FFFF_E001, 12), 0xFFFF_FFFF_FFFF_F000);
}

#[test]
fn align_down_already_aligned() {
    assert_eq!(math::align_down(0xF0, 4), 0xF0);
    assert_eq!(math::align_down(u64::MAX, 1), u64::MAX - 1);
}
