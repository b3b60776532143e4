use cosmac::math::{add, addc, sub, subc};

#[test]
fn math_test_add() {
    assert_eq!(add(0, 0), (0, false));
    assert_eq!(add(0, 1), (1, false));
    assert_eq!(add(0xfe, 1), (0xff, false));
    assert_eq!(add(0xff, 1), (0, true));
    assert_eq!(add(0xff, 0xff), (0xfe, true));
}

#[test]
fn math_test_addc() {
    assert_eq!(addc(0, 0, false), (0, false));
    assert_eq!(addc(0, 0, true), (1, false));
    assert_eq!(addc(0, 1, true), (2, false));
    assert_eq!(addc(1, 1, true), (3, false));
    assert_eq!(addc(0xff, 0, true), (0, true));
    assert_eq!(addc(0xff, 1, false), (0, true));
    assert_eq!(addc(0xfe, 1, true), (0, true));
    assert_eq!(addc(0xff, 1, true), (1, true));
    assert_eq!(addc(0xff, 2, true), (2, true));
}

#[test]
fn math_test_sub() {
    assert_eq!(sub(0, 0), (0, true));
    assert_eq!(sub(0, 1), (0xff, false));
    assert_eq!(sub(1, 0), (1, true));
    assert_eq!(sub(0xff, 1), (0xfe, true));
    assert_eq!(sub(1, 0xff), (2, false));
}

#[test]
fn math_test_subc() {
    assert_eq!(subc(0, 0, false), (0, true));
    assert_eq!(subc(1, 1, false), (0, true));
    assert_eq!(subc(1, 0, true), (0, true));
    assert_eq!(subc(1, 1, true), (0xff, false));
    assert_eq!(subc(0, 0, true), (0xff, false));
    assert_eq!(subc(0, 1, false), (0xff, false));
    assert_eq!(subc(0, 1, true), (0xfe, false));
}

#[test]
fn state_test_add() {
    assert_eq!(add(0, 0), (0, false));
    assert_eq!(add(0, 1), (1, false));
    assert_eq!(add(0xfe, 1), (0xff, false));
    assert_eq!(add(0xff, 1), (0, true));
    assert_eq!(add(0xff, 0xff), (0xfe, true));
}

#[test]
fn state_test_addc() {
    assert_eq!(addc(0, 0, false), (0, false));
    assert_eq!(addc(0, 0, true), (1, false));
    assert_eq!(addc(0, 1, true), (2, false));
    assert_eq!(addc(1, 1, true), (3, false));
    assert_eq!(addc(0xff, 0, true), (0, true));
    assert_eq!(addc(0xff, 1, false), (0, true));
    assert_eq!(addc(0xfe, 1, true), (0, true));
    assert_eq!(addc(0xff, 1, true), (1, true));
    assert_eq!(addc(0xff, 2, true), (2, true));
}
