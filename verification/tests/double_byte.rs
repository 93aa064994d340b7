use field_sync::StateMask;

#[test]
fn state_mask_getset() {
    let mut mask = StateMask::new(2);

    mask.set_bit(0, true);
    mask.set_bit(4, true);
    mask.set_bit(8, true);
    mask.set_bit(12, true);
    mask.set_bit(8, false);

    assert!(mask.get_bit(0).unwrap() == true);
    assert!(mask.get_bit(4).unwrap() == true);
    assert!(mask.get_bit(8).unwrap() == false);
    assert!(mask.get_bit(12).unwrap() == true);
    assert!(mask.get_bit(13).unwrap() == false);
}

#[test]
fn state_mask_clear() {
    let mut mask = StateMask::new(2);

    mask.set_bit(0, true);
    mask.set_bit(4, true);
    mask.set_bit(8, true);
    mask.set_bit(12, true);

    mask.clear();

    assert!(mask.get_bit(0).unwrap() == false);
    assert!(mask.get_bit(4).unwrap() == false);
    assert!(mask.get_bit(8).unwrap() == false);
    assert!(mask.get_bit(12).unwrap() == false);
}

#[test]
fn state_mask_is_clear_true() {
    let mut mask = StateMask::new(2);

    mask.set_bit(9, true);

    assert!(mask.is_clear() == false);

    mask.set_bit(9, false);

    assert!(mask.is_clear() == true);
}

#[test]
fn state_mask_bytes() {
    let mask = StateMask::new(2);
    assert!(mask.byte_number() == 2);
}

#[test]
fn state_mask_get_byte() {
    let mut mask = StateMask::new(2);
    mask.set_bit(10, true);
    let byte = mask.get_byte(1);
    assert!(byte == 4);
}

#[test]
fn state_mask_nand() {
    let mut mask_a = StateMask::new(2);
    mask_a.set_bit(1, true);
    mask_a.set_bit(2, true);
    mask_a.set_bit(9, true);
    mask_a.set_bit(10, true);

    let mut mask_b = StateMask::new(2);
    mask_b.set_bit(1, true);
    mask_b.set_bit(9, true);

    mask_a.nand(&mask_b);

    assert!(mask_a.get_bit(0).unwrap() == false);
    assert!(mask_a.get_bit(1).unwrap() == false);
    assert!(mask_a.get_bit(2).unwrap() == true);
    assert!(mask_a.get_bit(3).unwrap() == false);

    assert!(mask_a.get_bit(8).unwrap() == false);
    assert!(mask_a.get_bit(9).unwrap() == false);
    assert!(mask_a.get_bit(10).unwrap() == true);
    assert!(mask_a.get_bit(11).unwrap() == false);
}

#[test]
fn state_mask_or() {
    let mut mask_a = StateMask::new(2);
    mask_a.set_bit(4, true);
    mask_a.set_bit(8, true);

    let mut mask_b = StateMask::new(2);
    mask_b.set_bit(8, true);
    mask_b.set_bit(12, true);

    mask_a.or(&mask_b);

    assert!(mask_a.get_bit(0).unwrap() == false);
    assert!(mask_a.get_bit(4).unwrap() == true);
    assert!(mask_a.get_bit(8).unwrap() == true);
    assert!(mask_a.get_bit(12).unwrap() == true);
    assert!(mask_a.get_bit(15).unwrap() == false);
}
