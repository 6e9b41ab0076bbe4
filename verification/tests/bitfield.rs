//! Bit-level behaviour of the generic field accessors.

use zinc_rt::bits::{field_get, field_set};

#[test]
fn field_set_then_get_returns_value() {
    // a value that fits the field reads back exactly
    let w = field_set(0, 8, 15, 0xAB);
    assert_eq!(field_get(w, 8, 15), 0xAB);

    let w2 = field_set(0xFFFF_FFFF, 4, 7, 0x5);
    assert_eq!(field_get(w2, 4, 7), 0x5);
}

#[test]
fn field_set_truncates_wide_values() {
    // a 2-bit field keeps only the low two bits of what is written
    let w = field_set(0, 20, 21, 0xF);
    assert_eq!(field_get(w, 20, 21), 0x3);
    assert_eq!(w, 0x0030_0000);
}

#[test]
fn field_write_leaves_disjoint_fields_alone() {
    let w: u32 = 0xDEAD_BEEF;
    let r = field_set(w, 20, 21, 0b01);
    assert_eq!(field_get(r, 22, 23), field_get(w, 22, 23));
    assert_eq!(field_get(r, 0, 19), field_get(w, 0, 19));
    assert_eq!(field_get(r, 24, 31), field_get(w, 24, 31));
    assert_eq!(field_get(r, 20, 21), 0b01);
    assert_eq!(r, 0xDE9D_BEEF);
}

#[test]
fn field_spanning_the_whole_word() {
    let w = field_set(0x1234_5678, 0, 31, 0xCAFE_F00D);
    assert_eq!(w, 0xCAFE_F00D);
    assert_eq!(field_get(w, 0, 31), 0xCAFE_F00D);
}

#[test]
fn single_bit_fields() {
    let w = field_set(0, 31, 31, 1);
    assert_eq!(w, 0x8000_0000);
    assert_eq!(field_get(w, 31, 31), 1);
    assert_eq!(field_get(w, 30, 30), 0);

    let w2 = field_set(w, 31, 31, 0);
    assert_eq!(w2, 0);
}
