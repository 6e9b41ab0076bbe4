//! The freestanding memory intrinsics and the CPU primitives, plus the
//! volatile cell model they all rest on.

use zinc_rt::support::{__aeabi_memclr, __aeabi_memcpy, __aeabi_memset, nop, wfi};
use zinc_rt::volatile::VolatileCell;

#[test]
fn memcpy_copies_a_prefix() {
    let mut dest: Vec<u8> = vec![0xFF; 8];
    let src: Vec<u8> = vec![1, 2, 3, 4];
    __aeabi_memcpy(&mut dest, &src, 4);
    assert_eq!(dest, vec![1, 2, 3, 4, 0xFF, 0xFF, 0xFF, 0xFF]);
}

#[test]
fn memcpy_of_zero_bytes_changes_nothing() {
    let mut dest: Vec<u8> = vec![9, 8, 7];
    let src: Vec<u8> = vec![1, 2, 3];
    __aeabi_memcpy(&mut dest, &src, 0);
    assert_eq!(dest, vec![9, 8, 7]);
}

#[test]
fn memcpy_of_the_whole_buffer() {
    let mut dest: Vec<u8> = vec![0; 4];
    let src: Vec<u8> = vec![0xDE, 0xAD, 0xBE, 0xEF];
    __aeabi_memcpy(&mut dest, &src, 4);
    assert_eq!(dest, src);
}

#[test]
fn memset_writes_the_low_byte_of_the_value() {
    let mut dest: Vec<u8> = vec![0; 5];
    __aeabi_memset(&mut dest, 3, 0x1234);
    assert_eq!(dest, vec![0x34, 0x34, 0x34, 0, 0]);
}

#[test]
fn memclr_zeroes_a_prefix_and_is_idempotent() {
    let mut once: Vec<u8> = vec![0xAB; 6];
    __aeabi_memclr(&mut once, 4);
    assert_eq!(once, vec![0, 0, 0, 0, 0xAB, 0xAB]);

    let mut twice: Vec<u8> = vec![0xAB; 6];
    __aeabi_memclr(&mut twice, 4);
    __aeabi_memclr(&mut twice, 4);
    assert_eq!(twice, once);
}

#[test]
fn volatile_cell_returns_the_last_store() {
    let mut cell: VolatileCell<u32> = VolatileCell::new(5);
    assert_eq!(cell.get(), 5);
    cell.set(9);
    assert_eq!(cell.get(), 9);
}

#[test]
fn cpu_primitives_return() {
    // the portable builds of the no-op and idle-wait instructions do nothing
    nop();
    wfi();
}
