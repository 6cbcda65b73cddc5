use gpio_hal::field::atomic_modify_at;

#[test]
fn field_update_writes_exact_value() {
    // Field 3 of width 2 occupies bits 6-7; writing 0b01 over an
    // all-ones word clears bit 7 and keeps bit 6.
    let mut reg: u32 = 0xFFFF_FFFF;
    atomic_modify_at(&mut reg, 2, 3, 0b01);
    assert_eq!(reg, 0xFFFF_FF7F);
    assert_eq!((reg >> 6) & 0b11, 0b01);
}

#[test]
fn field_update_width_one() {
    let mut reg: u32 = 0;
    atomic_modify_at(&mut reg, 1, 5, 1);
    assert_eq!(reg, 0x20);
    atomic_modify_at(&mut reg, 1, 7, 1);
    assert_eq!(reg, 0xA0);
    atomic_modify_at(&mut reg, 1, 5, 0);
    assert_eq!(reg, 0x80);
}

#[test]
fn field_update_width_four() {
    let mut reg: u32 = 0;
    atomic_modify_at(&mut reg, 4, 1, 0xF);
    assert_eq!(reg, 0xF0);
    atomic_modify_at(&mut reg, 4, 7, 0xA);
    assert_eq!(reg, 0xA000_00F0);
}

#[test]
fn field_updates_of_different_fields_are_order_independent() {
    // Two owners of fields 2 and 5 update them in either order; both
    // values land and the rest of the register is untouched.
    let mut one_way: u32 = 0x1234_5678;
    atomic_modify_at(&mut one_way, 2, 2, 0b11);
    atomic_modify_at(&mut one_way, 2, 5, 0b01);
    let mut other_way: u32 = 0x1234_5678;
    atomic_modify_at(&mut other_way, 2, 5, 0b01);
    atomic_modify_at(&mut other_way, 2, 2, 0b11);
    assert_eq!(one_way, other_way);
    assert_eq!((one_way >> 4) & 0b11, 0b11);
    assert_eq!((one_way >> 10) & 0b11, 0b01);
    // Every other 2-bit field still holds its original value.
    for i in 0..16 {
        if i != 2 && i != 5 {
            assert_eq!((one_way >> (2 * i)) & 0b11, (0x1234_5678u32 >> (2 * i)) & 0b11);
        }
    }
}

#[test]
fn field_update_is_idempotent() {
    let mut reg: u32 = 0xDEAD_BEEF;
    atomic_modify_at(&mut reg, 4, 3, 0x5);
    let after_once = reg;
    atomic_modify_at(&mut reg, 4, 3, 0x5);
    atomic_modify_at(&mut reg, 4, 3, 0x5);
    assert_eq!(reg, after_once);
}
