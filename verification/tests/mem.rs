use kernel::mem::{memcmp, memcpy, memmove, memset};

#[test]
fn memcmp_of_equal_ranges_is_zero() {
    let memory = [1u8, 2, 3, 9, 1, 2, 3, 8];
    assert_eq!(memcmp(&memory, 0, 4, 3), 0);
}

#[test]
fn memcmp_gives_the_first_difference() {
    let memory = [1u8, 2, 3, 9, 1, 2, 7, 0];
    assert_eq!(memcmp(&memory, 0, 4, 4), 3 - 7);
    assert_eq!(memcmp(&memory, 4, 0, 4), 7 - 3);
    assert_eq!(memcmp(&memory, 3, 7, 1), 9);
}

#[test]
fn memcmp_spans_the_full_byte_range() {
    let memory = [0u8, 255];
    assert_eq!(memcmp(&memory, 0, 1, 1), -255);
    assert_eq!(memcmp(&memory, 1, 0, 1), 255);
}

#[test]
fn memcmp_of_nothing_is_zero() {
    let memory = [1u8, 2];
    assert_eq!(memcmp(&memory, 0, 1, 0), 0);
    assert_eq!(memcmp(&memory, 0, 1, -5), 0);
    assert_eq!(memcmp(&memory, 2, 2, 0), 0);
}

#[test]
fn memmove_copies_apart_ranges() {
    let mut memory = [1u8, 2, 3, 0, 0, 0, 9];
    memmove(&mut memory, 3, 0, 3);
    assert_eq!(memory, [1, 2, 3, 1, 2, 3, 9]);
}

#[test]
fn memmove_upwards_keeps_the_source_bytes() {
    let mut memory = [1u8, 2, 3, 4, 5, 6];
    memmove(&mut memory, 2, 0, 4);
    assert_eq!(memory, [1, 2, 1, 2, 3, 4]);
}

#[test]
fn memmove_downwards_keeps_the_source_bytes() {
    let mut memory = [1u8, 2, 3, 4, 5, 6];
    memmove(&mut memory, 0, 2, 4);
    assert_eq!(memory, [3, 4, 5, 6, 5, 6]);
}

#[test]
fn memmove_of_nothing_changes_nothing() {
    let mut memory = [1u8, 2, 3];
    memmove(&mut memory, 1, 0, 0);
    memmove(&mut memory, 1, 0, -1);
    assert_eq!(memory, [1, 2, 3]);
}

#[test]
fn memcpy_copies_apart_ranges() {
    let mut memory = [1u8, 2, 3, 0, 0, 0, 9];
    memcpy(&mut memory, 3, 0, 3);
    assert_eq!(memory, [1, 2, 3, 1, 2, 3, 9]);
}

#[test]
fn memcpy_downwards_equals_a_move() {
    let mut memory = [1u8, 2, 3, 4, 5, 6];
    memcpy(&mut memory, 0, 2, 4);
    assert_eq!(memory, [3, 4, 5, 6, 5, 6]);
}

#[test]
fn memcpy_upwards_repeats_what_it_wrote() {
    let mut memory = [1u8, 2, 3, 4, 5, 6, 7];
    memcpy(&mut memory, 2, 0, 5);
    assert_eq!(memory, [1, 2, 1, 2, 1, 2, 1]);
    let mut memory = [1u8, 2, 3, 4, 5];
    memcpy(&mut memory, 1, 0, 4);
    assert_eq!(memory, [1, 1, 1, 1, 1]);
}

#[test]
fn memcpy_of_nothing_changes_nothing() {
    let mut memory = [1u8, 2, 3];
    memcpy(&mut memory, 0, 1, 0);
    memcpy(&mut memory, 0, 1, -3);
    assert_eq!(memory, [1, 2, 3]);
}

#[test]
fn memset_fills_the_range_only() {
    let mut memory = [1u8, 2, 3, 4, 5];
    memset(&mut memory, 1, 0x41, 3);
    assert_eq!(memory, [1, 0x41, 0x41, 0x41, 5]);
}

#[test]
fn memset_keeps_the_low_byte_of_the_value() {
    let mut memory = [0u8; 4];
    memset(&mut memory, 0, 0x1234_5641, 2);
    memset(&mut memory, 2, -1, 2);
    assert_eq!(memory, [0x41, 0x41, 0xFF, 0xFF]);
}

#[test]
fn memset_of_nothing_changes_nothing() {
    let mut memory = [1u8, 2, 3];
    memset(&mut memory, 3, 9, 0);
    memset(&mut memory, 0, 9, -2);
    assert_eq!(memory, [1, 2, 3]);
}
