use reg_gen::bitfield::{
    read_field_signed, read_field_unsigned, write_field_signed, write_field_unsigned,
};

// Set an initially-zero word's field and read it back, over every range of
// an 8-bit register and every value that fits the field.
#[test]
fn unsigned_round_trip_exhaustive_8bit() {
    for lsb in 0u8..8 {
        for msb in lsb..8 {
            let width = msb - lsb + 1;
            for v in 0u64..(1u64 << width) {
                let mut word: u64 = 0;
                assert!(write_field_unsigned(&mut word, v, lsb, msb, 8));
                assert_eq!(read_field_unsigned(word, lsb, msb, 8), v);
            }
        }
    }
}

#[test]
fn unsigned_round_trip_wide_registers() {
    let cases: [(u8, u8, u8, u64); 6] = [
        (16, 4, 11, 0xAB),
        (32, 0, 31, 0xDEAD_BEEF),
        (64, 0, 63, 0x0123_4567_89AB_CDEF),
        (64, 63, 63, 1),
        (32, 15, 15, 1),
        (16, 0, 0, 1),
    ];
    for &(size, lsb, msb, v) in cases.iter() {
        let mut word: u64 = 0;
        assert!(write_field_unsigned(&mut word, v, lsb, msb, size));
        assert_eq!(read_field_unsigned(word, lsb, msb, size), v);
    }
}

// The unsigned setter rejects a value at or above 2^width and leaves the
// word exactly as it was.
#[test]
fn unsigned_setter_rejects_too_wide_values() {
    let mut word: u64 = 0x55;
    assert!(!write_field_unsigned(&mut word, 8, 2, 4, 8));
    assert_eq!(word, 0x55);
    assert!(!write_field_unsigned(&mut word, 100, 2, 4, 8));
    assert_eq!(word, 0x55);
    let mut word2: u64 = 0;
    assert!(!write_field_unsigned(&mut word2, 1 << 12, 0, 11, 16));
    assert_eq!(word2, 0);
    // The widest field of a 64-bit register can hold any value.
    let mut word3: u64 = 0;
    assert!(write_field_unsigned(&mut word3, u64::MAX, 0, 63, 64));
    assert_eq!(word3, u64::MAX);
}

// Setting one field of an otherwise-populated word never touches bits
// outside its range, and the field's bits come back as the written value.
#[test]
fn setting_a_field_is_bit_isolated() {
    let mut word: u64 = 0xFFFF_FFFF_FFFF_FFFF;
    assert!(write_field_unsigned(&mut word, 0, 8, 15, 32));
    assert_eq!(word, 0xFFFF_FFFF_FFFF_00FF);
    assert_eq!(read_field_unsigned(word, 8, 15, 32), 0);

    let mut word: u64 = 0xA5A5;
    assert!(write_field_unsigned(&mut word, 0b101, 4, 6, 16));
    // Bits 4..=6 become 101; everything else keeps its value.
    assert_eq!(word & !0b111_0000, 0xA5A5 & !0b111_0000);
    assert_eq!(read_field_unsigned(word, 4, 6, 16), 0b101);

    let mut word: u64 = 0x0F0F_0F0F;
    assert!(write_field_signed(&mut word, -1, 8, 11, 32));
    assert_eq!(word & !0xF00, 0x0F0F_0F0F & !0xF00);
    assert_eq!(read_field_signed(word, 8, 11, 32), -1);
}

// Two's-complement round trip over the whole signed range of a field, and
// rejection with no mutation outside it.
#[test]
fn signed_round_trip_and_bounds() {
    for v in -8i64..8 {
        let mut word: u64 = 0;
        assert!(write_field_signed(&mut word, v, 0, 3, 8));
        assert_eq!(read_field_signed(word, 0, 3, 8), v);
    }
    let mut word: u64 = 0x30;
    assert!(!write_field_signed(&mut word, 8, 0, 3, 8));
    assert_eq!(word, 0x30);
    assert!(!write_field_signed(&mut word, -9, 0, 3, 8));
    assert_eq!(word, 0x30);
}

#[test]
fn signed_full_width_word() {
    let mut word: u64 = 0;
    assert!(write_field_signed(&mut word, i64::MIN, 0, 63, 64));
    assert_eq!(read_field_signed(word, 0, 63, 64), i64::MIN);
    assert!(write_field_signed(&mut word, -1, 0, 63, 64));
    assert_eq!(word, u64::MAX);
    assert_eq!(read_field_signed(word, 0, 63, 64), -1);
    assert!(write_field_signed(&mut word, i64::MAX, 0, 63, 64));
    assert_eq!(read_field_signed(word, 0, 63, 64), i64::MAX);
}

// End-to-end: the 8-bit register with field X on bits [2, 4].
#[test]
fn end_to_end_unsigned_example() {
    let mut word: u64 = 0;
    assert!(write_field_unsigned(&mut word, 7, 2, 4, 8));
    assert_eq!(read_field_unsigned(word, 2, 4, 8), 7);

    let mut word: u64 = 0;
    assert!(!write_field_unsigned(&mut word, 8, 2, 4, 8));
    assert_eq!(read_field_unsigned(word, 2, 4, 8), 0);
}

// End-to-end: a signed field on bits [0, 3] holds -3 exactly; -9 is out of
// range.
#[test]
fn end_to_end_signed_example() {
    let mut word: u64 = 0;
    assert!(write_field_signed(&mut word, -3, 0, 3, 8));
    assert_eq!(read_field_signed(word, 0, 3, 8), -3);
    let mut word: u64 = 0;
    assert!(!write_field_signed(&mut word, -9, 0, 3, 8));
    assert_eq!(word, 0);
}

#[test]
fn signed_boundaries_of_wider_fields() {
    for &(size, lsb, msb) in [(16u8, 3u8, 10u8), (32, 0, 15), (64, 10, 41)].iter() {
        let width = msb - lsb + 1;
        let min = -(1i64 << (width - 1));
        let max = (1i64 << (width - 1)) - 1;
        let mut word: u64 = 0;
        assert!(write_field_signed(&mut word, min, lsb, msb, size));
        assert_eq!(read_field_signed(word, lsb, msb, size), min);
        assert!(write_field_signed(&mut word, max, lsb, msb, size));
        assert_eq!(read_field_signed(word, lsb, msb, size), max);
        assert!(!write_field_signed(&mut word, min - 1, lsb, msb, size));
        assert!(!write_field_signed(&mut word, max + 1, lsb, msb, size));
        assert_eq!(read_field_signed(word, lsb, msb, size), max);
    }
}
