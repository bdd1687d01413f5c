use wrds::bits::{be_bytes, bits, flag};

#[test]
fn bits_reads_a_field() {
    assert_eq!(bits(0xBEEF, 12, 4), 0xB);
    assert_eq!(bits(0xBEEF, 5, 5), 0x17);
    assert_eq!(bits(0xBEEF, 0, 8), 0xEF);
    assert_eq!(bits(0xBEEF, 8, 8), 0xBE);
    assert_eq!(bits(0xFFFF, 15, 1), 1);
    assert_eq!(bits(0xFFFF, 15, 8), 1);
    assert_eq!(bits(0x0000, 3, 6), 0);
}

#[test]
fn flag_reads_one_bit() {
    assert!(flag(0x0400, 10));
    assert!(!flag(0x0400, 9));
    assert!(!flag(0x0400, 11));
    assert!(flag(0x8000, 15));
    assert!(flag(0x0001, 0));
}

#[test]
fn be_bytes_puts_the_high_byte_first() {
    assert_eq!(be_bytes(0x1234), [0x12, 0x34]);
    assert_eq!(be_bytes(0x00FF), [0x00, 0xFF]);
    assert_eq!(be_bytes(0xFF00), 0xFF00u16.to_be_bytes());
}
