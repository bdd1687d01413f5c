use wrds::decoder::rds_charset::{to_basic_rds_char, RdsCharError};

#[test]
fn test_ascii_printable_range() {
    // Test lower and upper bounds of printable ASCII
    assert_eq!(to_basic_rds_char(0x20), Ok(' '));
    assert_eq!(to_basic_rds_char(0x7E), Ok('¯')); // OVERLINE
    assert_eq!(to_basic_rds_char(0x21), Ok('!'));
    assert_eq!(to_basic_rds_char(0x7D), Ok('}'));
    assert_eq!(to_basic_rds_char(0xFE), Ok('ŧ')); // SMALL_T_STROKE
}

#[test]
fn test_control_characters() {
    assert_eq!(to_basic_rds_char(0x0A), Ok('\n'));
    assert_eq!(to_basic_rds_char(0x0D), Ok('\r'));
}

#[test]
fn test_invalid_characters() {
    // Below printable range
    assert!(matches!(
        to_basic_rds_char(0x00),
        Err(RdsCharError::InvalidRdsChar(0x00))
    ));
    // Unassigned 0x7F
    assert!(matches!(
        to_basic_rds_char(0x7F),
        Err(RdsCharError::InvalidRdsChar(0x7F))
    ));
    // Above defined range
    assert!(matches!(
        to_basic_rds_char(0xFF),
        Err(RdsCharError::InvalidRdsChar(0xFF))
    ));
}

#[test]
fn test_special_mappings() {
    assert_eq!(to_basic_rds_char(0x24), Ok('¤')); // CURRENCY_SIGN
    assert_eq!(to_basic_rds_char(0x5E), Ok('―')); // HORIZONTAL_BAR
    assert_eq!(to_basic_rds_char(0x60), Ok('║')); // DOUBLE_VERTICAL_LINE
    assert_eq!(to_basic_rds_char(0x7E), Ok('¯')); // OVERLINE
}

#[test]
fn test_extended_rds_chars() {
    // Test a few extended mappings
    assert_eq!(to_basic_rds_char(0xF1), Ok('å'));
    assert_eq!(to_basic_rds_char(0xF2), Ok('æ'));
    assert_eq!(to_basic_rds_char(0xF3), Ok('œ'));
    assert_eq!(to_basic_rds_char(0xF4), Ok('ŵ'));
    assert_eq!(to_basic_rds_char(0xF5), Ok('ý'));
    assert_eq!(to_basic_rds_char(0xF6), Ok('õ'));
    assert_eq!(to_basic_rds_char(0xF7), Ok('ø'));
    assert_eq!(to_basic_rds_char(0xF8), Ok('þ'));
    assert_eq!(to_basic_rds_char(0xF9), Ok('ŋ'));
    assert_eq!(to_basic_rds_char(0xFA), Ok('ŕ'));
    assert_eq!(to_basic_rds_char(0xFB), Ok('ć'));
    assert_eq!(to_basic_rds_char(0xFC), Ok('ś'));
    assert_eq!(to_basic_rds_char(0xFD), Ok('ź'));
    assert_eq!(to_basic_rds_char(0xFE), Ok('ŧ'));
}

#[test]
fn degree_sign_and_ordinal_indicator_are_two_characters() {
    assert_eq!(to_basic_rds_char(0xBB), Ok('\u{00B0}'));
    assert_eq!(to_basic_rds_char(0xBB), Ok('°'));
    assert_eq!(to_basic_rds_char(0xB0), Ok('\u{00BA}'));
    assert_eq!(to_basic_rds_char(0xA0), Ok('\u{00AA}'));
    assert_ne!(to_basic_rds_char(0xBB), to_basic_rds_char(0xB0));
}

#[test]
fn look_alike_characters_have_their_own_code_points() {
    assert_eq!(to_basic_rds_char(0xA5), Ok('\u{011B}'));
    assert_eq!(to_basic_rds_char(0xAA), Ok('\u{00A3}'));
    assert_eq!(to_basic_rds_char(0x9D), Ok('\u{011F}'));
    assert_eq!(to_basic_rds_char(0xA4), Ok('\u{011E}'));
    assert_eq!(to_basic_rds_char(0x8D), Ok('\u{00DF}'));
    assert_eq!(to_basic_rds_char(0xA9), Ok('\u{20AC}'));
    assert_eq!(to_basic_rds_char(0xAB), Ok('$'));
    assert_eq!(to_basic_rds_char(0xB8), Ok('\u{00B5}'));
}

#[test]
fn no_character_stands_for_two_bytes() {
    let mut seen: Vec<(char, u8)> = Vec::new();
    let mut assigned = 0;
    for byte in 0..=255u8 {
        if let Ok(c) = to_basic_rds_char(byte) {
            assigned += 1;
            for (other, at) in &seen {
                assert!(*other != c, "{byte:#04x} and {at:#04x} both give {c:?}");
            }
            seen.push((c, byte));
        } else {
            assert_eq!(to_basic_rds_char(byte), Err(RdsCharError::InvalidRdsChar(byte)));
        }
    }
    // Line feed, carriage return, and 0x20 to 0xFE without 0x7F.
    assert_eq!(assigned, 2 + (0xFE - 0x20 + 1) - 1);
}

#[test]
fn unmapped_bytes_keep_their_number() {
    for byte in 0x20..0x7Fu8 {
        if ![0x24, 0x5E, 0x60, 0x7E].contains(&byte) {
            assert_eq!(to_basic_rds_char(byte), Ok(byte as char));
        }
    }
}
