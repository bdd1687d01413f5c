use vstd::prelude::*;

verus! {

/// The byte that the basic RDS character set leaves unassigned.
#[derive(Debug, PartialEq, Eq)]
pub enum RdsCharError {
    InvalidRdsChar(u8),
}

/// Line feed and carriage return: the two control codes that the character set keeps.
pub open spec fn is_rds_control(byte: u8) -> bool {
    byte == 0x0A || byte == 0x0D
}

/// The bytes to which the basic RDS character set assigns a character.
pub open spec fn is_rds_assigned(byte: u8) -> bool {
    is_rds_control(byte) || (0x20 <= byte <= 0xFE && byte != 0x7F)
}

/// The bytes whose character is not the Unicode scalar of the same number:
/// four codes in the ASCII range and the whole upper half of the table.
pub open spec fn is_rds_remapped(byte: u8) -> bool {
    byte == 0x24 || byte == 0x5E || byte == 0x60 || byte == 0x7E || 0x80 <= byte <= 0xFE
}

/// The basic RDS character set (table E.1): the character of each byte, `None` where the
/// table assigns none.
pub open spec fn rds_char(byte: u8) -> Option<char> {
    match byte {
        0x0A => Some('\n'),
        0x0D => Some('\r'),
        0x24 => Some('¤'),
        0x5E => Some('―'),
        0x60 => Some('║'),
        0x7E => Some('¯'),
        0x80 => Some('á'),
        0x81 => Some('à'),
        0x82 => Some('é'),
        0x83 => Some('è'),
        0x84 => Some('í'),
        0x85 => Some('ì'),
        0x86 => Some('ó'),
        0x87 => Some('ò'),
        0x88 => Some('ú'),
        0x89 => Some('ù'),
        0x8A => Some('Ñ'),
        0x8B => Some('Ç'),
        0x8C => Some('Ş'),
        0x8D => Some('ß'),
        0x8E => Some('¡'),
        0x8F => Some('Ĳ'),
        0x90 => Some('â'),
        0x91 => Some('ä'),
        0x92 => Some('ê'),
        0x93 => Some('ë'),
        0x94 => Some('î'),
        0x95 => Some('ï'),
        0x96 => Some('ô'),
        0x97 => Some('ö'),
        0x98 => Some('û'),
        0x99 => Some('ü'),
        0x9A => Some('ñ'),
        0x9B => Some('ç'),
        0x9C => Some('ş'),
        0x9D => Some('ğ'),  // g with breve
        0x9E => Some('ı'),
        0x9F => Some('ĳ'),
        0xA0 => Some('ª'),
        0xA1 => Some('α'),
        0xA2 => Some('©'),
        0xA3 => Some('‰'),
        0xA4 => Some('Ğ'),  // G with breve
        0xA5 => Some('ě'),  // e with caron
        0xA6 => Some('ň'),
        0xA7 => Some('ő'),
        0xA8 => Some('π'),
        0xA9 => Some('€'),
        0xAA => Some('£'),  // pound sign
        0xAB => Some('$'),
        0xAC => Some('←'),
        0xAD => Some('↑'),
        0xAE => Some('→'),
        0xAF => Some('↓'),
        0xB0 => Some('º'),  // masculine ordinal indicator
        0xB1 => Some('¹'),
        0xB2 => Some('²'),
        0xB3 => Some('³'),
        0xB4 => Some('±'),
        0xB5 => Some('İ'),
        0xB6 => Some('ń'),
        0xB7 => Some('ű'),
        0xB8 => Some('µ'),
        0xB9 => Some('¿'),
        0xBA => Some('÷'),
        0xBB => Some('°'),  // degree sign
        0xBC => Some('¼'),
        0xBD => Some('½'),
        0xBE => Some('¾'),
        0xBF => Some('§'),
        0xC0 => Some('Á'),
        0xC1 => Some('À'),
        0xC2 => Some('É'),
        0xC3 => Some('È'),
        0xC4 => Some('Í'),
        0xC5 => Some('Ì'),
        0xC6 => Some('Ó'),
        0xC7 => Some('Ò'),
        0xC8 => Some('Ú'),
        0xC9 => Some('Ù'),
        0xCA => Some('Ř'),
        0xCB => Some('Č'),
        0xCC => Some('Š'),
        0xCD => Some('Ž'),
        0xCE => Some('Ð'),
        0xCF => Some('Ŀ'),
        0xD0 => Some('Â'),
        0xD1 => Some('Ä'),
        0xD2 => Some('Ê'),
        0xD3 => Some('Ë'),
        0xD4 => Some('Î'),
        0xD5 => Some('Ï'),
        0xD6 => Some('Ô'),
        0xD7 => Some('Ö'),
        0xD8 => Some('Û'),
        0xD9 => Some('Ü'),
        0xDA => Some('ř'),
        0xDB => Some('č'),
        0xDC => Some('š'),
        0xDD => Some('ž'),
        0xDE => Some('đ'),
        0xDF => Some('ŀ'),
        0xE0 => Some('Ã'),
        0xE1 => Some('Å'),
        0xE2 => Some('Æ'),
        0xE3 => Some('Œ'),
        0xE4 => Some('ŷ'),
        0xE5 => Some('Ý'),
        0xE6 => Some('Õ'),
        0xE7 => Some('Ø'),
        0xE8 => Some('Þ'),
        0xE9 => Some('Ŋ'),
        0xEA => Some('Ŕ'),
        0xEB => Some('Ć'),
        0xEC => Some('Ś'),
        0xED => Some('Ź'),
        0xEE => Some('Ŧ'),
        0xEF => Some('ð'),
        0xF0 => Some('ã'),
        0xF1 => Some('å'),
        0xF2 => Some('æ'),
        0xF3 => Some('œ'),
        0xF4 => Some('ŵ'),
        0xF5 => Some('ý'),
        0xF6 => Some('õ'),
        0xF7 => Some('ø'),
        0xF8 => Some('þ'),
        0xF9 => Some('ŋ'),
        0xFA => Some('ŕ'),
        0xFB => Some('ć'),
        0xFC => Some('ś'),
        0xFD => Some('ź'),
        0xFE => Some('ŧ'),
        0x7F => None,
        _ => if 0x20 <= byte <= 0xFE {
            Some(byte as char)
        } else {
            None
        },
    }
}

/// No character stands at two places of the table: two bytes with the same character are
/// the same byte.
pub proof fn lemma_rds_char_injective(a: u8, b: u8)
    requires
        rds_char(a) is Some,
        rds_char(a) == rds_char(b),
    ensures
        a == b,
{
}

/// The character written into a text buffer for `byte`: its RDS character, or a space where
/// the table assigns none.
pub open spec fn rds_char_or_space(byte: u8) -> char {
    match rds_char(byte) {
        Some(c) => c,
        None => ' ',
    }
}

/// Translates one byte of the basic RDS character set into its Unicode character.
pub fn to_basic_rds_char(byte: u8) -> (r: Result<char, RdsCharError>)
    ensures
        r == match rds_char(byte) {
            Some(c) => Ok::<char, RdsCharError>(c),
            None => Err(RdsCharError::InvalidRdsChar(byte)),
        },
        r is Ok <==> is_rds_assigned(byte),
        is_rds_assigned(byte) && !is_rds_remapped(byte) ==> r == Ok::<char, RdsCharError>(byte as char),
        r matches Ok(c) ==> c as u32 <= 0xFFFF,
{
    match byte {
        0x0A => Ok('\n'),
        0x0D => Ok('\r'),
        0x24 => Ok('¤'),
        0x5E => Ok('―'),
        0x60 => Ok('║'),
        0x7E => Ok('¯'),
        0x80 => Ok('á'),
        0x81 => Ok('à'),
        0x82 => Ok('é'),
        0x83 => Ok('è'),
        0x84 => Ok('í'),
        0x85 => Ok('ì'),
        0x86 => Ok('ó'),
        0x87 => Ok('ò'),
        0x88 => Ok('ú'),
        0x89 => Ok('ù'),
        0x8A => Ok('Ñ'),
        0x8B => Ok('Ç'),
        0x8C => Ok('Ş'),
        0x8D => Ok('ß'),
        0x8E => Ok('¡'),
        0x8F => Ok('Ĳ'),
        0x90 => Ok('â'),
        0x91 => Ok('ä'),
        0x92 => Ok('ê'),
        0x93 => Ok('ë'),
        0x94 => Ok('î'),
        0x95 => Ok('ï'),
        0x96 => Ok('ô'),
        0x97 => Ok('ö'),
        0x98 => Ok('û'),
        0x99 => Ok('ü'),
        0x9A => Ok('ñ'),
        0x9B => Ok('ç'),
        0x9C => Ok('ş'),
        0x9D => Ok('ğ'),  // g with breve
        0x9E => Ok('ı'),
        0x9F => Ok('ĳ'),
        0xA0 => Ok('ª'),
        0xA1 => Ok('α'),
        0xA2 => Ok('©'),
        0xA3 => Ok('‰'),
        0xA4 => Ok('Ğ'),  // G with breve
        0xA5 => Ok('ě'),  // e with caron
        0xA6 => Ok('ň'),
        0xA7 => Ok('ő'),
        0xA8 => Ok('π'),
        0xA9 => Ok('€'),
        0xAA => Ok('£'),  // pound sign
        0xAB => Ok('$'),
        0xAC => Ok('←'),
        0xAD => Ok('↑'),
        0xAE => Ok('→'),
        0xAF => Ok('↓'),
        0xB0 => Ok('º'),  // masculine ordinal indicator
        0xB1 => Ok('¹'),
        0xB2 => Ok('²'),
        0xB3 => Ok('³'),
        0xB4 => Ok('±'),
        0xB5 => Ok('İ'),
        0xB6 => Ok('ń'),
        0xB7 => Ok('ű'),
        0xB8 => Ok('µ'),
        0xB9 => Ok('¿'),
        0xBA => Ok('÷'),
        0xBB => Ok('°'),  // degree sign
        0xBC => Ok('¼'),
        0xBD => Ok('½'),
        0xBE => Ok('¾'),
        0xBF => Ok('§'),
        0xC0 => Ok('Á'),
        0xC1 => Ok('À'),
        0xC2 => Ok('É'),
        0xC3 => Ok('È'),
        0xC4 => Ok('Í'),
        0xC5 => Ok('Ì'),
        0xC6 => Ok('Ó'),
        0xC7 => Ok('Ò'),
        0xC8 => Ok('Ú'),
        0xC9 => Ok('Ù'),
        0xCA => Ok('Ř'),
        0xCB => Ok('Č'),
        0xCC => Ok('Š'),
        0xCD => Ok('Ž'),
        0xCE => Ok('Ð'),
        0xCF => Ok('Ŀ'),
        0xD0 => Ok('Â'),
        0xD1 => Ok('Ä'),
        0xD2 => Ok('Ê'),
        0xD3 => Ok('Ë'),
        0xD4 => Ok('Î'),
        0xD5 => Ok('Ï'),
        0xD6 => Ok('Ô'),
        0xD7 => Ok('Ö'),
        0xD8 => Ok('Û'),
        0xD9 => Ok('Ü'),
        0xDA => Ok('ř'),
        0xDB => Ok('č'),
        0xDC => Ok('š'),
        0xDD => Ok('ž'),
        0xDE => Ok('đ'),
        0xDF => Ok('ŀ'),
        0xE0 => Ok('Ã'),
        0xE1 => Ok('Å'),
        0xE2 => Ok('Æ'),
        0xE3 => Ok('Œ'),
        0xE4 => Ok('ŷ'),
        0xE5 => Ok('Ý'),
        0xE6 => Ok('Õ'),
        0xE7 => Ok('Ø'),
        0xE8 => Ok('Þ'),
        0xE9 => Ok('Ŋ'),
        0xEA => Ok('Ŕ'),
        0xEB => Ok('Ć'),
        0xEC => Ok('Ś'),
        0xED => Ok('Ź'),
        0xEE => Ok('Ŧ'),
        0xEF => Ok('ð'),
        0xF0 => Ok('ã'),
        0xF1 => Ok('å'),
        0xF2 => Ok('æ'),
        0xF3 => Ok('œ'),
        0xF4 => Ok('ŵ'),
        0xF5 => Ok('ý'),
        0xF6 => Ok('õ'),
        0xF7 => Ok('ø'),
        0xF8 => Ok('þ'),
        0xF9 => Ok('ŋ'),
        0xFA => Ok('ŕ'),
        0xFB => Ok('ć'),
        0xFC => Ok('ś'),
        0xFD => Ok('ź'),
        0xFE => Ok('ŧ'),
        0x7F => Err(RdsCharError::InvalidRdsChar(byte)),
        0x20..=0xFE => Ok(byte as char),
        _ => Err(RdsCharError::InvalidRdsChar(byte)),
    }
}

/// Translates `byte` for a text buffer: an unassigned byte becomes a space.
pub fn to_text_char(byte: u8) -> (c: char)
    ensures
        c == rds_char_or_space(byte),
        c as u32 <= 0xFFFF,
{
    match to_basic_rds_char(byte) {
        Ok(c) => c,
        Err(_) => ' ',
    }
}

} // verus!
