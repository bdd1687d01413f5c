use wrds::decoder::ps_decoder::{PsDecoder, PsDecoderError};
use wrds::text::ProgrammeServiceNameString;
use wrds::types::ProgrammeServiceName;

const PS_SIZE: usize = 8;
const EMPTY_PS: [char; PS_SIZE] = [' '; PS_SIZE];

fn name(text: &str) -> ProgrammeServiceName {
    let chars: Vec<char> = text.chars().collect();
    ProgrammeServiceName::new(ProgrammeServiceNameString::from_chars(&chars).unwrap())
}

#[test]
fn ps_decoder_test_new_decoder_is_empty() {
    let decoder = PsDecoder::new();
    assert_eq!(*decoder.segments(), EMPTY_PS);
    assert!(!decoder.is_complete());
    assert_eq!(decoder.confirmed(), None);
}

#[test]
fn test_push_segment_sets_segments() {
    let mut decoder = PsDecoder::new();
    decoder.push_segment(0, [b'A', b'B']).unwrap();
    assert_eq!(decoder.segments()[0], 'A');
    assert_eq!(decoder.segments()[1], 'B');
    assert!(!decoder.is_complete());
    assert_eq!(decoder.confirmed(), None);
}

#[test]
fn test_confirmed_returns_some_when_complete() {
    let mut decoder = PsDecoder::new();
    let chars = [[b'A', b'B'], [b'C', b'D'], [b'E', b'F'], [b'G', b'H']];
    for (i, pair) in chars.iter().enumerate() {
        decoder.push_segment(i, *pair).unwrap();
    }
    assert!(decoder.is_complete());
    let expected = name("ABCDEFGH");
    assert_eq!(decoder.confirmed(), Some(expected));
}

#[test]
fn test_push_segment_resets_when_full() {
    let mut decoder = PsDecoder::new();
    for i in 0..4 {
        decoder.push_segment(i, [b'X', b'Y']).unwrap();
    }
    assert!(decoder.is_complete());
    // Next push should reset
    decoder.push_segment(0, [b'A', b'B']).unwrap();
    assert_eq!(decoder.segments()[0], 'A');
    assert_eq!(decoder.segments()[1], 'B');
    assert!(!decoder.is_complete());
    assert_eq!(decoder.confirmed(), None);
}

#[test]
fn test_reset_clears_segments_and_bits() {
    let mut decoder = PsDecoder::new();
    for i in 0..4 {
        decoder.push_segment(i, [b'X', b'Y']).unwrap();
    }
    decoder.reset();
    assert_eq!(*decoder.segments(), EMPTY_PS);
    assert!(!decoder.is_complete());
    assert_eq!(decoder.confirmed(), None);
}

#[test]
fn test_push_segment_out_of_bounds_does_nothing() {
    let mut decoder = PsDecoder::new();
    assert_eq!(
        decoder.push_segment(4, [b'A', b'B']),
        Err(PsDecoderError::IndexOutOfBounds(4))
    );
}

#[test]
fn test_push_segment_does_not_reset() {
    let mut decoder = PsDecoder::new();
    let chars = [[b'A', b'B'], [b'C', b'D'], [b'E', b'F'], [b'G', b'H']];
    for (i, pair) in chars.iter().enumerate() {
        decoder.push_segment(i, *pair).unwrap();
    }
    assert!(decoder.is_complete());
    // Next push should not reset
    decoder.push_segment(0, [b'A', b'B']).unwrap();
    let expected = name("ABCDEFGH");
    assert_eq!(decoder.confirmed(), Some(expected));
}

#[test]
fn test_push_invalid_character() {
    let mut decoder = PsDecoder::new();
    assert_eq!(decoder.push_segment(0, [0x1F, b'B']), Ok(()));
    assert_eq!(decoder.push_segment(1, [b'A', 0x01]), Ok(()));
    assert_eq!(decoder.segments()[0], ' ');
    assert_eq!(decoder.segments()[3], ' ');
}

#[test]
fn ps_decoder_test_non_ascii_full_string() {
    let mut decoder = PsDecoder::new();
    for i in 0..(decoder.segments().len() / 2) {
        let _ = decoder.push_segment(i, [0xAE; 2]);
    }
    let expected = {
        let buffer = ['→'; PS_SIZE];
        let ps = ProgrammeServiceNameString::from_chars(&buffer).unwrap();
        ProgrammeServiceName::new(ps)
    };
    assert_eq!(decoder.confirmed(), Some(expected));
}

#[test]
fn out_of_bounds_segment_leaves_the_name_as_it_was() {
    let mut decoder = PsDecoder::new();
    for i in 0..4 {
        decoder.push_segment(i, [b'X', b'Y']).unwrap();
    }
    assert_eq!(
        decoder.push_segment(usize::MAX, [b'A', b'B']),
        Err(PsDecoderError::IndexOutOfBounds(usize::MAX))
    );
    assert_eq!(decoder.confirmed(), Some(name("XYXYXYXY")));
}

#[test]
fn segments_in_any_order_give_the_concatenation() {
    let mut decoder = PsDecoder::new();
    decoder.push_segment(3, [b'G', b'H']).unwrap();
    decoder.push_segment(1, [b'C', b'D']).unwrap();
    decoder.push_segment(1, [b'C', b'D']).unwrap();
    decoder.push_segment(0, [b'A', b'B']).unwrap();
    assert_eq!(decoder.confirmed(), None);
    decoder.push_segment(2, [b'E', b'F']).unwrap();
    let confirmed = decoder.confirmed().unwrap();
    assert_eq!(confirmed.as_str(), "ABCDEFGH");
}

#[test]
fn change_of_name_needs_all_four_segments_again() {
    let mut decoder = PsDecoder::new();
    for i in 0..4 {
        decoder.push_segment(i, [b'X', b'Y']).unwrap();
    }
    decoder.push_segment(2, [b'N', b'E']).unwrap();
    assert_eq!(*decoder.segments(), [' ', ' ', ' ', ' ', 'N', 'E', ' ', ' ']);
    decoder.push_segment(0, [b'O', b'N']).unwrap();
    decoder.push_segment(1, [b'L', b'I']).unwrap();
    assert_eq!(decoder.confirmed(), None);
    decoder.push_segment(3, [b'!', b'!']).unwrap();
    assert_eq!(decoder.confirmed().unwrap().as_str(), "ONLINE!!");
}

#[test]
fn invalid_byte_in_complete_name_counts_as_space() {
    let mut decoder = PsDecoder::new();
    for i in 0..4 {
        decoder.push_segment(i, [b' ', b' ']).unwrap();
    }
    // An unassigned byte is a space, so the name does not change.
    decoder.push_segment(1, [0x00, 0xFF]).unwrap();
    assert_eq!(decoder.confirmed().unwrap().as_str(), "        ");
}
