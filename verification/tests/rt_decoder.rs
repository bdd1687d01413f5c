use wrds::decoder::rt_decoder::{Group, RtDecoder};
use wrds::text::{RadioTextPlusList, RadioTextString};
use wrds::types::{RadioText, RadioTextPlusContentType, RadioTextPlusTag};

const MAX_RT_LENGTH: usize = 64;
const EMPTY_RT: [char; MAX_RT_LENGTH] = [' '; MAX_RT_LENGTH];
const NUM_SEGMENTS: usize = 16;

fn radio_text(text: &str) -> RadioText {
    let chars: Vec<char> = text.chars().collect();
    RadioText::new(RadioTextString::from_chars(&chars).unwrap(), RadioTextPlusList::new())
}

#[test]
fn rt_decoder_test_new_decoder_is_empty() {
    let decoder = RtDecoder::new();
    assert_eq!(decoder.current_group(), None);
    assert_eq!(decoder.text_ab(), None);
    assert_eq!(decoder.early_idx(), None);
    assert_eq!(*decoder.buffer(), EMPTY_RT);
    assert_eq!(decoder.confirmed(), None);
}

#[test]
fn test_push_segment_a_and_confirmed_full() {
    let mut decoder = RtDecoder::new();
    let text_ab = true;
    let chars = [b'T', b'E', b'S', b'T'];
    for i in 0..NUM_SEGMENTS {
        decoder.push_segment_a(i, chars, text_ab);
    }
    let expected_text = String::from("TEST".repeat(NUM_SEGMENTS));
    let expected = radio_text(&expected_text);
    assert_eq!(decoder.confirmed(), Some(expected));
}

#[test]
fn test_push_segment_b_and_confirmed_full() {
    let mut decoder = RtDecoder::new();
    let text_ab = false;
    let chars = [b'O', b'K'];
    for i in 0..NUM_SEGMENTS {
        decoder.push_segment_b(i, chars, text_ab);
    }
    let expected_text = String::from("OK".repeat(NUM_SEGMENTS));
    let expected = radio_text(&expected_text);
    assert_eq!(decoder.confirmed(), Some(expected));
}

#[test]
fn test_early_return_truncates_text() {
    let mut decoder = RtDecoder::new();
    let text_ab = true;
    // Fill first 3 segments, then insert EARLY_RETURN in the 4th
    for i in 0..3 {
        decoder.push_segment_a(i, [b'A', b'B', b'C', b'D'], text_ab);
    }
    decoder.push_segment_a(3, [b'E', b'F', b'\r', b'H'], text_ab);
    // Fill remaining segments (should be ignored)
    for i in 4..NUM_SEGMENTS {
        decoder.push_segment_a(i, [b'X', b'X', b'X', b'X'], text_ab);
    }
    let expected_text = String::from("ABCDABCDABCDEF"); // Up to EARLY_RETURN
    // Confirmed should only include up to the early return
    let expected = radio_text(&expected_text);
    // Confirmed should only be available if all segments up to early_idx are received
    assert_eq!(decoder.confirmed(), Some(expected));
}

#[test]
fn test_invalid_characters_are_replaced_with_space() {
    let mut decoder = RtDecoder::new();
    let text_ab = false;
    let invalid = [0xFF, 0x02, b'A', b'B'];
    decoder.push_segment_a(0, invalid, text_ab);
    let mut expected = [' '; MAX_RT_LENGTH];
    expected[0] = ' ';
    expected[1] = ' ';
    expected[2] = 'A';
    expected[3] = 'B';
    assert_eq!(&decoder.buffer()[..4], &expected[..4]);
}

#[test]
fn test_reset_on_text_ab_change() {
    let mut decoder = RtDecoder::new();
    decoder.push_segment_a(0, [b'A', b'B', b'C', b'D'], true);
    assert_eq!(decoder.text_ab(), Some(true));
    decoder.push_segment_a(1, [b'E', b'F', b'G', b'H'], false);
    assert_eq!(decoder.text_ab(), Some(false));
    // After reset, only segment 1 should be set
    assert_eq!(&decoder.buffer()[..4], &[' '; 4]);
    assert_eq!(&decoder.buffer()[4..8], &['E', 'F', 'G', 'H']);
}

#[test]
fn test_confirmed_none_if_not_all_segments_received() {
    let mut decoder = RtDecoder::new();
    decoder.push_segment_a(0, [b'A', b'B', b'C', b'D'], true);
    // Only one segment, not enough for confirmation
    assert_eq!(decoder.confirmed(), None);
}

#[test]
fn test_reset() {
    let mut decoder = RtDecoder::new();
    decoder.push_segment_a(0, [b'A', b'B', b'C', b'D'], true);
    decoder.reset();
    assert_eq!(decoder.current_group(), None);
    assert_eq!(decoder.text_ab(), None);
    assert_eq!(decoder.early_idx(), None);
    assert_eq!(*decoder.buffer(), EMPTY_RT);
    assert_eq!(decoder.confirmed(), None);
}

#[test]
fn test_override_early_return() {
    let mut decoder = RtDecoder::new();
    let text_ab = true;
    decoder.push_segment_a(0, [b'A', b'B', b'\r', b'D'], text_ab);
    assert_eq!(decoder.early_idx(), Some(2));
    assert_eq!(decoder.confirmed(), Some(radio_text("AB")));
    // Override EARLY_RETURN with valid character
    decoder.push_segment_a(0, [b'A', b'B', b'C', b'D'], text_ab);
    assert_eq!(decoder.early_idx(), None);
    let expected = ['A', 'B', 'C', 'D'];
    assert_eq!(&decoder.buffer()[..4], &expected);
}

#[test]
fn rt_decoder_test_non_ascii_full_string() {
    let mut decoder = RtDecoder::new();
    for i in 0..NUM_SEGMENTS {
        decoder.push_segment_a(i, [0xAE; 4], true);
    }
    let expected = {
        let buffer = ['→'; MAX_RT_LENGTH];
        String::from_iter(buffer.iter())
    };
    assert_eq!(decoder.confirmed(), Some(radio_text(&expected)));
}

#[test]
fn first_segment_pins_group_and_flag() {
    let mut decoder = RtDecoder::new();
    decoder.push_segment_b(5, [b'A', b'B'], false);
    assert_eq!(decoder.current_group(), Some(Group::B));
    assert_eq!(decoder.text_ab(), Some(false));
    assert_eq!(&decoder.buffer()[10..12], &['A', 'B']);
    // Same flag: the group stays pinned, the segment is written at its own width.
    decoder.push_segment_a(0, [b'W', b'X', b'Y', b'Z'], false);
    assert_eq!(decoder.current_group(), Some(Group::B));
    assert_eq!(&decoder.buffer()[..4], &['W', 'X', 'Y', 'Z']);
    assert_eq!(&decoder.buffer()[10..12], &['A', 'B']);
}

#[test]
fn flag_change_clears_early_end_and_segments() {
    let mut decoder = RtDecoder::new();
    decoder.push_segment_a(0, [b'H', b'I', b'\r', b' '], true);
    assert_eq!(decoder.confirmed(), Some(radio_text("HI")));
    decoder.push_segment_a(1, [b'N', b'E', b'W', b'S'], false);
    assert_eq!(decoder.early_idx(), None);
    assert_eq!(decoder.current_group(), Some(Group::A));
    assert_eq!(decoder.confirmed(), None);
}

#[test]
fn early_end_in_later_segment_needs_the_segments_before_it() {
    let mut decoder = RtDecoder::new();
    decoder.push_segment_a(2, [b'!', b'\r', b' ', b' '], true);
    assert_eq!(decoder.early_idx(), Some(9));
    assert_eq!(decoder.confirmed(), None);
    decoder.push_segment_a(0, [b'G', b'O', b'O', b'D'], true);
    assert_eq!(decoder.confirmed(), None);
    decoder.push_segment_a(1, [b' ', b'D', b'A', b'Y'], true);
    assert_eq!(decoder.confirmed(), Some(radio_text("GOOD DAY!")));
}

#[test]
fn early_end_at_position_zero_confirms_empty_text() {
    let mut decoder = RtDecoder::new();
    decoder.push_segment_b(0, [b'\r', b'x'], true);
    assert_eq!(decoder.confirmed(), Some(radio_text("")));
}

#[test]
fn group_b_needs_sixteen_segments_of_two() {
    let mut decoder = RtDecoder::new();
    for i in 0..15 {
        decoder.push_segment_b(i, [b'a', b'b'], true);
    }
    assert_eq!(decoder.confirmed(), None);
    decoder.push_segment_b(15, [b'y', b'z'], true);
    let mut expected = "ab".repeat(15);
    expected.push_str("yz");
    assert_eq!(decoder.confirmed(), Some(radio_text(&expected)));
}

#[test]
fn early_end_past_the_width_of_group_b_is_never_confirmed() {
    let mut decoder = RtDecoder::new();
    decoder.push_segment_b(0, [b'a', b'b'], true);
    for i in 0..15 {
        decoder.push_segment_a(i, [b'a', b'b', b'c', b'd'], true);
    }
    // Group B stays pinned; a carriage return at position 63 asks for 31 segments.
    decoder.push_segment_a(15, [b'a', b'b', b'c', b'\r'], true);
    assert_eq!(decoder.early_idx(), Some(63));
    assert_eq!(decoder.confirmed(), None);
}

#[test]
fn tags_replace_each_other_and_come_with_the_text() {
    let mut decoder = RtDecoder::new();
    let title = RadioTextPlusTag::new(RadioTextPlusContentType::Title, 0, 3);
    let artist = RadioTextPlusTag::new(RadioTextPlusContentType::Artist, 5, 4);
    let album = RadioTextPlusTag::new(RadioTextPlusContentType::Album, 1, 2);
    decoder.push_rt_plus_tags(album, album);
    decoder.push_rt_plus_tags(title, artist);
    assert_eq!(decoder.confirmed(), None);
    decoder.push_segment_a(0, [b'H', b'I', b'\r', b' '], true);
    let confirmed = decoder.confirmed().unwrap();
    assert_eq!(confirmed.as_str(), "HI");
    assert_eq!(confirmed.rt_plus_tags(), &[title, artist]);
    // A new message keeps the tags; a reset drops them.
    decoder.push_segment_a(0, [b'Y', b'O', b'\r', b' '], false);
    assert_eq!(decoder.confirmed().unwrap().rt_plus_tags(), &[title, artist]);
    decoder.reset();
    decoder.push_segment_a(0, [b'Y', b'O', b'\r', b' '], false);
    assert_eq!(decoder.confirmed().unwrap().rt_plus_tags(), &[]);
}
