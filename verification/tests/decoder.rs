use wrds::decoder::Decoder;
use wrds::types::{
    Message, Metadata, ProgrammeIdentifier, ProgrammeType, RadioTextPlusContentType,
    RadioTextPlusTag, TrafficProgram,
};

const GROUP_0A: u16 = 0x0000;
const GROUP_2A: u16 = 0x2000;
const GROUP_2B: u16 = 0x2800;
const GROUP_3A: u16 = 0x3000;
const RT_PLUS_AID: u16 = 0x4BD7;

fn pair(a: u8, b: u8) -> u16 {
    u16::from_be_bytes([a, b])
}

/// Block 2 of a Group 3A that binds an application to the slot (`group`, variant B or not).
fn announce(group: u16, variant_b: bool) -> u16 {
    GROUP_3A | (group << 1) | (variant_b as u16)
}

/// The blocks of a RadioText+ group with two tags, each as (content type, start, length).
fn rt_plus(slot: u16, tag1: (u16, u16, u16), tag2: (u16, u16, u16)) -> Message {
    let block2 = slot | (tag1.0 >> 3);
    let block3 = ((tag1.0 & 0b111) << 13) | (tag1.1 << 7) | (tag1.2 << 1) | (tag2.0 >> 5);
    let block4 = ((tag2.0 & 0b1_1111) << 11) | (tag2.1 << 5) | tag2.2;
    Message::new(None, Some(block2), Some(block3), Some(block4))
}

#[test]
fn new_decoder_and_default_decoder_are_blank() {
    let mut decoder = Decoder::new();
    assert_eq!(decoder.decode(&Message::new(None, None, None, None)), Metadata::default());
    let mut decoder = Decoder::default();
    assert_eq!(decoder.decode(&Message::new(None, None, None, None)), Metadata::default());
}

#[test]
fn absent_blocks_leave_the_snapshot_blank() {
    let mut decoder = Decoder::new();
    let message = Message::new(None, None, None, None);
    for _ in 0..100 {
        assert_eq!(decoder.decode(&message), Metadata::default());
    }
}

#[test]
fn absent_blocks_keep_what_was_confirmed() {
    let mut decoder = Decoder::new();
    for _ in 0..6 {
        decoder.decode(&Message::new(Some(0x1234), None, None, None));
    }
    let absent = Message::new(None, None, None, None);
    for _ in 0..20 {
        assert_eq!(decoder.decode(&absent).pi, Some(ProgrammeIdentifier(0x1234)));
    }
}

#[test]
fn blocks_3_and_4_without_block_2_are_ignored() {
    let mut decoder = Decoder::new();
    let message = Message::new(None, None, Some(0x5678), Some(0x4142));
    for _ in 0..10 {
        assert_eq!(decoder.decode(&message), Metadata::default());
    }
}

#[test]
fn pi_stabilizes_after_six_groups() {
    let mut decoder = Decoder::new();
    let message = Message::new(Some(0x1234), None, None, None);
    for _ in 0..5 {
        assert_eq!(decoder.decode(&message), Metadata::default());
    }
    let metadata = decoder.decode(&message);
    assert_eq!(
        metadata,
        Metadata { pi: Some(ProgrammeIdentifier(0x1234)), pty: None, tp: None, ps: None, rt: None }
    );
}

#[test]
fn pi_in_five_of_the_last_six_groups_is_confirmed() {
    let mut decoder = Decoder::new();
    for pi in [0x1234, 0x1234, 0x9999, 0x1234, 0x1234] {
        decoder.decode(&Message::new(Some(pi), None, None, None));
    }
    let metadata = decoder.decode(&Message::new(Some(0x1234), None, None, None));
    assert_eq!(metadata.pi, Some(ProgrammeIdentifier(0x1234)));
    // A second outlier within the window takes the confirmation away again.
    let metadata = decoder.decode(&Message::new(Some(0x1235), None, None, None));
    assert_eq!(metadata.pi, None);
}

#[test]
fn five_groups_in_a_window_that_is_not_full_confirm_nothing() {
    let mut decoder = Decoder::new();
    for _ in 0..5 {
        decoder.decode(&Message::new(Some(0x1234), None, None, None));
    }
    let metadata = decoder.decode(&Message::new(None, None, None, None));
    assert_eq!(metadata.pi, None);
}

#[test]
fn three_distinct_pi_in_the_window_confirm_nothing() {
    let mut decoder = Decoder::new();
    for pi in [1, 1, 1, 1, 2, 3] {
        decoder.decode(&Message::new(Some(pi), None, None, None));
    }
    let metadata = decoder.decode(&Message::new(None, None, None, None));
    assert_eq!(metadata.pi, None);
}

#[test]
fn two_distinct_pi_in_the_window_can_still_confirm() {
    let mut decoder = Decoder::new();
    for pi in [1, 1, 1, 1, 1, 2] {
        decoder.decode(&Message::new(Some(pi), None, None, None));
    }
    let metadata = decoder.decode(&Message::new(None, None, None, None));
    assert_eq!(metadata.pi, Some(ProgrammeIdentifier(1)));
}

#[test]
fn variant_b_block_3_is_a_pi_candidate() {
    let mut decoder = Decoder::new();
    let message = Message::new(None, Some(0xBEEF), Some(0x5678), None);
    for _ in 0..5 {
        assert_eq!(decoder.decode(&message).pi, None);
    }
    let metadata = decoder.decode(&message);
    assert_eq!(
        metadata,
        Metadata {
            pi: Some(ProgrammeIdentifier(0x5678)),
            pty: Some(ProgrammeType(0x17)),
            tp: Some(TrafficProgram(true)),
            ps: None,
            rt: None
        }
    );
}

#[test]
fn variant_b_gives_two_pi_candidates_per_group() {
    let mut decoder = Decoder::new();
    // Block 1 and Block 3 agree: three groups fill the window of six.
    let message = Message::new(Some(0x5678), Some(0xBEEF), Some(0x5678), None);
    decoder.decode(&message);
    assert_eq!(decoder.decode(&message).pi, None);
    assert_eq!(decoder.decode(&message).pi, Some(ProgrammeIdentifier(0x5678)));
    // Block 1 and Block 3 disagree: the window alternates and nothing is confirmed.
    let mut decoder = Decoder::new();
    let message = Message::new(Some(0x1111), Some(0xBEEF), Some(0x5678), None);
    for _ in 0..12 {
        assert_eq!(decoder.decode(&message).pi, None);
    }
}

#[test]
fn variant_a_block_3_is_no_pi_candidate() {
    let mut decoder = Decoder::new();
    // Group 11A.
    let message = Message::new(None, Some(0xB6EF), Some(0x5678), None);
    for _ in 0..10 {
        assert_eq!(decoder.decode(&message).pi, None);
    }
}

#[test]
fn full_ps_from_four_groups() {
    let mut decoder = Decoder::new();
    let segments = [(0, b'A', b'B'), (1, b'C', b'D'), (2, b'E', b'F'), (3, b'G', b'H')];
    let mut last = Metadata::default();
    for round in 0..2 {
        for (index, a, b) in segments {
            last = decoder.decode(&Message::new(None, Some(GROUP_0A | index), None, Some(pair(a, b))));
            if round == 0 && index < 3 {
                assert_eq!(last.ps, None);
            }
        }
    }
    assert_eq!(last.ps.as_ref().unwrap().as_str(), "ABCDEFGH");
    assert_eq!(last.pty, Some(ProgrammeType(0)));
    assert_eq!(last.tp, Some(TrafficProgram(false)));
    assert_eq!(last.pi, None);
    assert_eq!(last.rt, None);
}

#[test]
fn ps_segment_without_block_4_is_skipped() {
    let mut decoder = Decoder::new();
    for index in 0..3 {
        decoder.decode(&Message::new(None, Some(GROUP_0A | index), None, Some(pair(b'A', b'B'))));
    }
    let metadata = decoder.decode(&Message::new(None, Some(GROUP_0A | 3), Some(0x4142), None));
    assert_eq!(metadata.ps, None);
    let metadata = decoder.decode(&Message::new(None, Some(GROUP_0A | 3), None, Some(pair(b'A', b'B'))));
    assert_eq!(metadata.ps.unwrap().as_str(), "ABABABAB");
}

#[test]
fn group_0b_carries_ps_too() {
    let mut decoder = Decoder::new();
    let mut last = Metadata::default();
    for index in 0..4 {
        last = decoder.decode(&Message::new(None, Some(0x0800 | index), Some(0x1234), Some(pair(b'o', b'k'))));
    }
    assert_eq!(last.ps.unwrap().as_str(), "okokokok");
}

#[test]
fn rt_early_termination() {
    let mut decoder = Decoder::new();
    let toggle = 0x10;
    let metadata = decoder.decode(&Message::new(
        None,
        Some(GROUP_2A | toggle),
        Some(pair(b'H', b'I')),
        Some(pair(b'\r', b' ')),
    ));
    let rt = metadata.rt.unwrap();
    assert_eq!(rt.as_str(), "HI");
    assert_eq!(rt.rt_plus_tags(), &[]);
    for index in 1..4 {
        let metadata = decoder.decode(&Message::new(
            None,
            Some(GROUP_2A | toggle | index),
            Some(pair(b' ', b' ')),
            Some(pair(b' ', b' ')),
        ));
        assert_eq!(metadata.rt.unwrap().as_str(), "HI");
    }
}

#[test]
fn rt_a_needs_blocks_3_and_4() {
    let mut decoder = Decoder::new();
    let metadata = decoder.decode(&Message::new(None, Some(GROUP_2A), None, Some(pair(b'\r', b' '))));
    assert_eq!(metadata.rt, None);
    let metadata = decoder.decode(&Message::new(None, Some(GROUP_2A), Some(pair(b'\r', b' ')), None));
    assert_eq!(metadata.rt, None);
}

#[test]
fn rt_b_takes_two_characters_from_block_4() {
    let mut decoder = Decoder::new();
    let metadata = decoder.decode(&Message::new(None, Some(GROUP_2B | 1), None, Some(pair(b'!', b'\r'))));
    assert_eq!(metadata.rt, None);
    let metadata = decoder.decode(&Message::new(None, Some(GROUP_2B), Some(0x1234), Some(pair(b'Y', b'O'))));
    assert_eq!(metadata.rt.unwrap().as_str(), "YO!");
}

#[test]
fn full_rt_of_sixteen_segments() {
    let mut decoder = Decoder::new();
    let mut last = Metadata::default();
    let mut expected = String::new();
    for index in 0..16u16 {
        let a = b'a' + index as u8;
        last = decoder.decode(&Message::new(
            None,
            Some(GROUP_2A | index),
            Some(pair(a, b'1')),
            Some(pair(b'2', b'3')),
        ));
        expected.push(a as char);
        expected.push_str("123");
        if index < 15 {
            assert_eq!(last.rt, None);
        }
    }
    assert_eq!(last.rt.unwrap().as_str(), expected);
    assert_eq!(expected.len(), 64);
}

#[test]
fn oda_binds_rt_plus_and_tags_come_with_the_text() {
    let mut decoder = Decoder::new();
    decoder.decode(&Message::new(None, Some(0x3016), Some(0), Some(RT_PLUS_AID)));
    // Title from 0 with length 3, artist from 5 with length 4, in a group 11A.
    let tags = Message::new(None, Some(0xB000), Some(0x2006), Some(0x20A4));
    assert_eq!(tags, rt_plus(0xB000, (1, 0, 3), (4, 5, 4)));
    let metadata = decoder.decode(&tags);
    assert_eq!(metadata.rt, None);
    let metadata = decoder.decode(&Message::new(
        None,
        Some(GROUP_2A | 0x10),
        Some(pair(b'H', b'I')),
        Some(pair(b'\r', b' ')),
    ));
    let rt = metadata.rt.unwrap();
    assert_eq!(rt.as_str(), "HI");
    assert_eq!(
        rt.rt_plus_tags(),
        &[
            RadioTextPlusTag::new(RadioTextPlusContentType::Title, 0, 3),
            RadioTextPlusTag::new(RadioTextPlusContentType::Artist, 5, 4),
        ]
    );
}

#[test]
fn rt_plus_group_in_an_unbound_slot_is_ignored() {
    let mut decoder = Decoder::new();
    decoder.decode(&rt_plus(0xB000, (1, 0, 3), (4, 5, 4)));
    let metadata = decoder.decode(&Message::new(
        None,
        Some(GROUP_2A),
        Some(pair(b'H', b'I')),
        Some(pair(b'\r', b' ')),
    ));
    assert_eq!(metadata.rt.unwrap().rt_plus_tags(), &[]);
}

#[test]
fn unknown_aid_binds_nothing() {
    let mut decoder = Decoder::new();
    decoder.decode(&Message::new(None, Some(announce(11, false)), Some(0), Some(0x4BD8)));
    decoder.decode(&rt_plus(0xB000, (1, 0, 3), (4, 5, 4)));
    let metadata = decoder.decode(&Message::new(
        None,
        Some(GROUP_2A),
        Some(pair(b'H', b'I')),
        Some(pair(b'\r', b' ')),
    ));
    assert_eq!(metadata.rt.unwrap().rt_plus_tags(), &[]);
}

#[test]
fn announcement_needs_blocks_3_and_4_and_an_oda_slot() {
    // Block 3 is missing.
    let mut decoder = Decoder::new();
    decoder.decode(&Message::new(None, Some(announce(11, false)), None, Some(RT_PLUS_AID)));
    decoder.decode(&rt_plus(0xB000, (1, 0, 3), (4, 5, 4)));
    let text = Message::new(None, Some(GROUP_2A), Some(pair(b'H', b'I')), Some(pair(b'\r', b' ')));
    assert_eq!(decoder.decode(&text).rt.unwrap().rt_plus_tags(), &[]);
    // The slot 10A is not left to applications, the slot 10B is.
    let mut decoder = Decoder::new();
    decoder.decode(&Message::new(None, Some(announce(10, false)), Some(0), Some(RT_PLUS_AID)));
    decoder.decode(&rt_plus(0xA000, (1, 0, 3), (4, 5, 4)));
    assert_eq!(decoder.decode(&text).rt.unwrap().rt_plus_tags(), &[]);
    decoder.decode(&Message::new(None, Some(announce(10, true)), Some(0), Some(RT_PLUS_AID)));
    decoder.decode(&rt_plus(0xA800, (1, 0, 3), (4, 5, 4)));
    assert_eq!(decoder.decode(&text).rt.unwrap().rt_plus_tags().len(), 2);
}

#[test]
fn fifth_oda_slot_is_dropped() {
    let mut decoder = Decoder::new();
    for group in [5, 6, 7, 8, 9] {
        decoder.decode(&Message::new(None, Some(announce(group, false)), Some(0), Some(RT_PLUS_AID)));
    }
    let text = Message::new(None, Some(GROUP_2A), Some(pair(b'H', b'I')), Some(pair(b'\r', b' ')));
    // Group 9A came fifth: its groups carry no tags.
    decoder.decode(&rt_plus(0x9000, (1, 0, 3), (4, 5, 4)));
    assert_eq!(decoder.decode(&text).rt.unwrap().rt_plus_tags(), &[]);
    // Group 8A came fourth.
    decoder.decode(&rt_plus(0x8000, (2, 1, 2), (3, 4, 5)));
    assert_eq!(
        decoder.decode(&text).rt.unwrap().rt_plus_tags(),
        &[
            RadioTextPlusTag::new(RadioTextPlusContentType::Album, 1, 2),
            RadioTextPlusTag::new(RadioTextPlusContentType::TrackNumber, 4, 5),
        ]
    );
    // A slot that is bound can be announced again.
    decoder.decode(&Message::new(None, Some(announce(5, false)), Some(0), Some(RT_PLUS_AID)));
    decoder.decode(&rt_plus(0x5000, (1, 0, 3), (4, 5, 4)));
    assert_eq!(decoder.decode(&text).rt.unwrap().rt_plus_tags()[0].content_type(), RadioTextPlusContentType::Title);
}

#[test]
fn rt_plus_group_with_unassigned_content_type_is_dropped() {
    let mut decoder = Decoder::new();
    decoder.decode(&Message::new(None, Some(announce(11, false)), Some(0), Some(RT_PLUS_AID)));
    decoder.decode(&rt_plus(0xB000, (1, 0, 3), (4, 5, 4)));
    for bad in 54..=58 {
        decoder.decode(&rt_plus(0xB000, (bad, 1, 1), (2, 1, 1)));
        decoder.decode(&rt_plus(0xB000, (2, 1, 1), (bad, 1, 1)));
    }
    // Blocks 3 and 4 are both needed.
    decoder.decode(&Message::new(None, Some(0xB000), Some(0x4000), None));
    decoder.decode(&Message::new(None, Some(0xB000), None, Some(0x4000)));
    let text = Message::new(None, Some(GROUP_2A), Some(pair(b'H', b'I')), Some(pair(b'\r', b' ')));
    assert_eq!(
        decoder.decode(&text).rt.unwrap().rt_plus_tags(),
        &[
            RadioTextPlusTag::new(RadioTextPlusContentType::Title, 0, 3),
            RadioTextPlusTag::new(RadioTextPlusContentType::Artist, 5, 4),
        ]
    );
}

#[test]
fn rt_plus_fields_at_their_limits() {
    let mut decoder = Decoder::new();
    decoder.decode(&Message::new(None, Some(announce(12, true)), Some(0), Some(RT_PLUS_AID)));
    // Start 63 and length 63 in the first tag: the end of the tag lies beyond the message.
    decoder.decode(&rt_plus(0xC800, (63, 63, 63), (59, 63, 31)));
    let text = Message::new(None, Some(GROUP_2A), Some(pair(b'H', b'I')), Some(pair(b'\r', b' ')));
    assert_eq!(
        decoder.decode(&text).rt.unwrap().rt_plus_tags(),
        &[
            RadioTextPlusTag::new(RadioTextPlusContentType::GetData, 63, 63),
            RadioTextPlusTag::new(RadioTextPlusContentType::Place, 63, 31),
        ]
    );
}

#[test]
fn reset_returns_to_the_blank_state() {
    let mut decoder = Decoder::new();
    for _ in 0..6 {
        decoder.decode(&Message::new(Some(0x1234), Some(0xBEEF), Some(0x1234), None));
    }
    decoder.decode(&Message::new(None, Some(announce(11, false)), Some(0), Some(RT_PLUS_AID)));
    decoder.decode(&rt_plus(0xB000, (1, 0, 3), (4, 5, 4)));
    for index in 0..4 {
        decoder.decode(&Message::new(None, Some(GROUP_0A | index), None, Some(pair(b'A', b'B'))));
    }
    let text = Message::new(None, Some(GROUP_2A), Some(pair(b'H', b'I')), Some(pair(b'\r', b' ')));
    let metadata = decoder.decode(&text);
    assert!(metadata.pi.is_some() && metadata.pty.is_some() && metadata.tp.is_some());
    assert!(metadata.ps.is_some() && metadata.rt.is_some());
    decoder.reset();
    assert_eq!(decoder.decode(&Message::new(None, None, None, None)), Metadata::default());
    // The registry is empty again: the slot 11A carries no tags.
    decoder.decode(&rt_plus(0xB000, (1, 0, 3), (4, 5, 4)));
    assert_eq!(decoder.decode(&text).rt.unwrap().rt_plus_tags(), &[]);
    // The filters start over: two groups with Block 2 have come since the reset.
    for _ in 0..3 {
        assert_eq!(decoder.decode(&text).pty, None);
    }
    assert_eq!(decoder.decode(&text).pty, Some(ProgrammeType(0)));
}

#[test]
fn other_groups_are_ignored() {
    let mut decoder = Decoder::new();
    for block2 in [0x1000u16, 0x4000, 0x7800, 0xF800] {
        let metadata = decoder.decode(&Message::new(None, Some(block2), Some(0x4142), Some(0x0D0D)));
        assert_eq!(metadata.ps, None);
        assert_eq!(metadata.rt, None);
    }
}
