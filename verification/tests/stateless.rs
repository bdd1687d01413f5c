use wrds::stateless::decode::psaf::{decode_0a, decode_0b};
use wrds::stateless::decode::rt::{decode_2a, decode_2b};
use wrds::stateless::decode::{from_blocks, shared::Shared};
use wrds::stateless::error::Error;
use wrds::stateless::parser::payload::{
    one, zero, Day, DecoderIdentifer, Hour, Interval, Minute, Payload as ParsedPayload,
    ProgramItemNumber, RadioPagingCode, SlowLabelingCode, TransmitterNetworkGroup,
};
use wrds::stateless::parser::{
    Error as ParserError, Parser, ProgramType as ParsedProgramType, RbdsProgramType,
    RdsProgramType, RdsStandard, SharedStructure,
};
use wrds::stateless::types::psaf::{
    AlternativeFreqCode, CharacterSegment, DecoderIdentifierCode, MusicSpeechCode, PsSegment,
    TrafficAnnouncementCode,
};
use wrds::stateless::types::rt::{RadioTextSegment, TextAB, TextAddressCode};
use wrds::stateless::types::{
    GroupType, Payload, ProgramIdentifier, ProgramType, TrafficProgramCode, TwoAPayload,
    TwoBPayload, ZeroAPayload, ZeroBPayload,
};
use wrds::types::{Block1, Block2, Block3, Block4};

#[test]
fn lib_test_gt0() {
    let block1 = Block1(5);
    let block2 = Block2(25);
    let block3 = Block3(55);
    let block4 = Block4(44);

    let message = from_blocks(&block1, &block2, &block3, &block4);
    assert!(message.is_ok());
}

#[test]
fn zero_a() {
    let block2 = Block2(0x0000);
    let block3 = Block3(0x1234);
    let block4 = Block4(0x5678);
    assert_eq!(
        decode_0a(&block2, &block3, &block4),
        ZeroAPayload {
            ta: TrafficAnnouncementCode(false),
            ms: MusicSpeechCode::Speech,
            di: DecoderIdentifierCode(false),
            cs: CharacterSegment(0),
            af: (
                AlternativeFreqCode::Frequency(89300),
                AlternativeFreqCode::Frequency(92700)
            ),
            ps_segment: PsSegment(['V', 'x']),
        }
    )
}

#[test]
fn zero_b() {
    let block2 = Block2(0x0800);
    let block3 = Block3(0x1234);
    let block4 = Block4(0x5678);

    assert_eq!(
        decode_0b(&block2, &block3, &block4),
        ZeroBPayload {
            ta: TrafficAnnouncementCode(false),
            ms: MusicSpeechCode::Speech,
            di: DecoderIdentifierCode(false),
            cs: CharacterSegment(0),
            ps_segment: PsSegment(['V', 'x']),
            pi: ProgramIdentifier(0x1234)
        }
    )
}

#[test]
fn two_a() {
    let block2 = Block2(0x2000);
    let block3 = Block3(0x3234);
    let block4 = Block4(0x5678);

    assert_eq!(
        decode_2a(&block2, &block3, &block4),
        TwoAPayload {
            text_ab: TextAB(false),
            text_addr_code: TextAddressCode(0),
            rt_segment: (RadioTextSegment(['2', '4']), RadioTextSegment(['V', 'x']))
        }
    )
}

#[test]
fn two_b() {
    let block2 = Block2(0x2A00);
    let block3 = Block3(0x3234);
    let block4 = Block4(0x5678);

    assert_eq!(
        decode_2b(&block2, &block3, &block4),
        TwoBPayload {
            text_ab: TextAB(false),
            text_addr_code: TextAddressCode(0),
            rt_segment: RadioTextSegment(['V', 'x']),
            pi: ProgramIdentifier(0x3234)
        }
    )
}

#[test]
fn test_parse() {
    let parser = Parser::new(RdsStandard::Rds);
    let _ = parser;
    assert!(true);
}

#[test]
fn stateless_shared_fields() {
    let shared = Shared::new(&Block1(0xFFFF), &Block2(0xFFFF));
    assert_eq!(
        shared,
        Shared {
            pi: ProgramIdentifier(0xFFFF),
            pty: ProgramType(0x1F),
            group_type: GroupType::FifteenB,
            tp: TrafficProgramCode(true)
        }
    );
    let shared = Shared::new(&Block1(0), &Block2(0));
    assert_eq!(
        shared,
        Shared {
            pi: ProgramIdentifier(0),
            pty: ProgramType(0),
            group_type: GroupType::ZeroA,
            tp: TrafficProgramCode(false)
        }
    );
    let shared = Shared::new(&Block1(0x1234), &Block2(0xBEEF));
    assert_eq!(shared.group_type, GroupType::ElevenB);
    assert_eq!(shared.pty, ProgramType(0x17));
    assert_eq!(shared.tp, TrafficProgramCode(true));
}

#[test]
fn group_type_numbers() {
    assert_eq!(GroupType::n(0), Some(GroupType::ZeroA));
    assert_eq!(GroupType::n(1), Some(GroupType::ZeroB));
    assert_eq!(GroupType::n(4), Some(GroupType::TwoA));
    assert_eq!(GroupType::n(5), Some(GroupType::TwoB));
    assert_eq!(GroupType::n(27), Some(GroupType::ThirteenB));
    assert_eq!(GroupType::n(31), Some(GroupType::FifteenB));
    assert_eq!(GroupType::n(32), None);
    assert_eq!(GroupType::n(255), None);
}

#[test]
fn from_blocks_decodes_groups_0_and_2_only() {
    let ok = from_blocks(&Block1(0xABCD), &Block2(0x0400 | 0x00A0 | 0x1D), &Block3(0xE0CD), &Block4(0x4142))
        .unwrap();
    assert_eq!(ok.pi, ProgramIdentifier(0xABCD));
    assert_eq!(ok.group_type, GroupType::ZeroA);
    assert_eq!(ok.tp, TrafficProgramCode(true));
    assert_eq!(ok.pty, ProgramType(5));
    assert_eq!(
        ok.payload,
        Payload::ZeroA(ZeroAPayload {
            ta: TrafficAnnouncementCode(true),
            ms: MusicSpeechCode::MusicOrUnused,
            di: DecoderIdentifierCode(true),
            cs: CharacterSegment(1),
            af: (AlternativeFreqCode::NoAfExists, AlternativeFreqCode::FillerCode),
            ps_segment: PsSegment(['A', 'B']),
        })
    );
    let two_b = from_blocks(&Block1(1), &Block2(0x2800 | 0x1F), &Block3(0x0001), &Block4(0x6F6B)).unwrap();
    assert_eq!(
        two_b.payload,
        Payload::TwoB(TwoBPayload {
            text_ab: TextAB(true),
            text_addr_code: TextAddressCode(15),
            pi: ProgramIdentifier(1),
            rt_segment: RadioTextSegment(['o', 'k']),
        })
    );
    assert_eq!(
        from_blocks(&Block1(1), &Block2(0x3000), &Block3(0), &Block4(0)),
        Err(Error::Unimplemented(GroupType::ThreeA))
    );
    assert_eq!(
        from_blocks(&Block1(1), &Block2(0xFFFF), &Block3(0), &Block4(0)),
        Err(Error::Unimplemented(GroupType::FifteenB))
    );
    let mut decoded = 0;
    for group in 0..32u16 {
        if from_blocks(&Block1(0), &Block2(group << 11), &Block3(0), &Block4(0)).is_ok() {
            decoded += 1;
        }
    }
    assert_eq!(decoded, 4);
}

#[test]
fn alternative_frequency_codes() {
    assert_eq!(AlternativeFreqCode::from(0), AlternativeFreqCode::NotToBeUsed);
    assert_eq!(AlternativeFreqCode::from(1), AlternativeFreqCode::Frequency(87600));
    assert_eq!(AlternativeFreqCode::from(204), AlternativeFreqCode::Frequency(107900));
    assert_eq!(AlternativeFreqCode::from(205), AlternativeFreqCode::FillerCode);
    assert_eq!(AlternativeFreqCode::from(206), AlternativeFreqCode::NotAssigned);
    assert_eq!(AlternativeFreqCode::from(223), AlternativeFreqCode::NotAssigned);
    assert_eq!(AlternativeFreqCode::from(224), AlternativeFreqCode::NoAfExists);
    assert_eq!(AlternativeFreqCode::from(225), AlternativeFreqCode::AfFollows(1));
    assert_eq!(AlternativeFreqCode::from(249), AlternativeFreqCode::AfFollows(25));
    assert_eq!(AlternativeFreqCode::from(250), AlternativeFreqCode::LfMfFrequencyFollows);
    assert_eq!(AlternativeFreqCode::from(251), AlternativeFreqCode::NotAssigned);
    assert_eq!(AlternativeFreqCode::from(255), AlternativeFreqCode::NotAssigned);
    assert_eq!(MusicSpeechCode::from(true), MusicSpeechCode::MusicOrUnused);
    assert_eq!(MusicSpeechCode::from(false), MusicSpeechCode::Speech);
}

#[test]
fn bytes_above_ascii_are_latin_1_in_the_stateless_decoder() {
    let payload = decode_2a(&Block2(0x2000), &Block3(0xE9FF), &Block4(0x0D00));
    assert_eq!(
        payload.rt_segment,
        (RadioTextSegment(['é', 'ÿ']), RadioTextSegment(['\r', '\0']))
    );
}

#[test]
fn parser_shared_structure_reads_the_standard() {
    // Group number 11, TP set, PTY 23.
    let rds = SharedStructure::new(&RdsStandard::Rds, &0x1234, &0xBEEF).unwrap();
    assert_eq!(rds.pi, ProgramIdentifier(0x1234));
    assert_eq!(rds.group_type, GroupType::FiveB);
    assert!(rds.tp);
    assert_eq!(rds.pty, ParsedProgramType::RDS(RdsProgramType::Leisure));
    let rbds = SharedStructure::new(&RdsStandard::Rbds, &0x1234, &0xBEEF).unwrap();
    assert_eq!(rbds.pty, ParsedProgramType::RBDS(RbdsProgramType::College));
    let unassigned = SharedStructure::new(&RdsStandard::Rbds, &0, &(27 << 5)).unwrap();
    assert_eq!(unassigned.pty, ParsedProgramType::RBDS(RbdsProgramType::Undefined));
    let weather = SharedStructure::new(&RdsStandard::Rbds, &0, &(29 << 5)).unwrap();
    assert_eq!(weather.pty, ParsedProgramType::RBDS(RbdsProgramType::Weather));
}

#[test]
fn rbds_programme_types() {
    assert_eq!(RbdsProgramType::n(26), Some(RbdsProgramType::HipHop));
    assert_eq!(RbdsProgramType::n(27), None);
    assert_eq!(RbdsProgramType::n(28), None);
    assert_eq!(RbdsProgramType::n(29), Some(RbdsProgramType::Weather));
    assert_eq!(RbdsProgramType::n(31), Some(RbdsProgramType::Emergency));
    assert_eq!(RbdsProgramType::n(32), None);
    assert_eq!(RbdsProgramType::try_from(27), Ok(RbdsProgramType::Undefined));
    assert_eq!(RbdsProgramType::try_from(28), Ok(RbdsProgramType::Undefined));
    assert_eq!(RbdsProgramType::try_from(30), Ok(RbdsProgramType::EmergencyTest));
    assert_eq!(
        RbdsProgramType::try_from(32),
        Err(ParserError::InvalidInput { field: "RBDS PTY", value: 32 })
    );
    assert_eq!(RdsProgramType::n(0), Some(RdsProgramType::Undefined));
    assert_eq!(RdsProgramType::n(31), Some(RdsProgramType::Alarm));
    assert_eq!(RdsProgramType::n(32), None);
}

#[test]
fn parser_parses_groups_0_and_1() {
    let parser = Parser::new(RdsStandard::Rds);
    // The group number is read from the four upper bits: 0 is 0A, 1 is 0B, 2 is 1A, 3 is 1B.
    let zero_a = parser.parse(&7, &0x001D, &0x0102, &0x4142).unwrap();
    assert_eq!(zero_a.group_type, GroupType::ZeroA);
    assert_eq!(
        zero_a.payload,
        ParsedPayload::ZeroA(zero::A {
            ta: true,
            ms: MusicSpeechCode::MusicOrUnused,
            di: DecoderIdentifer::from_bits(0b101).unwrap(),
            alternative_freq: (AlternativeFreqCode::Frequency(87600), AlternativeFreqCode::Frequency(87700)),
            ps_segment: ['A', 'B'],
        })
    );
    let zero_b = parser.parse(&7, &0x1000, &7, &0x4142).unwrap();
    assert_eq!(
        zero_b.payload,
        ParsedPayload::ZeroB(zero::B {
            ta: false,
            ms: MusicSpeechCode::Speech,
            di: DecoderIdentifer::from_bits(0).unwrap(),
            ps_segment: ['A', 'B'],
        })
    );
    assert_eq!(
        parser.parse(&7, &0x1000, &8, &0x4142),
        Err(ParserError::InvalidInput { field: "Block3 ProgramIdentifier", value: 8 })
    );
    // Day 3, 23:59.
    let pin = (3 << 11) | (23 << 6) | 59;
    let one_a = parser.parse(&7, &(0x2000 | 0b10110), &0xCAFE, &pin).unwrap();
    assert_eq!(
        one_a.payload,
        ParsedPayload::OneA(one::A {
            radio_paging_code: RadioPagingCode {
                tng: TransmitterNetworkGroup::Seventy99,
                interval: Interval(2),
            },
            slow_labelling_code: SlowLabelingCode(0xCAFE),
            pin: Some(ProgramItemNumber { day: Day(3), hour: Hour(23), minute: Minute(59) }),
        })
    );
    let one_b = parser.parse(&7, &0x3000, &0, &((23 << 6) | 59)).unwrap();
    assert_eq!(one_b.payload, ParsedPayload::OneB(one::B { pin: None }));
    assert_eq!(
        parser.parse(&7, &0x3000, &0, &((3 << 11) | 60)),
        Err(ParserError::InvalidInput { field: "Minute", value: 60 })
    );
    assert_eq!(
        parser.parse(&7, &0x3000, &0, &((3 << 11) | (24 << 6))),
        Err(ParserError::InvalidInput { field: "Hour", value: 24 })
    );
    // A minute out of range is reported before an hour out of range.
    assert_eq!(
        parser.parse(&7, &0x2000, &0, &((24 << 6) | 63)),
        Err(ParserError::InvalidInput { field: "Minute", value: 63 })
    );
    assert_eq!(
        parser.parse(&7, &0x4000, &0, &0),
        Err(ParserError::Unimplemented(GroupType::TwoA))
    );
    assert_eq!(
        parser.parse(&7, &0xF000, &0, &0),
        Err(ParserError::Unimplemented(GroupType::SevenB))
    );
}

#[test]
fn small_fields_check_their_range() {
    assert_eq!(Interval::try_from(3), Ok(Interval(3)));
    assert_eq!(Interval::try_from(4), Err(ParserError::InvalidInput { field: "Interval", value: 4 }));
    assert_eq!(Day::try_from(31), Ok(Day(31)));
    assert_eq!(Day::try_from(32), Err(ParserError::InvalidInput { field: "Day", value: 32 }));
    assert_eq!(Hour::try_from(23), Ok(Hour(23)));
    assert_eq!(Hour::try_from(24), Err(ParserError::InvalidInput { field: "Hour", value: 24 }));
    assert_eq!(Minute::try_from(59), Ok(Minute(59)));
    assert_eq!(Minute::try_from(60), Err(ParserError::InvalidInput { field: "Minute", value: 60 }));
    assert_eq!(
        RadioPagingCode::try_from(0b1_1111),
        Ok(RadioPagingCode { tng: TransmitterNetworkGroup::Twenty39, interval: Interval(3) })
    );
    assert_eq!(
        RadioPagingCode::try_from(0b10_0000),
        Err(ParserError::InvalidInput { field: "RadioPagingCode", value: 32 })
    );
    assert_eq!(TransmitterNetworkGroup::n(0), Some(TransmitterNetworkGroup::NoBasicPaging));
    assert_eq!(TransmitterNetworkGroup::n(8), None);
    assert_eq!(DecoderIdentifer::from_bits(0b1111).map(|d| d.bits()), Some(0b1111));
    assert_eq!(DecoderIdentifer::from_bits(0b1_0000), None);
    assert_eq!(
        ProgramItemNumber::try_from(0xFFFF),
        Err(ParserError::InvalidInput { field: "Minute", value: 63 })
    );
}

#[test]
fn payload_of_a_group_without_decoder_is_not_implemented() {
    // The group type need not be the one in Block 2 where no decoder reads the blocks.
    assert_eq!(
        Payload::new(&GroupType::ThreeA, &Block2(0x0000), &Block3(0), &Block4(0)),
        Err(Error::Unimplemented(GroupType::ThreeA))
    );
    assert_eq!(
        Payload::new(&GroupType::FifteenB, &Block2(0x2000), &Block3(1), &Block4(2)),
        Err(Error::Unimplemented(GroupType::FifteenB))
    );
    assert!(Payload::new(&GroupType::TwoA, &Block2(0x2000), &Block3(1), &Block4(2)).is_ok());
}
