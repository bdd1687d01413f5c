use wrds::error::Error;
use wrds::text::{ProgrammeServiceNameString, RadioTextPlusList, RadioTextString};
use wrds::types::{
    Block1, Block3, Block4, GroupType, GroupVariant, Message, Metadata, ProgrammeServiceName,
    ProgrammeType, RadioText, RadioTextPlusContentType, RadioTextPlusTag,
};

#[test]
fn test_programme_type_try_from() {
    assert_eq!(ProgrammeType::try_from(0).unwrap(), ProgrammeType(0));
    assert_eq!(ProgrammeType::try_from(15).unwrap(), ProgrammeType(15));
    assert!(ProgrammeType::try_from(33).is_err());
}

#[test]
fn test_group_type_try_from() {
    assert_eq!(GroupType::try_from(0).unwrap(), GroupType(0));
    assert_eq!(GroupType::try_from(15).unwrap(), GroupType(15));
    assert!(GroupType::try_from(16).is_err());
}

#[test]
fn test_radio_text_plus_content_type_try_from() {
    assert_eq!(
        RadioTextPlusContentType::try_from(0).unwrap(),
        RadioTextPlusContentType::Dummy
    );
    assert_eq!(
        RadioTextPlusContentType::try_from(53).unwrap(),
        RadioTextPlusContentType::VoteCentre
    );
    assert_eq!(
        RadioTextPlusContentType::try_from(59).unwrap(),
        RadioTextPlusContentType::Place
    );
    assert_eq!(
        RadioTextPlusContentType::try_from(63).unwrap(),
        RadioTextPlusContentType::GetData
    );
    assert!(RadioTextPlusContentType::try_from(54).is_err());
    assert!(RadioTextPlusContentType::try_from(64).is_err());
}

#[test]
fn test_message_new() {
    let msg = Message::new(Some(0x1234), None, Some(0xABCD), Some(0xFFFF));
    assert_eq!(msg.block1, Some(Block1(0x1234)));
    assert_eq!(msg.block2, None);
    assert_eq!(msg.block3, Some(Block3(0xABCD)));
    assert_eq!(msg.block4, Some(Block4(0xFFFF)));
}

#[test]
fn programme_type_is_five_bits() {
    assert_eq!(ProgrammeType::try_from(31), Ok(ProgrammeType(31)));
    assert_eq!(
        ProgrammeType::try_from(32),
        Err(Error::InvalidInput { field: "Programme Type must be a 5-bit value", value: 32 })
    );
    assert_eq!(
        ProgrammeType::try_from(255),
        Err(Error::InvalidInput { field: "Programme Type must be a 5-bit value", value: 255 })
    );
}

#[test]
fn group_type_error_carries_the_value() {
    assert_eq!(
        GroupType::try_from(16),
        Err(Error::InvalidInput { field: "Group Type must be a 4-bit value", value: 16 })
    );
}

#[test]
fn group_variant_from_bit() {
    assert_eq!(GroupVariant::from(false), GroupVariant::A);
    assert_eq!(GroupVariant::from(true), GroupVariant::B);
}

#[test]
fn content_type_codes() {
    assert_eq!(RadioTextPlusContentType::try_from(1), Ok(RadioTextPlusContentType::Title));
    assert_eq!(RadioTextPlusContentType::try_from(4), Ok(RadioTextPlusContentType::Artist));
    assert_eq!(RadioTextPlusContentType::try_from(31), Ok(RadioTextPlusContentType::ShortStationName));
    assert_eq!(RadioTextPlusContentType::try_from(62), Ok(RadioTextPlusContentType::Purchase));
    for code in 54..=58u8 {
        assert_eq!(
            RadioTextPlusContentType::try_from(code),
            Err(Error::InvalidInput {
                field: "RadioTextPlusTag must a value within 0-53, 59-63",
                value: code as u16
            })
        );
    }
    let assigned = (0..=255u8).filter(|c| RadioTextPlusContentType::try_from(*c).is_ok()).count();
    assert_eq!(assigned, 59);
}

#[test]
fn tag_getters_return_what_new_took() {
    let tag = RadioTextPlusTag::new(RadioTextPlusContentType::Weather, 7, 11);
    assert_eq!(tag.content_type(), RadioTextPlusContentType::Weather);
    assert_eq!(tag.start_index(), 7);
    assert_eq!(tag.length(), 11);
}

#[test]
fn name_string_holds_eight_characters_of_any_width() {
    let wide = ['║'; 8];
    let s = ProgrammeServiceNameString::from_chars(&wide).unwrap();
    assert_eq!(ProgrammeServiceName::new(s).as_str(), "║║║║║║║║");
    let widest = ['\u{10FFFF}'; 8];
    let s = ProgrammeServiceNameString::from_chars(&widest).unwrap();
    assert_eq!(ProgrammeServiceName::new(s).as_str().chars().count(), 8);
    assert_eq!(
        ProgrammeServiceNameString::from_chars(&[]),
        Some(ProgrammeServiceNameString::default())
    );
}

#[test]
fn text_capacity_is_256_bytes() {
    assert!(RadioTextString::from_chars(&['→'; 64]).is_some());
    assert!(RadioTextString::from_chars(&['\u{10FFFF}'; 64]).is_some());
    assert!(RadioTextString::from_chars(&['\u{10FFFF}'; 65]).is_none());
    // 85 characters of three bytes fit, 86 do not.
    assert!(RadioTextString::from_chars(&['║'; 85]).is_some());
    assert!(RadioTextString::from_chars(&['║'; 86]).is_none());
    assert!(RadioTextString::from_chars(&['a'; 256]).is_some());
    assert!(RadioTextString::from_chars(&['a'; 257]).is_none());
    let mixed: Vec<char> = "aé║\u{1F3B5}".chars().collect();
    assert_eq!(RadioTextString::from_chars(&mixed).unwrap(), RadioTextString::from_chars(&mixed).unwrap());
    let rt = RadioText::new(RadioTextString::from_chars(&mixed).unwrap(), RadioTextPlusList::new());
    assert_eq!(rt.as_str(), "aé║\u{1F3B5}");
}

#[test]
fn tag_list_holds_sixteen_tags() {
    let tag = RadioTextPlusTag::new(RadioTextPlusContentType::Title, 0, 1);
    let other = RadioTextPlusTag::new(RadioTextPlusContentType::Artist, 2, 3);
    assert!(RadioTextPlusList::from_tags(&[tag; 16]).is_some());
    assert!(RadioTextPlusList::from_tags(&[tag; 17]).is_none());
    let list = RadioTextPlusList::from_tags(&[tag, other]).unwrap();
    let text = RadioTextString::from_chars(&['o', 'k']).unwrap();
    let rt = RadioText::new(text, list);
    assert_eq!(rt.as_str(), "ok");
    assert_eq!(rt.rt_plus_tags(), &[tag, other]);
    assert_eq!(RadioTextPlusList::new(), RadioTextPlusList::from_tags(&[]).unwrap());
}

#[test]
fn default_metadata_is_blank() {
    let m = Metadata::default();
    assert_eq!(m, Metadata { pi: None, pty: None, tp: None, ps: None, rt: None });
}

#[test]
fn clones_hold_the_same_text_and_tags() {
    let tag = RadioTextPlusTag::new(RadioTextPlusContentType::Title, 0, 1);
    let other = RadioTextPlusTag::new(RadioTextPlusContentType::Artist, 2, 3);
    let chars: Vec<char> = "né→".chars().collect();
    let rt = RadioText::new(
        RadioTextString::from_chars(&chars).unwrap(),
        RadioTextPlusList::from_tags(&[tag, other]).unwrap(),
    );
    let copy = rt.clone();
    assert_eq!(copy, rt);
    assert_eq!(copy.as_str(), "né→");
    assert_eq!(copy.rt_plus_tags(), &[tag, other]);
    let name = ProgrammeServiceName::new(ProgrammeServiceNameString::from_chars(&['R'; 8]).unwrap());
    assert_eq!(name.clone().as_str(), "RRRRRRRR");
    let metadata = Metadata { ps: Some(name), rt: Some(rt), ..Default::default() };
    let copy = metadata.clone();
    assert_eq!(copy, metadata);
    assert_eq!(copy.rt.unwrap().rt_plus_tags().len(), 2);
    assert_eq!(Metadata::default().clone(), Metadata::default());
}
