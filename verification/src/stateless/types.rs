//! Types of the stateless group decoder.
use vstd::prelude::*;

pub mod psaf;
pub mod rt;

verus! {

/// Predefined Program Type to identify different type of
/// programming by genre.
#[derive(Clone, Copy, Debug, PartialEq, Eq, Structural)]
pub struct ProgramType(pub u8);

/// Unique code that identifies the station.
#[derive(Clone, Copy, Debug, PartialEq, Eq, Structural)]
pub struct ProgramIdentifier(pub u16);

/// Identifies whether the station broadcasts traffic announcements.
#[derive(Clone, Copy, Debug, PartialEq, Eq, Structural)]
pub struct TrafficProgramCode(pub bool);

/// RDS Message Group Type
/// The B0 bit-field is added as the LSB.
#[derive(Clone, Copy, Debug, PartialEq, Eq, Structural)]
pub enum GroupType {
    ZeroA,
    ZeroB,
    OneA,
    OneB,
    TwoA,
    TwoB,
    ThreeA,
    ThreeB,
    FourA,
    FourB,
    FiveA,
    FiveB,
    SixA,
    SixB,
    SevenA,
    SevenB,
    EightA,
    EightB,
    NineA,
    NineB,
    TenA,
    TenB,
    ElevenA,
    ElevenB,
    TwelveA,
    TwelveB,
    ThirteenA,
    ThirteenB,
    FourteenA,
    FourteenB,
    FifteenA,
    FifteenB,
}

impl GroupType {
    /// The five bits that stand for this group type in Block 2: the group number in the
    /// upper four, the variant in the lowest.
    pub open spec fn code(self) -> u8 {
        match self {
            GroupType::ZeroA => 0,
            GroupType::ZeroB => 1,
            GroupType::OneA => 2,
            GroupType::OneB => 3,
            GroupType::TwoA => 4,
            GroupType::TwoB => 5,
            GroupType::ThreeA => 6,
            GroupType::ThreeB => 7,
            GroupType::FourA => 8,
            GroupType::FourB => 9,
            GroupType::FiveA => 10,
            GroupType::FiveB => 11,
            GroupType::SixA => 12,
            GroupType::SixB => 13,
            GroupType::SevenA => 14,
            GroupType::SevenB => 15,
            GroupType::EightA => 16,
            GroupType::EightB => 17,
            GroupType::NineA => 18,
            GroupType::NineB => 19,
            GroupType::TenA => 20,
            GroupType::TenB => 21,
            GroupType::ElevenA => 22,
            GroupType::ElevenB => 23,
            GroupType::TwelveA => 24,
            GroupType::TwelveB => 25,
            GroupType::ThirteenA => 26,
            GroupType::ThirteenB => 27,
            GroupType::FourteenA => 28,
            GroupType::FourteenB => 29,
            GroupType::FifteenA => 30,
            GroupType::FifteenB => 31,
        }
    }

    /// The group type that the five-bit `code` stands for.
    pub open spec fn from_code(code: u8) -> Option<Self> {
        match code {
            0 => Some(GroupType::ZeroA),
            1 => Some(GroupType::ZeroB),
            2 => Some(GroupType::OneA),
            3 => Some(GroupType::OneB),
            4 => Some(GroupType::TwoA),
            5 => Some(GroupType::TwoB),
            6 => Some(GroupType::ThreeA),
            7 => Some(GroupType::ThreeB),
            8 => Some(GroupType::FourA),
            9 => Some(GroupType::FourB),
            10 => Some(GroupType::FiveA),
            11 => Some(GroupType::FiveB),
            12 => Some(GroupType::SixA),
            13 => Some(GroupType::SixB),
            14 => Some(GroupType::SevenA),
            15 => Some(GroupType::SevenB),
            16 => Some(GroupType::EightA),
            17 => Some(GroupType::EightB),
            18 => Some(GroupType::NineA),
            19 => Some(GroupType::NineB),
            20 => Some(GroupType::TenA),
            21 => Some(GroupType::TenB),
            22 => Some(GroupType::ElevenA),
            23 => Some(GroupType::ElevenB),
            24 => Some(GroupType::TwelveA),
            25 => Some(GroupType::TwelveB),
            26 => Some(GroupType::ThirteenA),
            27 => Some(GroupType::ThirteenB),
            28 => Some(GroupType::FourteenA),
            29 => Some(GroupType::FourteenB),
            30 => Some(GroupType::FifteenA),
            31 => Some(GroupType::FifteenB),
            _ => None,
        }
    }

    /// Every group type is found again from its code, and the codes are the numbers below
    /// 32.
    pub proof fn lemma_code_round_trip(self, code: u8)
        ensures
            Self::from_code(self.code()) == Some(self),
            self.code() < 32,
            Self::from_code(code) is Some <==> code < 32,
            Self::from_code(code) matches Some(t) ==> t.code() == code,
    {
    }

    /// The group type with the number `value`, if there is one.
    pub fn n(value: u8) -> (r: Option<Self>)
        ensures
            r == Self::from_code(value),
            r is Some <==> value < 32,
    {
        match value {
            0 => Some(GroupType::ZeroA),
            1 => Some(GroupType::ZeroB),
            2 => Some(GroupType::OneA),
            3 => Some(GroupType::OneB),
            4 => Some(GroupType::TwoA),
            5 => Some(GroupType::TwoB),
            6 => Some(GroupType::ThreeA),
            7 => Some(GroupType::ThreeB),
            8 => Some(GroupType::FourA),
            9 => Some(GroupType::FourB),
            10 => Some(GroupType::FiveA),
            11 => Some(GroupType::FiveB),
            12 => Some(GroupType::SixA),
            13 => Some(GroupType::SixB),
            14 => Some(GroupType::SevenA),
            15 => Some(GroupType::SevenB),
            16 => Some(GroupType::EightA),
            17 => Some(GroupType::EightB),
            18 => Some(GroupType::NineA),
            19 => Some(GroupType::NineB),
            20 => Some(GroupType::TenA),
            21 => Some(GroupType::TenB),
            22 => Some(GroupType::ElevenA),
            23 => Some(GroupType::ElevenB),
            24 => Some(GroupType::TwelveA),
            25 => Some(GroupType::TwelveB),
            26 => Some(GroupType::ThirteenA),
            27 => Some(GroupType::ThirteenB),
            28 => Some(GroupType::FourteenA),
            29 => Some(GroupType::FourteenB),
            30 => Some(GroupType::FifteenA),
            31 => Some(GroupType::FifteenB),
            _ => None,
        }
    }
}

/// Payload of Radio Data System Message.
/// Contents of the payload depends on the Group Type.
#[derive(Clone, Copy, Debug, PartialEq, Eq)]
pub enum Payload {
    ZeroA(ZeroAPayload),
    ZeroB(ZeroBPayload),
    OneA,
    OneB,
    TwoA(TwoAPayload),
    TwoB(TwoBPayload),
    ThreeA,
    ThreeB,
    FourA,
    FourB,
    FiveA,
    FiveB,
    SixA,
    SixB,
    SevenA,
    SevenB,
    EightA,
    EightB,
    NineA,
    NineB,
    TenA,
    TenB,
    ElevenA,
    ElevenB,
    TwelveA,
    TwelveB,
    ThirteenA,
    ThirteenB,
    FourteenA,
    FourteenB,
    FifteenA,
    FifteenB,
}

impl Payload {
    /// The group type that this payload belongs to.
    pub open spec fn group_type(self) -> GroupType {
        match self {
            Payload::ZeroA(_) => GroupType::ZeroA,
            Payload::ZeroB(_) => GroupType::ZeroB,
            Payload::OneA => GroupType::OneA,
            Payload::OneB => GroupType::OneB,
            Payload::TwoA(_) => GroupType::TwoA,
            Payload::TwoB(_) => GroupType::TwoB,
            Payload::ThreeA => GroupType::ThreeA,
            Payload::ThreeB => GroupType::ThreeB,
            Payload::FourA => GroupType::FourA,
            Payload::FourB => GroupType::FourB,
            Payload::FiveA => GroupType::FiveA,
            Payload::FiveB => GroupType::FiveB,
            Payload::SixA => GroupType::SixA,
            Payload::SixB => GroupType::SixB,
            Payload::SevenA => GroupType::SevenA,
            Payload::SevenB => GroupType::SevenB,
            Payload::EightA => GroupType::EightA,
            Payload::EightB => GroupType::EightB,
            Payload::NineA => GroupType::NineA,
            Payload::NineB => GroupType::NineB,
            Payload::TenA => GroupType::TenA,
            Payload::TenB => GroupType::TenB,
            Payload::ElevenA => GroupType::ElevenA,
            Payload::ElevenB => GroupType::ElevenB,
            Payload::TwelveA => GroupType::TwelveA,
            Payload::TwelveB => GroupType::TwelveB,
            Payload::ThirteenA => GroupType::ThirteenA,
            Payload::ThirteenB => GroupType::ThirteenB,
            Payload::FourteenA => GroupType::FourteenA,
            Payload::FourteenB => GroupType::FourteenB,
            Payload::FifteenA => GroupType::FifteenA,
            Payload::FifteenB => GroupType::FifteenB,
        }
    }
}

/// Decoded Radio Data System Message.
#[derive(Clone, Copy, Debug, PartialEq, Eq)]
pub struct Message {
    pub pi: ProgramIdentifier,
    pub group_type: GroupType,
    pub tp: TrafficProgramCode,
    pub pty: ProgramType,
    pub payload: Payload,
}

/// Payload for Group Type 0A
#[derive(Clone, Copy, Debug, PartialEq, Eq)]
pub struct ZeroAPayload {
    pub ta: psaf::TrafficAnnouncementCode,
    pub ms: psaf::MusicSpeechCode,
    pub di: psaf::DecoderIdentifierCode,
    pub cs: psaf::CharacterSegment,
    pub af: (psaf::AlternativeFreqCode, psaf::AlternativeFreqCode),
    pub ps_segment: psaf::PsSegment,
}

/// Payload for Group Type 0B
#[derive(Clone, Copy, Debug, PartialEq, Eq)]
pub struct ZeroBPayload {
    pub ta: psaf::TrafficAnnouncementCode,
    pub ms: psaf::MusicSpeechCode,
    pub di: psaf::DecoderIdentifierCode,
    pub cs: psaf::CharacterSegment,
    pub pi: ProgramIdentifier,
    pub ps_segment: psaf::PsSegment,
}

/// Payload for Group Type 2A
#[derive(Clone, Copy, Debug, PartialEq, Eq)]
pub struct TwoAPayload {
    pub text_ab: rt::TextAB,
    pub text_addr_code: rt::TextAddressCode,
    pub rt_segment: (rt::RadioTextSegment, rt::RadioTextSegment),
}

/// Payload for Group Type 2B
#[derive(Clone, Copy, Debug, PartialEq, Eq)]
pub struct TwoBPayload {
    pub text_ab: rt::TextAB,
    pub text_addr_code: rt::TextAddressCode,
    pub pi: ProgramIdentifier,
    pub rt_segment: rt::RadioTextSegment,
}

} // verus!
