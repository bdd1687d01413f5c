//! Parser of single groups that tells the RDS and RBDS programme types apart.
use crate::bits::{bit_field, bit_flag, bits, flag};
use crate::stateless::parser::payload::{payload_of, Payload};
use crate::stateless::types::{GroupType, ProgramIdentifier};
use vstd::prelude::*;
use vstd::std_specs::convert::TryFromSpecImpl;

pub mod payload;

verus! {

/// One block of a group.
pub type Block = u16;

#[derive(Debug, PartialEq, Eq)]
pub enum Error {
    InvalidInput { field: &'static str, value: u16 },
    Unimplemented(GroupType),
    Other,
}

/// Programme types of RDS, as used outside North America.
#[derive(Clone, Copy, Debug, PartialEq, Eq, Structural)]
pub enum RdsProgramType {
    Undefined,
    News,
    CurrentAffairs,
    Information,
    Sport,
    Education,
    Drama,
    Culture,
    Science,
    Varied,
    PopMusic,
    RockMusic,
    EasyListening,
    LightClassical,
    SeriousClassical,
    OtherMusic,
    Weather,
    Finance,
    ChildProgrammes,
    SocialAffairs,
    Religion,
    PhoneIn,
    Travel,
    Leisure,
    Jazz,
    CountryMusic,
    NationalMusic,
    OldiesMusic,
    FolkMusic,
    Documentary,
    AlarmTest,
    Alarm,
}

impl RdsProgramType {
    /// The five-bit code of this programme type.
    pub open spec fn code(self) -> u8 {
        match self {
            RdsProgramType::Undefined => 0,
            RdsProgramType::News => 1,
            RdsProgramType::CurrentAffairs => 2,
            RdsProgramType::Information => 3,
            RdsProgramType::Sport => 4,
            RdsProgramType::Education => 5,
            RdsProgramType::Drama => 6,
            RdsProgramType::Culture => 7,
            RdsProgramType::Science => 8,
            RdsProgramType::Varied => 9,
            RdsProgramType::PopMusic => 10,
            RdsProgramType::RockMusic => 11,
            RdsProgramType::EasyListening => 12,
            RdsProgramType::LightClassical => 13,
            RdsProgramType::SeriousClassical => 14,
            RdsProgramType::OtherMusic => 15,
            RdsProgramType::Weather => 16,
            RdsProgramType::Finance => 17,
            RdsProgramType::ChildProgrammes => 18,
            RdsProgramType::SocialAffairs => 19,
            RdsProgramType::Religion => 20,
            RdsProgramType::PhoneIn => 21,
            RdsProgramType::Travel => 22,
            RdsProgramType::Leisure => 23,
            RdsProgramType::Jazz => 24,
            RdsProgramType::CountryMusic => 25,
            RdsProgramType::NationalMusic => 26,
            RdsProgramType::OldiesMusic => 27,
            RdsProgramType::FolkMusic => 28,
            RdsProgramType::Documentary => 29,
            RdsProgramType::AlarmTest => 30,
            RdsProgramType::Alarm => 31,
        }
    }

    /// The programme type with the five-bit code `code`.
    pub open spec fn from_code(code: u8) -> Option<Self> {
        match code {
            0 => Some(RdsProgramType::Undefined),
            1 => Some(RdsProgramType::News),
            2 => Some(RdsProgramType::CurrentAffairs),
            3 => Some(RdsProgramType::Information),
            4 => Some(RdsProgramType::Sport),
            5 => Some(RdsProgramType::Education),
            6 => Some(RdsProgramType::Drama),
            7 => Some(RdsProgramType::Culture),
            8 => Some(RdsProgramType::Science),
            9 => Some(RdsProgramType::Varied),
            10 => Some(RdsProgramType::PopMusic),
            11 => Some(RdsProgramType::RockMusic),
            12 => Some(RdsProgramType::EasyListening),
            13 => Some(RdsProgramType::LightClassical),
            14 => Some(RdsProgramType::SeriousClassical),
            15 => Some(RdsProgramType::OtherMusic),
            16 => Some(RdsProgramType::Weather),
            17 => Some(RdsProgramType::Finance),
            18 => Some(RdsProgramType::ChildProgrammes),
            19 => Some(RdsProgramType::SocialAffairs),
            20 => Some(RdsProgramType::Religion),
            21 => Some(RdsProgramType::PhoneIn),
            22 => Some(RdsProgramType::Travel),
            23 => Some(RdsProgramType::Leisure),
            24 => Some(RdsProgramType::Jazz),
            25 => Some(RdsProgramType::CountryMusic),
            26 => Some(RdsProgramType::NationalMusic),
            27 => Some(RdsProgramType::OldiesMusic),
            28 => Some(RdsProgramType::FolkMusic),
            29 => Some(RdsProgramType::Documentary),
            30 => Some(RdsProgramType::AlarmTest),
            31 => Some(RdsProgramType::Alarm),
            _ => None,
        }
    }

    /// Every programme type is found again from its code, and the codes are the numbers
    /// below 32.
    pub proof fn lemma_code_round_trip(self, code: u8)
        ensures
            Self::from_code(self.code()) == Some(self),
            Self::from_code(code) is Some <==> code < 32,
            Self::from_code(code) matches Some(t) ==> t.code() == code,
    {
    }

    /// The programme type with the number `value`, if there is one.
    pub fn n(value: u8) -> (r: Option<Self>)
        ensures
            r == Self::from_code(value),
            r is Some <==> value < 32,
    {
        match value {
            0 => Some(RdsProgramType::Undefined),
            1 => Some(RdsProgramType::News),
            2 => Some(RdsProgramType::CurrentAffairs),
            3 => Some(RdsProgramType::Information),
            4 => Some(RdsProgramType::Sport),
            5 => Some(RdsProgramType::Education),
            6 => Some(RdsProgramType::Drama),
            7 => Some(RdsProgramType::Culture),
            8 => Some(RdsProgramType::Science),
            9 => Some(RdsProgramType::Varied),
            10 => Some(RdsProgramType::PopMusic),
            11 => Some(RdsProgramType::RockMusic),
            12 => Some(RdsProgramType::EasyListening),
            13 => Some(RdsProgramType::LightClassical),
            14 => Some(RdsProgramType::SeriousClassical),
            15 => Some(RdsProgramType::OtherMusic),
            16 => Some(RdsProgramType::Weather),
            17 => Some(RdsProgramType::Finance),
            18 => Some(RdsProgramType::ChildProgrammes),
            19 => Some(RdsProgramType::SocialAffairs),
            20 => Some(RdsProgramType::Religion),
            21 => Some(RdsProgramType::PhoneIn),
            22 => Some(RdsProgramType::Travel),
            23 => Some(RdsProgramType::Leisure),
            24 => Some(RdsProgramType::Jazz),
            25 => Some(RdsProgramType::CountryMusic),
            26 => Some(RdsProgramType::NationalMusic),
            27 => Some(RdsProgramType::OldiesMusic),
            28 => Some(RdsProgramType::FolkMusic),
            29 => Some(RdsProgramType::Documentary),
            30 => Some(RdsProgramType::AlarmTest),
            31 => Some(RdsProgramType::Alarm),
            _ => None,
        }
    }
}

/// Programme types of RBDS, as used in North America.
#[derive(Clone, Copy, Debug, PartialEq, Eq, Structural)]
pub enum RbdsProgramType {
    Undefined,
    News,
    Information,
    Sports,
    Talk,
    Rock,
    ClassicRock,
    AdultHits,
    SoftRock,
    Top40,
    Country,
    Oldies,
    SoftMusic,
    Nostalgia,
    Jazz,
    Classical,
    RhythmAndBlues,
    SoftRhythmAndBlues,
    Language,
    ReligiousMusic,
    ReligiousTalk,
    Personality,
    Public,
    College,
    SpanishTalk,
    SpanishMusic,
    HipHop,
    Weather,
    EmergencyTest,
    Emergency,
}

impl RbdsProgramType {
    /// The five-bit code of this programme type. The codes 27 and 28 are not assigned.
    pub open spec fn code(self) -> u8 {
        match self {
            RbdsProgramType::Undefined => 0,
            RbdsProgramType::News => 1,
            RbdsProgramType::Information => 2,
            RbdsProgramType::Sports => 3,
            RbdsProgramType::Talk => 4,
            RbdsProgramType::Rock => 5,
            RbdsProgramType::ClassicRock => 6,
            RbdsProgramType::AdultHits => 7,
            RbdsProgramType::SoftRock => 8,
            RbdsProgramType::Top40 => 9,
            RbdsProgramType::Country => 10,
            RbdsProgramType::Oldies => 11,
            RbdsProgramType::SoftMusic => 12,
            RbdsProgramType::Nostalgia => 13,
            RbdsProgramType::Jazz => 14,
            RbdsProgramType::Classical => 15,
            RbdsProgramType::RhythmAndBlues => 16,
            RbdsProgramType::SoftRhythmAndBlues => 17,
            RbdsProgramType::Language => 18,
            RbdsProgramType::ReligiousMusic => 19,
            RbdsProgramType::ReligiousTalk => 20,
            RbdsProgramType::Personality => 21,
            RbdsProgramType::Public => 22,
            RbdsProgramType::College => 23,
            RbdsProgramType::SpanishTalk => 24,
            RbdsProgramType::SpanishMusic => 25,
            RbdsProgramType::HipHop => 26,
            RbdsProgramType::Weather => 29,
            RbdsProgramType::EmergencyTest => 30,
            RbdsProgramType::Emergency => 31,
        }
    }

    /// The programme type with the five-bit code `code`.
    pub open spec fn from_code(code: u8) -> Option<Self> {
        match code {
            0 => Some(RbdsProgramType::Undefined),
            1 => Some(RbdsProgramType::News),
            2 => Some(RbdsProgramType::Information),
            3 => Some(RbdsProgramType::Sports),
            4 => Some(RbdsProgramType::Talk),
            5 => Some(RbdsProgramType::Rock),
            6 => Some(RbdsProgramType::ClassicRock),
            7 => Some(RbdsProgramType::AdultHits),
            8 => Some(RbdsProgramType::SoftRock),
            9 => Some(RbdsProgramType::Top40),
            10 => Some(RbdsProgramType::Country),
            11 => Some(RbdsProgramType::Oldies),
            12 => Some(RbdsProgramType::SoftMusic),
            13 => Some(RbdsProgramType::Nostalgia),
            14 => Some(RbdsProgramType::Jazz),
            15 => Some(RbdsProgramType::Classical),
            16 => Some(RbdsProgramType::RhythmAndBlues),
            17 => Some(RbdsProgramType::SoftRhythmAndBlues),
            18 => Some(RbdsProgramType::Language),
            19 => Some(RbdsProgramType::ReligiousMusic),
            20 => Some(RbdsProgramType::ReligiousTalk),
            21 => Some(RbdsProgramType::Personality),
            22 => Some(RbdsProgramType::Public),
            23 => Some(RbdsProgramType::College),
            24 => Some(RbdsProgramType::SpanishTalk),
            25 => Some(RbdsProgramType::SpanishMusic),
            26 => Some(RbdsProgramType::HipHop),
            29 => Some(RbdsProgramType::Weather),
            30 => Some(RbdsProgramType::EmergencyTest),
            31 => Some(RbdsProgramType::Emergency),
            _ => None,
        }
    }

    /// The programme type that a receiver shows for `code`: an unassigned code below 32
    /// counts as undefined, and a code that does not fit in five bits is an error.
    pub open spec fn of_code(code: u8) -> Result<Self, Error> {
        match Self::from_code(code) {
            Some(pty) => Ok(pty),
            None => if 27 <= code <= 28 {
                Ok(RbdsProgramType::Undefined)
            } else {
                Err(Error::InvalidInput { field: "RBDS PTY", value: code as u16 })
            },
        }
    }

    /// Every programme type is found again from its code, and a code is refused exactly if
    /// it does not fit in five bits.
    pub proof fn lemma_code_round_trip(self, code: u8)
        ensures
            Self::from_code(self.code()) == Some(self),
            Self::from_code(code) is Some <==> (code < 27 || 29 <= code < 32),
            Self::from_code(code) matches Some(t) ==> t.code() == code,
            Self::of_code(code) is Ok <==> code < 32,
    {
    }

    /// The programme type with the number `value`, if there is one.
    pub fn n(value: u8) -> (r: Option<Self>)
        ensures
            r == Self::from_code(value),
    {
        match value {
            0 => Some(RbdsProgramType::Undefined),
            1 => Some(RbdsProgramType::News),
            2 => Some(RbdsProgramType::Information),
            3 => Some(RbdsProgramType::Sports),
            4 => Some(RbdsProgramType::Talk),
            5 => Some(RbdsProgramType::Rock),
            6 => Some(RbdsProgramType::ClassicRock),
            7 => Some(RbdsProgramType::AdultHits),
            8 => Some(RbdsProgramType::SoftRock),
            9 => Some(RbdsProgramType::Top40),
            10 => Some(RbdsProgramType::Country),
            11 => Some(RbdsProgramType::Oldies),
            12 => Some(RbdsProgramType::SoftMusic),
            13 => Some(RbdsProgramType::Nostalgia),
            14 => Some(RbdsProgramType::Jazz),
            15 => Some(RbdsProgramType::Classical),
            16 => Some(RbdsProgramType::RhythmAndBlues),
            17 => Some(RbdsProgramType::SoftRhythmAndBlues),
            18 => Some(RbdsProgramType::Language),
            19 => Some(RbdsProgramType::ReligiousMusic),
            20 => Some(RbdsProgramType::ReligiousTalk),
            21 => Some(RbdsProgramType::Personality),
            22 => Some(RbdsProgramType::Public),
            23 => Some(RbdsProgramType::College),
            24 => Some(RbdsProgramType::SpanishTalk),
            25 => Some(RbdsProgramType::SpanishMusic),
            26 => Some(RbdsProgramType::HipHop),
            29 => Some(RbdsProgramType::Weather),
            30 => Some(RbdsProgramType::EmergencyTest),
            31 => Some(RbdsProgramType::Emergency),
            _ => None,
        }
    }
}

impl TryFrom<u8> for RbdsProgramType {
    type Error = Error;

    fn try_from(value: u8) -> (r: Result<Self, Error>)
        ensures
            r == Self::of_code(value),
            r is Ok <==> value < 32,
    {
        match (RbdsProgramType::n(value), value) {
            (Some(pty), _) => Ok(pty),
            (None, 27..=28) => Ok(RbdsProgramType::Undefined),
            (None, value) => Err(Error::InvalidInput { field: "RBDS PTY", value: value as u16 }),
        }
    }
}

impl TryFromSpecImpl<u8> for RbdsProgramType {
    open spec fn obeys_try_from_spec() -> bool {
        true
    }

    open spec fn try_from_spec(v: u8) -> Result<Self, Error> {
        Self::of_code(v)
    }
}

#[derive(Clone, Copy, Debug, PartialEq, Eq)]
pub enum ProgramType {
    RDS(RdsProgramType),
    RBDS(RbdsProgramType),
}

/// The standard by which the programme type is read.
#[derive(Clone, Copy, Debug, PartialEq, Eq)]
pub enum RdsStandard {
    Rds,
    Rbds,
}

#[derive(Clone, Copy, Debug, PartialEq, Eq)]
pub struct Message {
    pub pi: ProgramIdentifier,
    pub group_type: GroupType,
    pub tp: bool,
    pub pty: ProgramType,
    pub payload: Payload,
}

pub struct Parser {
    standard: RdsStandard,
}

impl Parser {
    /// The standard that this parser reads programme types by.
    pub closed spec fn standard(&self) -> RdsStandard {
        self.standard
    }

    pub fn new(standard: RdsStandard) -> (parser: Self)
        ensures
            parser.standard() == standard,
    {
        Self { standard }
    }

    /// Parses the four blocks of one group. The payload decides whether the group is
    /// accepted.
    pub fn parse(&self, block1: &Block, block2: &Block, block3: &Block, block4: &Block) -> (r:
        Result<Message, Error>)
        ensures
            r == (match payload_of(
                ProgramIdentifier(*block1),
                SharedStructure::of_blocks(self.standard(), *block1, *block2).group_type,
                *block2,
                *block3,
                *block4,
            ) {
                Ok(payload) => Ok::<Message, Error>(
                    Message {
                        pi: ProgramIdentifier(*block1),
                        group_type: SharedStructure::of_blocks(
                            self.standard(),
                            *block1,
                            *block2,
                        ).group_type,
                        tp: SharedStructure::of_blocks(self.standard(), *block1, *block2).tp,
                        pty: SharedStructure::of_blocks(self.standard(), *block1, *block2).pty,
                        payload,
                    },
                ),
                Err(e) => Err(e),
            }),
    {
        let shared = match SharedStructure::new(&self.standard, block1, block2) {
            Ok(shared) => shared,
            Err(e) => { return Err(e); },
        };
        let payload = match Payload::new(&shared.pi, &shared.group_type, block2, block3, block4) {
            Ok(payload) => payload,
            Err(e) => { return Err(e); },
        };
        Ok(
            Message {
                pi: shared.pi,
                group_type: shared.group_type,
                tp: shared.tp,
                pty: shared.pty,
                payload,
            },
        )
    }
}

/// What blocks 1 and 2 tell of every group.
#[derive(Debug)]
pub struct SharedStructure {
    pub pi: ProgramIdentifier,
    pub group_type: GroupType,
    pub tp: bool,
    pub pty: ProgramType,
}

impl SharedStructure {
    /// The programme type that the five-bit `code` stands for under `standard`. Under RBDS
    /// the two unassigned codes count as undefined.
    pub open spec fn program_type(standard: RdsStandard, code: u8) -> ProgramType {
        match standard {
            RdsStandard::Rds => ProgramType::RDS(RdsProgramType::from_code(code).unwrap()),
            RdsStandard::Rbds => ProgramType::RBDS(RbdsProgramType::of_code(code).unwrap()),
        }
    }

    /// What blocks 1 and 2 tell of every group: Block 1 is the programme identifier; in
    /// Block 2, bits 15..12 number the group type, bit 10 is the traffic programme flag and
    /// bits 9..5 are the programme type.
    pub open spec fn of_blocks(standard: RdsStandard, block1: Block, block2: Block) -> Self {
        SharedStructure {
            pi: ProgramIdentifier(block1),
            group_type: GroupType::from_code(bit_field(block2, 12, 4) as u8).unwrap(),
            tp: bit_flag(block2, 10),
            pty: Self::program_type(standard, bit_field(block2, 5, 5) as u8),
        }
    }

    pub fn new(standard: &RdsStandard, block1: &Block, block2: &Block) -> (r: Result<Self, Error>)
        ensures
            r is Ok,
            r.unwrap() == Self::of_blocks(*standard, *block1, *block2),
    {
        let pi = ProgramIdentifier(*block1);
        match Self::parse_block2(standard, block2) {
            Ok((group_type, tp, pty)) => Ok(Self { pi, group_type, tp, pty }),
            Err(e) => Err(e),
        }
    }

    fn parse_block2(standard: &RdsStandard, block2: &Block) -> (r: Result<
        (GroupType, bool, ProgramType),
        Error,
    >)
        ensures
            r is Ok,
            r.unwrap().0 == GroupType::from_code(bit_field(*block2, 12, 4) as u8).unwrap(),
            r.unwrap().1 == bit_flag(*block2, 10),
            r.unwrap().2 == Self::program_type(*standard, bit_field(*block2, 5, 5) as u8),
    {
        let raw_gt = bits(*block2, 12, 4) as u8;
        let raw_pty = bits(*block2, 5, 5) as u8;
        proof {
            GroupType::ZeroA.lemma_code_round_trip(raw_gt);
            RdsProgramType::Undefined.lemma_code_round_trip(raw_pty);
            RbdsProgramType::Undefined.lemma_code_round_trip(raw_pty);
        }
        let group_type = match GroupType::n(raw_gt) {
            Some(group_type) => group_type,
            None => vstd::pervasive::unreached(),
        };
        let tp = flag(*block2, 10);
        let pty = match standard {
            RdsStandard::Rds => match RdsProgramType::n(raw_pty) {
                Some(pty) => ProgramType::RDS(pty),
                None => vstd::pervasive::unreached(),
            },
            RdsStandard::Rbds => match RbdsProgramType::try_from(raw_pty) {
                Ok(pty) => ProgramType::RBDS(pty),
                Err(_) => vstd::pervasive::unreached(),
            },
        };
        Ok((group_type, tp, pty))
    }
}

} // verus!
