use crate::error::Error;
use crate::text::{ProgrammeServiceNameString, RadioTextPlusList, RadioTextString};
use vstd::prelude::*;
use vstd::std_specs::convert::{FromSpecImpl, TryFromSpecImpl};

verus! {

/// Block 1 of a group: the programme identifier.
#[derive(Clone, Copy, Debug, PartialEq, Eq, Structural)]
pub struct Block1(pub u16);

/// Block 2 of a group: the header that selects how blocks 3 and 4 are read.
#[derive(Clone, Copy, Debug, PartialEq, Eq, Structural)]
pub struct Block2(pub u16);

/// Block 3 of a group: payload, or the programme identifier again in variant B.
#[derive(Clone, Copy, Debug, PartialEq, Eq, Structural)]
pub struct Block3(pub u16);

/// Block 4 of a group: payload.
#[derive(Clone, Copy, Debug, PartialEq, Eq, Structural)]
pub struct Block4(pub u16);

/// One received group: four blocks, each absent where error correction could not recover it.
#[derive(Clone, Copy, Debug, PartialEq, Eq)]
pub struct Message {
    pub block1: Option<Block1>,
    pub block2: Option<Block2>,
    pub block3: Option<Block3>,
    pub block4: Option<Block4>,
}

impl Message {
    /// Wraps four optional raw blocks. `None` marks a block with too many bit errors to use.
    pub fn new(
        block1: Option<u16>,
        block2: Option<u16>,
        block3: Option<u16>,
        block4: Option<u16>,
    ) -> (m: Self)
        ensures
            m.block1 == (match block1 {
                Some(b) => Some(Block1(b)),
                None => None,
            }),
            m.block2 == (match block2 {
                Some(b) => Some(Block2(b)),
                None => None,
            }),
            m.block3 == (match block3 {
                Some(b) => Some(Block3(b)),
                None => None,
            }),
            m.block4 == (match block4 {
                Some(b) => Some(Block4(b)),
                None => None,
            }),
    {
        Self {
            block1: match block1 {
                Some(b) => Some(Block1(b)),
                None => None,
            },
            block2: match block2 {
                Some(b) => Some(Block2(b)),
                None => None,
            },
            block3: match block3 {
                Some(b) => Some(Block3(b)),
                None => None,
            },
            block4: match block4 {
                Some(b) => Some(Block4(b)),
                None => None,
            },
        }
    }
}

/// Programme identifier: the 16-bit code of the station.
#[derive(Clone, Copy, Debug, PartialEq, Eq, Structural)]
pub struct ProgrammeIdentifier(pub u16);

/// Traffic programme flag: whether the station carries traffic announcements.
#[derive(Clone, Copy, Debug, PartialEq, Eq, Structural)]
pub struct TrafficProgram(pub bool);

/// Programme type: a five-bit genre code.
#[derive(Clone, Copy, Debug, PartialEq, Eq, Structural)]
pub struct ProgrammeType(pub u8);

/// Largest programme type code.
pub const MAX_PROGRAMME_TYPE: u8 = 31;

impl TryFrom<u8> for ProgrammeType {
    type Error = Error;

    /// Accepts the codes that fit in five bits.
    fn try_from(value: u8) -> (r: Result<Self, Error>)
        ensures
            value <= MAX_PROGRAMME_TYPE ==> r == Ok::<Self, Error>(ProgrammeType(value)),
            value > MAX_PROGRAMME_TYPE ==> r == Err::<Self, Error>(
                Error::InvalidInput {
                    field: "Programme Type must be a 5-bit value",
                    value: value as u16,
                },
            ),
    {
        if value > MAX_PROGRAMME_TYPE {
            return Err(
                Error::InvalidInput {
                    field: "Programme Type must be a 5-bit value",
                    value: value as u16,
                },
            );
        }
        Ok(ProgrammeType(value))
    }
}

impl TryFromSpecImpl<u8> for ProgrammeType {
    open spec fn obeys_try_from_spec() -> bool {
        true
    }

    open spec fn try_from_spec(v: u8) -> Result<Self, Error> {
        if v <= MAX_PROGRAMME_TYPE {
            Ok(ProgrammeType(v))
        } else {
            Err(
                Error::InvalidInput {
                    field: "Programme Type must be a 5-bit value",
                    value: v as u16,
                },
            )
        }
    }
}

/// Every group is of variant A or B. In variant B the programme identifier is sent in
/// Block 3 as well as in Block 1.
#[derive(Clone, Copy, Debug, PartialEq, Eq, Structural, Hash)]
pub enum GroupVariant {
    A,
    B,
}

impl From<bool> for GroupVariant {
    /// The variant bit of Block 2: clear for A, set for B.
    fn from(value: bool) -> (r: Self)
        ensures
            r == (if value {
                GroupVariant::B
            } else {
                GroupVariant::A
            }),
    {
        if value {
            GroupVariant::B
        } else {
            GroupVariant::A
        }
    }
}

impl FromSpecImpl<bool> for GroupVariant {
    open spec fn obeys_from_spec() -> bool {
        true
    }

    open spec fn from_spec(v: bool) -> Self {
        if v {
            GroupVariant::B
        } else {
            GroupVariant::A
        }
    }
}

/// Group type: a four-bit tag.
#[derive(Clone, Copy, Debug, PartialEq, Eq, Structural, Hash)]
pub struct GroupType(pub u8);

/// Largest group type.
pub const MAX_GROUP_TYPE: u8 = 15;

impl TryFrom<u8> for GroupType {
    type Error = Error;

    /// Accepts the tags that fit in four bits.
    fn try_from(value: u8) -> (r: Result<Self, Error>)
        ensures
            value <= MAX_GROUP_TYPE ==> r == Ok::<Self, Error>(GroupType(value)),
            value > MAX_GROUP_TYPE ==> r == Err::<Self, Error>(
                Error::InvalidInput { field: "Group Type must be a 4-bit value", value: value as u16 },
            ),
    {
        if value > MAX_GROUP_TYPE {
            return Err(
                Error::InvalidInput {
                    field: "Group Type must be a 4-bit value",
                    value: value as u16,
                },
            );
        }
        Ok(GroupType(value))
    }
}

impl TryFromSpecImpl<u8> for GroupType {
    open spec fn obeys_try_from_spec() -> bool {
        true
    }

    open spec fn try_from_spec(v: u8) -> Result<Self, Error> {
        if v <= MAX_GROUP_TYPE {
            Ok(GroupType(v))
        } else {
            Err(Error::InvalidInput { field: "Group Type must be a 4-bit value", value: v as u16 })
        }
    }
}

/// The confirmed programme service name.
#[derive(Debug, Default, PartialEq, Eq)]
pub struct ProgrammeServiceName {
    ps: ProgrammeServiceNameString,
}

impl View for ProgrammeServiceName {
    type V = Seq<char>;

    closed spec fn view(&self) -> Seq<char> {
        self.ps@
    }
}

impl Clone for ProgrammeServiceName {
    /// A name with the same characters.
    fn clone(&self) -> (name: Self)
        ensures
            name@ == self@,
    {
        Self { ps: self.ps.clone() }
    }
}

impl ProgrammeServiceName {
    pub fn new(ps: ProgrammeServiceNameString) -> (name: Self)
        ensures
            name@ == ps@,
    {
        Self { ps }
    }

    /// The name as a string slice.
    pub fn as_str(&self) -> (s: &str)
        ensures
            s@ == self@,
    {
        self.ps.text()
    }
}

/// What a confirmed RadioText holds: its characters and the RadioText+ tags that came
/// with it.
pub ghost struct RadioTextView {
    pub text: Seq<char>,
    pub tags: Seq<RadioTextPlusTag>,
}

/// The confirmed RadioText message with its RadioText+ tags.
#[derive(Debug, PartialEq, Eq)]
pub struct RadioText {
    rt: RadioTextString,
    rt_plus: RadioTextPlusList,
}

impl View for RadioText {
    type V = RadioTextView;

    closed spec fn view(&self) -> RadioTextView {
        RadioTextView { text: self.rt@, tags: self.rt_plus@ }
    }
}

impl Clone for RadioText {
    /// A message with the same characters and the same tags.
    fn clone(&self) -> (r: Self)
        ensures
            r@ == self@,
    {
        Self { rt: self.rt.clone(), rt_plus: self.rt_plus.clone() }
    }
}

impl RadioText {
    pub fn new(rt: RadioTextString, rt_plus: RadioTextPlusList) -> (r: Self)
        ensures
            r@.text == rt@,
            r@.tags == rt_plus@,
    {
        Self { rt, rt_plus }
    }

    /// The message as a string slice.
    pub fn as_str(&self) -> (s: &str)
        ensures
            s@ == self@.text,
    {
        self.rt.text()
    }

    /// The RadioText+ tags that came with the message, oldest first.
    pub fn rt_plus_tags(&self) -> (tags: &[RadioTextPlusTag])
        ensures
            tags@ == self@.tags,
    {
        self.rt_plus.tags()
    }
}

/// A RadioText+ tag: the kind of content found in a span of the RadioText message.
#[derive(Clone, Copy, Debug, PartialEq, Eq, Hash)]
pub struct RadioTextPlusTag {
    pub content_type: RadioTextPlusContentType,
    pub start_index: usize,
    pub length: usize,
}

impl RadioTextPlusTag {
    pub fn new(content_type: RadioTextPlusContentType, start_index: usize, length: usize) -> (tag:
        Self)
        ensures
            tag.content_type == content_type,
            tag.start_index == start_index,
            tag.length == length,
    {
        Self { content_type, start_index, length }
    }

    pub fn content_type(&self) -> (r: RadioTextPlusContentType)
        ensures
            r == self.content_type,
    {
        self.content_type
    }

    pub fn start_index(&self) -> (r: usize)
        ensures
            r == self.start_index,
    {
        self.start_index
    }

    pub fn length(&self) -> (r: usize)
        ensures
            r == self.length,
    {
        self.length
    }
}

/// Content types of RadioText+ (RT+).
///
/// RT+ extends RadioText so that a receiver can tell which part of the message is the
/// title, which the artist, and so on.
#[derive(Clone, Copy, Debug, PartialEq, Eq, Structural, Hash)]
pub enum RadioTextPlusContentType {
    Dummy,
    Title,
    Album,
    TrackNumber,
    Artist,
    Composition,
    Movement,
    Conductor,
    Composer,
    Band,
    Comment,
    Genre,
    News,
    NewsLocal,
    StockMarket,
    Sport,
    Lottery,
    Horoscope,
    DailyDiversion,
    Health,
    Event,
    Scene,
    Cinema,
    Tv,
    DateTime,
    Weather,
    Traffic,
    Alarm,
    Advertisement,
    Url,
    Other,
    ShortStationName,
    LongStationName,
    NowProgramme,
    NextProgramme,
    ProgrammePart,
    ProgrammeHost,
    ProgrammeEditorialStaff,
    ProgrammeFrequency,
    ProgrammeHomepage,
    ProgrammeSubchannel,
    PhoneHotline,
    PhoneStudio,
    PhoneOther,
    SmsStudio,
    SmsOther,
    EmailHotline,
    EmailStudio,
    EmailOther,
    MmsOther,
    Chat,
    ChatCentre,
    VoteQuestion,
    VoteCentre,
    Place,
    Appointment,
    Identifier,
    Purchase,
    GetData,
}

impl RadioTextPlusContentType {
    /// The six-bit code that stands for this content type on air.
    pub open spec fn code(self) -> u8 {
        match self {
            RadioTextPlusContentType::Dummy => 0,
            RadioTextPlusContentType::Title => 1,
            RadioTextPlusContentType::Album => 2,
            RadioTextPlusContentType::TrackNumber => 3,
            RadioTextPlusContentType::Artist => 4,
            RadioTextPlusContentType::Composition => 5,
            RadioTextPlusContentType::Movement => 6,
            RadioTextPlusContentType::Conductor => 7,
            RadioTextPlusContentType::Composer => 8,
            RadioTextPlusContentType::Band => 9,
            RadioTextPlusContentType::Comment => 10,
            RadioTextPlusContentType::Genre => 11,
            RadioTextPlusContentType::News => 12,
            RadioTextPlusContentType::NewsLocal => 13,
            RadioTextPlusContentType::StockMarket => 14,
            RadioTextPlusContentType::Sport => 15,
            RadioTextPlusContentType::Lottery => 16,
            RadioTextPlusContentType::Horoscope => 17,
            RadioTextPlusContentType::DailyDiversion => 18,
            RadioTextPlusContentType::Health => 19,
            RadioTextPlusContentType::Event => 20,
            RadioTextPlusContentType::Scene => 21,
            RadioTextPlusContentType::Cinema => 22,
            RadioTextPlusContentType::Tv => 23,
            RadioTextPlusContentType::DateTime => 24,
            RadioTextPlusContentType::Weather => 25,
            RadioTextPlusContentType::Traffic => 26,
            RadioTextPlusContentType::Alarm => 27,
            RadioTextPlusContentType::Advertisement => 28,
            RadioTextPlusContentType::Url => 29,
            RadioTextPlusContentType::Other => 30,
            RadioTextPlusContentType::ShortStationName => 31,
            RadioTextPlusContentType::LongStationName => 32,
            RadioTextPlusContentType::NowProgramme => 33,
            RadioTextPlusContentType::NextProgramme => 34,
            RadioTextPlusContentType::ProgrammePart => 35,
            RadioTextPlusContentType::ProgrammeHost => 36,
            RadioTextPlusContentType::ProgrammeEditorialStaff => 37,
            RadioTextPlusContentType::ProgrammeFrequency => 38,
            RadioTextPlusContentType::ProgrammeHomepage => 39,
            RadioTextPlusContentType::ProgrammeSubchannel => 40,
            RadioTextPlusContentType::PhoneHotline => 41,
            RadioTextPlusContentType::PhoneStudio => 42,
            RadioTextPlusContentType::PhoneOther => 43,
            RadioTextPlusContentType::SmsStudio => 44,
            RadioTextPlusContentType::SmsOther => 45,
            RadioTextPlusContentType::EmailHotline => 46,
            RadioTextPlusContentType::EmailStudio => 47,
            RadioTextPlusContentType::EmailOther => 48,
            RadioTextPlusContentType::MmsOther => 49,
            RadioTextPlusContentType::Chat => 50,
            RadioTextPlusContentType::ChatCentre => 51,
            RadioTextPlusContentType::VoteQuestion => 52,
            RadioTextPlusContentType::VoteCentre => 53,
            RadioTextPlusContentType::Place => 59,
            RadioTextPlusContentType::Appointment => 60,
            RadioTextPlusContentType::Identifier => 61,
            RadioTextPlusContentType::Purchase => 62,
            RadioTextPlusContentType::GetData => 63,
        }
    }

    /// The content type that `code` stands for. Codes 54 to 58 are reserved or private and
    /// stand for none, as do codes that do not fit in six bits.
    pub open spec fn from_code(code: u8) -> Option<Self> {
        match code {
            0 => Some(RadioTextPlusContentType::Dummy),
            1 => Some(RadioTextPlusContentType::Title),
            2 => Some(RadioTextPlusContentType::Album),
            3 => Some(RadioTextPlusContentType::TrackNumber),
            4 => Some(RadioTextPlusContentType::Artist),
            5 => Some(RadioTextPlusContentType::Composition),
            6 => Some(RadioTextPlusContentType::Movement),
            7 => Some(RadioTextPlusContentType::Conductor),
            8 => Some(RadioTextPlusContentType::Composer),
            9 => Some(RadioTextPlusContentType::Band),
            10 => Some(RadioTextPlusContentType::Comment),
            11 => Some(RadioTextPlusContentType::Genre),
            12 => Some(RadioTextPlusContentType::News),
            13 => Some(RadioTextPlusContentType::NewsLocal),
            14 => Some(RadioTextPlusContentType::StockMarket),
            15 => Some(RadioTextPlusContentType::Sport),
            16 => Some(RadioTextPlusContentType::Lottery),
            17 => Some(RadioTextPlusContentType::Horoscope),
            18 => Some(RadioTextPlusContentType::DailyDiversion),
            19 => Some(RadioTextPlusContentType::Health),
            20 => Some(RadioTextPlusContentType::Event),
            21 => Some(RadioTextPlusContentType::Scene),
            22 => Some(RadioTextPlusContentType::Cinema),
            23 => Some(RadioTextPlusContentType::Tv),
            24 => Some(RadioTextPlusContentType::DateTime),
            25 => Some(RadioTextPlusContentType::Weather),
            26 => Some(RadioTextPlusContentType::Traffic),
            27 => Some(RadioTextPlusContentType::Alarm),
            28 => Some(RadioTextPlusContentType::Advertisement),
            29 => Some(RadioTextPlusContentType::Url),
            30 => Some(RadioTextPlusContentType::Other),
            31 => Some(RadioTextPlusContentType::ShortStationName),
            32 => Some(RadioTextPlusContentType::LongStationName),
            33 => Some(RadioTextPlusContentType::NowProgramme),
            34 => Some(RadioTextPlusContentType::NextProgramme),
            35 => Some(RadioTextPlusContentType::ProgrammePart),
            36 => Some(RadioTextPlusContentType::ProgrammeHost),
            37 => Some(RadioTextPlusContentType::ProgrammeEditorialStaff),
            38 => Some(RadioTextPlusContentType::ProgrammeFrequency),
            39 => Some(RadioTextPlusContentType::ProgrammeHomepage),
            40 => Some(RadioTextPlusContentType::ProgrammeSubchannel),
            41 => Some(RadioTextPlusContentType::PhoneHotline),
            42 => Some(RadioTextPlusContentType::PhoneStudio),
            43 => Some(RadioTextPlusContentType::PhoneOther),
            44 => Some(RadioTextPlusContentType::SmsStudio),
            45 => Some(RadioTextPlusContentType::SmsOther),
            46 => Some(RadioTextPlusContentType::EmailHotline),
            47 => Some(RadioTextPlusContentType::EmailStudio),
            48 => Some(RadioTextPlusContentType::EmailOther),
            49 => Some(RadioTextPlusContentType::MmsOther),
            50 => Some(RadioTextPlusContentType::Chat),
            51 => Some(RadioTextPlusContentType::ChatCentre),
            52 => Some(RadioTextPlusContentType::VoteQuestion),
            53 => Some(RadioTextPlusContentType::VoteCentre),
            59 => Some(RadioTextPlusContentType::Place),
            60 => Some(RadioTextPlusContentType::Appointment),
            61 => Some(RadioTextPlusContentType::Identifier),
            62 => Some(RadioTextPlusContentType::Purchase),
            63 => Some(RadioTextPlusContentType::GetData),
            _ => None,
        }
    }

    /// The codes to which a content type is assigned.
    pub open spec fn is_assigned(code: u8) -> bool {
        code <= 53 || 59 <= code <= 63
    }

    /// `code` and `from_code` are inverse to each other: every content type is found again
    /// from its code, and a code that names a content type is that content type's code.
    pub proof fn lemma_code_round_trip(self, code: u8)
        ensures
            Self::from_code(self.code()) == Some(self),
            Self::is_assigned(self.code()),
            Self::from_code(code) is Some <==> Self::is_assigned(code),
            Self::from_code(code) matches Some(t) ==> t.code() == code,
    {
    }
}

impl TryFrom<u8> for RadioTextPlusContentType {
    type Error = Error;

    /// Decodes a content type from its code.
    fn try_from(value: u8) -> (r: Result<Self, Error>)
        ensures
            r == (match Self::from_code(value) {
                Some(t) => Ok::<Self, Error>(t),
                None => Err(
                    Error::InvalidInput {
                        field: "RadioTextPlusTag must a value within 0-53, 59-63",
                        value: value as u16,
                    },
                ),
            }),
            r is Ok <==> Self::is_assigned(value),
    {
        match value {
            0 => Ok(RadioTextPlusContentType::Dummy),
            1 => Ok(RadioTextPlusContentType::Title),
            2 => Ok(RadioTextPlusContentType::Album),
            3 => Ok(RadioTextPlusContentType::TrackNumber),
            4 => Ok(RadioTextPlusContentType::Artist),
            5 => Ok(RadioTextPlusContentType::Composition),
            6 => Ok(RadioTextPlusContentType::Movement),
            7 => Ok(RadioTextPlusContentType::Conductor),
            8 => Ok(RadioTextPlusContentType::Composer),
            9 => Ok(RadioTextPlusContentType::Band),
            10 => Ok(RadioTextPlusContentType::Comment),
            11 => Ok(RadioTextPlusContentType::Genre),
            12 => Ok(RadioTextPlusContentType::News),
            13 => Ok(RadioTextPlusContentType::NewsLocal),
            14 => Ok(RadioTextPlusContentType::StockMarket),
            15 => Ok(RadioTextPlusContentType::Sport),
            16 => Ok(RadioTextPlusContentType::Lottery),
            17 => Ok(RadioTextPlusContentType::Horoscope),
            18 => Ok(RadioTextPlusContentType::DailyDiversion),
            19 => Ok(RadioTextPlusContentType::Health),
            20 => Ok(RadioTextPlusContentType::Event),
            21 => Ok(RadioTextPlusContentType::Scene),
            22 => Ok(RadioTextPlusContentType::Cinema),
            23 => Ok(RadioTextPlusContentType::Tv),
            24 => Ok(RadioTextPlusContentType::DateTime),
            25 => Ok(RadioTextPlusContentType::Weather),
            26 => Ok(RadioTextPlusContentType::Traffic),
            27 => Ok(RadioTextPlusContentType::Alarm),
            28 => Ok(RadioTextPlusContentType::Advertisement),
            29 => Ok(RadioTextPlusContentType::Url),
            30 => Ok(RadioTextPlusContentType::Other),
            31 => Ok(RadioTextPlusContentType::ShortStationName),
            32 => Ok(RadioTextPlusContentType::LongStationName),
            33 => Ok(RadioTextPlusContentType::NowProgramme),
            34 => Ok(RadioTextPlusContentType::NextProgramme),
            35 => Ok(RadioTextPlusContentType::ProgrammePart),
            36 => Ok(RadioTextPlusContentType::ProgrammeHost),
            37 => Ok(RadioTextPlusContentType::ProgrammeEditorialStaff),
            38 => Ok(RadioTextPlusContentType::ProgrammeFrequency),
            39 => Ok(RadioTextPlusContentType::ProgrammeHomepage),
            40 => Ok(RadioTextPlusContentType::ProgrammeSubchannel),
            41 => Ok(RadioTextPlusContentType::PhoneHotline),
            42 => Ok(RadioTextPlusContentType::PhoneStudio),
            43 => Ok(RadioTextPlusContentType::PhoneOther),
            44 => Ok(RadioTextPlusContentType::SmsStudio),
            45 => Ok(RadioTextPlusContentType::SmsOther),
            46 => Ok(RadioTextPlusContentType::EmailHotline),
            47 => Ok(RadioTextPlusContentType::EmailStudio),
            48 => Ok(RadioTextPlusContentType::EmailOther),
            49 => Ok(RadioTextPlusContentType::MmsOther),
            50 => Ok(RadioTextPlusContentType::Chat),
            51 => Ok(RadioTextPlusContentType::ChatCentre),
            52 => Ok(RadioTextPlusContentType::VoteQuestion),
            53 => Ok(RadioTextPlusContentType::VoteCentre),
            59 => Ok(RadioTextPlusContentType::Place),
            60 => Ok(RadioTextPlusContentType::Appointment),
            61 => Ok(RadioTextPlusContentType::Identifier),
            62 => Ok(RadioTextPlusContentType::Purchase),
            63 => Ok(RadioTextPlusContentType::GetData),
            _ => Err(
                Error::InvalidInput {
                    field: "RadioTextPlusTag must a value within 0-53, 59-63",
                    value: value as u16,
                },
            ),
        }
    }
}

impl TryFromSpecImpl<u8> for RadioTextPlusContentType {
    open spec fn obeys_try_from_spec() -> bool {
        true
    }

    open spec fn try_from_spec(v: u8) -> Result<Self, Error> {
        match Self::from_code(v) {
            Some(t) => Ok(t),
            None => Err(
                Error::InvalidInput {
                    field: "RadioTextPlusTag must a value within 0-53, 59-63",
                    value: v as u16,
                },
            ),
        }
    }
}

/// What a snapshot holds, field by field.
pub ghost struct MetadataView {
    pub pi: Option<ProgrammeIdentifier>,
    pub pty: Option<ProgrammeType>,
    pub tp: Option<TrafficProgram>,
    pub ps: Option<Seq<char>>,
    pub rt: Option<RadioTextView>,
}

impl MetadataView {
    /// The snapshot in which nothing is confirmed.
    pub open spec fn blank() -> Self {
        MetadataView { pi: None, pty: None, tp: None, ps: None, rt: None }
    }
}

/// The station's metadata as far as it is confirmed. A field is `None` until its filter or
/// assembler has settled on a value.
#[derive(Debug, PartialEq, Eq)]
pub struct Metadata {
    pub pi: Option<ProgrammeIdentifier>,
    pub pty: Option<ProgrammeType>,
    pub tp: Option<TrafficProgram>,
    pub ps: Option<ProgrammeServiceName>,
    pub rt: Option<RadioText>,
}

impl View for Metadata {
    type V = MetadataView;

    open spec fn view(&self) -> MetadataView {
        MetadataView {
            pi: self.pi,
            pty: self.pty,
            tp: self.tp,
            ps: match self.ps {
                Some(ps) => Some(ps@),
                None => None,
            },
            rt: match self.rt {
                Some(rt) => Some(rt@),
                None => None,
            },
        }
    }
}

impl Clone for Metadata {
    /// A snapshot that holds the same.
    fn clone(&self) -> (m: Self)
        ensures
            m@ == self@,
    {
        Metadata {
            pi: self.pi,
            pty: self.pty,
            tp: self.tp,
            ps: match &self.ps {
                Some(ps) => Some(ps.clone()),
                None => None,
            },
            rt: match &self.rt {
                Some(rt) => Some(rt.clone()),
                None => None,
            },
        }
    }
}

impl Default for Metadata {
    /// The blank snapshot.
    fn default() -> (m: Self)
        ensures
            m@ == MetadataView::blank(),
    {
        Metadata { pi: None, pty: None, tp: None, ps: None, rt: None }
    }
}

} // verus!
