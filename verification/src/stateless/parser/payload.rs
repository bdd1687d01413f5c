//! Payloads of the groups that the parser knows.
use crate::bits::{bit_field, bits};
use crate::stateless::parser::{Block, Error};
use crate::stateless::types::{GroupType, ProgramIdentifier};
use vstd::prelude::*;
use vstd::std_specs::convert::TryFromSpecImpl;

pub mod one;
pub mod zero;

verus! {

#[derive(Clone, Copy, Debug, PartialEq, Eq)]
pub enum Payload {
    ZeroA(zero::A),
    ZeroB(zero::B),
    OneA(one::A),
    OneB(one::B),
    TwoA,
    TwoB,
    ThreeA,
    ThreeB,
    FourA,
    FourB,
    FiveA,
    FiveB,
    SixA,
    SixB,
    SevenA,
    SevenB,
    EightA,
    EightB,
    NineA,
    NineB,
    TenA,
    TenB,
    ElevenA,
    ElevenB,
    TwelveA,
    TwelveB,
    ThirteenA,
    ThirteenB,
}

/// The payload of a group of type `group_type`. Only the groups 0A, 0B, 1A and 1B are
/// parsed; any other group type is reported as not implemented.
pub open spec fn payload_of(
    pi: ProgramIdentifier,
    group_type: GroupType,
    block2: Block,
    block3: Block,
    block4: Block,
) -> Result<Payload, Error> {
    match group_type {
        GroupType::ZeroA => Ok(Payload::ZeroA(zero::A::of_blocks(block2, block3, block4))),
        GroupType::ZeroB => match zero::B::of_blocks(pi, block2, block3, block4) {
            Ok(b) => Ok(Payload::ZeroB(b)),
            Err(e) => Err(e),
        },
        GroupType::OneA => match one::A::of_blocks(block2, block3, block4) {
            Ok(a) => Ok(Payload::OneA(a)),
            Err(e) => Err(e),
        },
        GroupType::OneB => match one::B::of_block(block4) {
            Ok(b) => Ok(Payload::OneB(b)),
            Err(e) => Err(e),
        },
        _ => Err(Error::Unimplemented(group_type)),
    }
}

impl Payload {
    pub fn new(
        pi: &ProgramIdentifier,
        group_type: &GroupType,
        block2: &Block,
        block3: &Block,
        block4: &Block,
    ) -> (r: Result<Self, Error>)
        ensures
            r == payload_of(*pi, *group_type, *block2, *block3, *block4),
    {
        match group_type {
            GroupType::ZeroA => Ok(Self::ZeroA(zero::A::new(block2, block3, block4))),
            GroupType::ZeroB => match zero::B::new(pi, block2, block3, block4) {
                Ok(b) => Ok(Self::ZeroB(b)),
                Err(e) => Err(e),
            },
            GroupType::OneA => match one::A::new(block2, block3, block4) {
                Ok(a) => Ok(Self::OneA(a)),
                Err(e) => Err(e),
            },
            GroupType::OneB => match one::B::new(block4) {
                Ok(b) => Ok(Self::OneB(b)),
                Err(e) => Err(e),
            },
            _ => Err(Error::Unimplemented(*group_type)),
        }
    }
}

/// Used to indicate different operating modes: a set of four flags.
#[derive(Clone, Copy, Debug, PartialEq, Eq, Structural)]
pub struct DecoderIdentifer {
    bits: u8,
}

impl DecoderIdentifer {
    /// Is stereo or mono?
    pub const IS_STEREO: u8 = 0b0001;

    /// Is Artificial Head or not?
    pub const IS_ARTIFICAL_HEAD: u8 = 0b0010;

    /// Is compressed or not?
    pub const IS_COMPRESSED: u8 = 0b0100;

    /// Is PTY dynamically switched or static PTY?
    pub const IS_DYNAMIC_PTY: u8 = 0b1000;

    /// The flags whose bits are `bits`.
    pub closed spec fn of_bits(bits: u8) -> Self {
        DecoderIdentifer { bits }
    }

    /// The flags as bits of one number.
    pub closed spec fn spec_bits(self) -> u8 {
        self.bits
    }

    /// The flags made of some bits are those bits.
    pub proof fn lemma_bits_of_flags(bits: u8)
        ensures
            Self::of_bits(bits).spec_bits() == bits,
    {
    }

    /// The flags whose bits are `bits`, if `bits` holds no bit beyond the four flags.
    pub fn from_bits(bits: u8) -> (r: Option<Self>)
        ensures
            r == (if bits <= 0b1111 {
                Some(Self::of_bits(bits))
            } else {
                None
            }),
    {
        if bits <= 0b1111 {
            Some(Self { bits })
        } else {
            None
        }
    }

    /// The flags as bits of one number.
    pub fn bits(&self) -> (r: u8)
        ensures
            r == self.spec_bits(),
    {
        self.bits
    }
}

#[derive(Clone, Copy, Debug, PartialEq, Eq, Structural)]
pub enum TransmitterNetworkGroup {
    NoBasicPaging,
    Zero99,
    Zero39,
    Forty99,
    Forty69,
    Seventy99,
    Zero19,
    Twenty39,
}

impl TransmitterNetworkGroup {
    /// The transmitter network group with the three-bit code `code`.
    pub open spec fn from_code(code: u8) -> Option<Self> {
        match code {
            0 => Some(TransmitterNetworkGroup::NoBasicPaging),
            1 => Some(TransmitterNetworkGroup::Zero99),
            2 => Some(TransmitterNetworkGroup::Zero39),
            3 => Some(TransmitterNetworkGroup::Forty99),
            4 => Some(TransmitterNetworkGroup::Forty69),
            5 => Some(TransmitterNetworkGroup::Seventy99),
            6 => Some(TransmitterNetworkGroup::Zero19),
            7 => Some(TransmitterNetworkGroup::Twenty39),
            _ => None,
        }
    }

    /// The transmitter network group with the number `value`, if there is one.
    pub fn n(value: u8) -> (r: Option<Self>)
        ensures
            r == Self::from_code(value),
            r is Some <==> value < 8,
    {
        match value {
            0 => Some(TransmitterNetworkGroup::NoBasicPaging),
            1 => Some(TransmitterNetworkGroup::Zero99),
            2 => Some(TransmitterNetworkGroup::Zero39),
            3 => Some(TransmitterNetworkGroup::Forty99),
            4 => Some(TransmitterNetworkGroup::Forty69),
            5 => Some(TransmitterNetworkGroup::Seventy99),
            6 => Some(TransmitterNetworkGroup::Zero19),
            7 => Some(TransmitterNetworkGroup::Twenty39),
            _ => None,
        }
    }
}

/// A number that is accepted up to a limit, and refused with the name of its field
/// beyond it.
pub open spec fn checked(value: u8, max: u8, field: &'static str) -> Result<u8, Error> {
    if value > max {
        Err(Error::InvalidInput { field, value: value as u16 })
    } else {
        Ok(value)
    }
}

#[derive(Clone, Copy, Debug, PartialEq, Eq, Structural)]
pub struct Interval(pub u8);

impl Interval {
    /// The interval with the code `value`: a number of two bits.
    pub open spec fn of_code(value: u8) -> Result<Self, Error> {
        match checked(value, 0b11, "Interval") {
            Ok(v) => Ok(Interval(v)),
            Err(e) => Err(e),
        }
    }
}

impl TryFrom<u8> for Interval {
    type Error = Error;

    fn try_from(value: u8) -> (r: Result<Self, Error>)
        ensures
            r == Self::of_code(value),
            r is Ok <==> value <= 0b11,
    {
        if value > 0b11 {
            return Err(Error::InvalidInput { field: "Interval", value: value as u16 });
        }
        Ok(Self(value))
    }
}

impl TryFromSpecImpl<u8> for Interval {
    open spec fn obeys_try_from_spec() -> bool {
        true
    }

    open spec fn try_from_spec(v: u8) -> Result<Self, Error> {
        Self::of_code(v)
    }
}

#[derive(Clone, Copy, Debug, PartialEq, Eq, Structural)]
pub struct RadioPagingCode {
    pub tng: TransmitterNetworkGroup,
    pub interval: Interval,
}

impl RadioPagingCode {
    /// The radio paging code `value`, a number of five bits: the upper three name the
    /// transmitter network group, the lower two the interval.
    pub open spec fn of_code(value: u8) -> Result<Self, Error> {
        if value > 0b1_1111 {
            Err(Error::InvalidInput { field: "RadioPagingCode", value: value as u16 })
        } else {
            Ok(
                RadioPagingCode {
                    tng: TransmitterNetworkGroup::from_code(value / 4).unwrap(),
                    interval: Interval(value % 4),
                },
            )
        }
    }
}

impl TryFrom<u8> for RadioPagingCode {
    type Error = Error;

    fn try_from(value: u8) -> (r: Result<Self, Error>)
        ensures
            r == Self::of_code(value),
            r is Ok <==> value <= 0b1_1111,
    {
        if value > 0b1_1111 {
            return Err(Error::InvalidInput { field: "RadioPagingCode", value: value as u16 });
        }
        let tng = match TransmitterNetworkGroup::n(value / 4) {
            Some(tng) => tng,
            None => vstd::pervasive::unreached(),
        };
        let interval = match Interval::try_from(value % 4) {
            Ok(interval) => interval,
            Err(_) => vstd::pervasive::unreached(),
        };
        Ok(Self { tng, interval })
    }
}

impl TryFromSpecImpl<u8> for RadioPagingCode {
    open spec fn obeys_try_from_spec() -> bool {
        true
    }

    open spec fn try_from_spec(v: u8) -> Result<Self, Error> {
        Self::of_code(v)
    }
}

#[derive(Clone, Copy, Debug, PartialEq, Eq, Structural)]
pub struct SlowLabelingCode(pub u16);

#[derive(Clone, Copy, Debug, PartialEq, Eq, Structural)]
pub struct Day(pub u8);

impl Day {
    /// The day of the month `value`; 0 stands for no day.
    pub open spec fn of_code(value: u8) -> Result<Self, Error> {
        match checked(value, 31, "Day") {
            Ok(v) => Ok(Day(v)),
            Err(e) => Err(e),
        }
    }
}

impl TryFrom<u8> for Day {
    type Error = Error;

    fn try_from(value: u8) -> (r: Result<Self, Error>)
        ensures
            r == Self::of_code(value),
            r is Ok <==> value <= 31,
    {
        if value > 31 {
            return Err(Error::InvalidInput { field: "Day", value: value as u16 });
        }
        Ok(Self(value))
    }
}

impl TryFromSpecImpl<u8> for Day {
    open spec fn obeys_try_from_spec() -> bool {
        true
    }

    open spec fn try_from_spec(v: u8) -> Result<Self, Error> {
        Self::of_code(v)
    }
}

#[derive(Clone, Copy, Debug, PartialEq, Eq, Structural)]
pub struct Hour(pub u8);

impl Hour {
    /// The hour `value` of a day.
    pub open spec fn of_code(value: u8) -> Result<Self, Error> {
        match checked(value, 23, "Hour") {
            Ok(v) => Ok(Hour(v)),
            Err(e) => Err(e),
        }
    }
}

impl TryFrom<u8> for Hour {
    type Error = Error;

    fn try_from(value: u8) -> (r: Result<Self, Error>)
        ensures
            r == Self::of_code(value),
            r is Ok <==> value <= 23,
    {
        if value > 23 {
            return Err(Error::InvalidInput { field: "Hour", value: value as u16 });
        }
        Ok(Self(value))
    }
}

impl TryFromSpecImpl<u8> for Hour {
    open spec fn obeys_try_from_spec() -> bool {
        true
    }

    open spec fn try_from_spec(v: u8) -> Result<Self, Error> {
        Self::of_code(v)
    }
}

#[derive(Clone, Copy, Debug, PartialEq, Eq, Structural)]
pub struct Minute(pub u8);

impl Minute {
    /// The minute `value` of an hour.
    pub open spec fn of_code(value: u8) -> Result<Self, Error> {
        match checked(value, 59, "Minute") {
            Ok(v) => Ok(Minute(v)),
            Err(e) => Err(e),
        }
    }
}

impl TryFrom<u8> for Minute {
    type Error = Error;

    fn try_from(value: u8) -> (r: Result<Self, Error>)
        ensures
            r == Self::of_code(value),
            r is Ok <==> value <= 59,
    {
        if value > 59 {
            return Err(Error::InvalidInput { field: "Minute", value: value as u16 });
        }
        Ok(Self(value))
    }
}

impl TryFromSpecImpl<u8> for Minute {
    open spec fn obeys_try_from_spec() -> bool {
        true
    }

    open spec fn try_from_spec(v: u8) -> Result<Self, Error> {
        Self::of_code(v)
    }
}

#[derive(Clone, Copy, Debug, PartialEq, Eq, Structural)]
pub struct ProgramItemNumber {
    pub day: Day,
    pub hour: Hour,
    pub minute: Minute,
}

impl ProgramItemNumber {
    /// The programme item number that `block` stands for: bits 15..11 are the day, bits
    /// 10..6 the hour and bits 5..0 the minute. A minute beyond 59 is refused first, then
    /// an hour beyond 23.
    pub open spec fn of_block(block: Block) -> Result<Self, Error> {
        match Minute::of_code(bit_field(block, 0, 6) as u8) {
            Err(e) => Err(e),
            Ok(minute) => match Hour::of_code(bit_field(block, 6, 5) as u8) {
                Err(e) => Err(e),
                Ok(hour) => Ok(
                    ProgramItemNumber { day: Day(bit_field(block, 11, 5) as u8), hour, minute },
                ),
            },
        }
    }
}

impl TryFrom<Block> for ProgramItemNumber {
    type Error = Error;

    fn try_from(value: u16) -> (r: Result<Self, Error>)
        ensures
            r == Self::of_block(value),
            r is Ok <==> bit_field(value, 0, 6) <= 59 && bit_field(value, 6, 5) <= 23,
    {
        let minute = match Minute::try_from(bits(value, 0, 6) as u8) {
            Ok(minute) => minute,
            Err(e) => { return Err(e); },
        };
        let hour = match Hour::try_from(bits(value, 6, 5) as u8) {
            Ok(hour) => hour,
            Err(e) => { return Err(e); },
        };
        let day = match Day::try_from(bits(value, 11, 5) as u8) {
            Ok(day) => day,
            Err(_) => vstd::pervasive::unreached(),
        };
        Ok(Self { day, hour, minute })
    }
}

impl TryFromSpecImpl<Block> for ProgramItemNumber {
    open spec fn obeys_try_from_spec() -> bool {
        true
    }

    open spec fn try_from_spec(v: Block) -> Result<Self, Error> {
        Self::of_block(v)
    }
}

} // verus!
