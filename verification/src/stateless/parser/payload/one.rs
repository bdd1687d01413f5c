//! Type 1 groups: programme item number and slow labelling codes.
use crate::bits::{bit_field, bits};
use crate::stateless::parser::payload::{
    Day, ProgramItemNumber, RadioPagingCode, SlowLabelingCode,
};
use crate::stateless::parser::{Block, Error};
use vstd::prelude::*;

verus! {

/// The programme item number in Block 4 of a type 1 group. Day 0 means that none is sent.
pub open spec fn item_number(block4: Block) -> Result<Option<ProgramItemNumber>, Error> {
    match ProgramItemNumber::of_block(block4) {
        Err(e) => Err(e),
        Ok(pin) => if pin.day == Day(0) {
            Ok(None)
        } else {
            Ok(Some(pin))
        },
    }
}

fn parse_block4(block4: &Block) -> (r: Result<Option<ProgramItemNumber>, Error>)
    ensures
        r == item_number(*block4),
{
    let pin = match ProgramItemNumber::try_from(*block4) {
        Ok(pin) => pin,
        Err(e) => { return Err(e); },
    };
    if pin.day.0 == 0 {
        return Ok(None);
    }
    Ok(Some(pin))
}

/// Payload of a group 1A.
#[derive(Clone, Copy, Debug, PartialEq, Eq)]
pub struct A {
    pub radio_paging_code: RadioPagingCode,
    pub slow_labelling_code: SlowLabelingCode,
    pub pin: Option<ProgramItemNumber>,
}

impl A {
    /// The payload of a group 1A: bits 4..0 of Block 2 are the radio paging code, Block 3
    /// is the slow labelling code and Block 4 the programme item number. The group is
    /// refused if the programme item number is.
    pub open spec fn of_blocks(block2: Block, block3: Block, block4: Block) -> Result<Self, Error> {
        match item_number(block4) {
            Err(e) => Err(e),
            Ok(pin) => Ok(
                A {
                    radio_paging_code: RadioPagingCode::of_code(
                        bit_field(block2, 0, 5) as u8,
                    ).unwrap(),
                    slow_labelling_code: SlowLabelingCode(block3),
                    pin,
                },
            ),
        }
    }

    pub fn new(block2: &Block, block3: &Block, block4: &Block) -> (r: Result<Self, Error>)
        ensures
            r == Self::of_blocks(*block2, *block3, *block4),
    {
        let radio_paging_code = match RadioPagingCode::try_from(bits(*block2, 0, 5) as u8) {
            Ok(code) => code,
            Err(_) => vstd::pervasive::unreached(),
        };
        let slow_labelling_code = SlowLabelingCode(*block3);
        let pin = match parse_block4(block4) {
            Ok(pin) => pin,
            Err(e) => { return Err(e); },
        };
        Ok(Self { radio_paging_code, slow_labelling_code, pin })
    }
}

/// Payload of a group 1B.
#[derive(Clone, Copy, Debug, PartialEq, Eq)]
pub struct B {
    pub pin: Option<ProgramItemNumber>,
}

impl B {
    /// The payload of a group 1B: the programme item number in Block 4.
    pub open spec fn of_block(block4: Block) -> Result<Self, Error> {
        match item_number(block4) {
            Err(e) => Err(e),
            Ok(pin) => Ok(B { pin }),
        }
    }

    pub fn new(block4: &Block) -> (r: Result<Self, Error>)
        ensures
            r == Self::of_block(*block4),
    {
        match parse_block4(block4) {
            Ok(pin) => Ok(Self { pin }),
            Err(e) => Err(e),
        }
    }
}

} // verus!
