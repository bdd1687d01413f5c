//! Decoder for Type 2 Group: RadioText.
use crate::bits::{be_bytes, bit_field, bit_flag, bits, flag, high_byte, low_byte};
use crate::stateless::decode::shared::group_code;
use crate::stateless::types::rt::{RadioTextSegment, TextAB, TextAddressCode};
use crate::stateless::types::{ProgramIdentifier, TwoAPayload, TwoBPayload};
use crate::types::{Block2, Block3, Block4};
use vstd::prelude::*;

verus! {

/// The two characters of RadioText that `block` carries, each byte taken as the Unicode
/// scalar of its number.
pub open spec fn rt_segment(block: u16) -> RadioTextSegment {
    RadioTextSegment([high_byte(block) as char, low_byte(block) as char])
}

/// The payload of a group 2A: in Block 2, bit 4 is the A/B flag and bits 3..0 are the
/// address of the segment; blocks 3 and 4 carry two characters each.
pub open spec fn two_a_payload(block2: Block2, block3: Block3, block4: Block4) -> TwoAPayload {
    TwoAPayload {
        text_ab: TextAB(bit_flag(block2.0, 4)),
        text_addr_code: TextAddressCode(bit_field(block2.0, 0, 4) as u8),
        rt_segment: (rt_segment(block3.0), rt_segment(block4.0)),
    }
}

/// The payload of a group 2B: as that of a group 2A, but Block 3 repeats the programme
/// identifier and only Block 4 carries characters.
pub open spec fn two_b_payload(block2: Block2, block3: Block3, block4: Block4) -> TwoBPayload {
    TwoBPayload {
        text_ab: TextAB(bit_flag(block2.0, 4)),
        text_addr_code: TextAddressCode(bit_field(block2.0, 0, 4) as u8),
        pi: ProgramIdentifier(block3.0),
        rt_segment: rt_segment(block4.0),
    }
}

fn decode_block2(block: &Block2) -> (r: (TextAB, TextAddressCode))
    ensures
        r.0 == TextAB(bit_flag(block.0, 4)),
        r.1 == TextAddressCode(bit_field(block.0, 0, 4) as u8),
        r.1.0 <= 15,
{
    (TextAB(flag(block.0, 4)), TextAddressCode(bits(block.0, 0, 4) as u8))
}

fn decode_rt_segment(block: u16) -> (r: RadioTextSegment)
    ensures
        r == rt_segment(block),
{
    let bytes = be_bytes(block);
    let segment = RadioTextSegment([bytes[0] as char, bytes[1] as char]);
    assert(segment.0 =~= rt_segment(block).0);
    segment
}

/// Decode RDS Message of Group Type 2A.
/// Assumes that the Group Type has been already checked to be 2A.
pub fn decode_2a(block2: &Block2, block3: &Block3, block4: &Block4) -> (r: TwoAPayload)
    requires
        group_code(*block2) == 4,
    ensures
        r == two_a_payload(*block2, *block3, *block4),
        r.text_addr_code.0 <= 15,
{
    let (text_ab, text_addr_code) = decode_block2(block2);
    let rt_segment = (decode_rt_segment(block3.0), decode_rt_segment(block4.0));
    TwoAPayload { text_ab, text_addr_code, rt_segment }
}

/// Decode RDS Message of Group Type 2B.
/// Assumes that the Group Type has been already checked to be 2B.
pub fn decode_2b(block2: &Block2, block3: &Block3, block4: &Block4) -> (r: TwoBPayload)
    requires
        group_code(*block2) == 5,
    ensures
        r == two_b_payload(*block2, *block3, *block4),
        r.text_addr_code.0 <= 15,
{
    let (text_ab, text_addr_code) = decode_block2(block2);
    let pi = ProgramIdentifier(block3.0);
    let rt_segment = decode_rt_segment(block4.0);
    TwoBPayload { text_ab, text_addr_code, pi, rt_segment }
}

} // verus!
