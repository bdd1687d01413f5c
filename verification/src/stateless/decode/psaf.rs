//! Decoder for Type 0 Group: Basic tuning and switching information.
//! Fields include Program Service Name (PS) and Alternative Frequency (AF).
use crate::bits::{be_bytes, bit_field, bit_flag, bits, flag, high_byte, low_byte};
use crate::stateless::decode::shared::group_code;
use crate::stateless::types::psaf::{
    AlternativeFreqCode, CharacterSegment, DecoderIdentifierCode, MusicSpeechCode, PsSegment,
    TrafficAnnouncementCode,
};
use crate::stateless::types::{ProgramIdentifier, ZeroAPayload, ZeroBPayload};
use crate::types::{Block2, Block3, Block4};
use vstd::prelude::*;

verus! {

/// The two characters that the bytes of `block` stand for, each byte taken as the
/// Unicode scalar of its number.
pub open spec fn block_chars(block: u16) -> Seq<char> {
    seq![high_byte(block) as char, low_byte(block) as char]
}

/// The payload of a group 0A: in Block 2, bit 4 is the traffic announcement flag, bit 3 the
/// music/speech switch, bit 2 one bit of the decoder identifier, and bits 1..0 say which;
/// the bytes of Block 3 are two alternative frequency codes, those of Block 4 two
/// characters of the programme service name.
pub open spec fn zero_a_payload(block2: Block2, block3: Block3, block4: Block4) -> ZeroAPayload {
    ZeroAPayload {
        ta: TrafficAnnouncementCode(bit_flag(block2.0, 4)),
        ms: MusicSpeechCode::of_bit(bit_flag(block2.0, 3)),
        di: DecoderIdentifierCode(bit_flag(block2.0, 2)),
        cs: CharacterSegment(bit_field(block2.0, 0, 2) as usize),
        af: (
            AlternativeFreqCode::of_code(high_byte(block3.0)),
            AlternativeFreqCode::of_code(low_byte(block3.0)),
        ),
        ps_segment: PsSegment(
            [high_byte(block4.0) as char, low_byte(block4.0) as char],
        ),
    }
}

/// The payload of a group 0B: as that of a group 0A, but Block 3 repeats the programme
/// identifier.
pub open spec fn zero_b_payload(block2: Block2, block3: Block3, block4: Block4) -> ZeroBPayload {
    ZeroBPayload {
        ta: TrafficAnnouncementCode(bit_flag(block2.0, 4)),
        ms: MusicSpeechCode::of_bit(bit_flag(block2.0, 3)),
        di: DecoderIdentifierCode(bit_flag(block2.0, 2)),
        cs: CharacterSegment(bit_field(block2.0, 0, 2) as usize),
        pi: ProgramIdentifier(block3.0),
        ps_segment: PsSegment(
            [high_byte(block4.0) as char, low_byte(block4.0) as char],
        ),
    }
}

fn decode_block2(block: &Block2) -> (r: (
    TrafficAnnouncementCode,
    MusicSpeechCode,
    DecoderIdentifierCode,
    CharacterSegment,
))
    ensures
        r.0 == TrafficAnnouncementCode(bit_flag(block.0, 4)),
        r.1 == MusicSpeechCode::of_bit(bit_flag(block.0, 3)),
        r.2 == DecoderIdentifierCode(bit_flag(block.0, 2)),
        r.3 == CharacterSegment(bit_field(block.0, 0, 2) as usize),
        r.3.0 <= 3,
{
    (
        TrafficAnnouncementCode(flag(block.0, 4)),
        MusicSpeechCode::from(flag(block.0, 3)),
        DecoderIdentifierCode(flag(block.0, 2)),
        CharacterSegment(bits(block.0, 0, 2) as usize),
    )
}

fn decode_block3(block: &Block3) -> (r: (AlternativeFreqCode, AlternativeFreqCode))
    ensures
        r.0 == AlternativeFreqCode::of_code(high_byte(block.0)),
        r.1 == AlternativeFreqCode::of_code(low_byte(block.0)),
{
    let bytes = be_bytes(block.0);
    (AlternativeFreqCode::from(bytes[0]), AlternativeFreqCode::from(bytes[1]))
}

fn decode_block4(block: &Block4) -> (r: PsSegment)
    ensures
        r.0@ == block_chars(block.0),
{
    let bytes = be_bytes(block.0);
    let segment = PsSegment([bytes[0] as char, bytes[1] as char]);
    assert(segment.0@ =~= block_chars(block.0));
    segment
}

/// Decode RDS Message of Group Type 0A
/// Assumes that the Group Type has been already checked to be 0A.
pub fn decode_0a(block2: &Block2, block3: &Block3, block4: &Block4) -> (r: ZeroAPayload)
    requires
        group_code(*block2) == 0,
    ensures
        r == zero_a_payload(*block2, *block3, *block4),
        r.cs.0 <= 3,
{
    let (ta, ms, di, cs) = decode_block2(block2);
    let af = decode_block3(block3);
    let ps_segment = decode_block4(block4);
    let r = ZeroAPayload { ta, ms, di, cs, af, ps_segment };
    assert(r.ps_segment.0 =~= zero_a_payload(*block2, *block3, *block4).ps_segment.0);
    r
}

/// Decode RDS Message of Group Type 0B.
/// Assumes that the Group Type has been already checked to be 0B.
pub fn decode_0b(block2: &Block2, block3: &Block3, block4: &Block4) -> (r: ZeroBPayload)
    requires
        group_code(*block2) == 1,
    ensures
        r == zero_b_payload(*block2, *block3, *block4),
        r.cs.0 <= 3,
{
    let (ta, ms, di, cs) = decode_block2(block2);
    let pi = ProgramIdentifier(block3.0);
    let ps_segment = decode_block4(block4);
    let r = ZeroBPayload { ta, ms, di, cs, pi, ps_segment };
    assert(r.ps_segment.0 =~= zero_b_payload(*block2, *block3, *block4).ps_segment.0);
    r
}

} // verus!
