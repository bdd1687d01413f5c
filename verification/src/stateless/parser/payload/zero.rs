//! Type 0 groups: basic tuning and switching information.
use crate::bits::{be_bytes, bit_field, bit_flag, bits, flag, high_byte, low_byte};
use crate::stateless::parser::payload::DecoderIdentifer;
use crate::stateless::parser::{Block, Error};
use crate::stateless::types::psaf::{AlternativeFreqCode, MusicSpeechCode};
use crate::stateless::types::ProgramIdentifier;
use vstd::prelude::*;

verus! {

fn parse_block2(block2: &Block) -> (r: (bool, MusicSpeechCode, DecoderIdentifer))
    ensures
        r.0 == bit_flag(*block2, 4),
        r.1 == MusicSpeechCode::of_bit(bit_flag(*block2, 3)),
        r.2 == DecoderIdentifer::of_bits(bit_field(*block2, 0, 3) as u8),
{
    let ta = flag(*block2, 4);
    let ms = MusicSpeechCode::from(flag(*block2, 3));
    let di = match DecoderIdentifer::from_bits(bits(*block2, 0, 3) as u8) {
        Some(di) => di,
        None => vstd::pervasive::unreached(),
    };
    (ta, ms, di)
}

fn parse_block4(block4: &Block) -> (r: [char; 2])
    ensures
        r == [high_byte(*block4) as char, low_byte(*block4) as char],
{
    let bytes = be_bytes(*block4);
    let chars = [bytes[0] as char, bytes[1] as char];
    assert(chars =~= [high_byte(*block4) as char, low_byte(*block4) as char]);
    chars
}

/// Payload of a group 0A.
#[derive(Clone, Copy, Debug, PartialEq, Eq)]
pub struct A {
    pub ta: bool,
    pub ms: MusicSpeechCode,
    pub di: DecoderIdentifer,
    pub alternative_freq: (AlternativeFreqCode, AlternativeFreqCode),
    pub ps_segment: [char; 2],
}

impl A {
    /// The payload of a group 0A: in Block 2, bit 4 is the traffic announcement flag, bit 3
    /// the music/speech switch, and bits 2..0 are decoder identifier flags; the bytes of
    /// Block 3 are two alternative frequency codes, those of Block 4 two characters of the
    /// programme service name.
    pub open spec fn of_blocks(block2: Block, block3: Block, block4: Block) -> Self {
        A {
            ta: bit_flag(block2, 4),
            ms: MusicSpeechCode::of_bit(bit_flag(block2, 3)),
            di: DecoderIdentifer::of_bits(bit_field(block2, 0, 3) as u8),
            alternative_freq: (
                AlternativeFreqCode::of_code(high_byte(block3)),
                AlternativeFreqCode::of_code(low_byte(block3)),
            ),
            ps_segment: [high_byte(block4) as char, low_byte(block4) as char],
        }
    }

    pub fn new(block2: &Block, block3: &Block, block4: &Block) -> (r: Self)
        ensures
            r == Self::of_blocks(*block2, *block3, *block4),
    {
        let (ta, ms, di) = parse_block2(block2);
        let alternative_freq = Self::parse_block3(block3);
        let ps_segment = parse_block4(block4);
        Self { ta, ms, di, alternative_freq, ps_segment }
    }

    fn parse_block3(block3: &Block) -> (r: (AlternativeFreqCode, AlternativeFreqCode))
        ensures
            r.0 == AlternativeFreqCode::of_code(high_byte(*block3)),
            r.1 == AlternativeFreqCode::of_code(low_byte(*block3)),
    {
        let bytes = be_bytes(*block3);
        (AlternativeFreqCode::from(bytes[0]), AlternativeFreqCode::from(bytes[1]))
    }
}

/// Payload of a group 0B.
#[derive(Clone, Copy, Debug, PartialEq, Eq)]
pub struct B {
    pub ta: bool,
    pub ms: MusicSpeechCode,
    pub di: DecoderIdentifer,
    pub ps_segment: [char; 2],
}

impl B {
    /// The payload of a group 0B: as that of a group 0A without the alternative
    /// frequencies. Block 3 repeats the programme identifier; a group in which it differs
    /// from Block 1 is refused, with Block 3 in the error.
    pub open spec fn of_blocks(pi: ProgramIdentifier, block2: Block, block3: Block, block4: Block)
        -> Result<Self, Error> {
        if pi.0 != block3 {
            Err(Error::InvalidInput { field: "Block3 ProgramIdentifier", value: block3 })
        } else {
            Ok(
                B {
                    ta: bit_flag(block2, 4),
                    ms: MusicSpeechCode::of_bit(bit_flag(block2, 3)),
                    di: DecoderIdentifer::of_bits(bit_field(block2, 0, 3) as u8),
                    ps_segment: [high_byte(block4) as char, low_byte(block4) as char],
                },
            )
        }
    }

    pub fn new(pi: &ProgramIdentifier, block2: &Block, block3: &Block, block4: &Block) -> (r:
        Result<Self, Error>)
        ensures
            r == Self::of_blocks(*pi, *block2, *block3, *block4),
            r is Ok <==> pi.0 == *block3,
    {
        let (ta, ms, di) = parse_block2(block2);
        if pi.0 != *block3 {
            return Err(Error::InvalidInput { field: "Block3 ProgramIdentifier", value: *block3 });
        }
        let ps_segment = parse_block4(block4);
        Ok(Self { ta, ms, di, ps_segment })
    }
}

} // verus!
