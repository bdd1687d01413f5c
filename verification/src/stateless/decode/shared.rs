//! Decoder for RDS shared structure.
use crate::bits::{bit_field, bit_flag, bits, flag};
use crate::stateless::types::{GroupType, ProgramIdentifier, ProgramType, TrafficProgramCode};
use crate::types::{Block1, Block2};
use vstd::prelude::*;

verus! {

/// Information that will always be represent in every RDS/RBDS message.
#[derive(Clone, Copy, Debug, PartialEq, Eq)]
pub struct Shared {
    pub pi: ProgramIdentifier,
    pub group_type: GroupType,
    pub tp: TrafficProgramCode,
    pub pty: ProgramType,
}

/// The five bits of Block 2 that name the group type: the group number and the variant.
pub open spec fn group_code(block2: Block2) -> u8 {
    bit_field(block2.0, 11, 5) as u8
}

impl Shared {
    /// What blocks 1 and 2 tell of every group: Block 1 is the programme identifier; in
    /// Block 2, bits 15..11 are the group type with its variant, bit 10 is the traffic
    /// programme flag and bits 9..5 are the programme type.
    pub open spec fn of_blocks(block1: Block1, block2: Block2) -> Shared {
        Shared {
            pi: ProgramIdentifier(block1.0),
            group_type: GroupType::from_code(group_code(block2)).unwrap(),
            tp: TrafficProgramCode(bit_flag(block2.0, 10)),
            pty: ProgramType(bit_field(block2.0, 5, 5) as u8),
        }
    }

    /// Decode Block1 and Block2 for shared information.
    pub fn new(block1: &Block1, block2: &Block2) -> (r: Self)
        ensures
            r == Self::of_blocks(*block1, *block2),
            r.group_type.code() == group_code(*block2),
            group_code(*block2) < 32,
            r.pty.0 <= 31,
    {
        let pty_value = bits(block2.0, 5, 5) as u8;
        let tp_value = flag(block2.0, 10);
        let gt_value = bits(block2.0, 11, 5) as u8;
        proof {
            GroupType::ZeroA.lemma_code_round_trip(gt_value);
        }
        let group_type = match GroupType::n(gt_value) {
            Some(group_type) => group_type,
            None => GroupType::ZeroA,
        };
        Self {
            pi: ProgramIdentifier(block1.0),
            group_type,
            tp: TrafficProgramCode(tp_value),
            pty: ProgramType(pty_value),
        }
    }
}

} // verus!
