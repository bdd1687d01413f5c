use crate::bits::{bit_field, bit_flag, bits, flag, lemma_bit_field_max};
use crate::types::{Block2, GroupType, GroupVariant, ProgrammeType, TrafficProgram};
use vstd::prelude::*;
use vstd::std_specs::convert::FromSpecImpl;

verus! {

/// Struct containing fields inside Block2 that are always present in all RDS messages regardless of Group Type.
#[derive(Clone, Copy, Debug, PartialEq, Eq)]
pub struct Shared {
    pub gt: GroupType,
    pub gv: GroupVariant,
    pub tp: TrafficProgram,
    pub pty: ProgrammeType,
}

impl Shared {
    /// The header of Block 2: bits 15..12 are the group type, bit 11 is the group variant
    /// (set for B), bit 10 is the traffic programme flag, bits 9..5 are the programme type.
    pub open spec fn of_block2(block: Block2) -> Shared {
        Shared {
            gt: GroupType(bit_field(block.0, 12, 4) as u8),
            gv: if bit_flag(block.0, 11) {
                GroupVariant::B
            } else {
                GroupVariant::A
            },
            tp: TrafficProgram(bit_flag(block.0, 10)),
            pty: ProgrammeType(bit_field(block.0, 5, 5) as u8),
        }
    }

    /// The group type of a header fits in four bits and its programme type in five.
    pub proof fn lemma_fields_in_range(block: Block2)
        ensures
            Self::of_block2(block).gt.0 <= 15,
            Self::of_block2(block).pty.0 <= 31,
    {
        lemma_bit_field_max(block.0, 12, 4);
        lemma_bit_field_max(block.0, 5, 5);
    }
}

impl From<Block2> for Shared {
    /// Splits the header of Block 2 into its fields.
    fn from(value: Block2) -> (r: Self)
        ensures
            r == Self::of_block2(value),
            r.gt.0 <= 15,
            r.pty.0 <= 31,
    {
        Self {
            gt: GroupType(bits(value.0, 12, 4) as u8),
            gv: GroupVariant::from(flag(value.0, 11)),
            tp: TrafficProgram(flag(value.0, 10)),
            pty: ProgrammeType(bits(value.0, 5, 5) as u8),
        }
    }
}

impl FromSpecImpl<Block2> for Shared {
    open spec fn obeys_from_spec() -> bool {
        true
    }

    open spec fn from_spec(v: Block2) -> Self {
        Self::of_block2(v)
    }
}

} // verus!
