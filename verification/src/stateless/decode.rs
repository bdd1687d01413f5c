//! Decoder of single groups.
use crate::stateless::decode::psaf::{decode_0a, decode_0b, zero_a_payload, zero_b_payload};
use crate::stateless::decode::rt::{decode_2a, decode_2b, two_a_payload, two_b_payload};
use crate::stateless::decode::shared::{group_code, Shared};
use crate::stateless::error::Error;
use crate::stateless::types::{GroupType, Message, Payload};
use crate::types::{Block1, Block2, Block3, Block4};
use vstd::prelude::*;

pub mod psaf;
pub mod rt;
pub mod shared;

verus! {

/// The group types that have a decoder.
pub open spec fn is_decoded(group_type: GroupType) -> bool {
    group_type == GroupType::ZeroA || group_type == GroupType::ZeroB || group_type
        == GroupType::TwoA || group_type == GroupType::TwoB
}

/// The payload of a group of type `group_type`. Only the groups 0A, 0B, 2A and 2B are
/// decoded; any other group type is reported as not implemented.
pub open spec fn payload_of(
    group_type: GroupType,
    block2: Block2,
    block3: Block3,
    block4: Block4,
) -> Result<Payload, Error> {
    match group_type {
        GroupType::ZeroA => Ok(Payload::ZeroA(zero_a_payload(block2, block3, block4))),
        GroupType::ZeroB => Ok(Payload::ZeroB(zero_b_payload(block2, block3, block4))),
        GroupType::TwoA => Ok(Payload::TwoA(two_a_payload(block2, block3, block4))),
        GroupType::TwoB => Ok(Payload::TwoB(two_b_payload(block2, block3, block4))),
        _ => Err(Error::Unimplemented(group_type)),
    }
}

/// The message that the four blocks of a group stand for.
pub open spec fn message_of(block1: Block1, block2: Block2, block3: Block3, block4: Block4)
    -> Result<Message, Error> {
    let shared = Shared::of_blocks(block1, block2);
    match payload_of(shared.group_type, block2, block3, block4) {
        Ok(payload) => Ok(
            Message {
                pi: shared.pi,
                group_type: shared.group_type,
                tp: shared.tp,
                pty: shared.pty,
                payload,
            },
        ),
        Err(e) => Err(e),
    }
}

impl Payload {
    /// Decodes the payload of a group of type `group_type`. A group type that is decoded
    /// must be the one that `block2` names; any other is reported as not implemented,
    /// whatever the blocks hold.
    pub fn new(group_type: &GroupType, block2: &Block2, block3: &Block3, block4: &Block4) -> (r:
        Result<Self, Error>)
        requires
            is_decoded(*group_type) ==> group_type.code() == group_code(*block2),
        ensures
            r == payload_of(*group_type, *block2, *block3, *block4),
            r matches Ok(payload) ==> payload.group_type() == *group_type,
            r is Ok <==> is_decoded(*group_type),
    {
        proof {
            crate::bits::lemma_bit_field_max(block2.0, 11, 5);
        }
        match group_type {
            GroupType::ZeroA => Ok(Self::ZeroA(decode_0a(block2, block3, block4))),
            GroupType::ZeroB => Ok(Self::ZeroB(decode_0b(block2, block3, block4))),
            GroupType::TwoA => Ok(Self::TwoA(decode_2a(block2, block3, block4))),
            GroupType::TwoB => Ok(Self::TwoB(decode_2b(block2, block3, block4))),
            _ => Err(Error::Unimplemented(*group_type)),
        }
    }
}

/// Decode RDS/RBDS Message from RDS Blocks
pub fn from_blocks(block1: &Block1, block2: &Block2, block3: &Block3, block4: &Block4) -> (r:
    Result<Message, Error>)
    ensures
        r == message_of(*block1, *block2, *block3, *block4),
        r is Ok <==> (group_code(*block2) == 0 || group_code(*block2) == 1 || group_code(*block2)
            == 4 || group_code(*block2) == 5),
        r matches Err(e) ==> e == Error::Unimplemented(
            Shared::of_blocks(*block1, *block2).group_type,
        ),
{
    let shared = Shared::new(block1, block2);
    proof {
        shared.group_type.lemma_code_round_trip(group_code(*block2));
    }
    match Payload::new(&shared.group_type, block2, block3, block4) {
        Ok(payload) => Ok(
            Message {
                pi: shared.pi,
                group_type: shared.group_type,
                tp: shared.tp,
                pty: shared.pty,
                payload,
            },
        ),
        Err(e) => Err(e),
    }
}

} // verus!
