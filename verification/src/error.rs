use crate::types::GroupType;
use vstd::prelude::*;

verus! {

/// What can go wrong when a raw value is turned into one of the typed RDS fields.
#[derive(Clone, Copy, Debug, PartialEq, Eq)]
pub enum Error {
    /// `value` does not fit the field described by `field`.
    InvalidInput { field: &'static str, value: u16 },
    /// The group type is known but has no decoder.
    Unimplemented(GroupType),
    /// Anything else.
    Unknown,
}

} // verus!
