//! Types for Type 2 Group: RadioText.
use vstd::prelude::*;

verus! {

/// Flag used to clear the screen if a change occurs.
#[derive(Clone, Copy, Debug, PartialEq, Eq, Structural)]
pub struct TextAB(pub bool);

/// Position of the Text Segments.
#[derive(Clone, Copy, Debug, PartialEq, Eq, Structural)]
pub struct TextAddressCode(pub u8);

/// Partial Segment of RadioText.
#[derive(Clone, Copy, Debug, PartialEq, Eq)]
pub struct RadioTextSegment(pub [char; 2]);

} // verus!
