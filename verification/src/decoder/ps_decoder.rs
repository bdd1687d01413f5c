use crate::decoder::bitset::{positions_below, Bitset};
use crate::decoder::rds_charset::{rds_char_or_space, to_text_char};
use crate::text::{ProgrammeServiceNameString, PS_SIZE};
use crate::types::ProgrammeServiceName;
use vstd::prelude::*;

verus! {

/// Number of segments in a programme service name.
pub const PS_SEGMENTS: usize = 4;

#[derive(Debug, PartialEq, Eq)]
pub enum PsDecoderError {
    /// The segment index does not address one of the four segments.
    IndexOutOfBounds(usize),
}

/// The state of the programme service name assembler: the eight characters received so
/// far, and the segments that have been written since the name was last cleared.
pub ghost struct PsView {
    pub chars: Seq<char>,
    pub filled: Set<int>,
}

impl PsView {
    /// Eight spaces and no segment written.
    pub open spec fn blank() -> Self {
        PsView { chars: Seq::new(PS_SIZE as nat, |i: int| ' '), filled: Set::empty() }
    }

    /// Whether every one of the four segments has been written.
    pub open spec fn is_complete(self) -> bool {
        positions_below(PS_SEGMENTS as int).subset_of(self.filled)
    }

    /// Whether writing the pair `c0`, `c1` into segment `index` of a complete name would
    /// alter it: the signal that the station has started to send another name.
    pub open spec fn is_change(self, index: int, c0: char, c1: char) -> bool {
        self.is_complete() && (self.chars[2 * index] != c0 || self.chars[2 * index + 1] != c1)
    }

    /// The state after segment `index` arrived with the bytes `b0` and `b1`. A byte without
    /// an RDS character counts as a space. If the pair alters a complete name, the name is
    /// cleared first.
    pub open spec fn push_segment(self, index: int, b0: u8, b1: u8) -> Self {
        let c0 = rds_char_or_space(b0);
        let c1 = rds_char_or_space(b1);
        let base = if self.is_change(index, c0, c1) {
            Self::blank()
        } else {
            self
        };
        PsView {
            chars: base.chars.update(2 * index, c0).update(2 * index + 1, c1),
            filled: base.filled.insert(index),
        }
    }

    /// The name, once every segment has been written.
    pub open spec fn confirmed(self) -> Option<Seq<char>> {
        if self.is_complete() {
            Some(self.chars)
        } else {
            None
        }
    }
}

/// One received segment of a programme service name: its index and its two bytes.
pub ghost struct PsSegment {
    pub index: int,
    pub b0: u8,
    pub b1: u8,
}

/// Whether `segment` is a part of the name whose eight bytes are `name`.
pub open spec fn is_part_of_name(segment: PsSegment, name: Seq<u8>) -> bool {
    &&& 0 <= segment.index < PS_SEGMENTS
    &&& segment.b0 == name[2 * segment.index]
    &&& segment.b1 == name[2 * segment.index + 1]
}

/// The indices of `segments`.
pub open spec fn segment_indices(segments: Seq<PsSegment>) -> Set<int> {
    Set::new(|i: int| exists|k: int| 0 <= k < segments.len() && (#[trigger] segments[k]).index == i)
}

impl PsView {
    /// The state after `segments` arrived, one after the other.
    pub open spec fn push_all(self, segments: Seq<PsSegment>) -> Self
        decreases segments.len(),
    {
        if segments.len() == 0 {
            self
        } else {
            let last = segments.last();
            self.push_all(segments.drop_last()).push_segment(last.index, last.b0, last.b1)
        }
    }

    /// A name is confirmed exactly while each of the four segments is marked as written,
    /// and the blank state confirms none.
    pub proof fn lemma_confirmed_needs_all_segments(self)
        ensures
            self.confirmed() is Some <==> (forall|i: int|
                0 <= i < PS_SEGMENTS ==> self.filled.contains(i)),
            Self::blank().confirmed() is None,
    {
        if self.confirmed() is Some {
            assert forall|i: int| 0 <= i < PS_SEGMENTS implies self.filled.contains(i) by {
                assert(positions_below(PS_SEGMENTS as int).contains(i));
            }
        }
        assert(positions_below(PS_SEGMENTS as int).contains(0));
    }

    /// A segment that alters a complete name clears it: afterwards the new segment is the
    /// only one written, and no name is confirmed until the other three have come again.
    pub proof fn lemma_change_clears_name(self, index: int, b0: u8, b1: u8)
        requires
            0 <= index < PS_SEGMENTS,
            self.is_change(index, rds_char_or_space(b0), rds_char_or_space(b1)),
        ensures
            self.push_segment(index, b0, b1).filled == set![index],
            self.push_segment(index, b0, b1).confirmed() is None,
            self.push_segment(index, b0, b1) == Self::blank().push_segment(index, b0, b1),
    {
        let after = self.push_segment(index, b0, b1);
        assert(after.filled =~= set![index]);
        let other = if index == 0 {
            1
        } else {
            0
        };
        assert(positions_below(PS_SEGMENTS as int).contains(other));
        assert(!Self::blank().is_complete()) by {
            assert(positions_below(PS_SEGMENTS as int).contains(0));
        }
    }

    /// Each segment marks at most its own index: what is marked after some segments was
    /// marked before or is the index of one of them.
    pub proof fn lemma_filled_after_pushes(self, segments: Seq<PsSegment>)
        ensures
            self.push_all(segments).filled.subset_of(self.filled + segment_indices(segments)),
        decreases segments.len(),
    {
        if segments.len() > 0 {
            let rest = segments.drop_last();
            self.lemma_filled_after_pushes(rest);
            assert forall|i: int| self.push_all(segments).filled.contains(i) implies (self.filled
                + segment_indices(segments)).contains(i) by {
                if i == segments.last().index {
                    assert(segments[segments.len() - 1].index == i);
                } else {
                    assert(self.push_all(rest).filled.contains(i));
                    if segment_indices(rest).contains(i) {
                        let k = choose|k: int| 0 <= k < rest.len() && (#[trigger] rest[k]).index == i;
                        assert(segments[k].index == i);
                    }
                }
            }
        }
    }

    /// After a reset, a name is confirmed only once segments with all four indices have
    /// come.
    pub proof fn lemma_confirmation_needs_four_segments(segments: Seq<PsSegment>)
        requires
            Self::blank().push_all(segments).confirmed() is Some,
        ensures
            forall|i: int| 0 <= i < PS_SEGMENTS ==> segment_indices(segments).contains(i),
    {
        let after = Self::blank().push_all(segments);
        Self::blank().lemma_filled_after_pushes(segments);
        after.lemma_confirmed_needs_all_segments();
        assert forall|i: int| 0 <= i < PS_SEGMENTS implies segment_indices(segments).contains(
            i,
        ) by {
            assert(after.filled.contains(i));
            assert((Self::blank().filled + segment_indices(segments)).contains(i));
        }
    }

    /// After a reset, segments that are all parts of one name, in any order and with any
    /// repetition, assemble that name: the written slots hold its characters, and once all
    /// four indices have come the name is confirmed as the eight characters of `name`.
    pub proof fn lemma_parts_assemble_name(segments: Seq<PsSegment>, name: Seq<u8>)
        requires
            name.len() == PS_SIZE,
            forall|k: int| 0 <= k < segments.len() ==> is_part_of_name(#[trigger] segments[k], name),
        ensures
            Self::blank().push_all(segments).filled == segment_indices(segments),
            Self::blank().push_all(segments).chars.len() == PS_SIZE,
            forall|i: int, j: int|
                segment_indices(segments).contains(i) && 0 <= j < 2 ==> Self::blank().push_all(
                    segments,
                ).chars[2 * i + j] == rds_char_or_space(#[trigger] name[2 * i + j]),
            (forall|i: int| 0 <= i < PS_SEGMENTS ==> segment_indices(segments).contains(i))
                ==> Self::blank().push_all(segments).confirmed() == Some(
                Seq::new(PS_SIZE as nat, |p: int| rds_char_or_space(name[p])),
            ),
        decreases segments.len(),
    {
        let after = Self::blank().push_all(segments);
        if segments.len() == 0 {
            assert(after.filled =~= segment_indices(segments));
        } else {
            let rest = segments.drop_last();
            let last = segments.last();
            let before = Self::blank().push_all(rest);
            Self::lemma_parts_assemble_name(rest, name);
            assert(is_part_of_name(segments[segments.len() - 1], name));
            let c0 = rds_char_or_space(last.b0);
            let c1 = rds_char_or_space(last.b1);
            if before.is_complete() {
                assert(positions_below(PS_SEGMENTS as int).contains(last.index));
                assert(before.chars[2 * last.index + 0] == rds_char_or_space(
                    name[2 * last.index + 0],
                ));
                assert(before.chars[2 * last.index + 1] == rds_char_or_space(
                    name[2 * last.index + 1],
                ));
            }
            assert(!before.is_change(last.index, c0, c1));
            assert(after.filled =~= segment_indices(segments)) by {
                assert forall|i: int| after.filled.contains(i) <==> segment_indices(
                    segments,
                ).contains(i) by {
                    if i == last.index {
                        assert(segments[segments.len() - 1].index == i);
                    }
                    if segment_indices(rest).contains(i) {
                        let k = choose|k: int| 0 <= k < rest.len() && (#[trigger] rest[k]).index == i;
                        assert(segments[k].index == i);
                    }
                    if segment_indices(segments).contains(i) && i != last.index {
                        let k = choose|k: int|
                            0 <= k < segments.len() && (#[trigger] segments[k]).index == i;
                        assert(rest[k].index == i);
                    }
                }
            }
            assert forall|i: int, j: int|
                segment_indices(segments).contains(i) && 0 <= j < 2 implies after.chars[2 * i + j]
                == rds_char_or_space(#[trigger] name[2 * i + j]) by {
                if i != last.index {
                    assert(before.filled.contains(i));
                    assert(before.chars[2 * i + j] == rds_char_or_space(name[2 * i + j]));
                }
            }
        }
        if forall|i: int| 0 <= i < PS_SEGMENTS ==> segment_indices(segments).contains(i) {
            assert(after.is_complete());
            assert(after.chars =~= Seq::new(PS_SIZE as nat, |p: int| rds_char_or_space(name[p]))) by {
                assert forall|p: int| 0 <= p < PS_SIZE implies after.chars[p] == rds_char_or_space(
                    name[p],
                ) by {
                    let i = p / 2;
                    let j = p % 2;
                    assert(segment_indices(segments).contains(i));
                    assert(after.chars[2 * i + j] == rds_char_or_space(name[2 * i + j]));
                }
            }
        }
    }
}

/// Decoder for Programme Service Name (PS)
#[derive(Debug)]
pub struct PsDecoder {
    segments: [char; PS_SIZE],
    is_chars_set: Bitset<PS_SEGMENTS>,
}

impl View for PsDecoder {
    type V = PsView;

    closed spec fn view(&self) -> PsView {
        PsView { chars: self.segments@, filled: self.is_chars_set@ }
    }
}

impl PsDecoder {
    /// Creates new PsDecoder
    pub fn new() -> (d: Self)
        ensures
            d@ == PsView::blank(),
    {
        let d = Self { segments: [' ';PS_SIZE], is_chars_set: Bitset::default() };
        assert(d@.chars =~= PsView::blank().chars);
        d
    }

    /// Push new PS segment
    ///
    /// Resets the segments if different segment is pushed when all segments are already set.
    pub fn push_segment(&mut self, index: usize, segment_bytes: [u8; 2]) -> (r: Result<
        (),
        PsDecoderError,
    >)
        ensures
            index >= PS_SEGMENTS ==> r == Err::<(), PsDecoderError>(
                PsDecoderError::IndexOutOfBounds(index),
            ) && final(self)@ == old(self)@,
            index < PS_SEGMENTS ==> r is Ok && final(self)@ == old(self)@.push_segment(
                index as int,
                segment_bytes[0],
                segment_bytes[1],
            ),
    {
        if index >= PS_SEGMENTS {
            return Err(PsDecoderError::IndexOutOfBounds(index));
        }
        let current_index1 = 2 * index;
        let current_index2 = (2 * index) + 1;

        let char1 = to_text_char(segment_bytes[0]);
        let char2 = to_text_char(segment_bytes[1]);

        let differs = self.segments[current_index1] != char1 || self.segments[current_index2]
            != char2;
        if self.is_chars_set.all() && differs {
            self.segments = [' ';PS_SIZE];
            self.is_chars_set.reset();
            assert(self@.chars =~= PsView::blank().chars);
        }
        self.segments[current_index1] = char1;
        self.segments[current_index2] = char2;
        let _ = self.is_chars_set.set_bit(index);
        Ok(())
    }

    /// Confirms if complete PS has been ready.
    ///
    /// - If ready, returns PS.
    /// - If not, returns `None`.
    pub fn confirmed(&self) -> (r: Option<ProgrammeServiceName>)
        ensures
            match r {
                Some(name) => self@.confirmed() == Some(name@) && name@.len() == PS_SIZE,
                None => self@.confirmed() is None,
            },
    {
        if !self.is_chars_set.all() {
            return None;
        }
        match ProgrammeServiceNameString::from_chars(&self.segments) {
            Some(ps) => Some(ProgrammeServiceName::new(ps)),
            None => None,
        }
    }

    pub fn reset(&mut self)
        ensures
            final(self)@ == PsView::blank(),
    {
        self.segments = [' ';PS_SIZE];
        self.is_chars_set.reset();
        assert(self@.chars =~= PsView::blank().chars);
    }

    /// The eight characters received so far; a space where none has arrived.
    pub fn segments(&self) -> (chars: &[char; PS_SIZE])
        ensures
            chars@ == self@.chars,
    {
        &self.segments
    }

    /// Whether all four segments have been written.
    pub fn is_complete(&self) -> (r: bool)
        ensures
            r == self@.is_complete(),
    {
        self.is_chars_set.all()
    }
}

} // verus!
