use crate::decoder::mode_filter::{Error, ModeFilter, ModeFilterView};
use vstd::prelude::*;

verus! {

/// Number of segments in a programme service name.
pub const NUM_SEGMENTS: usize = 4;

/// Number of characters in one segment.
pub const SEGMENT_SIZE: usize = 2;

/// The state of a programme service name filter: one mode filter for each of the four
/// segments, over pairs of raw bytes.
pub ghost struct PsFilterView {
    pub segments: Seq<ModeFilterView<(u8, u8)>>,
}

impl PsFilterView {
    /// Four filters of `size` slots that have seen no sample.
    pub open spec fn blank(size: nat, min_count: nat) -> Self {
        PsFilterView {
            segments: Seq::new(
                NUM_SEGMENTS as nat,
                |i: int| ModeFilterView::<(u8, u8)>::blank(size, min_count),
            ),
        }
    }

    /// The state after the pair `chars` arrived for segment `index`. An index that
    /// addresses no segment changes nothing.
    pub open spec fn push_segment(self, index: int, chars: (u8, u8)) -> Self {
        if 0 <= index < NUM_SEGMENTS {
            PsFilterView { segments: self.segments.update(index, self.segments[index].push(chars)) }
        } else {
            self
        }
    }

    /// The eight bytes of the name, once each of the four filters reports a pair.
    pub open spec fn confirmed(self) -> Option<Seq<u8>> {
        if forall|i: int| 0 <= i < NUM_SEGMENTS ==> (#[trigger] self.segments[i].mode()) is Some {
            Some(
                Seq::new(
                    (NUM_SEGMENTS * SEGMENT_SIZE) as nat,
                    |k: int|
                        if k % 2 == 0 {
                            self.segments[k / 2].mode().unwrap().0
                        } else {
                            self.segments[k / 2].mode().unwrap().1
                        },
                ),
            )
        } else {
            None
        }
    }
}

/// A programme service name assembler that takes a majority vote on each segment: a
/// segment counts once the same pair of bytes has come often enough within the last `N`.
#[derive(Debug)]
pub struct PsFilter<const N: usize> {
    segment0: ModeFilter<(u8, u8), N>,
    segment1: ModeFilter<(u8, u8), N>,
    segment2: ModeFilter<(u8, u8), N>,
    segment3: ModeFilter<(u8, u8), N>,
}

impl<const N: usize> View for PsFilter<N> {
    type V = PsFilterView;

    closed spec fn view(&self) -> PsFilterView {
        PsFilterView { segments: seq![self.segment0@, self.segment1@, self.segment2@, self.segment3@] }
    }
}

impl<const N: usize> PsFilter<N> {
    pub fn new(min_count: usize) -> (r: Result<Self, Error>)
        ensures
            match r {
                Ok(filter) => min_count <= N && filter@ == PsFilterView::blank(
                    N as nat,
                    min_count as nat,
                ),
                Err(e) => min_count > N && e == (Error::MinCountExceedsSize { min_count, size: N }),
            },
    {
        if min_count > N {
            return Err(Error::MinCountExceedsSize { min_count, size: N });
        }
        let filter = Self {
            segment0: ModeFilter::new(min_count).unwrap(),
            segment1: ModeFilter::new(min_count).unwrap(),
            segment2: ModeFilter::new(min_count).unwrap(),
            segment3: ModeFilter::new(min_count).unwrap(),
        };
        assert(filter@.segments =~= PsFilterView::blank(N as nat, min_count as nat).segments);
        Ok(filter)
    }

    /// Feeds the pair `chars` to the filter of segment `index`. An index beyond the four
    /// segments changes nothing.
    pub fn push_segment(&mut self, index: usize, chars: [u8; 2])
        requires
            N > 0 || index >= NUM_SEGMENTS,
        ensures
            final(self)@ == old(self)@.push_segment(index as int, (chars[0], chars[1])),
    {
        let pair = (chars[0], chars[1]);
        if index == 0 {
            self.segment0.push(pair);
        } else if index == 1 {
            self.segment1.push(pair);
        } else if index == 2 {
            self.segment2.push(pair);
        } else if index == 3 {
            self.segment3.push(pair);
        }
        assert(self@.segments =~= old(self)@.push_segment(index as int, pair).segments);
    }

    pub fn confirmed(&self) -> (r: Option<[u8; 8]>)
        ensures
            match r {
                Some(name) => self@.confirmed() == Some(name@),
                None => self@.confirmed() is None,
            },
    {
        let modes = (
            self.segment0.mode(),
            self.segment1.mode(),
            self.segment2.mode(),
            self.segment3.mode(),
        );
        match modes {
            (Some(pair0), Some(pair1), Some(pair2), Some(pair3)) => {
                let out = [pair0.0, pair0.1, pair1.0, pair1.1, pair2.0, pair2.1, pair3.0, pair3.1];
                assert(self@.confirmed() is Some);
                assert(out@ =~= self@.confirmed().unwrap());
                Some(out)
            },
            _ => {
                assert(self@.segments[0] == self.segment0@);
                assert(self@.segments[1] == self.segment1@);
                assert(self@.segments[2] == self.segment2@);
                assert(self@.segments[3] == self.segment3@);
                None
            },
        }
    }
}

} // verus!
