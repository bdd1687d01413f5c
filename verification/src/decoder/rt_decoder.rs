use crate::decoder::bitset::{bits_of, lemma_mask_covers, positions_below, Bitset};
use crate::decoder::rds_charset::{rds_char_or_space, to_text_char};
use crate::text::{RadioTextPlusList, RadioTextString, MAX_RT_LENGTH};
use crate::types::{RadioText, RadioTextPlusTag, RadioTextView};
use vstd::prelude::*;
use vstd::slice::slice_subrange;

verus! {

/// Carriage return character in RadioText
///
/// This is used to indicate the end of a RadioText message
/// for messages that require less than 16 segments addresses to transfer.
pub const EARLY_RETURN: char = '\r';

/// Space character in RadioText
///
/// Used to replace invalid characters and serve as padding.
pub const SPACE: char = ' ';

/// Number of segments in RadioText
pub const NUM_SEGMENTS: usize = 16;

/// Size of segment in RadioText for Group A
pub const SEGMENT_SIZE_A: usize = 4;

/// Size of segment in RadioText for Group B
pub const SEGMENT_SIZE_B: usize = 2;

/// Current RadioText group being decoded
///
/// The standard forbids transmitting a mixture of Group A and Group B
/// when transmitting any given message.
#[derive(Debug, Clone, Copy, PartialEq, Eq, Structural)]
pub enum Group {
    A,
    B,
}

impl Group {
    /// Number of characters in one segment of this group.
    pub open spec fn segment_size(self) -> int {
        match self {
            Group::A => SEGMENT_SIZE_A as int,
            Group::B => SEGMENT_SIZE_B as int,
        }
    }

    /// Number of characters in a message of this group that no carriage return cuts short.
    pub open spec fn full_length(self) -> int {
        match self {
            Group::A => MAX_RT_LENGTH as int,
            Group::B => MAX_RT_LENGTH as int / 2,
        }
    }
}

/// The state of the RadioText assembler.
pub ghost struct RtView {
    /// The 64 characters received so far; a space where none has arrived.
    pub chars: Seq<char>,
    /// The group of the segment that started the current message.
    pub group: Option<Group>,
    /// The A/B flag of the current message.
    pub text_ab: Option<bool>,
    /// The segments received since the buffer was last cleared.
    pub received: Set<int>,
    /// Where the carriage return stands that ends the message early.
    pub early_idx: Option<int>,
    /// The first RadioText+ tag of the latest tag group.
    pub tag1: Option<RadioTextPlusTag>,
    /// The second RadioText+ tag of the latest tag group.
    pub tag2: Option<RadioTextPlusTag>,
}

impl RtView {
    /// 64 spaces, nothing pinned, nothing received, no tags.
    pub open spec fn blank() -> Self {
        RtView {
            chars: Seq::new(MAX_RT_LENGTH as nat, |i: int| SPACE),
            group: None,
            text_ab: None,
            received: Set::empty(),
            early_idx: None,
            tag1: None,
            tag2: None,
        }
    }

    /// The buffer holds 64 characters and an early end lies inside it.
    pub open spec fn wf(self) -> bool {
        &&& self.chars.len() == MAX_RT_LENGTH
        &&& self.early_idx matches Some(e) ==> 0 <= e < MAX_RT_LENGTH
    }

    /// The state after the text was cleared for a new message: the buffer, the received
    /// segments and the early end are wiped, group and A/B flag are set as given, and the
    /// tags stay.
    pub open spec fn cleared(self, group: Option<Group>, text_ab: Option<bool>) -> Self {
        RtView {
            chars: Seq::new(MAX_RT_LENGTH as nat, |i: int| SPACE),
            group,
            text_ab,
            received: Set::empty(),
            early_idx: None,
            tag1: self.tag1,
            tag2: self.tag2,
        }
    }

    /// The state after `byte` was written at `position`. A byte without an RDS character
    /// counts as a space. A carriage return makes `position` the early end of the message;
    /// any other character written over the early end removes it.
    pub open spec fn write_char(self, position: int, byte: u8) -> Self {
        let c = rds_char_or_space(byte);
        RtView {
            chars: self.chars.update(position, c),
            early_idx: if c == EARLY_RETURN {
                Some(position)
            } else if self.early_idx == Some(position) {
                None
            } else {
                self.early_idx
            },
            ..self
        }
    }

    /// The state after `bytes` were written one by one from position `start` on.
    pub open spec fn write_chars(self, start: int, bytes: Seq<u8>) -> Self
        decreases bytes.len(),
    {
        if bytes.len() == 0 {
            self
        } else {
            self.write_chars(start, bytes.drop_last()).write_char(
                start + bytes.len() - 1,
                bytes.last(),
            )
        }
    }

    /// The state after segment `index` arrived with `bytes`: the segment starts at
    /// `bytes.len() * index` and is marked as received.
    pub open spec fn write_segment(self, index: int, bytes: Seq<u8>) -> Self {
        let written = self.write_chars(bytes.len() * index, bytes);
        RtView { received: written.received.insert(index), ..written }
    }

    /// The state after a segment of `group` arrived. A segment whose A/B flag is not the
    /// pinned one starts a new message: the text is cleared and flag and group are pinned
    /// before the segment is written.
    pub open spec fn push_segment(self, group: Group, index: int, bytes: Seq<u8>, text_ab: bool)
        -> Self {
        let base = if self.text_ab != Some(text_ab) {
            self.cleared(Some(group), Some(text_ab))
        } else {
            self
        };
        base.write_segment(index, bytes)
    }

    /// The state after a pair of RadioText+ tags arrived: it takes the place of any
    /// earlier pair.
    pub open spec fn push_rt_plus_tags(self, tag1: RadioTextPlusTag, tag2: RadioTextPlusTag)
        -> Self {
        RtView { tag1: Some(tag1), tag2: Some(tag2), ..self }
    }

    /// Number of characters of the message: up to the early end if there is one, else the
    /// full length of `group`.
    pub open spec fn length(self, group: Group) -> int {
        match self.early_idx {
            Some(e) => e,
            None => group.full_length(),
        }
    }

    /// The tags handed out with a confirmed message: the latest pair, or none.
    pub open spec fn tag_list(self) -> Seq<RadioTextPlusTag> {
        if self.tag1 is Some && self.tag2 is Some {
            seq![self.tag1.unwrap(), self.tag2.unwrap()]
        } else {
            Seq::empty()
        }
    }

    /// The message, once a group is pinned and every segment that lies wholly before its
    /// end has been received.
    pub open spec fn confirmed(self) -> Option<RadioTextView> {
        match self.group {
            None => None,
            Some(group) => {
                let length = self.length(group);
                let required_segments = length / group.segment_size();
                if positions_below(required_segments).subset_of(self.received) {
                    Some(RadioTextView { text: self.chars.take(length), tags: self.tag_list() })
                } else {
                    None
                }
            },
        }
    }
}

/// One received RadioText segment: its index and its bytes.
pub ghost struct RtSegment {
    pub index: int,
    pub bytes: Seq<u8>,
}

/// Whether `segment` is a part of the message whose bytes are `message`, cut into segments
/// of `size` bytes.
pub open spec fn is_part_of_message(segment: RtSegment, size: int, message: Seq<u8>) -> bool {
    &&& 0 <= segment.index < NUM_SEGMENTS
    &&& segment.bytes == message.subrange(size * segment.index, size * segment.index + size)
}

/// The indices of `segments`.
pub open spec fn rt_segment_indices(segments: Seq<RtSegment>) -> Set<int> {
    Set::new(|i: int| exists|k: int| 0 <= k < segments.len() && (#[trigger] segments[k]).index == i)
}

/// Whether `byte` is written into the buffer as a carriage return.
pub open spec fn is_early_return(byte: u8) -> bool {
    rds_char_or_space(byte) == EARLY_RETURN
}

/// The place of the last carriage return in `bytes`.
pub open spec fn last_early_return(bytes: Seq<u8>) -> Option<int>
    decreases bytes.len(),
{
    if bytes.len() == 0 {
        None
    } else if is_early_return(bytes.last()) {
        Some(bytes.len() - 1)
    } else {
        last_early_return(bytes.drop_last())
    }
}

/// The characters that `message` is written as.
pub open spec fn message_text(message: Seq<u8>) -> Seq<char> {
    Seq::new(message.len(), |p: int| rds_char_or_space(message[p]))
}

/// A position lies in the segment `index` exactly if it divides to `index`, and the
/// segments with indices below sixteen lie in the first `16 * size` positions.
pub proof fn lemma_segment_of_position(size: int, index: int, p: int)
    requires
        size > 0,
    ensures
        (size * index <= p < size * index + size) <==> p / size == index,
        0 <= index < NUM_SEGMENTS ==> 0 <= size * index && size * index + size <= NUM_SEGMENTS
            * size,
        0 <= p < NUM_SEGMENTS * size ==> 0 <= p / size < NUM_SEGMENTS,
{
    vstd::arithmetic::div_mod::lemma_fundamental_div_mod(p, size);
    vstd::arithmetic::div_mod::lemma_mod_bound(p, size);
    if size * index <= p < size * index + size {
        assert(p == index * size + (p - size * index)) by (nonlinear_arith);
        vstd::arithmetic::div_mod::lemma_fundamental_div_mod_converse(
            p,
            size,
            index,
            p - size * index,
        );
    }
    if 0 <= index < NUM_SEGMENTS {
        assert(0 <= size * index && size * index + size <= 16 * size) by (nonlinear_arith)
            requires
                0 <= index <= 15,
                size > 0,
        ;
    }
    if 0 <= p < NUM_SEGMENTS * size {
        let q = p / size;
        assert(0 <= q < 16) by (nonlinear_arith)
            requires
                p == size * q + (p % size),
                0 <= p % size < size,
                0 <= p < 16 * size,
                size > 0,
        ;
    }
}

impl RtView {
    /// The state after `segments` of `group` arrived one after the other, all with the
    /// A/B flag `text_ab`.
    pub open spec fn push_all(self, group: Group, segments: Seq<RtSegment>, text_ab: bool) -> Self
        decreases segments.len(),
    {
        if segments.len() == 0 {
            self
        } else {
            let last = segments.last();
            self.push_all(group, segments.drop_last(), text_ab).push_segment(
                group,
                last.index,
                last.bytes,
                text_ab,
            )
        }
    }

    /// What writing `bytes` from `start` on does: the characters of `bytes` stand at
    /// `start` and after, and nothing else in the buffer changes. The early end moves to the
    /// last carriage return written; if none is written, an early end that lay in the
    /// written span is gone, and one outside it stays.
    pub proof fn lemma_write_chars(self, start: int, bytes: Seq<u8>)
        requires
            self.wf(),
            0 <= start,
            start + bytes.len() <= MAX_RT_LENGTH,
        ensures
            self.write_chars(start, bytes).wf(),
            forall|k: int|
                0 <= k < bytes.len() ==> self.write_chars(start, bytes).chars[start + k]
                    == rds_char_or_space(#[trigger] bytes[k]),
            forall|p: int|
                0 <= p < MAX_RT_LENGTH && !(start <= p < start + bytes.len()) ==> (
                #[trigger] self.write_chars(start, bytes).chars[p]) == self.chars[p],
            self.write_chars(start, bytes).early_idx == (match last_early_return(bytes) {
                Some(k) => Some(start + k),
                None => match self.early_idx {
                    Some(e) if start <= e < start + bytes.len() => None,
                    _ => self.early_idx,
                },
            }),
            last_early_return(bytes) matches Some(k) ==> 0 <= k < bytes.len() && is_early_return(
                bytes[k],
            ),
            last_early_return(bytes) is None ==> forall|k: int|
                0 <= k < bytes.len() ==> !is_early_return(#[trigger] bytes[k]),
            self.write_chars(start, bytes).group == self.group,
            self.write_chars(start, bytes).text_ab == self.text_ab,
            self.write_chars(start, bytes).received == self.received,
            self.write_chars(start, bytes).tag1 == self.tag1,
            self.write_chars(start, bytes).tag2 == self.tag2,
        decreases bytes.len(),
    {
        if bytes.len() > 0 {
            self.lemma_write_chars(start, bytes.drop_last());
            assert forall|k: int| 0 <= k < bytes.len() implies self.write_chars(
                start,
                bytes,
            ).chars[start + k] == rds_char_or_space(#[trigger] bytes[k]) by {
                if k < bytes.len() - 1 {
                    assert(bytes.drop_last()[k] == bytes[k]);
                }
            }
            if last_early_return(bytes) is None {
                assert forall|k: int| 0 <= k < bytes.len() implies !is_early_return(
                    #[trigger] bytes[k],
                ) by {
                    if k < bytes.len() - 1 {
                        assert(bytes.drop_last()[k] == bytes[k]);
                    }
                }
            }
        }
    }

    /// A segment keeps the state well formed.
    pub proof fn lemma_push_segment_wf(self, group: Group, index: int, bytes: Seq<u8>, text_ab: bool)
        requires
            self.wf(),
            0 <= index < NUM_SEGMENTS,
            bytes.len() <= SEGMENT_SIZE_A,
        ensures
            self.push_segment(group, index, bytes, text_ab).wf(),
    {
        let base = if self.text_ab != Some(text_ab) {
            self.cleared(Some(group), Some(text_ab))
        } else {
            self
        };
        assert(bytes.len() * index <= 60) by (nonlinear_arith)
            requires
                0 <= index <= 15,
                bytes.len() <= 4,
        ;
        base.lemma_write_chars(bytes.len() * index, bytes);
    }

    /// A pair of tags takes the place of the pair before it: of two pairs in a row only the
    /// second is kept, whole, and it is what comes with a confirmed message.
    pub proof fn lemma_tags_replace(
        self,
        first: (RadioTextPlusTag, RadioTextPlusTag),
        second: (RadioTextPlusTag, RadioTextPlusTag),
    )
        ensures
            self.push_rt_plus_tags(first.0, first.1).push_rt_plus_tags(second.0, second.1)
                == self.push_rt_plus_tags(second.0, second.1),
            self.push_rt_plus_tags(second.0, second.1).tag_list() == seq![second.0, second.1],
            self.push_rt_plus_tags(second.0, second.1).confirmed() matches Some(rt) ==> rt.tags
                == seq![second.0, second.1],
    {
    }

    /// Segments that are all parts of one message with at most one carriage return, and
    /// of which the first starts a new message, assemble that message whatever their order
    /// and repetition: the received segments are those that came, their characters stand in
    /// the buffer, and the early end is the carriage return of the message if its segment
    /// has come.
    pub proof fn lemma_parts_assemble_message(
        self,
        group: Group,
        segments: Seq<RtSegment>,
        text_ab: bool,
        message: Seq<u8>,
    )
        requires
            self.wf(),
            self.text_ab != Some(text_ab),
            segments.len() > 0,
            message.len() == NUM_SEGMENTS * group.segment_size(),
            forall|k: int|
                0 <= k < segments.len() ==> is_part_of_message(
                    #[trigger] segments[k],
                    group.segment_size(),
                    message,
                ),
            forall|p: int, q: int|
                0 <= p < message.len() && 0 <= q < message.len() && is_early_return(message[p])
                    && is_early_return(message[q]) ==> p == q,
        ensures
            self.push_all(group, segments, text_ab).wf(),
            self.push_all(group, segments, text_ab).group == Some(group),
            self.push_all(group, segments, text_ab).text_ab == Some(text_ab),
            self.push_all(group, segments, text_ab).received == rt_segment_indices(segments),
            self.push_all(group, segments, text_ab).tag1 == self.tag1,
            self.push_all(group, segments, text_ab).tag2 == self.tag2,
            forall|p: int|
                0 <= p < message.len() && rt_segment_indices(segments).contains(
                    p / group.segment_size(),
                ) ==> (#[trigger] self.push_all(group, segments, text_ab).chars[p])
                    == rds_char_or_space(message[p]),
            self.push_all(group, segments, text_ab).early_idx matches Some(q) ==> 0 <= q
                < message.len() && is_early_return(message[q]) && rt_segment_indices(
                segments,
            ).contains(q / group.segment_size()),
            self.push_all(group, segments, text_ab).early_idx is None ==> forall|q: int|
                0 <= q < message.len() && is_early_return(#[trigger] message[q])
                    ==> !rt_segment_indices(segments).contains(q / group.segment_size()),
        decreases segments.len(),
    {
        let size = group.segment_size();
        let rest = segments.drop_last();
        let last = segments.last();
        let before = self.push_all(group, rest, text_ab);
        let after = self.push_all(group, segments, text_ab);
        assert(is_part_of_message(segments[segments.len() - 1], size, message));
        if rest.len() > 0 {
            self.lemma_parts_assemble_message(group, rest, text_ab, message);
        } else {
            assert(rt_segment_indices(rest) =~= Set::<int>::empty());
        }
        let base = if before.text_ab != Some(text_ab) {
            before.cleared(Some(group), Some(text_ab))
        } else {
            before
        };
        // Either way, `base` holds what the segments in `rest` have brought.
        assert(base.received == rt_segment_indices(rest));
        let start = size * last.index;
        lemma_segment_of_position(size, last.index, 0);
        assert(last.bytes.len() == size);
        assert(last.bytes.len() * last.index == start) by (nonlinear_arith)
            requires
                last.bytes.len() == size,
                start == size * last.index,
        ;
        base.lemma_write_chars(start, last.bytes);
        let written = base.write_chars(start, last.bytes);
        assert(after == RtView { received: written.received.insert(last.index), ..written });
        assert(after.received =~= rt_segment_indices(segments)) by {
            assert forall|i: int| after.received.contains(i) <==> rt_segment_indices(
                segments,
            ).contains(i) by {
                if i == last.index {
                    assert(segments[segments.len() - 1].index == i);
                }
                if rt_segment_indices(rest).contains(i) {
                    let k = choose|k: int| 0 <= k < rest.len() && (#[trigger] rest[k]).index == i;
                    assert(segments[k].index == i);
                }
                if rt_segment_indices(segments).contains(i) && i != last.index {
                    let k = choose|k: int|
                        0 <= k < segments.len() && (#[trigger] segments[k]).index == i;
                    assert(rest[k].index == i);
                }
            }
        }
        assert forall|p: int|
            0 <= p < message.len() && rt_segment_indices(segments).contains(
                p / size,
            ) implies (#[trigger] after.chars[p]) == rds_char_or_space(message[p]) by {
            lemma_segment_of_position(size, last.index, p);
            if start <= p < start + size {
                assert(last.bytes[p - start] == message[p]);
                assert(after.chars[start + (p - start)] == rds_char_or_space(
                    last.bytes[p - start],
                ));
            } else {
                assert(p / size != last.index);
                assert(rt_segment_indices(rest).contains(p / size));
            }
        }
        match last_early_return(last.bytes) {
            Some(k) => {
                assert(last.bytes[k] == message[start + k]);
                lemma_segment_of_position(size, last.index, start + k);
                assert((start + k) / size == last.index);
            },
            None => {
                assert forall|q: int|
                    0 <= q < message.len() && is_early_return(
                        #[trigger] message[q],
                    ) implies q / size != last.index by {
                    lemma_segment_of_position(size, last.index, q);
                    if q / size == last.index {
                        assert(last.bytes[q - start] == message[q]);
                    }
                }
                if let Some(e) = base.early_idx {
                    lemma_segment_of_position(size, last.index, e);
                    assert(!(start <= e < start + size));
                }
            },
        }
        if after.early_idx is None {
            assert forall|q: int|
                0 <= q < message.len() && is_early_return(
                    #[trigger] message[q],
                ) implies !rt_segment_indices(segments).contains(q / size) by {
                if rt_segment_indices(segments).contains(q / size) {
                    lemma_segment_of_position(size, last.index, q);
                    if q / size == last.index {
                        assert(last.bytes[q - start] == message[q]);
                    } else {
                        assert(rt_segment_indices(rest).contains(q / size));
                    }
                }
            }
        }
    }

    /// Segments without carriage return, of which the first starts a new message, confirm
    /// a message of full length once all sixteen indices have come, whatever their order,
    /// repetition and content: 64 characters in group A and 32 in group B.
    pub proof fn lemma_sixteen_segments_confirm(
        self,
        group: Group,
        segments: Seq<RtSegment>,
        text_ab: bool,
    )
        requires
            self.wf(),
            self.text_ab != Some(text_ab),
            segments.len() > 0,
            forall|k: int|
                0 <= k < segments.len() ==> 0 <= (#[trigger] segments[k]).index < NUM_SEGMENTS
                    && segments[k].bytes.len() == group.segment_size(),
            forall|k: int, j: int|
                0 <= k < segments.len() && 0 <= j < segments[k].bytes.len() ==> !is_early_return(
                    #[trigger] segments[k].bytes[j],
                ),
        ensures
            self.push_all(group, segments, text_ab).wf(),
            self.push_all(group, segments, text_ab).group == Some(group),
            self.push_all(group, segments, text_ab).text_ab == Some(text_ab),
            self.push_all(group, segments, text_ab).early_idx is None,
            self.push_all(group, segments, text_ab).received == rt_segment_indices(segments),
            self.push_all(group, segments, text_ab).tag1 == self.tag1,
            self.push_all(group, segments, text_ab).tag2 == self.tag2,
            (forall|i: int| 0 <= i < NUM_SEGMENTS ==> rt_segment_indices(segments).contains(i))
                ==> self.push_all(group, segments, text_ab).confirmed() == Some(
                RadioTextView {
                    text: self.push_all(group, segments, text_ab).chars.take(group.full_length()),
                    tags: self.tag_list(),
                },
            ) && self.push_all(group, segments, text_ab).chars.take(group.full_length()).len()
                == group.full_length(),
        decreases segments.len(),
    {
        let size = group.segment_size();
        let rest = segments.drop_last();
        let last = segments.last();
        let before = self.push_all(group, rest, text_ab);
        let after = self.push_all(group, segments, text_ab);
        assert(segments[segments.len() - 1].index == last.index);
        if rest.len() > 0 {
            assert forall|k: int, j: int|
                0 <= k < rest.len() && 0 <= j < rest[k].bytes.len() implies !is_early_return(
                #[trigger] rest[k].bytes[j],
            ) by {
                assert(rest[k] == segments[k]);
            }
            self.lemma_sixteen_segments_confirm(group, rest, text_ab);
        } else {
            assert(rt_segment_indices(rest) =~= Set::<int>::empty());
        }
        let base = if before.text_ab != Some(text_ab) {
            before.cleared(Some(group), Some(text_ab))
        } else {
            before
        };
        let start = size * last.index;
        lemma_segment_of_position(size, last.index, 0);
        assert(last.bytes.len() * last.index == start) by (nonlinear_arith)
            requires
                last.bytes.len() == size,
                start == size * last.index,
        ;
        base.lemma_write_chars(start, last.bytes);
        assert(last_early_return(last.bytes) is None) by {
            if let Some(k) = last_early_return(last.bytes) {
                assert(!is_early_return(segments[segments.len() - 1].bytes[k]));
            }
        }
        assert(after.received =~= rt_segment_indices(segments)) by {
            assert forall|i: int| after.received.contains(i) <==> rt_segment_indices(
                segments,
            ).contains(i) by {
                if i == last.index {
                    assert(segments[segments.len() - 1].index == i);
                }
                if rt_segment_indices(rest).contains(i) {
                    let k = choose|k: int| 0 <= k < rest.len() && (#[trigger] rest[k]).index == i;
                    assert(segments[k].index == i);
                }
                if rt_segment_indices(segments).contains(i) && i != last.index {
                    let k = choose|k: int|
                        0 <= k < segments.len() && (#[trigger] segments[k]).index == i;
                    assert(rest[k].index == i);
                }
            }
        }
        if forall|i: int| 0 <= i < NUM_SEGMENTS ==> rt_segment_indices(segments).contains(i) {
            assert(group.full_length() / size == NUM_SEGMENTS);
            assert(positions_below(NUM_SEGMENTS as int).subset_of(after.received));
            assert(after.length(group) == group.full_length());
        }
    }

    /// A message without carriage return is confirmed once all sixteen segments have come:
    /// as the characters of the whole message, 64 of them in group A and 32 in group B,
    /// with the tags that were there before.
    pub proof fn lemma_full_message_is_confirmed(
        self,
        group: Group,
        segments: Seq<RtSegment>,
        text_ab: bool,
        message: Seq<u8>,
    )
        requires
            self.wf(),
            self.text_ab != Some(text_ab),
            message.len() == NUM_SEGMENTS * group.segment_size(),
            forall|k: int|
                0 <= k < segments.len() ==> is_part_of_message(
                    #[trigger] segments[k],
                    group.segment_size(),
                    message,
                ),
            forall|p: int| 0 <= p < message.len() ==> !is_early_return(#[trigger] message[p]),
            forall|i: int| 0 <= i < NUM_SEGMENTS ==> rt_segment_indices(segments).contains(i),
        ensures
            self.push_all(group, segments, text_ab).confirmed() == Some(
                RadioTextView { text: message_text(message), tags: self.tag_list() },
            ),
            message_text(message).len() == group.full_length(),
    {
        let size = group.segment_size();
        assert(rt_segment_indices(segments).contains(0));
        assert(segments.len() > 0);
        self.lemma_parts_assemble_message(group, segments, text_ab, message);
        let after = self.push_all(group, segments, text_ab);
        assert(after.early_idx is None) by {
            if let Some(q) = after.early_idx {
                assert(is_early_return(message[q]));
            }
        }
        assert(message.len() == group.full_length());
        assert(group.full_length() / size == NUM_SEGMENTS);
        assert(after.length(group) == group.full_length());
        assert(after.chars.take(group.full_length()) =~= message_text(message)) by {
            assert forall|p: int| 0 <= p < message.len() implies after.chars[p]
                == rds_char_or_space(message[p]) by {
                lemma_segment_of_position(size, 0, p);
                assert(rt_segment_indices(segments).contains(p / size));
            }
        }
        assert(positions_below(NUM_SEGMENTS as int).subset_of(after.received));
    }

    /// A message with one carriage return is confirmed once the segment with the carriage
    /// return and all segments before it have come: as the characters before the carriage
    /// return, with the tags that were there before.
    pub proof fn lemma_early_end_is_confirmed(
        self,
        group: Group,
        segments: Seq<RtSegment>,
        text_ab: bool,
        message: Seq<u8>,
        end: int,
    )
        requires
            self.wf(),
            self.text_ab != Some(text_ab),
            message.len() == NUM_SEGMENTS * group.segment_size(),
            forall|k: int|
                0 <= k < segments.len() ==> is_part_of_message(
                    #[trigger] segments[k],
                    group.segment_size(),
                    message,
                ),
            0 <= end < message.len(),
            forall|p: int|
                0 <= p < message.len() ==> (is_early_return(#[trigger] message[p]) <==> p == end),
            forall|i: int|
                0 <= i <= end / group.segment_size() ==> rt_segment_indices(segments).contains(i),
        ensures
            self.push_all(group, segments, text_ab).confirmed() == Some(
                RadioTextView { text: message_text(message).take(end), tags: self.tag_list() },
            ),
    {
        let size = group.segment_size();
        assert(rt_segment_indices(segments).contains(0));
        assert(segments.len() > 0);
        self.lemma_parts_assemble_message(group, segments, text_ab, message);
        let after = self.push_all(group, segments, text_ab);
        assert(after.early_idx == Some(end)) by {
            assert(is_early_return(message[end]));
            assert(rt_segment_indices(segments).contains(end / size));
        }
        assert(after.chars.take(end) =~= message_text(message).take(end)) by {
            assert forall|p: int| 0 <= p < end implies after.chars[p] == rds_char_or_space(
                message[p],
            ) by {
                lemma_segment_of_position(size, 0, p);
                vstd::arithmetic::div_mod::lemma_div_is_ordered(p, end, size);
                assert(0 <= p / size <= end / size);
                assert(rt_segment_indices(segments).contains(p / size));
            }
        }
        assert(positions_below(end / size).subset_of(after.received));
    }
}

/// Decoder for RadioText (RT) and the RadioText+ tags that belong to it.
#[derive(Debug)]
pub struct RtDecoder {
    buffer: [char; MAX_RT_LENGTH],
    current_group: Option<Group>,
    text_ab: Option<bool>,
    received_segments: Bitset<NUM_SEGMENTS>,
    early_idx: Option<usize>,
    rt_tag1: Option<RadioTextPlusTag>,
    rt_tag2: Option<RadioTextPlusTag>,
}

impl View for RtDecoder {
    type V = RtView;

    closed spec fn view(&self) -> RtView {
        RtView {
            chars: self.buffer@,
            group: self.current_group,
            text_ab: self.text_ab,
            received: self.received_segments@,
            early_idx: match self.early_idx {
                Some(e) => Some(e as int),
                None => None,
            },
            tag1: self.rt_tag1,
            tag2: self.rt_tag2,
        }
    }
}

impl RtDecoder {
    #[verifier::type_invariant]
    spec fn inv(self) -> bool {
        self.early_idx matches Some(e) ==> e < MAX_RT_LENGTH
    }

    pub fn new() -> (d: Self)
        ensures
            d@ == RtView::blank(),
    {
        let d = Self {
            buffer: [SPACE;MAX_RT_LENGTH],
            current_group: None,
            text_ab: None,
            received_segments: Bitset::default(),
            early_idx: None,
            rt_tag1: None,
            rt_tag2: None,
        };
        assert(d@.chars =~= RtView::blank().chars);
        d
    }

    /// Takes in segment `index` of a Group 2A message: four characters.
    pub fn push_segment_a(&mut self, index: usize, chars: [u8; 4], text_ab: bool)
        requires
            index < NUM_SEGMENTS,
        ensures
            final(self)@ == old(self)@.push_segment(Group::A, index as int, chars@, text_ab),
    {
        self.push_segment(index, &chars, text_ab, Group::A);
    }

    /// Takes in segment `index` of a Group 2B message: two characters.
    pub fn push_segment_b(&mut self, index: usize, chars: [u8; 2], text_ab: bool)
        requires
            index < NUM_SEGMENTS,
        ensures
            final(self)@ == old(self)@.push_segment(Group::B, index as int, chars@, text_ab),
    {
        self.push_segment(index, &chars, text_ab, Group::B);
    }

    pub fn confirmed(&self) -> (r: Option<RadioText>)
        ensures
            match r {
                Some(rt) => self@.confirmed() == Some(rt@) && rt@.text.len() <= MAX_RT_LENGTH
                    && rt@.tags.len() <= 2,
                None => self@.confirmed() is None,
            },
    {
        proof {
            use_type_invariant(self);
        }
        let (segment_size, full_length) = match self.current_group {
            Some(Group::A) => (SEGMENT_SIZE_A, MAX_RT_LENGTH),
            Some(Group::B) => (SEGMENT_SIZE_B, MAX_RT_LENGTH / 2),
            None => { return None; },
        };
        let length = match self.early_idx {
            Some(early) => early,
            None => full_length,
        };
        // Check if all required segments are received
        let required_segments: u32 = (length / segment_size) as u32;
        let received_bitmask: u16 = self.received_segments.value();
        if required_segments > NUM_SEGMENTS as u32 {
            // The message would need a segment beyond the sixteen that exist.
            assert(positions_below(required_segments as int).contains(16));
            assert(!bits_of(received_bitmask).contains(16));
            return None;
        }
        proof {
            assert(1 <= (1u32 << required_segments) <= 0x1_0000) by (bit_vector)
                requires
                    required_segments <= 16,
            ;
            lemma_mask_covers(received_bitmask, required_segments);
        }
        let required_bitmask: u16 = ((1u32 << required_segments) - 1) as u16;
        if received_bitmask & required_bitmask != required_bitmask {
            return None;
        }
        let text = slice_subrange(self.buffer.as_slice(), 0, length);
        proof {
            assert(text@ =~= self@.chars.take(length as int));
        }
        let rt_plus = match (self.rt_tag1, self.rt_tag2) {
            (Some(tag1), Some(tag2)) => {
                let pair = [tag1, tag2];
                assert(pair@ =~= self@.tag_list());
                RadioTextPlusList::from_tags(&pair)
            },
            _ => Some(RadioTextPlusList::new()),
        };
        match (RadioTextString::from_chars(text), rt_plus) {
            (Some(rt_string), Some(rt_plus)) => Some(RadioText::new(rt_string, rt_plus)),
            _ => None,
        }
    }

    /// Records a pair of RadioText+ tags in place of any earlier pair.
    pub fn push_rt_plus_tags(&mut self, tag1: RadioTextPlusTag, tag2: RadioTextPlusTag)
        ensures
            final(self)@ == old(self)@.push_rt_plus_tags(tag1, tag2),
    {
        proof {
            use_type_invariant(&*self);
        }
        self.rt_tag1 = Some(tag1);
        self.rt_tag2 = Some(tag2);
    }

    fn push_segment(&mut self, index: usize, chars: &[u8], text_ab: bool, group: Group)
        requires
            index < NUM_SEGMENTS,
            chars@.len() == group.segment_size(),
        ensures
            final(self)@ == old(self)@.push_segment(group, index as int, chars@, text_ab),
    {
        if self.is_reset_needed(group, text_ab) {
            self.internal_reset(Some(group), Some(text_ab));
        }
        self.write_chars_to_buffer(index, chars);
    }

    fn write_chars_to_buffer(&mut self, segment_idx: usize, chars: &[u8])
        requires
            segment_idx < NUM_SEGMENTS,
            chars@.len() <= SEGMENT_SIZE_A,
        ensures
            final(self)@ == old(self)@.write_segment(segment_idx as int, chars@),
    {
        proof {
            use_type_invariant(&*self);
        }
        let size = chars.len();
        assert(size * segment_idx <= 60) by (nonlinear_arith)
            requires
                size <= 4,
                segment_idx <= 15,
        ;
        let start = size * segment_idx;
        let mut char_idx: usize = 0;
        while char_idx < size
            invariant
                char_idx <= size,
                size == chars@.len(),
                size <= 4,
                start <= 60,
                start == size * segment_idx,
                self.early_idx matches Some(e) ==> e < MAX_RT_LENGTH,
                self@ == old(self)@.write_chars(start as int, chars@.take(char_idx as int)),
            decreases size - char_idx,
        {
            let letter_idx = start + char_idx;
            let rt_char = to_text_char(chars[char_idx]);
            proof {
                assert(chars@.take(char_idx as int + 1).drop_last() =~= chars@.take(
                    char_idx as int,
                ));
            }
            if rt_char == EARLY_RETURN {
                self.early_idx = Some(letter_idx);
            } else if self.early_idx == Some(letter_idx) {
                self.early_idx = None;
            }
            self.buffer[letter_idx] = rt_char;
            char_idx += 1;
        }
        assert(chars@.take(size as int) =~= chars@);
        let _ = self.received_segments.set_bit(segment_idx);
    }

    fn is_reset_needed(&self, _group: Group, text_ab: bool) -> (r: bool)
        ensures
            r == (self@.text_ab != Some(text_ab)),
    {
        match self.text_ab {
            Some(pinned) => pinned != text_ab,
            None => true,
        }
    }

    pub fn reset(&mut self)
        ensures
            final(self)@ == RtView::blank(),
    {
        self.internal_reset(None, None);
        self.rt_tag1 = None;
        self.rt_tag2 = None;
    }

    fn internal_reset(&mut self, current_group: Option<Group>, text_ab: Option<bool>)
        ensures
            final(self)@ == old(self)@.cleared(current_group, text_ab),
    {
        proof {
            use_type_invariant(&*self);
        }
        self.buffer = [SPACE;MAX_RT_LENGTH];
        self.current_group = current_group;
        self.text_ab = text_ab;
        self.received_segments.reset();
        self.early_idx = None;
        assert(self@.chars =~= old(self)@.cleared(current_group, text_ab).chars);
    }

    /// The 64 characters received so far; a space where none has arrived.
    pub fn buffer(&self) -> (chars: &[char; MAX_RT_LENGTH])
        ensures
            chars@ == self@.chars,
    {
        &self.buffer
    }

    /// The group of the segment that started the current message.
    pub fn current_group(&self) -> (r: Option<Group>)
        ensures
            r == self@.group,
    {
        self.current_group
    }

    /// The A/B flag of the current message.
    pub fn text_ab(&self) -> (r: Option<bool>)
        ensures
            r == self@.text_ab,
    {
        self.text_ab
    }

    /// Where the carriage return stands that ends the current message early.
    pub fn early_idx(&self) -> (r: Option<usize>)
        ensures
            match r {
                Some(e) => self@.early_idx == Some(e as int),
                None => self@.early_idx is None,
            },
    {
        self.early_idx
    }
}

} // verus!
