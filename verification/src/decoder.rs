use crate::bits::{be_bytes, high_byte, low_byte};
use crate::decoder::bitset::positions_below;
use crate::decoder::mode_filter::{eq_is_identity, occurrences, ModeFilter, ModeFilterView};
use crate::decoder::oda_identifier::{
    lemma_oda_add_within_capacity, oda_add, oda_key, within_capacity, OdaApplication,
    OdaIdentifier, OdaKey, RT_PLUS_AID,
};
use crate::decoder::ps_decoder::{PsDecoder, PsView};
use crate::decoder::rt_decoder::{Group, RtDecoder, RtView};
use crate::decoder::shared::Shared;
use crate::types::{
    Block1, Block2, Block3, Block4, GroupType, GroupVariant, Message, Metadata, MetadataView,
    ProgrammeIdentifier, ProgrammeType, RadioTextPlusContentType, RadioTextPlusTag,
    TrafficProgram,
};
use vstd::prelude::*;

pub mod bitset;
pub mod mode_filter;
pub mod oda_identifier;
pub mod ps_decoder;
pub mod ps_filter;
pub mod rds_charset;
pub mod rt_decoder;
pub mod shared;

verus! {

/// Window of the programme identifier filter.
pub const PI_FILTER_COUNT: usize = 6;

/// Occurrences that a programme identifier needs within the window.
pub const PI_FILTER_MIN: usize = 5;

/// Window of the programme type filter.
pub const PTY_FILTER_COUNT: usize = 6;

/// Occurrences that a programme type needs within the window.
pub const PTY_FILTER_MIN: usize = 5;

/// Window of the traffic programme filter.
pub const TP_FILTER_COUNT: usize = 6;

/// Occurrences that a traffic programme flag needs within the window.
pub const TP_FILTER_MIN: usize = 5;

/// The group slots that the standard leaves to Open Data Applications.
pub open spec fn is_oda_slot(group_type: GroupType, group_variant: GroupVariant) -> bool {
    match group_variant {
        GroupVariant::A => 5 <= group_type.0 <= 9 || 11 <= group_type.0 <= 13,
        GroupVariant::B => group_type.0 == 1 || 3 <= group_type.0 <= 13,
    }
}

/// The group slot that a Group 3A announcement binds: bit 0 of Block 2 is the variant
/// (set for B), bits 4..1 are the group type.
pub open spec fn announced_slot(block2: Block2) -> (GroupType, GroupVariant) {
    (
        GroupType(((block2.0 >> 1) & 0xF) as u8),
        if block2.0 & 0x1 == 1 {
            GroupVariant::B
        } else {
            GroupVariant::A
        },
    )
}

/// The four characters of a Group 2A segment: the bytes of Block 3, then those of Block 4.
pub open spec fn segment_a_bytes(block3: Block3, block4: Block4) -> Seq<u8> {
    seq![high_byte(block3.0), low_byte(block3.0), high_byte(block4.0), low_byte(block4.0)]
}

/// The two characters of a Group 2B segment: the bytes of Block 4.
pub open spec fn segment_b_bytes(block4: Block4) -> Seq<u8> {
    seq![high_byte(block4.0), low_byte(block4.0)]
}

/// The raw fields of the two tags in a RadioText+ group.
pub ghost struct RtPlusFields {
    pub content_type1: u8,
    pub start1: usize,
    pub length1: usize,
    pub content_type2: u8,
    pub start2: usize,
    pub length2: usize,
}

/// The bit fields of a RadioText+ group. The content type of the first tag is split over
/// Block 2 and Block 3, that of the second over Block 3 and Block 4.
pub open spec fn rt_plus_fields(block2: Block2, block3: Block3, block4: Block4) -> RtPlusFields {
    RtPlusFields {
        content_type1: (((block2.0 & 0b111) << 3) | ((block3.0 >> 13) & 0b111)) as u8,
        start1: ((block3.0 >> 7) & 0b11_1111) as usize,
        length1: ((block3.0 >> 1) & 0b11_1111) as usize,
        content_type2: (((block3.0 & 0b1) << 5) | ((block4.0 >> 11) & 0b1_1111)) as u8,
        start2: ((block4.0 >> 5) & 0b11_1111) as usize,
        length2: (block4.0 & 0b1_1111) as usize,
    }
}

/// The two tags of a RadioText+ group, if both content types are assigned.
pub open spec fn rt_plus_tags(block2: Block2, block3: Block3, block4: Block4) -> Option<
    (RadioTextPlusTag, RadioTextPlusTag),
> {
    let f = rt_plus_fields(block2, block3, block4);
    match (
        RadioTextPlusContentType::from_code(f.content_type1),
        RadioTextPlusContentType::from_code(f.content_type2),
    ) {
        (Some(type1), Some(type2)) => Some(
            (
                RadioTextPlusTag { content_type: type1, start_index: f.start1, length: f.length1 },
                RadioTextPlusTag { content_type: type2, start_index: f.start2, length: f.length2 },
            ),
        ),
        _ => None,
    }
}

/// The state of the decoder: that of its three filters, its two assemblers and its
/// registry of Open Data Applications.
pub ghost struct DecoderView {
    pub pi: ModeFilterView<u16>,
    pub pty: ModeFilterView<u8>,
    pub tp: ModeFilterView<bool>,
    pub ps: PsView,
    pub rt: RtView,
    pub oda: Map<OdaKey, OdaApplication>,
}

impl DecoderView {
    /// The state of a decoder that has seen no group.
    pub open spec fn blank() -> Self {
        DecoderView {
            pi: ModeFilterView::blank(PI_FILTER_COUNT as nat, PI_FILTER_MIN as nat),
            pty: ModeFilterView::blank(PTY_FILTER_COUNT as nat, PTY_FILTER_MIN as nat),
            tp: ModeFilterView::blank(TP_FILTER_COUNT as nat, TP_FILTER_MIN as nat),
            ps: PsView::blank(),
            rt: RtView::blank(),
            oda: Map::empty(),
        }
    }

    /// The metadata that is confirmed in this state.
    pub open spec fn snapshot(self) -> MetadataView {
        MetadataView {
            pi: match self.pi.mode() {
                Some(pi) => Some(ProgrammeIdentifier(pi)),
                None => None,
            },
            pty: match self.pty.mode() {
                Some(pty) => Some(ProgrammeType(pty)),
                None => None,
            },
            tp: match self.tp.mode() {
                Some(tp) => Some(TrafficProgram(tp)),
                None => None,
            },
            ps: self.ps.confirmed(),
            rt: self.rt.confirmed(),
        }
    }

    /// The state after one received group.
    pub open spec fn decode(self, message: Message) -> Self {
        let with_pi = self.decode_block1(message.block1);
        match message.block2 {
            Some(block2) => with_pi.decode_blocks234(block2, message.block3, message.block4),
            None => with_pi,
        }
    }

    /// A Block 1 that was received is a candidate for the programme identifier.
    pub open spec fn decode_block1(self, block1: Option<Block1>) -> Self {
        match block1 {
            Some(block) => DecoderView { pi: self.pi.push(block.0), ..self },
            None => self,
        }
    }

    /// Block 2 is there: its header feeds the filters and selects what is done with
    /// blocks 3 and 4.
    pub open spec fn decode_blocks234(
        self,
        block2: Block2,
        block3: Option<Block3>,
        block4: Option<Block4>,
    ) -> Self {
        let shared = Shared::of_block2(block2);
        let with_pi = self.handle_group_variant_b_pi(shared, block3);
        let filtered = DecoderView {
            pty: with_pi.pty.push(shared.pty.0),
            tp: with_pi.tp.push(shared.tp.0),
            ..with_pi
        };
        filtered.dispatch(shared, block2, block3, block4)
    }

    /// In a group of variant B, a Block 3 that was received is a candidate for the
    /// programme identifier too.
    pub open spec fn handle_group_variant_b_pi(self, shared: Shared, block3: Option<Block3>)
        -> Self {
        match block3 {
            Some(block) if shared.gv == GroupVariant::B => DecoderView {
                pi: self.pi.push(block.0),
                ..self
            },
            _ => self,
        }
    }

    /// What the group does to the assemblers and the registry, by group type and variant.
    /// Group 0 carries the programme service name, group 2 RadioText, and group 3A announces
    /// an Open Data Application; any other group counts only if an application is bound to
    /// its slot.
    pub open spec fn dispatch(
        self,
        shared: Shared,
        block2: Block2,
        block3: Option<Block3>,
        block4: Option<Block4>,
    ) -> Self {
        if shared.gt.0 == 0 {
            match block4 {
                Some(block4) => self.handle_ps_name(block2, block4),
                None => self,
            }
        } else if shared.gt.0 == 2 {
            self.handle_radio_text(shared, block2, block3, block4)
        } else if shared.gt.0 == 3 && shared.gv == GroupVariant::A {
            self.handle_oda_identification(block2, block3, block4)
        } else if self.oda.contains_key(oda_key(shared.gt, shared.gv)) {
            self.handle_oda(self.oda[oda_key(shared.gt, shared.gv)], block2, block3, block4)
        } else {
            self
        }
    }

    /// Group 0: the two lowest bits of Block 2 are the segment index, the bytes of Block 4
    /// the two characters.
    pub open spec fn handle_ps_name(self, block2: Block2, block4: Block4) -> Self {
        DecoderView {
            ps: self.ps.push_segment(
                (block2.0 & 0b11) as int,
                high_byte(block4.0),
                low_byte(block4.0),
            ),
            ..self
        }
    }

    /// Group 2: the four lowest bits of Block 2 are the segment index, bit 4 is the A/B
    /// flag. Variant A takes its four characters from blocks 3 and 4 and needs both;
    /// variant B takes its two characters from Block 4.
    pub open spec fn handle_radio_text(
        self,
        shared: Shared,
        block2: Block2,
        block3: Option<Block3>,
        block4: Option<Block4>,
    ) -> Self {
        let index = (block2.0 & 0b1111) as int;
        let text_ab = (block2.0 & 0x10) > 0;
        match (shared.gv, block3, block4) {
            (GroupVariant::A, Some(block3), Some(block4)) => DecoderView {
                rt: self.rt.push_segment(
                    Group::A,
                    index,
                    segment_a_bytes(block3, block4),
                    text_ab,
                ),
                ..self
            },
            (GroupVariant::B, _, Some(block4)) => DecoderView {
                rt: self.rt.push_segment(Group::B, index, segment_b_bytes(block4), text_ab),
                ..self
            },
            _ => self,
        }
    }

    /// Group 3A: Block 4 names an application and Block 2 the slot that it is bound to.
    /// The binding is made if blocks 3 and 4 were received, the application is known, the
    /// slot is one that the standard leaves to applications, and the registry takes it.
    pub open spec fn handle_oda_identification(
        self,
        block2: Block2,
        block3: Option<Block3>,
        block4: Option<Block4>,
    ) -> Self {
        match (block3, block4) {
            (Some(_), Some(block4)) => {
                let (group_type, group_variant) = announced_slot(block2);
                if block4.0 == RT_PLUS_AID && is_oda_slot(
                    group_type,
                    group_variant,
                ) {
                    DecoderView {
                        oda: oda_add(
                            self.oda,
                            oda_key(group_type, group_variant),
                            OdaApplication::RtPlus,
                        ),
                        ..self
                    }
                } else {
                    self
                }
            },
            _ => self,
        }
    }

    /// A group in a slot bound to RadioText+: if blocks 3 and 4 were received and both
    /// content types are assigned, the pair of tags replaces the earlier one.
    pub open spec fn handle_oda(
        self,
        app: OdaApplication,
        block2: Block2,
        block3: Option<Block3>,
        block4: Option<Block4>,
    ) -> Self {
        match (app, block3, block4) {
            (OdaApplication::RtPlus, Some(block3), Some(block4)) => match rt_plus_tags(
                block2,
                block3,
                block4,
            ) {
                Some((tag1, tag2)) => DecoderView {
                    rt: self.rt.push_rt_plus_tags(tag1, tag2),
                    ..self
                },
                None => self,
            },
            _ => self,
        }
    }
}

/// The candidates for the programme identifier that one group brings: its Block 1, and in
/// variant B its Block 3, each if it was received. Without Block 2 the variant is not known
/// and Block 3 is no candidate.
pub open spec fn pi_candidates(message: Message) -> Seq<u16> {
    let first = match message.block1 {
        Some(block) => seq![block.0],
        None => Seq::empty(),
    };
    match (message.block2, message.block3) {
        (Some(block2), Some(block3)) if Shared::of_block2(block2).gv == GroupVariant::B => first.push(
            block3.0,
        ),
        _ => first,
    }
}

/// The candidates for the programme identifier that `messages` bring, in order.
pub open spec fn all_pi_candidates(messages: Seq<Message>) -> Seq<u16>
    decreases messages.len(),
{
    if messages.len() == 0 {
        Seq::empty()
    } else {
        all_pi_candidates(messages.drop_last()) + pi_candidates(messages.last())
    }
}

/// The group of which no block was received.
pub open spec fn absent_message() -> Message {
    Message { block1: None, block2: None, block3: None, block4: None }
}

impl DecoderView {
    /// The filters have their six slots and their threshold of five, the buffers their
    /// lengths, and the registry is within its capacity.
    pub open spec fn wf(self) -> bool {
        &&& self.pi.wf() && self.pi.window.len() == PI_FILTER_COUNT && self.pi.min_count
            == PI_FILTER_MIN
        &&& self.pty.wf() && self.pty.window.len() == PTY_FILTER_COUNT && self.pty.min_count
            == PTY_FILTER_MIN
        &&& self.tp.wf() && self.tp.window.len() == TP_FILTER_COUNT && self.tp.min_count
            == TP_FILTER_MIN
        &&& self.ps.chars.len() == crate::text::PS_SIZE
        &&& self.rt.wf()
        &&& within_capacity(self.oda)
    }

    /// The state after `messages` were decoded one after the other.
    pub open spec fn decode_all(self, messages: Seq<Message>) -> Self
        decreases messages.len(),
    {
        if messages.len() == 0 {
            self
        } else {
            self.decode_all(messages.drop_last()).decode(messages.last())
        }
    }

    /// A new decoder is well formed, and nothing is confirmed in it.
    pub proof fn lemma_blank_snapshot()
        ensures
            Self::blank().wf(),
            Self::blank().snapshot() == MetadataView::blank(),
    {
        let blank = Self::blank();
        assert(blank.pi.window[0] is None);
        assert(blank.pty.window[0] is None);
        assert(blank.tp.window[0] is None);
        assert(positions_below(4).contains(0));
        assert(blank.ps.confirmed() is None);
        assert(blank.rt.confirmed() is None);
    }

    /// Decoding keeps the state well formed.
    pub proof fn lemma_decode_wf(self, message: Message)
        requires
            self.wf(),
        ensures
            self.decode(message).wf(),
    {
        let with_pi = self.decode_block1(message.block1);
        if let Some(block) = message.block1 {
            self.pi.lemma_push_wf(block.0);
        }
        if let Some(block2) = message.block2 {
            let shared = Shared::of_block2(block2);
            let with_b = with_pi.handle_group_variant_b_pi(shared, message.block3);
            if let Some(block3) = message.block3 {
                with_pi.pi.lemma_push_wf(block3.0);
            }
            with_b.pty.lemma_push_wf(shared.pty.0);
            with_b.tp.lemma_push_wf(shared.tp.0);
            let filtered = DecoderView {
                pty: with_b.pty.push(shared.pty.0),
                tp: with_b.tp.push(shared.tp.0),
                ..with_b
            };
            let b2: u16 = block2.0;
            assert(b2 & 0b11 <= 3 && b2 & 0b1111 <= 15) by (bit_vector);
            if let (Some(block3), Some(block4)) = (message.block3, message.block4) {
                filtered.rt.lemma_push_segment_wf(
                    Group::A,
                    (block2.0 & 0b1111) as int,
                    segment_a_bytes(block3, block4),
                    (block2.0 & 0x10) > 0,
                );
            }
            if let Some(block4) = message.block4 {
                filtered.rt.lemma_push_segment_wf(
                    Group::B,
                    (block2.0 & 0b1111) as int,
                    segment_b_bytes(block4),
                    (block2.0 & 0x10) > 0,
                );
            }
            let (group_type, group_variant) = announced_slot(block2);
            lemma_oda_add_within_capacity(
                filtered.oda,
                oda_key(group_type, group_variant),
                OdaApplication::RtPlus,
            );
        }
    }

    /// Decoding any number of groups keeps the state well formed.
    pub proof fn lemma_decode_all_wf(self, messages: Seq<Message>)
        requires
            self.wf(),
        ensures
            self.decode_all(messages).wf(),
        decreases messages.len(),
    {
        if messages.len() > 0 {
            self.lemma_decode_all_wf(messages.drop_last());
            self.decode_all(messages.drop_last()).lemma_decode_wf(messages.last());
        }
    }

    /// Groups of which no block was received change nothing: whatever was confirmed stays,
    /// and a new decoder stays blank.
    pub proof fn lemma_absent_blocks_change_nothing(self, messages: Seq<Message>)
        requires
            forall|k: int| 0 <= k < messages.len() ==> #[trigger] messages[k] == absent_message(),
        ensures
            self.decode_all(messages) == self,
            Self::blank().decode_all(messages).snapshot() == MetadataView::blank(),
        decreases messages.len(),
    {
        if messages.len() > 0 {
            self.lemma_absent_blocks_change_nothing(messages.drop_last());
            Self::blank().lemma_absent_blocks_change_nothing(messages.drop_last());
            assert(messages[messages.len() - 1] == absent_message());
        }
        Self::lemma_blank_snapshot();
    }

    /// In a group of variant B, a Block 3 that was received goes into the programme
    /// identifier filter as one more candidate, once; in a group of variant A, or without
    /// Block 3, the filter stays as it was. Nothing else changes either way.
    pub proof fn lemma_variant_b_block3_is_pi_candidate(self, shared: Shared, block3: Option<Block3>)
        ensures
            self.handle_group_variant_b_pi(shared, block3).pi == (match block3 {
                Some(block) if shared.gv == GroupVariant::B => self.pi.push_all(seq![block.0]),
                _ => self.pi,
            }),
            (shared.gv == GroupVariant::B && block3 is Some) ==> self.handle_group_variant_b_pi(
                shared,
                block3,
            ).pi == self.pi.push(block3.unwrap().0),
            (shared.gv == GroupVariant::A || block3 is None) ==> self.handle_group_variant_b_pi(
                shared,
                block3,
            ) == self,
            self.handle_group_variant_b_pi(shared, block3).pty == self.pty,
            self.handle_group_variant_b_pi(shared, block3).tp == self.tp,
            self.handle_group_variant_b_pi(shared, block3).ps == self.ps,
            self.handle_group_variant_b_pi(shared, block3).rt == self.rt,
            self.handle_group_variant_b_pi(shared, block3).oda == self.oda,
    {
        if let Some(block) = block3 {
            assert(seq![block.0].drop_last() =~= Seq::<u16>::empty());
            assert(self.pi.push_all(Seq::<u16>::empty()) == self.pi);
            assert(seq![block.0].last() == block.0);
        }
    }

    /// Every group with Block 2 of variant B and with Block 3 brings Block 3 as a candidate
    /// for the programme identifier: it is the last candidate of the group, and the filter
    /// after the group is the filter after Block 1 with Block 3 pushed.
    pub proof fn lemma_block3_of_variant_b_is_decoded_as_pi(self, message: Message)
        requires
            message.block2 is Some,
            Shared::of_block2(message.block2.unwrap()).gv == GroupVariant::B,
            message.block3 is Some,
        ensures
            pi_candidates(message).len() >= 1,
            pi_candidates(message).last() == message.block3.unwrap().0,
            self.decode(message).pi == self.decode_block1(message.block1).pi.push(
                message.block3.unwrap().0,
            ),
    {
        self.lemma_decode_pushes_pi_candidates(message);
    }

    /// What a group does to the programme identifier filter: its candidates go in, in
    /// order. In particular the Block 3 of a group of variant B is a candidate.
    pub proof fn lemma_decode_pushes_pi_candidates(self, message: Message)
        ensures
            self.decode(message).pi == self.pi.push_all(pi_candidates(message)),
            (message.block2 matches Some(block2) && Shared::of_block2(block2).gv
                == GroupVariant::B && message.block3 is Some) ==> self.decode(message).pi
                == self.decode_block1(message.block1).pi.push(message.block3.unwrap().0),
    {
        let cands = pi_candidates(message);
        let with_pi = self.decode_block1(message.block1);
        assert(with_pi.pi == self.pi.push_all(
            match message.block1 {
                Some(block) => seq![block.0],
                None => Seq::empty(),
            },
        )) by {
            if let Some(block) = message.block1 {
                assert(seq![block.0].drop_last() =~= Seq::<u16>::empty());
                assert(self.pi.push_all(Seq::<u16>::empty()) == self.pi);
            }
        }
        if cands.len() > 0 {
            assert(cands.drop_last() =~= match (message.block1, cands.len() == 2) {
                (Some(block), true) => seq![block.0],
                _ => Seq::empty(),
            });
        }
    }

    /// What a sequence of groups does to the programme identifier filter: all their
    /// candidates go in, in order.
    pub proof fn lemma_decode_all_pushes_pi_candidates(self, messages: Seq<Message>)
        ensures
            self.decode_all(messages).pi == self.pi.push_all(all_pi_candidates(messages)),
        decreases messages.len(),
    {
        if messages.len() > 0 {
            let before = self.decode_all(messages.drop_last());
            self.lemma_decode_all_pushes_pi_candidates(messages.drop_last());
            before.lemma_decode_pushes_pi_candidates(messages.last());
            self.pi.lemma_push_all_add(
                all_pi_candidates(messages.drop_last()),
                pi_candidates(messages.last()),
            );
        }
    }

    /// A programme identifier that makes up at least five of the six most recent candidates
    /// is confirmed.
    pub proof fn lemma_recent_pi_is_confirmed(self, messages: Seq<Message>, pi: u16)
        requires
            self.wf(),
            all_pi_candidates(messages).len() >= PI_FILTER_COUNT,
            occurrences(
                all_pi_candidates(messages).subrange(
                    all_pi_candidates(messages).len() - PI_FILTER_COUNT,
                    all_pi_candidates(messages).len() as int,
                ),
                pi,
            ) >= PI_FILTER_MIN,
        ensures
            self.decode_all(messages).snapshot().pi == Some(ProgrammeIdentifier(pi)),
    {
        let cands = all_pi_candidates(messages);
        self.lemma_decode_all_pushes_pi_candidates(messages);
        self.pi.lemma_push_all_wf(cands);
        self.pi.lemma_window_holds_recent_samples(cands, pi);
        assert(eq_is_identity::<u16>());
        self.pi.push_all(cands).lemma_frequent_sample_is_reported(pi);
    }

    /// In a decoder that started blank, a programme identifier is confirmed exactly if at
    /// least six candidates have come and it makes up at least five of the last six.
    pub proof fn lemma_pi_is_confirmed_by_recent_candidates(messages: Seq<Message>, pi: u16)
        ensures
            Self::blank().decode_all(messages).snapshot().pi == Some(ProgrammeIdentifier(pi)) <==> (
            all_pi_candidates(messages).len() >= PI_FILTER_COUNT && occurrences(
                all_pi_candidates(messages).subrange(
                    all_pi_candidates(messages).len() - PI_FILTER_COUNT,
                    all_pi_candidates(messages).len() as int,
                ),
                pi,
            ) >= PI_FILTER_MIN),
    {
        let cands = all_pi_candidates(messages);
        let blank = Self::blank();
        Self::lemma_blank_snapshot();
        blank.lemma_decode_all_pushes_pi_candidates(messages);
        let filter = blank.pi.push_all(cands);
        if cands.len() >= PI_FILTER_COUNT {
            blank.pi.lemma_window_holds_recent_samples(cands, pi);
            blank.pi.lemma_push_all_wf(cands);
            if filter.mode() == Some(pi) {
                filter.lemma_reported_sample_is_frequent(pi);
            }
            if occurrences(cands.subrange(cands.len() - PI_FILTER_COUNT, cands.len() as int), pi)
                >= PI_FILTER_MIN {
                blank.lemma_recent_pi_is_confirmed(messages, pi);
            }
        } else {
            ModeFilterView::<u16>::lemma_blank_needs_full_window(
                PI_FILTER_COUNT as nat,
                PI_FILTER_MIN as nat,
                cands,
            );
        }
    }

    /// While the filter holds more than one distinct candidate and none of them exactly
    /// five times, no programme identifier is confirmed.
    pub proof fn lemma_scattered_pi_is_unknown(self)
        requires
            self.wf(),
            self.pi.samples().to_set().len() > PI_FILTER_COUNT - PI_FILTER_MIN,
            forall|v: u16| occurrences(self.pi.samples(), v) != PI_FILTER_MIN,
        ensures
            self.snapshot().pi is None,
    {
        assert(eq_is_identity::<u16>());
        self.pi.lemma_scattered_window_reports_nothing();
    }

    /// A Group 3A announcement that names an application other than RadioText+ binds
    /// nothing.
    pub proof fn lemma_unknown_aid_binds_nothing(
        self,
        block2: Block2,
        block3: Option<Block3>,
        block4: Block4,
    )
        requires
            block4.0 != RT_PLUS_AID,
        ensures
            self.handle_oda_identification(block2, block3, Some(block4)) == self,
    {
    }
}

/// The tags of a RadioText+ group have content types with the codes sent, start within
/// the 64 characters of a message, and a length of at most 63 for the first tag and 31 for
/// the second.
pub proof fn lemma_rt_plus_tags_in_range(block2: Block2, block3: Block3, block4: Block4)
    ensures
        rt_plus_fields(block2, block3, block4).content_type1 <= 63,
        rt_plus_fields(block2, block3, block4).content_type2 <= 63,
        rt_plus_tags(block2, block3, block4) is Some <==> (RadioTextPlusContentType::is_assigned(
            rt_plus_fields(block2, block3, block4).content_type1,
        ) && RadioTextPlusContentType::is_assigned(
            rt_plus_fields(block2, block3, block4).content_type2,
        )),
        rt_plus_tags(block2, block3, block4) matches Some((tag1, tag2)) ==> {
            &&& tag1.content_type.code() == rt_plus_fields(block2, block3, block4).content_type1
            &&& tag2.content_type.code() == rt_plus_fields(block2, block3, block4).content_type2
            &&& tag1.start_index <= 63
            &&& tag1.length <= 63
            &&& tag2.start_index <= 63
            &&& tag2.length <= 31
        },
{
    let b2: u16 = block2.0;
    let b3: u16 = block3.0;
    let b4: u16 = block4.0;
    assert({
        &&& (((b2 & 0b111) << 3) | ((b3 >> 13) & 0b111)) <= 63
        &&& ((b3 >> 7) & 0b11_1111) <= 63
        &&& ((b3 >> 1) & 0b11_1111) <= 63
        &&& (((b3 & 0b1) << 5) | ((b4 >> 11) & 0b1_1111)) <= 63
        &&& ((b4 >> 5) & 0b11_1111) <= 63
        &&& (b4 & 0b1_1111) <= 31
    }) by (bit_vector);
    let f = rt_plus_fields(block2, block3, block4);
    RadioTextPlusContentType::Dummy.lemma_code_round_trip(f.content_type1);
    RadioTextPlusContentType::Dummy.lemma_code_round_trip(f.content_type2);
}

/// A tag whose start and length are sent with a sum of at most 63 ends within the 64
/// characters of a message.
pub proof fn lemma_rt_plus_tags_end_in_message(block2: Block2, block3: Block3, block4: Block4)
    requires
        rt_plus_tags(block2, block3, block4) is Some,
        rt_plus_fields(block2, block3, block4).start1 + rt_plus_fields(
            block2,
            block3,
            block4,
        ).length1 <= 63,
        rt_plus_fields(block2, block3, block4).start2 + rt_plus_fields(
            block2,
            block3,
            block4,
        ).length2 <= 63,
    ensures
        rt_plus_tags(block2, block3, block4).unwrap().0.start_index + rt_plus_tags(
            block2,
            block3,
            block4,
        ).unwrap().0.length <= 63,
        rt_plus_tags(block2, block3, block4).unwrap().1.start_index + rt_plus_tags(
            block2,
            block3,
            block4,
        ).unwrap().1.length <= 63,
{
}

/// The stateful RDS decoder: it takes in the groups of one station and keeps what they
/// have told of the station so far.
#[derive(Debug)]
pub struct Decoder {
    pi_filter: ModeFilter<u16, PI_FILTER_COUNT>,
    pty_filter: ModeFilter<u8, PTY_FILTER_COUNT>,
    tp_filter: ModeFilter<bool, TP_FILTER_COUNT>,
    ps_decoder: PsDecoder,
    rt_decoder: RtDecoder,
    oda_identifier: OdaIdentifier,
}

impl View for Decoder {
    type V = DecoderView;

    closed spec fn view(&self) -> DecoderView {
        DecoderView {
            pi: self.pi_filter@,
            pty: self.pty_filter@,
            tp: self.tp_filter@,
            ps: self.ps_decoder@,
            rt: self.rt_decoder@,
            oda: self.oda_identifier@,
        }
    }
}

impl Decoder {
    /// Create new RDS decoder.
    pub fn new() -> (d: Self)
        ensures
            d@ == DecoderView::blank(),
    {
        Decoder {
            pi_filter: ModeFilter::new(PI_FILTER_MIN).unwrap(),
            pty_filter: ModeFilter::new(PTY_FILTER_MIN).unwrap(),
            tp_filter: ModeFilter::new(TP_FILTER_MIN).unwrap(),
            ps_decoder: PsDecoder::new(),
            rt_decoder: RtDecoder::new(),
            oda_identifier: OdaIdentifier::new(),
        }
    }

    /// Decode the RDS message and return the current state of the RDS metadata.
    pub fn decode(&mut self, blocks: &Message) -> (metadata: Metadata)
        ensures
            final(self)@ == old(self)@.decode(*blocks),
            metadata@ == final(self)@.snapshot(),
            metadata@.ps matches Some(ps) ==> ps.len() == crate::text::PS_SIZE,
            metadata@.rt matches Some(rt) ==> rt.text.len() <= crate::text::MAX_RT_LENGTH
                && rt.tags.len() <= 2,
    {
        self.decode_block1(&blocks.block1);

        // Return immediately if Block 2 is not provided because it determines
        // how to decode Block 3 and 4.
        if let Some(block2) = blocks.block2 {
            self.decode_blocks234(&block2, &blocks.block3, &blocks.block4);
        }
        self.metadata()
    }

    /// Reset Decoder's state to default.
    /// This method should be called after tuning to a different station.
    pub fn reset(&mut self)
        ensures
            final(self)@ == DecoderView::blank(),
            final(self)@.snapshot() == MetadataView::blank(),
    {
        proof {
            DecoderView::lemma_blank_snapshot();
        }
        let fresh = Self::new();
        *self = fresh;
    }

    /// Decode Block 1 as the Programme Identifier (PI) if provided.
    fn decode_block1(&mut self, block1: &Option<Block1>)
        ensures
            final(self)@ == old(self)@.decode_block1(*block1),
    {
        if let Some(block) = block1 {
            self.pi_filter.push(block.0);
        }
    }

    /// Decode Blocks 2, 3, and 4.
    /// Block 2 must be provided because it determines how to decode Blocks 3 and 4.
    fn decode_blocks234(
        &mut self,
        block2: &Block2,
        maybe_block3: &Option<Block3>,
        maybe_block4: &Option<Block4>,
    )
        ensures
            final(self)@ == old(self)@.decode_blocks234(*block2, *maybe_block3, *maybe_block4),
    {
        let shared = Shared::from(*block2);
        proof {
            Shared::lemma_fields_in_range(*block2);
        }
        self.handle_group_variant_b_pi(&shared, maybe_block3);
        self.pty_filter.push(shared.pty.0);
        self.tp_filter.push(shared.tp.0);

        if shared.gt.0 == 0 {
            if let Some(block4) = maybe_block4 {
                self.handle_ps_name(block2, block4);
            }
        } else if shared.gt.0 == 2 {
            self.handle_radio_text(&shared, block2, maybe_block3, maybe_block4);
        } else if shared.gt.0 == 3 && shared.gv == GroupVariant::A {
            self.handle_oda_identification(block2, maybe_block3, maybe_block4);
        } else if let Some(app) = self.oda_identifier.get_app(shared.gt, shared.gv) {
            self.handle_oda(app, block2, maybe_block3, maybe_block4);
        }
    }

    fn handle_group_variant_b_pi(&mut self, shared: &Shared, block3: &Option<Block3>)
        ensures
            final(self)@ == old(self)@.handle_group_variant_b_pi(*shared, *block3),
    {
        if shared.gv == GroupVariant::B {
            if let Some(block3) = block3 {
                self.pi_filter.push(block3.0);
            }
        }
    }

    fn handle_ps_name(&mut self, block2: &Block2, block4: &Block4)
        ensures
            final(self)@ == old(self)@.handle_ps_name(*block2, *block4),
    {
        let b2: u16 = block2.0;
        assert(b2 & 0b11 <= 3) by (bit_vector);
        let idx = b2 & 0b11;
        let chars = be_bytes(block4.0);
        let _ = self.ps_decoder.push_segment(idx as usize, chars);
    }

    fn handle_radio_text(
        &mut self,
        shared: &Shared,
        block2: &Block2,
        maybe_block3: &Option<Block3>,
        maybe_block4: &Option<Block4>,
    )
        ensures
            final(self)@ == old(self)@.handle_radio_text(
                *shared,
                *block2,
                *maybe_block3,
                *maybe_block4,
            ),
    {
        let b2: u16 = block2.0;
        assert(b2 & 0b1111 <= 15) by (bit_vector);
        let index: usize = (b2 & 0b1111) as usize;
        let text_ab = (b2 & 0x10) > 0;
        match shared.gv {
            GroupVariant::A => {
                self.handle_radio_text_a(index, text_ab, maybe_block3, maybe_block4);
            },
            GroupVariant::B => {
                self.handle_radio_text_b(index, text_ab, maybe_block4);
            },
        }
    }

    fn handle_radio_text_a(
        &mut self,
        index: usize,
        text_ab: bool,
        maybe_block3: &Option<Block3>,
        maybe_block4: &Option<Block4>,
    )
        requires
            index < 16,
        ensures
            final(self)@ == (match (*maybe_block3, *maybe_block4) {
                (Some(block3), Some(block4)) => DecoderView {
                    rt: old(self)@.rt.push_segment(
                        Group::A,
                        index as int,
                        segment_a_bytes(block3, block4),
                        text_ab,
                    ),
                    ..old(self)@
                },
                _ => old(self)@,
            }),
    {
        if let (Some(block3), Some(block4)) = (maybe_block3, maybe_block4) {
            let chars3 = be_bytes(block3.0);
            let chars4 = be_bytes(block4.0);
            let chars = [chars3[0], chars3[1], chars4[0], chars4[1]];
            assert(chars@ =~= segment_a_bytes(*block3, *block4));
            self.rt_decoder.push_segment_a(index, chars, text_ab);
        }
    }

    fn handle_radio_text_b(&mut self, index: usize, text_ab: bool, block4: &Option<Block4>)
        requires
            index < 16,
        ensures
            final(self)@ == (match *block4 {
                Some(block4) => DecoderView {
                    rt: old(self)@.rt.push_segment(
                        Group::B,
                        index as int,
                        segment_b_bytes(block4),
                        text_ab,
                    ),
                    ..old(self)@
                },
                None => old(self)@,
            }),
    {
        if let Some(block4) = block4 {
            let chars = be_bytes(block4.0);
            assert(chars@ =~= segment_b_bytes(*block4));
            self.rt_decoder.push_segment_b(index, chars, text_ab);
        }
    }

    fn handle_oda_identification(
        &mut self,
        block2: &Block2,
        maybe_block3: &Option<Block3>,
        maybe_block4: &Option<Block4>,
    )
        ensures
            final(self)@ == old(self)@.handle_oda_identification(
                *block2,
                *maybe_block3,
                *maybe_block4,
            ),
    {
        let block4 = match (maybe_block3, maybe_block4) {
            (Some(_), Some(block4)) => block4,
            _ => { return ; },
        };
        let oda_app = match OdaApplication::try_from(block4.0) {
            Ok(val) => val,
            Err(_) => { return ; },
        };
        let b2: u16 = block2.0;
        let oda_variant = GroupVariant::from(b2 & 0x1 == 1);
        assert((b2 >> 1) & 0xF <= 15) by (bit_vector);
        let oda_group = GroupType(((b2 >> 1) & 0xF) as u8);
        if Self::is_possible_oda_group(oda_group, oda_variant) {
            let _ = self.oda_identifier.add_new_app(oda_group, oda_variant, oda_app);
        }
    }

    fn handle_oda(
        &mut self,
        app: OdaApplication,
        block2: &Block2,
        maybe_block3: &Option<Block3>,
        maybe_block4: &Option<Block4>,
    )
        ensures
            final(self)@ == old(self)@.handle_oda(app, *block2, *maybe_block3, *maybe_block4),
    {
        if app != OdaApplication::RtPlus {
            return ;
        }
        let (block3, block4) = match (maybe_block3, maybe_block4) {
            (Some(block3), Some(block4)) => (block3, block4),
            _ => { return ; },
        };
        let b2: u16 = block2.0;
        let b3: u16 = block3.0;
        let b4: u16 = block4.0;
        proof {
            assert({
                &&& (((b2 & 0b111) << 3) | (((b3 >> 1) >> 6 >> 6) & 0x7)) == (((b2 & 0b111) << 3) | (
                (b3 >> 13) & 0b111))
                &&& (((b2 & 0b111) << 3) | ((b3 >> 13) & 0b111)) <= 63
                &&& (((b3 >> 1) >> 6) & 0x3F) == ((b3 >> 7) & 0b11_1111)
                &&& ((b3 >> 7) & 0b11_1111) <= 63
                &&& ((b3 >> 1) & 0x3F) <= 63
            }) by (bit_vector);
            assert({
                &&& (((b4 >> 5) >> 6) | ((b3 & 0b1) << 5)) == (((b3 & 0b1) << 5) | ((b4 >> 11)
                    & 0b1_1111))
                &&& (((b3 & 0b1) << 5) | ((b4 >> 11) & 0b1_1111)) <= 63
                &&& ((b4 >> 5) & 0x3F) <= 63
                &&& (b4 & 0x1F) <= 31
            }) by (bit_vector);
        }
        let rt_type2_first = b3 & 0b1;

        let rt_content_type_1_first_part = b2 & 0b111;
        let bitmask_block3 = b3 >> 1;
        let rt_length1 = (bitmask_block3 & 0x3F) as u8;
        let bitmask_block3 = bitmask_block3 >> 6;
        let start1 = (bitmask_block3 & 0x3F) as u8;
        let bitmask_block3 = bitmask_block3 >> 6;
        let rt_content_type1 = ((rt_content_type_1_first_part << 3) | (bitmask_block3 & 0x7)) as u8;
        let tag_type1 = match RadioTextPlusContentType::try_from(rt_content_type1) {
            Ok(tag) => tag,
            Err(_) => { return ; },
        };
        let tag1 = RadioTextPlusTag::new(tag_type1, start1 as usize, rt_length1 as usize);

        let rt_length2 = (b4 & 0x1F) as u8;
        let rest = b4 >> 5;
        let start2 = (rest & 0x3F) as u8;
        let rest = rest >> 6;
        let rt_content_type2 = (rest | (rt_type2_first << 5)) as u8;
        let tag_type2 = match RadioTextPlusContentType::try_from(rt_content_type2) {
            Ok(tag) => tag,
            Err(_) => { return ; },
        };
        let tag2 = RadioTextPlusTag::new(tag_type2, start2 as usize, rt_length2 as usize);

        self.rt_decoder.push_rt_plus_tags(tag1, tag2);
    }

    fn metadata(&self) -> (metadata: Metadata)
        ensures
            metadata@ == self@.snapshot(),
            metadata@.ps matches Some(ps) ==> ps.len() == crate::text::PS_SIZE,
            metadata@.rt matches Some(rt) ==> rt.text.len() <= crate::text::MAX_RT_LENGTH
                && rt.tags.len() <= 2,
    {
        Metadata {
            pi: match self.pi_filter.mode() {
                Some(pi) => Some(ProgrammeIdentifier(pi)),
                None => None,
            },
            pty: match self.pty_filter.mode() {
                Some(pty) => Some(ProgrammeType(pty)),
                None => None,
            },
            tp: match self.tp_filter.mode() {
                Some(tp) => Some(TrafficProgram(tp)),
                None => None,
            },
            ps: self.ps_decoder.confirmed(),
            rt: self.rt_decoder.confirmed(),
        }
    }

    fn is_possible_oda_group(group_type: GroupType, group_variant: GroupVariant) -> (r: bool)
        ensures
            r == is_oda_slot(group_type, group_variant),
    {
        match (group_type.0, group_variant) {
            (1, GroupVariant::B) | (3, GroupVariant::B) | (4, GroupVariant::B) | (
                10,
                GroupVariant::B,
            ) | (5..=9, _) | (11..=13, _) => true,
            _ => false,
        }
    }
}

impl Default for Decoder {
    fn default() -> (d: Self)
        ensures
            d@ == DecoderView::blank(),
    {
        Self::new()
    }
}

} // verus!
