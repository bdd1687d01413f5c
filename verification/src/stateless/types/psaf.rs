//! Types relating to Type 0 Group: Basic tuning and switching information.
use vstd::prelude::*;
use vstd::std_specs::convert::FromSpecImpl;

verus! {

/// Indication of whether music or speech is being broadcasted.
#[derive(Clone, Copy, Debug, PartialEq, Eq, Structural)]
pub enum MusicSpeechCode {
    /// Speech, at present, is being broadcasted.
    Speech,
    /// Music, at present, is being broadcasted.
    /// This could also indicate that the broadcaster is not using this field.
    MusicOrUnused,
}

impl MusicSpeechCode {
    /// The code that the music/speech bit stands for: music when it is set.
    pub open spec fn of_bit(value: bool) -> Self {
        if value {
            MusicSpeechCode::MusicOrUnused
        } else {
            MusicSpeechCode::Speech
        }
    }
}

impl From<bool> for MusicSpeechCode {
    fn from(value: bool) -> (r: Self)
        ensures
            r == Self::of_bit(value),
    {
        match value {
            true => Self::MusicOrUnused,
            false => Self::Speech,
        }
    }
}

impl FromSpecImpl<bool> for MusicSpeechCode {
    open spec fn obeys_from_spec() -> bool {
        true
    }

    open spec fn from_spec(v: bool) -> Self {
        Self::of_bit(v)
    }
}

/// Used in conduction with TrafficProgramCode to indicate whether a traffic announcement is
/// currently being broadcasted.
#[derive(Clone, Copy, Debug, PartialEq, Eq, Structural)]
pub struct TrafficAnnouncementCode(pub bool);

/// Individual bit of the Decoder Identifier.
///
/// DecoderIdentifierCode is sent progressively over 4 messages with CharacterSegment to determine the location
/// in the overall DecoderIdentifier.
#[derive(Clone, Copy, Debug, PartialEq, Eq, Structural)]
pub struct DecoderIdentifierCode(pub bool);

/// Determines the location of the DecoderIdentifierCode in the DecoderIdentifier codeword
/// and the Programme Service name (PS) segment in the overall Programme Service name.
#[derive(Clone, Copy, Debug, PartialEq, Eq, Structural)]
pub struct CharacterSegment(pub usize);

/// Alternative Frequency Table Code.
#[derive(Clone, Copy, Debug, PartialEq, Eq, Structural)]
pub enum AlternativeFreqCode {
    /// Not to be used.
    NotToBeUsed,
    /// Frequency, in kHz.
    Frequency(u32),
    /// Filler code.
    FillerCode,
    /// Not assigned.
    NotAssigned,
    /// No AF exists.
    NoAfExists,
    /// N AF Follows.
    AfFollows(usize),
    /// An LF/MF Frequency follows.
    LfMfFrequencyFollows,
}

/// The frequency of the first carrier in the table, in kHz.
pub const BASE_FREQ: u32 = 87600;

/// The distance between two carriers in the table, in kHz.
pub const FREQ_STEP: u32 = 100;

impl AlternativeFreqCode {
    /// What the byte `value` stands for in the table of alternative frequencies: the codes 1
    /// to 204 are the carriers from 87.6 MHz upwards in steps of 100 kHz, the codes 225 to
    /// 249 announce that 1 to 25 frequencies follow, and the rest are single codes or not
    /// assigned.
    pub open spec fn of_code(value: u8) -> Self {
        if value == 0 {
            AlternativeFreqCode::NotToBeUsed
        } else if value <= 204 {
            AlternativeFreqCode::Frequency((BASE_FREQ + FREQ_STEP * (value - 1)) as u32)
        } else if value == 205 {
            AlternativeFreqCode::FillerCode
        } else if value <= 223 {
            AlternativeFreqCode::NotAssigned
        } else if value == 224 {
            AlternativeFreqCode::NoAfExists
        } else if value <= 249 {
            AlternativeFreqCode::AfFollows((value - 224) as usize)
        } else if value == 250 {
            AlternativeFreqCode::LfMfFrequencyFollows
        } else {
            AlternativeFreqCode::NotAssigned
        }
    }

    /// A frequency in the table lies between 87.6 MHz and 107.9 MHz, and between one and 25
    /// frequencies are announced to follow.
    pub proof fn lemma_of_code_in_range(value: u8)
        ensures
            Self::of_code(value) matches AlternativeFreqCode::Frequency(f) ==> 87600 <= f <= 107900
                && f == 87600 + 100 * (value - 1),
            Self::of_code(value) matches AlternativeFreqCode::AfFollows(n) ==> 1 <= n <= 25,
    {
    }
}

impl From<u8> for AlternativeFreqCode {
    fn from(value: u8) -> (r: Self)
        ensures
            r == Self::of_code(value),
    {
        match value {
            0 => Self::NotToBeUsed,
            1..=204 => {
                let freq = BASE_FREQ + (FREQ_STEP * ((value - 1) as u32));
                Self::Frequency(freq)
            },
            205 => Self::FillerCode,
            206..=223 | 251..=255 => Self::NotAssigned,
            224 => Self::NoAfExists,
            225..=249 => {
                let following = (value - 225 + 1) as usize;
                Self::AfFollows(following)
            },
            250 => Self::LfMfFrequencyFollows,
        }
    }
}

impl FromSpecImpl<u8> for AlternativeFreqCode {
    open spec fn obeys_from_spec() -> bool {
        true
    }

    open spec fn from_spec(v: u8) -> Self {
        Self::of_code(v)
    }
}

/// Segment of Programme Service name.
#[derive(Clone, Copy, Debug, PartialEq, Eq)]
pub struct PsSegment(pub [char; 2]);

} // verus!
