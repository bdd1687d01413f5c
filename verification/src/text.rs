//! Fixed-capacity text and tag storage.
//!
//! The buffers are `heapless` collections, so a snapshot never allocates. Verus does not look
//! inside them: what each holds is named by a specification function, and the few `heapless`
//! methods in use are reached through wrappers whose contracts are taken on trust. The
//! wrappers are marked `#[verifier::external_body]`; everything else here is proved.
use crate::types::RadioTextPlusTag;
use vstd::prelude::*;

verus! {

/// Number of characters in a programme service name.
pub const PS_SIZE: usize = 8;

/// Largest number of characters in a RadioText message.
pub const MAX_RT_LENGTH: usize = 64;

/// Largest number of RadioText+ tags carried beside a RadioText message.
pub const MAX_RT_PLUS_TAGS: usize = 16;

/// Bytes reserved for a text: the 64 characters of a RadioText message, the longest text
/// there is, at up to four bytes each.
pub const TEXT_CAPACITY: usize = 256;

/// Number of bytes that `c` takes in UTF-8.
pub open spec fn utf8_width(c: char) -> nat {
    if (c as u32) < 0x80 {
        1
    } else if (c as u32) < 0x800 {
        2
    } else if (c as u32) < 0x1_0000 {
        3
    } else {
        4
    }
}

/// Number of bytes that `chars` takes in UTF-8.
pub open spec fn utf8_len(chars: Seq<char>) -> nat
    decreases chars.len(),
{
    if chars.len() == 0 {
        0
    } else {
        utf8_len(chars.drop_last()) + utf8_width(chars.last())
    }
}

/// Every character takes between one and four bytes, so a text takes between one and four
/// bytes per character.
pub proof fn lemma_utf8_len_bounds(chars: Seq<char>)
    ensures
        chars.len() <= utf8_len(chars) <= 4 * chars.len(),
    decreases chars.len(),
{
    if chars.len() > 0 {
        lemma_utf8_len_bounds(chars.drop_last());
    }
}

/// Appending one character adds its width.
pub proof fn lemma_utf8_len_push(chars: Seq<char>, c: char)
    ensures
        utf8_len(chars.push(c)) == utf8_len(chars) + utf8_width(c),
{
    assert(chars.push(c).drop_last() =~= chars);
}

/// A text in a buffer of `TEXT_CAPACITY` bytes that lives in the value itself.
///
/// The buffer is a `heapless::String`. That type rests on a storage type which `heapless`
/// keeps private, so it cannot be declared to Verus, and the struct around it is opaque
/// instead: what it holds is named by `fixed_string_chars`.
#[verifier::external_body]
#[derive(Debug, Default, PartialEq, Eq)]
pub struct FixedString {
    text: heapless::String<TEXT_CAPACITY>,
}

/// The text of a programme service name.
pub type ProgrammeServiceNameString = FixedString;

/// The text of a RadioText message.
pub type RadioTextString = FixedString;

/// The characters that a text holds, in order.
pub uninterp spec fn fixed_string_chars(s: FixedString) -> Seq<char>;

impl View for FixedString {
    type V = Seq<char>;

    open spec fn view(&self) -> Seq<char> {
        fixed_string_chars(*self)
    }
}

impl Clone for FixedString {
    /// `heapless::String::clone`: a text that holds the same characters.
    #[verifier::external_body]
    fn clone(&self) -> (s: Self)
        ensures
            fixed_string_chars(s) == fixed_string_chars(*self),
    {
        FixedString { text: self.text.clone() }
    }
}

impl FixedString {
    /// `heapless::String::new`: a string that holds no character.
    #[verifier::external_body]
    pub(crate) fn empty() -> (s: Self)
        ensures
            fixed_string_chars(s) =~= Seq::empty(),
    {
        FixedString { text: heapless::String::new() }
    }

    /// `heapless::String::push`: appends `c` if its UTF-8 bytes still fit into the buffer, and
    /// otherwise leaves the string as it was. The result tells which.
    #[verifier::external_body]
    pub(crate) fn push_char(&mut self, c: char) -> (fits: bool)
        ensures
            fits <==> utf8_len(fixed_string_chars(*old(self))) + utf8_width(c) <= TEXT_CAPACITY,
            fits ==> fixed_string_chars(*final(self)) == fixed_string_chars(*old(self)).push(c),
            !fits ==> fixed_string_chars(*final(self)) == fixed_string_chars(*old(self)),
    {
        self.text.push(c).is_ok()
    }

    /// `heapless::String::as_str`: the characters held, as a string slice.
    #[verifier::external_body]
    pub(crate) fn text(&self) -> (s: &str)
        ensures
            s@ == fixed_string_chars(*self),
    {
        self.text.as_str()
    }

    /// Builds the text that holds exactly `chars`, if its UTF-8 form fits into
    /// `TEXT_CAPACITY` bytes. Up to 64 characters always fit.
    pub fn from_chars(chars: &[char]) -> (r: Option<Self>)
        ensures
            r is Some <==> utf8_len(chars@) <= TEXT_CAPACITY,
            r matches Some(s) ==> s@ == chars@,
            chars@.len() <= MAX_RT_LENGTH ==> r is Some,
    {
        let mut s = Self::empty();
        let mut i: usize = 0;
        while i < chars.len()
            invariant
                i <= chars.len(),
                s@ == chars@.take(i as int),
                utf8_len(s@) <= TEXT_CAPACITY,
            decreases chars.len() - i,
        {
            proof {
                lemma_utf8_len_push(s@, chars@[i as int]);
                assert(chars@.take(i as int).push(chars@[i as int]) =~= chars@.take(i as int + 1));
            }
            if !s.push_char(chars[i]) {
                proof {
                    lemma_utf8_len_prefix(chars@, i as int + 1);
                    lemma_utf8_len_bounds(chars@);
                }
                return None;
            }
            i += 1;
        }
        assert(chars@.take(i as int) =~= chars@);
        Some(s)
    }
}

/// The RadioText+ tags beside a RadioText message, in a buffer of `MAX_RT_PLUS_TAGS` slots
/// that lives in the value itself.
///
/// The buffer is a `heapless::Vec`, built on the same private storage type as
/// `heapless::String`; the struct around it is opaque, and what it holds is named by
/// `rt_plus_list_tags`.
#[verifier::external_body]
#[derive(Debug, Default, PartialEq, Eq)]
pub struct RadioTextPlusList {
    tags: heapless::Vec<RadioTextPlusTag, MAX_RT_PLUS_TAGS>,
}

/// The tags that a tag list holds, in the order in which they were added.
pub uninterp spec fn rt_plus_list_tags(l: RadioTextPlusList) -> Seq<RadioTextPlusTag>;

impl View for RadioTextPlusList {
    type V = Seq<RadioTextPlusTag>;

    open spec fn view(&self) -> Seq<RadioTextPlusTag> {
        rt_plus_list_tags(*self)
    }
}

impl Clone for RadioTextPlusList {
    /// `heapless::Vec::clone`: a list that holds the same tags in the same order.
    #[verifier::external_body]
    fn clone(&self) -> (l: Self)
        ensures
            rt_plus_list_tags(l) == rt_plus_list_tags(*self),
    {
        RadioTextPlusList { tags: self.tags.clone() }
    }
}

impl RadioTextPlusList {
    /// `heapless::Vec::new`: a list that holds no tag.
    #[verifier::external_body]
    pub(crate) fn empty() -> (l: Self)
        ensures
            rt_plus_list_tags(l) =~= Seq::empty(),
    {
        RadioTextPlusList { tags: heapless::Vec::new() }
    }

    /// The list without tags.
    pub fn new() -> (l: Self)
        ensures
            l@ == Seq::<RadioTextPlusTag>::empty(),
    {
        Self::empty()
    }

    /// `heapless::Vec::push`: appends `tag` if a slot is free, and otherwise leaves the list
    /// as it was. The result tells which.
    #[verifier::external_body]
    pub(crate) fn push_tag(&mut self, tag: RadioTextPlusTag) -> (fits: bool)
        ensures
            fits <==> rt_plus_list_tags(*old(self)).len() < MAX_RT_PLUS_TAGS,
            fits ==> rt_plus_list_tags(*final(self)) == rt_plus_list_tags(*old(self)).push(tag),
            !fits ==> rt_plus_list_tags(*final(self)) == rt_plus_list_tags(*old(self)),
    {
        self.tags.push(tag).is_ok()
    }

    /// `heapless::Vec::as_slice`: the tags held, as a slice.
    #[verifier::external_body]
    pub(crate) fn tags(&self) -> (s: &[RadioTextPlusTag])
        ensures
            s@ == rt_plus_list_tags(*self),
    {
        self.tags.as_slice()
    }

    /// Builds the list that holds exactly `tags`, if there are at most `MAX_RT_PLUS_TAGS`.
    pub fn from_tags(tags: &[RadioTextPlusTag]) -> (r: Option<Self>)
        ensures
            r is Some <==> tags@.len() <= MAX_RT_PLUS_TAGS,
            r matches Some(l) ==> l@ == tags@,
    {
        let mut l = Self::new();
        let mut i: usize = 0;
        while i < tags.len()
            invariant
                i <= tags.len(),
                l@ == tags@.take(i as int),
                i <= MAX_RT_PLUS_TAGS,
            decreases tags.len() - i,
        {
            proof {
                assert(tags@.take(i as int).push(tags@[i as int]) =~= tags@.take(i as int + 1));
            }
            if !l.push_tag(tags[i]) {
                return None;
            }
            i += 1;
        }
        assert(tags@.take(i as int) =~= tags@);
        Some(l)
    }
}

/// A prefix of a text takes no more bytes than the text.
pub proof fn lemma_utf8_len_prefix(chars: Seq<char>, n: int)
    requires
        0 <= n <= chars.len(),
    ensures
        utf8_len(chars.take(n)) <= utf8_len(chars),
    decreases chars.len() - n,
{
    if n < chars.len() {
        lemma_utf8_len_prefix(chars, n + 1);
        lemma_utf8_len_push(chars.take(n), chars[n]);
        assert(chars.take(n).push(chars[n]) =~= chars.take(n + 1));
    } else {
        assert(chars.take(n) =~= chars);
    }
}

} // verus!
