//! Text and array values as the runtime's native layouts bound them: text of
//! a fixed capacity in bytes, and text and arrays of any length.

use vstd::prelude::*;
use vstd::utf8::{encode_scalar, encode_utf8};

verus! {

/// `String::push` of the standard library: the character is appended at the
/// end. Assumed, not proved.
pub assume_specification[ String::push ](s: &mut String, c: char)
    ensures
        final(s)@ == old(s)@.push(c),
;

/// `char::len_utf8` of the standard library: the number of bytes that the
/// character takes when it is encoded in UTF-8. Assumed, not proved.
pub assume_specification[ char::len_utf8 ](c: char) -> (n: usize)
    ensures
        n == encode_scalar(c as u32).len(),
;

/// The number of bytes that one character takes in UTF-8.
pub open spec fn utf8_width(c: char) -> nat {
    encode_scalar(c as u32).len()
}

/// The number of bytes that a text takes in UTF-8.
pub open spec fn utf8_len(text: Seq<char>) -> nat {
    encode_utf8(text).len()
}

/// Whether every byte is a 7-bit value.
pub open spec fn is_seven_bit(bytes: Seq<u8>) -> bool {
    forall|i: int| 0 <= i < bytes.len() ==> #[trigger] bytes[i] <= 127
}

/// A character takes between one and four bytes.
pub proof fn lemma_utf8_width_bounds(c: char)
    ensures
        1 <= utf8_width(c) <= 4,
{
}

/// Appending a character lengthens a text by the bytes of that character.
pub proof fn lemma_utf8_len_push(text: Seq<char>, c: char)
    ensures
        utf8_len(text.push(c)) == utf8_len(text) + utf8_width(c),
    decreases text.len(),
{
    let longer = text.push(c);
    if text.len() == 0 {
        assert(longer.drop_first() =~= Seq::<char>::empty());
        assert(encode_utf8(longer.drop_first()).len() == 0);
    } else {
        assert(longer.drop_first() =~= text.drop_first().push(c));
        lemma_utf8_len_push(text.drop_first(), c);
    }
}

/// A text has no more characters than bytes.
pub proof fn lemma_utf8_len_covers_chars(text: Seq<char>)
    ensures
        text.len() <= utf8_len(text),
    decreases text.len(),
{
    if text.len() > 0 {
        lemma_utf8_width_bounds(text[0]);
        lemma_utf8_len_covers_chars(text.drop_first());
    }
}

/// What became of a character that was offered to a text.
#[derive(Clone, Copy, Debug, PartialEq, Eq, Structural)]
pub enum Step {
    /// It was the null character, which no text takes: nothing changed.
    Skipped,
    /// It was appended.
    Appended,
    /// It would have taken the text beyond its budget: nothing changed, and
    /// the text is finished.
    Full,
}

/// Whether `text` can take `c` within `budget` bytes.
pub open spec fn fits(text: Seq<char>, c: char, budget: usize) -> bool {
    utf8_len(text) + utf8_width(c) <= budget
}

/// What offering `c` to `text` under a byte budget comes to.
pub open spec fn offer(text: Seq<char>, c: char, budget: usize) -> Step {
    if c == '\0' {
        Step::Skipped
    } else if fits(text, c, budget) {
        Step::Appended
    } else {
        Step::Full
    }
}

/// What offering `scalars` to an empty text comes to, one at a time and in
/// order, under a byte budget: the text, and whether it is finished because
/// a character did not fit. Once the text is finished, the characters that
/// follow are not looked at.
pub open spec fn offer_all(scalars: Seq<char>, budget: usize) -> (Seq<char>, bool)
    decreases scalars.len(),
{
    if scalars.len() == 0 {
        (Seq::empty(), false)
    } else {
        let (text, finished) = offer_all(scalars.drop_last(), budget);
        if finished {
            (text, true)
        } else {
            match offer(text, scalars.last(), budget) {
                Step::Skipped => (text, false),
                Step::Appended => (text.push(scalars.last()), false),
                Step::Full => (text, true),
            }
        }
    }
}

/// Offers one character to a text whose length is budgeted in bytes: a null
/// character is skipped, a character that fits is appended, and one that
/// does not fit ends the text.
pub fn append_scalar(text: &mut String, c: char, budget: usize) -> (step: Step)
    ensures
        step == offer(old(text)@, c, budget),
        final(text)@ == if step is Appended {
            old(text)@.push(c)
        } else {
            old(text)@
        },
{
    if c == '\0' {
        return Step::Skipped;
    }
    let used = text.as_str().as_bytes().len();
    let width = c.len_utf8();
    if used > budget || width > budget - used {
        return Step::Full;
    }
    text.push(c);
    Step::Appended
}

/// Text of 7-bit characters in a buffer of `N` bytes.
#[derive(Debug, PartialEq, Eq)]
pub struct FixedAscii<const N: usize> {
    bytes: Vec<u8>,
}

impl<const N: usize> Clone for FixedAscii<N> {
    fn clone(&self) -> (copy: Self)
        ensures
            copy@ == self@,
    {
        proof {
            use_type_invariant(self);
        }
        FixedAscii { bytes: self.bytes.clone() }
    }
}

impl<const N: usize> View for FixedAscii<N> {
    type V = Seq<u8>;

    closed spec fn view(&self) -> Seq<u8> {
        self.bytes@
    }
}

impl<const N: usize> FixedAscii<N> {
    #[verifier::type_invariant]
    spec fn within_capacity(&self) -> bool {
        self.bytes@.len() <= N && is_seven_bit(self.bytes@)
    }

    /// The number of bytes that the buffer holds.
    pub fn capacity() -> (capacity: usize)
        ensures
            capacity == N,
    {
        N
    }

    /// The text of these bytes, where they are 7-bit values and no more
    /// than the capacity.
    pub fn from_ascii(bytes: Vec<u8>) -> (text: Option<Self>)
        ensures
            match text {
                Some(text) => text@ == bytes@ && bytes@.len() <= N && is_seven_bit(bytes@),
                None => !(bytes@.len() <= N && is_seven_bit(bytes@)),
            },
    {
        if bytes.len() > N {
            return None;
        }
        let mut i: usize = 0;
        while i < bytes.len()
            invariant
                i <= bytes.len(),
                is_seven_bit(bytes@.take(i as int)),
            decreases bytes.len() - i,
        {
            if bytes[i] > 127 {
                return None;
            }
            assert(bytes@.take(i + 1) =~= bytes@.take(i as int).push(bytes@[i as int]));
            i += 1;
        }
        assert(bytes@.take(i as int) =~= bytes@);
        Some(FixedAscii { bytes })
    }

    /// The text of these bytes, which the caller knows to be 7-bit values
    /// and no more than the capacity.
    pub fn from_ascii_unchecked(bytes: Vec<u8>) -> (text: Self)
        requires
            bytes@.len() <= N,
            is_seven_bit(bytes@),
        ensures
            text@ == bytes@,
    {
        FixedAscii { bytes }
    }

    /// The bytes of the text: 7-bit values, no more than the capacity.
    pub fn as_bytes(&self) -> (bytes: &[u8])
        ensures
            bytes@ == self@,
            bytes@.len() <= N,
            is_seven_bit(bytes@),
    {
        proof {
            use_type_invariant(self);
        }
        self.bytes.as_slice()
    }

    /// The length of the text in bytes.
    pub fn len(&self) -> (len: usize)
        ensures
            len == self@.len(),
            len <= N,
    {
        proof {
            use_type_invariant(self);
        }
        self.bytes.len()
    }
}

/// Unicode text whose UTF-8 encoding fits a buffer of `N` bytes.
#[derive(Debug, PartialEq, Eq)]
pub struct FixedUnicode<const N: usize> {
    text: String,
}

impl<const N: usize> Clone for FixedUnicode<N> {
    fn clone(&self) -> (copy: Self)
        ensures
            copy@ == self@,
    {
        proof {
            use_type_invariant(self);
        }
        FixedUnicode { text: self.text.clone() }
    }
}

impl<const N: usize> View for FixedUnicode<N> {
    type V = Seq<char>;

    closed spec fn view(&self) -> Seq<char> {
        self.text@
    }
}

impl<const N: usize> FixedUnicode<N> {
    #[verifier::type_invariant]
    spec fn within_capacity(&self) -> bool {
        utf8_len(self.text@) <= N
    }

    /// The number of bytes that the buffer holds.
    pub fn capacity() -> (capacity: usize)
        ensures
            capacity == N,
    {
        N
    }

    /// This text, where its encoding is no longer than the capacity.
    pub fn from_string(text: String) -> (fixed: Option<Self>)
        ensures
            match fixed {
                Some(fixed) => fixed@ == text@ && utf8_len(text@) <= N,
                None => utf8_len(text@) > N,
            },
    {
        if text.as_str().as_bytes().len() <= N {
            Some(FixedUnicode { text })
        } else {
            None
        }
    }

    /// This text, whose encoding the caller knows to be no longer than the
    /// capacity.
    pub fn from_string_unchecked(text: String) -> (fixed: Self)
        requires
            utf8_len(text@) <= N,
        ensures
            fixed@ == text@,
    {
        FixedUnicode { text }
    }

    /// The text, whose encoding is no longer than the capacity.
    pub fn as_str(&self) -> (text: &str)
        ensures
            text@ == self@,
            utf8_len(text@) <= N,
    {
        proof {
            use_type_invariant(self);
        }
        self.text.as_str()
    }
}

/// Text of 7-bit characters of any length.
#[derive(Debug, PartialEq, Eq)]
pub struct VarLenAscii {
    bytes: Vec<u8>,
}

impl Clone for VarLenAscii {
    fn clone(&self) -> (copy: Self)
        ensures
            copy@ == self@,
    {
        proof {
            use_type_invariant(self);
        }
        VarLenAscii { bytes: self.bytes.clone() }
    }
}

impl View for VarLenAscii {
    type V = Seq<u8>;

    closed spec fn view(&self) -> Seq<u8> {
        self.bytes@
    }
}

impl VarLenAscii {
    #[verifier::type_invariant]
    spec fn seven_bit(&self) -> bool {
        is_seven_bit(self.bytes@)
    }

    /// The text of these bytes, where they are 7-bit values.
    pub fn from_ascii(bytes: Vec<u8>) -> (text: Option<Self>)
        ensures
            match text {
                Some(text) => text@ == bytes@ && is_seven_bit(bytes@),
                None => !is_seven_bit(bytes@),
            },
    {
        let mut i: usize = 0;
        while i < bytes.len()
            invariant
                i <= bytes.len(),
                is_seven_bit(bytes@.take(i as int)),
            decreases bytes.len() - i,
        {
            if bytes[i] > 127 {
                return None;
            }
            assert(bytes@.take(i + 1) =~= bytes@.take(i as int).push(bytes@[i as int]));
            i += 1;
        }
        assert(bytes@.take(i as int) =~= bytes@);
        Some(VarLenAscii { bytes })
    }

    /// The text of these bytes, which the caller knows to be 7-bit values.
    pub fn from_ascii_unchecked(bytes: Vec<u8>) -> (text: Self)
        requires
            is_seven_bit(bytes@),
        ensures
            text@ == bytes@,
    {
        VarLenAscii { bytes }
    }

    /// The bytes of the text: 7-bit values.
    pub fn as_bytes(&self) -> (bytes: &[u8])
        ensures
            bytes@ == self@,
            is_seven_bit(bytes@),
    {
        proof {
            use_type_invariant(self);
        }
        self.bytes.as_slice()
    }

    /// The length of the text in bytes.
    pub fn len(&self) -> (len: usize)
        ensures
            len == self@.len(),
    {
        self.bytes.len()
    }
}

/// Unicode text of any length.
#[derive(Clone, Debug, PartialEq, Eq)]
pub struct VarLenUnicode {
    text: String,
}

impl View for VarLenUnicode {
    type V = Seq<char>;

    closed spec fn view(&self) -> Seq<char> {
        self.text@
    }
}

impl VarLenUnicode {
    /// This text.
    pub fn from_string(text: String) -> (varlen: Self)
        ensures
            varlen@ == text@,
    {
        VarLenUnicode { text }
    }

    /// The text.
    pub fn as_str(&self) -> (text: &str)
        ensures
            text@ == self@,
    {
        self.text.as_str()
    }
}

/// An array of any length.
#[derive(Clone, Debug, PartialEq, Eq)]
pub struct VarLenArray<T> {
    items: Vec<T>,
}

impl<T> View for VarLenArray<T> {
    type V = Seq<T>;

    closed spec fn view(&self) -> Seq<T> {
        self.items@
    }
}

impl<T> VarLenArray<T> {
    /// The array of these items.
    pub fn from_vec(items: Vec<T>) -> (array: Self)
        ensures
            array@ == items@,
    {
        VarLenArray { items }
    }

    /// The items of the array.
    pub fn as_slice(&self) -> (items: &[T])
        ensures
            items@ == self@,
    {
        self.items.as_slice()
    }

    /// The number of items.
    pub fn len(&self) -> (len: usize)
        ensures
            len == self@.len(),
    {
        self.items.len()
    }
}

} // verus!
