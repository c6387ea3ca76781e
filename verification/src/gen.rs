//! Random values of the types that are written to the runtime and read
//! back, each made by its own rule and well-formed by construction.
//!
//! A generated value depends on the state of the random source, so a
//! contract here does not say which value comes out. It says which values
//! can: `generable` bounds every outcome of `gen`.

use rand::rngs::StdRng;
use vstd::prelude::*;
use crate::random::{
    draw_alphanumeric, draw_below, draw_between, draw_bool, draw_byte_between, draw_char,
    draw_i8, draw_u64, is_alphanumeric, pick,
};
use crate::space::Ix;
use crate::types::{
    append_scalar, is_seven_bit, lemma_utf8_len_covers_chars, lemma_utf8_len_push, offer_all,
    utf8_len, FixedAscii, FixedUnicode, Step, VarLenArray, VarLenAscii, VarLenUnicode,
};

verus! {

/// The greatest length of a generated text or array of variable length.
pub const VARLEN_MAX: usize = 8;

/// The greatest 7-bit value.
pub const ASCII_MAX: u8 = 127;

/// One more than the greatest extent of a generated shape.
pub const EXTENT_END: usize = 11;

/// A type of which random values can be made.
pub trait Gen: Sized {
    /// The values that `gen` can return. Where a type says nothing more,
    /// every value of it can come out.
    open spec fn generable(&self) -> bool {
        true
    }

    /// A random value of the type.
    fn gen(rng: &mut StdRng) -> (value: Self)
        ensures
            value.generable(),
    ;
}

impl Gen for bool {
    fn gen(rng: &mut StdRng) -> (value: Self) {
        draw_bool(rng)
    }
}

impl Gen for i8 {
    fn gen(rng: &mut StdRng) -> (value: Self) {
        draw_i8(rng)
    }
}

impl Gen for u64 {
    fn gen(rng: &mut StdRng) -> (value: Self) {
        draw_u64(rng)
    }
}

/// A shape of `ndim` axes, each of an extent below `EXTENT_END`.
pub fn gen_shape(rng: &mut StdRng, ndim: usize) -> (shape: Vec<Ix>)
    ensures
        shape@.len() == ndim,
        forall|i: int| 0 <= i < ndim ==> #[trigger] shape@[i] < EXTENT_END,
{
    let mut shape: Vec<Ix> = Vec::new();
    let mut i: usize = 0;
    while i < ndim
        invariant
            i <= ndim,
            shape@.len() == i,
            forall|k: int| 0 <= k < i ==> #[trigger] shape@[k] < EXTENT_END,
        decreases ndim - i,
    {
        let extent = draw_below(rng, 0, EXTENT_END);
        shape.push(extent);
        i += 1;
    }
    shape
}

/// Text of `len` letters and digits.
pub fn gen_ascii(rng: &mut StdRng, len: usize) -> (text: String)
    ensures
        text@.len() == len,
        forall|i: int| 0 <= i < len ==> is_alphanumeric(#[trigger] text@[i]),
{
    let mut text = String::new();
    let mut i: usize = 0;
    while i < len
        invariant
            i <= len,
            text@.len() == i,
            forall|k: int| 0 <= k < i ==> is_alphanumeric(#[trigger] text@[k]),
        decreases len - i,
    {
        let c = draw_alphanumeric(rng);
        text.push(c);
        i += 1;
    }
    text
}

/// `size` values, each generated on its own.
pub fn gen_vec<T: Gen>(rng: &mut StdRng, size: usize) -> (items: Vec<T>)
    ensures
        items@.len() == size,
        forall|i: int| 0 <= i < size ==> #[trigger] items@[i].generable(),
{
    let mut items: Vec<T> = Vec::new();
    let mut i: usize = 0;
    while i < size
        invariant
            i <= size,
            items@.len() == i,
            forall|k: int| 0 <= k < i ==> #[trigger] items@[k].generable(),
        decreases size - i,
    {
        let item = T::gen(rng);
        items.push(item);
        i += 1;
    }
    items
}

/// 7-bit bytes, as many as a length drawn between zero and `limit`.
pub fn gen_ascii_bytes(rng: &mut StdRng, limit: usize) -> (bytes: Vec<u8>)
    ensures
        bytes@.len() <= limit,
        is_seven_bit(bytes@),
{
    let len = draw_between(rng, 0, limit);
    let mut bytes: Vec<u8> = Vec::new();
    let mut i: usize = 0;
    while i < len
        invariant
            i <= len,
            bytes@.len() == i,
            is_seven_bit(bytes@),
        decreases len - i,
    {
        let byte = draw_byte_between(rng, 0, ASCII_MAX);
        bytes.push(byte);
        i += 1;
    }
    bytes
}

/// Text within a budget of `budget` bytes and without the null character.
/// A number of characters is drawn between zero and the budget; up to that
/// many are drawn and offered to the empty text one at a time: a null
/// character is skipped, one that fits is appended, and the first that does
/// not fit ends the text. Which characters are offered is up to the random
/// source; the text is what offering them comes to.
pub fn gen_unicode_text(rng: &mut StdRng, budget: usize) -> (text: String)
    ensures
        exists|scalars: Seq<char>|
            scalars.len() <= budget && text@ == (#[trigger] offer_all(scalars, budget)).0,
        utf8_len(text@) <= budget,
        text@.len() <= budget,
        !text@.contains('\0'),
{
    let attempts = draw_between(rng, 0, budget);
    let mut text = String::new();
    let mut i: usize = 0;
    let ghost mut offered: Seq<char> = Seq::empty();
    let ghost mut finished: bool = false;
    proof {
        assert(utf8_len(text@) == 0);
    }
    while i < attempts
        invariant_except_break
            !finished,
            offered.len() == i,
        invariant
            i <= attempts,
            attempts <= budget,
            offered.len() <= attempts,
            offer_all(offered, budget) == (text@, finished),
            utf8_len(text@) <= budget,
            !text@.contains('\0'),
        decreases attempts - i,
    {
        let c = draw_char(rng);
        let ghost before = text@;
        let step = append_scalar(&mut text, c, budget);
        proof {
            assert(offered.push(c).drop_last() =~= offered);
            offered = offered.push(c);
            finished = step is Full;
            if step is Appended {
                lemma_utf8_len_push(before, c);
                assert forall|k: int| 0 <= k < text@.len() implies text@[k] != '\0' by {
                    if k < before.len() {
                        assert(before.contains(before[k]));
                    }
                }
            }
        }
        match step {
            Step::Full => {
                break ;
            },
            _ => {},
        }
        i += 1;
    }
    proof {
        assert(text@ == offer_all(offered, budget).0);
        lemma_utf8_len_covers_chars(text@);
    }
    text
}

impl<const N: usize> Gen for FixedAscii<N> {
    /// No more bytes than the capacity, each a 7-bit value.
    open spec fn generable(&self) -> bool {
        self@.len() <= N && is_seven_bit(self@)
    }

    fn gen(rng: &mut StdRng) -> (value: Self) {
        let bytes = gen_ascii_bytes(rng, N);
        FixedAscii::from_ascii_unchecked(bytes)
    }
}

impl<const N: usize> Gen for FixedUnicode<N> {
    /// No more bytes than the capacity, and no null character.
    open spec fn generable(&self) -> bool {
        utf8_len(self@) <= N && !self@.contains('\0')
    }

    fn gen(rng: &mut StdRng) -> (value: Self) {
        let text = gen_unicode_text(rng, N);
        FixedUnicode::from_string_unchecked(text)
    }
}

impl Gen for VarLenAscii {
    /// No more than `VARLEN_MAX` bytes, each a 7-bit value.
    open spec fn generable(&self) -> bool {
        self@.len() <= VARLEN_MAX && is_seven_bit(self@)
    }

    fn gen(rng: &mut StdRng) -> (value: Self) {
        let bytes = gen_ascii_bytes(rng, VARLEN_MAX);
        VarLenAscii::from_ascii_unchecked(bytes)
    }
}

impl Gen for VarLenUnicode {
    /// No more than `VARLEN_MAX` bytes, hence characters, and no null
    /// character.
    open spec fn generable(&self) -> bool {
        utf8_len(self@) <= VARLEN_MAX && self@.len() <= VARLEN_MAX && !self@.contains('\0')
    }

    fn gen(rng: &mut StdRng) -> (value: Self) {
        let text = gen_unicode_text(rng, VARLEN_MAX);
        VarLenUnicode::from_string(text)
    }
}

impl<T: Gen + Copy> Gen for VarLenArray<T> {
    /// No more than `VARLEN_MAX` items, each one generable.
    open spec fn generable(&self) -> bool {
        self@.len() <= VARLEN_MAX && forall|i: int|
            0 <= i < self@.len() ==> #[trigger] self@[i].generable()
    }

    fn gen(rng: &mut StdRng) -> (value: Self) {
        let len = draw_between(rng, 0, VARLEN_MAX);
        let items: Vec<T> = gen_vec(rng, len);
        VarLenArray::from_vec(items)
    }
}

/// An enumeration of two values with the native discriminants -2 and 3.
#[derive(Clone, Copy, Debug, PartialEq, Eq, Structural)]
pub enum Enum {
    X,
    Y,
}

/// The native discriminant of `Enum::X`.
pub const DISCRIMINANT_X: i16 = -2;

/// The native discriminant of `Enum::Y`.
pub const DISCRIMINANT_Y: i16 = 3;

/// The discriminants that `Enum` declares.
pub open spec fn declared_discriminants() -> Seq<i16> {
    seq![DISCRIMINANT_X, DISCRIMINANT_Y]
}

impl Enum {
    /// The native discriminant of the value.
    pub open spec fn spec_discriminant(self) -> i16 {
        match self {
            Enum::X => DISCRIMINANT_X,
            Enum::Y => DISCRIMINANT_Y,
        }
    }

    /// The native discriminant of the value.
    pub fn discriminant(self) -> (d: i16)
        ensures
            d == self.spec_discriminant(),
    {
        match self {
            Enum::X => DISCRIMINANT_X,
            Enum::Y => DISCRIMINANT_Y,
        }
    }

    /// The value with the given native discriminant, if one is declared
    /// with it.
    pub fn from_discriminant(d: i16) -> (value: Option<Enum>)
        ensures
            match value {
                Some(value) => value.spec_discriminant() == d,
                None => !declared_discriminants().contains(d),
            },
    {
        if d == DISCRIMINANT_X {
            Some(Enum::X)
        } else if d == DISCRIMINANT_Y {
            Some(Enum::Y)
        } else {
            None
        }
    }
}

impl Gen for Enum {
    /// One of the declared discriminants.
    open spec fn generable(&self) -> bool {
        declared_discriminants().contains(self.spec_discriminant())
    }

    fn gen(rng: &mut StdRng) -> (value: Self) {
        let options = [Enum::X, Enum::Y];
        let picked = pick(rng, options.as_slice());
        proof {
            assert(declared_discriminants()[0] == DISCRIMINANT_X);
            assert(declared_discriminants()[1] == DISCRIMINANT_Y);
        }
        picked.unwrap()
    }
}

/// A flag and an enumeration, side by side.
#[derive(Clone, Copy, Debug, PartialEq, Eq)]
pub struct TupleStruct(pub bool, pub Enum);

impl Gen for TupleStruct {
    open spec fn generable(&self) -> bool {
        self.0.generable() && self.1.generable()
    }

    fn gen(rng: &mut StdRng) -> (value: Self) {
        let flag = <bool as Gen>::gen(rng);
        let choice = Enum::gen(rng);
        TupleStruct(flag, choice)
    }
}

/// A structure whose fields all have a variable length.
#[derive(Clone, Debug, PartialEq, Eq)]
pub struct VarLenStruct {
    pub va: VarLenAscii,
    pub vu: VarLenUnicode,
    pub vla: VarLenArray<Enum>,
}

impl Gen for VarLenStruct {
    open spec fn generable(&self) -> bool {
        self.va.generable() && self.vu.generable() && self.vla.generable()
    }

    fn gen(rng: &mut StdRng) -> (value: Self) {
        let va = VarLenAscii::gen(rng);
        let vu = VarLenUnicode::gen(rng);
        let vla = VarLenArray::<Enum>::gen(rng);
        VarLenStruct { va, vu, vla }
    }
}

} // verus!
