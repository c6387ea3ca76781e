//! The random source, and the few draws that generation is built from.
//!
//! Nothing here is proved: each function makes one call into the `rand`
//! crate, and its contract says what that crate documents of the call. A
//! draw depends on the state of the generator, so no contract says which
//! value comes back, only what holds of every value that can.

use rand::distributions::{Alphanumeric, Uniform};
use rand::rngs::StdRng;
use rand::seq::SliceRandom;
use rand::Rng;
use vstd::prelude::*;

verus! {

/// `rand::rngs::StdRng`, the generator that all draws are made from. Its
/// state is not visible to proofs.
#[verifier::external_type_specification]
#[verifier::external_body]
pub struct ExStdRng(StdRng);

/// `Rng::gen` at `char`: any character. Nothing is claimed of the value
/// beyond its type.
#[verifier::external_body]
pub(crate) fn draw_char(rng: &mut StdRng) -> char {
    rng.gen()
}

/// `Rng::gen` at `bool`. Nothing is claimed of the value.
#[verifier::external_body]
pub(crate) fn draw_bool(rng: &mut StdRng) -> bool {
    rng.gen()
}

/// `Rng::gen` at `i8`. Nothing is claimed of the value.
#[verifier::external_body]
pub(crate) fn draw_i8(rng: &mut StdRng) -> i8 {
    rng.gen()
}

/// `Rng::gen` at `u64`. Nothing is claimed of the value.
#[verifier::external_body]
pub(crate) fn draw_u64(rng: &mut StdRng) -> u64 {
    rng.gen()
}

/// `Rng::sample` on `Uniform::new_inclusive(low, high)` over `usize`: the
/// constructor panics where `low > high`, and the sample lies in the closed
/// range.
#[verifier::external_body]
pub(crate) fn draw_between(rng: &mut StdRng, low: usize, high: usize) -> (n: usize)
    requires
        low <= high,
    ensures
        low <= n <= high,
{
    rng.sample(Uniform::new_inclusive(low, high))
}

/// `Rng::sample` on `Uniform::new_inclusive(low, high)` over `u8`: the
/// constructor panics where `low > high`, and the sample lies in the closed
/// range.
#[verifier::external_body]
pub(crate) fn draw_byte_between(rng: &mut StdRng, low: u8, high: u8) -> (b: u8)
    requires
        low <= high,
    ensures
        low <= b <= high,
{
    rng.sample(Uniform::new_inclusive(low, high))
}

/// `Rng::gen_range(low, high)` over `usize`: it panics where `low >= high`,
/// and the value lies in the half-open range.
#[verifier::external_body]
pub(crate) fn draw_below(rng: &mut StdRng, low: usize, high: usize) -> (n: usize)
    requires
        low < high,
    ensures
        low <= n < high,
{
    rng.gen_range(low, high)
}

/// Whether `c` is one of the letters a to z and A to Z and the digits 0 to 9.
pub open spec fn is_alphanumeric(c: char) -> bool {
    ||| 'a' <= c <= 'z'
    ||| 'A' <= c <= 'Z'
    ||| '0' <= c <= '9'
}

/// `Rng::sample` on `Alphanumeric`: one of the letters a to z and A to Z and
/// the digits 0 to 9.
#[verifier::external_body]
pub(crate) fn draw_alphanumeric(rng: &mut StdRng) -> (c: char)
    ensures
        is_alphanumeric(c),
{
    rng.sample(Alphanumeric)
}

/// `SliceRandom::choose` on a slice: `None` for the empty slice, otherwise
/// one of its elements.
#[verifier::external_body]
pub(crate) fn pick<T: Copy>(rng: &mut StdRng, options: &[T]) -> (picked: Option<T>)
    ensures
        options@.len() == 0 ==> picked is None,
        options@.len() > 0 ==> picked is Some && options@.contains(picked->0),
{
    options.choose(rng).copied()
}

} // verus!
