//! Three-component vectors of the `glam` crate.
//!
//! The library never computes on a component itself. It carries `glam::Vec3`
//! values as they are, lets `glam` do the arithmetic, and speaks of a vector
//! in contracts by the bit patterns of its three components.
//!
//! `glam` computes each component with the IEEE-754 operations of the
//! processor. These fix the pattern of every result that is a number, and
//! they fix when a result is a NaN, but not which of the NaN patterns it
//! has. So what is said of the arithmetic is said of the numbers of a
//! vector: its patterns with every NaN pattern taken for one.

use vstd::prelude::*;

verus! {

/// The bit patterns of the `x`, `y` and `z` components of a vector.
pub type Words3 = (u32, u32, u32);

#[verifier::external_type_specification]
#[verifier::external_body]
pub struct ExVec3(glam::Vec3);

/// The components of a vector, each as the bit pattern of its IEEE-754 value.
pub uninterp spec fn vec3_words(v: glam::Vec3) -> (u32, u32, u32);

/// The numbers of `a - b`, from the numbers of `a` and `b`.
pub uninterp spec fn sub_words(a: (u32, u32, u32), b: (u32, u32, u32)) -> (u32, u32, u32);

/// The numbers of `a + b`, from the numbers of `a` and `b`.
pub uninterp spec fn add_words(a: (u32, u32, u32), b: (u32, u32, u32)) -> (u32, u32, u32);

/// The numbers of the right-handed cross product `a x b`, from the numbers
/// of `a` and `b`.
pub uninterp spec fn cross_words(a: (u32, u32, u32), b: (u32, u32, u32)) -> (u32, u32, u32);

/// The components of `v` scaled to length one, or of the zero vector where
/// `glam` finds no usable length, from the numbers of `v`.
pub uninterp spec fn normalize_words(v: (u32, u32, u32)) -> (u32, u32, u32);

/// The pattern that stands for every NaN: the quiet NaN without sign and
/// payload.
pub const CANONICAL_NAN: u32 = 0x7fc0_0000;

/// Is the pattern that of a NaN? All eight bits of the exponent are then
/// set, and some bit of the fraction.
pub open spec fn is_nan_word(w: u32) -> bool {
    w & 0x7f80_0000 == 0x7f80_0000 && w & 0x007f_ffff != 0
}

/// The pattern itself or, for any NaN, `CANONICAL_NAN`.
pub open spec fn canonical_word(w: u32) -> u32 {
    if is_nan_word(w) {
        CANONICAL_NAN
    } else {
        w
    }
}

/// The three patterns, each with any NaN taken for one.
pub open spec fn canonical(v: Words3) -> Words3 {
    (canonical_word(v.0), canonical_word(v.1), canonical_word(v.2))
}

/// The numbers of a vector: its components with any NaN taken for one.
pub open spec fn vec3_numbers(v: glam::Vec3) -> Words3 {
    canonical(vec3_words(v))
}

/// The components of the zero vector: three times the pattern of `+0.0`.
pub open spec fn zero_words() -> Words3 {
    (0u32, 0u32, 0u32)
}

/// Is the pattern that of a number, neither of an infinity nor of a NaN? The
/// eight bits of the exponent are then not all set.
pub open spec fn is_finite_word(w: u32) -> bool {
    w & 0x7f80_0000 != 0x7f80_0000
}

/// Are all three components numbers?
pub open spec fn is_finite(v: Words3) -> bool {
    is_finite_word(v.0) && is_finite_word(v.1) && is_finite_word(v.2)
}

/// The zero vector holds no NaN.
pub proof fn lemma_zero_is_canonical()
    ensures
        canonical(zero_words()) == zero_words(),
{
    assert(0u32 & 0x7f80_0000 != 0x7f80_0000) by (bit_vector);
}

/// A vector whose numbers are those of the zero vector is the zero vector.
pub proof fn lemma_only_zero_is_zero(v: Words3)
    requires
        canonical(v) == zero_words(),
    ensures
        v == zero_words(),
{
}

/// The components of every vector of a sequence.
pub open spec fn words_of(vs: Seq<glam::Vec3>) -> Seq<Words3> {
    vs.map_values(|v: glam::Vec3| vec3_words(v))
}

/// `glam::Vec3::ZERO`, whose three components are `+0.0`.
#[verifier::external_body]
pub(crate) fn zero() -> (r: glam::Vec3)
    ensures
        vec3_words(r) == zero_words(),
{
    glam::Vec3::ZERO
}

/// `Sub::sub` of `glam::Vec3`: the component-wise difference. Its numbers
/// depend on the numbers of the operands alone.
#[verifier::external_body]
pub(crate) fn minus(a: glam::Vec3, b: glam::Vec3) -> (r: glam::Vec3)
    ensures
        vec3_numbers(r) == sub_words(vec3_numbers(a), vec3_numbers(b)),
{
    a - b
}

/// `Add::add` of `glam::Vec3`: the component-wise sum. Its numbers depend on
/// the numbers of the operands alone.
#[verifier::external_body]
pub(crate) fn plus(a: glam::Vec3, b: glam::Vec3) -> (r: glam::Vec3)
    ensures
        vec3_numbers(r) == add_words(vec3_numbers(a), vec3_numbers(b)),
{
    a + b
}

/// `glam::Vec3::cross`: the cross product, each component a difference of
/// two products. Its numbers depend on the numbers of the operands alone.
#[verifier::external_body]
pub(crate) fn cross(a: glam::Vec3, b: glam::Vec3) -> (r: glam::Vec3)
    ensures
        vec3_numbers(r) == cross_words(vec3_numbers(a), vec3_numbers(b)),
{
    a.cross(b)
}

/// `glam::Vec3::normalize_or_zero`. It returns the vector scaled by the
/// reciprocal of its length where that is finite and positive, and
/// `glam::Vec3::ZERO` otherwise: so for the zero vector and for any vector
/// with a NaN component, and never a vector with an infinite or NaN
/// component. The result depends on the numbers of the vector alone.
#[verifier::external_body]
pub(crate) fn normalize_or_zero(v: glam::Vec3) -> (r: glam::Vec3)
    ensures
        vec3_words(r) == normalize_words(vec3_numbers(v)),
        vec3_words(v) == zero_words() ==> vec3_words(r) == zero_words(),
        is_finite(vec3_words(r)),
{
    v.normalize_or_zero()
}

/// Reads the three public fields of a `glam::Vec3` and takes each with
/// `to_bits`.
#[verifier::external_body]
pub(crate) fn words(v: glam::Vec3) -> (r: Words3)
    ensures
        r == vec3_words(v),
{
    (v.x.to_bits(), v.y.to_bits(), v.z.to_bits())
}

} // verus!
