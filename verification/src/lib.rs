//! Explicit, checked integer cast traits.
//!
//! Three capabilities, layered over native numeric casting:
//!
//! - [`CastFrom`]: an explicit, infallible cast requested at the destination
//!   type. A pair of types gets an implementation only when the cast is
//!   lossless on every platform this crate builds for, so every such cast
//!   preserves the integer value exactly.
//! - [`CastInto`]: the same casts, requested at the source type. Implemented
//!   once, by delegation to [`CastFrom`], so the two entry points agree on
//!   every pair.
//! - [`ExpectFrom`]: a range-checked narrowing or sign-reinterpreting cast
//!   whose caller asserts that the value fits the destination. Out-of-range
//!   values are a broken invariant, not an expected condition, so they are
//!   excluded by precondition rather than reported through an error value.
//!
//! The registered [`CastFrom`] pairs form the table for a platform whose
//! pointer-sized integers are at least 64 bits wide. The verifier admits
//! both 32-bit and 64-bit pointer widths, so the pairs that need the full
//! 64 bits state their exactness under the hypothesis `usize::BITS == 64`,
//! while every pair already lossless at 32 bits is exact unconditionally.

use vstd::prelude::*;

verus! {

/// The mathematical value of a primitive integer type, together with the
/// bounds of its representable range.
///
/// This is the model every cast contract is stated over: a cast is lossless
/// exactly when it preserves `int_value`, and a narrowing cast is safe
/// exactly when the value lies between the destination's `min_value` and
/// `max_value`.
pub trait IntValue: Sized {
    /// The value this integer represents, as an unbounded integer.
    spec fn int_value(self) -> int;

    /// The smallest value the type represents.
    spec fn min_value() -> int;

    /// The largest value the type represents.
    spec fn max_value() -> int;

    /// Every value of the type lies within its representable range.
    proof fn lemma_in_bounds(a: Self)
        ensures
            Self::min_value() <= a.int_value() <= Self::max_value(),
    ;

    /// Two values of the type with the same mathematical value are equal,
    /// so a contract that fixes `int_value` fixes the result outright.
    proof fn lemma_injective(a: Self, b: Self)
        requires
            a.int_value() == b.int_value(),
        ensures
            a == b,
    ;
}

impl IntValue for u8 {
    open spec fn int_value(self) -> int {
        self as int
    }

    open spec fn min_value() -> int {
        u8::MIN as int
    }

    open spec fn max_value() -> int {
        u8::MAX as int
    }

    proof fn lemma_in_bounds(a: u8) {
    }

    proof fn lemma_injective(a: u8, b: u8) {
    }
}

impl IntValue for u16 {
    open spec fn int_value(self) -> int {
        self as int
    }

    open spec fn min_value() -> int {
        u16::MIN as int
    }

    open spec fn max_value() -> int {
        u16::MAX as int
    }

    proof fn lemma_in_bounds(a: u16) {
    }

    proof fn lemma_injective(a: u16, b: u16) {
    }
}

impl IntValue for u32 {
    open spec fn int_value(self) -> int {
        self as int
    }

    open spec fn min_value() -> int {
        u32::MIN as int
    }

    open spec fn max_value() -> int {
        u32::MAX as int
    }

    proof fn lemma_in_bounds(a: u32) {
    }

    proof fn lemma_injective(a: u32, b: u32) {
    }
}

impl IntValue for u64 {
    open spec fn int_value(self) -> int {
        self as int
    }

    open spec fn min_value() -> int {
        u64::MIN as int
    }

    open spec fn max_value() -> int {
        u64::MAX as int
    }

    proof fn lemma_in_bounds(a: u64) {
    }

    proof fn lemma_injective(a: u64, b: u64) {
    }
}

impl IntValue for usize {
    open spec fn int_value(self) -> int {
        self as int
    }

    open spec fn min_value() -> int {
        usize::MIN as int
    }

    open spec fn max_value() -> int {
        usize::MAX as int
    }

    proof fn lemma_in_bounds(a: usize) {
    }

    proof fn lemma_injective(a: usize, b: usize) {
    }
}

impl IntValue for i8 {
    open spec fn int_value(self) -> int {
        self as int
    }

    open spec fn min_value() -> int {
        i8::MIN as int
    }

    open spec fn max_value() -> int {
        i8::MAX as int
    }

    proof fn lemma_in_bounds(a: i8) {
    }

    proof fn lemma_injective(a: i8, b: i8) {
    }
}

impl IntValue for i16 {
    open spec fn int_value(self) -> int {
        self as int
    }

    open spec fn min_value() -> int {
        i16::MIN as int
    }

    open spec fn max_value() -> int {
        i16::MAX as int
    }

    proof fn lemma_in_bounds(a: i16) {
    }

    proof fn lemma_injective(a: i16, b: i16) {
    }
}

impl IntValue for i32 {
    open spec fn int_value(self) -> int {
        self as int
    }

    open spec fn min_value() -> int {
        i32::MIN as int
    }

    open spec fn max_value() -> int {
        i32::MAX as int
    }

    proof fn lemma_in_bounds(a: i32) {
    }

    proof fn lemma_injective(a: i32, b: i32) {
    }
}

impl IntValue for i64 {
    open spec fn int_value(self) -> int {
        self as int
    }

    open spec fn min_value() -> int {
        i64::MIN as int
    }

    open spec fn max_value() -> int {
        i64::MAX as int
    }

    proof fn lemma_in_bounds(a: i64) {
    }

    proof fn lemma_injective(a: i64, b: i64) {
    }
}

impl IntValue for isize {
    open spec fn int_value(self) -> int {
        self as int
    }

    open spec fn min_value() -> int {
        isize::MIN as int
    }

    open spec fn max_value() -> int {
        isize::MAX as int
    }

    proof fn lemma_in_bounds(a: isize) {
    }

    proof fn lemma_injective(a: isize, b: isize) {
    }
}

/// Like `From`, but for casts the standard conversions do not offer.
///
/// An implementation `impl CastFrom<S> for D` registers the conversion pair
/// `(S, D)`: the set of implementations below is the table of pairs that are
/// lossless given this crate's minimum pointer width, so the contract can
/// promise exact value preservation for every registered pair.
pub trait CastFrom<I: IntValue>: IntValue {
    /// Converts `other` to `Self`. Whenever the value is representable in
    /// `Self` the conversion preserves it exactly; every registered pair
    /// guarantees representability on the platforms it is registered for.
    fn cast_from(other: I) -> (r: Self)
        ensures
            Self::min_value() <= other.int_value() && other.int_value() <= Self::max_value()
                ==> r.int_value() == other.int_value(),
    ;
}

/// Like `Into`, but for [`CastFrom`].
///
/// Purely an ergonomic dual: the blanket implementation forwards to
/// [`CastFrom::cast_from`], and its contract promises the same exact value
/// preservation, so the two entry points are behaviorally identical for
/// every registered pair.
pub trait CastInto<I: IntValue>: IntValue {
    /// Converts `self` to `I` under exactly the contract of
    /// [`CastFrom::cast_from`]: representable values are preserved exactly.
    fn cast_into(self) -> (r: I)
        ensures
            I::min_value() <= self.int_value() && self.int_value() <= I::max_value()
                ==> r.int_value() == self.int_value(),
    ;
}

impl<F: IntValue, I: CastFrom<F>> CastInto<I> for F {
    fn cast_into(self) -> (r: I) {
        I::cast_from(self)
    }
}

// Pairs lossless from a 16-bit minimum pointer width on.

impl CastFrom<u8> for usize {
    fn cast_from(other: u8) -> (r: usize)
        ensures
            r.int_value() == other.int_value(),
    {
        other as usize
    }
}

impl CastFrom<u8> for isize {
    fn cast_from(other: u8) -> (r: isize)
        ensures
            r.int_value() == other.int_value(),
    {
        other as isize
    }
}

impl CastFrom<i8> for isize {
    fn cast_from(other: i8) -> (r: isize)
        ensures
            r.int_value() == other.int_value(),
    {
        other as isize
    }
}

impl CastFrom<u16> for usize {
    fn cast_from(other: u16) -> (r: usize)
        ensures
            r.int_value() == other.int_value(),
    {
        other as usize
    }
}

impl CastFrom<i16> for isize {
    fn cast_from(other: i16) -> (r: isize)
        ensures
            r.int_value() == other.int_value(),
    {
        other as isize
    }
}

// Pairs lossless from a 32-bit minimum pointer width on.

impl CastFrom<u16> for isize {
    fn cast_from(other: u16) -> (r: isize)
        ensures
            r.int_value() == other.int_value(),
    {
        other as isize
    }
}

impl CastFrom<u32> for usize {
    fn cast_from(other: u32) -> (r: usize)
        ensures
            r.int_value() == other.int_value(),
    {
        other as usize
    }
}

impl CastFrom<i32> for isize {
    fn cast_from(other: i32) -> (r: isize)
        ensures
            r.int_value() == other.int_value(),
    {
        other as isize
    }
}

// Pairs lossless from a 64-bit minimum pointer width on.

impl CastFrom<u64> for usize {
    fn cast_from(other: u64) -> (r: usize)
        ensures
            usize::BITS == 64 ==> r.int_value() == other.int_value(),
    {
        other as usize
    }
}

impl CastFrom<i64> for isize {
    fn cast_from(other: i64) -> (r: isize)
        ensures
            usize::BITS == 64 ==> r.int_value() == other.int_value(),
    {
        other as isize
    }
}

impl CastFrom<u32> for isize {
    fn cast_from(other: u32) -> (r: isize)
        ensures
            usize::BITS == 64 ==> r.int_value() == other.int_value(),
    {
        other as isize
    }
}

/// Like `TryFrom`, for callers who assert that the conversion cannot fail.
///
/// Implemented for the pairs whose native conversion is range-checked: a
/// narrowing or a sign reinterpretation. The caller vouches that the value
/// is representable in `Self` — an out-of-range value is a broken program
/// invariant, not an expected runtime condition — so the precondition
/// demands representability and the result is the value itself, exactly
/// what the range-checked conversion returns on its success path.
pub trait ExpectFrom<I: IntValue>: IntValue {
    /// Converts `other` to `Self` exactly, given that its value is
    /// representable in `Self`.
    fn expect_from(other: I) -> (r: Self)
        requires
            Self::min_value() <= other.int_value(),
            other.int_value() <= Self::max_value(),
        ensures
            r.int_value() == other.int_value(),
    ;
}

// Narrowing between unsigned types.

impl ExpectFrom<u16> for u8 {
    fn expect_from(other: u16) -> (r: u8)
        ensures
            r.int_value() == other.int_value(),
    {
        other as u8
    }
}

impl ExpectFrom<u32> for u8 {
    fn expect_from(other: u32) -> (r: u8)
        ensures
            r.int_value() == other.int_value(),
    {
        other as u8
    }
}

impl ExpectFrom<u32> for u16 {
    fn expect_from(other: u32) -> (r: u16)
        ensures
            r.int_value() == other.int_value(),
    {
        other as u16
    }
}

impl ExpectFrom<u64> for u8 {
    fn expect_from(other: u64) -> (r: u8)
        ensures
            r.int_value() == other.int_value(),
    {
        other as u8
    }
}

impl ExpectFrom<u64> for u16 {
    fn expect_from(other: u64) -> (r: u16)
        ensures
            r.int_value() == other.int_value(),
    {
        other as u16
    }
}

impl ExpectFrom<u64> for u32 {
    fn expect_from(other: u64) -> (r: u32)
        ensures
            r.int_value() == other.int_value(),
    {
        other as u32
    }
}

impl ExpectFrom<u64> for usize {
    fn expect_from(other: u64) -> (r: usize)
        ensures
            r.int_value() == other.int_value(),
    {
        other as usize
    }
}

impl ExpectFrom<usize> for u8 {
    fn expect_from(other: usize) -> (r: u8)
        ensures
            r.int_value() == other.int_value(),
    {
        other as u8
    }
}

impl ExpectFrom<usize> for u16 {
    fn expect_from(other: usize) -> (r: u16)
        ensures
            r.int_value() == other.int_value(),
    {
        other as u16
    }
}

impl ExpectFrom<usize> for u32 {
    fn expect_from(other: usize) -> (r: u32)
        ensures
            r.int_value() == other.int_value(),
    {
        other as u32
    }
}

// Unsigned sources into signed destinations.

impl ExpectFrom<u8> for i8 {
    fn expect_from(other: u8) -> (r: i8)
        ensures
            r.int_value() == other.int_value(),
    {
        other as i8
    }
}

impl ExpectFrom<u16> for i8 {
    fn expect_from(other: u16) -> (r: i8)
        ensures
            r.int_value() == other.int_value(),
    {
        other as i8
    }
}

impl ExpectFrom<u16> for i16 {
    fn expect_from(other: u16) -> (r: i16)
        ensures
            r.int_value() == other.int_value(),
    {
        other as i16
    }
}

impl ExpectFrom<u32> for i8 {
    fn expect_from(other: u32) -> (r: i8)
        ensures
            r.int_value() == other.int_value(),
    {
        other as i8
    }
}

impl ExpectFrom<u32> for i16 {
    fn expect_from(other: u32) -> (r: i16)
        ensures
            r.int_value() == other.int_value(),
    {
        other as i16
    }
}

impl ExpectFrom<u32> for i32 {
    fn expect_from(other: u32) -> (r: i32)
        ensures
            r.int_value() == other.int_value(),
    {
        other as i32
    }
}

impl ExpectFrom<u32> for isize {
    fn expect_from(other: u32) -> (r: isize)
        ensures
            r.int_value() == other.int_value(),
    {
        other as isize
    }
}

impl ExpectFrom<u64> for i8 {
    fn expect_from(other: u64) -> (r: i8)
        ensures
            r.int_value() == other.int_value(),
    {
        other as i8
    }
}

impl ExpectFrom<u64> for i16 {
    fn expect_from(other: u64) -> (r: i16)
        ensures
            r.int_value() == other.int_value(),
    {
        other as i16
    }
}

impl ExpectFrom<u64> for i32 {
    fn expect_from(other: u64) -> (r: i32)
        ensures
            r.int_value() == other.int_value(),
    {
        other as i32
    }
}

impl ExpectFrom<u64> for i64 {
    fn expect_from(other: u64) -> (r: i64)
        ensures
            r.int_value() == other.int_value(),
    {
        other as i64
    }
}

impl ExpectFrom<u64> for isize {
    fn expect_from(other: u64) -> (r: isize)
        ensures
            r.int_value() == other.int_value(),
    {
        other as isize
    }
}

impl ExpectFrom<usize> for i8 {
    fn expect_from(other: usize) -> (r: i8)
        ensures
            r.int_value() == other.int_value(),
    {
        other as i8
    }
}

impl ExpectFrom<usize> for i16 {
    fn expect_from(other: usize) -> (r: i16)
        ensures
            r.int_value() == other.int_value(),
    {
        other as i16
    }
}

impl ExpectFrom<usize> for i32 {
    fn expect_from(other: usize) -> (r: i32)
        ensures
            r.int_value() == other.int_value(),
    {
        other as i32
    }
}

impl ExpectFrom<usize> for i64 {
    fn expect_from(other: usize) -> (r: i64)
        ensures
            r.int_value() == other.int_value(),
    {
        other as i64
    }
}

impl ExpectFrom<usize> for isize {
    fn expect_from(other: usize) -> (r: isize)
        ensures
            r.int_value() == other.int_value(),
    {
        other as isize
    }
}

// Signed sources into unsigned destinations.

impl ExpectFrom<i8> for u8 {
    fn expect_from(other: i8) -> (r: u8)
        ensures
            r.int_value() == other.int_value(),
    {
        other as u8
    }
}

impl ExpectFrom<i8> for u16 {
    fn expect_from(other: i8) -> (r: u16)
        ensures
            r.int_value() == other.int_value(),
    {
        other as u16
    }
}

impl ExpectFrom<i8> for u32 {
    fn expect_from(other: i8) -> (r: u32)
        ensures
            r.int_value() == other.int_value(),
    {
        other as u32
    }
}

impl ExpectFrom<i8> for u64 {
    fn expect_from(other: i8) -> (r: u64)
        ensures
            r.int_value() == other.int_value(),
    {
        other as u64
    }
}

impl ExpectFrom<i8> for usize {
    fn expect_from(other: i8) -> (r: usize)
        ensures
            r.int_value() == other.int_value(),
    {
        other as usize
    }
}

impl ExpectFrom<i16> for u8 {
    fn expect_from(other: i16) -> (r: u8)
        ensures
            r.int_value() == other.int_value(),
    {
        other as u8
    }
}

impl ExpectFrom<i16> for u16 {
    fn expect_from(other: i16) -> (r: u16)
        ensures
            r.int_value() == other.int_value(),
    {
        other as u16
    }
}

impl ExpectFrom<i16> for u32 {
    fn expect_from(other: i16) -> (r: u32)
        ensures
            r.int_value() == other.int_value(),
    {
        other as u32
    }
}

impl ExpectFrom<i16> for u64 {
    fn expect_from(other: i16) -> (r: u64)
        ensures
            r.int_value() == other.int_value(),
    {
        other as u64
    }
}

impl ExpectFrom<i16> for usize {
    fn expect_from(other: i16) -> (r: usize)
        ensures
            r.int_value() == other.int_value(),
    {
        other as usize
    }
}

impl ExpectFrom<i32> for u8 {
    fn expect_from(other: i32) -> (r: u8)
        ensures
            r.int_value() == other.int_value(),
    {
        other as u8
    }
}

impl ExpectFrom<i32> for u16 {
    fn expect_from(other: i32) -> (r: u16)
        ensures
            r.int_value() == other.int_value(),
    {
        other as u16
    }
}

impl ExpectFrom<i32> for u32 {
    fn expect_from(other: i32) -> (r: u32)
        ensures
            r.int_value() == other.int_value(),
    {
        other as u32
    }
}

impl ExpectFrom<i32> for u64 {
    fn expect_from(other: i32) -> (r: u64)
        ensures
            r.int_value() == other.int_value(),
    {
        other as u64
    }
}

impl ExpectFrom<i32> for usize {
    fn expect_from(other: i32) -> (r: usize)
        ensures
            r.int_value() == other.int_value(),
    {
        other as usize
    }
}

impl ExpectFrom<i64> for u8 {
    fn expect_from(other: i64) -> (r: u8)
        ensures
            r.int_value() == other.int_value(),
    {
        other as u8
    }
}

impl ExpectFrom<i64> for u16 {
    fn expect_from(other: i64) -> (r: u16)
        ensures
            r.int_value() == other.int_value(),
    {
        other as u16
    }
}

impl ExpectFrom<i64> for u32 {
    fn expect_from(other: i64) -> (r: u32)
        ensures
            r.int_value() == other.int_value(),
    {
        other as u32
    }
}

impl ExpectFrom<i64> for u64 {
    fn expect_from(other: i64) -> (r: u64)
        ensures
            r.int_value() == other.int_value(),
    {
        other as u64
    }
}

impl ExpectFrom<i64> for usize {
    fn expect_from(other: i64) -> (r: usize)
        ensures
            r.int_value() == other.int_value(),
    {
        other as usize
    }
}

impl ExpectFrom<isize> for u8 {
    fn expect_from(other: isize) -> (r: u8)
        ensures
            r.int_value() == other.int_value(),
    {
        other as u8
    }
}

impl ExpectFrom<isize> for u16 {
    fn expect_from(other: isize) -> (r: u16)
        ensures
            r.int_value() == other.int_value(),
    {
        other as u16
    }
}

impl ExpectFrom<isize> for u32 {
    fn expect_from(other: isize) -> (r: u32)
        ensures
            r.int_value() == other.int_value(),
    {
        other as u32
    }
}

impl ExpectFrom<isize> for u64 {
    fn expect_from(other: isize) -> (r: u64)
        ensures
            r.int_value() == other.int_value(),
    {
        other as u64
    }
}

impl ExpectFrom<isize> for usize {
    fn expect_from(other: isize) -> (r: usize)
        ensures
            r.int_value() == other.int_value(),
    {
        other as usize
    }
}

// Narrowing between signed types.

impl ExpectFrom<i16> for i8 {
    fn expect_from(other: i16) -> (r: i8)
        ensures
            r.int_value() == other.int_value(),
    {
        other as i8
    }
}

impl ExpectFrom<i32> for i8 {
    fn expect_from(other: i32) -> (r: i8)
        ensures
            r.int_value() == other.int_value(),
    {
        other as i8
    }
}

impl ExpectFrom<i32> for i16 {
    fn expect_from(other: i32) -> (r: i16)
        ensures
            r.int_value() == other.int_value(),
    {
        other as i16
    }
}

impl ExpectFrom<i64> for i8 {
    fn expect_from(other: i64) -> (r: i8)
        ensures
            r.int_value() == other.int_value(),
    {
        other as i8
    }
}

impl ExpectFrom<i64> for i16 {
    fn expect_from(other: i64) -> (r: i16)
        ensures
            r.int_value() == other.int_value(),
    {
        other as i16
    }
}

impl ExpectFrom<i64> for i32 {
    fn expect_from(other: i64) -> (r: i32)
        ensures
            r.int_value() == other.int_value(),
    {
        other as i32
    }
}

impl ExpectFrom<i64> for isize {
    fn expect_from(other: i64) -> (r: isize)
        ensures
            r.int_value() == other.int_value(),
    {
        other as isize
    }
}

impl ExpectFrom<isize> for i8 {
    fn expect_from(other: isize) -> (r: i8)
        ensures
            r.int_value() == other.int_value(),
    {
        other as i8
    }
}

impl ExpectFrom<isize> for i16 {
    fn expect_from(other: isize) -> (r: i16)
        ensures
            r.int_value() == other.int_value(),
    {
        other as i16
    }
}

impl ExpectFrom<isize> for i32 {
    fn expect_from(other: isize) -> (r: i32)
        ensures
            r.int_value() == other.int_value(),
    {
        other as i32
    }
}

/// Round-trip exactness for lossless casts.
///
/// When a cast preserves the source's value — as [`CastFrom::cast_from`]
/// promises for every representable value — the result still lies within the
/// source type's own range, and converting it back through any conversion
/// that again preserves the value yields exactly the original: widening a
/// value and narrowing it again is the identity.
pub proof fn lemma_cast_round_trip<S: IntValue, D: IntValue>(v: S, widened: D, back: S)
    requires
        widened.int_value() == v.int_value(),
        back.int_value() == widened.int_value(),
    ensures
        S::min_value() <= widened.int_value() <= S::max_value(),
        back == v,
{
    S::lemma_in_bounds(v);
    S::lemma_injective(back, v);
}

/// The cast entry points are behaviorally identical.
///
/// A destination value is fixed outright by its mathematical value, so any
/// two conversions that preserve the source's value — in particular
/// [`CastFrom::cast_from`] and the delegating [`CastInto::cast_into`], or
/// [`ExpectFrom::expect_from`] and the underlying range-checked conversion —
/// return the very same result.
pub proof fn lemma_value_preserving_casts_agree<S: IntValue, D: IntValue>(
    v: S,
    first: D,
    second: D,
)
    requires
        first.int_value() == v.int_value(),
        second.int_value() == v.int_value(),
    ensures
        first == second,
{
    D::lemma_injective(first, second);
}


} // verus!
