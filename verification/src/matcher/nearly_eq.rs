//! The matcher that accepts what is nearly equal to a given value.

use crate::debug::MaybeDebug;
use crate::matcher::ArgumentMatcher;
use vstd::prelude::*;

verus! {

/// How far two numbers are apart.
pub open spec fn distance(left: int, right: int) -> int {
    if left > right {
        left - right
    } else {
        right - left
    }
}

/// Whether two numbers are equal, or apart by less than `accuracy`.
pub open spec fn within(left: int, right: int, accuracy: int) -> bool {
    left == right || distance(left, right) < accuracy
}

/// Values that can be compared up to an accuracy.
pub trait NearlyEq<Rhs, Diff> {
    /// The accuracy that is used where none is given. Nothing is known of it unless
    /// the type says what it is.
    open spec fn default_accuracy() -> Diff {
        arbitrary()
    }

    /// Whether the two values count as nearly equal under the accuracy. Nothing is
    /// known of it unless the type says what its comparison is.
    open spec fn nearly(&self, other: &Rhs, accuracy: &Diff) -> bool {
        arbitrary()
    }

    /// The accuracy that is used where none is given.
    fn eps() -> (accuracy: Diff)
        ensures
            accuracy == Self::default_accuracy(),
    ;

    /// Compares the two values up to the accuracy.
    fn is_nearly_eq(&self, other: &Rhs, accuracy: &Diff) -> (nearly: bool)
        ensures
            nearly == self.nearly(other, accuracy),
    ;
}

/// `nearly_eq::NearlyEq::eps` of `u8`: no difference is tolerated by default.
#[verifier::external_body]
fn eps_u8() -> (accuracy: u8)
    ensures
        accuracy == 0,
{
    <u8 as ::nearly_eq::NearlyEq>::eps()
}

/// `nearly_eq::NearlyEq::eq` of `u8`: the two are equal, or their difference is
/// below `accuracy`.
#[verifier::external_body]
fn nearly_eq_u8(left: &u8, right: &u8, accuracy: &u8) -> (nearly: bool)
    ensures
        nearly == within(*left as int, *right as int, *accuracy as int),
{
    ::nearly_eq::NearlyEq::eq(left, right, accuracy)
}

impl NearlyEq<u8, u8> for u8 {
    open spec fn default_accuracy() -> u8 {
        0
    }

    open spec fn nearly(&self, other: &u8, accuracy: &u8) -> bool {
        within(*self as int, *other as int, *accuracy as int)
    }

    fn eps() -> (accuracy: u8) {
        eps_u8()
    }

    fn is_nearly_eq(&self, other: &u8, accuracy: &u8) -> (nearly: bool) {
        nearly_eq_u8(self, other, accuracy)
    }
}

/// `nearly_eq::NearlyEq::eps` of `u16`: no difference is tolerated by default.
#[verifier::external_body]
fn eps_u16() -> (accuracy: u16)
    ensures
        accuracy == 0,
{
    <u16 as ::nearly_eq::NearlyEq>::eps()
}

/// `nearly_eq::NearlyEq::eq` of `u16`: the two are equal, or their difference is
/// below `accuracy`.
#[verifier::external_body]
fn nearly_eq_u16(left: &u16, right: &u16, accuracy: &u16) -> (nearly: bool)
    ensures
        nearly == within(*left as int, *right as int, *accuracy as int),
{
    ::nearly_eq::NearlyEq::eq(left, right, accuracy)
}

impl NearlyEq<u16, u16> for u16 {
    open spec fn default_accuracy() -> u16 {
        0
    }

    open spec fn nearly(&self, other: &u16, accuracy: &u16) -> bool {
        within(*self as int, *other as int, *accuracy as int)
    }

    fn eps() -> (accuracy: u16) {
        eps_u16()
    }

    fn is_nearly_eq(&self, other: &u16, accuracy: &u16) -> (nearly: bool) {
        nearly_eq_u16(self, other, accuracy)
    }
}

/// `nearly_eq::NearlyEq::eps` of `u32`: no difference is tolerated by default.
#[verifier::external_body]
fn eps_u32() -> (accuracy: u32)
    ensures
        accuracy == 0,
{
    <u32 as ::nearly_eq::NearlyEq>::eps()
}

/// `nearly_eq::NearlyEq::eq` of `u32`: the two are equal, or their difference is
/// below `accuracy`.
#[verifier::external_body]
fn nearly_eq_u32(left: &u32, right: &u32, accuracy: &u32) -> (nearly: bool)
    ensures
        nearly == within(*left as int, *right as int, *accuracy as int),
{
    ::nearly_eq::NearlyEq::eq(left, right, accuracy)
}

impl NearlyEq<u32, u32> for u32 {
    open spec fn default_accuracy() -> u32 {
        0
    }

    open spec fn nearly(&self, other: &u32, accuracy: &u32) -> bool {
        within(*self as int, *other as int, *accuracy as int)
    }

    fn eps() -> (accuracy: u32) {
        eps_u32()
    }

    fn is_nearly_eq(&self, other: &u32, accuracy: &u32) -> (nearly: bool) {
        nearly_eq_u32(self, other, accuracy)
    }
}

/// `nearly_eq::NearlyEq::eps` of `u64`: no difference is tolerated by default.
#[verifier::external_body]
fn eps_u64() -> (accuracy: u64)
    ensures
        accuracy == 0,
{
    <u64 as ::nearly_eq::NearlyEq>::eps()
}

/// `nearly_eq::NearlyEq::eq` of `u64`: the two are equal, or their difference is
/// below `accuracy`.
#[verifier::external_body]
fn nearly_eq_u64(left: &u64, right: &u64, accuracy: &u64) -> (nearly: bool)
    ensures
        nearly == within(*left as int, *right as int, *accuracy as int),
{
    ::nearly_eq::NearlyEq::eq(left, right, accuracy)
}

impl NearlyEq<u64, u64> for u64 {
    open spec fn default_accuracy() -> u64 {
        0
    }

    open spec fn nearly(&self, other: &u64, accuracy: &u64) -> bool {
        within(*self as int, *other as int, *accuracy as int)
    }

    fn eps() -> (accuracy: u64) {
        eps_u64()
    }

    fn is_nearly_eq(&self, other: &u64, accuracy: &u64) -> (nearly: bool) {
        nearly_eq_u64(self, other, accuracy)
    }
}

/// Accepts the arguments that are nearly equal to `value`, up to `accuracy`.
pub struct NearlyEqArgumentMatcher<T, U> {
    /// The value that an argument has to be near.
    pub value: T,
    /// How far from `value` an argument may be.
    pub accuracy: U,
}

/// Creates a matcher for what is nearly equal to `value`, up to the default
/// accuracy of its type.
pub fn nearly_eq<T, U>(value: T) -> (matcher: NearlyEqArgumentMatcher<T, U>) where
    T: NearlyEq<T, U> + MaybeDebug,
    U: MaybeDebug,

    ensures
        matcher == (NearlyEqArgumentMatcher { value, accuracy: T::default_accuracy() }),
{
    NearlyEqArgumentMatcher { value, accuracy: T::eps() }
}

/// Creates a matcher for what is nearly equal to `value`, up to `accuracy`.
pub fn nearly_eq_with_accuracy<T, U>(value: T, accuracy: U) -> (matcher: NearlyEqArgumentMatcher<
    T,
    U,
>) where T: NearlyEq<T, U> + MaybeDebug, U: MaybeDebug
    ensures
        matcher == (NearlyEqArgumentMatcher { value, accuracy }),
{
    NearlyEqArgumentMatcher { value, accuracy }
}

impl<T, U> MaybeDebug for NearlyEqArgumentMatcher<T, U> where
    T: NearlyEq<T, U> + MaybeDebug,
    U: MaybeDebug,
 {
    open spec fn debug_text(&self) -> Seq<char> {
        self.value.debug_text() + ", accuracy = "@ + self.accuracy.debug_text()
    }

    fn fmt(&self) -> (text: String) {
        self.value.fmt().concat(", accuracy = ").concat(self.accuracy.fmt().as_str())
    }
}

impl<T, U> ArgumentMatcher<T> for NearlyEqArgumentMatcher<T, U> where
    T: NearlyEq<T, U> + MaybeDebug,
    U: MaybeDebug,
 {
    open spec fn matches(&self, input: &T) -> bool {
        self.value.nearly(input, &self.accuracy)
    }

    fn matches_argument(&self, input: &T) -> (matches: bool) {
        self.value.is_nearly_eq(input, &self.accuracy)
    }
}

/// A value is nearly equal to itself under every accuracy, and with no accuracy
/// to spare only to itself.
pub proof fn lemma_nearly_eq_u64(value: u64, other: u64, accuracy: u64)
    ensures
        value.nearly(&value, &accuracy),
        value.nearly(&other, &0) <==> value == other,
        value.nearly(&other, &accuracy) <==> other.nearly(&value, &accuracy),
{
}

} // verus!
