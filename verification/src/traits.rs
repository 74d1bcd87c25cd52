//! Capability traits for scalar types.
//!
//! A scalar type takes part in vector and matrix arithmetic when it
//! implements [`IsNumerical`]: it has an additive identity, addition,
//! compound addition, multiplication, and is freely copyable. [`IsField`]
//! additionally asks for compound multiplication, which enables in-place
//! scaling. [`ConvertTo`] is the explicit, injective conversion contract
//! used by the mixed-type operations.
//!
//! Arithmetic is modelled exactly as the executable operations behave:
//! every operation wraps around on overflow, so each operation is total
//! and the algebraic laws stated on the traits hold for all values.

use vstd::prelude::*;

verus! {

/// A type with an additive identity.
pub trait Zero: Sized {
    /// The additive identity, as a specification-level value.
    spec fn zero_spec() -> Self;

    /// Produces the additive identity.
    fn zero() -> (r: Self)
        ensures
            r == Self::zero_spec(),
    ;
}

/// The minimal capability set for vector and matrix arithmetic: an
/// additive identity, addition, compound addition, multiplication, and
/// free copying. The laws stated here as proof obligations are what the
/// generic operations and their lemmas rely on.
pub trait IsNumerical: Zero + Copy {
    /// Addition, as a specification-level function.
    spec fn add_spec(self, rhs: Self) -> Self;

    /// Multiplication, as a specification-level function.
    spec fn mul_spec(self, rhs: Self) -> Self;

    /// Addition.
    fn add(self, rhs: Self) -> (r: Self)
        ensures
            r == self.add_spec(rhs),
    ;

    /// Compound addition: `self` becomes `self + rhs`.
    fn add_assign(&mut self, rhs: Self)
        ensures
            *final(self) == old(self).add_spec(rhs),
    ;

    /// Multiplication.
    fn mul(self, rhs: Self) -> (r: Self)
        ensures
            r == self.mul_spec(rhs),
    ;

    /// Multiplication is commutative.
    proof fn mul_commutes(a: Self, b: Self)
        ensures
            a.mul_spec(b) == b.mul_spec(a),
    ;

    /// The additive identity is neutral for addition.
    proof fn zero_adds(a: Self)
        ensures
            a.add_spec(Self::zero_spec()) == a,
            Self::zero_spec().add_spec(a) == a,
    ;

    /// The additive identity annihilates under multiplication.
    proof fn zero_muls(a: Self)
        ensures
            a.mul_spec(Self::zero_spec()) == Self::zero_spec(),
            Self::zero_spec().mul_spec(a) == Self::zero_spec(),
    ;
}

/// The stricter, field-like capability set: everything in [`IsNumerical`]
/// plus compound multiplication, which enables in-place scaling.
pub trait IsField: IsNumerical {
    /// Compound multiplication: `self` becomes `self * rhs`.
    fn mul_assign(&mut self, rhs: Self)
        ensures
            *final(self) == old(self).mul_spec(rhs),
    ;
}

/// A lossless conversion from one scalar type into another, used by the
/// mixed-type operations. Losslessness is captured by the injectivity
/// obligation: distinct values never convert to the same image.
pub trait ConvertTo<U>: Sized + Copy {
    /// The conversion, as a specification-level function.
    spec fn to_spec(self) -> U;

    /// Converts `self` into the target type.
    fn convert(self) -> (r: U)
        ensures
            r == self.to_spec(),
    ;

    /// The conversion is injective.
    proof fn injective(a: Self, b: Self)
        requires
            a.to_spec() == b.to_spec(),
        ensures
            a == b,
    ;
}

/// Every copyable type converts to itself, unchanged.
impl<T: Copy> ConvertTo<T> for T {
    open spec fn to_spec(self) -> T {
        self
    }

    fn convert(self) -> (r: T) {
        self
    }

    proof fn injective(a: Self, b: Self) {
    }
}

impl Zero for u8 {
    open spec fn zero_spec() -> Self {
        0u8
    }

    fn zero() -> (r: Self) {
        0
    }
}

impl IsNumerical for u8 {
    open spec fn add_spec(self, rhs: Self) -> Self {
        vstd::wrapping::u8_specs::wrapping_add(self, rhs)
    }

    open spec fn mul_spec(self, rhs: Self) -> Self {
        vstd::wrapping::u8_specs::wrapping_mul(self, rhs)
    }

    fn add(self, rhs: Self) -> (r: Self) {
        self.wrapping_add(rhs)
    }

    fn add_assign(&mut self, rhs: Self) {
        *self = (*self).wrapping_add(rhs);
    }

    fn mul(self, rhs: Self) -> (r: Self) {
        self.wrapping_mul(rhs)
    }

    proof fn mul_commutes(a: Self, b: Self) {
        assert(a as nat * b as nat == b as nat * a as nat) by (nonlinear_arith);
    }

    proof fn zero_adds(a: Self) {
    }

    proof fn zero_muls(a: Self) {
    }
}

impl IsField for u8 {
    fn mul_assign(&mut self, rhs: Self) {
        *self = (*self).wrapping_mul(rhs);
    }
}

impl Zero for u16 {
    open spec fn zero_spec() -> Self {
        0u16
    }

    fn zero() -> (r: Self) {
        0
    }
}

impl IsNumerical for u16 {
    open spec fn add_spec(self, rhs: Self) -> Self {
        vstd::wrapping::u16_specs::wrapping_add(self, rhs)
    }

    open spec fn mul_spec(self, rhs: Self) -> Self {
        vstd::wrapping::u16_specs::wrapping_mul(self, rhs)
    }

    fn add(self, rhs: Self) -> (r: Self) {
        self.wrapping_add(rhs)
    }

    fn add_assign(&mut self, rhs: Self) {
        *self = (*self).wrapping_add(rhs);
    }

    fn mul(self, rhs: Self) -> (r: Self) {
        self.wrapping_mul(rhs)
    }

    proof fn mul_commutes(a: Self, b: Self) {
        assert(a as nat * b as nat == b as nat * a as nat) by (nonlinear_arith);
    }

    proof fn zero_adds(a: Self) {
    }

    proof fn zero_muls(a: Self) {
    }
}

impl IsField for u16 {
    fn mul_assign(&mut self, rhs: Self) {
        *self = (*self).wrapping_mul(rhs);
    }
}

impl Zero for u32 {
    open spec fn zero_spec() -> Self {
        0u32
    }

    fn zero() -> (r: Self) {
        0
    }
}

impl IsNumerical for u32 {
    open spec fn add_spec(self, rhs: Self) -> Self {
        vstd::wrapping::u32_specs::wrapping_add(self, rhs)
    }

    open spec fn mul_spec(self, rhs: Self) -> Self {
        vstd::wrapping::u32_specs::wrapping_mul(self, rhs)
    }

    fn add(self, rhs: Self) -> (r: Self) {
        self.wrapping_add(rhs)
    }

    fn add_assign(&mut self, rhs: Self) {
        *self = (*self).wrapping_add(rhs);
    }

    fn mul(self, rhs: Self) -> (r: Self) {
        self.wrapping_mul(rhs)
    }

    proof fn mul_commutes(a: Self, b: Self) {
        assert(a as nat * b as nat == b as nat * a as nat) by (nonlinear_arith);
    }

    proof fn zero_adds(a: Self) {
    }

    proof fn zero_muls(a: Self) {
    }
}

impl IsField for u32 {
    fn mul_assign(&mut self, rhs: Self) {
        *self = (*self).wrapping_mul(rhs);
    }
}

impl Zero for u64 {
    open spec fn zero_spec() -> Self {
        0u64
    }

    fn zero() -> (r: Self) {
        0
    }
}

impl IsNumerical for u64 {
    open spec fn add_spec(self, rhs: Self) -> Self {
        vstd::wrapping::u64_specs::wrapping_add(self, rhs)
    }

    open spec fn mul_spec(self, rhs: Self) -> Self {
        vstd::wrapping::u64_specs::wrapping_mul(self, rhs)
    }

    fn add(self, rhs: Self) -> (r: Self) {
        self.wrapping_add(rhs)
    }

    fn add_assign(&mut self, rhs: Self) {
        *self = (*self).wrapping_add(rhs);
    }

    fn mul(self, rhs: Self) -> (r: Self) {
        self.wrapping_mul(rhs)
    }

    proof fn mul_commutes(a: Self, b: Self) {
        assert(a as nat * b as nat == b as nat * a as nat) by (nonlinear_arith);
    }

    proof fn zero_adds(a: Self) {
    }

    proof fn zero_muls(a: Self) {
    }
}

impl IsField for u64 {
    fn mul_assign(&mut self, rhs: Self) {
        *self = (*self).wrapping_mul(rhs);
    }
}

impl Zero for usize {
    open spec fn zero_spec() -> Self {
        0usize
    }

    fn zero() -> (r: Self) {
        0
    }
}

impl IsNumerical for usize {
    open spec fn add_spec(self, rhs: Self) -> Self {
        vstd::wrapping::usize_specs::wrapping_add(self, rhs)
    }

    open spec fn mul_spec(self, rhs: Self) -> Self {
        vstd::wrapping::usize_specs::wrapping_mul(self, rhs)
    }

    fn add(self, rhs: Self) -> (r: Self) {
        self.wrapping_add(rhs)
    }

    fn add_assign(&mut self, rhs: Self) {
        *self = (*self).wrapping_add(rhs);
    }

    fn mul(self, rhs: Self) -> (r: Self) {
        self.wrapping_mul(rhs)
    }

    proof fn mul_commutes(a: Self, b: Self) {
        assert(a as nat * b as nat == b as nat * a as nat) by (nonlinear_arith);
    }

    proof fn zero_adds(a: Self) {
    }

    proof fn zero_muls(a: Self) {
        let range = (usize::MAX - usize::MIN + 1) as nat;
        assert(a as nat * 0 == 0 && 0 * a as nat == 0) by (nonlinear_arith);
        vstd::arithmetic::div_mod::lemma_small_mod(0nat, range);
    }
}

impl IsField for usize {
    fn mul_assign(&mut self, rhs: Self) {
        *self = (*self).wrapping_mul(rhs);
    }
}

impl Zero for i8 {
    open spec fn zero_spec() -> Self {
        0i8
    }

    fn zero() -> (r: Self) {
        0
    }
}

impl IsNumerical for i8 {
    open spec fn add_spec(self, rhs: Self) -> Self {
        vstd::wrapping::i8_specs::wrapping_add(self, rhs)
    }

    open spec fn mul_spec(self, rhs: Self) -> Self {
        vstd::wrapping::i8_specs::wrapping_mul(self, rhs)
    }

    fn add(self, rhs: Self) -> (r: Self) {
        self.wrapping_add(rhs)
    }

    fn add_assign(&mut self, rhs: Self) {
        *self = (*self).wrapping_add(rhs);
    }

    fn mul(self, rhs: Self) -> (r: Self) {
        self.wrapping_mul(rhs)
    }

    proof fn mul_commutes(a: Self, b: Self) {
        assert(a as int * b as int == b as int * a as int) by (nonlinear_arith);
    }

    proof fn zero_adds(a: Self) {
    }

    proof fn zero_muls(a: Self) {
    }
}

impl IsField for i8 {
    fn mul_assign(&mut self, rhs: Self) {
        *self = (*self).wrapping_mul(rhs);
    }
}

impl Zero for i16 {
    open spec fn zero_spec() -> Self {
        0i16
    }

    fn zero() -> (r: Self) {
        0
    }
}

impl IsNumerical for i16 {
    open spec fn add_spec(self, rhs: Self) -> Self {
        vstd::wrapping::i16_specs::wrapping_add(self, rhs)
    }

    open spec fn mul_spec(self, rhs: Self) -> Self {
        vstd::wrapping::i16_specs::wrapping_mul(self, rhs)
    }

    fn add(self, rhs: Self) -> (r: Self) {
        self.wrapping_add(rhs)
    }

    fn add_assign(&mut self, rhs: Self) {
        *self = (*self).wrapping_add(rhs);
    }

    fn mul(self, rhs: Self) -> (r: Self) {
        self.wrapping_mul(rhs)
    }

    proof fn mul_commutes(a: Self, b: Self) {
        assert(a as int * b as int == b as int * a as int) by (nonlinear_arith);
    }

    proof fn zero_adds(a: Self) {
    }

    proof fn zero_muls(a: Self) {
    }
}

impl IsField for i16 {
    fn mul_assign(&mut self, rhs: Self) {
        *self = (*self).wrapping_mul(rhs);
    }
}

impl Zero for i32 {
    open spec fn zero_spec() -> Self {
        0i32
    }

    fn zero() -> (r: Self) {
        0
    }
}

impl IsNumerical for i32 {
    open spec fn add_spec(self, rhs: Self) -> Self {
        vstd::wrapping::i32_specs::wrapping_add(self, rhs)
    }

    open spec fn mul_spec(self, rhs: Self) -> Self {
        vstd::wrapping::i32_specs::wrapping_mul(self, rhs)
    }

    fn add(self, rhs: Self) -> (r: Self) {
        self.wrapping_add(rhs)
    }

    fn add_assign(&mut self, rhs: Self) {
        *self = (*self).wrapping_add(rhs);
    }

    fn mul(self, rhs: Self) -> (r: Self) {
        self.wrapping_mul(rhs)
    }

    proof fn mul_commutes(a: Self, b: Self) {
        assert(a as int * b as int == b as int * a as int) by (nonlinear_arith);
    }

    proof fn zero_adds(a: Self) {
    }

    proof fn zero_muls(a: Self) {
    }
}

impl IsField for i32 {
    fn mul_assign(&mut self, rhs: Self) {
        *self = (*self).wrapping_mul(rhs);
    }
}

impl Zero for i64 {
    open spec fn zero_spec() -> Self {
        0i64
    }

    fn zero() -> (r: Self) {
        0
    }
}

impl IsNumerical for i64 {
    open spec fn add_spec(self, rhs: Self) -> Self {
        vstd::wrapping::i64_specs::wrapping_add(self, rhs)
    }

    open spec fn mul_spec(self, rhs: Self) -> Self {
        vstd::wrapping::i64_specs::wrapping_mul(self, rhs)
    }

    fn add(self, rhs: Self) -> (r: Self) {
        self.wrapping_add(rhs)
    }

    fn add_assign(&mut self, rhs: Self) {
        *self = (*self).wrapping_add(rhs);
    }

    fn mul(self, rhs: Self) -> (r: Self) {
        self.wrapping_mul(rhs)
    }

    proof fn mul_commutes(a: Self, b: Self) {
        assert(a as int * b as int == b as int * a as int) by (nonlinear_arith);
    }

    proof fn zero_adds(a: Self) {
    }

    proof fn zero_muls(a: Self) {
    }
}

impl IsField for i64 {
    fn mul_assign(&mut self, rhs: Self) {
        *self = (*self).wrapping_mul(rhs);
    }
}

impl Zero for isize {
    open spec fn zero_spec() -> Self {
        0isize
    }

    fn zero() -> (r: Self) {
        0
    }
}

impl IsNumerical for isize {
    open spec fn add_spec(self, rhs: Self) -> Self {
        vstd::wrapping::isize_specs::wrapping_add(self, rhs)
    }

    open spec fn mul_spec(self, rhs: Self) -> Self {
        vstd::wrapping::isize_specs::wrapping_mul(self, rhs)
    }

    fn add(self, rhs: Self) -> (r: Self) {
        self.wrapping_add(rhs)
    }

    fn add_assign(&mut self, rhs: Self) {
        *self = (*self).wrapping_add(rhs);
    }

    fn mul(self, rhs: Self) -> (r: Self) {
        self.wrapping_mul(rhs)
    }

    proof fn mul_commutes(a: Self, b: Self) {
        assert(a as int * b as int == b as int * a as int) by (nonlinear_arith);
    }

    proof fn zero_adds(a: Self) {
    }

    proof fn zero_muls(a: Self) {
        let range = (usize::MAX - usize::MIN + 1) as int;
        assert(a as int * 0 == 0 && 0 * a as int == 0) by (nonlinear_arith);
        assert(0int % range == 0) by (nonlinear_arith)
            requires range > 0,
        ;
    }
}

impl IsField for isize {
    fn mul_assign(&mut self, rhs: Self) {
        *self = (*self).wrapping_mul(rhs);
    }
}

/// Widening of `u8` into `u16`.
impl ConvertTo<u16> for u8 {
    open spec fn to_spec(self) -> u16 {
        self as u16
    }

    fn convert(self) -> (r: u16) {
        self as u16
    }

    proof fn injective(a: Self, b: Self) {
    }
}

/// Widening of `u8` into `u32`.
impl ConvertTo<u32> for u8 {
    open spec fn to_spec(self) -> u32 {
        self as u32
    }

    fn convert(self) -> (r: u32) {
        self as u32
    }

    proof fn injective(a: Self, b: Self) {
    }
}

/// Widening of `u8` into `u64`.
impl ConvertTo<u64> for u8 {
    open spec fn to_spec(self) -> u64 {
        self as u64
    }

    fn convert(self) -> (r: u64) {
        self as u64
    }

    proof fn injective(a: Self, b: Self) {
    }
}

/// Widening of `u8` into `usize`.
impl ConvertTo<usize> for u8 {
    open spec fn to_spec(self) -> usize {
        self as usize
    }

    fn convert(self) -> (r: usize) {
        self as usize
    }

    proof fn injective(a: Self, b: Self) {
    }
}

/// Widening of `u8` into `i16`.
impl ConvertTo<i16> for u8 {
    open spec fn to_spec(self) -> i16 {
        self as i16
    }

    fn convert(self) -> (r: i16) {
        self as i16
    }

    proof fn injective(a: Self, b: Self) {
    }
}

/// Widening of `u8` into `i32`.
impl ConvertTo<i32> for u8 {
    open spec fn to_spec(self) -> i32 {
        self as i32
    }

    fn convert(self) -> (r: i32) {
        self as i32
    }

    proof fn injective(a: Self, b: Self) {
    }
}

/// Widening of `u8` into `i64`.
impl ConvertTo<i64> for u8 {
    open spec fn to_spec(self) -> i64 {
        self as i64
    }

    fn convert(self) -> (r: i64) {
        self as i64
    }

    proof fn injective(a: Self, b: Self) {
    }
}

/// Widening of `u8` into `isize`.
impl ConvertTo<isize> for u8 {
    open spec fn to_spec(self) -> isize {
        self as isize
    }

    fn convert(self) -> (r: isize) {
        self as isize
    }

    proof fn injective(a: Self, b: Self) {
    }
}

/// Widening of `u16` into `u32`.
impl ConvertTo<u32> for u16 {
    open spec fn to_spec(self) -> u32 {
        self as u32
    }

    fn convert(self) -> (r: u32) {
        self as u32
    }

    proof fn injective(a: Self, b: Self) {
    }
}

/// Widening of `u16` into `u64`.
impl ConvertTo<u64> for u16 {
    open spec fn to_spec(self) -> u64 {
        self as u64
    }

    fn convert(self) -> (r: u64) {
        self as u64
    }

    proof fn injective(a: Self, b: Self) {
    }
}

/// Widening of `u16` into `usize`.
impl ConvertTo<usize> for u16 {
    open spec fn to_spec(self) -> usize {
        self as usize
    }

    fn convert(self) -> (r: usize) {
        self as usize
    }

    proof fn injective(a: Self, b: Self) {
    }
}

/// Widening of `u16` into `i32`.
impl ConvertTo<i32> for u16 {
    open spec fn to_spec(self) -> i32 {
        self as i32
    }

    fn convert(self) -> (r: i32) {
        self as i32
    }

    proof fn injective(a: Self, b: Self) {
    }
}

/// Widening of `u16` into `i64`.
impl ConvertTo<i64> for u16 {
    open spec fn to_spec(self) -> i64 {
        self as i64
    }

    fn convert(self) -> (r: i64) {
        self as i64
    }

    proof fn injective(a: Self, b: Self) {
    }
}

/// Widening of `u32` into `u64`.
impl ConvertTo<u64> for u32 {
    open spec fn to_spec(self) -> u64 {
        self as u64
    }

    fn convert(self) -> (r: u64) {
        self as u64
    }

    proof fn injective(a: Self, b: Self) {
    }
}

/// Widening of `u32` into `i64`.
impl ConvertTo<i64> for u32 {
    open spec fn to_spec(self) -> i64 {
        self as i64
    }

    fn convert(self) -> (r: i64) {
        self as i64
    }

    proof fn injective(a: Self, b: Self) {
    }
}

/// Widening of `i8` into `i16`.
impl ConvertTo<i16> for i8 {
    open spec fn to_spec(self) -> i16 {
        self as i16
    }

    fn convert(self) -> (r: i16) {
        self as i16
    }

    proof fn injective(a: Self, b: Self) {
    }
}

/// Widening of `i8` into `i32`.
impl ConvertTo<i32> for i8 {
    open spec fn to_spec(self) -> i32 {
        self as i32
    }

    fn convert(self) -> (r: i32) {
        self as i32
    }

    proof fn injective(a: Self, b: Self) {
    }
}

/// Widening of `i8` into `i64`.
impl ConvertTo<i64> for i8 {
    open spec fn to_spec(self) -> i64 {
        self as i64
    }

    fn convert(self) -> (r: i64) {
        self as i64
    }

    proof fn injective(a: Self, b: Self) {
    }
}

/// Widening of `i8` into `isize`.
impl ConvertTo<isize> for i8 {
    open spec fn to_spec(self) -> isize {
        self as isize
    }

    fn convert(self) -> (r: isize) {
        self as isize
    }

    proof fn injective(a: Self, b: Self) {
    }
}

/// Widening of `i16` into `i32`.
impl ConvertTo<i32> for i16 {
    open spec fn to_spec(self) -> i32 {
        self as i32
    }

    fn convert(self) -> (r: i32) {
        self as i32
    }

    proof fn injective(a: Self, b: Self) {
    }
}

/// Widening of `i16` into `i64`.
impl ConvertTo<i64> for i16 {
    open spec fn to_spec(self) -> i64 {
        self as i64
    }

    fn convert(self) -> (r: i64) {
        self as i64
    }

    proof fn injective(a: Self, b: Self) {
    }
}

/// Widening of `i16` into `isize`.
impl ConvertTo<isize> for i16 {
    open spec fn to_spec(self) -> isize {
        self as isize
    }

    fn convert(self) -> (r: isize) {
        self as isize
    }

    proof fn injective(a: Self, b: Self) {
    }
}

/// Widening of `i32` into `i64`.
impl ConvertTo<i64> for i32 {
    open spec fn to_spec(self) -> i64 {
        self as i64
    }

    fn convert(self) -> (r: i64) {
        self as i64
    }

    proof fn injective(a: Self, b: Self) {
    }
}

} // verus!
