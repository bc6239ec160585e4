//! A compile-time capability model for a type's in-memory
//! representation, with three orthogonal capabilities: freedom from
//! alignment, validity of every bit pattern, and absence of interior
//! mutation.  Downstream byte-level code uses the capabilities as
//! static preconditions, with no runtime representation tests.
//!
//! The capabilities surface twice.  As the marker traits below they
//! bound generic code, and the table of built-in grants is the set of
//! trait impls in this file.  As data they are the [`cap::CapSet`]
//! model: [`table`] fixes the grants of the built-in types,
//! [`compose`] derives a composite's set from its components', and
//! [`grant`] verifies, at definition time, that a requested capability
//! is justified by every field.  [`packed`] holds the packed integer
//! codecs, the model's one non-trivial consumer.

pub mod cap;
pub mod compose;
pub mod endian;
pub mod grant;
pub mod packed;
pub mod table;

use core::cell::Cell;
use core::cell::UnsafeCell;
use core::mem::ManuallyDrop;
use core::mem::MaybeUninit;
use vstd::prelude::*;

verus! {

/// Marker for types whose values may be stored at any byte offset:
/// their alignment is exactly one byte.
///
/// Implementing this trait for a type of larger alignment is the
/// implementer's unverifiable responsibility; the grants below follow
/// the primitive capability table, and
/// [`grant::verify_composite`](crate::grant::verify_composite) is the
/// checked path for extending the capability to a composite.
pub trait AlwaysAligned {}

/// Marker for types for which every bit pattern of their storage is a
/// legal value, so a value may be built from arbitrary bytes.
///
/// `MaybeUninit<T>` and `[T; 0]` carry this marker even when `T` does
/// not: "possibly uninitialized" already subsumes every bit pattern,
/// and a zero-length sequence stores no bytes that could be invalid.
pub trait AlwaysValid {}

/// Marker for types whose values hold no internally shareable mutable
/// state, so aliasing them is always safe.
///
/// `[T; 0]` carries this marker even when `T` does not.  The two
/// interior-mutability wrappers never do, by definition.
pub trait Immutable {}

/// Definition-time obligation that `T` may be stored at any byte
/// offset; a mention of `obligation_always_aligned::<T>()` compiles
/// exactly when `T` carries the grant.
pub fn obligation_always_aligned<T: AlwaysAligned>() {
}

/// Definition-time obligation that every bit pattern of `T` is legal;
/// a mention of `obligation_always_valid::<T>()` compiles exactly when
/// `T` carries the grant.
pub fn obligation_always_valid<T: AlwaysValid>() {
}

/// Definition-time obligation that `T` is free of interior mutation; a
/// mention of `obligation_immutable::<T>()` compiles exactly when `T`
/// carries the grant.
pub fn obligation_immutable<T: Immutable>() {
}

/// Declares `core::cell::Cell` so that the grants below can name it.
/// Nothing is assumed of it beyond its existence.
#[verifier::external_type_specification]
#[verifier::external_body]
#[verifier::reject_recursive_types(T)]
pub struct ExCell<T: ?Sized>(Cell<T>);

/// Declares `core::cell::UnsafeCell` so that the grants below can name
/// it.  Nothing is assumed of it beyond its existence.
#[verifier::external_type_specification]
#[verifier::external_body]
#[verifier::reject_recursive_types(T)]
pub struct ExUnsafeCell<T: ?Sized>(UnsafeCell<T>);

impl AlwaysAligned for () {}

impl AlwaysValid for () {}

impl Immutable for () {}

impl AlwaysAligned for u8 {}

impl AlwaysValid for u8 {}

impl Immutable for u8 {}

impl AlwaysAligned for i8 {}

impl AlwaysValid for i8 {}

impl Immutable for i8 {}

impl AlwaysAligned for bool {}

impl Immutable for bool {}

impl AlwaysValid for u16 {}

impl Immutable for u16 {}

impl AlwaysValid for u32 {}

impl Immutable for u32 {}

impl AlwaysValid for u64 {}

impl Immutable for u64 {}

impl AlwaysValid for u128 {}

impl Immutable for u128 {}

impl AlwaysValid for usize {}

impl Immutable for usize {}

impl AlwaysValid for i16 {}

impl Immutable for i16 {}

impl AlwaysValid for i32 {}

impl Immutable for i32 {}

impl AlwaysValid for i64 {}

impl Immutable for i64 {}

impl AlwaysValid for i128 {}

impl Immutable for i128 {}

impl AlwaysValid for isize {}

impl Immutable for isize {}

impl<T: AlwaysAligned> AlwaysAligned for ManuallyDrop<T> {}

impl<T: AlwaysValid> AlwaysValid for ManuallyDrop<T> {}

impl<T: Immutable> Immutable for ManuallyDrop<T> {}

impl<T: AlwaysAligned> AlwaysAligned for MaybeUninit<T> {}

impl<T> AlwaysValid for MaybeUninit<T> {}

impl<T: Immutable> Immutable for MaybeUninit<T> {}

impl<T: AlwaysAligned> AlwaysAligned for Cell<T> {}

impl<T: AlwaysValid> AlwaysValid for Cell<T> {}

impl<T: AlwaysAligned> AlwaysAligned for UnsafeCell<T> {}

impl<T: AlwaysValid> AlwaysValid for UnsafeCell<T> {}

impl<A: AlwaysAligned> AlwaysAligned for (A,) {}

impl<A: AlwaysValid> AlwaysValid for (A,) {}

impl<A: Immutable> Immutable for (A,) {}

impl<A: AlwaysAligned, B: AlwaysAligned> AlwaysAligned for (A, B) {}

impl<A: AlwaysValid, B: AlwaysValid> AlwaysValid for (A, B) {}

impl<A: Immutable, B: Immutable> Immutable for (A, B) {}

impl<A: AlwaysAligned, B: AlwaysAligned, C: AlwaysAligned> AlwaysAligned for (A, B, C) {}

impl<A: AlwaysValid, B: AlwaysValid, C: AlwaysValid> AlwaysValid for (A, B, C) {}

impl<A: Immutable, B: Immutable, C: Immutable> Immutable for (A, B, C) {}

impl<A: AlwaysAligned, B: AlwaysAligned, C: AlwaysAligned, D: AlwaysAligned> AlwaysAligned for (A, B, C, D) {}

impl<A: AlwaysValid, B: AlwaysValid, C: AlwaysValid, D: AlwaysValid> AlwaysValid for (A, B, C, D) {}

impl<A: Immutable, B: Immutable, C: Immutable, D: Immutable> Immutable for (A, B, C, D) {}

impl<A: AlwaysAligned, B: AlwaysAligned, C: AlwaysAligned, D: AlwaysAligned, E: AlwaysAligned> AlwaysAligned for (A, B, C, D, E) {}

impl<A: AlwaysValid, B: AlwaysValid, C: AlwaysValid, D: AlwaysValid, E: AlwaysValid> AlwaysValid for (A, B, C, D, E) {}

impl<A: Immutable, B: Immutable, C: Immutable, D: Immutable, E: Immutable> Immutable for (A, B, C, D, E) {}

impl<A: AlwaysAligned, B: AlwaysAligned, C: AlwaysAligned, D: AlwaysAligned, E: AlwaysAligned, F: AlwaysAligned> AlwaysAligned for (A, B, C, D, E, F) {}

impl<A: AlwaysValid, B: AlwaysValid, C: AlwaysValid, D: AlwaysValid, E: AlwaysValid, F: AlwaysValid> AlwaysValid for (A, B, C, D, E, F) {}

impl<A: Immutable, B: Immutable, C: Immutable, D: Immutable, E: Immutable, F: Immutable> Immutable for (A, B, C, D, E, F) {}

impl<A: AlwaysAligned, B: AlwaysAligned, C: AlwaysAligned, D: AlwaysAligned, E: AlwaysAligned, F: AlwaysAligned, G: AlwaysAligned> AlwaysAligned for (A, B, C, D, E, F, G) {}

impl<A: AlwaysValid, B: AlwaysValid, C: AlwaysValid, D: AlwaysValid, E: AlwaysValid, F: AlwaysValid, G: AlwaysValid> AlwaysValid for (A, B, C, D, E, F, G) {}

impl<A: Immutable, B: Immutable, C: Immutable, D: Immutable, E: Immutable, F: Immutable, G: Immutable> Immutable for (A, B, C, D, E, F, G) {}

impl<A: AlwaysAligned, B: AlwaysAligned, C: AlwaysAligned, D: AlwaysAligned, E: AlwaysAligned, F: AlwaysAligned, G: AlwaysAligned, H: AlwaysAligned> AlwaysAligned for (A, B, C, D, E, F, G, H) {}

impl<A: AlwaysValid, B: AlwaysValid, C: AlwaysValid, D: AlwaysValid, E: AlwaysValid, F: AlwaysValid, G: AlwaysValid, H: AlwaysValid> AlwaysValid for (A, B, C, D, E, F, G, H) {}

impl<A: Immutable, B: Immutable, C: Immutable, D: Immutable, E: Immutable, F: Immutable, G: Immutable, H: Immutable> Immutable for (A, B, C, D, E, F, G, H) {}

impl<A: AlwaysAligned, B: AlwaysAligned, C: AlwaysAligned, D: AlwaysAligned, E: AlwaysAligned, F: AlwaysAligned, G: AlwaysAligned, H: AlwaysAligned, I: AlwaysAligned> AlwaysAligned for (A, B, C, D, E, F, G, H, I) {}

impl<A: AlwaysValid, B: AlwaysValid, C: AlwaysValid, D: AlwaysValid, E: AlwaysValid, F: AlwaysValid, G: AlwaysValid, H: AlwaysValid, I: AlwaysValid> AlwaysValid for (A, B, C, D, E, F, G, H, I) {}

impl<A: Immutable, B: Immutable, C: Immutable, D: Immutable, E: Immutable, F: Immutable, G: Immutable, H: Immutable, I: Immutable> Immutable for (A, B, C, D, E, F, G, H, I) {}

impl<A: AlwaysAligned, B: AlwaysAligned, C: AlwaysAligned, D: AlwaysAligned, E: AlwaysAligned, F: AlwaysAligned, G: AlwaysAligned, H: AlwaysAligned, I: AlwaysAligned, J: AlwaysAligned> AlwaysAligned for (A, B, C, D, E, F, G, H, I, J) {}

impl<A: AlwaysValid, B: AlwaysValid, C: AlwaysValid, D: AlwaysValid, E: AlwaysValid, F: AlwaysValid, G: AlwaysValid, H: AlwaysValid, I: AlwaysValid, J: AlwaysValid> AlwaysValid for (A, B, C, D, E, F, G, H, I, J) {}

impl<A: Immutable, B: Immutable, C: Immutable, D: Immutable, E: Immutable, F: Immutable, G: Immutable, H: Immutable, I: Immutable, J: Immutable> Immutable for (A, B, C, D, E, F, G, H, I, J) {}

impl<A: AlwaysAligned, B: AlwaysAligned, C: AlwaysAligned, D: AlwaysAligned, E: AlwaysAligned, F: AlwaysAligned, G: AlwaysAligned, H: AlwaysAligned, I: AlwaysAligned, J: AlwaysAligned, K: AlwaysAligned> AlwaysAligned for (A, B, C, D, E, F, G, H, I, J, K) {}

impl<A: AlwaysValid, B: AlwaysValid, C: AlwaysValid, D: AlwaysValid, E: AlwaysValid, F: AlwaysValid, G: AlwaysValid, H: AlwaysValid, I: AlwaysValid, J: AlwaysValid, K: AlwaysValid> AlwaysValid for (A, B, C, D, E, F, G, H, I, J, K) {}

impl<A: Immutable, B: Immutable, C: Immutable, D: Immutable, E: Immutable, F: Immutable, G: Immutable, H: Immutable, I: Immutable, J: Immutable, K: Immutable> Immutable for (A, B, C, D, E, F, G, H, I, J, K) {}

impl<A: AlwaysAligned, B: AlwaysAligned, C: AlwaysAligned, D: AlwaysAligned, E: AlwaysAligned, F: AlwaysAligned, G: AlwaysAligned, H: AlwaysAligned, I: AlwaysAligned, J: AlwaysAligned, K: AlwaysAligned, L: AlwaysAligned> AlwaysAligned for (A, B, C, D, E, F, G, H, I, J, K, L) {}

impl<A: AlwaysValid, B: AlwaysValid, C: AlwaysValid, D: AlwaysValid, E: AlwaysValid, F: AlwaysValid, G: AlwaysValid, H: AlwaysValid, I: AlwaysValid, J: AlwaysValid, K: AlwaysValid, L: AlwaysValid> AlwaysValid for (A, B, C, D, E, F, G, H, I, J, K, L) {}

impl<A: Immutable, B: Immutable, C: Immutable, D: Immutable, E: Immutable, F: Immutable, G: Immutable, H: Immutable, I: Immutable, J: Immutable, K: Immutable, L: Immutable> Immutable for (A, B, C, D, E, F, G, H, I, J, K, L) {}

impl<T: AlwaysAligned, const N: usize> AlwaysAligned for [T; N] {}

impl<T> AlwaysValid for [T; 0] {}

impl<T> Immutable for [T; 0] {}

impl<T: AlwaysValid> AlwaysValid for [T; 1] {}

impl<T: Immutable> Immutable for [T; 1] {}

impl<T: AlwaysValid> AlwaysValid for [T; 2] {}

impl<T: Immutable> Immutable for [T; 2] {}

impl<T: AlwaysValid> AlwaysValid for [T; 3] {}

impl<T: Immutable> Immutable for [T; 3] {}

impl<T: AlwaysValid> AlwaysValid for [T; 4] {}

impl<T: Immutable> Immutable for [T; 4] {}

impl<T: AlwaysValid> AlwaysValid for [T; 5] {}

impl<T: Immutable> Immutable for [T; 5] {}

impl<T: AlwaysValid> AlwaysValid for [T; 6] {}

impl<T: Immutable> Immutable for [T; 6] {}

impl<T: AlwaysValid> AlwaysValid for [T; 7] {}

impl<T: Immutable> Immutable for [T; 7] {}

impl<T: AlwaysValid> AlwaysValid for [T; 8] {}

impl<T: Immutable> Immutable for [T; 8] {}

impl<T: AlwaysValid> AlwaysValid for [T; 9] {}

impl<T: Immutable> Immutable for [T; 9] {}

impl<T: AlwaysValid> AlwaysValid for [T; 10] {}

impl<T: Immutable> Immutable for [T; 10] {}

impl<T: AlwaysValid> AlwaysValid for [T; 11] {}

impl<T: Immutable> Immutable for [T; 11] {}

impl<T: AlwaysValid> AlwaysValid for [T; 12] {}

impl<T: Immutable> Immutable for [T; 12] {}

impl<T: AlwaysValid> AlwaysValid for [T; 13] {}

impl<T: Immutable> Immutable for [T; 13] {}

impl<T: AlwaysValid> AlwaysValid for [T; 14] {}

impl<T: Immutable> Immutable for [T; 14] {}

impl<T: AlwaysValid> AlwaysValid for [T; 15] {}

impl<T: Immutable> Immutable for [T; 15] {}

impl<T: AlwaysValid> AlwaysValid for [T; 16] {}

impl<T: Immutable> Immutable for [T; 16] {}

impl<T: AlwaysValid> AlwaysValid for [T; 17] {}

impl<T: Immutable> Immutable for [T; 17] {}

impl<T: AlwaysValid> AlwaysValid for [T; 18] {}

impl<T: Immutable> Immutable for [T; 18] {}

impl<T: AlwaysValid> AlwaysValid for [T; 19] {}

impl<T: Immutable> Immutable for [T; 19] {}

impl<T: AlwaysValid> AlwaysValid for [T; 20] {}

impl<T: Immutable> Immutable for [T; 20] {}

impl<T: AlwaysValid> AlwaysValid for [T; 21] {}

impl<T: Immutable> Immutable for [T; 21] {}

impl<T: AlwaysValid> AlwaysValid for [T; 22] {}

impl<T: Immutable> Immutable for [T; 22] {}

impl<T: AlwaysValid> AlwaysValid for [T; 23] {}

impl<T: Immutable> Immutable for [T; 23] {}

impl<T: AlwaysValid> AlwaysValid for [T; 24] {}

impl<T: Immutable> Immutable for [T; 24] {}

impl<T: AlwaysValid> AlwaysValid for [T; 25] {}

impl<T: Immutable> Immutable for [T; 25] {}

impl<T: AlwaysValid> AlwaysValid for [T; 26] {}

impl<T: Immutable> Immutable for [T; 26] {}

impl<T: AlwaysValid> AlwaysValid for [T; 27] {}

impl<T: Immutable> Immutable for [T; 27] {}

impl<T: AlwaysValid> AlwaysValid for [T; 28] {}

impl<T: Immutable> Immutable for [T; 28] {}

impl<T: AlwaysValid> AlwaysValid for [T; 29] {}

impl<T: Immutable> Immutable for [T; 29] {}

impl<T: AlwaysValid> AlwaysValid for [T; 30] {}

impl<T: Immutable> Immutable for [T; 30] {}

impl<T: AlwaysValid> AlwaysValid for [T; 31] {}

impl<T: Immutable> Immutable for [T; 31] {}

impl<T: AlwaysValid> AlwaysValid for [T; 32] {}

impl<T: Immutable> Immutable for [T; 32] {}

} // verus!
