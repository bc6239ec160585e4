use crate::endian::{
    be_decode, le_decode, lemma_be_value_bound, lemma_le_value_bound, pow256, spec_be_value,
    spec_le_value, spec_signed_value, u128_as_signed, u16_as_signed, u32_as_signed, u64_as_signed,
};
use vstd::prelude::*;

verus! {

/// The packed integer types below are granted all three capabilities
/// directly rather than through field verification, to avoid a cycle
/// on their own byte-array field.  The direct grant is consistent with
/// the structural rules: a fixed-length sequence of raw bytes grants
/// every capability at every length.
pub proof fn lemma_packed_grant_justified(n: nat)
    ensures
        forall|c: crate::cap::Capability|
            crate::compose::spec_sequence_caps(
                crate::table::spec_primitive_caps(crate::table::PrimTy::U8),
                n,
            ).spec_holds(c),
{
}

/// A packed `u16`: the integer stored as 2 raw bytes.  The type is
/// alignment-free, valid under every bit pattern, and free of interior
/// mutation.  Equality and ordering compare the raw bytes, not the
/// decoded value.
#[derive(Clone, Copy, PartialEq, Eq, PartialOrd, Ord)]
pub struct PackedU16 {
    bytes: [u8; 2],
}

impl crate::AlwaysAligned for PackedU16 {}

impl crate::AlwaysValid for PackedU16 {}

impl crate::Immutable for PackedU16 {}

impl View for PackedU16 {
    type V = Seq<u8>;

    closed spec fn view(&self) -> Seq<u8> {
        self.bytes@
    }
}

impl PackedU16 {
    /// Creates a packed `u16` from its raw bytes, stored verbatim; any
    /// byte pattern is a valid value.
    pub fn from_bytes(bytes: [u8; 2]) -> (r: Self)
        ensures
            r@ == bytes@,
    {
        PackedU16 { bytes }
    }

    /// Reads the stored bytes as a little-endian `u16`.
    pub fn to_le(self) -> (r: u16)
        ensures
            r as int == spec_le_value(self@),
    {
        proof {
            lemma_le_value_bound(self.bytes@);
            assert(pow256(2) == 0x10000) by {
                reveal_with_fuel(pow256, 3);
            }
        }
        le_decode(self.bytes.as_slice()) as u16
    }

    /// Reads the stored bytes as a big-endian `u16`.
    pub fn to_be(self) -> (r: u16)
        ensures
            r as int == spec_be_value(self@),
    {
        proof {
            lemma_be_value_bound(self.bytes@);
            assert(pow256(2) == 0x10000) by {
                reveal_with_fuel(pow256, 3);
            }
        }
        be_decode(self.bytes.as_slice()) as u16
    }

    /// Reads the stored bytes as a native-endian `u16`; the result is
    /// platform-dependent by design.
    pub fn to_ne(self) -> (r: u16)
        ensures
            r as int == spec_le_value(self@) || r as int == spec_be_value(self@),
    {
        u16_from_ne(self.bytes)
    }
}

/// Relies on `u16::from_ne_bytes`: it reads the bytes in the target's
/// native byte order, which is little endian or big endian.
#[verifier::external_body]
fn u16_from_ne(bytes: [u8; 2]) -> (r: u16)
    ensures
        r as int == spec_le_value(bytes@) || r as int == spec_be_value(bytes@),
{
    u16::from_ne_bytes(bytes)
}

/// A packed `u32`: the integer stored as 4 raw bytes.  The type is
/// alignment-free, valid under every bit pattern, and free of interior
/// mutation.  Equality and ordering compare the raw bytes, not the
/// decoded value.
#[derive(Clone, Copy, PartialEq, Eq, PartialOrd, Ord)]
pub struct PackedU32 {
    bytes: [u8; 4],
}

impl crate::AlwaysAligned for PackedU32 {}

impl crate::AlwaysValid for PackedU32 {}

impl crate::Immutable for PackedU32 {}

impl View for PackedU32 {
    type V = Seq<u8>;

    closed spec fn view(&self) -> Seq<u8> {
        self.bytes@
    }
}

impl PackedU32 {
    /// Creates a packed `u32` from its raw bytes, stored verbatim; any
    /// byte pattern is a valid value.
    pub fn from_bytes(bytes: [u8; 4]) -> (r: Self)
        ensures
            r@ == bytes@,
    {
        PackedU32 { bytes }
    }

    /// Reads the stored bytes as a little-endian `u32`.
    pub fn to_le(self) -> (r: u32)
        ensures
            r as int == spec_le_value(self@),
    {
        proof {
            lemma_le_value_bound(self.bytes@);
            assert(pow256(4) == 0x100000000) by {
                reveal_with_fuel(pow256, 5);
            }
        }
        le_decode(self.bytes.as_slice()) as u32
    }

    /// Reads the stored bytes as a big-endian `u32`.
    pub fn to_be(self) -> (r: u32)
        ensures
            r as int == spec_be_value(self@),
    {
        proof {
            lemma_be_value_bound(self.bytes@);
            assert(pow256(4) == 0x100000000) by {
                reveal_with_fuel(pow256, 5);
            }
        }
        be_decode(self.bytes.as_slice()) as u32
    }

    /// Reads the stored bytes as a native-endian `u32`; the result is
    /// platform-dependent by design.
    pub fn to_ne(self) -> (r: u32)
        ensures
            r as int == spec_le_value(self@) || r as int == spec_be_value(self@),
    {
        u32_from_ne(self.bytes)
    }
}

/// Relies on `u32::from_ne_bytes`: it reads the bytes in the target's
/// native byte order, which is little endian or big endian.
#[verifier::external_body]
fn u32_from_ne(bytes: [u8; 4]) -> (r: u32)
    ensures
        r as int == spec_le_value(bytes@) || r as int == spec_be_value(bytes@),
{
    u32::from_ne_bytes(bytes)
}

/// A packed `u64`: the integer stored as 8 raw bytes.  The type is
/// alignment-free, valid under every bit pattern, and free of interior
/// mutation.  Equality and ordering compare the raw bytes, not the
/// decoded value.
#[derive(Clone, Copy, PartialEq, Eq, PartialOrd, Ord)]
pub struct PackedU64 {
    bytes: [u8; 8],
}

impl crate::AlwaysAligned for PackedU64 {}

impl crate::AlwaysValid for PackedU64 {}

impl crate::Immutable for PackedU64 {}

impl View for PackedU64 {
    type V = Seq<u8>;

    closed spec fn view(&self) -> Seq<u8> {
        self.bytes@
    }
}

impl PackedU64 {
    /// Creates a packed `u64` from its raw bytes, stored verbatim; any
    /// byte pattern is a valid value.
    pub fn from_bytes(bytes: [u8; 8]) -> (r: Self)
        ensures
            r@ == bytes@,
    {
        PackedU64 { bytes }
    }

    /// Reads the stored bytes as a little-endian `u64`.
    pub fn to_le(self) -> (r: u64)
        ensures
            r as int == spec_le_value(self@),
    {
        proof {
            lemma_le_value_bound(self.bytes@);
            assert(pow256(8) == 0x10000000000000000) by {
                reveal_with_fuel(pow256, 9);
            }
        }
        le_decode(self.bytes.as_slice()) as u64
    }

    /// Reads the stored bytes as a big-endian `u64`.
    pub fn to_be(self) -> (r: u64)
        ensures
            r as int == spec_be_value(self@),
    {
        proof {
            lemma_be_value_bound(self.bytes@);
            assert(pow256(8) == 0x10000000000000000) by {
                reveal_with_fuel(pow256, 9);
            }
        }
        be_decode(self.bytes.as_slice()) as u64
    }

    /// Reads the stored bytes as a native-endian `u64`; the result is
    /// platform-dependent by design.
    pub fn to_ne(self) -> (r: u64)
        ensures
            r as int == spec_le_value(self@) || r as int == spec_be_value(self@),
    {
        u64_from_ne(self.bytes)
    }
}

/// Relies on `u64::from_ne_bytes`: it reads the bytes in the target's
/// native byte order, which is little endian or big endian.
#[verifier::external_body]
fn u64_from_ne(bytes: [u8; 8]) -> (r: u64)
    ensures
        r as int == spec_le_value(bytes@) || r as int == spec_be_value(bytes@),
{
    u64::from_ne_bytes(bytes)
}

/// A packed `u128`: the integer stored as 16 raw bytes.  The type is
/// alignment-free, valid under every bit pattern, and free of interior
/// mutation.  Equality and ordering compare the raw bytes, not the
/// decoded value.
#[derive(Clone, Copy, PartialEq, Eq, PartialOrd, Ord)]
pub struct PackedU128 {
    bytes: [u8; 16],
}

impl crate::AlwaysAligned for PackedU128 {}

impl crate::AlwaysValid for PackedU128 {}

impl crate::Immutable for PackedU128 {}

impl View for PackedU128 {
    type V = Seq<u8>;

    closed spec fn view(&self) -> Seq<u8> {
        self.bytes@
    }
}

impl PackedU128 {
    /// Creates a packed `u128` from its raw bytes, stored verbatim; any
    /// byte pattern is a valid value.
    pub fn from_bytes(bytes: [u8; 16]) -> (r: Self)
        ensures
            r@ == bytes@,
    {
        PackedU128 { bytes }
    }

    /// Reads the stored bytes as a little-endian `u128`.
    pub fn to_le(self) -> (r: u128)
        ensures
            r as int == spec_le_value(self@),
    {
        proof {
            lemma_le_value_bound(self.bytes@);
            assert(pow256(16) == 0x100000000000000000000000000000000) by {
                reveal_with_fuel(pow256, 17);
            }
        }
        le_decode(self.bytes.as_slice()) as u128
    }

    /// Reads the stored bytes as a big-endian `u128`.
    pub fn to_be(self) -> (r: u128)
        ensures
            r as int == spec_be_value(self@),
    {
        proof {
            lemma_be_value_bound(self.bytes@);
            assert(pow256(16) == 0x100000000000000000000000000000000) by {
                reveal_with_fuel(pow256, 17);
            }
        }
        be_decode(self.bytes.as_slice()) as u128
    }

    /// Reads the stored bytes as a native-endian `u128`; the result is
    /// platform-dependent by design.
    pub fn to_ne(self) -> (r: u128)
        ensures
            r as int == spec_le_value(self@) || r as int == spec_be_value(self@),
    {
        u128_from_ne(self.bytes)
    }
}

/// Relies on `u128::from_ne_bytes`: it reads the bytes in the target's
/// native byte order, which is little endian or big endian.
#[verifier::external_body]
fn u128_from_ne(bytes: [u8; 16]) -> (r: u128)
    ensures
        r as int == spec_le_value(bytes@) || r as int == spec_be_value(bytes@),
{
    u128::from_ne_bytes(bytes)
}

/// A packed `i16`: the integer stored as 2 raw bytes, read back in
/// two's complement.  The type is alignment-free, valid under every
/// bit pattern, and free of interior mutation.  Equality and ordering
/// compare the raw bytes, not the decoded value.
#[derive(Clone, Copy, PartialEq, Eq, PartialOrd, Ord)]
pub struct PackedI16 {
    bytes: [u8; 2],
}

impl crate::AlwaysAligned for PackedI16 {}

impl crate::AlwaysValid for PackedI16 {}

impl crate::Immutable for PackedI16 {}

impl View for PackedI16 {
    type V = Seq<u8>;

    closed spec fn view(&self) -> Seq<u8> {
        self.bytes@
    }
}

impl PackedI16 {
    /// Creates a packed `i16` from its raw bytes, stored verbatim; any
    /// byte pattern is a valid value.
    pub fn from_bytes(bytes: [u8; 2]) -> (r: Self)
        ensures
            r@ == bytes@,
    {
        PackedI16 { bytes }
    }

    /// Reads the stored bytes as a little-endian `i16`.
    pub fn to_le(self) -> (r: i16)
        ensures
            r as int == spec_signed_value(spec_le_value(self@), 2),
    {
        proof {
            lemma_le_value_bound(self.bytes@);
            assert(pow256(2) == 0x10000) by {
                reveal_with_fuel(pow256, 3);
            }
        }
        u16_as_signed(le_decode(self.bytes.as_slice()) as u16)
    }

    /// Reads the stored bytes as a big-endian `i16`.
    pub fn to_be(self) -> (r: i16)
        ensures
            r as int == spec_signed_value(spec_be_value(self@), 2),
    {
        proof {
            lemma_be_value_bound(self.bytes@);
            assert(pow256(2) == 0x10000) by {
                reveal_with_fuel(pow256, 3);
            }
        }
        u16_as_signed(be_decode(self.bytes.as_slice()) as u16)
    }

    /// Reads the stored bytes as a native-endian `i16`; the result is
    /// platform-dependent by design.
    pub fn to_ne(self) -> (r: i16)
        ensures
            r as int == spec_signed_value(spec_le_value(self@), 2) || r as int
                == spec_signed_value(spec_be_value(self@), 2),
    {
        i16_from_ne(self.bytes)
    }
}

/// Relies on `i16::from_ne_bytes`: it reads the bytes, in two's
/// complement, in the target's native byte order, which is little
/// endian or big endian.
#[verifier::external_body]
fn i16_from_ne(bytes: [u8; 2]) -> (r: i16)
    ensures
        r as int == spec_signed_value(spec_le_value(bytes@), 2) || r as int
            == spec_signed_value(spec_be_value(bytes@), 2),
{
    i16::from_ne_bytes(bytes)
}

/// A packed `i32`: the integer stored as 4 raw bytes, read back in
/// two's complement.  The type is alignment-free, valid under every
/// bit pattern, and free of interior mutation.  Equality and ordering
/// compare the raw bytes, not the decoded value.
#[derive(Clone, Copy, PartialEq, Eq, PartialOrd, Ord)]
pub struct PackedI32 {
    bytes: [u8; 4],
}

impl crate::AlwaysAligned for PackedI32 {}

impl crate::AlwaysValid for PackedI32 {}

impl crate::Immutable for PackedI32 {}

impl View for PackedI32 {
    type V = Seq<u8>;

    closed spec fn view(&self) -> Seq<u8> {
        self.bytes@
    }
}

impl PackedI32 {
    /// Creates a packed `i32` from its raw bytes, stored verbatim; any
    /// byte pattern is a valid value.
    pub fn from_bytes(bytes: [u8; 4]) -> (r: Self)
        ensures
            r@ == bytes@,
    {
        PackedI32 { bytes }
    }

    /// Reads the stored bytes as a little-endian `i32`.
    pub fn to_le(self) -> (r: i32)
        ensures
            r as int == spec_signed_value(spec_le_value(self@), 4),
    {
        proof {
            lemma_le_value_bound(self.bytes@);
            assert(pow256(4) == 0x100000000) by {
                reveal_with_fuel(pow256, 5);
            }
        }
        u32_as_signed(le_decode(self.bytes.as_slice()) as u32)
    }

    /// Reads the stored bytes as a big-endian `i32`.
    pub fn to_be(self) -> (r: i32)
        ensures
            r as int == spec_signed_value(spec_be_value(self@), 4),
    {
        proof {
            lemma_be_value_bound(self.bytes@);
            assert(pow256(4) == 0x100000000) by {
                reveal_with_fuel(pow256, 5);
            }
        }
        u32_as_signed(be_decode(self.bytes.as_slice()) as u32)
    }

    /// Reads the stored bytes as a native-endian `i32`; the result is
    /// platform-dependent by design.
    pub fn to_ne(self) -> (r: i32)
        ensures
            r as int == spec_signed_value(spec_le_value(self@), 4) || r as int
                == spec_signed_value(spec_be_value(self@), 4),
    {
        i32_from_ne(self.bytes)
    }
}

/// Relies on `i32::from_ne_bytes`: it reads the bytes, in two's
/// complement, in the target's native byte order, which is little
/// endian or big endian.
#[verifier::external_body]
fn i32_from_ne(bytes: [u8; 4]) -> (r: i32)
    ensures
        r as int == spec_signed_value(spec_le_value(bytes@), 4) || r as int
            == spec_signed_value(spec_be_value(bytes@), 4),
{
    i32::from_ne_bytes(bytes)
}

/// A packed `i64`: the integer stored as 8 raw bytes, read back in
/// two's complement.  The type is alignment-free, valid under every
/// bit pattern, and free of interior mutation.  Equality and ordering
/// compare the raw bytes, not the decoded value.
#[derive(Clone, Copy, PartialEq, Eq, PartialOrd, Ord)]
pub struct PackedI64 {
    bytes: [u8; 8],
}

impl crate::AlwaysAligned for PackedI64 {}

impl crate::AlwaysValid for PackedI64 {}

impl crate::Immutable for PackedI64 {}

impl View for PackedI64 {
    type V = Seq<u8>;

    closed spec fn view(&self) -> Seq<u8> {
        self.bytes@
    }
}

impl PackedI64 {
    /// Creates a packed `i64` from its raw bytes, stored verbatim; any
    /// byte pattern is a valid value.
    pub fn from_bytes(bytes: [u8; 8]) -> (r: Self)
        ensures
            r@ == bytes@,
    {
        PackedI64 { bytes }
    }

    /// Reads the stored bytes as a little-endian `i64`.
    pub fn to_le(self) -> (r: i64)
        ensures
            r as int == spec_signed_value(spec_le_value(self@), 8),
    {
        proof {
            lemma_le_value_bound(self.bytes@);
            assert(pow256(8) == 0x10000000000000000) by {
                reveal_with_fuel(pow256, 9);
            }
        }
        u64_as_signed(le_decode(self.bytes.as_slice()) as u64)
    }

    /// Reads the stored bytes as a big-endian `i64`.
    pub fn to_be(self) -> (r: i64)
        ensures
            r as int == spec_signed_value(spec_be_value(self@), 8),
    {
        proof {
            lemma_be_value_bound(self.bytes@);
            assert(pow256(8) == 0x10000000000000000) by {
                reveal_with_fuel(pow256, 9);
            }
        }
        u64_as_signed(be_decode(self.bytes.as_slice()) as u64)
    }

    /// Reads the stored bytes as a native-endian `i64`; the result is
    /// platform-dependent by design.
    pub fn to_ne(self) -> (r: i64)
        ensures
            r as int == spec_signed_value(spec_le_value(self@), 8) || r as int
                == spec_signed_value(spec_be_value(self@), 8),
    {
        i64_from_ne(self.bytes)
    }
}

/// Relies on `i64::from_ne_bytes`: it reads the bytes, in two's
/// complement, in the target's native byte order, which is little
/// endian or big endian.
#[verifier::external_body]
fn i64_from_ne(bytes: [u8; 8]) -> (r: i64)
    ensures
        r as int == spec_signed_value(spec_le_value(bytes@), 8) || r as int
            == spec_signed_value(spec_be_value(bytes@), 8),
{
    i64::from_ne_bytes(bytes)
}

/// A packed `i128`: the integer stored as 16 raw bytes, read back in
/// two's complement.  The type is alignment-free, valid under every
/// bit pattern, and free of interior mutation.  Equality and ordering
/// compare the raw bytes, not the decoded value.
#[derive(Clone, Copy, PartialEq, Eq, PartialOrd, Ord)]
pub struct PackedI128 {
    bytes: [u8; 16],
}

impl crate::AlwaysAligned for PackedI128 {}

impl crate::AlwaysValid for PackedI128 {}

impl crate::Immutable for PackedI128 {}

impl View for PackedI128 {
    type V = Seq<u8>;

    closed spec fn view(&self) -> Seq<u8> {
        self.bytes@
    }
}

impl PackedI128 {
    /// Creates a packed `i128` from its raw bytes, stored verbatim; any
    /// byte pattern is a valid value.
    pub fn from_bytes(bytes: [u8; 16]) -> (r: Self)
        ensures
            r@ == bytes@,
    {
        PackedI128 { bytes }
    }

    /// Reads the stored bytes as a little-endian `i128`.
    pub fn to_le(self) -> (r: i128)
        ensures
            r as int == spec_signed_value(spec_le_value(self@), 16),
    {
        proof {
            lemma_le_value_bound(self.bytes@);
            assert(pow256(16) == 0x100000000000000000000000000000000) by {
                reveal_with_fuel(pow256, 17);
            }
        }
        u128_as_signed(le_decode(self.bytes.as_slice()) as u128)
    }

    /// Reads the stored bytes as a big-endian `i128`.
    pub fn to_be(self) -> (r: i128)
        ensures
            r as int == spec_signed_value(spec_be_value(self@), 16),
    {
        proof {
            lemma_be_value_bound(self.bytes@);
            assert(pow256(16) == 0x100000000000000000000000000000000) by {
                reveal_with_fuel(pow256, 17);
            }
        }
        u128_as_signed(be_decode(self.bytes.as_slice()) as u128)
    }

    /// Reads the stored bytes as a native-endian `i128`; the result is
    /// platform-dependent by design.
    pub fn to_ne(self) -> (r: i128)
        ensures
            r as int == spec_signed_value(spec_le_value(self@), 16) || r as int
                == spec_signed_value(spec_be_value(self@), 16),
    {
        i128_from_ne(self.bytes)
    }
}

/// Relies on `i128::from_ne_bytes`: it reads the bytes, in two's
/// complement, in the target's native byte order, which is little
/// endian or big endian.
#[verifier::external_body]
fn i128_from_ne(bytes: [u8; 16]) -> (r: i128)
    ensures
        r as int == spec_signed_value(spec_le_value(bytes@), 16) || r as int
            == spec_signed_value(spec_be_value(bytes@), 16),
{
    i128::from_ne_bytes(bytes)
}

} // verus!
