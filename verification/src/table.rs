use crate::cap::{CapSet, Capability};
use vstd::prelude::*;

verus! {

/// A built-in scalar type of the primitive capability table.
#[derive(Clone, Copy, PartialEq, Eq, Structural, Debug)]
pub enum PrimTy {
    Unit,
    U8,
    I8,
    Bool,
    U16,
    U32,
    U64,
    U128,
    Usize,
    I16,
    I32,
    I64,
    I128,
    Isize,
}

/// A standard wrapper type of the primitive capability table.  The two
/// interior-mutability wrappers are distinct kinds, but both forfeit
/// `NoInteriorMutation` unconditionally.
#[derive(Clone, Copy, PartialEq, Eq, Structural, Debug)]
pub enum WrapperKind {
    /// A wrapper that never drops its payload.
    NonDropping,
    /// A wrapper whose payload may be left uninitialized.
    UninitMemory,
    /// A dynamically checked interior-mutability wrapper.
    InteriorMutChecked,
    /// An unchecked interior-mutability wrapper.
    InteriorMutUnchecked,
}

/// The capability row of a built-in scalar: the unit type and the 8-bit
/// integers grant all three capabilities; a boolean grants all but
/// `AllBitsValid`; the wider integers grant all but `AlignFree`.
pub open spec fn spec_primitive_caps(t: PrimTy) -> CapSet {
    match t {
        PrimTy::Unit | PrimTy::U8 | PrimTy::I8 => CapSet {
            align_free: true,
            all_bits_valid: true,
            no_interior_mutation: true,
        },
        PrimTy::Bool => CapSet {
            align_free: true,
            all_bits_valid: false,
            no_interior_mutation: true,
        },
        _ => CapSet { align_free: false, all_bits_valid: true, no_interior_mutation: true },
    }
}

/// Looks up a built-in scalar in the primitive capability table.  The
/// grant is fixed by the table itself; it is never derived from
/// anything else.
pub fn primitive_caps(t: PrimTy) -> (r: CapSet)
    ensures
        r == spec_primitive_caps(t),
{
    match t {
        PrimTy::Unit | PrimTy::U8 | PrimTy::I8 => CapSet {
            align_free: true,
            all_bits_valid: true,
            no_interior_mutation: true,
        },
        PrimTy::Bool => CapSet {
            align_free: true,
            all_bits_valid: false,
            no_interior_mutation: true,
        },
        _ => CapSet { align_free: false, all_bits_valid: true, no_interior_mutation: true },
    }
}

/// The capability row of a wrapper around a payload whose own set is
/// `payload`: a non-dropping wrapper inherits everything; the
/// uninitialized-memory wrapper gains `AllBitsValid` unconditionally,
/// since "possibly uninitialized" already subsumes every bit pattern;
/// an interior-mutability wrapper forfeits `NoInteriorMutation`
/// unconditionally, by definition.
pub open spec fn spec_wrapper_caps(k: WrapperKind, payload: CapSet) -> CapSet {
    match k {
        WrapperKind::NonDropping => payload,
        WrapperKind::UninitMemory => CapSet {
            align_free: payload.align_free,
            all_bits_valid: true,
            no_interior_mutation: payload.no_interior_mutation,
        },
        WrapperKind::InteriorMutChecked | WrapperKind::InteriorMutUnchecked => CapSet {
            align_free: payload.align_free,
            all_bits_valid: payload.all_bits_valid,
            no_interior_mutation: false,
        },
    }
}

/// Looks up a wrapper in the primitive capability table, given its
/// payload's already-established set.
pub fn wrapper_caps(k: WrapperKind, payload: CapSet) -> (r: CapSet)
    ensures
        r == spec_wrapper_caps(k, payload),
{
    match k {
        WrapperKind::NonDropping => payload,
        WrapperKind::UninitMemory => CapSet {
            align_free: payload.align_free,
            all_bits_valid: true,
            no_interior_mutation: payload.no_interior_mutation,
        },
        WrapperKind::InteriorMutChecked | WrapperKind::InteriorMutUnchecked => CapSet {
            align_free: payload.align_free,
            all_bits_valid: payload.all_bits_valid,
            no_interior_mutation: false,
        },
    }
}

} // verus!
