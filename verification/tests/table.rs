use passive::cap::{CapSet, Capability};
use passive::table::{primitive_caps, wrapper_caps, PrimTy, WrapperKind};

fn row(t: PrimTy) -> (bool, bool, bool) {
    let caps = primitive_caps(t);
    (
        caps.holds(Capability::AlignFree),
        caps.holds(Capability::AllBitsValid),
        caps.holds(Capability::NoInteriorMutation),
    )
}

#[test]
fn table_one_byte_rows() {
    assert_eq!(row(PrimTy::Unit), (true, true, true));
    assert_eq!(row(PrimTy::U8), (true, true, true));
    assert_eq!(row(PrimTy::I8), (true, true, true));
}

#[test]
fn table_bool_row() {
    assert_eq!(row(PrimTy::Bool), (true, false, true));
}

#[test]
fn table_wide_integer_rows() {
    for t in [
        PrimTy::U16,
        PrimTy::U32,
        PrimTy::U64,
        PrimTy::U128,
        PrimTy::Usize,
        PrimTy::I16,
        PrimTy::I32,
        PrimTy::I64,
        PrimTy::I128,
        PrimTy::Isize,
    ] {
        assert_eq!(row(t), (false, true, true));
    }
}

#[test]
fn table_non_dropping_wrapper_inherits() {
    let payload = CapSet { align_free: true, all_bits_valid: false, no_interior_mutation: true };
    let caps = wrapper_caps(WrapperKind::NonDropping, payload);
    assert_eq!(caps, payload);
}

#[test]
fn table_uninit_wrapper_is_valid_unconditionally() {
    let payload = primitive_caps(PrimTy::Bool);
    let caps = wrapper_caps(WrapperKind::UninitMemory, payload);
    assert!(caps.holds(Capability::AlignFree));
    assert!(caps.holds(Capability::AllBitsValid));
    assert!(caps.holds(Capability::NoInteriorMutation));
}

#[test]
fn table_uninit_wrapper_inherits_the_rest() {
    let payload = CapSet { align_free: false, all_bits_valid: false, no_interior_mutation: false };
    let caps = wrapper_caps(WrapperKind::UninitMemory, payload);
    assert!(!caps.holds(Capability::AlignFree));
    assert!(caps.holds(Capability::AllBitsValid));
    assert!(!caps.holds(Capability::NoInteriorMutation));
}

#[test]
fn table_interior_mutability_wrappers_never_immutable() {
    let payload = primitive_caps(PrimTy::U8);
    for kind in [WrapperKind::InteriorMutChecked, WrapperKind::InteriorMutUnchecked] {
        let caps = wrapper_caps(kind, payload);
        assert!(caps.holds(Capability::AlignFree));
        assert!(caps.holds(Capability::AllBitsValid));
        assert!(!caps.holds(Capability::NoInteriorMutation));
    }
}
