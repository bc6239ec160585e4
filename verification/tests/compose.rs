use passive::cap::{CapSet, Capability};
use passive::compose::{composite_caps, sequence_caps};
use passive::table::{primitive_caps, PrimTy};

#[test]
fn composite_is_capability_wise_and() {
    let fields = vec![
        primitive_caps(PrimTy::U8),
        primitive_caps(PrimTy::Bool),
        primitive_caps(PrimTy::U32),
    ];
    let caps = composite_caps(&fields);
    // u32 denies AlignFree, bool denies AllBitsValid, all grant
    // NoInteriorMutation.
    assert!(!caps.holds(Capability::AlignFree));
    assert!(!caps.holds(Capability::AllBitsValid));
    assert!(caps.holds(Capability::NoInteriorMutation));
}

#[test]
fn composite_of_grants_keeps_grants() {
    let fields = vec![primitive_caps(PrimTy::Unit), primitive_caps(PrimTy::I8)];
    let caps = composite_caps(&fields);
    assert!(caps.holds(Capability::AlignFree));
    assert!(caps.holds(Capability::AllBitsValid));
    assert!(caps.holds(Capability::NoInteriorMutation));
}

#[test]
fn zero_field_composite_holds_everything() {
    let fields: Vec<CapSet> = vec![];
    let caps = composite_caps(&fields);
    assert!(caps.holds(Capability::AlignFree));
    assert!(caps.holds(Capability::AllBitsValid));
    assert!(caps.holds(Capability::NoInteriorMutation));
}

#[test]
fn zero_length_sequence_is_valid_and_immutable() {
    // Even for an element type that denies both capabilities.
    let elem = CapSet { align_free: true, all_bits_valid: false, no_interior_mutation: false };
    let caps = sequence_caps(elem, 0);
    assert!(caps.holds(Capability::AlignFree));
    assert!(caps.holds(Capability::AllBitsValid));
    assert!(caps.holds(Capability::NoInteriorMutation));
}

#[test]
fn zero_length_sequence_alignment_follows_element() {
    let elem = primitive_caps(PrimTy::U64);
    let caps = sequence_caps(elem, 0);
    assert!(!caps.holds(Capability::AlignFree));
    assert!(caps.holds(Capability::AllBitsValid));
    assert!(caps.holds(Capability::NoInteriorMutation));
}

#[test]
fn nonzero_sequence_follows_element() {
    let elem = primitive_caps(PrimTy::Bool);
    let caps = sequence_caps(elem, 7);
    assert_eq!(caps, elem);
}
