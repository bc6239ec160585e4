use passive::cap::{CapSet, Capability};
use passive::grant::{derive_composite, verify_composite, TypeDescriptor};
use passive::table::{primitive_caps, PrimTy};

fn descriptor(id: u64, t: PrimTy) -> TypeDescriptor {
    TypeDescriptor { id, caps: primitive_caps(t) }
}

#[test]
fn verification_passes_when_every_field_grants() {
    let fields = vec![descriptor(1, PrimTy::Unit), descriptor(2, PrimTy::U8)];
    for c in [Capability::AlignFree, Capability::AllBitsValid, Capability::NoInteriorMutation] {
        let grant = verify_composite(c, &fields).unwrap();
        assert_eq!(grant.capability, c);
    }
}

#[test]
fn verification_fails_on_one_lacking_field() {
    let fields = vec![descriptor(1, PrimTy::Bool), descriptor(2, PrimTy::U8)];
    let violation = verify_composite(Capability::AllBitsValid, &fields).unwrap_err();
    assert_eq!(violation.capability, Capability::AllBitsValid);
    assert_eq!(violation.field_index, 0);
    assert_eq!(violation.field_id, 1);
}

#[test]
fn verification_reports_first_offender() {
    let fields = vec![
        descriptor(10, PrimTy::U8),
        descriptor(11, PrimTy::U32),
        descriptor(12, PrimTy::U64),
    ];
    let violation = verify_composite(Capability::AlignFree, &fields).unwrap_err();
    assert_eq!(violation.field_index, 1);
    assert_eq!(violation.field_id, 11);
}

#[test]
fn verification_of_no_fields_passes_vacuously() {
    let fields: Vec<TypeDescriptor> = vec![];
    for c in [Capability::AlignFree, Capability::AllBitsValid, Capability::NoInteriorMutation] {
        assert!(verify_composite(c, &fields).is_ok());
    }
}

#[test]
fn derivation_grants_exactly_the_request() {
    let fields = vec![descriptor(1, PrimTy::Unit), descriptor(2, PrimTy::U8)];
    let requested = CapSet { align_free: true, all_bits_valid: false, no_interior_mutation: true };
    let derived = derive_composite(42, requested, &fields).unwrap();
    assert_eq!(derived.id, 42);
    // The author asked for less than the fields would support; the
    // mechanism does not widen the request.
    assert_eq!(derived.caps, requested);
}

#[test]
fn derivation_of_all_three_passes_for_unit_and_byte() {
    let fields = vec![descriptor(1, PrimTy::Unit), descriptor(2, PrimTy::U8)];
    let requested = CapSet { align_free: true, all_bits_valid: true, no_interior_mutation: true };
    let derived = derive_composite(7, requested, &fields).unwrap();
    assert_eq!(derived.caps, requested);
}

#[test]
fn derivation_fails_for_bool_requesting_validity() {
    let fields = vec![descriptor(1, PrimTy::Bool), descriptor(2, PrimTy::U8)];
    let requested = CapSet { align_free: false, all_bits_valid: true, no_interior_mutation: false };
    let violation = derive_composite(7, requested, &fields).unwrap_err();
    assert_eq!(violation.capability, Capability::AllBitsValid);
    assert_eq!(violation.field_index, 0);
    assert_eq!(violation.field_id, 1);
}

#[test]
fn derivation_of_nothing_always_passes() {
    // Requesting no capability asks nothing of the fields, even of one
    // that grants none.
    let bare = TypeDescriptor { id: 5, caps: CapSet::none() };
    let fields = vec![bare];
    let derived = derive_composite(1, CapSet::none(), &fields).unwrap();
    assert_eq!(derived.caps, CapSet::none());
}

#[test]
fn derivation_reports_first_violated_capability() {
    // u16 lacks AlignFree; Cell-like payloads lack NoInteriorMutation.
    let cell_like = TypeDescriptor {
        id: 3,
        caps: CapSet { align_free: true, all_bits_valid: true, no_interior_mutation: false },
    };
    let fields = vec![descriptor(1, PrimTy::U16), cell_like];
    let requested = CapSet { align_free: true, all_bits_valid: true, no_interior_mutation: true };
    let violation = derive_composite(9, requested, &fields).unwrap_err();
    assert_eq!(violation.capability, Capability::AlignFree);
    assert_eq!(violation.field_index, 0);
    assert_eq!(violation.field_id, 1);
}
