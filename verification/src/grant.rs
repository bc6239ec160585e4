use crate::cap::{CapSet, Capability};
use vstd::prelude::*;

verus! {

/// A field's type as the mechanism sees it: an opaque identity plus
/// the capability set already established for that type — by the table
/// for a built-in type, by an earlier verification for a nested
/// composite.  The mechanism never looks inside the type; it delegates
/// to this set alone, which keeps verification linear in field count.
#[derive(Clone, Copy, PartialEq, Eq, Structural, Debug)]
pub struct TypeDescriptor {
    pub id: u64,
    pub caps: CapSet,
}

/// A successful verification: the named capability is extended to the
/// composite whose fields were checked.
#[derive(Clone, Copy, PartialEq, Eq, Structural, Debug)]
pub struct Grant {
    pub capability: Capability,
}

/// A failed verification: the composite requested `capability`, but
/// the field at `field_index` (with type identity `field_id`) does not
/// grant it.  This is fatal at definition time; the composite must not
/// be used.
#[derive(Clone, Copy, PartialEq, Eq, Structural, Debug)]
pub struct SoundnessViolation {
    pub capability: Capability,
    pub field_index: usize,
    pub field_id: u64,
}

/// Whether every field's type grants the capability `c`.
pub open spec fn spec_fields_hold(fields: Seq<TypeDescriptor>, c: Capability) -> bool {
    forall|i: int| 0 <= i < fields.len() ==> (#[trigger] fields[i]).caps.spec_holds(c)
}

/// Whether `i` is the first position whose field's type lacks `c`.
pub open spec fn spec_first_violation(fields: Seq<TypeDescriptor>, c: Capability, i: int) -> bool {
    &&& 0 <= i < fields.len()
    &&& !fields[i].caps.spec_holds(c)
    &&& forall|j: int| 0 <= j < i ==> (#[trigger] fields[j]).caps.spec_holds(c)
}

/// Checks, at definition time, that every field of a composite already
/// grants the requested capability, and on success extends that
/// capability to the composite.  On failure it reports the first
/// offending field; the composite is unsound and must not be defined.
pub fn verify_composite(target: Capability, fields: &Vec<TypeDescriptor>) -> (r: Result<
    Grant,
    SoundnessViolation,
>)
    ensures
        r is Ok <==> spec_fields_hold(fields@, target),
        r is Ok ==> r->Ok_0 == (Grant { capability: target }),
        r is Err ==> ({
            let e = r->Err_0;
            &&& e.capability == target
            &&& spec_first_violation(fields@, target, e.field_index as int)
            &&& e.field_id == fields@[e.field_index as int].id
        }),
{
    let mut i: usize = 0;
    while i < fields.len()
        invariant
            0 <= i <= fields.len(),
            forall|j: int| 0 <= j < i ==> (#[trigger] fields@[j]).caps.spec_holds(target),
        decreases fields.len() - i,
    {
        let field = &fields[i];
        if !field.caps.holds(target) {
            return Err(
                SoundnessViolation { capability: target, field_index: i, field_id: field.id },
            );
        }
        i = i + 1;
    }
    Ok(Grant { capability: target })
}

/// Whether the author asked for `c` and some field's type lacks it.
pub open spec fn spec_request_violated(
    requested: CapSet,
    fields: Seq<TypeDescriptor>,
    c: Capability,
) -> bool {
    requested.spec_holds(c) && !spec_fields_hold(fields, c)
}

/// Derives a composite's type descriptor from the capabilities its
/// author requests and its ordered field list.  The mechanism grants
/// exactly the requested set — never the maximal set the fields would
/// support — and merely verifies, per requested capability, that every
/// field's type already grants it.  On failure it reports the first
/// requested capability that is violated (in the order `AlignFree`,
/// `AllBitsValid`, `NoInteriorMutation`) together with the first field
/// lacking it.
pub fn derive_composite(id: u64, requested: CapSet, fields: &Vec<TypeDescriptor>) -> (r: Result<
    TypeDescriptor,
    SoundnessViolation,
>)
    ensures
        r is Ok <==> ({
            &&& !spec_request_violated(requested, fields@, Capability::AlignFree)
            &&& !spec_request_violated(requested, fields@, Capability::AllBitsValid)
            &&& !spec_request_violated(requested, fields@, Capability::NoInteriorMutation)
        }),
        r is Ok ==> r->Ok_0 == (TypeDescriptor { id, caps: requested }),
        r is Err ==> ({
            let e = r->Err_0;
            &&& spec_request_violated(requested, fields@, e.capability)
            &&& spec_first_violation(fields@, e.capability, e.field_index as int)
            &&& e.field_id == fields@[e.field_index as int].id
            &&& (e.capability == Capability::AllBitsValid ==> !spec_request_violated(
                requested,
                fields@,
                Capability::AlignFree,
            ))
            &&& (e.capability == Capability::NoInteriorMutation ==> !spec_request_violated(
                requested,
                fields@,
                Capability::AlignFree,
            ) && !spec_request_violated(requested, fields@, Capability::AllBitsValid))
        }),
{
    if requested.align_free {
        let checked = verify_composite(Capability::AlignFree, fields);
        if let Err(e) = checked {
            return Err(e);
        }
    }
    if requested.all_bits_valid {
        let checked = verify_composite(Capability::AllBitsValid, fields);
        if let Err(e) = checked {
            return Err(e);
        }
    }
    if requested.no_interior_mutation {
        let checked = verify_composite(Capability::NoInteriorMutation, fields);
        if let Err(e) = checked {
            return Err(e);
        }
    }
    Ok(TypeDescriptor { id, caps: requested })
}

} // verus!
