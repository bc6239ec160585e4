use crate::cap::{CapSet, Capability};
use vstd::prelude::*;

verus! {

/// Whether every component set in `fields` grants the capability `c`.
/// An empty list holds this vacuously.
pub open spec fn spec_all_hold(fields: Seq<CapSet>, c: Capability) -> bool {
    forall|i: int| 0 <= i < fields.len() ==> (#[trigger] fields[i]).spec_holds(c)
}

/// The capability set of a composite built from components with the
/// sets `fields`: per capability, the logical AND over all components.
/// A composite with no fields holds every capability vacuously.
pub open spec fn spec_composite_caps(fields: Seq<CapSet>) -> CapSet {
    CapSet {
        align_free: spec_all_hold(fields, Capability::AlignFree),
        all_bits_valid: spec_all_hold(fields, Capability::AllBitsValid),
        no_interior_mutation: spec_all_hold(fields, Capability::NoInteriorMutation),
    }
}

/// The capability set of a fixed-length sequence of `len` elements
/// whose element type has the set `elem`.  A zero-length sequence
/// stores nothing, so `AllBitsValid` and `NoInteriorMutation` hold
/// unconditionally; `AlignFree` holds exactly when the element type
/// would grant it.
pub open spec fn spec_sequence_caps(elem: CapSet, len: nat) -> CapSet {
    if len == 0 {
        CapSet { align_free: elem.align_free, all_bits_valid: true, no_interior_mutation: true }
    } else {
        elem
    }
}

/// Computes a composite's capability set as the AND, per capability,
/// of its components' sets.
pub fn composite_caps(fields: &Vec<CapSet>) -> (r: CapSet)
    ensures
        r == spec_composite_caps(fields@),
{
    let mut acc = CapSet::all();
    let mut i: usize = 0;
    while i < fields.len()
        invariant
            0 <= i <= fields.len(),
            acc.align_free == spec_all_hold(fields@.subrange(0, i as int), Capability::AlignFree),
            acc.all_bits_valid == spec_all_hold(
                fields@.subrange(0, i as int),
                Capability::AllBitsValid,
            ),
            acc.no_interior_mutation == spec_all_hold(
                fields@.subrange(0, i as int),
                Capability::NoInteriorMutation,
            ),
        decreases fields.len() - i,
    {
        let ghost prefix = fields@.subrange(0, i as int);
        let ghost next = fields@.subrange(0, i + 1);
        proof {
            let fi = fields@[i as int];
            assert forall|c: Capability|
                spec_all_hold(next, c) == (spec_all_hold(prefix, c) && #[trigger] fi.spec_holds(
                    c,
                )) by {
                assert(forall|j: int| 0 <= j < prefix.len() ==> prefix[j] == next[j]);
                assert(next[i as int] == fi);
                if spec_all_hold(prefix, c) && fi.spec_holds(c) {
                    assert forall|j: int| 0 <= j < next.len() implies (#[trigger] next[j]).spec_holds(
                        c,
                    ) by {
                        if j < i as int {
                            assert(prefix[j].spec_holds(c));
                        }
                    }
                }
            }
        }
        acc = acc.intersect(&fields[i]);
        i = i + 1;
    }
    proof {
        assert(fields@.subrange(0, fields@.len() as int) =~= fields@);
    }
    acc
}

/// Computes the capability set of a fixed-length sequence from its
/// element type's set and its length.
pub fn sequence_caps(elem: CapSet, len: usize) -> (r: CapSet)
    ensures
        r == spec_sequence_caps(elem, len as nat),
{
    if len == 0 {
        CapSet { align_free: elem.align_free, all_bits_valid: true, no_interior_mutation: true }
    } else {
        elem
    }
}

/// AND-composition: a composite grants a capability exactly when every
/// component grants it.
pub proof fn lemma_and_composition(fields: Seq<CapSet>, c: Capability)
    ensures
        spec_composite_caps(fields).spec_holds(c) <==> spec_all_hold(fields, c),
{
}

/// Vacuous truth: a composite with no fields grants every capability,
/// and a zero-length sequence grants `AllBitsValid` and
/// `NoInteriorMutation` no matter what its absent element type is.
pub proof fn lemma_vacuous_truth(elem: CapSet, c: Capability)
    ensures
        spec_composite_caps(Seq::<CapSet>::empty()).spec_holds(c),
        spec_sequence_caps(elem, 0).spec_holds(Capability::AllBitsValid),
        spec_sequence_caps(elem, 0).spec_holds(Capability::NoInteriorMutation),
{
}

} // verus!
