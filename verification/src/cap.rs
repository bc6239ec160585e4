use vstd::prelude::*;

verus! {

/// One of the three orthogonal capabilities describing a type's
/// in-memory representation.
#[derive(Clone, Copy, PartialEq, Eq, Structural, Debug)]
pub enum Capability {
    /// The value may be stored at any byte offset.
    AlignFree,
    /// Every bit pattern of the value's storage is a legal value.
    AllBitsValid,
    /// The value holds no internally shareable mutable state.
    NoInteriorMutation,
}

/// The set of capabilities granted to a type.  The capabilities are
/// independent: any subset may hold.  A set is fixed when the type it
/// describes is defined and never changes afterwards.
#[derive(Clone, Copy, PartialEq, Eq, Structural, Debug)]
pub struct CapSet {
    pub align_free: bool,
    pub all_bits_valid: bool,
    pub no_interior_mutation: bool,
}

impl CapSet {
    /// Whether this set grants the capability `c`.
    pub open spec fn spec_holds(self, c: Capability) -> bool {
        match c {
            Capability::AlignFree => self.align_free,
            Capability::AllBitsValid => self.all_bits_valid,
            Capability::NoInteriorMutation => self.no_interior_mutation,
        }
    }

    /// Queries one capability of the set.
    pub fn holds(&self, c: Capability) -> (r: bool)
        ensures
            r == self.spec_holds(c),
    {
        match c {
            Capability::AlignFree => self.align_free,
            Capability::AllBitsValid => self.all_bits_valid,
            Capability::NoInteriorMutation => self.no_interior_mutation,
        }
    }

    /// The set granting all three capabilities.
    pub fn all() -> (r: CapSet)
        ensures
            r == (CapSet { align_free: true, all_bits_valid: true, no_interior_mutation: true }),
            forall|c: Capability| r.spec_holds(c),
    {
        CapSet { align_free: true, all_bits_valid: true, no_interior_mutation: true }
    }

    /// The empty set, granting no capability.
    pub fn none() -> (r: CapSet)
        ensures
            r == (CapSet { align_free: false, all_bits_valid: false, no_interior_mutation: false }),
            forall|c: Capability| !r.spec_holds(c),
    {
        CapSet { align_free: false, all_bits_valid: false, no_interior_mutation: false }
    }

    /// The capability-wise AND of two sets.
    pub fn intersect(&self, other: &CapSet) -> (r: CapSet)
        ensures
            r.align_free == (self.align_free && other.align_free),
            r.all_bits_valid == (self.all_bits_valid && other.all_bits_valid),
            r.no_interior_mutation == (self.no_interior_mutation && other.no_interior_mutation),
            forall|c: Capability| r.spec_holds(c) <==> self.spec_holds(c) && other.spec_holds(c),
    {
        CapSet {
            align_free: self.align_free && other.align_free,
            all_bits_valid: self.all_bits_valid && other.all_bits_valid,
            no_interior_mutation: self.no_interior_mutation && other.no_interior_mutation,
        }
    }
}

} // verus!
