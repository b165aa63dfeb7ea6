use vstd::prelude::*;

verus! {

/// An opaque, fixed-size public identifier: it names a principal (an owner, an
/// inheritor, a receiver) or addresses a persisted record. The engine never
/// looks inside an identity; the only operation is equality, and no identity
/// implies control of a record except through an explicit equality check
/// against that record's designated controller.
#[derive(Clone, Copy, PartialEq, Eq, Structural, Debug, Hash)]
pub struct Identity {
    pub w0: u64,
    pub w1: u64,
    pub w2: u64,
    pub w3: u64,
}

impl Identity {
    /// Builds the identifier out of its four words.
    pub fn new(w0: u64, w1: u64, w2: u64, w3: u64) -> (r: Identity)
        ensures
            r == (Identity { w0, w1, w2, w3 }),
    {
        Identity { w0, w1, w2, w3 }
    }
}

} // verus!
