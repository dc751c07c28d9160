//! The persisted custody record: one byte, the derivation nonce.

use vstd::prelude::*;

verus! {

/// The state stored at the custody authority address. Holding the nonce is
/// what lets the program later re-assert ("re-sign") as that address.
#[derive(Clone, Copy, Debug)]
pub struct Rooster {
    pub bump: u8,
}

impl Rooster {
    pub fn new(bump: u8) -> (r: Self)
        ensures
            r.bump == bump,
    {
        Self { bump }
    }

    /// The on-ledger layout of the record: exactly one byte, the nonce.
    pub open spec fn spec_serialized(&self) -> Seq<u8> {
        seq![self.bump]
    }

    /// Serialize the record for persistence.
    pub fn serialized(&self) -> (v: Vec<u8>)
        ensures
            v@ == self.spec_serialized(),
            v@.len() == 1,
    {
        let mut v: Vec<u8> = Vec::new();
        v.push(self.bump);
        proof {
            assert(v@ =~= seq![self.bump]);
        }
        v
    }
}

} // verus!
