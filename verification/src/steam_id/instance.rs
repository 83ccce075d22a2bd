use vstd::prelude::*;

use crate::steam_id::bits::{raw_instance, INSTANCE_MASK};

verus! {

/// The instance of a SteamID (bits 32..=51).
#[derive(Debug, Clone, Copy, PartialEq, Eq, Hash, PartialOrd, Ord, Structural)]
pub struct Instance(u32);

impl View for Instance {
    type V = u32;

    closed spec fn view(&self) -> u32 {
        self.0
    }
}

impl Instance {
    #[verifier::type_invariant]
    spec fn fits(self) -> bool {
        self.0 < 0x10_0000
    }

    pub fn get(&self) -> (r: u32)
        ensures
            r == self@,
            r < 0x10_0000,
    {
        proof {
            use_type_invariant(self);
        }
        self.0
    }

    /// Reads the instance from bits 32..=51 of a 64-bit SteamID.
    pub(crate) fn from_u64(value: u64) -> (r: Instance)
        ensures
            r@ == raw_instance(value),
    {
        let v = (value & INSTANCE_MASK) >> 32;
        assert(v < 0x10_0000) by (bit_vector)
            requires
                v == (value & 0x000F_FFFF_0000_0000u64) >> 32u64,
        ;
        Instance(v as u32)
    }
}

/// The instance of ordinary user accounts.
impl Default for Instance {
    fn default() -> (r: Instance)
        ensures
            r@ == 1,
    {
        Instance(1)
    }
}

} // verus!
