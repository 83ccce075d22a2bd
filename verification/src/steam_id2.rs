//! SteamIDs in their 32-bit form: a non-zero `u32`, which the 64-bit form offsets by a fixed
//! constant.

use vstd::prelude::*;

verus! {

/// The value added to a 32-bit SteamID to get its 64-bit form.
pub const MAGIC_OFFSET: u64 = 76561197960265728u64;

/// A SteamID in its 32-bit form, which is never zero.
#[derive(Debug, Clone, Copy, PartialEq, Eq, PartialOrd, Ord, Hash, Structural)]
pub struct SteamID(u32);

impl View for SteamID {
    type V = u32;

    closed spec fn view(&self) -> u32 {
        self.0
    }
}

impl SteamID {
    #[verifier::type_invariant]
    spec fn non_zero(&self) -> bool {
        self.0 != 0
    }

    /// The smallest SteamID, 1.
    pub fn min() -> (r: SteamID)
        ensures
            r@ == 1,
    {
        SteamID(1)
    }

    /// The largest SteamID, `u32::MAX`.
    pub fn max() -> (r: SteamID)
        ensures
            r@ == u32::MAX,
    {
        SteamID(u32::MAX)
    }

    /// The SteamID with the 32-bit form `value`, unless `value` is zero.
    pub fn new(value: u32) -> (r: Option<SteamID>)
        ensures
            value == 0 ==> r is None,
            value != 0 ==> (r matches Some(s) && s@ == value),
    {
        if value == 0 {
            None
        } else {
            Some(SteamID(value))
        }
    }

    /// The 32-bit form of this SteamID, which is not zero.
    pub fn as_u32(&self) -> (r: u32)
        ensures
            r == self@,
            r != 0,
    {
        proof {
            use_type_invariant(self);
        }
        self.0
    }

    /// The 64-bit form of this SteamID: the 32-bit form plus [`MAGIC_OFFSET`].
    pub fn as_u64(&self) -> (r: u64)
        ensures
            r == self@ + MAGIC_OFFSET,
            r != 0,
    {
        self.0 as u64 + MAGIC_OFFSET
    }
}

} // verus!
