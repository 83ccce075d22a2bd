//! The layout of a 64-bit SteamID and the facts about it that the rest of the module uses.

use vstd::prelude::*;

verus! {

/// Bits 52..=55: the account type.
pub const ACCOUNT_TYPE_MASK: u64 = 0x00F0_0000_0000_0000u64;

/// Bits 32..=51: the instance.
pub const INSTANCE_MASK: u64 = 0x000F_FFFF_0000_0000u64;

/// Bits 1..=31: the account number.
pub const ACCOUNT_NUMBER_MASK: u64 = 0x0000_0000_FFFF_FFFEu64;

pub open spec fn raw_universe(v: u64) -> u64 {
    v >> 56u64
}

pub open spec fn raw_account_type(v: u64) -> u64 {
    (v & ACCOUNT_TYPE_MASK) >> 52u64
}

pub open spec fn raw_instance(v: u64) -> u64 {
    (v & INSTANCE_MASK) >> 32u64
}

pub open spec fn raw_account_number(v: u64) -> u64 {
    (v & ACCOUNT_NUMBER_MASK) >> 1u64
}

pub open spec fn raw_y(v: u64) -> u64 {
    v & 1u64
}

/// The 64-bit SteamID with the given fields.
pub open spec fn pack(universe: u64, account_type: u64, instance: u64, account_number: u64, y: u64) -> u64 {
    (universe << 56u64) | (account_type << 52u64) | (instance << 32u64) | (account_number << 1u64) | y
}

/// The fields of a packed SteamID are the fields it was packed from.
pub proof fn lemma_pack_fields(u: u64, t: u64, i: u64, a: u64, y: u64)
    requires
        u < 256,
        t < 16,
        i < 0x10_0000,
        a < 0x8000_0000,
        y < 2,
    ensures
        raw_universe(pack(u, t, i, a, y)) == u,
        raw_account_type(pack(u, t, i, a, y)) == t,
        raw_instance(pack(u, t, i, a, y)) == i,
        raw_account_number(pack(u, t, i, a, y)) == a,
        raw_y(pack(u, t, i, a, y)) == y,
{
    assert(((u << 56u64) | (t << 52u64) | (i << 32u64) | (a << 1u64) | y) >> 56u64 == u)
        by (bit_vector)
        requires
            u < 256, t < 16, i < 0x10_0000, a < 0x8000_0000, y < 2,
    ;
    assert((((u << 56u64) | (t << 52u64) | (i << 32u64) | (a << 1u64) | y) & 0x00F0_0000_0000_0000u64)
        >> 52u64 == t) by (bit_vector)
        requires
            u < 256, t < 16, i < 0x10_0000, a < 0x8000_0000, y < 2,
    ;
    assert((((u << 56u64) | (t << 52u64) | (i << 32u64) | (a << 1u64) | y) & 0x000F_FFFF_0000_0000u64)
        >> 32u64 == i) by (bit_vector)
        requires
            u < 256, t < 16, i < 0x10_0000, a < 0x8000_0000, y < 2,
    ;
    assert((((u << 56u64) | (t << 52u64) | (i << 32u64) | (a << 1u64) | y) & 0x0000_0000_FFFF_FFFEu64)
        >> 1u64 == a) by (bit_vector)
        requires
            u < 256, t < 16, i < 0x10_0000, a < 0x8000_0000, y < 2,
    ;
    assert((((u << 56u64) | (t << 52u64) | (i << 32u64) | (a << 1u64) | y) & 1u64) == y)
        by (bit_vector)
        requires
            u < 256, t < 16, i < 0x10_0000, a < 0x8000_0000, y < 2,
    ;
}

/// Every 64-bit value is the packing of its own fields, and the fields are in range.
pub proof fn lemma_unpack(v: u64)
    ensures
        pack(raw_universe(v), raw_account_type(v), raw_instance(v), raw_account_number(v), raw_y(v))
            == v,
        raw_universe(v) < 256,
        raw_account_type(v) < 16,
        raw_instance(v) < 0x10_0000,
        raw_account_number(v) < 0x8000_0000,
        raw_y(v) < 2,
{
    assert(((v >> 56u64) << 56u64) | (((v & 0x00F0_0000_0000_0000u64) >> 52u64) << 52u64) | (((v
        & 0x000F_FFFF_0000_0000u64) >> 32u64) << 32u64) | (((v & 0x0000_0000_FFFF_FFFEu64) >> 1u64)
        << 1u64) | (v & 1u64) == v) by (bit_vector);
    assert(v >> 56u64 < 256) by (bit_vector);
    assert((v & 0x00F0_0000_0000_0000u64) >> 52u64 < 16) by (bit_vector);
    assert((v & 0x000F_FFFF_0000_0000u64) >> 32u64 < 0x10_0000) by (bit_vector);
    assert((v & 0x0000_0000_FFFF_FFFEu64) >> 1u64 < 0x8000_0000) by (bit_vector);
    assert(v & 1u64 < 2) by (bit_vector);
}

} // verus!
