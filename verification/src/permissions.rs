//! User permissions as single bits, and sets of them as bit sets.

use vstd::prelude::*;
use vstd::std_specs::ops::{BitAndSpecImpl, BitOrSpecImpl, BitXorSpecImpl};

use crate::text::str_eq;

verus! {

pub const USER_PERMISSIONS: u64 = 0b0001u64;

pub const SERVERS: u64 = 0b0010u64;

pub const MAP_POOL: u64 = 0b0100u64;

pub const PLAYER_BANS: u64 = 0b1000u64;

/// The bits that name a permission.
pub const ALL_PERMISSIONS: u64 = 0b1111u64;

/// A permission a user can hold.
#[derive(Debug, Clone, Copy, PartialEq, Eq, Hash, Structural)]
pub enum Permission {
    UserPermissions,
    Servers,
    MapPool,
    PlayerBans,
}

/// A set of permissions.
#[derive(Debug, Clone, Copy, PartialEq, Eq, Structural)]
pub struct Permissions(u64);

/// Iterates over the permissions of a set, lowest bit first.
#[derive(Debug, Clone, Copy)]
pub struct PermissionIter {
    bits: u64,
}

/// A string or bit did not name a permission.
#[derive(Debug, Clone, Copy, PartialEq, Eq)]
pub struct UnknownPermission {
    _priv: (),
}

/// The bit of a permission.
pub open spec fn permission_bit(p: Permission) -> u64 {
    match p {
        Permission::UserPermissions => USER_PERMISSIONS,
        Permission::Servers => SERVERS,
        Permission::MapPool => MAP_POOL,
        Permission::PlayerBans => PLAYER_BANS,
    }
}

/// The permission with the bit `b`.
pub open spec fn permission_of_bit(b: u64) -> Option<Permission> {
    if b == USER_PERMISSIONS {
        Some(Permission::UserPermissions)
    } else if b == SERVERS {
        Some(Permission::Servers)
    } else if b == MAP_POOL {
        Some(Permission::MapPool)
    } else if b == PLAYER_BANS {
        Some(Permission::PlayerBans)
    } else {
        None
    }
}

/// The name of a permission.
pub open spec fn permission_name(p: Permission) -> Seq<char> {
    match p {
        Permission::UserPermissions => "user-permissions"@,
        Permission::Servers => "servers"@,
        Permission::MapPool => "map-pool"@,
        Permission::PlayerBans => "player-bans"@,
    }
}

/// The permission that the string `s` names.
pub open spec fn permission_of_name(s: Seq<char>) -> Option<Permission> {
    if s == "user-permissions"@ {
        Some(Permission::UserPermissions)
    } else if s == "servers"@ {
        Some(Permission::Servers)
    } else if s == "map-pool"@ {
        Some(Permission::MapPool)
    } else if s == "player-bans"@ {
        Some(Permission::PlayerBans)
    } else {
        None
    }
}

/// Whether the set `bits` holds the permission `p`.
pub open spec fn has_permission(bits: u64, p: Permission) -> bool {
    bits & permission_bit(p) != 0
}

/// The number of permissions in the set `bits`.
pub open spec fn permission_count(bits: u64) -> int {
    (bits & 1u64) + ((bits >> 1u64) & 1u64) + ((bits >> 2u64) & 1u64) + ((bits >> 3u64) & 1u64)
}

/// Union, intersection and symmetric difference of sets of known permission bits hold only
/// known permission bits.
proof fn lemma_ops_keep_known_bits(a: u64, b: u64)
    by (bit_vector)
    ensures
        a & !15u64 == 0 && b & !15u64 == 0 ==> (a | b) & !15u64 == 0,
        a & !15u64 == 0 ==> (a & b) & !15u64 == 0,
        a & !15u64 == 0 && b & !15u64 == 0 ==> (a ^ b) & !15u64 == 0,
{
}

/// Set operations on single bits: a bit is in a union when it is in either set, in an
/// intersection when it is in both, and in a symmetric difference when it is in exactly one.
proof fn lemma_single_bit_ops(a: u64, c: u64, b: u64)
    by (bit_vector)
    requires
        b == 1u64 || b == 2u64 || b == 4u64 || b == 8u64,
    ensures
        ((a | c) & b != 0) == (a & b != 0 || c & b != 0),
        ((a & c) & b != 0) == (a & b != 0 && c & b != 0),
        ((a ^ c) & b != 0) == (a & b != 0 != (c & b != 0)),
        b & b != 0,
        0u64 & b == 0,
{
}

/// The bits of all permissions in `s`.
pub open spec fn bits_of_permissions(s: Seq<Permission>) -> u64
    decreases s.len(),
{
    if s.len() == 0 {
        0
    } else {
        bits_of_permissions(s.drop_last()) | permission_bit(s.last())
    }
}

/// A permission is in the set built from a list of permissions exactly when the list holds it.
pub proof fn law_from_permissions_members(s: Seq<Permission>, p: Permission)
    ensures
        has_permission(bits_of_permissions(s), p) == s.contains(p),
    decreases s.len(),
{
    if s.len() > 0 {
        let t = s.drop_last();
        law_from_permissions_members(t, p);
        lemma_single_bit_ops(bits_of_permissions(t), permission_bit(s.last()), permission_bit(p));
        if s.last() == p {
            assert(s[s.len() - 1] == p);
        } else {
            assert(has_permission(permission_bit(s.last()), p) == false) by {
                lemma_distinct_bits(s.last(), p);
            }
            if s.contains(p) {
                let k = choose|k: int| 0 <= k < s.len() && s[k] == p;
                assert(t[k] == p);
            }
            if t.contains(p) {
                let k = choose|k: int| 0 <= k < t.len() && t[k] == p;
                assert(s[k] == p);
            }
        }
    } else {
        assert(0u64 & permission_bit(p) == 0) by {
            lemma_single_bit_ops(0, 0, permission_bit(p));
        }
    }
}

/// The bits of two different permissions have no bit in common.
proof fn lemma_distinct_bits(a: Permission, b: Permission)
    requires
        a != b,
    ensures
        permission_bit(a) & permission_bit(b) == 0,
{
    assert(1u64 & 2u64 == 0 && 1u64 & 4u64 == 0 && 1u64 & 8u64 == 0 && 2u64 & 1u64 == 0 && 2u64
        & 4u64 == 0 && 2u64 & 8u64 == 0 && 4u64 & 1u64 == 0 && 4u64 & 2u64 == 0 && 4u64 & 8u64 == 0
        && 8u64 & 1u64 == 0 && 8u64 & 2u64 == 0 && 8u64 & 4u64 == 0) by (bit_vector);
}

/// The union of two sets holds the permissions of either, the intersection those of both, and
/// the symmetric difference those of exactly one.
pub proof fn law_set_operations(a: u64, c: u64, p: Permission)
    ensures
        has_permission(a | c, p) == (has_permission(a, p) || has_permission(c, p)),
        has_permission(a & c, p) == (has_permission(a, p) && has_permission(c, p)),
        has_permission(a ^ c, p) == (has_permission(a, p) != has_permission(c, p)),
{
    lemma_single_bit_ops(a, c, permission_bit(p));
}

/// A set holds at most four permissions.
proof fn lemma_permission_count_bound(v: u64)
    by (bit_vector)
    ensures
        permission_count(v) <= 4,
{
}

/// The permission of the lowest bit set in `bits`.
pub open spec fn lowest_permission(bits: u64) -> Option<Permission> {
    if bits & USER_PERMISSIONS != 0 {
        Some(Permission::UserPermissions)
    } else if bits & SERVERS != 0 {
        Some(Permission::Servers)
    } else if bits & MAP_POOL != 0 {
        Some(Permission::MapPool)
    } else if bits & PLAYER_BANS != 0 {
        Some(Permission::PlayerBans)
    } else {
        None
    }
}

/// The set with the bits `b`.
pub closed spec fn permissions_of_bits(b: u64) -> Permissions {
    Permissions(b)
}

/// The set with the bits `b` has the bits `b`.
pub proof fn lemma_permissions_of_bits(b: u64)
    ensures
        permissions_of_bits(b)@ == b,
{
}

impl View for Permissions {
    type V = u64;

    closed spec fn view(&self) -> u64 {
        self.0
    }
}

impl View for PermissionIter {
    type V = u64;

    closed spec fn view(&self) -> u64 {
        self.bits
    }
}

impl Permission {
    /// The bit of this permission.
    pub fn bit(&self) -> (r: u64)
        ensures
            r == permission_bit(*self),
    {
        match self {
            Permission::UserPermissions => USER_PERMISSIONS,
            Permission::Servers => SERVERS,
            Permission::MapPool => MAP_POOL,
            Permission::PlayerBans => PLAYER_BANS,
        }
    }

    /// The name of this permission.
    pub fn as_str(&self) -> (r: &'static str)
        ensures
            r@ == permission_name(*self),
    {
        match self {
            Permission::UserPermissions => "user-permissions",
            Permission::Servers => "servers",
            Permission::MapPool => "map-pool",
            Permission::PlayerBans => "player-bans",
        }
    }

    /// Reads a permission from its name.
    pub fn parse(value: &str) -> (r: Result<Permission, UnknownPermission>)
        ensures
            match permission_of_name(value@) {
                Some(p) => r == Ok::<Permission, UnknownPermission>(p),
                None => r is Err,
            },
    {
        if str_eq(value, "user-permissions") {
            Ok(Permission::UserPermissions)
        } else if str_eq(value, "servers") {
            Ok(Permission::Servers)
        } else if str_eq(value, "map-pool") {
            Ok(Permission::MapPool)
        } else if str_eq(value, "player-bans") {
            Ok(Permission::PlayerBans)
        } else {
            Err(UnknownPermission { _priv: () })
        }
    }

    /// The permission with the bit `value`.
    pub fn try_from_bits(value: u64) -> (r: Result<Permission, UnknownPermission>)
        ensures
            match permission_of_bit(value) {
                Some(p) => r == Ok::<Permission, UnknownPermission>(p),
                None => r is Err,
            },
    {
        if value == USER_PERMISSIONS {
            Ok(Permission::UserPermissions)
        } else if value == SERVERS {
            Ok(Permission::Servers)
        } else if value == MAP_POOL {
            Ok(Permission::MapPool)
        } else if value == PLAYER_BANS {
            Ok(Permission::PlayerBans)
        } else {
            Err(UnknownPermission { _priv: () })
        }
    }
}

impl Permissions {
    #[verifier::type_invariant]
    spec fn known(self) -> bool {
        self.0 & !ALL_PERMISSIONS == 0
    }

    /// The empty set.
    pub fn none() -> (r: Permissions)
        ensures
            r@ == 0,
    {
        assert(0u64 & !15u64 == 0) by (bit_vector);
        Permissions(0)
    }

    /// The set holding just `permission`.
    pub fn of(permission: Permission) -> (r: Permissions)
        ensures
            r@ == permission_bit(permission),
    {
        let b = permission.bit();
        assert(b == 1u64 || b == 2u64 || b == 4u64 || b == 8u64 ==> b & !15u64 == 0) by (bit_vector);
        Permissions(b)
    }

    /// Whether every permission of `other` is in this set.
    pub fn contains(self, other: Permissions) -> (r: bool)
        ensures
            r == (self@ & other@ == other@),
    {
        (self.0 & other.0) == other.0
    }

    /// Whether `permission` is in this set.
    pub fn contains_permission(self, permission: Permission) -> (r: bool)
        ensures
            r == has_permission(self@, permission),
    {
        let b = permission.bit();
        let v = self.0;
        assert(b == 1u64 || b == 2u64 || b == 4u64 || b == 8u64 ==> ((v & b == b) == (v & b != 0)))
            by (bit_vector);
        (v & b) == b
    }

    /// The number of permissions in this set.
    pub fn count(&self) -> (r: usize)
        ensures
            r == permission_count(self@),
            r <= 4,
    {
        let v = self.0;
        proof {
            lemma_permission_count_bound(v);
        }
        let n = (v & 1) + ((v >> 1) & 1) + ((v >> 2) & 1) + ((v >> 3) & 1);
        n as usize
    }

    /// Iterates over the permissions of this set.
    pub fn iter(&self) -> (r: PermissionIter)
        ensures
            r@ == self@,
    {
        proof {
            use_type_invariant(self);
        }
        PermissionIter { bits: self.0 }
    }

    /// The union of two sets.
    pub fn union(self, other: Permissions) -> (r: Permissions)
        ensures
            r@ == self@ | other@,
    {
        proof {
            use_type_invariant(self);
            use_type_invariant(other);
        }
        let (a, b) = (self.0, other.0);
        proof {
            lemma_ops_keep_known_bits(a, b);
        }
        Permissions(a | b)
    }

    /// The set of the permissions in `permissions`; one listed twice is in the set once.
    pub fn from_permissions(permissions: &[Permission]) -> (r: Permissions)
        ensures
            r@ == bits_of_permissions(permissions@),
    {
        let mut acc = Permissions::none();
        let mut i: usize = 0;
        while i < permissions.len()
            invariant
                i <= permissions@.len(),
                acc@ == bits_of_permissions(permissions@.take(i as int)),
            decreases permissions@.len() - i,
        {
            assert(permissions@.take(i + 1).drop_last() =~= permissions@.take(i as int));
            acc = acc.union(Permissions::of(permissions[i]));
            i = i + 1;
        }
        assert(permissions@.take(i as int) =~= permissions@);
        acc
    }

    /// The intersection of two sets.
    pub fn intersection(self, other: Permissions) -> (r: Permissions)
        ensures
            r@ == self@ & other@,
    {
        proof {
            use_type_invariant(self);
        }
        let (a, b) = (self.0, other.0);
        proof {
            lemma_ops_keep_known_bits(a, b);
        }
        Permissions(a & b)
    }

    /// The permissions in exactly one of the two sets.
    pub fn symmetric_difference(self, other: Permissions) -> (r: Permissions)
        ensures
            r@ == self@ ^ other@,
    {
        proof {
            use_type_invariant(self);
            use_type_invariant(other);
        }
        let (a, b) = (self.0, other.0);
        proof {
            lemma_ops_keep_known_bits(a, b);
        }
        Permissions(a ^ b)
    }
}

impl PermissionIter {
    #[verifier::type_invariant]
    spec fn known(self) -> bool {
        self.bits & !ALL_PERMISSIONS == 0
    }

    /// The permission of the lowest bit left, which is then cleared.
    pub fn next(&mut self) -> (r: Option<Permission>)
        ensures
            old(self)@ & !ALL_PERMISSIONS == 0,
            r == lowest_permission(old(self)@),
            r matches Some(p) ==> final(self)@ == old(self)@ & !permission_bit(p),
            r is None ==> old(self)@ == 0 && final(self)@ == 0,
    {
        proof {
            use_type_invariant(&*self);
        }
        let bits = self.bits;
        if bits == 0 {
            assert(lowest_permission(0u64) is None) by {
                assert(0u64 & 1u64 == 0 && 0u64 & 2u64 == 0 && 0u64 & 4u64 == 0 && 0u64 & 8u64 == 0)
                    by (bit_vector);
            }
            return None;
        }
        let tz = bits.trailing_zeros();
        proof {
            vstd::std_specs::bits::axiom_u64_trailing_zeros(bits);
            assert(bits & !15u64 == 0 && (tz as u64) >= 4 && (tz as u64) < 64 ==> (bits >> (tz as u64))
                & 1u64 == 0) by (bit_vector);
            assert(((bits >> 0u64) & 1u64 == (bits & 1u64)) && ((bits >> 1u64) & 1u64 == 0 <==> bits
                & 2u64 == 0) && ((bits >> 2u64) & 1u64 == 0 <==> bits & 4u64 == 0) && ((bits >> 3u64)
                & 1u64 == 0 <==> bits & 8u64 == 0)) by (bit_vector);
            assert(tz < 4);
            if tz >= 1 {
                assert((bits >> 0u64) & 1u64 == 0u64);
            }
            if tz >= 2 {
                assert((bits >> 1u64) & 1u64 == 0u64);
            }
            if tz >= 3 {
                assert((bits >> 2u64) & 1u64 == 0u64);
            }
            assert(1u64 << 0u32 == 1u64 && 1u64 << 1u32 == 2u64 && 1u64 << 2u32 == 4u64 && 1u64
                << 3u32 == 8u64 && (bits & 1u64 != 0 <==> bits & 1u64 == 1u64)) by (bit_vector);
        }
        let next_bit: u64 = 1u64 << tz;
        let rest = bits & !next_bit;
        assert(bits & !15u64 == 0 ==> (bits & !next_bit) & !15u64 == 0) by (bit_vector);
        self.bits = rest;
        match Permission::try_from_bits(next_bit) {
            Ok(p) => Some(p),
            Err(_) => None,
        }
    }

    /// The number of permissions left.
    pub fn size_hint(&self) -> (r: (usize, Option<usize>))
        ensures
            r.0 == permission_count(self@),
            r.1 == Some(r.0),
    {
        let v = self.bits;
        proof {
            lemma_permission_count_bound(v);
        }
        let n = ((v & 1) + ((v >> 1) & 1) + ((v >> 2) & 1) + ((v >> 3) & 1)) as usize;
        (n, Some(n))
    }
}

impl std::ops::BitOr for Permissions {
    type Output = Permissions;

    fn bitor(self, rhs: Permissions) -> Permissions {
        self.union(rhs)
    }
}

impl BitOrSpecImpl for Permissions {
    open spec fn obeys_bitor_spec() -> bool {
        true
    }

    open spec fn bitor_req(self, rhs: Permissions) -> bool {
        true
    }

    open spec fn bitor_spec(self, rhs: Permissions) -> Permissions {
        permissions_of_bits(self@ | rhs@)
    }
}

impl std::ops::BitOr<Permission> for Permissions {
    type Output = Permissions;

    fn bitor(self, rhs: Permission) -> Permissions {
        self.union(Permissions::of(rhs))
    }
}

impl BitOrSpecImpl<Permission> for Permissions {
    open spec fn obeys_bitor_spec() -> bool {
        true
    }

    open spec fn bitor_req(self, rhs: Permission) -> bool {
        true
    }

    open spec fn bitor_spec(self, rhs: Permission) -> Permissions {
        permissions_of_bits(self@ | permission_bit(rhs))
    }
}

impl std::ops::BitOr for Permission {
    type Output = Permissions;

    fn bitor(self, rhs: Permission) -> Permissions {
        Permissions::of(self).union(Permissions::of(rhs))
    }
}

impl BitOrSpecImpl for Permission {
    open spec fn obeys_bitor_spec() -> bool {
        true
    }

    open spec fn bitor_req(self, rhs: Permission) -> bool {
        true
    }

    open spec fn bitor_spec(self, rhs: Permission) -> Permissions {
        permissions_of_bits(permission_bit(self) | permission_bit(rhs))
    }
}

impl std::ops::BitOr<Permissions> for Permission {
    type Output = Permissions;

    fn bitor(self, rhs: Permissions) -> Permissions {
        Permissions::of(self).union(rhs)
    }
}

impl BitOrSpecImpl<Permissions> for Permission {
    open spec fn obeys_bitor_spec() -> bool {
        true
    }

    open spec fn bitor_req(self, rhs: Permissions) -> bool {
        true
    }

    open spec fn bitor_spec(self, rhs: Permissions) -> Permissions {
        permissions_of_bits(permission_bit(self) | rhs@)
    }
}

impl std::ops::BitOrAssign for Permissions {
    fn bitor_assign(&mut self, rhs: Permissions)
        ensures
            final(self)@ == old(self)@ | rhs@,
    {
        *self = self.union(rhs);
    }
}

impl std::ops::BitOrAssign<Permission> for Permissions {
    fn bitor_assign(&mut self, rhs: Permission)
        ensures
            final(self)@ == old(self)@ | permission_bit(rhs),
    {
        *self = self.union(Permissions::of(rhs));
    }
}

impl std::ops::BitAnd for Permissions {
    type Output = Permissions;

    fn bitand(self, rhs: Permissions) -> Permissions {
        self.intersection(rhs)
    }
}

impl BitAndSpecImpl for Permissions {
    open spec fn obeys_bitand_spec() -> bool {
        true
    }

    open spec fn bitand_req(self, rhs: Permissions) -> bool {
        true
    }

    open spec fn bitand_spec(self, rhs: Permissions) -> Permissions {
        permissions_of_bits(self@ & rhs@)
    }
}

impl std::ops::BitAnd<Permission> for Permissions {
    type Output = Permissions;

    fn bitand(self, rhs: Permission) -> Permissions {
        self.intersection(Permissions::of(rhs))
    }
}

impl BitAndSpecImpl<Permission> for Permissions {
    open spec fn obeys_bitand_spec() -> bool {
        true
    }

    open spec fn bitand_req(self, rhs: Permission) -> bool {
        true
    }

    open spec fn bitand_spec(self, rhs: Permission) -> Permissions {
        permissions_of_bits(self@ & permission_bit(rhs))
    }
}

impl std::ops::BitAnd for Permission {
    type Output = Permissions;

    fn bitand(self, rhs: Permission) -> Permissions {
        Permissions::of(self).intersection(Permissions::of(rhs))
    }
}

impl BitAndSpecImpl for Permission {
    open spec fn obeys_bitand_spec() -> bool {
        true
    }

    open spec fn bitand_req(self, rhs: Permission) -> bool {
        true
    }

    open spec fn bitand_spec(self, rhs: Permission) -> Permissions {
        permissions_of_bits(permission_bit(self) & permission_bit(rhs))
    }
}

impl std::ops::BitAnd<Permissions> for Permission {
    type Output = Permissions;

    fn bitand(self, rhs: Permissions) -> Permissions {
        Permissions::of(self).intersection(rhs)
    }
}

impl BitAndSpecImpl<Permissions> for Permission {
    open spec fn obeys_bitand_spec() -> bool {
        true
    }

    open spec fn bitand_req(self, rhs: Permissions) -> bool {
        true
    }

    open spec fn bitand_spec(self, rhs: Permissions) -> Permissions {
        permissions_of_bits(permission_bit(self) & rhs@)
    }
}

impl std::ops::BitAndAssign for Permissions {
    fn bitand_assign(&mut self, rhs: Permissions)
        ensures
            final(self)@ == old(self)@ & rhs@,
    {
        *self = self.intersection(rhs);
    }
}

impl std::ops::BitAndAssign<Permission> for Permissions {
    fn bitand_assign(&mut self, rhs: Permission)
        ensures
            final(self)@ == old(self)@ & permission_bit(rhs),
    {
        *self = self.intersection(Permissions::of(rhs));
    }
}

impl std::ops::BitXor for Permissions {
    type Output = Permissions;

    fn bitxor(self, rhs: Permissions) -> Permissions {
        self.symmetric_difference(rhs)
    }
}

impl BitXorSpecImpl for Permissions {
    open spec fn obeys_bitxor_spec() -> bool {
        true
    }

    open spec fn bitxor_req(self, rhs: Permissions) -> bool {
        true
    }

    open spec fn bitxor_spec(self, rhs: Permissions) -> Permissions {
        permissions_of_bits(self@ ^ rhs@)
    }
}

impl std::ops::BitXor<Permission> for Permissions {
    type Output = Permissions;

    fn bitxor(self, rhs: Permission) -> Permissions {
        self.symmetric_difference(Permissions::of(rhs))
    }
}

impl BitXorSpecImpl<Permission> for Permissions {
    open spec fn obeys_bitxor_spec() -> bool {
        true
    }

    open spec fn bitxor_req(self, rhs: Permission) -> bool {
        true
    }

    open spec fn bitxor_spec(self, rhs: Permission) -> Permissions {
        permissions_of_bits(self@ ^ permission_bit(rhs))
    }
}

impl std::ops::BitXor for Permission {
    type Output = Permissions;

    fn bitxor(self, rhs: Permission) -> Permissions {
        Permissions::of(self).symmetric_difference(Permissions::of(rhs))
    }
}

impl BitXorSpecImpl for Permission {
    open spec fn obeys_bitxor_spec() -> bool {
        true
    }

    open spec fn bitxor_req(self, rhs: Permission) -> bool {
        true
    }

    open spec fn bitxor_spec(self, rhs: Permission) -> Permissions {
        permissions_of_bits(permission_bit(self) ^ permission_bit(rhs))
    }
}

impl std::ops::BitXor<Permissions> for Permission {
    type Output = Permissions;

    fn bitxor(self, rhs: Permissions) -> Permissions {
        Permissions::of(self).symmetric_difference(rhs)
    }
}

impl BitXorSpecImpl<Permissions> for Permission {
    open spec fn obeys_bitxor_spec() -> bool {
        true
    }

    open spec fn bitxor_req(self, rhs: Permissions) -> bool {
        true
    }

    open spec fn bitxor_spec(self, rhs: Permissions) -> Permissions {
        permissions_of_bits(permission_bit(self) ^ rhs@)
    }
}

impl std::ops::BitXorAssign for Permissions {
    fn bitxor_assign(&mut self, rhs: Permissions)
        ensures
            final(self)@ == old(self)@ ^ rhs@,
    {
        *self = self.symmetric_difference(rhs);
    }
}

impl std::ops::BitXorAssign<Permission> for Permissions {
    fn bitxor_assign(&mut self, rhs: Permission)
        ensures
            final(self)@ == old(self)@ ^ permission_bit(rhs),
    {
        *self = self.symmetric_difference(Permissions::of(rhs));
    }
}

impl std::convert::From<Permission> for Permissions {
    fn from(permission: Permission) -> Permissions {
        Permissions::of(permission)
    }
}

impl vstd::std_specs::convert::FromSpecImpl<Permission> for Permissions {
    open spec fn obeys_from_spec() -> bool {
        true
    }

    open spec fn from_spec(permission: Permission) -> Permissions {
        permissions_of_bits(permission_bit(permission))
    }
}

impl std::str::FromStr for Permission {
    type Err = UnknownPermission;

    fn from_str(value: &str) -> (r: Result<Permission, UnknownPermission>)
        ensures
            match permission_of_name(value@) {
                Some(p) => r == Ok::<Permission, UnknownPermission>(p),
                None => r is Err,
            },
    {
        Permission::parse(value)
    }
}

impl std::convert::TryFrom<u64> for Permission {
    type Error = UnknownPermission;

    fn try_from(value: u64) -> Result<Permission, UnknownPermission> {
        if value == USER_PERMISSIONS {
            Ok(Permission::UserPermissions)
        } else if value == SERVERS {
            Ok(Permission::Servers)
        } else if value == MAP_POOL {
            Ok(Permission::MapPool)
        } else if value == PLAYER_BANS {
            Ok(Permission::PlayerBans)
        } else {
            Err(UnknownPermission { _priv: () })
        }
    }
}

impl vstd::std_specs::convert::TryFromSpecImpl<u64> for Permission {
    open spec fn obeys_try_from_spec() -> bool {
        true
    }

    closed spec fn try_from_spec(value: u64) -> Result<Permission, UnknownPermission> {
        match permission_of_bit(value) {
            Some(p) => Ok(p),
            None => Err(UnknownPermission { _priv: () }),
        }
    }
}

impl Default for Permissions {
    fn default() -> (r: Permissions)
        ensures
            r@ == 0,
    {
        Permissions::none()
    }
}

} // verus!
