use cs2kz::permissions::{Permission, Permissions};

#[test]
fn permission_names_and_bits() {
    assert_eq!(Permission::UserPermissions.as_str(), "user-permissions");
    assert_eq!(Permission::Servers.as_str(), "servers");
    assert_eq!(Permission::MapPool.as_str(), "map-pool");
    assert_eq!(Permission::PlayerBans.as_str(), "player-bans");
    assert_eq!(Permission::UserPermissions.bit(), 1);
    assert_eq!(Permission::Servers.bit(), 2);
    assert_eq!(Permission::MapPool.bit(), 4);
    assert_eq!(Permission::PlayerBans.bit(), 8);
    assert_eq!(Permission::parse("map-pool"), Ok(Permission::MapPool));
    assert!(Permission::parse("admin").is_err());
    assert_eq!(Permission::try_from_bits(8), Ok(Permission::PlayerBans));
    assert!(Permission::try_from_bits(3).is_err());
    assert!(Permission::try_from_bits(16).is_err());
}

#[test]
fn sets_of_permissions() {
    let servers = Permissions::of(Permission::Servers);
    let bans = Permissions::of(Permission::PlayerBans);
    let both = servers.union(bans);
    assert_eq!(both.count(), 2);
    assert!(both.contains(servers));
    assert!(!servers.contains(both));
    assert!(both.contains_permission(Permission::PlayerBans));
    assert!(!both.contains_permission(Permission::MapPool));
    assert_eq!(both.intersection(servers), servers);
    assert_eq!(both.symmetric_difference(servers), bans);
    assert_eq!(Permissions::none().count(), 0);
}

#[test]
fn iterating_permissions_goes_lowest_bit_first() {
    let all = Permissions::of(Permission::PlayerBans)
        .union(Permissions::of(Permission::UserPermissions))
        .union(Permissions::of(Permission::MapPool));
    let mut it = all.iter();
    assert_eq!(it.size_hint(), (3, Some(3)));
    assert_eq!(it.next(), Some(Permission::UserPermissions));
    assert_eq!(it.next(), Some(Permission::MapPool));
    assert_eq!(it.next(), Some(Permission::PlayerBans));
    assert_eq!(it.next(), None);
}

#[test]
fn from_permissions_ignores_duplicates() {
    let set = Permissions::from_permissions(&[
        Permission::MapPool,
        Permission::Servers,
        Permission::MapPool,
    ]);
    assert_eq!(set.count(), 2);
    assert!(set.contains_permission(Permission::MapPool));
    assert!(set.contains_permission(Permission::Servers));
    assert!(!set.contains_permission(Permission::PlayerBans));
    assert_eq!(Permissions::from_permissions(&[]), Permissions::none());
}
